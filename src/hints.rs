use vstd::prelude::*;
use crate::text::{owned, same_text};

verus! {

/// Two characters that are equal once ASCII letters are lower-cased.
pub open spec fn same_letter(a: char, b: char) -> bool {
    let (x, y) = (a as u32, b as u32);
    x == y || (65 <= x && x <= 90 && x + 32 == y) || (65 <= y && y <= 90 && y + 32 == x)
}

/// Two texts that are equal once ASCII letters are lower-cased.
pub open spec fn same_name(a: Seq<char>, b: Seq<char>) -> bool {
    a.len() == b.len() && forall|i: int| 0 <= i < a.len() ==> same_letter(#[trigger] a[i], b[i])
}

/// The value syntax of a hint.
#[derive(Debug, Clone, Copy, PartialEq, Eq, Structural)]
pub enum HintSyntax {
    /// A structured-header boolean: `?1` or `?0`.
    Boolean,
    /// A non-empty structured-header string between double quotes.
    Quoted,
    /// A non-empty plain token.
    Token,
}

/// Whether `v` is well-formed in the syntax `k`.
pub open spec fn well_formed(k: HintSyntax, v: Seq<char>) -> bool {
    match k {
        HintSyntax::Boolean => v.len() == 2 && v[0] == '?' && (v[1] == '1' || v[1] == '0'),
        HintSyntax::Quoted => v.len() > 2 && v[0] == '"' && v[v.len() - 1] == '"',
        HintSyntax::Token => v.len() > 0,
    }
}

/// The value of the last header named `name` (ignoring ASCII case) whose
/// value is well-formed in the syntax `k`; malformed values count as absent.
pub open spec fn header_value(hs: Seq<(String, String)>, name: Seq<char>, k: HintSyntax) -> Option<Seq<char>>
    decreases hs.len(),
{
    if hs.len() == 0 {
        None
    } else if same_name(hs.last().0@, name) && well_formed(k, hs.last().1@) {
        Some(hs.last().1@)
    } else {
        header_value(hs.drop_last(), name, k)
    }
}

proof fn lemma_value_well_formed(hs: Seq<(String, String)>, name: Seq<char>, k: HintSyntax)
    ensures
        header_value(hs, name, k) matches Some(v) ==> well_formed(k, v),
    decreases hs.len(),
{
    if hs.len() > 0 {
        lemma_value_well_formed(hs.drop_last(), name, k);
    }
}

/// The text of a quoted value.
pub open spec fn unquoted(v: Option<Seq<char>>) -> Option<Seq<char>> {
    match v {
        Some(x) => Some(x.subrange(1, x.len() - 1)),
        None => None,
    }
}

/// A non-empty plain token.
pub open spec fn plain_token(v: Seq<char>) -> Option<Seq<char>> {
    if v.len() > 0 {
        Some(v)
    } else {
        None
    }
}

/// What a set of client-hint headers says.
pub struct HintModel {
    pub mobile: bool,
    pub platform: Option<Seq<char>>,
    pub platform_version: Option<Seq<char>>,
    pub architecture: Option<Seq<char>>,
    pub app: Option<Seq<char>>,
}

/// The hints carried by `hs`.
pub open spec fn hints_of(hs: Seq<(String, String)>) -> HintModel {
    HintModel {
        mobile: match header_value(hs, "sec-ch-ua-mobile"@, HintSyntax::Boolean) {
            Some(v) => v[1] == '1',
            None => false,
        },
        platform: unquoted(header_value(hs, "sec-ch-ua-platform"@, HintSyntax::Quoted)),
        platform_version: unquoted(header_value(hs, "sec-ch-ua-platform-version"@, HintSyntax::Quoted)),
        architecture: unquoted(header_value(hs, "sec-ch-ua-arch"@, HintSyntax::Quoted)),
        app: header_value(hs, "x-requested-with"@, HintSyntax::Token),
    }
}

/// Whether header `h` carries no well-formed value of any hint.
pub open spec fn malformed_hint(h: (String, String)) -> bool {
    &&& same_name(h.0@, "sec-ch-ua-mobile"@) ==> !well_formed(HintSyntax::Boolean, h.1@)
    &&& same_name(h.0@, "sec-ch-ua-platform"@) ==> !well_formed(HintSyntax::Quoted, h.1@)
    &&& same_name(h.0@, "sec-ch-ua-platform-version"@) ==> !well_formed(HintSyntax::Quoted, h.1@)
    &&& same_name(h.0@, "sec-ch-ua-arch"@) ==> !well_formed(HintSyntax::Quoted, h.1@)
    &&& same_name(h.0@, "x-requested-with"@) ==> !well_formed(HintSyntax::Token, h.1@)
}

/// Two header lists that differ at most in the ASCII case of names.
pub open spec fn same_but_case(h1: Seq<(String, String)>, h2: Seq<(String, String)>) -> bool {
    h1.len() == h2.len() && forall|i: int|
        0 <= i < h1.len() ==> same_name((#[trigger] h1[i]).0@, h2[i].0@) && h1[i].1@ == h2[i].1@
}

proof fn lemma_value_ignores_case(h1: Seq<(String, String)>, h2: Seq<(String, String)>, name: Seq<char>, k: HintSyntax)
    requires
        same_but_case(h1, h2),
    ensures
        header_value(h1, name, k) == header_value(h2, name, k),
    decreases h1.len(),
{
    if h1.len() > 0 {
        let a = h1.last().0@;
        let b = h2.last().0@;
        assert(h1[h1.len() - 1] == h1.last());
        assert(same_name(a, b));
        if same_name(a, name) {
            assert forall|i: int| 0 <= i < b.len() implies same_letter(#[trigger] b[i], name[i]) by {
                assert(same_letter(a[i], b[i]));
                assert(same_letter(a[i], name[i]));
            }
        }
        if same_name(b, name) {
            assert forall|i: int| 0 <= i < a.len() implies same_letter(#[trigger] a[i], name[i]) by {
                assert(same_letter(a[i], b[i]));
                assert(same_letter(b[i], name[i]));
            }
        }
        assert(same_but_case(h1.drop_last(), h2.drop_last())) by {
            assert forall|i: int| 0 <= i < h1.drop_last().len() implies same_name(
                (#[trigger] h1.drop_last()[i]).0@,
                h2.drop_last()[i].0@,
            ) && h1.drop_last()[i].1@ == h2.drop_last()[i].1@ by {
                assert(h1.drop_last()[i] == h1[i]);
                assert(h2.drop_last()[i] == h2[i]);
            }
        }
        lemma_value_ignores_case(h1.drop_last(), h2.drop_last(), name, k);
    }
}

/// Header names are compared without regard to ASCII case: header lists
/// that differ only there carry the same hints.
pub proof fn lemma_hints_ignore_name_case(h1: Seq<(String, String)>, h2: Seq<(String, String)>)
    requires
        same_but_case(h1, h2),
    ensures
        hints_of(h1) == hints_of(h2),
{
    lemma_value_ignores_case(h1, h2, "sec-ch-ua-mobile"@, HintSyntax::Boolean);
    lemma_value_ignores_case(h1, h2, "sec-ch-ua-platform"@, HintSyntax::Quoted);
    lemma_value_ignores_case(h1, h2, "sec-ch-ua-platform-version"@, HintSyntax::Quoted);
    lemma_value_ignores_case(h1, h2, "sec-ch-ua-arch"@, HintSyntax::Quoted);
    lemma_value_ignores_case(h1, h2, "x-requested-with"@, HintSyntax::Token);
}

proof fn lemma_value_skips(hs: Seq<(String, String)>, k: int, x: (String, String), name: Seq<char>, syntax: HintSyntax)
    requires
        0 <= k <= hs.len(),
        !(same_name(x.0@, name) && well_formed(syntax, x.1@)),
    ensures
        header_value(hs.insert(k, x), name, syntax) == header_value(hs, name, syntax),
    decreases hs.len(),
{
    let ins = hs.insert(k, x);
    if k == hs.len() {
        assert(ins.drop_last() =~= hs);
        assert(ins.last() == x);
    } else {
        assert(ins.last() == hs.last());
        assert(ins.drop_last() =~= hs.drop_last().insert(k, x));
        lemma_value_skips(hs.drop_last(), k, x, name, syntax);
    }
}

/// A header that carries no well-formed hint value changes nothing, wherever
/// it stands among the others.
pub proof fn lemma_malformed_header_ignored(hs: Seq<(String, String)>, k: int, x: (String, String))
    requires
        0 <= k <= hs.len(),
        malformed_hint(x),
    ensures
        hints_of(hs.insert(k, x)) == hints_of(hs),
{
    lemma_value_skips(hs, k, x, "sec-ch-ua-mobile"@, HintSyntax::Boolean);
    lemma_value_skips(hs, k, x, "sec-ch-ua-platform"@, HintSyntax::Quoted);
    lemma_value_skips(hs, k, x, "sec-ch-ua-platform-version"@, HintSyntax::Quoted);
    lemma_value_skips(hs, k, x, "sec-ch-ua-arch"@, HintSyntax::Quoted);
    lemma_value_skips(hs, k, x, "x-requested-with"@, HintSyntax::Token);
}

/// Signals taken from client-hint headers.
#[derive(Debug)]
pub struct ClientHint {
    pub mobile: bool,
    pub platform: Option<String>,
    pub platform_version: Option<String>,
    pub architecture: Option<String>,
    pub app: Option<String>,
}

impl View for ClientHint {
    type V = HintModel;

    open spec fn view(&self) -> HintModel {
        HintModel {
            mobile: self.mobile,
            platform: self.platform.deep_view(),
            platform_version: self.platform_version.deep_view(),
            architecture: self.architecture.deep_view(),
            app: self.app.deep_view(),
        }
    }
}

/// The hints of an optional hint set.
pub open spec fn hint_view(hints: Option<&ClientHint>) -> Option<HintModel> {
    match hints {
        Some(h) => Some(h@),
        None => None,
    }
}

/// Whether two texts are equal once ASCII letters are lower-cased.
pub fn names_match(a: &str, b: &str) -> (r: bool)
    ensures
        r == same_name(a@, b@),
{
    let n = a.unicode_len();
    if n != b.unicode_len() {
        return false;
    }
    let mut i: usize = 0;
    while i < n
        invariant
            n == a@.len(),
            n == b@.len(),
            0 <= i <= n,
            forall|j: int| 0 <= j < i ==> same_letter(#[trigger] a@[j], b@[j]),
        decreases n - i,
    {
        let x = a.get_char(i) as u32;
        let y = b.get_char(i) as u32;
        let same = x == y || (65 <= x && x <= 90 && x + 32 == y) || (65 <= y && y <= 90 && y + 32
            == x);
        if !same {
            return false;
        }
        i = i + 1;
    }
    true
}

fn is_well_formed(k: HintSyntax, v: &str) -> (r: bool)
    ensures
        r == well_formed(k, v@),
{
    let n = v.unicode_len();
    match k {
        HintSyntax::Boolean => n == 2 && v.get_char(0) == '?' && (v.get_char(1) == '1' || v.get_char(1)
            == '0'),
        HintSyntax::Quoted => n > 2 && v.get_char(0) == '"' && v.get_char(n - 1) == '"',
        HintSyntax::Token => n > 0,
    }
}

/// The value of the last well-formed header named `name`.
fn find_header(hs: &Vec<(String, String)>, name: &str, k: HintSyntax) -> (r: Option<String>)
    ensures
        r.deep_view() == header_value(hs@, name@, k),
{
    let n = hs.len();
    let mut found: Option<String> = None;
    let mut i: usize = 0;
    while i < n
        invariant
            n == hs@.len(),
            0 <= i <= n,
            found.deep_view() == header_value(hs@.subrange(0, i as int), name@, k),
        decreases n - i,
    {
        proof {
            assert(hs@.subrange(0, i + 1).drop_last() =~= hs@.subrange(0, i as int));
        }
        if names_match(hs[i].0.as_str(), name) && is_well_formed(k, hs[i].1.as_str()) {
            found = Some(hs[i].1.clone());
        }
        i = i + 1;
    }
    proof {
        assert(hs@.subrange(0, n as int) =~= hs@);
    }
    found
}

fn quoted_header(hs: &Vec<(String, String)>, name: &str) -> (r: Option<String>)
    ensures
        r.deep_view() == unquoted(header_value(hs@, name@, HintSyntax::Quoted)),
{
    proof {
        lemma_value_well_formed(hs@, name@, HintSyntax::Quoted);
    }
    match find_header(hs, name, HintSyntax::Quoted) {
        Some(v) => {
            let n = v.unicode_len();
            Some(owned(v.as_str().substring_char(1, n - 1)))
        },
        None => None,
    }
}

impl ClientHint {
    /// Reads client hints from header name/value pairs. Names are compared
    /// without regard to ASCII case; a malformed value counts as absent; of
    /// several well-formed values for one hint, the last wins.
    pub fn from_headers(headers: &Vec<(String, String)>) -> (r: ClientHint)
        ensures
            r@ == hints_of(headers@),
    {
        proof {
            lemma_value_well_formed(headers@, "sec-ch-ua-mobile"@, HintSyntax::Boolean);
        }
        let mobile = match find_header(headers, "sec-ch-ua-mobile", HintSyntax::Boolean) {
            Some(v) => v.as_str().get_char(1) == '1',
            None => false,
        };
        let platform = quoted_header(headers, "sec-ch-ua-platform");
        let platform_version = quoted_header(headers, "sec-ch-ua-platform-version");
        let architecture = quoted_header(headers, "sec-ch-ua-arch");
        let app = find_header(headers, "x-requested-with", HintSyntax::Token);
        ClientHint { mobile, platform, platform_version, architecture, app }
    }
}

/// The application name that `apps` gives for the application id `app`;
/// where several entries carry the id, the last of them.
pub open spec fn app_name(apps: Seq<(String, String)>, app: Seq<char>) -> Option<Seq<char>>
    decreases apps.len(),
{
    if apps.len() == 0 {
        None
    } else if apps.last().0@ == app {
        Some(apps.last().1@)
    } else {
        app_name(apps.drop_last(), app)
    }
}

/// Looks up the application that the id `app` (the value of an
/// `X-Requested-With` hint) stands for.
pub fn get_hint(apps: &Vec<(String, String)>, app: &str) -> (r: Option<String>)
    ensures
        r.deep_view() == app_name(apps@, app@),
{
    let n = apps.len();
    let mut found: Option<String> = None;
    let mut i: usize = 0;
    while i < n
        invariant
            n == apps@.len(),
            0 <= i <= n,
            found.deep_view() == app_name(apps@.subrange(0, i as int), app@),
        decreases n - i,
    {
        proof {
            assert(apps@.subrange(0, i + 1).drop_last() =~= apps@.subrange(0, i as int));
        }
        if same_text(apps[i].0.as_str(), app) {
            found = Some(apps[i].1.clone());
        }
        i = i + 1;
    }
    proof {
        assert(apps@.subrange(0, n as int) =~= apps@);
    }
    found
}

} // verus!
