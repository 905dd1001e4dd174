use vstd::prelude::*;
use vstd::string::*;

verus! {

/// The text of capture group `d` (a digit character), or nothing when the
/// group does not exist or took no part in the match.
pub open spec fn group_text(caps: Seq<Option<Seq<char>>>, d: char) -> Seq<char> {
    let k = d as int - '0' as int;
    if 0 <= k < caps.len() && caps[k] is Some {
        caps[k]->Some_0
    } else {
        Seq::empty()
    }
}

pub open spec fn is_group_digit(c: char) -> bool {
    '1' <= c && c <= '9'
}

/// `template` with each placeholder `$d` (d a digit from 1 to 9) replaced by
/// the text of capture group d.
pub open spec fn substitute(template: Seq<char>, caps: Seq<Option<Seq<char>>>) -> Seq<char>
    decreases template.len(),
{
    if template.len() == 0 {
        Seq::empty()
    } else if template.len() >= 2 && template[0] == '$' && is_group_digit(template[1]) {
        group_text(caps, template[1]) + substitute(template.subrange(2, template.len() as int), caps)
    } else {
        seq![template[0]] + substitute(template.subrange(1, template.len() as int), caps)
    }
}

/// `v` without its trailing run of `.0` segments ("14.0.0" becomes "14").
pub open spec fn trim_zero_segments(v: Seq<char>) -> Seq<char>
    decreases v.len(),
{
    if v.len() >= 2 && v[v.len() - 1] == '0' && v[v.len() - 2] == '.' {
        trim_zero_segments(v.subrange(0, v.len() - 2))
    } else {
        v
    }
}

/// `s` with every space removed.
pub open spec fn without_spaces(s: Seq<char>) -> Seq<char>
    decreases s.len(),
{
    if s.len() == 0 {
        Seq::empty()
    } else if s.last() == ' ' {
        without_spaces(s.drop_last())
    } else {
        without_spaces(s.drop_last()).push(s.last())
    }
}

/// `s` with every trailing repetition of `suffix` removed.
pub open spec fn trim_suffix_all(s: Seq<char>, suffix: Seq<char>) -> Seq<char>
    decreases s.len(),
{
    if suffix.len() > 0 && s.len() >= suffix.len() && s.subrange(s.len() - suffix.len(), s.len() as int)
        == suffix {
        trim_suffix_all(s.subrange(0, s.len() - suffix.len()), suffix)
    } else {
        s
    }
}

/// Whether every character of `s` is ASCII.
pub open spec fn ascii_text(s: Seq<char>) -> bool {
    forall|i: int| 0 <= i < s.len() ==> (#[trigger] s[i] as u32) < 128
}

/// An ASCII character with its letter, if any, lower-cased.
pub open spec fn ascii_lower_char(c: char) -> char {
    if 'A' <= c && c <= 'Z' {
        ((c as u32) + 32) as char
    } else {
        c
    }
}

/// An ASCII text with its letters lower-cased.
pub open spec fn ascii_lowered(s: Seq<char>) -> Seq<char> {
    s.map_values(|c: char| ascii_lower_char(c))
}

/// The lower-case form of a text: for ASCII text, its letters lower-cased;
/// otherwise as Unicode defines it.
pub open spec fn lowered(s: Seq<char>) -> Seq<char> {
    if ascii_text(s) {
        ascii_lowered(s)
    } else {
        lower_of(s)
    }
}

/// The lower-case form of a text, as Unicode defines it.
pub uninterp spec fn lower_of(s: Seq<char>) -> Seq<char>;

/// Relies on str::to_lowercase: the result depends on the characters alone,
/// and on ASCII text it maps `A`..`Z` to `a`..`z` and keeps every other
/// character.
#[verifier::external_body]
pub(crate) fn to_lower(s: &str) -> (r: String)
    ensures
        r@ == lower_of(s@),
        ascii_text(s@) ==> r@ == ascii_lowered(s@),
{
    s.to_lowercase()
}

/// Relies on String::push: appends one character.
#[verifier::external_body]
pub(crate) fn push_char(s: &mut String, c: char)
    ensures
        final(s)@ == old(s)@.push(c),
{
    s.push(c)
}

/// Whether two texts hold the same characters.
pub fn same_text(a: &str, b: &str) -> (r: bool)
    ensures
        r == (a@ == b@),
{
    let n = a.unicode_len();
    if n != b.unicode_len() {
        return false;
    }
    let mut i: usize = 0;
    while i < n
        invariant
            n == a@.len(),
            n == b@.len(),
            0 <= i <= n,
            forall|j: int| 0 <= j < i ==> a@[j] == b@[j],
        decreases n - i,
    {
        if a.get_char(i) != b.get_char(i) {
            return false;
        }
        i = i + 1;
    }
    assert(a@ =~= b@);
    true
}

/// A copy of `s`.
pub fn owned(s: &str) -> (r: String)
    ensures
        r@ == s@,
{
    String::from_str(s)
}

proof fn lemma_substitute_step(t: Seq<char>, i: int, caps: Seq<Option<Seq<char>>>)
    requires
        0 <= i < t.len(),
    ensures
        substitute(t.subrange(i, t.len() as int), caps) == if i + 1 < t.len() && t[i] == '$'
            && is_group_digit(t[i + 1]) {
            group_text(caps, t[i + 1]) + substitute(t.subrange(i + 2, t.len() as int), caps)
        } else {
            seq![t[i]] + substitute(t.subrange(i + 1, t.len() as int), caps)
        },
{
    let s = t.subrange(i, t.len() as int);
    assert(s.subrange(1, s.len() as int) =~= t.subrange(i + 1, t.len() as int));
    if s.len() >= 2 {
        assert(s.subrange(2, s.len() as int) =~= t.subrange(i + 2, t.len() as int));
    }
}

/// Fills a rule's template with the capture groups of a match.
pub fn fill_template(template: &str, caps: &Vec<Option<String>>) -> (r: String)
    ensures
        r@ == substitute(template@, caps.deep_view()),
{
    let n = template.unicode_len();
    let mut out = String::new();
    let mut i: usize = 0;
    let ghost t = template@;
    let ghost cv = caps.deep_view();
    proof {
        assert(t.subrange(0, t.len() as int) =~= t);
    }
    while i < n
        invariant
            n == t.len(),
            t == template@,
            cv == caps.deep_view(),
            0 <= i <= n,
            out@ + substitute(t.subrange(i as int, n as int), cv) == substitute(t, cv),
        decreases n - i,
    {
        proof {
            lemma_substitute_step(t, i as int, cv);
        }
        let c = template.get_char(i);
        if c == '$' && i + 1 < n {
            let d = template.get_char(i + 1);
            if '1' <= d && d <= '9' {
                let k = (d as u32 - '0' as u32) as usize;
                if k < caps.len() {
                    match &caps[k] {
                        Some(g) => {
                            let ghost before = out@;
                            out.append(g.as_str());
                            assert(cv[k as int] == Some(g@));
                            assert(out@ + substitute(t.subrange(i + 2, n as int), cv) =~= before
                                + (group_text(cv, d) + substitute(t.subrange(i + 2, n as int), cv)));
                        },
                        None => {
                            assert(group_text(cv, d) =~= Seq::<char>::empty());
                            assert(out@ + (group_text(cv, d) + substitute(t.subrange(i + 2, n as int), cv))
                                =~= out@ + substitute(t.subrange(i + 2, n as int), cv));
                        },
                    }
                } else {
                    assert(group_text(cv, d) =~= Seq::<char>::empty());
                    assert(out@ + (group_text(cv, d) + substitute(t.subrange(i + 2, n as int), cv))
                        =~= out@ + substitute(t.subrange(i + 2, n as int), cv));
                }
                i = i + 2;
                continue;
            }
        }
        let ghost before = out@;
        push_char(&mut out, c);
        assert(out@ + substitute(t.subrange(i + 1, n as int), cv) =~= before + (seq![c]
            + substitute(t.subrange(i + 1, n as int), cv)));
        i = i + 1;
    }
    proof {
        assert(t.subrange(n as int, n as int) =~= Seq::<char>::empty());
        assert(out@ + Seq::<char>::empty() =~= out@);
    }
    out
}


/// Drops the trailing run of `.0` segments from a version.
pub fn trim_version(v: &str) -> (r: String)
    ensures
        r@ == trim_zero_segments(v@),
{
    let mut end = v.unicode_len();
    proof {
        assert(v@.subrange(0, v@.len() as int) =~= v@);
    }
    while end >= 2 && v.get_char(end - 1) == '0' && v.get_char(end - 2) == '.'
        invariant
            end <= v@.len(),
            trim_zero_segments(v@.subrange(0, end as int)) == trim_zero_segments(v@),
        decreases end,
    {
        proof {
            let s = v@.subrange(0, end as int);
            assert(s.subrange(0, s.len() - 2) =~= v@.subrange(0, end - 2));
        }
        end = end - 2;
    }
    proof {
        assert(v@.subrange(0, v@.len() as int) =~= v@);
    }
    String::from_str(v.substring_char(0, end))
}

/// Removes every space from a text.
pub fn remove_spaces(s: &str) -> (r: String)
    ensures
        r@ == without_spaces(s@),
{
    let n = s.unicode_len();
    let mut out = String::new();
    let mut i: usize = 0;
    while i < n
        invariant
            n == s@.len(),
            0 <= i <= n,
            out@ == without_spaces(s@.subrange(0, i as int)),
        decreases n - i,
    {
        let c = s.get_char(i);
        proof {
            let p = s@.subrange(0, i + 1);
            assert(p.drop_last() =~= s@.subrange(0, i as int));
        }
        if c != ' ' {
            push_char(&mut out, c);
        }
        i = i + 1;
    }
    proof {
        assert(s@.subrange(0, n as int) =~= s@);
    }
    out
}

/// Removes every trailing repetition of `suffix` from `s`.
pub fn strip_suffix_all(s: &str, suffix: &str) -> (r: String)
    ensures
        r@ == trim_suffix_all(s@, suffix@),
{
    let m = suffix.unicode_len();
    let mut end = s.unicode_len();
    proof {
        assert(s@.subrange(0, s@.len() as int) =~= s@);
    }
    if m == 0 {
        assert(trim_suffix_all(s@, suffix@) == s@);
        return String::from_str(s);
    }
    loop
        invariant
            m == suffix@.len(),
            m > 0,
            end <= s@.len(),
            trim_suffix_all(s@.subrange(0, end as int), suffix@) == trim_suffix_all(s@, suffix@),
        ensures
            end <= s@.len(),
            s@.subrange(0, end as int) == trim_suffix_all(s@, suffix@),
        decreases end,
    {
        if end < m {
            assert(trim_suffix_all(s@.subrange(0, end as int), suffix@) == s@.subrange(0, end as int));
            break;
        }
        let mut k: usize = 0;
        let mut same = true;
        while k < m
            invariant
                m == suffix@.len(),
                m <= end <= s@.len(),
                0 <= k <= m,
                same == forall|j: int| 0 <= j < k ==> s@[end - m + j] == suffix@[j],
            decreases m - k,
        {
            if s.get_char(end - m + k) != suffix.get_char(k) {
                same = false;
            }
            k = k + 1;
        }
        let ghost p = s@.subrange(0, end as int);
        if !same {
            proof {
                assert(p.subrange(p.len() - m, p.len() as int) != suffix@) by {
                    let j = choose|j: int| 0 <= j < m && s@[end - m + j] != suffix@[j];
                    assert(p.subrange(p.len() - m, p.len() as int)[j] == s@[end - m + j]);
                }
                assert(trim_suffix_all(p, suffix@) == p);
            }
            break;
        }
        proof {
            assert(p.subrange(p.len() - m, p.len() as int) =~= suffix@);
            assert(p.subrange(0, p.len() - m) =~= s@.subrange(0, end - m));
        }
        end = end - m;
    }
    String::from_str(s.substring_char(0, end))
}

} // verus!
