use vstd::prelude::*;
use crate::hints::{hint_view, plain_token, ClientHint, HintModel};
use crate::pattern::{user_agent_pattern, ua_pattern_text, DetectError, PatternCache, compiles};
use crate::rules::{hit_view, scan_fails, ua_hit, RuleList};
use crate::text::{fill_template, substitute, trim_version, trim_zero_segments};

verus! {

/// An operating system.
#[derive(Debug, Clone)]
pub struct OS {
    pub name: String,
    pub version: Option<String>,
    pub platform: Option<String>,
}

pub struct OsModel {
    pub name: Seq<char>,
    pub version: Option<Seq<char>>,
    pub platform: Option<Seq<char>>,
}

impl View for OS {
    type V = OsModel;

    open spec fn view(&self) -> OsModel {
        OsModel {
            name: self.name@,
            version: self.version.deep_view(),
            platform: self.platform.deep_view(),
        }
    }
}

pub open spec fn os_view(o: Option<OS>) -> Option<OsModel> {
    match o {
        Some(o) => Some(o@),
        None => None,
    }
}

/// The templates that an operating-system rule fills from its match.
pub struct OsRule {
    pub name: String,
    pub version: String,
}

/// The version that a template yields: trailing `.0` segments dropped, and
/// absent when nothing is left.
pub open spec fn version_from(template: Seq<char>, caps: Seq<Option<Seq<char>>>) -> Option<Seq<char>> {
    plain_token(trim_zero_segments(substitute(template, caps)))
}

/// `hint` where it is present, else `fallback`.
pub open spec fn prefer(hint: Option<Seq<char>>, fallback: Option<Seq<char>>) -> Option<Seq<char>> {
    match hint {
        Some(h) => Some(h),
        None => fallback,
    }
}

/// The operating system that a rule hit (`None` when no rule matched) and
/// client hints give: the rule supplies name and version, and client hints
/// supersede each field they carry.
pub open spec fn os_from_hit(
    rules: RuleList<OsRule>,
    hit: Option<(int, Seq<Option<Seq<char>>>)>,
    hints: Option<HintModel>,
) -> Option<OsModel> {
    let from_ua: Option<(Seq<char>, Option<Seq<char>>)> = match hit {
        Some((i, caps)) => Some(
            (substitute(rules.items()[i].name@, caps), version_from(rules.items()[i].version@, caps)),
        ),
        None => None,
    };
    let (hint_name, hint_version, hint_arch) = match hints {
        Some(h) => (h.platform, h.platform_version, h.architecture),
        None => (None, None, None),
    };
    match (from_ua, hint_name) {
        (None, None) => None,
        (Some((n, v)), _) => Some(
            OsModel {
                name: prefer(hint_name, Some(n))->Some_0,
                version: prefer(hint_version, v),
                platform: hint_arch,
            },
        ),
        (None, Some(n)) => Some(OsModel { name: n, version: hint_version, platform: hint_arch }),
    }
}

/// The operating system of `ua`, from the first matching rule.
pub open spec fn os_of(rules: RuleList<OsRule>, ua: Seq<char>, hints: Option<HintModel>) -> Option<OsModel> {
    os_from_hit(rules, ua_hit(rules.pattern_texts(), ua), hints)
}

/// Fills a version template and trims it.
pub fn version_of(template: &str, caps: &Vec<Option<String>>) -> (r: Option<String>)
    ensures
        r.deep_view() == version_from(template@, caps.deep_view()),
{
    let v = trim_version(fill_template(template, caps).as_str());
    if v.unicode_len() > 0 {
        Some(v)
    } else {
        None
    }
}

/// The ordered operating-system rules.
pub struct OsList {
    pub rules: RuleList<OsRule>,
}

impl OsList {
    pub open spec fn wf(&self) -> bool {
        self.rules.wf()
    }

    /// A list without rules.
    pub fn new() -> (r: OsList)
        ensures
            r.wf(),
            r.rules.pattern_texts().len() == 0,
    {
        OsList { rules: RuleList::new() }
    }

    /// Appends a rule matching `regex`.
    pub fn add_rule(&mut self, cache: &mut PatternCache, regex: &str, rule: OsRule) -> (r: Result<(), DetectError>)
        requires
            old(self).wf(),
            old(cache).wf(),
        ensures
            final(cache).wf(),
            r is Ok <==> compiles(ua_pattern_text(regex@)),
            final(self).wf(),
            r is Ok ==> final(self).rules.pattern_texts() == old(self).rules.pattern_texts().push(
                ua_pattern_text(regex@),
            ) && final(self).rules.items() == old(self).rules.items().push(rule),
            r is Err ==> r->Err_0 == DetectError::InvalidPattern && *final(self) == *old(self),
    {
        let p = cache.compile(user_agent_pattern(regex).as_str())?;
        self.rules.push(p, rule);
        Ok(())
    }

    /// Resolves the operating system of `ua`, with optional client hints.
    pub fn lookup(&self, ua: &str, hints: Option<&ClientHint>) -> (r: Result<Option<OS>, DetectError>)
        requires
            self.wf(),
        ensures
            r is Ok ==> os_view(r->Ok_0) == os_of(self.rules, ua@, hint_view(hints)),
            r is Err <==> scan_fails(self.rules.pattern_texts(), ua@),
            r is Err ==> r->Err_0 == DetectError::MatchFailed,
    {
        let hit = self.rules.first_match(ua)?;
        Ok(self.resolve(hit, hints))
    }

    /// The operating system given the rule that matched (its index and
    /// capture groups), or `None` for no match, and optional client hints.
    pub fn resolve(&self, hit: Option<(usize, Vec<Option<String>>)>, hints: Option<&ClientHint>) -> (r: Option<OS>)
        requires
            self.wf(),
            hit matches Some((i, _)) ==> i < self.rules.items().len(),
        ensures
            os_view(r) == os_from_hit(self.rules, hit_view(hit), hint_view(hints)),
    {
        let from_ua = match hit {
            Some((i, caps)) => {
                let rule = self.rules.item(i);
                Some((fill_template(rule.name.as_str(), &caps), version_of(rule.version.as_str(), &caps)))
            },
            None => None,
        };
        let (hint_name, hint_version, hint_arch) = match hints {
            Some(h) => (h.platform.clone(), h.platform_version.clone(), h.architecture.clone()),
            None => (None, None, None),
        };
        match from_ua {
            Some((n, v)) => {
                let name = match hint_name {
                    Some(h) => h,
                    None => n,
                };
                let version = match hint_version {
                    Some(h) => Some(h),
                    None => v,
                };
                Some(OS { name, version, platform: hint_arch })
            },
            None => match hint_name {
                Some(n) => Some(OS { name: n, version: hint_version, platform: hint_arch }),
                None => None,
            },
        }
    }
}

} // verus!
