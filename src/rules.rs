use vstd::prelude::*;
use crate::pattern::{first_captures, match_fails, CompiledPattern, DetectError};

verus! {

/// `i` is the first pattern of `pats` that matches `subject`.
pub open spec fn is_first_hit(pats: Seq<Seq<char>>, subject: Seq<char>, i: int) -> bool {
    &&& 0 <= i < pats.len()
    &&& first_captures(pats[i], subject) is Some
    &&& forall|j: int| 0 <= j < i ==> (#[trigger] first_captures(pats[j], subject)) is None
}

/// No pattern of `pats` matches `subject`.
pub open spec fn no_hit(pats: Seq<Seq<char>>, subject: Seq<char>) -> bool {
    forall|j: int| 0 <= j < pats.len() ==> (#[trigger] first_captures(pats[j], subject)) is None
}

/// Scanning `pats` in order on `subject` reaches a pattern whose search
/// fails before any pattern matches.
pub open spec fn scan_fails(pats: Seq<Seq<char>>, subject: Seq<char>) -> bool {
    exists|i: int|
        0 <= i < pats.len() && #[trigger] match_fails(pats[i], subject) && forall|j: int|
            0 <= j < i ==> !match_fails(#[trigger] pats[j], subject) && first_captures(pats[j], subject)
                is None
}

/// No search of a pattern of `pats` on `subject` fails.
pub open spec fn never_fails(pats: Seq<Seq<char>>, subject: Seq<char>) -> bool {
    forall|j: int| 0 <= j < pats.len() ==> !#[trigger] match_fails(pats[j], subject)
}

/// The index of the first pattern of `pats` that matches `subject`.
pub open spec fn first_hit_index(pats: Seq<Seq<char>>, subject: Seq<char>) -> Option<int> {
    if exists|i: int| is_first_hit(pats, subject, i) {
        Some(choose|i: int| is_first_hit(pats, subject, i))
    } else {
        None
    }
}

/// The capture groups of the rule that applies to `subject`.
pub open spec fn hit_captures(pats: Seq<Seq<char>>, subject: Seq<char>, i: int) -> Seq<
    Option<Seq<char>>,
> {
    first_captures(pats[i], subject)->Some_0
}

/// A matching rule at `i` means that some rule at or before `i` applies.
pub proof fn lemma_first_hit_exists(pats: Seq<Seq<char>>, subject: Seq<char>, i: int)
    requires
        0 <= i < pats.len(),
        first_captures(pats[i], subject) is Some,
    ensures
        first_hit_index(pats, subject) is Some,
        first_hit_index(pats, subject)->Some_0 <= i,
        is_first_hit(pats, subject, first_hit_index(pats, subject)->Some_0),
    decreases i,
{
    if exists|j: int| 0 <= j < i && (#[trigger] first_captures(pats[j], subject)) is Some {
        let j = choose|j: int| 0 <= j < i && (#[trigger] first_captures(pats[j], subject)) is Some;
        lemma_first_hit_exists(pats, subject, j);
    } else {
        assert(is_first_hit(pats, subject, i));
        let c = choose|c: int| is_first_hit(pats, subject, c);
        lemma_first_hit_unique(pats, subject, i, c);
    }
}

/// The rule that applies to `subject`, with its capture groups.
pub open spec fn ua_hit(pats: Seq<Seq<char>>, subject: Seq<char>) -> Option<(int, Seq<Option<Seq<char>>>)> {
    match first_hit_index(pats, subject) {
        Some(i) => Some((i, hit_captures(pats, subject, i))),
        None => None,
    }
}

/// A rule index with its capture groups, as plain values.
pub open spec fn hit_view(h: Option<(usize, Vec<Option<String>>)>) -> Option<(int, Seq<Option<Seq<char>>>)> {
    match h {
        Some((i, caps)) => Some((i as int, caps.deep_view())),
        None => None,
    }
}

/// Of two rules that both match, the earlier one takes precedence: the rule
/// applied is never the later one, and stands no later than the earlier one.
pub proof fn lemma_earlier_rule_wins(pats: Seq<Seq<char>>, subject: Seq<char>, i: int, j: int)
    requires
        0 <= i < j < pats.len(),
        first_captures(pats[i], subject) is Some,
        first_captures(pats[j], subject) is Some,
    ensures
        first_hit_index(pats, subject) is Some,
        first_hit_index(pats, subject)->Some_0 <= i,
        first_hit_index(pats, subject) != Some(j),
{
    lemma_first_hit_exists(pats, subject, i);
}

/// At most one rule is the first hit.
pub proof fn lemma_first_hit_unique(pats: Seq<Seq<char>>, subject: Seq<char>, i: int, j: int)
    requires
        is_first_hit(pats, subject, i),
        is_first_hit(pats, subject, j),
    ensures
        i == j,
{
    if i < j {
        assert(first_captures(pats[i], subject) is None);
    } else if j < i {
        assert(first_captures(pats[j], subject) is None);
    }
}

/// An ordered list of rules, each guarded by a compiled pattern.
pub struct RuleList<T> {
    patterns: Vec<CompiledPattern>,
    entries: Vec<T>,
}

impl<T> RuleList<T> {
    /// The pattern texts, in declaration order.
    pub closed spec fn pattern_texts(&self) -> Seq<Seq<char>> {
        self.patterns@.map_values(|p: CompiledPattern| p@)
    }

    /// The rules' payloads, in declaration order.
    pub closed spec fn items(&self) -> Seq<T> {
        self.entries@
    }

    pub closed spec fn wf(&self) -> bool {
        self.patterns@.len() == self.entries@.len()
    }

    /// An empty list.
    pub fn new() -> (r: RuleList<T>)
        ensures
            r.wf(),
            r.pattern_texts() =~= Seq::<Seq<char>>::empty(),
            r.items() =~= Seq::<T>::empty(),
    {
        RuleList { patterns: Vec::new(), entries: Vec::new() }
    }

    /// Appends a rule after all present ones.
    pub fn push(&mut self, pattern: CompiledPattern, item: T)
        requires
            old(self).wf(),
        ensures
            final(self).wf(),
            final(self).pattern_texts() == old(self).pattern_texts().push(pattern@),
            final(self).items() == old(self).items().push(item),
    {
        self.patterns.push(pattern);
        self.entries.push(item);
        assert(self.pattern_texts() =~= old(self).pattern_texts().push(pattern@));
    }

    pub fn len(&self) -> (r: usize)
        requires
            self.wf(),
        ensures
            r == self.items().len(),
    {
        self.entries.len()
    }

    /// The payload of rule `i`.
    pub fn item(&self, i: usize) -> (r: &T)
        requires
            self.wf(),
            i < self.items().len(),
        ensures
            *r == self.items()[i as int],
    {
        &self.entries[i]
    }

    /// Applies the rules in order to `subject`: the first that matches wins,
    /// and its index comes back with its capture groups.
    pub fn first_match(&self, subject: &str) -> (r: Result<
        Option<(usize, Vec<Option<String>>)>,
        DetectError,
    >)
        requires
            self.wf(),
        ensures
            r matches Ok(Some((i, caps))) ==> is_first_hit(self.pattern_texts(), subject@, i as int)
                && first_captures(self.pattern_texts()[i as int], subject@) == Some(
                caps.deep_view(),
            ),
            r matches Ok(None) ==> no_hit(self.pattern_texts(), subject@),
            r matches Ok(Some((i, caps))) ==> first_hit_index(self.pattern_texts(), subject@) == Some(
                i as int,
            ) && i < self.items().len() && caps.deep_view() == hit_captures(
                self.pattern_texts(),
                subject@,
                i as int,
            ),
            r matches Ok(None) ==> first_hit_index(self.pattern_texts(), subject@) is None,
            r is Ok ==> hit_view(r->Ok_0) == ua_hit(self.pattern_texts(), subject@),
            r is Err <==> scan_fails(self.pattern_texts(), subject@),
            never_fails(self.pattern_texts(), subject@) ==> r is Ok,
            r is Err ==> r->Err_0 == DetectError::MatchFailed,
    {
        let n = self.patterns.len();
        let mut i: usize = 0;
        while i < n
            invariant
                n == self.patterns@.len(),
                self.wf(),
                0 <= i <= n,
                forall|j: int|
                    0 <= j < i ==> (#[trigger] first_captures(self.pattern_texts()[j], subject@))
                        is None,
                forall|j: int| 0 <= j < i ==> !match_fails(#[trigger] self.pattern_texts()[j], subject@),
            decreases n - i,
        {
            assert(self.pattern_texts()[i as int] == self.patterns@[i as int]@);
            match self.patterns[i].captures(subject) {
                Err(e) => {
                    proof {
                        let pats = self.pattern_texts();
                        assert(match_fails(pats[i as int], subject@));
                        assert(scan_fails(pats, subject@));
                    }
                    return Err(e);
                },
                Ok(Some(caps)) => {
                    proof {
                        let pats = self.pattern_texts();
                        assert(is_first_hit(pats, subject@, i as int));
                        let c = choose|c: int| is_first_hit(pats, subject@, c);
                        lemma_first_hit_unique(pats, subject@, i as int, c);
                        assert(!scan_fails(pats, subject@)) by {
                            if scan_fails(pats, subject@) {
                                let k = choose|k: int|
                                    0 <= k < pats.len() && #[trigger] match_fails(pats[k], subject@)
                                        && forall|j: int|
                                        0 <= j < k ==> !match_fails(#[trigger] pats[j], subject@)
                                            && first_captures(pats[j], subject@) is None;
                                if k > i {
                                    assert(first_captures(pats[i as int], subject@) is None);
                                }
                            }
                        }
                    }
                    return Ok(Some((i, caps)));
                },
                Ok(None) => {},
            }
            i = i + 1;
        }
        proof {
            let pats = self.pattern_texts();
            assert(!scan_fails(pats, subject@));
            assert forall|c: int| !is_first_hit(pats, subject@, c) by {
                if 0 <= c < pats.len() {
                    assert(first_captures(pats[c], subject@) is None);
                }
            }
        }
        Ok(None)
    }
}

} // verus!
