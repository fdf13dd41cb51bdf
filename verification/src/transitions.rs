//! The transition resolver: map a logical target status name onto one of the
//! transitions currently available on an issue, or report definitively that
//! none matches. Matching is ordered and case-insensitive: first by display
//! name, then by destination status name, then through a fixed, enumerable
//! synonym table for known cross-locale aliases. When nothing matches, the
//! resolver hands back every available destination name, without omissions
//! or duplicates, so the caller can act manually.

use vstd::prelude::*;
use crate::error::AppError;
use crate::jira::Transition;
use crate::text::{eq_ignore_case, str_eq, upper_seq};

verus! {

/// The locale aliases of a logical target status: destination names that
/// count as that status although they spell differently. The table is
/// explicit and enumerable; matching against it stays case-insensitive.
pub open spec fn alias_list(target_upper: Seq<char>) -> Seq<Seq<char>> {
    if target_upper == upper_seq("In Progress"@) {
        seq!["진행 중"@]
    } else if target_upper == upper_seq("Done"@) {
        seq!["완료"@]
    } else if target_upper == upper_seq("In Review"@) {
        seq!["Review"@, "리뷰 중"@, "검토 중"@]
    } else {
        seq![]
    }
}

/// `name` is, up to case, one of the aliases of the target status.
pub open spec fn alias_match(target: Seq<char>, name: Seq<char>) -> bool {
    exists|k: int|
        0 <= k < alias_list(upper_seq(target)).len() && upper_seq(name) == upper_seq(
            #[trigger] alias_list(upper_seq(target))[k],
        )
}

/// Rule one: the transition's display name equals the target, up to case.
pub open spec fn rule_name(target: Seq<char>, t: Transition) -> bool {
    upper_seq(t.name@) == upper_seq(target)
}

/// Rule two: the destination status name equals the target, up to case.
pub open spec fn rule_dest(target: Seq<char>, t: Transition) -> bool {
    upper_seq(t.to.name@) == upper_seq(target)
}

/// Rule three: the destination status name is a configured alias.
pub open spec fn rule_alias(target: Seq<char>, t: Transition) -> bool {
    alias_match(target, t.to.name@)
}

/// The first index where `p` holds, or `-1` when none does.
pub open spec fn first_where(ts: Seq<Transition>, p: spec_fn(Transition) -> bool) -> int
    decreases ts.len(),
{
    if ts.len() == 0 {
        -1
    } else if p(ts[0]) {
        0
    } else {
        let r = first_where(ts.drop_first(), p);
        if r < 0 {
            -1
        } else {
            r + 1
        }
    }
}

pub proof fn lemma_first_where(ts: Seq<Transition>, p: spec_fn(Transition) -> bool)
    ensures
        first_where(ts, p) == -1 <==> (forall|i: int| 0 <= i < ts.len() ==> !p(ts[i])),
        first_where(ts, p) >= 0 ==> first_where(ts, p) < ts.len() && p(ts[first_where(ts, p)])
            && (forall|j: int| 0 <= j < first_where(ts, p) ==> !p(ts[j])),
    decreases ts.len(),
{
    if ts.len() > 0 {
        lemma_first_where(ts.drop_first(), p);
        assert(forall|i: int| 1 <= i < ts.len() ==> ts.drop_first()[i - 1] == ts[i]);
    }
}

/// The index the resolver picks: the first display-name match if one exists,
/// else the first destination match, else the first alias match.
pub open spec fn spec_resolution(target: Seq<char>, ts: Seq<Transition>) -> Option<int> {
    let i1 = first_where(ts, |t: Transition| rule_name(target, t));
    let i2 = first_where(ts, |t: Transition| rule_dest(target, t));
    let i3 = first_where(ts, |t: Transition| rule_alias(target, t));
    if i1 >= 0 {
        Some(i1)
    } else if i2 >= 0 {
        Some(i2)
    } else if i3 >= 0 {
        Some(i3)
    } else {
        None
    }
}

/// Some transition matches the target.
pub open spec fn spec_has_match(target: Seq<char>, ts: Seq<Transition>) -> bool {
    spec_resolution(target, ts) is Some
}

/// `name` is the destination status name of some transition in `ts`.
pub open spec fn is_a_destination(name: Seq<char>, ts: Seq<Transition>) -> bool {
    exists|i: int| 0 <= i < ts.len() && name == (#[trigger] ts[i]).to.name@
}

/// `name` occurs in the list `available`.
pub open spec fn is_listed(available: Seq<String>, name: Seq<char>) -> bool {
    exists|a: int| 0 <= a < available.len() && (#[trigger] available[a])@ == name
}

/// `available` enumerates exactly the destination status names of `ts`:
/// nothing else, nothing missing, and no name twice.
pub open spec fn lists_destinations_exactly(available: Seq<String>, ts: Seq<Transition>) -> bool {
    &&& (forall|a: int|
        0 <= a < available.len() ==> is_a_destination((#[trigger] available[a])@, ts))
    &&& (forall|i: int| 0 <= i < ts.len() ==> is_listed(available, (#[trigger] ts[i]).to.name@))
    &&& (forall|a1: int, a2: int|
        0 <= a1 < a2 < available.len() ==> (#[trigger] available[a1])@ != (
        #[trigger] available[a2])@)
}

/// The outcome of resolving a logical target status against the transitions
/// available on an issue right now.
#[derive(Debug, Clone, PartialEq)]
pub enum TransitionResolution {
    /// Exactly one transition was picked; this is its opaque id.
    Resolved { id: String },
    /// No transition matches. `available` enumerates the destination status
    /// names that were available, each once.
    NoMatch { available: Vec<String> },
}

/// Whether `out` already holds the string `s`.
fn vec_contains_string(out: &Vec<String>, s: &str) -> (r: bool)
    ensures
        r == exists|i: int| 0 <= i < out@.len() && (#[trigger] out@[i])@ == s@,
{
    let n = out.len();
    let mut i: usize = 0;
    while i < n
        invariant
            n == out@.len(),
            i <= n,
            forall|j: int| 0 <= j < i ==> (#[trigger] out@[j])@ != s@,
        decreases n - i,
    {
        if str_eq(out[i].as_str(), s) {
            return true;
        }
        i = i + 1;
    }
    false
}

/// The destination status name of a transition is a configured alias of the
/// target, up to case.
fn alias_dest_match(target: &str, name: &str) -> (r: bool)
    ensures
        r == alias_match(target@, name@),
{
    if eq_ignore_case(target, "In Progress") {
        let r = eq_ignore_case(name, "진행 중");
        proof {
            if r {
                assert(upper_seq(name@) == upper_seq(alias_list(upper_seq(target@))[0]));
            }
        }
        r
    } else if eq_ignore_case(target, "Done") {
        let r = eq_ignore_case(name, "완료");
        proof {
            if r {
                assert(upper_seq(name@) == upper_seq(alias_list(upper_seq(target@))[0]));
            }
        }
        r
    } else if eq_ignore_case(target, "In Review") {
        let r0 = eq_ignore_case(name, "Review");
        let r1 = eq_ignore_case(name, "리뷰 중");
        let r2 = eq_ignore_case(name, "검토 중");
        proof {
            if r0 {
                assert(upper_seq(name@) == upper_seq(alias_list(upper_seq(target@))[0]));
            }
            if r1 {
                assert(upper_seq(name@) == upper_seq(alias_list(upper_seq(target@))[1]));
            }
            if r2 {
                assert(upper_seq(name@) == upper_seq(alias_list(upper_seq(target@))[2]));
            }
        }
        r0 || r1 || r2
    } else {
        false
    }
}

/// A status name already counts as the logical target status: it equals the
/// target up to case, or it is one of the target's configured aliases.
pub open spec fn spec_status_matches(status: Seq<char>, target: Seq<char>) -> bool {
    upper_seq(status) == upper_seq(target) || alias_match(target, status)
}

pub fn status_matches_logical(status: &str, target: &str) -> (r: bool)
    ensures
        r == spec_status_matches(status@, target@),
{
    let direct = eq_ignore_case(status, target);
    if direct {
        return true;
    }
    alias_dest_match(target, status)
}

/// Collect the destination status names of `ts`, each exactly once, in
/// first-appearance order.
fn collect_destinations(transitions: &Vec<Transition>) -> (available: Vec<String>)
    ensures
        lists_destinations_exactly(available@, transitions@),
{
    let n = transitions.len();
    let mut available: Vec<String> = Vec::new();
    // Ghost witnesses: `src[a]` is the transition each collected name came
    // from, `loc[i]` is where each transition's name was collected.
    let ghost mut src: Seq<int> = Seq::empty();
    let ghost mut loc: Seq<int> = Seq::empty();
    let mut k: usize = 0;
    while k < n
        invariant
            n == transitions@.len(),
            k <= n,
            src.len() == available@.len(),
            loc.len() == k,
            forall|a: int|
                0 <= a < available@.len() ==> 0 <= #[trigger] src[a] < k && available@[a]@
                    == transitions@[src[a]].to.name@,
            forall|i: int|
                0 <= i < k ==> 0 <= #[trigger] loc[i] < available@.len() && available@[loc[i]]@
                    == (#[trigger] transitions@[i]).to.name@,
            forall|a1: int, a2: int|
                0 <= a1 < a2 < available@.len() ==> (#[trigger] available@[a1])@ != (
                #[trigger] available@[a2])@,
        decreases n - k,
    {
        let present = vec_contains_string(&available, transitions[k].to.name.as_str());
        let ghost old_av = available@;
        if !present {
            available.push(transitions[k].to.name.clone());
            proof {
                let old_src = src;
                src = src.push(k as int);
                loc = loc.push(old_av.len() as int);
                assert forall|a: int| 0 <= a < available@.len() implies 0 <= #[trigger] src[a]
                    < k + 1 && available@[a]@ == transitions@[src[a]].to.name@ by {
                    if a < old_av.len() {
                        assert(available@[a] == old_av[a]);
                        assert(src[a] == old_src[a]);
                    } else {
                        assert(available@[a]@ == transitions@[k as int].to.name@);
                        assert(src[a] == k);
                    }
                }
            }
        } else {
            proof {
                let a0 = choose|a: int|
                    0 <= a < old_av.len() && (#[trigger] old_av[a])@
                        == transitions@[k as int].to.name@;
                loc = loc.push(a0);
            }
        }
        k = k + 1;
    }
    proof {
        assert forall|a: int| 0 <= a < available@.len() implies is_a_destination(
            (#[trigger] available@[a])@,
            transitions@,
        ) by {
            assert(0 <= src[a] < transitions@.len() && available@[a]@ == (
            #[trigger] transitions@[src[a]]).to.name@);
        }
        assert forall|i: int| 0 <= i < transitions@.len() implies is_listed(
            available@,
            (#[trigger] transitions@[i]).to.name@,
        ) by {
            assert(0 <= loc[i] < available@.len() && (#[trigger] available@[loc[i]])@
                == transitions@[i].to.name@);
        }
        assert(lists_destinations_exactly(available@, transitions@));
    }
    available
}

/// Resolve a logical target status to at most one transition id: the first
/// transition whose display name equals the target, else the first whose
/// destination equals it, else the first whose destination is a configured
/// alias — all case-insensitively. When none matches, the result enumerates
/// the available destination names, each exactly once.
pub fn resolve_transition(target: &str, transitions: &Vec<Transition>) -> (r:
    TransitionResolution)
    ensures
        r is Resolved <==> spec_has_match(target@, transitions@),
        spec_resolution(target@, transitions@) matches Some(i) ==> (r matches TransitionResolution::Resolved {
            id,
        } && id@ == transitions@[i].id@),
        r matches TransitionResolution::NoMatch { available } ==> lists_destinations_exactly(
            available@,
            transitions@,
        ),
{
    let ghost p1 = |t: Transition| rule_name(target@, t);
    let ghost p2 = |t: Transition| rule_dest(target@, t);
    let ghost p3 = |t: Transition| rule_alias(target@, t);
    let n = transitions.len();
    let mut i: usize = 0;
    while i < n
        invariant
            n == transitions@.len(),
            i <= n,
            p1 == (|t: Transition| rule_name(target@, t)),
            forall|j: int| 0 <= j < i ==> !p1(#[trigger] transitions@[j]),
        decreases n - i,
    {
        if eq_ignore_case(transitions[i].name.as_str(), target) {
            proof {
                lemma_first_where(transitions@, p1);
                assert(p1(transitions@[i as int]));
                assert(first_where(transitions@, p1) == i);
            }
            return TransitionResolution::Resolved { id: transitions[i].id.clone() };
        }
        i = i + 1;
    }
    proof {
        lemma_first_where(transitions@, p1);
        assert(first_where(transitions@, p1) == -1);
    }
    let mut i2: usize = 0;
    while i2 < n
        invariant
            n == transitions@.len(),
            i2 <= n,
            p1 == (|t: Transition| rule_name(target@, t)),
            p2 == (|t: Transition| rule_dest(target@, t)),
            first_where(transitions@, p1) == -1,
            forall|j: int| 0 <= j < i2 ==> !p2(#[trigger] transitions@[j]),
        decreases n - i2,
    {
        if eq_ignore_case(transitions[i2].to.name.as_str(), target) {
            proof {
                lemma_first_where(transitions@, p2);
                assert(p2(transitions@[i2 as int]));
                assert(first_where(transitions@, p2) == i2);
            }
            return TransitionResolution::Resolved { id: transitions[i2].id.clone() };
        }
        i2 = i2 + 1;
    }
    proof {
        lemma_first_where(transitions@, p2);
        assert(first_where(transitions@, p2) == -1);
    }
    let mut i3: usize = 0;
    while i3 < n
        invariant
            n == transitions@.len(),
            i3 <= n,
            p1 == (|t: Transition| rule_name(target@, t)),
            p2 == (|t: Transition| rule_dest(target@, t)),
            p3 == (|t: Transition| rule_alias(target@, t)),
            first_where(transitions@, p1) == -1,
            first_where(transitions@, p2) == -1,
            forall|j: int| 0 <= j < i3 ==> !p3(#[trigger] transitions@[j]),
        decreases n - i3,
    {
        if alias_dest_match(target, transitions[i3].to.name.as_str()) {
            proof {
                lemma_first_where(transitions@, p3);
                assert(p3(transitions@[i3 as int]));
                assert(first_where(transitions@, p3) == i3);
            }
            return TransitionResolution::Resolved { id: transitions[i3].id.clone() };
        }
        i3 = i3 + 1;
    }
    proof {
        lemma_first_where(transitions@, p3);
        assert(first_where(transitions@, p3) == -1);
    }
    let available = collect_destinations(transitions);
    TransitionResolution::NoMatch { available }
}

/// The first transition whose display name or destination name equals the
/// given name, up to case; `None` when there is none.
pub fn find_transition_by_name(transitions: &Vec<Transition>, transition_name: &str) -> (r:
    Option<String>)
    ensures
        r is Some <==> first_where(
            transitions@,
            |t: Transition| rule_name(transition_name@, t) || rule_dest(transition_name@, t),
        ) >= 0,
        r matches Some(id) ==> id@ == transitions@[first_where(
            transitions@,
            |t: Transition| rule_name(transition_name@, t) || rule_dest(transition_name@, t),
        )].id@,
{
    let ghost p = |t: Transition|
        rule_name(transition_name@, t) || rule_dest(transition_name@, t);
    let n = transitions.len();
    let mut i: usize = 0;
    while i < n
        invariant
            n == transitions@.len(),
            i <= n,
            p == (|t: Transition|
                rule_name(transition_name@, t) || rule_dest(transition_name@, t)),
            forall|j: int| 0 <= j < i ==> !p(#[trigger] transitions@[j]),
        decreases n - i,
    {
        let by_name = eq_ignore_case(transitions[i].name.as_str(), transition_name);
        let by_dest = eq_ignore_case(transitions[i].to.name.as_str(), transition_name);
        if by_name || by_dest {
            proof {
                lemma_first_where(transitions@, p);
                assert(p(transitions@[i as int]));
                assert(first_where(transitions@, p) == i);
            }
            return Some(transitions[i].id.clone());
        }
        i = i + 1;
    }
    proof {
        lemma_first_where(transitions@, p);
    }
    None
}

/// Determinism of resolution on a list with exactly one case-insensitive
/// name or destination match: resolution picks exactly that transition,
/// wherever it stands in the list and whatever else the list holds.
pub proof fn lemma_resolution_of_unique_match(target: Seq<char>, ts: Seq<Transition>, i: int)
    requires
        0 <= i < ts.len(),
        rule_name(target, ts[i]) || rule_dest(target, ts[i]),
        forall|j: int|
            0 <= j < ts.len() && j != i ==> !rule_name(target, #[trigger] ts[j]) && !rule_dest(
                target,
                ts[j],
            ),
    ensures
        spec_resolution(target, ts) == Some(i),
{
    let p1 = |t: Transition| rule_name(target, t);
    let p2 = |t: Transition| rule_dest(target, t);
    lemma_first_where(ts, p1);
    lemma_first_where(ts, p2);
    if rule_name(target, ts[i]) {
        assert(p1(ts[i]));
        assert(first_where(ts, p1) == i);
    } else {
        assert(first_where(ts, p1) == -1);
        assert(p2(ts[i]));
        assert(first_where(ts, p2) == i);
    }
}

/// The result of trying to move a ticket to a logical target status; the
/// workflows report it and never treat it as a workflow failure.
#[derive(Debug, Clone, PartialEq)]
pub enum TicketUpdate {
    /// The ticket already sits in the logical target status.
    AlreadyInTarget,
    /// The transition was resolved and applied.
    Applied,
    /// The user declined the update.
    Declined,
    /// The issue could not be read from the tracker.
    FetchFailed(AppError),
    /// No available transition matches; these destinations were available.
    Unresolvable { available: Vec<String> },
    /// A transition was resolved, but applying it failed.
    ApplyFailed(AppError),
}

} // verus!
