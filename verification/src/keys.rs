//! Ticket keys and branch names. A ticket key is an identifier of the shape
//! `PREFIX-NUMBER` (uppercase letters or digits, a dash, then digits). Keys
//! are normalized to uppercase on ingestion, and the branch of a ticket is
//! exactly its normalized key.

use vstd::prelude::*;
use crate::text::{spec_starts_with, starts_with, to_upper, upper_seq};

verus! {

/// A character allowed before the dash of a ticket key.
pub open spec fn is_key_head_char(c: char) -> bool {
    ('A' <= c && c <= 'Z') || ('0' <= c && c <= '9')
}

/// A decimal digit, as allowed after the dash of a ticket key.
pub open spec fn is_key_digit_char(c: char) -> bool {
    '0' <= c && c <= '9'
}

/// The dash of a valid ticket key sits at position `i`: a non-empty run of
/// uppercase letters or digits before it, a non-empty run of digits after it.
pub open spec fn key_split_at(s: Seq<char>, i: int) -> bool {
    &&& 1 <= i
    &&& i + 1 < s.len()
    &&& s[i] == '-'
    &&& forall|j: int| 0 <= j < i ==> is_key_head_char(#[trigger] s[j])
    &&& forall|j: int| i < j < s.len() ==> is_key_digit_char(#[trigger] s[j])
}

/// The string is a well-formed ticket key.
pub open spec fn spec_valid_ticket_key(s: Seq<char>) -> bool {
    exists|i: int| key_split_at(s, i)
}

fn head_char_at(key: &str, i: usize) -> (r: bool)
    requires
        i < key@.len(),
    ensures
        r == is_key_head_char(key@[i as int]),
{
    let c = key.get_char(i);
    ('A' <= c && c <= 'Z') || ('0' <= c && c <= '9')
}

fn digit_char_at(key: &str, i: usize) -> (r: bool)
    requires
        i < key@.len(),
    ensures
        r == is_key_digit_char(key@[i as int]),
{
    let c = key.get_char(i);
    '0' <= c && c <= '9'
}

/// Whether a (already normalized) string is a well-formed ticket key.
pub fn validate_ticket_key(key: &str) -> (r: bool)
    ensures
        r == spec_valid_ticket_key(key@),
{
    let n = key.unicode_len();
    let mut i: usize = 0;
    // Scan the run of head characters before the dash.
    while i < n && head_char_at(key, i)
        invariant
            n == key@.len(),
            i <= n,
            forall|j: int| 0 <= j < i ==> is_key_head_char(#[trigger] key@[j]),
            forall|j: int| 0 <= j < i ==> key@[j] != '-',
        decreases n - i,
    {
        i = i + 1;
    }
    if i >= n || key.get_char(i) != '-' {
        // Either the string ran out, or it stops at a character that is
        // neither a head character nor the dash: no split position works.
        proof {
            assert forall|k: int| !key_split_at(key@, k) by {
                if 1 <= k && k + 1 < key@.len() && key@[k] == '-' {
                    assert(k >= i);
                    if i < key@.len() {
                        assert(!is_key_head_char(key@[i as int]));
                    }
                }
            }
        }
        return false;
    }
    if i == 0 {
        // The dash is the first character: the head run is empty.
        proof {
            assert forall|k: int| !key_split_at(key@, k) by {
                if 1 <= k && k + 1 < key@.len() && key@[k] == '-' {
                    assert(!is_key_head_char(key@[0]));
                }
            }
        }
        return false;
    }
    let dash = i;
    if dash + 1 >= n {
        // Nothing follows the dash.
        proof {
            assert forall|k: int| !key_split_at(key@, k) by {
                if 1 <= k && k + 1 < key@.len() && key@[k] == '-' {
                    assert(k < dash);
                }
            }
        }
        return false;
    }
    let mut j = dash + 1;
    while j < n && digit_char_at(key, j)
        invariant
            n == key@.len(),
            dash < j <= n,
            forall|t: int| dash < t < j ==> is_key_digit_char(#[trigger] key@[t]),
        decreases n - j,
    {
        j = j + 1;
    }
    if j < n {
        // A non-digit after the dash: the only possible split position is
        // the first dash, and its digit run is broken.
        proof {
            assert forall|k: int| !key_split_at(key@, k) by {
                if 1 <= k && k + 1 < key@.len() && key@[k] == '-' {
                    if k < dash {
                        assert(key@[k] != '-');
                    } else if k > dash {
                        assert(!is_key_head_char(key@[dash as int]));
                    } else {
                        assert(!is_key_digit_char(key@[j as int]));
                    }
                }
            }
        }
        return false;
    }
    proof {
        assert(key_split_at(key@, dash as int));
    }
    true
}

/// Normalize a ticket key: fold it to uppercase. Normalization is
/// idempotent, and a key the workflows act on must validate afterwards.
pub fn normalize_ticket_key(key: &str) -> (r: String)
    ensures
        r@ == upper_seq(key@),
{
    to_upper(key)
}

/// Normalizing twice yields the same string as normalizing once.
pub proof fn lemma_normalize_idempotent(s: Seq<char>)
    ensures
        upper_seq(upper_seq(s)) == upper_seq(s),
{
    crate::text::lemma_upper_seq_idempotent(s);
}

/// Branch derivation is a pure function of the ticket key alone: any two
/// derivations from the same key give the same branch name.
pub proof fn lemma_branch_derivation_deterministic(k: Seq<char>, b1: Seq<char>, b2: Seq<char>)
    requires
        b1 == upper_seq(k),
        b2 == upper_seq(k),
    ensures
        b1 == b2,
{
}

/// The full ticket key built from a project prefix and a ticket number: a
/// number that already carries the prefix (in any case) is only uppercased;
/// anything else is prefixed with the project and a dash. The result is
/// always fully uppercased, as keys are normalized on ingestion.
pub open spec fn spec_format_ticket_key(project: Seq<char>, number: Seq<char>) -> Seq<char> {
    if spec_starts_with(upper_seq(number), project) {
        upper_seq(number)
    } else {
        upper_seq(project) + "-"@ + upper_seq(number)
    }
}

pub fn format_ticket_key(project: &str, number: &str) -> (r: String)
    ensures
        r@ == spec_format_ticket_key(project@, number@),
{
    let upper = to_upper(number);
    if starts_with(upper.as_str(), project) {
        upper
    } else {
        to_upper(project).concat("-").concat(upper.as_str())
    }
}

/// Building a key is idempotent: for a normalized project prefix, applying
/// the builder to its own result changes nothing.
pub proof fn lemma_format_ticket_key_idempotent(project: Seq<char>, number: Seq<char>)
    requires
        upper_seq(project) == project,
    ensures
        spec_format_ticket_key(project, spec_format_ticket_key(project, number))
            == spec_format_ticket_key(project, number),
{
    let r1 = spec_format_ticket_key(project, number);
    crate::text::lemma_upper_seq_idempotent(number);
    if spec_starts_with(upper_seq(number), project) {
        assert(upper_seq(r1) == r1);
        assert(spec_starts_with(upper_seq(r1), project));
    } else {
        // Every character of `project + "-" + upper(number)` is already its
        // own uppercase.
        reveal_strlit("-");
        assert forall|i: int| 0 <= i < r1.len() implies upper_seq(r1)[i] == r1[i] by {
            if i < project.len() {
                assert(r1[i] == project[i]);
                assert(upper_seq(project)[i] == project[i]);
            } else if i == project.len() {
                assert(r1[i] == '-');
            } else {
                assert(r1[i] == upper_seq(number)[i - project.len() - 1]);
                crate::text::lemma_upper_char_idempotent(number[i - project.len() - 1]);
            }
        }
        assert(upper_seq(r1) =~= r1);
        assert(upper_seq(r1).subrange(0, project.len() as int) =~= project);
        assert(spec_starts_with(upper_seq(r1), project));
    }
}

/// A local branch is a ticket branch of this project when it is a valid
/// ticket key whose head is exactly the project prefix.
pub open spec fn spec_is_ticket_branch(b: Seq<char>, project: Seq<char>) -> bool {
    spec_valid_ticket_key(b) && spec_starts_with(b, project + "-"@)
}

pub fn is_ticket_branch(branch: &str, project: &str) -> (r: bool)
    ensures
        r == spec_is_ticket_branch(branch@, project@),
{
    let valid = validate_ticket_key(branch);
    if !valid {
        return false;
    }
    let prefix = String::from_str(project).concat("-");
    starts_with(branch, prefix.as_str())
}

} // verus!
