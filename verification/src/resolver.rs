//! Resolution of a typed status-name fragment to a status id.

use vstd::prelude::*;
use vstd::string::*;

verus! {

/// The lowercase mapping of `c`: the characters that `char::to_lowercase`
/// yields for it, in order.
pub uninterp spec fn lowercase_of(c: char) -> Seq<char>;

/// Calls `char::to_lowercase` and collects what the iterator yields. The
/// contract only gives that sequence its name; nothing is claimed about
/// which characters it holds.
#[verifier::external_body]
fn to_lowercase(c: char) -> (lower: Vec<char>)
    ensures
        lower@ == lowercase_of(c),
{
    c.to_lowercase().collect()
}

/// Two sequences agree on their overlap when they are equal at every
/// position that both of them have.
pub open spec fn agree_on_overlap(a: Seq<char>, b: Seq<char>) -> bool {
    forall|i: int| 0 <= i < a.len() && i < b.len() ==> a[i] == b[i]
}

/// Lockstep comparison of two lowercase mappings: stops at the end of the
/// shorter one.
pub fn folded_agree(a: &Vec<char>, b: &Vec<char>) -> (same: bool)
    ensures
        same == agree_on_overlap(a@, b@),
{
    let mut i: usize = 0;
    while i < a.len() && i < b.len()
        invariant
            forall|j: int| 0 <= j < i ==> a@[j] == b@[j],
            i <= a.len(),
            i <= b.len(),
        decreases a.len() - i,
    {
        if a[i] != b[i] {
            return false;
        }
        i += 1;
    }
    true
}

/// Case-insensitive equality of one query character and one name character.
pub open spec fn chars_match(q: char, n: char) -> bool {
    agree_on_overlap(lowercase_of(q), lowercase_of(n))
}

/// The matching rule: every query character that has a partner at the same
/// position of the name matches it. Query characters past the end of the name
/// are not compared.
pub open spec fn name_matches(query: Seq<char>, name: Seq<char>) -> bool {
    forall|i: int| 0 <= i < query.len() && i < name.len() ==> chars_match(query[i], name[i])
}

/// The id of the first candidate, in sequence order, whose name matches.
pub open spec fn resolve(query: Seq<char>, candidates: Seq<(u32, Seq<char>)>) -> Option<u32>
    decreases candidates.len(),
{
    if candidates.len() == 0 {
        None
    } else if name_matches(query, candidates[0].1) {
        Some(candidates[0].0)
    } else {
        resolve(query, candidates.drop_first())
    }
}

/// The model of a candidate list: each `(id, name)` pair with the name as its
/// characters.
pub open spec fn candidates_view(candidates: Seq<(u32, String)>) -> Seq<(u32, Seq<char>)> {
    Seq::new(candidates.len(), |i: int| (candidates[i].0, candidates[i].1@))
}

/// Failure of the resolver: no candidate matched. Carries the query as it was
/// typed, for the message.
#[derive(Debug, PartialEq, Eq)]
pub struct NoMatchingStatus {
    pub query: String,
}

impl NoMatchingStatus {
    /// The text shown to the user.
    pub open spec fn message_text(query: Seq<char>) -> Seq<char> {
        "No issue status matched '"@ + query + "'"@
    }

    pub fn message(&self) -> (text: String)
        ensures
            text@ == Self::message_text(self.query@),
    {
        let mut text = String::from_str("No issue status matched '");
        text.append(self.query.as_str());
        text.append("'");
        text
    }
}

/// Decides whether one query character and one name character are equal
/// without regard to case.
pub fn chars_match_exec(q: char, n: char) -> (same: bool)
    ensures
        same == chars_match(q, n),
{
    let lq = to_lowercase(q);
    let ln = to_lowercase(n);
    folded_agree(&lq, &ln)
}

/// Decides the matching rule for one candidate name.
pub fn name_matches_exec(query: &str, name: &str) -> (matched: bool)
    ensures
        matched == name_matches(query@, name@),
{
    let qlen = query.unicode_len();
    let nlen = name.unicode_len();
    let mut i: usize = 0;
    while i < qlen && i < nlen
        invariant
            qlen == query@.len(),
            nlen == name@.len(),
            i <= qlen,
            i <= nlen,
            forall|j: int| 0 <= j < i ==> chars_match(query@[j], name@[j]),
        decreases qlen - i,
    {
        if !chars_match_exec(query.get_char(i), name.get_char(i)) {
            return false;
        }
        i += 1;
    }
    true
}

/// Resolves a status-name fragment against the known statuses: the first
/// candidate in list order whose name matches wins; later matches are never
/// considered. Without a match the query comes back in the error.
pub fn find_status_id(statuses: &Vec<(u32, String)>, status_name: &str) -> (found: Result<
    u32,
    NoMatchingStatus,
>)
    ensures
        match found {
            Ok(id) => resolve(status_name@, candidates_view(statuses@)) == Some(id),
            Err(e) => resolve(status_name@, candidates_view(statuses@)) is None && e.query@
                == status_name@,
        },
{
    let ghost all = candidates_view(statuses@);
    let mut i: usize = 0;
    assert(all.skip(0) == all);
    while i < statuses.len()
        invariant
            i <= statuses.len(),
            all == candidates_view(statuses@),
            resolve(status_name@, all) == resolve(status_name@, all.skip(i as int)),
        decreases statuses.len() - i,
    {
        let ghost rest = all.skip(i as int);
        assert(rest.len() > 0);
        assert(rest[0] == all[i as int]);
        assert(rest.drop_first() == all.skip(i + 1));
        if name_matches_exec(status_name, statuses[i].1.as_str()) {
            return Ok(statuses[i].0);
        }
        i += 1;
    }
    assert(all.skip(i as int).len() == 0);
    Err(NoMatchingStatus { query: String::from_str(status_name) })
}

/// First match wins: a candidate that matches, with no match before it, is
/// the one resolved, whatever follows it.
pub proof fn lemma_first_match_wins(query: Seq<char>, candidates: Seq<(u32, Seq<char>)>, i: int)
    requires
        0 <= i < candidates.len(),
        name_matches(query, candidates[i].1),
        forall|j: int| 0 <= j < i ==> !name_matches(query, candidates[j].1),
    ensures
        resolve(query, candidates) == Some(candidates[i].0),
    decreases i,
{
    if i > 0 {
        let rest = candidates.drop_first();
        assert forall|j: int| 0 <= j < i - 1 implies !name_matches(query, rest[j].1) by {
            assert(rest[j] == candidates[j + 1]);
        }
        assert(rest[i - 1] == candidates[i]);
        lemma_first_match_wins(query, rest, i - 1);
    }
}

/// Resolution fails exactly when no candidate matches.
pub proof fn lemma_not_found_iff_no_match(query: Seq<char>, candidates: Seq<(u32, Seq<char>)>)
    ensures
        resolve(query, candidates) is None <==> forall|j: int|
            0 <= j < candidates.len() ==> !name_matches(query, candidates[j].1),
    decreases candidates.len(),
{
    if candidates.len() > 0 {
        let rest = candidates.drop_first();
        lemma_not_found_iff_no_match(query, rest);
        if !name_matches(query, candidates[0].1) {
            if resolve(query, rest) is None {
                assert forall|j: int| 0 <= j < candidates.len() implies !name_matches(
                    query,
                    candidates[j].1,
                ) by {
                    if j > 0 {
                        assert(rest[j - 1] == candidates[j]);
                    }
                }
            } else {
                let k = choose|k: int| 0 <= k < rest.len() && name_matches(query, rest[k].1);
                assert(rest[k] == candidates[k + 1]);
            }
        }
    }
}

/// Folding is symmetric: it does not matter which side is the query.
pub proof fn lemma_chars_match_symmetric(a: char, b: char)
    ensures
        chars_match(a, b) == chars_match(b, a),
{
}

/// Every character matches itself.
pub proof fn lemma_chars_match_reflexive(c: char)
    ensures
        chars_match(c, c),
{
}

/// The prefix rule: every prefix of a name, the whole name and the empty
/// query included, matches the name.
pub proof fn lemma_prefix_matches(name: Seq<char>, len: int)
    requires
        0 <= len <= name.len(),
    ensures
        name_matches(name.take(len), name),
{
    assert forall|i: int| 0 <= i < name.take(len).len() && i < name.len() implies chars_match(
        name.take(len)[i],
        name[i],
    ) by {
        lemma_chars_match_reflexive(name[i]);
    }
}

/// Only the overlap counts: a query matches a name exactly when the part of
/// it that the name is long enough to pair with does. What the query holds
/// beyond the end of the name is never compared.
pub proof fn lemma_excess_query_is_ignored(query: Seq<char>, name: Seq<char>)
    requires
        query.len() >= name.len(),
    ensures
        name_matches(query, name) == name_matches(query.take(name.len() as int), name),
{
    let head = query.take(name.len() as int);
    if name_matches(query, name) {
        assert forall|i: int| 0 <= i < head.len() && i < name.len() implies chars_match(
            head[i],
            name[i],
        ) by {
            assert(head[i] == query[i]);
        }
    }
    if name_matches(head, name) {
        assert forall|i: int| 0 <= i < query.len() && i < name.len() implies chars_match(
            query[i],
            name[i],
        ) by {
            assert(head[i] == query[i]);
        }
    }
}

} // verus!
