//! The webhook resolver: scans the configured mapping list in order and
//! picks the destination URL of the first entry whose `path` equals the
//! requested route name exactly.

use vstd::prelude::*;

use crate::config::{mapping_views, Mapping};
use crate::error::RelayError;
use crate::text::str_eq;

verus! {

/// The first entry whose `path` member equals the target, if any.
pub open spec fn first_match(
    entries: Seq<(Option<Seq<char>>, Option<Seq<char>>)>,
    target: Seq<char>,
) -> Option<(Option<Seq<char>>, Option<Seq<char>>)>
    decreases entries.len(),
{
    if entries.len() == 0 {
        Option::None
    } else if entries[0].0 == Some(target) {
        Option::Some(entries[0])
    } else {
        first_match(entries.skip(1), target)
    }
}

/// Entries that do not match can be dropped from the front of the list
/// without changing the outcome.
proof fn lemma_first_match_skip(
    entries: Seq<(Option<Seq<char>>, Option<Seq<char>>)>,
    target: Seq<char>,
    i: int,
)
    requires
        0 <= i < entries.len(),
        entries[i].0 != Some(target),
    ensures
        first_match(entries.skip(i), target) == first_match(entries.skip(i + 1), target),
{
    assert(entries.skip(i)[0] == entries[i]);
    assert(entries.skip(i).skip(1) =~= entries.skip(i + 1));
}

/// Resolves a route name against the mapping list: the URL of the first
/// entry whose `path` equals the target, or `NoMatchingWebhook` when no
/// entry matches or the matching entry has no string URL.
pub fn resolve_webhook(mappings: &Vec<Mapping>, target: &str) -> (r: Result<String, RelayError>)
    ensures
        (match r {
            Ok(u) => (match first_match(mapping_views(mappings@), target@) {
                Option::Some(e) => e.1 == Some(u@),
                Option::None => false,
            }),
            Err(er) => er == RelayError::NoMatchingWebhook && (match first_match(
                mapping_views(mappings@),
                target@,
            ) {
                Option::Some(e) => e.1 is None,
                Option::None => true,
            }),
        }),
{
    let ghost evs = mapping_views(mappings@);
    let n = mappings.len();
    proof {
        assert(evs.skip(0) =~= evs);
        assert(evs.len() == mappings@.len());
    }
    let mut i: usize = 0;
    while i < n
        invariant
            i <= n,
            n == mappings@.len(),
            evs == mapping_views(mappings@),
            evs.len() == n,
            first_match(evs, target@) == first_match(evs.skip(i as int), target@),
        decreases n - i,
    {
        let m = &mappings[i];
        proof {
            assert(evs[i as int] == mappings@[i as int]@);
        }
        let hit = match &m.path {
            Some(p) => str_eq(p.as_str(), target),
            None => false,
        };
        if hit {
            proof {
                assert(evs.skip(i as int)[0] == evs[i as int]);
                assert(first_match(evs, target@) == Option::Some(evs[i as int]));
            }
            match &m.url {
                Some(u) => {
                    return Ok(u.clone());
                },
                None => {
                    return Err(RelayError::NoMatchingWebhook);
                },
            }
        }
        proof {
            lemma_first_match_skip(evs, target@, i as int);
        }
        i = i + 1;
    }
    proof {
        assert(evs.skip(n as int).len() == 0);
    }
    Err(RelayError::NoMatchingWebhook)
}

/// Resolving a path present in the list returns the first matching entry:
/// if `i` is the index of the first entry whose `path` equals the target,
/// the scan picks exactly that entry.
pub proof fn lemma_first_match_found(
    entries: Seq<(Option<Seq<char>>, Option<Seq<char>>)>,
    target: Seq<char>,
    i: int,
)
    requires
        0 <= i < entries.len(),
        entries[i].0 == Some(target),
        forall|j: int| 0 <= j < i ==> entries[j].0 != Some(target),
    ensures
        first_match(entries, target) == Option::Some(entries[i]),
    decreases i,
{
    if i == 0 {
    } else {
        lemma_first_match_found(entries.skip(1), target, i - 1);
        assert(entries.skip(1)[i - 1] == entries[i]);
    }
}

/// Resolving a path absent from the list fails: when no entry's `path`
/// equals the target, the scan finds nothing.
pub proof fn lemma_first_match_absent(
    entries: Seq<(Option<Seq<char>>, Option<Seq<char>>)>,
    target: Seq<char>,
)
    requires
        forall|j: int| 0 <= j < entries.len() ==> entries[j].0 != Some(target),
    ensures
        first_match(entries, target) is None,
    decreases entries.len(),
{
    if entries.len() > 0 {
        assert forall|j: int| 0 <= j < entries.skip(1).len() implies entries.skip(1)[j].0
            != Some(target) by {
            assert(entries.skip(1)[j] == entries[j + 1]);
        }
        lemma_first_match_absent(entries.skip(1), target);
    }
}

} // verus!
