use vstd::prelude::*;

use crate::config::Config;
use crate::HASH;
use crate::PLUS;
use crate::SLASH;

verus! {

/// MQTT topic-filter matching. `#` matches every remaining level (and, per
/// the MQTT convention, a trailing `/#` also matches the parent topic
/// itself); `+` matches exactly one whole level; every other byte matches
/// itself.
pub open spec fn pat_matches(p: Seq<u8>, t: Seq<u8>) -> bool
    decreases p.len(), t.len(),
{
    if p.len() == 0 {
        t.len() == 0
    } else if p[0] == HASH {
        true
    } else if p[0] == PLUS {
        if t.len() > 0 && t[0] != SLASH {
            pat_matches(p, t.skip(1))
        } else {
            pat_matches(p.skip(1), t)
        }
    } else if t.len() > 0 && p[0] == t[0] {
        pat_matches(p.skip(1), t.skip(1))
    } else if t.len() == 0 && p.len() == 2 && p[0] == SLASH && p[1] == HASH {
        true
    } else {
        false
    }
}

fn pat_match_at(p: &Vec<u8>, t: &Vec<u8>, i: usize, j: usize) -> (r: bool)
    requires
        i <= p.len(),
        j <= t.len(),
    ensures
        r == pat_matches(p@.skip(i as int), t@.skip(j as int)),
    decreases p.len() - i, t.len() - j,
{
    let ghost ps = p@.skip(i as int);
    let ghost ts = t@.skip(j as int);
    if i == p.len() {
        return j == t.len();
    }
    assert(ps[0] == p@[i as int]);
    assert(ps.skip(1) =~= p@.skip(i + 1));
    let b = p[i];
    if b == HASH {
        return true;
    }
    if b == PLUS {
        if j < t.len() && t[j] != SLASH {
            assert(ts[0] == t@[j as int]);
            assert(ts.skip(1) =~= t@.skip(j + 1));
            return pat_match_at(p, t, i, j + 1);
        } else {
            if j < t.len() {
                assert(ts[0] == t@[j as int]);
            }
            return pat_match_at(p, t, i + 1, j);
        }
    }
    if j < t.len() && t[j] == b {
        assert(ts[0] == t@[j as int]);
        assert(ts.skip(1) =~= t@.skip(j + 1));
        return pat_match_at(p, t, i + 1, j + 1);
    }
    if j < t.len() {
        assert(ts[0] == t@[j as int]);
        return false;
    }
    if p.len() - i == 2 && b == SLASH && p[i + 1] == HASH {
        assert(ps.len() == 2 && ps[1] == p@[i + 1]);
        return true;
    }
    assert(ps.len() != 2 || ps[0] != SLASH || ps[1] != HASH);
    false
}

/// Decides whether an MQTT topic filter pattern matches a topic.
pub fn pat_match(p: &Vec<u8>, t: &Vec<u8>) -> (r: bool)
    ensures
        r == pat_matches(p@, t@),
{
    assert(p@.skip(0) =~= p@);
    assert(t@.skip(0) =~= t@);
    pat_match_at(p, t, 0, 0)
}

/// Whether any pattern of the list matches the topic.
pub open spec fn any_match(pats: Seq<Seq<u8>>, t: Seq<u8>) -> bool {
    exists|i: int| 0 <= i < pats.len() && pat_matches(pats[i], t)
}

/// The access-control decision: a topic matched by any deny pattern is
/// refused unconditionally; otherwise a non-empty allow list must match the
/// topic, while an empty allow list permits everything.
pub open spec fn allowed(deny: Seq<Seq<u8>>, allow: Seq<Seq<u8>>, t: Seq<u8>) -> bool {
    &&& !any_match(deny, t)
    &&& (allow.len() == 0 || any_match(allow, t))
}

fn any_pat_match(pats: &Vec<Vec<u8>>, t: &Vec<u8>) -> (r: bool)
    ensures
        r == any_match(pats@.map_values(|v: Vec<u8>| v@), t@),
{
    let ghost pv = pats@.map_values(|v: Vec<u8>| v@);
    let mut i: usize = 0;
    while i < pats.len()
        invariant
            i <= pats.len(),
            pv == pats@.map_values(|v: Vec<u8>| v@),
            forall|j: int| 0 <= j < i ==> !pat_matches(pv[j], t@),
        decreases pats.len() - i,
    {
        if pat_match(&pats[i], t) {
            assert(pv[i as int] == pats@[i as int]@);
            assert(any_match(pv, t@));
            return true;
        }
        assert(pv[i as int] == pats@[i as int]@);
        i = i + 1;
    }
    false
}

/// Evaluates the allow/deny policy on a topic: deny patterns first (any
/// match forbids), then the allow list (empty means allow-all).
pub fn is_allowed(topic: &Vec<u8>, config: &Config) -> (r: bool)
    ensures
        r == allowed(config.deny_view(), config.allow_view(), topic@),
{
    if any_pat_match(&config.deny, topic) {
        return false;
    }
    if config.allow.len() == 0 {
        return true;
    }
    any_pat_match(&config.allow, topic)
}

/// Deny overrides allow: a topic matched by some deny pattern is refused
/// whatever the allow list holds.
pub proof fn lemma_deny_overrides(deny: Seq<Seq<u8>>, allow: Seq<Seq<u8>>, t: Seq<u8>)
    requires
        any_match(deny, t),
    ensures
        !allowed(deny, allow, t),
{
}

/// An empty allow list permits every topic that no deny pattern matches.
pub proof fn lemma_empty_allow_permits(deny: Seq<Seq<u8>>, allow: Seq<Seq<u8>>, t: Seq<u8>)
    requires
        allow.len() == 0,
        !any_match(deny, t),
    ensures
        allowed(deny, allow, t),
{
}

} // verus!
