use vstd::prelude::*;

use crate::BridgeError;
use crate::DOLLAR;
use crate::HASH;
use crate::PLUS;
use crate::QUESTION;
use crate::SLASH;
use crate::STAR;

verus! {

/// Characters that may not appear anywhere in a key expression: the MQTT
/// wildcards (they are translated away) and the selector/DSL characters of
/// the key-expression namespace.
pub open spec fn ke_forbidden(b: u8) -> bool {
    b == HASH || b == PLUS || b == QUESTION || b == DOLLAR
}

/// A `*` at position `i` must start its chunk: it stands at the beginning,
/// right after a `/`, or as the second `*` of a `**` chunk.
pub open spec fn star_left_ok(k: Seq<u8>, i: int) -> bool {
    ||| i == 0
    ||| k[i - 1] == SLASH
    ||| (k[i - 1] == STAR && (i == 1 || k[i - 2] == SLASH))
}

/// A `*` at position `i` must end its chunk: it stands at the end, right
/// before a `/`, or as the first `*` of a `**` chunk.
pub open spec fn star_right_ok(k: Seq<u8>, i: int) -> bool {
    ||| i == k.len() - 1
    ||| k[i + 1] == SLASH
    ||| (k[i + 1] == STAR && (i + 2 == k.len() || k[i + 2] == SLASH))
}

/// Syntactic validity of a key expression: non-empty, no leading, trailing
/// or doubled `/` (so no empty chunk), no forbidden character, and every `*`
/// confined to a chunk that is exactly `*` or `**`.
pub open spec fn valid_keyexpr(k: Seq<u8>) -> bool {
    &&& k.len() > 0
    &&& k[0] != SLASH
    &&& k[k.len() - 1] != SLASH
    &&& forall|i: int| 0 <= i < k.len() - 1 ==> !(#[trigger] k[i] == SLASH && k[i + 1] == SLASH)
    &&& forall|i: int| 0 <= i < k.len() ==> !ke_forbidden(#[trigger] k[i])
    &&& forall|i: int| 0 <= i < k.len() && k[i] == STAR ==> star_left_ok(k, i) && star_right_ok(k, i)
}

/// Whether position `i` of `k` satisfies every pointwise validity condition.
pub open spec fn ke_ok_at(k: Seq<u8>, i: int) -> bool {
    &&& !(i < k.len() - 1 && k[i] == SLASH && k[i + 1] == SLASH)
    &&& !ke_forbidden(k[i])
    &&& (k[i] == STAR ==> star_left_ok(k, i) && star_right_ok(k, i))
}

/// Decides `valid_keyexpr` on a concrete candidate key.
pub fn is_valid_keyexpr(k: &Vec<u8>) -> (r: bool)
    ensures
        r == valid_keyexpr(k@),
{
    let n = k.len();
    if n == 0 {
        return false;
    }
    if k[0] == SLASH || k[n - 1] == SLASH {
        return false;
    }
    for i in 0..n
        invariant
            n == k@.len(),
            0 < n,
            k@[0] != SLASH,
            k@[n - 1] != SLASH,
            forall|j: int| 0 <= j < i ==> ke_ok_at(k@, j),
    {
        let b = k[i];
        if b == HASH || b == PLUS || b == QUESTION || b == DOLLAR {
            return false;
        }
        if b == SLASH && i + 1 < n && k[i + 1] == SLASH {
            return false;
        }
        if b == STAR {
            let left_ok = i == 0 || k[i - 1] == SLASH || (k[i - 1] == STAR && (i == 1 || k[i
                - 2] == SLASH));
            let right_ok = i == n - 1 || k[i + 1] == SLASH || (k[i + 1] == STAR && (i + 2 == n || k[i
                + 2] == SLASH));
            if !left_ok || !right_ok {
                return false;
            }
        }
        assert(ke_ok_at(k@, i as int));
    }
    assert forall|i: int|
        0 <= i < k@.len() - 1 implies !(#[trigger] k@[i] == SLASH && k@[i + 1] == SLASH) by {
        assert(ke_ok_at(k@, i));
    };
    assert forall|i: int| 0 <= i < k@.len() implies !ke_forbidden(#[trigger] k@[i]) by {
        assert(ke_ok_at(k@, i));
    };
    assert forall|i: int|
        0 <= i < k@.len() && #[trigger] k@[i] == STAR implies star_left_ok(k@, i)
        && star_right_ok(k@, i) by {
        assert(ke_ok_at(k@, i));
    };
    true
}

/// How one MQTT topic byte is rendered in a key expression: `+` becomes `*`,
/// `#` becomes `**`, anything else is kept.
pub open spec fn enc_byte(b: u8) -> Seq<u8> {
    if b == PLUS {
        seq![STAR]
    } else if b == HASH {
        seq![STAR, STAR]
    } else {
        seq![b]
    }
}

/// The body of the translated topic: each byte rendered by `enc_byte`, in
/// order.
pub open spec fn mqtt_to_ke_body(t: Seq<u8>) -> Seq<u8>
    decreases t.len(),
{
    if t.len() == 0 {
        Seq::empty()
    } else {
        enc_byte(t[0]) + mqtt_to_ke_body(t.skip(1))
    }
}

/// The key expression an MQTT topic translates to: the rendered body, with
/// the scope prepended as a literal prefix chunk when one is configured.
pub open spec fn topic_to_ke_spec(t: Seq<u8>, scope: Option<Seq<u8>>) -> Seq<u8> {
    match scope {
        Some(s) => s + seq![SLASH] + mqtt_to_ke_body(t),
        None => mqtt_to_ke_body(t),
    }
}

proof fn lemma_body_snoc(t: Seq<u8>)
    requires
        t.len() > 0,
    ensures
        mqtt_to_ke_body(t) == mqtt_to_ke_body(t.drop_last()) + enc_byte(t.last()),
    decreases t.len(),
{
    if t.len() == 1 {
        assert(t.drop_last() =~= Seq::<u8>::empty());
        assert(t.skip(1) =~= Seq::<u8>::empty());
        assert(mqtt_to_ke_body(t) =~= mqtt_to_ke_body(t.drop_last()) + enc_byte(t.last()));
    } else {
        lemma_body_snoc(t.skip(1));
        assert(t.skip(1).drop_last() =~= t.drop_last().skip(1));
        assert(t.skip(1).last() == t.last());
        assert(mqtt_to_ke_body(t) == enc_byte(t[0]) + (mqtt_to_ke_body(t.drop_last().skip(1))
            + enc_byte(t.last())));
        assert(t.drop_last().len() > 0);
        assert(t.drop_last()[0] == t[0]);
        assert(mqtt_to_ke_body(t.drop_last()) == enc_byte(t[0]) + mqtt_to_ke_body(
            t.drop_last().skip(1),
        ));
        assert(enc_byte(t[0]) + (mqtt_to_ke_body(t.drop_last().skip(1)) + enc_byte(t.last()))
            =~= (enc_byte(t[0]) + mqtt_to_ke_body(t.drop_last().skip(1))) + enc_byte(t.last()));
    }
}

/// Translates an MQTT topic to a key expression, prefixing the configured
/// scope. Returns `InvalidTopic` exactly when the translated expression is
/// not syntactically valid in the key-expression namespace.
pub fn topic_to_ke(topic: &Vec<u8>, scope: &Option<Vec<u8>>) -> (r: Result<Vec<u8>, BridgeError>)
    ensures
        (r matches Ok(k) ==> k@ == topic_to_ke_spec(topic@, crate::config::opt_view(*scope))
            && valid_keyexpr(k@)),
        r is Ok <==> valid_keyexpr(topic_to_ke_spec(topic@, crate::config::opt_view(*scope))),
        r matches Err(e) ==> e is InvalidTopic,
{
    let ghost sv = crate::config::opt_view(*scope);
    let mut out: Vec<u8> = Vec::new();
    match scope {
        Some(s) => {
            let mut i: usize = 0;
            while i < s.len()
                invariant
                    i <= s.len(),
                    out@ == s@.take(i as int),
                decreases s.len() - i,
            {
                out.push(s[i]);
                assert(s@.take(i + 1) =~= s@.take(i as int).push(s@[i as int]));
                i = i + 1;
            }
            assert(s@.take(s.len() as int) =~= s@);
            out.push(SLASH);
            assert(out@ =~= s@ + seq![SLASH]);
        },
        None => {},
    }
    let ghost prefix = out@;
    assert(mqtt_to_ke_body(topic@.take(0)) =~= Seq::<u8>::empty());
    assert(out@ =~= prefix + mqtt_to_ke_body(topic@.take(0)));
    let mut i: usize = 0;
    while i < topic.len()
        invariant
            i <= topic.len(),
            out@ == prefix + mqtt_to_ke_body(topic@.take(i as int)),
        decreases topic.len() - i,
    {
        let b = topic[i];
        if b == PLUS {
            out.push(STAR);
        } else if b == HASH {
            out.push(STAR);
            out.push(STAR);
        } else {
            out.push(b);
        }
        proof {
            let tt = topic@.take(i + 1);
            lemma_body_snoc(tt);
            assert(tt.drop_last() =~= topic@.take(i as int));
            assert(tt.last() == topic@[i as int]);
            assert(out@ =~= prefix + (mqtt_to_ke_body(topic@.take(i as int)) + enc_byte(
                topic@[i as int],
            )));
        }
        i = i + 1;
    }
    assert(topic@.take(topic.len() as int) =~= topic@);
    assert(out@ == topic_to_ke_spec(topic@, sv));
    if is_valid_keyexpr(&out) {
        Ok(out)
    } else {
        Err(BridgeError::InvalidTopic)
    }
}

/// The MQTT topic a concrete published key maps back to: the key itself
/// when no scope is configured, otherwise the key with the scope prefix and
/// its separator stripped; `None` when the key does not start with the
/// configured scope.
pub open spec fn ke_to_topic_spec(k: Seq<u8>, scope: Option<Seq<u8>>) -> Option<Seq<u8>> {
    match scope {
        Some(s) => if k.len() > s.len() && k.take(s.len() as int) == s && k[s.len() as int]
            == SLASH {
            Some(k.skip(s.len() + 1int))
        } else {
            None
        },
        None => Some(k),
    }
}

/// Translates a concrete key expression back to the MQTT topic it is
/// delivered on, stripping the configured scope. Returns `InvalidTopic`
/// exactly when a scope is configured and the key does not start with it.
#[verifier::loop_isolation(false)]
pub fn ke_to_topic(key: &Vec<u8>, scope: &Option<Vec<u8>>) -> (r: Result<Vec<u8>, BridgeError>)
    ensures
        (r matches Ok(t) ==> ke_to_topic_spec(key@, crate::config::opt_view(*scope)) == Some(t@)),
        r is Ok <==> ke_to_topic_spec(key@, crate::config::opt_view(*scope)) is Some,
        r matches Err(e) ==> e is InvalidTopic,
{
    match scope {
        Some(s) => {
            assert(crate::config::opt_view(*scope) == Some(s@));
            if key.len() <= s.len() {
                return Err(BridgeError::InvalidTopic);
            }
            let mut i: usize = 0;
            while i < s.len()
                invariant
                    i <= s.len(),
                    s.len() < key.len(),
                    forall|j: int| 0 <= j < i ==> key@[j] == s@[j],
                decreases s.len() - i,
            {
                if key[i] != s[i] {
                    proof {
                        let sv2 = s@;
                        assert(key@[i as int] != sv2[i as int]);
                        assert(key@.take(sv2.len() as int)[i as int] == key@[i as int]);
                        assert(key@.take(sv2.len() as int) != sv2);
                        assert(ke_to_topic_spec(key@, Some(sv2)) is None);
                    }
                    return Err(BridgeError::InvalidTopic);
                }
                i = i + 1;
            }
            assert(key@.take(s.len() as int) =~= s@);
            if key[s.len()] != SLASH {
                return Err(BridgeError::InvalidTopic);
            }
            let start = s.len() + 1;
            let mut out: Vec<u8> = Vec::new();
            let mut j: usize = start;
            while j < key.len()
                invariant
                    start <= j <= key.len(),
                    start == s.len() + 1 <= key.len(),
                    out@ == key@.subrange(start as int, j as int),
                decreases key.len() - j,
            {
                out.push(key[j]);
                assert(key@.subrange(start as int, j + 1) =~= key@.subrange(
                    start as int,
                    j as int,
                ).push(key@[j as int]));
                j = j + 1;
            }
            assert(out@ =~= key@.skip(start as int));
            Ok(out)
        },
        None => {
            let mut out: Vec<u8> = Vec::new();
            let mut j: usize = 0;
            while j < key.len()
                invariant
                    j <= key.len(),
                    out@ == key@.take(j as int),
                decreases key.len() - j,
            {
                out.push(key[j]);
                assert(key@.take(j + 1) =~= key@.take(j as int).push(key@[j as int]));
                j = j + 1;
            }
            assert(out@ =~= key@);
            Ok(out)
        },
    }
}

/// A topic is wildcard-free when it holds neither MQTT wildcard character.
pub open spec fn wildcard_free(t: Seq<u8>) -> bool {
    forall|i: int| 0 <= i < t.len() ==> t[i] != PLUS && t[i] != HASH
}

proof fn lemma_body_identity(t: Seq<u8>)
    requires
        wildcard_free(t),
    ensures
        mqtt_to_ke_body(t) == t,
    decreases t.len(),
{
    if t.len() == 0 {
        assert(mqtt_to_ke_body(t) =~= t);
    } else {
        assert(wildcard_free(t.skip(1)));
        lemma_body_identity(t.skip(1));
        assert(t[0] != PLUS && t[0] != HASH);
        assert(mqtt_to_ke_body(t) =~= seq![t[0]] + t.skip(1));
        assert(seq![t[0]] + t.skip(1) =~= t);
    }
}

/// Round trip: translating a wildcard-free MQTT topic to a key expression
/// and translating that key back yields the original topic, for every
/// scope.
pub proof fn lemma_topic_roundtrip(t: Seq<u8>, scope: Option<Seq<u8>>)
    requires
        wildcard_free(t),
    ensures
        ke_to_topic_spec(topic_to_ke_spec(t, scope), scope) == Some(t),
{
    lemma_body_identity(t);
    match scope {
        Some(s) => {
            let k = s + seq![SLASH] + t;
            assert(k.len() == s.len() + 1 + t.len());
            assert(k.take(s.len() as int) =~= s);
            assert(k[s.len() as int] == SLASH);
            assert(k.skip(s.len() + 1int) =~= t);
        },
        None => {},
    }
}

} // verus!
