use vstd::prelude::*;

pub mod access;
pub mod adapter;
pub mod config;
pub mod encoding;
pub mod session;
pub mod topic;

verus! {

/// Hierarchy separator, shared by MQTT topics and key expressions.
pub const SLASH: u8 = 47;

/// MQTT single-level wildcard `+`.
pub const PLUS: u8 = 43;

/// MQTT multi-level wildcard `#`.
pub const HASH: u8 = 35;

/// Key-expression wildcard character `*`.
pub const STAR: u8 = 42;

/// Key-expression selector character `?`, never valid inside a key.
pub const QUESTION: u8 = 63;

/// Key-expression DSL character `$`, never valid inside a key.
pub const DOLLAR: u8 = 36;

/// The bridge core's unified failure taxonomy: a topic or key that does not
/// translate, or a failure reported by the pub/sub network. Denied access is
/// not an error (a denied operation is silently skipped), and MQTT protocol
/// violations are handled by the protocol adapters, so neither appears here.
#[derive(Clone, Copy, Debug, PartialEq, Eq, Structural)]
pub enum BridgeError {
    InvalidTopic,
    PubSubError,
}

/// Byte-wise equality of two byte strings.
pub fn bytes_eq(a: &Vec<u8>, b: &Vec<u8>) -> (r: bool)
    ensures
        r == (a@ == b@),
{
    if a.len() != b.len() {
        return false;
    }
    let mut i: usize = 0;
    while i < a.len()
        invariant
            i <= a.len(),
            a@.len() == b@.len(),
            forall|j: int| 0 <= j < i ==> a@[j] == b@[j],
        decreases a.len() - i,
    {
        if a[i] != b[i] {
            return false;
        }
        i = i + 1;
    }
    assert(a@ =~= b@);
    true
}

/// A fresh copy of a byte string.
pub fn copy_bytes(v: &Vec<u8>) -> (r: Vec<u8>)
    ensures
        r@ == v@,
{
    let mut out: Vec<u8> = Vec::new();
    let mut i: usize = 0;
    while i < v.len()
        invariant
            i <= v.len(),
            out@ == v@.take(i as int),
        decreases v.len() - i,
    {
        out.push(v[i]);
        assert(v@.take(i + 1) =~= v@.take(i as int).push(v@[i as int]));
        i = i + 1;
    }
    assert(v@.take(v.len() as int) =~= v@);
    out
}

} // verus!
