use vstd::prelude::*;

verus! {

/// An optional byte string as a mathematical value.
pub open spec fn opt_view(s: Option<Vec<u8>>) -> Option<Seq<u8>> {
    match s {
        Some(v) => Some(v@),
        None => None,
    }
}

/// Effective plugin configuration, consumed read-only by the bridge core.
///
/// `scope` is an optional namespace prefix prepended to every key expression
/// derived from an MQTT topic. `allow` and `deny` are MQTT topic-pattern
/// lists evaluated by the access filter. `generalise_subs` and
/// `generalise_pubs` are opaque aggregation patterns forwarded to the
/// pub/sub network and never interpreted here; `port` is not used by the
/// core logic at all.
pub struct Config {
    pub port: u16,
    pub scope: Option<Vec<u8>>,
    pub allow: Vec<Vec<u8>>,
    pub deny: Vec<Vec<u8>>,
    pub generalise_subs: Vec<Vec<u8>>,
    pub generalise_pubs: Vec<Vec<u8>>,
}

impl Config {
    /// The scope as a mathematical value: `None`, or the prefix bytes.
    pub open spec fn scope_view(self) -> Option<Seq<u8>> {
        opt_view(self.scope)
    }

    /// The allow patterns as a sequence of byte sequences.
    pub open spec fn allow_view(self) -> Seq<Seq<u8>> {
        self.allow@.map_values(|v: Vec<u8>| v@)
    }

    /// The deny patterns as a sequence of byte sequences.
    pub open spec fn deny_view(self) -> Seq<Seq<u8>> {
        self.deny@.map_values(|v: Vec<u8>| v@)
    }
}

} // verus!
