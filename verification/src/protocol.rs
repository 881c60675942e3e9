//! The transport kinds the service can listen on, parsing of their names
//! from configuration text, and normalization of a requested protocol list
//! so that no listener is started twice.

use vstd::prelude::*;

verus! {

/// A transport kind: connection-oriented (TCP) or datagram-oriented (UDP).
#[derive(Clone, Copy, Debug, PartialEq, Eq, Structural)]
pub enum Protocol {
    Tcp,
    Udp,
}

/// The three-letter name "tcp", compared without regard to ASCII case.
pub open spec fn is_tcp_name(s: Seq<char>) -> bool {
    &&& s.len() == 3
    &&& (s[0] == 't' || s[0] == 'T')
    &&& (s[1] == 'c' || s[1] == 'C')
    &&& (s[2] == 'p' || s[2] == 'P')
}

/// The three-letter name "udp", compared without regard to ASCII case.
pub open spec fn is_udp_name(s: Seq<char>) -> bool {
    &&& s.len() == 3
    &&& (s[0] == 'u' || s[0] == 'U')
    &&& (s[1] == 'd' || s[1] == 'D')
    &&& (s[2] == 'p' || s[2] == 'P')
}

/// What a protocol name parses to: `tcp` and `udp` (any ASCII case) are the
/// only accepted names.
pub open spec fn protocol_of(s: Seq<char>) -> Option<Protocol> {
    if is_tcp_name(s) {
        Some(Protocol::Tcp)
    } else if is_udp_name(s) {
        Some(Protocol::Udp)
    } else {
        None
    }
}

impl Protocol {
    /// Parse a protocol name, case-insensitively: `Some(Tcp)` for "tcp",
    /// `Some(Udp)` for "udp", `None` for every other string.
    pub fn parse(s: &str) -> (r: Option<Protocol>)
        ensures
            r == protocol_of(s@),
    {
        if s.unicode_len() != 3 {
            return None;
        }
        let c0 = s.get_char(0);
        let c1 = s.get_char(1);
        let c2 = s.get_char(2);
        if (c0 == 't' || c0 == 'T') && (c1 == 'c' || c1 == 'C') && (c2 == 'p' || c2 == 'P') {
            Some(Protocol::Tcp)
        } else if (c0 == 'u' || c0 == 'U') && (c1 == 'd' || c1 == 'D') && (c2 == 'p' || c2 == 'P') {
            Some(Protocol::Udp)
        } else {
            None
        }
    }
}

/// The canonical protocol list: each requested kind once, TCP before UDP.
pub open spec fn canonical_protocols(s: Seq<Protocol>) -> Seq<Protocol> {
    (if s.contains(Protocol::Tcp) {
        seq![Protocol::Tcp]
    } else {
        Seq::<Protocol>::empty()
    }) + (if s.contains(Protocol::Udp) {
        seq![Protocol::Udp]
    } else {
        Seq::<Protocol>::empty()
    })
}

/// Whether the list mentions the given protocol.
pub fn contains_protocol(v: &Vec<Protocol>, p: Protocol) -> (r: bool)
    ensures
        r == v@.contains(p),
{
    let mut i: usize = 0;
    while i < v.len()
        invariant
            i <= v.len(),
            forall|j: int| 0 <= j < i ==> v@[j] != p,
        decreases v.len() - i,
    {
        if v[i] == p {
            return true;
        }
        i = i + 1;
    }
    false
}

/// Deduplicate a requested protocol list into the canonical order, so the
/// supervisor starts at most one listener per transport kind.
pub fn normalize_protocols(v: &Vec<Protocol>) -> (r: Vec<Protocol>)
    ensures
        r@ == canonical_protocols(v@),
        r@.no_duplicates(),
        r@.contains(Protocol::Tcp) <==> v@.contains(Protocol::Tcp),
        r@.contains(Protocol::Udp) <==> v@.contains(Protocol::Udp),
{
    let mut r: Vec<Protocol> = Vec::new();
    if contains_protocol(v, Protocol::Tcp) {
        r.push(Protocol::Tcp);
    }
    if contains_protocol(v, Protocol::Udp) {
        r.push(Protocol::Udp);
    }
    proof {
        assert(r@ =~= canonical_protocols(v@));
        if v@.contains(Protocol::Tcp) {
            assert(r@[0] == Protocol::Tcp);
        }
        if v@.contains(Protocol::Udp) {
            assert(r@[r@.len() - 1] == Protocol::Udp);
        }
    }
    r
}

} // verus!
