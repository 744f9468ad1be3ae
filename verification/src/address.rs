use vstd::prelude::*;

verus! {

/// A remote peer's network endpoint, the key under which its outbound
/// channel is registered: an IPv4 host and a TCP port, held as plain
/// integers so that contracts can speak of them directly.
#[derive(Clone, Copy, PartialEq, Eq, Structural, Hash, Debug)]
pub struct PeerAddress {
    pub host: u32,
    pub port: u16,
}

impl PeerAddress {
    pub fn new(host: u32, port: u16) -> (a: PeerAddress)
        ensures
            a == (PeerAddress { host, port }),
    {
        PeerAddress { host, port }
    }
}

} // verus!
