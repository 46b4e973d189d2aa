//! Host address selection.
//!
//! At startup the server may advertise one of the machine's own IPv4
//! addresses.  The embedding program enumerates the interfaces; this module
//! holds the selection rule: the first address that is neither loopback nor
//! link-local nor broadcast.

use vstd::prelude::*;

verus! {

/// An IPv4 address as its four octets.
#[derive(PartialEq, Eq, Structural, Clone, Copy, Debug)]
pub struct IpV4 {
    pub a: u8,
    pub b: u8,
    pub c: u8,
    pub d: u8,
}

/// Why no host address could be selected.
#[derive(PartialEq, Eq, Structural, Clone, Copy, Debug)]
pub enum NetErr {
    /// No interface offers a usable IPv4 address.
    NoNetworkInterface,
}

/// A loopback address: 127.0.0.0/8.
pub open spec fn spec_is_loopback(ip: IpV4) -> bool {
    ip.a == 127
}

/// A link-local address: 169.254.0.0/16.
pub open spec fn spec_is_link_local(ip: IpV4) -> bool {
    ip.a == 169 && ip.b == 254
}

/// The broadcast address 255.255.255.255.
pub open spec fn spec_is_broadcast(ip: IpV4) -> bool {
    ip.a == 255 && ip.b == 255 && ip.c == 255 && ip.d == 255
}

/// An address the server may advertise: neither loopback nor link-local nor
/// broadcast.
pub open spec fn spec_usable(ip: IpV4) -> bool {
    !spec_is_loopback(ip) && !spec_is_link_local(ip) && !spec_is_broadcast(ip)
}

/// The first usable address of the list, or the error when there is none.
pub open spec fn spec_select(candidates: Seq<IpV4>) -> Result<IpV4, NetErr>
    decreases candidates.len(),
{
    if candidates.len() == 0 {
        Err(NetErr::NoNetworkInterface)
    } else if spec_usable(candidates[0]) {
        Ok(candidates[0])
    } else {
        spec_select(candidates.subrange(1, candidates.len() as int))
    }
}

/// Whether this address may be advertised.
pub fn is_usable(ip: &IpV4) -> (usable: bool)
    ensures
        usable == spec_usable(*ip),
{
    let loopback = ip.a == 127;
    let link_local = ip.a == 169 && ip.b == 254;
    let broadcast = ip.a == 255 && ip.b == 255 && ip.c == 255 && ip.d == 255;
    !loopback && !link_local && !broadcast
}

/// Selects the host address to advertise: the first usable IPv4 address
/// among the machine's interface addresses, in the order given.
pub fn select_host_address(candidates: &Vec<IpV4>) -> (r: Result<IpV4, NetErr>)
    ensures
        r == spec_select(candidates@),
{
    let n = candidates.len();
    proof {
        assert(candidates@.subrange(0, n as int) =~= candidates@);
    }
    let mut i: usize = 0;
    while i < n
        invariant
            i <= n,
            n == candidates@.len(),
            spec_select(candidates@) == spec_select(candidates@.subrange(i as int, n as int)),
        decreases n - i,
    {
        let ip = candidates[i];
        if is_usable(&ip) {
            proof {
                assert(candidates@.subrange(i as int, n as int)[0] == candidates@[i as int]);
            }
            return Ok(ip);
        }
        proof {
            let rest = candidates@.subrange(i as int, n as int);
            assert(rest[0] == candidates@[i as int]);
            assert(rest.subrange(1, rest.len() as int) =~= candidates@.subrange(
                i + 1,
                n as int,
            ));
        }
        i = i + 1;
    }
    proof {
        assert(candidates@.subrange(n as int, n as int).len() == 0);
    }
    Err(NetErr::NoNetworkInterface)
}

} // verus!
