use vstd::prelude::*;

use crate::ipv4::Ipv4Address;

verus! {

/// The result of one subnet computation: the subnet address, the mask
/// length, the usable host addresses and the broadcast address.
#[derive(Debug)]
pub struct SubnetData {
    pub subnet: Ipv4Address,
    pub mask: u32,
    pub useful_range: Vec<Ipv4Address>,
    pub broadcast: Ipv4Address,
}

impl SubnetData {
    /// Bundles the four computed values.
    pub fn new(subnet: Ipv4Address, mask: u32, useful_range: Vec<Ipv4Address>, broadcast: Ipv4Address) -> (r: SubnetData)
        ensures
            r.subnet == subnet,
            r.mask == mask,
            r.useful_range@ == useful_range@,
            r.broadcast == broadcast,
    {
        Self { subnet, mask, useful_range, broadcast }
    }

    /// The subnet (network) address.
    pub fn get_subnet_addrs(&self) -> (r: Ipv4Address)
        ensures
            r == self.subnet,
    {
        self.subnet
    }

    /// The mask length (CIDR prefix length).
    pub fn get_mask(&self) -> (r: u32)
        ensures
            r == self.mask,
    {
        self.mask
    }

    /// A copy of the usable host addresses, in ascending order.
    pub fn get_useful_range(&self) -> (r: Vec<Ipv4Address>)
        ensures
            r@ == self.useful_range@,
    {
        let r = self.useful_range.clone();
        proof {
            assert(r@ =~= self.useful_range@);
        }
        r
    }

    /// The broadcast address.
    pub fn get_broadcast(&self) -> (r: Ipv4Address)
        ensures
            r == self.broadcast,
    {
        self.broadcast
    }
}

} // verus!
