use vstd::prelude::*;

use vstd::arithmetic::power2::{
    lemma2_to64, lemma_pow2_strictly_increases, lemma_pow2_unfold, pow2,
};

use crate::ipv4::{addr_bits, lemma_addr_bits_shape, Ipv4Address};
use crate::subnet_error::SubnetError;

verus! {

/// The smallest host-bit count at least `h` whose subnet holds room for
/// `hosts` usable addresses: the least `h' >= h` with `2^h' - 2 >= hosts`,
/// capped at the 32-bit address width.
pub open spec fn host_bits_from(h: nat, hosts: u32) -> nat
    decreases 33 - h,
    when h <= 32
{
    if h >= 32 || pow2(h) >= hosts + 2 {
        h
    } else {
        host_bits_from(h + 1, hosts)
    }
}

/// The smallest host-bit count `h` with `2^h - 2 >= hosts`, capped at the
/// 32-bit address width.
pub open spec fn min_host_bits(hosts: u32) -> nat {
    host_bits_from(0, hosts)
}

proof fn lemma_host_bits_from_props(h: nat, hosts: u32)
    requires
        h <= 32,
        hosts <= u32::MAX - 1,
    ensures
        h <= host_bits_from(h, hosts) <= 32,
        pow2(host_bits_from(h, hosts)) >= hosts + 2,
        host_bits_from(h, hosts) > h ==> pow2((host_bits_from(h, hosts) - 1) as nat) < hosts + 2,
    decreases 33 - h,
{
    lemma2_to64();
    if h >= 32 || pow2(h) >= hosts + 2 {
    } else {
        lemma_host_bits_from_props(h + 1, hosts);
    }
}

/// Minimality of the host-bit count: the chosen count leaves room for the
/// requested hosts beside the network and broadcast addresses, and one bit
/// fewer would not.
pub proof fn lemma_min_host_bits(hosts: u32)
    requires
        1 <= hosts <= u32::MAX - 1,
    ensures
        2 <= min_host_bits(hosts) <= 32,
        pow2(min_host_bits(hosts)) - 2 >= hosts,
        pow2((min_host_bits(hosts) - 1) as nat) - 2 < hosts,
{
    lemma2_to64();
    lemma_host_bits_from_props(0, hosts);
    let m = min_host_bits(hosts);
    assert(pow2(0) < hosts + 2);
    assert(m == host_bits_from(0, hosts));
    assert(m > 0);
    if m == 1 {
        assert(pow2(1) >= hosts + 2);
        assert(false);
    }
}

/// Two host-bit counts that both satisfy the minimality pair are equal, so
/// the pair pins the count down.
pub proof fn lemma_min_host_bits_unique(hosts: u32, h: nat)
    requires
        1 <= hosts <= u32::MAX - 1,
        1 <= h <= 32,
        pow2(h) >= hosts + 2,
        pow2((h - 1) as nat) < hosts + 2,
    ensures
        h == min_host_bits(hosts),
{
    lemma_min_host_bits(hosts);
    let m = min_host_bits(hosts);
    if m < h {
        if m < h - 1 {
            lemma_pow2_strictly_increases(m, (h - 1) as nat);
        }
        assert(false);
    }
    if h < m {
        if h < m - 1 {
            lemma_pow2_strictly_increases(h, (m - 1) as nat);
        }
        assert(false);
    }
}

/// Host counts that fit one octet need at most eight host bits; larger
/// counts need more.
pub proof fn lemma_min_host_bits_octet(hosts: u32)
    requires
        1 <= hosts <= u32::MAX - 1,
    ensures
        hosts <= 254 ==> 2 <= min_host_bits(hosts) <= 8,
        hosts >= 255 ==> min_host_bits(hosts) > 8,
{
    lemma_min_host_bits(hosts);
    lemma2_to64();
    let m = min_host_bits(hosts);
    if hosts <= 254 && m > 8 {
        if m - 1 > 8 {
            lemma_pow2_strictly_increases(8, (m - 1) as nat);
        }
        assert(false);
    }
    if hosts >= 255 && m <= 8 {
        if m < 8 {
            lemma_pow2_strictly_increases(m, 8);
        }
        assert(false);
    }
}

/// The broadcast address for `h` host bits: the first three octets of the
/// base address unchanged, the fourth octet holding the value of `h` binary
/// ones, `2^h - 1`.
pub open spec fn broadcast_addr(a: Ipv4Address, h: u32) -> Ipv4Address {
    Ipv4Address {
        octet1: a.octet1,
        octet2: a.octet2,
        octet3: a.octet3,
        octet4: (pow2(h as nat) - 1) as u8,
    }
}

/// Count of usable host addresses between subnet octet `s4` and broadcast
/// octet `b4`: those strictly between the two.
pub open spec fn useful_range_len(s4: int, b4: int) -> nat {
    if b4 - s4 - 1 >= 0 {
        (b4 - s4 - 1) as nat
    } else {
        0
    }
}

/// The usable host addresses: all addresses sharing the first three octets
/// of `a` whose fourth octet lies strictly between `a`'s and `b4`.
pub open spec fn useful_range_seq(a: Ipv4Address, b4: u8) -> Seq<Ipv4Address> {
    Seq::new(
        useful_range_len(a.octet4 as int, b4 as int),
        |i: int|
            Ipv4Address {
                octet1: a.octet1,
                octet2: a.octet2,
                octet3: a.octet3,
                octet4: (a.octet4 + 1 + i) as u8,
            },
    )
}

/// The length of the usable range is the broadcast octet minus the subnet
/// octet minus one, or zero where that would be negative.
pub proof fn lemma_useful_range_length(a: Ipv4Address, b4: u8)
    ensures
        b4 > a.octet4 ==> useful_range_seq(a, b4).len() == b4 - a.octet4 - 1,
        b4 <= a.octet4 ==> useful_range_seq(a, b4).len() == 0,
{
}

/// Intermediate data for one subnet computation: the base address, its
/// binary form, and the host-bit count.
#[derive(Debug)]
pub struct AddrsData {
    pub addrs: Ipv4Address,
    pub bin_ip: String,
    pub host_bits: u32,
}

impl AddrsData {
    /// Well-formedness: the stored binary form belongs to the stored
    /// address, and the host-bit count fits the 32-bit address width.
    pub open spec fn wf(&self) -> bool {
        &&& self.bin_ip@ == addr_bits(self.addrs)
        &&& self.host_bits <= 32
    }

    /// Bundles the three values unchanged.
    pub fn new(addrs: Ipv4Address, bin_ip: String, host_bits: u32) -> (r: AddrsData)
        ensures
            r.addrs == addrs,
            r.bin_ip@ == bin_ip@,
            r.host_bits == host_bits,
    {
        Self { addrs, bin_ip, host_bits }
    }

    /// The base address.
    pub fn addrs(&self) -> (r: Ipv4Address)
        ensures
            r == self.addrs,
    {
        self.addrs
    }

    /// The binary form of the base address.
    pub fn bin_ip(&self) -> (r: &str)
        ensures
            r@ == self.bin_ip@,
    {
        self.bin_ip.as_str()
    }

    /// The host-bit count.
    pub fn host_bits(&self) -> (r: u32)
        ensures
            r == self.host_bits,
    {
        self.host_bits
    }

    /// Resolves the host-bit count for `hosts` requested host addresses:
    /// the smallest count whose subnet offers at least `hosts` usable
    /// addresses beside the network and broadcast addresses. Fails when no
    /// hosts are requested, or when the request exceeds what the address
    /// space can hold.
    pub fn build(addrs: Ipv4Address, bin_ip: String, hosts: u32) -> (r: Result<AddrsData, SubnetError>)
        ensures
            match r {
                Ok(d) => {
                    &&& 1 <= hosts <= u32::MAX - 1
                    &&& d.addrs == addrs
                    &&& d.bin_ip@ == bin_ip@
                    &&& d.host_bits == min_host_bits(hosts)
                },
                Err(e) => {
                    ||| (hosts == 0 && (e matches SubnetError::InvalidNumberHosts(m)
                        && m@ == "Number of hosts must be greater than 0"@))
                    ||| (hosts == u32::MAX && (e matches SubnetError::InvalidNumberHosts(m)
                        && m@ == "Number of hosts exceeds address-space capacity"@))
                },
            },
    {
        if hosts == 0 {
            return Err(
                SubnetError::InvalidNumberHosts("Number of hosts must be greater than 0".to_owned()),
            );
        }
        if hosts == u32::MAX {
            return Err(
                SubnetError::InvalidNumberHosts(
                    "Number of hosts exceeds address-space capacity".to_owned(),
                ),
            );
        }
        proof {
            lemma2_to64();
        }
        let mut host_bits: u32 = 2;
        let mut num_addrs: u64 = 4;
        while num_addrs - 2 < hosts as u64
            invariant
                2 <= host_bits <= 32,
                4 <= num_addrs,
                num_addrs == pow2(host_bits as nat),
                pow2((host_bits - 1) as nat) < hosts + 2,
                1 <= hosts <= u32::MAX - 1,
            decreases 32 - host_bits,
        {
            proof {
                lemma2_to64();
                if host_bits >= 32 {
                    assert(false);
                }
                lemma_pow2_strictly_increases(host_bits as nat, 32);
                lemma_pow2_unfold((host_bits + 1) as nat);
            }
            host_bits = host_bits + 1;
            num_addrs = num_addrs * 2;
        }
        proof {
            lemma_min_host_bits_unique(hosts, host_bits as nat);
        }
        Ok(AddrsData { addrs, bin_ip, host_bits })
    }

    /// The broadcast address: the first three octets of the base address
    /// unchanged, the fourth octet read from the host portion of the binary
    /// form with every '0' replaced by '1' — an all-ones string of
    /// `host_bits` digits, whose value is `2^host_bits - 1`. Fails when the
    /// host portion is empty or does not fit one octet.
    pub fn get_broadcast(&self) -> (r: Result<Ipv4Address, SubnetError>)
        requires
            self.wf(),
        ensures
            match r {
                Ok(b) => 1 <= self.host_bits <= 8 && b == broadcast_addr(self.addrs, self.host_bits),
                Err(e) => {
                    ||| (self.host_bits == 0 && (e matches SubnetError::ParserError(m)
                        && m@ == "cannot parse integer from empty string"@))
                    ||| (self.host_bits > 8 && (e matches SubnetError::ParserError(m)
                        && m@ == "number too large to fit in target type"@))
                },
            },
    {
        if self.host_bits == 0 {
            return Err(
                SubnetError::ParserError("cannot parse integer from empty string".to_owned()),
            );
        }
        if self.host_bits > 8 {
            return Err(
                SubnetError::ParserError("number too large to fit in target type".to_owned()),
            );
        }
        proof {
            lemma2_to64();
        }
        let mut value: u16 = 1;
        let mut j: u32 = 0;
        while j < self.host_bits
            invariant
                j <= self.host_bits <= 8,
                value == pow2(j as nat),
            decreases self.host_bits - j,
        {
            proof {
                lemma2_to64();
                lemma_pow2_strictly_increases(j as nat, 8);
                lemma_pow2_unfold((j + 1) as nat);
            }
            value = value * 2;
            j = j + 1;
        }
        proof {
            lemma2_to64();
            if self.host_bits < 8 {
                lemma_pow2_strictly_increases(self.host_bits as nat, 8);
            }
        }
        Ok(
            Ipv4Address {
                octet1: self.addrs.octet1,
                octet2: self.addrs.octet2,
                octet3: self.addrs.octet3,
                octet4: (value - 1) as u8,
            },
        )
    }

    /// The mask length: the count of binary digits left of the host
    /// portion, that is the 32-bit address width minus the host bits.
    pub fn get_mask(&self) -> (r: Result<u32, SubnetError>)
        requires
            self.wf(),
        ensures
            r matches Ok(m) && m == 32 - self.host_bits,
    {
        proof {
            lemma_addr_bits_shape(self.addrs);
        }
        let len = self.bin_ip.as_str().unicode_len();
        Ok((len as u32) - self.host_bits)
    }

    /// The usable host addresses of the subnet: those sharing the first
    /// three octets of the base address whose fourth octet lies strictly
    /// between the base address's and the broadcast's, in ascending order.
    /// Fails exactly where the broadcast derivation fails.
    pub fn get_useful_range(&self) -> (r: Result<Vec<Ipv4Address>, SubnetError>)
        requires
            self.wf(),
        ensures
            match r {
                Ok(v) => 1 <= self.host_bits <= 8 && v@ == useful_range_seq(
                    self.addrs,
                    broadcast_addr(self.addrs, self.host_bits).octet4,
                ),
                Err(e) => {
                    ||| (self.host_bits == 0 && (e matches SubnetError::ParserError(m)
                        && m@ == "cannot parse integer from empty string"@))
                    ||| (self.host_bits > 8 && (e matches SubnetError::ParserError(m)
                        && m@ == "number too large to fit in target type"@))
                },
            },
    {
        let broadcast = match self.get_broadcast() {
            Ok(b) => b,
            Err(e) => {
                return Err(e);
            },
        };
        let s4: u8 = self.addrs.octet4;
        let b4: u8 = broadcast.octet4;
        let ghost full = useful_range_seq(self.addrs, b4);
        let mut addrs_vec: Vec<Ipv4Address> = Vec::new();
        let mut i: u16 = s4 as u16 + 1;
        proof {
            assert(addrs_vec@ =~= full.subrange(0, 0));
        }
        while i < b4 as u16
            invariant
                s4 == self.addrs.octet4,
                s4 as int + 1 <= i as int,
                i as int <= if b4 as int >= s4 as int + 1 { b4 as int } else { s4 as int + 1 },
                full == useful_range_seq(self.addrs, b4),
                addrs_vec@ == full.subrange(0, i - s4 - 1),
            decreases b4 as int - i as int,
        {
            addrs_vec.push(
                Ipv4Address {
                    octet1: self.addrs.octet1,
                    octet2: self.addrs.octet2,
                    octet3: self.addrs.octet3,
                    octet4: i as u8,
                },
            );
            proof {
                assert(addrs_vec@ =~= full.subrange(0, i + 1 - s4 - 1));
            }
            i = i + 1;
        }
        proof {
            assert(addrs_vec@ =~= full);
        }
        Ok(addrs_vec)
    }
}

} // verus!
