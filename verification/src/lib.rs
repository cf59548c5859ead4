use vstd::prelude::*;

pub mod addrs_data;
pub mod ipv4;
pub mod subnet_data;
pub mod subnet_error;

use crate::addrs_data::{
    broadcast_addr, lemma_min_host_bits, lemma_min_host_bits_octet, min_host_bits,
    useful_range_seq, AddrsData,
};
use crate::ipv4::{addr_bits, octet_bits, Ipv4Address};
pub use crate::subnet_data::SubnetData;
pub use crate::subnet_error::SubnetError;

verus! {

/// Appends the eight binary digits of `o`, most significant first, to `s`.
fn push_octet_bits(s: &mut String, o: u8)
    ensures
        final(s)@ == old(s)@ + octet_bits(o),
{
    let mut k: usize = 0;
    while k < 8
        invariant
            k <= 8,
            s@ == old(s)@ + octet_bits(o).subrange(0, k as int),
        decreases 8 - k,
    {
        let j: u8 = (7 - k) as u8;
        if (o >> j) & 1 == 1 {
            s.append("1");
            proof {
                reveal_strlit("1");
                assert("1"@ =~= seq![crate::ipv4::bit_char(o, j)]);
            }
        } else {
            s.append("0");
            proof {
                reveal_strlit("0");
                assert("0"@ =~= seq![crate::ipv4::bit_char(o, j)]);
            }
        }
        proof {
            assert(octet_bits(o).subrange(0, k + 1 as int) =~= octet_bits(o).subrange(0, k as int)
                + seq![crate::ipv4::bit_char(o, j)]);
            assert(s@ =~= old(s)@ + octet_bits(o).subrange(0, k + 1 as int));
        }
        k = k + 1;
    }
    proof {
        assert(octet_bits(o).subrange(0, 8) =~= octet_bits(o));
    }
}

/// Converts the IPv4 octets from decimal base to binary base.
///
/// Returns a String with the octets in binary base: 32 characters, each
/// octet zero-padded to eight bits, most significant octet first.
pub fn ip_to_binary(ip: Ipv4Address) -> (r: String)
    ensures
        r@ == addr_bits(ip),
{
    let mut s = String::new();
    push_octet_bits(&mut s, ip.octet1);
    push_octet_bits(&mut s, ip.octet2);
    push_octet_bits(&mut s, ip.octet3);
    push_octet_bits(&mut s, ip.octet4);
    proof {
        assert(s@ =~= addr_bits(ip));
    }
    s
}

/// Creates a subnet for the given base IP address and number of hosts.
///
/// On success the subnet address is the base address itself, the mask
/// length and the host-bit count split the 32 address bits, the broadcast
/// address sets all host bits of the final octet, and the usable range runs
/// strictly between the subnet and broadcast addresses. Fails when no hosts
/// are requested, when the request exceeds the address space, or when the
/// host portion does not fit the final octet.
pub fn create_subnet(addrs: Ipv4Address, hosts: u32) -> (r: Result<SubnetData, SubnetError>)
    ensures
        match r {
            Ok(s) => {
                &&& 1 <= hosts <= 254
                &&& s.subnet == addrs
                &&& s.mask == 32 - min_host_bits(hosts)
                &&& s.broadcast == broadcast_addr(addrs, min_host_bits(hosts) as u32)
                &&& s.useful_range@ == useful_range_seq(addrs, s.broadcast.octet4)
            },
            Err(e) => {
                ||| (hosts == 0 && (e matches SubnetError::InvalidNumberHosts(m)
                    && m@ == "Number of hosts must be greater than 0"@))
                ||| (hosts == u32::MAX && (e matches SubnetError::InvalidNumberHosts(m)
                    && m@ == "Number of hosts exceeds address-space capacity"@))
                ||| (255 <= hosts <= u32::MAX - 1 && (e matches SubnetError::ParserError(m)
                    && m@ == "number too large to fit in target type"@))
            },
        },
{
    let bin_ip: String = ip_to_binary(addrs);

    let addrs_data: AddrsData = match AddrsData::build(addrs, bin_ip, hosts) {
        Ok(d) => d,
        Err(e) => {
            return Err(e);
        },
    };
    proof {
        lemma_min_host_bits(hosts);
        lemma_min_host_bits_octet(hosts);
    }

    let subnet: Ipv4Address = addrs_data.addrs();
    let broadcast: Ipv4Address = match addrs_data.get_broadcast() {
        Ok(b) => b,
        Err(e) => {
            return Err(e);
        },
    };
    let mask: u32 = match addrs_data.get_mask() {
        Ok(m) => m,
        Err(e) => {
            return Err(e);
        },
    };
    let useful_range: Vec<Ipv4Address> = match addrs_data.get_useful_range() {
        Ok(u) => u,
        Err(e) => {
            return Err(e);
        },
    };

    Ok(SubnetData::new(subnet, mask, useful_range, broadcast))
}

/// For every address and every requested host count between 1 and 254, the
/// mask length and the host-bit count together cover the 32 address bits
/// exactly, and the host portion fits the final octet.
pub proof fn lemma_mask_plus_host_bits(hosts: u32)
    requires
        1 <= hosts <= 254,
    ensures
        (32 - min_host_bits(hosts)) + min_host_bits(hosts) == 32,
        2 <= min_host_bits(hosts) <= 8,
{
    lemma_min_host_bits_octet(hosts);
}

} // verus!
