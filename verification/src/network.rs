//! The address range that the operator gives to the nodes of a cluster,
//! held against the ranges that the cluster's network already uses.

use vstd::prelude::*;
use bitstring::BitString;
use cidr::Ipv4Cidr;

verus! {

/// A range of IPv4 addresses: those that share the first `length` bits of
/// `address`.
#[derive(Clone, Copy, Debug, PartialEq, Eq, Structural)]
pub struct Network {
    pub address: u32,
    pub length: u8,
}

/// How one range lies to another that it shares addresses with.
#[derive(Clone, Copy, Debug, PartialEq, Eq, Structural)]
pub enum Inclusion {
    /// The two are one range.
    Same,
    /// The first lies within the second and is smaller.
    Inside,
    /// The first holds the second and is larger.
    Around,
}

/// The bits of an address that lie behind the first `length`.
pub open spec fn host_mask(length: u8) -> u32 {
    if length >= 32 {
        0u32
    } else {
        0xffff_ffffu32 >> (length as u32)
    }
}

/// Whether two addresses share their first `length` bits.
pub open spec fn share_bits(one: u32, other: u32, length: u8) -> bool {
    length == 0 || (length <= 32 && (one ^ other) >> ((32 - length) as u32) == 0)
}

impl Network {
    /// A range is well-formed when its length is that of a prefix of an
    /// address and its address has nothing set behind the prefix.
    pub open spec fn valid(self) -> bool {
        self.length <= 32 && self.address & host_mask(self.length) == 0
    }

    /// Decides whether the range is well-formed.
    pub fn is_valid(&self) -> (valid: bool)
        ensures
            valid == self.valid(),
    {
        if self.length > 32 {
            false
        } else if self.length == 32 {
            assert(self.address & 0u32 == 0) by (bit_vector);
            true
        } else {
            let behind: u32 = 0xffff_ffffu32 >> (self.length as u32);
            self.address & behind == 0
        }
    }
}

/// How `one` lies to `other`: two ranges share addresses only where one's
/// prefix begins with the other's, and the one with the longer prefix is
/// the smaller.
pub open spec fn inclusion_of(one: Network, other: Network) -> Option<Inclusion> {
    if one.length <= other.length && share_bits(one.address, other.address, one.length) {
        if one.length == other.length {
            Some(Inclusion::Same)
        } else {
            Some(Inclusion::Around)
        }
    } else if other.length <= one.length && share_bits(one.address, other.address, other.length) {
        Some(Inclusion::Inside)
    } else {
        None
    }
}

/// The range that `<Ipv4Cidr as FromStr>::from_str` of cidr reads from a
/// text, as its first address and prefix length, or `None` where it
/// refuses the text.
pub uninterp spec fn parsed_network(text: Seq<char>) -> Option<(u32, u8)>;

/// `<Ipv4Cidr as FromStr>::from_str` of cidr: the range that the text
/// names. cidr refuses a prefix longer than an address and an address with
/// bits set behind the prefix, so what it accepts is well-formed.
#[verifier::external_body]
fn parse_network(text: &str) -> (parsed: Option<Network>)
    ensures
        parsed_network(text@) == (match parsed {
            Some(network) => Some((network.address, network.length)),
            None => None,
        }),
        parsed matches Some(network) ==> network.valid(),
{
    text.parse::<Ipv4Cidr>().ok().map(
        |range| Network { address: range.first_address().into(), length: range.network_length() },
    )
}

/// `BitString::subset_cmp` of bitstring on two `Ipv4Cidr` of cidr: the
/// order of two ranges taken as sets of addresses, `None` where neither
/// holds the other. The ranges must be well-formed, or cidr refuses to
/// make them.
#[verifier::external_body]
fn inclusion(one: Network, other: Network) -> (found: Option<Inclusion>)
    requires
        one.valid(),
        other.valid(),
    ensures
        found == inclusion_of(one, other),
{
    let first = Ipv4Cidr::new(one.address.into(), one.length).unwrap();
    let second = Ipv4Cidr::new(other.address.into(), other.length).unwrap();
    match first.subset_cmp(&second) {
        Some(std::cmp::Ordering::Less) => Some(Inclusion::Inside),
        Some(std::cmp::Ordering::Equal) => Some(Inclusion::Same),
        Some(std::cmp::Ordering::Greater) => Some(Inclusion::Around),
        None => None,
    }
}

/// The range of the whole cluster network, `10.0.0.0/16`.
pub open spec fn cluster_range() -> Network {
    Network { address: 0x0a00_0000, length: 16 }
}

/// The range of the load balancers, `10.0.0.0/24`.
pub open spec fn balancer_range() -> Network {
    Network { address: 0x0a00_0000, length: 24 }
}

/// The range of etcd, `10.0.1.0/24`.
pub open spec fn etcd_range() -> Network {
    Network { address: 0x0a00_0100, length: 24 }
}

/// Why a range cannot be given to the nodes, if it cannot: it must be
/// well-formed, lie within the cluster network without being all of it,
/// and share no address with the load balancers or with etcd.
pub open spec fn range_refusal(network: Network) -> Option<Seq<char>> {
    if !network.valid() {
        Some("Invalid CIDR provided."@)
    } else if inclusion_of(network, cluster_range()) != Some(Inclusion::Inside) {
        Some("Provided CIDR must be a subset of 10.0.0.0/16."@)
    } else if inclusion_of(network, balancer_range()) is Some {
        Some("Provided CIDR cannot overlap with 10.0.0.0/24, which is used for ELBs."@)
    } else if inclusion_of(network, etcd_range()) is Some {
        Some("Provided CIDR cannot overlap with 10.0.1.0/24, which is used for etcd."@)
    } else {
        None
    }
}

/// Decides whether a range can be given to the nodes.
pub fn check_network(network: Network) -> (verdict: Result<(), String>)
    ensures
        match verdict {
            Ok(_) => range_refusal(network) is None,
            Err(reason) => range_refusal(network) == Some(reason@),
        },
{
    if !network.is_valid() {
        return Err(String::from_str("Invalid CIDR provided."));
    }
    let cluster = Network { address: 0x0a00_0000, length: 16 };
    let balancers = Network { address: 0x0a00_0000, length: 24 };
    let etcd = Network { address: 0x0a00_0100, length: 24 };
    assert(0x0a00_0000u32 & (0xffff_ffffu32 >> 16u32) == 0) by (bit_vector);
    assert(0x0a00_0000u32 & (0xffff_ffffu32 >> 24u32) == 0) by (bit_vector);
    assert(0x0a00_0100u32 & (0xffff_ffffu32 >> 24u32) == 0) by (bit_vector);
    match inclusion(network, cluster) {
        Some(Inclusion::Inside) => {},
        _ => {
            return Err(String::from_str("Provided CIDR must be a subset of 10.0.0.0/16."));
        },
    }
    if inclusion(network, balancers).is_some() {
        return Err(
            String::from_str(
                "Provided CIDR cannot overlap with 10.0.0.0/24, which is used for ELBs.",
            ),
        );
    }
    if inclusion(network, etcd).is_some() {
        return Err(
            String::from_str(
                "Provided CIDR cannot overlap with 10.0.1.0/24, which is used for etcd.",
            ),
        );
    }
    Ok(())
}

/// Checks the range that the operator gave for the nodes: it must read as
/// a range, and be one that can be given to the nodes.
pub fn validate_cidr(text: &str) -> (verdict: Result<(), String>)
    ensures
        match parsed_network(text@) {
            None => verdict matches Err(reason) && reason@ == "Invalid CIDR provided."@,
            Some(read) => {
                let network = Network { address: read.0, length: read.1 };
                match verdict {
                    Ok(_) => range_refusal(network) is None,
                    Err(reason) => range_refusal(network) == Some(reason@),
                }
            },
        },
{
    match parse_network(text) {
        Some(network) => check_network(network),
        None => Err(String::from_str("Invalid CIDR provided.")),
    }
}

} // verus!
