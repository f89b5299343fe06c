use vstd::prelude::*;

verus! {

/// The address family that is resolved and compared.
#[derive(Clone, Copy, Debug, PartialEq, Eq, Structural, PartialOrd, Ord, Hash)]
pub enum IpType {
    V4,
    V6,
}

/// An IP address, held as the integer that its octets spell in network order.
#[derive(Clone, Copy, Debug, PartialEq, Eq, Structural, Hash)]
pub enum IpAddress {
    V4(u32),
    V6(u128),
}

impl IpAddress {
    pub open spec fn family(self) -> IpType {
        match self {
            IpAddress::V4(_) => IpType::V4,
            IpAddress::V6(_) => IpType::V6,
        }
    }

    /// The family of this address.
    pub fn ip_type(&self) -> (r: IpType)
        ensures
            r == self.family(),
    {
        match self {
            IpAddress::V4(_) => IpType::V4,
            IpAddress::V6(_) => IpType::V6,
        }
    }
}

impl From<IpAddress> for IpType {
    fn from(addr: IpAddress) -> (r: IpType) {
        addr.ip_type()
    }
}

impl vstd::std_specs::convert::FromSpecImpl<IpAddress> for IpType {
    open spec fn obeys_from_spec() -> bool {
        true
    }

    open spec fn from_spec(addr: IpAddress) -> IpType {
        addr.family()
    }
}

} // verus!
