use crate::address::{IpAddress, IpType};
use vstd::prelude::*;

verus! {

/// OpenDNS's resolvers of family `t`, which answer the special name
/// `myip.opendns.com.` with the address the query came from.
pub open spec fn opendns_addresses(t: IpType) -> Seq<IpAddress> {
    match t {
        // 208.67.222.222 and 208.67.220.220
        IpType::V4 => seq![IpAddress::V4(0xD043_DEDE), IpAddress::V4(0xD043_DCDC)],
        // 2620:119:35::35 and 2620:119:53::53
        IpType::V6 => seq![
            IpAddress::V6(0x2620_0119_0035_0000_0000_0000_0000_0035),
            IpAddress::V6(0x2620_0119_0053_0000_0000_0000_0000_0053),
        ],
    }
}

/// The resolvers to ask for the WAN address of family `t`.
pub fn opendns_servers(t: IpType) -> (r: Vec<IpAddress>)
    ensures
        r@ == opendns_addresses(t),
{
    let r = match t {
        IpType::V4 => vec![IpAddress::V4(0xD043_DEDE), IpAddress::V4(0xD043_DCDC)],
        IpType::V6 => vec![
            IpAddress::V6(0x2620_0119_0035_0000_0000_0000_0000_0035),
            IpAddress::V6(0x2620_0119_0053_0000_0000_0000_0000_0053),
        ],
    };
    assert(r@ =~= opendns_addresses(t));
    r
}

/// The ipify service that echoes the caller's address of family `t`.
pub fn ipify_url(t: IpType) -> (r: &'static str)
    ensures
        r@ == (match t {
            IpType::V4 => "https://api.ipify.org/"@,
            IpType::V6 => "https://api6.ipify.org/"@,
        }),
{
    match t {
        IpType::V4 => "https://api.ipify.org/",
        IpType::V6 => "https://api6.ipify.org/",
    }
}

} // verus!
