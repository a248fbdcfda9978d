//! The name under which the PTR record of an address is looked up.

use vstd::prelude::*;
use crate::address::IpAddress;
use crate::text::{append_decimal, decimal, digit_str, hex_digit};

verus! {

/// The reverse name of an IPv4 address `a.b.c.d`: the four octets in decimal,
/// last octet first, under `in-addr.arpa.`.
pub open spec fn reverse_name_v4(octets: Seq<u8>) -> Seq<char> {
    decimal(octets[3] as nat) + "."@ + decimal(octets[2] as nat) + "."@ + decimal(
        octets[1] as nat,
    ) + "."@ + decimal(octets[0] as nat) + ".in-addr.arpa."@
}

/// The value of the `k`-th half octet of an IPv6 address, counted from the end
/// of the address: the low half of the last octet is number 0.
pub open spec fn nibble(octets: Seq<u8>, k: int) -> nat {
    let octet = octets[15 - k / 2];
    if k % 2 == 0 {
        (octet % 16) as nat
    } else {
        (octet / 16) as nat
    }
}

/// The first `count` labels of the reverse name of an IPv6 address, each a
/// hexadecimal digit followed by a dot.
pub open spec fn nibble_labels(octets: Seq<u8>, count: nat) -> Seq<char> {
    Seq::new(
        2 * count,
        |i: int|
            if i % 2 == 0 {
                hex_digit(nibble(octets, i / 2))
            } else {
                '.'
            },
    )
}

/// The reverse name of an IPv6 address: its 32 half octets as hexadecimal
/// digits in lower case, last one first, under `ip6.arpa.`.
pub open spec fn reverse_name_v6(octets: Seq<u8>) -> Seq<char> {
    nibble_labels(octets, 32) + "ip6.arpa."@
}

/// The reverse name of an address, fully qualified.
pub open spec fn reverse_name(address: IpAddress) -> Seq<char> {
    match address {
        IpAddress::V4(octets) => reverse_name_v4(octets@),
        IpAddress::V6(octets) => reverse_name_v6(octets@),
    }
}

/// A reverse name is fully qualified: it ends with the dot of the root, so
/// that no search domain is ever put behind it.
pub proof fn lemma_reverse_name_is_fully_qualified(address: IpAddress)
    ensures
        reverse_name(address).len() > 0,
        reverse_name(address).last() == '.',
{
    reveal_strlit(".in-addr.arpa.");
    reveal_strlit("ip6.arpa.");
}

/// Builds the name that is queried for the PTR record of `address`.
pub fn build_reverse_name(address: &IpAddress) -> (name: String)
    ensures
        name@ == reverse_name(*address),
{
    let mut name = String::new();
    match address {
        IpAddress::V4(octets) => {
            append_decimal(&mut name, octets[3]);
            name.append(".");
            append_decimal(&mut name, octets[2]);
            name.append(".");
            append_decimal(&mut name, octets[1]);
            name.append(".");
            append_decimal(&mut name, octets[0]);
            name.append(".in-addr.arpa.");
            assert(name@ =~= reverse_name_v4(octets@));
        },
        IpAddress::V6(octets) => {
            let mut done: usize = 0;
            while done < 16
                invariant
                    done <= 16,
                    name@ == nibble_labels(octets@, 2 * done as nat),
                decreases 16 - done,
            {
                let octet: u8 = octets[15 - done];
                name.append(digit_str(octet % 16));
                name.append(".");
                name.append(digit_str(octet / 16));
                name.append(".");
                proof {
                    reveal_strlit(".");
                    assert(nibble(octets@, 2 * done as int) == (octet % 16) as nat);
                    assert(nibble(octets@, 2 * done as int + 1) == (octet / 16) as nat);
                    assert(name@ =~= nibble_labels(octets@, 2 * (done + 1) as nat));
                }
                done = done + 1;
            }
            name.append("ip6.arpa.");
        },
    }
    name
}

} // verus!
