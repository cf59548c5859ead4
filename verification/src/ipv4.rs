use vstd::prelude::*;

verus! {

/// An IPv4 address as four octets, most significant octet first.
#[derive(PartialEq, Eq, Structural, Clone, Copy, Debug)]
pub struct Ipv4Address {
    pub octet1: u8,
    pub octet2: u8,
    pub octet3: u8,
    pub octet4: u8,
}

/// Bit `k` of octet `o` (counting from the least significant bit),
/// rendered as the character '0' or '1'.
pub open spec fn bit_char(o: u8, k: u8) -> char {
    if (o >> k) & 1 == 1 {
        '1'
    } else {
        '0'
    }
}

/// The eight binary digits of one octet, most significant bit first.
pub open spec fn octet_bits(o: u8) -> Seq<char> {
    Seq::new(8, |i: int| bit_char(o, (7 - i) as u8))
}

/// The 32 binary digits of an address: each octet zero-padded to eight
/// bits, concatenated in address order.
pub open spec fn addr_bits(a: Ipv4Address) -> Seq<char> {
    octet_bits(a.octet1) + octet_bits(a.octet2) + octet_bits(a.octet3) + octet_bits(a.octet4)
}

/// The binary form of an address is always exactly 32 characters long and
/// contains nothing but the characters '0' and '1'.
pub proof fn lemma_addr_bits_shape(a: Ipv4Address)
    ensures
        addr_bits(a).len() == 32,
        forall|i: int|
            0 <= i < 32 ==> addr_bits(a)[i] == '0' || addr_bits(a)[i] == '1',
{
    assert forall|i: int| 0 <= i < 32 implies addr_bits(a)[i] == '0' || addr_bits(a)[i] == '1' by {
        if i < 8 {
            assert(addr_bits(a)[i] == octet_bits(a.octet1)[i]);
        } else if i < 16 {
            assert(addr_bits(a)[i] == octet_bits(a.octet2)[i - 8]);
        } else if i < 24 {
            assert(addr_bits(a)[i] == octet_bits(a.octet3)[i - 16]);
        } else {
            assert(addr_bits(a)[i] == octet_bits(a.octet4)[i - 24]);
        }
    }
}

/// The decimal digit `d` (at most 9) as a character.
pub open spec fn digit_char(d: u8) -> char {
    if d == 0 {
        '0'
    } else if d == 1 {
        '1'
    } else if d == 2 {
        '2'
    } else if d == 3 {
        '3'
    } else if d == 4 {
        '4'
    } else if d == 5 {
        '5'
    } else if d == 6 {
        '6'
    } else if d == 7 {
        '7'
    } else if d == 8 {
        '8'
    } else {
        '9'
    }
}

/// The decimal form of one octet, without leading zeros.
pub open spec fn dec_str(n: u8) -> Seq<char> {
    if n < 10 {
        seq![digit_char(n)]
    } else if n < 100 {
        seq![digit_char((n / 10) as u8), digit_char((n % 10) as u8)]
    } else {
        seq![
            digit_char((n / 100) as u8),
            digit_char(((n / 10) % 10) as u8),
            digit_char((n % 10) as u8),
        ]
    }
}

/// The dotted decimal form of an address.
pub open spec fn dotted(a: Ipv4Address) -> Seq<char> {
    dec_str(a.octet1) + seq!['.'] + dec_str(a.octet2) + seq!['.'] + dec_str(a.octet3) + seq!['.']
        + dec_str(a.octet4)
}

/// The decimal digit `d` as a one-character string slice.
fn digit_str(d: u8) -> (r: &'static str)
    requires
        d <= 9,
    ensures
        r@ == seq![digit_char(d)],
{
    if d == 0 {
        proof {
            reveal_strlit("0");
            assert("0"@ =~= seq![digit_char(0u8)]);
        }
        "0"
    } else if d == 1 {
        proof {
            reveal_strlit("1");
            assert("1"@ =~= seq![digit_char(1u8)]);
        }
        "1"
    } else if d == 2 {
        proof {
            reveal_strlit("2");
            assert("2"@ =~= seq![digit_char(2u8)]);
        }
        "2"
    } else if d == 3 {
        proof {
            reveal_strlit("3");
            assert("3"@ =~= seq![digit_char(3u8)]);
        }
        "3"
    } else if d == 4 {
        proof {
            reveal_strlit("4");
            assert("4"@ =~= seq![digit_char(4u8)]);
        }
        "4"
    } else if d == 5 {
        proof {
            reveal_strlit("5");
            assert("5"@ =~= seq![digit_char(5u8)]);
        }
        "5"
    } else if d == 6 {
        proof {
            reveal_strlit("6");
            assert("6"@ =~= seq![digit_char(6u8)]);
        }
        "6"
    } else if d == 7 {
        proof {
            reveal_strlit("7");
            assert("7"@ =~= seq![digit_char(7u8)]);
        }
        "7"
    } else if d == 8 {
        proof {
            reveal_strlit("8");
            assert("8"@ =~= seq![digit_char(8u8)]);
        }
        "8"
    } else {
        proof {
            reveal_strlit("9");
            assert("9"@ =~= seq![digit_char(9u8)]);
        }
        "9"
    }
}

/// Appends the decimal form of `o` to `s`.
fn push_octet_decimal(s: &mut String, o: u8)
    ensures
        final(s)@ == old(s)@ + dec_str(o),
{
    if o < 10 {
        s.append(digit_str(o));
        proof {
            assert(s@ =~= old(s)@ + dec_str(o));
        }
    } else if o < 100 {
        s.append(digit_str(o / 10));
        s.append(digit_str(o % 10));
        proof {
            assert(s@ =~= old(s)@ + dec_str(o));
        }
    } else {
        s.append(digit_str(o / 100));
        s.append(digit_str((o / 10) % 10));
        s.append(digit_str(o % 10));
        proof {
            assert(s@ =~= old(s)@ + dec_str(o));
        }
    }
}

impl Ipv4Address {
    /// Builds an address from its four octets.
    pub fn new(octet1: u8, octet2: u8, octet3: u8, octet4: u8) -> (r: Ipv4Address)
        ensures
            r == (Ipv4Address { octet1, octet2, octet3, octet4 }),
    {
        Ipv4Address { octet1, octet2, octet3, octet4 }
    }

    /// Renders the address in dotted decimal notation.
    pub fn to_string(&self) -> (r: String)
        ensures
            r@ == dotted(*self),
    {
        let mut s = String::new();
        push_octet_decimal(&mut s, self.octet1);
        s.append(".");
        push_octet_decimal(&mut s, self.octet2);
        s.append(".");
        push_octet_decimal(&mut s, self.octet3);
        s.append(".");
        push_octet_decimal(&mut s, self.octet4);
        proof {
            reveal_strlit(".");
            assert("."@ =~= seq!['.']);
            assert(s@ =~= dotted(*self));
        }
        s
    }
}

} // verus!
