//! A single IPv4 host address: one 32-bit value, read as four octets in
//! network (big-endian) order.
use vstd::prelude::*;
use crate::decimal::{decimal, push_decimal};

verus! {

/// The value of four octets read most significant first.
pub open spec fn octets_to_value(o: Seq<u8>) -> int {
    o[0] * 16777216 + o[1] * 65536 + o[2] * 256 + o[3]
}

/// The four octets of `v`, most significant first.
pub open spec fn value_to_octets(v: u32) -> Seq<u8> {
    seq![
        (v / 16777216) as u8,
        (v / 65536 % 256) as u8,
        (v / 256 % 256) as u8,
        (v % 256) as u8,
    ]
}

/// The dotted-quad text of four octets: `"a.b.c.d"` in decimal.
pub open spec fn dotted_quad(o: Seq<u8>) -> Seq<char> {
    decimal(o[0] as nat) + seq!['.'] + decimal(o[1] as nat) + seq!['.'] + decimal(o[2] as nat)
        + seq!['.'] + decimal(o[3] as nat)
}

/// An IPv4 address. Addresses compare by their 32-bit value.
#[derive(Debug, Copy, Clone, PartialEq, Eq, Structural, PartialOrd, Ord, Hash)]
pub struct IpAddress(u32);

impl View for IpAddress {
    type V = u32;

    closed spec fn view(&self) -> u32 {
        self.0
    }
}

impl From<u32> for IpAddress {
    fn from(value: u32) -> Self {
        Self(value)
    }
}

impl vstd::std_specs::convert::FromSpecImpl<u32> for IpAddress {
    open spec fn obeys_from_spec() -> bool {
        true
    }

    closed spec fn from_spec(value: u32) -> Self {
        Self(value)
    }
}

impl From<[u8; 4]> for IpAddress {
    fn from(octets: [u8; 4]) -> Self {
        Self::from_octets(octets)
    }
}

impl vstd::std_specs::convert::FromSpecImpl<[u8; 4]> for IpAddress {
    open spec fn obeys_from_spec() -> bool {
        true
    }

    closed spec fn from_spec(octets: [u8; 4]) -> Self {
        Self(octets_to_value(octets@) as u32)
    }
}

impl IpAddress {
    /// Creates an address with the given 32-bit value.
    pub fn new(value: u32) -> (r: Self)
        ensures
            r@ == value,
    {
        Self(value)
    }

    /// Creates the address whose octets, most significant first, are `octets`.
    pub fn from_octets(octets: [u8; 4]) -> (r: Self)
        ensures
            r@ == octets_to_value(octets@),
    {
        let a = octets[0];
        let b = octets[1];
        let c = octets[2];
        let d = octets[3];
        let v: u32 = (a as u32) << 24u32 | (b as u32) << 16u32 | (c as u32) << 8u32 | d as u32;
        assert(v == a * 16777216 + b * 65536 + c * 256 + d) by (bit_vector)
            requires
                v == (a as u32) << 24u32 | (b as u32) << 16u32 | (c as u32) << 8u32 | d as u32,
        ;
        Self(v)
    }

    /// The 32-bit value of this address.
    pub fn value(&self) -> (r: u32)
        ensures
            r == self@,
    {
        self.0
    }

    /// The four octets of this address, most significant first.
    pub fn octets(&self) -> (r: [u8; 4])
        ensures
            r@ == value_to_octets(self@),
    {
        let v = self.0;
        let r = [(v >> 24u32) as u8, (v >> 16u32) as u8, (v >> 8u32) as u8, v as u8];
        assert((v >> 24u32) as u8 == (v / 16777216) as u8 && (v >> 16u32) as u8 == (v / 65536
            % 256) as u8 && (v >> 8u32) as u8 == (v / 256 % 256) as u8 && v as u8 == (v
            % 256) as u8) by (bit_vector);
        assert(r@ =~= value_to_octets(v));
        r
    }

    /// The dotted-quad text of this address, such as `"40.200.3.145"`.
    pub fn to_string(&self) -> (r: String)
        ensures
            r@ == dotted_quad(value_to_octets(self@)),
    {
        let o = self.octets();
        let mut s = String::new();
        push_decimal(&mut s, o[0]);
        s.append(dot());
        push_decimal(&mut s, o[1]);
        s.append(dot());
        push_decimal(&mut s, o[2]);
        s.append(dot());
        push_decimal(&mut s, o[3]);
        assert(s@ =~= dotted_quad(o@));
        s
    }
}

fn dot() -> (r: &'static str)
    ensures
        r@ == seq!['.'],
{
    proof { reveal_strlit("."); }
    "."
}

/// An address built from a value has that value, one built from octets has
/// their big-endian value, and addresses with equal values are equal.
pub proof fn lemma_from_values(v: u32, o: [u8; 4])
    ensures
        <IpAddress as vstd::std_specs::convert::FromSpec<u32>>::from_spec(v)@ == v,
        <IpAddress as vstd::std_specs::convert::FromSpec<[u8; 4]>>::from_spec(o)@ == octets_to_value(o@),
        forall|a: IpAddress, b: IpAddress| a@ == b@ ==> a == b,
{
    lemma_octets_value_round_trip(o@);
}

/// Reading the octets of an address and building an address from them gives
/// back the same value.
pub proof fn lemma_value_octets_round_trip(v: u32)
    ensures
        octets_to_value(value_to_octets(v)) == v,
{
    assert(((v / 16777216) as u8) * 16777216 + ((v / 65536 % 256) as u8) * 65536 + ((v / 256
        % 256) as u8) * 256 + (v % 256) as u8 == v) by (bit_vector);
}

/// Building an address from four octets and reading its octets gives back the
/// same four octets.
pub proof fn lemma_octets_value_round_trip(o: Seq<u8>)
    requires
        o.len() == 4,
    ensures
        octets_to_value(o) <= u32::MAX,
        value_to_octets(octets_to_value(o) as u32) =~= o,
{
    let a = o[0];
    let b = o[1];
    let c = o[2];
    let d = o[3];
    let v = octets_to_value(o);
    assert(a * 16777216 + b * 65536 + c * 256 + d <= 0xffff_ffff) by (bit_vector);
    let w = v as u32;
    assert(w == a * 16777216 + b * 65536 + c * 256 + d);
    assert((w / 16777216) as u8 == a && (w / 65536 % 256) as u8 == b && (w / 256 % 256) as u8
        == c && (w % 256) as u8 == d) by (bit_vector)
        requires
            w == a * 16777216 + b * 65536 + c * 256 + d,
    ;
}

} // verus!
