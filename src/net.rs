//! CIDR networks: a base address and a prefix length between 0 and 32.
use vstd::prelude::*;
use vstd::arithmetic::power2::{lemma2_to64, lemma_pow2_adds, lemma_pow2_pos, pow2};
use vstd::arithmetic::div_mod::lemma_fundamental_div_mod_converse;
use vstd::bits::{lemma_u32_shr_is_div, lemma_u64_pow2_no_overflow, lemma_u64_shl_is_mul};
use crate::addr::{IpAddress, dotted_quad, value_to_octets};
use crate::decimal::{decimal, push_decimal};

verus! {

/// Whether bit `i` (counted from the least significant bit) of `v` is one.
pub open spec fn bit_set(v: u32, i: u32) -> bool {
    (v >> i) & 1u32 == 1u32
}

/// Whether `m` has its top `p` bits set to one and all other bits zero.
pub open spec fn is_prefix_mask(m: u32, p: nat) -> bool {
    forall|i: u32| i < 32 ==> (#[trigger] bit_set(m, i) <==> i + p >= 32)
}

/// `v` with bit `i` set to one.
pub open spec fn with_bit(v: u32, i: u32) -> u32 {
    v | (1u32 << i)
}

/// What a network is: its base address value and its prefix length.
pub struct NetworkView {
    pub base: u32,
    pub prefix_len: nat,
}

/// The network one bit less specific than `n`, on the same base.
pub open spec fn parent(n: NetworkView) -> NetworkView {
    NetworkView { base: n.base, prefix_len: (n.prefix_len - 1) as nat }
}

/// The half of `n` whose next bit is taken from the base as it stands.
pub open spec fn lower_half(n: NetworkView) -> NetworkView {
    NetworkView { base: n.base, prefix_len: n.prefix_len + 1 }
}

/// The half of `n` whose next bit, at position `31 - prefix_len`, is one.
pub open spec fn upper_half(n: NetworkView) -> NetworkView {
    NetworkView { base: with_bit(n.base, (31 - n.prefix_len) as u32), prefix_len: n.prefix_len + 1 }
}

/// The CIDR text of a network: its base in dotted-quad form, `/`, and its
/// prefix length.
pub open spec fn cidr_text(n: NetworkView) -> Seq<char> {
    dotted_quad(value_to_octets(n.base)) + seq!['/'] + decimal(n.prefix_len)
}

/// An IPv4 network. Its base is kept exactly as given: bits past the prefix
/// are not cleared.
#[derive(Debug, Copy, Clone, PartialEq, Eq, Structural)]
pub struct IpNetwork {
    base: IpAddress,
    prefix_len: u8,
}

impl View for IpNetwork {
    type V = NetworkView;

    closed spec fn view(&self) -> NetworkView {
        NetworkView { base: self.base@, prefix_len: self.prefix_len as nat }
    }
}

impl IpNetwork {
    #[verifier::type_invariant]
    spec fn prefix_in_range(self) -> bool {
        self.prefix_len <= 32
    }

    /// Creates the network with the given base and prefix length, or `None`
    /// when the prefix length is over 32.
    pub fn new(base: IpAddress, prefix_len: u8) -> (r: Option<Self>)
        ensures
            r is Some <==> prefix_len <= 32,
            r matches Some(n) ==> n@ == (NetworkView { base: base@, prefix_len: prefix_len as nat }),
    {
        if prefix_len <= 32 {
            Some(Self { base, prefix_len })
        } else {
            None
        }
    }

    /// The number of leading bits that an address shares with the base to
    /// lie in this network.
    pub fn num_network_bits(&self) -> (r: u8)
        ensures
            r == self@.prefix_len,
            r <= 32,
    {
        proof { use_type_invariant(self); }
        self.prefix_len
    }

    /// The number of bits that tell the hosts of this network apart.
    pub fn num_host_bits(&self) -> (r: u8)
        ensures
            r == 32 - self@.prefix_len,
            self@.prefix_len + r == 32,
    {
        32 - self.num_network_bits()
    }

    /// The number of addresses in this network, `2^host_bits`.
    pub fn num_hosts(&self) -> (r: u64)
        ensures
            r == pow2((32 - self@.prefix_len) as nat),
    {
        let h = self.num_host_bits() as u64;
        proof {
            lemma_u64_pow2_no_overflow(h as nat);
            lemma_u64_shl_is_mul(1, h);
        }
        1u64 << h
    }

    /// The network one bit less specific, on the same base; `None` for a
    /// prefix length of 0, which already spans every address.
    pub fn supernet(self) -> (r: Option<Self>)
        ensures
            r is None <==> self@.prefix_len == 0,
            r matches Some(s) ==> s@ == parent(self@),
    {
        match self.num_network_bits() {
            0 => None,
            n => Self::new(self.base, n - 1),
        }
    }

    /// The two halves of this network, one bit more specific: `(upper,
    /// lower)`, where `upper` has the next bit of the base set to one and
    /// `lower` keeps the base as it is. `None` for a prefix length of 32.
    pub fn subnets(self) -> (r: Option<(Self, Self)>)
        ensures
            r is None <==> self@.prefix_len == 32,
            r matches Some((u, l)) ==> u@ == upper_half(self@) && l@ == lower_half(self@),
    {
        if let Some(lower_net) = Self::new(self.base, self.num_network_bits() + 1) {
            let h = lower_net.num_host_bits();
            let upper_base = IpAddress::new(lower_net.base.value() | (1u32 << h as u32));
            let upper_net = Self { base: upper_base, prefix_len: lower_net.prefix_len };
            Some((upper_net, lower_net))
        } else {
            None
        }
    }

    /// The mask of this network: its top `prefix_len` bits are one and the
    /// rest zero.
    pub fn get_mask(&self) -> (r: IpAddress)
        ensures
            is_prefix_mask(r@, self@.prefix_len),
            r@ == pow2(32) - pow2((32 - self@.prefix_len) as nat),
    {
        match self.num_network_bits() {
            32 => {
                assert(forall|i: u32| i < 32 ==> #[trigger] bit_set(u32::MAX, i)) by (bit_vector);
                proof {
                    lemma2_to64();
                }
                IpAddress::new(u32::MAX)
            },
            n => {
                let m = !(u32::MAX >> n as u32);
                let k = n as u32;
                assert(forall|i: u32| i < 32 ==> (#[trigger] bit_set(m, i) <==> i + k >= 32))
                    by (bit_vector)
                    requires
                        k < 32,
                        m == !(u32::MAX >> k),
                ;
                proof {
                    lemma_shifted_ones(k);
                }
                IpAddress::new(m)
            },
        }
    }

    /// The CIDR text of this network, such as `"10.0.0.0/8"`.
    pub fn to_string(&self) -> (r: String)
        ensures
            r@ == cidr_text(self@),
    {
        let mut s = self.base.to_string();
        s.append(slash());
        push_decimal(&mut s, self.num_network_bits());
        s
    }
}

/// Shifting all ones right by `k` leaves `2^(32-k) - 1`, and its complement
/// is `2^32 - 2^(32-k)`.
proof fn lemma_shifted_ones(k: u32)
    requires
        k < 32,
    ensures
        !(u32::MAX >> k) == pow2(32) - pow2((32 - k) as nat),
{
    let q = pow2((32 - k) as nat);
    let d = pow2(k as nat);
    lemma_u32_shr_is_div(u32::MAX, k);
    lemma_pow2_adds(k as nat, (32 - k) as nat);
    lemma_pow2_pos(k as nat);
    lemma_pow2_pos((32 - k) as nat);
    lemma2_to64();
    assert(u32::MAX == d * (q - 1) + (d - 1)) by (nonlinear_arith)
        requires
            d * q == 0x1_0000_0000,
            u32::MAX == 0xffff_ffff,
    ;
    lemma_fundamental_div_mod_converse(u32::MAX as int, d as int, q - 1, d - 1);
    let s = u32::MAX >> k;
    assert(!s == 0xffff_ffff - s) by (bit_vector);
}

fn slash() -> (r: &'static str)
    ensures
        r@ == seq!['/'],
{
    proof { reveal_strlit("/"); }
    "/"
}

/// The two halves of a network on a base whose next bit is zero differ in
/// exactly that bit, at position `31 - prefix_len`, and both are one bit more
/// specific than the network.
pub proof fn lemma_halves_differ_in_one_bit(n: NetworkView)
    requires
        n.prefix_len < 32,
        !bit_set(n.base, (31 - n.prefix_len) as u32),
    ensures
        upper_half(n).prefix_len == n.prefix_len + 1,
        lower_half(n).prefix_len == n.prefix_len + 1,
        forall|i: u32|
            i < 32 ==> (#[trigger] bit_set(upper_half(n).base, i) != bit_set(lower_half(n).base, i)
                <==> i == 31 - n.prefix_len),
{
    let b = n.base;
    let h = (31 - n.prefix_len) as u32;
    assert(forall|i: u32|
        i < 32 ==> (#[trigger] bit_set(b | (1u32 << h), i) != bit_set(b, i) <==> i == h))
        by (bit_vector)
        requires
            h < 32,
            !bit_set(b, h),
    ;
}

} // verus!
