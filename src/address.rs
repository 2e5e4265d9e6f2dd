//! Captured socket identities, their decoding by address family, and the text
//! of IPv4 and IPv6 addresses.
use vstd::prelude::*;
use crate::text::{decimal, hex, push_digits, push_str, string_of};

verus! {

/// Address-family tag of IPv4 sockets.
pub const AF_INET: u16 = 2;

/// Address-family tag of IPv6 sockets.
pub const AF_INET6: u16 = 10;

/// The projection of a kernel socket's common header copied out at hook time.
/// The IPv4 pair is meaningful when `family` is `AF_INET`, the IPv6 pair when it
/// is `AF_INET6`; both are always present, as in the kernel's union.
#[derive(Clone, Copy, Debug)]
pub struct SocketIdentity {
    pub family: u16,
    /// Receive (local) IPv4 address, in network byte order.
    pub v4_source: [u8; 4],
    /// Peer IPv4 address, in network byte order.
    pub v4_dest: [u8; 4],
    /// Receive (local) IPv6 address octets.
    pub v6_source: [u8; 16],
    /// Peer IPv6 address octets.
    pub v6_dest: [u8; 16],
}

/// What a family tag selects.
#[derive(Clone, Copy, Debug, PartialEq, Eq, Structural)]
pub enum AddressFamily {
    Inet,
    Inet6,
    Other(u16),
}

/// A decoded address pair, or the tag that could not be decoded.
#[derive(Clone, Copy, Debug)]
#[allow(inconsistent_fields)]
pub enum Addresses {
    /// Host-order IPv4 addresses.
    V4 { source: u32, dest: u32 },
    V6 { source: [u8; 16], dest: [u8; 16] },
    Unsupported { family: u16 },
}

pub open spec fn family_spec(tag: u16) -> AddressFamily {
    if tag == AF_INET {
        AddressFamily::Inet
    } else if tag == AF_INET6 {
        AddressFamily::Inet6
    } else {
        AddressFamily::Other(tag)
    }
}

pub fn family_of(tag: u16) -> (r: AddressFamily)
    ensures
        r == family_spec(tag),
{
    if tag == AF_INET {
        AddressFamily::Inet
    } else if tag == AF_INET6 {
        AddressFamily::Inet6
    } else {
        AddressFamily::Other(tag)
    }
}

/// The value of four octets read most significant first.
pub open spec fn be32(b: Seq<u8>) -> nat {
    b[0] as nat * 16777216 + b[1] as nat * 65536 + b[2] as nat * 256 + b[3] as nat
}

/// Host-order value of a big-endian 32-bit quantity.
pub fn u32_from_be(b: &[u8; 4]) -> (r: u32)
    ensures
        r as nat == be32(b@),
{
    (b[0] as u32) * 16777216 + (b[1] as u32) * 65536 + (b[2] as u32) * 256 + (b[3] as u32)
}

/// Decoding of an identity: the address pair that its family selects.
pub open spec fn decode_spec(id: SocketIdentity) -> Addresses {
    if id.family == AF_INET {
        Addresses::V4 {
            source: be32(id.v4_source@) as u32,
            dest: be32(id.v4_dest@) as u32,
        }
    } else if id.family == AF_INET6 {
        Addresses::V6 { source: id.v6_source, dest: id.v6_dest }
    } else {
        Addresses::Unsupported { family: id.family }
    }
}

pub fn decode(id: &SocketIdentity) -> (r: Addresses)
    ensures
        r == decode_spec(*id),
{
    match family_of(id.family) {
        AddressFamily::Inet => Addresses::V4 {
            source: u32_from_be(&id.v4_source),
            dest: u32_from_be(&id.v4_dest),
        },
        AddressFamily::Inet6 => Addresses::V6 { source: id.v6_source, dest: id.v6_dest },
        AddressFamily::Other(tag) => Addresses::Unsupported { family: tag },
    }
}

/// Dotted-quad text of a host-order IPv4 address.
pub open spec fn ipv4_text(a: u32) -> Seq<char> {
    decimal(a as nat / 16777216) + seq!['.'] + decimal((a as nat / 65536) % 256) + seq!['.']
        + decimal((a as nat / 256) % 256) + seq!['.'] + decimal(a as nat % 256)
}

pub fn push_ipv4(out: &mut Vec<char>, a: u32)
    ensures
        final(out)@ == old(out)@ + ipv4_text(a),
{
    push_digits(out, a / 16777216, 10);
    out.push('.');
    push_digits(out, (a / 65536) % 256, 10);
    out.push('.');
    push_digits(out, (a / 256) % 256, 10);
    out.push('.');
    push_digits(out, a % 256, 10);
    assert(final(out)@ =~= old(out)@ + ipv4_text(a));
}

/// Dotted-quad text of a host-order IPv4 address, as a string.
pub fn ipv4_string(a: u32) -> (r: String)
    ensures
        r@ == ipv4_text(a),
{
    let mut out: Vec<char> = Vec::new();
    push_ipv4(&mut out, a);
    assert(out@ =~= ipv4_text(a));
    string_of(&out)
}

/// The `i`-th 16-bit group of an IPv6 address.
pub open spec fn hextet(b: Seq<u8>, i: int) -> u16 {
    (b[2 * i] as nat * 256 + b[2 * i + 1] as nat) as u16
}

/// The eight 16-bit groups of an IPv6 address.
pub open spec fn hextets(b: Seq<u8>) -> Seq<u16> {
    Seq::new(8, |i: int| hextet(b, i))
}

/// Number of consecutive zero groups starting at `i`.
pub open spec fn zero_run(h: Seq<u16>, i: int) -> nat
    decreases h.len() - i,
{
    if i < 0 || i >= h.len() || h[i] != 0 {
        0
    } else {
        1 + zero_run(h, i + 1)
    }
}

/// Scanning from `i` with best run so far `(s, l)`: the first of the longest
/// runs of zero groups, as `(start, length)`.
pub open spec fn longest_from(h: Seq<u16>, i: int, s: int, l: nat) -> (int, nat)
    decreases h.len() - i,
{
    if i < 0 || i >= h.len() {
        (s, l)
    } else if zero_run(h, i) > l {
        longest_from(h, i + 1, i, zero_run(h, i))
    } else {
        longest_from(h, i + 1, s, l)
    }
}

/// The first of the longest runs of zero groups, as `(start, length)`;
/// length 0 when no group is zero.
pub open spec fn longest_zero_run(h: Seq<u16>) -> (int, nat) {
    longest_from(h, 0, 0, 0)
}

proof fn lemma_zero_run_bound(h: Seq<u16>, i: int)
    requires
        0 <= i <= h.len(),
    ensures
        i + zero_run(h, i) <= h.len(),
    decreases h.len() - i,
{
    if i < h.len() && h[i] == 0 {
        lemma_zero_run_bound(h, i + 1);
    }
}

proof fn lemma_longest_from(h: Seq<u16>, i: int, s: int, l: nat)
    requires
        0 <= i <= h.len(),
        0 <= s,
        s + l <= h.len(),
        l == 0 ==> s == 0,
        l > 0 ==> s < i && zero_run(h, s) == l,
        forall|j: int| 0 <= j < i ==> #[trigger] zero_run(h, j) <= l,
        forall|j: int| 0 <= j < s ==> #[trigger] zero_run(h, j) < l,
    ensures
        ({
            let (s2, l2) = longest_from(h, i, s, l);
            &&& 0 <= s2
            &&& s2 + l2 <= h.len()
            &&& l2 == 0 ==> s2 == 0
            &&& l2 > 0 ==> zero_run(h, s2) == l2
            &&& forall|j: int| 0 <= j < h.len() ==> #[trigger] zero_run(h, j) <= l2
            &&& forall|j: int| 0 <= j < s2 ==> #[trigger] zero_run(h, j) < l2
        }),
    decreases h.len() - i,
{
    if i < h.len() {
        lemma_zero_run_bound(h, i);
        if zero_run(h, i) > l {
            lemma_longest_from(h, i + 1, i, zero_run(h, i));
        } else {
            lemma_longest_from(h, i + 1, s, l);
        }
    }
}

/// The run that `longest_zero_run` picks is a longest run of zero groups and
/// the first of them: no run is longer, and every run that starts earlier is
/// shorter. A length of 0 means that no group is zero.
pub proof fn lemma_longest_zero_run_first_longest(h: Seq<u16>)
    ensures
        ({
            let (s, l) = longest_zero_run(h);
            &&& 0 <= s
            &&& s + l <= h.len()
            &&& l == 0 ==> s == 0
            &&& l > 0 ==> zero_run(h, s) == l
            &&& forall|j: int| 0 <= j < h.len() ==> #[trigger] zero_run(h, j) <= l
            &&& forall|j: int| 0 <= j < s ==> #[trigger] zero_run(h, j) < l
        }),
{
    lemma_longest_from(h, 0, 0, 0);
}

/// Groups in hexadecimal, separated by colons.
pub open spec fn colon_join(h: Seq<u16>) -> Seq<char>
    decreases h.len(),
{
    if h.len() == 0 {
        seq![]
    } else if h.len() == 1 {
        hex(h[0] as nat)
    } else {
        colon_join(h.drop_last()) + seq![':'] + hex(h.last() as nat)
    }
}

/// Text of an IPv6 address: lower-case hexadecimal groups without leading
/// zeros, the first longest run of two or more zero groups written as `::`.
pub open spec fn ipv6_text(b: Seq<u8>) -> Seq<char> {
    let h = hextets(b);
    let (s, l) = longest_zero_run(h);
    if l >= 2 {
        colon_join(h.subrange(0, s)) + seq![':', ':'] + colon_join(h.subrange(s + l, 8))
    } else {
        colon_join(h)
    }
}

fn groups_of(a: &[u8; 16]) -> (h: Vec<u16>)
    ensures
        h@ == hextets(a@),
{
    let mut h: Vec<u16> = Vec::new();
    let mut i: usize = 0;
    while i < 8
        invariant
            i <= 8,
            h@.len() == i,
            forall|j: int| 0 <= j < i ==> h@[j] == hextet(a@, j),
        decreases 8 - i,
    {
        let g: u16 = (a[2 * i] as u16) * 256 + (a[2 * i + 1] as u16);
        h.push(g);
        i = i + 1;
    }
    assert(h@ =~= hextets(a@));
    h
}

fn zero_run_at(h: &Vec<u16>, i: usize) -> (r: usize)
    requires
        h@.len() == 8,
        i <= 8,
    ensures
        r == zero_run(h@, i as int),
        i + r <= 8,
{
    let mut j: usize = i;
    while j < 8 && h[j] == 0
        invariant
            i <= j <= 8,
            h@.len() == 8,
            zero_run(h@, i as int) == (j - i) + zero_run(h@, j as int),
        decreases 8 - j,
    {
        j = j + 1;
    }
    j - i
}

fn longest_run(h: &Vec<u16>) -> (r: (usize, usize))
    requires
        h@.len() == 8,
    ensures
        (r.0 as int, r.1 as nat) == longest_zero_run(h@),
        r.0 + r.1 <= 8,
{
    let mut s: usize = 0;
    let mut l: usize = 0;
    let mut i: usize = 0;
    while i < 8
        invariant
            i <= 8,
            h@.len() == 8,
            s + l <= 8,
            longest_zero_run(h@) == longest_from(h@, i as int, s as int, l as nat),
        decreases 8 - i,
    {
        let run = zero_run_at(h, i);
        if run > l {
            s = i;
            l = run;
        }
        i = i + 1;
    }
    (s, l)
}

fn push_groups(out: &mut Vec<char>, h: &Vec<u16>, lo: usize, hi: usize)
    requires
        lo <= hi <= h@.len(),
    ensures
        final(out)@ == old(out)@ + colon_join(h@.subrange(lo as int, hi as int)),
{
    let mut i: usize = lo;
    while i < hi
        invariant
            lo <= i <= hi <= h@.len(),
            out@ == old(out)@ + colon_join(h@.subrange(lo as int, i as int)),
        decreases hi - i,
    {
        if i > lo {
            out.push(':');
        }
        push_digits(out, h[i] as u32, 16);
        proof {
            let next = h@.subrange(lo as int, i + 1);
            assert(next.drop_last() =~= h@.subrange(lo as int, i as int));
        }
        i = i + 1;
        assert(out@ =~= old(out)@ + colon_join(h@.subrange(lo as int, i as int)));
    }
}

pub fn push_ipv6(out: &mut Vec<char>, a: &[u8; 16])
    ensures
        final(out)@ == old(out)@ + ipv6_text(a@),
{
    let h = groups_of(a);
    let (s, l) = longest_run(&h);
    if l >= 2 {
        push_groups(out, &h, 0, s);
        push_str(out, "::");
        push_groups(out, &h, s + l, 8);
        proof {
            reveal_strlit("::");
        }
        assert(final(out)@ =~= old(out)@ + ipv6_text(a@));
    } else {
        push_groups(out, &h, 0, 8);
        assert(h@.subrange(0, 8) =~= h@);
    }
}

/// Text of an IPv6 address, as a string.
pub fn ipv6_string(a: &[u8; 16]) -> (r: String)
    ensures
        r@ == ipv6_text(a@),
{
    let mut out: Vec<char> = Vec::new();
    push_ipv6(&mut out, a);
    assert(out@ =~= ipv6_text(a@));
    string_of(&out)
}

} // verus!
