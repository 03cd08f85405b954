//! Origin addresses and their textual forms.
use vstd::prelude::*;
use crate::text::{decimal_text, hex_text, push_decimal, push_hex, push_str, string_from_chars};

verus! {

/// An IPv4 address by its four octets.
#[derive(Debug, Clone, Copy, PartialEq, Eq)]
pub struct Ipv4Address {
    pub octets: [u8; 4],
}

/// An IPv6 address by its eight 16-bit segments.
#[derive(Debug, Clone, Copy, PartialEq, Eq)]
pub struct Ipv6Address {
    pub segments: [u16; 8],
}

impl Ipv4Address {
    pub fn new(a: u8, b: u8, c: u8, d: u8) -> (r: Ipv4Address)
        ensures
            r.octets@ == seq![a, b, c, d],
    {
        let r = Ipv4Address { octets: [a, b, c, d] };
        assert(r.octets@ =~= seq![a, b, c, d]);
        r
    }
}

impl Ipv6Address {
    pub fn new(a: u16, b: u16, c: u16, d: u16, e: u16, f: u16, g: u16, h: u16) -> (r: Ipv6Address)
        ensures
            r.segments@ == seq![a, b, c, d, e, f, g, h],
    {
        let r = Ipv6Address { segments: [a, b, c, d, e, f, g, h] };
        assert(r.segments@ =~= seq![a, b, c, d, e, f, g, h]);
        r
    }
}

/// Dotted-decimal form of an IPv4 address.
pub open spec fn ipv4_text(o: Seq<u8>) -> Seq<char> {
    decimal_text(o[0] as nat) + "."@ + decimal_text(o[1] as nat) + "."@ + decimal_text(o[2] as nat)
        + "."@ + decimal_text(o[3] as nat)
}

/// The address is an IPv4-mapped IPv6 address (`::ffff:a.b.c.d`).
pub open spec fn is_ipv4_mapped(s: Seq<u16>) -> bool {
    s[0] == 0 && s[1] == 0 && s[2] == 0 && s[3] == 0 && s[4] == 0 && s[5] == 0xffff
}

/// Number of zero segments in a row from position `i`.
pub open spec fn zero_run_at(s: Seq<u16>, i: int) -> nat
    decreases s.len() - i,
{
    if 0 <= i < s.len() && s[i] == 0 {
        1 + zero_run_at(s, i + 1)
    } else {
        0
    }
}

/// Start and length of the first longest run of zero segments at or after
/// position `i` (length 0 when there is none).
pub open spec fn longest_zero_run_from(s: Seq<u16>, i: int) -> (int, nat)
    decreases s.len() - i,
{
    if i < 0 || i >= s.len() {
        (0, 0)
    } else {
        let rest = longest_zero_run_from(s, i + 1);
        let here = zero_run_at(s, i);
        if here > 0 && here >= rest.1 {
            (i, here)
        } else {
            rest
        }
    }
}

/// Segments in lowercase hexadecimal, separated by colons.
pub open spec fn hex_segments(s: Seq<u16>) -> Seq<char>
    decreases s.len(),
{
    if s.len() == 0 {
        seq![]
    } else if s.len() == 1 {
        hex_text(s[0] as nat)
    } else {
        hex_segments(s.drop_last()) + ":"@ + hex_text(s.last() as nat)
    }
}

/// The text of an IPv6 address as `Display` for `std::net::Ipv6Addr`
/// writes it (RFC 5952): mapped IPv4 addresses as `::ffff:a.b.c.d`; otherwise
/// the first longest run of two or more zero segments is written as `::`.
pub open spec fn ipv6_text(s: Seq<u16>) -> Seq<char> {
    if is_ipv4_mapped(s) {
        "::ffff:"@ + ipv4_text(
            seq![(s[6] / 256) as u8, (s[6] % 256) as u8, (s[7] / 256) as u8, (s[7] % 256) as u8],
        )
    } else {
        let (start, len) = longest_zero_run_from(s, 0);
        if len > 1 {
            hex_segments(s.take(start)) + "::"@ + hex_segments(s.skip(start + len))
        } else {
            hex_segments(s)
        }
    }
}

fn push_ipv4(out: &mut Vec<char>, o: [u8; 4])
    ensures
        final(out)@ == old(out)@ + ipv4_text(o@),
{
    push_decimal(out, o[0] as u64);
    push_str(out, ".");
    push_decimal(out, o[1] as u64);
    push_str(out, ".");
    push_decimal(out, o[2] as u64);
    push_str(out, ".");
    push_decimal(out, o[3] as u64);
    assert(final(out)@ =~= old(out)@ + ipv4_text(o@));
}

fn push_hex_segments(out: &mut Vec<char>, s: &[u16; 8], from: usize, to: usize)
    requires
        from <= to <= 8,
    ensures
        final(out)@ == old(out)@ + hex_segments(s@.subrange(from as int, to as int)),
{
    let mut i = from;
    while i < to
        invariant
            from <= i <= to <= 8,
            s@.len() == 8,
            out@ == old(out)@ + hex_segments(s@.subrange(from as int, i as int)),
        decreases to - i,
    {
        let ghost before = out@;
        if i > from {
            push_str(out, ":");
        }
        push_hex(out, s[i] as u64);
        i = i + 1;
        let ghost part = s@.subrange(from as int, i as int);
        assert(part.drop_last() =~= s@.subrange(from as int, i - 1));
        if i - 1 > from {
            assert(out@ =~= old(out)@ + hex_segments(part));
        } else {
            assert(out@ =~= old(out)@ + hex_segments(part));
        }
    }
}

/// The first longest run of zero segments.
fn longest_zero_run(s: &[u16; 8]) -> (r: (usize, usize))
    ensures
        r.0 as int == longest_zero_run_from(s@, 0).0,
        r.1 as nat == longest_zero_run_from(s@, 0).1,
        r.0 + r.1 <= 8,
{
    let mut best_start: usize = 0;
    let mut best_len: usize = 0;
    let mut i: usize = 8;
    while i > 0
        invariant
            i <= 8,
            s@.len() == 8,
            (best_start as int, best_len as nat) == longest_zero_run_from(s@, i as int),
            best_start + best_len <= 8,
        decreases i,
    {
        i = i - 1;
        let mut l: usize = 0;
        while i + l < 8 && s[i + l] == 0
            invariant
                i < 8,
                i + l <= 8,
                s@.len() == 8,
                zero_run_at(s@, i as int) == l + zero_run_at(s@, (i + l) as int),
            decreases 8 - l,
        {
            l = l + 1;
        }
        assert(zero_run_at(s@, (i + l) as int) == 0);
        if l > 0 && l >= best_len {
            best_start = i;
            best_len = l;
        }
    }
    (best_start, best_len)
}

impl Ipv4Address {
    /// Dotted-decimal text.
    pub fn to_text(&self) -> (r: String)
        ensures
            r@ == ipv4_text(self.octets@),
    {
        let mut out: Vec<char> = Vec::new();
        push_ipv4(&mut out, self.octets);
        assert(out@ =~= ipv4_text(self.octets@));
        string_from_chars(&out)
    }
}

impl Ipv6Address {
    /// Canonical text (RFC 5952), as `std::net::Ipv6Addr` displays it.
    pub fn to_text(&self) -> (r: String)
        ensures
            r@ == ipv6_text(self.segments@),
    {
        let s = &self.segments;
        let mut out: Vec<char> = Vec::new();
        if s[0] == 0 && s[1] == 0 && s[2] == 0 && s[3] == 0 && s[4] == 0 && s[5] == 0xffff {
            push_str(&mut out, "::ffff:");
            let o = [(s[6] / 256) as u8, (s[6] % 256) as u8, (s[7] / 256) as u8, (s[7] % 256) as u8];
            push_ipv4(&mut out, o);
            assert(o@ =~= seq![(s@[6] / 256) as u8, (s@[6] % 256) as u8, (s@[7] / 256) as u8, (s@[7] % 256) as u8]);
        } else {
            let (start, len) = longest_zero_run(s);
            if len > 1 {
                push_hex_segments(&mut out, s, 0, start);
                push_str(&mut out, "::");
                push_hex_segments(&mut out, s, start + len, 8);
                assert(s@.subrange(0, start as int) =~= s@.take(start as int));
                assert(s@.subrange((start + len) as int, 8) =~= s@.skip((start + len) as int));
            } else {
                push_hex_segments(&mut out, s, 0, 8);
                assert(s@.subrange(0, 8) =~= s@);
            }
        }
        assert(out@ =~= ipv6_text(self.segments@));
        string_from_chars(&out)
    }
}

} // verus!
