//! The canonical text of an address: dotted decimal for IPv4; for IPv6,
//! lowercase hexadecimal segments with the first longest run of two or more
//! zero segments written as `::`, and IPv4-mapped addresses as `::ffff:a.b.c.d`.
use vstd::prelude::*;
use crate::address::{IpAddress, Ipv4Address, Ipv6Address, ipv6_segments};

verus! {

pub open spec fn digit_char(d: nat) -> char {
    seq!['0', '1', '2', '3', '4', '5', '6', '7', '8', '9', 'a', 'b', 'c', 'd', 'e', 'f'][d as int]
}

/// A number written in `base` without leading zeros.
pub open spec fn numeral(n: nat, base: nat) -> Seq<char>
    decreases n,
    via numeral_decreases
{
    if n < base || base < 2 {
        seq![digit_char(n)]
    } else {
        numeral(n / base, base) + seq![digit_char(n % base)]
    }
}

#[via_fn]
proof fn numeral_decreases(n: nat, base: nat) {
    if !(n < base || base < 2) {
        assert(n / base < n) by (nonlinear_arith)
            requires
                n >= base,
                base >= 2,
        ;
    }
}

pub open spec fn v4_text(a: Ipv4Address) -> Seq<char> {
    numeral(a.0 as nat, 10) + seq!['.'] + numeral(a.1 as nat, 10) + seq!['.'] + numeral(
        a.2 as nat,
        10,
    ) + seq!['.'] + numeral(a.3 as nat, 10)
}

/// Segments in hexadecimal, separated by colons.
pub open spec fn join_hex(s: Seq<u16>) -> Seq<char>
    decreases s.len(),
{
    if s.len() == 0 {
        seq![]
    } else if s.len() == 1 {
        numeral(s[0] as nat, 16)
    } else {
        join_hex(s.drop_last()) + seq![':'] + numeral(s.last() as nat, 16)
    }
}

/// Number of consecutive zero segments from position `i`.
pub open spec fn zero_run(s: Seq<u16>, i: int) -> nat
    decreases s.len() - i,
{
    if 0 <= i < s.len() && s[i] == 0 {
        1 + zero_run(s, i + 1)
    } else {
        0
    }
}

/// Start and length of the first longest run of zeros that starts before `n`.
pub open spec fn longest_run(s: Seq<u16>, n: nat) -> (nat, nat)
    decreases n,
{
    if n == 0 {
        (0, 0)
    } else {
        let (b, l) = longest_run(s, (n - 1) as nat);
        let r = zero_run(s, n - 1);
        if r > l {
            ((n - 1) as nat, r)
        } else {
            (b, l)
        }
    }
}

pub open spec fn is_v4_mapped(a: Ipv6Address) -> bool {
    a.0 == 0 && a.1 == 0 && a.2 == 0 && a.3 == 0 && a.4 == 0 && a.5 == 0xffff
}

pub open spec fn mapped_v4(a: Ipv6Address) -> Ipv4Address {
    Ipv4Address((a.6 / 256) as u8, (a.6 % 256) as u8, (a.7 / 256) as u8, (a.7 % 256) as u8)
}

pub open spec fn v6_text(a: Ipv6Address) -> Seq<char> {
    let s = ipv6_segments(a);
    let (b, l) = longest_run(s, 8);
    if is_v4_mapped(a) {
        "::ffff:"@ + v4_text(mapped_v4(a))
    } else if l > 1 {
        join_hex(s.subrange(0, b as int)) + seq![':', ':'] + join_hex(
            s.subrange((b + l) as int, 8),
        )
    } else {
        join_hex(s)
    }
}

pub open spec fn address_text(a: IpAddress) -> Seq<char> {
    match a {
        IpAddress::V4(x) => v4_text(x),
        IpAddress::V6(x) => v6_text(x),
    }
}

fn push_digit(s: &mut String, d: u16)
    requires
        d < 16,
    ensures
        final(s)@ == old(s)@.push(digit_char(d as nat)),
{
    let t: &str = match d {
        0 => "0",
        1 => "1",
        2 => "2",
        3 => "3",
        4 => "4",
        5 => "5",
        6 => "6",
        7 => "7",
        8 => "8",
        9 => "9",
        10 => "a",
        11 => "b",
        12 => "c",
        13 => "d",
        14 => "e",
        _ => "f",
    };
    proof {
        reveal_strlit("0");
        reveal_strlit("1");
        reveal_strlit("2");
        reveal_strlit("3");
        reveal_strlit("4");
        reveal_strlit("5");
        reveal_strlit("6");
        reveal_strlit("7");
        reveal_strlit("8");
        reveal_strlit("9");
        reveal_strlit("a");
        reveal_strlit("b");
        reveal_strlit("c");
        reveal_strlit("d");
        reveal_strlit("e");
        reveal_strlit("f");
    }
    s.append(t);
    assert(final(s)@ =~= old(s)@.push(digit_char(d as nat)));
}

/// Appends `n` written in `base` (10 or 16) without leading zeros.
fn push_numeral(s: &mut String, n: u16, base: u16)
    requires
        base == 10 || base == 16,
    ensures
        final(s)@ == old(s)@ + numeral(n as nat, base as nat),
    decreases n,
{
    if n < base {
        push_digit(s, n);
        assert(numeral(n as nat, base as nat) == seq![digit_char(n as nat)]);
    } else {
        push_numeral(s, n / base, base);
        push_digit(s, n % base);
        assert(final(s)@ =~= old(s)@ + numeral(n as nat, base as nat));
    }
}

fn push_v4(s: &mut String, a: Ipv4Address)
    ensures
        final(s)@ == old(s)@ + v4_text(a),
{
    proof {
        reveal_strlit(".");
    }
    push_numeral(s, a.0 as u16, 10);
    s.append(".");
    push_numeral(s, a.1 as u16, 10);
    s.append(".");
    push_numeral(s, a.2 as u16, 10);
    s.append(".");
    push_numeral(s, a.3 as u16, 10);
    assert(final(s)@ =~= old(s)@ + v4_text(a));
}

/// Appends the segments `seg[lo..hi]`, separated by colons.
fn push_segments(s: &mut String, seg: &Vec<u16>, lo: usize, hi: usize)
    requires
        lo <= hi <= seg@.len(),
    ensures
        final(s)@ == old(s)@ + join_hex(seg@.subrange(lo as int, hi as int)),
{
    let mut i: usize = lo;
    while i < hi
        invariant
            lo <= i <= hi <= seg@.len(),
            s@ == old(s)@ + join_hex(seg@.subrange(lo as int, i as int)),
        decreases hi - i,
    {
        let ghost before = s@;
        if i > lo {
            proof {
                reveal_strlit(":");
            }
            s.append(":");
            assert(s@ =~= before + seq![':']);
        }
        let ghost mid = s@;
        push_numeral(s, seg[i], 16);
        proof {
            let p = seg@.subrange(lo as int, i + 1);
            assert(p.drop_last() =~= seg@.subrange(lo as int, i as int));
            assert(p.last() == seg@[i as int]);
            if i == lo {
                assert(join_hex(seg@.subrange(lo as int, i as int)) =~= seq![]);
                assert(p.len() == 1);
                assert(s@ =~= old(s)@ + join_hex(p));
            } else {
                assert(mid =~= before + seq![':']);
                assert(s@ =~= old(s)@ + join_hex(p));
            }
        }
        i = i + 1;
    }
}

/// The first longest run of zero segments, as start and length.
fn find_longest_run(seg: &Vec<u16>) -> (r: (usize, usize))
    requires
        seg@.len() == 8,
    ensures
        r.0 as nat == longest_run(seg@, 8).0,
        r.1 as nat == longest_run(seg@, 8).1,
        r.1 > 1 ==> r.0 + r.1 <= 8,
{
    let mut best: usize = 0;
    let mut best_len: usize = 0;
    let mut i: usize = 0;
    while i < 8
        invariant
            seg@.len() == 8,
            0 <= i <= 8,
            best as nat == longest_run(seg@, i as nat).0,
            best_len as nat == longest_run(seg@, i as nat).1,
            best_len > 0 ==> best + best_len <= 8,
        decreases 8 - i,
    {
        let mut run: usize = 0;
        while i + run < 8 && seg[i + run] == 0
            invariant
                seg@.len() == 8,
                0 <= i < 8,
                i + run <= 8,
                zero_run(seg@, i as int) == run + zero_run(seg@, (i + run) as int),
            decreases 8 - i - run,
        {
            run = run + 1;
        }
        assert(zero_run(seg@, (i + run) as int) == 0);
        if run > best_len {
            best = i;
            best_len = run;
        }
        i = i + 1;
    }
    (best, best_len)
}

fn push_v6(s: &mut String, a: Ipv6Address)
    ensures
        final(s)@ == old(s)@ + v6_text(a),
{
    proof {
        reveal_strlit("::ffff:");
        reveal_strlit("::");
    }
    if a.0 == 0 && a.1 == 0 && a.2 == 0 && a.3 == 0 && a.4 == 0 && a.5 == 0xffff {
        s.append("::ffff:");
        let v4 = Ipv4Address((a.6 / 256) as u8, (a.6 % 256) as u8, (a.7 / 256) as u8, (a.7 % 256) as u8);
        push_v4(s, v4);
        assert(final(s)@ =~= old(s)@ + v6_text(a));
    } else {
        let seg: Vec<u16> = vec![a.0, a.1, a.2, a.3, a.4, a.5, a.6, a.7];
        assert(seg@ =~= ipv6_segments(a));
        let (b, l) = find_longest_run(&seg);
        if l > 1 {
            push_segments(s, &seg, 0, b);
            s.append("::");
            push_segments(s, &seg, b + l, 8);
            assert(final(s)@ =~= old(s)@ + v6_text(a));
        } else {
            push_segments(s, &seg, 0, 8);
            assert(seg@.subrange(0, 8) =~= seg@);
        }
    }
}

/// The text of an address.
pub fn address_string(a: IpAddress) -> (r: String)
    ensures
        r@ == address_text(a),
{
    let mut s = String::new();
    match a {
        IpAddress::V4(x) => push_v4(&mut s, x),
        IpAddress::V6(x) => push_v6(&mut s, x),
    }
    assert(s@ =~= address_text(a));
    s
}

} // verus!
