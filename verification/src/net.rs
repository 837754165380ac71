//! Network addresses and the globally-routable predicate.
//!
//! An address is held as plain octets or segments so that the routing
//! predicate and the address-selection rules are pure functions over the
//! numeric fields, independent of how the surrounding program enumerates
//! interfaces.

use vstd::prelude::*;

use crate::textfmt::{push_dec_u16, push_hex_u16, spec_dec, spec_hex};

verus! {

/// A network address, IPv4 as four octets or IPv6 as eight 16-bit segments.
#[derive(Clone, Copy, Debug, PartialEq, Eq)]
pub enum HostAddr {
    V4 { a: u8, b: u8, c: u8, d: u8 },
    V6 { s: [u16; 8] },
}

/// Whether an IPv4 address is usable for inbound connections from outside
/// the local host or subnet: not unspecified, not loopback, not link-local,
/// not multicast, not broadcast. An IPv6 address never qualifies here.
pub open spec fn spec_is_global_4(h: HostAddr) -> bool {
    match h {
        HostAddr::V4 { a, b, c, d } => {
            &&& !(a == 0 && b == 0 && c == 0 && d == 0)
            &&& a != 127
            &&& !(a == 169 && b == 254)
            &&& !(224 <= a && a <= 239)
            &&& !(a == 255 && b == 255 && c == 255 && d == 255)
        },
        HostAddr::V6 { .. } => false,
    }
}

/// Decide whether `h` is a globally routable IPv4 address.
pub fn is_global_4(h: &HostAddr) -> (r: bool)
    ensures
        r == spec_is_global_4(*h),
{
    match h {
        HostAddr::V4 { a, b, c, d } => {
            let unspecified = *a == 0 && *b == 0 && *c == 0 && *d == 0;
            let loopback = *a == 127;
            let link_local = *a == 169 && *b == 254;
            let multicast = 224 <= *a && *a <= 239;
            let broadcast = *a == 255 && *b == 255 && *c == 255 && *d == 255;
            !(unspecified || loopback || link_local || multicast || broadcast)
        },
        HostAddr::V6 { .. } => false,
    }
}

/// The first globally routable address of `addrs`, if any.
pub open spec fn spec_first_global(addrs: Seq<HostAddr>) -> Option<HostAddr>
    decreases addrs.len(),
{
    if addrs.len() == 0 {
        None
    } else if spec_is_global_4(addrs[0]) {
        Some(addrs[0])
    } else {
        spec_first_global(addrs.drop_first())
    }
}

/// Pick the first globally routable address from an enumerated address
/// list, such as the addresses of the local network interfaces.
pub fn get_first_net(addrs: &Vec<HostAddr>) -> (r: Option<HostAddr>)
    ensures
        r == spec_first_global(addrs@),
{
    let n = addrs.len();
    proof {
        assert(addrs@.skip(0) =~= addrs@);
    }
    for i in 0..n
        invariant
            n == addrs@.len(),
            spec_first_global(addrs@) == spec_first_global(addrs@.skip(i as int)),
    {
        proof {
            assert(addrs@.skip(i as int).len() > 0);
            assert(addrs@.skip(i as int)[0] == addrs@[i as int]);
        }
        if is_global_4(&addrs[i]) {
            return Some(addrs[i]);
        }
        proof {
            assert(addrs@.skip(i as int).drop_first() =~= addrs@.skip(i + 1));
        }
    }
    proof {
        assert(addrs@.skip(n as int).len() == 0);
    }
    None
}

/// The length of the run of zero groups starting at `i`.
pub open spec fn spec_zero_run(s: Seq<u16>, i: int) -> int
    decreases s.len() - i,
{
    if i < 0 || i >= s.len() || s[i] != 0 {
        0
    } else {
        1 + spec_zero_run(s, i + 1)
    }
}

/// The start of the leftmost longest run of zero groups at or after
/// `i`, or the length of `s` when `i` is past the end.
pub open spec fn spec_best_zero_run(s: Seq<u16>, i: int) -> int
    decreases s.len() - i,
{
    if i < 0 || i >= s.len() {
        s.len() as int
    } else {
        let rest = spec_best_zero_run(s, i + 1);
        if rest >= s.len() || spec_zero_run(s, i) >= spec_zero_run(s, rest) {
            i
        } else {
            rest
        }
    }
}

/// Hex groups joined with colons.
pub open spec fn spec_join_hex(s: Seq<u16>) -> Seq<char>
    decreases s.len(),
{
    if s.len() == 0 {
        Seq::empty()
    } else if s.len() == 1 {
        spec_hex(s[0] as int)
    } else {
        spec_join_hex(s.drop_last()) + ":"@ + spec_hex(s.last() as int)
    }
}

/// The canonical text of eight IPv6 groups: lowercase hex without
/// leading zeros, colon-separated, with the leftmost longest run of at
/// least two zero groups compressed to `::`.
pub open spec fn spec_v6_text(s: Seq<u16>) -> Seq<char> {
    let b = spec_best_zero_run(s, 0);
    let l = spec_zero_run(s, b);
    if l >= 2 {
        spec_join_hex(s.take(b)) + "::"@ + spec_join_hex(s.skip(b + l))
    } else {
        spec_join_hex(s)
    }
}

/// The textual form of an address: dotted decimal for IPv4; for IPv6
/// the usual compressed form.
pub open spec fn spec_host_text(h: HostAddr) -> Seq<char> {
    match h {
        HostAddr::V4 { a, b, c, d } => spec_dec(a as int) + "."@ + spec_dec(b as int) + "."@
            + spec_dec(c as int) + "."@ + spec_dec(d as int),
        HostAddr::V6 { s } => spec_v6_text(s@),
    }
}

/// The run of zero groups starting at `i`.
fn zero_run(segs: &[u16; 8], i: usize) -> (r: usize)
    requires
        i <= 8,
    ensures
        r == spec_zero_run(segs@, i as int),
        i + r <= 8,
{
    let mut j = i;
    while j < 8
        invariant
            i <= j <= 8,
            segs@.len() == 8,
            spec_zero_run(segs@, i as int) == j - i + spec_zero_run(segs@, j as int),
        decreases 8 - j,
    {
        if segs[j] != 0 {
            return j - i;
        }
        j = j + 1;
    }
    j - i
}

/// Append the hex groups of `segs[from..to]` joined with colons.
fn push_join_hex(out: &mut String, segs: &[u16; 8], from: usize, to: usize)
    requires
        from <= to <= 8,
    ensures
        final(out)@ == old(out)@ + spec_join_hex(segs@.subrange(from as int, to as int)),
{
    proof {
        assert(segs@.subrange(from as int, from as int) =~= Seq::<u16>::empty());
        assert(old(out)@ + spec_join_hex(segs@.subrange(from as int, from as int)) =~= old(
            out,
        )@);
    }
    let mut k = from;
    while k < to
        invariant
            from <= k <= to <= 8,
            segs@.len() == 8,
            out@ == old(out)@ + spec_join_hex(segs@.subrange(from as int, k as int)),
        decreases to - k,
    {
        if k > from {
            out.append(":");
        }
        push_hex_u16(out, segs[k]);
        proof {
            let sub = segs@.subrange(from as int, k + 1);
            assert(sub.last() == segs@[k as int]);
            assert(sub.drop_last() =~= segs@.subrange(from as int, k as int));
            assert(out@ =~= old(out)@ + spec_join_hex(sub));
        }
        k = k + 1;
    }
}

/// The canonical text of eight IPv6 groups.
fn v6_text(segs: &[u16; 8]) -> (r: String)
    ensures
        r@ == spec_v6_text(segs@),
{
    // the leftmost longest zero run
    let mut best: usize = 8;
    let mut i: usize = 8;
    while i > 0
        invariant
            i <= 8,
            segs@.len() == 8,
            best == spec_best_zero_run(segs@, i as int),
        decreases i,
    {
        i = i - 1;
        let run_i = zero_run(segs, i);
        let better = if best >= 8 {
            true
        } else {
            run_i >= zero_run(segs, best)
        };
        if better {
            best = i;
        }
    }
    let run_best = if best >= 8 {
        0
    } else {
        zero_run(segs, best)
    };
    let mut s = String::new();
    if run_best >= 2 {
        push_join_hex(&mut s, segs, 0, best);
        s.append("::");
        push_join_hex(&mut s, segs, best + run_best, 8);
        proof {
            assert(segs@.subrange(0, best as int) =~= segs@.take(best as int));
            assert(segs@.subrange(best + run_best, 8) =~= segs@.skip(best + run_best));
            assert(s@ =~= spec_v6_text(segs@));
        }
    } else {
        push_join_hex(&mut s, segs, 0, 8);
        proof {
            assert(segs@.subrange(0, 8) =~= segs@);
            assert(s@ =~= spec_v6_text(segs@));
        }
    }
    s
}

/// Render an address for use in a URL.
pub fn host_text(h: &HostAddr) -> (r: String)
    ensures
        r@ == spec_host_text(*h),
{
    match h {
        HostAddr::V4 { a, b, c, d } => {
            let mut s = String::new();
            push_dec_u16(&mut s, *a as u16);
            s.append(".");
            push_dec_u16(&mut s, *b as u16);
            s.append(".");
            push_dec_u16(&mut s, *c as u16);
            s.append(".");
            push_dec_u16(&mut s, *d as u16);
            proof {
                assert(s@ =~= spec_host_text(*h));
            }
            s
        },
        HostAddr::V6 { s: segs } => v6_text(segs),
    }
}

/// Copy an address list.
pub fn copy_addrs(v: &Vec<HostAddr>) -> (r: Vec<HostAddr>)
    ensures
        r@ == v@,
{
    let mut r: Vec<HostAddr> = Vec::new();
    let n = v.len();
    proof {
        assert(r@ =~= v@.take(0));
    }
    for i in 0..n
        invariant
            n == v@.len(),
            r@ == v@.take(i as int),
    {
        r.push(v[i]);
        proof {
            assert(v@.take(i + 1) =~= v@.take(i as int).push(v@[i as int]));
        }
    }
    proof {
        assert(v@.take(n as int) =~= v@);
    }
    r
}

} // verus!
