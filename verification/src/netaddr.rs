//! Plain-value network endpoint types and their verified text parsers.
//!
//! An address is either four IPv4 octets or eight IPv6 segments; a socket
//! address is an address and a port. The grammars accepted here are the
//! dotted-quad literal (each octet one to three digits, no leading zero),
//! the IPv6 literal (hex groups of one to four digits, one optional `::`
//! compression, an optional trailing embedded dotted quad), and the two
//! socket forms `v4:port` and `[v6]:port` with a decimal port.
use vstd::prelude::*;
use vstd::string::*;
use crate::numparse::{all_digits, digits_val, is_digit_char, parse_u64};
use crate::strutil::{find_char, lemma_find_char, split_on, split_str, str_find};

verus! {

/// An IPv4 address as four plain octets.
#[derive(Clone, Copy, Debug, PartialEq, Eq, Structural)]
pub struct IpV4Address {
    pub a: u8,
    pub b: u8,
    pub c: u8,
    pub d: u8,
}

/// An IPv6 address as eight plain 16-bit segments.
#[derive(Clone, Copy, Debug, PartialEq, Eq, Structural)]
pub struct IpV6Address {
    pub s0: u16,
    pub s1: u16,
    pub s2: u16,
    pub s3: u16,
    pub s4: u16,
    pub s5: u16,
    pub s6: u16,
    pub s7: u16,
}

/// An IP address of either family.
#[derive(Clone, Copy, Debug, PartialEq, Eq, Structural)]
pub enum IpAddress {
    V4(IpV4Address),
    V6(IpV6Address),
}

/// An endpoint: address and port.
#[derive(Clone, Copy, Debug, PartialEq, Eq, Structural)]
pub struct SocketAddress {
    pub ip: IpAddress,
    pub port: u16,
}

// ---- IPv4 --------------------------------------------------------------

/// Whether `s` is a well-formed dotted-quad octet: one to three digits,
/// no superfluous leading zero, value at most 255.
pub open spec fn is_octet(s: Seq<char>) -> bool {
    &&& 1 <= s.len() <= 3
    &&& all_digits(s)
    &&& (s.len() == 1 || s[0] != '0')
    &&& digits_val(s) <= 255
}

/// The address a dotted-quad literal denotes, when well formed.
pub open spec fn spec_parse_ipv4(s: Seq<char>) -> Option<IpV4Address> {
    let g = split_on(s, '.');
    if g.len() == 4 && is_octet(g[0]) && is_octet(g[1]) && is_octet(g[2]) && is_octet(g[3]) {
        Some(
            IpV4Address {
                a: digits_val(g[0]) as u8,
                b: digits_val(g[1]) as u8,
                c: digits_val(g[2]) as u8,
                d: digits_val(g[3]) as u8,
            },
        )
    } else {
        None
    }
}

/// Parse one dotted-quad octet.
fn parse_octet(s: &String) -> (r: Option<u8>)
    ensures
        r matches Some(v) ==> is_octet(s@) && v == digits_val(s@),
        r is None ==> !is_octet(s@),
{
    let len = s.as_str().unicode_len();
    if len < 1 || len > 3 {
        return None;
    }
    if len > 1 && s.as_str().get_char(0) == '0' {
        return None;
    }
    let mut i: usize = 0;
    let mut acc: u64 = 0;
    while i < len
        invariant
            i <= len,
            len == s@.len(),
            len <= 3,
            all_digits(s@.subrange(0, i as int)),
            acc == digits_val(s@.subrange(0, i as int)),
            i == 0 ==> acc == 0,
            i == 1 ==> acc <= 9,
            i == 2 ==> acc <= 99,
            i == 3 ==> acc <= 999,
        decreases len - i,
    {
        let cv = s.as_str().get_char(i) as u32;
        if cv < 48 || cv > 57 {
            proof {
                assert(!is_digit_char(s@[i as int]));
            }
            return None;
        }
        let ghost pre1 = s@.subrange(0, i + 1);
        proof {
            assert(pre1.drop_last() =~= s@.subrange(0, i as int));
            assert(is_digit_char(s@[i as int]));
            assert(digits_val(pre1) == acc * 10 + (cv - 48));
        }
        acc = acc * 10 + ((cv - 48) as u64);
        i = i + 1;
    }
    proof {
        assert(s@.subrange(0, len as int) =~= s@);
    }
    if acc <= 255 {
        Some(acc as u8)
    } else {
        None
    }
}

/// Parse a dotted-quad IPv4 literal, proved against `spec_parse_ipv4`.
pub fn parse_ipv4(s: &str) -> (r: Option<IpV4Address>)
    ensures
        r == spec_parse_ipv4(s@),
{
    let groups = split_str(s, '.');
    let ghost g = split_on(s@, '.');
    proof {
        assert(groups@.map_values(|t: String| t@).len() == g.len());
    }
    if groups.len() != 4 {
        return None;
    }
    proof {
        assert forall|k: int| 0 <= k < 4 implies groups@[k]@ == g[k] by {
            assert(groups@.map_values(|t: String| t@)[k] == g[k]);
        }
    }
    let oa = parse_octet(&groups[0]);
    let ob = parse_octet(&groups[1]);
    let oc = parse_octet(&groups[2]);
    let od = parse_octet(&groups[3]);
    match (oa, ob, oc, od) {
        (Some(a), Some(b), Some(c), Some(d)) => Some(IpV4Address { a, b, c, d }),
        _ => None,
    }
}

// ---- IPv6 --------------------------------------------------------------

pub open spec fn is_hex_digit(c: char) -> bool {
    ('0' <= c && c <= '9') || ('a' <= c && c <= 'f') || ('A' <= c && c <= 'F')
}

pub open spec fn hex_digit_val(c: char) -> nat {
    if '0' <= c && c <= '9' {
        (c as nat - '0' as nat) as nat
    } else if 'a' <= c && c <= 'f' {
        (c as nat - 'a' as nat + 10) as nat
    } else {
        (c as nat - 'A' as nat + 10) as nat
    }
}

/// Numeric value of a hex digit string, most significant digit first.
pub open spec fn hex_val(s: Seq<char>) -> nat
    decreases s.len(),
{
    if s.len() == 0 {
        0
    } else {
        hex_val(s.drop_last()) * 16 + hex_digit_val(s.last())
    }
}

/// Whether `s` is a well-formed IPv6 group: one to four hex digits.
pub open spec fn is_hex_group(s: Seq<char>) -> bool {
    &&& 1 <= s.len() <= 4
    &&& forall|i: int| 0 <= i < s.len() ==> is_hex_digit(s[i])
}

pub open spec fn all_hex_groups(gs: Seq<Seq<char>>) -> bool {
    forall|i: int| 0 <= i < gs.len() ==> is_hex_group(gs[i])
}

/// The segment each hex group denotes.
pub open spec fn hex_seg_vals(gs: Seq<Seq<char>>) -> Seq<u16> {
    gs.map_values(|t: Seq<char>| (hex_val(t) as u16))
}

/// The segments a run of groups after a `::` denotes: hex groups, the
/// last of which may instead be an embedded dotted quad worth two
/// segments.
pub open spec fn tail_segs(gs: Seq<Seq<char>>) -> Option<Seq<u16>> {
    if gs.len() == 0 {
        Some(Seq::empty())
    } else {
        let init = gs.drop_last();
        let last = gs.last();
        if !all_hex_groups(init) {
            None
        } else if is_hex_group(last) {
            Some(hex_seg_vals(init).push(hex_val(last) as u16))
        } else {
            match spec_parse_ipv4(last) {
                Some(ip) => Some(
                    hex_seg_vals(init) + seq![
                        ((ip.a as u16) * 256 + (ip.b as u16)) as u16,
                        ((ip.c as u16) * 256 + (ip.d as u16)) as u16,
                    ],
                ),
                None => None,
            }
        }
    }
}

/// How many groups are empty: where the `::` compression sits.
pub open spec fn count_empty(gs: Seq<Seq<char>>) -> nat
    decreases gs.len(),
{
    if gs.len() == 0 {
        0
    } else {
        count_empty(gs.drop_last()) + if gs.last().len() == 0 {
            1nat
        } else {
            0nat
        }
    }
}

/// Index of the first empty group, or -1 when none.
pub open spec fn first_empty(gs: Seq<Seq<char>>) -> int
    decreases gs.len(),
{
    if gs.len() == 0 {
        -1
    } else if gs[0].len() == 0 {
        0
    } else {
        let r = first_empty(gs.subrange(1, gs.len() as int));
        if r < 0 {
            -1
        } else {
            r + 1
        }
    }
}

proof fn lemma_first_empty(gs: Seq<Seq<char>>)
    ensures
        first_empty(gs) == -1 || 0 <= first_empty(gs) < gs.len(),
        first_empty(gs) == -1 ==> forall|i: int| 0 <= i < gs.len() ==> gs[i].len() != 0,
        first_empty(gs) >= 0 ==> gs[first_empty(gs)].len() == 0,
        first_empty(gs) >= 0 ==> forall|i: int| 0 <= i < first_empty(gs) ==> gs[i].len() != 0,
    decreases gs.len(),
{
    if gs.len() == 0 {
    } else if gs[0].len() == 0 {
    } else {
        let t = gs.subrange(1, gs.len() as int);
        lemma_first_empty(t);
        assert forall|i: int| 1 <= i < gs.len() implies gs[i] == t[i - 1] by {}
    }
}

/// Eight zero segments, shortened as the compression requires.
pub open spec fn zero_segs(n: int) -> Seq<u16> {
    Seq::new(n as nat, |i: int| 0u16)
}

/// The head segments, the zeros the `::` stands for, and the tail.
pub open spec fn pad_segs(h: Seq<u16>, t: Seq<u16>) -> Seq<u16> {
    h + zero_segs(8 - h.len() - t.len()) + t
}

pub open spec fn v6_from_segs(ss: Seq<u16>) -> IpV6Address {
    IpV6Address {
        s0: ss[0],
        s1: ss[1],
        s2: ss[2],
        s3: ss[3],
        s4: ss[4],
        s5: ss[5],
        s6: ss[6],
        s7: ss[7],
    }
}

/// The address an IPv6 literal denotes: split on `:`, the `::`
/// compression shows as empty groups — two leading, two trailing, one
/// interior, or three for `::` alone — and the remaining groups must be
/// hex groups, the last possibly an embedded dotted quad.
pub open spec fn spec_parse_ipv6(s: Seq<char>) -> Option<IpV6Address> {
    let g = split_on(s, ':');
    let n = g.len() as int;
    let ne = count_empty(g);
    if ne == 0 {
        match tail_segs(g) {
            Some(ss) => if ss.len() == 8 {
                Some(v6_from_segs(ss))
            } else {
                None
            },
            None => None,
        }
    } else if n == 3 && ne == 3 {
        Some(v6_from_segs(zero_segs(8)))
    } else if ne == 2 && n >= 3 && g[0].len() == 0 && g[1].len() == 0 {
        match tail_segs(g.subrange(2, n)) {
            Some(ts) => if ts.len() <= 7 {
                Some(v6_from_segs(pad_segs(Seq::empty(), ts)))
            } else {
                None
            },
            None => None,
        }
    } else if ne == 2 && n >= 3 && g[n - 1].len() == 0 && g[n - 2].len() == 0 {
        let h = g.subrange(0, n - 2);
        if all_hex_groups(h) && h.len() <= 7 {
            Some(v6_from_segs(pad_segs(hex_seg_vals(h), Seq::empty())))
        } else {
            None
        }
    } else if ne == 1 && 1 <= first_empty(g) <= n - 2 {
        let k = first_empty(g);
        let h = g.subrange(0, k);
        if all_hex_groups(h) {
            match tail_segs(g.subrange(k + 1, n)) {
                Some(ts) => if h.len() + ts.len() <= 7 {
                    Some(v6_from_segs(pad_segs(hex_seg_vals(h), ts)))
                } else {
                    None
                },
                None => None,
            }
        } else {
            None
        }
    } else {
        None
    }
}

/// Parse one IPv6 hex group.
fn parse_hex_group(t: &String) -> (r: Option<u16>)
    ensures
        r matches Some(v) ==> is_hex_group(t@) && v == hex_val(t@),
        r is None ==> !is_hex_group(t@),
{
    let len = t.as_str().unicode_len();
    if len < 1 || len > 4 {
        return None;
    }
    let mut i: usize = 0;
    let mut acc: u32 = 0;
    while i < len
        invariant
            i <= len,
            len == t@.len(),
            len <= 4,
            forall|j: int| 0 <= j < i ==> is_hex_digit(t@[j]),
            acc == hex_val(t@.subrange(0, i as int)),
            i == 0 ==> acc == 0,
            i == 1 ==> acc <= 0xf,
            i == 2 ==> acc <= 0xff,
            i == 3 ==> acc <= 0xfff,
            i == 4 ==> acc <= 0xffff,
        decreases len - i,
    {
        let cv = t.as_str().get_char(i) as u32;
        let d: u32 = if 48 <= cv && cv <= 57 {
            cv - 48
        } else if 97 <= cv && cv <= 102 {
            cv - 87
        } else if 65 <= cv && cv <= 70 {
            cv - 55
        } else {
            proof {
                assert(!is_hex_digit(t@[i as int]));
            }
            return None;
        };
        let ghost pre1 = t@.subrange(0, i + 1);
        proof {
            assert(pre1.drop_last() =~= t@.subrange(0, i as int));
            assert(is_hex_digit(t@[i as int]));
            assert(d == hex_digit_val(t@[i as int]));
            assert(hex_val(pre1) == acc * 16 + d);
        }
        acc = acc * 16 + d;
        i = i + 1;
    }
    proof {
        assert(t@.subrange(0, len as int) =~= t@);
    }
    Some(acc as u16)
}

/// Parse a run of hex groups into their segments.
fn hex_groups_vals(parts: &Vec<String>, from: usize, to: usize) -> (r: Option<Vec<u16>>)
    requires
        from <= to <= parts@.len(),
    ensures
        ({
            let sub = parts@.map_values(|t: String| t@).subrange(from as int, to as int);
            match r {
                Some(v) => all_hex_groups(sub) && v@ == hex_seg_vals(sub),
                None => !all_hex_groups(sub),
            }
        }),
{
    let ghost sub = parts@.map_values(|t: String| t@).subrange(from as int, to as int);
    let mut out: Vec<u16> = Vec::new();
    let mut i: usize = from;
    proof {
        assert(out@ =~= hex_seg_vals(sub.subrange(0, 0)));
    }
    while i < to
        invariant
            from <= i <= to <= parts@.len(),
            sub == parts@.map_values(|t: String| t@).subrange(from as int, to as int),
            all_hex_groups(sub.subrange(0, i - from)),
            out@ == hex_seg_vals(sub.subrange(0, i - from)),
        decreases to - i,
    {
        proof {
            assert(parts@.map_values(|t: String| t@)[i as int] == parts@[i as int]@);
            assert(sub[i - from] == parts@[i as int]@);
        }
        match parse_hex_group(&parts[i]) {
            None => {
                proof {
                    assert(!is_hex_group(sub[i - from]));
                }
                return None;
            },
            Some(v) => {
                out.push(v);
                proof {
                    let pre1 = sub.subrange(0, i + 1 - from);
                    assert forall|j: int| 0 <= j < pre1.len() implies pre1[j] == sub[j] by {}
                    assert(out@ =~= hex_seg_vals(pre1));
                }
            },
        }
        i = i + 1;
    }
    proof {
        assert(sub.subrange(0, to - from) =~= sub);
    }
    Some(out)
}

/// Parse a run of groups that may end in an embedded dotted quad.
fn tail_segs_vals(parts: &Vec<String>, from: usize, to: usize) -> (r: Option<Vec<u16>>)
    requires
        from <= to <= parts@.len(),
    ensures
        ({
            let sub = parts@.map_values(|t: String| t@).subrange(from as int, to as int);
            match r {
                Some(v) => tail_segs(sub) == Some(v@),
                None => tail_segs(sub) is None,
            }
        }),
{
    let ghost sub = parts@.map_values(|t: String| t@).subrange(from as int, to as int);
    if from == to {
        let out: Vec<u16> = Vec::new();
        proof {
            assert(out@ =~= Seq::<u16>::empty());
        }
        return Some(out);
    }
    proof {
        assert(sub.drop_last() =~= parts@.map_values(|t: String| t@).subrange(
            from as int,
            to - 1,
        ));
        assert(parts@.map_values(|t: String| t@)[to - 1] == parts@[to - 1]@);
        assert(sub.last() == parts@[to - 1]@);
    }
    let mut out = match hex_groups_vals(parts, from, to - 1) {
        None => {
            return None;
        },
        Some(v) => v,
    };
    let last = &parts[to - 1];
    match parse_hex_group(last) {
        Some(v) => {
            out.push(v);
            Some(out)
        },
        None => {
            match parse_ipv4(last.as_str()) {
                Some(ip) => {
                    out.push((ip.a as u16) * 256 + (ip.b as u16));
                    out.push((ip.c as u16) * 256 + (ip.d as u16));
                    proof {
                        assert(out@ =~= tail_segs(sub)->Some_0);
                    }
                    Some(out)
                },
                None => None,
            }
        },
    }
}

/// Assemble the eight segments from head, implied zeros, and tail.
fn v6_build(h: &Vec<u16>, t: &Vec<u16>) -> (r: IpV6Address)
    requires
        h@.len() + t@.len() <= 8,
    ensures
        r == v6_from_segs(pad_segs(h@, t@)),
{
    let mut segs: Vec<u16> = Vec::new();
    let mut i: usize = 0;
    while i < h.len()
        invariant
            i <= h@.len(),
            segs@ == h@.subrange(0, i as int),
        decreases h@.len() - i,
    {
        segs.push(h[i]);
        i = i + 1;
    }
    proof {
        assert(h@.subrange(0, h@.len() as int) =~= h@);
    }
    let zeros = 8 - h.len() - t.len();
    let mut z: usize = 0;
    while z < zeros
        invariant
            z <= zeros,
            zeros == 8 - h@.len() - t@.len(),
            segs@ == h@ + zero_segs(z as int),
        decreases zeros - z,
    {
        segs.push(0);
        proof {
            assert(segs@ =~= h@ + zero_segs(z + 1));
        }
        z = z + 1;
    }
    let mut j: usize = 0;
    while j < t.len()
        invariant
            j <= t@.len(),
            zeros == 8 - h@.len() - t@.len(),
            segs@ == h@ + zero_segs(zeros as int) + t@.subrange(0, j as int),
        decreases t@.len() - j,
    {
        segs.push(t[j]);
        proof {
            assert(segs@ =~= h@ + zero_segs(zeros as int) + t@.subrange(0, j + 1));
        }
        j = j + 1;
    }
    proof {
        assert(t@.subrange(0, t@.len() as int) =~= t@);
        assert(segs@ =~= pad_segs(h@, t@));
    }
    IpV6Address {
        s0: segs[0],
        s1: segs[1],
        s2: segs[2],
        s3: segs[3],
        s4: segs[4],
        s5: segs[5],
        s6: segs[6],
        s7: segs[7],
    }
}

/// Parse an IPv6 literal, proved against `spec_parse_ipv6`.
pub fn parse_ipv6(s: &str) -> (r: Option<IpV6Address>)
    ensures
        r == spec_parse_ipv6(s@),
{
    let parts = split_str(s, ':');
    let ghost g = split_on(s@, ':');
    let n = parts.len();
    proof {
        assert(parts@.map_values(|t: String| t@).len() == g.len());
    }
    let mut ne: usize = 0;
    let mut fe: usize = n;
    let mut i: usize = 0;
    while i < n
        invariant
            i <= n,
            n == parts@.len(),
            parts@.map_values(|t: String| t@) == g,
            ne <= i,
            ne == count_empty(g.subrange(0, i as int)),
            ne == 0 ==> fe == n && (forall|j: int| 0 <= j < i ==> g[j].len() != 0),
            ne > 0 ==> fe < i && g[fe as int].len() == 0 && (forall|j: int|
                0 <= j < fe ==> g[j].len() != 0),
        decreases n - i,
    {
        proof {
            assert(parts@.map_values(|t: String| t@)[i as int] == g[i as int]);
        }
        let empty = parts[i].as_str().unicode_len() == 0;
        if empty {
            if ne == 0 {
                fe = i;
            }
            ne = ne + 1;
        }
        proof {
            let pre1 = g.subrange(0, i + 1);
            assert(pre1.drop_last() =~= g.subrange(0, i as int));
            assert(pre1.last() == g[i as int]);
        }
        i = i + 1;
    }
    proof {
        assert(g.subrange(0, n as int) =~= g);
        lemma_first_empty(g);
        if ne > 0 {
            assert(first_empty(g) == fe);
        }
    }
    if ne == 0 {
        match tail_segs_vals(&parts, 0, n) {
            None => {
                proof {
                    assert(parts@.map_values(|t: String| t@).subrange(0, n as int) =~= g);
                }
                None
            },
            Some(v) => {
                proof {
                    assert(parts@.map_values(|t: String| t@).subrange(0, n as int) =~= g);
                }
                if v.len() == 8 {
                    let empty_head: Vec<u16> = Vec::new();
                    let r = v6_build(&empty_head, &v);
                    proof {
                        assert(pad_segs(empty_head@, v@) =~= v@);
                    }
                    Some(r)
                } else {
                    None
                }
            },
        }
    } else if n == 3 && ne == 3 {
        let empty_head: Vec<u16> = Vec::new();
        let empty_tail: Vec<u16> = Vec::new();
        let r = v6_build(&empty_head, &empty_tail);
        proof {
            assert(pad_segs(empty_head@, empty_tail@) =~= zero_segs(8));
        }
        Some(r)
    } else if ne == 2 && n >= 3 && parts[0].as_str().unicode_len() == 0 && parts[1]
        .as_str()
        .unicode_len() == 0 {
        proof {
            assert(parts@.map_values(|t: String| t@)[0] == g[0]);
            assert(parts@.map_values(|t: String| t@)[1] == g[1]);
        }
        match tail_segs_vals(&parts, 2, n) {
            None => {
                proof {
                    assert(parts@.map_values(|t: String| t@).subrange(2, n as int) =~= g.subrange(
                        2,
                        n as int,
                    ));
                }
                None
            },
            Some(ts) => {
                proof {
                    assert(parts@.map_values(|t: String| t@).subrange(2, n as int) =~= g.subrange(
                        2,
                        n as int,
                    ));
                }
                if ts.len() <= 7 {
                    let empty_head: Vec<u16> = Vec::new();
                    let r = v6_build(&empty_head, &ts);
                    proof {
                        assert(pad_segs(empty_head@, ts@) =~= pad_segs(Seq::empty(), ts@));
                    }
                    Some(r)
                } else {
                    None
                }
            },
        }
    } else if ne == 2 && n >= 3 && parts[n - 1].as_str().unicode_len() == 0 && parts[n - 2]
        .as_str()
        .unicode_len() == 0 {
        proof {
            assert(parts@.map_values(|t: String| t@)[n - 1] == g[n - 1]);
            assert(parts@.map_values(|t: String| t@)[n - 2] == g[n - 2]);
        }
        match hex_groups_vals(&parts, 0, n - 2) {
            None => {
                proof {
                    assert(parts@.map_values(|t: String| t@).subrange(0, n - 2) =~= g.subrange(
                        0,
                        n - 2,
                    ));
                }
                None
            },
            Some(h) => {
                proof {
                    assert(parts@.map_values(|t: String| t@).subrange(0, n - 2) =~= g.subrange(
                        0,
                        n - 2,
                    ));
                }
                if h.len() <= 7 {
                    let empty_tail: Vec<u16> = Vec::new();
                    let r = v6_build(&h, &empty_tail);
                    proof {
                        assert(pad_segs(h@, empty_tail@) =~= pad_segs(
                            hex_seg_vals(g.subrange(0, n - 2)),
                            Seq::empty(),
                        ));
                    }
                    Some(r)
                } else {
                    None
                }
            },
        }
    } else if ne == 1 && 1 <= fe && fe <= n - 2 {
        match hex_groups_vals(&parts, 0, fe) {
            None => {
                proof {
                    assert(parts@.map_values(|t: String| t@).subrange(0, fe as int) =~= g.subrange(
                        0,
                        fe as int,
                    ));
                }
                None
            },
            Some(h) => {
                proof {
                    assert(parts@.map_values(|t: String| t@).subrange(0, fe as int) =~= g.subrange(
                        0,
                        fe as int,
                    ));
                }
                match tail_segs_vals(&parts, fe + 1, n) {
                    None => {
                        proof {
                            assert(parts@.map_values(|t: String| t@).subrange(fe + 1, n as int)
                                =~= g.subrange(fe + 1, n as int));
                        }
                        None
                    },
                    Some(ts) => {
                        proof {
                            assert(parts@.map_values(|t: String| t@).subrange(fe + 1, n as int)
                                =~= g.subrange(fe + 1, n as int));
                        }
                        if h.len() + ts.len() <= 7 {
                            Some(v6_build(&h, &ts))
                        } else {
                            None
                        }
                    },
                }
            },
        }
    } else {
        None
    }
}

/// The address a bare IP literal of either family denotes.
pub open spec fn spec_parse_ip(s: Seq<char>) -> Option<IpAddress> {
    match spec_parse_ipv4(s) {
        Some(v4) => Some(IpAddress::V4(v4)),
        None => match spec_parse_ipv6(s) {
            Some(v6) => Some(IpAddress::V6(v6)),
            None => None,
        },
    }
}

/// Parse a bare IP literal of either family.
pub fn parse_ip(s: &str) -> (r: Option<IpAddress>)
    ensures
        r == spec_parse_ip(s@),
{
    match parse_ipv4(s) {
        Some(v4) => Some(IpAddress::V4(v4)),
        None => match parse_ipv6(s) {
            Some(v6) => Some(IpAddress::V6(v6)),
            None => None,
        },
    }
}

// ---- socket addresses --------------------------------------------------

/// Whether `s` is a well-formed decimal port: digits with value at most
/// 65535.
pub open spec fn is_port(s: Seq<char>) -> bool {
    &&& s.len() >= 1
    &&& all_digits(s)
    &&& digits_val(s) <= 65535
}

/// The endpoint an `address:port` or `[address]:port` literal denotes,
/// when well formed: the bracketed form holds an IPv6 address, the bare
/// form an IPv4 one.
pub open spec fn spec_parse_sockaddr(s: Seq<char>) -> Option<SocketAddress> {
    if s.len() > 0 && s[0] == '[' {
        let j = find_char(s, ']');
        if 0 <= j < s.len() && j + 1 < s.len() && s[j + 1] == ':' {
            let ip = spec_parse_ipv6(s.subrange(1, j));
            let p = s.subrange(j + 2, s.len() as int);
            if ip is Some && is_port(p) {
                Some(SocketAddress { ip: IpAddress::V6(ip->Some_0), port: digits_val(p) as u16 })
            } else {
                None
            }
        } else {
            None
        }
    } else {
        let i = find_char(s, ':');
        if 0 <= i < s.len() {
            let ip = spec_parse_ipv4(s.subrange(0, i));
            let p = s.subrange(i + 1, s.len() as int);
            if ip is Some && is_port(p) {
                Some(SocketAddress { ip: IpAddress::V4(ip->Some_0), port: digits_val(p) as u16 })
            } else {
                None
            }
        } else {
            None
        }
    }
}

/// Parse a decimal port.
fn parse_port(t: &str) -> (r: Option<u16>)
    ensures
        r matches Some(p) ==> is_port(t@) && p == digits_val(t@),
        r is None ==> !is_port(t@),
{
    if t.unicode_len() > 0 && t.get_char(0) == '+' {
        return None;
    }
    proof {
        assert(t@ =~= crate::numparse::unsigned_body(t@));
    }
    match parse_u64(t) {
        None => {
            proof {
                if is_port(t@) {
                    assert(digits_val(t@) <= u64::MAX);
                }
            }
            None
        },
        Some(v) => {
            if v <= 65535 {
                Some(v as u16)
            } else {
                None
            }
        },
    }
}

/// Parse an `address:port` or `[address]:port` literal, proved against
/// `spec_parse_sockaddr`.
pub fn parse_sockaddr(s: &str) -> (r: Option<SocketAddress>)
    ensures
        r == spec_parse_sockaddr(s@),
{
    let len = s.unicode_len();
    if len > 0 && s.get_char(0) == '[' {
        proof {
            lemma_find_char(s@, ']');
        }
        match str_find(s, ']') {
            None => None,
            Some(j) => {
                if j + 1 < len && s.get_char(j + 1) == ':' {
                    let inner = s.substring_char(1, j);
                    let ptail = s.substring_char(j + 2, len);
                    match parse_ipv6(inner) {
                        None => None,
                        Some(v6) => match parse_port(ptail) {
                            None => None,
                            Some(p) => Some(SocketAddress { ip: IpAddress::V6(v6), port: p }),
                        },
                    }
                } else {
                    None
                }
            },
        }
    } else {
        proof {
            lemma_find_char(s@, ':');
        }
        match str_find(s, ':') {
            None => None,
            Some(i) => {
                let head = s.substring_char(0, i);
                let tail = s.substring_char(i + 1, len);
                match parse_ipv4(head) {
                    None => None,
                    Some(ip) => match parse_port(tail) {
                        None => None,
                        Some(p) => Some(SocketAddress { ip: IpAddress::V4(ip), port: p }),
                    },
                }
            },
        }
    }
}

} // verus!
