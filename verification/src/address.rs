//! Interface addresses: an IP address with the length of its network prefix,
//! and the reading of the textual form `ip/prefix`, for IPv4 in dotted decimal
//! form and for IPv6 in its colon-separated forms.
use vstd::prelude::*;
use vstd::slice::slice_subrange;
use crate::error::WgError;
use crate::wire::{AF_INET, AF_INET6};

verus! {

/// An IP address, held as the octets that go on the wire.
#[derive(Debug, Clone, Copy, PartialEq, Eq)]
pub enum IpAddress {
    V4([u8; 4]),
    V6([u8; 16]),
}

impl IpAddress {
    /// The octets of the address in network order: four or sixteen of them.
    pub open spec fn octets(self) -> Seq<u8> {
        match self {
            IpAddress::V4(a) => a@,
            IpAddress::V6(a) => a@,
        }
    }

    /// The address family as the kernel numbers it.
    pub open spec fn family(self) -> u8 {
        match self {
            IpAddress::V4(_) => AF_INET,
            IpAddress::V6(_) => AF_INET6,
        }
    }

    /// The number of bits in an address of this family.
    pub open spec fn bits(self) -> u8 {
        match self {
            IpAddress::V4(_) => 32,
            IpAddress::V6(_) => 128,
        }
    }

    /// The address family as the kernel numbers it.
    pub fn family_code(&self) -> (f: u8)
        ensures
            f == self.family(),
    {
        match self {
            IpAddress::V4(_) => AF_INET,
            IpAddress::V6(_) => AF_INET6,
        }
    }

    /// The number of bits in an address of this family, the largest prefix
    /// length it admits.
    pub fn bit_len(&self) -> (n: u8)
        ensures
            n == self.bits(),
    {
        match self {
            IpAddress::V4(_) => 32,
            IpAddress::V6(_) => 128,
        }
    }

    /// A copy of the octets in network order.
    pub fn to_octets(&self) -> (out: Vec<u8>)
        ensures
            out@ == self.octets(),
            out@.len() == 4 || out@.len() == 16,
    {
        let mut out: Vec<u8> = Vec::new();
        match self {
            IpAddress::V4(a) => {
                let mut i: usize = 0;
                while i < 4
                    invariant
                        i <= 4,
                        out@ == a@.subrange(0, i as int),
                    decreases 4 - i,
                {
                    out.push(a[i]);
                    i = i + 1;
                    assert(out@ =~= a@.subrange(0, i as int));
                }
                assert(a@.subrange(0, 4) =~= a@);
            },
            IpAddress::V6(a) => {
                let mut i: usize = 0;
                while i < 16
                    invariant
                        i <= 16,
                        out@ == a@.subrange(0, i as int),
                    decreases 16 - i,
                {
                    out.push(a[i]);
                    i = i + 1;
                    assert(out@ =~= a@.subrange(0, i as int));
                }
                assert(a@.subrange(0, 16) =~= a@);
            },
        }
        out
    }
}

/// An address together with the length of its network prefix.
#[derive(Debug, Clone, Copy, PartialEq, Eq)]
pub struct Cidr {
    pub ip: IpAddress,
    pub prefix: u8,
}

impl Cidr {
    /// The prefix is no longer than the address.
    pub open spec fn wf(self) -> bool {
        self.prefix <= self.ip.bits()
    }
}

/// The byte is a decimal digit.
pub open spec fn is_digit(b: u8) -> bool {
    48 <= b <= 57
}

/// Every byte is a decimal digit.
pub open spec fn all_digits(s: Seq<u8>) -> bool {
    forall|i: int| 0 <= i < s.len() ==> is_digit(#[trigger] s[i])
}

/// The number that a string of decimal digits writes.
pub open spec fn digits_value(s: Seq<u8>) -> nat
    decreases s.len(),
{
    if s.len() == 0 {
        0
    } else {
        digits_value(s.drop_last()) * 10 + (s.last() - 48) as nat
    }
}

/// The end of the longest run of decimal digits that starts at `i`.
pub open spec fn digit_run(s: Seq<u8>, i: int) -> int
    decreases s.len() - i,
{
    if 0 <= i < s.len() && is_digit(s[i]) {
        digit_run(s, i + 1)
    } else {
        i
    }
}

/// The index of the first byte `b` at or after `i`; the length of `s` if
/// there is none.
pub open spec fn find(s: Seq<u8>, b: u8, i: int) -> int
    decreases s.len() - i,
{
    if 0 <= i < s.len() && s[i] != b {
        find(s, b, i + 1)
    } else {
        i
    }
}

/// The octet written at `i`, with the index at which its digits end: one to
/// three decimal digits, no zero before another digit, a value of at most 255.
pub open spec fn octet_at(s: Seq<u8>, i: int) -> Option<(u8, int)> {
    let end = digit_run(s, i);
    if 0 <= i && 1 <= end - i <= 3 && end <= s.len() && (end - i > 1 ==> s[i] != 48)
        && digits_value(s.subrange(i, end)) <= 255 {
        Some((digits_value(s.subrange(i, end)) as u8, end))
    } else {
        None
    }
}

/// The octet written at `i` and followed by a dot, with the index behind the dot.
pub open spec fn dotted_at(s: Seq<u8>, i: int) -> Option<(u8, int)> {
    match octet_at(s, i) {
        Some((value, end)) => if end < s.len() && s[end] == 46 {
            Some((value, end + 1))
        } else {
            None
        },
        None => None,
    }
}

/// The IPv4 address written at `i`, with the index at which it ends: four
/// octets with a dot between each two.
pub open spec fn ipv4_at(s: Seq<u8>, i: int) -> Option<([u8; 4], int)> {
    match dotted_at(s, i) {
        Some((a, i1)) => match dotted_at(s, i1) {
            Some((b, i2)) => match dotted_at(s, i2) {
                Some((c, i3)) => match octet_at(s, i3) {
                    Some((d, end)) => Some(([a, b, c, d], end)),
                    None => None,
                },
                None => None,
            },
            None => None,
        },
        None => None,
    }
}

/// The IPv4 address that `s` writes: a dotted quad and nothing else.
pub open spec fn ipv4_of(s: Seq<u8>) -> Option<[u8; 4]> {
    match ipv4_at(s, 0) {
        Some((address, end)) => if end == s.len() {
            Some(address)
        } else {
            None
        },
        None => None,
    }
}

/// The byte is a hexadecimal digit, in either case.
pub open spec fn is_hex(b: u8) -> bool {
    is_digit(b) || 97 <= b <= 102 || 65 <= b <= 70
}

/// The value of a hexadecimal digit.
pub open spec fn hex_digit(b: u8) -> nat {
    if is_digit(b) {
        (b - 48) as nat
    } else if 97 <= b <= 102 {
        (b - 87) as nat
    } else {
        (b - 55) as nat
    }
}

/// The number that a string of hexadecimal digits writes.
pub open spec fn hex_value(s: Seq<u8>) -> nat
    decreases s.len(),
{
    if s.len() == 0 {
        0
    } else {
        hex_value(s.drop_last()) * 16 + hex_digit(s.last())
    }
}

/// The end of the longest run of hexadecimal digits that starts at `i`.
pub open spec fn hex_run(s: Seq<u8>, i: int) -> int
    decreases s.len() - i,
{
    if 0 <= i < s.len() && is_hex(s[i]) {
        hex_run(s, i + 1)
    } else {
        i
    }
}

/// The 16-bit group written at `i`, with the index at which its digits end:
/// one to four hexadecimal digits.
pub open spec fn group_at(s: Seq<u8>, i: int) -> Option<(u16, int)> {
    let end = hex_run(s, i);
    if 0 <= i && 1 <= end - i <= 4 && end <= s.len() && hex_value(s.subrange(i, end)) <= 0xFFFF {
        Some((hex_value(s.subrange(i, end)) as u16, end))
    } else {
        None
    }
}

/// A run of 16-bit groups read from a text.
pub struct Groups {
    /// The groups, in order.
    pub groups: Seq<u16>,
    /// The index at which the run ends.
    pub end: int,
    /// The last two groups were written as a dotted quad.
    pub quad: bool,
}

/// The two 16-bit groups that a dotted quad fills.
pub open spec fn quad_groups(quad: [u8; 4]) -> Seq<u16> {
    seq![(quad[0] * 256 + quad[1]) as u16, (quad[2] * 256 + quad[3]) as u16]
}

/// The run of groups that starts at `i`, when `count` groups of at most
/// `limit` have been read before it. Each group after the first follows a
/// colon. Where at least two groups are still to come, a dotted quad is read
/// in their place if one is written there, and ends the run. The run also ends
/// where no group is written, and when `limit` groups are read.
pub open spec fn groups_at(s: Seq<u8>, i: int, count: nat, limit: nat) -> Groups
    decreases limit - count,
{
    let none = Groups { groups: Seq::empty(), end: i, quad: false };
    if count >= limit {
        none
    } else if count > 0 && !(0 <= i < s.len() && s[i] == 58) {
        none
    } else {
        let start = if count > 0 {
            i + 1
        } else {
            i
        };
        match (count + 1 < limit, ipv4_at(s, start), group_at(s, start)) {
            (true, Some((quad, end)), _) => Groups { groups: quad_groups(quad), end, quad: true },
            (_, _, Some((group, end))) => {
                let rest = groups_at(s, end, count + 1, limit);
                Groups { groups: seq![group] + rest.groups, end: rest.end, quad: rest.quad }
            },
            _ => none,
        }
    }
}

/// The eight groups of an address whose text leaves out a run of zero groups
/// between `head` and `tail`.
pub open spec fn with_gap(head: Seq<u16>, tail: Seq<u16>) -> Seq<u16> {
    head + Seq::new((8 - head.len() - tail.len()) as nat, |k: int| 0u16) + tail
}

/// The sixteen octets of eight groups, each group high byte first.
pub open spec fn group_octets(g: Seq<u16>) -> [u8; 16] {
    [
        (g[0] / 256) as u8,
        (g[0] % 256) as u8,
        (g[1] / 256) as u8,
        (g[1] % 256) as u8,
        (g[2] / 256) as u8,
        (g[2] % 256) as u8,
        (g[3] / 256) as u8,
        (g[3] % 256) as u8,
        (g[4] / 256) as u8,
        (g[4] % 256) as u8,
        (g[5] / 256) as u8,
        (g[5] % 256) as u8,
        (g[6] / 256) as u8,
        (g[6] % 256) as u8,
        (g[7] / 256) as u8,
        (g[7] % 256) as u8,
    ]
}

/// The IPv6 address that `s` writes. Either eight groups, the last two of
/// which may be written as a dotted quad; or fewer groups, none of them
/// written as a dotted quad, then a double colon that stands for at least one
/// zero group, then the groups that are left, of which the last two may be
/// written as a dotted quad. Nothing may follow.
pub open spec fn ipv6_of(s: Seq<u8>) -> Option<[u8; 16]> {
    let head = groups_at(s, 0, 0, 8);
    if head.groups.len() == 8 {
        if head.end == s.len() {
            Some(group_octets(head.groups))
        } else {
            None
        }
    } else if head.quad || !(0 <= head.end && head.end + 1 < s.len() && s[head.end] == 58
        && s[head.end + 1] == 58) {
        None
    } else {
        let tail = groups_at(s, head.end + 2, 0, (7 - head.groups.len()) as nat);
        if tail.end == s.len() {
            Some(group_octets(with_gap(head.groups, tail.groups)))
        } else {
            None
        }
    }
}

/// The address that `s` writes.
pub open spec fn ip_of(s: Seq<u8>) -> Option<IpAddress> {
    match ipv4_of(s) {
        Some(a) => Some(IpAddress::V4(a)),
        None => match ipv6_of(s) {
            Some(a) => Some(IpAddress::V6(a)),
            None => None,
        },
    }
}

/// `s` without the plus sign that it may start with.
pub open spec fn after_sign(s: Seq<u8>) -> Seq<u8> {
    if s.len() > 0 && s[0] == 43 {
        s.subrange(1, s.len() as int)
    } else {
        s
    }
}

/// The prefix length that `s` writes: decimal digits, at least one, after an
/// optional plus sign, with a value of at most 255.
pub open spec fn prefix_of(s: Seq<u8>) -> Option<u8> {
    let digits = after_sign(s);
    if digits.len() > 0 && all_digits(digits) && digits_value(digits) <= 255 {
        Some(digits_value(digits) as u8)
    } else {
        None
    }
}

/// The address with prefix length that `s` writes: an address, a slash, and a
/// prefix length that the address has room for. The first slash divides.
pub open spec fn cidr_of(s: Seq<u8>) -> Option<Cidr> {
    let slash = find(s, 47, 0);
    if slash >= s.len() {
        None
    } else {
        match (ip_of(s.subrange(0, slash)), prefix_of(s.subrange(slash + 1, s.len() as int))) {
            (Some(ip), Some(prefix)) => if prefix <= ip.bits() {
                Some(Cidr { ip, prefix })
            } else {
                None
            },
            _ => None,
        }
    }
}

/// The end of a digit run lies between its start and the end of the text.
pub proof fn lemma_digit_run_bounds(s: Seq<u8>, i: int)
    requires
        0 <= i <= s.len(),
    ensures
        i <= digit_run(s, i) <= s.len(),
        forall|k: int| i <= k < digit_run(s, i) ==> is_digit(#[trigger] s[k]),
        digit_run(s, i) < s.len() ==> !is_digit(s[digit_run(s, i)]),
    decreases s.len() - i,
{
    if i < s.len() && is_digit(s[i]) {
        lemma_digit_run_bounds(s, i + 1);
    }
}

/// The end of a run of hexadecimal digits lies between its start and the end
/// of the text.
pub proof fn lemma_hex_run_bounds(s: Seq<u8>, i: int)
    requires
        0 <= i <= s.len(),
    ensures
        i <= hex_run(s, i) <= s.len(),
    decreases s.len() - i,
{
    if i < s.len() && is_hex(s[i]) {
        lemma_hex_run_bounds(s, i + 1);
    }
}

/// More digits never write a smaller number.
pub proof fn lemma_digits_value_grows(s: Seq<u8>, k: int)
    requires
        all_digits(s),
        0 <= k <= s.len(),
    ensures
        digits_value(s.subrange(0, k)) <= digits_value(s),
    decreases s.len() - k,
{
    if k == s.len() {
        assert(s.subrange(0, k) =~= s);
    } else {
        lemma_digits_value_grows(s, k + 1);
        let longer = s.subrange(0, k + 1);
        assert(longer.drop_last() =~= s.subrange(0, k));
        assert(is_digit(s[k]));
    }
}

/// Reads the octet written at `i`.
fn read_octet(s: &[u8], i: usize) -> (r: Option<(u8, usize)>)
    requires
        i <= s@.len(),
    ensures
        match r {
            Some((value, end)) => octet_at(s@, i as int) == Some((value, end as int)),
            None => octet_at(s@, i as int) is None,
        },
{
    let n: usize = s.len();
    let mut end: usize = i;
    let mut value: u32 = 0;
    proof {
        lemma_digit_run_bounds(s@, i as int);
        assert(s@.subrange(i as int, i as int) =~= Seq::<u8>::empty());
    }
    while end < n && s[end] >= 48 && s[end] <= 57
        invariant
            n == s@.len(),
            i <= end <= n,
            end - i <= 3,
            digit_run(s@, end as int) == digit_run(s@, i as int),
            value == digits_value(s@.subrange(i as int, end as int)),
            end - i == 0 ==> value == 0,
            end - i == 1 ==> value <= 9,
            end - i == 2 ==> value <= 99,
            value <= 999,
        decreases n - end,
    {
        if end - i == 3 {
            proof {
                lemma_digit_run_bounds(s@, end as int + 1);
            }
            return None;
        }
        let digit: u32 = (s[end] - 48) as u32;
        proof {
            let longer = s@.subrange(i as int, end as int + 1);
            assert(longer.drop_last() =~= s@.subrange(i as int, end as int));
            assert(longer.last() == s@[end as int]);
        }
        value = value * 10 + digit;
        end = end + 1;
    }
    if end == i {
        return None;
    }
    if end - i > 1 && s[i] == 48 {
        return None;
    }
    if value > 255 {
        return None;
    }
    Some((value as u8, end))
}

/// Reads the octet written at `i` and the dot behind it.
fn read_dotted(s: &[u8], i: usize) -> (r: Option<(u8, usize)>)
    requires
        i <= s@.len(),
    ensures
        match r {
            Some((value, next)) => dotted_at(s@, i as int) == Some((value, next as int))
                && next <= s@.len(),
            None => dotted_at(s@, i as int) is None,
        },
{
    match read_octet(s, i) {
        Some((value, end)) => {
            if end < s.len() && s[end] == 46 {
                Some((value, end + 1))
            } else {
                None
            }
        },
        None => None,
    }
}

/// Reads the dotted quad written at `i`.
fn read_ipv4(s: &[u8], i: usize) -> (r: Option<([u8; 4], usize)>)
    requires
        i <= s@.len(),
    ensures
        match r {
            Some((address, end)) => ipv4_at(s@, i as int) == Some((address, end as int))
                && end <= s@.len(),
            None => ipv4_at(s@, i as int) is None,
        },
{
    let (a, i1) = match read_dotted(s, i) {
        Some(found) => found,
        None => {
            return None;
        },
    };
    let (b, i2) = match read_dotted(s, i1) {
        Some(found) => found,
        None => {
            return None;
        },
    };
    let (c, i3) = match read_dotted(s, i2) {
        Some(found) => found,
        None => {
            return None;
        },
    };
    let (d, end) = match read_octet(s, i3) {
        Some(found) => found,
        None => {
            return None;
        },
    };
    Some(([a, b, c, d], end))
}

/// Reads an IPv4 address in dotted decimal form.
pub fn parse_ipv4(s: &[u8]) -> (r: Option<[u8; 4]>)
    ensures
        r == ipv4_of(s@),
{
    match read_ipv4(s, 0) {
        Some((address, end)) => {
            if end == s.len() {
                Some(address)
            } else {
                None
            }
        },
        None => None,
    }
}

/// The value of a hexadecimal digit, if the byte is one.
fn hex_digit_of(b: u8) -> (r: Option<u32>)
    ensures
        match r {
            Some(v) => is_hex(b) && v == hex_digit(b) && v < 16,
            None => !is_hex(b),
        },
{
    if b >= 48 && b <= 57 {
        Some((b - 48) as u32)
    } else if b >= 97 && b <= 102 {
        Some((b - 87) as u32)
    } else if b >= 65 && b <= 70 {
        Some((b - 55) as u32)
    } else {
        None
    }
}

/// Reads the 16-bit group written at `i`.
fn read_group(s: &[u8], i: usize) -> (r: Option<(u16, usize)>)
    requires
        i <= s@.len(),
    ensures
        match r {
            Some((value, end)) => group_at(s@, i as int) == Some((value, end as int))
                && end <= s@.len(),
            None => group_at(s@, i as int) is None,
        },
{
    let n: usize = s.len();
    let mut end: usize = i;
    let mut value: u32 = 0;
    proof {
        assert(s@.subrange(i as int, i as int) =~= Seq::<u8>::empty());
    }
    loop
        invariant
            n == s@.len(),
            i <= end <= n,
            end - i <= 4,
            hex_run(s@, end as int) == hex_run(s@, i as int),
            value == hex_value(s@.subrange(i as int, end as int)),
            end - i == 0 ==> value == 0,
            end - i == 1 ==> value <= 0xF,
            end - i == 2 ==> value <= 0xFF,
            end - i == 3 ==> value <= 0xFFF,
            value <= 0xFFFF,
        ensures
            i <= end <= n,
            end - i <= 4,
            end as int == hex_run(s@, i as int),
            value == hex_value(s@.subrange(i as int, end as int)),
            value <= 0xFFFF,
        decreases n - end,
    {
        if end == n {
            break ;
        }
        let digit: u32 = match hex_digit_of(s[end]) {
            Some(v) => v,
            None => {
                break ;
            },
        };
        if end - i == 4 {
            proof {
                lemma_hex_run_bounds(s@, end as int + 1);
            }
            return None;
        }
        proof {
            let longer = s@.subrange(i as int, end as int + 1);
            assert(longer.drop_last() =~= s@.subrange(i as int, end as int));
            assert(longer.last() == s@[end as int]);
        }
        value = value * 16 + digit;
        end = end + 1;
    }
    if end == i {
        return None;
    }
    Some((value as u16, end))
}

/// Reads the run of groups that starts at `i` and appends the groups to `out`.
fn read_groups(s: &[u8], i: usize, count: usize, limit: usize, out: &mut Vec<u16>) -> (r: (
    usize,
    bool,
))
    requires
        i <= s@.len(),
        count <= limit <= 8,
    ensures
        final(out)@ == old(out)@ + groups_at(s@, i as int, count as nat, limit as nat).groups,
        r.0 == groups_at(s@, i as int, count as nat, limit as nat).end,
        r.1 == groups_at(s@, i as int, count as nat, limit as nat).quad,
        r.0 <= s@.len(),
        groups_at(s@, i as int, count as nat, limit as nat).groups.len() <= limit - count,
    decreases limit - count,
{
    assert(old(out)@ + Seq::<u16>::empty() =~= old(out)@);
    if count >= limit {
        return (i, false);
    }
    if count > 0 && !(i < s.len() && s[i] == 58) {
        return (i, false);
    }
    let start: usize = if count > 0 {
        i + 1
    } else {
        i
    };
    if count + 1 < limit {
        match read_ipv4(s, start) {
            Some((quad, end)) => {
                let high: u16 = quad[0] as u16 * 256 + quad[1] as u16;
                let low: u16 = quad[2] as u16 * 256 + quad[3] as u16;
                out.push(high);
                out.push(low);
                assert(final(out)@ =~= old(out)@ + quad_groups(quad));
                return (end, true);
            },
            None => {},
        }
    }
    match read_group(s, start) {
        Some((group, end)) => {
            out.push(group);
            let r = read_groups(s, end, count + 1, limit, out);
            proof {
                let rest = groups_at(s@, end as int, (count + 1) as nat, limit as nat);
                assert(out@ =~= old(out)@ + (seq![group] + rest.groups));
            }
            r
        },
        None => (i, false),
    }
}

/// The sixteen octets of eight groups.
fn octets_of_groups(g: &Vec<u16>) -> (r: [u8; 16])
    requires
        g@.len() == 8,
    ensures
        r == group_octets(g@),
{
    [
        (g[0] / 256) as u8,
        (g[0] % 256) as u8,
        (g[1] / 256) as u8,
        (g[1] % 256) as u8,
        (g[2] / 256) as u8,
        (g[2] % 256) as u8,
        (g[3] / 256) as u8,
        (g[3] % 256) as u8,
        (g[4] / 256) as u8,
        (g[4] % 256) as u8,
        (g[5] / 256) as u8,
        (g[5] % 256) as u8,
        (g[6] / 256) as u8,
        (g[6] % 256) as u8,
        (g[7] / 256) as u8,
        (g[7] % 256) as u8,
    ]
}

/// Reads an IPv6 address.
pub fn parse_ipv6(s: &[u8]) -> (r: Option<[u8; 16]>)
    ensures
        r == ipv6_of(s@),
{
    let n: usize = s.len();
    let mut groups: Vec<u16> = Vec::new();
    let (end, quad) = read_groups(s, 0, 0, 8, &mut groups);
    assert(groups@ =~= groups_at(s@, 0, 0, 8).groups);
    if groups.len() == 8 {
        if end == n {
            return Some(octets_of_groups(&groups));
        }
        return None;
    }
    if quad || n - end < 2 || s[end] != 58 || s[end + 1] != 58 {
        return None;
    }
    let ghost head = groups@;
    let mut tail: Vec<u16> = Vec::new();
    let (tail_end, _) = read_groups(s, end + 2, 0, 7 - groups.len(), &mut tail);
    assert(tail@ =~= groups_at(s@, end + 2, 0, (7 - head.len()) as nat).groups);
    if tail_end != n {
        return None;
    }
    let gap: usize = 8 - groups.len() - tail.len();
    let mut k: usize = 0;
    while k < gap
        invariant
            k <= gap,
            gap == 8 - head.len() - tail@.len(),
            groups@ == head + Seq::new(k as nat, |j: int| 0u16),
        decreases gap - k,
    {
        groups.push(0u16);
        k = k + 1;
        assert(groups@ =~= head + Seq::new(k as nat, |j: int| 0u16));
    }
    let mut t: usize = 0;
    while t < tail.len()
        invariant
            t <= tail@.len(),
            gap == 8 - head.len() - tail@.len(),
            groups@ == head + Seq::new(gap as nat, |j: int| 0u16) + tail@.subrange(0, t as int),
        decreases tail@.len() - t,
    {
        groups.push(tail[t]);
        t = t + 1;
        assert(groups@ =~= head + Seq::new(gap as nat, |j: int| 0u16) + tail@.subrange(
            0,
            t as int,
        ));
    }
    assert(tail@.subrange(0, t as int) =~= tail@);
    assert(groups@ =~= with_gap(head, tail@));
    Some(octets_of_groups(&groups))
}

/// Reads an IP address.
pub fn parse_ip(s: &[u8]) -> (r: Option<IpAddress>)
    ensures
        r == ip_of(s@),
{
    match parse_ipv4(s) {
        Some(a) => Some(IpAddress::V4(a)),
        None => match parse_ipv6(s) {
            Some(a) => Some(IpAddress::V6(a)),
            None => None,
        },
    }
}

/// Reads a prefix length.
pub fn parse_prefix(s: &[u8]) -> (r: Option<u8>)
    ensures
        r == prefix_of(s@),
{
    let n: usize = s.len();
    let start: usize = if n > 0 && s[0] == 43 {
        1
    } else {
        0
    };
    let ghost digits = s@.subrange(start as int, n as int);
    assert(digits =~= after_sign(s@));
    if start == n {
        return None;
    }
    let mut i: usize = start;
    let mut value: u32 = 0;
    assert(digits.subrange(0, 0) =~= Seq::<u8>::empty());
    while i < n
        invariant
            n == s@.len(),
            start <= i <= n,
            digits == s@.subrange(start as int, n as int),
            digits == after_sign(s@),
            all_digits(digits.subrange(0, i - start)),
            value == digits_value(digits.subrange(0, i - start)),
            value <= 255,
        decreases n - i,
    {
        let byte: u8 = s[i];
        if byte < 48 || byte > 57 {
            assert(digits[i - start] == byte);
            assert(!all_digits(digits));
            assert(prefix_of(s@) is None);
            return None;
        }
        let digit: u32 = (byte - 48) as u32;
        let ghost longer = digits.subrange(0, i - start + 1);
        proof {
            assert(longer.drop_last() =~= digits.subrange(0, i - start));
            assert(longer.last() == byte);
            assert(all_digits(longer)) by {
                assert forall|k: int| 0 <= k < longer.len() implies is_digit(
                    #[trigger] longer[k],
                ) by {
                    if k < i - start {
                        assert(longer[k] == digits.subrange(0, i - start)[k]);
                    }
                }
            }
        }
        value = value * 10 + digit;
        i = i + 1;
        assert(value == digits_value(longer));
        if value > 255 {
            proof {
                if all_digits(digits) {
                    lemma_digits_value_grows(digits, i - start);
                }
                assert(prefix_of(s@) is None);
            }
            return None;
        }
    }
    assert(digits.subrange(0, i - start) =~= digits);
    Some(value as u8)
}

/// Finds the first slash.
fn find_slash(s: &[u8]) -> (at: usize)
    ensures
        at == find(s@, 47, 0),
        at <= s@.len(),
{
    let mut i: usize = 0;
    while i < s.len() && s[i] != 47
        invariant
            i <= s@.len(),
            find(s@, 47, i as int) == find(s@, 47, 0),
        decreases s@.len() - i,
    {
        i = i + 1;
    }
    i
}

/// Reads an address with its prefix length from bytes of the form `ip/prefix`.
pub fn parse_cidr(s: &[u8]) -> (r: Option<Cidr>)
    ensures
        r == cidr_of(s@),
        r matches Some(c) ==> c.wf(),
{
    let slash: usize = find_slash(s);
    if slash >= s.len() {
        return None;
    }
    let ip = parse_ip(slice_subrange(s, 0, slash));
    let prefix = parse_prefix(slice_subrange(s, slash + 1, s.len()));
    match (ip, prefix) {
        (Some(ip), Some(prefix)) => {
            if prefix <= ip.bit_len() {
                Some(Cidr { ip, prefix })
            } else {
                None
            }
        },
        _ => None,
    }
}

/// What the text of an address comes to: the address and prefix length it
/// writes, or `InvalidAddress` where it writes none.
pub open spec fn address_of(text: Seq<char>) -> Result<Cidr, WgError> {
    match cidr_of(vstd::utf8::encode_utf8(text)) {
        Some(cidr) => Ok(cidr),
        None => Err(WgError::InvalidAddress),
    }
}

/// Reads an address of the form `ip/prefix`, as in `10.13.37.1/24`. A text
/// without a slash, with anything but an IP address before the first slash, or
/// with anything but a prefix length that the address has room for behind it,
/// is refused as `InvalidAddress`.
pub fn parse_address(text: &str) -> (r: Result<Cidr, WgError>)
    ensures
        r == address_of(text@),
        r matches Ok(c) ==> c.wf(),
{
    match parse_cidr(text.as_bytes()) {
        Some(cidr) => Ok(cidr),
        None => Err(WgError::InvalidAddress),
    }
}

} // verus!
