//! Internet addresses and the text that stands for them.
//!
//! An IPv4 address is written as four decimal numbers with dots between them.
//! An IPv6 address is written as eight hexadecimal groups with colons between
//! them, where the leftmost longest run of two or more zero groups shrinks to
//! `::`; an address that carries an IPv4 address behind the `::ffff:` prefix
//! shows that address in dotted form.

use vstd::prelude::*;
use vstd::string::*;
use crate::text::{append_decimal, append_hex, decimal_text, hex_text, join};

verus! {

/// An IPv4 or IPv6 address: the four octets of the one, the eight 16-bit
/// groups of the other, most significant first.
#[derive(Clone, Copy, Debug, PartialEq, Eq)]
pub enum IpAddress {
    V4([u8; 4]),
    V6([u16; 8]),
}

/// Four octets in dotted decimal notation.
pub open spec fn dotted_quad(a: u8, b: u8, c: u8, d: u8) -> Seq<char> {
    decimal_text(a as nat) + "."@ + decimal_text(b as nat) + "."@ + decimal_text(c as nat) + "."@
        + decimal_text(d as nat)
}

/// The text of an IPv4 address.
pub open spec fn ipv4_text(octets: Seq<u8>) -> Seq<char>
    recommends
        octets.len() == 4,
{
    dotted_quad(octets[0], octets[1], octets[2], octets[3])
}

/// The groups from `start` on, `len` of them, lie within `groups` and are all
/// zero.
pub open spec fn is_zero_run(groups: Seq<u16>, start: int, len: int) -> bool {
    &&& 0 <= start
    &&& 0 <= len
    &&& start + len <= groups.len()
    &&& forall|i: int| start <= i < start + len ==> groups[i] == 0
}

/// The run of zero groups that `::` stands for: two groups or more, as long as
/// any run of zeros in the address, and the leftmost of that length.
pub open spec fn is_elided_run(groups: Seq<u16>, start: int, len: int) -> bool {
    &&& len >= 2
    &&& is_zero_run(groups, start, len)
    &&& forall|s: int, l: int| #[trigger] is_zero_run(groups, s, l) ==> l <= len
    &&& forall|s: int| #[trigger] is_zero_run(groups, s, len) ==> start <= s
}

/// Some run of zero groups is long enough to be written as `::`.
pub open spec fn has_elided_run(groups: Seq<u16>) -> bool {
    exists|start: int, len: int| is_elided_run(groups, start, len)
}

/// Where the run that `::` stands for starts, and how long it is.
pub open spec fn elided_run(groups: Seq<u16>) -> (int, int)
    recommends
        has_elided_run(groups),
{
    choose|run: (int, int)| is_elided_run(groups, run.0, run.1)
}

/// Hexadecimal groups with colons between them.
pub open spec fn groups_text(groups: Seq<u16>) -> Seq<char> {
    join(groups.map_values(|group: u16| hex_text(group as nat)), ":"@)
}

/// The address carries an IPv4 address: five zero groups, then `ffff`.
pub open spec fn is_ipv4_mapped(groups: Seq<u16>) -> bool {
    &&& groups.len() == 8
    &&& is_zero_run(groups, 0, 5)
    &&& groups[5] == 0xffff
}

/// The text of an IPv6 address.
pub open spec fn ipv6_text(groups: Seq<u16>) -> Seq<char>
    recommends
        groups.len() == 8,
{
    if is_ipv4_mapped(groups) {
        "::ffff:"@ + dotted_quad(
            (groups[6] / 256) as u8,
            (groups[6] % 256) as u8,
            (groups[7] / 256) as u8,
            (groups[7] % 256) as u8,
        )
    } else if has_elided_run(groups) {
        let (start, len) = elided_run(groups);
        groups_text(groups.subrange(0, start)) + "::"@ + groups_text(
            groups.subrange(start + len, groups.len() as int),
        )
    } else {
        groups_text(groups)
    }
}

impl IpAddress {
    /// The address belongs to the IPv6 family.
    pub open spec fn is_v6(self) -> bool {
        self is V6
    }

    /// The address is the "any address" of its family: all zero.
    pub open spec fn is_unspecified(self) -> bool {
        match self {
            IpAddress::V4(octets) => octets@ == seq![0u8, 0u8, 0u8, 0u8],
            IpAddress::V6(groups) => is_zero_run(groups@, 0, 8),
        }
    }

    /// The address as text.
    pub open spec fn text(self) -> Seq<char> {
        match self {
            IpAddress::V4(octets) => ipv4_text(octets@),
            IpAddress::V6(groups) => ipv6_text(groups@),
        }
    }

    /// Writes the address out as text.
    pub fn to_string(&self) -> (text: String)
        ensures
            text@ == self.text(),
    {
        let mut out = String::new();
        match self {
            IpAddress::V4(octets) => {
                append_dotted_quad(&mut out, octets[0], octets[1], octets[2], octets[3]);
            },
            IpAddress::V6(groups) => {
                append_ipv6(&mut out, groups);
            },
        }
        assert(out@ =~= self.text());
        out
    }
}

/// An address has at most one run that `::` stands for.
pub proof fn lemma_elided_run_unique(groups: Seq<u16>, start: int, len: int)
    requires
        is_elided_run(groups, start, len),
    ensures
        has_elided_run(groups),
        elided_run(groups) == (start, len),
{
    let found = elided_run(groups);
    assert(is_elided_run(groups, found.0, found.1)) by {
        let witness = (start, len);
        assert(is_elided_run(groups, witness.0, witness.1));
    }
    assert(is_zero_run(groups, start, len));
    assert(is_zero_run(groups, found.0, found.1));
    assert(found.1 == len);
    assert(found.0 == start);
}

/// The text of an address is never empty, so an address that a record shows
/// cannot be taken for one that it leaves out.
pub proof fn lemma_text_is_not_empty(addr: IpAddress)
    ensures
        addr.text().len() > 0,
        normalized(addr) matches Some(text) ==> text.len() > 0,
{
    reveal_strlit(".");
    reveal_strlit(":");
    reveal_strlit("::");
    reveal_strlit("::ffff:");
    match addr {
        IpAddress::V4(octets) => {},
        IpAddress::V6(groups) => {
            let parts = groups@.map_values(|group: u16| hex_text(group as nat));
            assert(parts.len() == 8);
            assert(groups_text(groups@) == join(parts.drop_last(), ":"@) + ":"@ + parts.last());
        },
    }
}

/// Text joined from one more piece is the text joined so far, the separator
/// unless nothing came before, and the piece.
proof fn lemma_groups_text_push(groups: Seq<u16>, from: int, to: int)
    requires
        0 <= from <= to < groups.len(),
    ensures
        groups_text(groups.subrange(from, to + 1)) == if from == to {
            hex_text(groups[to] as nat)
        } else {
            groups_text(groups.subrange(from, to)) + ":"@ + hex_text(groups[to] as nat)
        },
{
    let render = |group: u16| hex_text(group as nat);
    let longer = groups.subrange(from, to + 1);
    assert(longer.map_values(render).last() == hex_text(groups[to] as nat));
    assert(longer.map_values(render).drop_last() =~= groups.subrange(from, to).map_values(render));
}

/// Writes four octets in dotted decimal notation at the end of `out`.
fn append_dotted_quad(out: &mut String, a: u8, b: u8, c: u8, d: u8)
    ensures
        final(out)@ == old(out)@ + dotted_quad(a, b, c, d),
{
    append_decimal(out, a as u32);
    out.append(".");
    append_decimal(out, b as u32);
    out.append(".");
    append_decimal(out, c as u32);
    out.append(".");
    append_decimal(out, d as u32);
    assert(out@ =~= old(out)@ + dotted_quad(a, b, c, d));
}

/// Writes the groups from `from` up to `to`, with colons between them, at the
/// end of `out`.
fn append_groups(out: &mut String, groups: &[u16; 8], from: usize, to: usize)
    requires
        from <= to <= 8,
    ensures
        final(out)@ == old(out)@ + groups_text(groups@.subrange(from as int, to as int)),
{
    let ghost before = out@;
    let mut i: usize = from;
    assert(groups@.subrange(from as int, from as int).map_values(
        |group: u16| hex_text(group as nat),
    ).len() == 0);
    assert(out@ =~= before + groups_text(groups@.subrange(from as int, from as int)));
    while i < to
        invariant
            from <= i <= to <= 8,
            out@ == before + groups_text(groups@.subrange(from as int, i as int)),
        decreases to - i,
    {
        if i > from {
            out.append(":");
        }
        append_hex(out, groups[i]);
        proof {
            lemma_groups_text_push(groups@, from as int, i as int);
            assert(out@ =~= before + groups_text(groups@.subrange(from as int, i + 1)));
        }
        i += 1;
    }
}

/// Looks for the run of zero groups that `::` stands for.
fn find_elided_run(groups: &[u16; 8]) -> (run: Option<(usize, usize)>)
    ensures
        match run {
            Some((start, len)) => is_elided_run(groups@, start as int, len as int),
            None => !has_elided_run(groups@),
        },
{
    let mut best_start: usize = 0;
    let mut best_len: usize = 0;
    let mut run_len: usize = 0;
    let mut i: usize = 0;
    while i < 8
        invariant
            i <= 8,
            run_len <= i,
            is_zero_run(groups@, i - run_len, run_len as int),
            run_len < i ==> groups@[i - run_len - 1] != 0,
            best_start + best_len <= i,
            is_zero_run(groups@, best_start as int, best_len as int),
            forall|s: int, l: int| #[trigger] is_zero_run(groups@, s, l) && s + l <= i ==> l <= best_len,
            forall|s: int|
                #[trigger] is_zero_run(groups@, s, best_len as int) && s + best_len <= i && best_len
                    > 0 ==> best_start <= s,
        decreases 8 - i,
    {
        if groups[i] == 0 {
            run_len += 1;
            if run_len > best_len {
                best_start = i + 1 - run_len;
                best_len = run_len;
            }
        } else {
            run_len = 0;
        }
        i += 1;
    }
    if best_len >= 2 {
        Some((best_start, best_len))
    } else {
        None
    }
}

/// Writes an IPv6 address at the end of `out`.
fn append_ipv6(out: &mut String, groups: &[u16; 8])
    ensures
        final(out)@ == old(out)@ + ipv6_text(groups@),
{
    if groups[0] == 0 && groups[1] == 0 && groups[2] == 0 && groups[3] == 0 && groups[4] == 0
        && groups[5] == 0xffff {
        out.append("::ffff:");
        append_dotted_quad(
            out,
            (groups[6] / 256) as u8,
            (groups[6] % 256) as u8,
            (groups[7] / 256) as u8,
            (groups[7] % 256) as u8,
        );
        assert(is_ipv4_mapped(groups@));
        assert(out@ =~= old(out)@ + ipv6_text(groups@));
    } else {
        assert(!is_ipv4_mapped(groups@));
        match find_elided_run(groups) {
            Some((start, len)) => {
                proof {
                    lemma_elided_run_unique(groups@, start as int, len as int);
                }
                append_groups(out, groups, 0, start);
                out.append("::");
                append_groups(out, groups, start + len, 8);
                assert(out@ =~= old(out)@ + ipv6_text(groups@));
            },
            None => {
                append_groups(out, groups, 0, 8);
                assert(groups@.subrange(0, 8) =~= groups@);
            },
        }
    }
}

/// Says whether an address is the wildcard of its family.
pub fn is_wildcard(addr: &IpAddress) -> (wildcard: bool)
    ensures
        wildcard == addr.is_unspecified(),
{
    match addr {
        IpAddress::V4(octets) => {
            let wildcard = octets[0] == 0 && octets[1] == 0 && octets[2] == 0 && octets[3] == 0;
            assert(wildcard == (octets@ =~= seq![0u8, 0u8, 0u8, 0u8]));
            wildcard
        },
        IpAddress::V6(groups) => {
            groups[0] == 0 && groups[1] == 0 && groups[2] == 0 && groups[3] == 0 && groups[4] == 0
                && groups[5] == 0 && groups[6] == 0 && groups[7] == 0
        },
    }
}

/// Says whether an address belongs to the IPv6 family.
pub fn is_ipv6(addr: &IpAddress) -> (v6: bool)
    ensures
        v6 == addr.is_v6(),
{
    match addr {
        IpAddress::V4(_) => false,
        IpAddress::V6(_) => true,
    }
}

/// What a record shows for an address: nothing for the wildcard, the text of
/// any other address.
pub open spec fn normalized(addr: IpAddress) -> Option<Seq<char>> {
    if addr.is_unspecified() {
        None
    } else {
        Some(addr.text())
    }
}

/// Turns an address into what a record shows for it.
pub fn normalize_address(addr: &IpAddress) -> (shown: Option<String>)
    ensures
        shown.deep_view() == normalized(*addr),
{
    if is_wildcard(addr) {
        None
    } else {
        Some(addr.to_string())
    }
}

} // verus!
