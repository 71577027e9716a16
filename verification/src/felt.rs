//! Field elements by their big-endian bytes, and the hexadecimal text that
//! `starknet_crypto::FieldElement` prints for them.
use vstd::prelude::*;

verus! {

/// A field element, by its 32 bytes in big-endian order.
#[derive(Clone, Copy, Debug, PartialEq, Eq)]
pub struct Felt {
    pub bytes: [u8; 32],
}

/// Nibble `i` (of 64, most significant first) of a 32-byte big-endian value.
pub open spec fn nibble(bytes: Seq<u8>, i: int) -> u8 {
    if i % 2 == 0 {
        (bytes[i / 2] / 16) as u8
    } else {
        (bytes[i / 2] % 16) as u8
    }
}

/// The lower-case hexadecimal digit of a nibble.
pub open spec fn hex_char(n: u8) -> char {
    if n < 10 {
        (n + 48) as char
    } else {
        (n + 87) as char
    }
}

/// The first nibble, from `i` on, that the text shows: the first one that is
/// not zero, or that leaves no more than `width` digits, or the last one.
pub open spec fn first_shown(bytes: Seq<u8>, width: nat, i: int) -> int
    decreases 64 - i,
{
    if i >= 63 || nibble(bytes, i) != 0 || 64 - i <= width {
        i
    } else {
        first_shown(bytes, width, i + 1)
    }
}

/// The text of `{:#x}` (width 1) and `{:#064x}` (width 64) for a field
/// element: `0x`, then its nibbles from the first that is not zero, or from
/// where `width` digits remain if that comes first, and at least one digit.
pub open spec fn lower_hex(bytes: Seq<u8>, width: nat) -> Seq<char> {
    let s = first_shown(bytes, width, 0);
    seq!['0', 'x'] + Seq::new((64 - s) as nat, |k: int| hex_char(nibble(bytes, s + k)))
}

/// `first_shown` from `i` on, where none of the nibbles before `j` is shown.
proof fn lemma_first_shown_skips(bytes: Seq<u8>, width: nat, i: int, j: int)
    requires
        0 <= i <= j <= 63,
        forall|k: int| i <= k < j ==> #[trigger] nibble(bytes, k) == 0 && 64 - k > width,
    ensures
        first_shown(bytes, width, i) == first_shown(bytes, width, j),
    decreases j - i,
{
    if i < j {
        assert(i <= i < j);
        assert(nibble(bytes, i) == 0);
        assert(64 - i > width);
        lemma_first_shown_skips(bytes, width, i + 1, j);
    }
}

/// What `first_shown` picks: no nibble before it is shown, and it lies within
/// the value's 64 nibbles.
pub proof fn lemma_first_shown_bounds(bytes: Seq<u8>, width: nat, i: int)
    requires
        0 <= i <= 63,
    ensures
        i <= first_shown(bytes, width, i) <= 63,
        forall|k: int| i <= k < first_shown(bytes, width, i) ==> #[trigger] nibble(bytes, k) == 0 && 64 - k > width,
        first_shown(bytes, width, i) == 63 || nibble(bytes, first_shown(bytes, width, i)) != 0
            || 64 - first_shown(bytes, width, i) <= width,
    decreases 63 - i,
{
    if i < 63 && nibble(bytes, i) == 0 && 64 - i > width {
        lemma_first_shown_bounds(bytes, width, i + 1);
    }
}

/// `{:#064x}` shows every nibble: the text is `0x` and 64 digits.
pub proof fn lemma_padded_hex_shows_every_nibble(bytes: Seq<u8>)
    ensures
        lower_hex(bytes, 64) == seq!['0', 'x'] + Seq::new(64, |k: int| hex_char(nibble(bytes, k))),
        lower_hex(bytes, 64).len() == 66,
{
    assert(first_shown(bytes, 64, 0) == 0);
    assert(lower_hex(bytes, 64) =~= seq!['0', 'x'] + Seq::new(64, |k: int| hex_char(nibble(bytes, k))));
}

/// `{:#064x}` is `{:#x}` with the leading zeros put back.
pub proof fn lemma_padded_hex_is_short_hex_with_zeros(bytes: Seq<u8>)
    ensures
        lower_hex(bytes, 64) == seq!['0', 'x'] + Seq::new(first_shown(bytes, 1, 0) as nat, |k: int| '0')
            + lower_hex(bytes, 1).subrange(2, lower_hex(bytes, 1).len() as int),
{
    let s = first_shown(bytes, 1, 0);
    lemma_first_shown_bounds(bytes, 1, 0);
    lemma_padded_hex_shows_every_nibble(bytes);
    let lhs = lower_hex(bytes, 64);
    let rhs = seq!['0', 'x'] + Seq::new(s as nat, |k: int| '0')
        + lower_hex(bytes, 1).subrange(2, lower_hex(bytes, 1).len() as int);
    assert forall|k: int| 0 <= k < lhs.len() implies lhs[k] == rhs[k] by {
        if 2 <= k < s + 2 {
            assert(nibble(bytes, k - 2) == 0);
        }
    }
    assert(lhs =~= rhs);
}

/// `{:#x}` of zero is `0x0`.
pub proof fn lemma_short_hex_of_zero(bytes: Seq<u8>)
    requires
        bytes.len() == 32,
        forall|i: int| 0 <= i < 32 ==> bytes[i] == 0,
    ensures
        lower_hex(bytes, 1) == seq!['0', 'x', '0'],
{
    lemma_first_shown_bounds(bytes, 1, 0);
    let s = first_shown(bytes, 1, 0);
    assert(nibble(bytes, s) == 0);
    assert(s == 63);
    assert(lower_hex(bytes, 1) =~= seq!['0', 'x', '0']);
}

/// `{:#x}` has no leading zero: its first digit is `0` only where it is the
/// only digit.
pub proof fn lemma_short_hex_has_no_leading_zero(bytes: Seq<u8>)
    requires
        bytes.len() == 32,
    ensures
        lower_hex(bytes, 1).len() > 3 ==> lower_hex(bytes, 1)[2] != '0',
{
    lemma_first_shown_bounds(bytes, 1, 0);
    let s = first_shown(bytes, 1, 0);
    if s < 63 {
        assert(nibble(bytes, s) != 0);
        assert(nibble(bytes, s) < 16);
    }
}

fn nibble_at(bytes: &[u8; 32], i: usize) -> (r: u8)
    requires
        i < 64,
    ensures
        r == nibble(bytes@, i as int),
        r < 16,
{
    let b = bytes[i / 2];
    if i % 2 == 0 {
        b / 16
    } else {
        b % 16
    }
}

fn hex_digit(n: u8) -> (r: &'static str)
    requires
        n < 16,
    ensures
        r@ == seq![hex_char(n)],
{
    let digits = "0123456789abcdef";
    proof {
        reveal_strlit("0123456789abcdef");
        let ghost table = seq!['0', '1', '2', '3', '4', '5', '6', '7', '8', '9', 'a', 'b', 'c', 'd', 'e', 'f'];
        assert(digits@ =~= table);
        assert(forall|k: u8| k < 16 ==> #[trigger] table[k as int] == hex_char(k));
    }
    let r = digits.substring_char(n as usize, n as usize + 1);
    assert(r@ =~= seq![hex_char(n)]);
    r
}

fn lower_hex_text(bytes: &[u8; 32], width: usize) -> (r: String)
    requires
        1 <= width <= 64,
    ensures
        r@ == lower_hex(bytes@, width as nat),
{
    let ghost b = bytes@;
    let ghost s = first_shown(b, width as nat, 0);
    proof {
        lemma_first_shown_bounds(b, width as nat, 0);
    }
    let mut start: usize = 0;
    while start < 63 && nibble_at(bytes, start) == 0 && 64 - start > width
        invariant
            start <= s,
            s == first_shown(b, width as nat, 0),
            0 <= s <= 63,
            b == bytes@,
            1 <= width <= 64,
            forall|k: int| 0 <= k < s ==> #[trigger] nibble(b, k) == 0 && 64 - k > width,
            s == 63 || nibble(b, s) != 0 || 64 - s <= width,
        decreases 63 - start,
    {
        start = start + 1;
    }
    proof {
        lemma_first_shown_skips(b, width as nat, 0, start as int);
    }
    assert(start == s);
    let mut text = String::from_str("0x");
    proof {
        reveal_strlit("0x");
    }
    let mut i: usize = start;
    while i < 64
        invariant
            start == s,
            s <= i <= 64,
            b == bytes@,
            text@ == seq!['0', 'x'] + Seq::new((i - s) as nat, |k: int| hex_char(nibble(b, s + k))),
        decreases 64 - i,
    {
        let n = nibble_at(bytes, i);
        text.append(hex_digit(n));
        i = i + 1;
        assert(text@ =~= seq!['0', 'x'] + Seq::new((i - s) as nat, |k: int| hex_char(nibble(b, s + k))));
    }
    text
}

impl Felt {
    /// The text of `{:#x}`: `0x` and the digits without leading zeros.
    pub fn to_hex(&self) -> (r: String)
        ensures
            r@ == lower_hex(self.bytes@, 1),
    {
        lower_hex_text(&self.bytes, 1)
    }

    /// The text of `{:#064x}`: `0x` and all 64 digits.
    pub fn to_hex_padded(&self) -> (r: String)
        ensures
            r@ == lower_hex(self.bytes@, 64),
    {
        lower_hex_text(&self.bytes, 64)
    }
}

} // verus!
