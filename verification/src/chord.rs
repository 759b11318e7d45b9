//! Chord encoding: one 16-bit symbol becomes four key codes of one of two
//! disjoint alphabets of eighteen keys.

use vstd::prelude::*;

verus! {

/// Number of keys in each alphabet.
pub const ALPHABET_LEN: u16 = 18;

/// The alphabet a chord is drawn from. Consecutive chords use different
/// alphabets, so that two equal symbols in a row still change the keys held.
#[derive(Clone, Copy, Debug, PartialEq, Eq, Structural)]
pub enum Phase {
    /// Key codes `0x04..=0x15`.
    A,
    /// Key codes `0x16..=0x27`.
    B,
}

impl Phase {
    /// The other alphabet.
    pub open spec fn flipped(self) -> Phase {
        match self {
            Phase::A => Phase::B,
            Phase::B => Phase::A,
        }
    }

    /// The first key code of the alphabet.
    pub open spec fn base(self) -> int {
        match self {
            Phase::A => 0x04,
            Phase::B => 0x16,
        }
    }

    /// The alphabet in use after `n` chords have been sent, starting from `self`.
    pub open spec fn after(self, n: nat) -> Phase {
        if n % 2 == 0 {
            self
        } else {
            self.flipped()
        }
    }

    /// The other alphabet.
    pub fn flip(self) -> (r: Phase)
        ensures
            r == self.flipped(),
    {
        match self {
            Phase::A => Phase::B,
            Phase::B => Phase::A,
        }
    }

    /// The first key code of the alphabet.
    pub fn first_key(self) -> (r: u8)
        ensures
            r == self.base(),
    {
        match self {
            Phase::A => 0x04,
            Phase::B => 0x16,
        }
    }
}

/// The mixed-radix digit `k` of a symbol: radix 18, then 17, 16 and 15.
pub open spec fn digit(symbol: int, k: int) -> int {
    if k == 0 {
        symbol % 18
    } else if k == 1 {
        (symbol / 18) % 17
    } else if k == 2 {
        (symbol / 306) % 16
    } else {
        (symbol / 4896) % 15
    }
}

/// One comparison of a later slot with an earlier digit: the slot moves up by
/// one when the earlier digit is not above it.
pub open spec fn bump(slot: int, earlier: int) -> int {
    if earlier <= slot {
        slot + 1
    } else {
        slot
    }
}

/// Slot `i` after it has been compared with the digits `0..j`, in that order.
pub open spec fn bumped(symbol: int, i: int, j: int) -> int
    decreases j,
{
    if j <= 0 {
        digit(symbol, i)
    } else {
        bump(bumped(symbol, i, j - 1), digit(symbol, j - 1))
    }
}

/// The alphabet index that slot `i` of the chord of `symbol` selects.
pub open spec fn chord_index(symbol: int, i: int) -> int {
    bumped(symbol, i, i)
}

/// The four alphabet indices of a symbol, in slot order.
pub open spec fn chord_indices(symbol: int) -> Seq<int> {
    seq![
        chord_index(symbol, 0),
        chord_index(symbol, 1),
        chord_index(symbol, 2),
        chord_index(symbol, 3),
    ]
}

/// The report that carries `symbol` in alphabet `phase`: bytes 2 to 5 hold the
/// four keys, the other four bytes are zero.
pub open spec fn chord_report(symbol: u16, phase: Phase) -> Seq<u8> {
    seq![
        0u8,
        0u8,
        (phase.base() + chord_index(symbol as int, 0)) as u8,
        (phase.base() + chord_index(symbol as int, 1)) as u8,
        (phase.base() + chord_index(symbol as int, 2)) as u8,
        (phase.base() + chord_index(symbol as int, 3)) as u8,
        0u8,
        0u8,
    ]
}

/// Every slot of every symbol selects a key inside the alphabet.
pub proof fn lemma_chord_index_in_alphabet(symbol: int, i: int)
    requires
        0 <= symbol,
        0 <= i < 4,
    ensures
        0 <= chord_index(symbol, i) < 18,
        digit(symbol, i) <= chord_index(symbol, i) <= digit(symbol, i) + i,
{
    reveal_with_fuel(bumped, 5);
}

/// Computes the four alphabet indices of a symbol.
pub fn chord_slots(symbol: u16) -> (slots: [u8; 4])
    ensures
        forall|i: int| 0 <= i < 4 ==> #[trigger] slots[i] == chord_index(symbol as int, i),
        forall|i: int| 0 <= i < 4 ==> 0 <= #[trigger] slots[i] < 18,
{
    let mut keyi: [u16; 4] = [
        symbol % 18,
        (symbol / 18) % 17,
        (symbol / (18 * 17)) % 16,
        (symbol / (18 * 17 * 16)) % 15,
    ];
    let mut i: usize = 4;
    while i > 0
        invariant
            i <= 4,
            forall|k: int| 0 <= k < i ==> keyi[k] == digit(symbol as int, k),
            forall|k: int| i <= k < 4 ==> keyi[k] == chord_index(symbol as int, k),
        decreases i,
    {
        i = i - 1;
        let mut j: usize = 0;
        while j < i
            invariant
                i < 4,
                j <= i,
                forall|k: int| 0 <= k < i ==> keyi[k] == digit(symbol as int, k),
                keyi[i as int] == bumped(symbol as int, i as int, j as int),
                forall|k: int| i < k < 4 ==> keyi[k] == chord_index(symbol as int, k),
            decreases i - j,
        {
            proof {
                lemma_bumped_bounds(symbol as int, i as int, j as int);
            }
            if keyi[j] <= keyi[i] {
                keyi[i] = keyi[i] + 1;
            }
            j = j + 1;
        }
    }
    proof {
        lemma_chord_index_in_alphabet(symbol as int, 0);
        lemma_chord_index_in_alphabet(symbol as int, 1);
        lemma_chord_index_in_alphabet(symbol as int, 2);
        lemma_chord_index_in_alphabet(symbol as int, 3);
    }
    [keyi[0] as u8, keyi[1] as u8, keyi[2] as u8, keyi[3] as u8]
}

/// The four keys of the chord of `symbol` are pairwise different.
pub open spec fn keys_distinct(symbol: int) -> bool {
    forall|i: int, j: int|
        0 <= i < j < 4 ==> chord_index(symbol, i) != chord_index(symbol, j)
}

/// The third slot lands on the key of the first or second slot. With `p` and
/// `q` the first two digits less the third: one of them is exactly one above
/// it while the other is not above it.
pub open spec fn third_slot_repeats(symbol: int) -> bool {
    let p = digit(symbol, 0) - digit(symbol, 2);
    let q = digit(symbol, 1) - digit(symbol, 2);
    (p == 1 && q <= 0) || (q == 1 && p <= 0)
}

/// The fourth slot lands on the key of an earlier slot. `p`, `q` and `r` are
/// the first three digits less the fourth.
pub open spec fn fourth_slot_repeats(symbol: int) -> bool {
    let p = digit(symbol, 0) - digit(symbol, 3);
    let q = digit(symbol, 1) - digit(symbol, 3);
    let r = digit(symbol, 2) - digit(symbol, 3);
    if p <= 0 {
        (r == 1 && q != 2) || (q == 1 && r >= 3)
    } else if p == 1 {
        (q <= 0 && r >= 2) || (q >= 1 && r <= 0)
    } else if p == 2 {
        (q <= 0 && r <= 1) || (q == 1 && r <= 0)
    } else {
        (q <= 0 && r == 1) || (q == 1 && r <= 0)
    }
}

/// The symbols whose chord holds one key twice. A slot is compared with the
/// earlier digits, not with the keys those digits ended on, so a later slot
/// can be carried onto a key that is already taken: `0x0002` has the digits
/// 2, 0, 0, 0 and the indices 2, 0, 1, 2.
pub open spec fn repeats_a_key(symbol: int) -> bool {
    third_slot_repeats(symbol) || fourth_slot_repeats(symbol)
}

/// A chord holds four different keys on every symbol outside `repeats_a_key`.
pub proof fn lemma_keys_distinct(symbol: int)
    requires
        0 <= symbol <= 0xFFFF,
        !repeats_a_key(symbol),
    ensures
        keys_distinct(symbol),
{
    reveal_with_fuel(bumped, 5);
}

/// On every symbol inside `repeats_a_key` the chord does hold one key twice:
/// the set that `lemma_keys_distinct` leaves out is no larger than it must be.
pub proof fn lemma_repeated_key(symbol: int)
    requires
        0 <= symbol <= 0xFFFF,
        repeats_a_key(symbol),
    ensures
        !keys_distinct(symbol),
{
    reveal_with_fuel(bumped, 5);
    let i0 = chord_index(symbol, 0);
    let i1 = chord_index(symbol, 1);
    let i2 = chord_index(symbol, 2);
    let i3 = chord_index(symbol, 3);
    assert(i0 == i2 || i1 == i2 || i0 == i3 || i1 == i3 || i2 == i3);
}

/// Different symbols have different chords: the four indices determine the
/// four digits, and the digits determine the symbol.
pub proof fn lemma_chord_injective(a: int, b: int)
    requires
        0 <= a <= 0xFFFF,
        0 <= b <= 0xFFFF,
        chord_indices(a) == chord_indices(b),
    ensures
        a == b,
{
    reveal_with_fuel(bumped, 5);
    assert(chord_indices(a)[0] == chord_indices(b)[0]);
    assert(chord_indices(a)[1] == chord_indices(b)[1]);
    assert(chord_indices(a)[2] == chord_indices(b)[2]);
    assert(chord_indices(a)[3] == chord_indices(b)[3]);
    assert(digit(a, 0) == digit(b, 0));
    assert(digit(a, 1) == digit(b, 1));
    assert(digit(a, 2) == digit(b, 2));
    assert(digit(a, 3) == digit(b, 3));
    lemma_digits_give_symbol(a);
    lemma_digits_give_symbol(b);
}

proof fn lemma_digits_give_symbol(s: int)
    requires
        0 <= s <= 0xFFFF,
    ensures
        s == digit(s, 0) + 18 * digit(s, 1) + 306 * digit(s, 2) + 4896 * digit(s, 3),
{
    let q1 = s / 18;
    let q2 = s / 306;
    let q3 = s / 4896;
    assert(q2 == q1 / 17) by {
        assert(s == 18 * q1 + s % 18);
        assert(q1 == 17 * (q1 / 17) + q1 % 17);
        assert(s == 306 * (q1 / 17) + (18 * (q1 % 17) + s % 18));
    }
    assert(q3 == q2 / 16) by {
        assert(q2 == 16 * (q2 / 16) + q2 % 16);
        assert(s == 306 * q2 + s % 306);
        assert(s == 4896 * (q2 / 16) + (306 * (q2 % 16) + s % 306));
    }
    assert(q3 < 15);
}

proof fn lemma_bumped_bounds(symbol: int, i: int, j: int)
    requires
        0 <= symbol,
        0 <= i < 4,
        0 <= j <= i,
    ensures
        0 <= bumped(symbol, i, j) <= digit(symbol, i) + j,
        digit(symbol, i) < 18 - i,
{
    reveal_with_fuel(bumped, 5);
}

} // verus!
