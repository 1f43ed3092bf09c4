use vstd::prelude::*;

verus! {

/// Bit `k` (0 = least significant) of a 32-bit word.
pub open spec fn word_bit(word: u32, k: u32) -> bool {
    (word >> k) & 1u32 == 1u32
}

/// Bit `i` of a sequence of 32-bit words: bit `i % 32` of word `i / 32`.
pub open spec fn bit_of(words: Seq<u32>, i: int) -> bool {
    word_bit(words[i / 32], (i % 32) as u32)
}

/// Sequence of all the bits held by `words`, 32 per word, low bits first.
pub open spec fn bits_of(words: Seq<u32>) -> Seq<bool> {
    Seq::new(32 * words.len(), |i: int| bit_of(words, i))
}

/// Setting bit `shift` of `row` to `bit` (0 or 1) changes that bit and no other.
proof fn lemma_word_update(row: u32, shift: u32, bit: u32, k: u32)
    requires
        shift < 32,
        k < 32,
        bit <= 1,
    ensures
        word_bit((row & !(1u32 << shift)) | (bit << shift), k) == if k == shift {
            bit == 1
        } else {
            word_bit(row, k)
        },
{
    assert((((row & !(1u32 << shift)) | (bit << shift)) >> k) & 1u32 == 1u32 <==> if k == shift {
        bit == 1u32
    } else {
        (row >> k) & 1u32 == 1u32
    }) by (bit_vector)
        requires
            shift < 32,
            k < 32,
            bit <= 1,
    ;
}

/// `i & 31` is the position of bit `i` inside its 32-bit word.
proof fn lemma_low_bits(i: usize)
    ensures
        i & 31 == i % 32,
        i & 31 < 32,
{
    assert(i & 31 == i % 32) by (bit_vector);
    assert(i & 31 < 32) by (bit_vector);
}

/// A bitset stored as an array of 32-bit integers, as the game allocates it.
///
/// Its view is the sequence of its bits: bit `i` is bit `i % 32` of the
/// integer at `i / 32`.
pub struct DynamicBitset {
    /// The integers that hold the bits; their count is the bitset's `len`.
    bitset: Vec<u32>,
}

impl View for DynamicBitset {
    type V = Seq<bool>;

    open spec fn view(&self) -> Seq<bool> {
        bits_of(self.words())
    }
}

impl DynamicBitset {
    /// The integers that hold the bits.
    pub closed spec fn words(&self) -> Seq<u32> {
        self.bitset@
    }

    /// Builds a bitset over the given integers.
    pub fn from_words(words: Vec<u32>) -> (r: Self)
        ensures
            r.words() == words@,
    {
        DynamicBitset { bitset: words }
    }

    /// The integers that hold the bits.
    pub fn as_slice(&self) -> (s: &[u32])
        ensures
            s@ == self.words(),
    {
        self.bitset.as_slice()
    }

    /// The integers that hold the bits, for writing.
    pub fn as_slice_mut(&mut self) -> (s: &mut [u32])
        ensures
            s@ == old(self).words(),
            final(self).words() == final(s)@,
    {
        self.bitset.as_mut_slice()
    }

    /// The number of 32-bit integers that hold the bits.
    pub fn len(&self) -> (n: usize)
        ensures
            n == self.words().len(),
    {
        self.bitset.len()
    }

    /// The state of bit `bit_index`.
    pub fn get(&self, bit_index: usize) -> (b: bool)
        requires
            bit_index < 32 * self.words().len(),
        ensures
            b == self@[bit_index as int],
            b == bit_of(self.words(), bit_index as int),
            b == ((self.words()[bit_index as int / 32] >> ((bit_index % 32) as u32)) & 1u32 == 1u32),
    {
        let slice: &[u32] = self.as_slice();
        let index: usize = bit_index / 32;
        let row: u32 = slice[index];
        let shift: usize = bit_index & 31;
        proof {
            lemma_low_bits(bit_index);
        }
        ((row >> shift) & 1) == 1
    }

    /// Sets bit `bit_index` to `state`; every other bit keeps its state.
    pub fn set(&mut self, bit_index: usize, state: bool)
        requires
            bit_index < 32 * old(self).words().len(),
        ensures
            final(self)@ == old(self)@.update(bit_index as int, state),
            final(self).words().len() == old(self).words().len(),
            final(self).words()[bit_index as int / 32] == ((old(self).words()[bit_index as int / 32]
                & !(1u32 << ((bit_index % 32) as u32))) | ((if state {
                1u32
            } else {
                0u32
            }) << ((bit_index % 32) as u32))),
            forall|k: int|
                0 <= k < old(self).words().len() && k != bit_index / 32
                    ==> #[trigger] final(self).words()[k] == old(self).words()[k],
    {
        let ghost before = self.words();
        let slice = self.as_slice_mut();
        let index: usize = bit_index / 32;
        let row: u32 = slice[index];
        let shift: usize = bit_index & 31;
        proof {
            lemma_low_bits(bit_index);
        }
        let mask: u32 = 1u32 << shift;
        let bit: u32 = if state { 1 } else { 0 };
        let new_row: u32 = (row & !mask) | (bit << shift);
        slice[index] = new_row;
        proof {
            let after = before.update(index as int, new_row);
            assert forall|i: int| 0 <= i < 32 * before.len() implies #[trigger] bit_of(after, i)
                == if i == bit_index {
                state
            } else {
                bit_of(before, i)
            } by {
                lemma_word_update(row, shift as u32, bit, (i % 32) as u32);
                if i / 32 == index as int {
                    assert((i % 32 == shift as int) == (i == bit_index as int));
                }
            }
            assert(bits_of(after) =~= bits_of(before).update(bit_index as int, state));
        }
    }
}

/// Reading a bit back after `set` gives the state that was written, and
/// `set` leaves every other bit, and the number of bits, as they were.
pub proof fn lemma_get_after_set(
    before: DynamicBitset,
    after: DynamicBitset,
    bit_index: usize,
    state: bool,
    other: usize,
)
    requires
        bit_index < 32 * before.words().len(),
        after@ == before@.update(bit_index as int, state),
    ensures
        after@.len() == before@.len(),
        after@[bit_index as int] == state,
        other < 32 * before.words().len() && other != bit_index ==> after@[other as int]
            == before@[other as int],
{
}

/// Writing a bit's current state back leaves the bitset unchanged.
pub proof fn lemma_set_current_state_is_identity(b: DynamicBitset, bit_index: usize)
    requires
        bit_index < 32 * b.words().len(),
    ensures
        b@.update(bit_index as int, b@[bit_index as int]) == b@,
{
    assert(b@.update(bit_index as int, b@[bit_index as int]) =~= b@);
}

/// Of two writes to the same bit, the later one decides its state.
pub proof fn lemma_last_set_wins(b: DynamicBitset, bit_index: usize, first: bool, second: bool)
    requires
        bit_index < 32 * b.words().len(),
    ensures
        b@.update(bit_index as int, first).update(bit_index as int, second) == b@.update(
            bit_index as int,
            second,
        ),
{
    assert(b@.update(bit_index as int, first).update(bit_index as int, second) =~= b@.update(
        bit_index as int,
        second,
    ));
}

/// Writes to two different bits give the same bitset in either order.
pub proof fn lemma_sets_commute(b: DynamicBitset, i: usize, vi: bool, j: usize, vj: bool)
    requires
        i < 32 * b.words().len(),
        j < 32 * b.words().len(),
        i != j,
    ensures
        b@.update(i as int, vi).update(j as int, vj) == b@.update(j as int, vj).update(
            i as int,
            vi,
        ),
{
    assert(b@.update(i as int, vi).update(j as int, vj) =~= b@.update(j as int, vj).update(
        i as int,
        vi,
    ));
}

/// A bitset over `n` integers holds `32 * n` bits.
pub proof fn lemma_bit_count(b: DynamicBitset)
    ensures
        b@.len() == 32 * b.words().len(),
{
}

/// Bit `i` of a bitset is bit `i % 32` (counting from the least significant
/// bit) of its integer at `i / 32`.
pub proof fn lemma_bit_layout(b: DynamicBitset, i: usize)
    requires
        i < 32 * b.words().len(),
    ensures
        b@.len() == 32 * b.words().len(),
        b@[i as int] == ((b.words()[i as int / 32] >> ((i % 32) as u32)) & 1u32 == 1u32),
{
}

/// After `set(i, state)` the bitset's bit `i` reads `state`, as bit `i % 32`
/// of its integer at `i / 32`, and every other bit reads as before.
pub proof fn lemma_set_writes_its_word_bit(b: DynamicBitset, i: usize, state: bool, j: usize)
    requires
        i < 32 * b.words().len(),
        j < 32 * b.words().len(),
    ensures
        ({
            let w = b.words()[i as int / 32];
            let sh = (i % 32) as u32;
            let nw = (w & !(1u32 << sh)) | ((if state {
                1u32
            } else {
                0u32
            }) << sh);
            ((nw >> sh) & 1u32 == 1u32) == state
        }),
        b@.update(i as int, state)[j as int] == if j == i {
            state
        } else {
            ((b.words()[j as int / 32] >> ((j % 32) as u32)) & 1u32 == 1u32)
        },
{
    let w = b.words()[i as int / 32];
    let sh = (i % 32) as u32;
    lemma_word_update(w, sh, if state {
        1u32
    } else {
        0u32
    }, sh);
}

/// A bitset over zeroed integers has every bit clear.
pub proof fn lemma_zero_words_clear(b: DynamicBitset, bit_index: usize)
    requires
        bit_index < 32 * b.words().len(),
        forall|k: int| 0 <= k < b.words().len() ==> #[trigger] b.words()[k] == 0,
    ensures
        !b@[bit_index as int],
{
    let k = (bit_index % 32) as u32;
    assert(b.words()[bit_index as int / 32] == 0);
    assert((0u32 >> k) & 1u32 != 1u32) by (bit_vector);
}

} // verus!
