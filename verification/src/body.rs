use vstd::arithmetic::power2::{lemma2_to64, lemma_pow2_strictly_increases, lemma_pow2_unfold, pow2};
use vstd::prelude::*;

verus! {

/// Width of a function or event selector, in bits.
pub const SELECTOR_BITS: usize = 32;

/// The number that a run of bits spells, most significant bit first.
pub open spec fn bits_value(bits: Seq<bool>) -> nat
    decreases bits.len(),
{
    if bits.len() == 0 {
        0
    } else {
        2 * bits_value(bits.drop_last()) + if bits.last() {
            1nat
        } else {
            0nat
        }
    }
}

/// A run of `n` bits spells a number below two to the power `n`.
pub proof fn bits_value_bounded(bits: Seq<bool>)
    ensures
        bits_value(bits) < pow2(bits.len()),
    decreases bits.len(),
{
    if bits.len() == 0 {
        lemma2_to64();
    } else {
        bits_value_bounded(bits.drop_last());
        lemma_pow2_unfold(bits.len());
    }
}

/// The selector that stands `offset` bits into `bits`: the number spelled by
/// the 32 bits from that offset on, or nothing where fewer than 32 follow.
pub open spec fn selector_at(bits: Seq<bool>, offset: int) -> Option<u32> {
    if 0 <= offset && offset + 32 <= bits.len() {
        Some(bits_value(bits.subrange(offset, offset + 32)) as u32)
    } else {
        None
    }
}

/// The data bits of a message body, in the order in which they are read.
///
/// The buffer is never written after it is made: a read names the offset it
/// starts at and leaves the body as it was, so every decoding attempt sees
/// the same bits.
#[derive(Clone, Debug, PartialEq, Eq)]
pub struct MessageBody {
    pub bits: Vec<bool>,
}

impl View for MessageBody {
    type V = Seq<bool>;

    open spec fn view(&self) -> Seq<bool> {
        self.bits@
    }
}

impl MessageBody {
    /// A body made of the given bits.
    pub fn new(bits: Vec<bool>) -> (body: MessageBody)
        ensures
            body@ == bits@,
    {
        MessageBody { bits }
    }

    /// How many bits the body holds.
    pub fn len(&self) -> (n: usize)
        ensures
            n == self@.len(),
    {
        self.bits.len()
    }

    /// Reads the selector that starts `offset` bits into the body.
    ///
    /// Returns `None` when fewer than 32 bits follow the offset.
    pub fn read_selector(&self, offset: usize) -> (res: Option<u32>)
        ensures
            res == selector_at(self@, offset as int),
            res is Some <==> offset + 32 <= self@.len(),
            res is Some ==> offset + 32 <= usize::MAX,
    {
        let len = self.bits.len();
        if len < SELECTOR_BITS || offset > len - SELECTOR_BITS {
            return None;
        }
        let ghost word = self.bits@.subrange(offset as int, offset + 32);
        let mut acc: u64 = 0;
        let mut i: usize = 0;
        proof {
            lemma2_to64();
        }
        while i < 32
            invariant
                i <= 32,
                len == self.bits@.len(),
                offset + 32 <= len,
                word == self.bits@.subrange(offset as int, offset + 32),
                acc == bits_value(word.take(i as int)),
            decreases 32 - i,
        {
            let bit = self.bits[offset + i];
            proof {
                assert(word.take(i + 1).drop_last() =~= word.take(i as int));
                assert(word.take(i + 1).last() == bit);
                bits_value_bounded(word.take(i as int));
                lemma2_to64();
                if i < 31 {
                    lemma_pow2_strictly_increases(i as nat, 31);
                }
            }
            acc = 2 * acc + if bit {
                1
            } else {
                0
            };
            i = i + 1;
        }
        proof {
            assert(word.take(32) =~= word);
            bits_value_bounded(word);
            lemma2_to64();
        }
        Some(acc as u32)
    }
}

} // verus!
