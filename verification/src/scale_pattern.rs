//! Scale interval codec: a seven-note scale encoded as a 12-bit mask over the
//! chromatic positions above the root.
//!
//! Bit `i` (0-indexed) set means the scale contains the note `i + 1` semitones
//! above the root. The decoding operations — ascending intervals, step
//! sequence, major/minor classification, degree lookup — are pure functions
//! of the mask and accept any bit pattern.

use vstd::prelude::*;

verus! {

/// Mask selecting the 12 pattern bits of the backing integer.
pub const SCALE_PATTERN_MASK: u16 = 0x0FFF;

/// The major scale (Ionian mode): W-W-H-W-W-W-H.
pub const MAJOR_SCALE_BITS: u16 = 0b0000_1101_0101_1010;

/// The natural minor scale (Aeolian mode): W-H-W-W-H-W-W.
pub const NATURAL_MINOR_SCALE_BITS: u16 = 0b0000_1010_1101_0110;

/// The harmonic minor scale: W-H-W-W-H-WH-H (WH = whole and a half).
pub const HARMONIC_MINOR_SCALE_BITS: u16 = 0b0000_1100_1101_0110;

/// The melodic minor scale, ascending: W-H-W-W-W-W-H.
pub const MELODIC_MINOR_SCALE_BITS: u16 = 0b0000_1101_0101_0110;

/// Whether the pattern `p` contains the note `i + 1` semitones above the root.
pub open spec fn interval_present(p: u16, i: u16) -> bool {
    p & (1u16 << i) != 0
}

/// The ascending intervals of `p` drawn from bit positions below `n`: for
/// each set bit `i < n`, in increasing order, the interval `i + 1`.
pub open spec fn intervals_upto(p: u16, n: int) -> Seq<u8>
    decreases n,
{
    if n <= 0 {
        Seq::empty()
    } else if interval_present(p, (n - 1) as u16) {
        intervals_upto(p, n - 1).push(n as u8)
    } else {
        intervals_upto(p, n - 1)
    }
}

/// The ascending interval sequence of the pattern `p`: for each set bit `i`
/// among the 12 pattern bits, in increasing order, the interval `i + 1`.
pub open spec fn scale_intervals(p: u16) -> Seq<u8> {
    intervals_upto(p, 12)
}

/// The step sequence of the pattern `p`: the first interval measured from the
/// root, then each interval's distance from its predecessor.
pub open spec fn scale_steps(p: u16) -> Seq<u8> {
    Seq::new(
        scale_intervals(p).len(),
        |k: int|
            if k == 0 {
                scale_intervals(p)[0]
            } else {
                (scale_intervals(p)[k] - scale_intervals(p)[k - 1]) as u8
            },
    )
}

/// The sum of a sequence of bytes, as an unbounded integer.
pub open spec fn seq_sum(s: Seq<u8>) -> int
    decreases s.len(),
{
    if s.len() == 0 {
        0
    } else {
        seq_sum(s.drop_last()) + s.last()
    }
}

proof fn lemma_intervals_upto_props(p: u16, n: int)
    requires
        0 <= n <= 12,
    ensures
        forall|k: int|
            0 <= k < intervals_upto(p, n).len() ==> 1 <= #[trigger] intervals_upto(p, n)[k] <= n,
        forall|i: int, j: int|
            0 <= i < j < intervals_upto(p, n).len() ==> #[trigger] intervals_upto(p, n)[i]
                < #[trigger] intervals_upto(p, n)[j],
    decreases n,
{
    if n > 0 {
        lemma_intervals_upto_props(p, n - 1);
        let prev = intervals_upto(p, n - 1);
        let cur = intervals_upto(p, n);
        if interval_present(p, (n - 1) as u16) {
            assert(cur == prev.push(n as u8));
            assert forall|i: int, j: int| 0 <= i < j < cur.len() implies cur[i] < cur[j] by {
                if j == cur.len() - 1 {
                    assert(cur[i] == prev[i]);
                    assert(prev[i] <= n - 1);
                } else {
                    assert(cur[i] == prev[i] && cur[j] == prev[j]);
                }
            }
        }
    }
}

/// Law: for any mask, the interval sequence ascends strictly, and every
/// interval lies between 1 and 12.
pub proof fn lemma_intervals_strictly_increasing(p: u16)
    ensures
        forall|i: int, j: int|
            0 <= i < j < scale_intervals(p).len() ==> #[trigger] scale_intervals(p)[i]
                < #[trigger] scale_intervals(p)[j],
        forall|k: int|
            0 <= k < scale_intervals(p).len() ==> 1 <= #[trigger] scale_intervals(p)[k] <= 12,
{
    lemma_intervals_upto_props(p, 12);
}

proof fn lemma_steps_sum_prefix(p: u16, k: int)
    requires
        1 <= k <= scale_intervals(p).len(),
    ensures
        seq_sum(scale_steps(p).take(k)) == scale_intervals(p)[k - 1],
    decreases k,
{
    lemma_intervals_strictly_increasing(p);
    let iv = scale_intervals(p);
    let steps = scale_steps(p);
    if k == 1 {
        assert(seq_sum(Seq::<u8>::empty()) == 0);
        assert(steps.take(1).drop_last() =~= Seq::<u8>::empty());
        assert(steps.take(1).last() == steps[0]);
        assert(steps[0] == iv[0]);
        assert(seq_sum(steps.take(1)) == iv[0]);
    } else {
        lemma_steps_sum_prefix(p, k - 1);
        assert(steps.take(k).drop_last() =~= steps.take(k - 1));
        assert(steps.take(k).last() == steps[k - 1]);
        assert(1 <= iv[k - 2] < iv[k - 1] <= 12);
        assert(steps[k - 1] == (iv[k - 1] - iv[k - 2]) as u8);
        assert(seq_sum(steps.take(k)) == seq_sum(steps.take(k - 1)) + steps[k - 1]);
    }
}

/// Law: the step sequence telescopes — for any mask with at least one set
/// pattern bit, the steps sum to the last interval, which is the greatest.
pub proof fn lemma_steps_sum_telescopes(p: u16)
    requires
        scale_intervals(p).len() > 0,
    ensures
        seq_sum(scale_steps(p)) == scale_intervals(p).last(),
        forall|k: int|
            0 <= k < scale_intervals(p).len() ==> #[trigger] scale_intervals(p)[k]
                <= scale_intervals(p).last(),
{
    lemma_intervals_strictly_increasing(p);
    let len = scale_intervals(p).len() as int;
    lemma_steps_sum_prefix(p, len);
    assert(scale_steps(p).take(len) =~= scale_steps(p));
}

/// Law: a mask whose octave bit (bit 11) is set has 12 as its last interval,
/// so its steps sum to exactly 12.
pub proof fn lemma_octave_steps_sum(p: u16)
    requires
        interval_present(p, 11),
    ensures
        scale_intervals(p).len() > 0,
        scale_intervals(p).last() == 12,
        seq_sum(scale_steps(p)) == 12,
{
    assert(scale_intervals(p) == intervals_upto(p, 11).push(12u8));
    lemma_steps_sum_telescopes(p);
}

/// Whether the low four bits of `p` match the major scale's opening pattern.
pub open spec fn spec_is_major(p: u16) -> bool {
    p & 0x000F == 0b1010 || p & 0x000F == 0b1001
}

/// Whether the low three bits of `p` match a minor scale's opening pattern.
pub open spec fn spec_is_minor(p: u16) -> bool {
    p & 0x0007 == 0b110 || p & 0x0007 == 0b101
}

/// A seven-note scale packed as a 12-bit mask: bit `i` set means the scale
/// contains the note `i + 1` semitones above the root. Any bit pattern is
/// accepted; the decoding operations are total over it.
#[derive(Clone, Copy, Debug, PartialEq, Eq, Hash, Structural)]
pub struct ScalePattern {
    bits: u16,
}

impl ScalePattern {
    /// The backing integer, including any bits above the 12 pattern bits.
    pub closed spec fn spec_raw(self) -> u16 {
        self.bits
    }

    /// The 12-bit pattern: the backing integer with any higher bits masked
    /// off.
    pub open spec fn spec_pattern(self) -> u16 {
        self.spec_raw() & SCALE_PATTERN_MASK
    }

    /// Create a scale pattern from a 16-bit integer. Total: any bit pattern
    /// is accepted and stored as given.
    pub fn from_u16(value: u16) -> (r: Self)
        ensures
            r.spec_raw() == value,
    {
        ScalePattern { bits: value }
    }

    /// The scale pattern, restricted to its low 12 bits.
    pub fn pattern(&self) -> (r: u16)
        ensures
            r == self.spec_pattern(),
    {
        self.bits & SCALE_PATTERN_MASK
    }

    /// Check if the scale is major: a structural test on the low four bits
    /// only, matching the whole-whole opening (or its half/whole-and-a-half
    /// variant), not a full classification.
    pub fn is_major(&self) -> (r: bool)
        ensures
            r == spec_is_major(self.spec_pattern()),
    {
        let bits = self.pattern() & 0x000F;
        proof {
            let p = self.bits;
            assert((p & 0x0FFF) & 0x000F == p & 0x0FFF & 0x000F) by (bit_vector);
        }
        bits == 0b1010 || bits == 0b1001
    }

    /// Check if the scale is minor: a structural test on the low three bits
    /// only, matching the whole-half opening (or its half-whole variant).
    pub fn is_minor(&self) -> (r: bool)
        ensures
            r == spec_is_minor(self.spec_pattern()),
    {
        let bits = self.pattern() & 0x0007;
        bits == 0b110 || bits == 0b101
    }

    /// The ascending intervals of the scale: for each set pattern bit `i`, in
    /// increasing order, the interval `i + 1`. Derived afresh from the mask
    /// on every call.
    pub fn intervals(&self) -> (r: Vec<u8>)
        ensures
            r@ == scale_intervals(self.spec_pattern()),
    {
        let p = self.pattern();
        let mut v: Vec<u8> = Vec::new();
        let mut i: u16 = 0;
        while i < 12
            invariant
                i <= 12,
                p == self.spec_pattern(),
                v@ == intervals_upto(p, i as int),
            decreases 12 - i,
        {
            if p & (1u16 << i) != 0 {
                v.push((i + 1) as u8);
            }
            i = i + 1;
        }
        v
    }

    /// The step sequence of the scale: the first interval measured from the
    /// root, then each interval's distance from its predecessor. Same length
    /// as `intervals`.
    pub fn steps(&self) -> (r: Vec<u8>)
        ensures
            r@ == scale_steps(self.spec_pattern()),
    {
        let ghost p = self.spec_pattern();
        proof {
            lemma_intervals_strictly_increasing(p);
        }
        let iv = self.intervals();
        let mut v: Vec<u8> = Vec::new();
        let mut last: u8 = 0;
        let mut k: usize = 0;
        while k < iv.len()
            invariant
                k <= iv@.len(),
                iv@ == scale_intervals(p),
                forall|i: int, j: int|
                    0 <= i < j < scale_intervals(p).len() ==> #[trigger] scale_intervals(p)[i]
                        < #[trigger] scale_intervals(p)[j],
                forall|i: int|
                    0 <= i < scale_intervals(p).len() ==> 1 <= #[trigger] scale_intervals(p)[i]
                        <= 12,
                last == if k == 0 {
                    0u8
                } else {
                    iv@[k - 1]
                },
                v@ =~= scale_steps(p).take(k as int),
            decreases iv@.len() - k,
        {
            let next = iv[k];
            v.push(next - last);
            proof {
                assert(v@ =~= scale_steps(p).take(k + 1));
            }
            last = next;
            k = k + 1;
        }
        proof {
            assert(v@ =~= scale_steps(p));
        }
        v
    }

    /// The interval of the `degree`-th note of the scale, 1-indexed. The
    /// degree must not exceed the number of notes actually present in the
    /// mask.
    pub fn degree(&self, degree: usize) -> (r: u8)
        requires
            1 <= degree <= scale_intervals(self.spec_pattern()).len(),
        ensures
            r == scale_intervals(self.spec_pattern())[degree - 1],
    {
        let iv = self.intervals();
        iv[degree - 1]
    }

    /// The interval of the `degree`-th note of the scale, 1-indexed, or
    /// `None` when the degree is zero or exceeds the number of notes present
    /// in the mask.
    pub fn checked_degree(&self, degree: usize) -> (r: Option<u8>)
        ensures
            1 <= degree <= scale_intervals(self.spec_pattern()).len() ==> r == Some(
                scale_intervals(self.spec_pattern())[degree - 1],
            ),
            !(1 <= degree <= scale_intervals(self.spec_pattern()).len()) ==> r is None,
    {
        let iv = self.intervals();
        if 1 <= degree && degree <= iv.len() {
            Some(iv[degree - 1])
        } else {
            None
        }
    }
}

/// Law: a scale built from any raw mask reports as its pattern exactly the
/// raw value restricted to the low 12 bits, and masking that pattern again
/// changes nothing, so repeated `pattern` calls agree.
pub proof fn lemma_pattern_round_trip(s: ScalePattern)
    ensures
        s.spec_pattern() == s.spec_raw() & SCALE_PATTERN_MASK,
        s.spec_pattern() & SCALE_PATTERN_MASK == s.spec_pattern(),
{
    let value = s.spec_raw();
    assert((value & 0x0FFFu16) & 0x0FFFu16 == value & 0x0FFFu16) by (bit_vector);
}

/// The major scale (Ionian mode).
pub fn major_scale() -> (r: ScalePattern)
    ensures
        r.spec_raw() == MAJOR_SCALE_BITS,
{
    ScalePattern::from_u16(MAJOR_SCALE_BITS)
}

/// The natural minor scale (Aeolian mode).
pub fn natural_minor_scale() -> (r: ScalePattern)
    ensures
        r.spec_raw() == NATURAL_MINOR_SCALE_BITS,
{
    ScalePattern::from_u16(NATURAL_MINOR_SCALE_BITS)
}

/// The harmonic minor scale.
pub fn harmonic_minor_scale() -> (r: ScalePattern)
    ensures
        r.spec_raw() == HARMONIC_MINOR_SCALE_BITS,
{
    ScalePattern::from_u16(HARMONIC_MINOR_SCALE_BITS)
}

/// The melodic minor scale, ascending.
pub fn melodic_minor_scale() -> (r: ScalePattern)
    ensures
        r.spec_raw() == MELODIC_MINOR_SCALE_BITS,
{
    ScalePattern::from_u16(MELODIC_MINOR_SCALE_BITS)
}

} // verus!
