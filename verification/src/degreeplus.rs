//! Scale-degree alteration codec: a diatonic degree number together with a
//! chromatic accidental, packed into one byte.
//!
//! The packed layout keeps the degree in the low four bits and marks the
//! accidental with a single set bit among four mutually exclusive flag bits
//! (sharp, double sharp, flat, double flat). The type itself stores the two
//! parts separately, so that at most one accidental can ever be set; `bits`
//! repacks them into the original byte encoding on demand.

use vstd::prelude::*;

verus! {

/// Flag bit marking a sharpened degree in the packed byte encoding.
pub const FLAG_SHARP: u8 = 0x10;

/// Flag bit marking a doubly sharpened degree in the packed byte encoding.
pub const FLAG_DOUBLE_SHARP: u8 = 0x20;

/// Flag bit marking a flattened degree in the packed byte encoding.
pub const FLAG_FLAT: u8 = 0x40;

/// Flag bit marking a doubly flattened degree in the packed byte encoding.
pub const FLAG_DOUBLE_FLAT: u8 = 0x80;

/// Mask selecting the degree number in the packed byte encoding.
pub const DEGREE_MASK: u8 = 0x0F;

/// A chromatic alteration of a scale degree. At most one applies at a time.
#[derive(Clone, Copy, Debug, PartialEq, Eq, Hash, Structural)]
pub enum Accidental {
    Natural,
    Sharp,
    DoubleSharp,
    Flat,
    DoubleFlat,
}

/// The flag bit that marks `a` in the packed byte encoding (zero for natural).
pub open spec fn accidental_flag(a: Accidental) -> u8 {
    match a {
        Accidental::Natural => 0u8,
        Accidental::Sharp => FLAG_SHARP,
        Accidental::DoubleSharp => FLAG_DOUBLE_SHARP,
        Accidental::Flat => FLAG_FLAT,
        Accidental::DoubleFlat => FLAG_DOUBLE_FLAT,
    }
}

/// A scale degree (root, third, fifth, ...) together with its accidental.
///
/// A value is built only through the factory functions, which truncate the
/// degree to its four-bit field, so the degree always fits that field and at
/// most one accidental is set.
#[derive(Clone, Copy, Debug, PartialEq, Eq, Hash, Structural)]
pub struct DegreePlus {
    degree: u8,
    accidental: Accidental,
}

impl DegreePlus {
    /// The stored degree number; always below 16.
    pub closed spec fn spec_degree(self) -> u8 {
        self.degree
    }

    /// The stored accidental.
    pub closed spec fn spec_accidental(self) -> Accidental {
        self.accidental
    }

    /// The packed byte: degree in the low four bits, accidental flag above.
    pub open spec fn spec_bits(self) -> u8 {
        self.spec_degree() | accidental_flag(self.spec_accidental())
    }

    /// Well-formedness: the degree fits its four-bit field. Every value
    /// built through the factory functions satisfies this.
    #[verifier::type_invariant]
    pub closed spec fn wf(self) -> bool {
        self.degree < 16
    }

    /// A degree with no accidental. Degrees above 15 are truncated to the
    /// four-bit degree field.
    pub fn new_natural(degree: u8) -> (r: Self)
        ensures
            r.spec_degree() == degree & DEGREE_MASK,
            degree < 16 ==> r.spec_degree() == degree,
            r.spec_accidental() == Accidental::Natural,
    {
        proof {
            assert(degree & 0x0Fu8 < 16 && (degree < 16 ==> degree & 0x0Fu8 == degree))
                by (bit_vector);
        }
        DegreePlus { degree: degree & DEGREE_MASK, accidental: Accidental::Natural }
    }

    /// A sharpened degree. Degrees above 15 are truncated.
    pub fn new_with_sharp(degree: u8) -> (r: Self)
        ensures
            r.spec_degree() == degree & DEGREE_MASK,
            degree < 16 ==> r.spec_degree() == degree,
            r.spec_accidental() == Accidental::Sharp,
    {
        let d = Self::new_natural(degree);
        proof {
            use_type_invariant(d);
        }
        DegreePlus { degree: d.degree, accidental: Accidental::Sharp }
    }

    /// A doubly sharpened degree. Degrees above 15 are truncated.
    pub fn new_with_double_sharp(degree: u8) -> (r: Self)
        ensures
            r.spec_degree() == degree & DEGREE_MASK,
            degree < 16 ==> r.spec_degree() == degree,
            r.spec_accidental() == Accidental::DoubleSharp,
    {
        let d = Self::new_natural(degree);
        proof {
            use_type_invariant(d);
        }
        DegreePlus { degree: d.degree, accidental: Accidental::DoubleSharp }
    }

    /// A flattened degree. Degrees above 15 are truncated.
    pub fn new_with_flat(degree: u8) -> (r: Self)
        ensures
            r.spec_degree() == degree & DEGREE_MASK,
            degree < 16 ==> r.spec_degree() == degree,
            r.spec_accidental() == Accidental::Flat,
    {
        let d = Self::new_natural(degree);
        proof {
            use_type_invariant(d);
        }
        DegreePlus { degree: d.degree, accidental: Accidental::Flat }
    }

    /// A doubly flattened degree. Degrees above 15 are truncated.
    pub fn new_with_double_flat(degree: u8) -> (r: Self)
        ensures
            r.spec_degree() == degree & DEGREE_MASK,
            degree < 16 ==> r.spec_degree() == degree,
            r.spec_accidental() == Accidental::DoubleFlat,
    {
        let d = Self::new_natural(degree);
        proof {
            use_type_invariant(d);
        }
        DegreePlus { degree: d.degree, accidental: Accidental::DoubleFlat }
    }

    /// The degree number, free of any accidental flag. Total: every value
    /// answers.
    pub fn degree(self) -> (r: u8)
        ensures
            r == self.spec_degree(),
            r < 16,
    {
        proof {
            use_type_invariant(self);
        }
        self.degree
    }

    /// Whether the degree carries a single sharp.
    pub fn is_sharp(self) -> (r: bool)
        ensures
            r == (self.spec_accidental() == Accidental::Sharp),
    {
        matches!(self.accidental, Accidental::Sharp)
    }

    /// Whether the degree carries a double sharp.
    pub fn is_double_sharp(self) -> (r: bool)
        ensures
            r == (self.spec_accidental() == Accidental::DoubleSharp),
    {
        matches!(self.accidental, Accidental::DoubleSharp)
    }

    /// Whether the degree carries a single flat.
    pub fn is_flat(self) -> (r: bool)
        ensures
            r == (self.spec_accidental() == Accidental::Flat),
    {
        matches!(self.accidental, Accidental::Flat)
    }

    /// Whether the degree carries a double flat.
    pub fn is_double_flat(self) -> (r: bool)
        ensures
            r == (self.spec_accidental() == Accidental::DoubleFlat),
    {
        matches!(self.accidental, Accidental::DoubleFlat)
    }

    /// The packed byte encoding: the degree in the low four bits, the
    /// accidental flag bit above them.
    pub fn bits(self) -> (r: u8)
        ensures
            r == self.spec_bits(),
            r & DEGREE_MASK == self.spec_degree(),
    {
        proof {
            use_type_invariant(self);
            self.lemma_bits_fields();
            let d = self.degree;
            assert(d | 0u8 == d) by (bit_vector);
        }
        match self.accidental {
            Accidental::Natural => self.degree,
            Accidental::Sharp => self.degree | FLAG_SHARP,
            Accidental::DoubleSharp => self.degree | FLAG_DOUBLE_SHARP,
            Accidental::Flat => self.degree | FLAG_FLAT,
            Accidental::DoubleFlat => self.degree | FLAG_DOUBLE_FLAT,
        }
    }

    /// The packed byte decomposes losslessly: its low four bits are the
    /// degree, and each accidental flag bit is set exactly for its own
    /// accidental.
    pub proof fn lemma_bits_fields(self)
        requires
            self.wf(),
        ensures
            self.spec_bits() & DEGREE_MASK == self.spec_degree(),
            (self.spec_bits() & FLAG_SHARP != 0) == (self.spec_accidental()
                == Accidental::Sharp),
            (self.spec_bits() & FLAG_DOUBLE_SHARP != 0) == (self.spec_accidental()
                == Accidental::DoubleSharp),
            (self.spec_bits() & FLAG_FLAT != 0) == (self.spec_accidental()
                == Accidental::Flat),
            (self.spec_bits() & FLAG_DOUBLE_FLAT != 0) == (self.spec_accidental()
                == Accidental::DoubleFlat),
    {
        let d = self.degree;
        let f = accidental_flag(self.accidental);
        assert(f == 0u8 || f == 0x10u8 || f == 0x20u8 || f == 0x40u8 || f == 0x80u8);
        assert(d < 16 && (f == 0u8 || f == 0x10u8 || f == 0x20u8 || f == 0x40u8 || f == 0x80u8)
            ==> (d | f) & 0x0Fu8 == d && ((d | f) & 0x10u8 != 0) == (f == 0x10u8) && ((d | f)
            & 0x20u8 != 0) == (f == 0x20u8) && ((d | f) & 0x40u8 != 0) == (f == 0x40u8) && ((d | f)
            & 0x80u8 != 0) == (f == 0x80u8)) by (bit_vector);
    }

    /// The root degree: degree 0, no accidental.
    pub fn root() -> (r: Self)
        ensures
            r.spec_degree() == 0,
            r.spec_accidental() == Accidental::Natural,
    {
        Self::new_natural(0)
    }

    /// The natural third.
    pub fn third() -> (r: Self)
        ensures
            r.spec_degree() == 3,
            r.spec_accidental() == Accidental::Natural,
    {
        Self::new_natural(3)
    }

    /// The flattened third.
    pub fn third_flat() -> (r: Self)
        ensures
            r.spec_degree() == 3,
            r.spec_accidental() == Accidental::Flat,
    {
        Self::new_with_flat(3)
    }

    /// The natural fifth.
    pub fn fifth() -> (r: Self)
        ensures
            r.spec_degree() == 5,
            r.spec_accidental() == Accidental::Natural,
    {
        Self::new_natural(5)
    }

    /// The flattened fifth.
    pub fn fifth_flat() -> (r: Self)
        ensures
            r.spec_degree() == 5,
            r.spec_accidental() == Accidental::Flat,
    {
        Self::new_with_flat(5)
    }

    /// The sharpened fifth.
    pub fn fifth_sharp() -> (r: Self)
        ensures
            r.spec_degree() == 5,
            r.spec_accidental() == Accidental::Sharp,
    {
        Self::new_with_sharp(5)
    }

    /// The natural seventh.
    pub fn seventh() -> (r: Self)
        ensures
            r.spec_degree() == 7,
            r.spec_accidental() == Accidental::Natural,
    {
        Self::new_natural(7)
    }

    /// The flattened seventh.
    pub fn seventh_flat() -> (r: Self)
        ensures
            r.spec_degree() == 7,
            r.spec_accidental() == Accidental::Flat,
    {
        Self::new_with_flat(7)
    }

    /// The doubly flattened seventh.
    pub fn seventh_double_flat() -> (r: Self)
        ensures
            r.spec_degree() == 7,
            r.spec_accidental() == Accidental::DoubleFlat,
    {
        Self::new_with_double_flat(7)
    }
}

} // verus!
