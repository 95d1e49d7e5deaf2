use vstd::prelude::*;

verus! {

/// A raw 16-bit instruction word.
///
/// Every 16-bit value is a well-formed `Opcode`: the projections below are
/// total, pure and bit-exact. The word is laid out, most significant nibble
/// first, as `K X Y N`, where `K` selects the instruction family, `X` and `Y`
/// are register indices, and the low 4, 8 or 12 bits double as the immediate
/// operands `n`, `nn` and the address `nnn`.
pub struct Opcode {
    pub word: u16,
}

/// The most significant nibble: the instruction family selector.
pub open spec fn nib0(w: u16) -> u8 {
    ((w & 0xF000) >> 12) as u8
}

/// Bits 8..12: the first register index.
pub open spec fn nib1(w: u16) -> u8 {
    ((w & 0x0F00) >> 8) as u8
}

/// Bits 4..8: the second register index.
pub open spec fn nib2(w: u16) -> u8 {
    ((w & 0x00F0) >> 4) as u8
}

/// The least significant nibble: the 4-bit immediate.
pub open spec fn nib3(w: u16) -> u8 {
    (w & 0x000F) as u8
}

/// The low 12 bits: an address operand.
pub open spec fn nnn_field(w: u16) -> usize {
    (w & 0x0FFF) as usize
}

/// The low 8 bits: an 8-bit immediate operand.
pub open spec fn nn_field(w: u16) -> u8 {
    (w & 0x00FF) as u8
}

/// The first register index, as an index into the register file.
pub open spec fn x_field(w: u16) -> usize {
    nib1(w) as usize
}

/// The second register index, as an index into the register file.
pub open spec fn y_field(w: u16) -> usize {
    nib2(w) as usize
}

impl Opcode {
    pub fn new(word: u16) -> (op: Opcode)
        ensures
            op.word == word,
    {
        Opcode { word }
    }

    /// Splits the opcode into its four hexadecimal digits, most significant first.
    pub fn nibbles(&self) -> (r: (u8, u8, u8, u8))
        ensures
            r.0 == nib0(self.word),
            r.1 == nib1(self.word),
            r.2 == nib2(self.word),
            r.3 == nib3(self.word),
            r.0 < 16 && r.1 < 16 && r.2 < 16 && r.3 < 16,
    {
        proof {
            lemma_field_bounds(self.word);
        }
        (
            ((self.word & 0xF000) >> 12) as u8,
            ((self.word & 0x0F00) >> 8) as u8,
            ((self.word & 0x00F0) >> 4) as u8,
            (self.word & 0x000F) as u8,
        )
    }

    /// The address operand.
    pub fn nnn(&self) -> (r: usize)
        ensures
            r == nnn_field(self.word),
            r < 0x1000,
    {
        proof {
            lemma_field_bounds(self.word);
        }
        (self.word & 0x0FFF) as usize
    }

    /// The 8-bit immediate operand.
    pub fn nn(&self) -> (r: u8)
        ensures
            r == nn_field(self.word),
    {
        (self.word & 0x00FF) as u8
    }

    /// The 4-bit immediate operand.
    pub fn n(&self) -> (r: u8)
        ensures
            r == nib3(self.word),
            r < 16,
    {
        proof {
            lemma_field_bounds(self.word);
        }
        (self.word & 0x000F) as u8
    }

    /// The first register index operand.
    pub fn x(&self) -> (r: usize)
        ensures
            r == x_field(self.word),
            r < 16,
    {
        proof {
            lemma_field_bounds(self.word);
        }
        let nib: u8 = ((self.word & 0x0F00) >> 8) as u8;
        nib as usize
    }

    /// The second register index operand.
    pub fn y(&self) -> (r: usize)
        ensures
            r == y_field(self.word),
            r < 16,
    {
        proof {
            lemma_field_bounds(self.word);
        }
        let nib: u8 = ((self.word & 0x00F0) >> 4) as u8;
        nib as usize
    }
}

/// Every decoded field fits its advertised width.
pub proof fn lemma_field_bounds(w: u16)
    ensures
        nib0(w) < 16,
        nib1(w) < 16,
        nib2(w) < 16,
        nib3(w) < 16,
        nnn_field(w) < 0x1000,
        x_field(w) < 16,
        y_field(w) < 16,
{
    assert((w & 0xF000) >> 12 < 16) by (bit_vector);
    assert((w & 0x0F00) >> 8 < 16) by (bit_vector);
    assert((w & 0x00F0) >> 4 < 16) by (bit_vector);
    assert(w & 0x000F < 16) by (bit_vector);
    assert(w & 0x0FFF < 0x1000) by (bit_vector);
}

/// Decoding is lossless: the four nibbles reassemble into the original word,
/// the selector nibble and the address operand together reassemble it as well,
/// and the narrower immediates are the low bits of the wider ones.
pub proof fn lemma_decode_round_trip(w: u16)
    ensures
        nib0(w) as int * 0x1000 + nib1(w) as int * 0x100 + nib2(w) as int * 0x10 + nib3(
            w,
        ) as int == w as int,
        nib0(w) as int * 0x1000 + nnn_field(w) as int == w as int,
        nn_field(w) as int == nnn_field(w) as int % 0x100,
        nib3(w) as int == nn_field(w) as int % 0x10,
{
    assert(((w & 0xF000) >> 12) * 0x1000 + ((w & 0x0F00) >> 8) * 0x100 + ((w & 0x00F0) >> 4) * 0x10
        + (w & 0x000F) == w) by (bit_vector);
    assert(((w & 0xF000) >> 12) * 0x1000 + (w & 0x0FFF) == w) by (bit_vector);
    assert((w & 0x00FF) == (w & 0x0FFF) % 0x100) by (bit_vector);
    assert((w & 0x000F) == (w & 0x00FF) % 0x10) by (bit_vector);
    lemma_field_bounds(w);
}

} // verus!
