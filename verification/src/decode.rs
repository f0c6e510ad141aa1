use vstd::prelude::*;

verus! {

/// The fields of one instruction word. `class` is the top nibble, `x` and `y`
/// the second and third, `n` the lowest; `nnn` is the low twelve bits and `nn`
/// the low byte.
#[derive(Clone, Copy, Debug, PartialEq, Eq, Structural)]
pub struct Instruction {
    pub class: u8,
    pub x: usize,
    pub y: usize,
    pub nnn: u16,
    pub nn: u8,
    pub n: u8,
}

/// The fields of `word`, by division: the word is
/// `class * 4096 + x * 256 + y * 16 + n`.
pub open spec fn decoded(word: u16) -> Instruction {
    Instruction {
        class: (word / 0x1000) as u8,
        x: ((word / 0x100) % 0x10) as usize,
        y: ((word / 0x10) % 0x10) as usize,
        nnn: word % 0x1000,
        nn: (word % 0x100) as u8,
        n: (word % 0x10) as u8,
    }
}

impl Instruction {
    /// The four nibbles are nibbles, and the two immediates are made of them.
    pub open spec fn wf(self) -> bool {
        &&& self.class < 16
        &&& self.x < 16
        &&& self.y < 16
        &&& self.n < 16
        &&& self.nnn == self.x * 256 + self.y * 16 + self.n
        &&& self.nn == self.y * 16 + self.n
    }

    /// The word that the four nibbles spell, each nibble taken modulo 16.
    pub open spec fn spec_word(self) -> int {
        (self.class % 16) * 4096 + (self.x % 16) * 256 + (self.y % 16) * 16 + self.n % 16
    }

    /// Puts the four nibbles back together. The immediates are not read: they
    /// repeat what `x`, `y` and `n` hold.
    pub fn word(&self) -> (w: u16)
        ensures
            w == self.spec_word(),
    {
        let c: u16 = (self.class & 0xF) as u16;
        let x: u16 = (self.x & 0xF) as u16;
        let y: u16 = (self.y & 0xF) as u16;
        let n: u16 = (self.n & 0xF) as u16;
        let class = self.class;
        let sx = self.x;
        let sy = self.y;
        let sn = self.n;
        assert(class & 0xF == class % 16) by (bit_vector);
        assert(sx & 0xF == sx % 16) by (bit_vector);
        assert(sy & 0xF == sy % 16) by (bit_vector);
        assert(sn & 0xF == sn % 16) by (bit_vector);
        assert((c << 12) | (x << 8) | (y << 4) | n == c * 4096 + x * 256 + y * 16 + n)
            by (bit_vector)
            requires
                c < 16,
                x < 16,
                y < 16,
                n < 16,
        ;
        (c << 12) | (x << 8) | (y << 4) | n
    }
}

/// Splits an instruction word into its fields.
pub fn decode(word: u16) -> (ins: Instruction)
    ensures
        ins == decoded(word),
        ins.wf(),
{
    proof {
        lemma_split(word);
    }
    assert(word >> 12 == word / 0x1000) by (bit_vector);
    assert((word >> 8) & 0xF == (word / 0x100) % 0x10) by (bit_vector);
    assert((word >> 4) & 0xF == (word / 0x10) % 0x10) by (bit_vector);
    assert(word & 0xFFF == word % 0x1000) by (bit_vector);
    assert(word & 0xFF == word % 0x100) by (bit_vector);
    assert(word & 0xF == word % 0x10) by (bit_vector);
    Instruction {
        class: (word >> 12) as u8,
        x: ((word >> 8) & 0xF) as usize,
        y: ((word >> 4) & 0xF) as usize,
        nnn: word & 0xFFF,
        nn: (word & 0xFF) as u8,
        n: (word & 0xF) as u8,
    }
}

/// A word is the sum of its four nibbles, each at its place.
proof fn lemma_split(w: u16)
    by (bit_vector)
    ensures
        w / 0x1000 < 16,
        (w / 0x100) % 0x10 < 16,
        (w / 0x10) % 0x10 < 16,
        w % 0x10 < 16,
        w % 0x1000 == ((w / 0x100) % 0x10) * 256 + ((w / 0x10) % 0x10) * 16 + w % 0x10,
        w % 0x100 == ((w / 0x10) % 0x10) * 16 + w % 0x10,
        w == (w / 0x1000) * 4096 + ((w / 0x100) % 0x10) * 256 + ((w / 0x10) % 0x10) * 16 + w
            % 0x10,
{
}

/// Four nibbles, each put at its place, are found again by division.
proof fn lemma_join(c: u16, x: u16, y: u16, n: u16, w: u16)
    by (bit_vector)
    requires
        c < 16,
        x < 16,
        y < 16,
        n < 16,
        w == c * 4096 + x * 256 + y * 16 + n,
    ensures
        w / 0x1000 == c,
        (w / 0x100) % 0x10 == x,
        (w / 0x10) % 0x10 == y,
        w % 0x10 == n,
        w % 0x1000 == x * 256 + y * 16 + n,
        w % 0x100 == y * 16 + n,
{
}

/// Decoding a word and putting the nibbles back together gives the word, and
/// the decoded fields are well formed.
pub proof fn lemma_decode_then_word(word: u16)
    ensures
        decoded(word).wf(),
        decoded(word).spec_word() == word,
{
    lemma_split(word);
}

/// Putting well-formed fields together and decoding the word gives the same
/// fields.
pub proof fn lemma_word_then_decode(ins: Instruction)
    requires
        ins.wf(),
    ensures
        0 <= ins.spec_word() < 0x10000,
        decoded(ins.spec_word() as u16) == ins,
{
    lemma_join(
        ins.class as u16,
        ins.x as u16,
        ins.y as u16,
        ins.n as u16,
        ins.spec_word() as u16,
    );
}

} // verus!
