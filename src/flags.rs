//! The five condition flags of the 8080 and the rules that derive them from
//! an arithmetic or logical result.
use vstd::prelude::*;

verus! {

/// Number of set bits among the eight bits of `v`.
#[verifier::opaque]
pub open spec fn ones(v: u8) -> int {
    (v % 2) as int + ((v / 2) % 2) as int + ((v / 4) % 2) as int + ((v / 8) % 2) as int + ((v
        / 16) % 2) as int + ((v / 32) % 2) as int + ((v / 64) % 2) as int + ((v / 128) % 2) as int
}

/// Bit 7 of the result.
pub open spec fn sign_of(v: u8) -> bool {
    v >= 128
}

/// The result is zero.
pub open spec fn zero_of(v: u8) -> bool {
    v == 0
}

/// An even number of bits of the result are set.
pub open spec fn parity_of(v: u8) -> bool {
    ones(v) % 2 == 0
}

/// The low-nibble intermediate went past 0xF.
pub open spec fn aux_carry_of(aux_value: u8) -> bool {
    aux_value > 0xf
}

/// The widened result went past 0xFF.
pub open spec fn carry_of(value: u16) -> bool {
    value > 0xff
}

/// Condition flags, each a single bit of the processor status word.
#[derive(Clone, Copy, Debug, PartialEq, Eq, Structural)]
pub struct Flags {
    pub sign: bool,
    pub zero: bool,
    pub aux_carry: bool,
    pub parity: bool,
    pub carry: bool,
}

/// The processor status word: sign in bit 7, zero in bit 6, auxiliary carry
/// in bit 4, parity in bit 2 and carry in bit 0; bits 1, 3 and 5 are clear.
pub open spec fn psw_of(f: Flags) -> u8 {
    ((if f.sign { 128int } else { 0 }) + (if f.zero { 64int } else { 0 }) + (if f.aux_carry {
        16int
    } else {
        0
    }) + (if f.parity { 4int } else { 0 }) + (if f.carry { 1int } else { 0 })) as u8
}

/// The flags that a processor status word holds.
pub open spec fn flags_of_psw(psw: u8) -> Flags {
    Flags {
        sign: (psw / 128) % 2 == 1,
        zero: (psw / 64) % 2 == 1,
        aux_carry: (psw / 16) % 2 == 1,
        parity: (psw / 4) % 2 == 1,
        carry: psw % 2 == 1,
    }
}

impl Flags {
    /// All five flags derived from `value` and the nibble result `aux_value`.
    pub open spec fn all_of(value: u16, aux_value: u8) -> Flags {
        Flags {
            sign: sign_of(value as u8),
            zero: zero_of(value as u8),
            aux_carry: aux_carry_of(aux_value),
            parity: parity_of(value as u8),
            carry: carry_of(value),
        }
    }

    /// Every flag but the auxiliary carry derived from `value`.
    pub open spec fn all_but_aux_carry_of(self, value: u16) -> Flags {
        Flags {
            sign: sign_of(value as u8),
            zero: zero_of(value as u8),
            aux_carry: self.aux_carry,
            parity: parity_of(value as u8),
            carry: carry_of(value),
        }
    }

    /// Every flag but the carry derived from `value`; the auxiliary carry
    /// is read from the value itself.
    pub open spec fn all_but_carry_of(self, value: u8) -> Flags {
        Flags {
            sign: sign_of(value),
            zero: zero_of(value),
            aux_carry: aux_carry_of(value),
            parity: parity_of(value),
            carry: self.carry,
        }
    }

    /// The set flags as text.
    pub fn letters(&self) -> (r: Vec<char>)
        ensures
            r@ == flag_letters(*self),
    {
        let mut r: Vec<char> = Vec::new();
        if self.sign {
            r.push('S');
            r.push(',');
        }
        if self.zero {
            r.push('Z');
            r.push(',');
        }
        if self.aux_carry {
            r.push('A');
            r.push(',');
        }
        if self.parity {
            r.push('P');
            r.push(',');
        }
        if self.carry {
            r.push('C');
            r.push(',');
        }
        assert(r@ =~= flag_letters(*self));
        r
    }

    /// Returns the flags packed into one byte.
    pub fn psw(&self) -> (r: u8)
        ensures
            r == psw_of(*self),
    {
        let mut psw: u8 = 0;
        if self.sign {
            psw = psw + 128;
        }
        if self.zero {
            psw = psw + 64;
        }
        if self.aux_carry {
            psw = psw + 16;
        }
        if self.parity {
            psw = psw + 4;
        }
        if self.carry {
            psw = psw + 1;
        }
        psw
    }

    /// Sets the flags from a processor status word.
    pub fn set_psw(&mut self, psw: u8)
        ensures
            *final(self) == flags_of_psw(psw),
    {
        self.carry = psw % 2 == 1;
        self.parity = (psw / 4) % 2 == 1;
        self.aux_carry = (psw / 16) % 2 == 1;
        self.zero = (psw / 64) % 2 == 1;
        self.sign = (psw / 128) % 2 == 1;
    }

    /// Updates all five flags.
    pub fn set_all(&mut self, value: u16, aux_value: u8)
        ensures
            *final(self) == Flags::all_of(value, aux_value),
    {
        self.set_sign(value as u8);
        self.set_zero(value as u8);
        self.set_aux_carry(aux_value);
        self.set_parity(value as u8);
        self.set_carry(value);
    }

    /// Updates every flag but the auxiliary carry.
    pub fn set_all_but_aux_carry(&mut self, value: u16)
        ensures
            *final(self) == old(self).all_but_aux_carry_of(value),
    {
        self.set_sign(value as u8);
        self.set_zero(value as u8);
        self.set_parity(value as u8);
        self.set_carry(value);
    }

    /// Updates every flag but the carry.
    pub fn set_all_but_carry(&mut self, value: u8)
        ensures
            *final(self) == old(self).all_but_carry_of(value),
    {
        self.set_sign(value);
        self.set_zero(value);
        self.set_aux_carry(value);
        self.set_parity(value);
    }

    fn set_sign(&mut self, value: u8)
        ensures
            *final(self) == (Flags { sign: sign_of(value), ..*old(self) }),
    {
        self.sign = value >= 128;
    }

    fn set_zero(&mut self, value: u8)
        ensures
            *final(self) == (Flags { zero: zero_of(value), ..*old(self) }),
    {
        self.zero = value == 0;
    }

    fn set_aux_carry(&mut self, value: u8)
        ensures
            *final(self) == (Flags { aux_carry: aux_carry_of(value), ..*old(self) }),
    {
        self.aux_carry = value > 0xf;
    }

    fn set_parity(&mut self, value: u8)
        ensures
            *final(self) == (Flags { parity: parity_of(value), ..*old(self) }),
    {
        proof {
            reveal(ones);
        }
        let n: u8 = value % 2 + (value / 2) % 2 + (value / 4) % 2 + (value / 8) % 2 + (value / 16)
            % 2 + (value / 32) % 2 + (value / 64) % 2 + (value / 128) % 2;
        self.parity = n % 2 == 0;
    }

    /// Sets the carry flag from a widened result.
    pub fn set_carry(&mut self, value: u16)
        ensures
            *final(self) == (Flags { carry: carry_of(value), ..*old(self) }),
    {
        self.carry = value > 0xff;
    }
}

/// The set flags as text: `S,` `Z,` `A,` `P,` `C,` in that order, each
/// where its flag is set.
pub open spec fn flag_letters(f: Flags) -> Seq<char> {
    (if f.sign {
        seq!['S', ',']
    } else {
        Seq::empty()
    }) + (if f.zero {
        seq!['Z', ',']
    } else {
        Seq::empty()
    }) + (if f.aux_carry {
        seq!['A', ',']
    } else {
        Seq::empty()
    }) + (if f.parity {
        seq!['P', ',']
    } else {
        Seq::empty()
    }) + (if f.carry {
        seq!['C', ',']
    } else {
        Seq::empty()
    })
}

/// Packing the flags into a status word and unpacking it gives the same
/// flags back, for every combination of the five flags.
pub proof fn lemma_psw_round_trip(f: Flags)
    ensures
        flags_of_psw(psw_of(f)) == f,
{
}

} // verus!
