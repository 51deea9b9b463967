//! The instruction set as mathematics: a model of the processor state and
//! the effect of one instruction on it.
use vstd::prelude::*;
use crate::flags::{Flags, psw_of, flags_of_psw};

verus! {

/// The failures that stop an instruction.
#[derive(Clone, Copy, Debug, PartialEq, Eq, Structural)]
pub enum EmuError {
    /// A memory access fell outside the configured memory.
    AddressOutOfRange { address: u16 },
    /// The device refused a read or a write of this port.
    UnsupportedPort { port: u8 },
    /// A program image of `len` bytes from `start` on does not fit in memory.
    ImageOutOfRange { start: usize, len: usize },
}

/// A new processor: registers, flags and `size` bytes of memory zeroed,
/// interrupts on, not halted.
pub open spec fn reset_state(size: nat) -> CpuState {
    CpuState {
        a: 0,
        b: 0,
        c: 0,
        d: 0,
        e: 0,
        h: 0,
        l: 0,
        sp: 0,
        pc: 0,
        flags: Flags { sign: false, zero: false, aux_carry: false, parity: false, carry: false },
        memory: Seq::new(size, |i: int| 0u8),
        halted: false,
        interrupts_enabled: true,
    }
}

/// `memory` with `image` copied over it from `start` on.
pub open spec fn load_image(memory: Seq<u8>, image: Seq<u8>, start: int) -> Seq<u8> {
    Seq::new(
        memory.len(),
        |j: int|
            if start <= j < start + image.len() {
                image[j - start]
            } else {
                memory[j]
            },
    )
}

/// `x` modulo 2^16.
pub open spec fn wrap16(x: int) -> u16 {
    (x % 0x10000) as u16
}

/// `x` modulo 2^8.
pub open spec fn wrap8(x: int) -> u8 {
    (x % 0x100) as u8
}

/// A register pair: high byte first.
pub open spec fn pair(hi: u8, lo: u8) -> u16 {
    (hi as int * 256 + lo as int) as u16
}

pub open spec fn high_byte(w: u16) -> u8 {
    (w / 256) as u8
}

pub open spec fn low_byte(w: u16) -> u8 {
    (w % 256) as u8
}

/// The processor state as a mathematical value.
pub struct CpuState {
    pub a: u8,
    pub b: u8,
    pub c: u8,
    pub d: u8,
    pub e: u8,
    pub h: u8,
    pub l: u8,
    pub sp: u16,
    pub pc: u16,
    pub flags: Flags,
    pub memory: Seq<u8>,
    pub halted: bool,
    pub interrupts_enabled: bool,
}

/// A state with the number of clock cycles that produced it, or the failure.
pub type StepResult = Result<(CpuState, u64), EmuError>;

/// The state after a successful instruction that took `cycles`, advanced
/// by `len` bytes; a failure is passed on.
pub open spec fn finish(r: Result<CpuState, EmuError>, len: int, cycles: u64) -> StepResult {
    match r {
        Ok(s) => Ok((s.advance(len), cycles)),
        Err(e) => Err(e),
    }
}

/// The result of a transfer of control, which sets the program counter
/// itself.
pub open spec fn transfer(r: Result<CpuState, EmuError>, cycles: u64) -> StepResult {
    match r {
        Ok(s) => Ok((s, cycles)),
        Err(e) => Err(e),
    }
}

/// What an executable step reports, with the state it leaves.
pub open spec fn outcome(r: Result<u64, EmuError>, s: CpuState) -> StepResult {
    match r {
        Ok(cycles) => Ok((s, cycles)),
        Err(e) => Err(e),
    }
}

/// A state change that succeeded or failed.
pub open spec fn state_outcome(r: Result<(), EmuError>, s: CpuState) -> Result<CpuState, EmuError> {
    match r {
        Ok(_) => Ok(s),
        Err(e) => Err(e),
    }
}

/// Bytes of the instruction that opcode `op` begins: the opcode and its
/// operand.
pub open spec fn instruction_length(op: u8) -> int {
    let y = (op / 8) % 8;
    let z = op % 8;
    if op < 0x40 {
        if (z == 1 && y % 2 == 0) || (z == 2 && y >= 4) {
            3
        } else if z == 6 {
            2
        } else {
            1
        }
    } else if op < 0xC0 {
        1
    } else if z == 2 || z == 4 || (z == 3 && y < 2) || (z == 5 && y % 2 == 1) {
        3
    } else if z == 6 || (z == 3 && (y == 2 || y == 3)) {
        2
    } else {
        1
    }
}

/// Opcode `op` sets the program counter itself in state `s`: a jump, call
/// or return that is taken, PCHL, or RST.
pub open spec fn transfers_control(s: CpuState, op: u8) -> bool {
    let y = (op / 8) % 8;
    let z = op % 8;
    op >= 0xC0 && ((z == 0 && s.condition(y)) || (z == 1 && y % 2 == 1 && y < 6) || (z == 2
        && s.condition(y)) || (z == 3 && y < 2) || (z == 4 && s.condition(y)) || (z == 5 && y % 2
        == 1) || z == 7)
}

/// The result of the arithmetic and logic group: new accumulator, new flags.
pub open spec fn alu(f: Flags, a: u8, kind: u8, v: u8) -> (u8, Flags) {
    let carry: int = if f.carry {
        1
    } else {
        0
    };
    if kind == 0 {
        let r = (a + v) as u16;
        (wrap8(r as int), Flags::all_of(r, (a % 16 + v % 16) as u8))
    } else if kind == 1 {
        let r = (a + v + carry) as u16;
        (wrap8(r as int), Flags::all_of(r, (a % 16 + wrap8(v + carry) % 16) as u8))
    } else if kind == 2 {
        let r = wrap16(a - v);
        (wrap8(r as int), Flags::all_of(r, wrap8(a % 16 - v % 16)))
    } else if kind == 3 {
        let r = wrap16(a - v - carry);
        (wrap8(r as int), Flags::all_of(r, wrap8(a % 16 - wrap8(v - carry) % 16)))
    } else if kind == 4 {
        let r = a & v;
        (r, Flags::all_of(r as u16, r))
    } else if kind == 5 {
        let r = a ^ v;
        (r, Flags { carry: false, ..Flags::all_of(r as u16, r) })
    } else if kind == 6 {
        let r = a | v;
        (r, f.all_but_aux_carry_of(r as u16))
    } else {
        (a, Flags::all_of(wrap16(a - v), wrap8(a % 16 - v % 16)))
    }
}

/// Decimal adjustment of the accumulator: new accumulator, new flags.
pub open spec fn daa(f: Flags, a: u8) -> (u8, Flags) {
    let lsb = a % 16;
    let adjust_low = f.aux_carry || lsb > 9;
    let t: int = if adjust_low {
        a + 6
    } else {
        a as int
    };
    let aux = if adjust_low && t % 16 < lsb {
        true
    } else {
        f.aux_carry
    };
    let msb = (t / 16) % 16;
    let msb2 = if f.carry || msb > 9 {
        msb + 6
    } else {
        msb
    };
    let r = (msb2 * 16 + t % 16) as u16;
    (wrap8(r as int), Flags { aux_carry: aux, ..f }.all_but_aux_carry_of(r))
}

impl CpuState {
    pub open spec fn bc(self) -> u16 {
        pair(self.b, self.c)
    }

    pub open spec fn de(self) -> u16 {
        pair(self.d, self.e)
    }

    pub open spec fn hl(self) -> u16 {
        pair(self.h, self.l)
    }

    /// The accumulator and the status word.
    pub open spec fn af(self) -> u16 {
        pair(self.a, psw_of(self.flags))
    }

    pub open spec fn with_bc(self, v: u16) -> CpuState {
        CpuState { b: high_byte(v), c: low_byte(v), ..self }
    }

    pub open spec fn with_de(self, v: u16) -> CpuState {
        CpuState { d: high_byte(v), e: low_byte(v), ..self }
    }

    pub open spec fn with_hl(self, v: u16) -> CpuState {
        CpuState { h: high_byte(v), l: low_byte(v), ..self }
    }

    pub open spec fn with_af(self, v: u16) -> CpuState {
        CpuState { a: high_byte(v), flags: flags_of_psw(low_byte(v)), ..self }
    }

    /// The pair named by `p` in LXI, INX, DCX and DAD: BC, DE, HL, SP.
    pub open spec fn rp(self, p: u8) -> u16 {
        if p == 0 {
            self.bc()
        } else if p == 1 {
            self.de()
        } else if p == 2 {
            self.hl()
        } else {
            self.sp
        }
    }

    pub open spec fn with_rp(self, p: u8, v: u16) -> CpuState {
        if p == 0 {
            self.with_bc(v)
        } else if p == 1 {
            self.with_de(v)
        } else if p == 2 {
            self.with_hl(v)
        } else {
            CpuState { sp: v, ..self }
        }
    }

    /// The pair named by `p` in PUSH and POP: BC, DE, HL, A with flags.
    pub open spec fn rp2(self, p: u8) -> u16 {
        if p == 3 {
            self.af()
        } else {
            self.rp(p)
        }
    }

    pub open spec fn with_rp2(self, p: u8, v: u16) -> CpuState {
        if p == 3 {
            self.with_af(v)
        } else {
            self.with_rp(p, v)
        }
    }

    /// The accumulator and flags after operation `kind` of the arithmetic
    /// and logic group with operand `v`.
    pub open spec fn apply_alu(self, kind: u8, v: u8) -> CpuState {
        CpuState { a: alu(self.flags, self.a, kind, v).0, flags: alu(self.flags, self.a, kind, v).1, ..self }
    }

    /// HL plus `v`; the carry flag takes bit 16 of the sum.
    pub open spec fn dad(self, v: u16) -> CpuState {
        let r = self.hl() + v;
        CpuState { flags: Flags { carry: r > 0xffff, ..self.flags }, ..self.with_hl(wrap16(r)) }
    }

    pub open spec fn advance(self, len: int) -> CpuState {
        CpuState { pc: wrap16(self.pc + len), ..self }
    }

    pub open spec fn in_range(self, address: u16) -> bool {
        address < self.memory.len()
    }

    pub open spec fn read_byte(self, address: u16) -> Result<u8, EmuError> {
        if self.in_range(address) {
            Ok(self.memory[address as int])
        } else {
            Err(EmuError::AddressOutOfRange { address })
        }
    }

    /// A little-endian word: low byte at `address`, high byte after it.
    pub open spec fn read_word(self, address: u16) -> Result<u16, EmuError> {
        let next = wrap16(address + 1);
        if !self.in_range(address) {
            Err(EmuError::AddressOutOfRange { address })
        } else if !self.in_range(next) {
            Err(EmuError::AddressOutOfRange { address: next })
        } else {
            Ok(pair(self.memory[next as int], self.memory[address as int]))
        }
    }

    pub open spec fn write_byte(self, address: u16, v: u8) -> Result<CpuState, EmuError> {
        if self.in_range(address) {
            Ok(CpuState { memory: self.memory.update(address as int, v), ..self })
        } else {
            Err(EmuError::AddressOutOfRange { address })
        }
    }

    /// Both bytes are checked before either is written.
    pub open spec fn write_word(self, address: u16, v: u16) -> Result<CpuState, EmuError> {
        let next = wrap16(address + 1);
        if !self.in_range(address) {
            Err(EmuError::AddressOutOfRange { address })
        } else if !self.in_range(next) {
            Err(EmuError::AddressOutOfRange { address: next })
        } else {
            Ok(
                CpuState {
                    memory: self.memory.update(address as int, low_byte(v)).update(
                        next as int,
                        high_byte(v),
                    ),
                    ..self
                },
            )
        }
    }

    /// The operand named by `r`: B, C, D, E, H, L, the memory at HL, A.
    pub open spec fn reg(self, r: u8) -> Result<u8, EmuError> {
        if r == 0 {
            Ok(self.b)
        } else if r == 1 {
            Ok(self.c)
        } else if r == 2 {
            Ok(self.d)
        } else if r == 3 {
            Ok(self.e)
        } else if r == 4 {
            Ok(self.h)
        } else if r == 5 {
            Ok(self.l)
        } else if r == 6 {
            self.read_byte(self.hl())
        } else {
            Ok(self.a)
        }
    }

    pub open spec fn with_reg(self, r: u8, v: u8) -> Result<CpuState, EmuError> {
        if r == 0 {
            Ok(CpuState { b: v, ..self })
        } else if r == 1 {
            Ok(CpuState { c: v, ..self })
        } else if r == 2 {
            Ok(CpuState { d: v, ..self })
        } else if r == 3 {
            Ok(CpuState { e: v, ..self })
        } else if r == 4 {
            Ok(CpuState { h: v, ..self })
        } else if r == 5 {
            Ok(CpuState { l: v, ..self })
        } else if r == 6 {
            self.write_byte(self.hl(), v)
        } else {
            Ok(CpuState { a: v, ..self })
        }
    }

    /// Two bytes below the stack pointer receive `v`, which becomes the top.
    pub open spec fn push(self, v: u16) -> Result<CpuState, EmuError> {
        let sp = wrap16(self.sp - 2);
        match self.write_word(sp, v) {
            Ok(s) => Ok(CpuState { sp, ..s }),
            Err(e) => Err(e),
        }
    }

    /// The word on top of the stack, and the state with it removed.
    pub open spec fn pop(self) -> Result<(CpuState, u16), EmuError> {
        match self.read_word(self.sp) {
            Ok(v) => Ok((CpuState { sp: wrap16(self.sp + 2), ..self }, v)),
            Err(e) => Err(e),
        }
    }

    /// Pushes the return address `ret` and continues at `target`.
    pub open spec fn call(self, target: u16, ret: u16) -> Result<CpuState, EmuError> {
        match self.push(ret) {
            Ok(s) => Ok(CpuState { pc: target, ..s }),
            Err(e) => Err(e),
        }
    }

    /// Continues at the address popped from the stack.
    pub open spec fn ret(self) -> Result<CpuState, EmuError> {
        match self.pop() {
            Ok((s, v)) => Ok(CpuState { pc: v, ..s }),
            Err(e) => Err(e),
        }
    }

    /// Condition `cc`: not zero, zero, no carry, carry, parity odd, parity
    /// even, plus, minus.
    pub open spec fn condition(self, cc: u8) -> bool {
        if cc == 0 {
            !self.flags.zero
        } else if cc == 1 {
            self.flags.zero
        } else if cc == 2 {
            !self.flags.carry
        } else if cc == 3 {
            self.flags.carry
        } else if cc == 4 {
            !self.flags.parity
        } else if cc == 5 {
            self.flags.parity
        } else if cc == 6 {
            !self.flags.sign
        } else {
            self.flags.sign
        }
    }

    /// The word that follows the opcode.
    pub open spec fn operand_word(self) -> Result<u16, EmuError> {
        self.read_word(wrap16(self.pc + 1))
    }

    /// The byte that follows the opcode.
    pub open spec fn operand_byte(self) -> Result<u8, EmuError> {
        self.read_byte(wrap16(self.pc + 1))
    }

    /// A vectored interrupt: a call of address 8 * n that returns to the
    /// current instruction and turns interrupts off, if they are on.
    pub open spec fn interrupt(self, n: u16) -> Result<CpuState, EmuError> {
        if self.interrupts_enabled {
            match self.call(wrap16(8 * n), self.pc) {
                Ok(s) => Ok(CpuState { interrupts_enabled: false, ..s }),
                Err(e) => Err(e),
            }
        } else {
            Ok(self)
        }
    }

    /// Opcodes 0x00 to 0x3F.
    pub open spec fn execute_low(self, op: u8) -> StepResult {
        let y = (op / 8) % 8;
        let z = op % 8;
        if z == 0 {
            Ok((self.advance(1), 4))
        } else if z == 1 || z == 3 {
            self.pair_step(op)
        } else if z == 2 {
            self.load_store_step(op)
        } else if z == 4 || z == 5 {
            self.increment_step(op)
        } else if z == 6 {
            match self.operand_byte() {
                Ok(v) => finish(self.with_reg(y, v), 2, 7),
                Err(e) => Err(e),
            }
        } else {
            Ok((self.execute_accumulator(y).advance(1), 4))
        }
    }

    /// LXI, DAD, INX and DCX on the pair that bits 4 and 5 of `op` name.
    #[verifier::opaque]
    pub open spec fn pair_step(self, op: u8) -> StepResult {
        let y = (op / 8) % 8;
        let p = y / 2;
        let q = y % 2;
        if op % 8 == 1 && q == 0 {
            match self.operand_word() {
                Ok(v) => Ok((self.with_rp(p, v).advance(3), 10)),
                Err(e) => Err(e),
            }
        } else if op % 8 == 1 {
            Ok((self.dad(self.rp(p)).advance(1), 10))
        } else {
            let v = if q == 0 {
                wrap16(self.rp(p) + 1)
            } else {
                wrap16(self.rp(p) - 1)
            };
            Ok((self.with_rp(p, v).advance(1), 5))
        }
    }

    /// STAX B, LDAX B, STAX D, LDAX D, SHLD, LHLD, STA, LDA.
    #[verifier::opaque]
    pub open spec fn load_store_step(self, op: u8) -> StepResult {
        let y = (op / 8) % 8;
        let p = y / 2;
        let q = y % 2;
        if p < 2 {
            let address = if p == 0 {
                self.bc()
            } else {
                self.de()
            };
            if q == 0 {
                finish(self.write_byte(address, self.a), 1, 7)
            } else {
                match self.read_byte(address) {
                    Ok(v) => Ok((CpuState { a: v, ..self }.advance(1), 7)),
                    Err(e) => Err(e),
                }
            }
        } else {
            match self.operand_word() {
                Ok(address) => if p == 2 && q == 0 {
                    finish(self.write_word(address, self.hl()), 3, 16)
                } else if p == 2 {
                    match self.read_word(address) {
                        Ok(v) => Ok((self.with_hl(v).advance(3), 16)),
                        Err(e) => Err(e),
                    }
                } else if q == 0 {
                    finish(self.write_byte(address, self.a), 3, 13)
                } else {
                    match self.read_byte(address) {
                        Ok(v) => Ok((CpuState { a: v, ..self }.advance(3), 13)),
                        Err(e) => Err(e),
                    }
                },
                Err(e) => Err(e),
            }
        }
    }

    /// INR (bit 0 of `op` clear) and DCR (set) on the operand that bits 3
    /// to 5 name; the carry flag is left alone.
    #[verifier::opaque]
    pub open spec fn increment_step(self, op: u8) -> StepResult {
        let y = (op / 8) % 8;
        match self.reg(y) {
            Ok(v) => {
                let r = if op % 8 == 4 {
                    wrap8(v + 1)
                } else {
                    wrap8(v - 1)
                };
                let s = CpuState { flags: self.flags.all_but_carry_of(r), ..self };
                finish(
                    s.with_reg(y, r),
                    1,
                    if y == 6 {
                        10
                    } else {
                        5
                    },
                )
            },
            Err(e) => Err(e),
        }
    }

    /// The one-byte operations on the accumulator and the carry: RLC, RRC,
    /// RAL, RAR, DAA, CMA, STC, CMC.
    pub open spec fn execute_accumulator(self, y: u8) -> CpuState {
        let a = self.a;
        let f = self.flags;
        if y == 0 {
            CpuState {
                a: wrap8(a * 2 + a / 128),
                flags: Flags { carry: a >= 128, ..f },
                ..self
            }
        } else if y == 1 {
            CpuState {
                a: (a / 2 + (a % 2) * 128) as u8,
                flags: Flags { carry: a % 2 == 1, ..f },
                ..self
            }
        } else if y == 2 {
            CpuState {
                a: wrap8(
                    a * 2 + if f.carry {
                        1int
                    } else {
                        0
                    },
                ),
                flags: Flags { carry: a >= 128, ..f },
                ..self
            }
        } else if y == 3 {
            CpuState {
                a: (a / 2 + if f.carry {
                    128int
                } else {
                    0
                }) as u8,
                flags: Flags { carry: a % 2 == 1, ..f },
                ..self
            }
        } else if y == 4 {
            CpuState { a: daa(f, a).0, flags: daa(f, a).1, ..self }
        } else if y == 5 {
            CpuState { a: (255 - a) as u8, ..self }
        } else if y == 6 {
            CpuState { flags: Flags { carry: true, ..f }, ..self }
        } else {
            CpuState { flags: Flags { carry: !f.carry, ..f }, ..self }
        }
    }

    /// Opcodes 0x40 to 0x7F: MOV, and HLT in place of MOV M,M.
    pub open spec fn execute_move(self, op: u8) -> StepResult {
        let y = (op / 8) % 8;
        let z = op % 8;
        if y == 6 && z == 6 {
            Ok((CpuState { halted: true, ..self }.advance(1), 7))
        } else {
            match self.reg(z) {
                Ok(v) => finish(
                    self.with_reg(y, v),
                    1,
                    if y == 6 || z == 6 {
                        7
                    } else {
                        5
                    },
                ),
                Err(e) => Err(e),
            }
        }
    }

    /// Opcodes 0x80 to 0xBF: ADD, ADC, SUB, SBB, ANA, XRA, ORA, CMP.
    pub open spec fn execute_arith(self, op: u8) -> StepResult {
        let y = (op / 8) % 8;
        let z = op % 8;
        match self.reg(z) {
            Ok(v) => Ok(
                (
                    self.apply_alu(y, v).advance(1),
                    if z == 6 {
                        7
                    } else {
                        4
                    },
                ),
            ),
            Err(e) => Err(e),
        }
    }

    /// Opcodes 0xC0 to 0xFF, with the port byte `input` that IN reads.
    pub open spec fn execute_high(self, op: u8, input: u8) -> StepResult {
        let y = (op / 8) % 8;
        let z = op % 8;
        if z == 0 || z == 1 {
            self.return_step(op)
        } else if z == 2 || z == 3 {
            self.jump_step(op, input)
        } else if z == 6 {
            match self.operand_byte() {
                Ok(v) => Ok((self.apply_alu(y, v).advance(2), 7)),
                Err(e) => Err(e),
            }
        } else {
            self.call_step(op)
        }
    }

    /// Conditional returns, POP, RET, PCHL, SPHL.
    #[verifier::opaque]
    pub open spec fn return_step(self, op: u8) -> StepResult {
        let y = (op / 8) % 8;
        let p = y / 2;
        let q = y % 2;
        if op % 8 == 0 {
            if self.condition(y) {
                transfer(self.ret(), 11)
            } else {
                Ok((self.advance(1), 5))
            }
        } else if q == 0 {
            match self.pop() {
                Ok((s, v)) => Ok((s.with_rp2(p, v).advance(1), 10)),
                Err(e) => Err(e),
            }
        } else if p < 2 {
            transfer(self.ret(), 10)
        } else if p == 2 {
            Ok((CpuState { pc: self.hl(), ..self }, 5))
        } else {
            Ok((CpuState { sp: self.hl(), ..self }.advance(1), 5))
        }
    }

    /// Conditional jumps, JMP, OUT, IN, XTHL, XCHG, DI, EI.
    #[verifier::opaque]
    pub open spec fn jump_step(self, op: u8, input: u8) -> StepResult {
        let y = (op / 8) % 8;
        if op % 8 == 2 {
            if self.condition(y) {
                match self.operand_word() {
                    Ok(target) => Ok((CpuState { pc: target, ..self }, 10)),
                    Err(e) => Err(e),
                }
            } else {
                Ok((self.advance(3), 10))
            }
        } else if y < 2 {
            match self.operand_word() {
                Ok(target) => Ok((CpuState { pc: target, ..self }, 10)),
                Err(e) => Err(e),
            }
        } else if y == 2 {
            match self.operand_byte() {
                Ok(_) => Ok((self.advance(2), 10)),
                Err(e) => Err(e),
            }
        } else if y == 3 {
            match self.operand_byte() {
                Ok(_) => Ok((CpuState { a: input, ..self }.advance(2), 10)),
                Err(e) => Err(e),
            }
        } else if y == 4 {
            match self.pop() {
                Ok((s, v)) => finish(s.with_hl(v).push(self.hl()), 1, 18),
                Err(e) => Err(e),
            }
        } else if y == 5 {
            Ok((self.with_de(self.hl()).with_hl(self.de()).advance(1), 5))
        } else {
            Ok((CpuState { interrupts_enabled: y == 7, ..self }.advance(1), 4))
        }
    }

    /// Conditional calls, CALL, PUSH, RST.
    #[verifier::opaque]
    pub open spec fn call_step(self, op: u8) -> StepResult {
        let y = (op / 8) % 8;
        let z = op % 8;
        let p = y / 2;
        let q = y % 2;
        if z == 4 || (z == 5 && q == 1) {
            if z == 5 || self.condition(y) {
                match self.operand_word() {
                    Ok(target) => transfer(self.call(target, wrap16(self.pc + 3)), 17),
                    Err(e) => Err(e),
                }
            } else {
                Ok((self.advance(3), 11))
            }
        } else if z == 5 {
            finish(self.push(self.rp2(p)), 1, 11)
        } else {
            transfer(self.call((8 * y) as u16, wrap16(self.pc + 1)), 11)
        }
    }

    /// The effect of opcode `op` at the program counter.
    pub open spec fn execute(self, op: u8, input: u8) -> StepResult {
        if op < 0x40 {
            self.execute_low(op)
        } else if op < 0x80 {
            self.execute_move(op)
        } else if op < 0xC0 {
            self.execute_arith(op)
        } else {
            self.execute_high(op, input)
        }
    }

    /// One fetch-decode-execute step; `input` is the byte that an IN
    /// instruction receives from its port.
    pub open spec fn step(self, input: u8) -> StepResult {
        match self.read_byte(self.pc) {
            Ok(op) => self.execute(op, input),
            Err(e) => Err(e),
        }
    }

    /// The device refused the port that the IN or OUT at the program
    /// counter names, with error `e`.
    pub open spec fn refused_by_device(self, e: EmuError) -> bool {
        self.at_port_op() && match self.operand_byte() {
            Ok(port) => e == (EmuError::UnsupportedPort { port }),
            Err(_) => false,
        }
    }

    /// The opcode at the program counter is OUT (0xD3) or IN (0xDB).
    pub open spec fn at_port_op(self) -> bool {
        match self.read_byte(self.pc) {
            Ok(op) => op == 0xD3 || op == 0xDB,
            Err(_) => false,
        }
    }
}

} // verus!
