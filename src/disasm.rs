//! Disassembly: the text of an instruction, from the same decode fields
//! and instruction lengths that the processor follows.
use vstd::prelude::*;
use vstd::pervasive::unreached;
use crate::cpu::Em8080;
use crate::semantics::{CpuState, EmuError, instruction_length, wrap16};

verus! {

/// The operand bytes that follow an opcode.
#[derive(Clone, Copy, Debug, PartialEq, Eq, Structural)]
pub enum Operand {
    /// A one-byte instruction.
    Implied,
    /// The byte after the opcode.
    Byte(u8),
    /// The little-endian word after the opcode.
    Word(u16),
}

/// The operand of the instruction with opcode `op` at `address`, as long
/// as the instruction length says.
pub open spec fn operand_at(s: CpuState, address: u16, op: u8) -> Result<Operand, EmuError> {
    if instruction_length(op) == 3 {
        match s.read_word(wrap16(address + 1)) {
            Ok(w) => Ok(Operand::Word(w)),
            Err(e) => Err(e),
        }
    } else if instruction_length(op) == 2 {
        match s.read_byte(wrap16(address + 1)) {
            Ok(b) => Ok(Operand::Byte(b)),
            Err(e) => Err(e),
        }
    } else {
        Ok(Operand::Implied)
    }
}

/// Bytes of the instruction that opcode `op` begins.
pub fn length_of(op: u8) -> (r: u8)
    ensures
        r == instruction_length(op),
{
    let y = (op / 8) % 8;
    let z = op % 8;
    if op < 0x40 {
        if (z == 1 && y % 2 == 0) || (z == 2 && y >= 4) {
            3
        } else if z == 6 {
            2
        } else {
            1
        }
    } else if op < 0xC0 {
        1
    } else if z == 2 || z == 4 || (z == 3 && y < 2) || (z == 5 && y % 2 == 1) {
        3
    } else if z == 6 || (z == 3 && (y == 2 || y == 3)) {
        2
    } else {
        1
    }
}

/// The register operand `r` of the decode: B, C, D, E, H, L, M, A.
pub open spec fn reg_name(r: u8) -> Seq<char> {
    if r == 0 {
        seq!['B']
    } else if r == 1 {
        seq!['C']
    } else if r == 2 {
        seq!['D']
    } else if r == 3 {
        seq!['E']
    } else if r == 4 {
        seq!['H']
    } else if r == 5 {
        seq!['L']
    } else if r == 6 {
        seq!['M']
    } else {
        seq!['A']
    }
}

/// The register pair `p` of LXI, DAD, INX, DCX, STAX, LDAX.
pub open spec fn pair_name(p: u8) -> Seq<char> {
    if p == 0 {
        seq!['B']
    } else if p == 1 {
        seq!['D']
    } else if p == 2 {
        seq!['H']
    } else {
        seq!['S', 'P']
    }
}

/// The register pair `p` of PUSH and POP.
pub open spec fn stack_pair_name(p: u8) -> Seq<char> {
    if p == 0 {
        seq!['B']
    } else if p == 1 {
        seq!['D']
    } else if p == 2 {
        seq!['H']
    } else {
        seq!['A', 'F']
    }
}

/// The condition `cc` of the conditional jumps, calls and returns.
pub open spec fn cond_name(cc: u8) -> Seq<char> {
    if cc == 0 {
        seq!['N', 'Z']
    } else if cc == 1 {
        seq!['Z']
    } else if cc == 2 {
        seq!['N', 'C']
    } else if cc == 3 {
        seq!['C']
    } else if cc == 4 {
        seq!['P', 'O']
    } else if cc == 5 {
        seq!['P', 'E']
    } else if cc == 6 {
        seq!['P']
    } else {
        seq!['M']
    }
}

/// The operation `k` of the arithmetic and logic group on a register.
pub open spec fn alu_name(k: u8) -> Seq<char> {
    if k == 0 {
        seq!['A', 'D', 'D']
    } else if k == 1 {
        seq!['A', 'D', 'C']
    } else if k == 2 {
        seq!['S', 'U', 'B']
    } else if k == 3 {
        seq!['S', 'B', 'B']
    } else if k == 4 {
        seq!['A', 'N', 'A']
    } else if k == 5 {
        seq!['X', 'R', 'A']
    } else if k == 6 {
        seq!['O', 'R', 'A']
    } else {
        seq!['C', 'M', 'P']
    }
}

/// The operation `k` of the arithmetic and logic group on an immediate byte.
pub open spec fn alu_immediate_name(k: u8) -> Seq<char> {
    if k == 0 {
        seq!['A', 'D', 'I']
    } else if k == 1 {
        seq!['A', 'C', 'I']
    } else if k == 2 {
        seq!['S', 'U', 'I']
    } else if k == 3 {
        seq!['S', 'B', 'I']
    } else if k == 4 {
        seq!['A', 'N', 'I']
    } else if k == 5 {
        seq!['X', 'R', 'I']
    } else if k == 6 {
        seq!['O', 'R', 'I']
    } else {
        seq!['C', 'P', 'I']
    }
}

/// The one-byte accumulator operation `y`.
pub open spec fn accumulator_name(y: u8) -> Seq<char> {
    if y == 0 {
        seq!['R', 'L', 'C']
    } else if y == 1 {
        seq!['R', 'R', 'C']
    } else if y == 2 {
        seq!['R', 'A', 'L']
    } else if y == 3 {
        seq!['R', 'A', 'R']
    } else if y == 4 {
        seq!['D', 'A', 'A']
    } else if y == 5 {
        seq!['C', 'M', 'A']
    } else if y == 6 {
        seq!['S', 'T', 'C']
    } else {
        seq!['C', 'M', 'C']
    }
}

/// The restart number `n` as a digit.
pub open spec fn digit_name(n: u8) -> Seq<char> {
    if n == 0 {
        seq!['0']
    } else if n == 1 {
        seq!['1']
    } else if n == 2 {
        seq!['2']
    } else if n == 3 {
        seq!['3']
    } else if n == 4 {
        seq!['4']
    } else if n == 5 {
        seq!['5']
    } else if n == 6 {
        seq!['6']
    } else {
        seq!['7']
    }
}

/// The mnemonic of opcode `op`, from the same fields that select its
/// effect: bits 6 and 7 (`x`), 3 to 5 (`y`, split into `p` and `q`) and 0
/// to 2 (`z`). The aliases read as the instruction they behave as.
pub open spec fn mnemonic_of(op: u8) -> Seq<char> {
    let y = (op / 8) % 8;
    let z = op % 8;
    let p = y / 2;
    let q = y % 2;
    if op < 0x40 {
        if z == 0 {
            seq!['N', 'O', 'P']
        } else if z == 1 {
            if q == 0 {
                seq!['L', 'X', 'I', ' '] + pair_name(p) + seq![',']
            } else {
                seq!['D', 'A', 'D', ' '] + pair_name(p)
            }
        } else if z == 2 {
            if p < 2 {
                (if q == 0 {
                    seq!['S', 'T', 'A', 'X', ' ']
                } else {
                    seq!['L', 'D', 'A', 'X', ' ']
                }) + pair_name(p)
            } else if p == 2 {
                if q == 0 {
                    seq!['S', 'H', 'L', 'D']
                } else {
                    seq!['L', 'H', 'L', 'D']
                }
            } else if q == 0 {
                seq!['S', 'T', 'A']
            } else {
                seq!['L', 'D', 'A']
            }
        } else if z == 3 {
            (if q == 0 {
                seq!['I', 'N', 'X', ' ']
            } else {
                seq!['D', 'C', 'X', ' ']
            }) + pair_name(p)
        } else if z == 4 {
            seq!['I', 'N', 'R', ' '] + reg_name(y)
        } else if z == 5 {
            seq!['D', 'C', 'R', ' '] + reg_name(y)
        } else if z == 6 {
            seq!['M', 'V', 'I', ' '] + reg_name(y) + seq![',']
        } else {
            accumulator_name(y)
        }
    } else if op < 0x80 {
        if y == 6 && z == 6 {
            seq!['H', 'L', 'T']
        } else {
            seq!['M', 'O', 'V', ' '] + reg_name(y) + seq![','] + reg_name(z)
        }
    } else if op < 0xC0 {
        alu_name(y) + seq![' '] + reg_name(z)
    } else if z == 0 {
        seq!['R'] + cond_name(y)
    } else if z == 1 {
        if q == 0 {
            seq!['P', 'O', 'P', ' '] + stack_pair_name(p)
        } else if p < 2 {
            seq!['R', 'E', 'T']
        } else if p == 2 {
            seq!['P', 'C', 'H', 'L']
        } else {
            seq!['S', 'P', 'H', 'L']
        }
    } else if z == 2 {
        seq!['J'] + cond_name(y)
    } else if z == 3 {
        if y < 2 {
            seq!['J', 'M', 'P']
        } else if y == 2 {
            seq!['O', 'U', 'T']
        } else if y == 3 {
            seq!['I', 'N']
        } else if y == 4 {
            seq!['X', 'T', 'H', 'L']
        } else if y == 5 {
            seq!['X', 'C', 'H', 'G']
        } else if y == 6 {
            seq!['D', 'I']
        } else {
            seq!['E', 'I']
        }
    } else if z == 4 {
        seq!['C'] + cond_name(y)
    } else if z == 5 {
        if q == 0 {
            seq!['P', 'U', 'S', 'H', ' '] + stack_pair_name(p)
        } else {
            seq!['C', 'A', 'L', 'L']
        }
    } else if z == 6 {
        alu_immediate_name(y)
    } else {
        seq!['R', 'S', 'T', ' '] + digit_name(y)
    }
}
/// The mnemonic of opcode `op` with its register operands; the aliases
/// read as the instruction they behave as.
pub fn mnemonic(op: u8) -> (r: &'static str)
    ensures
        r@ == mnemonic_of(op),
{
    if op < 0x40 {
        mnemonic_low(op)
    } else if op < 0x80 {
        mnemonic_move(op)
    } else if op < 0xC0 {
        mnemonic_arith(op)
    } else {
        mnemonic_high(op)
    }
}

/// Opcodes 0x00 to 0x3F.
#[verifier::spinoff_prover]
#[verifier::rlimit(100)]
fn mnemonic_low(op: u8) -> (r: &'static str)
    requires
        op < 0x40,
    ensures
        r@ =~= mnemonic_of(op),
{
    match op {
        0x00 | 0x08 | 0x10 | 0x18 | 0x20 | 0x28 | 0x30 | 0x38 => {
            proof {
                reveal_strlit("NOP");
            }
            "NOP"
        },
        0x01 => {
            proof {
                reveal_strlit("LXI B,");
            }
            "LXI B,"
        },
        0x02 => {
            proof {
                reveal_strlit("STAX B");
            }
            "STAX B"
        },
        0x03 => {
            proof {
                reveal_strlit("INX B");
            }
            "INX B"
        },
        0x04 => {
            proof {
                reveal_strlit("INR B");
            }
            "INR B"
        },
        0x05 => {
            proof {
                reveal_strlit("DCR B");
            }
            "DCR B"
        },
        0x06 => {
            proof {
                reveal_strlit("MVI B,");
            }
            "MVI B,"
        },
        0x07 => {
            proof {
                reveal_strlit("RLC");
            }
            "RLC"
        },
        0x09 => {
            proof {
                reveal_strlit("DAD B");
            }
            "DAD B"
        },
        0x0A => {
            proof {
                reveal_strlit("LDAX B");
            }
            "LDAX B"
        },
        0x0B => {
            proof {
                reveal_strlit("DCX B");
            }
            "DCX B"
        },
        0x0C => {
            proof {
                reveal_strlit("INR C");
            }
            "INR C"
        },
        0x0D => {
            proof {
                reveal_strlit("DCR C");
            }
            "DCR C"
        },
        0x0E => {
            proof {
                reveal_strlit("MVI C,");
            }
            "MVI C,"
        },
        0x0F => {
            proof {
                reveal_strlit("RRC");
            }
            "RRC"
        },
        0x11 => {
            proof {
                reveal_strlit("LXI D,");
            }
            "LXI D,"
        },
        0x12 => {
            proof {
                reveal_strlit("STAX D");
            }
            "STAX D"
        },
        0x13 => {
            proof {
                reveal_strlit("INX D");
            }
            "INX D"
        },
        0x14 => {
            proof {
                reveal_strlit("INR D");
            }
            "INR D"
        },
        0x15 => {
            proof {
                reveal_strlit("DCR D");
            }
            "DCR D"
        },
        0x16 => {
            proof {
                reveal_strlit("MVI D,");
            }
            "MVI D,"
        },
        0x17 => {
            proof {
                reveal_strlit("RAL");
            }
            "RAL"
        },
        0x19 => {
            proof {
                reveal_strlit("DAD D");
            }
            "DAD D"
        },
        0x1A => {
            proof {
                reveal_strlit("LDAX D");
            }
            "LDAX D"
        },
        0x1B => {
            proof {
                reveal_strlit("DCX D");
            }
            "DCX D"
        },
        0x1C => {
            proof {
                reveal_strlit("INR E");
            }
            "INR E"
        },
        0x1D => {
            proof {
                reveal_strlit("DCR E");
            }
            "DCR E"
        },
        0x1E => {
            proof {
                reveal_strlit("MVI E,");
            }
            "MVI E,"
        },
        0x1F => {
            proof {
                reveal_strlit("RAR");
            }
            "RAR"
        },
        0x21 => {
            proof {
                reveal_strlit("LXI H,");
            }
            "LXI H,"
        },
        0x22 => {
            proof {
                reveal_strlit("SHLD");
            }
            "SHLD"
        },
        0x23 => {
            proof {
                reveal_strlit("INX H");
            }
            "INX H"
        },
        0x24 => {
            proof {
                reveal_strlit("INR H");
            }
            "INR H"
        },
        0x25 => {
            proof {
                reveal_strlit("DCR H");
            }
            "DCR H"
        },
        0x26 => {
            proof {
                reveal_strlit("MVI H,");
            }
            "MVI H,"
        },
        0x27 => {
            proof {
                reveal_strlit("DAA");
            }
            "DAA"
        },
        0x29 => {
            proof {
                reveal_strlit("DAD H");
            }
            "DAD H"
        },
        0x2A => {
            proof {
                reveal_strlit("LHLD");
            }
            "LHLD"
        },
        0x2B => {
            proof {
                reveal_strlit("DCX H");
            }
            "DCX H"
        },
        0x2C => {
            proof {
                reveal_strlit("INR L");
            }
            "INR L"
        },
        0x2D => {
            proof {
                reveal_strlit("DCR L");
            }
            "DCR L"
        },
        0x2E => {
            proof {
                reveal_strlit("MVI L,");
            }
            "MVI L,"
        },
        0x2F => {
            proof {
                reveal_strlit("CMA");
            }
            "CMA"
        },
        0x31 => {
            proof {
                reveal_strlit("LXI SP,");
            }
            "LXI SP,"
        },
        0x32 => {
            proof {
                reveal_strlit("STA");
            }
            "STA"
        },
        0x33 => {
            proof {
                reveal_strlit("INX SP");
            }
            "INX SP"
        },
        0x34 => {
            proof {
                reveal_strlit("INR M");
            }
            "INR M"
        },
        0x35 => {
            proof {
                reveal_strlit("DCR M");
            }
            "DCR M"
        },
        0x36 => {
            proof {
                reveal_strlit("MVI M,");
            }
            "MVI M,"
        },
        0x37 => {
            proof {
                reveal_strlit("STC");
            }
            "STC"
        },
        0x39 => {
            proof {
                reveal_strlit("DAD SP");
            }
            "DAD SP"
        },
        0x3A => {
            proof {
                reveal_strlit("LDA");
            }
            "LDA"
        },
        0x3B => {
            proof {
                reveal_strlit("DCX SP");
            }
            "DCX SP"
        },
        0x3C => {
            proof {
                reveal_strlit("INR A");
            }
            "INR A"
        },
        0x3D => {
            proof {
                reveal_strlit("DCR A");
            }
            "DCR A"
        },
        0x3E => {
            proof {
                reveal_strlit("MVI A,");
            }
            "MVI A,"
        },
        0x3F => {
            proof {
                reveal_strlit("CMC");
            }
            "CMC"
        },
        _ => unreached(),
    }
}

/// Opcodes 0x40 to 0x7F.
#[verifier::spinoff_prover]
#[verifier::rlimit(100)]
fn mnemonic_move(op: u8) -> (r: &'static str)
    requires
        0x40 <= op < 0x80,
    ensures
        r@ =~= mnemonic_of(op),
{
    match op {
        0x40 => {
            proof {
                reveal_strlit("MOV B,B");
            }
            "MOV B,B"
        },
        0x41 => {
            proof {
                reveal_strlit("MOV B,C");
            }
            "MOV B,C"
        },
        0x42 => {
            proof {
                reveal_strlit("MOV B,D");
            }
            "MOV B,D"
        },
        0x43 => {
            proof {
                reveal_strlit("MOV B,E");
            }
            "MOV B,E"
        },
        0x44 => {
            proof {
                reveal_strlit("MOV B,H");
            }
            "MOV B,H"
        },
        0x45 => {
            proof {
                reveal_strlit("MOV B,L");
            }
            "MOV B,L"
        },
        0x46 => {
            proof {
                reveal_strlit("MOV B,M");
            }
            "MOV B,M"
        },
        0x47 => {
            proof {
                reveal_strlit("MOV B,A");
            }
            "MOV B,A"
        },
        0x48 => {
            proof {
                reveal_strlit("MOV C,B");
            }
            "MOV C,B"
        },
        0x49 => {
            proof {
                reveal_strlit("MOV C,C");
            }
            "MOV C,C"
        },
        0x4A => {
            proof {
                reveal_strlit("MOV C,D");
            }
            "MOV C,D"
        },
        0x4B => {
            proof {
                reveal_strlit("MOV C,E");
            }
            "MOV C,E"
        },
        0x4C => {
            proof {
                reveal_strlit("MOV C,H");
            }
            "MOV C,H"
        },
        0x4D => {
            proof {
                reveal_strlit("MOV C,L");
            }
            "MOV C,L"
        },
        0x4E => {
            proof {
                reveal_strlit("MOV C,M");
            }
            "MOV C,M"
        },
        0x4F => {
            proof {
                reveal_strlit("MOV C,A");
            }
            "MOV C,A"
        },
        0x50 => {
            proof {
                reveal_strlit("MOV D,B");
            }
            "MOV D,B"
        },
        0x51 => {
            proof {
                reveal_strlit("MOV D,C");
            }
            "MOV D,C"
        },
        0x52 => {
            proof {
                reveal_strlit("MOV D,D");
            }
            "MOV D,D"
        },
        0x53 => {
            proof {
                reveal_strlit("MOV D,E");
            }
            "MOV D,E"
        },
        0x54 => {
            proof {
                reveal_strlit("MOV D,H");
            }
            "MOV D,H"
        },
        0x55 => {
            proof {
                reveal_strlit("MOV D,L");
            }
            "MOV D,L"
        },
        0x56 => {
            proof {
                reveal_strlit("MOV D,M");
            }
            "MOV D,M"
        },
        0x57 => {
            proof {
                reveal_strlit("MOV D,A");
            }
            "MOV D,A"
        },
        0x58 => {
            proof {
                reveal_strlit("MOV E,B");
            }
            "MOV E,B"
        },
        0x59 => {
            proof {
                reveal_strlit("MOV E,C");
            }
            "MOV E,C"
        },
        0x5A => {
            proof {
                reveal_strlit("MOV E,D");
            }
            "MOV E,D"
        },
        0x5B => {
            proof {
                reveal_strlit("MOV E,E");
            }
            "MOV E,E"
        },
        0x5C => {
            proof {
                reveal_strlit("MOV E,H");
            }
            "MOV E,H"
        },
        0x5D => {
            proof {
                reveal_strlit("MOV E,L");
            }
            "MOV E,L"
        },
        0x5E => {
            proof {
                reveal_strlit("MOV E,M");
            }
            "MOV E,M"
        },
        0x5F => {
            proof {
                reveal_strlit("MOV E,A");
            }
            "MOV E,A"
        },
        0x60 => {
            proof {
                reveal_strlit("MOV H,B");
            }
            "MOV H,B"
        },
        0x61 => {
            proof {
                reveal_strlit("MOV H,C");
            }
            "MOV H,C"
        },
        0x62 => {
            proof {
                reveal_strlit("MOV H,D");
            }
            "MOV H,D"
        },
        0x63 => {
            proof {
                reveal_strlit("MOV H,E");
            }
            "MOV H,E"
        },
        0x64 => {
            proof {
                reveal_strlit("MOV H,H");
            }
            "MOV H,H"
        },
        0x65 => {
            proof {
                reveal_strlit("MOV H,L");
            }
            "MOV H,L"
        },
        0x66 => {
            proof {
                reveal_strlit("MOV H,M");
            }
            "MOV H,M"
        },
        0x67 => {
            proof {
                reveal_strlit("MOV H,A");
            }
            "MOV H,A"
        },
        0x68 => {
            proof {
                reveal_strlit("MOV L,B");
            }
            "MOV L,B"
        },
        0x69 => {
            proof {
                reveal_strlit("MOV L,C");
            }
            "MOV L,C"
        },
        0x6A => {
            proof {
                reveal_strlit("MOV L,D");
            }
            "MOV L,D"
        },
        0x6B => {
            proof {
                reveal_strlit("MOV L,E");
            }
            "MOV L,E"
        },
        0x6C => {
            proof {
                reveal_strlit("MOV L,H");
            }
            "MOV L,H"
        },
        0x6D => {
            proof {
                reveal_strlit("MOV L,L");
            }
            "MOV L,L"
        },
        0x6E => {
            proof {
                reveal_strlit("MOV L,M");
            }
            "MOV L,M"
        },
        0x6F => {
            proof {
                reveal_strlit("MOV L,A");
            }
            "MOV L,A"
        },
        0x70 => {
            proof {
                reveal_strlit("MOV M,B");
            }
            "MOV M,B"
        },
        0x71 => {
            proof {
                reveal_strlit("MOV M,C");
            }
            "MOV M,C"
        },
        0x72 => {
            proof {
                reveal_strlit("MOV M,D");
            }
            "MOV M,D"
        },
        0x73 => {
            proof {
                reveal_strlit("MOV M,E");
            }
            "MOV M,E"
        },
        0x74 => {
            proof {
                reveal_strlit("MOV M,H");
            }
            "MOV M,H"
        },
        0x75 => {
            proof {
                reveal_strlit("MOV M,L");
            }
            "MOV M,L"
        },
        0x76 => {
            proof {
                reveal_strlit("HLT");
            }
            "HLT"
        },
        0x77 => {
            proof {
                reveal_strlit("MOV M,A");
            }
            "MOV M,A"
        },
        0x78 => {
            proof {
                reveal_strlit("MOV A,B");
            }
            "MOV A,B"
        },
        0x79 => {
            proof {
                reveal_strlit("MOV A,C");
            }
            "MOV A,C"
        },
        0x7A => {
            proof {
                reveal_strlit("MOV A,D");
            }
            "MOV A,D"
        },
        0x7B => {
            proof {
                reveal_strlit("MOV A,E");
            }
            "MOV A,E"
        },
        0x7C => {
            proof {
                reveal_strlit("MOV A,H");
            }
            "MOV A,H"
        },
        0x7D => {
            proof {
                reveal_strlit("MOV A,L");
            }
            "MOV A,L"
        },
        0x7E => {
            proof {
                reveal_strlit("MOV A,M");
            }
            "MOV A,M"
        },
        0x7F => {
            proof {
                reveal_strlit("MOV A,A");
            }
            "MOV A,A"
        },
        _ => unreached(),
    }
}

/// Opcodes 0x80 to 0xBF.
#[verifier::spinoff_prover]
#[verifier::rlimit(100)]
fn mnemonic_arith(op: u8) -> (r: &'static str)
    requires
        0x80 <= op < 0xC0,
    ensures
        r@ =~= mnemonic_of(op),
{
    match op {
        0x80 => {
            proof {
                reveal_strlit("ADD B");
            }
            "ADD B"
        },
        0x81 => {
            proof {
                reveal_strlit("ADD C");
            }
            "ADD C"
        },
        0x82 => {
            proof {
                reveal_strlit("ADD D");
            }
            "ADD D"
        },
        0x83 => {
            proof {
                reveal_strlit("ADD E");
            }
            "ADD E"
        },
        0x84 => {
            proof {
                reveal_strlit("ADD H");
            }
            "ADD H"
        },
        0x85 => {
            proof {
                reveal_strlit("ADD L");
            }
            "ADD L"
        },
        0x86 => {
            proof {
                reveal_strlit("ADD M");
            }
            "ADD M"
        },
        0x87 => {
            proof {
                reveal_strlit("ADD A");
            }
            "ADD A"
        },
        0x88 => {
            proof {
                reveal_strlit("ADC B");
            }
            "ADC B"
        },
        0x89 => {
            proof {
                reveal_strlit("ADC C");
            }
            "ADC C"
        },
        0x8A => {
            proof {
                reveal_strlit("ADC D");
            }
            "ADC D"
        },
        0x8B => {
            proof {
                reveal_strlit("ADC E");
            }
            "ADC E"
        },
        0x8C => {
            proof {
                reveal_strlit("ADC H");
            }
            "ADC H"
        },
        0x8D => {
            proof {
                reveal_strlit("ADC L");
            }
            "ADC L"
        },
        0x8E => {
            proof {
                reveal_strlit("ADC M");
            }
            "ADC M"
        },
        0x8F => {
            proof {
                reveal_strlit("ADC A");
            }
            "ADC A"
        },
        0x90 => {
            proof {
                reveal_strlit("SUB B");
            }
            "SUB B"
        },
        0x91 => {
            proof {
                reveal_strlit("SUB C");
            }
            "SUB C"
        },
        0x92 => {
            proof {
                reveal_strlit("SUB D");
            }
            "SUB D"
        },
        0x93 => {
            proof {
                reveal_strlit("SUB E");
            }
            "SUB E"
        },
        0x94 => {
            proof {
                reveal_strlit("SUB H");
            }
            "SUB H"
        },
        0x95 => {
            proof {
                reveal_strlit("SUB L");
            }
            "SUB L"
        },
        0x96 => {
            proof {
                reveal_strlit("SUB M");
            }
            "SUB M"
        },
        0x97 => {
            proof {
                reveal_strlit("SUB A");
            }
            "SUB A"
        },
        0x98 => {
            proof {
                reveal_strlit("SBB B");
            }
            "SBB B"
        },
        0x99 => {
            proof {
                reveal_strlit("SBB C");
            }
            "SBB C"
        },
        0x9A => {
            proof {
                reveal_strlit("SBB D");
            }
            "SBB D"
        },
        0x9B => {
            proof {
                reveal_strlit("SBB E");
            }
            "SBB E"
        },
        0x9C => {
            proof {
                reveal_strlit("SBB H");
            }
            "SBB H"
        },
        0x9D => {
            proof {
                reveal_strlit("SBB L");
            }
            "SBB L"
        },
        0x9E => {
            proof {
                reveal_strlit("SBB M");
            }
            "SBB M"
        },
        0x9F => {
            proof {
                reveal_strlit("SBB A");
            }
            "SBB A"
        },
        0xA0 => {
            proof {
                reveal_strlit("ANA B");
            }
            "ANA B"
        },
        0xA1 => {
            proof {
                reveal_strlit("ANA C");
            }
            "ANA C"
        },
        0xA2 => {
            proof {
                reveal_strlit("ANA D");
            }
            "ANA D"
        },
        0xA3 => {
            proof {
                reveal_strlit("ANA E");
            }
            "ANA E"
        },
        0xA4 => {
            proof {
                reveal_strlit("ANA H");
            }
            "ANA H"
        },
        0xA5 => {
            proof {
                reveal_strlit("ANA L");
            }
            "ANA L"
        },
        0xA6 => {
            proof {
                reveal_strlit("ANA M");
            }
            "ANA M"
        },
        0xA7 => {
            proof {
                reveal_strlit("ANA A");
            }
            "ANA A"
        },
        0xA8 => {
            proof {
                reveal_strlit("XRA B");
            }
            "XRA B"
        },
        0xA9 => {
            proof {
                reveal_strlit("XRA C");
            }
            "XRA C"
        },
        0xAA => {
            proof {
                reveal_strlit("XRA D");
            }
            "XRA D"
        },
        0xAB => {
            proof {
                reveal_strlit("XRA E");
            }
            "XRA E"
        },
        0xAC => {
            proof {
                reveal_strlit("XRA H");
            }
            "XRA H"
        },
        0xAD => {
            proof {
                reveal_strlit("XRA L");
            }
            "XRA L"
        },
        0xAE => {
            proof {
                reveal_strlit("XRA M");
            }
            "XRA M"
        },
        0xAF => {
            proof {
                reveal_strlit("XRA A");
            }
            "XRA A"
        },
        0xB0 => {
            proof {
                reveal_strlit("ORA B");
            }
            "ORA B"
        },
        0xB1 => {
            proof {
                reveal_strlit("ORA C");
            }
            "ORA C"
        },
        0xB2 => {
            proof {
                reveal_strlit("ORA D");
            }
            "ORA D"
        },
        0xB3 => {
            proof {
                reveal_strlit("ORA E");
            }
            "ORA E"
        },
        0xB4 => {
            proof {
                reveal_strlit("ORA H");
            }
            "ORA H"
        },
        0xB5 => {
            proof {
                reveal_strlit("ORA L");
            }
            "ORA L"
        },
        0xB6 => {
            proof {
                reveal_strlit("ORA M");
            }
            "ORA M"
        },
        0xB7 => {
            proof {
                reveal_strlit("ORA A");
            }
            "ORA A"
        },
        0xB8 => {
            proof {
                reveal_strlit("CMP B");
            }
            "CMP B"
        },
        0xB9 => {
            proof {
                reveal_strlit("CMP C");
            }
            "CMP C"
        },
        0xBA => {
            proof {
                reveal_strlit("CMP D");
            }
            "CMP D"
        },
        0xBB => {
            proof {
                reveal_strlit("CMP E");
            }
            "CMP E"
        },
        0xBC => {
            proof {
                reveal_strlit("CMP H");
            }
            "CMP H"
        },
        0xBD => {
            proof {
                reveal_strlit("CMP L");
            }
            "CMP L"
        },
        0xBE => {
            proof {
                reveal_strlit("CMP M");
            }
            "CMP M"
        },
        0xBF => {
            proof {
                reveal_strlit("CMP A");
            }
            "CMP A"
        },
        _ => unreached(),
    }
}

/// Opcodes 0xC0 to 0xFF.
#[verifier::spinoff_prover]
#[verifier::rlimit(100)]
fn mnemonic_high(op: u8) -> (r: &'static str)
    requires
        0xC0 <= op,
    ensures
        r@ =~= mnemonic_of(op),
{
    match op {
        0xC0 => {
            proof {
                reveal_strlit("RNZ");
            }
            "RNZ"
        },
        0xC1 => {
            proof {
                reveal_strlit("POP B");
            }
            "POP B"
        },
        0xC2 => {
            proof {
                reveal_strlit("JNZ");
            }
            "JNZ"
        },
        0xC3 | 0xCB => {
            proof {
                reveal_strlit("JMP");
            }
            "JMP"
        },
        0xC4 => {
            proof {
                reveal_strlit("CNZ");
            }
            "CNZ"
        },
        0xC5 => {
            proof {
                reveal_strlit("PUSH B");
            }
            "PUSH B"
        },
        0xC6 => {
            proof {
                reveal_strlit("ADI");
            }
            "ADI"
        },
        0xC7 => {
            proof {
                reveal_strlit("RST 0");
            }
            "RST 0"
        },
        0xC8 => {
            proof {
                reveal_strlit("RZ");
            }
            "RZ"
        },
        0xC9 | 0xD9 => {
            proof {
                reveal_strlit("RET");
            }
            "RET"
        },
        0xCA => {
            proof {
                reveal_strlit("JZ");
            }
            "JZ"
        },
        0xCC => {
            proof {
                reveal_strlit("CZ");
            }
            "CZ"
        },
        0xCD | 0xDD | 0xED | 0xFD => {
            proof {
                reveal_strlit("CALL");
            }
            "CALL"
        },
        0xCE => {
            proof {
                reveal_strlit("ACI");
            }
            "ACI"
        },
        0xCF => {
            proof {
                reveal_strlit("RST 1");
            }
            "RST 1"
        },
        0xD0 => {
            proof {
                reveal_strlit("RNC");
            }
            "RNC"
        },
        0xD1 => {
            proof {
                reveal_strlit("POP D");
            }
            "POP D"
        },
        0xD2 => {
            proof {
                reveal_strlit("JNC");
            }
            "JNC"
        },
        0xD3 => {
            proof {
                reveal_strlit("OUT");
            }
            "OUT"
        },
        0xD4 => {
            proof {
                reveal_strlit("CNC");
            }
            "CNC"
        },
        0xD5 => {
            proof {
                reveal_strlit("PUSH D");
            }
            "PUSH D"
        },
        0xD6 => {
            proof {
                reveal_strlit("SUI");
            }
            "SUI"
        },
        0xD7 => {
            proof {
                reveal_strlit("RST 2");
            }
            "RST 2"
        },
        0xD8 => {
            proof {
                reveal_strlit("RC");
            }
            "RC"
        },
        0xDA => {
            proof {
                reveal_strlit("JC");
            }
            "JC"
        },
        0xDB => {
            proof {
                reveal_strlit("IN");
            }
            "IN"
        },
        0xDC => {
            proof {
                reveal_strlit("CC");
            }
            "CC"
        },
        0xDE => {
            proof {
                reveal_strlit("SBI");
            }
            "SBI"
        },
        0xDF => {
            proof {
                reveal_strlit("RST 3");
            }
            "RST 3"
        },
        0xE0 => {
            proof {
                reveal_strlit("RPO");
            }
            "RPO"
        },
        0xE1 => {
            proof {
                reveal_strlit("POP H");
            }
            "POP H"
        },
        0xE2 => {
            proof {
                reveal_strlit("JPO");
            }
            "JPO"
        },
        0xE3 => {
            proof {
                reveal_strlit("XTHL");
            }
            "XTHL"
        },
        0xE4 => {
            proof {
                reveal_strlit("CPO");
            }
            "CPO"
        },
        0xE5 => {
            proof {
                reveal_strlit("PUSH H");
            }
            "PUSH H"
        },
        0xE6 => {
            proof {
                reveal_strlit("ANI");
            }
            "ANI"
        },
        0xE7 => {
            proof {
                reveal_strlit("RST 4");
            }
            "RST 4"
        },
        0xE8 => {
            proof {
                reveal_strlit("RPE");
            }
            "RPE"
        },
        0xE9 => {
            proof {
                reveal_strlit("PCHL");
            }
            "PCHL"
        },
        0xEA => {
            proof {
                reveal_strlit("JPE");
            }
            "JPE"
        },
        0xEB => {
            proof {
                reveal_strlit("XCHG");
            }
            "XCHG"
        },
        0xEC => {
            proof {
                reveal_strlit("CPE");
            }
            "CPE"
        },
        0xEE => {
            proof {
                reveal_strlit("XRI");
            }
            "XRI"
        },
        0xEF => {
            proof {
                reveal_strlit("RST 5");
            }
            "RST 5"
        },
        0xF0 => {
            proof {
                reveal_strlit("RP");
            }
            "RP"
        },
        0xF1 => {
            proof {
                reveal_strlit("POP AF");
            }
            "POP AF"
        },
        0xF2 => {
            proof {
                reveal_strlit("JP");
            }
            "JP"
        },
        0xF3 => {
            proof {
                reveal_strlit("DI");
            }
            "DI"
        },
        0xF4 => {
            proof {
                reveal_strlit("CP");
            }
            "CP"
        },
        0xF5 => {
            proof {
                reveal_strlit("PUSH AF");
            }
            "PUSH AF"
        },
        0xF6 => {
            proof {
                reveal_strlit("ORI");
            }
            "ORI"
        },
        0xF7 => {
            proof {
                reveal_strlit("RST 6");
            }
            "RST 6"
        },
        0xF8 => {
            proof {
                reveal_strlit("RM");
            }
            "RM"
        },
        0xF9 => {
            proof {
                reveal_strlit("SPHL");
            }
            "SPHL"
        },
        0xFA => {
            proof {
                reveal_strlit("JM");
            }
            "JM"
        },
        0xFB => {
            proof {
                reveal_strlit("EI");
            }
            "EI"
        },
        0xFC => {
            proof {
                reveal_strlit("CM");
            }
            "CM"
        },
        0xFE => {
            proof {
                reveal_strlit("CPI");
            }
            "CPI"
        },
        0xFF => {
            proof {
                reveal_strlit("RST 7");
            }
            "RST 7"
        },
        _ => unreached(),
    }
}

/// Opcodes that the processor treats alike read alike: the NOPs, the two
/// JMPs, the two RETs and the four CALLs have one text and one length.
pub proof fn lemma_aliases_read_alike(a: u8, b: u8)
    requires
        (a < 0x40 && a % 8 == 0 && b < 0x40 && b % 8 == 0) || ((a == 0xC3 || a == 0xCB) && (b
            == 0xC3 || b == 0xCB)) || ((a == 0xC9 || a == 0xD9) && (b == 0xC9 || b == 0xD9)) || ((a
            == 0xCD || a == 0xDD || a == 0xED || a == 0xFD) && (b == 0xCD || b == 0xDD || b == 0xED
            || b == 0xFD)),
    ensures
        mnemonic_of(a) == mnemonic_of(b),
        instruction_length(a) == instruction_length(b),
{
}

impl Em8080 {
    /// The instruction at `address`: its mnemonic and the operand that
    /// follows it; fails where the instruction runs outside memory.
    pub fn op_name(&self, address: u16) -> (r: Result<(&'static str, Operand), EmuError>)
        ensures
            match self@.read_byte(address) {
                Ok(op) => match (operand_at(self@, address, op), r) {
                    (Ok(operand), Ok((text, o))) => text@ == mnemonic_of(op) && o == operand,
                    (Err(e), Err(e2)) => e == e2,
                    _ => false,
                },
                Err(e) => r == Err::<(&'static str, Operand), EmuError>(e),
            },
    {
        let op = self.read_byte(address)?;
        let len = length_of(op);
        let next = address.wrapping_add(1);
        let operand = if len == 3 {
            Operand::Word(self.read_word(next)?)
        } else if len == 2 {
            Operand::Byte(self.read_byte(next)?)
        } else {
            Operand::Implied
        };
        Ok((mnemonic(op), operand))
    }
}

} // verus!
