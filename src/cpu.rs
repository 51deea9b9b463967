//! The executable processor: registers, memory, the arithmetic and logic
//! operations, the stack, and the fetch-decode-execute step.
use vstd::prelude::*;
use crate::flags::Flags;
use crate::semantics::{
    CpuState,
    EmuError,
    daa,
    load_image,
    outcome,
    reset_state,
    state_outcome,
    wrap16,
    wrap8,
};

verus! {

/// Bytes of memory of a new processor: the 16 KiB of the arcade board.
pub const MEMORY_SIZE: usize = 0x4000;

/// The device on the far side of the IN and OUT instructions. Both methods
/// see the processor but cannot change it.
pub trait IOState: Sized {
    /// The byte that a read of `port` gives while the processor is `cpu`;
    /// `None` where the device has no such port.
    spec fn port_in(&self, cpu: CpuState, port: u8) -> Option<u8>;

    /// The device takes writes to `port`.
    spec fn takes_write(&self, port: u8) -> bool;

    /// `next` is the device after `value` is written to `port` while the
    /// processor is `cpu`, whether the write was taken or not.
    spec fn after_write(&self, cpu: CpuState, port: u8, value: u8, next: Self) -> bool;

    /// The byte on `port`; `None` where the device has no such port.
    fn input(&self, cpu: &Em8080, port: u8) -> (r: Option<u8>)
        ensures
            r == self.port_in(cpu@, port),
    ;

    /// Writes `value` to `port`; `false` where the device has no such port.
    fn output(&mut self, cpu: &Em8080, port: u8, value: u8) -> (r: bool)
        ensures
            r == old(self).takes_write(port),
            old(self).after_write(cpu@, port, value, *final(self)),
    ;
}

/// What an instruction in state `s` hands to the device `dev` and does with
/// its answer, given the result `r`, the accumulator `a` after it and the
/// device `next` after it. OUT writes the accumulator to the port after
/// the opcode and fails where the device refuses; IN puts the device's
/// byte in the accumulator and fails where the device has none; every
/// other instruction leaves the device alone.
pub open spec fn device_exchange<IO: IOState>(
    s: CpuState,
    dev: IO,
    r: Result<u64, EmuError>,
    a: u8,
    next: IO,
) -> bool {
    match s.read_byte(s.pc) {
        Ok(op) => if op == 0xD3 || op == 0xDB {
            match s.operand_byte() {
                Err(e) => r == Err::<u64, EmuError>(e) && next == dev,
                Ok(port) => if op == 0xD3 {
                    &&& dev.after_write(s, port, s.a, next)
                    &&& r == if dev.takes_write(port) {
                        Ok::<u64, EmuError>(10)
                    } else {
                        Err::<u64, EmuError>(EmuError::UnsupportedPort { port })
                    }
                } else {
                    &&& next == dev
                    &&& match dev.port_in(s, port) {
                        Some(v) => r == Ok::<u64, EmuError>(10) && a == v,
                        None => r == Err::<u64, EmuError>(EmuError::UnsupportedPort { port }),
                    }
                },
            }
        } else {
            next == dev
        },
        Err(_) => next == dev,
    }
}

/// An 8080 processor with its memory.
pub struct Em8080 {
    pub a: u8,
    pub b: u8,
    pub c: u8,
    pub d: u8,
    pub e: u8,
    pub h: u8,
    pub l: u8,
    pub sp: u16,
    pub pc: u16,
    pub memory: Vec<u8>,
    pub flags: Flags,
    pub halted: bool,
    pub interrupts_enabled: bool,
}

impl View for Em8080 {
    type V = CpuState;

    open spec fn view(&self) -> CpuState {
        CpuState {
            a: self.a,
            b: self.b,
            c: self.c,
            d: self.d,
            e: self.e,
            h: self.h,
            l: self.l,
            sp: self.sp,
            pc: self.pc,
            flags: self.flags,
            memory: self.memory@,
            halted: self.halted,
            interrupts_enabled: self.interrupts_enabled,
        }
    }
}

impl Default for Em8080 {
    /// The same as `Em8080::new`.
    fn default() -> (r: Self)
        ensures
            r@ == reset_state(MEMORY_SIZE as nat),
    {
        Em8080::new()
    }
}

impl Em8080 {
    /// A processor with zeroed registers, flags and memory, interrupts on,
    /// not halted.
    pub fn new() -> (r: Self)
        ensures
            r@ == reset_state(MEMORY_SIZE as nat),
    {
        let mut memory: Vec<u8> = Vec::new();
        let mut i: usize = 0;
        while i < MEMORY_SIZE
            invariant
                i <= MEMORY_SIZE,
                memory@ == Seq::new(i as nat, |j: int| 0u8),
            decreases MEMORY_SIZE - i,
        {
            memory.push(0);
            i = i + 1;
            assert(memory@ =~= Seq::new(i as nat, |j: int| 0u8));
        }
        Em8080 {
            a: 0,
            b: 0,
            c: 0,
            d: 0,
            e: 0,
            h: 0,
            l: 0,
            sp: 0,
            pc: 0,
            memory,
            flags: Flags { sign: false, zero: false, aux_carry: false, parity: false, carry: false },
            halted: false,
            interrupts_enabled: true,
        }
    }

    pub fn flags(&self) -> (r: &Flags)
        ensures
            *r == self.flags,
    {
        &self.flags
    }

    /// A new processor with `rom` loaded at `rom_start` and the program
    /// counter at `pc_start`; fails where the image does not fit.
    pub fn from_rom(rom: &[u8], rom_start: usize, pc_start: u16) -> (r: Result<Self, EmuError>)
        ensures
            match r {
                Ok(cpu) => rom_start + rom@.len() <= MEMORY_SIZE && cpu@ == CpuState {
                    pc: pc_start,
                    memory: load_image(reset_state(MEMORY_SIZE as nat).memory, rom@, rom_start as int),
                    ..reset_state(MEMORY_SIZE as nat)
                },
                Err(e) => rom_start + rom@.len() > MEMORY_SIZE && e == (EmuError::ImageOutOfRange {
                    start: rom_start,
                    len: rom@.len() as usize,
                }),
            },
    {
        let mut cpu = Em8080::new();
        cpu.load_rom(rom, rom_start)?;
        cpu.pc = pc_start;
        Ok(cpu)
    }

    /// Copies `rom` into memory from `rom_start` on, leaving the registers
    /// alone; fails, and changes nothing, where the image does not fit.
    pub fn load_rom(&mut self, rom: &[u8], rom_start: usize) -> (r: Result<(), EmuError>)
        ensures
            match r {
                Ok(_) => rom_start + rom@.len() <= old(self).memory.len() && final(self)@
                    == CpuState {
                    memory: load_image(old(self)@.memory, rom@, rom_start as int),
                    ..old(self)@
                },
                Err(e) => rom_start + rom@.len() > old(self).memory.len() && final(self)@ == old(
                    self,
                )@ && e == (EmuError::ImageOutOfRange { start: rom_start, len: rom@.len() as usize }),
            },
    {
        if rom_start > self.memory.len() || rom.len() > self.memory.len() - rom_start {
            return Err(EmuError::ImageOutOfRange { start: rom_start, len: rom.len() });
        }
        let ghost mem0 = self.memory@;
        let mut i: usize = 0;
        while i < rom.len()
            invariant
                i <= rom.len(),
                rom_start + rom@.len() <= self.memory.len(),
                self.memory@.len() == mem0.len(),
                forall|j: int|
                    0 <= j < mem0.len() ==> #[trigger] self.memory@[j] == if rom_start <= j
                        < rom_start + i {
                        rom@[j - rom_start]
                    } else {
                        mem0[j]
                    },
                self.a == old(self).a,
                self.b == old(self).b,
                self.c == old(self).c,
                self.d == old(self).d,
                self.e == old(self).e,
                self.h == old(self).h,
                self.l == old(self).l,
                self.sp == old(self).sp,
                self.pc == old(self).pc,
                self.flags == old(self).flags,
                self.halted == old(self).halted,
                self.interrupts_enabled == old(self).interrupts_enabled,
                mem0 == old(self).memory@,
            decreases rom.len() - i,
        {
            self.memory[rom_start + i] = rom[i];
            i = i + 1;
        }
        assert(self.memory@ =~= load_image(mem0, rom@, rom_start as int));
        Ok(())
    }

    /// A vectored interrupt: where interrupts are on, pushes the program
    /// counter, continues at 8 * `interrupt_num` and turns interrupts off;
    /// where they are off, nothing happens.
    pub fn interrupt(&mut self, interrupt_num: u16) -> (r: Result<(), EmuError>)
        ensures
            state_outcome(r, final(self)@) == old(self)@.interrupt(interrupt_num),
            r is Err ==> final(self)@ == old(self)@,
    {
        if self.interrupts_enabled {
            let pc = self.pc;
            self.push(pc)?;
            self.pc = interrupt_num.wrapping_mul(8);
            self.interrupts_enabled = false;
        }
        Ok(())
    }

    pub fn read_byte(&self, address: u16) -> (r: Result<u8, EmuError>)
        ensures
            r == self@.read_byte(address),
    {
        if (address as usize) < self.memory.len() {
            Ok(self.memory[address as usize])
        } else {
            Err(EmuError::AddressOutOfRange { address })
        }
    }

    /// The little-endian word at `address`.
    pub fn read_word(&self, address: u16) -> (r: Result<u16, EmuError>)
        ensures
            r == self@.read_word(address),
    {
        let lo = self.read_byte(address)?;
        let hi = self.read_byte(address.wrapping_add(1))?;
        Ok(hi as u16 * 256 + lo as u16)
    }

    /// The word after the opcode.
    pub fn read_next_word(&self) -> (r: Result<u16, EmuError>)
        ensures
            r == self@.operand_word(),
    {
        self.read_word(self.pc.wrapping_add(1))
    }

    /// The byte after the opcode.
    pub fn read_next_byte(&self) -> (r: Result<u8, EmuError>)
        ensures
            r == self@.operand_byte(),
    {
        self.read_byte(self.pc.wrapping_add(1))
    }

    pub fn write_byte(&mut self, address: u16, val: u8) -> (r: Result<(), EmuError>)
        ensures
            state_outcome(r, final(self)@) == old(self)@.write_byte(address, val),
            r is Err ==> final(self)@ == old(self)@,
    {
        if (address as usize) < self.memory.len() {
            self.memory[address as usize] = val;
            Ok(())
        } else {
            Err(EmuError::AddressOutOfRange { address })
        }
    }

    /// Writes `word` low byte first; both addresses are checked before
    /// either byte is written.
    pub fn write_word(&mut self, address: u16, word: u16) -> (r: Result<(), EmuError>)
        ensures
            state_outcome(r, final(self)@) == old(self)@.write_word(address, word),
            r is Err ==> final(self)@ == old(self)@,
    {
        let next = address.wrapping_add(1);
        if (address as usize) >= self.memory.len() {
            return Err(EmuError::AddressOutOfRange { address });
        }
        if (next as usize) >= self.memory.len() {
            return Err(EmuError::AddressOutOfRange { address: next });
        }
        self.memory[address as usize] = (word % 256) as u8;
        self.memory[next as usize] = (word / 256) as u8;
        Ok(())
    }

    pub fn set_bc(&mut self, value: u16)
        ensures
            final(self)@ == old(self)@.with_bc(value),
    {
        self.b = (value / 256) as u8;
        self.c = (value % 256) as u8;
    }

    pub fn set_de(&mut self, value: u16)
        ensures
            final(self)@ == old(self)@.with_de(value),
    {
        self.d = (value / 256) as u8;
        self.e = (value % 256) as u8;
    }

    pub fn set_hl(&mut self, value: u16)
        ensures
            final(self)@ == old(self)@.with_hl(value),
    {
        self.h = (value / 256) as u8;
        self.l = (value % 256) as u8;
    }

    pub fn get_bc(&self) -> (r: u16)
        ensures
            r == self@.bc(),
    {
        self.b as u16 * 256 + self.c as u16
    }

    pub fn get_de(&self) -> (r: u16)
        ensures
            r == self@.de(),
    {
        self.d as u16 * 256 + self.e as u16
    }

    pub fn get_hl(&self) -> (r: u16)
        ensures
            r == self@.hl(),
    {
        self.h as u16 * 256 + self.l as u16
    }

    /// The byte at the address in HL.
    pub fn get_m(&self) -> (r: Result<u8, EmuError>)
        ensures
            r == self@.read_byte(self@.hl()),
    {
        self.read_byte(self.get_hl())
    }

    /// Writes the byte at the address in HL.
    pub fn set_m(&mut self, value: u8) -> (r: Result<(), EmuError>)
        ensures
            state_outcome(r, final(self)@) == old(self)@.write_byte(old(self)@.hl(), value),
            r is Err ==> final(self)@ == old(self)@,
    {
        let hl = self.get_hl();
        self.write_byte(hl, value)
    }

    /// The accumulator and the status word as one word.
    pub fn get_af(&self) -> (r: u16)
        ensures
            r == self@.af(),
    {
        self.a as u16 * 256 + self.flags.psw() as u16
    }

    pub fn set_af(&mut self, value: u16)
        ensures
            final(self)@ == old(self)@.with_af(value),
    {
        self.flags.set_psw((value % 256) as u8);
        self.a = (value / 256) as u8;
    }

    /// Increments `operand`; every flag but the carry follows the result.
    pub fn inr(&mut self, operand: u8) -> (r: u8)
        ensures
            r == wrap8(operand + 1),
            final(self)@ == (CpuState { flags: old(self).flags.all_but_carry_of(r), ..old(self)@ }),
    {
        let result = operand.wrapping_add(1);
        self.flags.set_all_but_carry(result);
        result
    }

    /// Decrements `operand`; every flag but the carry follows the result.
    pub fn dcr(&mut self, operand: u8) -> (r: u8)
        ensures
            r == wrap8(operand - 1),
            final(self)@ == (CpuState { flags: old(self).flags.all_but_carry_of(r), ..old(self)@ }),
    {
        let result = operand.wrapping_sub(1);
        self.flags.set_all_but_carry(result);
        result
    }

    /// Adds `operand` to HL; only the carry flag changes.
    pub fn dad(&mut self, operand: u16)
        ensures
            final(self)@ == old(self)@.dad(operand),
    {
        let result: u32 = self.get_hl() as u32 + operand as u32;
        self.flags.carry = result > 0xffff;
        self.set_hl((result % 0x10000) as u16);
    }

    /// Decimal adjustment of the accumulator.
    pub fn daa(&mut self)
        ensures
            final(self)@ == (CpuState {
                a: daa(old(self).flags, old(self).a).0,
                flags: daa(old(self).flags, old(self).a).1,
                ..old(self)@
            }),
    {
        let mut result: u16 = self.a as u16;
        let lsb = result % 16;
        if self.flags.aux_carry || lsb > 9 {
            result = result + 6;
            if result % 16 < lsb {
                self.flags.aux_carry = true;
            }
        }
        let lsb = result % 16;
        let mut msb = (result / 16) % 16;
        if self.flags.carry || msb > 9 {
            msb = msb + 6;
        }
        let result = msb * 16 + lsb;
        self.flags.set_all_but_aux_carry(result);
        self.a = (result % 256) as u8;
    }

    /// Adds `operand` to the accumulator.
    pub fn add(&mut self, operand: u8)
        ensures
            final(self)@ == old(self)@.apply_alu(0, operand),
    {
        let result = self.a as u16 + operand as u16;
        self.flags.set_all(result, self.a % 16 + operand % 16);
        self.a = (result % 256) as u8;
    }

    /// Adds `operand` and the carry to the accumulator.
    #[verifier::spinoff_prover]
    #[verifier::rlimit(60)]
    pub fn adc(&mut self, operand: u8)
        ensures
            final(self)@ == old(self)@.apply_alu(1, operand),
    {
        let carry: u8 = if self.flags.carry {
            1
        } else {
            0
        };
        let result = self.a as u16 + operand as u16 + carry as u16;
        self.flags.set_all(result, self.a % 16 + operand.wrapping_add(carry) % 16);
        self.a = (result % 256) as u8;
    }

    /// Subtracts `operand` from the accumulator.
    pub fn sub(&mut self, operand: u8)
        ensures
            final(self)@ == old(self)@.apply_alu(2, operand),
    {
        let result = (self.a as u16).wrapping_sub(operand as u16);
        self.flags.set_all(result, (self.a % 16).wrapping_sub(operand % 16));
        self.a = (result % 256) as u8;
    }

    /// Subtracts `operand` and the carry from the accumulator.
    #[verifier::spinoff_prover]
    #[verifier::rlimit(60)]
    pub fn sbb(&mut self, operand: u8)
        ensures
            final(self)@ == old(self)@.apply_alu(3, operand),
    {
        let carry: u8 = if self.flags.carry {
            1
        } else {
            0
        };
        let subtrahend: u16 = operand as u16 + carry as u16;
        let result = (self.a as u16).wrapping_sub(subtrahend);
        assert(result == wrap16(self.a - operand - carry));
        let low = operand.wrapping_sub(carry) % 16;
        assert(low == wrap8(operand - carry) % 16);
        self.flags.set_all(result, (self.a % 16).wrapping_sub(low));
        self.a = (result % 256) as u8;
    }

    /// Bitwise AND of the accumulator and `operand`.
    pub fn and(&mut self, operand: u8)
        ensures
            final(self)@ == old(self)@.apply_alu(4, operand),
    {
        self.a = self.a & operand;
        self.flags.set_all(self.a as u16, self.a);
    }

    /// Bitwise XOR of the accumulator and `operand`; the carry is cleared.
    pub fn xor(&mut self, operand: u8)
        ensures
            final(self)@ == old(self)@.apply_alu(5, operand),
    {
        self.a = self.a ^ operand;
        self.flags.set_all(self.a as u16, self.a);
        self.flags.carry = false;
    }

    /// Bitwise OR of the accumulator and `operand`; the auxiliary carry is
    /// left alone.
    pub fn or(&mut self, operand: u8)
        ensures
            final(self)@ == old(self)@.apply_alu(6, operand),
    {
        self.a = self.a | operand;
        self.flags.set_all_but_aux_carry(self.a as u16);
    }

    /// Compares `operand` to the accumulator: the flags of a subtraction,
    /// the accumulator unchanged.
    pub fn cmp(&mut self, operand: u8)
        ensures
            final(self)@ == old(self)@.apply_alu(7, operand),
    {
        let result = (self.a as u16).wrapping_sub(operand as u16);
        self.flags.set_all(result, (self.a % 16).wrapping_sub(operand % 16));
    }

    /// Operation `kind` of the arithmetic and logic group.
    fn alu(&mut self, kind: u8, operand: u8)
        requires
            kind < 8,
        ensures
            final(self)@ == old(self)@.apply_alu(kind, operand),
    {
        if kind == 0 {
            self.add(operand);
        } else if kind == 1 {
            self.adc(operand);
        } else if kind == 2 {
            self.sub(operand);
        } else if kind == 3 {
            self.sbb(operand);
        } else if kind == 4 {
            self.and(operand);
        } else if kind == 5 {
            self.xor(operand);
        } else if kind == 6 {
            self.or(operand);
        } else {
            self.cmp(operand);
        }
    }

    pub fn jmp(&mut self, adr: u16)
        ensures
            final(self)@ == (CpuState { pc: adr, ..old(self)@ }),
    {
        self.pc = adr;
    }

    /// Pushes the address of the instruction after a three-byte CALL and
    /// continues at `adr`.
    pub fn call(&mut self, adr: u16) -> (r: Result<(), EmuError>)
        ensures
            state_outcome(r, final(self)@) == old(self)@.call(adr, wrap16(old(self).pc + 3)),
            r is Err ==> final(self)@ == old(self)@,
    {
        let ret = self.pc.wrapping_add(3);
        self.call_returning(adr, ret)
    }

    /// Pushes `ret` and continues at `adr`.
    fn call_returning(&mut self, adr: u16, ret: u16) -> (r: Result<(), EmuError>)
        ensures
            state_outcome(r, final(self)@) == old(self)@.call(adr, ret),
            r is Err ==> final(self)@ == old(self)@,
    {
        self.push(ret)?;
        self.pc = adr;
        Ok(())
    }

    /// Continues at the address popped from the stack.
    pub fn ret(&mut self) -> (r: Result<(), EmuError>)
        ensures
            state_outcome(r, final(self)@) == old(self)@.ret(),
            r is Err ==> final(self)@ == old(self)@,
    {
        let v = self.pop()?;
        self.pc = v;
        Ok(())
    }

    /// Removes and returns the word on top of the stack.
    pub fn pop(&mut self) -> (r: Result<u16, EmuError>)
        ensures
            match r {
                Ok(v) => old(self)@.pop() == Ok::<(CpuState, u16), EmuError>((final(self)@, v)),
                Err(e) => old(self)@.pop() == Err::<(CpuState, u16), EmuError>(e) && final(self)@
                    == old(self)@,
            },
    {
        let v = self.read_word(self.sp)?;
        self.sp = self.sp.wrapping_add(2);
        Ok(v)
    }

    /// Stores `value` below the stack pointer and moves the pointer down
    /// onto it.
    pub fn push(&mut self, value: u16) -> (r: Result<(), EmuError>)
        ensures
            state_outcome(r, final(self)@) == old(self)@.push(value),
            r is Err ==> final(self)@ == old(self)@,
    {
        let sp = self.sp.wrapping_sub(2);
        self.write_word(sp, value)?;
        self.sp = sp;
        Ok(())
    }

    /// The operand named by `r`: B, C, D, E, H, L, the memory at HL, A.
    fn get_reg(&self, r: u8) -> (v: Result<u8, EmuError>)
        ensures
            v == self@.reg(r),
    {
        if r == 0 {
            Ok(self.b)
        } else if r == 1 {
            Ok(self.c)
        } else if r == 2 {
            Ok(self.d)
        } else if r == 3 {
            Ok(self.e)
        } else if r == 4 {
            Ok(self.h)
        } else if r == 5 {
            Ok(self.l)
        } else if r == 6 {
            self.get_m()
        } else {
            Ok(self.a)
        }
    }

    fn set_reg(&mut self, r: u8, v: u8) -> (res: Result<(), EmuError>)
        ensures
            state_outcome(res, final(self)@) == old(self)@.with_reg(r, v),
            res is Err ==> final(self)@ == old(self)@,
    {
        if r == 0 {
            self.b = v;
        } else if r == 1 {
            self.c = v;
        } else if r == 2 {
            self.d = v;
        } else if r == 3 {
            self.e = v;
        } else if r == 4 {
            self.h = v;
        } else if r == 5 {
            self.l = v;
        } else if r == 6 {
            return self.set_m(v);
        } else {
            self.a = v;
        }
        Ok(())
    }

    /// The pair named by `p` in LXI, INX, DCX and DAD.
    fn get_rp(&self, p: u8) -> (r: u16)
        ensures
            r == self@.rp(p),
    {
        if p == 0 {
            self.get_bc()
        } else if p == 1 {
            self.get_de()
        } else if p == 2 {
            self.get_hl()
        } else {
            self.sp
        }
    }

    fn set_rp(&mut self, p: u8, v: u16)
        ensures
            final(self)@ == old(self)@.with_rp(p, v),
    {
        if p == 0 {
            self.set_bc(v);
        } else if p == 1 {
            self.set_de(v);
        } else if p == 2 {
            self.set_hl(v);
        } else {
            self.sp = v;
        }
    }

    /// The pair named by `p` in PUSH and POP.
    fn get_rp2(&self, p: u8) -> (r: u16)
        ensures
            r == self@.rp2(p),
    {
        if p == 3 {
            self.get_af()
        } else {
            self.get_rp(p)
        }
    }

    fn set_rp2(&mut self, p: u8, v: u16)
        ensures
            final(self)@ == old(self)@.with_rp2(p, v),
    {
        if p == 3 {
            self.set_af(v);
        } else {
            self.set_rp(p, v);
        }
    }

    /// Condition `cc` of the conditional jumps, calls and returns.
    fn condition(&self, cc: u8) -> (r: bool)
        ensures
            r == self@.condition(cc),
    {
        if cc == 0 {
            !self.flags.zero
        } else if cc == 1 {
            self.flags.zero
        } else if cc == 2 {
            !self.flags.carry
        } else if cc == 3 {
            self.flags.carry
        } else if cc == 4 {
            !self.flags.parity
        } else if cc == 5 {
            self.flags.parity
        } else if cc == 6 {
            !self.flags.sign
        } else {
            self.flags.sign
        }
    }

    /// RLC, RRC, RAL, RAR, DAA, CMA, STC, CMC.
    fn accumulator_op(&mut self, y: u8)
        ensures
            final(self)@ == old(self)@.execute_accumulator(y),
    {
        let a = self.a;
        if y == 0 {
            let t: u16 = a as u16 * 2 + (a / 128) as u16;
            self.a = (t % 256) as u8;
            self.flags.carry = a >= 128;
        } else if y == 1 {
            self.a = a / 2 + (a % 2) * 128;
            self.flags.carry = a % 2 == 1;
        } else if y == 2 {
            let carry: u16 = if self.flags.carry {
                1
            } else {
                0
            };
            let t: u16 = a as u16 * 2 + carry;
            self.a = (t % 256) as u8;
            self.flags.carry = a >= 128;
        } else if y == 3 {
            let high: u8 = if self.flags.carry {
                128
            } else {
                0
            };
            self.a = a / 2 + high;
            self.flags.carry = a % 2 == 1;
        } else if y == 4 {
            self.daa();
        } else if y == 5 {
            self.a = 255 - a;
        } else if y == 6 {
            self.flags.carry = true;
        } else {
            self.flags.carry = !self.flags.carry;
        }
    }

    /// Opcodes 0x00 to 0x3F.
    #[verifier::spinoff_prover]
    #[verifier::rlimit(50)]
    fn execute_low(&mut self, op: u8) -> (r: Result<u64, EmuError>)
        requires
            op < 0x40,
        ensures
            outcome(r, final(self)@) == old(self)@.execute_low(op),
            r is Err ==> final(self)@ == old(self)@,
    {
        let y = (op / 8) % 8;
        let z = op % 8;
        if z == 0 {
            self.advance(1);
            Ok(4)
        } else if z == 1 || z == 3 {
            self.pair_op(op)
        } else if z == 2 {
            self.load_store(op)
        } else if z == 4 || z == 5 {
            self.increment_op(op)
        } else if z == 6 {
            let v = self.read_next_byte()?;
            self.set_reg(y, v)?;
            self.advance(2);
            Ok(7)
        } else {
            self.accumulator_op(y);
            self.advance(1);
            Ok(4)
        }
    }

    /// LXI, DAD, INX, DCX.
    #[verifier::spinoff_prover]
    #[verifier::rlimit(50)]
    fn pair_op(&mut self, op: u8) -> (r: Result<u64, EmuError>)
        requires
            op < 0x40,
            op % 8 == 1 || op % 8 == 3,
        ensures
            outcome(r, final(self)@) == old(self)@.pair_step(op),
            r is Err ==> final(self)@ == old(self)@,
    {
        proof {
            reveal(CpuState::pair_step);
        }
        let y = (op / 8) % 8;
        let z = op % 8;
        let p = y / 2;
        let q = y % 2;
        if z == 1 && q == 0 {
            let v = self.read_next_word()?;
            self.set_rp(p, v);
            self.advance(3);
            Ok(10)
        } else if z == 1 {
            let v = self.get_rp(p);
            self.dad(v);
            self.advance(1);
            Ok(10)
        } else {
            let v = self.get_rp(p);
            if q == 0 {
                self.set_rp(p, v.wrapping_add(1));
            } else {
                self.set_rp(p, v.wrapping_sub(1));
            }
            self.advance(1);
            Ok(5)
        }
    }

    /// STAX, LDAX, SHLD, LHLD, STA, LDA.
    #[verifier::spinoff_prover]
    #[verifier::rlimit(50)]
    fn load_store(&mut self, op: u8) -> (r: Result<u64, EmuError>)
        requires
            op < 0x40,
            op % 8 == 2,
        ensures
            outcome(r, final(self)@) == old(self)@.load_store_step(op),
            r is Err ==> final(self)@ == old(self)@,
    {
        proof {
            reveal(CpuState::load_store_step);
        }
        let y = (op / 8) % 8;
        let p = y / 2;
        let q = y % 2;
        if p < 2 {
            let address = if p == 0 {
                self.get_bc()
            } else {
                self.get_de()
            };
            if q == 0 {
                let a = self.a;
                self.write_byte(address, a)?;
            } else {
                self.a = self.read_byte(address)?;
            }
            self.advance(1);
            Ok(7)
        } else {
            let address = self.read_next_word()?;
            if p == 2 && q == 0 {
                let hl = self.get_hl();
                self.write_word(address, hl)?;
                self.advance(3);
                Ok(16)
            } else if p == 2 {
                let v = self.read_word(address)?;
                self.set_hl(v);
                self.advance(3);
                Ok(16)
            } else if q == 0 {
                let a = self.a;
                self.write_byte(address, a)?;
                self.advance(3);
                Ok(13)
            } else {
                self.a = self.read_byte(address)?;
                self.advance(3);
                Ok(13)
            }
        }
    }

    /// INR and DCR.
    #[verifier::spinoff_prover]
    #[verifier::rlimit(50)]
    fn increment_op(&mut self, op: u8) -> (r: Result<u64, EmuError>)
        requires
            op < 0x40,
            op % 8 == 4 || op % 8 == 5,
        ensures
            outcome(r, final(self)@) == old(self)@.increment_step(op),
            r is Err ==> final(self)@ == old(self)@,
    {
        proof {
            reveal(CpuState::increment_step);
        }
        let y = (op / 8) % 8;
        let z = op % 8;
        let v = self.get_reg(y)?;
        let r = if z == 4 {
            self.inr(v)
        } else {
            self.dcr(v)
        };
        self.set_reg(y, r)?;
        self.advance(1);
        if y == 6 {
            Ok(10)
        } else {
            Ok(5)
        }
    }

    /// Opcodes 0x40 to 0x7F: MOV, and HLT in place of MOV M,M.
    #[verifier::spinoff_prover]
    #[verifier::rlimit(50)]
    fn execute_move(&mut self, op: u8) -> (r: Result<u64, EmuError>)
        requires
            0x40 <= op < 0x80,
        ensures
            outcome(r, final(self)@) == old(self)@.execute_move(op),
            r is Err ==> final(self)@ == old(self)@,
    {
        let y = (op / 8) % 8;
        let z = op % 8;
        if y == 6 && z == 6 {
            self.halted = true;
            self.advance(1);
            Ok(7)
        } else {
            let v = self.get_reg(z)?;
            self.set_reg(y, v)?;
            self.advance(1);
            if y == 6 || z == 6 {
                Ok(7)
            } else {
                Ok(5)
            }
        }
    }

    /// Opcodes 0x80 to 0xBF: ADD, ADC, SUB, SBB, ANA, XRA, ORA, CMP.
    #[verifier::spinoff_prover]
    #[verifier::rlimit(50)]
    fn execute_arith(&mut self, op: u8) -> (r: Result<u64, EmuError>)
        requires
            0x80 <= op < 0xC0,
        ensures
            outcome(r, final(self)@) == old(self)@.execute_arith(op),
            r is Err ==> final(self)@ == old(self)@,
    {
        let y = (op / 8) % 8;
        let z = op % 8;
        let v = self.get_reg(z)?;
        self.alu(y, v);
        self.advance(1);
        if z == 6 {
            Ok(7)
        } else {
            Ok(4)
        }
    }

    /// Opcodes 0xC0 to 0xFF but OUT and IN.
    #[verifier::spinoff_prover]
    #[verifier::rlimit(50)]
    fn execute_high(&mut self, op: u8) -> (r: Result<u64, EmuError>)
        requires
            0xC0 <= op,
            op != 0xD3,
            op != 0xDB,
        ensures
            outcome(r, final(self)@) == old(self)@.execute_high(op, 0),
            r is Err ==> final(self)@ == old(self)@,
    {
        let y = (op / 8) % 8;
        let z = op % 8;
        if z == 0 || z == 1 {
            self.return_op(op)
        } else if z == 2 || z == 3 {
            self.jump_op(op)
        } else if z == 6 {
            let v = self.read_next_byte()?;
            self.alu(y, v);
            self.advance(2);
            Ok(7)
        } else {
            self.call_op(op)
        }
    }

    /// Conditional returns, POP, RET, PCHL, SPHL.
    #[verifier::spinoff_prover]
    #[verifier::rlimit(50)]
    fn return_op(&mut self, op: u8) -> (r: Result<u64, EmuError>)
        requires
            0xC0 <= op,
            op % 8 == 0 || op % 8 == 1,
        ensures
            outcome(r, final(self)@) == old(self)@.return_step(op),
            r is Err ==> final(self)@ == old(self)@,
    {
        proof {
            reveal(CpuState::return_step);
        }
        let y = (op / 8) % 8;
        let z = op % 8;
        let p = y / 2;
        let q = y % 2;
        if z == 0 {
            if self.condition(y) {
                self.ret()?;
                Ok(11)
            } else {
                self.advance(1);
                Ok(5)
            }
        } else if q == 0 {
            let v = self.pop()?;
            self.set_rp2(p, v);
            self.advance(1);
            Ok(10)
        } else if p < 2 {
            self.ret()?;
            Ok(10)
        } else if p == 2 {
            let hl = self.get_hl();
            self.jmp(hl);
            Ok(5)
        } else {
            self.sp = self.get_hl();
            self.advance(1);
            Ok(5)
        }
    }

    /// Jumps, XTHL, XCHG, DI, EI.
    #[verifier::spinoff_prover]
    #[verifier::rlimit(50)]
    fn jump_op(&mut self, op: u8) -> (r: Result<u64, EmuError>)
        requires
            0xC0 <= op,
            op != 0xD3,
            op != 0xDB,
            op % 8 == 2 || op % 8 == 3,
        ensures
            outcome(r, final(self)@) == old(self)@.jump_step(op, 0),
            r is Err ==> final(self)@ == old(self)@,
    {
        proof {
            reveal(CpuState::jump_step);
        }
        let y = (op / 8) % 8;
        let z = op % 8;
        if z == 2 {
            if self.condition(y) {
                let target = self.read_next_word()?;
                self.jmp(target);
            } else {
                self.advance(3);
            }
            Ok(10)
        } else if y < 2 {
            let target = self.read_next_word()?;
            self.jmp(target);
            Ok(10)
        } else if y == 4 {
            let hl = self.get_hl();
            let from_stack = self.pop()?;
            self.set_hl(from_stack);
            self.push(hl)?;
            self.advance(1);
            Ok(18)
        } else if y == 5 {
            let de = self.get_de();
            let hl = self.get_hl();
            self.set_de(hl);
            self.set_hl(de);
            self.advance(1);
            Ok(5)
        } else {
            self.interrupts_enabled = y == 7;
            self.advance(1);
            Ok(4)
        }
    }

    /// Conditional calls, PUSH, CALL, RST.
    #[verifier::spinoff_prover]
    #[verifier::rlimit(50)]
    fn call_op(&mut self, op: u8) -> (r: Result<u64, EmuError>)
        requires
            0xC0 <= op,
            op % 8 == 4 || op % 8 == 5 || op % 8 == 7,
        ensures
            outcome(r, final(self)@) == old(self)@.call_step(op),
            r is Err ==> final(self)@ == old(self)@,
    {
        proof {
            reveal(CpuState::call_step);
        }
        let y = (op / 8) % 8;
        let z = op % 8;
        let p = y / 2;
        let q = y % 2;
        if z == 4 || (z == 5 && q == 1) {
            if z == 5 || self.condition(y) {
                let target = self.read_next_word()?;
                self.call(target)?;
                Ok(17)
            } else {
                self.advance(3);
                Ok(11)
            }
        } else if z == 5 {
            let v = self.get_rp2(p);
            self.push(v)?;
            self.advance(1);
            Ok(11)
        } else {
            let ret = self.pc.wrapping_add(1);
            self.call_returning((y as u16) * 8, ret)?;
            Ok(11)
        }
    }

    /// Executes the instruction at the program counter and returns the
    /// clock cycles it took. IN and OUT go through `io_state`; where the
    /// device refuses the port, the step fails and the processor is
    /// unchanged. A failed step changes nothing.
    #[verifier::spinoff_prover]
    #[verifier::rlimit(50)]
    pub fn emulate<IO: IOState>(&mut self, io_state: &mut IO) -> (r: Result<u64, EmuError>)
        ensures
            match r {
                Ok(cycles) => old(self)@.step(final(self).a) == Ok::<(CpuState, u64), EmuError>(
                    (final(self)@, cycles),
                ),
                Err(e) => final(self)@ == old(self)@ && (old(self)@.step(0) == Err::<
                    (CpuState, u64),
                    EmuError,
                >(e) || old(self)@.refused_by_device(e)),
            },
            !old(self)@.at_port_op() ==> (r is Ok <==> old(self)@.step(0) is Ok),
            !old(self)@.at_port_op() ==> *final(io_state) == *old(io_state),
            device_exchange(old(self)@, *old(io_state), r, final(self).a, *final(io_state)),
    {
        let ghost s0 = self@;
        let op = self.read_byte(self.pc)?;
        if op == 0xD3 || op == 0xDB {
            self.port_op(io_state, op)
        } else {
            let r = self.execute_op(op);
            proof {
                lemma_input_only_for_in(s0, op, 0, self.a);
            }
            r
        }
    }

    /// Executes the instruction at the program counter with `input` as the
    /// byte that an IN receives; an OUT writes nowhere. For callers that
    /// drive the ports themselves. A failed step changes nothing.
    #[verifier::spinoff_prover]
    #[verifier::rlimit(50)]
    pub fn step_with_input(&mut self, input: u8) -> (r: Result<u64, EmuError>)
        ensures
            outcome(r, final(self)@) == old(self)@.step(input),
            r is Err ==> final(self)@ == old(self)@,
    {
        let ghost s0 = self@;
        let op = self.read_byte(self.pc)?;
        if op == 0xD3 || op == 0xDB {
            proof {
                reveal(CpuState::jump_step);
            }
            self.read_next_byte()?;
            if op == 0xDB {
                self.a = input;
            }
            self.advance(2);
            Ok(10)
        } else {
            proof {
                lemma_input_only_for_in(s0, op, 0, input);
            }
            self.execute_op(op)
        }
    }

    /// Every opcode but OUT and IN.
    #[verifier::spinoff_prover]
    #[verifier::rlimit(50)]
    fn execute_op(&mut self, op: u8) -> (r: Result<u64, EmuError>)
        requires
            op != 0xD3,
            op != 0xDB,
        ensures
            outcome(r, final(self)@) == old(self)@.execute(op, 0),
            r is Err ==> final(self)@ == old(self)@,
    {
        if op < 0x40 {
            self.execute_low(op)
        } else if op < 0x80 {
            self.execute_move(op)
        } else if op < 0xC0 {
            self.execute_arith(op)
        } else {
            self.execute_high(op)
        }
    }

    /// OUT and IN: the device takes or gives the byte.
    #[verifier::spinoff_prover]
    #[verifier::rlimit(50)]
    fn port_op<IO: IOState>(&mut self, io_state: &mut IO, op: u8) -> (r: Result<u64, EmuError>)
        requires
            op == 0xD3 || op == 0xDB,
            old(self)@.read_byte(old(self).pc) == Ok::<u8, EmuError>(op),
        ensures
            match r {
                Ok(cycles) => old(self)@.execute(op, final(self).a) == Ok::<(CpuState, u64), EmuError>(
                    (final(self)@, cycles),
                ),
                Err(e) => final(self)@ == old(self)@ && (old(self)@.execute(op, 0) == Err::<
                    (CpuState, u64),
                    EmuError,
                >(e) || old(self)@.refused_by_device(e)),
            },
            device_exchange(old(self)@, *old(io_state), r, final(self).a, *final(io_state)),
    {
        proof {
            reveal(CpuState::jump_step);
        }
        let port = self.read_next_byte()?;
        if op == 0xD3 {
            let a = self.a;
            if !io_state.output(self, port, a) {
                return Err(EmuError::UnsupportedPort { port });
            }
            self.advance(2);
            Ok(10)
        } else {
            match io_state.input(self, port) {
                Some(v) => {
                    self.a = v;
                    self.advance(2);
                    Ok(10)
                },
                None => Err(EmuError::UnsupportedPort { port }),
            }
        }
    }

    fn advance(&mut self, len: u16)
        ensures
            final(self)@ == old(self)@.advance(len as int),
    {
        self.pc = self.pc.wrapping_add(len);
    }
}

/// Only IN reads the port byte: for every other opcode the step does not
/// depend on it.
#[verifier::spinoff_prover]
#[verifier::rlimit(50)]
pub proof fn lemma_input_only_for_in(s: CpuState, op: u8, i: u8, j: u8)
    requires
        op != 0xDB,
    ensures
        s.execute(op, i) == s.execute(op, j),
{
    if op >= 0xC0 && (op % 8 == 2 || op % 8 == 3) {
        reveal(CpuState::jump_step);
        assert(s.jump_step(op, i) == s.jump_step(op, j));
    }
}

} // verus!
