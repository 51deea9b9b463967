//! The console of a CP/M system, as far as the processor diagnostics use
//! it: a write to port 0 ends the run, a write to port 1 calls the system
//! with the function number in register C.
use vstd::prelude::*;
use crate::cpu::{Em8080, IOState};
use crate::semantics::CpuState;

verus! {

/// Ports of the device; a port at or past this number is refused.
pub const PORTS: usize = 0xFF;

/// The end of the message that starts before `i`: the first `$` at or
/// after `i`, or the end of memory.
pub open spec fn message_end(memory: Seq<u8>, i: int) -> int
    decreases memory.len() - i,
{
    if i >= memory.len() {
        memory.len() as int
    } else if memory[i] == 0x24 {
        i
    } else {
        message_end(memory, i + 1)
    }
}

/// The message printed by system function 9: the bytes from `start` up to
/// the next `$` after it, or to the end of memory; the first byte is
/// printed whatever it is.
pub open spec fn message(memory: Seq<u8>, start: int) -> Seq<u8> {
    if 0 <= start < memory.len() {
        memory.subrange(start, message_end(memory, start + 1))
    } else {
        Seq::empty()
    }
}

proof fn lemma_message_end_bounds(memory: Seq<u8>, i: int)
    requires
        0 <= i,
    ensures
        i <= message_end(memory, i) || i > memory.len(),
        message_end(memory, i) <= memory.len(),
        i <= memory.len() ==> i <= message_end(memory, i),
    decreases memory.len() - i,
{
    if i < memory.len() && memory[i] != 0x24 {
        lemma_message_end_bounds(memory, i + 1);
    }
}

/// The console device: the last byte written to each port, whether the
/// run has ended, and the text printed so far.
pub struct TestIO {
    pub io: Vec<u8>,
    pub test_finished: bool,
    pub text: Vec<u8>,
}

impl TestIO {
    pub fn new() -> (r: Self)
        ensures
            r.io@ == Seq::new(PORTS as nat, |i: int| 0u8),
            !r.test_finished,
            r.text@ == Seq::<u8>::empty(),
    {
        let mut io: Vec<u8> = Vec::new();
        let mut i: usize = 0;
        while i < PORTS
            invariant
                i <= PORTS,
                io@ == Seq::new(i as nat, |j: int| 0u8),
            decreases PORTS - i,
        {
            io.push(0);
            i = i + 1;
            assert(io@ =~= Seq::new(i as nat, |j: int| 0u8));
        }
        TestIO { io, test_finished: false, text: Vec::new() }
    }

    /// The last byte written to `port`; `None` past the last port.
    pub fn read(&self, port: u8) -> (r: Option<u8>)
        ensures
            r == if (port as int) < self.io@.len() {
                Some(self.io@[port as int])
            } else {
                None::<u8>
            },
    {
        if (port as usize) < self.io.len() {
            Some(self.io[port as usize])
        } else {
            None
        }
    }

    /// Records the write; port 0 ends the run; port 1 with C = 2 prints E,
    /// with C = 9 prints the message at DE. Refused past the last port.
    pub fn write(&mut self, cpu: &Em8080, port: u8, value: u8) -> (r: bool)
        ensures
            r == ((port as int) < old(self).io@.len()),
            r ==> final(self).io@ == old(self).io@.update(port as int, value),
            !r ==> final(self).io@ == old(self).io@,
            final(self).test_finished == (old(self).test_finished || (r && port == 0)),
            final(self).text@ == if r && port == 1 && cpu.c == 2 {
                old(self).text@.push(cpu.e)
            } else if r && port == 1 && cpu.c == 9 {
                old(self).text@ + message(cpu.memory@, cpu@.de() as int)
            } else {
                old(self).text@
            },
    {
        if (port as usize) >= self.io.len() {
            return false;
        }
        self.io.set(port as usize, value);
        if port == 0 {
            self.test_finished = true;
        } else if port == 1 {
            if cpu.c == 2 {
                self.text.push(cpu.e);
            } else if cpu.c == 9 {
                self.print_message(cpu);
            }
        }
        true
    }

    /// Appends the message at DE to the text.
    fn print_message(&mut self, cpu: &Em8080)
        ensures
            final(self).text@ == old(self).text@ + message(cpu.memory@, cpu@.de() as int),
            final(self).io@ == old(self).io@,
            final(self).test_finished == old(self).test_finished,
    {
        let start = cpu.get_de() as usize;
        let len = cpu.memory.len();
        if start >= len {
            assert(message(cpu.memory@, start as int) =~= Seq::<u8>::empty());
            assert(self.text@ =~= old(self).text@ + Seq::<u8>::empty());
            return;
        }
        let ghost mem = cpu.memory@;
        proof {
            lemma_message_end_bounds(mem, start + 1int);
        }
        self.text.push(cpu.memory[start]);
        let mut addr: usize = start + 1;
        while addr < len && cpu.memory[addr] != 0x24
            invariant
                start < addr <= len,
                len == mem.len(),
                mem == cpu.memory@,
                message_end(mem, addr as int) == message_end(mem, start + 1),
                self.text@ == old(self).text@ + mem.subrange(start as int, addr as int),
                self.io@ == old(self).io@,
                self.test_finished == old(self).test_finished,
            decreases len - addr,
        {
            self.text.push(cpu.memory[addr]);
            assert(mem.subrange(start as int, addr + 1) =~= mem.subrange(start as int, addr as int).push(
                mem[addr as int],
            ));
            addr = addr + 1;
        }
        assert(message_end(mem, addr as int) == addr);
        assert(self.text@ =~= old(self).text@ + message(mem, start as int));
    }
}

impl IOState for TestIO {
    open spec fn port_in(&self, cpu: CpuState, port: u8) -> Option<u8> {
        if (port as int) < self.io@.len() {
            Some(self.io@[port as int])
        } else {
            None
        }
    }

    open spec fn takes_write(&self, port: u8) -> bool {
        (port as int) < self.io@.len()
    }

    /// The byte is recorded; port 0 ends the run; port 1 with C = 2 prints
    /// E, with C = 9 prints the message at DE.
    open spec fn after_write(&self, cpu: CpuState, port: u8, value: u8, next: Self) -> bool {
        let taken = (port as int) < self.io@.len();
        &&& next.io@ == if taken {
            self.io@.update(port as int, value)
        } else {
            self.io@
        }
        &&& next.test_finished == (self.test_finished || (taken && port == 0))
        &&& next.text@ == if taken && port == 1 && cpu.c == 2 {
            self.text@.push(cpu.e)
        } else if taken && port == 1 && cpu.c == 9 {
            self.text@ + message(cpu.memory, cpu.de() as int)
        } else {
            self.text@
        }
    }

    fn input(&self, cpu: &Em8080, port: u8) -> (r: Option<u8>) {
        self.read(port)
    }

    fn output(&mut self, cpu: &Em8080, port: u8, value: u8) -> (r: bool) {
        self.write(cpu, port, value)
    }
}

} // verus!
