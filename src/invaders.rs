//! The Space Invaders arcade board around the processor: its shift
//! register, its input ports, the frame timing and the video memory.
use vstd::prelude::*;
use vstd::arithmetic::div_mod::lemma_fundamental_div_mod_converse;
use crate::cpu::{Em8080, IOState, MEMORY_SIZE};
use crate::laws::lemma_step_bounds;
use crate::semantics::{CpuState, EmuError, high_byte, low_byte, pair};

verus! {

/// Width of the screen in pixels, as the monitor stands.
pub const SCREEN_WIDTH: usize = 224;

/// Height of the screen in pixels.
pub const SCREEN_HEIGHT: usize = 256;

/// Pixels of the screen.
pub const SCREEN_PIXELS: usize = 224 * 256;

/// Clock cycles of one video frame: a 4 MHz processor at 60 frames a second.
pub const CYCLES_PER_FRAME: u64 = 4_000_000 / 60;

/// The first byte of video memory.
pub const VIDEO_START: usize = 0x2400;

/// A 16-bit register whose two bytes can be read and written on their own.
#[derive(Clone, Copy)]
pub struct RegisterPair {
    value: u16,
}

impl View for RegisterPair {
    type V = u16;

    closed spec fn view(&self) -> u16 {
        self.value
    }
}

impl RegisterPair {
    pub fn new() -> (r: Self)
        ensures
            r@ == 0,
    {
        RegisterPair { value: 0 }
    }

    pub fn both(self) -> (r: u16)
        ensures
            r == self@,
    {
        self.value
    }

    pub fn both_mut(&mut self) -> (r: &mut u16)
        ensures
            *r == old(self)@,
            final(self)@ == *final(r),
    {
        &mut self.value
    }

    /// Least significant byte.
    pub fn lsb(self) -> (r: u8)
        ensures
            r == low_byte(self@),
    {
        (self.value % 256) as u8
    }

    /// Most significant byte.
    pub fn msb(self) -> (r: u8)
        ensures
            r == high_byte(self@),
    {
        (self.value / 256) as u8
    }

    /// Replaces the least significant byte.
    pub fn set_lsb(&mut self, v: u8)
        ensures
            final(self)@ == pair(high_byte(old(self)@), v),
    {
        self.value = (self.value / 256) * 256 + v as u16;
    }

    /// Replaces the most significant byte.
    pub fn set_msb(&mut self, v: u8)
        ensures
            final(self)@ == pair(v, low_byte(old(self)@)),
    {
        self.value = v as u16 * 256 + self.value % 256;
    }
}

/// Bit `i` of `v` is set.
pub open spec fn bit_of(v: u8, i: u8) -> bool {
    (v >> i) & 1 == 1
}

/// `v` with bit `i` set to `on`.
pub open spec fn with_bit(v: u8, i: u8, on: bool) -> u8 {
    if on {
        v | (1u8 << i)
    } else {
        v & !(1u8 << i)
    }
}

/// Setting one bit sets that bit and keeps every other.
pub proof fn lemma_with_bit(v: u8, i: u8, on: bool, j: u8)
    requires
        i < 8,
        j < 8,
    ensures
        bit_of(with_bit(v, i, on), j) == if i == j {
            on
        } else {
            bit_of(v, j)
        },
{
    if on {
        assert((((v | (1u8 << i)) >> j) & 1 == 1) == if i == j {
            true
        } else {
            (v >> j) & 1 == 1
        }) by (bit_vector)
            requires
                i < 8,
                j < 8,
        ;
    } else {
        assert((((v & !(1u8 << i)) >> j) & 1 == 1) == if i == j {
            false
        } else {
            (v >> j) & 1 == 1
        }) by (bit_vector)
            requires
                i < 8,
                j < 8,
        ;
    }
}

/// The byte that the shift register shows through its 8-bit window,
/// `amount` bits from the top.
pub open spec fn shifted(value: u16, amount: u8) -> u8 {
    (value >> ((8 - amount % 8) as u16)) as u8
}

/// The state of the player controls.
#[derive(Clone, Copy, Debug, PartialEq, Eq)]
pub struct Controls {
    pub credit: bool,
    pub p1_start: bool,
    pub p2_start: bool,
    pub p1_fire: bool,
    pub p1_left: bool,
    pub p1_right: bool,
    pub p2_fire: bool,
    pub p2_left: bool,
    pub p2_right: bool,
}

/// Port 1 with the controls: credit in bit 0, player 2 start in bit 1,
/// player 1 start in bit 2, bit 3 always set, player 1 fire, left and
/// right in bits 4 to 6; bit 7 is kept.
pub open spec fn port1_with(port: u8, c: Controls) -> u8 {
    with_bit(
        with_bit(
            with_bit(
                with_bit(
                    with_bit(with_bit(with_bit(port, 0, c.credit), 1, c.p2_start), 2, c.p1_start),
                    3,
                    true,
                ),
                4,
                c.p1_fire,
            ),
            5,
            c.p1_left,
        ),
        6,
        c.p1_right,
    )
}

/// Port 2 with player 2 fire, left and right in bits 4 to 6; the other
/// bits are kept.
pub open spec fn port2_with(port: u8, c: Controls) -> u8 {
    with_bit(with_bit(with_bit(port, 4, c.p2_fire), 5, c.p2_left), 6, c.p2_right)
}

/// The state of the board's ports as plain values.
pub struct BoardState {
    pub shift: u16,
    pub amount: u8,
    pub port0: u8,
    pub port1: u8,
    pub port2: u8,
}

/// What a read of `port` gives: the controls on ports 1 and 2, the window
/// of the shift register on port 3; `None` for the other ports.
pub open spec fn board_read(b: BoardState, port: u8) -> Option<u8> {
    if port == 1 {
        Some(b.port1)
    } else if port == 2 {
        Some(b.port2)
    } else if port == 3 {
        Some(shifted(b.shift, b.amount))
    } else {
        None
    }
}

/// The board after `value` is written to `port`: port 2 sets the shift
/// amount, port 4 shifts a byte in from the top, ports 3, 5 and 6 are
/// taken and ignored; `None` for the other ports.
pub open spec fn board_write(b: BoardState, port: u8, value: u8) -> Option<BoardState> {
    if port == 2 {
        Some(BoardState { amount: value % 8, ..b })
    } else if port == 4 {
        Some(BoardState { shift: pair(value, high_byte(b.shift)), ..b })
    } else if port == 3 || port == 5 || port == 6 {
        Some(b)
    } else {
        None
    }
}

/// Writing x and then y to port 4 and n to port 2 makes port 3 show the
/// 16-bit value y * 256 + x through its window, n % 8 bits from the top.
pub proof fn lemma_shift_register(b: BoardState, x: u8, y: u8, n: u8)
    ensures
        match board_write(b, 4, x) {
            Some(b1) => match board_write(b1, 4, y) {
                Some(b2) => match board_write(b2, 2, n) {
                    Some(b3) => board_read(b3, 3) == Some(shifted(pair(y, x), n)),
                    None => false,
                },
                None => false,
            },
            None => false,
        },
{
    assert(high_byte(pair(x, high_byte(b.shift))) == x);
}

/// The board at power-on.
pub open spec fn initial_board() -> BoardState {
    BoardState { shift: 0, amount: 0, port0: 0x70, port1: 0x10, port2: 0 }
}

/// The board after the controls are copied into ports 1 and 2.
pub open spec fn board_with_controls(b: BoardState, c: Controls) -> BoardState {
    BoardState { port1: port1_with(b.port1, c), port2: port2_with(b.port2, c), ..b }
}

/// The ports of the arcade board.
pub struct InvadersIO {
    pub shift_register: RegisterPair,
    pub shift_amount: u8,
    pub port0: u8,
    pub port1: u8,
    pub port2: u8,
}

impl View for InvadersIO {
    type V = BoardState;

    open spec fn view(&self) -> BoardState {
        BoardState {
            shift: self.shift_register@,
            amount: self.shift_amount,
            port0: self.port0,
            port1: self.port1,
            port2: self.port2,
        }
    }
}

impl InvadersIO {
    pub fn new() -> (r: Self)
        ensures
            r.shift_register@ == 0,
            r.shift_amount == 0,
            r.port0 == 0x70,
            r.port1 == 0x10,
            r.port2 == 0,
    {
        InvadersIO {
            shift_register: RegisterPair::new(),
            shift_amount: 0,
            port0: 0b0111_0000,
            port1: 0b0001_0000,
            port2: 0b0000_0000,
        }
    }

    /// Ports 1 and 2 give the controls, port 3 the window of the shift
    /// register; there are no others.
    pub fn read_port(&self, port: u8) -> (r: Option<u8>)
        ensures
            r == if port == 1 {
                Some(self.port1)
            } else if port == 2 {
                Some(self.port2)
            } else if port == 3 {
                Some(shifted(self.shift_register@, self.shift_amount))
            } else {
                None::<u8>
            },
            r == board_read(self@, port),
    {
        if port == 1 {
            Some(self.port1)
        } else if port == 2 {
            Some(self.port2)
        } else if port == 3 {
            Some((self.shift_register.both() >> (8 - self.shift_amount % 8) as u16) as u8)
        } else {
            None
        }
    }

    /// Port 2 sets the shift amount from the low three bits, port 4 shifts
    /// a byte in from the top, ports 3, 5 and 6 (sound) are taken and
    /// ignored; there are no others.
    pub fn write_port(&mut self, port: u8, value: u8) -> (r: bool)
        ensures
            r == (port == 2 || port == 3 || port == 4 || port == 5 || port == 6),
            port == 2 ==> final(self).shift_amount == value % 8 && final(self).shift_register@
                == old(self).shift_register@,
            port == 4 ==> final(self).shift_register@ == pair(value, high_byte(old(self).shift_register@))
                && final(self).shift_amount == old(self).shift_amount,
            port != 2 && port != 4 ==> final(self).shift_register@ == old(self).shift_register@
                && final(self).shift_amount == old(self).shift_amount,
            final(self).port0 == old(self).port0,
            final(self).port1 == old(self).port1,
            final(self).port2 == old(self).port2,
            match board_write(old(self)@, port, value) {
                Some(b) => r && final(self)@ == b,
                None => !r && final(self)@ == old(self)@,
            },
    {
        if port == 2 {
            self.shift_amount = value % 8;
            true
        } else if port == 4 {
            let msb = self.shift_register.msb();
            self.shift_register.set_lsb(msb);
            self.shift_register.set_msb(value);
            true
        } else {
            port == 3 || port == 5 || port == 6
        }
    }

    /// Sets bit `bit` of `port` to `on`.
    pub fn set_key(port: &mut u8, bit: u8, on: bool)
        requires
            bit < 8,
        ensures
            *final(port) == with_bit(*old(port), bit, on),
    {
        if on {
            *port = *port | (1u8 << bit);
        } else {
            *port = *port & !(1u8 << bit);
        }
    }

    /// Copies the controls into ports 1 and 2.
    pub fn update_input(&mut self, controls: &Controls)
        ensures
            final(self).port1 == port1_with(old(self).port1, *controls),
            final(self).port2 == port2_with(old(self).port2, *controls),
            final(self).port0 == old(self).port0,
            final(self).shift_register@ == old(self).shift_register@,
            final(self).shift_amount == old(self).shift_amount,
            final(self)@ == board_with_controls(old(self)@, *controls),
    {
        InvadersIO::set_key(&mut self.port1, 0, controls.credit);
        InvadersIO::set_key(&mut self.port1, 1, controls.p2_start);
        InvadersIO::set_key(&mut self.port1, 2, controls.p1_start);
        InvadersIO::set_key(&mut self.port1, 3, true);
        InvadersIO::set_key(&mut self.port1, 4, controls.p1_fire);
        InvadersIO::set_key(&mut self.port1, 5, controls.p1_left);
        InvadersIO::set_key(&mut self.port1, 6, controls.p1_right);
        InvadersIO::set_key(&mut self.port2, 4, controls.p2_fire);
        InvadersIO::set_key(&mut self.port2, 5, controls.p2_left);
        InvadersIO::set_key(&mut self.port2, 6, controls.p2_right);
    }
}

impl IOState for InvadersIO {
    open spec fn port_in(&self, cpu: CpuState, port: u8) -> Option<u8> {
        board_read(self@, port)
    }

    open spec fn takes_write(&self, port: u8) -> bool {
        board_write(self@, port, 0) is Some
    }

    open spec fn after_write(&self, cpu: CpuState, port: u8, value: u8, next: Self) -> bool {
        match board_write(self@, port, value) {
            Some(b) => next@ == b,
            None => next@ == self@,
        }
    }

    fn input(&self, cpu: &Em8080, port: u8) -> (r: Option<u8>) {
        self.read_port(port)
    }

    fn output(&mut self, cpu: &Em8080, port: u8, value: u8) -> (r: bool) {
        self.write_port(port, value)
    }
}

/// The buffer cell of linear bit `k` of video memory. The screen stands
/// rotated: bit `k` lies in column `k / 256` and row `255 - k % 256`.
pub open spec fn pixel_index(k: int) -> int {
    k / 256 + (255 - k % 256) * 224
}

/// Linear bit `k` of video memory as a colour: white where set, black
/// where clear.
pub open spec fn pixel_color(memory: Seq<u8>, k: int) -> u32 {
    if bit_of(memory[VIDEO_START + k / 8], (k % 8) as u8) {
        0xffff_ffff
    } else {
        0
    }
}

/// The first linear bit of the top or the bottom half of the screen; each
/// half is 0x7000 bits.
pub open spec fn half_start(top_half: bool) -> int {
    if top_half {
        0
    } else {
        0x7000
    }
}

/// The interrupt raised after drawing a half: 1 in the middle of the
/// frame, 2 at its end.
pub open spec fn interrupt_number(top_half: bool) -> u16 {
    if top_half {
        1
    } else {
        2
    }
}

/// The cell of bit `k` lies on the screen and gives back its column and
/// row, so no two bits share a cell.
pub proof fn lemma_pixel_index(k: int)
    requires
        0 <= k < SCREEN_PIXELS,
    ensures
        0 <= pixel_index(k) < SCREEN_PIXELS,
        pixel_index(k) % 224 == k / 256,
        pixel_index(k) / 224 == 255 - k % 256,
{
    let x = k / 256;
    let y = 255 - k % 256;
    assert(0 <= x < 224);
    assert(0 <= y < 256);
    lemma_fundamental_div_mod_converse(x + y * 224, 224, y, x);
    assert(x + y * 224 < 224 * 256) by (nonlinear_arith)
        requires
            0 <= x < 224,
            0 <= y < 256,
    ;
}

/// One instruction on the arcade board: the processor state, the board
/// state and the cycles after it, or the failure. OUT writes the
/// accumulator to the board, IN reads the board.
pub open spec fn machine_step(cpu: CpuState, b: BoardState) -> Result<
    (CpuState, BoardState, u64),
    EmuError,
> {
    match cpu.read_byte(cpu.pc) {
        Err(e) => Err(e),
        Ok(op) => if op == 0xD3 || op == 0xDB {
            match cpu.operand_byte() {
                Err(e) => Err(e),
                Ok(port) => if op == 0xD3 {
                    match board_write(b, port, cpu.a) {
                        Some(b2) => match cpu.step(0) {
                            Ok((c2, cycles)) => Ok((c2, b2, cycles)),
                            Err(e) => Err(e),
                        },
                        None => Err(EmuError::UnsupportedPort { port }),
                    }
                } else {
                    match board_read(b, port) {
                        Some(v) => match cpu.step(v) {
                            Ok((c2, cycles)) => Ok((c2, b, cycles)),
                            Err(e) => Err(e),
                        },
                        None => Err(EmuError::UnsupportedPort { port }),
                    }
                },
            }
        } else {
            match cpu.step(0) {
                Ok((c2, cycles)) => Ok((c2, b, cycles)),
                Err(e) => Err(e),
            }
        },
    }
}

/// Clock cycles of half a frame.
pub open spec fn half_frame_cycles() -> int {
    (CYCLES_PER_FRAME / 2) as int
}

/// Instructions run from (`cpu`, `b`) once `spent` cycles of the half
/// frame are used, until half a frame of cycles is used or the processor
/// halts; the first failure ends the run. Every instruction takes at least
/// 4 cycles (`lemma_machine_step_bounds`), so the run always ends.
pub open spec fn run_half(cpu: CpuState, b: BoardState, spent: int) -> Result<
    (CpuState, BoardState),
    EmuError,
>
    decreases
            (if spent < half_frame_cycles() {
                half_frame_cycles() - spent
            } else {
                0
            }),
{
    if spent >= half_frame_cycles() || cpu.halted {
        Ok((cpu, b))
    } else {
        match machine_step(cpu, b) {
            Err(e) => Err(e),
            Ok((c2, b2, cycles)) => if cycles > 0 {
                run_half(c2, b2, spent + cycles)
            } else {
                Ok((c2, b2))
            },
        }
    }
}

/// Half a frame from (`cpu`, `b`): the state whose video memory is drawn,
/// the state after the interrupt that follows, and the board.
pub open spec fn half_frame(cpu: CpuState, b: BoardState, top_half: bool) -> Result<
    (CpuState, CpuState, BoardState),
    EmuError,
> {
    match run_half(cpu, b, 0) {
        Err(e) => Err(e),
        Ok((drawn, b2)) => match drawn.interrupt(interrupt_number(top_half)) {
            Ok(after) => Ok((drawn, after, b2)),
            Err(e) => Err(e),
        },
    }
}

/// An instruction on the board takes 4 to 18 cycles and keeps the size of
/// memory.
pub proof fn lemma_machine_step_bounds(cpu: CpuState, b: BoardState)
    ensures
        match machine_step(cpu, b) {
            Ok((c2, _, cycles)) => 4 <= cycles <= 18 && c2.memory.len() == cpu.memory.len(),
            Err(_) => true,
        },
{
    lemma_step_bounds(cpu, 0);
    match cpu.operand_byte() {
        Ok(port) => match board_read(b, port) {
            Some(v) => lemma_step_bounds(cpu, v),
            None => {},
        },
        Err(_) => {},
    }
}

/// The arcade machine: processor, board and screen.
pub struct SpaceInvaders {
    cpu: Em8080,
    io_state: InvadersIO,
    window_buffer: Vec<u32>,
    instructions: u64,
    cycles: u64,
    frames: u64,
}

impl SpaceInvaders {
    /// Memory has the size of the board and the buffer one cell per pixel.
    pub closed spec fn wf(&self) -> bool {
        self.cpu.memory.len() == MEMORY_SIZE && self.window_buffer.len() == SCREEN_PIXELS
    }

    pub closed spec fn cpu_state(&self) -> CpuState {
        self.cpu@
    }

    pub closed spec fn screen_view(&self) -> Seq<u32> {
        self.window_buffer@
    }

    pub closed spec fn frame_count(&self) -> u64 {
        self.frames
    }

    pub closed spec fn board(&self) -> BoardState {
        self.io_state@
    }

    /// A machine with empty memory and a black screen.
    pub fn new() -> (r: Self)
        ensures
            r.wf(),
            r.cpu_state() == crate::semantics::reset_state(MEMORY_SIZE as nat),
            r.frame_count() == 0,
            r.screen_view() == Seq::new(SCREEN_PIXELS as nat, |i: int| 0u32),
            r.board() == initial_board(),
    {
        SpaceInvaders {
            cpu: Em8080::new(),
            io_state: InvadersIO::new(),
            window_buffer: black_screen(),
            instructions: 0,
            cycles: 0,
            frames: 0,
        }
    }

    /// A machine with `rom` loaded at address 0, where execution starts;
    /// fails where the image does not fit in memory.
    pub fn from_rom(rom: &[u8]) -> (r: Result<Self, EmuError>)
        ensures
            match r {
                Ok(m) => m.wf() && m.frame_count() == 0 && m.screen_view() == Seq::new(
                    SCREEN_PIXELS as nat,
                    |i: int| 0u32,
                ) && m.board() == initial_board() && m.cpu_state() == (CpuState {
                    memory: crate::semantics::load_image(
                        crate::semantics::reset_state(MEMORY_SIZE as nat).memory,
                        rom@,
                        0,
                    ),
                    ..crate::semantics::reset_state(MEMORY_SIZE as nat)
                }),
                Err(e) => rom@.len() > MEMORY_SIZE && e == (EmuError::ImageOutOfRange {
                    start: 0,
                    len: rom@.len() as usize,
                }),
            },
    {
        let cpu = Em8080::from_rom(rom, 0, 0)?;
        Ok(
            SpaceInvaders {
                cpu,
                io_state: InvadersIO::new(),
                window_buffer: black_screen(),
                instructions: 0,
                cycles: 0,
                frames: 0,
            },
        )
    }

    pub fn cpu(&self) -> (r: &Em8080)
        ensures
            r@ == self.cpu_state(),
    {
        &self.cpu
    }

    /// The screen, row by row, one cell per pixel.
    pub fn buffer(&self) -> (r: &[u32])
        ensures
            r@ == self.screen_view(),
    {
        self.window_buffer.as_slice()
    }

    pub fn frames(&self) -> (r: u64)
        ensures
            r == self.frame_count(),
    {
        self.frames
    }

    /// One frame: the two halves, then the controls are read into the
    /// input ports. Fails where either half fails.
    pub fn step(&mut self, controls: &Controls) -> (r: Result<(), EmuError>)
        requires
            old(self).wf(),
        ensures
            final(self).wf(),
            match half_frame(old(self).cpu_state(), old(self).board(), true) {
                Err(e) => r == Err::<(), EmuError>(e),
                Ok((top, middle, b1)) => match half_frame(middle, b1, false) {
                    Err(e) => r == Err::<(), EmuError>(e),
                    Ok((bottom, end, b2)) => {
                        &&& r is Ok
                        &&& final(self).cpu_state() == end
                        &&& final(self).board() == board_with_controls(b2, *controls)
                        &&& final(self).frame_count() == (if old(self).frame_count() == u64::MAX {
                            0
                        } else {
                            old(self).frame_count() + 1
                        })
                        &&& forall|k: int|
                            0 <= k < SCREEN_PIXELS ==> #[trigger] final(self).screen_view()[pixel_index(k)]
                                == if k < 0x7000 {
                                pixel_color(top.memory, k)
                            } else {
                                pixel_color(bottom.memory, k)
                            }
                    },
                },
            },
    {
        self.half_step(true)?;
        self.half_step(false)?;
        self.finish_frame(controls);
        Ok(())
    }

    /// Ends a frame: counts it and reads the controls into the input ports.
    pub fn finish_frame(&mut self, controls: &Controls)
        requires
            old(self).wf(),
        ensures
            final(self).wf(),
            final(self).cpu_state() == old(self).cpu_state(),
            final(self).screen_view() == old(self).screen_view(),
            final(self).board() == board_with_controls(old(self).board(), *controls),
            final(self).frame_count() == (if old(self).frame_count() == u64::MAX {
                0
            } else {
                old(self).frame_count() + 1
            }),
    {
        self.frames = self.frames.wrapping_add(1);
        self.io_state.update_input(controls);
    }

    /// One instruction, with IN and OUT going to the board.
    #[verifier::spinoff_prover]
    #[verifier::rlimit(50)]
    fn board_step(&mut self) -> (r: Result<u64, EmuError>)
        requires
            old(self).wf(),
        ensures
            final(self).wf(),
            final(self).frames == old(self).frames,
            final(self).window_buffer@ == old(self).window_buffer@,
            match machine_step(old(self).cpu@, old(self).io_state@) {
                Ok((c, b, cycles)) => r == Ok::<u64, EmuError>(cycles) && final(self).cpu@ == c
                    && final(self).io_state@ == b,
                Err(e) => r == Err::<u64, EmuError>(e) && final(self).cpu@ == old(self).cpu@
                    && final(self).io_state@ == old(self).io_state@,
            },
    {
        proof {
            reveal(CpuState::jump_step);
            lemma_machine_step_bounds(self.cpu@, self.io_state@);
        }
        let op = self.cpu.read_byte(self.cpu.pc)?;
        let mut input: u8 = 0;
        if op == 0xD3 || op == 0xDB {
            let port = self.cpu.read_next_byte()?;
            if op == 0xD3 {
                let a = self.cpu.a;
                if !self.io_state.write_port(port, a) {
                    return Err(EmuError::UnsupportedPort { port });
                }
            } else {
                match self.io_state.read_port(port) {
                    Some(v) => {
                        input = v;
                    },
                    None => {
                        return Err(EmuError::UnsupportedPort { port });
                    },
                }
            }
        }
        self.cpu.step_with_input(input)
    }

    /// Runs the processor for half a frame of cycles (or until it halts),
    /// draws that half of the screen, and raises the interrupt of the
    /// middle (1) or the end (2) of the frame.
    #[verifier::spinoff_prover]
    #[verifier::rlimit(50)]
    pub fn half_step(&mut self, top_half: bool) -> (r: Result<(), EmuError>)
        requires
            old(self).wf(),
        ensures
            final(self).wf(),
            final(self).frame_count() == old(self).frame_count(),
            match half_frame(old(self).cpu_state(), old(self).board(), top_half) {
                Err(e) => r == Err::<(), EmuError>(e),
                Ok((drawn, after, b)) => {
                    &&& r is Ok
                    &&& final(self).cpu_state() == after
                    &&& final(self).board() == b
                    &&& forall|k: int|
                        0 <= k < SCREEN_PIXELS ==> #[trigger] final(self).screen_view()[pixel_index(k)]
                            == if half_start(top_half) <= k < half_start(top_half) + 0x7000 {
                            pixel_color(drawn.memory, k)
                        } else {
                            old(self).screen_view()[pixel_index(k)]
                        }
                },
            },
    {
        let mut cycles_spent: u64 = 0;
        while cycles_spent < CYCLES_PER_FRAME / 2 && !self.cpu.halted
            invariant
                self.wf(),
                self.frames == old(self).frames,
                self.window_buffer@ == old(self).window_buffer@,
                cycles_spent <= CYCLES_PER_FRAME / 2 + 18,
                run_half(self.cpu@, self.io_state@, cycles_spent as int) == run_half(
                    old(self).cpu@,
                    old(self).io_state@,
                    0,
                ),
            decreases CYCLES_PER_FRAME / 2 + 18 - cycles_spent,
        {
            let ghost c0 = self.cpu@;
            let ghost b0 = self.io_state@;
            proof {
                lemma_machine_step_bounds(c0, b0);
            }
            let cycles = self.board_step()?;
            cycles_spent = cycles_spent + cycles;
            self.instructions = self.instructions.wrapping_add(1);
            self.cycles = self.cycles.wrapping_add(cycles);
        }
        self.screen(top_half);
        let ghost drawn = self.cpu@;
        let ghost screened = self.screen_view();
        let n: u16 = if top_half {
            1
        } else {
            2
        };
        self.cpu.interrupt(n)?;
        assert forall|k: int| 0 <= k < SCREEN_PIXELS implies #[trigger] self.screen_view()[pixel_index(k)]
            == if half_start(top_half) <= k < half_start(top_half) + 0x7000 {
            pixel_color(drawn.memory, k)
        } else {
            old(self).screen_view()[pixel_index(k)]
        } by {
            assert(screened[pixel_index(k)] == self.screen_view()[pixel_index(k)]);
        }
        Ok(())
    }

    /// Draws one half of the screen from video memory; the other half is
    /// left as it was.
    #[verifier::spinoff_prover]
    #[verifier::rlimit(50)]
    pub fn screen(&mut self, top_half: bool)
        requires
            old(self).wf(),
        ensures
            final(self).wf(),
            final(self).cpu_state() == old(self).cpu_state(),
            final(self).board() == old(self).board(),
            final(self).frame_count() == old(self).frame_count(),
            forall|k: int|
                0 <= k < SCREEN_PIXELS ==> #[trigger] final(self).screen_view()[pixel_index(k)]
                    == if half_start(top_half) <= k < half_start(top_half) + 0x7000 {
                    pixel_color(old(self).cpu_state().memory, k)
                } else {
                    old(self).screen_view()[pixel_index(k)]
                },
    {
        let start_memory: usize = if top_half {
            0x2400
        } else {
            0x3200
        };
        let start_pixel: usize = if top_half {
            0
        } else {
            0x7000
        };
        let ghost old_buffer = self.window_buffer@;
        let mut offset: usize = 0;
        while offset < 0xE00
            invariant
                self.wf(),
                self.cpu == old(self).cpu,
                self.io_state@ == old(self).io_state@,
                self.frames == old(self).frames,
                old_buffer == old(self).window_buffer@,
                start_pixel == half_start(top_half),
                start_memory == VIDEO_START + start_pixel / 8,
                offset <= 0xE00,
                forall|k: int|
                    0 <= k < SCREEN_PIXELS ==> #[trigger] self.window_buffer@[pixel_index(k)] == if start_pixel
                        <= k < start_pixel + 8 * offset {
                        pixel_color(self.cpu.memory@, k)
                    } else {
                        old_buffer[pixel_index(k)]
                    },
            decreases 0xE00 - offset,
        {
            let byte = self.cpu.memory[start_memory + offset];
            let mut bit: usize = 0;
            while bit < 8
                invariant
                    self.wf(),
                    self.cpu == old(self).cpu,
                    self.io_state@ == old(self).io_state@,
                    self.frames == old(self).frames,
                    old_buffer == old(self).window_buffer@,
                    start_pixel == half_start(top_half),
                    start_memory == VIDEO_START + start_pixel / 8,
                    offset < 0xE00,
                    byte == self.cpu.memory@[start_memory + offset],
                    bit <= 8,
                    forall|k: int|
                        0 <= k < SCREEN_PIXELS ==> #[trigger] self.window_buffer@[pixel_index(k)] == if start_pixel
                            <= k < start_pixel + 8 * offset + bit {
                            pixel_color(self.cpu.memory@, k)
                        } else {
                            old_buffer[pixel_index(k)]
                        },
                decreases 8 - bit,
            {
                let color: u32 = if (byte >> (bit as u8)) & 1 == 0 {
                    0x00_00_00_00
                } else {
                    0xff_ff_ff_ff
                };
                let k = start_pixel + 8 * offset + bit;
                let x = k / SCREEN_HEIGHT;
                let y = SCREEN_HEIGHT - 1 - k % SCREEN_HEIGHT;
                proof {
                    lemma_pixel_index(k as int);
                    assert(k as int / 8 == start_pixel as int / 8 + offset);
                    assert(k as int % 8 == bit);
                    let sh = bit as u8;
                    assert(((byte >> sh) & 1 == 0) == !((byte >> sh) & 1 == 1)) by (bit_vector);
                    assert(color == pixel_color(self.cpu.memory@, k as int));
                }
                let ghost before = self.window_buffer@;
                self.window_buffer.set(x + y * SCREEN_WIDTH, color);
                proof {
                    assert forall|k2: int| 0 <= k2 < SCREEN_PIXELS && k2 != k implies pixel_index(k2)
                        != pixel_index(k as int) by {
                        lemma_pixel_index(k2);
                    }
                    assert forall|k2: int| 0 <= k2 < SCREEN_PIXELS implies #[trigger] self.window_buffer@[pixel_index(k2)] == if start_pixel
                        <= k2 < start_pixel + 8 * offset + bit + 1 {
                        pixel_color(self.cpu.memory@, k2)
                    } else {
                        old_buffer[pixel_index(k2)]
                    } by {
                        lemma_pixel_index(k2);
                        if k2 != k {
                            assert(before[pixel_index(k2)] == self.window_buffer@[pixel_index(k2)]);
                        }
                    }
                }
                bit = bit + 1;
            }
            offset = offset + 1;
        }
    }
}

/// A screen of black pixels.
fn black_screen() -> (r: Vec<u32>)
    ensures
        r@ == Seq::new(SCREEN_PIXELS as nat, |i: int| 0u32),
{
    let mut v: Vec<u32> = Vec::new();
    let mut i: usize = 0;
    while i < SCREEN_PIXELS
        invariant
            i <= SCREEN_PIXELS,
            v@ == Seq::new(i as nat, |j: int| 0u32),
        decreases SCREEN_PIXELS - i,
    {
        v.push(0);
        i = i + 1;
        assert(v@ =~= Seq::new(i as nat, |j: int| 0u32));
    }
    v
}

} // verus!
