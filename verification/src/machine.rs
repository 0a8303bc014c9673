//! The machine: CPU registers, memory, call stack, timers, key state
//! and framebuffer, with the fetch-decode-execute engine.
//!
//! Every public operation is specified against [`MachineV`], the
//! mathematical view of the state: the specification functions
//! ([`spec_execute`] and its helpers) give the exact state transition
//! of each instruction form of the operation table.

use crate::screen::{blank_screen, spec_draw, xor_row};
use vstd::pervasive::VecAdditionalExecFns;
use vstd::prelude::*;
use vstd::wrapping::{u16_specs, u8_specs};

verus! {

/// Bytes of addressable memory.
pub const MEMORY_SIZE: usize = 4096;

/// First address of loaded programs; the region below it is reserved
/// for interpreter data, among it the font glyphs.
pub const PROGRAM_START: usize = 0x200;

/// Largest program that fits between `PROGRAM_START` and the end of
/// memory.
pub const MAX_PROGRAM_LEN: usize = 3584;

/// Base address of the 16 five-byte font glyphs.
pub const FONT_BASE: usize = 0x50;

/// Capacity of the call stack.
pub const STACK_CAPACITY: usize = 16;

/// A condition that stops emulation: a malformed or adversarial
/// program did something the machine cannot recover from.
#[derive(Clone, Copy, Debug, PartialEq, Eq, Structural)]
pub enum FatalError {
    /// A return instruction ran with an empty call stack.
    StackUnderflow,
    /// A call instruction ran with a full call stack.
    StackOverflow,
    /// The program counter left addressable memory.
    AddressOutOfRange,
}

/// Why a program fails to load.
#[derive(Clone, Copy, Debug, PartialEq, Eq, Structural)]
pub enum LoadError {
    /// The byte sequence does not fit between the program start
    /// address and the end of memory.
    ProgramTooLarge,
}

/// What one successful execution step did.
#[derive(Clone, Copy, Debug, PartialEq, Eq, Structural)]
pub enum StepOutcome {
    /// A recognized instruction ran.
    Executed,
    /// The opcode matched no instruction form; the state, the program
    /// counter included, is unchanged. The host may log the value.
    UnknownOpcode(u16),
}

/// The mathematical view of the machine state.
pub ghost struct MachineV {
    /// Program counter.
    pub pc: u16,
    /// Index register, used for indirect memory access.
    pub index: u16,
    /// Stack pointer: number of occupied call-stack slots.
    pub sp: u16,
    /// Addressable memory, 4096 bytes.
    pub memory: Seq<u8>,
    /// General-purpose registers `V0`..`VF`.
    pub v: Seq<u8>,
    /// Call stack slots; those below `sp` hold return addresses.
    pub stack: Seq<u16>,
    /// Framebuffer pixels, row-major 64x32.
    pub screen: Seq<bool>,
    /// Delay timer.
    pub delay: u8,
    /// Sound timer.
    pub sound: u8,
    /// One flag per logical key `0x0`..`0xF`.
    pub keys: Seq<bool>,
}

impl MachineV {
    /// Well-formedness: all state arrays have their fixed sizes and
    /// the stack pointer stays within capacity.
    pub open spec fn wf(self) -> bool {
        &&& self.memory.len() == 4096
        &&& self.v.len() == 16
        &&& self.stack.len() == 16
        &&& self.screen.len() == 2048
        &&& self.keys.len() == 16
        &&& self.sp <= 16
    }
}

/// The machine. All fields are public: the host shell reads the
/// framebuffer and overwrites the key flags each frame; mutation of
/// the rest belongs to the operations below.
pub struct Chip8 {
    /// Program counter.
    pub pc: u16,
    /// Index register.
    pub index: u16,
    /// Stack pointer.
    pub sp: u16,
    /// Addressable memory.
    pub memory: Vec<u8>,
    /// General-purpose registers `V0`..`VF`.
    pub v: Vec<u8>,
    /// Call stack.
    pub stack: Vec<u16>,
    /// Framebuffer pixels, row-major; `true` is lit.
    pub screen: Vec<bool>,
    /// Delay timer.
    pub delay_timer: u8,
    /// Sound timer.
    pub sound_timer: u8,
    /// Key state flags.
    pub keys: Vec<bool>,
}

impl View for Chip8 {
    type V = MachineV;

    open spec fn view(&self) -> MachineV {
        MachineV {
            pc: self.pc,
            index: self.index,
            sp: self.sp,
            memory: self.memory@,
            v: self.v@,
            stack: self.stack@,
            screen: self.screen@,
            delay: self.delay_timer,
            sound: self.sound_timer,
            keys: self.keys@,
        }
    }
}

// ---------------------------------------------------------------------
// Opcode fields
// ---------------------------------------------------------------------

/// High nibble of an opcode: selects the instruction family.
pub open spec fn op_hi(op: u16) -> int {
    op as int / 0x1000
}

/// Second nibble: the first register operand.
pub open spec fn op_x(op: u16) -> int {
    (op as int / 0x100) % 16
}

/// Third nibble: the second register operand.
pub open spec fn op_y(op: u16) -> int {
    (op as int / 16) % 16
}

/// Low nibble: a sub-operation selector or a sprite height.
pub open spec fn op_n(op: u16) -> int {
    op as int % 16
}

/// Low byte: an immediate operand or a sub-operation selector.
pub open spec fn op_nn(op: u16) -> u8 {
    (op % 0x100) as u8
}

/// Low 12 bits: an absolute address operand.
pub open spec fn op_nnn(op: u16) -> u16 {
    (op % 0x1000) as u16
}

/// Whether the opcode matches no instruction form. Such an opcode is
/// non-fatal: the state is left unchanged, the program counter too.
pub open spec fn is_unknown(op: u16) -> bool {
    ||| op_hi(op) == 0 && op_nn(op) != 0xE0 && op_nn(op) != 0xEE
    ||| op_hi(op) == 8 && !(op_n(op) <= 7 || op_n(op) == 0xE)
    ||| op_hi(op) == 0xE && op_nn(op) != 0x9E && op_nn(op) != 0xA1
    ||| op_hi(op) == 0xF && !(op_nn(op) == 0x07 || op_nn(op) == 0x15 || op_nn(op) == 0x18
        || op_nn(op) == 0x1E || op_nn(op) == 0x29 || op_nn(op) == 0x33 || op_nn(op) == 0x55
        || op_nn(op) == 0x65)
}

// ---------------------------------------------------------------------
// Specification of the state transitions
// ---------------------------------------------------------------------

/// The font glyphs: 16 five-byte bitmaps for the hex digits 0..F.
pub open spec fn font_seq() -> Seq<u8> {
    seq![
        0xF0u8, 0x90, 0x90, 0x90, 0xF0,
        0x20, 0x60, 0x20, 0x20, 0x70,
        0xF0, 0x10, 0xF0, 0x80, 0xF0,
        0xF0, 0x10, 0xF0, 0x10, 0xF0,
        0x90, 0x90, 0xF0, 0x10, 0x10,
        0xF0, 0x80, 0xF0, 0x10, 0xF0,
        0xF0, 0x80, 0xF0, 0x90, 0xF0,
        0xF0, 0x10, 0x20, 0x40, 0x40,
        0xF0, 0x90, 0xF0, 0x90, 0xF0,
        0xF0, 0x90, 0xF0, 0x10, 0xF0,
        0xF0, 0x90, 0xF0, 0x90, 0x90,
        0xE0, 0x90, 0xE0, 0x90, 0xE0,
        0xF0, 0x80, 0x80, 0x80, 0xF0,
        0xE0, 0x90, 0x90, 0x90, 0xE0,
        0xF0, 0x80, 0xF0, 0x80, 0xF0,
        0xF0, 0x80, 0xF0, 0x80, 0x80,
    ]
}

/// Memory at construction: zero everywhere but the font region.
pub open spec fn init_memory() -> Seq<u8> {
    Seq::new(4096, |i: int| if 0x50 <= i < 0xA0 { font_seq()[i - 0x50] } else { 0u8 })
}

/// The machine state at construction and after `reset`.
pub open spec fn spec_init() -> MachineV {
    MachineV {
        pc: 0x200,
        index: 0,
        sp: 0,
        memory: init_memory(),
        v: Seq::new(16, |i: int| 0u8),
        stack: Seq::new(16, |i: int| 0u16),
        screen: blank_screen(),
        delay: 0,
        sound: 0,
        keys: Seq::new(16, |i: int| false),
    }
}

/// The big-endian composition of the two bytes at `pc` and `pc + 1`.
pub open spec fn spec_fetch(m: MachineV) -> u16 {
    (m.memory[m.pc as int] * 0x100 + m.memory[m.pc as int + 1]) as u16
}

/// One timer tick: each timer decrements if positive, saturating at
/// zero; nothing else changes.
pub open spec fn spec_tick(m: MachineV) -> MachineV {
    MachineV {
        delay: if m.delay > 0 { (m.delay - 1) as u8 } else { 0 },
        sound: if m.sound > 0 { (m.sound - 1) as u8 } else { 0 },
        ..m
    }
}

/// Memory after a program is copied in at the program start address.
pub open spec fn load_memory(memory: Seq<u8>, program: Seq<u8>) -> Seq<u8> {
    Seq::new(4096, |p: int| if 0x200 <= p < 0x200 + program.len() {
        program[p - 0x200]
    } else {
        memory[p]
    })
}

/// The fatal condition an opcode runs into, if any: a return on an
/// empty stack or a call on a full one. (The third fatal condition,
/// the program counter leaving memory, is a matter of the fetch and
/// appears in [`spec_step_fatal`].)
pub open spec fn spec_fatal(m: MachineV, op: u16) -> Option<FatalError> {
    if op_hi(op) == 0 && op_nn(op) == 0xEE && m.sp == 0 {
        Some(FatalError::StackUnderflow)
    } else if op_hi(op) == 2 && m.sp >= 16 {
        Some(FatalError::StackOverflow)
    } else {
        None
    }
}

/// The fatal condition one whole step runs into, if any.
pub open spec fn spec_step_fatal(m: MachineV) -> Option<FatalError> {
    if m.pc + 1 >= 4096 {
        Some(FatalError::AddressOutOfRange)
    } else {
        spec_fatal(m, spec_fetch(m))
    }
}

/// Program counter after an instruction that may skip the next one:
/// two widths ahead when the condition holds, one otherwise.
pub open spec fn skip_pc(pc: u16, cond: bool) -> u16 {
    if cond {
        u16_specs::wrapping_add(pc, 4)
    } else {
        u16_specs::wrapping_add(pc, 2)
    }
}

/// The first pressed key at or after index `i`, scanning upward.
pub open spec fn first_key_from(keys: Seq<bool>, i: int) -> Option<int>
    decreases 16 - i,
{
    if i < 0 || i >= 16 {
        None
    } else if keys[i] {
        Some(i)
    } else {
        first_key_from(keys, i + 1)
    }
}

/// Memory after the decimal digits of `value` are stored at the
/// wrapped addresses `index`, `index + 1`, `index + 2`: hundreds,
/// tens, ones.
pub open spec fn bcd_memory(memory: Seq<u8>, index: int, value: u8) -> Seq<u8> {
    memory.update(index % 4096, (value / 100) as u8).update(
        (index + 1) % 4096,
        ((value % 100) / 10) as u8,
    ).update((index + 2) % 4096, (value % 10) as u8)
}

/// Memory after registers `V0`..`V(k-1)` are stored sequentially at
/// the wrapped addresses starting at `index`.
pub open spec fn store_regs(memory: Seq<u8>, v: Seq<u8>, index: int, k: int) -> Seq<u8>
    decreases k,
{
    if k <= 0 {
        memory
    } else {
        store_regs(memory, v, index, k - 1).update((index + (k - 1)) % 4096, v[k - 1])
    }
}

/// Registers after `V0`..`V(k-1)` are filled sequentially from the
/// wrapped addresses starting at `index`.
pub open spec fn load_regs(v: Seq<u8>, memory: Seq<u8>, index: int, k: int) -> Seq<u8>
    decreases k,
{
    if k <= 0 {
        v
    } else {
        load_regs(v, memory, index, k - 1).update(k - 1, memory[(index + (k - 1)) % 4096])
    }
}

/// The register-to-register operations (family 8). The flag register
/// is written first where an operation defines flag semantics, then
/// the destination, each step reading the registers as the previous
/// one left them.
pub open spec fn spec_alu(m: MachineV, op: u16) -> MachineV {
    let x = op_x(op);
    let y = op_y(op);
    let n = op_n(op);
    let pc2 = u16_specs::wrapping_add(m.pc, 2);
    if n == 0 || n == 1 {
        MachineV { v: m.v.update(x, m.v[x] | m.v[y]), pc: pc2, ..m }
    } else if n == 2 {
        MachineV { v: m.v.update(x, m.v[x] & m.v[y]), pc: pc2, ..m }
    } else if n == 3 {
        MachineV { v: m.v.update(x, m.v[x] ^ m.v[y]), pc: pc2, ..m }
    } else if n == 4 {
        let carry: u8 = if m.v[x] + m.v[y] > 0xFF { 1u8 } else { 0u8 };
        let sum = u8_specs::wrapping_add(m.v[x], m.v[y]);
        MachineV { v: m.v.update(15, carry).update(x, sum), pc: pc2, ..m }
    } else if n == 5 {
        let v1 = m.v.update(15, if m.v[x] >= m.v[y] { 1u8 } else { 0u8 });
        MachineV { v: v1.update(x, u8_specs::wrapping_sub(v1[x], v1[y])), pc: pc2, ..m }
    } else if n == 6 {
        let v1 = m.v.update(15, m.v[x] & 1);
        MachineV { v: v1.update(x, v1[x] >> 1u8), pc: pc2, ..m }
    } else if n == 7 {
        let v1 = m.v.update(15, if m.v[y] >= m.v[x] { 1u8 } else { 0u8 });
        MachineV { v: v1.update(x, u8_specs::wrapping_sub(v1[y], v1[x])), pc: pc2, ..m }
    } else if n == 0xE {
        let v1 = m.v.update(15, (m.v[x] & 0x80) >> 7u8);
        MachineV { v: v1.update(x, v1[x] << 1u8), pc: pc2, ..m }
    } else {
        m
    }
}

/// The draw instruction: blend `op_n` sprite rows fetched from memory
/// at the index register onto the screen at the coordinates held by
/// the two register operands, wrapped into the screen; the flag
/// register reports whether any lit pixel was turned off.
pub open spec fn spec_draw_step(m: MachineV, op: u16) -> MachineV {
    let d = spec_draw(
        m.screen,
        m.memory,
        m.index as int,
        m.v[op_x(op)] as int % 64,
        m.v[op_y(op)] as int % 32,
        op_n(op),
    );
    MachineV {
        screen: d.0,
        v: m.v.update(15, if d.1 { 1u8 } else { 0u8 }),
        pc: u16_specs::wrapping_add(m.pc, 2),
        ..m
    }
}

/// The miscellaneous operations (family F): the blocking key wait,
/// the timer writes, the index-register operations, decimal storage
/// and the register block transfers.
pub open spec fn spec_misc(m: MachineV, op: u16) -> MachineV {
    let x = op_x(op);
    let nn = op_nn(op);
    let pc2 = u16_specs::wrapping_add(m.pc, 2);
    if nn == 0x07 {
        match first_key_from(m.keys, 0) {
            Some(k) => MachineV { v: m.v.update(x, k as u8), pc: pc2, ..m },
            None => m,
        }
    } else if nn == 0x15 {
        MachineV { delay: m.v[x], pc: pc2, ..m }
    } else if nn == 0x18 {
        MachineV { sound: m.v[x], pc: pc2, ..m }
    } else if nn == 0x1E {
        MachineV { index: u16_specs::wrapping_add(m.index, m.v[x] as u16), pc: pc2, ..m }
    } else if nn == 0x29 {
        MachineV { index: (0x50 + 5 * (m.v[x] as int % 16)) as u16, pc: pc2, ..m }
    } else if nn == 0x33 {
        MachineV { memory: bcd_memory(m.memory, m.index as int, m.v[x]), pc: pc2, ..m }
    } else if nn == 0x55 {
        MachineV { memory: store_regs(m.memory, m.v, m.index as int, x + 1), pc: pc2, ..m }
    } else if nn == 0x65 {
        MachineV { v: load_regs(m.v, m.memory, m.index as int, x + 1), pc: pc2, ..m }
    } else {
        m
    }
}

/// The complete operation table: the state after the opcode `op` runs
/// on state `m`, with `rnd` the byte the random source yielded (only
/// the random-mask instruction reads it). Defined for states free of
/// the fatal conditions of [`spec_fatal`]; on those it returns `m`.
pub open spec fn spec_execute(m: MachineV, op: u16, rnd: u8) -> MachineV {
    let hi = op_hi(op);
    let x = op_x(op);
    let y = op_y(op);
    let nn = op_nn(op);
    let nnn = op_nnn(op);
    let pc2 = u16_specs::wrapping_add(m.pc, 2);
    if hi == 0 {
        if nn == 0xE0 {
            MachineV { screen: blank_screen(), pc: pc2, ..m }
        } else if nn == 0xEE {
            if m.sp == 0 {
                m
            } else {
                MachineV { sp: (m.sp - 1) as u16, pc: m.stack[m.sp - 1], ..m }
            }
        } else {
            m
        }
    } else if hi == 1 {
        MachineV { pc: nnn, ..m }
    } else if hi == 2 {
        if m.sp >= 16 {
            m
        } else {
            MachineV {
                stack: m.stack.update(m.sp as int, pc2),
                sp: (m.sp + 1) as u16,
                pc: nnn,
                ..m
            }
        }
    } else if hi == 3 {
        MachineV { pc: skip_pc(m.pc, m.v[x] == nn), ..m }
    } else if hi == 4 {
        MachineV { pc: skip_pc(m.pc, m.v[x] != nn), ..m }
    } else if hi == 5 {
        MachineV { pc: skip_pc(m.pc, m.v[x] == m.v[y]), ..m }
    } else if hi == 6 {
        MachineV { v: m.v.update(x, nn), pc: pc2, ..m }
    } else if hi == 7 {
        MachineV { v: m.v.update(x, u8_specs::wrapping_add(m.v[x], nn)), pc: pc2, ..m }
    } else if hi == 8 {
        spec_alu(m, op)
    } else if hi == 9 {
        MachineV { pc: skip_pc(m.pc, m.v[x] != m.v[y]), ..m }
    } else if hi == 0xA {
        MachineV { index: nnn, pc: pc2, ..m }
    } else if hi == 0xB {
        MachineV { pc: (nnn + m.v[0]) as u16, ..m }
    } else if hi == 0xC {
        MachineV { v: m.v.update(x, rnd & nn), pc: pc2, ..m }
    } else if hi == 0xD {
        spec_draw_step(m, op)
    } else if hi == 0xE {
        if nn == 0x9E {
            MachineV { pc: skip_pc(m.pc, m.keys[m.v[x] as int % 16]), ..m }
        } else if nn == 0xA1 {
            MachineV { pc: skip_pc(m.pc, !m.keys[m.v[x] as int % 16]), ..m }
        } else {
            m
        }
    } else {
        spec_misc(m, op)
    }
}

/// One whole cycle: execute the fetched opcode, then tick the timers.
pub open spec fn spec_cycle(m: MachineV, rnd: u8) -> MachineV {
    spec_tick(spec_execute(m, spec_fetch(m), rnd))
}

// ---------------------------------------------------------------------
// Executable machine
// ---------------------------------------------------------------------

/// A vector of `n` copies of `value`.
fn filled<T: Copy>(value: T, n: usize) -> (v: Vec<T>)
    ensures
        v@ == Seq::new(n as nat, |i: int| value),
{
    let mut v: Vec<T> = Vec::new();
    let mut i: usize = 0;
    while i < n
        invariant
            i == v.len(),
            i <= n,
            v@ =~= Seq::new(i as nat, |k: int| value),
        decreases n - i,
    {
        v.push(value);
        i = i + 1;
        proof {
            assert(v@ =~= Seq::new(i as nat, |k: int| value));
        }
    }
    proof {
        assert(v@ =~= Seq::new(n as nat, |k: int| value));
    }
    v
}

/// The font glyph bytes, as loaded into low memory at construction.
fn font_bytes() -> (v: Vec<u8>)
    ensures
        v@ == font_seq(),
{
    let mut v: Vec<u8> = Vec::new();
    v.push(0xF0); v.push(0x90); v.push(0x90); v.push(0x90); v.push(0xF0);
    v.push(0x20); v.push(0x60); v.push(0x20); v.push(0x20); v.push(0x70);
    v.push(0xF0); v.push(0x10); v.push(0xF0); v.push(0x80); v.push(0xF0);
    v.push(0xF0); v.push(0x10); v.push(0xF0); v.push(0x10); v.push(0xF0);
    v.push(0x90); v.push(0x90); v.push(0xF0); v.push(0x10); v.push(0x10);
    v.push(0xF0); v.push(0x80); v.push(0xF0); v.push(0x10); v.push(0xF0);
    v.push(0xF0); v.push(0x80); v.push(0xF0); v.push(0x90); v.push(0xF0);
    v.push(0xF0); v.push(0x10); v.push(0x20); v.push(0x40); v.push(0x40);
    v.push(0xF0); v.push(0x90); v.push(0xF0); v.push(0x90); v.push(0xF0);
    v.push(0xF0); v.push(0x90); v.push(0xF0); v.push(0x10); v.push(0xF0);
    v.push(0xF0); v.push(0x90); v.push(0xF0); v.push(0x90); v.push(0x90);
    v.push(0xE0); v.push(0x90); v.push(0xE0); v.push(0x90); v.push(0xE0);
    v.push(0xF0); v.push(0x80); v.push(0x80); v.push(0x80); v.push(0xF0);
    v.push(0xE0); v.push(0x90); v.push(0x90); v.push(0x90); v.push(0xE0);
    v.push(0xF0); v.push(0x80); v.push(0xF0); v.push(0x80); v.push(0xF0);
    v.push(0xF0); v.push(0x80); v.push(0xF0); v.push(0x80); v.push(0x80);
    proof {
        assert(v@ =~= font_seq());
    }
    v
}

/// High nibble of an opcode.
fn nib_hi(op: u16) -> (h: u16)
    ensures
        h == op_hi(op),
        h < 16,
{
    proof {
        assert((op >> 12u16) == op / 0x1000 && (op >> 12u16) < 16) by (bit_vector);
    }
    op >> 12u16
}

/// Second nibble of an opcode, the first register operand.
fn nib_x(op: u16) -> (x: usize)
    ensures
        x == op_x(op),
        x < 16,
{
    proof {
        assert(((op >> 8u16) & 0xF) == (op / 0x100) % 16 && ((op >> 8u16) & 0xF) < 16)
            by (bit_vector);
    }
    ((op >> 8u16) & 0xF) as usize
}

/// Third nibble of an opcode, the second register operand.
fn nib_y(op: u16) -> (y: usize)
    ensures
        y == op_y(op),
        y < 16,
{
    proof {
        assert(((op >> 4u16) & 0xF) == (op / 16) % 16 && ((op >> 4u16) & 0xF) < 16)
            by (bit_vector);
    }
    ((op >> 4u16) & 0xF) as usize
}

/// Low nibble of an opcode.
fn nib_n(op: u16) -> (n: usize)
    ensures
        n == op_n(op),
        n < 16,
{
    proof {
        assert((op & 0xF) == op % 16 && (op & 0xF) < 16) by (bit_vector);
    }
    (op & 0xF) as usize
}

/// Low byte of an opcode.
fn nib_nn(op: u16) -> (nn: u8)
    ensures
        nn == op_nn(op),
{
    proof {
        assert((op & 0xFF) == op % 0x100 && (op & 0xFF) < 0x100) by (bit_vector);
    }
    (op & 0xFF) as u8
}

/// Low 12 bits of an opcode.
fn nib_nnn(op: u16) -> (a: u16)
    ensures
        a == op_nnn(op),
        a < 0x1000,
{
    proof {
        assert((op & 0xFFF) == op % 0x1000 && (op & 0xFFF) < 0x1000) by (bit_vector);
    }
    op & 0xFFF
}

/// Relies on `rand::random`: one byte from the thread-local random
/// generator. Nothing is assumed of its value; every caller must be
/// correct whatever comes back.
#[verifier::external_body]
fn random_byte() -> u8 {
    rand::random::<u8>()
}

/// The lowest-indexed pressed key, scanning 0 through 15.
fn first_pressed_key(keys: &Vec<bool>) -> (r: Option<u8>)
    requires
        keys@.len() == 16,
    ensures
        match r {
            Some(k) => k < 16 && first_key_from(keys@, 0) == Some(k as int),
            None => first_key_from(keys@, 0) is None,
        },
{
    let mut i: usize = 0;
    while i < 16
        invariant
            i <= 16,
            keys@.len() == 16,
            first_key_from(keys@, 0) == first_key_from(keys@, i as int),
        decreases 16 - i,
    {
        if keys[i] {
            return Some(i as u8);
        }
        i = i + 1;
    }
    None
}

impl Chip8 {
    /// Well-formedness of the machine: see [`MachineV::wf`].
    pub open spec fn wf(self) -> bool {
        self@.wf()
    }

    /// A fresh machine: zeroed state, program counter at the program
    /// start address, font glyphs in low memory.
    pub fn new() -> (c: Chip8)
        ensures
            c@ == spec_init(),
            c.wf(),
    {
        let font = font_bytes();
        let mut memory = filled(0u8, 4096);
        let mut i: usize = 0;
        while i < 80
            invariant
                memory@.len() == 4096,
                i <= 80,
                font@ == font_seq(),
                forall|p: int| 0 <= p < 4096 ==> memory@[p] == (if 0x50 <= p < 0x50 + i {
                    font_seq()[p - 0x50]
                } else {
                    0u8
                }),
            decreases 80 - i,
        {
            memory.set(0x50 + i, font[i]);
            i = i + 1;
        }
        let c = Chip8 {
            pc: 0x200,
            index: 0,
            sp: 0,
            memory,
            v: filled(0u8, 16),
            stack: filled(0u16, 16),
            screen: filled(false, 2048),
            delay_timer: 0,
            sound_timer: 0,
            keys: filled(false, 16),
        };
        proof {
            assert(c@.memory =~= init_memory());
            assert(c@.screen =~= blank_screen());
        }
        c
    }

    /// Bring the machine back to its construction state.
    pub fn reset(&mut self)
        ensures
            final(self)@ == spec_init(),
            final(self).wf(),
    {
        *self = Chip8::new();
    }

    /// Decrement each timer that is positive; both saturate at zero.
    pub fn tick_timers(&mut self)
        ensures
            final(self)@ == spec_tick(old(self)@),
    {
        if self.delay_timer > 0 {
            self.delay_timer = self.delay_timer - 1;
        }
        if self.sound_timer > 0 {
            self.sound_timer = self.sound_timer - 1;
        }
    }

    /// Set every framebuffer pixel unlit.
    pub fn clear_screen(&mut self)
        ensures
            final(self)@ == (MachineV { screen: blank_screen(), ..old(self)@ }),
    {
        self.screen = filled(false, 2048);
        proof {
            assert(self@.screen =~= blank_screen());
        }
    }

    /// Copy a program into memory at the program start address. A
    /// sequence longer than the remaining memory is rejected whole:
    /// nothing is written.
    pub fn load_program(&mut self, program: &Vec<u8>) -> (r: Result<(), LoadError>)
        requires
            old(self).wf(),
        ensures
            final(self).wf(),
            match r {
                Ok(()) => program@.len() <= 3584 && final(self)@ == (MachineV {
                    memory: load_memory(old(self)@.memory, program@),
                    ..old(self)@
                }),
                Err(LoadError::ProgramTooLarge) => program@.len() > 3584 && final(self)@ == old(
                    self,
                )@,
            },
    {
        if program.len() > 3584 {
            return Err(LoadError::ProgramTooLarge);
        }
        let mut i: usize = 0;
        while i < program.len()
            invariant
                old(self).wf(),
                self.wf(),
                i <= program.len(),
                program.len() <= 3584,
                self.pc == old(self).pc,
                self.index == old(self).index,
                self.sp == old(self).sp,
                self.v == old(self).v,
                self.stack == old(self).stack,
                self.screen == old(self).screen,
                self.delay_timer == old(self).delay_timer,
                self.sound_timer == old(self).sound_timer,
                self.keys == old(self).keys,
                self.memory@.len() == 4096,
                forall|p: int| 0 <= p < 4096 ==> self.memory@[p] == (if 0x200 <= p < 0x200 + i {
                    program@[p - 0x200]
                } else {
                    old(self)@.memory[p]
                }),
            decreases program.len() - i,
        {
            self.memory.set(0x200 + i, program[i]);
            i = i + 1;
        }
        proof {
            assert(self@.memory =~= load_memory(old(self)@.memory, program@));
        }
        Ok(())
    }

    /// Read the two bytes at the program counter, composed big-endian
    /// into one opcode. The counter and its successor must be within
    /// memory; [`Chip8::step`] checks that and reports the fatal
    /// condition itself.
    pub fn fetch_opcode(&self) -> (op: u16)
        requires
            self.wf(),
            self@.pc + 1 < 4096,
        ensures
            op == spec_fetch(self@),
    {
        let hi = self.memory[self.pc as usize];
        let lo = self.memory[self.pc as usize + 1];
        proof {
            assert(((hi as u16) << 8u16) | (lo as u16) == hi as u16 * 0x100 + lo as u16)
                by (bit_vector);
        }
        ((hi as u16) << 8u16) | (lo as u16)
    }

    /// The pixel at column `x`, row `y`; `true` is lit.
    pub fn pixel(&self, x: usize, y: usize) -> (b: bool)
        requires
            self.wf(),
            x < 64,
            y < 32,
        ensures
            b == self@.screen[y * 64 + x],
    {
        self.screen[y * 64 + x]
    }

    /// Record one key going down or up. The host overwrites all 16
    /// flags each frame before stepping.
    pub fn set_key(&mut self, key: usize, down: bool)
        requires
            old(self).wf(),
            key < 16,
        ensures
            final(self).wf(),
            final(self)@ == (MachineV { keys: old(self)@.keys.update(key as int, down), ..old(
                self,
            )@ }),
    {
        self.keys.set(key, down);
    }

    /// The register-to-register operations (family 8); an unmatched
    /// low nibble changes nothing.
    fn exec_alu(&mut self, op: u16)
        requires
            old(self).wf(),
            op_hi(op) == 8,
        ensures
            final(self).wf(),
            final(self)@ == spec_alu(old(self)@, op),
    {
        let x = nib_x(op);
        let y = nib_y(op);
        let n = nib_n(op);
        if n == 0 || n == 1 {
            let r = self.v[x] | self.v[y];
            self.v.set(x, r);
            self.pc = self.pc.wrapping_add(2);
        } else if n == 2 {
            let r = self.v[x] & self.v[y];
            self.v.set(x, r);
            self.pc = self.pc.wrapping_add(2);
        } else if n == 3 {
            let r = self.v[x] ^ self.v[y];
            self.v.set(x, r);
            self.pc = self.pc.wrapping_add(2);
        } else if n == 4 {
            let vx = self.v[x];
            let vy = self.v[y];
            let carry: u8 = if (vx as u16) + (vy as u16) > 0xFF {
                1
            } else {
                0
            };
            let sum = vx.wrapping_add(vy);
            self.v.set(15, carry);
            self.v.set(x, sum);
            self.pc = self.pc.wrapping_add(2);
        } else if n == 5 {
            let flag: u8 = if self.v[x] >= self.v[y] {
                1
            } else {
                0
            };
            self.v.set(15, flag);
            let vx = self.v[x];
            let vy = self.v[y];
            self.v.set(x, vx.wrapping_sub(vy));
            self.pc = self.pc.wrapping_add(2);
        } else if n == 6 {
            let flag = self.v[x] & 1;
            self.v.set(15, flag);
            let vx = self.v[x];
            self.v.set(x, vx >> 1u8);
            self.pc = self.pc.wrapping_add(2);
        } else if n == 7 {
            let flag: u8 = if self.v[y] >= self.v[x] {
                1
            } else {
                0
            };
            self.v.set(15, flag);
            let vx = self.v[x];
            let vy = self.v[y];
            self.v.set(x, vy.wrapping_sub(vx));
            self.pc = self.pc.wrapping_add(2);
        } else if n == 14 {
            let flag = (self.v[x] & 0x80) >> 7u8;
            self.v.set(15, flag);
            let vx = self.v[x];
            self.v.set(x, vx << 1u8);
            self.pc = self.pc.wrapping_add(2);
        }
    }

    /// The draw instruction: blend the sprite rows onto the screen
    /// and record the collision flag.
    fn exec_draw(&mut self, op: u16)
        requires
            old(self).wf(),
            op_hi(op) == 0xD,
        ensures
            final(self).wf(),
            final(self)@ == spec_draw_step(old(self)@, op),
    {
        let x = nib_x(op);
        let y = nib_y(op);
        let n = nib_n(op);
        let x0 = (self.v[x] % 64) as usize;
        let y0 = (self.v[y] % 32) as usize;
        let mut col = false;
        let mut r: usize = 0;
        while r < n
            invariant
                old(self).wf(),
                self.wf(),
                r <= n,
                n == op_n(op),
                x == op_x(op),
                y == op_y(op),
                x0 == old(self)@.v[op_x(op)] as int % 64,
                y0 == old(self)@.v[op_y(op)] as int % 32,
                x0 < 64,
                y0 < 32,
                self@.pc == old(self)@.pc,
                self@.index == old(self)@.index,
                self@.sp == old(self)@.sp,
                self@.memory == old(self)@.memory,
                self@.v == old(self)@.v,
                self@.stack == old(self)@.stack,
                self@.delay == old(self)@.delay,
                self@.sound == old(self)@.sound,
                self@.keys == old(self)@.keys,
                (self@.screen, col) == spec_draw(
                    old(self)@.screen,
                    old(self)@.memory,
                    old(self)@.index as int,
                    x0 as int,
                    y0 as int,
                    r as int,
                ),
            decreases n - r,
        {
            let addr = (self.index as usize + r) % 4096;
            let b = self.memory[addr];
            let py = (y0 + r) % 32;
            let c2 = xor_row(&mut self.screen, b, x0, py);
            col = col || c2;
            r = r + 1;
        }
        let flag: u8 = if col {
            1
        } else {
            0
        };
        self.v.set(15, flag);
        self.pc = self.pc.wrapping_add(2);
        proof {
            assert(self@ == spec_draw_step(old(self)@, op));
        }
    }

    /// The miscellaneous operations (family F); an unmatched low byte
    /// changes nothing.
    fn exec_misc(&mut self, op: u16)
        requires
            old(self).wf(),
            op_hi(op) == 0xF,
        ensures
            final(self).wf(),
            final(self)@ == spec_misc(old(self)@, op),
    {
        let x = nib_x(op);
        let nn = nib_nn(op);
        if nn == 0x07 {
            match first_pressed_key(&self.keys) {
                Some(k) => {
                    self.v.set(x, k);
                    self.pc = self.pc.wrapping_add(2);
                },
                None => {},
            }
        } else if nn == 0x15 {
            self.delay_timer = self.v[x];
            self.pc = self.pc.wrapping_add(2);
        } else if nn == 0x18 {
            self.sound_timer = self.v[x];
            self.pc = self.pc.wrapping_add(2);
        } else if nn == 0x1E {
            self.index = self.index.wrapping_add(self.v[x] as u16);
            self.pc = self.pc.wrapping_add(2);
        } else if nn == 0x29 {
            let digit = (self.v[x] % 16) as u16;
            self.index = 0x50 + 5 * digit;
            self.pc = self.pc.wrapping_add(2);
        } else if nn == 0x33 {
            let vx = self.v[x];
            let base = self.index as usize;
            self.memory.set(base % 4096, vx / 100);
            self.memory.set((base + 1) % 4096, (vx % 100) / 10);
            self.memory.set((base + 2) % 4096, vx % 10);
            self.pc = self.pc.wrapping_add(2);
        } else if nn == 0x55 {
            let mut i: usize = 0;
            while i <= x
                invariant
                    old(self).wf(),
                    self.wf(),
                    x == op_x(op),
                    x < 16,
                    i <= x + 1,
                    self@.pc == old(self)@.pc,
                    self@.index == old(self)@.index,
                    self@.sp == old(self)@.sp,
                    self@.v == old(self)@.v,
                    self@.stack == old(self)@.stack,
                    self@.screen == old(self)@.screen,
                    self@.delay == old(self)@.delay,
                    self@.sound == old(self)@.sound,
                    self@.keys == old(self)@.keys,
                    self@.memory == store_regs(
                        old(self)@.memory,
                        old(self)@.v,
                        old(self)@.index as int,
                        i as int,
                    ),
                decreases x + 1 - i,
            {
                let addr = (self.index as usize + i) % 4096;
                self.memory.set(addr, self.v[i]);
                i = i + 1;
            }
            self.pc = self.pc.wrapping_add(2);
        } else if nn == 0x65 {
            let mut i: usize = 0;
            while i <= x
                invariant
                    old(self).wf(),
                    self.wf(),
                    x == op_x(op),
                    x < 16,
                    i <= x + 1,
                    self@.pc == old(self)@.pc,
                    self@.index == old(self)@.index,
                    self@.sp == old(self)@.sp,
                    self@.memory == old(self)@.memory,
                    self@.stack == old(self)@.stack,
                    self@.screen == old(self)@.screen,
                    self@.delay == old(self)@.delay,
                    self@.sound == old(self)@.sound,
                    self@.keys == old(self)@.keys,
                    self@.v == load_regs(
                        old(self)@.v,
                        old(self)@.memory,
                        old(self)@.index as int,
                        i as int,
                    ),
                decreases x + 1 - i,
            {
                let addr = (self.index as usize + i) % 4096;
                let b = self.memory[addr];
                self.v.set(i, b);
                i = i + 1;
            }
            self.pc = self.pc.wrapping_add(2);
        }
    }

    /// Decode and run one opcode: perform its state transition and
    /// advance the program counter by that instruction's own rule. An
    /// unknown opcode changes nothing and is reported in the outcome;
    /// a stack fault changes nothing and is reported as the error.
    pub fn execute_opcode(&mut self, op: u16) -> (r: Result<StepOutcome, FatalError>)
        requires
            old(self).wf(),
        ensures
            final(self).wf(),
            match r {
                Ok(o) => spec_fatal(old(self)@, op) is None && (exists|rnd: u8|
                    final(self)@ == spec_execute(old(self)@, op, rnd)) && o == (
                if is_unknown(op) {
                    StepOutcome::UnknownOpcode(op)
                } else {
                    StepOutcome::Executed
                }),
                Err(e) => spec_fatal(old(self)@, op) == Some(e) && final(self)@ == old(self)@,
            },
    {
        let hi = nib_hi(op);
        let x = nib_x(op);
        let y = nib_y(op);
        let n = nib_n(op);
        let nn = nib_nn(op);
        let nnn = nib_nnn(op);
        let mut unknown = false;
        if hi == 0 {
            if nn == 0xE0 {
                self.clear_screen();
                self.pc = self.pc.wrapping_add(2);
            } else if nn == 0xEE {
                if self.sp == 0 {
                    return Err(FatalError::StackUnderflow);
                }
                self.sp = self.sp - 1;
                self.pc = self.stack[self.sp as usize];
            } else {
                unknown = true;
            }
        } else if hi == 1 {
            self.pc = nnn;
        } else if hi == 2 {
            if self.sp >= 16 {
                return Err(FatalError::StackOverflow);
            }
            let ret = self.pc.wrapping_add(2);
            self.stack.set(self.sp as usize, ret);
            self.sp = self.sp + 1;
            self.pc = nnn;
        } else if hi == 3 {
            let cond = self.v[x] == nn;
            self.pc = self.pc.wrapping_add(if cond { 4 } else { 2 });
        } else if hi == 4 {
            let cond = self.v[x] != nn;
            self.pc = self.pc.wrapping_add(if cond { 4 } else { 2 });
        } else if hi == 5 {
            let cond = self.v[x] == self.v[y];
            self.pc = self.pc.wrapping_add(if cond { 4 } else { 2 });
        } else if hi == 6 {
            self.v.set(x, nn);
            self.pc = self.pc.wrapping_add(2);
        } else if hi == 7 {
            let vx = self.v[x];
            self.v.set(x, vx.wrapping_add(nn));
            self.pc = self.pc.wrapping_add(2);
        } else if hi == 8 {
            self.exec_alu(op);
            unknown = !(n <= 7 || n == 14);
        } else if hi == 9 {
            let cond = self.v[x] != self.v[y];
            self.pc = self.pc.wrapping_add(if cond { 4 } else { 2 });
        } else if hi == 10 {
            self.index = nnn;
            self.pc = self.pc.wrapping_add(2);
        } else if hi == 11 {
            self.pc = nnn + self.v[0] as u16;
        } else if hi == 12 {
            let rb = random_byte();
            self.v.set(x, rb & nn);
            self.pc = self.pc.wrapping_add(2);
            proof {
                assert(self@ == spec_execute(old(self)@, op, rb));
            }
            return Ok(StepOutcome::Executed);
        } else if hi == 13 {
            self.exec_draw(op);
        } else if hi == 14 {
            if nn == 0x9E {
                let k = (self.v[x] % 16) as usize;
                let cond = self.keys[k];
                self.pc = self.pc.wrapping_add(if cond { 4 } else { 2 });
            } else if nn == 0xA1 {
                let k = (self.v[x] % 16) as usize;
                let cond = !self.keys[k];
                self.pc = self.pc.wrapping_add(if cond { 4 } else { 2 });
            } else {
                unknown = true;
            }
        } else {
            self.exec_misc(op);
            unknown = !(nn == 0x07 || nn == 0x15 || nn == 0x18 || nn == 0x1E || nn == 0x29 || nn
                == 0x33 || nn == 0x55 || nn == 0x65);
        }
        proof {
            assert(self@ == spec_execute(old(self)@, op, 0u8));
            assert(unknown == is_unknown(op));
        }
        if unknown {
            Ok(StepOutcome::UnknownOpcode(op))
        } else {
            Ok(StepOutcome::Executed)
        }
    }

    /// One fetch-decode-execute step: run exactly the instruction at
    /// the program counter. A fatal condition — the counter outside
    /// memory, a stack fault — leaves the state unchanged and is
    /// returned as the error.
    pub fn step(&mut self) -> (r: Result<StepOutcome, FatalError>)
        requires
            old(self).wf(),
        ensures
            final(self).wf(),
            match r {
                Ok(o) => spec_step_fatal(old(self)@) is None && (exists|rnd: u8|
                    final(self)@ == spec_execute(old(self)@, spec_fetch(old(self)@), rnd)) && o
                    == (if is_unknown(spec_fetch(old(self)@)) {
                    StepOutcome::UnknownOpcode(spec_fetch(old(self)@))
                } else {
                    StepOutcome::Executed
                }),
                Err(e) => spec_step_fatal(old(self)@) == Some(e) && final(self)@ == old(self)@,
            },
    {
        if self.pc >= 4095 {
            return Err(FatalError::AddressOutOfRange);
        }
        let op = self.fetch_opcode();
        self.execute_opcode(op)
    }

    /// One host cycle: a step, then a timer tick. A fatal step
    /// leaves the timers alone too.
    pub fn emulate_cycle(&mut self) -> (r: Result<StepOutcome, FatalError>)
        requires
            old(self).wf(),
        ensures
            final(self).wf(),
            match r {
                Ok(o) => spec_step_fatal(old(self)@) is None && (exists|rnd: u8|
                    final(self)@ == spec_cycle(old(self)@, rnd)) && o == (
                if is_unknown(spec_fetch(old(self)@)) {
                    StepOutcome::UnknownOpcode(spec_fetch(old(self)@))
                } else {
                    StepOutcome::Executed
                }),
                Err(e) => spec_step_fatal(old(self)@) == Some(e) && final(self)@ == old(self)@,
            },
    {
        let r = self.step();
        match r {
            Ok(o) => {
                let ghost mid = self@;
                self.tick_timers();
                proof {
                    let w = choose|rnd: u8|
                        mid == spec_execute(old(self)@, spec_fetch(old(self)@), rnd);
                    assert(self@ == spec_cycle(old(self)@, w));
                }
                Ok(o)
            },
            Err(e) => Err(e),
        }
    }
}

} // verus!
