pub mod initparams;
pub mod interpreter;
pub mod laws;
pub mod registers;
pub mod semantics;
pub mod timing;

use crate::bits::{add16, add64, high_byte, lemma_add16_add, lemma_wrapping64, low_byte};
use crate::cpu::initparams::InitParams;
use crate::cpu::interpreter::GBInterpreter;
use crate::cpu::registers::{GBRegisters, RegsView};
use crate::mmu::{MmuView, MMU};
use vstd::prelude::*;
use vstd::string::StringExecFns;

verus! {

/// What STOP does. The low-power state that it enters on hardware ends with a press on the
/// joypad, which this machine does not have.
#[derive(Debug, PartialEq, Eq, Structural, Copy, Clone)]
pub enum StopPolicy {
    /// STOP freezes the processor.
    Freeze,
    /// STOP does nothing but skip the byte that follows it.
    Skip,
}

/// The machine: the bus with all memory, the register file, the interrupt and halt state of
/// the processor, and the count of clock cycles.
pub struct CpuView {
    pub mmu: MmuView,
    pub reg: RegsView,
    /// The interrupt master enable.
    pub ime: bool,
    /// An enabling of interrupts that takes effect when the next instruction is done.
    pub ime_pending: bool,
    pub halted: bool,
    /// Set when the next fetch must leave PC where it is.
    pub halt_bug: bool,
    /// A processor that is frozen never runs again.
    pub frozen: bool,
    pub stop_policy: StopPolicy,
    pub clock: u64,
}

impl CpuView {
    pub open spec fn wf(self) -> bool {
        self.mmu.wf()
    }

    /// The machine with `n` more clock cycles counted, modulo 2^64.
    pub open spec fn tick(self, n: int) -> CpuView {
        CpuView { clock: add64(self.clock, n), ..self }
    }

    pub open spec fn with_reg(self, reg: RegsView) -> CpuView {
        CpuView { reg, ..self }
    }

    pub open spec fn with_pc(self, pc: u16) -> CpuView {
        CpuView { reg: RegsView { pc, ..self.reg }, ..self }
    }

    pub open spec fn with_sp(self, sp: u16) -> CpuView {
        CpuView { reg: RegsView { sp, ..self.reg }, ..self }
    }

    /// The machine after a read of one byte: 4 cycles later.
    pub open spec fn after_read8(self) -> CpuView {
        self.tick(4)
    }

    /// The machine after a write of one byte, 4 cycles later.
    pub open spec fn write8(self, addr: u16, value: u8) -> CpuView {
        CpuView { mmu: self.mmu.write8(addr, value), ..self }.tick(4)
    }

    /// The machine after a write of a 16-bit value, 8 cycles later.
    pub open spec fn write16(self, addr: u16, value: u16) -> CpuView {
        CpuView { mmu: self.mmu.write16(addr, value), ..self }.tick(8)
    }

    /// The byte at PC.
    pub open spec fn operand8(self) -> u8 {
        self.mmu.read8(self.reg.pc)
    }

    /// The 16-bit value at PC.
    pub open spec fn operand16(self) -> u16 {
        self.mmu.read16(self.reg.pc)
    }

    /// The machine after the byte at PC was read: PC one further, 4 cycles later.
    pub open spec fn after_operand8(self) -> CpuView {
        self.tick(4).with_pc(add16(self.reg.pc, 1))
    }

    /// The machine after the 16-bit value at PC was read: PC two further, 8 cycles later.
    pub open spec fn after_operand16(self) -> CpuView {
        self.tick(8).with_pc(add16(self.reg.pc, 2))
    }

    /// The machine after `value` was pushed: the stack two bytes deeper, 8 cycles later.
    pub open spec fn push(self, value: u16) -> CpuView {
        self.write16(add16(self.reg.sp, -2), value).with_sp(add16(self.reg.sp, -2))
    }

    /// The 16-bit value on top of the stack.
    pub open spec fn stack_top(self) -> u16 {
        self.mmu.read16(self.reg.sp)
    }

    /// The machine after the top of the stack was popped, 8 cycles later.
    pub open spec fn after_pop(self) -> CpuView {
        self.tick(8).with_sp(add16(self.reg.sp, 2))
    }

    /// The machine at reset, around the bus `mmu`.
    pub open spec fn reset(mmu: MmuView) -> CpuView {
        CpuView {
            mmu,
            reg: RegsView::reset(InitParams::spec_for_model(mmu.model, mmu.gbc_mode)),
            ime: false,
            ime_pending: false,
            halted: false,
            halt_bug: false,
            frozen: false,
            stop_policy: StopPolicy::Freeze,
            clock: 0,
        }
    }

    /// HALT stops the processor until an interrupt is pending. With interrupts disabled and
    /// one pending already, it does not stop: the next fetch leaves PC where it is.
    pub open spec fn halt(self) -> CpuView {
        if self.ime || self.mmu.pending_interrupts() == 0 {
            CpuView { halted: true, ..self }
        } else {
            CpuView { halted: false, halt_bug: true, ..self }
        }
    }

    /// STOP freezes the processor or skips the byte after it, as the policy says.
    pub open spec fn stop(self) -> CpuView {
        if self.stop_policy == StopPolicy::Freeze {
            self.freeze()
        } else {
            self.after_operand8()
        }
    }

    /// A frozen processor is halted for good: no interrupt is enabled or requested any more.
    pub open spec fn freeze(self) -> CpuView {
        CpuView {
            mmu: MmuView { interrupt_enable: 0, interrupt_flag: 0, ..self.mmu },
            halted: true,
            frozen: true,
            ..self
        }
    }
}

/// The number of the pending interrupt that is served first: the lowest bit that is set.
pub open spec fn lowest_interrupt(pending: u8) -> u8 {
    if pending & 0x01 != 0 {
        0
    } else if pending & 0x02 != 0 {
        1
    } else if pending & 0x04 != 0 {
        2
    } else if pending & 0x08 != 0 {
        3
    } else {
        4
    }
}

impl CpuView {
    /// The call to the handler of the interrupt `i`, at 0x40 + 8 * i: its request is withdrawn,
    /// interrupts are disabled, PC goes on the stack. It takes 20 cycles.
    #[verifier::opaque]
    pub open spec fn dispatch_interrupt(self, i: u8) -> CpuView {
        CpuView {
            mmu: MmuView { interrupt_flag: self.mmu.interrupt_flag & !(1u8 << i), ..self.mmu },
            ime: false,
            ime_pending: false,
            ..self
        }.push(self.reg.pc).with_pc((0x40 + i * 8) as u16).tick(12)
    }

    /// What a step does before it fetches: a pending interrupt wakes a halted processor, and
    /// is served if interrupts are enabled.
    #[verifier::opaque]
    pub open spec fn service_interrupts(self) -> CpuView {
        let pending = self.mmu.pending_interrupts();
        if pending == 0 {
            self
        } else if self.ime {
            CpuView { halted: false, ..self }.dispatch_interrupt(lowest_interrupt(pending))
        } else {
            CpuView { halted: false, ..self }
        }
    }

    /// The machine after the fetch of the opcode at PC. After a HALT that did not stop the
    /// processor, PC stays where it is, once.
    pub open spec fn fetch(self) -> CpuView {
        if self.halt_bug {
            CpuView { halt_bug: false, ..self.tick(4) }
        } else {
            self.after_operand8()
        }
    }

    /// An enabling of interrupts that was pending before the step takes effect at its end,
    /// unless the step has withdrawn it.
    pub open spec fn promote(self, was_pending: bool) -> CpuView {
        if was_pending && self.ime_pending {
            CpuView { ime: true, ime_pending: false, ..self }
        } else {
            self
        }
    }

    /// Whether a step runs an instruction: the processor is neither frozen nor, once pending
    /// interrupts have woken it, halted.
    pub open spec fn runs(self) -> bool {
        !self.frozen && !self.service_interrupts().halted
    }

    /// The opcode that a step runs.
    pub open spec fn next_opcode(self) -> u8 {
        self.service_interrupts().operand8()
    }

    /// One step of the machine. A frozen processor does nothing; a halted one lets 4 cycles
    /// pass; otherwise pending interrupts are served and one instruction runs.
    #[verifier::opaque]
    pub open spec fn step(self) -> CpuView {
        if self.frozen {
            self
        } else if !self.runs() {
            self.service_interrupts().tick(4).promote(self.ime_pending)
        } else {
            self.service_interrupts().fetch().interpret(self.next_opcode()).promote(self.ime_pending)
        }
    }
}

/// A hexadecimal digit in upper case.
#[verifier::opaque]
pub open spec fn hex_digit(n: u8) -> Seq<char> {
    if n == 0 {
        "0"@
    } else if n == 1 {
        "1"@
    } else if n == 2 {
        "2"@
    } else if n == 3 {
        "3"@
    } else if n == 4 {
        "4"@
    } else if n == 5 {
        "5"@
    } else if n == 6 {
        "6"@
    } else if n == 7 {
        "7"@
    } else if n == 8 {
        "8"@
    } else if n == 9 {
        "9"@
    } else if n == 10 {
        "A"@
    } else if n == 11 {
        "B"@
    } else if n == 12 {
        "C"@
    } else if n == 13 {
        "D"@
    } else if n == 14 {
        "E"@
    } else {
        "F"@
    }
}

/// A byte as two hexadecimal digits.
pub open spec fn hex2(b: u8) -> Seq<char> {
    hex_digit(b / 16) + hex_digit(b % 16)
}

/// A 16-bit value as four hexadecimal digits.
pub open spec fn hex4(w: u16) -> Seq<char> {
    hex2(high_byte(w)) + hex2(low_byte(w))
}

/// A line with one more field: a label and a byte in hexadecimal digits.
#[verifier::opaque]
pub open spec fn with_field(line: Seq<char>, label: Seq<char>, b: u8) -> Seq<char> {
    line + label + hex2(b)
}

/// A line with one more field: a label and a 16-bit value in hexadecimal digits.
#[verifier::opaque]
pub open spec fn with_wide_field(line: Seq<char>, label: Seq<char>, w: u16) -> Seq<char> {
    line + label + hex4(w)
}

impl CpuView {
    /// The registers on one line: `A:01 F:B0 B:00 C:13 D:00 E:D8 H:01 L:4D SP:FFFE PC:0100`.
    pub open spec fn register_line(self) -> Seq<char> {
        let a = with_field(Seq::empty(), "A:"@, self.reg.a);
        let f = with_field(a, " F:"@, self.reg.f());
        let b = with_field(f, " B:"@, self.reg.b);
        let c = with_field(b, " C:"@, self.reg.c);
        let d = with_field(c, " D:"@, self.reg.d);
        let e = with_field(d, " E:"@, self.reg.e);
        let h = with_field(e, " H:"@, self.reg.h);
        let l = with_field(h, " L:"@, self.reg.l);
        let sp = with_wide_field(l, " SP:"@, self.reg.sp);
        with_wide_field(sp, " PC:"@, self.reg.pc)
    }

    /// The state of the processor on one line: the registers, and the four bytes at PC after
    /// ` PCMEM:`, with commas between them.
    pub open spec fn state_line(self) -> Seq<char> {
        let pc = self.reg.pc;
        let m0 = with_field(self.register_line(), " PCMEM:"@, self.mmu.read8(pc));
        let m1 = with_field(m0, ","@, self.mmu.read8(pc.wrapping_add(1)));
        let m2 = with_field(m1, ","@, self.mmu.read8(pc.wrapping_add(2)));
        with_field(m2, ","@, self.mmu.read8(pc.wrapping_add(3)))
    }
}

fn hex_digit_str(n: u8) -> (s: &'static str)
    requires
        n < 16,
    ensures
        s@ == hex_digit(n),
{
    proof {
        reveal(hex_digit);
    }
    match n {
        0 => "0",
        1 => "1",
        2 => "2",
        3 => "3",
        4 => "4",
        5 => "5",
        6 => "6",
        7 => "7",
        8 => "8",
        9 => "9",
        10 => "A",
        11 => "B",
        12 => "C",
        13 => "D",
        14 => "E",
        _ => "F",
    }
}

fn push_hex2(line: &mut String, b: u8)
    ensures
        final(line)@ == old(line)@ + hex2(b),
{
    line.append(hex_digit_str(b / 16));
    line.append(hex_digit_str(b % 16));
}

fn push_field(line: &mut String, label: &str, b: u8)
    ensures
        final(line)@ == with_field(old(line)@, label@, b),
{
    proof {
        reveal(with_field);
    }
    line.append(label);
    push_hex2(line, b);
}

fn push_wide_field(line: &mut String, label: &str, w: u16)
    ensures
        final(line)@ == with_wide_field(old(line)@, label@, w),
{
    proof {
        reveal(with_wide_field);
        crate::bits::lemma_pair_exec(w, 0, 0);
    }
    line.append(label);
    push_hex2(line, (w / 256) as u8);
    push_hex2(line, (w % 256) as u8);
}

fn lowest_set_interrupt(pending: u8) -> (r: u8)
    ensures
        r == lowest_interrupt(pending),
        r < 5,
{
    if pending & 0x01 != 0 {
        0
    } else if pending & 0x02 != 0 {
        1
    } else if pending & 0x04 != 0 {
        2
    } else if pending & 0x08 != 0 {
        3
    } else {
        4
    }
}

pub struct CPU {
    pub(crate) mmu: MMU,
    pub reg: GBRegisters,
    pub(crate) ime: bool,
    pub(crate) ime_pending: bool,
    pub(crate) halted: bool,
    pub(crate) halt_bug: bool,
    pub(crate) frozen: bool,
    pub(crate) stop_policy: StopPolicy,
    pub(crate) clock: u64,
}

impl CPU {
    pub open(crate) spec fn view(&self) -> CpuView {
        CpuView {
            mmu: self.mmu@,
            reg: self.reg@,
            ime: self.ime,
            ime_pending: self.ime_pending,
            halted: self.halted,
            halt_bug: self.halt_bug,
            frozen: self.frozen,
            stop_policy: self.stop_policy,
            clock: self.clock,
        }
    }

    pub fn new(mmu: MMU) -> (r: Self)
        ensures
            r@ == CpuView::reset(mmu@),
            r@.wf(),
    {
        let _ = mmu.rom_bank_count();
        let seed = InitParams::for_model(mmu.model(), mmu.gbc_mode());
        let mut reg = GBRegisters::new();
        reg.init_registers(seed);
        CPU {
            mmu,
            reg,
            ime: false,
            ime_pending: false,
            halted: false,
            halt_bug: false,
            frozen: false,
            stop_policy: StopPolicy::Freeze,
            clock: 0,
        }
    }

    /// The state of the processor on one line, in upper-case hexadecimal digits of fixed width:
    /// `A:01 F:B0 B:00 C:13 D:00 E:D8 H:01 L:4D SP:FFFE PC:0100 PCMEM:00,C3,50,01`.
    pub fn get_state(&self) -> (line: String)
        ensures
            line@ == self@.state_line(),
    {
        let pc = self.reg.get_pc();
        let mut line = String::new();
        push_field(&mut line, "A:", self.reg.get_a());
        push_field(&mut line, " F:", self.reg.get_f());
        push_field(&mut line, " B:", self.reg.get_b());
        push_field(&mut line, " C:", self.reg.get_c());
        push_field(&mut line, " D:", self.reg.get_d());
        push_field(&mut line, " E:", self.reg.get_e());
        push_field(&mut line, " H:", self.reg.get_h());
        push_field(&mut line, " L:", self.reg.get_l());
        push_wide_field(&mut line, " SP:", self.reg.get_sp());
        push_wide_field(&mut line, " PC:", pc);
        push_field(&mut line, " PCMEM:", self.mmu.read8(pc));
        push_field(&mut line, ",", self.mmu.read8(pc.wrapping_add(1)));
        push_field(&mut line, ",", self.mmu.read8(pc.wrapping_add(2)));
        push_field(&mut line, ",", self.mmu.read8(pc.wrapping_add(3)));
        line
    }

    /// Whether the processor is frozen.
    pub fn is_frozen(&self) -> (r: bool)
        ensures
            r == self@.frozen,
    {
        self.frozen
    }

    pub fn is_halted(&self) -> (r: bool)
        ensures
            r == self@.halted,
    {
        self.halted
    }

    /// Whether interrupts are enabled.
    pub fn interrupts_enabled(&self) -> (r: bool)
        ensures
            r == self@.ime,
    {
        self.ime
    }

    /// The bus, to read.
    pub fn mmu(&self) -> (r: &MMU)
        ensures
            r@ == self@.mmu,
    {
        &self.mmu
    }

    /// Requests the interrupts whose bits are set in `mask`, as the devices on the bus do.
    pub fn request_interrupt(&mut self, mask: u8)
        ensures
            final(self)@ == (CpuView {
                mmu: MmuView { interrupt_flag: old(self)@.mmu.interrupt_flag | mask, ..old(self)@.mmu },
                ..old(self)@
            }),
    {
        self.mmu.request_interrupt(mask);
    }

    /// Takes over what the LCD controller shows of itself: its mode and its line.
    pub fn set_gpu_state(&mut self, mode: crate::enums::GpuMode, line: u8)
        ensures
            final(self)@ == (CpuView {
                mmu: MmuView { gpu_mode: mode, gpu_line: line, ..old(self)@.mmu },
                ..old(self)@
            }),
    {
        self.mmu.set_gpu_state(mode, line);
    }

    /// Hands out the bytes written to the serial data register since the last call.
    pub fn take_serial(&mut self) -> (r: Vec<u8>)
        ensures
            r@ == old(self)@.mmu.serial,
            final(self)@ == (CpuView { mmu: MmuView { serial: Seq::empty(), ..old(self)@.mmu }, ..old(self)@ }),
    {
        self.mmu.take_serial()
    }

    pub fn get_clock(&self) -> (r: u64)
        ensures
            r == self@.clock,
    {
        self.clock
    }

    pub fn add_clock(&mut self, value: u8)
        ensures
            final(self)@ == old(self)@.tick(value as int),
    {
        proof {
            lemma_wrapping64(self.clock, value as u64);
        }
        self.clock = self.clock.wrapping_add(value as u64);
    }

    pub fn read8(&mut self, addr: u16) -> (v: u8)
        ensures
            v == old(self)@.mmu.read8(addr),
            final(self)@ == old(self)@.after_read8(),
    {
        let v = self.mmu.read8(addr);
        self.add_clock(4);
        v
    }

    pub fn read16(&mut self, addr: u16) -> (v: u16)
        ensures
            v == old(self)@.mmu.read16(addr),
            final(self)@ == old(self)@.tick(8),
    {
        let v = self.mmu.read16(addr);
        self.add_clock(8);
        v
    }

    pub fn write8(&mut self, addr: u16, value: u8)
        ensures
            final(self)@ == old(self)@.write8(addr, value),
    {
        self.mmu.write8(addr, value);
        self.add_clock(4);
    }

    pub fn write16(&mut self, addr: u16, value: u16)
        ensures
            final(self)@ == old(self)@.write16(addr, value),
    {
        self.mmu.write16(addr, value);
        self.add_clock(8);
    }

    pub fn pc_read8(&mut self) -> (v: u8)
        ensures
            v == old(self)@.operand8(),
            final(self)@ == old(self)@.after_operand8(),
    {
        let v = self.read8(self.reg.get_pc());
        self.reg.add_pc(1);
        v
    }

    pub fn pc_read16(&mut self) -> (v: u16)
        ensures
            v == old(self)@.operand16(),
            final(self)@ == old(self)@.after_operand16(),
    {
        let v = self.read16(self.reg.get_pc());
        self.reg.add_pc(2);
        v
    }

    fn dispatch_interrupt(&mut self, interrupt: u8)
        requires
            interrupt < 5,
        ensures
            final(self)@ == old(self)@.dispatch_interrupt(interrupt),
    {
        proof {
            reveal(CpuView::dispatch_interrupt);
        }
        self.mmu.clear_interrupt(1u8 << interrupt);
        self.ime = false;
        self.ime_pending = false;
        GBInterpreter::push(self, self.reg.get_pc());
        self.reg.set_pc(0x40 + (interrupt as u16) * 8);
        self.add_clock(12);
    }

    fn service_interrupts(&mut self)
        ensures
            final(self)@ == old(self)@.service_interrupts(),
    {
        proof {
            reveal(CpuView::service_interrupts);
        }
        let requested = self.mmu.get_requested_and_enabled_interrupts();
        if requested != 0 {
            self.halted = false;
            if self.ime {
                self.dispatch_interrupt(lowest_set_interrupt(requested));
            }
        }
    }

    fn promote(&mut self, was_pending: bool)
        ensures
            final(self)@ == old(self)@.promote(was_pending),
    {
        if was_pending && self.ime_pending {
            self.ime = true;
            self.ime_pending = false;
        }
    }

    /// Runs one step. The result is the opcode of the instruction that ran, if one did.
    pub fn emulate_instruction(&mut self) -> (r: Option<u8>)
        ensures
            final(self)@ == old(self)@.step(),
            r == (if old(self)@.runs() {
                Some(old(self)@.next_opcode())
            } else {
                None
            }),
            final(self)@.wf(),
    {
        proof {
            reveal(CpuView::step);
        }
        let _ = self.mmu.rom_bank_count();
        if self.frozen {
            return None;
        }
        let was_pending = self.ime_pending;
        self.service_interrupts();
        if self.halted {
            self.add_clock(4);
            self.promote(was_pending);
            let _ = self.mmu.rom_bank_count();
            return None;
        }
        let pc = self.reg.get_pc();
        let op = self.pc_read8();
        if self.halt_bug {
            proof {
                lemma_add16_add(pc, 1, -1);
            }
            self.halt_bug = false;
            self.reg.add_pc(-1);
        }
        GBInterpreter::interpret_instruction(self, op);
        self.promote(was_pending);
        let _ = self.mmu.rom_bank_count();
        Some(op)
    }

    /// Enables interrupts at once.
    pub fn enable_interrupts(&mut self)
        ensures
            final(self)@ == (CpuView { ime: true, ime_pending: false, ..old(self)@ }),
    {
        self.ime = true;
        self.ime_pending = false;
    }

    /// Enables interrupts when the next instruction is done.
    pub fn enable_interrupts_delayed(&mut self)
        ensures
            final(self)@ == (CpuView { ime_pending: true, ..old(self)@ }),
    {
        self.ime_pending = true;
    }

    pub fn disable_interrupts(&mut self)
        ensures
            final(self)@ == (CpuView { ime: false, ime_pending: false, ..old(self)@ }),
    {
        self.ime = false;
        self.ime_pending = false;
    }

    pub fn halt(&mut self)
        ensures
            final(self)@ == old(self)@.halt(),
    {
        if self.ime {
            self.halted = true;
        } else {
            if self.mmu.get_requested_and_enabled_interrupts() == 0 {
                self.halted = true;
            } else {
                self.halted = false;
                self.halt_bug = true;
            }
        }
    }

    /// Chooses what STOP does from now on.
    pub fn set_stop_policy(&mut self, policy: StopPolicy)
        ensures
            final(self)@ == (CpuView { stop_policy: policy, ..old(self)@ }),
    {
        self.stop_policy = policy;
    }

    pub fn stop(&mut self)
        ensures
            final(self)@ == old(self)@.stop(),
    {
        match self.stop_policy {
            StopPolicy::Freeze => self.freeze(),
            StopPolicy::Skip => {
                let _ = self.pc_read8();
            },
        }
    }

    pub fn freeze(&mut self)
        ensures
            final(self)@ == old(self)@.freeze(),
    {
        proof {
            reveal(MmuView::write8);
        }
        self.mmu.write8(0xFFFF, 0);
        self.mmu.write8(0xFF0F, 0);
        self.halted = true;
        self.frozen = true;
    }
}

} // verus!
