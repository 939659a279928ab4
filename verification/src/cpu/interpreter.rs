use crate::bits::{
    add16, lemma_add64_add, lemma_add8_add, lemma_pair_bits, lemma_wrapping16, lemma_wrapping8, signed8,
};
use crate::cpu::semantics::{
    alu_result, daa_carry, daa_value, field_p, field_q, field_x, field_y, field_z, rot_value, AluResult,
};
use crate::cpu::{CpuView, CPU};
use vstd::prelude::*;

verus! {

pub struct GBInterpreter {}

/// An opcode, cut into the fields that the instruction set is laid out by.
pub struct GBInstruction(pub u8);

impl GBInstruction {
    pub fn get_x(&self) -> (r: u8)
        ensures
            r == field_x(self.0),
            r < 4,
    {
        proof {
            lemma_field_bits(self.0);
        }
        (self.0 & 0b11000000) >> 6
    }

    pub fn get_y(&self) -> (r: u8)
        ensures
            r == field_y(self.0),
            r < 8,
    {
        proof {
            lemma_field_bits(self.0);
        }
        (self.0 & 0b00111000) >> 3
    }

    pub fn get_z(&self) -> (r: u8)
        ensures
            r == field_z(self.0),
            r < 8,
    {
        proof {
            lemma_field_bits(self.0);
        }
        self.0 & 0b00000111
    }

    pub fn get_p(&self) -> (r: u8)
        ensures
            r == field_p(self.0),
            r < 4,
    {
        let y: u8 = self.get_y();
        proof {
            lemma_field_bits(y);
        }
        (y >> 1) & 0b00000011
    }

    pub fn get_q(&self) -> (r: u8)
        ensures
            r == field_q(self.0),
            r < 2,
    {
        let y: u8 = self.get_y();
        proof {
            lemma_field_bits(y);
        }
        y & 0b00000001
    }
}

proof fn lemma_field_bits(op: u8)
    by (bit_vector)
    ensures
        (op & 0b11000000) >> 6 == op / 64,
        (op & 0b00111000) >> 3 == (op / 8) % 8,
        op & 0b00000111 == op % 8,
        op < 8 ==> (op >> 1) & 0b00000011 == op / 2,
        op & 0b00000001 == op % 2,
{
}

proof fn lemma_low_bits8(a: u8)
    by (bit_vector)
    ensures
        a & 0x0F == a % 16,
        a & 0xFF == a,
        !a == (255 - a) as u8,
        a < 128 ==> (a as i8) == a,
        a >= 128 ==> (a as i8) == a - 256,
{
}

proof fn lemma_low_bits16(x: u16)
    by (bit_vector)
    ensures
        x & 0x0F == x % 16,
        x & 0xFF == x % 256,
        x & 0xFFF == x % 0x1000,
{
}

proof fn lemma_rot_bits(v: u8, cin: u8)
    by (bit_vector)
    requires
        cin <= 1,
    ensures
        (v << 1) | ((v & 0x80) >> 7) == (v % 128) * 2 + v / 128,
        (v >> 1) | ((v & 0x01) << 7) == v / 2 + (v % 2) * 128,
        (v << 1) | cin == (v % 128) * 2 + cin,
        (v >> 1) | (cin << 7) == v / 2 + cin * 128,
        v << 1 == (v % 128) * 2,
        (v >> 1) | (v & 0x80) == v / 2 + (v / 128) * 128,
        ((v & 0xF0) >> 4) | ((v & 0x0F) << 4) == (v % 16) * 16 + v / 16,
        v >> 1 == v / 2,
        (v & 0x80 != 0) == (v >= 128),
        (v & 0x01 != 0) == (v % 2 == 1),
{
}

impl GBInterpreter {
    /// Runs the instruction with the opcode `instr`, whose fetch is done.
    pub fn interpret_instruction(cpu: &mut CPU, instr: u8)
        ensures
            final(cpu)@ == old(cpu)@.interpret(instr),
    {
        proof {
            reveal(CpuView::interpret);
        }
        let instr = GBInstruction(instr);
        match instr.get_x() {
            0 => Self::interpret_block0(cpu, instr),
            1 => Self::interpret_block1(cpu, instr),
            2 => Self::interpret_block2(cpu, instr),
            _ => Self::interpret_block3(cpu, instr),
        }
    }

    fn op_misc(cpu: &mut CPU, y: u8)
        requires
            y < 8,
        ensures
            final(cpu)@ == old(cpu)@.op_misc(y),
    {
        proof {
            reveal(CpuView::op_misc);
        }
        match y {
            0 => {},
            1 => {
                let addr = Self::get_nn(cpu);
                cpu.write16(addr, cpu.reg.get_sp());
            },
            2 => {
                cpu.stop();
            },
            3 => {
                Self::jr(cpu, true);
            },
            _ => {
                let taken = Self::should_jump(cpu, y - 4);
                Self::jr(cpu, taken);
            },
        }
    }

    fn jr(cpu: &mut CPU, taken: bool)
        ensures
            final(cpu)@ == old(cpu)@.jr(taken),
    {
        proof {
            reveal(CpuView::jr);
        }
        let d = Self::get_d(cpu) as i16;
        if taken {
            cpu.reg.add_pc(d);
            cpu.add_clock(4);
        }
    }

    /// The 16-bit sum of `hl` and `v`, its carry out of bit 11 and its carry out of bit 15.
    fn add_wide(hl: u16, v: u16) -> (r: (u16, bool, bool))
        ensures
            r.0 == add16(hl, v as int),
            r.1 == (hl % 0x1000 + v % 0x1000 > 0xFFF),
            r.2 == (hl + v > 0xFFFF),
    {
        proof {
            lemma_wrapping16(hl, v, 0);
            lemma_low_bits16(hl);
            lemma_low_bits16(v);
        }
        let add = hl.wrapping_add(v);
        let half_add = (hl & 0xFFF) + (v & 0xFFF);
        (add, half_add > 0xFFF, add < hl)
    }

    fn op_add_hl(cpu: &mut CPU, p: u8)
        requires
            p < 4,
        ensures
            final(cpu)@ == old(cpu)@.op_add_hl(p),
    {
        proof {
            reveal(CpuView::op_add_hl);
        }
        let hl = cpu.reg.get_hl();
        let v = Self::get_rp(cpu, p);
        let sum = Self::add_wide(hl, v);
        cpu.reg.set_subtract_flag(false);
        cpu.reg.set_half_carry_flag(sum.1);
        cpu.reg.set_carry_flag(sum.2);
        cpu.reg.set_hl(sum.0);
        cpu.add_clock(4);
    }

    fn op_wide(cpu: &mut CPU, p: u8, q: u8)
        requires
            p < 4,
            q < 2,
        ensures
            final(cpu)@ == old(cpu)@.op_wide(p, q),
    {
        proof {
            reveal(CpuView::op_wide);
        }
        if q == 0 {
            let v = Self::get_nn(cpu);
            Self::set_rp(cpu, p, v);
        } else {
            Self::op_add_hl(cpu, p);
        }
    }

    /// Moves HL by `step`, modulo 2^16.
    fn step_hl(cpu: &mut CPU, step: i16)
        ensures
            final(cpu)@ == old(cpu)@.with_reg(old(cpu)@.reg.with_hl(add16(old(cpu)@.reg.hl(), step as int))),
    {
        let hl = cpu.reg.get_hl();
        proof {
            lemma_wrapping16(hl, 0, step);
        }
        cpu.reg.set_hl(hl.wrapping_add_signed(step));
    }

    fn op_indirect(cpu: &mut CPU, p: u8, q: u8)
        requires
            p < 4,
            q < 2,
        ensures
            final(cpu)@ == old(cpu)@.op_indirect(p, q),
    {
        proof {
            reveal(CpuView::op_indirect);
        }
        let addr = match p {
            0 => cpu.reg.get_bc(),
            1 => cpu.reg.get_de(),
            _ => cpu.reg.get_hl(),
        };
        if q == 0 {
            cpu.write8(addr, cpu.reg.get_a());
        } else {
            let v = cpu.read8(addr);
            cpu.reg.set_a(v);
        }
        if p == 2 {
            Self::step_hl(cpu, 1);
        } else if p == 3 {
            Self::step_hl(cpu, -1);
        }
    }

    fn op_inc_dec_wide(cpu: &mut CPU, p: u8, q: u8)
        requires
            p < 4,
            q < 2,
        ensures
            final(cpu)@ == old(cpu)@.op_inc_dec_wide(p, q),
    {
        proof {
            reveal(CpuView::op_inc_dec_wide);
        }
        let r = Self::get_rp(cpu, p);
        proof {
            lemma_wrapping16(r, 1, 0);
        }
        if q == 0 {
            Self::set_rp(cpu, p, r.wrapping_add(1));
        } else {
            Self::set_rp(cpu, p, r.wrapping_sub(1));
        }
        cpu.add_clock(4);
    }

    fn op_inc(cpu: &mut CPU, y: u8)
        requires
            y < 8,
        ensures
            final(cpu)@ == old(cpu)@.op_inc(y),
    {
        proof {
            reveal(CpuView::op_inc);
        }
        let r = Self::get_r(cpu, y);
        let res = r.wrapping_add(1);
        proof {
            lemma_wrapping8(r, 1);
            lemma_low_bits8(r);
        }
        let half_res = (r & 0x0F) + 1;
        Self::set_r(cpu, y, res);
        cpu.reg.set_zero_flag(res == 0);
        cpu.reg.set_subtract_flag(false);
        cpu.reg.set_half_carry_flag(half_res > 0x0F);
    }

    fn op_dec(cpu: &mut CPU, y: u8)
        requires
            y < 8,
        ensures
            final(cpu)@ == old(cpu)@.op_dec(y),
    {
        proof {
            reveal(CpuView::op_dec);
        }
        let r = Self::get_r(cpu, y);
        let res = r.wrapping_sub(1);
        proof {
            lemma_wrapping8(r, 1);
            lemma_low_bits8(r);
        }
        Self::set_r(cpu, y, res);
        cpu.reg.set_zero_flag(res == 0);
        cpu.reg.set_subtract_flag(true);
        cpu.reg.set_half_carry_flag((r & 0x0F) == 0);
    }

    fn op_load_immediate(cpu: &mut CPU, y: u8)
        requires
            y < 8,
        ensures
            final(cpu)@ == old(cpu)@.op_load_immediate(y),
    {
        let v = Self::get_n(cpu);
        Self::set_r(cpu, y, v);
    }

    /// The accumulator after the decimal adjustment that follows a subtraction.
    fn daa_after_subtraction(a: u8, half: bool, carry: bool) -> (r: u8)
        ensures
            r == daa_value(a, true, half, carry),
    {
        proof {
            reveal(daa_value);
            lemma_wrapping8(a, 0x06);
            lemma_wrapping8(a, 0x60);
            lemma_wrapping8(a.wrapping_sub(0x06), 0x60);
            lemma_add8_add(a, -0x06, -0x60);
        }
        let mut res: u8 = a;
        if half {
            res = res.wrapping_sub(0x06);
        }
        if carry {
            res = res.wrapping_sub(0x60);
        }
        res
    }

    /// The accumulator and the carry flag after the decimal adjustment that follows an
    /// addition.
    fn daa_after_addition(a: u8, half: bool, carry: bool) -> (r: (u8, bool))
        ensures
            r.0 == daa_value(a, false, half, carry),
            r.1 == daa_carry(a, false, half, carry),
    {
        proof {
            reveal(daa_value);
            reveal(daa_carry);
        }
        let mut res: u16 = a as u16;
        let mut carry_out = carry;
        proof {
            lemma_low_bits16(res);
        }
        if half || (res & 0x0F) > 0x09 {
            res = res + 0x06;
        }
        if carry || res > 0x9F {
            res = res + 0x60;
            carry_out = true;
        }
        proof {
            lemma_pair_bits(res, 0, 0);
        }
        (res as u8, carry_out)
    }

    /// The accumulator and the carry flag after the decimal adjustment of `a`.
    fn daa_adjust(a: u8, subtract: bool, half: bool, carry: bool) -> (r: (u8, bool))
        ensures
            r.0 == daa_value(a, subtract, half, carry),
            r.1 == daa_carry(a, subtract, half, carry),
    {
        if subtract {
            proof {
                reveal(daa_carry);
            }
            (Self::daa_after_subtraction(a, half, carry), carry)
        } else {
            Self::daa_after_addition(a, half, carry)
        }
    }

    fn daa(cpu: &mut CPU)
        ensures
            final(cpu)@ == old(cpu)@.op_daa(),
    {
        proof {
            reveal(CpuView::op_daa);
        }
        let adjusted = Self::daa_adjust(
            cpu.reg.get_a(),
            cpu.reg.get_subtract_flag(),
            cpu.reg.get_half_carry_flag(),
            cpu.reg.get_carry_flag(),
        );
        cpu.reg.set_half_carry_flag(false);
        cpu.reg.set_zero_flag(adjusted.0 == 0);
        cpu.reg.set_carry_flag(adjusted.1);
        cpu.reg.set_a(adjusted.0);
    }

    fn op_accumulator(cpu: &mut CPU, y: u8)
        requires
            y < 8,
        ensures
            final(cpu)@ == old(cpu)@.op_accumulator(y),
    {
        proof {
            reveal(CpuView::op_accumulator);
            reveal(rot_value);
        }
        let a = cpu.reg.get_a();
        let carry_in: u8 = if cpu.reg.get_carry_flag() {
            1
        } else {
            0
        };
        proof {
            lemma_rot_bits(a, carry_in);
            lemma_low_bits8(a);
        }
        match y {
            0 => {
                cpu.reg.set_flags(false, false, false, (a & 0x80) != 0);
                cpu.reg.set_a((a << 1) | ((a & 0x80) >> 7));
            },
            1 => {
                cpu.reg.set_flags(false, false, false, (a & 0x01) != 0);
                cpu.reg.set_a((a >> 1) | ((a & 0x01) << 7));
            },
            2 => {
                cpu.reg.set_flags(false, false, false, (a & 0x80) != 0);
                cpu.reg.set_a((a << 1) | carry_in);
            },
            3 => {
                cpu.reg.set_flags(false, false, false, (a & 0x01) != 0);
                cpu.reg.set_a((a >> 1) | (carry_in << 7));
            },
            4 => {
                Self::daa(cpu);
            },
            5 => {
                cpu.reg.set_a(!a);
                cpu.reg.set_subtract_flag(true);
                cpu.reg.set_half_carry_flag(true);
            },
            6 => {
                cpu.reg.set_carry_flag(true);
                cpu.reg.set_half_carry_flag(false);
                cpu.reg.set_subtract_flag(false);
            },
            _ => {
                cpu.reg.set_carry_flag(carry_in == 0);
                cpu.reg.set_half_carry_flag(false);
                cpu.reg.set_subtract_flag(false);
            },
        }
    }

    fn interpret_block0(cpu: &mut CPU, instr: GBInstruction)
        ensures
            final(cpu)@ == old(cpu)@.block0(field_y(instr.0), field_z(instr.0)),
    {
        proof {
            reveal(CpuView::block0);
        }
        match instr.get_z() {
            0 => Self::op_misc(cpu, instr.get_y()),
            1 => Self::op_wide(cpu, instr.get_p(), instr.get_q()),
            2 => Self::op_indirect(cpu, instr.get_p(), instr.get_q()),
            3 => Self::op_inc_dec_wide(cpu, instr.get_p(), instr.get_q()),
            4 => Self::op_inc(cpu, instr.get_y()),
            5 => Self::op_dec(cpu, instr.get_y()),
            6 => Self::op_load_immediate(cpu, instr.get_y()),
            _ => Self::op_accumulator(cpu, instr.get_y()),
        }
    }

    fn interpret_block1(cpu: &mut CPU, instr: GBInstruction)
        ensures
            final(cpu)@ == old(cpu)@.block1(field_y(instr.0), field_z(instr.0)),
    {
        proof {
            reveal(CpuView::block1);
        }
        let y = instr.get_y();
        let z = instr.get_z();
        if y == 6 && z == 6 {
            cpu.halt();
            return ;
        }
        let v = Self::get_r(cpu, z);
        Self::set_r(cpu, y, v);
    }

    fn interpret_block2(cpu: &mut CPU, instr: GBInstruction)
        ensures
            final(cpu)@ == old(cpu)@.block2(field_y(instr.0), field_z(instr.0)),
    {
        proof {
            reveal(CpuView::block2);
        }
        let value = Self::get_r(cpu, instr.get_z());
        Self::alu(cpu, instr.get_y(), value);
    }

    /// Sets the flags of ADD SP,d and LD HL,SP+d and gives the sum.
    fn sp_plus(cpu: &mut CPU, d: u8) -> (r: u16)
        ensures
            final(cpu)@ == old(cpu)@.sp_plus_flags(d),
            r == old(cpu)@.sp_plus(d),
    {
        let sp = cpu.reg.get_sp();
        let offset: i16 = (d as i8) as i16;
        proof {
            lemma_wrapping16(sp, 0, offset);
            lemma_low_bits16(sp);
            lemma_low_bits8(d);
        }
        let half_add = (sp & 0x0F) + (d & 0x0F) as u16;
        let byte_add = (sp & 0xFF) + d as u16;
        cpu.reg.set_zero_flag(false);
        cpu.reg.set_subtract_flag(false);
        cpu.reg.set_half_carry_flag(half_add > 0x0F);
        cpu.reg.set_carry_flag(byte_add > 0xFF);
        sp.wrapping_add_signed(offset)
    }

    fn op_ret_cc(cpu: &mut CPU, y: u8)
        ensures
            final(cpu)@ == old(cpu)@.op_ret_cc(y),
    {
        proof {
            reveal(CpuView::op_ret_cc);
            lemma_add64_add(old(cpu)@.ret().clock, 4, 4);
        }
        let should_jump = Self::should_jump(cpu, y);
        if should_jump {
            Self::ret(cpu);
            cpu.add_clock(4);
        }
        cpu.add_clock(4);
    }

    fn op_ldh_store(cpu: &mut CPU)
        ensures
            final(cpu)@ == old(cpu)@.op_ldh_store(),
    {
        proof {
            reveal(CpuView::op_ldh_store);
        }
        let off = Self::get_n(cpu) as u16;
        cpu.write8(0xFF00 + off, cpu.reg.get_a());
    }

    fn op_ldh_load(cpu: &mut CPU)
        ensures
            final(cpu)@ == old(cpu)@.op_ldh_load(),
    {
        proof {
            reveal(CpuView::op_ldh_load);
        }
        let off = Self::get_n(cpu) as u16;
        let v = cpu.read8(0xFF00 + off);
        cpu.reg.set_a(v);
    }

    fn op_add_sp(cpu: &mut CPU)
        ensures
            final(cpu)@ == old(cpu)@.op_add_sp(),
    {
        proof {
            reveal(CpuView::op_add_sp);
        }
        let d = Self::get_n(cpu);
        let add = Self::sp_plus(cpu, d);
        cpu.reg.set_sp(add);
        cpu.add_clock(8);
    }

    fn op_load_hl_sp(cpu: &mut CPU)
        ensures
            final(cpu)@ == old(cpu)@.op_load_hl_sp(),
    {
        proof {
            reveal(CpuView::op_load_hl_sp);
        }
        let d = Self::get_n(cpu);
        let add = Self::sp_plus(cpu, d);
        cpu.reg.set_hl(add);
        cpu.add_clock(4);
    }

    fn op_ret_high(cpu: &mut CPU, y: u8)
        requires
            y < 8,
        ensures
            final(cpu)@ == old(cpu)@.op_ret_high(y),
    {
        proof {
            reveal(CpuView::op_ret_high);
        }
        match y {
            4 => Self::op_ldh_store(cpu),
            5 => Self::op_add_sp(cpu),
            6 => Self::op_ldh_load(cpu),
            7 => Self::op_load_hl_sp(cpu),
            _ => Self::op_ret_cc(cpu, y),
        }
    }

    fn op_pop_ret(cpu: &mut CPU, p: u8, q: u8)
        requires
            p < 4,
            q < 2,
        ensures
            final(cpu)@ == old(cpu)@.op_pop_ret(p, q),
    {
        proof {
            reveal(CpuView::op_pop_ret);
        }
        if q == 0 {
            let v = cpu.read16(cpu.reg.get_sp());
            cpu.reg.add_sp(2);
            Self::set_rp2(cpu, p, v);
        } else {
            match p {
                0 => {
                    Self::ret(cpu);
                    cpu.add_clock(4);
                },
                1 => {
                    Self::ret(cpu);
                    cpu.add_clock(4);
                    cpu.enable_interrupts();
                },
                2 => {
                    let addr = cpu.reg.get_hl();
                    cpu.reg.set_pc(addr);
                },
                _ => {
                    cpu.reg.set_sp(cpu.reg.get_hl());
                    cpu.add_clock(4);
                },
            }
        }
    }

    fn op_jp_high(cpu: &mut CPU, y: u8)
        requires
            y < 8,
        ensures
            final(cpu)@ == old(cpu)@.op_jp_high(y),
    {
        proof {
            reveal(CpuView::op_jp_high);
        }
        match y {
            4 => {
                let off = cpu.reg.get_c() as u16;
                cpu.write8(0xFF00 + off, cpu.reg.get_a());
            },
            5 => {
                let off = Self::get_nn(cpu);
                cpu.write8(off, cpu.reg.get_a());
            },
            6 => {
                let off = cpu.reg.get_c() as u16;
                let v = cpu.read8(0xFF00 + off);
                cpu.reg.set_a(v);
            },
            7 => {
                let off = Self::get_nn(cpu);
                let v = cpu.read8(off);
                cpu.reg.set_a(v);
            },
            _ => {
                let should_jump = Self::should_jump(cpu, y);
                let addr = Self::get_nn(cpu);
                if should_jump {
                    cpu.reg.set_pc(addr);
                    cpu.add_clock(4);
                }
            },
        }
    }

    fn op_jp_control(cpu: &mut CPU, y: u8)
        requires
            y < 8,
        ensures
            final(cpu)@ == old(cpu)@.op_jp_control(y),
    {
        proof {
            reveal(CpuView::op_jp_control);
        }
        match y {
            0 => {
                let addr = cpu.pc_read16();
                cpu.reg.set_pc(addr);
                cpu.add_clock(4);
            },
            1 => {
                Self::interpret_cb(cpu);
            },
            6 => {
                cpu.disable_interrupts();
            },
            7 => {
                cpu.enable_interrupts_delayed();
            },
            _ => {
                cpu.freeze();
            },
        }
    }

    fn op_call_cc(cpu: &mut CPU, y: u8)
        requires
            y < 8,
        ensures
            final(cpu)@ == old(cpu)@.op_call_cc(y),
    {
        proof {
            reveal(CpuView::op_call_cc);
        }
        if y < 4 {
            let should_jump = Self::should_jump(cpu, y);
            let addr = Self::get_nn(cpu);
            if should_jump {
                Self::call(cpu, addr);
                cpu.add_clock(4);
            }
        } else {
            cpu.freeze();
        }
    }

    fn op_push_call(cpu: &mut CPU, p: u8, q: u8)
        requires
            p < 4,
            q < 2,
        ensures
            final(cpu)@ == old(cpu)@.op_push_call(p, q),
    {
        proof {
            reveal(CpuView::op_push_call);
        }
        if q == 0 {
            let v = Self::get_rp2(cpu, p);
            cpu.add_clock(4);
            Self::push(cpu, v);
        } else if p == 0 {
            let addr = Self::get_nn(cpu);
            Self::call(cpu, addr);
            cpu.add_clock(4);
        } else {
            cpu.freeze();
        }
    }

    fn op_rst(cpu: &mut CPU, y: u8)
        requires
            y < 8,
        ensures
            final(cpu)@ == old(cpu)@.op_rst(y),
    {
        proof {
            reveal(CpuView::op_rst);
        }
        Self::push(cpu, cpu.reg.get_pc());
        cpu.reg.set_pc((y * 8) as u16);
        cpu.add_clock(4);
    }

    fn interpret_block3(cpu: &mut CPU, instr: GBInstruction)
        ensures
            final(cpu)@ == old(cpu)@.block3(field_y(instr.0), field_z(instr.0)),
    {
        proof {
            reveal(CpuView::block3);
        }
        match instr.get_z() {
            0 => Self::op_ret_high(cpu, instr.get_y()),
            1 => Self::op_pop_ret(cpu, instr.get_p(), instr.get_q()),
            2 => Self::op_jp_high(cpu, instr.get_y()),
            3 => Self::op_jp_control(cpu, instr.get_y()),
            4 => Self::op_call_cc(cpu, instr.get_y()),
            5 => Self::op_push_call(cpu, instr.get_p(), instr.get_q()),
            6 => {
                let n = Self::get_n(cpu);
                Self::alu(cpu, instr.get_y(), n);
            },
            _ => Self::op_rst(cpu, instr.get_y()),
        }
    }

    fn interpret_cb(cpu: &mut CPU)
        ensures
            final(cpu)@ == old(cpu)@.prefixed(),
    {
        proof {
            reveal(CpuView::prefixed_op);
        }
        let op = GBInstruction(cpu.pc_read8());
        let y = op.get_y();
        let z = op.get_z();
        match op.get_x() {
            0 => {
                let v = Self::get_r(cpu, z);
                let v = Self::rot(cpu, y, v);
                Self::set_r(cpu, z, v);
            },
            1 => {
                let v = Self::get_r(cpu, z);
                let mask: u8 = 1u8 << y;
                cpu.reg.set_zero_flag((v & mask) == 0);
                cpu.reg.set_subtract_flag(false);
                cpu.reg.set_half_carry_flag(true);
            },
            2 => {
                let v = Self::get_r(cpu, z);
                let mask: u8 = !(1u8 << y);
                Self::set_r(cpu, z, v & mask);
            },
            _ => {
                let v = Self::get_r(cpu, z);
                let mask: u8 = 1u8 << y;
                Self::set_r(cpu, z, v | mask);
            },
        }
    }
}

// operands
impl GBInterpreter {
    /// Reads the operand `r[reg]`: B, C, D, E, H, L, the byte at HL, A.
    pub fn get_r(cpu: &mut CPU, reg: u8) -> (r: u8)
        requires
            reg < 8,
        ensures
            r == old(cpu)@.r_value(reg),
            final(cpu)@ == old(cpu)@.after_r_read(reg),
    {
        match reg {
            0 => cpu.reg.get_b(),
            1 => cpu.reg.get_c(),
            2 => cpu.reg.get_d(),
            3 => cpu.reg.get_e(),
            4 => cpu.reg.get_h(),
            5 => cpu.reg.get_l(),
            6 => cpu.read8(cpu.reg.get_hl()),
            _ => cpu.reg.get_a(),
        }
    }

    /// Stores `value` in the operand `r[reg]`.
    pub fn set_r(cpu: &mut CPU, reg: u8, value: u8)
        requires
            reg < 8,
        ensures
            final(cpu)@ == old(cpu)@.with_r(reg, value),
    {
        match reg {
            0 => cpu.reg.set_b(value),
            1 => cpu.reg.set_c(value),
            2 => cpu.reg.set_d(value),
            3 => cpu.reg.set_e(value),
            4 => cpu.reg.set_h(value),
            5 => cpu.reg.set_l(value),
            6 => cpu.write8(cpu.reg.get_hl(), value),
            _ => cpu.reg.set_a(value),
        }
    }

    /// Reads the register pair `rp[reg]`: BC, DE, HL, SP.
    pub fn get_rp(cpu: &mut CPU, reg: u8) -> (r: u16)
        requires
            reg < 4,
        ensures
            final(cpu)@ == old(cpu)@,
            r == old(cpu)@.rp(reg),
    {
        match reg {
            0 => cpu.reg.get_bc(),
            1 => cpu.reg.get_de(),
            2 => cpu.reg.get_hl(),
            _ => cpu.reg.get_sp(),
        }
    }

    pub fn set_rp(cpu: &mut CPU, reg: u8, value: u16)
        requires
            reg < 4,
        ensures
            final(cpu)@ == old(cpu)@.with_rp(reg, value),
    {
        match reg {
            0 => cpu.reg.set_bc(value),
            1 => cpu.reg.set_de(value),
            2 => cpu.reg.set_hl(value),
            _ => cpu.reg.set_sp(value),
        }
    }

    /// Reads the register pair `rp2[reg]`: BC, DE, HL, AF.
    pub fn get_rp2(cpu: &mut CPU, reg: u8) -> (r: u16)
        requires
            reg < 4,
        ensures
            final(cpu)@ == old(cpu)@,
            r == old(cpu)@.rp2(reg),
    {
        match reg {
            0 => cpu.reg.get_bc(),
            1 => cpu.reg.get_de(),
            2 => cpu.reg.get_hl(),
            _ => cpu.reg.get_af(),
        }
    }

    pub fn set_rp2(cpu: &mut CPU, reg: u8, value: u16)
        requires
            reg < 4,
        ensures
            final(cpu)@ == old(cpu)@.with_rp2(reg, value),
    {
        match reg {
            0 => cpu.reg.set_bc(value),
            1 => cpu.reg.set_de(value),
            2 => cpu.reg.set_hl(value),
            _ => cpu.reg.set_af(value),
        }
    }

    /// Reads the byte at PC as a signed displacement.
    pub fn get_d(cpu: &mut CPU) -> (r: i8)
        ensures
            r == signed8(old(cpu)@.operand8()),
            final(cpu)@ == old(cpu)@.after_operand8(),
    {
        let b = cpu.pc_read8();
        proof {
            lemma_low_bits8(b);
        }
        b as i8
    }

    pub fn get_n(cpu: &mut CPU) -> (r: u8)
        ensures
            r == old(cpu)@.operand8(),
            final(cpu)@ == old(cpu)@.after_operand8(),
    {
        cpu.pc_read8()
    }

    pub fn get_nn(cpu: &mut CPU) -> (r: u16)
        ensures
            r == old(cpu)@.operand16(),
            final(cpu)@ == old(cpu)@.after_operand16(),
    {
        cpu.pc_read16()
    }
}

// helpers
impl GBInterpreter {
    fn should_jump(cpu: &CPU, cc: u8) -> (r: bool)
        ensures
            r == cpu@.condition(cc),
    {
        match cc {
            0 => !cpu.reg.get_zero_flag(),
            1 => cpu.reg.get_zero_flag(),
            2 => !cpu.reg.get_carry_flag(),
            3 => cpu.reg.get_carry_flag(),
            _ => false,
        }
    }

    fn ret(cpu: &mut CPU)
        ensures
            final(cpu)@ == old(cpu)@.ret(),
    {
        let addr = cpu.read16(cpu.reg.get_sp());
        cpu.reg.add_sp(2);
        cpu.reg.set_pc(addr);
    }

    fn call(cpu: &mut CPU, addr: u16)
        ensures
            final(cpu)@ == old(cpu)@.call(addr),
    {
        let pc = cpu.reg.get_pc();
        cpu.reg.set_pc(addr);
        Self::push(cpu, pc);
    }

    /// Pushes `value` on the stack, high byte first.
    pub fn push(cpu: &mut CPU, value: u16)
        ensures
            final(cpu)@ == old(cpu)@.push(value),
    {
        proof {
            lemma_wrapping16(old(cpu)@.reg.sp, 2, 0);
        }
        cpu.write16(cpu.reg.get_sp().wrapping_sub(2), value);
        cpu.reg.add_sp(-2);
    }

    /// The sum `a + v + c` with its flags.
    fn alu_add(a: u8, v: u8, c: u8) -> (r: AluResult)
        requires
            c <= 1,
        ensures
            r == alu_result(1, a, v, c == 1),
            c == 0 ==> r == alu_result(0, a, v, false),
    {
        proof {
            reveal(alu_result);
            lemma_wrapping8(a, v);
            lemma_wrapping8(a.wrapping_add(v), c);
            lemma_add8_add(a, v as int, c as int);
            lemma_low_bits8(a);
            lemma_low_bits8(v);
        }
        let value: u8 = a.wrapping_add(v).wrapping_add(c);
        let sum: u16 = a as u16 + v as u16 + c as u16;
        let half_sum: u8 = (a & 0x0F) + (v & 0x0F) + c;
        AluResult { value, zero: value == 0, subtract: false, half_carry: half_sum > 0x0F, carry: sum > 0xFF }
    }

    /// The difference `a - v - c` with its flags.
    fn alu_sub(a: u8, v: u8, c: u8) -> (r: AluResult)
        requires
            c <= 1,
        ensures
            r == alu_result(3, a, v, c == 1),
            c == 0 ==> r == alu_result(2, a, v, false),
    {
        proof {
            reveal(alu_result);
            lemma_wrapping8(a, v);
            lemma_wrapping8(a.wrapping_sub(v), c);
            lemma_add8_add(a, -(v as int), -(c as int));
            lemma_low_bits8(a);
            lemma_low_bits8(v);
        }
        let value: u8 = a.wrapping_sub(v).wrapping_sub(c);
        AluResult {
            value,
            zero: value == 0,
            subtract: true,
            half_carry: (a & 0x0F) < (v & 0x0F) + c,
            carry: (a as u16) < v as u16 + c as u16,
        }
    }

    /// The operation `op` of the arithmetic unit on `a` and `v`.
    fn alu_compute(op: u8, a: u8, v: u8, carry: bool) -> (r: AluResult)
        requires
            op < 8,
        ensures
            r == alu_result(op, a, v, carry),
    {
        proof {
            reveal(alu_result);
        }
        match op {
            0 => Self::alu_add(a, v, 0),
            1 => Self::alu_add(a, v, if carry { 1 } else { 0 }),
            2 => Self::alu_sub(a, v, 0),
            3 => Self::alu_sub(a, v, if carry { 1 } else { 0 }),
            4 => AluResult { value: a & v, zero: (a & v) == 0, subtract: false, half_carry: true, carry: false },
            5 => AluResult { value: a ^ v, zero: (a ^ v) == 0, subtract: false, half_carry: false, carry: false },
            6 => AluResult { value: a | v, zero: (a | v) == 0, subtract: false, half_carry: false, carry: false },
            _ => {
                proof {
                    lemma_low_bits8(a);
                    lemma_low_bits8(v);
                }
                AluResult { value: a, zero: a == v, subtract: true, half_carry: (v & 0x0F) > (a & 0x0F), carry: v > a }
            },
        }
    }

    fn alu(cpu: &mut CPU, op: u8, value: u8)
        requires
            op < 8,
        ensures
            final(cpu)@ == old(cpu)@.alu(op, value),
    {
        let r = Self::alu_compute(op, cpu.reg.get_a(), value, cpu.reg.get_carry_flag());
        cpu.reg.set_a(r.value);
        cpu.reg.set_flags(r.zero, r.subtract, r.half_carry, r.carry);
    }

    /// Sets the flags of the rotation or shift `op` of `v` and gives its result.
    fn rot(cpu: &mut CPU, op: u8, v: u8) -> (r: u8)
        requires
            op < 8,
        ensures
            r == rot_value(op, v, old(cpu)@.reg.carry),
            final(cpu)@ == old(cpu)@.rot_flags(op, v),
    {
        proof {
            reveal(rot_value);
        }
        let old_carry: u8 = if cpu.reg.get_carry_flag() {
            1
        } else {
            0
        };
        proof {
            lemma_rot_bits(v, old_carry);
        }
        let res: u8 = match op {
            0 => (v << 1) | ((v & 0x80) >> 7),
            1 => (v >> 1) | ((v & 0x01) << 7),
            2 => (v << 1) | old_carry,
            3 => (v >> 1) | (old_carry << 7),
            4 => v << 1,
            5 => (v >> 1) | (v & 0x80),
            6 => ((v & 0xF0) >> 4) | ((v & 0x0F) << 4),
            _ => v >> 1,
        };
        let carry: bool = match op {
            0 | 2 | 4 => (v & 0x80) != 0,
            6 => false,
            _ => (v & 0x01) != 0,
        };
        cpu.reg.set_flags(res == 0, false, false, carry);
        res
    }
}

} // verus!
