use crate::bits::{
    add16, flags_byte, high_byte, lemma_flags_byte, lemma_flags_byte_of_bits, lemma_pair_exec, lemma_wrapping16, low_byte,
    pair,
};
use crate::cpu::initparams::InitParams;
use vstd::prelude::*;

verus! {

/// The register file as a record: the seven data registers, the four condition flags, and
/// the two 16-bit registers. The flag register F is not stored: it is made of the flags.
pub struct RegsView {
    pub a: u8,
    pub b: u8,
    pub c: u8,
    pub d: u8,
    pub e: u8,
    pub h: u8,
    pub l: u8,
    pub zero: bool,
    pub subtract: bool,
    pub half_carry: bool,
    pub carry: bool,
    pub sp: u16,
    pub pc: u16,
}

impl RegsView {
    pub open spec fn f(self) -> u8 {
        flags_byte(self.zero, self.subtract, self.half_carry, self.carry)
    }

    pub open spec fn af(self) -> u16 {
        pair(self.a, self.f())
    }

    pub open spec fn bc(self) -> u16 {
        pair(self.b, self.c)
    }

    pub open spec fn de(self) -> u16 {
        pair(self.d, self.e)
    }

    pub open spec fn hl(self) -> u16 {
        pair(self.h, self.l)
    }

    /// Writing F keeps the four flag bits of `value` and drops its low nibble.
    pub open spec fn with_f(self, value: u8) -> RegsView {
        RegsView {
            zero: value & 0x80 != 0,
            subtract: value & 0x40 != 0,
            half_carry: value & 0x20 != 0,
            carry: value & 0x10 != 0,
            ..self
        }
    }

    pub open spec fn with_flags(self, zero: bool, subtract: bool, half_carry: bool, carry: bool) -> RegsView {
        RegsView { zero, subtract, half_carry, carry, ..self }
    }

    pub open spec fn with_af(self, value: u16) -> RegsView {
        RegsView { a: high_byte(value), ..self }.with_f(low_byte(value))
    }

    pub open spec fn with_bc(self, value: u16) -> RegsView {
        RegsView { b: high_byte(value), c: low_byte(value), ..self }
    }

    pub open spec fn with_de(self, value: u16) -> RegsView {
        RegsView { d: high_byte(value), e: low_byte(value), ..self }
    }

    pub open spec fn with_hl(self, value: u16) -> RegsView {
        RegsView { h: high_byte(value), l: low_byte(value), ..self }
    }

    /// The register file after reset: the seed in the 8-bit registers, the stack at the top
    /// of high RAM and execution at the cartridge entry point.
    pub open spec fn reset(seed: InitParams) -> RegsView {
        RegsView {
            a: seed.a,
            b: seed.b,
            c: seed.c,
            d: seed.d,
            e: seed.e,
            h: seed.h,
            l: seed.l,
            zero: false,
            subtract: false,
            half_carry: false,
            carry: false,
            sp: 0xFFFE,
            pc: 0x0100,
        }.with_f(seed.f)
    }
}

/// F never shows a set bit in its low nibble.
pub proof fn lemma_f_low_nibble(r: RegsView)
    ensures
        r.f() & 0x0F == 0,
{
    lemma_flags_byte(r.zero, r.subtract, r.half_carry, r.carry);
}

/// Writing F and reading it back gives the written byte without its low nibble.
pub proof fn lemma_with_f_reads_masked(r: RegsView, value: u8)
    ensures
        r.with_f(value).f() == value & 0xF0,
        r.with_f(r.f()) == r,
{
    lemma_mask_bits(value);
    lemma_flags_byte_of_bits(value & 0xF0);
    lemma_flags_byte(r.zero, r.subtract, r.half_carry, r.carry);
}

/// Writing a register pair and reading it back gives the written value; for AF, without the
/// low nibble of F.
pub proof fn lemma_pair_round_trip(r: RegsView, value: u16)
    ensures
        r.with_bc(value).bc() == value,
        r.with_de(value).de() == value,
        r.with_hl(value).hl() == value,
        r.with_af(value).af() == value & 0xFFF0,
{
    reveal(pair);
    reveal(high_byte);
    reveal(low_byte);
    lemma_with_f_reads_masked(RegsView { a: high_byte(value), ..r }, low_byte(value));
    lemma_af_mask(value, low_byte(value));
}

proof fn lemma_af_mask(value: u16, lo: u8)
    by (bit_vector)
    requires
        lo == value % 256,
    ensures
        (value / 256) * 256 + (lo & 0xF0) == value & 0xFFF0,
{
}

proof fn lemma_mask_bits(v: u8)
    by (bit_vector)
    ensures
        (v & 0xF0) & 0x0F == 0,
        (v & 0xF0) & 0x80 == v & 0x80,
        (v & 0xF0) & 0x40 == v & 0x40,
        (v & 0xF0) & 0x20 == v & 0x20,
        (v & 0xF0) & 0x10 == v & 0x10,
        0u8 & 0x0F == 0,
        0u8 & 0x80 == 0,
        0u8 & 0x40 == 0,
        0u8 & 0x20 == 0,
        0u8 & 0x10 == 0,
{
}

proof fn lemma_set_flag_bits(f: u8)
    by (bit_vector)
    ensures
        (f | 0x80) & 0x80 != 0,
        (f | 0x80) & 0x40 == f & 0x40,
        (f | 0x80) & 0x20 == f & 0x20,
        (f | 0x80) & 0x10 == f & 0x10,
        (f | 0x80) & 0x0F == f & 0x0F,
        (f | 0x40) & 0x80 == f & 0x80,
        (f | 0x40) & 0x40 != 0,
        (f | 0x40) & 0x20 == f & 0x20,
        (f | 0x40) & 0x10 == f & 0x10,
        (f | 0x40) & 0x0F == f & 0x0F,
        (f | 0x20) & 0x80 == f & 0x80,
        (f | 0x20) & 0x40 == f & 0x40,
        (f | 0x20) & 0x20 != 0,
        (f | 0x20) & 0x10 == f & 0x10,
        (f | 0x20) & 0x0F == f & 0x0F,
        (f | 0x10) & 0x80 == f & 0x80,
        (f | 0x10) & 0x40 == f & 0x40,
        (f | 0x10) & 0x20 == f & 0x20,
        (f | 0x10) & 0x10 != 0,
        (f | 0x10) & 0x0F == f & 0x0F,
{
}

proof fn lemma_clear_flag_bits(f: u8)
    by (bit_vector)
    ensures
        (f & 0x7F) & 0x80 == 0,
        (f & 0x7F) & 0x40 == f & 0x40,
        (f & 0x7F) & 0x20 == f & 0x20,
        (f & 0x7F) & 0x10 == f & 0x10,
        (f & 0x7F) & 0x0F == f & 0x0F,
        (f & 0xBF) & 0x80 == f & 0x80,
        (f & 0xBF) & 0x40 == 0,
        (f & 0xBF) & 0x20 == f & 0x20,
        (f & 0xBF) & 0x10 == f & 0x10,
        (f & 0xBF) & 0x0F == f & 0x0F,
        (f & 0xDF) & 0x80 == f & 0x80,
        (f & 0xDF) & 0x40 == f & 0x40,
        (f & 0xDF) & 0x20 == 0,
        (f & 0xDF) & 0x10 == f & 0x10,
        (f & 0xDF) & 0x0F == f & 0x0F,
        (f & 0xEF) & 0x80 == f & 0x80,
        (f & 0xEF) & 0x40 == f & 0x40,
        (f & 0xEF) & 0x20 == f & 0x20,
        (f & 0xEF) & 0x10 == 0,
        (f & 0xEF) & 0x0F == f & 0x0F,
{
}

/// The register file. F is stored as a byte whose low nibble is always zero.
#[derive(Debug, Clone, Copy)]
pub struct GBRegisters {
    a: u8,
    f: u8,
    b: u8,
    c: u8,
    d: u8,
    e: u8,
    h: u8,
    l: u8,
    sp: u16,
    pc: u16,
}

impl View for GBRegisters {
    type V = RegsView;

    closed spec fn view(&self) -> RegsView {
        RegsView {
            a: self.a,
            b: self.b,
            c: self.c,
            d: self.d,
            e: self.e,
            h: self.h,
            l: self.l,
            zero: self.f & 0x80 != 0,
            subtract: self.f & 0x40 != 0,
            half_carry: self.f & 0x20 != 0,
            carry: self.f & 0x10 != 0,
            sp: self.sp,
            pc: self.pc,
        }
    }
}

impl GBRegisters {
    #[verifier::type_invariant]
    spec fn low_nibble_clear(self) -> bool {
        self.f & 0x0F == 0
    }

    pub fn new() -> (r: Self)
        ensures
            r@ == (RegsView {
                a: 0,
                b: 0,
                c: 0,
                d: 0,
                e: 0,
                h: 0,
                l: 0,
                zero: false,
                subtract: false,
                half_carry: false,
                carry: false,
                sp: 0,
                pc: 0,
            }),
    {
        proof {
            lemma_mask_bits(0);
        }
        GBRegisters { a: 0, f: 0, b: 0, c: 0, d: 0, e: 0, h: 0, l: 0, sp: 0, pc: 0 }
    }

    pub fn init_registers(&mut self, init_params: InitParams)
        ensures
            final(self)@ == RegsView::reset(init_params),
    {
        proof {
            use_type_invariant(&*self);
            lemma_mask_bits(init_params.f);
        }
        self.sp = 0xFFFE;
        self.pc = 0x0100;
        self.a = init_params.a;
        self.f = init_params.f & 0xF0;
        self.b = init_params.b;
        self.c = init_params.c;
        self.d = init_params.d;
        self.e = init_params.e;
        self.h = init_params.h;
        self.l = init_params.l;
    }

    pub fn get_a(&self) -> (r: u8)
        ensures
            r == self@.a,
    {
        self.a
    }

    pub fn set_a(&mut self, value: u8)
        ensures
            final(self)@ == (RegsView { a: value, ..old(self)@ }),
    {
        proof {
            use_type_invariant(&*self);
        }
        self.a = value;
    }

    pub fn get_f(&self) -> (r: u8)
        ensures
            r == self@.f(),
            r & 0x0F == 0,
    {
        proof {
            use_type_invariant(self);
            lemma_flags_byte_of_bits(self.f);
        }
        self.f
    }

    pub fn set_f(&mut self, value: u8)
        ensures
            final(self)@ == old(self)@.with_f(value),
    {
        proof {
            lemma_mask_bits(value);
        }
        self.f = value & 0xF0;
    }

    pub fn get_b(&self) -> (r: u8)
        ensures
            r == self@.b,
    {
        self.b
    }

    pub fn set_b(&mut self, value: u8)
        ensures
            final(self)@ == (RegsView { b: value, ..old(self)@ }),
    {
        proof {
            use_type_invariant(&*self);
        }
        self.b = value;
    }

    pub fn get_c(&self) -> (r: u8)
        ensures
            r == self@.c,
    {
        self.c
    }

    pub fn set_c(&mut self, value: u8)
        ensures
            final(self)@ == (RegsView { c: value, ..old(self)@ }),
    {
        proof {
            use_type_invariant(&*self);
        }
        self.c = value;
    }

    pub fn get_d(&self) -> (r: u8)
        ensures
            r == self@.d,
    {
        self.d
    }

    pub fn set_d(&mut self, value: u8)
        ensures
            final(self)@ == (RegsView { d: value, ..old(self)@ }),
    {
        proof {
            use_type_invariant(&*self);
        }
        self.d = value;
    }

    pub fn get_e(&self) -> (r: u8)
        ensures
            r == self@.e,
    {
        self.e
    }

    pub fn set_e(&mut self, value: u8)
        ensures
            final(self)@ == (RegsView { e: value, ..old(self)@ }),
    {
        proof {
            use_type_invariant(&*self);
        }
        self.e = value;
    }

    pub fn get_h(&self) -> (r: u8)
        ensures
            r == self@.h,
    {
        self.h
    }

    pub fn set_h(&mut self, value: u8)
        ensures
            final(self)@ == (RegsView { h: value, ..old(self)@ }),
    {
        proof {
            use_type_invariant(&*self);
        }
        self.h = value;
    }

    pub fn get_l(&self) -> (r: u8)
        ensures
            r == self@.l,
    {
        self.l
    }

    pub fn set_l(&mut self, value: u8)
        ensures
            final(self)@ == (RegsView { l: value, ..old(self)@ }),
    {
        proof {
            use_type_invariant(&*self);
        }
        self.l = value;
    }

    pub fn get_af(&self) -> (r: u16)
        ensures
            r == self@.af(),
            r & 0x000F == 0,
    {
        let a: u8 = self.get_a();
        let f: u8 = self.get_f();
        proof {
            lemma_pair_exec(0, a, f);
            lemma_af_low_nibble(a, f);
        }
        ((a as u16) << 8) | (f as u16)
    }

    pub fn set_af(&mut self, value: u16)
        ensures
            final(self)@ == old(self)@.with_af(value),
    {
        proof {
            lemma_pair_exec(value, 0, 0);
        }
        self.set_a((value >> 8) as u8);
        self.set_f(value as u8);
    }

    pub fn get_bc(&self) -> (r: u16)
        ensures
            r == self@.bc(),
    {
        proof {
            lemma_pair_exec(0, self.b, self.c);
        }
        ((self.get_b() as u16) << 8) | (self.get_c() as u16)
    }

    pub fn set_bc(&mut self, value: u16)
        ensures
            final(self)@ == old(self)@.with_bc(value),
    {
        proof {
            lemma_pair_exec(value, 0, 0);
        }
        self.set_b((value >> 8) as u8);
        self.set_c(value as u8);
    }

    pub fn get_de(&self) -> (r: u16)
        ensures
            r == self@.de(),
    {
        proof {
            lemma_pair_exec(0, self.d, self.e);
        }
        ((self.get_d() as u16) << 8) | (self.get_e() as u16)
    }

    pub fn set_de(&mut self, value: u16)
        ensures
            final(self)@ == old(self)@.with_de(value),
    {
        proof {
            lemma_pair_exec(value, 0, 0);
        }
        self.set_d((value >> 8) as u8);
        self.set_e(value as u8);
    }

    pub fn get_hl(&self) -> (r: u16)
        ensures
            r == self@.hl(),
    {
        proof {
            lemma_pair_exec(0, self.h, self.l);
        }
        ((self.get_h() as u16) << 8) | (self.get_l() as u16)
    }

    pub fn set_hl(&mut self, value: u16)
        ensures
            final(self)@ == old(self)@.with_hl(value),
    {
        proof {
            lemma_pair_exec(value, 0, 0);
        }
        self.set_h((value >> 8) as u8);
        self.set_l(value as u8);
    }

    pub fn get_sp(&self) -> (r: u16)
        ensures
            r == self@.sp,
            0 <= r <= 0xFFFF,
    {
        self.sp
    }

    pub fn set_sp(&mut self, value: u16)
        ensures
            final(self)@ == (RegsView { sp: value, ..old(self)@ }),
    {
        proof {
            use_type_invariant(&*self);
        }
        self.sp = value;
    }

    /// Moves SP by `v`, modulo 2^16.
    pub fn add_sp(&mut self, v: i16)
        ensures
            final(self)@ == (RegsView { sp: add16(old(self)@.sp, v as int), ..old(self)@ }),
    {
        proof {
            use_type_invariant(&*self);
            lemma_wrapping16(self.sp, 0, v);
        }
        self.sp = self.sp.wrapping_add_signed(v);
    }

    pub fn get_pc(&self) -> (r: u16)
        ensures
            r == self@.pc,
            0 <= r <= 0xFFFF,
    {
        self.pc
    }

    pub fn set_pc(&mut self, value: u16)
        ensures
            final(self)@ == (RegsView { pc: value, ..old(self)@ }),
    {
        proof {
            use_type_invariant(&*self);
        }
        self.pc = value;
    }

    /// Moves PC by `value`, modulo 2^16.
    pub fn add_pc(&mut self, value: i16)
        ensures
            final(self)@ == (RegsView { pc: add16(old(self)@.pc, value as int), ..old(self)@ }),
    {
        proof {
            use_type_invariant(&*self);
            lemma_wrapping16(self.pc, 0, value);
        }
        self.pc = self.pc.wrapping_add_signed(value);
    }

    pub fn get_zero_flag(&self) -> (r: bool)
        ensures
            r == self@.zero,
    {
        self.f & 0x80 != 0
    }

    pub fn set_zero_flag(&mut self, value: bool)
        ensures
            final(self)@ == (RegsView { zero: value, ..old(self)@ }),
    {
        proof {
            use_type_invariant(&*self);
            lemma_set_flag_bits(self.f);
            lemma_clear_flag_bits(self.f);
        }
        if value {
            self.f |= 0x80;
        } else {
            self.f &= 0x7F;
        }
    }

    pub fn get_subtract_flag(&self) -> (r: bool)
        ensures
            r == self@.subtract,
    {
        self.f & 0x40 != 0
    }

    pub fn set_subtract_flag(&mut self, value: bool)
        ensures
            final(self)@ == (RegsView { subtract: value, ..old(self)@ }),
    {
        proof {
            use_type_invariant(&*self);
            lemma_set_flag_bits(self.f);
            lemma_clear_flag_bits(self.f);
        }
        if value {
            self.f |= 0x40;
        } else {
            self.f &= 0xBF;
        }
    }

    pub fn get_half_carry_flag(&self) -> (r: bool)
        ensures
            r == self@.half_carry,
    {
        self.f & 0x20 != 0
    }

    pub fn set_half_carry_flag(&mut self, value: bool)
        ensures
            final(self)@ == (RegsView { half_carry: value, ..old(self)@ }),
    {
        proof {
            use_type_invariant(&*self);
            lemma_set_flag_bits(self.f);
            lemma_clear_flag_bits(self.f);
        }
        if value {
            self.f |= 0x20;
        } else {
            self.f &= 0xDF;
        }
    }

    pub fn get_carry_flag(&self) -> (r: bool)
        ensures
            r == self@.carry,
    {
        self.f & 0x10 != 0
    }

    pub fn set_carry_flag(&mut self, value: bool)
        ensures
            final(self)@ == (RegsView { carry: value, ..old(self)@ }),
    {
        proof {
            use_type_invariant(&*self);
            lemma_set_flag_bits(self.f);
            lemma_clear_flag_bits(self.f);
        }
        if value {
            self.f |= 0x10;
        } else {
            self.f &= 0xEF;
        }
    }

    /// Sets the four flags at once.
    pub fn set_flags(&mut self, zero: bool, subtract: bool, half_carry: bool, carry: bool)
        ensures
            final(self)@ == old(self)@.with_flags(zero, subtract, half_carry, carry),
    {
        self.set_zero_flag(zero);
        self.set_subtract_flag(subtract);
        self.set_half_carry_flag(half_carry);
        self.set_carry_flag(carry);
    }
}

proof fn lemma_af_low_nibble(a: u8, f: u8)
    by (bit_vector)
    requires
        f & 0x0F == 0,
    ensures
        (((a as u16) << 8) | (f as u16)) & 0x000F == 0,
{
}

} // verus!
