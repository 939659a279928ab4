use crate::bits::{add16, add8, signed8};
use crate::cpu::registers::RegsView;
use crate::cpu::CpuView;
use vstd::prelude::*;

verus! {

/// The opcode fields by which the instruction set is laid out: `x` is bits 7 and 6, `y` bits
/// 5 to 3, `z` bits 2 to 0, `p` the two high bits of `y` and `q` its low bit.
pub open spec fn field_x(op: u8) -> u8 {
    op / 64
}

pub open spec fn field_y(op: u8) -> u8 {
    (op / 8) % 8
}

pub open spec fn field_z(op: u8) -> u8 {
    op % 8
}

pub open spec fn field_p(op: u8) -> u8 {
    field_y(op) / 2
}

pub open spec fn field_q(op: u8) -> u8 {
    field_y(op) % 2
}

/// What an operation of the arithmetic unit gives: the new accumulator and the four flags.
pub struct AluResult {
    pub value: u8,
    pub zero: bool,
    pub subtract: bool,
    pub half_carry: bool,
    pub carry: bool,
}

/// The operation `op` of the arithmetic unit on the accumulator `a` and the operand `v`:
/// ADD, ADC, SUB, SBC, AND, XOR, OR, CP in this order. H is the carry out of bit 3 (the borrow
/// into it), C the carry out of bit 7 (the borrow into it); ADC and SBC take the carry flag in.
#[verifier::opaque]
pub open spec fn alu_result(op: u8, a: u8, v: u8, carry: bool) -> AluResult {
    let cin: int = if carry && (op == 1 || op == 3) {
        1
    } else {
        0
    };
    if op == 0 || op == 1 {
        AluResult {
            value: add8(a, v + cin),
            zero: add8(a, v + cin) == 0,
            subtract: false,
            half_carry: a % 16 + v % 16 + cin > 15,
            carry: a + v + cin > 255,
        }
    } else if op == 2 || op == 3 {
        AluResult {
            value: add8(a, -(v + cin)),
            zero: add8(a, -(v + cin)) == 0,
            subtract: true,
            half_carry: a % 16 < v % 16 + cin,
            carry: a < v + cin,
        }
    } else if op == 4 {
        AluResult { value: a & v, zero: a & v == 0, subtract: false, half_carry: true, carry: false }
    } else if op == 5 {
        AluResult { value: a ^ v, zero: a ^ v == 0, subtract: false, half_carry: false, carry: false }
    } else if op == 6 {
        AluResult { value: a | v, zero: a | v == 0, subtract: false, half_carry: false, carry: false }
    } else {
        AluResult { value: a, zero: a == v, subtract: true, half_carry: a % 16 < v % 16, carry: a < v }
    }
}

/// The byte that the rotation or shift `op` makes of `v`: RLC, RRC, RL, RR, SLA, SRA, SWAP,
/// SRL in this order. RL and RR shift the carry flag in.
#[verifier::opaque]
pub open spec fn rot_value(op: u8, v: u8, carry: bool) -> u8 {
    let cin: int = if carry {
        1
    } else {
        0
    };
    if op == 0 {
        ((v % 128) * 2 + v / 128) as u8
    } else if op == 1 {
        (v / 2 + (v % 2) * 128) as u8
    } else if op == 2 {
        ((v % 128) * 2 + cin) as u8
    } else if op == 3 {
        (v / 2 + cin * 128) as u8
    } else if op == 4 {
        ((v % 128) * 2) as u8
    } else if op == 5 {
        (v / 2 + (v / 128) * 128) as u8
    } else if op == 6 {
        ((v % 16) * 16 + v / 16) as u8
    } else {
        v / 2
    }
}

/// The bit that the rotation or shift `op` moves out of `v`; SWAP moves none out.
pub open spec fn rot_carry(op: u8, v: u8) -> bool {
    if op == 0 || op == 2 || op == 4 {
        v >= 128
    } else if op == 6 {
        false
    } else {
        v % 2 == 1
    }
}

/// The accumulator after the decimal adjustment that follows an addition (`subtract` false)
/// or a subtraction (`subtract` true) of two packed decimal numbers.
#[verifier::opaque]
pub open spec fn daa_value(a: u8, subtract: bool, half_carry: bool, carry: bool) -> u8 {
    if subtract {
        add8(a, -((if half_carry { 0x06int } else { 0 }) + (if carry { 0x60int } else { 0 })))
    } else {
        let low: int = if half_carry || a % 16 > 9 {
            a + 0x06
        } else {
            a as int
        };
        if carry || low > 0x9F {
            ((low + 0x60) % 256) as u8
        } else {
            (low % 256) as u8
        }
    }
}

/// The carry flag after the decimal adjustment.
#[verifier::opaque]
pub open spec fn daa_carry(a: u8, subtract: bool, half_carry: bool, carry: bool) -> bool {
    if subtract {
        carry
    } else {
        let low: int = if half_carry || a % 16 > 9 {
            a + 0x06
        } else {
            a as int
        };
        carry || low > 0x9F
    }
}

impl CpuView {
    /// The value of the operand `r[reg]`: B, C, D, E, H, L, the byte at HL, A.
    pub open spec fn r_value(self, reg: u8) -> u8 {
        if reg == 0 {
            self.reg.b
        } else if reg == 1 {
            self.reg.c
        } else if reg == 2 {
            self.reg.d
        } else if reg == 3 {
            self.reg.e
        } else if reg == 4 {
            self.reg.h
        } else if reg == 5 {
            self.reg.l
        } else if reg == 6 {
            self.mmu.read8(self.reg.hl())
        } else {
            self.reg.a
        }
    }

    /// The machine after the operand `r[reg]` was read: only the byte at HL costs a memory
    /// access.
    pub open spec fn after_r_read(self, reg: u8) -> CpuView {
        if reg == 6 {
            self.after_read8()
        } else {
            self
        }
    }

    /// The machine after `value` was stored in the operand `r[reg]`.
    pub open spec fn with_r(self, reg: u8, value: u8) -> CpuView {
        if reg == 0 {
            self.with_reg(RegsView { b: value, ..self.reg })
        } else if reg == 1 {
            self.with_reg(RegsView { c: value, ..self.reg })
        } else if reg == 2 {
            self.with_reg(RegsView { d: value, ..self.reg })
        } else if reg == 3 {
            self.with_reg(RegsView { e: value, ..self.reg })
        } else if reg == 4 {
            self.with_reg(RegsView { h: value, ..self.reg })
        } else if reg == 5 {
            self.with_reg(RegsView { l: value, ..self.reg })
        } else if reg == 6 {
            self.write8(self.reg.hl(), value)
        } else {
            self.with_reg(RegsView { a: value, ..self.reg })
        }
    }

    /// The register pair `rp[reg]`: BC, DE, HL, SP.
    pub open spec fn rp(self, reg: u8) -> u16 {
        if reg == 0 {
            self.reg.bc()
        } else if reg == 1 {
            self.reg.de()
        } else if reg == 2 {
            self.reg.hl()
        } else {
            self.reg.sp
        }
    }

    pub open spec fn with_rp(self, reg: u8, value: u16) -> CpuView {
        if reg == 0 {
            self.with_reg(self.reg.with_bc(value))
        } else if reg == 1 {
            self.with_reg(self.reg.with_de(value))
        } else if reg == 2 {
            self.with_reg(self.reg.with_hl(value))
        } else {
            self.with_sp(value)
        }
    }

    /// The register pair `rp2[reg]`: BC, DE, HL, AF.
    pub open spec fn rp2(self, reg: u8) -> u16 {
        if reg == 0 {
            self.reg.bc()
        } else if reg == 1 {
            self.reg.de()
        } else if reg == 2 {
            self.reg.hl()
        } else {
            self.reg.af()
        }
    }

    pub open spec fn with_rp2(self, reg: u8, value: u16) -> CpuView {
        if reg == 0 {
            self.with_reg(self.reg.with_bc(value))
        } else if reg == 1 {
            self.with_reg(self.reg.with_de(value))
        } else if reg == 2 {
            self.with_reg(self.reg.with_hl(value))
        } else {
            self.with_reg(self.reg.with_af(value))
        }
    }

    /// The condition `cc[cc]`: NZ, Z, NC, C.
    pub open spec fn condition(self, cc: u8) -> bool {
        if cc == 0 {
            !self.reg.zero
        } else if cc == 1 {
            self.reg.zero
        } else if cc == 2 {
            !self.reg.carry
        } else if cc == 3 {
            self.reg.carry
        } else {
            false
        }
    }

    pub open spec fn with_a(self, value: u8) -> CpuView {
        self.with_reg(RegsView { a: value, ..self.reg })
    }

    pub open spec fn with_flags(self, zero: bool, subtract: bool, half_carry: bool, carry: bool) -> CpuView {
        self.with_reg(self.reg.with_flags(zero, subtract, half_carry, carry))
    }

    /// RET: the return address comes off the stack.
    pub open spec fn ret(self) -> CpuView {
        self.after_pop().with_pc(self.stack_top())
    }

    /// CALL: the address of the next instruction goes on the stack.
    pub open spec fn call(self, addr: u16) -> CpuView {
        self.push(self.reg.pc).with_pc(addr)
    }

    /// An operation of the arithmetic unit on A and `value`. CP leaves A as it is.
    pub open spec fn alu(self, op: u8, value: u8) -> CpuView {
        let r = alu_result(op, self.reg.a, value, self.reg.carry);
        self.with_a(r.value).with_flags(r.zero, r.subtract, r.half_carry, r.carry)
    }

    /// The flags after a rotation or shift of `v`: Z by the result, N and H clear, C the bit
    /// moved out.
    pub open spec fn rot_flags(self, op: u8, v: u8) -> CpuView {
        self.with_flags(rot_value(op, v, self.reg.carry) == 0, false, false, rot_carry(op, v))
    }

    /// The jump of `d` bytes from the instruction that follows, taken or not.
    #[verifier::opaque]
    pub open spec fn jr(self, taken: bool) -> CpuView {
        let d = signed8(self.operand8());
        let next = self.after_operand8();
        if taken {
            next.with_pc(add16(next.reg.pc, d)).tick(4)
        } else {
            next
        }
    }

    /// NOP, LD (nn),SP, STOP, JR d and JR cc,d.
    #[verifier::opaque]
    pub open spec fn op_misc(self, y: u8) -> CpuView {
        if y == 0 {
            self
        } else if y == 1 {
            self.after_operand16().write16(self.operand16(), self.reg.sp)
        } else if y == 2 {
            self.stop()
        } else if y == 3 {
            self.jr(true)
        } else {
            self.jr(self.condition((y - 4) as u8))
        }
    }

    /// ADD HL,rp: H is the carry out of bit 11, C the carry out of bit 15, Z stays.
    #[verifier::opaque]
    pub open spec fn op_add_hl(self, p: u8) -> CpuView {
        let hl = self.reg.hl();
        let v = self.rp(p);
        self.with_reg(
            RegsView { subtract: false, half_carry: hl % 0x1000 + v % 0x1000 > 0xFFF, carry: hl + v > 0xFFFF, ..self.reg }.with_hl(
                add16(hl, v as int),
            ),
        ).tick(4)
    }

    /// LD rp,nn and ADD HL,rp.
    #[verifier::opaque]
    pub open spec fn op_wide(self, p: u8, q: u8) -> CpuView {
        if q == 0 {
            self.after_operand16().with_rp(p, self.operand16())
        } else {
            self.op_add_hl(p)
        }
    }

    /// The address that an indirect load goes through, and what it adds to HL afterwards.
    pub open spec fn indirect_address(self, p: u8) -> u16 {
        if p == 0 {
            self.reg.bc()
        } else if p == 1 {
            self.reg.de()
        } else {
            self.reg.hl()
        }
    }

    pub open spec fn indirect_step(p: u8) -> int {
        if p == 2 {
            1
        } else if p == 3 {
            -1
        } else {
            0
        }
    }

    /// LD (BC),A, LD (DE),A, LD (HL+),A, LD (HL-),A and the loads of A the other way.
    #[verifier::opaque]
    pub open spec fn op_indirect(self, p: u8, q: u8) -> CpuView {
        let addr = self.indirect_address(p);
        let moved = if q == 0 {
            self.write8(addr, self.reg.a)
        } else {
            self.after_read8().with_a(self.mmu.read8(addr))
        };
        if p >= 2 {
            moved.with_reg(moved.reg.with_hl(add16(moved.reg.hl(), Self::indirect_step(p))))
        } else {
            moved
        }
    }

    /// INC rp and DEC rp, which touch no flag.
    #[verifier::opaque]
    pub open spec fn op_inc_dec_wide(self, p: u8, q: u8) -> CpuView {
        self.with_rp(p, add16(self.rp(p), if q == 0 { 1int } else { -1int })).tick(4)
    }

    /// INC r: H is the carry out of bit 3, C stays.
    #[verifier::opaque]
    pub open spec fn op_inc(self, y: u8) -> CpuView {
        let v = self.r_value(y);
        let stored = self.after_r_read(y).with_r(y, add8(v, 1));
        stored.with_reg(RegsView { zero: add8(v, 1) == 0, subtract: false, half_carry: v % 16 == 15, ..stored.reg })
    }

    /// DEC r: H is the borrow into bit 3, C stays.
    #[verifier::opaque]
    pub open spec fn op_dec(self, y: u8) -> CpuView {
        let v = self.r_value(y);
        let stored = self.after_r_read(y).with_r(y, add8(v, -1));
        stored.with_reg(RegsView { zero: add8(v, -1) == 0, subtract: true, half_carry: v % 16 == 0, ..stored.reg })
    }

    /// LD r,n.
    pub open spec fn op_load_immediate(self, y: u8) -> CpuView {
        self.after_operand8().with_r(y, self.operand8())
    }

    /// DAA: Z by the result, H clear, N as it was.
    #[verifier::opaque]
    pub open spec fn op_daa(self) -> CpuView {
        let value = daa_value(self.reg.a, self.reg.subtract, self.reg.half_carry, self.reg.carry);
        self.with_a(value).with_flags(
            value == 0,
            self.reg.subtract,
            false,
            daa_carry(self.reg.a, self.reg.subtract, self.reg.half_carry, self.reg.carry),
        )
    }

    /// RLCA, RRCA, RLA, RRA, DAA, CPL, SCF, CCF. The four rotations of A clear Z.
    #[verifier::opaque]
    pub open spec fn op_accumulator(self, y: u8) -> CpuView {
        let a = self.reg.a;
        if y < 4 {
            self.with_a(rot_value(y, a, self.reg.carry)).with_flags(false, false, false, rot_carry(y, a))
        } else if y == 4 {
            self.op_daa()
        } else if y == 5 {
            self.with_a((255 - a) as u8).with_flags(self.reg.zero, true, true, self.reg.carry)
        } else if y == 6 {
            self.with_flags(self.reg.zero, false, false, true)
        } else {
            self.with_flags(self.reg.zero, false, false, !self.reg.carry)
        }
    }

    /// The instructions 0x00 to 0x3F, by the fields `y` and `z` of their opcode.
    #[verifier::opaque]
    pub open spec fn block0(self, y: u8, z: u8) -> CpuView {
        if z == 0 {
            self.op_misc(y)
        } else if z == 1 {
            self.op_wide(y / 2, y % 2)
        } else if z == 2 {
            self.op_indirect(y / 2, y % 2)
        } else if z == 3 {
            self.op_inc_dec_wide(y / 2, y % 2)
        } else if z == 4 {
            self.op_inc(y)
        } else if z == 5 {
            self.op_dec(y)
        } else if z == 6 {
            self.op_load_immediate(y)
        } else {
            self.op_accumulator(y)
        }
    }

    /// The instructions 0x40 to 0x7F: LD r,r', and HALT in the place of LD (HL),(HL).
    #[verifier::opaque]
    pub open spec fn block1(self, y: u8, z: u8) -> CpuView {
        if y == 6 && z == 6 {
            self.halt()
        } else {
            self.after_r_read(z).with_r(y, self.r_value(z))
        }
    }

    /// The instructions 0x80 to 0xBF: the arithmetic unit on A and a register operand.
    #[verifier::opaque]
    pub open spec fn block2(self, y: u8, z: u8) -> CpuView {
        self.after_r_read(z).alu(y, self.r_value(z))
    }

    /// The flags and the sum of SP and the signed operand byte `d`, as ADD SP,d and
    /// LD HL,SP+d compute them: Z and N clear, H and C the carries out of bit 3 and bit 7 of the
    /// unsigned sum of the low bytes.
    pub open spec fn sp_plus_flags(self, d: u8) -> CpuView {
        self.with_flags(false, false, self.reg.sp % 16 + d % 16 > 15, self.reg.sp % 256 + d > 255)
    }

    pub open spec fn sp_plus(self, d: u8) -> u16 {
        add16(self.reg.sp, signed8(d))
    }

    /// RET cc, which costs 8 cycles when it does not return and 16 more when it does.
    #[verifier::opaque]
    pub open spec fn op_ret_cc(self, y: u8) -> CpuView {
        if self.condition(y) {
            self.ret().tick(8)
        } else {
            self.tick(4)
        }
    }

    /// LDH (n),A.
    #[verifier::opaque]
    pub open spec fn op_ldh_store(self) -> CpuView {
        self.after_operand8().write8((0xFF00 + self.operand8()) as u16, self.reg.a)
    }

    /// LDH A,(n).
    #[verifier::opaque]
    pub open spec fn op_ldh_load(self) -> CpuView {
        let next = self.after_operand8();
        next.after_read8().with_a(next.mmu.read8((0xFF00 + self.operand8()) as u16))
    }

    /// ADD SP,d.
    #[verifier::opaque]
    pub open spec fn op_add_sp(self) -> CpuView {
        let next = self.after_operand8();
        next.sp_plus_flags(self.operand8()).with_sp(next.sp_plus(self.operand8())).tick(8)
    }

    /// LD HL,SP+d.
    #[verifier::opaque]
    pub open spec fn op_load_hl_sp(self) -> CpuView {
        let next = self.after_operand8().sp_plus_flags(self.operand8());
        next.with_reg(next.reg.with_hl(next.sp_plus(self.operand8()))).tick(4)
    }

    /// RET cc, LDH (n),A, ADD SP,d, LDH A,(n), LD HL,SP+d.
    #[verifier::opaque]
    pub open spec fn op_ret_high(self, y: u8) -> CpuView {
        if y < 4 {
            self.op_ret_cc(y)
        } else if y == 4 {
            self.op_ldh_store()
        } else if y == 5 {
            self.op_add_sp()
        } else if y == 6 {
            self.op_ldh_load()
        } else {
            self.op_load_hl_sp()
        }
    }

    /// POP rp2, RET, RETI, JP HL, LD SP,HL.
    #[verifier::opaque]
    pub open spec fn op_pop_ret(self, p: u8, q: u8) -> CpuView {
        if q == 0 {
            self.after_pop().with_rp2(p, self.stack_top())
        } else if p == 0 {
            self.ret().tick(4)
        } else if p == 1 {
            CpuView { ime: true, ime_pending: false, ..self.ret().tick(4) }
        } else if p == 2 {
            self.with_pc(self.reg.hl())
        } else {
            self.with_sp(self.reg.hl()).tick(4)
        }
    }

    /// JP cc,nn and the loads between A and the byte at 0xFF00+C or at nn.
    #[verifier::opaque]
    pub open spec fn op_jp_high(self, y: u8) -> CpuView {
        if y < 4 {
            let next = self.after_operand16();
            if self.condition(y) {
                next.with_pc(self.operand16()).tick(4)
            } else {
                next
            }
        } else if y == 4 {
            self.write8((0xFF00 + self.reg.c) as u16, self.reg.a)
        } else if y == 5 {
            self.after_operand16().write8(self.operand16(), self.reg.a)
        } else if y == 6 {
            self.after_read8().with_a(self.mmu.read8((0xFF00 + self.reg.c) as u16))
        } else {
            let next = self.after_operand16();
            next.after_read8().with_a(next.mmu.read8(self.operand16()))
        }
    }

    /// JP nn, the prefix 0xCB, DI, EI, and four opcodes that freeze the processor. EI takes
    /// effect when the instruction after it is done.
    #[verifier::opaque]
    pub open spec fn op_jp_control(self, y: u8) -> CpuView {
        if y == 0 {
            self.after_operand16().with_pc(self.operand16()).tick(4)
        } else if y == 1 {
            self.prefixed()
        } else if y == 6 {
            CpuView { ime: false, ime_pending: false, ..self }
        } else if y == 7 {
            CpuView { ime_pending: true, ..self }
        } else {
            self.freeze()
        }
    }

    /// CALL cc,nn, and four opcodes that freeze the processor.
    #[verifier::opaque]
    pub open spec fn op_call_cc(self, y: u8) -> CpuView {
        if y < 4 {
            let next = self.after_operand16();
            if self.condition(y) {
                next.call(self.operand16()).tick(4)
            } else {
                next
            }
        } else {
            self.freeze()
        }
    }

    /// PUSH rp2, CALL nn, and three opcodes that freeze the processor.
    #[verifier::opaque]
    pub open spec fn op_push_call(self, p: u8, q: u8) -> CpuView {
        if q == 0 {
            self.tick(4).push(self.rp2(p))
        } else if p == 0 {
            self.after_operand16().call(self.operand16()).tick(4)
        } else {
            self.freeze()
        }
    }

    /// RST: a call to one of the eight addresses 0x00, 0x08, ..., 0x38.
    #[verifier::opaque]
    pub open spec fn op_rst(self, y: u8) -> CpuView {
        self.push(self.reg.pc).with_pc((y * 8) as u16).tick(4)
    }

    /// The instructions 0xC0 to 0xFF, by the fields `y` and `z` of their opcode.
    #[verifier::opaque]
    pub open spec fn block3(self, y: u8, z: u8) -> CpuView {
        if z == 0 {
            self.op_ret_high(y)
        } else if z == 1 {
            self.op_pop_ret(y / 2, y % 2)
        } else if z == 2 {
            self.op_jp_high(y)
        } else if z == 3 {
            self.op_jp_control(y)
        } else if z == 4 {
            self.op_call_cc(y)
        } else if z == 5 {
            self.op_push_call(y / 2, y % 2)
        } else if z == 6 {
            self.after_operand8().alu(y, self.operand8())
        } else {
            self.op_rst(y)
        }
    }

    /// The second byte `op` of a prefixed instruction, on the operand `r[z]`: a rotation or
    /// shift, BIT, RES or SET. BIT sets Z when the bit is clear, clears N, sets H and leaves C.
    #[verifier::opaque]
    pub open spec fn prefixed_op(self, op: u8) -> CpuView {
        let x = field_x(op);
        let y = field_y(op);
        let z = field_z(op);
        let v = self.r_value(z);
        let read = self.after_r_read(z);
        if x == 0 {
            read.rot_flags(y, v).with_r(z, rot_value(y, v, self.reg.carry))
        } else if x == 1 {
            read.with_flags(v & (1u8 << y) == 0, false, true, self.reg.carry)
        } else if x == 2 {
            read.with_r(z, v & !(1u8 << y))
        } else {
            read.with_r(z, v | (1u8 << y))
        }
    }

    /// A prefixed instruction: its second byte is read at PC.
    pub open spec fn prefixed(self) -> CpuView {
        self.after_operand8().prefixed_op(self.operand8())
    }

    /// The instruction with the opcode `op`, whose fetch is done.
    #[verifier::opaque]
    pub open spec fn interpret(self, op: u8) -> CpuView {
        let x = field_x(op);
        let y = field_y(op);
        let z = field_z(op);
        if x == 0 {
            self.block0(y, z)
        } else if x == 1 {
            self.block1(y, z)
        } else if x == 2 {
            self.block2(y, z)
        } else {
            self.block3(y, z)
        }
    }
}

} // verus!
