use crate::bits::{add16, add8};
use crate::cpu::semantics::{alu_result, daa_carry, daa_value, field_x, field_y, field_z, rot_value, AluResult};
use crate::cpu::CpuView;
use vstd::prelude::*;

verus! {

/// A rotation to the left and then one to the right give the byte back, whatever the carry
/// flag holds before either of them.
pub proof fn lemma_rlc_then_rrc(v: u8, carry_before: bool, carry_between: bool)
    ensures
        rot_value(1, rot_value(0, v, carry_before), carry_between) == v,
        rot_value(0, rot_value(1, v, carry_before), carry_between) == v,
{
    reveal(rot_value);
}

/// RLC r and then RRC r leave the register r as it was.
pub proof fn lemma_rlc_rrc_restore_register(s: CpuView, z: u8)
    requires
        z < 8,
        z != 6,
    ensures
        s.prefixed_op(z).prefixed_op((8 + z) as u8).r_value(z) == s.r_value(z),
{
    reveal(CpuView::prefixed_op);
    let w = rot_value(0, s.r_value(z), s.reg.carry);
    let mid = s.prefixed_op(z);
    assert(field_x(z) == 0 && field_y(z) == 0 && field_z(z) == z);
    assert(field_x((8 + z) as u8) == 0 && field_y((8 + z) as u8) == 1 && field_z((8 + z) as u8) == z);
    assert(mid.r_value(z) == w);
    lemma_rlc_then_rrc(s.r_value(z), s.reg.carry, mid.reg.carry);
}

/// XOR of a byte with itself is 0 with Z set and the other flags clear. The difference of a
/// byte and itself is 0 with Z and N set and the other flags clear.
pub proof fn lemma_xor_and_sub_of_self(a: u8, carry: bool)
    ensures
        alu_result(5, a, a, carry) == (AluResult {
            value: 0,
            zero: true,
            subtract: false,
            half_carry: false,
            carry: false,
        }),
        alu_result(2, a, a, carry) == (AluResult {
            value: 0,
            zero: true,
            subtract: true,
            half_carry: false,
            carry: false,
        }),
{
    reveal(alu_result);
    reveal(add8);
    assert(a ^ a == 0) by (bit_vector);
}

/// XOR A (0xAF) and SUB A (0x97) clear A and set Z; XOR A clears N, SUB A sets it; both clear
/// H and C. They touch nothing else.
pub proof fn lemma_xor_a_sub_a(s: CpuView)
    ensures
        s.interpret(0xAF) == s.with_a(0).with_flags(true, false, false, false),
        s.interpret(0x97) == s.with_a(0).with_flags(true, true, false, false),
{
    reveal(CpuView::interpret);
    reveal(CpuView::block2);
    lemma_xor_and_sub_of_self(s.reg.a, s.reg.carry);
    assert(field_x(0xAF) == 2 && field_y(0xAF) == 5 && field_z(0xAF) == 7);
    assert(field_x(0x97) == 2 && field_y(0x97) == 2 && field_z(0x97) == 7);
}

/// A byte that holds two decimal digits.
pub open spec fn is_bcd(x: u8) -> bool {
    x / 16 <= 9 && x % 16 <= 9
}

/// The number that the two decimal digits of a byte stand for.
pub open spec fn bcd_value(x: u8) -> int {
    (x / 16) * 10 + x % 16
}

/// DAA after the addition of two packed decimal numbers, with or without a carry taken in,
/// gives the packed decimal sum: two decimal digits, and C set exactly when the sum is over 99.
pub proof fn lemma_daa_after_add(a: u8, b: u8, carry_in: bool)
    requires
        is_bcd(a),
        is_bcd(b),
    ensures
        ({
            let sum = alu_result(1, a, b, carry_in);
            let total = bcd_value(a) + bcd_value(b) + (if carry_in { 1int } else { 0 });
            let adjusted = daa_value(sum.value, false, sum.half_carry, sum.carry);
            let carry = daa_carry(sum.value, false, sum.half_carry, sum.carry);
            &&& is_bcd(adjusted)
            &&& carry == (total > 99)
            &&& bcd_value(adjusted) == total % 100
        }),
        alu_result(0, a, b, carry_in) == alu_result(1, a, b, false),
{
    reveal(alu_result);
    reveal(daa_value);
    reveal(daa_carry);
    reveal(add8);
    let cin: u16 = if carry_in { 1 } else { 0 };
    let raw: u16 = (a + b + cin) as u16;
    let sum = alu_result(1, a, b, carry_in);
    let low: u16 = if sum.half_carry || sum.value % 16 > 9 {
        (sum.value + 0x06) as u16
    } else {
        sum.value as u16
    };
    let carry = daa_carry(sum.value, false, sum.half_carry, sum.carry);
    let wide: u16 = if carry {
        (low + 0x60) as u16
    } else {
        low
    };
    let adjusted = daa_value(sum.value, false, sum.half_carry, sum.carry);
    let total: u16 = (bcd_value(a) + bcd_value(b) + cin) as u16;
    assert(sum.value == raw % 256);
    assert(adjusted == wide % 256);
    lemma_decimal_adjust(
        a as u16,
        b as u16,
        cin,
        raw,
        sum.value as u16,
        sum.half_carry,
        sum.carry,
        low,
        carry,
        wide,
        adjusted as u16,
        total,
    );
}

proof fn lemma_decimal_adjust(
    a: u16,
    b: u16,
    cin: u16,
    raw: u16,
    value: u16,
    half: bool,
    carry: bool,
    low: u16,
    carry_out: bool,
    wide: u16,
    adjusted: u16,
    total: u16,
)
    by (bit_vector)
    requires
        a < 256,
        b < 256,
        a / 16 <= 9,
        a % 16 <= 9,
        b / 16 <= 9,
        b % 16 <= 9,
        cin <= 1,
        raw == a + b + cin,
        value == raw % 256,
        half == (a % 16 + b % 16 + cin > 15),
        carry == (raw > 255),
        low == (if half || value % 16 > 9 { value + 0x06 } else { value + 0 }),
        carry_out == (carry || low > 0x9F),
        wide == (if carry_out { low + 0x60 } else { low + 0 }),
        adjusted == wide % 256,
        total == (a / 16) * 10 + a % 16 + (b / 16) * 10 + b % 16 + cin,
    ensures
        adjusted / 16 <= 9,
        adjusted % 16 <= 9,
        carry_out == (total > 99),
        (adjusted / 16) * 10 + adjusted % 16 == total % 100,
{
}

/// An operand that is a register holds what was stored in it, and a store in it leaves
/// the other registers as they were.
pub proof fn lemma_register_operands(s: CpuView, y: u8, z: u8, value: u8)
    requires
        y < 8,
        z < 8,
        y != 6,
        z != 6,
    ensures
        s.with_r(y, value).r_value(y) == value,
        y != z ==> s.with_r(y, value).r_value(z) == s.r_value(z),
        s.with_r(y, s.r_value(y)) == s,
{
}

/// The opcode of LD r[y],r[z] has these fields.
proof fn lemma_ld_fields(y: u8, z: u8)
    requires
        y < 8,
        z < 8,
    ensures
        field_x((0x40 + y * 8 + z) as u8) == 1,
        field_y((0x40 + y * 8 + z) as u8) == y,
        field_z((0x40 + y * 8 + z) as u8) == z,
{
}

/// LD r,r' and then LD r',r: the second load changes nothing, so both registers hold what
/// r' held.
pub proof fn lemma_ld_there_and_back(s: CpuView, y: u8, z: u8)
    requires
        y < 8,
        z < 8,
        y != 6,
        z != 6,
    ensures
        ({
            let there = s.interpret((0x40 + y * 8 + z) as u8);
            let back = there.interpret((0x40 + z * 8 + y) as u8);
            &&& back == there
            &&& back.r_value(y) == s.r_value(z)
            &&& back.r_value(z) == s.r_value(z)
        }),
{
    reveal(CpuView::interpret);
    reveal(CpuView::block1);
    lemma_ld_fields(y, z);
    lemma_ld_fields(z, y);
    let there = s.with_r(y, s.r_value(z));
    assert(s.interpret((0x40 + y * 8 + z) as u8) == there);
    lemma_register_operands(s, y, z, s.r_value(z));
    assert(there.r_value(y) == s.r_value(z));
    assert(there.r_value(z) == s.r_value(z));
    lemma_register_operands(there, z, y, there.r_value(z));
    assert(there.interpret((0x40 + z * 8 + y) as u8) == there.with_r(z, there.r_value(y)));
}

/// Where two registers hold the same value, LD r,r' and then LD r',r give the machine back
/// as it was.
pub proof fn lemma_ld_there_and_back_restores(s: CpuView, y: u8, z: u8)
    requires
        y < 8,
        z < 8,
        y != 6,
        z != 6,
        s.r_value(y) == s.r_value(z),
    ensures
        s.interpret((0x40 + y * 8 + z) as u8).interpret((0x40 + z * 8 + y) as u8) == s,
{
    reveal(CpuView::interpret);
    reveal(CpuView::block1);
    lemma_ld_fields(y, z);
    lemma_ld_there_and_back(s, y, z);
    lemma_register_operands(s, y, z, s.r_value(z));
}

/// HALT with interrupts disabled and one pending does not stop the processor. The step
/// after it runs the instruction at PC with PC left on its opcode, so that the byte is read
/// again, as the first operand or as the next opcode; the fetch after that moves PC again.
pub proof fn lemma_halt_bug(s: CpuView)
    requires
        !s.frozen,
        !s.ime,
        s.mmu.pending_interrupts() != 0,
    ensures
        ({
            let stuck = s.interpret(0x76);
            let fetched = stuck.fetch();
            &&& stuck == (CpuView { halted: false, halt_bug: true, ..s })
            &&& stuck.runs()
            &&& stuck.next_opcode() == s.mmu.read8(s.reg.pc)
            &&& stuck.step() == fetched.interpret(stuck.next_opcode()).promote(s.ime_pending)
            &&& fetched.reg.pc == s.reg.pc
            &&& fetched.operand8() == stuck.next_opcode()
            &&& !fetched.halt_bug
            &&& fetched.fetch().reg.pc == add16(s.reg.pc, 1)
        }),
{
    reveal(CpuView::interpret);
    reveal(CpuView::block1);
    reveal(CpuView::step);
    reveal(CpuView::service_interrupts);
    assert(field_x(0x76) == 1 && field_y(0x76) == 6 && field_z(0x76) == 6);
}

/// A value that is pushed on a stack in memory that holds writes is the value on top of the
/// stack, and popping it leaves SP where it was before the push.
pub proof fn lemma_push_then_pop(s: CpuView, value: u16)
    requires
        s.wf(),
        s.mmu.holds_writes(add16(s.reg.sp, -2)),
        s.mmu.holds_writes(add16(s.reg.sp, -1)),
    ensures
        s.push(value).stack_top() == value,
        s.push(value).after_pop().reg.sp == s.reg.sp,
        s.push(value).after_pop().mmu == s.push(value).mmu,
{
    reveal(add16);
    let top = add16(s.reg.sp, -2);
    assert(top.wrapping_add(1) == add16(s.reg.sp, -1));
    crate::mmu::laws::lemma_write16_then_read16(s.mmu, top, value);
}

/// The opcodes of PUSH rp2[p] and POP rp2[p] have these fields.
proof fn lemma_push_pop_fields(p: u8)
    requires
        p < 4,
    ensures
        field_x((0xC5 + 16 * p) as u8) == 3,
        field_z((0xC5 + 16 * p) as u8) == 5,
        field_y((0xC5 + 16 * p) as u8) == 2 * p,
        field_x((0xC1 + 16 * p) as u8) == 3,
        field_z((0xC1 + 16 * p) as u8) == 1,
        field_y((0xC1 + 16 * p) as u8) == 2 * p,
{
}

/// PUSH of one register pair and then POP into another, on a stack in memory that holds
/// writes: the second pair holds what the first held, SP is where it was, and the first pair
/// is as it was unless it is the one popped into. AF takes the value without the low nibble
/// of F.
pub proof fn lemma_push_pop_instructions(s: CpuView, from: u8, to: u8)
    requires
        s.wf(),
        from < 4,
        to < 4,
        s.mmu.holds_writes(add16(s.reg.sp, -2)),
        s.mmu.holds_writes(add16(s.reg.sp, -1)),
    ensures
        ({
            let popped = s.interpret((0xC5 + 16 * from) as u8).interpret((0xC1 + 16 * to) as u8);
            &&& popped.reg.sp == s.reg.sp
            &&& to != 3 ==> popped.rp2(to) == s.rp2(from)
            &&& to == 3 ==> popped.rp2(to) == s.rp2(from) & 0xFFF0
            &&& from == to ==> popped.reg == s.reg
        }),
{
    reveal(CpuView::interpret);
    reveal(CpuView::block3);
    reveal(CpuView::op_push_call);
    reveal(CpuView::op_pop_ret);
    lemma_push_pop_fields(from);
    lemma_push_pop_fields(to);
    let value = s.rp2(from);
    let before = s.tick(4);
    let pushed = before.push(value);
    assert(s.interpret((0xC5 + 16 * from) as u8) == pushed);
    lemma_push_then_pop(before, value);
    let popped = pushed.after_pop().with_rp2(to, value);
    assert(pushed.interpret((0xC1 + 16 * to) as u8) == popped);
    crate::cpu::registers::lemma_pair_round_trip(pushed.after_pop().reg, value);
    crate::cpu::registers::lemma_f_low_nibble(s.reg);
    if from == to {
        lemma_stored_pairs(s.reg);
        assert(popped.reg == s.reg);
    }
}

/// A register pair that is stored in itself leaves the registers as they were.
proof fn lemma_stored_pairs(r: crate::cpu::registers::RegsView)
    ensures
        r.with_bc(r.bc()) == r,
        r.with_de(r.de()) == r,
        r.with_hl(r.hl()) == r,
        r.with_af(r.af()) == r,
{
    crate::bits::lemma_split_pair(r.a, r.f());
    crate::bits::lemma_split_pair(r.b, r.c);
    crate::bits::lemma_split_pair(r.d, r.e);
    crate::bits::lemma_split_pair(r.h, r.l);
    crate::cpu::registers::lemma_with_f_reads_masked(r, r.f());
}

/// A hexadecimal digit is one character, so that a byte takes two and a 16-bit value four.
pub proof fn lemma_hex_widths(b: u8, w: u16)
    ensures
        crate::cpu::hex_digit(b).len() == 1,
        crate::cpu::hex2(b).len() == 2,
        crate::cpu::hex4(w).len() == 4,
{
    lemma_hex_digit_width(b);
    lemma_hex_digit_width(b / 16);
    lemma_hex_digit_width(b % 16);
    lemma_hex_digit_width(crate::bits::high_byte(w) / 16);
    lemma_hex_digit_width(crate::bits::high_byte(w) % 16);
    lemma_hex_digit_width(crate::bits::low_byte(w) / 16);
    lemma_hex_digit_width(crate::bits::low_byte(w) % 16);
}

proof fn lemma_hex_digit_width(n: u8)
    ensures
        crate::cpu::hex_digit(n).len() == 1,
{
    reveal(crate::cpu::hex_digit);
    reveal_strlit("0");
    reveal_strlit("1");
    reveal_strlit("2");
    reveal_strlit("3");
    reveal_strlit("4");
    reveal_strlit("5");
    reveal_strlit("6");
    reveal_strlit("7");
    reveal_strlit("8");
    reveal_strlit("9");
    reveal_strlit("A");
    reveal_strlit("B");
    reveal_strlit("C");
    reveal_strlit("D");
    reveal_strlit("E");
    reveal_strlit("F");
}

/// The line that shows the state of the processor has 73 characters, whatever the state.
pub proof fn lemma_state_line_width(s: CpuView)
    ensures
        s.register_line().len() == 55,
        s.state_line().len() == 73,
{
    reveal(crate::cpu::with_field);
    reveal(crate::cpu::with_wide_field);
    reveal_strlit("A:");
    reveal_strlit(" F:");
    reveal_strlit(" B:");
    reveal_strlit(" C:");
    reveal_strlit(" D:");
    reveal_strlit(" E:");
    reveal_strlit(" H:");
    reveal_strlit(" L:");
    reveal_strlit(" SP:");
    reveal_strlit(" PC:");
    reveal_strlit(" PCMEM:");
    reveal_strlit(",");
    let pc = s.reg.pc;
    lemma_hex_widths(s.reg.a, s.reg.sp);
    lemma_hex_widths(s.reg.f(), s.reg.pc);
    lemma_hex_widths(s.reg.b, 0);
    lemma_hex_widths(s.reg.c, 0);
    lemma_hex_widths(s.reg.d, 0);
    lemma_hex_widths(s.reg.e, 0);
    lemma_hex_widths(s.reg.h, 0);
    lemma_hex_widths(s.reg.l, 0);
    lemma_hex_widths(s.mmu.read8(pc), 0);
    lemma_hex_widths(s.mmu.read8(pc.wrapping_add(1)), 0);
    lemma_hex_widths(s.mmu.read8(pc.wrapping_add(2)), 0);
    lemma_hex_widths(s.mmu.read8(pc.wrapping_add(3)), 0);
}

} // verus!
