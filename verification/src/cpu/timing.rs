use crate::bits::{add64, lemma_add64_add};
use crate::cpu::semantics::{field_x, field_y, field_z};
use crate::cpu::CpuView;
use crate::mmu::MmuView;
use vstd::prelude::*;

verus! {

/// The entry `i` of a row of sixteen.
pub open spec fn row(
    i: int,
    c0: int,
    c1: int,
    c2: int,
    c3: int,
    c4: int,
    c5: int,
    c6: int,
    c7: int,
    c8: int,
    c9: int,
    c10: int,
    c11: int,
    c12: int,
    c13: int,
    c14: int,
    c15: int,
) -> int {
    if i == 0 {
        c0
    } else if i == 1 {
        c1
    } else if i == 2 {
        c2
    } else if i == 3 {
        c3
    } else if i == 4 {
        c4
    } else if i == 5 {
        c5
    } else if i == 6 {
        c6
    } else if i == 7 {
        c7
    } else if i == 8 {
        c8
    } else if i == 9 {
        c9
    } else if i == 10 {
        c10
    } else if i == 11 {
        c11
    } else if i == 12 {
        c12
    } else if i == 13 {
        c13
    } else if i == 14 {
        c14
    } else {
        c15
    }
}

/// The machine cycles of each instruction, fetch included, in sixteen rows of sixteen
/// opcodes. A conditional instruction stands with what it takes when its condition does
/// not hold. A 0 stands for an opcode that has no time of its own: STOP, HALT, the prefix
/// 0xCB and the opcodes that freeze the processor.
pub open spec fn documented_cycles(op: u8) -> int {
    let r = op / 16;
    let i = (op % 16) as int;
    if r == 0 {
        row(i, 1, 3, 2, 2, 1, 1, 2, 1, 5, 2, 2, 2, 1, 1, 2, 1)
    } else if r == 1 {
        row(i, 0, 3, 2, 2, 1, 1, 2, 1, 3, 2, 2, 2, 1, 1, 2, 1)
    } else if r == 2 {
        row(i, 2, 3, 2, 2, 1, 1, 2, 1, 2, 2, 2, 2, 1, 1, 2, 1)
    } else if r == 3 {
        row(i, 2, 3, 2, 2, 3, 3, 3, 1, 2, 2, 2, 2, 1, 1, 2, 1)
    } else if r == 4 {
        row(i, 1, 1, 1, 1, 1, 1, 2, 1, 1, 1, 1, 1, 1, 1, 2, 1)
    } else if r == 5 {
        row(i, 1, 1, 1, 1, 1, 1, 2, 1, 1, 1, 1, 1, 1, 1, 2, 1)
    } else if r == 6 {
        row(i, 1, 1, 1, 1, 1, 1, 2, 1, 1, 1, 1, 1, 1, 1, 2, 1)
    } else if r == 7 {
        row(i, 2, 2, 2, 2, 2, 2, 0, 2, 1, 1, 1, 1, 1, 1, 2, 1)
    } else if r == 8 {
        row(i, 1, 1, 1, 1, 1, 1, 2, 1, 1, 1, 1, 1, 1, 1, 2, 1)
    } else if r == 9 {
        row(i, 1, 1, 1, 1, 1, 1, 2, 1, 1, 1, 1, 1, 1, 1, 2, 1)
    } else if r == 10 {
        row(i, 1, 1, 1, 1, 1, 1, 2, 1, 1, 1, 1, 1, 1, 1, 2, 1)
    } else if r == 11 {
        row(i, 1, 1, 1, 1, 1, 1, 2, 1, 1, 1, 1, 1, 1, 1, 2, 1)
    } else if r == 12 {
        row(i, 2, 3, 3, 4, 3, 4, 2, 4, 2, 4, 3, 0, 3, 6, 2, 4)
    } else if r == 13 {
        row(i, 2, 3, 3, 0, 3, 4, 2, 4, 2, 4, 3, 0, 3, 0, 2, 4)
    } else if r == 14 {
        row(i, 3, 3, 2, 0, 0, 4, 2, 4, 4, 1, 4, 0, 0, 0, 2, 4)
    } else {
        row(i, 3, 3, 2, 1, 0, 4, 2, 4, 3, 2, 4, 1, 0, 0, 2, 4)
    }
}

/// Whether `op` is one of JR cc, RET cc, JP cc and CALL cc.
pub open spec fn is_conditional(op: u8) -> bool {
    ||| field_x(op) == 0 && field_z(op) == 0 && field_y(op) >= 4
    ||| field_x(op) == 3 && field_y(op) < 4 && (field_z(op) == 0 || field_z(op) == 2 || field_z(op) == 4)
}

/// The machine cycles that a conditional instruction takes more when its condition holds:
/// 1 for JR and JP, 3 for RET and CALL.
pub open spec fn cycles_when_taken(op: u8) -> int {
    if !is_conditional(op) {
        0
    } else if field_x(op) == 0 || field_z(op) == 2 {
        1
    } else {
        3
    }
}

/// The machine cycles of a prefixed instruction with the second byte `op`, both fetches
/// included: 2 on a register; on the byte at HL 3 for BIT, which only reads, and 4 for the
/// others, which also write.
pub open spec fn prefixed_cycles(op: u8) -> int {
    if field_z(op) != 6 {
        2
    } else if field_x(op) == 1 {
        3
    } else {
        4
    }
}

impl CpuView {
    /// Whether `op` is a conditional instruction whose condition holds.
    pub open spec fn takes_branch(self, op: u8) -> bool {
        is_conditional(op) && self.condition(field_y(op) % 4)
    }

    /// The machine cycles that the instruction `op` takes in this state.
    pub open spec fn cycles_of(self, op: u8) -> int {
        documented_cycles(op) + (if self.takes_branch(op) {
            cycles_when_taken(op)
        } else {
            0
        })
    }
}

/// The sums of cycles that the instructions are made of.
proof fn lemma_clock_sums(c: u64)
    ensures
        add64(c, 0) == c,
        add64(add64(c, 4), 4) == add64(c, 8),
        add64(add64(c, 4), 8) == add64(c, 12),
        add64(add64(c, 8), 4) == add64(c, 12),
        add64(add64(c, 8), 8) == add64(c, 16),
        add64(add64(add64(c, 8), 8), 4) == add64(c, 20),
        add64(add64(add64(c, 4), 8), 4) == add64(c, 16),
        add64(add64(c, 8), 12) == add64(c, 20),
{
    lemma_add64_add(c, 4, 4);
    lemma_add64_add(c, 4, 8);
    lemma_add64_add(c, 8, 4);
    lemma_add64_add(c, 8, 8);
    lemma_add64_add(c, 16, 4);
    lemma_add64_add(c, 12, 4);
    lemma_add64_add(c, 8, 12);
}

proof fn lemma_misc_clock(s: CpuView, y: u8)
    requires
        y < 8,
        y != 2,
    ensures
        s.op_misc(y).clock == add64(
            s.clock,
            if y == 0 {
                0int
            } else if y == 1 {
                16
            } else if y == 3 || s.condition((y - 4) as u8) {
                8
            } else {
                4
            },
        ),
{
    reveal(CpuView::op_misc);
    reveal(CpuView::jr);
    lemma_clock_sums(s.clock);
}

proof fn lemma_wide_clock(s: CpuView, p: u8, q: u8)
    requires
        p < 4,
        q < 2,
    ensures
        s.op_wide(p, q).clock == add64(s.clock, if q == 0 { 8int } else { 4 }),
        s.op_indirect(p, q).clock == add64(s.clock, 4),
        s.op_inc_dec_wide(p, q).clock == add64(s.clock, 4),
{
    reveal(CpuView::op_wide);
    reveal(CpuView::op_add_hl);
    reveal(CpuView::op_indirect);
    reveal(CpuView::op_inc_dec_wide);
}

proof fn lemma_byte_clock(s: CpuView, y: u8)
    requires
        y < 8,
    ensures
        s.op_inc(y).clock == add64(s.clock, if y == 6 { 8int } else { 0 }),
        s.op_dec(y).clock == add64(s.clock, if y == 6 { 8int } else { 0 }),
        s.op_load_immediate(y).clock == add64(s.clock, if y == 6 { 8int } else { 4 }),
        s.op_accumulator(y).clock == add64(s.clock, 0),
{
    reveal(CpuView::op_inc);
    reveal(CpuView::op_dec);
    reveal(CpuView::op_accumulator);
    reveal(CpuView::op_daa);
    lemma_clock_sums(s.clock);
}

proof fn lemma_register_blocks_clock(s: CpuView, y: u8, z: u8)
    requires
        y < 8,
        z < 8,
    ensures
        !(y == 6 && z == 6) ==> s.block1(y, z).clock == add64(s.clock, if y == 6 || z == 6 { 4int } else { 0 }),
        s.block2(y, z).clock == add64(s.clock, if z == 6 { 4int } else { 0 }),
{
    reveal(CpuView::block1);
    reveal(CpuView::block2);
    lemma_clock_sums(s.clock);
}

proof fn lemma_ret_high_clock(s: CpuView, y: u8)
    requires
        y < 8,
    ensures
        s.op_ret_high(y).clock == add64(
            s.clock,
            if y < 4 {
                if s.condition(y) {
                    16int
                } else {
                    4
                }
            } else if y == 5 {
                12
            } else {
                8
            },
        ),
{
    reveal(CpuView::op_ret_high);
    reveal(CpuView::op_ret_cc);
    reveal(CpuView::op_ldh_store);
    reveal(CpuView::op_ldh_load);
    reveal(CpuView::op_add_sp);
    reveal(CpuView::op_load_hl_sp);
    lemma_clock_sums(s.clock);
}

proof fn lemma_pop_ret_clock(s: CpuView, p: u8, q: u8)
    requires
        p < 4,
        q < 2,
    ensures
        s.op_pop_ret(p, q).clock == add64(
            s.clock,
            if q == 0 {
                8int
            } else if p < 2 {
                12
            } else if p == 2 {
                0
            } else {
                4
            },
        ),
        s.op_push_call(p, q).clock == add64(
            s.clock,
            if q == 0 {
                12int
            } else if p == 0 {
                20
            } else {
                0
            },
        ),
{
    reveal(CpuView::op_pop_ret);
    reveal(CpuView::op_push_call);
    lemma_clock_sums(s.clock);
}

proof fn lemma_jp_high_clock(s: CpuView, y: u8)
    requires
        y < 8,
    ensures
        s.op_jp_high(y).clock == add64(
            s.clock,
            if y < 4 {
                if s.condition(y) {
                    12int
                } else {
                    8
                }
            } else if y == 4 || y == 6 {
                4
            } else {
                12
            },
        ),
        s.op_call_cc(y).clock == add64(
            s.clock,
            if y >= 4 {
                0int
            } else if s.condition(y) {
                20
            } else {
                8
            },
        ),
        s.op_rst(y).clock == add64(s.clock, 12),
        y != 1 ==> s.op_jp_control(y).clock == add64(s.clock, if y == 0 { 12int } else { 0 }),
{
    reveal(CpuView::op_jp_high);
    reveal(CpuView::op_call_cc);
    reveal(CpuView::op_rst);
    reveal(CpuView::op_jp_control);
    lemma_clock_sums(s.clock);
}

/// Whether the opcode with the fields `x`, `y` and `z` is an instruction with a time of its
/// own: all but STOP, HALT, the prefix 0xCB and the opcodes that freeze the processor.
pub open spec fn has_time(x: u8, y: u8, z: u8) -> bool {
    if x == 0 {
        !(z == 0 && y == 2)
    } else if x == 1 {
        !(y == 6 && z == 6)
    } else if x == 2 {
        true
    } else if z == 3 {
        y == 0 || y == 6 || y == 7
    } else if z == 4 {
        y < 4
    } else if z == 5 {
        y % 2 == 0 || y == 1
    } else {
        true
    }
}

/// The clock cycles that the instruction with the fields `x`, `y` and `z` takes after its
/// fetch: 4 for each byte that it reads or writes, and what it takes inside the processor.
pub open spec fn cycles_after_fetch(x: u8, y: u8, z: u8, taken: bool) -> int {
    if x == 0 {
        if z == 0 {
            if y == 0 || y == 2 {
                0
            } else if y == 1 {
                16
            } else if y == 3 || taken {
                8
            } else {
                4
            }
        } else if z == 1 {
            if y % 2 == 0 {
                8
            } else {
                4
            }
        } else if z == 2 || z == 3 {
            4
        } else if z == 4 || z == 5 {
            if y == 6 {
                8
            } else {
                0
            }
        } else if z == 6 {
            if y == 6 {
                8
            } else {
                4
            }
        } else {
            0
        }
    } else if x == 1 {
        if y == 6 || z == 6 {
            4
        } else {
            0
        }
    } else if x == 2 {
        if z == 6 {
            4
        } else {
            0
        }
    } else if z == 0 {
        if y < 4 {
            if taken {
                16
            } else {
                4
            }
        } else if y == 5 {
            12
        } else {
            8
        }
    } else if z == 1 {
        if y % 2 == 0 {
            8
        } else if y / 2 < 2 {
            12
        } else if y / 2 == 2 {
            0
        } else {
            4
        }
    } else if z == 2 {
        if y < 4 {
            if taken {
                12
            } else {
                8
            }
        } else if y == 4 || y == 6 {
            4
        } else {
            12
        }
    } else if z == 3 {
        if y == 0 {
            12
        } else {
            0
        }
    } else if z == 4 {
        if y >= 4 {
            0
        } else if taken {
            20
        } else {
            8
        }
    } else if z == 5 {
        if y % 2 == 0 {
            12
        } else if y / 2 == 0 {
            20
        } else {
            0
        }
    } else if z == 6 {
        4
    } else {
        12
    }
}

/// The clock after an instruction with a time of its own is the clock before it and the
/// cycles that the instruction takes after its fetch.
proof fn lemma_blocks_clock(s: CpuView, x: u8, y: u8, z: u8)
    requires
        x < 4,
        y < 8,
        z < 8,
        has_time(x, y, z),
    ensures
        ({
            let after = if x == 0 {
                s.block0(y, z)
            } else if x == 1 {
                s.block1(y, z)
            } else if x == 2 {
                s.block2(y, z)
            } else {
                s.block3(y, z)
            };
            after.clock == add64(s.clock, cycles_after_fetch(x, y, z, s.condition(y % 4)))
        }),
{
    if x == 0 {
        reveal(CpuView::block0);
        if z == 0 {
            lemma_misc_clock(s, y);
        } else if z <= 3 {
            lemma_wide_clock(s, y / 2, y % 2);
        } else {
            lemma_byte_clock(s, y);
        }
    } else if x == 1 || x == 2 {
        lemma_register_blocks_clock(s, y, z);
    } else {
        reveal(CpuView::block3);
        if z == 0 {
            lemma_ret_high_clock(s, y);
        } else if z == 1 || z == 5 {
            lemma_pop_ret_clock(s, y / 2, y % 2);
        } else if z == 6 {
        } else {
            lemma_jp_high_clock(s, y);
        }
    }
}

/// What the table of documented cycles says of the opcode `op`, over the fields of the
/// opcode: which opcodes have a time, what it is when no branch is taken and what a taken
/// branch adds to it.
pub open spec fn table_agrees(op: u8) -> bool {
    let x = field_x(op);
    let y = field_y(op);
    let z = field_z(op);
    &&& (documented_cycles(op) != 0) == has_time(x, y, z)
    &&& has_time(x, y, z) ==> 4 * documented_cycles(op) == 4 + cycles_after_fetch(x, y, z, false)
    &&& cycles_after_fetch(x, y, z, true) == cycles_after_fetch(x, y, z, false) + 4 * cycles_when_taken(op)
}

/// The table of documented cycles agrees, opcode by opcode, with the cycles that the
/// instructions are made of.
pub proof fn lemma_table_agrees(op: u8)
    ensures
        table_agrees(op),
{
}

/// An instruction with a documented time takes that time, fetch included, and a taken
/// branch takes the cycles more that go with it.
pub proof fn lemma_instruction_cycles(s: CpuView, op: u8)
    requires
        documented_cycles(op) != 0,
    ensures
        s.fetch().interpret(op).clock == add64(s.clock, 4 * s.cycles_of(op)),
{
    reveal(CpuView::interpret);
    let x = field_x(op);
    let y = field_y(op);
    let z = field_z(op);
    let fetched = s.fetch();
    lemma_table_agrees(op);
    lemma_blocks_clock(fetched, x, y, z);
    let taken = fetched.condition((y % 4) as u8);
    assert(taken == s.condition((y % 4) as u8));
    let rest = cycles_after_fetch(x, y, z, taken);
    assert(fetched.clock == add64(s.clock, 4));
    assert(rest >= 0);
    lemma_add64_add(s.clock, 4, rest);
    if !is_conditional(op) {
        assert(cycles_when_taken(op) == 0);
    }
}

/// A prefixed instruction takes 8 cycles on a register; on the byte at HL it takes 12 for
/// BIT and 16 for the others.
pub proof fn lemma_prefixed_cycles(s: CpuView)
    ensures
        s.fetch().interpret(0xCB).clock == add64(s.clock, 4 * prefixed_cycles(s.fetch().operand8())),
{
    reveal(CpuView::interpret);
    reveal(CpuView::block3);
    reveal(CpuView::op_jp_control);
    reveal(CpuView::prefixed_op);
    assert(field_x(0xCB) == 3 && field_y(0xCB) == 1 && field_z(0xCB) == 3);
    lemma_clock_sums(s.clock);
    lemma_add64_add(s.clock, 8, 8);
    lemma_add64_add(s.clock, 12, 4);
}

/// A step that serves no interrupt and runs an instruction with a documented time moves
/// the clock on by that time.
pub proof fn lemma_step_cycles(s: CpuView)
    requires
        s.runs(),
        !s.ime || s.mmu.pending_interrupts() == 0,
        documented_cycles(s.next_opcode()) != 0,
    ensures
        s.step().clock == add64(s.clock, 4 * s.cycles_of(s.next_opcode())),
{
    reveal(CpuView::step);
    reveal(CpuView::service_interrupts);
    let ready = s.service_interrupts();
    lemma_instruction_cycles(ready, s.next_opcode());
}

/// From reset, the first step takes the documented time of the instruction at the entry
/// point, as long as that is not a branch whose condition holds at reset.
pub proof fn lemma_cycles_from_reset(mmu: MmuView)
    requires
        documented_cycles(CpuView::reset(mmu).next_opcode()) != 0,
        !CpuView::reset(mmu).takes_branch(CpuView::reset(mmu).next_opcode()),
    ensures
        CpuView::reset(mmu).step().clock == 4 * documented_cycles(CpuView::reset(mmu).next_opcode()),
{
    let s = CpuView::reset(mmu);
    reveal(CpuView::service_interrupts);
    lemma_step_cycles(s);
    lemma_table_agrees(s.next_opcode());
    assert(documented_cycles(s.next_opcode()) <= 6) by {
        lemma_documented_bound(s.next_opcode());
    }
    reveal(add64);
}

/// No instruction is documented with more than 6 machine cycles.
pub proof fn lemma_documented_bound(op: u8)
    ensures
        0 <= documented_cycles(op) <= 6,
{
}

/// A step that serves an interrupt spends 20 cycles on the call to its handler before it
/// fetches there.
pub proof fn lemma_interrupt_cycles(s: CpuView)
    requires
        s.ime,
        s.mmu.pending_interrupts() != 0,
    ensures
        s.service_interrupts().clock == add64(s.clock, 20),
        s.service_interrupts().reg.pc == 0x40 + 8 * crate::cpu::lowest_interrupt(s.mmu.pending_interrupts()),
        !s.service_interrupts().ime,
        !s.service_interrupts().halted,
{
    reveal(CpuView::service_interrupts);
    reveal(CpuView::dispatch_interrupt);
    lemma_clock_sums(s.clock);
}

/// A halted processor that no interrupt wakes lets 4 cycles pass in a step, and a frozen one
/// does not change at all.
pub proof fn lemma_idle_steps(s: CpuView)
    ensures
        s.frozen ==> s.step() == s,
        !s.frozen && s.halted && s.mmu.pending_interrupts() == 0 ==> s.step() == s.tick(4).promote(s.ime_pending),
        s.freeze().step() == s.freeze(),
{
    reveal(CpuView::step);
    reveal(CpuView::service_interrupts);
}

} // verus!
