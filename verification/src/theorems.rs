use vstd::prelude::*;
use crate::machine::{
    lemma_halts_in_is_steps_to_halt, lemma_updated_flags, updated_flags, zero_page_offset, Machine,
    NEGATIVE_FLAG, OP_BRK, OP_LDA_IMMEDIATE, OP_STA_ZERO_PAGE, OP_STA_ZERO_PAGE_X, PROGRAM_START,
    ZERO_FLAG,
};
use crate::mem::AddressingMode;

verus! {

/// LDA immediate puts the byte after the opcode into the accumulator; the
/// zero flag is then set exactly when that byte is zero, the negative flag
/// exactly when its bit 7 is set, and the other status bits are unchanged, so
/// that they are still zero if they were zero before.
pub proof fn lemma_lda_immediate_flags(s: Machine)
    requires
        s.wf(),
    ensures
        ({
            let v = s.read(s.program_counter);
            let t = s.lda(AddressingMode::Immediate);
            &&& t.register_a == v
            &&& (t.status & ZERO_FLAG != 0 <==> v == 0)
            &&& (t.status & NEGATIVE_FLAG != 0 <==> v & NEGATIVE_FLAG != 0)
            &&& t.status & !(ZERO_FLAG | NEGATIVE_FLAG) == s.status & !(ZERO_FLAG
                | NEGATIVE_FLAG)
            &&& (s.status & !(ZERO_FLAG | NEGATIVE_FLAG) == 0 ==> t.status & !(ZERO_FLAG
                | NEGATIVE_FLAG) == 0)
        }),
{
    lemma_updated_flags(s.status, s.read(s.program_counter));
}

/// The same through the cycle: one step at an LDA immediate opcode loads the
/// byte that follows it and sets the flags from it.
pub proof fn lemma_step_lda_immediate(s: Machine)
    requires
        s.wf(),
        s.opcode() == OP_LDA_IMMEDIATE,
    ensures
        ({
            let v = s.advance(1).read(s.advance(1).program_counter);
            let t = s.step();
            &&& t.register_a == v
            &&& (t.status & ZERO_FLAG != 0 <==> v == 0)
            &&& (t.status & NEGATIVE_FLAG != 0 <==> v & NEGATIVE_FLAG != 0)
            &&& t.status & !(ZERO_FLAG | NEGATIVE_FLAG) == s.status & !(ZERO_FLAG
                | NEGATIVE_FLAG)
            &&& t.program_counter == s.advance(2).program_counter
        }),
{
    lemma_lda_immediate_flags(s.advance(1));
}

/// One flag rule for every instruction that produces a value: after LDA, LDX,
/// TAX and INX alike the status byte is `updated_flags` of the old status and
/// the register that the instruction wrote.
pub proof fn lemma_flag_rule_is_shared(s: Machine, mode: AddressingMode)
    ensures
        s.lda(mode).status == updated_flags(s.status, s.lda(mode).register_a),
        s.ldx(mode).status == updated_flags(s.status, s.ldx(mode).register_x),
        s.tax().status == updated_flags(s.status, s.tax().register_x),
        s.inx().status == updated_flags(s.status, s.inx().register_x),
        s.tax().register_x == s.register_a,
        s.inx().register_x == zero_page_offset(s.register_x, 1),
{
}

/// INX wraps: from 0xFF, X becomes 0, the zero flag is set and the negative
/// flag is clear.
pub proof fn lemma_inx_wraps(s: Machine)
    requires
        s.register_x == 0xFF,
    ensures
        s.inx().register_x == 0,
        s.inx().status & ZERO_FLAG != 0,
        s.inx().status & NEGATIVE_FLAG == 0,
{
    lemma_updated_flags(s.status, 0);
    assert(0u8 & NEGATIVE_FLAG == 0) by (bit_vector);
}

/// STA leaves the status byte alone, whatever is stored and wherever, both as
/// an instruction and as a step of the cycle.
pub proof fn lemma_sta_keeps_status(s: Machine, mode: AddressingMode)
    ensures
        s.sta(mode).status == s.status,
        s.opcode() == OP_STA_ZERO_PAGE || s.opcode() == OP_STA_ZERO_PAGE_X ==> s.step().status
            == s.status,
{
}

/// Zero-page addressing indexed by X never leaves the zero page: the address
/// is the sum of the operand byte and X with the carry dropped. An operand of
/// 0xFF with X at 1 gives address 0.
pub proof fn lemma_zero_page_x_wraps(s: Machine)
    ensures
        s.operand_address(AddressingMode::ZeroPage_X) < 0x100,
        s.operand_address(AddressingMode::ZeroPage_X) == (s.read(s.program_counter)
            + s.register_x) % 0x100,
        s.read(s.program_counter) == 0xFF && s.register_x == 1 ==> s.operand_address(
            AddressingMode::ZeroPage_X,
        ) == 0,
{
}

/// Round trip of a byte through a program: loading the three bytes LDA
/// immediate, `v`, BRK into any machine and resetting it gives a machine that
/// halts, and running it leaves `v` in the accumulator and the program counter
/// just past the BRK.
pub proof fn lemma_load_immediate_round_trip(s: Machine, v: u8)
    requires
        s.wf(),
    ensures
        ({
            let program = seq![OP_LDA_IMMEDIATE, v, OP_BRK];
            let ready = s.load(program).reset();
            &&& Machine::program_fits(program)
            &&& ready.halts()
            &&& ready.run().register_a == v
            &&& ready.run().program_counter == PROGRAM_START + 3
        }),
{
    let program = seq![OP_LDA_IMMEDIATE, v, OP_BRK];
    let loaded = s.load(program);
    let ready = loaded.reset();
    assert(loaded.memory[0xFFFC] == 0x00 && loaded.memory[0xFFFD] == 0x80);
    assert(ready.program_counter == PROGRAM_START);
    let after = ready.step();
    assert(after.at_break());
    assert(after.halts_in(0));
    assert(ready.halts_in(1));
    lemma_halts_in_is_steps_to_halt(ready, 1);
    assert(ready.steps(2) == after.steps(1));
    assert(after.steps(1) == after.step().steps(0));
}

} // verus!
