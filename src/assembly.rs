//! The pio assembler, as the program generators use it: one wrapper per
//! assembler method. Each states the instruction word it appends, encoded as pio
//! encodes it without side-set, and what keeps the method and the final assembly
//! from panicking. Jumps go to labels made at a fixed offset, which are bound
//! from the start.
use vstd::prelude::*;
use pio::{
    Assembler, InSource, IrqIndexMode, JmpCondition, Label, MovDestination, MovOperation, MovSource,
    OutDestination, Program, SetDestination, WaitSource,
};

verus! {

#[verifier::external_type_specification]
#[verifier::external_body]
pub struct ExAssembler<const PROGRAM_SIZE: usize>(Assembler<PROGRAM_SIZE>);

#[verifier::external_type_specification]
#[verifier::external_body]
pub struct ExLabel(Label);

#[verifier::external_type_specification]
#[verifier::external_body]
pub struct ExProgram<const PROGRAM_SIZE: usize>(Program<PROGRAM_SIZE>);

#[verifier::external_type_specification]
pub struct ExJmpCondition(JmpCondition);

#[verifier::external_type_specification]
pub struct ExWaitSource(WaitSource);

#[verifier::external_type_specification]
pub struct ExInSource(InSource);

#[verifier::external_type_specification]
pub struct ExOutDestination(OutDestination);

#[verifier::external_type_specification]
pub struct ExMovDestination(MovDestination);

#[verifier::external_type_specification]
pub struct ExMovOperation(MovOperation);

#[verifier::external_type_specification]
pub struct ExMovSource(MovSource);

#[verifier::external_type_specification]
pub struct ExSetDestination(SetDestination);

#[verifier::external_type_specification]
pub struct ExIrqIndexMode(IrqIndexMode);

/// The encoded words of the instructions an assembler holds, in order.
pub uninterp spec fn asm_code(a: Assembler<33>) -> Seq<u16>;

/// Whether every instruction an assembler holds encodes without panicking.
pub uninterp spec fn asm_encodes(a: Assembler<33>) -> bool;

/// The offset a label is bound to; `None` while unbound.
pub uninterp spec fn label_target(l: Label) -> Option<u8>;

/// The encoded instructions of an assembled program.
pub uninterp spec fn program_code(p: Program<33>) -> Seq<u16>;

/// An instruction word without side-set: opcode in bits 13..=15, first operand
/// from bit 5, second operand from bit 0, delay from bit 8.
pub open spec fn pio_word(opcode: u16, o0: u8, o1: u8, delay: u8) -> u16 {
    (opcode << 13u16) | ((o0 as u16) << 5u16) | (o1 as u16) | ((delay as u16) << 8u16)
}

pub open spec fn jmp_condition_code(c: JmpCondition) -> u8 {
    match c {
        JmpCondition::Always => 0,
        JmpCondition::XIsZero => 1,
        JmpCondition::XDecNonZero => 2,
        JmpCondition::YIsZero => 3,
        JmpCondition::YDecNonZero => 4,
        JmpCondition::XNotEqualY => 5,
        JmpCondition::PinHigh => 6,
        JmpCondition::OutputShiftRegisterNotEmpty => 7,
    }
}

pub open spec fn wait_source_code(s: WaitSource) -> u8 {
    match s {
        WaitSource::GPIO => 0,
        WaitSource::PIN => 1,
        WaitSource::IRQ => 2,
        WaitSource::JMPPIN => 3,
    }
}

pub open spec fn in_source_code(s: InSource) -> u8 {
    match s {
        InSource::PINS => 0,
        InSource::X => 1,
        InSource::Y => 2,
        InSource::NULL => 3,
        InSource::ISR => 6,
        InSource::OSR => 7,
    }
}

pub open spec fn out_destination_code(d: OutDestination) -> u8 {
    match d {
        OutDestination::PINS => 0,
        OutDestination::X => 1,
        OutDestination::Y => 2,
        OutDestination::NULL => 3,
        OutDestination::PINDIRS => 4,
        OutDestination::PC => 5,
        OutDestination::ISR => 6,
        OutDestination::EXEC => 7,
    }
}

pub open spec fn mov_destination_code(d: MovDestination) -> u8 {
    match d {
        MovDestination::PINS => 0,
        MovDestination::X => 1,
        MovDestination::Y => 2,
        MovDestination::PINDIRS => 3,
        MovDestination::EXEC => 4,
        MovDestination::PC => 5,
        MovDestination::ISR => 6,
        MovDestination::OSR => 7,
    }
}

pub open spec fn mov_operation_code(o: MovOperation) -> u8 {
    match o {
        MovOperation::None => 0,
        MovOperation::Invert => 1,
        MovOperation::BitReverse => 2,
    }
}

pub open spec fn mov_source_code(s: MovSource) -> u8 {
    match s {
        MovSource::PINS => 0,
        MovSource::X => 1,
        MovSource::Y => 2,
        MovSource::NULL => 3,
        MovSource::STATUS => 5,
        MovSource::ISR => 6,
        MovSource::OSR => 7,
    }
}

pub open spec fn set_destination_code(d: SetDestination) -> u8 {
    match d {
        SetDestination::PINS => 0,
        SetDestination::X => 1,
        SetDestination::Y => 2,
        SetDestination::PINDIRS => 4,
    }
}

pub open spec fn irq_index_mode_code(m: IrqIndexMode) -> u8 {
    match m {
        IrqIndexMode::DIRECT => 0,
        IrqIndexMode::PREV => 1,
        IrqIndexMode::REL => 2,
        IrqIndexMode::NEXT => 3,
    }
}

pub open spec fn bit(b: bool) -> u8 {
    if b { 1 } else { 0 }
}

pub open spec fn jmp_word(c: JmpCondition, address: u8, delay: u8) -> u16 {
    pio_word(0, jmp_condition_code(c), address, delay)
}

pub open spec fn wait_word(polarity: u8, source: WaitSource, index: u8, relative: bool) -> u16 {
    pio_word(
        1,
        (polarity << 2u8) | wait_source_code(source),
        index | (if relative { 0x10u8 } else { 0u8 }),
        0,
    )
}

pub open spec fn in_word(source: InSource, bit_count: u8, delay: u8) -> u16 {
    pio_word(2, in_source_code(source), bit_count & 0x1Fu8, delay)
}

pub open spec fn out_word(destination: OutDestination, bit_count: u8) -> u16 {
    pio_word(3, out_destination_code(destination), bit_count & 0x1Fu8, 0)
}

pub open spec fn push_word(if_full: bool, block: bool) -> u16 {
    pio_word(4, (bit(if_full) << 1u8) | bit(block), 0, 0)
}

pub open spec fn pull_word(if_empty: bool, block: bool) -> u16 {
    pio_word(4, 4u8 | (bit(if_empty) << 1u8) | bit(block), 0, 0)
}

pub open spec fn mov_word(destination: MovDestination, op: MovOperation, source: MovSource) -> u16 {
    pio_word(5, mov_destination_code(destination), (mov_operation_code(op) << 3u8) | mov_source_code(source), 0)
}

/// `nop` is `mov y, y`.
pub open spec fn nop_word(delay: u8) -> u16 {
    pio_word(5, 2, 2, delay)
}

pub open spec fn irq_word(clear: bool, wait: bool, index: u8, mode: IrqIndexMode) -> u16 {
    pio_word(6, (bit(clear) << 1u8) | bit(wait), index | (irq_index_mode_code(mode) << 3u8), 0)
}

pub open spec fn set_word(destination: SetDestination, data: u8, delay: u8) -> u16 {
    pio_word(7, set_destination_code(destination), data, delay)
}

/// The assembler after appending `word` to `old`, all of whose instructions still
/// encode.
pub open spec fn appended(old: Assembler<33>, new: Assembler<33>, word: u16) -> bool {
    asm_code(new) == asm_code(old).push(word) && asm_encodes(new)
}

/// Relies on pio::Assembler::new: an empty assembler without side-set.
#[verifier::external_body]
pub(crate) fn new_assembler() -> (r: Assembler<33>)
    ensures
        asm_code(r) == Seq::<u16>::empty(),
        asm_encodes(r),
{
    Assembler::<33>::new()
}

/// Relies on pio::Assembler::label_at_offset: a label bound to `offset`; the
/// assembler is not changed.
#[verifier::external_body]
pub(crate) fn label_at(a: &mut Assembler<33>, offset: u8) -> (r: Label)
    ensures
        label_target(r) == Some(offset),
        *final(a) == *old(a),
{
    a.label_at_offset(offset)
}

/// Relies on pio::Assembler::jmp_with_delay: with a bound label, appends a jump
/// to its offset and leaves the label as it is (the instruction list panics when
/// full; a delay over 31 panics at assembly).
#[verifier::external_body]
pub(crate) fn emit_jmp(a: &mut Assembler<33>, condition: JmpCondition, label: &mut Label, delay: u8)
    requires
        asm_code(*old(a)).len() < 33,
        asm_encodes(*old(a)),
        label_target(*old(label)) is Some,
        delay <= 31,
    ensures
        appended(*old(a), *final(a), jmp_word(condition, label_target(*old(label))->0, delay)),
        *final(label) == *old(label),
{
    a.jmp_with_delay(condition, label, delay)
}

/// Relies on pio::Assembler::wait: appends a wait; assembly panics on a relative
/// index with a source other than IRQ, or on an IRQ index over 7.
#[verifier::external_body]
pub(crate) fn emit_wait(a: &mut Assembler<33>, polarity: u8, source: WaitSource, index: u8, relative: bool)
    requires
        asm_code(*old(a)).len() < 33,
        asm_encodes(*old(a)),
        relative ==> source == WaitSource::IRQ,
        source == WaitSource::IRQ ==> index <= 7,
    ensures
        appended(*old(a), *final(a), wait_word(polarity, source, index, relative)),
{
    a.wait(polarity, source, index, relative)
}

/// Relies on pio::Assembler::in_with_delay: appends an `in`; assembly panics on a
/// bit count outside 1..=32 or a delay over 31.
#[verifier::external_body]
pub(crate) fn emit_in(a: &mut Assembler<33>, source: InSource, bit_count: u8, delay: u8)
    requires
        asm_code(*old(a)).len() < 33,
        asm_encodes(*old(a)),
        1 <= bit_count <= 32,
        delay <= 31,
    ensures
        appended(*old(a), *final(a), in_word(source, bit_count, delay)),
{
    a.in_with_delay(source, bit_count, delay)
}

/// Relies on pio::Assembler::out: appends an `out`; assembly panics on a bit count
/// outside 1..=32.
#[verifier::external_body]
pub(crate) fn emit_out(a: &mut Assembler<33>, destination: OutDestination, bit_count: u8)
    requires
        asm_code(*old(a)).len() < 33,
        asm_encodes(*old(a)),
        1 <= bit_count <= 32,
    ensures
        appended(*old(a), *final(a), out_word(destination, bit_count)),
{
    a.out(destination, bit_count)
}

/// Relies on pio::Assembler::push: appends a `push`.
#[verifier::external_body]
pub(crate) fn emit_push(a: &mut Assembler<33>, if_full: bool, block: bool)
    requires
        asm_code(*old(a)).len() < 33,
        asm_encodes(*old(a)),
    ensures
        appended(*old(a), *final(a), push_word(if_full, block)),
{
    a.push(if_full, block)
}

/// Relies on pio::Assembler::pull: appends a `pull`.
#[verifier::external_body]
pub(crate) fn emit_pull(a: &mut Assembler<33>, if_empty: bool, block: bool)
    requires
        asm_code(*old(a)).len() < 33,
        asm_encodes(*old(a)),
    ensures
        appended(*old(a), *final(a), pull_word(if_empty, block)),
{
    a.pull(if_empty, block)
}

/// Relies on pio::Assembler::mov: appends a `mov`.
#[verifier::external_body]
pub(crate) fn emit_mov(a: &mut Assembler<33>, destination: MovDestination, op: MovOperation, source: MovSource)
    requires
        asm_code(*old(a)).len() < 33,
        asm_encodes(*old(a)),
    ensures
        appended(*old(a), *final(a), mov_word(destination, op, source)),
{
    a.mov(destination, op, source)
}

/// Relies on pio::Assembler::irq: appends an `irq`; assembly panics on an index
/// over 7.
#[verifier::external_body]
pub(crate) fn emit_irq(a: &mut Assembler<33>, clear: bool, wait: bool, index: u8, index_mode: IrqIndexMode)
    requires
        asm_code(*old(a)).len() < 33,
        asm_encodes(*old(a)),
        index <= 7,
    ensures
        appended(*old(a), *final(a), irq_word(clear, wait, index, index_mode)),
{
    a.irq(clear, wait, index, index_mode)
}

/// Relies on pio::Assembler::set_with_delay: appends a `set`; assembly panics on
/// data or a delay over 31.
#[verifier::external_body]
pub(crate) fn emit_set(a: &mut Assembler<33>, destination: SetDestination, data: u8, delay: u8)
    requires
        asm_code(*old(a)).len() < 33,
        asm_encodes(*old(a)),
        data <= 31,
        delay <= 31,
    ensures
        appended(*old(a), *final(a), set_word(destination, data, delay)),
{
    a.set_with_delay(destination, data, delay)
}

/// Relies on pio::Assembler::nop_with_delay: appends a `nop` (`mov y, y`); assembly
/// panics on a delay over 31.
#[verifier::external_body]
pub(crate) fn emit_nop(a: &mut Assembler<33>, delay: u8)
    requires
        asm_code(*old(a)).len() < 33,
        asm_encodes(*old(a)),
        delay <= 31,
    ensures
        appended(*old(a), *final(a), nop_word(delay)),
{
    a.nop_with_delay(delay)
}

/// Relies on pio::Assembler::assemble_program: the program's code is the encoded
/// instructions, in order (an empty assembler, or one with an instruction that
/// does not encode, panics).
#[verifier::external_body]
pub(crate) fn assemble(a: Assembler<33>) -> (r: Program<33>)
    requires
        asm_code(a).len() >= 1,
        asm_encodes(a),
    ensures
        program_code(r) == asm_code(a),
{
    a.assemble_program()
}

} // verus!
