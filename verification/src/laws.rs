//! What holds of every turn of the loop, whatever the program.

use vstd::prelude::*;
use crate::bus::{Memory, lemma_overlay_stays_off, lemma_write_keeps_wf};
use crate::cpu::{Machine, wrap16};
use crate::fault::{Fault, State};
use crate::instructions::{
    Instruction,
    PREFIX,
    execute,
    unknown_opcode,
    extended_instruction_of,
    immediate_bytes,
    instruction_of,
    is_extended,
    length_of,
};
use crate::registers::{Flag, Register, RegisterState, lemma_low_nibble_is_zero};

verus! {

/// An instruction that sets the program counter itself.
pub open spec fn is_jump(instruction: Instruction) -> bool {
    instruction == Instruction::JrCcN16 || instruction == Instruction::JrN16 || instruction
        == Instruction::Call || instruction == Instruction::Ret || instruction
        == Instruction::RetCc
}

/// `after` is as sound as `before`: it is well-formed, and the boot ROM
/// overlay is off in it if it was off in `before`.
pub open spec fn sound_after(before: Machine, after: Machine) -> bool {
    &&& after.wf()
    &&& !before.bus.overlay_active() ==> !after.bus.overlay_active()
}

proof fn lemma_registers_stay_wf(r: RegisterState)
    requires
        r.wf(),
    ensures
        forall|flag: Flag, on: bool| #[trigger] r.set_flag(flag, on).wf(),
        forall|reg: Register, value: u8| #[trigger] r.set_8(reg, value).wf(),
        forall|reg: Register, value: u16| #[trigger] r.set_16(reg, value).wf(),
{
    assert forall|flag: Flag, on: bool| #[trigger] r.set_flag(flag, on).wf() by {
        lemma_low_nibble_is_zero(r, 0, flag, on);
    }
    assert forall|reg: Register, value: u8| #[trigger] r.set_8(reg, value).wf() by {
        lemma_low_nibble_is_zero(r, value, Flag::Z, true);
    }
}

proof fn lemma_every_change_is_sound()
    ensures
        forall|r: RegisterState, flag: Flag, on: bool|
            r.wf() ==> #[trigger] r.set_flag(flag, on).wf(),
        forall|r: RegisterState, reg: Register, value: u8|
            r.wf() ==> #[trigger] r.set_8(reg, value).wf(),
        forall|r: RegisterState, reg: Register, value: u16|
            r.wf() ==> #[trigger] r.set_16(reg, value).wf(),
        forall|b: Memory, addr: u16, value: u8|
            b.wf() ==> (#[trigger] b.write(addr, value) matches Ok(next) ==> next.wf() && (
            !b.overlay_active() ==> !next.overlay_active())),
{
    assert forall|r: RegisterState, flag: Flag, on: bool| r.wf() implies #[trigger] r.set_flag(
        flag,
        on,
    ).wf() by {
        lemma_registers_stay_wf(r);
    }
    assert forall|r: RegisterState, reg: Register, value: u8| r.wf() implies #[trigger] r.set_8(
        reg,
        value,
    ).wf() by {
        lemma_registers_stay_wf(r);
    }
    assert forall|r: RegisterState, reg: Register, value: u16| r.wf() implies #[trigger] r.set_16(
        reg,
        value,
    ).wf() by {
        lemma_registers_stay_wf(r);
    }
    assert forall|b: Memory, addr: u16, value: u8| b.wf() implies (#[trigger] b.write(
        addr,
        value,
    ) matches Ok(next) ==> next.wf() && (!b.overlay_active() ==> !next.overlay_active())) by {
        lemma_write_keeps_wf(b, addr, value);
        if !b.overlay_active() {
            lemma_overlay_stays_off(b, addr, value);
        }
    }
}

/// What an instruction must leave behind.
pub open spec fn sound_result(
    m: Machine,
    instruction: Instruction,
    result: Result<Machine, Fault>,
) -> bool {
    match result {
        Ok(next) => {
            &&& sound_after(m, next)
            &&& next.state == m.state
            &&& !is_jump(instruction) ==> next.pc == wrap16(m.pc + immediate_bytes(instruction))
        },
        Err(fault) => fault is UnimplementedRegion,
    }
}

proof fn lemma_sound_case(m: Machine, instruction: Instruction, opcode: u8)
    requires
        m.wf(),
    ensures
        sound_result(m, instruction, m.perform(instruction, opcode)),
{
    reveal(Machine::perform);
    match instruction {
        Instruction::LdR8R8 => lemma_sound_ld_r8_r8(m, opcode),
        Instruction::LdR8N8 => lemma_sound_ld_r8_n8(m, opcode),
        Instruction::LdR16N16 => lemma_sound_ld_r16_n16(m, opcode),
        Instruction::LdHlR8 => lemma_sound_ld_hl_r8(m, opcode),
        Instruction::LdHlN8 => lemma_sound_ld_hl_n8(m, opcode),
        Instruction::LdR8Hl => lemma_sound_ld_r8_hl(m, opcode),
        Instruction::LdR16A => lemma_sound_ld_r16_a(m, opcode),
        Instruction::LdN16A => lemma_sound_ld_n16_a(m, opcode),
        Instruction::LdhN16A => lemma_sound_ldh_n16_a(m, opcode),
        Instruction::LdhCA => lemma_sound_ldh_c_a(m, opcode),
        Instruction::LdAR16 => lemma_sound_ld_a_r16(m, opcode),
        Instruction::LdAN16 => lemma_sound_ld_a_n16(m, opcode),
        Instruction::LdhAN16 => lemma_sound_ldh_a_n16(m, opcode),
        Instruction::LdhAC => lemma_sound_ldh_a_c(m, opcode),
        Instruction::LdHliA => lemma_sound_ld_hli_a(m, opcode),
        Instruction::LdHldA => lemma_sound_ld_hld_a(m, opcode),
        Instruction::LdAHld => lemma_sound_ld_a_hld(m, opcode),
        Instruction::LdAHli => lemma_sound_ld_a_hli(m, opcode),
        Instruction::LdSpN16 => lemma_sound_ld_sp_n16(m, opcode),
        Instruction::LdN16Sp => lemma_sound_ld_n16_sp(m, opcode),
        Instruction::LdHlSpAddE8 => lemma_sound_ld_hl_sp_add_e8(m, opcode),
        Instruction::LdSpHl => lemma_sound_ld_sp_hl(m, opcode),
        Instruction::IncR8 => lemma_sound_inc_r8(m, opcode),
        Instruction::IncR16 => lemma_sound_inc_r16(m, opcode),
        Instruction::DecR8 => lemma_sound_dec_r8(m, opcode),
        Instruction::SubR8 => lemma_sound_sub_r8(m, opcode),
        Instruction::CpAR8 => lemma_sound_cp_a_r8(m, opcode),
        Instruction::CpAN8 => lemma_sound_cp_a_n8(m, opcode),
        Instruction::XorAR8 => lemma_sound_xor_a_r8(m, opcode),
        Instruction::JrCcN16 => lemma_sound_jr_cc_n16(m, opcode),
        Instruction::JrN16 => lemma_sound_jr_n16(m, opcode),
        Instruction::Call => lemma_sound_call(m, opcode),
        Instruction::Ret => lemma_sound_ret(m, opcode),
        Instruction::RetCc => lemma_sound_ret_cc(m, opcode),
        Instruction::PushR16 => lemma_sound_push_r16(m, opcode),
        Instruction::PopR16 => lemma_sound_pop_r16(m, opcode),
        Instruction::BitU3R8 => lemma_sound_bit_u3_r8(m, opcode),
        Instruction::Rla => lemma_sound_rla(m, opcode),
        Instruction::RlR8 => lemma_sound_rl_r8(m, opcode),
    }
}

proof fn lemma_sound_ld_r8_r8(m: Machine, opcode: u8)
    requires
        m.wf(),
    ensures
        sound_result(m, Instruction::LdR8R8, m.ld_r8_r8(opcode)),
{
    lemma_every_change_is_sound();
}

proof fn lemma_sound_ld_r8_n8(m: Machine, opcode: u8)
    requires
        m.wf(),
    ensures
        sound_result(m, Instruction::LdR8N8, m.ld_r8_n8(opcode)),
{
    lemma_every_change_is_sound();
}

proof fn lemma_sound_ld_r16_n16(m: Machine, opcode: u8)
    requires
        m.wf(),
    ensures
        sound_result(m, Instruction::LdR16N16, m.ld_r16_n16(opcode)),
{
    lemma_every_change_is_sound();
}

proof fn lemma_sound_ld_hl_r8(m: Machine, opcode: u8)
    requires
        m.wf(),
    ensures
        sound_result(m, Instruction::LdHlR8, m.ld_hl_r8(opcode)),
{
    lemma_every_change_is_sound();
}

proof fn lemma_sound_ld_hl_n8(m: Machine, opcode: u8)
    requires
        m.wf(),
    ensures
        sound_result(m, Instruction::LdHlN8, m.ld_hl_n8()),
{
    lemma_every_change_is_sound();
}

proof fn lemma_sound_ld_r8_hl(m: Machine, opcode: u8)
    requires
        m.wf(),
    ensures
        sound_result(m, Instruction::LdR8Hl, m.ld_r8_hl(opcode)),
{
    lemma_every_change_is_sound();
}

proof fn lemma_sound_ld_r16_a(m: Machine, opcode: u8)
    requires
        m.wf(),
    ensures
        sound_result(m, Instruction::LdR16A, m.ld_r16_a(opcode)),
{
    lemma_every_change_is_sound();
}

proof fn lemma_sound_ld_n16_a(m: Machine, opcode: u8)
    requires
        m.wf(),
    ensures
        sound_result(m, Instruction::LdN16A, m.ld_n16_a()),
{
    lemma_every_change_is_sound();
}

proof fn lemma_sound_ldh_n16_a(m: Machine, opcode: u8)
    requires
        m.wf(),
    ensures
        sound_result(m, Instruction::LdhN16A, m.ldh_n16_a()),
{
    lemma_every_change_is_sound();
}

proof fn lemma_sound_ldh_c_a(m: Machine, opcode: u8)
    requires
        m.wf(),
    ensures
        sound_result(m, Instruction::LdhCA, m.ldh_c_a()),
{
    lemma_every_change_is_sound();
}

proof fn lemma_sound_ld_a_r16(m: Machine, opcode: u8)
    requires
        m.wf(),
    ensures
        sound_result(m, Instruction::LdAR16, m.ld_a_r16(opcode)),
{
    lemma_every_change_is_sound();
}

proof fn lemma_sound_ld_a_n16(m: Machine, opcode: u8)
    requires
        m.wf(),
    ensures
        sound_result(m, Instruction::LdAN16, m.ld_a_n16()),
{
    lemma_every_change_is_sound();
}

proof fn lemma_sound_ldh_a_n16(m: Machine, opcode: u8)
    requires
        m.wf(),
    ensures
        sound_result(m, Instruction::LdhAN16, m.ldh_a_n16()),
{
    lemma_every_change_is_sound();
}

proof fn lemma_sound_ldh_a_c(m: Machine, opcode: u8)
    requires
        m.wf(),
    ensures
        sound_result(m, Instruction::LdhAC, m.ldh_a_c()),
{
    lemma_every_change_is_sound();
}

proof fn lemma_sound_ld_hli_a(m: Machine, opcode: u8)
    requires
        m.wf(),
    ensures
        sound_result(m, Instruction::LdHliA, m.store_a_and_move(1)),
{
    lemma_every_change_is_sound();
}

proof fn lemma_sound_ld_hld_a(m: Machine, opcode: u8)
    requires
        m.wf(),
    ensures
        sound_result(m, Instruction::LdHldA, m.store_a_and_move(-1)),
{
    lemma_every_change_is_sound();
}

proof fn lemma_sound_ld_a_hld(m: Machine, opcode: u8)
    requires
        m.wf(),
    ensures
        sound_result(m, Instruction::LdAHld, m.load_a_and_move(-1)),
{
    lemma_every_change_is_sound();
}

proof fn lemma_sound_ld_a_hli(m: Machine, opcode: u8)
    requires
        m.wf(),
    ensures
        sound_result(m, Instruction::LdAHli, m.load_a_and_move(1)),
{
    lemma_every_change_is_sound();
}

proof fn lemma_sound_ld_sp_n16(m: Machine, opcode: u8)
    requires
        m.wf(),
    ensures
        sound_result(m, Instruction::LdSpN16, m.ld_sp_n16()),
{
    lemma_every_change_is_sound();
}

proof fn lemma_sound_ld_n16_sp(m: Machine, opcode: u8)
    requires
        m.wf(),
    ensures
        sound_result(m, Instruction::LdN16Sp, m.ld_n16_sp()),
{
    lemma_every_change_is_sound();
}

proof fn lemma_sound_ld_hl_sp_add_e8(m: Machine, opcode: u8)
    requires
        m.wf(),
    ensures
        sound_result(m, Instruction::LdHlSpAddE8, m.ld_hl_sp_add_e8()),
{
    lemma_every_change_is_sound();
}

proof fn lemma_sound_ld_sp_hl(m: Machine, opcode: u8)
    requires
        m.wf(),
    ensures
        sound_result(m, Instruction::LdSpHl, Ok::<Machine, Fault>(m.with_sp(m.register.get_16(Register::HL)))),
{
    lemma_every_change_is_sound();
}

proof fn lemma_sound_inc_r8(m: Machine, opcode: u8)
    requires
        m.wf(),
    ensures
        sound_result(m, Instruction::IncR8, m.inc_r8(opcode)),
{
    lemma_every_change_is_sound();
}

proof fn lemma_sound_inc_r16(m: Machine, opcode: u8)
    requires
        m.wf(),
    ensures
        sound_result(m, Instruction::IncR16, Ok::<Machine, Fault>(m.inc_r16(opcode))),
{
    lemma_every_change_is_sound();
}

proof fn lemma_sound_dec_r8(m: Machine, opcode: u8)
    requires
        m.wf(),
    ensures
        sound_result(m, Instruction::DecR8, m.dec_r8(opcode)),
{
    lemma_every_change_is_sound();
}

proof fn lemma_sound_sub_r8(m: Machine, opcode: u8)
    requires
        m.wf(),
    ensures
        sound_result(m, Instruction::SubR8, m.sub_r8(opcode)),
{
    lemma_every_change_is_sound();
}

proof fn lemma_sound_cp_a_r8(m: Machine, opcode: u8)
    requires
        m.wf(),
    ensures
        sound_result(m, Instruction::CpAR8, m.cp_a_r8(opcode)),
{
    lemma_every_change_is_sound();
}

proof fn lemma_sound_cp_a_n8(m: Machine, opcode: u8)
    requires
        m.wf(),
    ensures
        sound_result(m, Instruction::CpAN8, m.cp_a_n8()),
{
    lemma_every_change_is_sound();
}

proof fn lemma_sound_xor_a_r8(m: Machine, opcode: u8)
    requires
        m.wf(),
    ensures
        sound_result(m, Instruction::XorAR8, m.xor_a_r8(opcode)),
{
    lemma_every_change_is_sound();
}

proof fn lemma_sound_jr_cc_n16(m: Machine, opcode: u8)
    requires
        m.wf(),
    ensures
        sound_result(m, Instruction::JrCcN16, m.jr_cc_n16(opcode)),
{
    lemma_every_change_is_sound();
}

proof fn lemma_sound_jr_n16(m: Machine, opcode: u8)
    requires
        m.wf(),
    ensures
        sound_result(m, Instruction::JrN16, m.jr_n16()),
{
    lemma_every_change_is_sound();
}

proof fn lemma_sound_call(m: Machine, opcode: u8)
    requires
        m.wf(),
    ensures
        sound_result(m, Instruction::Call, m.call()),
{
    lemma_every_change_is_sound();
}

proof fn lemma_sound_ret(m: Machine, opcode: u8)
    requires
        m.wf(),
    ensures
        sound_result(m, Instruction::Ret, m.ret()),
{
    lemma_every_change_is_sound();
}

proof fn lemma_sound_ret_cc(m: Machine, opcode: u8)
    requires
        m.wf(),
    ensures
        sound_result(m, Instruction::RetCc, m.ret_cc(opcode)),
{
    lemma_every_change_is_sound();
}

proof fn lemma_sound_push_r16(m: Machine, opcode: u8)
    requires
        m.wf(),
    ensures
        sound_result(m, Instruction::PushR16, m.push_r16(opcode)),
{
    lemma_every_change_is_sound();
}

proof fn lemma_sound_pop_r16(m: Machine, opcode: u8)
    requires
        m.wf(),
    ensures
        sound_result(m, Instruction::PopR16, m.pop_r16(opcode)),
{
    lemma_every_change_is_sound();
}

proof fn lemma_sound_bit_u3_r8(m: Machine, opcode: u8)
    requires
        m.wf(),
    ensures
        sound_result(m, Instruction::BitU3R8, m.bit_u3_r8(opcode)),
{
    lemma_every_change_is_sound();
}

proof fn lemma_sound_rla(m: Machine, opcode: u8)
    requires
        m.wf(),
    ensures
        sound_result(m, Instruction::Rla, Ok::<Machine, Fault>(m.rla())),
{
    lemma_every_change_is_sound();
}

proof fn lemma_sound_rl_r8(m: Machine, opcode: u8)
    requires
        m.wf(),
    ensures
        sound_result(m, Instruction::RlR8, m.rl_r8(opcode)),
{
    lemma_every_change_is_sound();
}

/// An instruction faults on the bus only.
pub proof fn lemma_perform_faults_on_the_bus(m: Machine, instruction: Instruction, opcode: u8)
    requires
        m.wf(),
    ensures
        m.perform(instruction, opcode) matches Err(fault) ==> fault is UnimplementedRegion,
{
    lemma_sound_case(m, instruction, opcode);
}

/// Every instruction keeps the machine sound and leaves the state of the
/// loop alone, and one that is no jump moves the program counter past its
/// immediate bytes and no further.
pub proof fn lemma_perform_is_sound(m: Machine, instruction: Instruction, opcode: u8)
    requires
        m.wf(),
    ensures
        m.perform(instruction, opcode) matches Ok(next) ==> {
            &&& sound_after(m, next)
            &&& next.state == m.state
            &&& !is_jump(instruction) ==> next.pc == wrap16(m.pc + immediate_bytes(instruction))
        },
{
    lemma_sound_case(m, instruction, opcode);
}


/// A conditional instruction is its unconditional form where the condition
/// holds. Where it fails, a jump only skips its offset byte, and a return
/// does nothing: it leaves the program counter and the stack pointer alone
/// and does not read the stack.
pub proof fn lemma_conditional_instructions(m: Machine, opcode: u8)
    ensures
        m.condition_met(opcode) ==> m.ret_cc(opcode) == m.ret() && m.jr_cc_n16(opcode)
            == m.jr_n16(),
        !m.condition_met(opcode) ==> m.ret_cc(opcode) == Ok::<Machine, Fault>(m),
        !m.condition_met(opcode) ==> (m.jr_cc_n16(opcode) matches Ok(next) ==> next == m.skip(1)),
{
}

/// The primary table holds no instruction of the extended space and no
/// entry for the prefix, and the extended table holds nothing else.
pub proof fn lemma_tables_are_apart(opcode: u8)
    ensures
        instruction_of(opcode) matches Some(instruction) ==> !is_extended(instruction),
        extended_instruction_of(opcode) matches Some(instruction) ==> is_extended(instruction),
        instruction_of(PREFIX) is None,
{
}

/// Whatever the dispatcher does with an opcode keeps the machine sound and
/// the loop in its state.
pub proof fn lemma_execute_is_sound(m: Machine, opcode: u8)
    requires
        m.wf(),
    ensures
        execute(m, opcode) matches Ok(next) ==> sound_after(m, next) && next.state == m.state,
{
    if opcode == PREFIX {
        if let Ok(second) = m.fetch8() {
            if let Some(instruction) = extended_instruction_of(second) {
                lemma_perform_is_sound(m.skip(1), instruction, second);
            }
        }
    } else {
        if let Some(instruction) = instruction_of(opcode) {
            lemma_perform_is_sound(m, instruction, opcode);
        }
    }
}

/// A turn of the loop keeps the machine sound: the low nibble of `F` stays
/// zero, every store keeps its size, and the boot ROM overlay, once off,
/// stays off.
pub proof fn lemma_step_is_sound(m: Machine)
    requires
        m.wf(),
    ensures
        sound_after(m, m.step()),
{
    if m.state is Running {
        if let Ok(opcode) = m.fetch8() {
            lemma_execute_is_sound(m.skip(1), opcode);
        }
    }
}

/// Any number of turns keeps the machine sound.
pub proof fn lemma_run_is_sound(m: Machine, n: nat)
    requires
        m.wf(),
    ensures
        sound_after(m, m.run(n)),
    decreases n,
{
    if n > 0 {
        lemma_step_is_sound(m);
        lemma_run_is_sound(m.step(), (n - 1) as nat);
    }
}

/// A turn that halts changes nothing but the state of the loop: the
/// registers, the program counter, the stack pointer and the memory are
/// those from before the fetch.
pub proof fn lemma_halt_changes_nothing(m: Machine)
    requires
        m.wf(),
        m.state is Running,
        m.step().state is Halted,
    ensures
        m.step() == (Machine { state: m.step().state, ..m }),
{
    if let Ok(opcode) = m.fetch8() {
        lemma_execute_is_sound(m.skip(1), opcode);
    }
}

/// A running machine halts on an opcode that the primary table does not
/// hold, with a fault that names the opcode and the address it was fetched
/// from.
pub proof fn lemma_unknown_opcode_halts(m: Machine, opcode: u8)
    requires
        m.state is Running,
        m.fetch8() == Ok::<u8, Fault>(opcode),
        opcode != PREFIX,
        instruction_of(opcode) is None,
    ensures
        m.step() == (Machine {
            state: State::Halted(
                Fault::UnknownOpcode {
                    opcode,
                    extended: None,
                    address: m.pc,
                    snapshot: m.snapshot(),
                },
            ),
            ..m
        }),
{
}

/// The snapshot that an unknown opcode leaves in the fault is that of the
/// halted machine, and the address in the fault is its program counter.
pub proof fn lemma_snapshot_is_the_halted_machine(m: Machine)
    requires
        m.wf(),
        m.state is Running,
    ensures
        m.step().state matches State::Halted(Fault::UnknownOpcode { address, snapshot, .. })
            ==> address == m.step().pc && snapshot == m.step().snapshot(),
{
    if let Ok(opcode) = m.fetch8() {
        lemma_execute_is_sound(m.skip(1), opcode);
        lemma_faults_are_of_the_bus_or_the_tables(m.skip(1), opcode);
    }
}

/// A fault of the dispatcher is a fault of the bus, or the fault that it
/// raises itself for an opcode that no table holds.
pub proof fn lemma_faults_are_of_the_bus_or_the_tables(m: Machine, opcode: u8)
    requires
        m.wf(),
    ensures
        execute(m, opcode) matches Err(fault) ==> fault is UnimplementedRegion || (exists|
            extended: Option<u8>,
        |
            fault == unknown_opcode(m, opcode, extended)),
{
    if opcode == PREFIX {
        if let Ok(second) = m.fetch8() {
            if let Some(instruction) = extended_instruction_of(second) {
                lemma_perform_faults_on_the_bus(m.skip(1), instruction, second);
            } else {
                assert(execute(m, opcode) == Err::<Machine, Fault>(
                    unknown_opcode(m, opcode, Some(second)),
                ));
            }
        }
    } else {
        if let Some(instruction) = instruction_of(opcode) {
            lemma_perform_faults_on_the_bus(m, instruction, opcode);
        } else {
            assert(execute(m, opcode) == Err::<Machine, Fault>(
                unknown_opcode(m, opcode, None),
            ));
        }
    }
}

/// A turn that executes an instruction other than a jump moves the program
/// counter by the length of the instruction.
pub proof fn lemma_step_advances_by_length(m: Machine, opcode: u8, instruction: Instruction)
    requires
        m.wf(),
        m.state is Running,
        m.step().state is Running,
        m.fetch8() == Ok::<u8, Fault>(opcode),
        opcode != PREFIX,
        instruction_of(opcode) == Some(instruction),
        !is_jump(instruction),
    ensures
        m.step().pc == wrap16(m.pc + length_of(instruction)),
{
    lemma_tables_are_apart(opcode);
    lemma_perform_is_sound(m.skip(1), instruction, opcode);
}

/// The same for an instruction of the extended space.
pub proof fn lemma_step_advances_by_extended_length(
    m: Machine,
    second: u8,
    instruction: Instruction,
)
    requires
        m.wf(),
        m.state is Running,
        m.step().state is Running,
        m.fetch8() == Ok::<u8, Fault>(PREFIX),
        m.skip(1).fetch8() == Ok::<u8, Fault>(second),
        extended_instruction_of(second) == Some(instruction),
        !is_jump(instruction),
    ensures
        m.step().pc == wrap16(m.pc + length_of(instruction)),
{
    lemma_tables_are_apart(second);
    lemma_perform_is_sound(m.skip(1).skip(1), instruction, second);
}

} // verus!
