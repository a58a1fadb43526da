//! The fetch-decode-execute engine: operand resolution for each addressing
//! mode, per-opcode-class execution semantics, and power-on/reset.
//!
//! Every step has exactly two phases. Decode reads the bus and writes only
//! the instruction register, the decode register and the one-byte fetch
//! advance of `pc`; execute mutates everything else and advances `pc` by
//! `length - 1`, except the control-flow opcodes, which set `pc` directly.
use vstd::prelude::*;

verus! {

use crate::cpu::common_defs::OpcodeExecInfo;
use crate::cpu::common_defs::address_mode::AddressMode;
use crate::cpu::common_defs::opcode_class::OpcodeClass;
use crate::cpu::cpu_state::CpuState;
use crate::cpu::cpu_state::DecodeRegister;
use crate::cpu::cpu_state::spec_decode_register_default;
use crate::cpu::cpu_state::spec_flag_term;
use crate::cpu::cpu_state::spec_flags_byte;
use crate::cpu::cpu_state::spec_with_flags_from;
use crate::memory::Memory;
use crate::memory::MemoryError;
use crate::memory::spec_resolve;

/// A step failed: a bus access violation, an opcode class with no handler,
/// or an addressing mode outside the closed set. The offending value is
/// attached.
#[derive(Debug)]
pub enum ExecutionError {
    MemoryError(MemoryError),
    UnexpectedOpcode(OpcodeClass),
    UnexpectedAddressMode(AddressMode),
}

/// Owns the immutable 256-entry opcode table and drives the two-phase
/// instruction cycle against caller-owned CPU state and memory.
pub struct CpuExecutor {
    op_table: Vec<OpcodeExecInfo>,
}

/// 16-bit address arithmetic wraps at the 64KB boundary.
pub open spec fn spec_wrap16(a: int) -> u16 {
    (a % 0x10000) as u16
}

/// 8-bit increment with wraparound, used for the stack pointer.
pub open spec fn spec_inc8(v: u8) -> u8 {
    if v == 255 {
        0
    } else {
        (v + 1) as u8
    }
}

/// 8-bit decrement with wraparound, used for the stack pointer and index
/// registers.
pub open spec fn spec_dec8(v: u8) -> u8 {
    if v == 0 {
        255
    } else {
        (v - 1) as u8
    }
}

/// Whether a one-byte read at `addr` succeeds (the region resolves).
pub open spec fn spec_can_read8(addr: u16) -> bool {
    spec_resolve(addr) is Ok
}

/// Physical index that `addr` resolves to; meaningful only when the region
/// resolves.
pub open spec fn spec_phys(addr: u16) -> int {
    spec_resolve(addr)->Ok_0
}

/// The byte a successful read at `addr` returns.
pub open spec fn spec_byte_at(mem: Seq<u8>, addr: u16) -> u8 {
    mem[spec_phys(addr)]
}

/// Whether a two-byte read at `addr` succeeds: the region resolves and the
/// high byte does not fall off the end of the 64KB space.
pub open spec fn spec_can_read16(addr: u16) -> bool {
    addr != 0xFFFF && spec_resolve(addr) is Ok
}

/// The little-endian word a successful two-byte read at `addr` returns.
pub open spec fn spec_word_at(mem: Seq<u8>, addr: u16) -> u16 {
    (mem[spec_phys(addr)] + 256 * mem[spec_phys(addr) + 1]) as u16
}

/// Page-1 address of the stack slot for a given stack pointer.
pub open spec fn spec_stack_addr(sp: u8) -> u16 {
    (0x100 + sp) as u16
}

/// Zero-page indexed address: the zero-page byte plus the index register,
/// wrapping modulo 256 so the result stays in page 0.
pub open spec fn spec_zp_indexed(zp: u8, idx: u8) -> u16 {
    (((zp + idx) % 256) as u16)
}

/// Branch target of a relative operand: the offset is signed, taken from
/// the address after the 2-byte instruction; adding 0xFF00 is subtracting
/// 256 modulo 2^16.
pub open spec fn spec_relative_target(pc: u16, v: u8) -> u16 {
    if v < 0x80 {
        spec_wrap16(pc + 2 + v)
    } else {
        spec_wrap16(pc + 2 + v + 0xFF00)
    }
}

/// Address of the operand byte: one past the opcode.
pub open spec fn spec_operand_addr(pc: u16) -> u16 {
    spec_wrap16(pc + 1)
}

/// Whether every bus read that decoding `info` at `pc` performs succeeds.
/// An instruction whose operand chain runs through an unimplemented bus
/// region cannot be decoded.
pub open spec fn spec_decode_ok(
    info: OpcodeExecInfo,
    pc: u16,
    x: u8,
    y: u8,
    mem: Seq<u8>,
) -> bool {
    let op1 = spec_operand_addr(pc);
    match info.address_mode {
        AddressMode::Accumulator => true,
        AddressMode::Implied => true,
        AddressMode::Absolute => spec_can_read16(op1) && spec_can_read8(spec_word_at(mem, op1)),
        AddressMode::AbsoluteX => spec_can_read16(op1) && spec_can_read8(
            spec_wrap16(spec_word_at(mem, op1) + x),
        ),
        AddressMode::AbsoluteY => spec_can_read16(op1) && spec_can_read8(
            spec_wrap16(spec_word_at(mem, op1) + y),
        ),
        AddressMode::Immediate => spec_can_read8(op1),
        AddressMode::Indirect => spec_can_read16(op1) && spec_can_read16(spec_word_at(mem, op1)),
        AddressMode::IndexedIndirect => spec_can_read8(op1) && spec_can_read16(
            spec_zp_indexed(spec_byte_at(mem, op1), x),
        ) && spec_can_read8(spec_word_at(mem, spec_zp_indexed(spec_byte_at(mem, op1), x))),
        AddressMode::IndirectIndexed => spec_can_read8(op1) && spec_can_read16(
            spec_byte_at(mem, op1) as u16,
        ) && spec_can_read8(
            spec_wrap16(spec_word_at(mem, spec_byte_at(mem, op1) as u16) + y),
        ),
        AddressMode::Relative => spec_can_read8(op1),
        AddressMode::ZeroPage => spec_can_read8(op1) && spec_can_read8(
            spec_byte_at(mem, op1) as u16,
        ),
        AddressMode::ZeroPageX => spec_can_read8(op1) && spec_can_read8(
            spec_zp_indexed(spec_byte_at(mem, op1), x),
        ),
        AddressMode::ZeroPageY => spec_can_read8(op1) && spec_can_read8(
            spec_zp_indexed(spec_byte_at(mem, op1), y),
        ),
        AddressMode::Unspecified => true,
    }
}

/// The decode register that resolving `info`'s addressing mode at `pc`
/// produces, when every read succeeds. Fields a mode does not populate stay
/// `None`.
pub open spec fn spec_decode(
    info: OpcodeExecInfo,
    pc: u16,
    x: u8,
    y: u8,
    mem: Seq<u8>,
) -> DecodeRegister {
    let d0 = DecodeRegister { info, ..spec_decode_register_default() };
    let op1 = spec_operand_addr(pc);
    match info.address_mode {
        AddressMode::Accumulator => d0,
        AddressMode::Implied => d0,
        AddressMode::Absolute => spec_dr_addr_value(d0, mem, spec_word_at(mem, op1)),
        AddressMode::AbsoluteX => spec_dr_addr_value(
            d0,
            mem,
            spec_wrap16(spec_word_at(mem, op1) + x),
        ),
        AddressMode::AbsoluteY => spec_dr_addr_value(
            d0,
            mem,
            spec_wrap16(spec_word_at(mem, op1) + y),
        ),
        AddressMode::Immediate => spec_dr_addr_value(d0, mem, op1),
        AddressMode::Indirect => DecodeRegister {
            addr_intermediate: Some(spec_word_at(mem, op1)),
            addr_final: Some(spec_word_at(mem, spec_word_at(mem, op1))),
            ..d0
        },
        AddressMode::IndexedIndirect => spec_dr_indexed_indirect(d0, mem, op1, x),
        AddressMode::IndirectIndexed => spec_dr_indirect_indexed(d0, mem, op1, y),
        AddressMode::Relative => DecodeRegister {
            value_final: Some(spec_byte_at(mem, op1)),
            addr_final: Some(spec_relative_target(pc, spec_byte_at(mem, op1))),
            ..d0
        },
        AddressMode::ZeroPage => spec_dr_addr_value(d0, mem, spec_byte_at(mem, op1) as u16),
        AddressMode::ZeroPageX => spec_dr_addr_value(
            d0,
            mem,
            spec_zp_indexed(spec_byte_at(mem, op1), x),
        ),
        AddressMode::ZeroPageY => spec_dr_addr_value(
            d0,
            mem,
            spec_zp_indexed(spec_byte_at(mem, op1), y),
        ),
        AddressMode::Unspecified => d0,
    }
}

/// Decode result of the modes that resolve a final address and read its
/// byte.
pub open spec fn spec_dr_addr_value(d0: DecodeRegister, mem: Seq<u8>, a: u16) -> DecodeRegister {
    DecodeRegister { addr_final: Some(a), value_final: Some(spec_byte_at(mem, a)), ..d0 }
}

/// Decode result of `(zp,X)`: the zero-page pointer is indexed with 8-bit
/// wraparound, then dereferenced.
pub open spec fn spec_dr_indexed_indirect(
    d0: DecodeRegister,
    mem: Seq<u8>,
    op1: u16,
    x: u8,
) -> DecodeRegister {
    let ai = spec_zp_indexed(spec_byte_at(mem, op1), x);
    let af = spec_word_at(mem, ai);
    DecodeRegister {
        addr_intermediate: Some(ai),
        addr_final: Some(af),
        value_final: Some(spec_byte_at(mem, af)),
        ..d0
    }
}

/// Decode result of `(zp),Y`: the zero-page pointer is dereferenced, then
/// indexed with 16-bit wraparound.
pub open spec fn spec_dr_indirect_indexed(
    d0: DecodeRegister,
    mem: Seq<u8>,
    op1: u16,
    y: u8,
) -> DecodeRegister {
    let a0 = spec_byte_at(mem, op1) as u16;
    let ai = spec_word_at(mem, a0);
    let af = spec_wrap16(ai + y);
    DecodeRegister {
        addr_init: Some(a0),
        addr_intermediate: Some(ai),
        addr_final: Some(af),
        value_final: Some(spec_byte_at(mem, af)),
        ..d0
    }
}


/// Zero flag value of a result byte.
pub open spec fn spec_z(v: u8) -> bool {
    v == 0
}

/// Sign flag value of a result byte: its bit 7.
pub open spec fn spec_s(v: u8) -> bool {
    v >= 0x80
}

/// The generic program-counter advance applied by non-control-flow
/// handlers: `length - 1` more bytes past the fetch advance.
pub open spec fn spec_adv(cpu: CpuState) -> u16 {
    spec_wrap16(cpu.pc + cpu.decode_register.info.len - 1)
}

/// ADC result byte: accumulator plus operand plus carry-in, modulo 256.
pub open spec fn spec_adc_result(a: u8, b: u8, c: bool) -> u8 {
    ((a + b + spec_flag_term(c, 1)) % 256) as u8
}

/// ADC carry-out: the unsigned sum exceeded one byte.
pub open spec fn spec_adc_carry(a: u8, b: u8, c: bool) -> bool {
    a + b + spec_flag_term(c, 1) > 255
}

/// Signed-overflow test shared by ADC (and, with the operand's role
/// inverted, SBC): the operands agree in sign and the result differs.
pub open spec fn spec_overflow_bit(a: u8, b: u8, r: u8) -> bool {
    ((a ^ b) & 0x80) == 0 && ((a ^ r) & 0x80) != 0
}

/// SBC borrow-in: 1 when the carry flag is clear.
pub open spec fn spec_sbc_borrow(c: bool) -> int {
    if c {
        0
    } else {
        1
    }
}

/// SBC result byte: accumulator minus operand minus borrow, modulo 256
/// (adding 512 keeps the dividend nonnegative without changing the
/// residue).
pub open spec fn spec_sbc_result(a: u8, b: u8, c: bool) -> u8 {
    ((a + 512 - b - spec_sbc_borrow(c)) % 256) as u8
}

/// SBC carry-out: the signed difference did not go below zero.
pub open spec fn spec_sbc_carry(a: u8, b: u8, c: bool) -> bool {
    a >= b + spec_sbc_borrow(c)
}

/// SBC signed overflow: operands differ in sign and the result's sign
/// moved away from the accumulator's.
pub open spec fn spec_sbc_overflow(a: u8, b: u8, c: bool) -> bool {
    ((a ^ b) & 0x80) != 0 && ((a ^ spec_sbc_result(a, b, c)) & 0x80) != 0
}

/// The byte whose zero and sign flags a compare instruction reports:
/// register minus operand, modulo 256.
pub open spec fn spec_cmp_diff(r: u8, o: u8) -> u8 {
    ((r + 256 - o) % 256) as u8
}

/// Register write plus the zero/sign flag update that loads and transfers
/// share, with the program counter set to `pc`.
pub open spec fn spec_set_a(cpu: CpuState, v: u8, pc: u16) -> CpuState {
    CpuState { a: v, Z: spec_z(v), S: spec_s(v), pc, ..cpu }
}

/// Register write plus the zero/sign flag update that loads and transfers
/// share, with the program counter set to `pc`.
pub open spec fn spec_set_x(cpu: CpuState, v: u8, pc: u16) -> CpuState {
    CpuState { x: v, Z: spec_z(v), S: spec_s(v), pc, ..cpu }
}

/// Register write plus the zero/sign flag update that loads and transfers
/// share, with the program counter set to `pc`.
pub open spec fn spec_set_y(cpu: CpuState, v: u8, pc: u16) -> CpuState {
    CpuState { y: v, Z: spec_z(v), S: spec_s(v), pc, ..cpu }
}

/// Compare semantics shared by CMP, CPX and CPY: zero and sign from the
/// wrapped difference, carry set exactly when the register is at least the
/// operand (unsigned, equality included).
pub open spec fn spec_compare(cpu: CpuState, reg: u8, o: u8) -> CpuState {
    let d = spec_cmp_diff(reg, o);
    CpuState { Z: spec_z(d), S: spec_s(d), C: reg >= o, pc: spec_adv(cpu), ..cpu }
}

/// Branch semantics: when the tested condition holds the program counter
/// jumps to the resolved target, otherwise the generic advance applies.
pub open spec fn spec_branch(cpu: CpuState, cond: bool) -> CpuState {
    if cond {
        CpuState { pc: cpu.decode_register.addr_final->0, ..cpu }
    } else {
        CpuState { pc: spec_adv(cpu), ..cpu }
    }
}

/// Whether `execute` can run without hitting an input the original
/// hardware model leaves undefined: the decode fields the class consumes
/// are resolved, a declared instruction length supports the generic
/// advance, and a stack access does not step outside the 64KB space.
pub open spec fn spec_execute_pre(cpu: CpuState, mem: Seq<u8>) -> bool {
    let dr = cpu.decode_register;
    match dr.info.opcode_class {
        OpcodeClass::ADC => dr.value_final is Some && dr.info.len >= 1,
        OpcodeClass::AND => dr.value_final is Some && dr.info.len >= 1,
        OpcodeClass::ASL => dr.info.len >= 1,
        OpcodeClass::BCC => dr.addr_final is Some && dr.info.len >= 1,
        OpcodeClass::BCS => dr.addr_final is Some && dr.info.len >= 1,
        OpcodeClass::BEQ => dr.addr_final is Some && dr.info.len >= 1,
        OpcodeClass::BIT => dr.value_final is Some && dr.info.len >= 1,
        OpcodeClass::BMI => dr.addr_final is Some && dr.info.len >= 1,
        OpcodeClass::BNE => dr.addr_final is Some && dr.info.len >= 1,
        OpcodeClass::BPL => dr.addr_final is Some && dr.info.len >= 1,
        OpcodeClass::BVC => dr.addr_final is Some && dr.info.len >= 1,
        OpcodeClass::BVS => dr.addr_final is Some && dr.info.len >= 1,
        OpcodeClass::CMP => dr.value_final is Some && dr.info.len >= 1,
        OpcodeClass::CLC => dr.info.len >= 1,
        OpcodeClass::CLD => dr.info.len >= 1,
        OpcodeClass::CLV => dr.info.len >= 1,
        OpcodeClass::CPX => dr.value_final is Some && dr.info.len >= 1,
        OpcodeClass::CPY => dr.value_final is Some && dr.info.len >= 1,
        OpcodeClass::DEX => dr.info.len >= 1,
        OpcodeClass::DEY => dr.info.len >= 1,
        OpcodeClass::EOR => dr.value_final is Some && dr.info.len >= 1,
        OpcodeClass::INX => dr.info.len >= 1,
        OpcodeClass::INY => dr.info.len >= 1,
        OpcodeClass::LDA => dr.value_final is Some && dr.info.len >= 1,
        OpcodeClass::LDX => dr.value_final is Some && dr.info.len >= 1,
        OpcodeClass::LDY => dr.value_final is Some && dr.info.len >= 1,
        OpcodeClass::LSR => dr.info.len >= 1,
        OpcodeClass::JMP => dr.addr_final is Some,
        OpcodeClass::JSR => dr.addr_final is Some && cpu.sp != 0,
        OpcodeClass::NOP => dr.info.len >= 1,
        OpcodeClass::ORA => dr.value_final is Some && dr.info.len >= 1,
        OpcodeClass::PHA => dr.info.len >= 1,
        OpcodeClass::PHP => dr.info.len >= 1,
        OpcodeClass::PLA => dr.info.len >= 1,
        OpcodeClass::PLP => dr.info.len >= 1,
        OpcodeClass::RTS => cpu.sp != 0xFE,
        OpcodeClass::SBC => dr.value_final is Some && dr.info.len >= 1,
        OpcodeClass::SEC => dr.info.len >= 1,
        OpcodeClass::SED => dr.info.len >= 1,
        OpcodeClass::SEI => dr.info.len >= 1,
        OpcodeClass::STA => dr.addr_final is Some && dr.info.len >= 1,
        OpcodeClass::STX => dr.addr_final is Some && dr.info.len >= 1,
        OpcodeClass::TAX => dr.info.len >= 1,
        OpcodeClass::TAY => dr.info.len >= 1,
        OpcodeClass::TSX => dr.info.len >= 1,
        OpcodeClass::TXS => dr.info.len >= 1,
        OpcodeClass::TXA => dr.info.len >= 1,
        OpcodeClass::TYA => dr.info.len >= 1,
        _ => true,
    }
}

/// ADC: sum of accumulator, operand and carry; carry from the unsigned
/// sum, overflow from the signs, zero and sign from the result.
pub open spec fn spec_exec_adc(cpu: CpuState) -> CpuState {
    let b = cpu.decode_register.value_final->0;
    let r = spec_adc_result(cpu.a, b, cpu.C);
    CpuState {
        a: r,
        Z: spec_z(r),
        S: spec_s(r),
        C: spec_adc_carry(cpu.a, b, cpu.C),
        V: spec_overflow_bit(cpu.a, b, r),
        pc: spec_adv(cpu),
        ..cpu
    }
}

/// SBC: difference of accumulator, operand and borrow; carry set when no
/// borrow-out, overflow from the signs, zero and sign from the result.
pub open spec fn spec_exec_sbc(cpu: CpuState) -> CpuState {
    let b = cpu.decode_register.value_final->0;
    let r = spec_sbc_result(cpu.a, b, cpu.C);
    CpuState {
        a: r,
        Z: spec_z(r),
        S: spec_s(r),
        C: spec_sbc_carry(cpu.a, b, cpu.C),
        V: spec_sbc_overflow(cpu.a, b, cpu.C),
        pc: spec_adv(cpu),
        ..cpu
    }
}

/// ASL on the accumulator: shift left, carry is the bit shifted out, zero
/// and sign from the result.
pub open spec fn spec_exec_asl(cpu: CpuState) -> CpuState {
    let r = cpu.a << 1u8;
    CpuState { a: r, C: cpu.a >= 0x80, Z: spec_z(r), S: spec_s(r), pc: spec_adv(cpu), ..cpu }
}

/// LSR on the accumulator: shift right, carry is the bit shifted out, zero
/// and sign from the result.
pub open spec fn spec_exec_lsr(cpu: CpuState) -> CpuState {
    let r = cpu.a >> 1u8;
    CpuState {
        a: r,
        C: (cpu.a & 1) == 1,
        Z: spec_z(r),
        S: spec_s(r),
        pc: spec_adv(cpu),
        ..cpu
    }
}

/// BIT: overflow from the operand's bit 6, sign from its bit 7, zero from
/// the operand masked with the accumulator.
pub open spec fn spec_exec_bit(cpu: CpuState) -> CpuState {
    let v = cpu.decode_register.value_final->0;
    CpuState {
        V: ((v >> 6u8) & 1) > 0,
        Z: spec_z(v & cpu.a),
        S: spec_s(v),
        pc: spec_adv(cpu),
        ..cpu
    }
}

/// One-byte stack push: the byte lands in the page-1 slot of the current
/// stack pointer, which then decrements with wraparound.
pub open spec fn spec_exec_push8(cpu: CpuState, mem: Seq<u8>, v: u8) -> (CpuState, Seq<u8>) {
    (
        CpuState { sp: spec_dec8(cpu.sp), pc: spec_adv(cpu), ..cpu },
        mem.update(spec_phys(spec_stack_addr(cpu.sp)), v),
    )
}

/// The byte a one-byte stack pull reads, after the stack pointer
/// increments with wraparound.
pub open spec fn spec_pull8_value(cpu: CpuState, mem: Seq<u8>) -> u8 {
    spec_byte_at(mem, spec_stack_addr(spec_inc8(cpu.sp)))
}

/// JSR: pushes the address one past the current program counter as two
/// bytes below the current stack slot, then jumps.
pub open spec fn spec_exec_jsr(cpu: CpuState, mem: Seq<u8>) -> (CpuState, Seq<u8>) {
    let ret = spec_wrap16(cpu.pc + 1);
    let a = (0x100 + cpu.sp - 1) as u16;
    (
        CpuState {
            sp: spec_dec8(spec_dec8(cpu.sp)),
            pc: cpu.decode_register.addr_final->0,
            ..cpu
        },
        mem.update(spec_phys(a), (ret % 256) as u8).update(spec_phys(a) + 1, (ret / 256) as u8),
    )
}

/// RTS: pulls a two-byte address and resumes one byte past it.
pub open spec fn spec_exec_rts(cpu: CpuState, mem: Seq<u8>) -> CpuState {
    let sp2 = spec_inc8(spec_inc8(cpu.sp));
    let v = spec_word_at(mem, (0x100 + sp2 - 1) as u16);
    CpuState { sp: sp2, pc: spec_wrap16(v + 1), ..cpu }
}

/// A store's result: the register byte goes to the resolved operand
/// address; a region error leaves everything unchanged and is reported.
pub open spec fn spec_exec_store(cpu: CpuState, mem: Seq<u8>, v: u8) -> Result<
    (CpuState, Seq<u8>),
    ExecutionError,
> {
    let a = cpu.decode_register.addr_final->0;
    match spec_resolve(a) {
        Ok(i) => Ok((CpuState { pc: spec_adv(cpu), ..cpu }, mem.update(i, v))),
        Err(e) => Err(ExecutionError::MemoryError(e)),
    }
}

/// What executing the decoded instruction does to the CPU state and the
/// memory: one arm per handled opcode class, following the documented
/// hardware rules; a class without a handler is the execute-stage error.
pub open spec fn spec_execute(cpu: CpuState, mem: Seq<u8>) -> Result<
    (CpuState, Seq<u8>),
    ExecutionError,
> {
    let dr = cpu.decode_register;
    let v = dr.value_final->0;
    match dr.info.opcode_class {
        OpcodeClass::ADC => Ok((spec_exec_adc(cpu), mem)),
        OpcodeClass::AND => Ok((spec_set_a(cpu, cpu.a & v, spec_adv(cpu)), mem)),
        OpcodeClass::ASL => Ok((spec_exec_asl(cpu), mem)),
        OpcodeClass::BCC => Ok((spec_branch(cpu, !cpu.C), mem)),
        OpcodeClass::BCS => Ok((spec_branch(cpu, cpu.C), mem)),
        OpcodeClass::BEQ => Ok((spec_branch(cpu, cpu.Z), mem)),
        OpcodeClass::BIT => Ok((spec_exec_bit(cpu), mem)),
        OpcodeClass::BMI => Ok((spec_branch(cpu, cpu.S), mem)),
        OpcodeClass::BNE => Ok((spec_branch(cpu, !cpu.Z), mem)),
        OpcodeClass::BPL => Ok((spec_branch(cpu, !cpu.S), mem)),
        OpcodeClass::BVC => Ok((spec_branch(cpu, !cpu.V), mem)),
        OpcodeClass::BVS => Ok((spec_branch(cpu, cpu.V), mem)),
        OpcodeClass::CMP => Ok((spec_compare(cpu, cpu.a, v), mem)),
        OpcodeClass::CLC => Ok((CpuState { C: false, pc: spec_adv(cpu), ..cpu }, mem)),
        OpcodeClass::CLD => Ok((CpuState { D: false, pc: spec_adv(cpu), ..cpu }, mem)),
        OpcodeClass::CLV => Ok((CpuState { V: false, pc: spec_adv(cpu), ..cpu }, mem)),
        OpcodeClass::CPX => Ok((spec_compare(cpu, cpu.x, v), mem)),
        OpcodeClass::CPY => Ok((spec_compare(cpu, cpu.y, v), mem)),
        OpcodeClass::DEX => Ok((spec_set_x(cpu, spec_dec8(cpu.x), spec_adv(cpu)), mem)),
        OpcodeClass::DEY => Ok((spec_set_y(cpu, spec_dec8(cpu.y), spec_adv(cpu)), mem)),
        OpcodeClass::EOR => Ok((spec_set_a(cpu, cpu.a ^ v, spec_adv(cpu)), mem)),
        OpcodeClass::INX => Ok((spec_set_x(cpu, spec_inc8(cpu.x), spec_adv(cpu)), mem)),
        OpcodeClass::INY => Ok((spec_set_y(cpu, spec_inc8(cpu.y), spec_adv(cpu)), mem)),
        OpcodeClass::LDA => Ok((spec_set_a(cpu, v, spec_adv(cpu)), mem)),
        OpcodeClass::LDX => Ok((spec_set_x(cpu, v, spec_adv(cpu)), mem)),
        OpcodeClass::LDY => Ok((spec_set_y(cpu, v, spec_adv(cpu)), mem)),
        OpcodeClass::LSR => Ok((spec_exec_lsr(cpu), mem)),
        OpcodeClass::JMP => Ok((
            CpuState { pc: cpu.decode_register.addr_final->0, ..cpu },
            mem,
        )),
        OpcodeClass::JSR => Ok(spec_exec_jsr(cpu, mem)),
        OpcodeClass::NOP => Ok((CpuState { pc: spec_adv(cpu), ..cpu }, mem)),
        OpcodeClass::ORA => Ok((spec_set_a(cpu, cpu.a | v, spec_adv(cpu)), mem)),
        OpcodeClass::PHA => Ok(spec_exec_push8(cpu, mem, cpu.a)),
        OpcodeClass::PHP => Ok(spec_exec_push8(cpu, mem, spec_flags_byte(cpu) | 0x30)),
        OpcodeClass::PLA => Ok((
            spec_set_a(
                CpuState { sp: spec_inc8(cpu.sp), ..cpu },
                spec_pull8_value(cpu, mem),
                spec_adv(cpu),
            ),
            mem,
        )),
        OpcodeClass::PLP => Ok((
            CpuState {
                sp: spec_inc8(cpu.sp),
                pc: spec_adv(cpu),
                ..spec_with_flags_from(cpu, (spec_pull8_value(cpu, mem) & 0xEF) | 0x20)
            },
            mem,
        )),
        OpcodeClass::RTS => Ok((spec_exec_rts(cpu, mem), mem)),
        OpcodeClass::SBC => Ok((spec_exec_sbc(cpu), mem)),
        OpcodeClass::SEC => Ok((CpuState { C: true, pc: spec_adv(cpu), ..cpu }, mem)),
        OpcodeClass::SED => Ok((CpuState { D: true, pc: spec_adv(cpu), ..cpu }, mem)),
        OpcodeClass::SEI => Ok((CpuState { I: true, pc: spec_adv(cpu), ..cpu }, mem)),
        OpcodeClass::STA => spec_exec_store(cpu, mem, cpu.a),
        OpcodeClass::STX => spec_exec_store(cpu, mem, cpu.x),
        OpcodeClass::TAX => Ok((spec_set_x(cpu, cpu.a, spec_adv(cpu)), mem)),
        OpcodeClass::TAY => Ok((spec_set_y(cpu, cpu.a, spec_adv(cpu)), mem)),
        OpcodeClass::TSX => Ok((spec_set_x(cpu, cpu.sp, spec_adv(cpu)), mem)),
        OpcodeClass::TXS => Ok((CpuState { sp: cpu.x, pc: spec_adv(cpu), ..cpu }, mem)),
        OpcodeClass::TXA => Ok((spec_set_a(cpu, cpu.x, spec_adv(cpu)), mem)),
        OpcodeClass::TYA => Ok((spec_set_a(cpu, cpu.y, spec_adv(cpu)), mem)),
        _ => Err(ExecutionError::UnexpectedOpcode(dr.info.opcode_class)),
    }
}


/// Whether the fetch of the opcode byte and every decode-time read
/// succeed, so that `fetch_and_decode` runs to completion.
pub open spec fn spec_fetch_pre(table: Seq<OpcodeExecInfo>, cpu: CpuState, mem: Seq<u8>) -> bool {
    spec_can_read8(cpu.pc) && {
        let info = table[spec_byte_at(mem, cpu.pc) as int];
        info.address_mode is Unspecified || spec_decode_ok(info, cpu.pc, cpu.x, cpu.y, mem)
    }
}

/// The CPU state after a successful fetch and decode: the opcode byte in
/// the instruction register, the resolved decode register, and the
/// one-byte fetch advance of the program counter.
pub open spec fn spec_after_fetch(
    table: Seq<OpcodeExecInfo>,
    cpu: CpuState,
    mem: Seq<u8>,
) -> CpuState {
    let ir = spec_byte_at(mem, cpu.pc);
    CpuState {
        instruction_register: ir,
        decode_register: spec_decode(table[ir as int], cpu.pc, cpu.x, cpu.y, mem),
        pc: spec_wrap16(cpu.pc + 1),
        ..cpu
    }
}

/// Whether a whole step runs to completion: the fetch and decode reads
/// succeed, and if decode succeeds the execute stage's own precondition
/// holds of the decoded state.
pub open spec fn spec_step_pre(table: Seq<OpcodeExecInfo>, cpu: CpuState, mem: Seq<u8>) -> bool {
    spec_fetch_pre(table, cpu, mem) && {
        let info = table[spec_byte_at(mem, cpu.pc) as int];
        !(info.address_mode is Unspecified) ==> spec_execute_pre(
            spec_after_fetch(table, cpu, mem),
            mem,
        )
    }
}

/// What one whole step returns and leaves behind: the decode-stage error
/// for an addressing mode outside the closed set, else what the execute
/// stage makes of the freshly decoded state.
pub open spec fn spec_step(table: Seq<OpcodeExecInfo>, cpu: CpuState, mem: Seq<u8>) -> Result<
    (CpuState, Seq<u8>),
    ExecutionError,
> {
    let info = table[spec_byte_at(mem, cpu.pc) as int];
    if info.address_mode is Unspecified {
        Err(ExecutionError::UnexpectedAddressMode(AddressMode::Unspecified))
    } else {
        spec_execute(spec_after_fetch(table, cpu, mem), mem)
    }
}

/// The register file after power-on or reset: the program counter comes
/// from the reset vector, the stack pointer is 0xFD, and the flags unpack
/// from 0x24 (interrupt-disable set, everything else clear).
pub open spec fn spec_reset_state(cpu: CpuState, mem: Seq<u8>) -> CpuState {
    CpuState { pc: spec_word_at(mem, 0xFFFC), sp: 0xFD, ..spec_with_flags_from(cpu, 0x24) }
}

/// 16-bit add with wraparound at the 64KB boundary.
fn wrap16_add(a: u16, b: u16) -> (r: u16)
    ensures
        r == spec_wrap16(a + b),
{
    (((a as u32) + (b as u32)) % 65536) as u16
}

/// The generic program-counter advance: `length - 1` bytes, wrapping.
fn advance_pc(pc: u16, len: u8) -> (r: u16)
    requires
        len >= 1,
    ensures
        r == spec_wrap16(pc + len - 1),
{
    ((pc as u32 + len as u32 - 1) % 65536) as u16
}

/// 8-bit increment with wraparound.
fn inc8(v: u8) -> (r: u8)
    ensures
        r == spec_inc8(v),
{
    if v == 255 {
        0
    } else {
        v + 1
    }
}

/// 8-bit decrement with wraparound.
fn dec8(v: u8) -> (r: u8)
    ensures
        r == spec_dec8(v),
{
    if v == 0 {
        255
    } else {
        v - 1
    }
}

/// Page-1 address of the stack slot for a given stack pointer.
fn stack_addr(sp: u8) -> (r: u16)
    ensures
        r == spec_stack_addr(sp),
{
    0x100 + (sp as u16)
}

impl CpuExecutor {
    /// The opcode table the executor dispatches on.
    pub closed spec fn table(&self) -> Seq<OpcodeExecInfo> {
        self.op_table@
    }

    /// The table holds one entry per opcode byte value, so any fetched
    /// byte has a descriptor.
    pub open spec fn wf(&self) -> bool {
        self.table().len() == 256
    }

    /// Construct a new CpuExecutor around a full 256-entry opcode table.
    pub fn new(opcodes: Vec<OpcodeExecInfo>) -> (r: CpuExecutor)
        requires
            opcodes@.len() == 256,
        ensures
            r.wf(),
            r.table() == opcodes@,
    {
        CpuExecutor { op_table: opcodes }
    }

    /// Power on: identical to reset.
    pub fn power_on(&self, cpu_state: &mut CpuState, mem: &mut Memory)
        requires
            old(mem).wf(),
        ensures
            final(mem).wf(),
            final(mem)@ == old(mem)@,
            *final(cpu_state) == spec_reset_state(*old(cpu_state), old(mem)@),
    {
        self.reset(cpu_state, mem);
    }

    /// Reset the given cpu_state: load the program counter from the reset
    /// vector, set the stack pointer to 0xFD and the flags from 0x24.
    pub fn reset(&self, cpu_state: &mut CpuState, mem: &mut Memory)
        requires
            old(mem).wf(),
        ensures
            final(mem).wf(),
            final(mem)@ == old(mem)@,
            *final(cpu_state) == spec_reset_state(*old(cpu_state), old(mem)@),
    {
        cpu_state.pc = mem.read16(0xFFFC).unwrap();
        cpu_state.sp = 0xFD;
        cpu_state.pack_flags(0x24);
    }

    /// Execute a single instruction in the given memory and cpu_state
    /// context: fetch and decode, then execute.
    pub fn step(&self, cpu_state: &mut CpuState, mem: &mut Memory) -> (r: Result<
        (),
        ExecutionError,
    >)
        requires
            self.wf(),
            old(mem).wf(),
            spec_step_pre(self.table(), *old(cpu_state), old(mem)@),
        ensures
            final(mem).wf(),
            match spec_step(self.table(), *old(cpu_state), old(mem)@) {
                Ok((c, m)) => r is Ok && *final(cpu_state) == c && final(mem)@ == m,
                Err(e) => r == Err::<(), ExecutionError>(e) && final(mem)@ == old(mem)@ && (
                if self.table()[spec_byte_at(old(mem)@, old(cpu_state).pc) as int].address_mode
                    is Unspecified {
                    *final(cpu_state) == CpuState {
                        instruction_register: spec_byte_at(old(mem)@, old(cpu_state).pc),
                        ..*old(cpu_state)
                    }
                } else {
                    *final(cpu_state) == spec_after_fetch(
                        self.table(),
                        *old(cpu_state),
                        old(mem)@,
                    )
                }),
            },
    {
        match self.fetch_and_decode(cpu_state, mem) {
            Ok(_) => {},
            Err(e) => {
                return Err(e);
            },
        }
        match self.execute(cpu_state, mem) {
            Ok(_) => {},
            Err(e) => {
                return Err(e);
            },
        }
        Ok(())
    }

    /// Fetch the next instruction and perform address resolution. On the
    /// decode-stage error the instruction register is already updated but
    /// the decode register and program counter are untouched.
    pub fn fetch_and_decode(&self, cpu_state: &mut CpuState, mem: &mut Memory) -> (r: Result<
        (),
        ExecutionError,
    >)
        requires
            self.wf(),
            old(mem).wf(),
            spec_fetch_pre(self.table(), *old(cpu_state), old(mem)@),
        ensures
            final(mem).wf(),
            final(mem)@ == old(mem)@,
            ({
                let ir = spec_byte_at(old(mem)@, old(cpu_state).pc);
                if self.table()[ir as int].address_mode is Unspecified {
                    r == Err::<(), ExecutionError>(
                        ExecutionError::UnexpectedAddressMode(AddressMode::Unspecified),
                    ) && *final(cpu_state) == CpuState {
                        instruction_register: ir,
                        ..*old(cpu_state)
                    }
                } else {
                    r is Ok && *final(cpu_state) == spec_after_fetch(
                        self.table(),
                        *old(cpu_state),
                        old(mem)@,
                    )
                }
            }),
    {
        cpu_state.instruction_register = mem.read8(cpu_state.pc).unwrap();
        let dr = match self.decode(cpu_state, mem) {
            Ok(d) => d,
            Err(e) => {
                return Err(e);
            },
        };
        cpu_state.decode_register = dr;
        cpu_state.pc = wrap16_add(cpu_state.pc, 1);
        Ok(())
    }

    /// Perform the decoded instruction against the registers and memory.
    /// An opcode class without a handler is the distinct execute-stage
    /// error and leaves the state untouched, as does a store into an
    /// unimplemented bus region. Dispatch is split into one handler group
    /// per kind of instruction.
    pub fn execute(&self, cpu_state: &mut CpuState, mem: &mut Memory) -> (r: Result<
        (),
        ExecutionError,
    >)
        requires
            old(mem).wf(),
            spec_execute_pre(*old(cpu_state), old(mem)@),
        ensures
            final(mem).wf(),
            match spec_execute(*old(cpu_state), old(mem)@) {
                Ok((c, m)) => r is Ok && *final(cpu_state) == c && final(mem)@ == m,
                Err(e) => r == Err::<(), ExecutionError>(e) && *final(cpu_state) == *old(
                    cpu_state,
                ) && final(mem)@ == old(mem)@,
            },
    {
        match cpu_state.decode_register.info.opcode_class {
            OpcodeClass::ADC
            | OpcodeClass::SBC
            | OpcodeClass::AND
            | OpcodeClass::EOR
            | OpcodeClass::ORA
            | OpcodeClass::ASL
            | OpcodeClass::LSR
            | OpcodeClass::BIT
            | OpcodeClass::CMP
            | OpcodeClass::CPX
            | OpcodeClass::CPY => self.execute_arithmetic(cpu_state, mem),
            OpcodeClass::BCC
            | OpcodeClass::BCS
            | OpcodeClass::BEQ
            | OpcodeClass::BNE
            | OpcodeClass::BMI
            | OpcodeClass::BPL
            | OpcodeClass::BVC
            | OpcodeClass::BVS
            | OpcodeClass::JMP
            | OpcodeClass::JSR
            | OpcodeClass::RTS => self.execute_control_flow(cpu_state, mem),
            OpcodeClass::LDA
            | OpcodeClass::LDX
            | OpcodeClass::LDY
            | OpcodeClass::DEX
            | OpcodeClass::DEY
            | OpcodeClass::INX
            | OpcodeClass::INY
            | OpcodeClass::TAX
            | OpcodeClass::TAY
            | OpcodeClass::TSX
            | OpcodeClass::TXS
            | OpcodeClass::TXA
            | OpcodeClass::TYA => self.execute_register_moves(cpu_state, mem),
            OpcodeClass::CLC
            | OpcodeClass::CLD
            | OpcodeClass::CLV
            | OpcodeClass::SEC
            | OpcodeClass::SED
            | OpcodeClass::SEI
            | OpcodeClass::NOP
            | OpcodeClass::PHA
            | OpcodeClass::PHP
            | OpcodeClass::PLA
            | OpcodeClass::PLP
            | OpcodeClass::STA
            | OpcodeClass::STX => self.execute_flags_stack_store(cpu_state, mem),
            _ => Err(
                ExecutionError::UnexpectedOpcode(cpu_state.decode_register.info.opcode_class),
            ),
        }
    }

    /// Handlers of the arithmetic, logic, shift, bit-test and compare classes.
    #[verifier::spinoff_prover]
    #[verifier::rlimit(60)]
    fn execute_arithmetic(&self, cpu_state: &mut CpuState, mem: &mut Memory) -> (r: Result<
        (),
        ExecutionError,
    >)
        requires
            old(mem).wf(),
            spec_execute_pre(*old(cpu_state), old(mem)@),
            old(cpu_state).decode_register.info.opcode_class is ADC || old(cpu_state).decode_register.info.opcode_class is SBC || old(cpu_state).decode_register.info.opcode_class is AND || old(cpu_state).decode_register.info.opcode_class is EOR || old(cpu_state).decode_register.info.opcode_class is ORA || old(cpu_state).decode_register.info.opcode_class is ASL || old(cpu_state).decode_register.info.opcode_class is LSR || old(cpu_state).decode_register.info.opcode_class is BIT || old(cpu_state).decode_register.info.opcode_class is CMP || old(cpu_state).decode_register.info.opcode_class is CPX || old(cpu_state).decode_register.info.opcode_class is CPY,
        ensures
            final(mem).wf(),
            match spec_execute(*old(cpu_state), old(mem)@) {
                Ok((c, m)) => r is Ok && *final(cpu_state) == c && final(mem)@ == m,
                Err(e) => r == Err::<(), ExecutionError>(e) && *final(cpu_state) == *old(
                    cpu_state,
                ) && final(mem)@ == old(mem)@,
            },
    {
        match cpu_state.decode_register.info.opcode_class {
            OpcodeClass::ADC => {
                let a = cpu_state.a;
                let b = cpu_state.decode_register.value_final.unwrap();
                let cin: u16 = if cpu_state.C {
                    1
                } else {
                    0
                };
                let sum: u16 = a as u16 + b as u16 + cin;
                cpu_state.a = (sum % 256) as u8;
                cpu_state.Z = cpu_state.a == 0;
                cpu_state.S = cpu_state.a >= 0x80;
                cpu_state.C = sum > 0xFF;
                cpu_state.V = ((a ^ b) & 0x80) == 0 && ((a ^ cpu_state.a) & 0x80) != 0;
                cpu_state.pc = advance_pc(cpu_state.pc, cpu_state.decode_register.info.len);
            },
            OpcodeClass::SBC => {
                let a = cpu_state.a;
                let b = cpu_state.decode_register.value_final.unwrap();
                let borrow: u16 = if cpu_state.C {
                    0
                } else {
                    1
                };
                let t: u16 = a as u16 + 512 - b as u16 - borrow;
                cpu_state.a = (t % 256) as u8;
                cpu_state.Z = cpu_state.a == 0;
                cpu_state.S = cpu_state.a >= 0x80;
                cpu_state.C = a as u16 >= b as u16 + borrow;
                cpu_state.V = ((a ^ b) & 0x80) != 0 && ((a ^ cpu_state.a) & 0x80) != 0;
                cpu_state.pc = advance_pc(cpu_state.pc, cpu_state.decode_register.info.len);
            },
            OpcodeClass::AND => {
                cpu_state.a = cpu_state.a & cpu_state.decode_register.value_final.unwrap();
                cpu_state.Z = cpu_state.a == 0;
                cpu_state.S = cpu_state.a >= 0x80;
                cpu_state.pc = advance_pc(cpu_state.pc, cpu_state.decode_register.info.len);
            },
            OpcodeClass::EOR => {
                cpu_state.a = cpu_state.a ^ cpu_state.decode_register.value_final.unwrap();
                cpu_state.Z = cpu_state.a == 0;
                cpu_state.S = cpu_state.a >= 0x80;
                cpu_state.pc = advance_pc(cpu_state.pc, cpu_state.decode_register.info.len);
            },
            OpcodeClass::ORA => {
                cpu_state.a = cpu_state.a | cpu_state.decode_register.value_final.unwrap();
                cpu_state.Z = cpu_state.a == 0;
                cpu_state.S = cpu_state.a >= 0x80;
                cpu_state.pc = advance_pc(cpu_state.pc, cpu_state.decode_register.info.len);
            },
            OpcodeClass::ASL => {
                let a = cpu_state.a;
                cpu_state.a = a << 1u8;
                cpu_state.C = a >= 0x80;
                cpu_state.Z = cpu_state.a == 0;
                cpu_state.S = cpu_state.a >= 0x80;
                cpu_state.pc = advance_pc(cpu_state.pc, cpu_state.decode_register.info.len);
            },
            OpcodeClass::LSR => {
                let a = cpu_state.a;
                cpu_state.a = a >> 1u8;
                cpu_state.C = (a & 1) == 1;
                cpu_state.Z = cpu_state.a == 0;
                cpu_state.S = cpu_state.a >= 0x80;
                cpu_state.pc = advance_pc(cpu_state.pc, cpu_state.decode_register.info.len);
            },
            OpcodeClass::BIT => {
                let v = cpu_state.decode_register.value_final.unwrap();
                cpu_state.V = ((v >> 6u8) & 1) > 0;
                cpu_state.Z = (v & cpu_state.a) == 0;
                cpu_state.S = v >= 0x80;
                cpu_state.pc = advance_pc(cpu_state.pc, cpu_state.decode_register.info.len);
            },
            OpcodeClass::CMP => {
                let reg = cpu_state.a;
                let o = cpu_state.decode_register.value_final.unwrap();
                self.compare(cpu_state, reg, o);
            },
            OpcodeClass::CPX => {
                let reg = cpu_state.x;
                let o = cpu_state.decode_register.value_final.unwrap();
                self.compare(cpu_state, reg, o);
            },
            OpcodeClass::CPY => {
                let reg = cpu_state.y;
                let o = cpu_state.decode_register.value_final.unwrap();
                self.compare(cpu_state, reg, o);
            },
            _ => {
                proof {
                    assert(false);
                }
                return Err(
                    ExecutionError::UnexpectedOpcode(cpu_state.decode_register.info.opcode_class),
                );
            },
        }
        Ok(())
    }

    /// Handlers of the branch, jump and subroutine classes, which set the
    /// program counter directly instead of the generic advance.
    #[verifier::spinoff_prover]
    #[verifier::rlimit(60)]
    fn execute_control_flow(&self, cpu_state: &mut CpuState, mem: &mut Memory) -> (r: Result<
        (),
        ExecutionError,
    >)
        requires
            old(mem).wf(),
            spec_execute_pre(*old(cpu_state), old(mem)@),
            old(cpu_state).decode_register.info.opcode_class is BCC || old(cpu_state).decode_register.info.opcode_class is BCS || old(cpu_state).decode_register.info.opcode_class is BEQ || old(cpu_state).decode_register.info.opcode_class is BNE || old(cpu_state).decode_register.info.opcode_class is BMI || old(cpu_state).decode_register.info.opcode_class is BPL || old(cpu_state).decode_register.info.opcode_class is BVC || old(cpu_state).decode_register.info.opcode_class is BVS || old(cpu_state).decode_register.info.opcode_class is JMP || old(cpu_state).decode_register.info.opcode_class is JSR || old(cpu_state).decode_register.info.opcode_class is RTS,
        ensures
            final(mem).wf(),
            match spec_execute(*old(cpu_state), old(mem)@) {
                Ok((c, m)) => r is Ok && *final(cpu_state) == c && final(mem)@ == m,
                Err(e) => r == Err::<(), ExecutionError>(e) && *final(cpu_state) == *old(
                    cpu_state,
                ) && final(mem)@ == old(mem)@,
            },
    {
        match cpu_state.decode_register.info.opcode_class {
            OpcodeClass::BCC => {
                let cond = !cpu_state.C;
                self.branch(cpu_state, cond);
            },
            OpcodeClass::BCS => {
                let cond = cpu_state.C;
                self.branch(cpu_state, cond);
            },
            OpcodeClass::BEQ => {
                let cond = cpu_state.Z;
                self.branch(cpu_state, cond);
            },
            OpcodeClass::BNE => {
                let cond = !cpu_state.Z;
                self.branch(cpu_state, cond);
            },
            OpcodeClass::BMI => {
                let cond = cpu_state.S;
                self.branch(cpu_state, cond);
            },
            OpcodeClass::BPL => {
                let cond = !cpu_state.S;
                self.branch(cpu_state, cond);
            },
            OpcodeClass::BVC => {
                let cond = !cpu_state.V;
                self.branch(cpu_state, cond);
            },
            OpcodeClass::BVS => {
                let cond = cpu_state.V;
                self.branch(cpu_state, cond);
            },
            OpcodeClass::JMP => {
                cpu_state.pc = cpu_state.decode_register.addr_final.unwrap();
            },
            OpcodeClass::JSR => {
                let ret = wrap16_add(cpu_state.pc, 1);
                let a = 0x100 + (cpu_state.sp as u16) - 1;
                match mem.write16(a, ret) {
                    Ok(_) => {},
                    Err(e) => {
                        proof {
                            assert(false);
                        }
                        return Err(ExecutionError::MemoryError(e));
                    },
                }
                cpu_state.sp = dec8(dec8(cpu_state.sp));
                cpu_state.pc = cpu_state.decode_register.addr_final.unwrap();
            },
            OpcodeClass::RTS => {
                let sp2 = inc8(inc8(cpu_state.sp));
                cpu_state.sp = sp2;
                let a = 0x100 + (sp2 as u16) - 1;
                let v = mem.read16(a).unwrap();
                cpu_state.pc = wrap16_add(v, 1);
            },
            _ => {
                proof {
                    assert(false);
                }
                return Err(
                    ExecutionError::UnexpectedOpcode(cpu_state.decode_register.info.opcode_class),
                );
            },
        }
        Ok(())
    }

    /// Handlers of the load, increment/decrement and transfer classes.
    #[verifier::spinoff_prover]
    #[verifier::rlimit(60)]
    fn execute_register_moves(&self, cpu_state: &mut CpuState, mem: &mut Memory) -> (r: Result<
        (),
        ExecutionError,
    >)
        requires
            old(mem).wf(),
            spec_execute_pre(*old(cpu_state), old(mem)@),
            old(cpu_state).decode_register.info.opcode_class is LDA || old(cpu_state).decode_register.info.opcode_class is LDX || old(cpu_state).decode_register.info.opcode_class is LDY || old(cpu_state).decode_register.info.opcode_class is DEX || old(cpu_state).decode_register.info.opcode_class is DEY || old(cpu_state).decode_register.info.opcode_class is INX || old(cpu_state).decode_register.info.opcode_class is INY || old(cpu_state).decode_register.info.opcode_class is TAX || old(cpu_state).decode_register.info.opcode_class is TAY || old(cpu_state).decode_register.info.opcode_class is TSX || old(cpu_state).decode_register.info.opcode_class is TXS || old(cpu_state).decode_register.info.opcode_class is TXA || old(cpu_state).decode_register.info.opcode_class is TYA,
        ensures
            final(mem).wf(),
            match spec_execute(*old(cpu_state), old(mem)@) {
                Ok((c, m)) => r is Ok && *final(cpu_state) == c && final(mem)@ == m,
                Err(e) => r == Err::<(), ExecutionError>(e) && *final(cpu_state) == *old(
                    cpu_state,
                ) && final(mem)@ == old(mem)@,
            },
    {
        match cpu_state.decode_register.info.opcode_class {
            OpcodeClass::LDA => {
                cpu_state.a = cpu_state.decode_register.value_final.unwrap();
                cpu_state.Z = cpu_state.a == 0;
                cpu_state.S = cpu_state.a >= 0x80;
                cpu_state.pc = advance_pc(cpu_state.pc, cpu_state.decode_register.info.len);
            },
            OpcodeClass::LDX => {
                cpu_state.x = cpu_state.decode_register.value_final.unwrap();
                cpu_state.Z = cpu_state.x == 0;
                cpu_state.S = cpu_state.x >= 0x80;
                cpu_state.pc = advance_pc(cpu_state.pc, cpu_state.decode_register.info.len);
            },
            OpcodeClass::LDY => {
                cpu_state.y = cpu_state.decode_register.value_final.unwrap();
                cpu_state.Z = cpu_state.y == 0;
                cpu_state.S = cpu_state.y >= 0x80;
                cpu_state.pc = advance_pc(cpu_state.pc, cpu_state.decode_register.info.len);
            },
            OpcodeClass::DEX => {
                cpu_state.x = dec8(cpu_state.x);
                cpu_state.Z = cpu_state.x == 0;
                cpu_state.S = cpu_state.x >= 0x80;
                cpu_state.pc = advance_pc(cpu_state.pc, cpu_state.decode_register.info.len);
            },
            OpcodeClass::DEY => {
                cpu_state.y = dec8(cpu_state.y);
                cpu_state.Z = cpu_state.y == 0;
                cpu_state.S = cpu_state.y >= 0x80;
                cpu_state.pc = advance_pc(cpu_state.pc, cpu_state.decode_register.info.len);
            },
            OpcodeClass::INX => {
                cpu_state.x = inc8(cpu_state.x);
                cpu_state.Z = cpu_state.x == 0;
                cpu_state.S = cpu_state.x >= 0x80;
                cpu_state.pc = advance_pc(cpu_state.pc, cpu_state.decode_register.info.len);
            },
            OpcodeClass::INY => {
                cpu_state.y = inc8(cpu_state.y);
                cpu_state.Z = cpu_state.y == 0;
                cpu_state.S = cpu_state.y >= 0x80;
                cpu_state.pc = advance_pc(cpu_state.pc, cpu_state.decode_register.info.len);
            },
            OpcodeClass::TAX => {
                cpu_state.x = cpu_state.a;
                cpu_state.Z = cpu_state.x == 0;
                cpu_state.S = cpu_state.x >= 0x80;
                cpu_state.pc = advance_pc(cpu_state.pc, cpu_state.decode_register.info.len);
            },
            OpcodeClass::TAY => {
                cpu_state.y = cpu_state.a;
                cpu_state.Z = cpu_state.y == 0;
                cpu_state.S = cpu_state.y >= 0x80;
                cpu_state.pc = advance_pc(cpu_state.pc, cpu_state.decode_register.info.len);
            },
            OpcodeClass::TSX => {
                cpu_state.x = cpu_state.sp;
                cpu_state.Z = cpu_state.x == 0;
                cpu_state.S = cpu_state.x >= 0x80;
                cpu_state.pc = advance_pc(cpu_state.pc, cpu_state.decode_register.info.len);
            },
            OpcodeClass::TXS => {
                cpu_state.sp = cpu_state.x;
                cpu_state.pc = advance_pc(cpu_state.pc, cpu_state.decode_register.info.len);
            },
            OpcodeClass::TXA => {
                cpu_state.a = cpu_state.x;
                cpu_state.Z = cpu_state.a == 0;
                cpu_state.S = cpu_state.a >= 0x80;
                cpu_state.pc = advance_pc(cpu_state.pc, cpu_state.decode_register.info.len);
            },
            OpcodeClass::TYA => {
                cpu_state.a = cpu_state.y;
                cpu_state.Z = cpu_state.a == 0;
                cpu_state.S = cpu_state.a >= 0x80;
                cpu_state.pc = advance_pc(cpu_state.pc, cpu_state.decode_register.info.len);
            },
            _ => {
                proof {
                    assert(false);
                }
                return Err(
                    ExecutionError::UnexpectedOpcode(cpu_state.decode_register.info.opcode_class),
                );
            },
        }
        Ok(())
    }

    /// Handlers of the flag set/clear, no-op, stack push/pull and store
    /// classes.
    #[verifier::spinoff_prover]
    #[verifier::rlimit(60)]
    fn execute_flags_stack_store(&self, cpu_state: &mut CpuState, mem: &mut Memory) -> (r: Result<
        (),
        ExecutionError,
    >)
        requires
            old(mem).wf(),
            spec_execute_pre(*old(cpu_state), old(mem)@),
            old(cpu_state).decode_register.info.opcode_class is CLC || old(cpu_state).decode_register.info.opcode_class is CLD || old(cpu_state).decode_register.info.opcode_class is CLV || old(cpu_state).decode_register.info.opcode_class is SEC || old(cpu_state).decode_register.info.opcode_class is SED || old(cpu_state).decode_register.info.opcode_class is SEI || old(cpu_state).decode_register.info.opcode_class is NOP || old(cpu_state).decode_register.info.opcode_class is PHA || old(cpu_state).decode_register.info.opcode_class is PHP || old(cpu_state).decode_register.info.opcode_class is PLA || old(cpu_state).decode_register.info.opcode_class is PLP || old(cpu_state).decode_register.info.opcode_class is STA || old(cpu_state).decode_register.info.opcode_class is STX,
        ensures
            final(mem).wf(),
            match spec_execute(*old(cpu_state), old(mem)@) {
                Ok((c, m)) => r is Ok && *final(cpu_state) == c && final(mem)@ == m,
                Err(e) => r == Err::<(), ExecutionError>(e) && *final(cpu_state) == *old(
                    cpu_state,
                ) && final(mem)@ == old(mem)@,
            },
    {
        match cpu_state.decode_register.info.opcode_class {
            OpcodeClass::CLC => {
                cpu_state.C = false;
                cpu_state.pc = advance_pc(cpu_state.pc, cpu_state.decode_register.info.len);
            },
            OpcodeClass::CLD => {
                cpu_state.D = false;
                cpu_state.pc = advance_pc(cpu_state.pc, cpu_state.decode_register.info.len);
            },
            OpcodeClass::CLV => {
                cpu_state.V = false;
                cpu_state.pc = advance_pc(cpu_state.pc, cpu_state.decode_register.info.len);
            },
            OpcodeClass::SEC => {
                cpu_state.C = true;
                cpu_state.pc = advance_pc(cpu_state.pc, cpu_state.decode_register.info.len);
            },
            OpcodeClass::SED => {
                cpu_state.D = true;
                cpu_state.pc = advance_pc(cpu_state.pc, cpu_state.decode_register.info.len);
            },
            OpcodeClass::SEI => {
                cpu_state.I = true;
                cpu_state.pc = advance_pc(cpu_state.pc, cpu_state.decode_register.info.len);
            },
            OpcodeClass::NOP => {
                cpu_state.pc = advance_pc(cpu_state.pc, cpu_state.decode_register.info.len);
            },
            OpcodeClass::PHA => {
                let v = cpu_state.a;
                self.push8(cpu_state, mem, v);
            },
            // the pushed flag byte has bits 4 and 5 set
            OpcodeClass::PHP => {
                let v = cpu_state.unpack_flags() | 0x30;
                self.push8(cpu_state, mem, v);
            },
            OpcodeClass::PLA => {
                cpu_state.sp = inc8(cpu_state.sp);
                cpu_state.a = mem.read8(stack_addr(cpu_state.sp)).unwrap();
                cpu_state.Z = cpu_state.a == 0;
                cpu_state.S = cpu_state.a >= 0x80;
                cpu_state.pc = advance_pc(cpu_state.pc, cpu_state.decode_register.info.len);
            },
            // the pulled flag byte has bit 4 masked off and bit 5 forced
            OpcodeClass::PLP => {
                cpu_state.sp = inc8(cpu_state.sp);
                let v = mem.read8(stack_addr(cpu_state.sp)).unwrap();
                cpu_state.pack_flags((v & 0xEF) | 0x20);
                cpu_state.pc = advance_pc(cpu_state.pc, cpu_state.decode_register.info.len);
            },
            OpcodeClass::STA => {
                let v = cpu_state.a;
                match self.store(cpu_state, mem, v) {
                    Ok(_) => {},
                    Err(e) => {
                        return Err(e);
                    },
                }
            },
            OpcodeClass::STX => {
                let v = cpu_state.x;
                match self.store(cpu_state, mem, v) {
                    Ok(_) => {},
                    Err(e) => {
                        return Err(e);
                    },
                }
            },
            _ => {
                proof {
                    assert(false);
                }
                return Err(
                    ExecutionError::UnexpectedOpcode(cpu_state.decode_register.info.opcode_class),
                );
            },
        }
        Ok(())
    }

    /// Shared branch handler: jump to the resolved target when the tested
    /// condition holds, else apply the generic advance.
    fn branch(&self, cpu_state: &mut CpuState, cond: bool)
        requires
            old(cpu_state).decode_register.addr_final is Some,
            old(cpu_state).decode_register.info.len >= 1,
        ensures
            *final(cpu_state) == spec_branch(*old(cpu_state), cond),
    {
        if cond {
            cpu_state.pc = cpu_state.decode_register.addr_final.unwrap();
        } else {
            cpu_state.pc = advance_pc(cpu_state.pc, cpu_state.decode_register.info.len);
        }
    }

    /// Shared compare handler for CMP, CPX and CPY.
    fn compare(&self, cpu_state: &mut CpuState, reg: u8, o: u8)
        requires
            old(cpu_state).decode_register.info.len >= 1,
        ensures
            *final(cpu_state) == spec_compare(*old(cpu_state), reg, o),
    {
        let d = (((reg as u16) + 256 - (o as u16)) % 256) as u8;
        cpu_state.Z = d == 0;
        cpu_state.S = d >= 0x80;
        cpu_state.C = reg >= o;
        cpu_state.pc = advance_pc(cpu_state.pc, cpu_state.decode_register.info.len);
    }

    /// Shared one-byte stack push for PHA and PHP; a page-1 write always
    /// resolves, so the bus cannot reject it.
    fn push8(&self, cpu_state: &mut CpuState, mem: &mut Memory, v: u8)
        requires
            old(mem).wf(),
            old(cpu_state).decode_register.info.len >= 1,
        ensures
            final(mem).wf(),
            (*final(cpu_state), final(mem)@) == spec_exec_push8(*old(cpu_state), old(mem)@, v),
    {
        match mem.write8(stack_addr(cpu_state.sp), v) {
            Ok(_) => {},
            Err(_) => {
                proof {
                    assert(false);
                }
            },
        }
        cpu_state.sp = dec8(cpu_state.sp);
        cpu_state.pc = advance_pc(cpu_state.pc, cpu_state.decode_register.info.len);
    }

    /// Shared store handler for STA and STX: on a bus region error nothing
    /// changes and the error propagates.
    fn store(&self, cpu_state: &mut CpuState, mem: &mut Memory, v: u8) -> (r: Result<
        (),
        ExecutionError,
    >)
        requires
            old(mem).wf(),
            old(cpu_state).decode_register.addr_final is Some,
            old(cpu_state).decode_register.info.len >= 1,
        ensures
            final(mem).wf(),
            match spec_exec_store(*old(cpu_state), old(mem)@, v) {
                Ok((c, m)) => r is Ok && *final(cpu_state) == c && final(mem)@ == m,
                Err(e) => r == Err::<(), ExecutionError>(e) && *final(cpu_state) == *old(
                    cpu_state,
                ) && final(mem)@ == old(mem)@,
            },
    {
        match mem.write8(cpu_state.decode_register.addr_final.unwrap(), v) {
            Ok(_) => {},
            Err(e) => {
                return Err(ExecutionError::MemoryError(e));
            },
        }
        cpu_state.pc = advance_pc(cpu_state.pc, cpu_state.decode_register.info.len);
        Ok(())
    }

    /// Perform address resolution for the fetched opcode, returning the
    /// info in a DecodeRegister. An addressing mode outside the closed set
    /// is the decode-stage error.
    fn decode(&self, cpu_state: &CpuState, mem: &Memory) -> (r: Result<
        DecodeRegister,
        ExecutionError,
    >)
        requires
            self.wf(),
            mem.wf(),
            ({
                let info = self.table()[cpu_state.instruction_register as int];
                info.address_mode is Unspecified || spec_decode_ok(
                    info,
                    cpu_state.pc,
                    cpu_state.x,
                    cpu_state.y,
                    mem@,
                )
            }),
        ensures
            ({
                let info = self.table()[cpu_state.instruction_register as int];
                if info.address_mode is Unspecified {
                    r == Err::<DecodeRegister, ExecutionError>(
                        ExecutionError::UnexpectedAddressMode(AddressMode::Unspecified),
                    )
                } else {
                    r == Ok::<DecodeRegister, ExecutionError>(
                        spec_decode(info, cpu_state.pc, cpu_state.x, cpu_state.y, mem@),
                    )
                }
            }),
    {
        let info = self.op_table[cpu_state.instruction_register as usize];
        let mut dr = DecodeRegister { info, ..Default::default() };
        let op1 = wrap16_add(cpu_state.pc, 1);
        match dr.info.address_mode {
            // no explicit addresses for the following modes
            AddressMode::Accumulator => {},
            AddressMode::Implied => {},
            // explicit addresses from here on out
            AddressMode::Absolute => {
                let a = mem.read16(op1).unwrap();
                dr.addr_final = Some(a);
                dr.value_final = Some(mem.read8(a).unwrap());
            },
            AddressMode::AbsoluteX => {
                let base = mem.read16(op1).unwrap();
                let a = (((base as u32) + (cpu_state.x as u32)) % 65536) as u16;
                dr.addr_final = Some(a);
                dr.value_final = Some(mem.read8(a).unwrap());
            },
            AddressMode::AbsoluteY => {
                let base = mem.read16(op1).unwrap();
                let a = (((base as u32) + (cpu_state.y as u32)) % 65536) as u16;
                dr.addr_final = Some(a);
                dr.value_final = Some(mem.read8(a).unwrap());
            },
            AddressMode::Immediate => {
                dr.addr_final = Some(op1);
                dr.value_final = Some(mem.read8(op1).unwrap());
            },
            AddressMode::Indirect => {
                let ai = mem.read16(op1).unwrap();
                dr.addr_intermediate = Some(ai);
                dr.addr_final = Some(mem.read16(ai).unwrap());
            },
            AddressMode::IndexedIndirect => {
                let zp = mem.read8(op1).unwrap();
                let ai = (((zp as u16) + (cpu_state.x as u16)) % 256) as u16;
                dr.addr_intermediate = Some(ai);
                let af = mem.read16(ai).unwrap();
                dr.addr_final = Some(af);
                dr.value_final = Some(mem.read8(af).unwrap());
            },
            AddressMode::IndirectIndexed => {
                let a0 = mem.read8(op1).unwrap() as u16;
                dr.addr_init = Some(a0);
                let ai = mem.read16(a0).unwrap();
                dr.addr_intermediate = Some(ai);
                let af = (((ai as u32) + (cpu_state.y as u32)) % 65536) as u16;
                dr.addr_final = Some(af);
                dr.value_final = Some(mem.read8(af).unwrap());
            },
            AddressMode::Relative => {
                let v = mem.read8(op1).unwrap();
                dr.value_final = Some(v);
                // relative is from the end of the 2-byte instruction, so 2
                // is added before the offset; an offset of 0x80 and above
                // is negative, and adding 0xFF00 subtracts 256 modulo 2^16
                let bias: u32 = if v < 0x80 {
                    0
                } else {
                    0xFF00
                };
                let t = ((cpu_state.pc as u32) + 2 + (v as u32) + bias) % 65536;
                dr.addr_final = Some(t as u16);
            },
            AddressMode::ZeroPage => {
                let a = mem.read8(op1).unwrap() as u16;
                dr.addr_final = Some(a);
                dr.value_final = Some(mem.read8(a).unwrap());
            },
            AddressMode::ZeroPageX => {
                let zp = mem.read8(op1).unwrap();
                let a = (((zp as u16) + (cpu_state.x as u16)) % 256) as u16;
                dr.addr_final = Some(a);
                dr.value_final = Some(mem.read8(a).unwrap());
            },
            AddressMode::ZeroPageY => {
                let zp = mem.read8(op1).unwrap();
                let a = (((zp as u16) + (cpu_state.y as u16)) % 256) as u16;
                dr.addr_final = Some(a);
                dr.value_final = Some(mem.read8(a).unwrap());
            },
            AddressMode::Unspecified => {
                return Err(ExecutionError::UnexpectedAddressMode(AddressMode::Unspecified));
            },
        }
        Ok(dr)
    }
}


/// Two's-complement signed reading of a byte.
pub open spec fn spec_signed(v: u8) -> int {
    if v < 0x80 {
        v as int
    } else {
        v - 256
    }
}

/// A low address (RAM, below the first mirror boundary) resolves to
/// itself.
pub proof fn lemma_phys_low(addr: u16)
    requires
        addr < 0x800,
    ensures
        spec_resolve(addr) is Ok,
        spec_phys(addr) == addr,
{
    assert(addr & 0x7FF == addr) by (bit_vector)
        requires
            addr < 0x800,
    ;
}

/// ADC sets the overflow flag exactly when the signed sum of accumulator,
/// operand and carry leaves the signed byte range, for every combination
/// of operand and result signs.
pub proof fn lemma_adc_overflow_correct(a: u8, b: u8, c: bool)
    ensures
        spec_overflow_bit(a, b, spec_adc_result(a, b, c)) <==> !(-128 <= spec_signed(a)
            + spec_signed(b) + spec_flag_term(c, 1) <= 127),
{
    let ci = spec_flag_term(c, 1);
    let t = a + b + ci;
    let r = spec_adc_result(a, b, c);
    assert(r == if t < 256 {
        t
    } else {
        t - 256
    });
    assert((((a ^ b) & 0x80) == 0) <==> ((a < 128) <==> (b < 128))) by (bit_vector);
    assert((((a ^ r) & 0x80) != 0) <==> ((a < 128) != (r < 128))) by (bit_vector);
}

/// SBC sets the overflow flag exactly when the signed difference of
/// accumulator, operand and borrow leaves the signed byte range, for
/// every combination of operand and result signs.
pub proof fn lemma_sbc_overflow_correct(a: u8, b: u8, c: bool)
    ensures
        spec_sbc_overflow(a, b, c) <==> !(-128 <= spec_signed(a) - spec_signed(b)
            - spec_sbc_borrow(c) <= 127),
{
    let bw = spec_sbc_borrow(c);
    let t = a - b - bw;
    let r = spec_sbc_result(a, b, c);
    assert(r == if t >= 0 {
        t
    } else {
        t + 256
    });
    assert((((a ^ b) & 0x80) != 0) <==> ((a < 128) != (b < 128))) by (bit_vector);
    assert((((a ^ r) & 0x80) != 0) <==> ((a < 128) != (r < 128))) by (bit_vector);
}

/// A compare sets the carry flag exactly when the register is at least
/// the operand (unsigned, the equal case included), and the zero flag
/// exactly on equality.
pub proof fn lemma_compare_flags(cpu: CpuState, reg: u8, o: u8)
    ensures
        spec_compare(cpu, reg, o).C <==> reg >= o,
        spec_compare(cpu, reg, o).Z <==> reg == o,
{
}

/// The indexed addressing modes wrap where the hardware wraps: the
/// absolute indexed target wraps at the 64KB boundary instead of failing,
/// and zero-page pointer arithmetic (ZeroPageX/Y and the IndexedIndirect
/// intermediate) wraps modulo 256, never 65536, staying in page 0.
pub proof fn lemma_indexed_addressing_wraps(
    info: OpcodeExecInfo,
    pc: u16,
    x: u8,
    y: u8,
    mem: Seq<u8>,
)
    ensures
        info.address_mode is AbsoluteX ==> spec_decode(info, pc, x, y, mem).addr_final == Some(
            spec_wrap16(spec_word_at(mem, spec_operand_addr(pc)) + x),
        ),
        info.address_mode is IndexedIndirect ==> spec_decode(
            info,
            pc,
            x,
            y,
            mem,
        ).addr_intermediate->0 < 0x100,
        info.address_mode is IndirectIndexed ==> spec_decode(info, pc, x, y, mem).addr_init->0
            < 0x100,
        info.address_mode is ZeroPageX ==> spec_decode(info, pc, x, y, mem).addr_final->0 < 0x100,
        info.address_mode is ZeroPageY ==> spec_decode(info, pc, x, y, mem).addr_final->0 < 0x100,
{
}

/// Relative branch arithmetic: the target is the address after the
/// two-byte instruction plus the operand read as a signed byte, modulo
/// 2^16.
pub proof fn lemma_relative_target_signed(pc: u16, v: u8)
    ensures
        spec_relative_target(pc, v) == ((pc + 2 + spec_signed(v)) % 0x10000) as u16,
{
    if v >= 0x80 {
        vstd::arithmetic::div_mod::lemma_mod_multiples_vanish(
            1,
            pc + 2 + spec_signed(v),
            0x10000,
        );
    }
}

/// Stack discipline: pushing the accumulator and pulling it back (PHA
/// then PLA) restores the accumulator, whatever descriptor the in-between
/// fetch leaves behind for the pull.
pub proof fn lemma_pha_pla_restores_accumulator(cpu: CpuState, mem: Seq<u8>, dr2: DecodeRegister)
    requires
        mem.len() == 0x10000,
        cpu.decode_register.info.opcode_class is PHA,
        cpu.decode_register.info.len >= 1,
        dr2.info.opcode_class is PLA,
        dr2.info.len >= 1,
    ensures
        spec_execute(cpu, mem) is Ok,
        ({
            let (c1, m1) = spec_execute(cpu, mem)->Ok_0;
            let c2 = CpuState { decode_register: dr2, ..c1 };
            spec_execute(c2, m1) is Ok && spec_execute(c2, m1)->Ok_0.0.a == cpu.a
        }),
{
    lemma_phys_low(spec_stack_addr(cpu.sp));
    let (c1, m1) = spec_execute(cpu, mem)->Ok_0;
    let c2 = CpuState { decode_register: dr2, ..c1 };
    assert(spec_inc8(spec_dec8(cpu.sp)) == cpu.sp);
    lemma_phys_low(spec_stack_addr(cpu.sp));
    assert(spec_pull8_value(c2, m1) == cpu.a);
}

/// Stack discipline for the status byte: pushing the flags and pulling
/// them back (PHP then PLP) restores every flag except the break flag,
/// which comes back clear because the pull masks bit 4 off; the fixed bit
/// is never stored at all.
pub proof fn lemma_php_plp_restores_flags(cpu: CpuState, mem: Seq<u8>, dr2: DecodeRegister)
    requires
        mem.len() == 0x10000,
        cpu.decode_register.info.opcode_class is PHP,
        cpu.decode_register.info.len >= 1,
        dr2.info.opcode_class is PLP,
        dr2.info.len >= 1,
    ensures
        spec_execute(cpu, mem) is Ok,
        ({
            let (c1, m1) = spec_execute(cpu, mem)->Ok_0;
            let c2 = CpuState { decode_register: dr2, ..c1 };
            let c3 = spec_execute(c2, m1)->Ok_0.0;
            spec_execute(c2, m1) is Ok && c3.C == cpu.C && c3.Z == cpu.Z && c3.I == cpu.I
                && c3.D == cpu.D && c3.V == cpu.V && c3.S == cpu.S && !c3.B
        }),
{
    lemma_phys_low(spec_stack_addr(cpu.sp));
    let (c1, m1) = spec_execute(cpu, mem)->Ok_0;
    let c2 = CpuState { decode_register: dr2, ..c1 };
    assert(spec_inc8(spec_dec8(cpu.sp)) == cpu.sp);
    let fb = spec_flags_byte(cpu);
    assert(spec_pull8_value(c2, m1) == (fb | 0x30));
    let masked = ((fb | 0x30) & 0xEF) | 0x20;
    assert(((masked >> 0u8) & 1) == ((fb >> 0u8) & 1) && ((masked >> 1u8) & 1) == ((fb >> 1u8)
        & 1) && ((masked >> 2u8) & 1) == ((fb >> 2u8) & 1) && ((masked >> 3u8) & 1) == ((fb
        >> 3u8) & 1) && ((masked >> 4u8) & 1) == 0 && ((masked >> 6u8) & 1) == ((fb >> 6u8) & 1)
        && ((masked >> 7u8) & 1) == ((fb >> 7u8) & 1)) by (bit_vector)
        requires
            masked == ((fb | 0x30) & 0xEF) | 0x20,
    ;
    crate::cpu::cpu_state::lemma_flags_byte_round_trip(cpu, fb);
    assert(spec_with_flags_from(cpu, fb) == cpu);
}

} // verus!
