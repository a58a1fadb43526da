//! CPU register state and the transient per-instruction decode result.
use vstd::prelude::*;

verus! {

use crate::cpu::common_defs::OpcodeExecInfo;
use crate::cpu::common_defs::spec_exec_info_default;

/// Ephemeral result of decoding one instruction: the operand addresses and
/// values each addressing mode resolves, plus the opcode's static
/// descriptor. A field an addressing mode does not populate stays `None`,
/// so an unresolved field is distinguishable from a resolved zero.
pub struct DecodeRegister {
    pub addr_init: Option<u16>,
    pub addr_intermediate: Option<u16>,
    pub addr_final: Option<u16>,
    pub value_init: Option<u8>,
    pub value_intermediate: Option<u8>,
    pub value_final: Option<u8>,
    pub info: OpcodeExecInfo,
}

/// The decode register with nothing resolved and a default descriptor.
pub open spec fn spec_decode_register_default() -> DecodeRegister {
    DecodeRegister {
        addr_init: None,
        addr_intermediate: None,
        addr_final: None,
        value_init: None,
        value_intermediate: None,
        value_final: None,
        info: spec_exec_info_default(),
    }
}

impl Default for DecodeRegister {
    fn default() -> (r: DecodeRegister)
        ensures
            r == spec_decode_register_default(),
    {
        DecodeRegister {
            addr_init: None,
            addr_intermediate: None,
            addr_final: None,
            value_init: None,
            value_intermediate: None,
            value_final: None,
            info: OpcodeExecInfo::default(),
        }
    }
}

/// The 6502 register file: program counter, stack pointer, accumulator,
/// index registers and the seven status flags (the eighth status bit is
/// always read as 1 and never stored), plus the fetched opcode byte and the
/// transient decode result, which model the CPU's internal pipeline state.
#[allow(non_snake_case)]
pub struct CpuState {
    pub pc: u16,
    pub sp: u8,
    pub a: u8,
    pub x: u8,
    pub y: u8,
    pub C: bool,
    pub Z: bool,
    pub I: bool,
    pub D: bool,
    pub B: bool,
    pub V: bool,
    pub S: bool,
    pub instruction_register: u8,
    pub decode_register: DecodeRegister,
}

/// Whether bit `k` of `b` is set.
pub open spec fn spec_bit(b: u8, k: u8) -> bool {
    ((b >> k) & 1) == 1
}

/// Contribution of one flag to the status byte: `v` when set, 0 when
/// clear.
pub open spec fn spec_flag_term(b: bool, v: u8) -> u8 {
    if b {
        v
    } else {
        0
    }
}

/// The status byte that packing the seven flags produces: bit order
/// `C,Z,I,D,B,<fixed 1>,V,S` from low to high.
pub open spec fn spec_flags_byte(s: CpuState) -> u8 {
    (spec_flag_term(s.C, 1) + spec_flag_term(s.Z, 2) + spec_flag_term(s.I, 4) + spec_flag_term(
        s.D,
        8,
    ) + spec_flag_term(s.B, 16) + 32 + spec_flag_term(s.V, 64) + spec_flag_term(s.S, 128)) as u8
}

/// The CPU state that results from loading the seven flags out of a status
/// byte; the fixed bit 5 is ignored and every non-flag register is kept.
pub open spec fn spec_with_flags_from(s: CpuState, flags: u8) -> CpuState {
    CpuState {
        C: spec_bit(flags, 0),
        Z: spec_bit(flags, 1),
        I: spec_bit(flags, 2),
        D: spec_bit(flags, 3),
        B: spec_bit(flags, 4),
        V: spec_bit(flags, 6),
        S: spec_bit(flags, 7),
        ..s
    }
}

/// The all-zero power-off register file.
pub open spec fn spec_cpu_state_default() -> CpuState {
    CpuState {
        pc: 0,
        sp: 0,
        a: 0,
        x: 0,
        y: 0,
        C: false,
        Z: false,
        I: false,
        D: false,
        B: false,
        V: false,
        S: false,
        instruction_register: 0,
        decode_register: spec_decode_register_default(),
    }
}

impl Default for CpuState {
    fn default() -> (r: CpuState)
        ensures
            r == spec_cpu_state_default(),
    {
        CpuState {
            pc: 0,
            sp: 0,
            a: 0,
            x: 0,
            y: 0,
            C: false,
            Z: false,
            I: false,
            D: false,
            B: false,
            V: false,
            S: false,
            instruction_register: 0,
            decode_register: DecodeRegister::default(),
        }
    }
}

/// Contribution of one flag to the status byte: `v` when set, 0 when
/// clear.
fn flag_term(b: bool, v: u8) -> (r: u8)
    ensures
        r == spec_flag_term(b, v),
{
    if b {
        v
    } else {
        0
    }
}

impl CpuState {
    /// Pack the seven flags into a status byte, bit order `C,Z,I,D,B,<fixed
    /// 1>,V,S` from low to high; the fixed bit always reads 1.
    pub fn unpack_flags(&self) -> (r: u8)
        ensures
            r == spec_flags_byte(*self),
    {
        flag_term(self.C, 1) + flag_term(self.Z, 2) + flag_term(self.I, 4) + flag_term(self.D, 8)
            + flag_term(self.B, 16) + 32 + flag_term(self.V, 64) + flag_term(self.S, 128)
    }

    /// Load the seven flags from a status byte, ignoring the fixed bit 5.
    pub fn pack_flags(&mut self, flags: u8)
        ensures
            *final(self) == spec_with_flags_from(*old(self), flags),
    {
        self.C = ((flags >> 0u8) & 1) == 1;
        self.Z = ((flags >> 1u8) & 1) == 1;
        self.I = ((flags >> 2u8) & 1) == 1;
        self.D = ((flags >> 3u8) & 1) == 1;
        self.B = ((flags >> 4u8) & 1) == 1;
        self.V = ((flags >> 6u8) & 1) == 1;
        self.S = ((flags >> 7u8) & 1) == 1;
    }
}

/// Round trip of the status byte: packing the flags and loading them back
/// restores every flag. Loading a byte and packing it again restores every
/// bit but the fixed bit 5, which always reads 1 (bit 4 is stored and comes
/// back as written).
pub proof fn lemma_flags_byte_round_trip(s: CpuState, flags: u8)
    ensures
        spec_with_flags_from(s, spec_flags_byte(s)) == s,
        spec_flags_byte(spec_with_flags_from(s, flags)) == (flags | 0x20),
{
    assert(forall|f: u8, k: u8| ((f >> k) & 1) == 0 || #[trigger] ((f >> k) & 1) == 1)
        by (bit_vector);
    let c: u8 = if s.C { 1 } else { 0 };
    let z: u8 = if s.Z { 1 } else { 0 };
    let i: u8 = if s.I { 1 } else { 0 };
    let d: u8 = if s.D { 1 } else { 0 };
    let b: u8 = if s.B { 1 } else { 0 };
    let v: u8 = if s.V { 1 } else { 0 };
    let n: u8 = if s.S { 1 } else { 0 };
    let byte = spec_flags_byte(s);
    assert(byte == (c + 2 * z + 4 * i + 8 * d + 16 * b + 32 + 64 * v + 128 * n) as u8);
    assert(((byte >> 0u8) & 1 == c) && ((byte >> 1u8) & 1 == z) && ((byte >> 2u8) & 1 == i)
        && ((byte >> 3u8) & 1 == d) && ((byte >> 4u8) & 1 == b) && ((byte >> 6u8) & 1 == v)
        && ((byte >> 7u8) & 1 == n)) by (bit_vector)
        requires
            byte == (c + 2 * z + 4 * i + 8 * d + 16 * b + 32 + 64 * v + 128 * n) as u8,
            c <= 1 && z <= 1 && i <= 1 && d <= 1 && b <= 1 && v <= 1 && n <= 1,
    ;
    let s2 = spec_with_flags_from(s, flags);
    let c2: u8 = if spec_bit(flags, 0) { 1 } else { 0 };
    let z2: u8 = if spec_bit(flags, 1) { 1 } else { 0 };
    let i2: u8 = if spec_bit(flags, 2) { 1 } else { 0 };
    let d2: u8 = if spec_bit(flags, 3) { 1 } else { 0 };
    let b2: u8 = if spec_bit(flags, 4) { 1 } else { 0 };
    let v2: u8 = if spec_bit(flags, 6) { 1 } else { 0 };
    let n2: u8 = if spec_bit(flags, 7) { 1 } else { 0 };
    assert(spec_flags_byte(s2) == (c2 + 2 * z2 + 4 * i2 + 8 * d2 + 16 * b2 + 32 + 64 * v2 + 128
        * n2) as u8);
    assert((c2 + 2 * z2 + 4 * i2 + 8 * d2 + 16 * b2 + 32 + 64 * v2 + 128 * n2) as u8 == (flags
        | 0x20)) by (bit_vector)
        requires
            c2 == ((flags >> 0u8) & 1),
            z2 == ((flags >> 1u8) & 1),
            i2 == ((flags >> 2u8) & 1),
            d2 == ((flags >> 3u8) & 1),
            b2 == ((flags >> 4u8) & 1),
            v2 == ((flags >> 6u8) & 1),
            n2 == ((flags >> 7u8) & 1),
    ;
}

} // verus!
