//! Static per-opcode metadata shared by the decoder, the executor and the
//! table loader.
pub mod address_mode;
pub mod opcode_class;

use vstd::prelude::*;

verus! {

use crate::cpu::common_defs::address_mode::AddressMode;
use crate::cpu::common_defs::opcode_class::OpcodeClass;

/// Human-readable side table kept parallel to the execution table, used by
/// tracing consumers: mnemonic, mode name and free-text notes per opcode.
pub struct OpcodeDebugInfo {
    pub opcode: u8,
    pub name: String,
    pub address_mode_name: String,
    pub notes: String,
}

/// Static descriptor of one opcode: its byte value, class, addressing mode,
/// instruction length and cycle counts. Immutable once the table is built.
#[derive(Clone, Copy, Debug)]
pub struct OpcodeExecInfo {
    pub opcode: u8,
    pub opcode_class: OpcodeClass,
    pub address_mode: AddressMode,
    pub len: u8,
    pub cycles: u8,
    pub page_cycles: u8,
}

/// The all-default descriptor a fresh decode register starts from.
pub open spec fn spec_exec_info_default() -> OpcodeExecInfo {
    OpcodeExecInfo {
        opcode: 0,
        opcode_class: OpcodeClass::Unspecified,
        address_mode: AddressMode::Unspecified,
        len: 0,
        cycles: 0,
        page_cycles: 0,
    }
}

impl Default for OpcodeExecInfo {
    fn default() -> (r: OpcodeExecInfo)
        ensures
            r == spec_exec_info_default(),
    {
        OpcodeExecInfo {
            opcode: 0,
            opcode_class: OpcodeClass::Unspecified,
            address_mode: AddressMode::Unspecified,
            len: 0,
            cycles: 0,
            page_cycles: 0,
        }
    }
}

} // verus!
