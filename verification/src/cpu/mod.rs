//! The CPU core: register state, opcode metadata, the opcode-table
//! loader, and the decode/execute engine.
pub mod common_defs;
pub mod cpu_executor;
pub mod cpu_state;
pub mod opcode;

pub use self::common_defs::OpcodeDebugInfo;
pub use self::common_defs::OpcodeExecInfo;
pub use self::common_defs::address_mode::AddressMode;
pub use self::common_defs::opcode_class::OpcodeClass;
pub use self::cpu_executor::CpuExecutor;
pub use self::cpu_state::CpuState;
pub use self::cpu_state::DecodeRegister;
