use vstd::prelude::*;

verus! {

/// The closed set of opcode mnemonics: every documented legal 6502
/// instruction plus the documented illegal ones, and a default standing for
/// "no class assigned yet" in freshly built descriptors.
#[allow(non_camel_case_types)]
#[derive(Clone, Copy, Debug, PartialEq, Eq, Structural)]
pub enum OpcodeClass {
    Unspecified,
    ADC,
    AND,
    ASL,
    BCC,
    BCS,
    BEQ,
    BIT,
    BMI,
    BNE,
    BPL,
    BRK,
    BVC,
    BVS,
    CLC,
    CLD,
    CLI,
    CLV,
    CMP,
    CPX,
    CPY,
    DEC,
    DEX,
    DEY,
    EOR,
    INC,
    INX,
    INY,
    JMP,
    JSR,
    LDA,
    LDX,
    LDY,
    LSR,
    NOP,
    ORA,
    PHA,
    PHP,
    PLA,
    PLP,
    ROL,
    ROR,
    RTI,
    RTS,
    SBC,
    SEC,
    SED,
    SEI,
    STA,
    STX,
    STY,
    TAX,
    TAY,
    TSX,
    TXA,
    TXS,
    TYA,
    ILL_AHX,
    ILL_ALR,
    ILL_ANC,
    ILL_ARR,
    ILL_AXS,
    ILL_DCP,
    ILL_ISC,
    ILL_KIL,
    ILL_LAS,
    ILL_LAX1,
    ILL_LAX2,
    ILL_NOP,
    ILL_RLA,
    ILL_RRA,
    ILL_SAX,
    ILL_SBC,
    ILL_SHX,
    ILL_SHY,
    ILL_SLO,
    ILL_SRE,
    ILL_TAS,
    ILL_XAA,
}

/// A mnemonic string that does not name any opcode class.
#[derive(Debug)]
pub enum ParseError {
    InvalidString(String),
}

impl Default for OpcodeClass {
    fn default() -> (r: OpcodeClass)
        ensures
            r == OpcodeClass::Unspecified,
    {
        OpcodeClass::Unspecified
    }
}

/// Which opcode class a descriptor's mnemonic string denotes, if any.
pub open spec fn spec_parse_opcode_class(s: Seq<char>) -> Option<OpcodeClass> {
    if s == "ADC"@ {
        Some(OpcodeClass::ADC)
    } else if s == "AND"@ {
        Some(OpcodeClass::AND)
    } else if s == "ASL"@ {
        Some(OpcodeClass::ASL)
    } else if s == "BCC"@ {
        Some(OpcodeClass::BCC)
    } else if s == "BCS"@ {
        Some(OpcodeClass::BCS)
    } else if s == "BEQ"@ {
        Some(OpcodeClass::BEQ)
    } else if s == "BIT"@ {
        Some(OpcodeClass::BIT)
    } else if s == "BMI"@ {
        Some(OpcodeClass::BMI)
    } else if s == "BNE"@ {
        Some(OpcodeClass::BNE)
    } else if s == "BPL"@ {
        Some(OpcodeClass::BPL)
    } else if s == "BRK"@ {
        Some(OpcodeClass::BRK)
    } else if s == "BVC"@ {
        Some(OpcodeClass::BVC)
    } else if s == "BVS"@ {
        Some(OpcodeClass::BVS)
    } else if s == "CLC"@ {
        Some(OpcodeClass::CLC)
    } else if s == "CLD"@ {
        Some(OpcodeClass::CLD)
    } else if s == "CLI"@ {
        Some(OpcodeClass::CLI)
    } else if s == "CLV"@ {
        Some(OpcodeClass::CLV)
    } else if s == "CMP"@ {
        Some(OpcodeClass::CMP)
    } else if s == "CPX"@ {
        Some(OpcodeClass::CPX)
    } else if s == "CPY"@ {
        Some(OpcodeClass::CPY)
    } else if s == "DEC"@ {
        Some(OpcodeClass::DEC)
    } else if s == "DEX"@ {
        Some(OpcodeClass::DEX)
    } else if s == "DEY"@ {
        Some(OpcodeClass::DEY)
    } else if s == "EOR"@ {
        Some(OpcodeClass::EOR)
    } else if s == "INC"@ {
        Some(OpcodeClass::INC)
    } else if s == "INX"@ {
        Some(OpcodeClass::INX)
    } else if s == "INY"@ {
        Some(OpcodeClass::INY)
    } else if s == "JMP"@ {
        Some(OpcodeClass::JMP)
    } else if s == "JSR"@ {
        Some(OpcodeClass::JSR)
    } else if s == "LDA"@ {
        Some(OpcodeClass::LDA)
    } else if s == "LDX"@ {
        Some(OpcodeClass::LDX)
    } else if s == "LDY"@ {
        Some(OpcodeClass::LDY)
    } else if s == "LSR"@ {
        Some(OpcodeClass::LSR)
    } else if s == "NOP"@ {
        Some(OpcodeClass::NOP)
    } else if s == "ORA"@ {
        Some(OpcodeClass::ORA)
    } else if s == "PHA"@ {
        Some(OpcodeClass::PHA)
    } else if s == "PHP"@ {
        Some(OpcodeClass::PHP)
    } else if s == "PLA"@ {
        Some(OpcodeClass::PLA)
    } else if s == "PLP"@ {
        Some(OpcodeClass::PLP)
    } else if s == "ROL"@ {
        Some(OpcodeClass::ROL)
    } else if s == "ROR"@ {
        Some(OpcodeClass::ROR)
    } else if s == "RTI"@ {
        Some(OpcodeClass::RTI)
    } else if s == "RTS"@ {
        Some(OpcodeClass::RTS)
    } else if s == "SBC"@ {
        Some(OpcodeClass::SBC)
    } else if s == "SEC"@ {
        Some(OpcodeClass::SEC)
    } else if s == "SED"@ {
        Some(OpcodeClass::SED)
    } else if s == "SEI"@ {
        Some(OpcodeClass::SEI)
    } else if s == "STA"@ {
        Some(OpcodeClass::STA)
    } else if s == "STX"@ {
        Some(OpcodeClass::STX)
    } else if s == "STY"@ {
        Some(OpcodeClass::STY)
    } else if s == "TAX"@ {
        Some(OpcodeClass::TAX)
    } else if s == "TAY"@ {
        Some(OpcodeClass::TAY)
    } else if s == "TSX"@ {
        Some(OpcodeClass::TSX)
    } else if s == "TXA"@ {
        Some(OpcodeClass::TXA)
    } else if s == "TXS"@ {
        Some(OpcodeClass::TXS)
    } else if s == "TYA"@ {
        Some(OpcodeClass::TYA)
    } else if s == "ILL_AHX"@ {
        Some(OpcodeClass::ILL_AHX)
    } else if s == "ILL_ALR"@ {
        Some(OpcodeClass::ILL_ALR)
    } else if s == "ILL_ANC"@ {
        Some(OpcodeClass::ILL_ANC)
    } else if s == "ILL_ARR"@ {
        Some(OpcodeClass::ILL_ARR)
    } else if s == "ILL_AXS"@ {
        Some(OpcodeClass::ILL_AXS)
    } else if s == "ILL_DCP"@ {
        Some(OpcodeClass::ILL_DCP)
    } else if s == "ILL_ISC"@ {
        Some(OpcodeClass::ILL_ISC)
    } else if s == "ILL_KIL"@ {
        Some(OpcodeClass::ILL_KIL)
    } else if s == "ILL_LAS"@ {
        Some(OpcodeClass::ILL_LAS)
    } else if s == "ILL_LAX1"@ {
        Some(OpcodeClass::ILL_LAX1)
    } else if s == "ILL_LAX2"@ {
        Some(OpcodeClass::ILL_LAX2)
    } else if s == "ILL_NOP"@ {
        Some(OpcodeClass::ILL_NOP)
    } else if s == "ILL_RLA"@ {
        Some(OpcodeClass::ILL_RLA)
    } else if s == "ILL_RRA"@ {
        Some(OpcodeClass::ILL_RRA)
    } else if s == "ILL_SAX"@ {
        Some(OpcodeClass::ILL_SAX)
    } else if s == "ILL_SBC"@ {
        Some(OpcodeClass::ILL_SBC)
    } else if s == "ILL_SHX"@ {
        Some(OpcodeClass::ILL_SHX)
    } else if s == "ILL_SHY"@ {
        Some(OpcodeClass::ILL_SHY)
    } else if s == "ILL_SLO"@ {
        Some(OpcodeClass::ILL_SLO)
    } else if s == "ILL_SRE"@ {
        Some(OpcodeClass::ILL_SRE)
    } else if s == "ILL_TAS"@ {
        Some(OpcodeClass::ILL_TAS)
    } else if s == "ILL_XAA"@ {
        Some(OpcodeClass::ILL_XAA)
    } else {
        None
    }
}

impl OpcodeClass {
    /// Parse a descriptor's mnemonic string into the closed class set; an
    /// unrecognized string is returned inside the error.
    pub fn from_str(s: &str) -> (r: Result<OpcodeClass, ParseError>)
        ensures
            match spec_parse_opcode_class(s@) {
                Some(c) => r == Ok::<OpcodeClass, ParseError>(c),
                None => r matches Err(ParseError::InvalidString(t)) && t@ == s@,
            },
    {
        if crate::text::str_eq(s, "ADC") {
            Ok(OpcodeClass::ADC)
        } else if crate::text::str_eq(s, "AND") {
            Ok(OpcodeClass::AND)
        } else if crate::text::str_eq(s, "ASL") {
            Ok(OpcodeClass::ASL)
        } else if crate::text::str_eq(s, "BCC") {
            Ok(OpcodeClass::BCC)
        } else if crate::text::str_eq(s, "BCS") {
            Ok(OpcodeClass::BCS)
        } else if crate::text::str_eq(s, "BEQ") {
            Ok(OpcodeClass::BEQ)
        } else if crate::text::str_eq(s, "BIT") {
            Ok(OpcodeClass::BIT)
        } else if crate::text::str_eq(s, "BMI") {
            Ok(OpcodeClass::BMI)
        } else if crate::text::str_eq(s, "BNE") {
            Ok(OpcodeClass::BNE)
        } else if crate::text::str_eq(s, "BPL") {
            Ok(OpcodeClass::BPL)
        } else if crate::text::str_eq(s, "BRK") {
            Ok(OpcodeClass::BRK)
        } else if crate::text::str_eq(s, "BVC") {
            Ok(OpcodeClass::BVC)
        } else if crate::text::str_eq(s, "BVS") {
            Ok(OpcodeClass::BVS)
        } else if crate::text::str_eq(s, "CLC") {
            Ok(OpcodeClass::CLC)
        } else if crate::text::str_eq(s, "CLD") {
            Ok(OpcodeClass::CLD)
        } else if crate::text::str_eq(s, "CLI") {
            Ok(OpcodeClass::CLI)
        } else if crate::text::str_eq(s, "CLV") {
            Ok(OpcodeClass::CLV)
        } else if crate::text::str_eq(s, "CMP") {
            Ok(OpcodeClass::CMP)
        } else if crate::text::str_eq(s, "CPX") {
            Ok(OpcodeClass::CPX)
        } else if crate::text::str_eq(s, "CPY") {
            Ok(OpcodeClass::CPY)
        } else if crate::text::str_eq(s, "DEC") {
            Ok(OpcodeClass::DEC)
        } else if crate::text::str_eq(s, "DEX") {
            Ok(OpcodeClass::DEX)
        } else if crate::text::str_eq(s, "DEY") {
            Ok(OpcodeClass::DEY)
        } else if crate::text::str_eq(s, "EOR") {
            Ok(OpcodeClass::EOR)
        } else if crate::text::str_eq(s, "INC") {
            Ok(OpcodeClass::INC)
        } else if crate::text::str_eq(s, "INX") {
            Ok(OpcodeClass::INX)
        } else if crate::text::str_eq(s, "INY") {
            Ok(OpcodeClass::INY)
        } else if crate::text::str_eq(s, "JMP") {
            Ok(OpcodeClass::JMP)
        } else if crate::text::str_eq(s, "JSR") {
            Ok(OpcodeClass::JSR)
        } else if crate::text::str_eq(s, "LDA") {
            Ok(OpcodeClass::LDA)
        } else if crate::text::str_eq(s, "LDX") {
            Ok(OpcodeClass::LDX)
        } else if crate::text::str_eq(s, "LDY") {
            Ok(OpcodeClass::LDY)
        } else if crate::text::str_eq(s, "LSR") {
            Ok(OpcodeClass::LSR)
        } else if crate::text::str_eq(s, "NOP") {
            Ok(OpcodeClass::NOP)
        } else if crate::text::str_eq(s, "ORA") {
            Ok(OpcodeClass::ORA)
        } else if crate::text::str_eq(s, "PHA") {
            Ok(OpcodeClass::PHA)
        } else if crate::text::str_eq(s, "PHP") {
            Ok(OpcodeClass::PHP)
        } else if crate::text::str_eq(s, "PLA") {
            Ok(OpcodeClass::PLA)
        } else if crate::text::str_eq(s, "PLP") {
            Ok(OpcodeClass::PLP)
        } else if crate::text::str_eq(s, "ROL") {
            Ok(OpcodeClass::ROL)
        } else if crate::text::str_eq(s, "ROR") {
            Ok(OpcodeClass::ROR)
        } else if crate::text::str_eq(s, "RTI") {
            Ok(OpcodeClass::RTI)
        } else if crate::text::str_eq(s, "RTS") {
            Ok(OpcodeClass::RTS)
        } else if crate::text::str_eq(s, "SBC") {
            Ok(OpcodeClass::SBC)
        } else if crate::text::str_eq(s, "SEC") {
            Ok(OpcodeClass::SEC)
        } else if crate::text::str_eq(s, "SED") {
            Ok(OpcodeClass::SED)
        } else if crate::text::str_eq(s, "SEI") {
            Ok(OpcodeClass::SEI)
        } else if crate::text::str_eq(s, "STA") {
            Ok(OpcodeClass::STA)
        } else if crate::text::str_eq(s, "STX") {
            Ok(OpcodeClass::STX)
        } else if crate::text::str_eq(s, "STY") {
            Ok(OpcodeClass::STY)
        } else if crate::text::str_eq(s, "TAX") {
            Ok(OpcodeClass::TAX)
        } else if crate::text::str_eq(s, "TAY") {
            Ok(OpcodeClass::TAY)
        } else if crate::text::str_eq(s, "TSX") {
            Ok(OpcodeClass::TSX)
        } else if crate::text::str_eq(s, "TXA") {
            Ok(OpcodeClass::TXA)
        } else if crate::text::str_eq(s, "TXS") {
            Ok(OpcodeClass::TXS)
        } else if crate::text::str_eq(s, "TYA") {
            Ok(OpcodeClass::TYA)
        } else if crate::text::str_eq(s, "ILL_AHX") {
            Ok(OpcodeClass::ILL_AHX)
        } else if crate::text::str_eq(s, "ILL_ALR") {
            Ok(OpcodeClass::ILL_ALR)
        } else if crate::text::str_eq(s, "ILL_ANC") {
            Ok(OpcodeClass::ILL_ANC)
        } else if crate::text::str_eq(s, "ILL_ARR") {
            Ok(OpcodeClass::ILL_ARR)
        } else if crate::text::str_eq(s, "ILL_AXS") {
            Ok(OpcodeClass::ILL_AXS)
        } else if crate::text::str_eq(s, "ILL_DCP") {
            Ok(OpcodeClass::ILL_DCP)
        } else if crate::text::str_eq(s, "ILL_ISC") {
            Ok(OpcodeClass::ILL_ISC)
        } else if crate::text::str_eq(s, "ILL_KIL") {
            Ok(OpcodeClass::ILL_KIL)
        } else if crate::text::str_eq(s, "ILL_LAS") {
            Ok(OpcodeClass::ILL_LAS)
        } else if crate::text::str_eq(s, "ILL_LAX1") {
            Ok(OpcodeClass::ILL_LAX1)
        } else if crate::text::str_eq(s, "ILL_LAX2") {
            Ok(OpcodeClass::ILL_LAX2)
        } else if crate::text::str_eq(s, "ILL_NOP") {
            Ok(OpcodeClass::ILL_NOP)
        } else if crate::text::str_eq(s, "ILL_RLA") {
            Ok(OpcodeClass::ILL_RLA)
        } else if crate::text::str_eq(s, "ILL_RRA") {
            Ok(OpcodeClass::ILL_RRA)
        } else if crate::text::str_eq(s, "ILL_SAX") {
            Ok(OpcodeClass::ILL_SAX)
        } else if crate::text::str_eq(s, "ILL_SBC") {
            Ok(OpcodeClass::ILL_SBC)
        } else if crate::text::str_eq(s, "ILL_SHX") {
            Ok(OpcodeClass::ILL_SHX)
        } else if crate::text::str_eq(s, "ILL_SHY") {
            Ok(OpcodeClass::ILL_SHY)
        } else if crate::text::str_eq(s, "ILL_SLO") {
            Ok(OpcodeClass::ILL_SLO)
        } else if crate::text::str_eq(s, "ILL_SRE") {
            Ok(OpcodeClass::ILL_SRE)
        } else if crate::text::str_eq(s, "ILL_TAS") {
            Ok(OpcodeClass::ILL_TAS)
        } else if crate::text::str_eq(s, "ILL_XAA") {
            Ok(OpcodeClass::ILL_XAA)
        } else {
            Err(ParseError::InvalidString(s.to_owned()))
        }
    }
}

} // verus!
