use vstd::prelude::*;

verus! {

/// The closed set of 6502 addressing modes, plus a default standing for "no
/// mode assigned yet" in freshly built descriptors.
#[derive(Clone, Copy, Debug, PartialEq, Eq, Structural)]
pub enum AddressMode {
    Unspecified,
    Absolute,
    AbsoluteX,
    AbsoluteY,
    Accumulator,
    Immediate,
    Implied,
    Indirect,
    IndexedIndirect,
    IndirectIndexed,
    Relative,
    ZeroPage,
    ZeroPageX,
    ZeroPageY,
}

/// A mode-name string that does not name any addressing mode.
#[derive(Debug)]
pub enum ParseError {
    InvalidString(String),
}

/// Which addressing mode a descriptor's mode-name string denotes, if any.
pub open spec fn spec_parse_address_mode(s: Seq<char>) -> Option<AddressMode> {
    if s == "Absolute"@ {
        Some(AddressMode::Absolute)
    } else if s == "AbsoluteX"@ {
        Some(AddressMode::AbsoluteX)
    } else if s == "AbsoluteY"@ {
        Some(AddressMode::AbsoluteY)
    } else if s == "Accumulator"@ {
        Some(AddressMode::Accumulator)
    } else if s == "Immediate"@ {
        Some(AddressMode::Immediate)
    } else if s == "Implied"@ {
        Some(AddressMode::Implied)
    } else if s == "Indirect"@ {
        Some(AddressMode::Indirect)
    } else if s == "IndexedIndirect"@ {
        Some(AddressMode::IndexedIndirect)
    } else if s == "IndirectIndexed"@ {
        Some(AddressMode::IndirectIndexed)
    } else if s == "Relative"@ {
        Some(AddressMode::Relative)
    } else if s == "ZeroPage"@ {
        Some(AddressMode::ZeroPage)
    } else if s == "ZeroPageX"@ {
        Some(AddressMode::ZeroPageX)
    } else if s == "ZeroPageY"@ {
        Some(AddressMode::ZeroPageY)
    } else {
        None
    }
}

impl Default for AddressMode {
    fn default() -> (r: AddressMode)
        ensures
            r == AddressMode::Unspecified,
    {
        AddressMode::Unspecified
    }
}

impl AddressMode {
    /// Parse a descriptor's mode-name string into the closed mode set; an
    /// unrecognized string is returned inside the error.
    pub fn from_str(s: &str) -> (r: Result<AddressMode, ParseError>)
        ensures
            match spec_parse_address_mode(s@) {
                Some(m) => r == Ok::<AddressMode, ParseError>(m),
                None => r matches Err(ParseError::InvalidString(t)) && t@ == s@,
            },
    {
        if crate::text::str_eq(s, "Absolute") {
            Ok(AddressMode::Absolute)
        } else if crate::text::str_eq(s, "AbsoluteX") {
            Ok(AddressMode::AbsoluteX)
        } else if crate::text::str_eq(s, "AbsoluteY") {
            Ok(AddressMode::AbsoluteY)
        } else if crate::text::str_eq(s, "Accumulator") {
            Ok(AddressMode::Accumulator)
        } else if crate::text::str_eq(s, "Immediate") {
            Ok(AddressMode::Immediate)
        } else if crate::text::str_eq(s, "Implied") {
            Ok(AddressMode::Implied)
        } else if crate::text::str_eq(s, "Indirect") {
            Ok(AddressMode::Indirect)
        } else if crate::text::str_eq(s, "IndexedIndirect") {
            Ok(AddressMode::IndexedIndirect)
        } else if crate::text::str_eq(s, "IndirectIndexed") {
            Ok(AddressMode::IndirectIndexed)
        } else if crate::text::str_eq(s, "Relative") {
            Ok(AddressMode::Relative)
        } else if crate::text::str_eq(s, "ZeroPage") {
            Ok(AddressMode::ZeroPage)
        } else if crate::text::str_eq(s, "ZeroPageX") {
            Ok(AddressMode::ZeroPageX)
        } else if crate::text::str_eq(s, "ZeroPageY") {
            Ok(AddressMode::ZeroPageY)
        } else {
            Err(ParseError::InvalidString(s.to_owned()))
        }
    }
}

} // verus!
