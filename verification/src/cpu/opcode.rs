//! Construction of the 256-entry opcode table from descriptor records.
//!
//! The descriptor's on-disk format and its reader are a collaborator's
//! business; this module takes the already-split records and performs all
//! validation: hex opcode parsing, mnemonic and mode parsing, duplicate
//! detection and the exact-count check.
use vstd::prelude::*;
use vstd::string::StrSliceExecFns;

verus! {

use crate::cpu::common_defs::OpcodeDebugInfo;
use crate::cpu::common_defs::OpcodeExecInfo;
use crate::cpu::common_defs::address_mode;
use crate::cpu::common_defs::address_mode::AddressMode;
use crate::cpu::common_defs::address_mode::spec_parse_address_mode;
use crate::cpu::common_defs::opcode_class;
use crate::cpu::common_defs::opcode_class::OpcodeClass;
use crate::cpu::common_defs::opcode_class::spec_parse_opcode_class;
use crate::text::spec_parse_hex_u8;

/// One descriptor record as a collaborator hands it over: the opcode byte
/// as a hex string with a two-character prefix, the mnemonic, the
/// addressing-mode name, the instruction length, the cycle counts and
/// free-text notes.
pub struct OpcodeRecord {
    pub opcode: String,
    pub name: String,
    pub address_mode_name: String,
    pub len: u8,
    pub cycles: u8,
    pub page_cycles: u8,
    pub notes: String,
}

/// Why the opcode table could not be built: an unparsable field, a
/// duplicate opcode value, or a total entry count other than 256.
#[derive(Debug)]
pub enum OpcodeLoadError {
    ParseInt(String),
    ParseOpcodeClass(opcode_class::ParseError),
    ParseAddressMode(address_mode::ParseError),
    DuplicateOpcode(u8),
    IncorrectOpcodeCount(usize),
}

/// The opcode byte a record's hex string denotes: the two-character
/// prefix is skipped, the rest must be hexadecimal digits fitting one
/// byte.
pub open spec fn spec_record_opcode(r: OpcodeRecord) -> Option<u8> {
    if r.opcode@.len() < 2 {
        None
    } else {
        spec_parse_hex_u8(r.opcode@.skip(2))
    }
}

/// Whether a record's opcode value also occurs in an earlier record.
pub open spec fn spec_dup_at(rs: Seq<OpcodeRecord>, i: int) -> bool {
    exists|j: int|
        0 <= j < i && spec_record_opcode(rs[j]) == spec_record_opcode(rs[i])
}

/// Whether the loader rejects record `i`: unparsable opcode byte, a
/// duplicate of an earlier opcode, or an unrecognized mode or mnemonic
/// string, tested in that order.
pub open spec fn spec_record_fails(rs: Seq<OpcodeRecord>, i: int) -> bool {
    ||| spec_record_opcode(rs[i]) is None
    ||| spec_dup_at(rs, i)
    ||| spec_parse_address_mode(rs[i].address_mode_name@) is None
    ||| spec_parse_opcode_class(rs[i].name@) is None
}

/// The error the loader reports for failing record `i`.
pub open spec fn spec_error_for(rs: Seq<OpcodeRecord>, i: int, e: OpcodeLoadError) -> bool {
    if spec_record_opcode(rs[i]) is None {
        e matches OpcodeLoadError::ParseInt(t) && t@ == rs[i].opcode@
    } else if spec_dup_at(rs, i) {
        e == OpcodeLoadError::DuplicateOpcode(spec_record_opcode(rs[i])->0)
    } else if spec_parse_address_mode(rs[i].address_mode_name@) is None {
        e matches OpcodeLoadError::ParseAddressMode(address_mode::ParseError::InvalidString(t))
            && t@ == rs[i].address_mode_name@
    } else {
        e matches OpcodeLoadError::ParseOpcodeClass(opcode_class::ParseError::InvalidString(t))
            && t@ == rs[i].name@
    }
}

/// The execution-table entry a well-formed record denotes.
pub open spec fn spec_info_of(r: OpcodeRecord) -> OpcodeExecInfo {
    OpcodeExecInfo {
        opcode: spec_record_opcode(r)->0,
        opcode_class: spec_parse_opcode_class(r.name@)->0,
        address_mode: spec_parse_address_mode(r.address_mode_name@)->0,
        len: r.len,
        cycles: r.cycles,
        page_cycles: r.page_cycles,
    }
}

/// Whether a debug-table entry carries exactly a record's text fields.
pub open spec fn spec_debug_matches(d: OpcodeDebugInfo, r: OpcodeRecord) -> bool {
    &&& d.opcode == spec_record_opcode(r)->0
    &&& d.name@ == r.name@
    &&& d.address_mode_name@ == r.address_mode_name@
    &&& d.notes@ == r.notes@
}

/// Number of filled slots.
spec fn count_some<T>(s: Seq<Option<T>>) -> int
    decreases s.len(),
{
    if s.len() == 0 {
        0
    } else {
        count_some(s.drop_last()) + if s.last() is Some {
            1int
        } else {
            0int
        }
    }
}

/// Filling an empty slot raises the filled count by one.
proof fn lemma_count_some_update<T>(s: Seq<Option<T>>, i: int, v: T)
    requires
        0 <= i < s.len(),
        s[i] is None,
    ensures
        count_some(s.update(i, Some(v))) == count_some(s) + 1,
    decreases s.len(),
{
    let s2 = s.update(i, Some(v));
    if i == s.len() - 1 {
        assert(s2.drop_last() =~= s.drop_last());
    } else {
        assert(s2.drop_last() =~= s.drop_last().update(i, Some(v)));
        lemma_count_some_update(s.drop_last(), i, v);
    }
}

/// The filled count never exceeds the slot count, and reaches it only
/// with every slot filled.
proof fn lemma_count_some_full<T>(s: Seq<Option<T>>)
    ensures
        0 <= count_some(s) <= s.len(),
        count_some(s) == s.len() ==> forall|i: int| 0 <= i < s.len() ==> s[i] is Some,
    decreases s.len(),
{
    if s.len() > 0 {
        lemma_count_some_full(s.drop_last());
        if count_some(s) == s.len() {
            assert forall|i: int| 0 <= i < s.len() implies s[i] is Some by {
                if i < s.len() - 1 {
                    assert(s.drop_last()[i] == s[i]);
                }
            }
        }
    }
}

/// For every byte value, a lookup in a well-built table finds exactly one
/// entry carrying that opcode: the one at its own index.
pub proof fn lemma_table_lookup_unique(ev: Seq<OpcodeExecInfo>, b: int)
    requires
        ev.len() == 256,
        forall|i: int| 0 <= i < 256 ==> #[trigger] ev[i].opcode == i,
        0 <= b < 256,
    ensures
        ev[b].opcode == b,
        forall|i: int| 0 <= i < 256 && i != b ==> #[trigger] ev[i].opcode != b,
{
}

/// Build the 256-entry execution table and the parallel debug table from
/// descriptor records. Every record must parse, every opcode value must
/// occur exactly once, and the total count must be exactly 256; the
/// resulting table is indexed by opcode byte.
pub fn load_from_records(records: Vec<OpcodeRecord>) -> (r: Result<
    (Vec<OpcodeExecInfo>, Vec<OpcodeDebugInfo>),
    OpcodeLoadError,
>)
    ensures
        match r {
            Ok(tables) => {
                &&& records@.len() == 256
                &&& forall|i: int| 0 <= i < 256 ==> !spec_record_fails(records@, i)
                &&& tables.0@.len() == 256
                &&& tables.1@.len() == 256
                &&& forall|b: int| 0 <= b < 256 ==> #[trigger] tables.0@[b].opcode == b
                &&& forall|b: int|
                    #![trigger tables.0@[b]]
                    0 <= b < 256 ==> exists|i: int|
                        #![auto]
                        0 <= i < 256 && spec_record_opcode(records@[i]) == Some(b as u8)
                            && tables.0@[b] == spec_info_of(records@[i]) && spec_debug_matches(
                            tables.1@[b],
                            records@[i],
                        )
            },
            Err(e) => {
                if exists|i: int| 0 <= i < records@.len() && spec_record_fails(records@, i) {
                    exists|i: int|
                        #![auto]
                        0 <= i < records@.len() && spec_record_fails(records@, i) && (forall|
                            j: int,
                        |
                            0 <= j < i ==> !spec_record_fails(records@, j)) && spec_error_for(
                            records@,
                            i,
                            e,
                        )
                } else {
                    &&& records@.len() != 256
                    &&& e matches OpcodeLoadError::IncorrectOpcodeCount(n) && n == records@.len()
                }
            },
        },
{
    let mut slots: Vec<Option<OpcodeExecInfo>> = Vec::new();
    let mut dslots: Vec<Option<OpcodeDebugInfo>> = Vec::new();
    let mut f: usize = 0;
    while f < 256
        invariant
            f <= 256,
            slots@.len() == f,
            dslots@.len() == f,
            forall|b: int| 0 <= b < f ==> slots@[b] is None && dslots@[b] is None,
        decreases 256 - f,
    {
        slots.push(None);
        dslots.push(None);
        f = f + 1;
    }
    proof {
        assert(count_some(slots@) == 0) by {
            lemma_count_some_zero(slots@);
        }
    }
    let mut k: usize = 0;
    while k < records.len()
        invariant
            k <= records@.len(),
            slots@.len() == 256,
            dslots@.len() == 256,
            count_some(slots@) == k,
            forall|j: int| 0 <= j < k ==> !spec_record_fails(records@, j),
            forall|b: int|
                0 <= b < 256 ==> ((#[trigger] slots@[b]) is Some <==> exists|j: int|
                    #![auto]
                    0 <= j < k && spec_record_opcode(records@[j]) == Some(b as u8)),
            forall|b: int|
                0 <= b < 256 && (#[trigger] slots@[b]) is Some ==> exists|j: int|
                    #![auto]
                    0 <= j < k && spec_record_opcode(records@[j]) == Some(b as u8) && slots@[b]->0
                        == spec_info_of(records@[j]) && dslots@[b] is Some && spec_debug_matches(
                        dslots@[b]->0,
                        records@[j],
                    ),
        decreases records@.len() - k,
    {
        let rec = &records[k];
        let os: &str = rec.opcode.as_str();
        let op: u8;
        if os.unicode_len() < 2 {
            let e = OpcodeLoadError::ParseInt(rec.opcode.clone());
            proof {
                assert(spec_record_fails(records@, k as int));
                assert(spec_error_for(records@, k as int, e));
            }
            return Err(e);
        }
        match crate::text::parse_hex_u8_from(os, 2) {
            Some(v) => {
                op = v;
            },
            None => {
                let e = OpcodeLoadError::ParseInt(rec.opcode.clone());
                proof {
                    assert(spec_record_fails(records@, k as int));
                    assert(spec_error_for(records@, k as int, e));
                }
                return Err(e);
            },
        }
        if slots[op as usize].is_some() {
            let e = OpcodeLoadError::DuplicateOpcode(op);
            proof {
                assert(spec_dup_at(records@, k as int));
                assert(spec_record_fails(records@, k as int));
                assert(spec_error_for(records@, k as int, e));
            }
            return Err(e);
        }
        proof {
            assert(!spec_dup_at(records@, k as int));
        }
        let mode = match AddressMode::from_str(rec.address_mode_name.as_str()) {
            Ok(m) => m,
            Err(pe) => {
                let e = OpcodeLoadError::ParseAddressMode(pe);
                proof {
                    assert(spec_record_fails(records@, k as int));
                    assert(spec_error_for(records@, k as int, e));
                }
                return Err(e);
            },
        };
        let class = match OpcodeClass::from_str(rec.name.as_str()) {
            Ok(c) => c,
            Err(pe) => {
                let e = OpcodeLoadError::ParseOpcodeClass(pe);
                proof {
                    assert(spec_record_fails(records@, k as int));
                    assert(spec_error_for(records@, k as int, e));
                }
                return Err(e);
            },
        };
        let debug_info = OpcodeDebugInfo {
            opcode: op,
            name: rec.name.clone(),
            address_mode_name: rec.address_mode_name.clone(),
            notes: rec.notes.clone(),
        };
        let exec_info = OpcodeExecInfo {
            opcode: op,
            opcode_class: class,
            address_mode: mode,
            len: rec.len,
            cycles: rec.cycles,
            page_cycles: rec.page_cycles,
        };
        proof {
            lemma_count_some_update(slots@, op as int, exec_info);
        }
        slots[op as usize] = Some(exec_info);
        dslots[op as usize] = Some(debug_info);
        k = k + 1;
    }
    if records.len() != 256 {
        return Err(OpcodeLoadError::IncorrectOpcodeCount(records.len()));
    }
    proof {
        lemma_count_some_full(slots@);
    }
    let ghost slots_snap = slots@;
    let ghost dslots_snap = dslots@;
    let mut exec_info_vec: Vec<OpcodeExecInfo> = Vec::new();
    let mut debug_info_vec: Vec<OpcodeDebugInfo> = Vec::new();
    let mut b: usize = 0;
    while b < 256
        invariant
            b <= 256,
            slots@ == slots_snap,
            slots@.len() == 256,
            dslots_snap.len() == 256,
            dslots@.len() == 256 - b,
            dslots@ =~= dslots_snap.skip(b as int),
            forall|i: int| 0 <= i < 256 ==> slots_snap[i] is Some && dslots_snap[i] is Some,
            exec_info_vec@.len() == b,
            debug_info_vec@.len() == b,
            forall|i: int|
                0 <= i < b ==> #[trigger] exec_info_vec@[i] == slots_snap[i]->0
                    && debug_info_vec@[i] == dslots_snap[i]->0,
        decreases 256 - b,
    {
        exec_info_vec.push(slots[b].unwrap());
        let ghost before = dslots@;
        let d = dslots.remove(0);
        proof {
            assert(before[0] == dslots_snap[b as int]);
            assert(before.remove(0) =~= dslots_snap.skip(b as int + 1));
        }
        match d {
            Some(di) => {
                debug_info_vec.push(di);
            },
            None => {
                proof {
                    assert(false);
                }
            },
        }
        b = b + 1;
    }
    Ok((exec_info_vec, debug_info_vec))
}

/// A sequence of empty slots has no filled ones.
proof fn lemma_count_some_zero<T>(s: Seq<Option<T>>)
    requires
        forall|i: int| 0 <= i < s.len() ==> s[i] is None,
    ensures
        count_some(s) == 0,
    decreases s.len(),
{
    if s.len() > 0 {
        lemma_count_some_zero(s.drop_last());
    }
}

} // verus!
