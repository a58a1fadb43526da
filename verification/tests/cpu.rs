use trustines::cpu::opcode::load_from_records;
use trustines::cpu::opcode::OpcodeLoadError;
use trustines::cpu::opcode::OpcodeRecord;
use trustines::cpu::AddressMode;
use trustines::cpu::CpuExecutor;
use trustines::cpu::CpuState;
use trustines::cpu::OpcodeClass;
use trustines::cpu::OpcodeExecInfo;
use trustines::memory::Memory;
use trustines::memory::MemoryError;
use trustines::cpu::cpu_executor::ExecutionError;

fn record(op: u8, name: &str, mode: &str, len: u8) -> OpcodeRecord {
    OpcodeRecord {
        opcode: format!("0x{:02X}", op),
        name: name.to_string(),
        address_mode_name: mode.to_string(),
        len,
        cycles: 2,
        page_cycles: 0,
        notes: String::new(),
    }
}

fn full_records() -> Vec<OpcodeRecord> {
    let mut v = Vec::new();
    for i in 0..256u32 {
        v.push(record(i as u8, "NOP", "Implied", 1));
    }
    v
}

fn plain_executor() -> CpuExecutor {
    let mut v: Vec<OpcodeExecInfo> = Vec::new();
    for i in 0..256u32 {
        v.push(OpcodeExecInfo { opcode: i as u8, ..Default::default() });
    }
    CpuExecutor::new(v)
}

fn cpu_for(class: OpcodeClass, len: u8) -> CpuState {
    let mut cpu: CpuState = Default::default();
    cpu.decode_register.info.opcode_class = class;
    cpu.decode_register.info.len = len;
    cpu
}

// ---------------- opcode table construction ----------------

#[test]
fn opcode_table_builds_complete() {
    let (ev, dv) = load_from_records(full_records()).unwrap();
    assert_eq!(256, ev.len());
    assert_eq!(256, dv.len());
    for i in 0..256usize {
        assert_eq!(i as u8, ev[i].opcode);
        assert_eq!(OpcodeClass::NOP, ev[i].opcode_class);
        assert_eq!(AddressMode::Implied, ev[i].address_mode);
        assert_eq!(1, ev[i].len);
        assert_eq!(i as u8, dv[i].opcode);
        assert_eq!("NOP", dv[i].name);
        assert_eq!("Implied", dv[i].address_mode_name);
    }
}

#[test]
fn opcode_table_indexes_by_opcode_not_input_order() {
    let mut rs = full_records();
    rs.reverse();
    let (ev, _) = load_from_records(rs).unwrap();
    for i in 0..256usize {
        assert_eq!(i as u8, ev[i].opcode);
    }
}

#[test]
fn opcode_table_accepts_lowercase_hex() {
    let mut rs = full_records();
    rs[255] = OpcodeRecord { opcode: "0xff".to_string(), ..record(0, "NOP", "Implied", 1) };
    let (ev, _) = load_from_records(rs).unwrap();
    assert_eq!(255, ev[255].opcode);
}

#[test]
fn opcode_table_rejects_duplicate() {
    let mut rs = full_records();
    rs[10] = record(5, "NOP", "Implied", 1);
    match load_from_records(rs) {
        Err(OpcodeLoadError::DuplicateOpcode(op)) => assert_eq!(5, op),
        _ => panic!("expected a duplicate-opcode rejection"),
    }
}

#[test]
fn opcode_table_rejects_miscount() {
    let mut rs = full_records();
    rs.pop();
    match load_from_records(rs) {
        Err(OpcodeLoadError::IncorrectOpcodeCount(n)) => assert_eq!(255, n),
        _ => panic!("expected a count rejection"),
    }
}

#[test]
fn opcode_table_rejects_bad_hex() {
    let mut rs = full_records();
    rs[0] = OpcodeRecord { opcode: "0xZZ".to_string(), ..record(0, "NOP", "Implied", 1) };
    match load_from_records(rs) {
        Err(OpcodeLoadError::ParseInt(t)) => assert_eq!("0xZZ", t),
        _ => panic!("expected a hex rejection"),
    }
}

#[test]
fn opcode_table_rejects_unknown_mnemonic() {
    let mut rs = full_records();
    rs[3] = record(3, "FOO", "Implied", 1);
    assert!(matches!(
        load_from_records(rs),
        Err(OpcodeLoadError::ParseOpcodeClass(_))
    ));
}

#[test]
fn opcode_table_rejects_unknown_mode() {
    let mut rs = full_records();
    rs[3] = record(3, "NOP", "Sideways", 1);
    assert!(matches!(
        load_from_records(rs),
        Err(OpcodeLoadError::ParseAddressMode(_))
    ));
}

// ---------------- mnemonic and mode parsing ----------------

#[test]
fn address_mode_from_str_parses_the_closed_set() {
    assert_eq!(AddressMode::Absolute, AddressMode::from_str("Absolute").unwrap());
    assert_eq!(AddressMode::IndexedIndirect, AddressMode::from_str("IndexedIndirect").unwrap());
    assert_eq!(AddressMode::ZeroPageY, AddressMode::from_str("ZeroPageY").unwrap());
    assert!(AddressMode::from_str("absolute").is_err());
    assert!(AddressMode::from_str("").is_err());
}

#[test]
fn opcode_class_from_str_parses_the_closed_set() {
    assert_eq!(OpcodeClass::ADC, OpcodeClass::from_str("ADC").unwrap());
    assert_eq!(OpcodeClass::TYA, OpcodeClass::from_str("TYA").unwrap());
    assert_eq!(OpcodeClass::ILL_XAA, OpcodeClass::from_str("ILL_XAA").unwrap());
    assert!(OpcodeClass::from_str("adc").is_err());
    assert!(OpcodeClass::from_str("NOPE").is_err());
}

// ---------------- flag packing ----------------

#[test]
fn flags_pack_unpack_round_trip() {
    let mut cpu: CpuState = Default::default();
    assert_eq!(0x20, cpu.unpack_flags());
    cpu.pack_flags(0xFF);
    assert!(cpu.C && cpu.Z && cpu.I && cpu.D && cpu.B && cpu.V && cpu.S);
    assert_eq!(0xFF, cpu.unpack_flags());
    cpu.pack_flags(0x00);
    assert_eq!(0x20, cpu.unpack_flags());
}

// ---------------- ADC / SBC / compares ----------------

fn run_adc(a: u8, operand: u8, carry: bool) -> CpuState {
    let exec = plain_executor();
    let mut mem = Memory::new();
    let mut cpu = cpu_for(OpcodeClass::ADC, 2);
    cpu.a = a;
    cpu.C = carry;
    cpu.decode_register.value_final = Some(operand);
    exec.execute(&mut cpu, &mut mem).unwrap();
    cpu
}

#[test]
fn adc_overflow_flag_across_sign_combinations() {
    // positive + positive staying positive: no overflow
    let c = run_adc(0x50, 0x10, false);
    assert_eq!(0x60, c.a);
    assert!(!c.V && !c.C && !c.S && !c.Z);
    // positive + positive turning negative: overflow
    let c = run_adc(0x50, 0x50, false);
    assert_eq!(0xA0, c.a);
    assert!(c.V && !c.C && c.S);
    // mixed signs never overflow
    let c = run_adc(0x50, 0xD0, false);
    assert_eq!(0x20, c.a);
    assert!(!c.V && c.C);
    // negative + negative turning positive: overflow
    let c = run_adc(0xD0, 0x90, false);
    assert_eq!(0x60, c.a);
    assert!(c.V && c.C && !c.S);
    // negative + negative staying negative: no overflow
    let c = run_adc(0xD0, 0xD0, false);
    assert_eq!(0xA0, c.a);
    assert!(!c.V && c.C && c.S);
    // carry-in participates in the sum
    let c = run_adc(0x00, 0xFF, true);
    assert_eq!(0x00, c.a);
    assert!(c.Z && c.C && !c.V);
}

fn run_sbc(a: u8, operand: u8, carry: bool) -> CpuState {
    let exec = plain_executor();
    let mut mem = Memory::new();
    let mut cpu = cpu_for(OpcodeClass::SBC, 2);
    cpu.a = a;
    cpu.C = carry;
    cpu.decode_register.value_final = Some(operand);
    exec.execute(&mut cpu, &mut mem).unwrap();
    cpu
}

#[test]
fn sbc_overflow_flag_across_sign_combinations() {
    // positive - negative turning negative: overflow
    let c = run_sbc(0x50, 0xB0, true);
    assert_eq!(0xA0, c.a);
    assert!(c.V && !c.C && c.S);
    // positive - positive: never overflows
    let c = run_sbc(0x50, 0x30, true);
    assert_eq!(0x20, c.a);
    assert!(!c.V && c.C);
    // negative - positive turning positive: overflow
    let c = run_sbc(0xD0, 0x70, true);
    assert_eq!(0x60, c.a);
    assert!(c.V && c.C && !c.S);
    // negative - negative: never overflows
    let c = run_sbc(0xD0, 0xF0, true);
    assert_eq!(0xE0, c.a);
    assert!(!c.V && !c.C && c.S);
    // a clear carry borrows one more
    let c = run_sbc(0x10, 0x0F, false);
    assert_eq!(0x00, c.a);
    assert!(c.Z && c.C && !c.V);
}

#[test]
fn compares_set_carry_iff_register_at_least_operand() {
    let exec = plain_executor();
    let mut mem = Memory::new();
    for (class, set_reg) in [
        (OpcodeClass::CMP, 0usize),
        (OpcodeClass::CPX, 1usize),
        (OpcodeClass::CPY, 2usize),
    ] {
        for (reg, operand, carry, zero) in [
            (5u8, 3u8, true, false),
            (5, 5, true, true),
            (3, 5, false, false),
            (0, 0xFF, false, false),
            (0xFF, 0, true, false),
        ] {
            let mut cpu = cpu_for(class, 2);
            match set_reg {
                0 => cpu.a = reg,
                1 => cpu.x = reg,
                _ => cpu.y = reg,
            }
            cpu.decode_register.value_final = Some(operand);
            exec.execute(&mut cpu, &mut mem).unwrap();
            assert_eq!(carry, cpu.C);
            assert_eq!(zero, cpu.Z);
        }
    }
}

// ---------------- shifts, loads, logic ----------------

#[test]
fn asl_and_lsr_carry_is_the_bit_shifted_out() {
    let exec = plain_executor();
    let mut mem = Memory::new();
    let mut cpu = cpu_for(OpcodeClass::ASL, 1);
    cpu.a = 0x81;
    exec.execute(&mut cpu, &mut mem).unwrap();
    assert_eq!(0x02, cpu.a);
    assert!(cpu.C && !cpu.Z && !cpu.S);

    let mut cpu = cpu_for(OpcodeClass::LSR, 1);
    cpu.a = 0x01;
    exec.execute(&mut cpu, &mut mem).unwrap();
    assert_eq!(0x00, cpu.a);
    assert!(cpu.C && cpu.Z && !cpu.S);
}

#[test]
fn loads_set_zero_and_sign_flags() {
    let exec = plain_executor();
    let mut mem = Memory::new();
    let mut cpu = cpu_for(OpcodeClass::LDA, 2);
    cpu.decode_register.value_final = Some(0);
    exec.execute(&mut cpu, &mut mem).unwrap();
    assert!(cpu.Z && !cpu.S);
    assert_eq!(1, cpu.pc);

    let mut cpu = cpu_for(OpcodeClass::LDX, 2);
    cpu.decode_register.value_final = Some(0x90);
    exec.execute(&mut cpu, &mut mem).unwrap();
    assert!(!cpu.Z && cpu.S);
    assert_eq!(0x90, cpu.x);
}

#[test]
fn increments_and_decrements_wrap() {
    let exec = plain_executor();
    let mut mem = Memory::new();
    let mut cpu = cpu_for(OpcodeClass::INX, 1);
    cpu.x = 0xFF;
    exec.execute(&mut cpu, &mut mem).unwrap();
    assert_eq!(0, cpu.x);
    assert!(cpu.Z);

    let mut cpu = cpu_for(OpcodeClass::DEY, 1);
    cpu.y = 0;
    exec.execute(&mut cpu, &mut mem).unwrap();
    assert_eq!(0xFF, cpu.y);
    assert!(cpu.S);
}

// ---------------- branches and jumps ----------------

#[test]
fn branch_taken_jumps_and_untaken_advances() {
    let exec = plain_executor();
    let mut mem = Memory::new();
    let mut cpu = cpu_for(OpcodeClass::BCC, 2);
    cpu.pc = 1;
    cpu.C = false;
    cpu.decode_register.addr_final = Some(0x1234);
    exec.execute(&mut cpu, &mut mem).unwrap();
    assert_eq!(0x1234, cpu.pc);

    let mut cpu = cpu_for(OpcodeClass::BCC, 2);
    cpu.pc = 1;
    cpu.C = true;
    cpu.decode_register.addr_final = Some(0x1234);
    exec.execute(&mut cpu, &mut mem).unwrap();
    assert_eq!(2, cpu.pc);
}

#[test]
fn jsr_then_rts_returns_past_the_call() {
    let exec = plain_executor();
    let mut mem = Memory::new();
    // as if a 3-byte JSR at 0x0300 was just fetched
    let mut cpu = cpu_for(OpcodeClass::JSR, 3);
    cpu.pc = 0x0301;
    cpu.sp = 0xFD;
    cpu.decode_register.addr_final = Some(0x5000);
    exec.execute(&mut cpu, &mut mem).unwrap();
    assert_eq!(0x5000, cpu.pc);
    assert_eq!(0xFB, cpu.sp);

    cpu.decode_register = Default::default();
    cpu.decode_register.info.opcode_class = OpcodeClass::RTS;
    cpu.decode_register.info.len = 1;
    exec.execute(&mut cpu, &mut mem).unwrap();
    assert_eq!(0x0303, cpu.pc);
    assert_eq!(0xFD, cpu.sp);
}

// ---------------- stack discipline ----------------

#[test]
fn pha_then_pla_restores_the_accumulator() {
    let exec = plain_executor();
    let mut mem = Memory::new();
    let mut cpu = cpu_for(OpcodeClass::PHA, 1);
    cpu.a = 0x42;
    cpu.sp = 0xFD;
    exec.execute(&mut cpu, &mut mem).unwrap();
    assert_eq!(0xFC, cpu.sp);
    assert_eq!(0x42, mem.read8(0x01FD).unwrap());

    cpu.a = 0;
    cpu.decode_register.info.opcode_class = OpcodeClass::PLA;
    exec.execute(&mut cpu, &mut mem).unwrap();
    assert_eq!(0x42, cpu.a);
    assert_eq!(0xFD, cpu.sp);
}

#[test]
fn php_then_plp_restores_flags_with_the_bit4_rule() {
    let exec = plain_executor();
    let mut mem = Memory::new();
    let mut cpu = cpu_for(OpcodeClass::PHP, 1);
    cpu.sp = 0xFD;
    cpu.C = true;
    cpu.Z = true;
    cpu.V = true;
    cpu.S = true;
    let flags_byte = cpu.unpack_flags();
    exec.execute(&mut cpu, &mut mem).unwrap();
    // the pushed byte carries bits 4 and 5 set
    assert_eq!(flags_byte | 0x30, mem.read8(0x01FD).unwrap());

    cpu.pack_flags(0x00);
    cpu.decode_register.info.opcode_class = OpcodeClass::PLP;
    exec.execute(&mut cpu, &mut mem).unwrap();
    assert!(cpu.C && cpu.Z && cpu.V && cpu.S && !cpu.I && !cpu.D);
    // bit 4 is masked off on the pull
    assert!(!cpu.B);
    assert_eq!(0xFD, cpu.sp);
}

// ---------------- stores and error cases ----------------

#[test]
fn sta_writes_through_the_bus() {
    let exec = plain_executor();
    let mut mem = Memory::new();
    let mut cpu = cpu_for(OpcodeClass::STA, 3);
    cpu.a = 9;
    cpu.pc = 1;
    cpu.decode_register.addr_final = Some(0x10);
    exec.execute(&mut cpu, &mut mem).unwrap();
    assert_eq!(9, mem.read8(0x10).unwrap());
    assert_eq!(3, cpu.pc);
}

#[test]
fn sta_into_ppu_region_is_a_bus_error() {
    let exec = plain_executor();
    let mut mem = Memory::new();
    let mut cpu = cpu_for(OpcodeClass::STA, 3);
    cpu.a = 9;
    cpu.decode_register.addr_final = Some(0x2000);
    match exec.execute(&mut cpu, &mut mem) {
        Err(ExecutionError::MemoryError(MemoryError::PPUAccessViolation(a))) => {
            assert_eq!(0x2000, a)
        },
        _ => panic!("expected a bus access violation"),
    }
    assert_eq!(0, cpu.pc);
}

#[test]
fn unhandled_opcode_class_is_an_execute_error() {
    let exec = plain_executor();
    let mut mem = Memory::new();
    let mut cpu = cpu_for(OpcodeClass::DEC, 2);
    cpu.decode_register.value_final = Some(1);
    assert!(matches!(
        exec.execute(&mut cpu, &mut mem),
        Err(ExecutionError::UnexpectedOpcode(OpcodeClass::DEC))
    ));
}

#[test]
fn unknown_address_mode_is_a_decode_error() {
    let exec = plain_executor();
    let mut mem = Memory::new();
    let mut cpu: CpuState = Default::default();
    // every descriptor in the plain table still has the default mode
    assert!(matches!(
        exec.fetch_and_decode(&mut cpu, &mut mem),
        Err(ExecutionError::UnexpectedAddressMode(_))
    ));
}

// ---------------- power-on / reset ----------------

#[test]
fn power_on_loads_the_reset_vector() {
    let exec = plain_executor();
    let mut mem = Memory::new();
    let _ = mem.write16(0xFFFC, 0xC000);
    let mut cpu: CpuState = Default::default();
    exec.power_on(&mut cpu, &mut mem);
    assert_eq!(0xC000, cpu.pc);
    assert_eq!(0xFD, cpu.sp);
    assert_eq!(0x24, cpu.unpack_flags());
    assert!(cpu.I && !cpu.C && !cpu.Z && !cpu.D && !cpu.B && !cpu.V && !cpu.S);
}

// ---------------- a small end-to-end program ----------------

#[test]
fn step_runs_a_small_program() {
    // LDA #$05; ADC #$03; STA $10 — assembled by hand
    let mut v: Vec<OpcodeExecInfo> = Vec::new();
    for i in 0..256u32 {
        v.push(OpcodeExecInfo { opcode: i as u8, ..Default::default() });
    }
    v[0xA9] = OpcodeExecInfo {
        opcode: 0xA9,
        opcode_class: OpcodeClass::LDA,
        address_mode: AddressMode::Immediate,
        len: 2,
        cycles: 2,
        page_cycles: 0,
    };
    v[0x69] = OpcodeExecInfo {
        opcode: 0x69,
        opcode_class: OpcodeClass::ADC,
        address_mode: AddressMode::Immediate,
        len: 2,
        cycles: 2,
        page_cycles: 0,
    };
    v[0x85] = OpcodeExecInfo {
        opcode: 0x85,
        opcode_class: OpcodeClass::STA,
        address_mode: AddressMode::ZeroPage,
        len: 2,
        cycles: 3,
        page_cycles: 0,
    };
    let exec = CpuExecutor::new(v);
    let mut mem = Memory::new();
    let _ = mem.write(0x0200, &[0xA9, 0x05, 0x69, 0x03, 0x85, 0x10]);
    let mut cpu: CpuState = Default::default();
    cpu.pc = 0x0200;
    exec.step(&mut cpu, &mut mem).unwrap();
    assert_eq!(5, cpu.a);
    assert_eq!(0x0202, cpu.pc);
    exec.step(&mut cpu, &mut mem).unwrap();
    assert_eq!(8, cpu.a);
    exec.step(&mut cpu, &mut mem).unwrap();
    assert_eq!(8, mem.read8(0x10).unwrap());
    assert_eq!(0x0206, cpu.pc);
}

#[test]
fn bit_reads_operand_bits_into_flags() {
    let exec = plain_executor();
    let mut mem = Memory::new();
    let mut cpu = cpu_for(OpcodeClass::BIT, 3);
    cpu.a = 0x0F;
    cpu.decode_register.value_final = Some(0xC0);
    exec.execute(&mut cpu, &mut mem).unwrap();
    // bit 6 -> V, bit 7 -> S, operand & accumulator == 0 -> Z
    assert!(cpu.V && cpu.S && cpu.Z);
    // the accumulator itself is untouched
    assert_eq!(0x0F, cpu.a);

    let mut cpu = cpu_for(OpcodeClass::BIT, 3);
    cpu.a = 0x01;
    cpu.decode_register.value_final = Some(0x01);
    exec.execute(&mut cpu, &mut mem).unwrap();
    assert!(!cpu.V && !cpu.S && !cpu.Z);
}

#[test]
fn logic_ops_combine_with_the_accumulator() {
    let exec = plain_executor();
    let mut mem = Memory::new();
    for (class, a, operand, expected, sign) in [
        (OpcodeClass::AND, 0xCCu8, 0xAAu8, 0x88u8, true),
        (OpcodeClass::ORA, 0xCC, 0xAA, 0xEE, true),
        (OpcodeClass::EOR, 0xCC, 0xAA, 0x66, false),
    ] {
        let mut cpu = cpu_for(class, 2);
        cpu.a = a;
        cpu.decode_register.value_final = Some(operand);
        exec.execute(&mut cpu, &mut mem).unwrap();
        assert_eq!(expected, cpu.a);
        assert_eq!(sign, cpu.S);
        assert!(!cpu.Z);
    }
}

#[test]
fn transfers_move_registers_and_only_txs_skips_flags() {
    let exec = plain_executor();
    let mut mem = Memory::new();
    let mut cpu = cpu_for(OpcodeClass::TAX, 1);
    cpu.a = 0x80;
    exec.execute(&mut cpu, &mut mem).unwrap();
    assert_eq!(0x80, cpu.x);
    assert!(cpu.S && !cpu.Z);

    let mut cpu = cpu_for(OpcodeClass::TXS, 1);
    cpu.x = 0;
    cpu.sp = 0xFD;
    exec.execute(&mut cpu, &mut mem).unwrap();
    assert_eq!(0, cpu.sp);
    // a transfer into the stack pointer leaves the flags alone
    assert!(!cpu.Z && !cpu.S);

    let mut cpu = cpu_for(OpcodeClass::TSX, 1);
    cpu.sp = 0xFD;
    exec.execute(&mut cpu, &mut mem).unwrap();
    assert_eq!(0xFD, cpu.x);
    assert!(cpu.S);
}

#[test]
fn flag_instructions_set_and_clear() {
    let exec = plain_executor();
    let mut mem = Memory::new();
    let mut cpu = cpu_for(OpcodeClass::SEC, 1);
    exec.execute(&mut cpu, &mut mem).unwrap();
    assert!(cpu.C);
    cpu.decode_register.info.opcode_class = OpcodeClass::CLC;
    exec.execute(&mut cpu, &mut mem).unwrap();
    assert!(!cpu.C);
    cpu.decode_register.info.opcode_class = OpcodeClass::SED;
    exec.execute(&mut cpu, &mut mem).unwrap();
    assert!(cpu.D);
    cpu.decode_register.info.opcode_class = OpcodeClass::CLD;
    exec.execute(&mut cpu, &mut mem).unwrap();
    assert!(!cpu.D);
    cpu.decode_register.info.opcode_class = OpcodeClass::SEI;
    exec.execute(&mut cpu, &mut mem).unwrap();
    assert!(cpu.I);
    cpu.V = true;
    cpu.decode_register.info.opcode_class = OpcodeClass::CLV;
    exec.execute(&mut cpu, &mut mem).unwrap();
    assert!(!cpu.V);
}
