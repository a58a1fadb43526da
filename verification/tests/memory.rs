use trustines::memory::Memory;

#[test]
fn write() {
    let mut m = Memory::new();
    let _ = m.write(0, &[0, 1, 2]);
    assert_eq!(0, m.read8(0).unwrap());
    assert_eq!(1, m.read8(1).unwrap());
    assert_eq!(2, m.read8(2).unwrap());
    let _ = m.write(1, &[3]);
    assert_eq!(0, m.read8(0).unwrap());
    assert_eq!(3, m.read8(1).unwrap());
    assert_eq!(2, m.read8(2).unwrap());
}

#[test]
fn read8_basic() {
    let mut m = Memory::new();
    let _ = m.write(0, &[5, 10]);
    assert_eq!(5, m.read8(0).unwrap());
    assert_eq!(10, m.read8(1).unwrap());
}

#[test]
fn write8_basic() {
    let mut m = Memory::new();
    let _ = m.write8(0, 5);
    assert_eq!(5, m.mem[0]);

    let _ = m.write8(1, 10);
    assert_eq!(5, m.mem[0]);
    assert_eq!(10, m.mem[1]);
}

#[test]
fn read16_basic() {
    let mut m = Memory::new();
    let _ = m.write(0, &[2, 1, 0]);
    assert_eq!(258, m.read16(0).unwrap());
    assert_eq!(1, m.read16(1).unwrap());
}

#[test]
fn write16_basic() {
    let mut m = Memory::new();
    let _ = m.write16(0, 258);
    assert_eq!(2, m.mem[0]);
    assert_eq!(1, m.mem[1]);
}

#[test]
fn readwrite8() {
    let mut m = Memory::new();
    let _ = m.write8(0, 5);
    let _ = m.write8(1, 10);
    assert_eq!(5, m.read8(0).unwrap());
    assert_eq!(10, m.read8(1).unwrap());
}

#[test]
fn readwrite16() {
    let mut m = Memory::new();
    let _ = m.write16(0, 258);
    let _ = m.write16(2, 300);
    assert_eq!(258, m.read16(0).unwrap());
    assert_eq!(300, m.read16(2).unwrap());
}

#[test]
fn ram_mirrors_every_2kb() {
    let mut m = Memory::new();
    let _ = m.write8(0, 5);
    assert_eq!(5, m.read8(0x0800).unwrap());
    assert_eq!(5, m.read8(0x1000).unwrap());
    assert_eq!(5, m.read8(0x1800).unwrap());
}

#[test]
fn ppu_and_apu_regions_are_errors() {
    let mut m = Memory::new();
    assert!(matches!(
        m.read8(0x2000),
        Err(trustines::memory::MemoryError::PPUAccessViolation(_))
    ));
    assert!(matches!(
        m.read8(0x3FFF),
        Err(trustines::memory::MemoryError::PPUAccessViolation(_))
    ));
    assert!(matches!(
        m.write8(0x4000, 1),
        Err(trustines::memory::MemoryError::APUAccessViolation(_))
    ));
    assert_eq!(0, m.read8(0x4020).unwrap());
}
