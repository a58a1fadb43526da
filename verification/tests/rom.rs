use trustines::rom_loader::load_ines;
use trustines::rom_loader::InesError;

const BANK: usize = 0x4000;

fn header(banks: u8, flags_6: u8, flags_7: u8) -> Vec<u8> {
    let mut v = vec![0x4E, 0x45, 0x53, 0x1A, banks, 0, flags_6, flags_7];
    v.resize(16, 0);
    v
}

fn image(banks: u8) -> Vec<u8> {
    let mut v = header(banks, 0, 0);
    for i in 0..(banks as usize) * BANK {
        v.push((i % 251) as u8);
    }
    v
}

#[test]
fn load_ines_single_bank_mirrors_both_halves() {
    let data = image(1);
    let v = load_ines(&data).unwrap();
    assert_eq!(0x10000, v.len());
    assert_eq!(0, v[0]);
    assert_eq!(0, v[0x7FFF]);
    for i in [0usize, 1, 100, BANK - 1] {
        assert_eq!(data[16 + i], v[0x8000 + i]);
        assert_eq!(data[16 + i], v[0xC000 + i]);
    }
}

#[test]
fn load_ines_two_banks_in_order() {
    let data = image(2);
    let v = load_ines(&data).unwrap();
    for i in [0usize, 7, BANK - 1] {
        assert_eq!(data[16 + i], v[0x8000 + i]);
        assert_eq!(data[16 + BANK + i], v[0xC000 + i]);
    }
}

#[test]
fn load_ines_rejects_bad_magic() {
    let mut data = image(1);
    data[0] = 0x4D;
    assert!(matches!(load_ines(&data), Err(InesError::InesFormat(_))));
}

#[test]
fn load_ines_rejects_unsupported_version() {
    let mut data = image(1);
    data[7] = 1;
    assert!(matches!(load_ines(&data), Err(InesError::Unsupported(_))));
}

#[test]
fn load_ines_rejects_trainer_request() {
    let mut data = image(1);
    data[6] = 0x04;
    assert!(matches!(load_ines(&data), Err(InesError::Unsupported(_))));
}

#[test]
fn load_ines_rejects_short_file() {
    assert!(matches!(load_ines(&[0x4E, 0x45, 0x53]), Err(InesError::InesFormat(_))));
    let data = header(1, 0, 0);
    assert!(matches!(load_ines(&data), Err(InesError::InesFormat(_))));
}
