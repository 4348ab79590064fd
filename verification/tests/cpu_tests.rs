use libgb_rs::cpu::{CpuData, CpuRegister, FlagRegister};
use libgb_rs::utils::{Merge, Split};

#[test]
fn test_endianness() {
    let mut data = CpuData::new();
    data.set_joined_registers(CpuRegister::B, CpuRegister::C, 0xBEEF);

    let high = data.get_register(CpuRegister::B);
    let low = data.get_register(CpuRegister::C);

    let n16 = data.get_joined_registers(CpuRegister::B, CpuRegister::C);

    assert_eq!(
        n16,
        high.merge(low),
        "Data should be assigned with the most significant byte in the first register"
    );
}

#[test]
fn test_bank_pair_packing() {
    let mut data = CpuData::new();
    data.set_joined_registers(CpuRegister::B, CpuRegister::C, 0xBEEF);

    assert_eq!(data.get_register(CpuRegister::B), 0xBE);
    assert_eq!(data.get_register(CpuRegister::C), 0xEF);
    assert_eq!(data.get_joined_registers(CpuRegister::B, CpuRegister::C), 0xBEEF);
}

#[test]
fn test_merge_split_round_trip() {
    let (hi, lo) = 0xBEEFu16.split();
    assert_eq!((hi, lo), (0xBE, 0xEF));
    assert_eq!(hi.merge(lo), 0xBEEF);

    let w = 0x0102u16.split();
    assert_eq!(w, (0x01, 0x02));

    for value in [0u16, 1, 0x00FF, 0xFF00, 0xABCD, 0xFFFF] {
        let (high, low) = value.split();
        assert_eq!(high.merge(low), value);
    }
}

#[test]
fn test_flag_register_bits() {
    let flags = FlagRegister { zero: true, subtract: false, half_carry: true, carry: false };
    assert_eq!(flags.to_bits(), 0xA0);

    let parsed = FlagRegister::from_bits(0x50);
    assert!(!parsed.zero);
    assert!(parsed.subtract);
    assert!(!parsed.half_carry);
    assert!(parsed.carry);

    // the low four bits always read as zero
    let round = FlagRegister::from_bits(0x0F);
    assert_eq!(round.to_bits(), 0x00);
}

#[test]
fn test_set_register_reads_back() {
    let mut data = CpuData::new();
    data.set_register(CpuRegister::H, 0x12);
    data.set_register(CpuRegister::L, 0x34);
    assert_eq!(data.get_register(CpuRegister::H), 0x12);
    assert_eq!(data.get_register(CpuRegister::L), 0x34);
    assert_eq!(data.get_joined_registers(CpuRegister::H, CpuRegister::L), 0x1234);
}
