use gb_core::cpu::{Flag, Registers};

#[test]
fn test_registers_get_upper() {
    assert_eq!(Registers::get_upper(0xABCD), 0xAB);
}

#[test]
fn test_registers_get_lower() {
    assert_eq!(Registers::get_lower(0xABCD), 0xCD);
}

#[test]
fn test_concat() {
    let upper = 0xAB;
    let lower = 0xCD;

    assert_eq!(Registers::concat(upper, lower), 0xABCD);
}

#[test]
fn concat_of_split_gives_word_back() {
    for w in [0x0000u16, 0x0001, 0x00FF, 0x0100, 0x1234, 0x8000, 0xABCD, 0xFFFF] {
        let hi = Registers::get_upper(w);
        let lo = Registers::get_lower(w);
        assert_eq!(Registers::concat(hi, lo), w);
    }
}

#[test]
fn inc_upper_wraps_and_keeps_lower() {
    assert_eq!(Registers::inc_upper(0x1234), 0x1334);
    assert_eq!(Registers::inc_upper(0xFF34), 0x0034);
}

#[test]
fn dec_upper_wraps_and_keeps_lower() {
    assert_eq!(Registers::dec_upper(0x1234), 0x1134);
    assert_eq!(Registers::dec_upper(0x0034), 0xFF34);
}

#[test]
fn set_flag_then_get_flag_round_trips() {
    let flags = [Flag::Zero, Flag::Subtraction, Flag::HalfCarry, Flag::Carry];
    // Whatever the other flags held before, setting and reading one flag
    // gives the value written, and the other three keep their state.
    for af0 in [0x0000u16, 0x010F, 0xAB05, 0xFF0A] {
        for (i, k) in flags.iter().enumerate() {
            for v in [true, false] {
                let mut r = Registers::dmg();
                r.af = af0;
                let before: Vec<bool> = flags.iter().map(|f| r.get_flag(*f)).collect();
                r.set_flag(*k, v);
                assert_eq!(r.get_flag(*k), v);
                for (j, f) in flags.iter().enumerate() {
                    if j != i {
                        assert_eq!(r.get_flag(*f), before[j]);
                    }
                }
                assert_eq!(Registers::get_upper(r.af), Registers::get_upper(af0));
            }
        }
    }
}

#[test]
fn is_carry_reads_bit_three() {
    let mut r = Registers::dmg();
    r.af = 0x0008;
    assert!(r.is_carry());
    r.af = 0x0007;
    assert!(!r.is_carry());
    r.set_flag(Flag::Carry, true);
    assert!(r.is_carry());
    r.set_flag(Flag::Carry, false);
    assert!(!r.is_carry());
}

#[test]
fn dmg_boot_values() {
    let r = Registers::dmg();
    assert_eq!(r.af, 0x01B0);
    assert_eq!(r.bc, 0x0013);
    assert_eq!(r.de, 0x00D8);
    assert_eq!(r.hl, 0x014D);
    assert_eq!(r.sp, 0xFFFE);
    assert_eq!(r.pc, 0x0100);
}
