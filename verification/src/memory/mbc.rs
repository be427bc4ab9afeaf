use vstd::prelude::*;

use crate::cartridge::header::CartridgeType;

verus! {

/// Bank-selection state of the active memory-bank controller. It is created
/// when a cartridge is loaded and mutated only by writes the processor
/// issues into the control-register address windows of the ROM region.
#[derive(Clone, Copy, Debug, PartialEq, Eq, Structural)]
#[allow(inconsistent_fields)]
pub enum Mbc {
    /// Fixed, unbanked mapping; writes into the ROM window are ignored.
    NoMbc,
    /// MBC1 family: a 5-bit low ROM bank index (never zero), a 2-bit latch
    /// that feeds either the high ROM bank bits or the RAM bank index
    /// depending on the banking mode, and a RAM-enable gate.
    Mbc1 {
        rom_bank_low: u8,
        rom_bank_high: u8,
        ram_bank: u8,
        ram_banking_mode: bool,
        ram_enabled: bool,
    },
    /// MBC3 family: a 7-bit ROM bank index (never zero) and a RAM-bank
    /// select whose values at or above 0x08 reach the latched clock register
    /// set (the dispatch point exists; no clock device is attached here).
    Mbc3 { rom_bank: u8, ram_select: u8, ram_enabled: bool },
    /// MBC5 family: a 9-bit ROM bank index split across two write windows.
    Mbc5 { rom_bank: u16, ram_bank: u8, ram_enabled: bool },
    /// A controller family no strategy implements: every access into the
    /// cartridge windows fails rather than reading zero or dropping writes.
    Unsupported,
}

/// Range invariant of the controller state: every stored bank index fits the
/// width of its selection register.
pub open spec fn mbc_wf(m: Mbc) -> bool {
    match m {
        Mbc::NoMbc => true,
        Mbc::Mbc1 { rom_bank_low, rom_bank_high, ram_bank, .. } => 1 <= rom_bank_low < 32
            && rom_bank_high < 4 && ram_bank < 4,
        Mbc::Mbc3 { rom_bank, ram_select, .. } => 1 <= rom_bank < 128 && ram_select < 16,
        Mbc::Mbc5 { rom_bank, ram_bank, .. } => rom_bank < 512 && ram_bank < 16,
        Mbc::Unsupported => true,
    }
}

/// The freshly created controller state for a cartridge type: bank 1
/// selected, RAM disabled, ROM-banking mode latched.
pub open spec fn mbc_for_type(t: CartridgeType) -> Mbc {
    match t {
        CartridgeType::ROM_ONLY => Mbc::NoMbc,
        CartridgeType::ROM_RAM => Mbc::NoMbc,
        CartridgeType::ROM_RAM_BATTERY => Mbc::NoMbc,
        CartridgeType::MBC1 => initial_mbc1(),
        CartridgeType::MBC1_RAM => initial_mbc1(),
        CartridgeType::MBC1_RAM_BATTERY => initial_mbc1(),
        CartridgeType::MBC3_TIMER_BATTERY => initial_mbc3(),
        CartridgeType::MBC3_TIMER_RAM_BATTERY => initial_mbc3(),
        CartridgeType::MBC3 => initial_mbc3(),
        CartridgeType::MBC3_RAM => initial_mbc3(),
        CartridgeType::MBC3_RAM_BATTERY => initial_mbc3(),
        CartridgeType::MBC5 => initial_mbc5(),
        CartridgeType::MBC5_RAM => initial_mbc5(),
        CartridgeType::MBC5_RAM_BATTERY => initial_mbc5(),
        CartridgeType::MBC5_RUMBLE => initial_mbc5(),
        CartridgeType::MBC5_RUMBLE_RAM => initial_mbc5(),
        CartridgeType::MBC5_RUMBLE_RAM_BATTERY => initial_mbc5(),
        _ => Mbc::Unsupported,
    }
}

/// Initial MBC1 state.
pub open spec fn initial_mbc1() -> Mbc {
    Mbc::Mbc1 {
        rom_bank_low: 1,
        rom_bank_high: 0,
        ram_bank: 0,
        ram_banking_mode: false,
        ram_enabled: false,
    }
}

/// Initial MBC3 state.
pub open spec fn initial_mbc3() -> Mbc {
    Mbc::Mbc3 { rom_bank: 1, ram_select: 0, ram_enabled: false }
}

/// Initial MBC5 state.
pub open spec fn initial_mbc5() -> Mbc {
    Mbc::Mbc5 { rom_bank: 1, ram_bank: 0, ram_enabled: false }
}

/// How a write into the ROM window (a control-register write) changes the
/// controller state. ROM bytes themselves are never mutated.
///
/// Windows: 0x0000..0x2000 gates RAM (unlocked exactly when the written
/// value's low nibble is the sentinel 0x0A); 0x2000..0x4000 selects the low
/// ROM bank bits, with zero remapped to one where bank zero is not
/// independently selectable; 0x4000..0x6000 selects the RAM bank or the high
/// ROM bank bits; 0x6000..0x8000 latches the banking mode (MBC1) or the
/// clock (MBC3; ignored, since no clock device is attached).
pub open spec fn ctrl_write(m: Mbc, addr: u16, v: u8) -> Mbc
    recommends
        addr < 0x8000,
{
    match m {
        Mbc::NoMbc => Mbc::NoMbc,
        Mbc::Mbc1 { rom_bank_low, rom_bank_high, ram_bank, ram_banking_mode, ram_enabled } => {
            if addr < 0x2000 {
                Mbc::Mbc1 {
                    rom_bank_low,
                    rom_bank_high,
                    ram_bank,
                    ram_banking_mode,
                    ram_enabled: v % 16 == 0x0A,
                }
            } else if addr < 0x4000 {
                Mbc::Mbc1 {
                    rom_bank_low: if v % 32 == 0 {
                        1
                    } else {
                        (v % 32) as u8
                    },
                    rom_bank_high,
                    ram_bank,
                    ram_banking_mode,
                    ram_enabled,
                }
            } else if addr < 0x6000 {
                if ram_banking_mode {
                    Mbc::Mbc1 {
                        rom_bank_low,
                        rom_bank_high,
                        ram_bank: (v % 4) as u8,
                        ram_banking_mode,
                        ram_enabled,
                    }
                } else {
                    Mbc::Mbc1 {
                        rom_bank_low,
                        rom_bank_high: (v % 4) as u8,
                        ram_bank,
                        ram_banking_mode,
                        ram_enabled,
                    }
                }
            } else {
                Mbc::Mbc1 {
                    rom_bank_low,
                    rom_bank_high,
                    ram_bank,
                    ram_banking_mode: v % 2 == 1,
                    ram_enabled,
                }
            }
        },
        Mbc::Mbc3 { rom_bank, ram_select, ram_enabled } => {
            if addr < 0x2000 {
                Mbc::Mbc3 { rom_bank, ram_select, ram_enabled: v % 16 == 0x0A }
            } else if addr < 0x4000 {
                Mbc::Mbc3 {
                    rom_bank: if v % 128 == 0 {
                        1
                    } else {
                        (v % 128) as u8
                    },
                    ram_select,
                    ram_enabled,
                }
            } else if addr < 0x6000 {
                Mbc::Mbc3 { rom_bank, ram_select: (v % 16) as u8, ram_enabled }
            } else {
                Mbc::Mbc3 { rom_bank, ram_select, ram_enabled }
            }
        },
        Mbc::Mbc5 { rom_bank, ram_bank, ram_enabled } => {
            if addr < 0x2000 {
                Mbc::Mbc5 { rom_bank, ram_bank, ram_enabled: v % 16 == 0x0A }
            } else if addr < 0x3000 {
                Mbc::Mbc5 {
                    rom_bank: if rom_bank >= 256 {
                        (256 + v) as u16
                    } else {
                        v as u16
                    },
                    ram_bank,
                    ram_enabled,
                }
            } else if addr < 0x4000 {
                Mbc::Mbc5 {
                    rom_bank: (rom_bank % 256 + (v % 2) * 256) as u16,
                    ram_bank,
                    ram_enabled,
                }
            } else if addr < 0x6000 {
                Mbc::Mbc5 { rom_bank, ram_bank: (v % 16) as u8, ram_enabled }
            } else {
                Mbc::Mbc5 { rom_bank, ram_bank, ram_enabled }
            }
        },
        Mbc::Unsupported => Mbc::Unsupported,
    }
}

/// The raw (unclamped) bank index the controller selects for the switchable
/// half of the ROM window.
pub open spec fn switchable_rom_bank(m: Mbc) -> nat {
    match m {
        Mbc::NoMbc => 1,
        Mbc::Mbc1 { rom_bank_low, rom_bank_high, .. } => (rom_bank_high * 32 + rom_bank_low) as nat,
        Mbc::Mbc3 { rom_bank, .. } => rom_bank as nat,
        Mbc::Mbc5 { rom_bank, .. } => rom_bank as nat,
        Mbc::Unsupported => 1,
    }
}

/// The raw (unclamped) RAM bank index the controller selects.
pub open spec fn selected_ram_bank(m: Mbc) -> nat {
    match m {
        Mbc::NoMbc => 0,
        Mbc::Mbc1 { ram_bank, .. } => ram_bank as nat,
        Mbc::Mbc3 { ram_select, .. } => ram_select as nat,
        Mbc::Mbc5 { ram_bank, .. } => ram_bank as nat,
        Mbc::Unsupported => 0,
    }
}

/// Whether an access in the RAM window reaches a cartridge RAM cell: the
/// gate must be unlocked and, for MBC3, the select register must name a RAM
/// bank rather than a clock register.
pub open spec fn ram_accessible(m: Mbc) -> bool {
    match m {
        Mbc::NoMbc => true,
        Mbc::Mbc1 { ram_enabled, .. } => ram_enabled,
        Mbc::Mbc3 { ram_select, ram_enabled, .. } => ram_enabled && ram_select < 4,
        Mbc::Mbc5 { ram_enabled, .. } => ram_enabled,
        Mbc::Unsupported => false,
    }
}

impl Mbc {
    /// Dispatches a cartridge type to its controller strategy, freshly
    /// initialized.
    pub fn for_cartridge_type(t: &CartridgeType) -> (m: Mbc)
        ensures
            m == mbc_for_type(*t),
            mbc_wf(m),
    {
        match t {
            CartridgeType::ROM_ONLY => Mbc::NoMbc,
            CartridgeType::ROM_RAM => Mbc::NoMbc,
            CartridgeType::ROM_RAM_BATTERY => Mbc::NoMbc,
            CartridgeType::MBC1 | CartridgeType::MBC1_RAM | CartridgeType::MBC1_RAM_BATTERY => {
                Mbc::Mbc1 {
                    rom_bank_low: 1,
                    rom_bank_high: 0,
                    ram_bank: 0,
                    ram_banking_mode: false,
                    ram_enabled: false,
                }
            },
            CartridgeType::MBC3_TIMER_BATTERY | CartridgeType::MBC3_TIMER_RAM_BATTERY
            | CartridgeType::MBC3 | CartridgeType::MBC3_RAM | CartridgeType::MBC3_RAM_BATTERY => {
                Mbc::Mbc3 { rom_bank: 1, ram_select: 0, ram_enabled: false }
            },
            CartridgeType::MBC5 | CartridgeType::MBC5_RAM | CartridgeType::MBC5_RAM_BATTERY
            | CartridgeType::MBC5_RUMBLE | CartridgeType::MBC5_RUMBLE_RAM
            | CartridgeType::MBC5_RUMBLE_RAM_BATTERY => {
                Mbc::Mbc5 { rom_bank: 1, ram_bank: 0, ram_enabled: false }
            },
            _ => Mbc::Unsupported,
        }
    }

    /// Applies a control-register write. The state stays well formed: every
    /// written bank index is masked to the width of its register.
    pub fn control_write(&mut self, addr: u16, v: u8)
        requires
            addr < 0x8000,
            mbc_wf(*old(self)),
        ensures
            *final(self) == ctrl_write(*old(self), addr, v),
            mbc_wf(*final(self)),
    {
        match *self {
            Mbc::NoMbc => {},
            Mbc::Mbc1 {
                rom_bank_low,
                rom_bank_high,
                ram_bank,
                ram_banking_mode,
                ram_enabled,
            } => {
                if addr < 0x2000 {
                    *self = Mbc::Mbc1 {
                        rom_bank_low,
                        rom_bank_high,
                        ram_bank,
                        ram_banking_mode,
                        ram_enabled: v % 16 == 0x0A,
                    };
                } else if addr < 0x4000 {
                    let low: u8 = if v % 32 == 0 {
                        1
                    } else {
                        v % 32
                    };
                    *self = Mbc::Mbc1 {
                        rom_bank_low: low,
                        rom_bank_high,
                        ram_bank,
                        ram_banking_mode,
                        ram_enabled,
                    };
                } else if addr < 0x6000 {
                    if ram_banking_mode {
                        *self = Mbc::Mbc1 {
                            rom_bank_low,
                            rom_bank_high,
                            ram_bank: v % 4,
                            ram_banking_mode,
                            ram_enabled,
                        };
                    } else {
                        *self = Mbc::Mbc1 {
                            rom_bank_low,
                            rom_bank_high: v % 4,
                            ram_bank,
                            ram_banking_mode,
                            ram_enabled,
                        };
                    }
                } else {
                    *self = Mbc::Mbc1 {
                        rom_bank_low,
                        rom_bank_high,
                        ram_bank,
                        ram_banking_mode: v % 2 == 1,
                        ram_enabled,
                    };
                }
            },
            Mbc::Mbc3 { rom_bank, ram_select, ram_enabled } => {
                if addr < 0x2000 {
                    *self = Mbc::Mbc3 { rom_bank, ram_select, ram_enabled: v % 16 == 0x0A };
                } else if addr < 0x4000 {
                    let bank: u8 = if v % 128 == 0 {
                        1
                    } else {
                        v % 128
                    };
                    *self = Mbc::Mbc3 { rom_bank: bank, ram_select, ram_enabled };
                } else if addr < 0x6000 {
                    *self = Mbc::Mbc3 { rom_bank, ram_select: v % 16, ram_enabled };
                } else {
                    // Clock latch window: the dispatch point for a future
                    // clock device; without one the write changes nothing.
                }
            },
            Mbc::Mbc5 { rom_bank, ram_bank, ram_enabled } => {
                if addr < 0x2000 {
                    *self = Mbc::Mbc5 { rom_bank, ram_bank, ram_enabled: v % 16 == 0x0A };
                } else if addr < 0x3000 {
                    let bank: u16 = if rom_bank >= 256 {
                        256 + (v as u16)
                    } else {
                        v as u16
                    };
                    *self = Mbc::Mbc5 { rom_bank: bank, ram_bank, ram_enabled };
                } else if addr < 0x4000 {
                    let bank: u16 = rom_bank % 256 + ((v % 2) as u16) * 256;
                    *self = Mbc::Mbc5 { rom_bank: bank, ram_bank, ram_enabled };
                } else if addr < 0x6000 {
                    *self = Mbc::Mbc5 { rom_bank, ram_bank: v % 16, ram_enabled };
                } else {
                }
            },
            Mbc::Unsupported => {},
        }
    }
}

} // verus!
