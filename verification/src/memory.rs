use vstd::prelude::*;

pub mod mbc;

use crate::cartridge::header::Header;
use crate::cartridge::CartridgeError;
use crate::cpu::{concat_spec, lower_spec, upper_spec, wadd};
use crate::memory::mbc::{
    ctrl_write, mbc_for_type, mbc_wf, ram_accessible, selected_ram_bank, switchable_rom_bank, Mbc,
};

verus! {

/// Ghost model of the bus: the fixed internal work storage, the cartridge
/// ROM and RAM cells, the controller state, and the bank counts the header
/// size codes declare.
#[verifier::ext_equal]
pub struct MemView {
    pub internal: Seq<u8>,
    pub rom: Seq<u8>,
    pub ram: Seq<u8>,
    pub mbc: Mbc,
    pub rom_banks: nat,
    pub ram_banks: nat,
}

/// Well-formedness of the bus: internal storage spans the full 16-bit
/// address space, the bank counts are in the ranges the size codes can
/// declare, and the RAM backing holds exactly its declared banks.
pub open spec fn mem_wf(m: MemView) -> bool {
    &&& m.internal.len() == 0x10000
    &&& 1 <= m.rom_banks <= 512
    &&& m.ram_banks <= 16
    &&& m.ram.len() == m.ram_banks * 0x2000
    &&& mbc_wf(m.mbc)
}

/// Addresses routed to the cartridge ROM region (read path; writes there are
/// controller control writes).
pub open spec fn in_rom_window(addr: u16) -> bool {
    addr < 0x8000
}

/// Addresses routed to the cartridge RAM region.
pub open spec fn in_ram_window(addr: u16) -> bool {
    0xA000 <= addr < 0xC000
}

/// The concrete ROM cell a read in the ROM window resolves to: the fixed
/// bank 0 below 0x4000, above it the selected bank clamped into the declared
/// bank count by modulo.
pub open spec fn rom_offset(m: MemView, addr: u16) -> nat
    recommends
        in_rom_window(addr),
        mem_wf(m),
{
    if addr < 0x4000 {
        addr as nat
    } else {
        (switchable_rom_bank(m.mbc) % m.rom_banks) * 0x4000 + (addr - 0x4000) as nat
    }
}

/// The concrete RAM cell an access in the RAM window resolves to, with the
/// selected bank clamped into the declared bank count by modulo.
pub open spec fn ram_offset(m: MemView, addr: u16) -> nat
    recommends
        in_ram_window(addr),
        m.ram_banks > 0,
{
    (selected_ram_bank(m.mbc) % m.ram_banks) * 0x2000 + (addr - 0xA000) as nat
}

/// What reading one byte at a logical address returns.
///
/// Cartridge-window accesses on an unsupported controller fail; a ROM read
/// resolving beyond the image fails as a bank index out of range (the header
/// declared more banks than the image holds); a RAM-window read with the
/// gate locked, a clock register selected, or no RAM declared reads 0xFF;
/// every other address is fixed internal storage.
pub open spec fn mem_read(m: MemView, addr: u16) -> Result<u8, CartridgeError> {
    if m.mbc is Unsupported && (in_rom_window(addr) || in_ram_window(addr)) {
        Err(CartridgeError::UnsupportedCartridgeType)
    } else if in_rom_window(addr) {
        if rom_offset(m, addr) < m.rom.len() {
            Ok(m.rom[rom_offset(m, addr) as int])
        } else {
            Err(CartridgeError::BankIndexOutOfRange)
        }
    } else if in_ram_window(addr) {
        if ram_accessible(m.mbc) && m.ram_banks > 0 {
            Ok(m.ram[ram_offset(m, addr) as int])
        } else {
            Ok(0xFF)
        }
    } else {
        Ok(m.internal[addr as int])
    }
}

/// What writing one byte at a logical address does to the bus.
///
/// In the ROM window nothing of the image changes: the byte goes to the
/// controller's selection registers. In the RAM window the byte lands in
/// the selected RAM cell when the RAM gate stands unlocked, and nowhere when it
/// stands locked; with an unsupported controller the access fails. Anywhere
/// else the byte lands in internal work storage.
pub open spec fn mem_write(m: MemView, addr: u16, v: u8) -> Result<MemView, CartridgeError> {
    if m.mbc is Unsupported && (in_rom_window(addr) || in_ram_window(addr)) {
        Err(CartridgeError::UnsupportedCartridgeType)
    } else if in_rom_window(addr) {
        Ok(MemView { mbc: ctrl_write(m.mbc, addr, v), ..m })
    } else if in_ram_window(addr) {
        if ram_accessible(m.mbc) && m.ram_banks > 0 {
            Ok(MemView { ram: m.ram.update(ram_offset(m, addr) as int, v), ..m })
        } else {
            Ok(m)
        }
    } else {
        Ok(MemView { internal: m.internal.update(addr as int, v), ..m })
    }
}

/// What reading a 16-bit word returns: two consecutive byte reads, the
/// least-significant byte at the lower address.
pub open spec fn mem_read_word(m: MemView, addr: u16) -> Result<u16, CartridgeError> {
    match mem_read(m, addr) {
        Ok(lo) => match mem_read(m, wadd(addr, 1)) {
            Ok(hi) => Ok(concat_spec(hi, lo)),
            Err(e) => Err(e),
        },
        Err(e) => Err(e),
    }
}

/// What writing a 16-bit word does: two consecutive byte writes, the
/// least-significant byte at the lower address. The pair is the bus after
/// the attempt and the outcome; a failure of the second write leaves the
/// first in place.
pub open spec fn mem_write_word(m: MemView, addr: u16, w: u16) -> (MemView, Result<
    (),
    CartridgeError,
>) {
    match mem_write(m, addr, lower_spec(w)) {
        Err(e) => (m, Err(e)),
        Ok(m1) => match mem_write(m1, wadd(addr, 1), upper_spec(w)) {
            Err(e) => (m1, Err(e)),
            Ok(m2) => (m2, Ok(())),
        },
    }
}

/// The bus before any cartridge is loaded: zeroed internal storage, an empty
/// image behind the unbanked controller, no RAM.
pub open spec fn initial_mem() -> MemView {
    MemView {
        internal: Seq::new(0x10000, |i: int| 0u8),
        rom: Seq::empty(),
        ram: Seq::empty(),
        mbc: Mbc::NoMbc,
        rom_banks: 1,
        ram_banks: 0,
    }
}

/// ROM bank count declared by the size code at header offset 0x148: the
/// image doubles from 2 banks of 0x4000 bytes per step of the code. An
/// unassigned code declares the smallest image, so that reads resolving
/// beyond the real image surface as bank-index faults rather than clamping
/// silently.
pub open spec fn rom_banks_spec(code: u8) -> nat {
    match code {
        0 => 2,
        1 => 4,
        2 => 8,
        3 => 16,
        4 => 32,
        5 => 64,
        6 => 128,
        7 => 256,
        8 => 512,
        _ => 2,
    }
}

/// RAM bank count declared by the size code at header offset 0x149, in banks
/// of 0x2000 bytes. Code 1 historically names a quarter-size chip; one full
/// bank backs it. An unassigned code declares no RAM.
pub open spec fn ram_banks_spec(code: u8) -> nat {
    match code {
        0 => 0,
        1 => 1,
        2 => 1,
        3 => 4,
        4 => 16,
        5 => 8,
        _ => 0,
    }
}

/// The bus right after a cartridge is loaded: the image bytes behind a fresh
/// controller, zeroed RAM of the declared size, internal storage kept.
pub open spec fn loaded_mem(m: MemView, rom: Seq<u8>, h: Header) -> MemView {
    MemView {
        internal: m.internal,
        rom: rom,
        ram: Seq::new(ram_banks_spec(h.ram_size) * 0x2000, |i: int| 0u8),
        mbc: mbc_for_type(h.cartridge_type),
        rom_banks: rom_banks_spec(h.rom_size),
        ram_banks: ram_banks_spec(h.ram_size),
    }
}

/// A vector of `n` zero bytes.
fn zero_vec(n: usize) -> (v: Vec<u8>)
    ensures
        v@ == Seq::new(n as nat, |i: int| 0u8),
{
    let mut v: Vec<u8> = Vec::new();
    while v.len() < n
        invariant
            v@.len() <= n,
            forall|i: int| 0 <= i < v@.len() ==> v@[i] == 0u8,
        decreases n - v@.len(),
    {
        v.push(0);
    }
    proof {
        assert(v@ =~= Seq::new(n as nat, |i: int| 0u8));
    }
    v
}

/// The single addressable-space abstraction the execution engine talks to.
///
/// Cartridge-region accesses are delegated to the active controller; all
/// other addresses resolve to fixed internal work storage owned directly by
/// the bus.
#[derive(Debug)]
pub struct Memory {
    internal: Vec<u8>,
    rom: Vec<u8>,
    ram: Vec<u8>,
    mbc: Mbc,
    rom_banks: usize,
    ram_banks: usize,
}

impl View for Memory {
    type V = MemView;

    closed spec fn view(&self) -> MemView {
        MemView {
            internal: self.internal@,
            rom: self.rom@,
            ram: self.ram@,
            mbc: self.mbc,
            rom_banks: self.rom_banks as nat,
            ram_banks: self.ram_banks as nat,
        }
    }
}

impl Default for Memory {
    /// A bus with no cartridge loaded.
    fn default() -> (m: Memory)
        ensures
            m@ == initial_mem(),
            mem_wf(m@),
    {
        Memory::new()
    }
}

impl Memory {
    /// A bus with no cartridge loaded.
    pub fn new() -> (m: Memory)
        ensures
            m@ == initial_mem(),
            mem_wf(m@),
    {
        let m = Memory {
            internal: zero_vec(0x10000),
            rom: Vec::new(),
            ram: Vec::new(),
            mbc: Mbc::NoMbc,
            rom_banks: 1,
            ram_banks: 0,
        };
        proof {
            assert(m@ =~= initial_mem());
        }
        m
    }

    /// ROM bank count for a size code.
    fn rom_bank_count(code: u8) -> (n: usize)
        ensures
            n == rom_banks_spec(code),
    {
        match code {
            0 => 2,
            1 => 4,
            2 => 8,
            3 => 16,
            4 => 32,
            5 => 64,
            6 => 128,
            7 => 256,
            8 => 512,
            _ => 2,
        }
    }

    /// RAM bank count for a size code.
    fn ram_bank_count(code: u8) -> (n: usize)
        ensures
            n == ram_banks_spec(code),
    {
        match code {
            0 => 0,
            1 => 1,
            2 => 1,
            3 => 4,
            4 => 16,
            5 => 8,
            _ => 0,
        }
    }

    /// Loads a cartridge image: the bytes become the ROM region, the header
    /// codes fix the bank counts, fresh zeroed RAM is allocated, and the
    /// controller named by the cartridge type is created.
    pub fn load(&mut self, rom: Vec<u8>, header: &Header)
        requires
            mem_wf(old(self)@),
        ensures
            final(self)@ == loaded_mem(old(self)@, rom@, *header),
            mem_wf(final(self)@),
    {
        let ram_banks = Self::ram_bank_count(header.ram_size);
        self.rom = rom;
        self.ram = zero_vec(ram_banks * 0x2000);
        self.mbc = Mbc::for_cartridge_type(&header.cartridge_type);
        self.rom_banks = Self::rom_bank_count(header.rom_size);
        self.ram_banks = ram_banks;
        proof {
            assert(self@ =~= loaded_mem(old(self)@, rom@, *header));
        }
    }

    /// The ROM bank selected for the switchable window, clamped into the
    /// declared bank count.
    fn switchable_bank(&self) -> (b: usize)
        requires
            mem_wf(self@),
        ensures
            b == switchable_rom_bank(self@.mbc) % self@.rom_banks,
            b < self@.rom_banks,
    {
        let raw: usize = match self.mbc {
            Mbc::NoMbc => 1,
            Mbc::Mbc1 { rom_bank_low, rom_bank_high, .. } => (rom_bank_high as usize) * 32 + (
            rom_bank_low as usize),
            Mbc::Mbc3 { rom_bank, .. } => rom_bank as usize,
            Mbc::Mbc5 { rom_bank, .. } => rom_bank as usize,
            Mbc::Unsupported => 1,
        };
        raw % self.rom_banks
    }

    /// The RAM cell an access in the RAM window resolves to, when RAM is
    /// accessible.
    fn ram_cell(&self, addr: u16) -> (o: usize)
        requires
            mem_wf(self@),
            in_ram_window(addr),
            self@.ram_banks > 0,
        ensures
            o == ram_offset(self@, addr),
            o < self@.ram.len(),
    {
        let raw: usize = match self.mbc {
            Mbc::NoMbc => 0,
            Mbc::Mbc1 { ram_bank, .. } => ram_bank as usize,
            Mbc::Mbc3 { ram_select, .. } => ram_select as usize,
            Mbc::Mbc5 { ram_bank, .. } => ram_bank as usize,
            Mbc::Unsupported => 0,
        };
        let bank = raw % self.ram_banks;
        bank * 0x2000 + (addr as usize - 0xA000)
    }

    /// Reads one byte at a logical address, routed per `mem_read`.
    pub fn read_byte(&self, addr: u16) -> (r: Result<u8, CartridgeError>)
        requires
            mem_wf(self@),
        ensures
            r == mem_read(self@, addr),
    {
        if addr < 0x8000 {
            if matches!(self.mbc, Mbc::Unsupported) {
                return Err(CartridgeError::UnsupportedCartridgeType);
            }
            let offset: usize = if addr < 0x4000 {
                addr as usize
            } else {
                let bank = self.switchable_bank();
                bank * 0x4000 + (addr as usize - 0x4000)
            };
            if offset < self.rom.len() {
                Ok(self.rom[offset])
            } else {
                Err(CartridgeError::BankIndexOutOfRange)
            }
        } else if 0xA000 <= addr && addr < 0xC000 {
            if matches!(self.mbc, Mbc::Unsupported) {
                return Err(CartridgeError::UnsupportedCartridgeType);
            }
            let accessible = match self.mbc {
                Mbc::NoMbc => true,
                Mbc::Mbc1 { ram_enabled, .. } => ram_enabled,
                // Selects at or above 0x08 reach the clock register set: the
                // dispatch point for a future clock device, open bus here.
                Mbc::Mbc3 { ram_select, ram_enabled, .. } => ram_enabled && ram_select < 4,
                Mbc::Mbc5 { ram_enabled, .. } => ram_enabled,
                Mbc::Unsupported => false,
            };
            if accessible && self.ram_banks > 0 {
                Ok(self.ram[self.ram_cell(addr)])
            } else {
                Ok(0xFF)
            }
        } else {
            Ok(self.internal[addr as usize])
        }
    }

    /// Reads a 16-bit word as two consecutive byte reads, least-significant
    /// byte at the lower address.
    pub fn read_word(&self, addr: u16) -> (r: Result<u16, CartridgeError>)
        requires
            mem_wf(self@),
        ensures
            r == mem_read_word(self@, addr),
    {
        match self.read_byte(addr) {
            Ok(lo) => match self.read_byte(addr.wrapping_add(1)) {
                Ok(hi) => Ok(crate::cpu::Registers::concat(hi, lo)),
                Err(e) => Err(e),
            },
            Err(e) => Err(e),
        }
    }

    /// Writes one byte at a logical address, routed per `mem_write`.
    pub fn set_byte(&mut self, addr: u16, v: u8) -> (r: Result<(), CartridgeError>)
        requires
            mem_wf(old(self)@),
        ensures
            mem_wf(final(self)@),
            (match mem_write(old(self)@, addr, v) {
                Ok(m) => r == Ok::<(), CartridgeError>(()) && final(self)@ == m,
                Err(e) => r == Err::<(), CartridgeError>(e) && final(self)@ == old(self)@,
            }),
    {
        if addr < 0x8000 {
            if matches!(self.mbc, Mbc::Unsupported) {
                return Err(CartridgeError::UnsupportedCartridgeType);
            }
            self.mbc.control_write(addr, v);
            proof {
                assert(self@ =~= mem_write(old(self)@, addr, v)->Ok_0);
            }
            Ok(())
        } else if 0xA000 <= addr && addr < 0xC000 {
            if matches!(self.mbc, Mbc::Unsupported) {
                return Err(CartridgeError::UnsupportedCartridgeType);
            }
            let accessible = match self.mbc {
                Mbc::NoMbc => true,
                Mbc::Mbc1 { ram_enabled, .. } => ram_enabled,
                // Clock registers (selects at or above 0x08) would be owned
                // by a clock device; without one the write has no effect.
                Mbc::Mbc3 { ram_select, ram_enabled, .. } => ram_enabled && ram_select < 4,
                Mbc::Mbc5 { ram_enabled, .. } => ram_enabled,
                Mbc::Unsupported => false,
            };
            if accessible && self.ram_banks > 0 {
                let cell = self.ram_cell(addr);
                self.ram.set(cell, v);
                proof {
                    assert(self@ =~= mem_write(old(self)@, addr, v)->Ok_0);
                }
            }
            Ok(())
        } else {
            self.internal.set(addr as usize, v);
            proof {
                assert(self@ =~= mem_write(old(self)@, addr, v)->Ok_0);
            }
            Ok(())
        }
    }

    /// Writes a 16-bit word as two consecutive byte writes, least-significant
    /// byte at the lower address.
    pub fn set_word(&mut self, addr: u16, w: u16) -> (r: Result<(), CartridgeError>)
        requires
            mem_wf(old(self)@),
        ensures
            mem_wf(final(self)@),
            final(self)@ == mem_write_word(old(self)@, addr, w).0,
            r == mem_write_word(old(self)@, addr, w).1,
    {
        let lo = crate::cpu::Registers::get_lower(w);
        let hi = crate::cpu::Registers::get_upper(w);
        match self.set_byte(addr, lo) {
            Err(e) => Err(e),
            Ok(_) => self.set_byte(addr.wrapping_add(1), hi),
        }
    }
}

} // verus!
