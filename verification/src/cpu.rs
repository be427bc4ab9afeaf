use vstd::prelude::*;

pub mod instruction;

use crate::cartridge::CartridgeError;
use crate::memory::{
    mem_read, mem_read_word, mem_wf, mem_write, mem_write_word, MemView, Memory,
};

verus! {

/// High byte of a 16-bit word.
pub open spec fn upper_spec(w: u16) -> u8 {
    (w >> 8) as u8
}

/// Low byte of a 16-bit word.
pub open spec fn lower_spec(w: u16) -> u8 {
    (w & 0x00FF) as u8
}

/// The 16-bit word whose high byte is `hi` and whose low byte is `lo`.
pub open spec fn concat_spec(hi: u8, lo: u8) -> u16 {
    ((hi as u16) << 8) | (lo as u16)
}

/// An 8-bit value incremented with wraparound modulo 256.
pub open spec fn inc8_spec(b: u8) -> u8 {
    if b == 255 {
        0
    } else {
        (b + 1) as u8
    }
}

/// An 8-bit value decremented with wraparound modulo 256.
pub open spec fn dec8_spec(b: u8) -> u8 {
    if b == 0 {
        255
    } else {
        (b - 1) as u8
    }
}

/// 16-bit addition wrapping modulo 2^16, as program-counter and address
/// arithmetic do.
pub open spec fn wadd(w: u16, n: u16) -> u16 {
    if w + n > 0xFFFF {
        (w + n - 0x10000) as u16
    } else {
        (w + n) as u16
    }
}

/// One of the four condition bits held in the low byte of `af`.
///
/// Bit layout of the flag byte (the low byte of `af`): bit 0 is Zero, bit 1 is
/// Subtraction, bit 2 is HalfCarry, bit 3 is Carry. Bits 4 through 7 are
/// unused: no flag-mutating operation ever sets them.
#[derive(Clone, Copy, Debug, PartialEq, Eq, Structural)]
pub enum Flag {
    Zero,
    Subtraction,
    HalfCarry,
    Carry,
}

/// The single bit of the flag byte that holds the given flag.
pub open spec fn flag_mask(k: Flag) -> u8 {
    match k {
        Flag::Zero => 0x01,
        Flag::Subtraction => 0x02,
        Flag::HalfCarry => 0x04,
        Flag::Carry => 0x08,
    }
}

/// Whether the given flag is set in the flag byte (the low byte of `af`).
pub open spec fn get_flag_spec(af: u16, k: Flag) -> bool {
    lower_spec(af) & flag_mask(k) != 0
}

/// `af` with the given flag forced to `v`: exactly one bit of the low byte
/// changes, and the accumulator byte is untouched.
pub open spec fn set_flag_spec(af: u16, k: Flag, v: bool) -> u16 {
    if v {
        concat_spec(upper_spec(af), lower_spec(af) | flag_mask(k))
    } else {
        concat_spec(upper_spec(af), lower_spec(af) & !flag_mask(k))
    }
}

/// Splitting a word into its two bytes and recomposing them gives the word
/// back, for every 16-bit value.
pub proof fn lemma_concat_upper_lower(w: u16)
    ensures
        concat_spec(upper_spec(w), lower_spec(w)) == w,
{
    assert((((((w >> 8) as u8) as u16) << 8) | (((w & 0x00FF) as u8) as u16)) == w)
        by (bit_vector);
}

/// Composition is inverted exactly by the two byte extractions.
pub proof fn lemma_concat_parts(hi: u8, lo: u8)
    ensures
        upper_spec(concat_spec(hi, lo)) == hi,
        lower_spec(concat_spec(hi, lo)) == lo,
{
    assert((((((hi as u16) << 8) | (lo as u16)) >> 8) as u8 == hi) && ((((hi as u16) << 8 | (
    lo as u16)) & 0x00FF) as u8 == lo)) by (bit_vector);
}

/// Setting or clearing one bit leaves every disjoint bit group unchanged,
/// and the bit itself holds exactly the value written.
proof fn lemma_mask_update(f: u8, m: u8, n: u8)
    ensures
        m & n == 0 ==> (f | m) & n == f & n,
        m & n == 0 ==> (f & !m) & n == f & n,
        (f | m) & m == m,
        (f & !m) & m == 0,
{
    assert((m & n == 0 ==> (f | m) & n == f & n) && (m & n == 0 ==> (f & !m) & n == f & n) && ((f
        | m) & m == m) && ((f & !m) & m == 0)) by (bit_vector);
}

/// Distinct flags occupy disjoint bits, every flag bit is nonzero, and no
/// flag bit overlaps the unused high nibble of the flag byte.
proof fn lemma_flag_masks(a: Flag, b: Flag)
    ensures
        a != b ==> flag_mask(a) & flag_mask(b) == 0,
        flag_mask(a) != 0,
        flag_mask(a) & 0xF0 == 0,
{
    assert(0x01u8 & 0x02 == 0 && 0x01u8 & 0x04 == 0 && 0x01u8 & 0x08 == 0 && 0x02u8 & 0x01 == 0
        && 0x02u8 & 0x04 == 0 && 0x02u8 & 0x08 == 0 && 0x04u8 & 0x01 == 0 && 0x04u8 & 0x02 == 0
        && 0x04u8 & 0x08 == 0 && 0x08u8 & 0x01 == 0 && 0x08u8 & 0x02 == 0 && 0x08u8 & 0x04 == 0
        && 0x01u8 & 0xF0 == 0 && 0x02u8 & 0xF0 == 0 && 0x04u8 & 0xF0 == 0 && 0x08u8 & 0xF0 == 0)
        by (bit_vector);
}

/// After forcing one flag, reading that flag gives exactly the value written,
/// every other flag keeps its prior value, and the accumulator byte and the
/// unused high nibble of the flag byte are untouched.
pub proof fn lemma_flag_round_trip(af: u16, k: Flag, v: bool)
    ensures
        get_flag_spec(set_flag_spec(af, k, v), k) == v,
        forall|j: Flag| j != k ==> get_flag_spec(set_flag_spec(af, k, v), j) == get_flag_spec(
            af,
            j,
        ),
        upper_spec(set_flag_spec(af, k, v)) == upper_spec(af),
        lower_spec(set_flag_spec(af, k, v)) & 0xF0 == lower_spec(af) & 0xF0,
{
    let f = lower_spec(af);
    let m = flag_mask(k);
    lemma_flag_masks(k, k);
    lemma_mask_update(f, m, m);
    if v {
        lemma_concat_parts(upper_spec(af), f | m);
    } else {
        lemma_concat_parts(upper_spec(af), f & !m);
    }
    lemma_mask_update(f, m, 0xF0);
    lemma_flag_masks(k, Flag::Zero);
    assert forall|j: Flag| j != k implies get_flag_spec(set_flag_spec(af, k, v), j)
        == get_flag_spec(af, j) by {
        lemma_flag_masks(k, j);
        lemma_mask_update(f, m, flag_mask(j));
    }
}

/// The six 16-bit register pairs of the machine.
///
/// The low byte of `af` is the flag register; see `Flag` for its layout.
#[derive(Clone, Copy, Debug, PartialEq, Eq, Structural)]
pub struct Registers {
    /// Accumulator (high byte) and flag register (low byte).
    pub af: u16,
    pub bc: u16,
    pub de: u16,
    pub hl: u16,
    pub sp: u16,
    pub pc: u16,
}

impl Default for Registers {
    /// The boot register values.
    fn default() -> (r: Registers)
        ensures
            r == (Registers {
                af: 0x01B0u16,
                bc: 0x0013u16,
                de: 0x00D8u16,
                hl: 0x014Du16,
                sp: 0xFFFEu16,
                pc: 0x0100u16,
            }),
    {
        Registers::dmg()
    }
}

impl Registers {
    /// The register values the handheld boots with.
    pub fn dmg() -> (r: Registers)
        ensures
            r == (Registers {
                af: 0x01B0u16,
                bc: 0x0013u16,
                de: 0x00D8u16,
                hl: 0x014Du16,
                sp: 0xFFFEu16,
                pc: 0x0100u16,
            }),
    {
        Registers { af: 0x01B0, bc: 0x0013, de: 0x00D8, hl: 0x014D, sp: 0xFFFE, pc: 0x0100 }
    }

    /// High byte of a register pair.
    pub fn get_upper(word: u16) -> (r: u8)
        ensures
            r == upper_spec(word),
    {
        (word >> 8) as u8
    }

    /// Low byte of a register pair.
    pub fn get_lower(word: u16) -> (r: u8)
        ensures
            r == lower_spec(word),
    {
        (word & 0x00FF) as u8
    }

    /// Composes a register pair from a high and a low byte.
    pub fn concat(upper: u8, lower: u8) -> (r: u16)
        ensures
            r == concat_spec(upper, lower),
    {
        ((upper as u16) << 8) | (lower as u16)
    }

    /// Increments the high byte of a pair, wrapping modulo 256; the low byte
    /// is masked off before recombining and comes through unchanged.
    pub fn inc_upper(word: u16) -> (r: u16)
        ensures
            r == concat_spec(inc8_spec(upper_spec(word)), lower_spec(word)),
            upper_spec(r) == (upper_spec(word) + 1) % 256,
            lower_spec(r) == lower_spec(word),
    {
        let hi = Self::get_upper(word);
        let new_hi: u8 = if hi == 255 {
            0
        } else {
            hi + 1
        };
        proof {
            lemma_concat_parts(inc8_spec(upper_spec(word)), lower_spec(word));
        }
        Self::concat(new_hi, Self::get_lower(word))
    }

    /// Decrements the high byte of a pair, wrapping modulo 256; the low byte
    /// comes through unchanged.
    pub fn dec_upper(word: u16) -> (r: u16)
        ensures
            r == concat_spec(dec8_spec(upper_spec(word)), lower_spec(word)),
            upper_spec(r) == (upper_spec(word) + 255) % 256,
            lower_spec(r) == lower_spec(word),
    {
        let hi = Self::get_upper(word);
        let new_hi: u8 = if hi == 0 {
            255
        } else {
            hi - 1
        };
        proof {
            lemma_concat_parts(dec8_spec(upper_spec(word)), lower_spec(word));
        }
        Self::concat(new_hi, Self::get_lower(word))
    }

    /// Whether the Carry flag is set.
    pub fn is_carry(&self) -> (r: bool)
        ensures
            r == get_flag_spec(self.af, Flag::Carry),
    {
        (Self::get_lower(self.af) & 0x08) > 0
    }

    /// Reads one flag bit of the flag register.
    pub fn get_flag(&self, k: Flag) -> (r: bool)
        ensures
            r == get_flag_spec(self.af, k),
    {
        let m: u8 = match k {
            Flag::Zero => 0x01,
            Flag::Subtraction => 0x02,
            Flag::HalfCarry => 0x04,
            Flag::Carry => 0x08,
        };
        (Self::get_lower(self.af) & m) != 0
    }

    /// Forces one flag bit of the flag register to `v`, leaving the other
    /// three flags, the unused high nibble, and every other register
    /// untouched.
    pub fn set_flag(&mut self, k: Flag, v: bool)
        ensures
            final(self).af == set_flag_spec(old(self).af, k, v),
            final(self).bc == old(self).bc,
            final(self).de == old(self).de,
            final(self).hl == old(self).hl,
            final(self).sp == old(self).sp,
            final(self).pc == old(self).pc,
    {
        let m: u8 = match k {
            Flag::Zero => 0x01,
            Flag::Subtraction => 0x02,
            Flag::HalfCarry => 0x04,
            Flag::Carry => 0x08,
        };
        let f = Self::get_lower(self.af);
        let new_f: u8 = if v {
            f | m
        } else {
            f & !m
        };
        self.af = Self::concat(Self::get_upper(self.af), new_f);
    }
}

/// `af` after a left-rotate-with-carry of the accumulator: the accumulator
/// shifted left one bit with the bit shifted out wrapped into bit 0, that
/// same bit in the Carry flag, and the other three flags cleared.
pub open spec fn rlca_af(af: u16) -> u16 {
    let a = upper_spec(af);
    concat_spec(
        (a << 1) | (a >> 7),
        if a & 0x80 != 0 {
            0x08
        } else {
            0x00
        },
    )
}

/// Registers after incrementing the high byte of `bc`: the byte wraps modulo
/// 256 and the low byte is untouched; Zero holds exactly when the result is
/// zero, Subtraction is cleared, HalfCarry holds exactly when the low nibble
/// carried, and Carry is untouched.
pub open spec fn inc_b_spec(regs: Registers) -> Registers {
    let b = upper_spec(regs.bc);
    let nb = inc8_spec(b);
    Registers {
        bc: concat_spec(nb, lower_spec(regs.bc)),
        af: set_flag_spec(
            set_flag_spec(set_flag_spec(regs.af, Flag::Zero, nb == 0), Flag::Subtraction, false),
            Flag::HalfCarry,
            b % 16 == 15,
        ),
        ..regs
    }
}

/// Registers after decrementing the high byte of `bc`: the byte wraps modulo
/// 256 and the low byte is untouched; Zero holds exactly when the result is
/// zero, Subtraction is set, HalfCarry holds exactly when the low nibble
/// borrowed, and Carry is untouched.
pub open spec fn dec_b_spec(regs: Registers) -> Registers {
    let b = upper_spec(regs.bc);
    let nb = dec8_spec(b);
    Registers {
        bc: concat_spec(nb, lower_spec(regs.bc)),
        af: set_flag_spec(
            set_flag_spec(set_flag_spec(regs.af, Flag::Zero, nb == 0), Flag::Subtraction, true),
            Flag::HalfCarry,
            b % 16 == 0,
        ),
        ..regs
    }
}

/// Registers after adding `bc` to `hl` modulo 2^16: Subtraction is cleared,
/// HalfCarry holds exactly when the low 12 bits carried, Carry holds exactly
/// when the full 16 bits carried, and Zero is untouched.
pub open spec fn add_hl_bc_spec(regs: Registers) -> Registers {
    Registers {
        hl: wadd(regs.hl, regs.bc),
        af: set_flag_spec(
            set_flag_spec(
                set_flag_spec(regs.af, Flag::Subtraction, false),
                Flag::HalfCarry,
                regs.hl % 0x1000 + regs.bc % 0x1000 > 0xFFF,
            ),
            Flag::Carry,
            regs.hl + regs.bc > 0xFFFF,
        ),
        ..regs
    }
}

/// The machine transition of executing one operation whose opcode byte has
/// already been fetched: the registers and bus after it, and the cycle cost
/// or the fault. Immediate operands are fetched at `pc` (least-significant
/// byte first), advancing `pc` past them. An opcode the decode table defines
/// no operation for faults with its value and the program counter at the
/// time of the fault; a fetch or store that the bus refuses passes the bus
/// fault through with the registers as they stood at the refusal.
#[verifier::opaque]
pub open spec fn exec_spec(regs: Registers, mem: MemView, op: u8) -> (Registers, MemView, Result<
    u32,
    CartridgeError,
>) {
    match op {
        0x00 => (regs, mem, Ok(4)),
        0x01 => match mem_read_word(mem, regs.pc) {
            Ok(w) => (Registers { bc: w, pc: wadd(regs.pc, 2), ..regs }, mem, Ok(12)),
            Err(e) => (regs, mem, Err(e)),
        },
        0x02 => match mem_write(mem, regs.bc, upper_spec(regs.af)) {
            Ok(m) => (regs, m, Ok(8)),
            Err(e) => (regs, mem, Err(e)),
        },
        0x03 => (Registers { bc: wadd(regs.bc, 1), ..regs }, mem, Ok(8)),
        0x04 => (inc_b_spec(regs), mem, Ok(4)),
        0x05 => (dec_b_spec(regs), mem, Ok(4)),
        0x06 => match mem_read(mem, regs.pc) {
            Ok(b) => (
                Registers {
                    bc: concat_spec(b, lower_spec(regs.bc)),
                    pc: wadd(regs.pc, 1),
                    ..regs
                },
                mem,
                Ok(8),
            ),
            Err(e) => (regs, mem, Err(e)),
        },
        0x07 => (Registers { af: rlca_af(regs.af), ..regs }, mem, Ok(4)),
        0x08 => match mem_read_word(mem, regs.pc) {
            Ok(addr) => {
                let regs1 = Registers { pc: wadd(regs.pc, 2), ..regs };
                let written = mem_write_word(mem, addr, regs.sp);
                match written.1 {
                    Ok(u) => (regs1, written.0, Ok(20)),
                    Err(e) => (regs1, written.0, Err(e)),
                }
            },
            Err(e) => (regs, mem, Err(e)),
        },
        0x09 => (add_hl_bc_spec(regs), mem, Ok(8)),
        0xCB => match mem_read(mem, regs.pc) {
            Ok(ext) => (
                Registers { pc: wadd(regs.pc, 1), ..regs },
                mem,
                Err(CartridgeError::UnimplementedOpcode { opcode: ext, pc: regs.pc }),
            ),
            Err(e) => (regs, mem, Err(e)),
        },
        _ => (regs, mem, Err(CartridgeError::UnimplementedOpcode { opcode: op, pc: regs.pc })),
    }
}

/// One full step of the engine: fetch the byte at `pc`, advance `pc` past
/// it, and execute the operation it names.
pub open spec fn step_spec(regs: Registers, mem: MemView) -> (Registers, MemView, Result<
    u32,
    CartridgeError,
>) {
    match mem_read(mem, regs.pc) {
        Ok(op) => exec_spec(Registers { pc: wadd(regs.pc, 1), ..regs }, mem, op),
        Err(e) => (regs, mem, Err(e)),
    }
}

/// Every opcode byte the decode table defines no operation for (other than
/// the extended-table prefix) faults as unimplemented, carrying the byte and
/// the program counter; it never acts as a no-op.
pub proof fn lemma_undecoded_opcode_faults(regs: Registers, mem: MemView, op: u8)
    requires
        crate::cpu::instruction::decode_spec(op) is None,
        op != 0xCB,
    ensures
        exec_spec(regs, mem, op).0 == regs,
        exec_spec(regs, mem, op).1 == mem,
        exec_spec(regs, mem, op).2 == Err::<u32, CartridgeError>(
            CartridgeError::UnimplementedOpcode { opcode: op, pc: regs.pc },
        ),
{
    reveal(exec_spec);
}

/// Every operation that completes costs at most 20 cycles.
pub proof fn lemma_step_cycles(regs: Registers, mem: MemView)
    ensures
        step_spec(regs, mem).2 matches Ok(c) ==> c <= 20,
{
    reveal(exec_spec);
}

/// The execution engine: it owns the register file and borrows the bus for
/// the duration of one instruction step.
#[derive(Clone, Copy, Debug, PartialEq, Eq, Structural)]
pub struct Cpu {
    pub registers: Registers,
}

impl Cpu {
    /// An engine with the boot register values.
    pub fn new() -> (c: Cpu)
        ensures
            c.registers == (Registers {
                af: 0x01B0u16,
                bc: 0x0013u16,
                de: 0x00D8u16,
                hl: 0x014Du16,
                sp: 0xFFFEu16,
                pc: 0x0100u16,
            }),
    {
        Cpu { registers: Registers::dmg() }
    }

    /// Fetches one immediate byte at `pc` and advances `pc` past it; on a
    /// bus fault nothing moves.
    fn mem_read_byte(&mut self, mem: &Memory) -> (r: Result<u8, CartridgeError>)
        requires
            mem_wf(mem@),
        ensures
            (match mem_read(mem@, old(self).registers.pc) {
                Ok(b) => r == Ok::<u8, CartridgeError>(b) && final(self).registers == (Registers {
                    pc: wadd(old(self).registers.pc, 1),
                    ..old(self).registers
                }),
                Err(e) => r == Err::<u8, CartridgeError>(e) && *final(self) == *old(self),
            }),
    {
        match mem.read_byte(self.registers.pc) {
            Ok(b) => {
                self.registers.pc = self.registers.pc.wrapping_add(1);
                Ok(b)
            },
            Err(e) => Err(e),
        }
    }

    /// Fetches one immediate word at `pc` (least-significant byte first) and
    /// advances `pc` past it; on a bus fault nothing moves.
    fn mem_read_word(&mut self, mem: &Memory) -> (r: Result<u16, CartridgeError>)
        requires
            mem_wf(mem@),
        ensures
            (match mem_read_word(mem@, old(self).registers.pc) {
                Ok(w) => r == Ok::<u16, CartridgeError>(w) && final(self).registers == (Registers {
                    pc: wadd(old(self).registers.pc, 2),
                    ..old(self).registers
                }),
                Err(e) => r == Err::<u16, CartridgeError>(e) && *final(self) == *old(self),
            }),
    {
        match mem.read_word(self.registers.pc) {
            Ok(w) => {
                self.registers.pc = self.registers.pc.wrapping_add(2);
                Ok(w)
            },
            Err(e) => Err(e),
        }
    }

    /// Executes one already-fetched opcode byte against the registers and
    /// the bus, returning the cycle cost; the whole outcome is pinned by
    /// `exec_spec`.
    pub fn execute(&mut self, mem: &mut Memory, op: u8) -> (r: Result<u32, CartridgeError>)
        requires
            mem_wf(old(mem)@),
        ensures
            mem_wf(final(mem)@),
            final(self).registers == exec_spec(old(self).registers, old(mem)@, op).0,
            final(mem)@ == exec_spec(old(self).registers, old(mem)@, op).1,
            r == exec_spec(old(self).registers, old(mem)@, op).2,
    {
        proof {
            reveal(exec_spec);
        }
        match op {
            // NOP
            0x00 => Ok(4),
            // LD BC, u16
            0x01 => match self.mem_read_word(mem) {
                Ok(w) => {
                    self.registers.bc = w;
                    Ok(12)
                },
                Err(e) => Err(e),
            },
            // LD (BC), A
            0x02 => {
                let a = Registers::get_upper(self.registers.af);
                match mem.set_byte(self.registers.bc, a) {
                    Ok(()) => Ok(8),
                    Err(e) => Err(e),
                }
            },
            // INC BC
            0x03 => {
                self.registers.bc = self.registers.bc.wrapping_add(1);
                Ok(8)
            },
            // INC B
            0x04 => {
                let b = Registers::get_upper(self.registers.bc);
                let nb: u8 = if b == 255 {
                    0
                } else {
                    b + 1
                };
                self.registers.bc = Registers::concat(nb, Registers::get_lower(self.registers.bc));
                self.registers.set_flag(Flag::Zero, nb == 0);
                self.registers.set_flag(Flag::Subtraction, false);
                self.registers.set_flag(Flag::HalfCarry, b % 16 == 15);
                Ok(4)
            },
            // DEC B
            0x05 => {
                let b = Registers::get_upper(self.registers.bc);
                let nb: u8 = if b == 0 {
                    255
                } else {
                    b - 1
                };
                self.registers.bc = Registers::concat(nb, Registers::get_lower(self.registers.bc));
                self.registers.set_flag(Flag::Zero, nb == 0);
                self.registers.set_flag(Flag::Subtraction, true);
                self.registers.set_flag(Flag::HalfCarry, b % 16 == 0);
                Ok(4)
            },
            // LD B, u8
            0x06 => match self.mem_read_byte(mem) {
                Ok(b) => {
                    self.registers.bc = Registers::concat(
                        b,
                        Registers::get_lower(self.registers.bc),
                    );
                    Ok(8)
                },
                Err(e) => Err(e),
            },
            // RLCA: rotate the accumulator left; the bit shifted out lands
            // in bit 0 of the result and in the Carry flag, and the other
            // three flags are cleared.
            0x07 => {
                let a = Registers::get_upper(self.registers.af);
                let rotated: u8 = (a << 1) | (a >> 7);
                let f: u8 = if a & 0x80 != 0 {
                    0x08
                } else {
                    0x00
                };
                self.registers.af = Registers::concat(rotated, f);
                Ok(4)
            },
            // LD (u16), SP
            0x08 => match self.mem_read_word(mem) {
                Ok(addr) => match mem.set_word(addr, self.registers.sp) {
                    Ok(()) => Ok(20),
                    Err(e) => Err(e),
                },
                Err(e) => Err(e),
            },
            // ADD HL, BC
            0x09 => {
                let hl = self.registers.hl;
                let bc = self.registers.bc;
                let half = hl % 0x1000 + bc % 0x1000 > 0xFFF;
                let carry = hl > 0xFFFF - bc;
                self.registers.hl = hl.wrapping_add(bc);
                self.registers.set_flag(Flag::Subtraction, false);
                self.registers.set_flag(Flag::HalfCarry, half);
                self.registers.set_flag(Flag::Carry, carry);
                Ok(8)
            },
            // Prefix of the extended decode table: the extended byte is
            // fetched, and every entry faults as unimplemented.
            0xCB => {
                let at = self.registers.pc;
                match self.mem_read_byte(mem) {
                    Ok(ext) => Err(CartridgeError::UnimplementedOpcode { opcode: ext, pc: at }),
                    Err(e) => Err(e),
                }
            },
            _ => Err(
                CartridgeError::UnimplementedOpcode { opcode: op, pc: self.registers.pc },
            ),
        }
    }

    /// One step of the fetch-decode-execute loop: fetches the byte at `pc`,
    /// advances `pc` past it, executes the operation, and reports the cycle
    /// cost; the whole outcome is pinned by `step_spec`. In particular a
    /// no-operation opcode moves the program counter alone, by one.
    pub fn step(&mut self, mem: &mut Memory) -> (r: Result<u32, CartridgeError>)
        requires
            mem_wf(old(mem)@),
        ensures
            mem_wf(final(mem)@),
            final(self).registers == step_spec(old(self).registers, old(mem)@).0,
            final(mem)@ == step_spec(old(self).registers, old(mem)@).1,
            r == step_spec(old(self).registers, old(mem)@).2,
            mem_read(old(mem)@, old(self).registers.pc) == Ok::<u8, CartridgeError>(0u8) ==> (
            final(self).registers == (Registers {
                pc: wadd(old(self).registers.pc, 1),
                ..old(self).registers
            }) && final(mem)@ == old(mem)@ && r == Ok::<u32, CartridgeError>(4u32)),
    {
        proof {
            reveal(exec_spec);
        }
        match self.mem_read_byte(mem) {
            Ok(op) => self.execute(mem, op),
            Err(e) => Err(e),
        }
    }
}

} // verus!
