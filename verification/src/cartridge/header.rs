use vstd::prelude::*;

verus! {

/// Cartridge type: which memory-bank controller family the header byte at
/// offset 0x147 names.
#[allow(non_camel_case_types)]
#[derive(Clone, Copy, Debug, PartialEq, Eq, Structural)]
pub enum CartridgeType {
    ROM_ONLY,
    MBC1,
    MBC1_RAM,
    MBC1_RAM_BATTERY,
    MBC2,
    MBC2_BATTERY,
    ROM_RAM,
    ROM_RAM_BATTERY,
    MMM01,
    MMM01_RAM,
    MMM01_RAM_BATTERY,
    MBC3_TIMER_BATTERY,
    MBC3_TIMER_RAM_BATTERY,
    MBC3,
    MBC3_RAM,
    MBC3_RAM_BATTERY,
    MBC5,
    MBC5_RAM,
    MBC5_RAM_BATTERY,
    MBC5_RUMBLE,
    MBC5_RUMBLE_RAM,
    MBC5_RUMBLE_RAM_BATTERY,
    MBC6,
    MBC7_SENSOR_RUMBLE_RAM_BATTERY,
    POCKET_CAMERA,
    BANDAI_TAMA5,
    HUC3,
    HUC1_RAM_BATTERY,
    /// The byte is assigned to no known controller family.
    Unsupported,
}

/// The cartridge type each value of the header byte at 0x147 decodes to.
pub open spec fn cartridge_type_of(byte: u8) -> CartridgeType {
    match byte {
        0x00 => CartridgeType::ROM_ONLY,
        0x01 => CartridgeType::MBC1,
        0x02 => CartridgeType::MBC1_RAM,
        0x03 => CartridgeType::MBC1_RAM_BATTERY,
        0x05 => CartridgeType::MBC2,
        0x06 => CartridgeType::MBC2_BATTERY,
        0x08 => CartridgeType::ROM_RAM,
        0x09 => CartridgeType::ROM_RAM_BATTERY,
        0x0B => CartridgeType::MMM01,
        0x0C => CartridgeType::MMM01_RAM,
        0x0D => CartridgeType::MMM01_RAM_BATTERY,
        0x0F => CartridgeType::MBC3_TIMER_BATTERY,
        0x10 => CartridgeType::MBC3_TIMER_RAM_BATTERY,
        0x11 => CartridgeType::MBC3,
        0x12 => CartridgeType::MBC3_RAM,
        0x13 => CartridgeType::MBC3_RAM_BATTERY,
        0x19 => CartridgeType::MBC5,
        0x1A => CartridgeType::MBC5_RAM,
        0x1B => CartridgeType::MBC5_RAM_BATTERY,
        0x1C => CartridgeType::MBC5_RUMBLE,
        0x1D => CartridgeType::MBC5_RUMBLE_RAM,
        0x1E => CartridgeType::MBC5_RUMBLE_RAM_BATTERY,
        0x20 => CartridgeType::MBC6,
        0x22 => CartridgeType::MBC7_SENSOR_RUMBLE_RAM_BATTERY,
        0xFC => CartridgeType::POCKET_CAMERA,
        0xFD => CartridgeType::BANDAI_TAMA5,
        0xFE => CartridgeType::HUC3,
        0xFF => CartridgeType::HUC1_RAM_BATTERY,
        _ => CartridgeType::Unsupported,
    }
}

impl From<u8> for CartridgeType {
    fn from(byte: u8) -> (r: CartridgeType) {
        match byte {
            0x00 => CartridgeType::ROM_ONLY,
            0x01 => CartridgeType::MBC1,
            0x02 => CartridgeType::MBC1_RAM,
            0x03 => CartridgeType::MBC1_RAM_BATTERY,
            0x05 => CartridgeType::MBC2,
            0x06 => CartridgeType::MBC2_BATTERY,
            0x08 => CartridgeType::ROM_RAM,
            0x09 => CartridgeType::ROM_RAM_BATTERY,
            0x0B => CartridgeType::MMM01,
            0x0C => CartridgeType::MMM01_RAM,
            0x0D => CartridgeType::MMM01_RAM_BATTERY,
            0x0F => CartridgeType::MBC3_TIMER_BATTERY,
            0x10 => CartridgeType::MBC3_TIMER_RAM_BATTERY,
            0x11 => CartridgeType::MBC3,
            0x12 => CartridgeType::MBC3_RAM,
            0x13 => CartridgeType::MBC3_RAM_BATTERY,
            0x19 => CartridgeType::MBC5,
            0x1A => CartridgeType::MBC5_RAM,
            0x1B => CartridgeType::MBC5_RAM_BATTERY,
            0x1C => CartridgeType::MBC5_RUMBLE,
            0x1D => CartridgeType::MBC5_RUMBLE_RAM,
            0x1E => CartridgeType::MBC5_RUMBLE_RAM_BATTERY,
            0x20 => CartridgeType::MBC6,
            0x22 => CartridgeType::MBC7_SENSOR_RUMBLE_RAM_BATTERY,
            0xFC => CartridgeType::POCKET_CAMERA,
            0xFD => CartridgeType::BANDAI_TAMA5,
            0xFE => CartridgeType::HUC3,
            0xFF => CartridgeType::HUC1_RAM_BATTERY,
            _ => CartridgeType::Unsupported,
        }
    }
}

impl vstd::std_specs::convert::FromSpecImpl<u8> for CartridgeType {
    open spec fn obeys_from_spec() -> bool {
        true
    }

    open spec fn from_spec(byte: u8) -> CartridgeType {
        cartridge_type_of(byte)
    }
}

/// What the bytes of a header text field decode to: the characters of the
/// field if it is valid text, absent otherwise.
pub uninterp spec fn utf8_chars(bytes: Seq<u8>) -> Option<Seq<char>>;

/// Relies on String::from_utf8: it succeeds exactly on valid UTF-8 input, and
/// bytes below 0x80 decode to the characters with the same values.
#[verifier::external_body]
fn utf8_to_string(bytes: Vec<u8>) -> (r: Option<String>)
    ensures
        (match r {
            Some(s) => utf8_chars(bytes@) == Some(s@),
            None => utf8_chars(bytes@) is None,
        }),
        (forall|i: int| 0 <= i < bytes@.len() ==> bytes@[i] < 0x80) ==> (r matches Some(s)
            && s@.len() == bytes@.len() && forall|i: int|
            0 <= i < bytes@.len() ==> s@[i] == bytes@[i] as char),
{
    String::from_utf8(bytes).ok()
}

/// The byte sequence with its trailing zero-padding bytes removed.
pub open spec fn trim_zeros(s: Seq<u8>) -> Seq<u8>
    decreases s.len(),
{
    if s.len() > 0 && s.last() == 0 {
        trim_zeros(s.drop_last())
    } else {
        s
    }
}

/// What a header text field decodes to: trailing zero padding is removed and
/// the rest is decoded as text. A trailing zero byte never changes whether
/// the rest of the field is valid text, so trimming first agrees with
/// decoding first.
pub open spec fn decode_field(s: Seq<u8>) -> Option<Seq<char>> {
    utf8_chars(trim_zeros(s))
}

/// Cartridge header metadata, decoded from the fixed-offset fields of the
/// image.
#[derive(Debug)]
pub struct Header {
    /// Length in bytes of the whole cartridge image.
    pub raw_size: usize,
    /// Title field (0x134..0x143), absent if it is not valid text.
    pub title: Option<String>,
    /// Manufacturer code (0x13F..0x142), absent if it is not valid text.
    pub manufacturer: Option<String>,
    /// New licensee code (0x144..0x145), absent if it is not valid text.
    pub licensee: Option<String>,
    /// CGB compatibility flag byte (0x143).
    pub cgb: u8,
    /// SGB compatibility flag byte (0x146).
    pub sgb: u8,
    /// Controller family named by the cartridge-type byte (0x147).
    pub cartridge_type: CartridgeType,
    /// ROM size code (0x148).
    pub rom_size: u8,
    /// RAM size code (0x149).
    pub ram_size: u8,
}

/// Whether `h` holds exactly the metadata that the fixed-offset header
/// fields of `bytes` decode to.
pub open spec fn header_matches(h: Header, bytes: Seq<u8>) -> bool {
    &&& h.raw_size == bytes.len()
    &&& (match h.title {
        Some(s) => decode_field(bytes.subrange(0x134, 0x143)) == Some(s@),
        None => decode_field(bytes.subrange(0x134, 0x143)) is None,
    })
    &&& (match h.manufacturer {
        Some(s) => decode_field(bytes.subrange(0x13F, 0x142)) == Some(s@),
        None => decode_field(bytes.subrange(0x13F, 0x142)) is None,
    })
    &&& (match h.licensee {
        Some(s) => decode_field(bytes.subrange(0x144, 0x145)) == Some(s@),
        None => decode_field(bytes.subrange(0x144, 0x145)) is None,
    })
    &&& h.cgb == bytes[0x143]
    &&& h.sgb == bytes[0x146]
    &&& h.cartridge_type == cartridge_type_of(bytes[0x147])
    &&& h.rom_size == bytes[0x148]
    &&& h.ram_size == bytes[0x149]
}

/// Decodes the header fields at their fixed offsets from a cartridge image
/// of at least 0x150 bytes.
pub fn get_header(bytes: &[u8]) -> (h: Header)
    requires
        bytes@.len() >= 0x150,
    ensures
        header_matches(h, bytes@),
{
    Header {
        raw_size: bytes.len(),
        title: read_string(bytes, 0x134, 0x143),
        manufacturer: read_string(bytes, 0x13F, 0x142),
        licensee: read_string(bytes, 0x144, 0x145),
        cgb: bytes[0x143],
        sgb: bytes[0x146],
        cartridge_type: CartridgeType::from(bytes[0x147]),
        rom_size: bytes[0x148],
        ram_size: bytes[0x149],
    }
}

/// Decodes the field at `start..end` as text, with trailing zero padding
/// trimmed; absent if the field is not valid text.
fn read_string(bytes: &[u8], start: usize, end: usize) -> (r: Option<String>)
    requires
        start <= end <= bytes@.len(),
    ensures
        (match r {
            Some(s) => decode_field(bytes@.subrange(start as int, end as int)) == Some(s@),
            None => decode_field(bytes@.subrange(start as int, end as int)) is None,
        }),
{
    let ghost field = bytes@.subrange(start as int, end as int);
    let mut v: Vec<u8> = Vec::new();
    let mut i: usize = start;
    while i < end
        invariant
            start <= i <= end <= bytes@.len(),
            v@ == bytes@.subrange(start as int, i as int),
        decreases end - i,
    {
        v.push(bytes[i]);
        proof {
            assert(bytes@.subrange(start as int, i + 1) =~= bytes@.subrange(
                start as int,
                i as int,
            ).push(bytes@[i as int]));
        }
        i = i + 1;
    }
    while v.len() > 0 && v[v.len() - 1] == 0
        invariant
            trim_zeros(v@) == trim_zeros(field),
        decreases v@.len(),
    {
        proof {
            assert(v@.drop_last() =~= v@.subrange(0, v@.len() - 1));
        }
        v.pop();
    }
    utf8_to_string(v)
}

} // verus!
