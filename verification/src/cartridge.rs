use vstd::prelude::*;

pub mod header;

use crate::cartridge::header::{get_header, header_matches, Header};

verus! {

/// Largest cartridge image the machine accepts, in bytes.
pub const MAX_BYTES: usize = 1_572_864;

/// Every way the machine can fail. All of these are unrecoverable where they
/// occur and propagate to the top-level caller as one tagged result.
#[derive(Clone, Copy, Debug, PartialEq, Eq, Structural)]
pub enum CartridgeError {
    /// The image could not be read from storage.
    IoFailure,
    /// The image exceeds the maximum supported byte length.
    OversizedImage,
    /// An access reached a controller family that no strategy implements.
    UnsupportedCartridgeType,
    /// The decode table has no operation for the fetched byte; carries the
    /// opcode value and the program counter at the time of the fault.
    UnimplementedOpcode { opcode: u8, pc: u16 },
    /// A computed storage offset lies outside the image: the header declared
    /// more banks than the image holds.
    BankIndexOutOfRange,
}

/// A cartridge: an immutable raw byte sequence plus its decoded header.
///
/// The view of a cartridge is its byte sequence.
pub struct Cartridge {
    contents: Vec<u8>,
    header: Header,
}

impl View for Cartridge {
    type V = Seq<u8>;

    closed spec fn view(&self) -> Seq<u8> {
        self.contents@
    }
}

impl Cartridge {
    /// The metadata decoded from the fixed-offset header fields.
    pub closed spec fn spec_header(self) -> Header {
        self.header
    }

    /// Metadata decoded from the fixed-offset header fields.
    pub fn header(&self) -> (h: &Header)
        ensures
            *h == self.spec_header(),
    {
        &self.header
    }
    /// Accepts an image of at most `MAX_BYTES` bytes and decodes its header;
    /// a longer image is rejected as oversized.
    pub fn new(bytes: Vec<u8>) -> (r: Result<Cartridge, CartridgeError>)
        requires
            bytes@.len() >= 0x150,
        ensures
            bytes@.len() <= MAX_BYTES ==> (r matches Ok(c) && c@ == bytes@ && header_matches(
                c.spec_header(),
                bytes@,
            )),
            bytes@.len() > MAX_BYTES ==> r == Err::<Cartridge, CartridgeError>(
                CartridgeError::OversizedImage,
            ),
    {
        if bytes.len() > MAX_BYTES {
            Err(CartridgeError::OversizedImage)
        } else {
            let header = get_header(bytes.as_slice());
            Ok(Cartridge { contents: bytes, header })
        }
    }

    /// Length in bytes of the raw image.
    pub fn len(&self) -> (n: usize)
        ensures
            n == self@.len(),
    {
        self.contents.len()
    }

    /// Gives up the cartridge, handing out its raw bytes and its header.
    pub fn into_parts(self) -> (r: (Vec<u8>, Header))
        ensures
            r.0@ == self@,
            r.1 == self.spec_header(),
    {
        let Cartridge { contents, header } = self;
        (contents, header)
    }
}

} // verus!
