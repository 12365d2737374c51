//! A cartridge as loaded for emulation.
use vstd::prelude::*;

use crate::ines::{decode_spec, CartridgeView, FormatError, INes};

verus! {

/// A loaded cartridge: the decoded contents of one iNES image.
#[derive(Debug)]
pub struct Rom {
    data: INes,
}

impl View for Rom {
    type V = CartridgeView;

    closed spec fn view(&self) -> CartridgeView {
        self.data@
    }
}

impl Rom {
    /// Decodes the complete contents of an image file.
    pub fn from_bytes(bytes: Vec<u8>) -> (r: Result<Rom, FormatError>)
        ensures
            match r {
                Ok(rom) => decode_spec(bytes@) == Ok::<CartridgeView, FormatError>(rom@),
                Err(e) => decode_spec(bytes@) == Err::<CartridgeView, FormatError>(e),
            },
    {
        match INes::new(bytes) {
            Ok(data) => Ok(Rom { data }),
            Err(e) => Err(e),
        }
    }

    /// The decoded image.
    pub fn get_data(&self) -> (r: &INes)
        ensures
            r@ == self@,
    {
        &self.data
    }
}

} // verus!
