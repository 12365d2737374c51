//! Decoding of NES cartridge images in the iNES format.
//!
//! [`INes::new`] turns the raw bytes of an image into a validated
//! [`INes`] value, or reports why the bytes are not a complete image.
//! Every result is specified by [`ines::decode_spec`], a mathematical
//! model of the format over `Seq<u8>`; [`lemmas`] proves the facts that
//! relate several inputs or several decodings.
pub mod ines;
pub mod lemmas;
pub mod rom;

pub use ines::{
    Battery, ConsoleType, FormatError, HardWiredFourScreenMode, HardWiredMirroringType, INes,
    TvSystem,
};
pub use rom::Rom;
