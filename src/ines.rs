//! The iNES container: a 16-byte header followed by an optional trainer,
//! program ROM, character ROM, optional PlayChoice blocks and a title.
use vstd::prelude::*;

verus! {

/// Length of the header block at the start of every image.
pub const HEADER_LEN: usize = 16;
/// Length of the optional trainer block.
pub const TRAINER_LEN: usize = 512;
/// Size of one program-ROM page.
pub const PRG_ROM_PAGE: usize = 16384;
/// Size of one character-ROM page.
pub const CHR_ROM_PAGE: usize = 8192;
/// Size of one program-RAM unit.
pub const PRG_RAM_PAGE: usize = 8192;
/// Length of the PlayChoice instruction ROM.
pub const PC_INST_ROM_LEN: usize = 8192;
/// Length of each of the two PlayChoice PROM blocks.
pub const PC_PROM_LEN: usize = 16384;

/// Header byte 5, bit 0: vertical hard-wired mirroring.
pub const MIRRORING_MASK: u8 = 0x01;
/// Header byte 5, bit 1: battery-backed memory.
pub const BATTERY_MASK: u8 = 0x02;
/// Header byte 6, bit 0: Nintendo VS System.
pub const VS_SYSTEM_MASK: u8 = 0x01;
/// Header byte 6, bit 1: PlayChoice-10 (and its three extra blocks).
pub const PLAYCHOICE_MASK: u8 = 0x02;
/// Header byte 6, bit 2: a trainer follows the header.
pub const TRAINER_MASK: u8 = 0x04;
/// Header byte 6, bit 3: hard-wired four-screen mode.
pub const FOUR_SCREEN_MASK: u8 = 0x08;
/// Header byte 8, bit 0: PAL television system.
pub const TV_SYSTEM_MASK: u8 = 0x01;
/// Header byte 9, bit 4: the cartridge has no program RAM.
pub const NO_PRG_RAM_MASK: u8 = 0x10;

#[derive(Debug, Clone, Copy, PartialEq, Eq, Structural)]
pub enum HardWiredMirroringType {
    HorizontalOrMapper,
    Vertical,
}

#[derive(Debug, Clone, Copy, PartialEq, Eq, Structural)]
pub enum Battery {
    NotPresent,
    Present,
}

#[derive(Debug, Clone, Copy, PartialEq, Eq, Structural)]
pub enum HardWiredFourScreenMode {
    No,
    Yes,
}

#[derive(Debug, Clone, Copy, PartialEq, Eq, Structural)]
pub enum ConsoleType {
    NesOrFamicom,
    NintendoVsSystem,
    NintendoPlaychoice10,
}

#[derive(Debug, Clone, Copy, PartialEq, Eq, Structural)]
pub enum TvSystem {
    Ntsc,
    Pal,
}

/// Why a byte sequence is not a decodable iNES image.
#[derive(Debug, Clone, Copy, PartialEq, Eq, Structural)]
pub enum FormatError {
    /// The first four bytes are not `"NES"` followed by `0x1A`.
    InvalidSignature,
    /// A section that the header declares runs past the end of the input.
    TruncatedImage,
}

/// Whether any bit of `mask` is set in `b`.
pub open spec fn bit_set(b: u8, mask: u8) -> bool {
    b & mask != 0
}

fn bit_is_set(b: u8, mask: u8) -> (r: bool)
    ensures
        r == bit_set(b, mask),
{
    b & mask != 0
}


/// Whether the input starts with the iNES signature `"NES"` `0x1A`.
pub open spec fn has_signature(bytes: Seq<u8>) -> bool {
    &&& bytes.len() >= 4
    &&& bytes[0] == 0x4E
    &&& bytes[1] == 0x45
    &&& bytes[2] == 0x53
    &&& bytes[3] == 0x1A
}

pub open spec fn trainer_len(h: Seq<u8>) -> nat {
    if bit_set(h[6], TRAINER_MASK) {
        TRAINER_LEN as nat
    } else {
        0
    }
}

/// Program ROM: header byte 4 counts its pages.
pub open spec fn prg_rom_len(h: Seq<u8>) -> nat {
    PRG_ROM_PAGE as nat * h[4] as nat
}

/// Character ROM: header byte 5 counts its pages.
pub open spec fn chr_rom_len(h: Seq<u8>) -> nat {
    CHR_ROM_PAGE as nat * h[5] as nat
}

pub open spec fn pc_inst_rom_len(h: Seq<u8>) -> nat {
    if bit_set(h[6], PLAYCHOICE_MASK) {
        PC_INST_ROM_LEN as nat
    } else {
        0
    }
}

pub open spec fn pc_prom_len(h: Seq<u8>) -> nat {
    if bit_set(h[6], PLAYCHOICE_MASK) {
        PC_PROM_LEN as nat
    } else {
        0
    }
}

/// Where each section starts: they follow one another in a fixed order.
pub open spec fn trainer_start(h: Seq<u8>) -> nat {
    HEADER_LEN as nat
}

pub open spec fn prg_rom_start(h: Seq<u8>) -> nat {
    trainer_start(h) + trainer_len(h)
}

pub open spec fn chr_rom_start(h: Seq<u8>) -> nat {
    prg_rom_start(h) + prg_rom_len(h)
}

pub open spec fn pc_inst_rom_start(h: Seq<u8>) -> nat {
    chr_rom_start(h) + chr_rom_len(h)
}

pub open spec fn pc_prom_data_start(h: Seq<u8>) -> nat {
    pc_inst_rom_start(h) + pc_inst_rom_len(h)
}

pub open spec fn pc_prom_counterout_start(h: Seq<u8>) -> nat {
    pc_prom_data_start(h) + pc_prom_len(h)
}

/// The end of the last section that the header declares; the title follows.
pub open spec fn title_start(h: Seq<u8>) -> nat {
    pc_prom_counterout_start(h) + pc_prom_len(h)
}

pub open spec fn section(bytes: Seq<u8>, start: nat, len: nat) -> Seq<u8> {
    bytes.subrange(start as int, (start + len) as int)
}

pub open spec fn prg_ram_size_of(h: Seq<u8>) -> nat {
    if bit_set(h[9], NO_PRG_RAM_MASK) {
        0
    } else {
        PRG_RAM_PAGE as nat * h[8] as nat
    }
}

pub open spec fn mirroring_of(h: Seq<u8>) -> HardWiredMirroringType {
    if bit_set(h[5], MIRRORING_MASK) {
        HardWiredMirroringType::Vertical
    } else {
        HardWiredMirroringType::HorizontalOrMapper
    }
}

pub open spec fn battery_of(h: Seq<u8>) -> Battery {
    if bit_set(h[5], BATTERY_MASK) {
        Battery::Present
    } else {
        Battery::NotPresent
    }
}

pub open spec fn four_screen_of(h: Seq<u8>) -> HardWiredFourScreenMode {
    if bit_set(h[6], FOUR_SCREEN_MASK) {
        HardWiredFourScreenMode::Yes
    } else {
        HardWiredFourScreenMode::No
    }
}

/// The VS System bit takes precedence over the PlayChoice bit.
pub open spec fn console_type_of(h: Seq<u8>) -> ConsoleType {
    if bit_set(h[6], VS_SYSTEM_MASK) {
        ConsoleType::NintendoVsSystem
    } else if bit_set(h[6], PLAYCHOICE_MASK) {
        ConsoleType::NintendoPlaychoice10
    } else {
        ConsoleType::NesOrFamicom
    }
}

pub open spec fn tv_system_of(h: Seq<u8>) -> TvSystem {
    if bit_set(h[8], TV_SYSTEM_MASK) {
        TvSystem::Pal
    } else {
        TvSystem::Ntsc
    }
}

/// The mathematical content of a decoded image.
pub struct CartridgeView {
    pub size: nat,
    pub header: Seq<u8>,
    pub trainer: Seq<u8>,
    pub prg_rom: Seq<u8>,
    pub chr_rom: Seq<u8>,
    pub chr_ram_size: nat,
    pub prg_ram_size: nat,
    pub pc_inst_rom: Seq<u8>,
    pub pc_prom_data: Seq<u8>,
    pub pc_prom_counterout: Seq<u8>,
    pub title: Seq<u8>,
    pub mapper: u8,
    pub mirroring: HardWiredMirroringType,
    pub battery: Battery,
    pub four_screen: HardWiredFourScreenMode,
    pub console_type: ConsoleType,
    pub tv_system: TvSystem,
}

/// What decoding `bytes` yields.
///
/// The signature is checked first. Then every section that the header
/// declares must lie within the input; each section is cut at its
/// exact length, and whatever follows the last one is the title. The
/// mapper number and the character-RAM size are not read from the
/// header and are always 0.
pub open spec fn decode_spec(bytes: Seq<u8>) -> Result<CartridgeView, FormatError> {
    if !has_signature(bytes) {
        Err(FormatError::InvalidSignature)
    } else if bytes.len() < HEADER_LEN || bytes.len() < title_start(bytes) {
        Err(FormatError::TruncatedImage)
    } else {
        Ok(
            CartridgeView {
                size: bytes.len(),
                header: section(bytes, 0, HEADER_LEN as nat),
                trainer: section(bytes, trainer_start(bytes), trainer_len(bytes)),
                prg_rom: section(bytes, prg_rom_start(bytes), prg_rom_len(bytes)),
                chr_rom: section(bytes, chr_rom_start(bytes), chr_rom_len(bytes)),
                chr_ram_size: 0,
                prg_ram_size: prg_ram_size_of(bytes),
                pc_inst_rom: section(bytes, pc_inst_rom_start(bytes), pc_inst_rom_len(bytes)),
                pc_prom_data: section(bytes, pc_prom_data_start(bytes), pc_prom_len(bytes)),
                pc_prom_counterout: section(
                    bytes,
                    pc_prom_counterout_start(bytes),
                    pc_prom_len(bytes),
                ),
                title: bytes.subrange(title_start(bytes) as int, bytes.len() as int),
                mapper: 0,
                mirroring: mirroring_of(bytes),
                battery: battery_of(bytes),
                four_screen: four_screen_of(bytes),
                console_type: console_type_of(bytes),
                tv_system: tv_system_of(bytes),
            },
        )
    }
}

/// A decoded iNES cartridge image. Each section owns a copy of its bytes.
#[derive(Debug)]
pub struct INes {
    size: usize,
    header: Vec<u8>,
    trainer: Vec<u8>,
    prg_rom: Vec<u8>,
    chr_rom: Vec<u8>,
    chr_ram_size: usize,
    prg_ram_size: usize,
    pc_inst_rom: Vec<u8>,
    pc_prom_data: Vec<u8>,
    pc_prom_counterout: Vec<u8>,
    title: Vec<u8>,
    mapper: u8,
    hard_wired_mirroring_type: HardWiredMirroringType,
    battery: Battery,
    hard_wired_four_screen_mode: HardWiredFourScreenMode,
    console_type: ConsoleType,
    tv_system: TvSystem,
}

impl View for INes {
    type V = CartridgeView;

    closed spec fn view(&self) -> CartridgeView {
        CartridgeView {
            size: self.size as nat,
            header: self.header@,
            trainer: self.trainer@,
            prg_rom: self.prg_rom@,
            chr_rom: self.chr_rom@,
            chr_ram_size: self.chr_ram_size as nat,
            prg_ram_size: self.prg_ram_size as nat,
            pc_inst_rom: self.pc_inst_rom@,
            pc_prom_data: self.pc_prom_data@,
            pc_prom_counterout: self.pc_prom_counterout@,
            title: self.title@,
            mapper: self.mapper,
            mirroring: self.hard_wired_mirroring_type,
            battery: self.battery,
            four_screen: self.hard_wired_four_screen_mode,
            console_type: self.console_type,
            tv_system: self.tv_system,
        }
    }
}

/// The model of a decoding outcome.
pub open spec fn outcome_view(r: Result<INes, FormatError>) -> Result<CartridgeView, FormatError> {
    match r {
        Ok(image) => Ok(image@),
        Err(e) => Err(e),
    }
}

/// An owned copy of a section, for callers that keep it beyond the image.
fn copy_bytes(v: &Vec<u8>) -> (r: Vec<u8>)
    ensures
        r@ == v@,
{
    let r = v.clone();
    assert(r@ =~= v@);
    r
}

/// Copies `len` bytes of `bytes` from `start` on.
fn copy_section(bytes: &Vec<u8>, start: usize, len: usize) -> (r: Vec<u8>)
    requires
        start + len <= bytes@.len(),
    ensures
        r@ == section(bytes@, start as nat, len as nat),
{
    let available: usize = bytes.len();
    assert(start + len <= available);
    let end: usize = start + len;
    let mut r: Vec<u8> = Vec::with_capacity(len);
    let mut i: usize = start;
    while i < end
        invariant
            start <= i <= end,
            end == start + len,
            end <= bytes@.len(),
            r@ == bytes@.subrange(start as int, i as int),
        decreases end - i,
    {
        r.push(bytes[i]);
        i = i + 1;
        assert(r@ =~= bytes@.subrange(start as int, i as int));
    }
    r
}

/// Copies the section of `len` bytes at `start` when `present`, else yields
/// an empty section.
fn optional_section(bytes: &Vec<u8>, present: bool, start: usize, len: usize) -> (r: Vec<u8>)
    requires
        present ==> start + len <= bytes@.len(),
    ensures
        present ==> r@ == section(bytes@, start as nat, len as nat),
        !present ==> r@.len() == 0,
{
    if present {
        copy_section(bytes, start, len)
    } else {
        Vec::new()
    }
}

impl INes {
    /// Decodes an iNES image.
    ///
    /// Fails with `InvalidSignature` when `bytes` does not start with the
    /// signature, and with `TruncatedImage` when a declared section runs
    /// past the end of `bytes`; otherwise every field is as
    /// [`decode_spec`] describes.
    pub fn new(bytes: Vec<u8>) -> (r: Result<INes, FormatError>)
        ensures
            outcome_view(r) == decode_spec(bytes@),
            r is Err ==> (r->Err_0 == FormatError::InvalidSignature <==> !has_signature(bytes@)),
    {
        if bytes.len() < 4 || bytes[0] != 0x4E || bytes[1] != 0x45 || bytes[2] != 0x53 || bytes[3]
            != 0x1A {
            return Err(FormatError::InvalidSignature);
        }
        if bytes.len() < HEADER_LEN {
            return Err(FormatError::TruncatedImage);
        }
        let size = bytes.len();
        let header = copy_section(&bytes, 0, HEADER_LEN);

        let has_trainer = bit_is_set(bytes[6], TRAINER_MASK);
        let has_playchoice = bit_is_set(bytes[6], PLAYCHOICE_MASK);

        let trainer_size: usize = if has_trainer { TRAINER_LEN } else { 0 };
        let prg_rom_size: usize = PRG_ROM_PAGE * bytes[4] as usize;
        let chr_rom_size: usize = CHR_ROM_PAGE * bytes[5] as usize;
        let pc_inst_size: usize = if has_playchoice { PC_INST_ROM_LEN } else { 0 };
        let pc_prom_size: usize = if has_playchoice { PC_PROM_LEN } else { 0 };

        let prg_rom_at: usize = HEADER_LEN + trainer_size;
        let chr_rom_at: usize = prg_rom_at + prg_rom_size;
        let pc_inst_at: usize = chr_rom_at + chr_rom_size;
        let pc_data_at: usize = pc_inst_at + pc_inst_size;
        let pc_counterout_at: usize = pc_data_at + pc_prom_size;
        let title_at: usize = pc_counterout_at + pc_prom_size;
        assert(title_at == title_start(bytes@));
        if size < title_at {
            return Err(FormatError::TruncatedImage);
        }

        let trainer = optional_section(&bytes, has_trainer, HEADER_LEN, TRAINER_LEN);
        let prg_rom = copy_section(&bytes, prg_rom_at, prg_rom_size);
        let chr_rom = copy_section(&bytes, chr_rom_at, chr_rom_size);
        let pc_inst_rom = optional_section(&bytes, has_playchoice, pc_inst_at, PC_INST_ROM_LEN);
        let pc_prom_data = optional_section(&bytes, has_playchoice, pc_data_at, PC_PROM_LEN);
        let pc_prom_counterout = optional_section(
            &bytes,
            has_playchoice,
            pc_counterout_at,
            PC_PROM_LEN,
        );
        let title = copy_section(&bytes, title_at, size - title_at);

        let prg_ram_size: usize = if bit_is_set(bytes[9], NO_PRG_RAM_MASK) {
            0
        } else {
            PRG_RAM_PAGE * bytes[8] as usize
        };
        let hard_wired_mirroring_type = if bit_is_set(bytes[5], MIRRORING_MASK) {
            HardWiredMirroringType::Vertical
        } else {
            HardWiredMirroringType::HorizontalOrMapper
        };
        let battery = if bit_is_set(bytes[5], BATTERY_MASK) {
            Battery::Present
        } else {
            Battery::NotPresent
        };
        let hard_wired_four_screen_mode = if bit_is_set(bytes[6], FOUR_SCREEN_MASK) {
            HardWiredFourScreenMode::Yes
        } else {
            HardWiredFourScreenMode::No
        };
        let console_type = if bit_is_set(bytes[6], VS_SYSTEM_MASK) {
            ConsoleType::NintendoVsSystem
        } else if has_playchoice {
            ConsoleType::NintendoPlaychoice10
        } else {
            ConsoleType::NesOrFamicom
        };
        let tv_system = if bit_is_set(bytes[8], TV_SYSTEM_MASK) {
            TvSystem::Pal
        } else {
            TvSystem::Ntsc
        };

        let image = INes {
            size,
            header,
            trainer,
            prg_rom,
            chr_rom,
            chr_ram_size: 0,
            prg_ram_size,
            pc_inst_rom,
            pc_prom_data,
            pc_prom_counterout,
            title,
            mapper: 0,
            hard_wired_mirroring_type,
            battery,
            hard_wired_four_screen_mode,
            console_type,
            tv_system,
        };
        assert(image@ == decode_spec(bytes@)->Ok_0) by {
            assert(image@.trainer =~= decode_spec(bytes@)->Ok_0.trainer);
            assert(image@.pc_inst_rom =~= decode_spec(bytes@)->Ok_0.pc_inst_rom);
            assert(image@.pc_prom_data =~= decode_spec(bytes@)->Ok_0.pc_prom_data);
            assert(image@.pc_prom_counterout =~= decode_spec(bytes@)->Ok_0.pc_prom_counterout);
        }
        Ok(image)
    }

    /// Length of the whole image in bytes.
    pub fn get_size(&self) -> (r: usize)
        ensures
            r == self@.size,
    {
        self.size
    }

    /// The 16 header bytes.
    pub fn get_header(&self) -> (r: Vec<u8>)
        ensures
            r@ == self@.header,
    {
        copy_bytes(&self.header)
    }

    /// The trainer block; empty when the header declares none.
    pub fn get_trainer(&self) -> (r: Vec<u8>)
        ensures
            r@ == self@.trainer,
    {
        copy_bytes(&self.trainer)
    }

    /// Whether the image holds a trainer.
    pub fn is_trainer_present(&self) -> (r: bool)
        ensures
            r == (self@.trainer.len() != 0),
    {
        self.trainer.len() != 0
    }

    /// Length of the trainer block.
    pub fn get_trainer_size(&self) -> (r: usize)
        ensures
            r == self@.trainer.len(),
    {
        self.trainer.len()
    }

    /// The program ROM.
    pub fn get_prg_rom(&self) -> (r: Vec<u8>)
        ensures
            r@ == self@.prg_rom,
    {
        copy_bytes(&self.prg_rom)
    }

    /// Length of the program ROM.
    pub fn get_prg_rom_size(&self) -> (r: usize)
        ensures
            r == self@.prg_rom.len(),
    {
        self.prg_rom.len()
    }

    /// The character ROM; empty when the cartridge uses character RAM.
    pub fn get_chr_rom(&self) -> (r: Vec<u8>)
        ensures
            r@ == self@.chr_rom,
    {
        copy_bytes(&self.chr_rom)
    }

    /// Length of the character ROM.
    pub fn get_chr_rom_size(&self) -> (r: usize)
        ensures
            r == self@.chr_rom.len(),
    {
        self.chr_rom.len()
    }

    /// Whether the image holds character ROM.
    pub fn is_chr_rom_present(&self) -> (r: bool)
        ensures
            r == (self@.chr_rom.len() != 0),
    {
        self.chr_rom.len() != 0
    }

    /// Size of the character RAM (not read from the header: always 0).
    pub fn get_chr_ram_size(&self) -> (r: usize)
        ensures
            r == self@.chr_ram_size,
    {
        self.chr_ram_size
    }

    /// Whether the cartridge has character RAM.
    pub fn is_chr_ram_present(&self) -> (r: bool)
        ensures
            r == (self@.chr_ram_size != 0),
    {
        self.chr_ram_size != 0
    }

    /// Size of the program RAM.
    pub fn get_prg_ram_size(&self) -> (r: usize)
        ensures
            r == self@.prg_ram_size,
    {
        self.prg_ram_size
    }

    /// Whether the cartridge has program RAM.
    pub fn is_prg_ram_present(&self) -> (r: bool)
        ensures
            r == (self@.prg_ram_size != 0),
    {
        self.prg_ram_size != 0
    }

    /// The PlayChoice instruction ROM; empty unless the PlayChoice bit is set.
    pub fn get_pc_inst_rom(&self) -> (r: Vec<u8>)
        ensures
            r@ == self@.pc_inst_rom,
    {
        copy_bytes(&self.pc_inst_rom)
    }

    /// The PlayChoice PROM data block; empty unless the PlayChoice bit is set.
    pub fn get_pc_prom_data(&self) -> (r: Vec<u8>)
        ensures
            r@ == self@.pc_prom_data,
    {
        copy_bytes(&self.pc_prom_data)
    }

    /// The PlayChoice PROM counter-out block; empty unless the PlayChoice bit is set.
    pub fn get_pc_prom_counterout(&self) -> (r: Vec<u8>)
        ensures
            r@ == self@.pc_prom_counterout,
    {
        copy_bytes(&self.pc_prom_counterout)
    }

    /// The bytes that follow every declared section.
    pub fn get_title(&self) -> (r: Vec<u8>)
        ensures
            r@ == self@.title,
    {
        copy_bytes(&self.title)
    }

    /// Whether any bytes follow the declared sections.
    pub fn is_title_present(&self) -> (r: bool)
        ensures
            r == (self@.title.len() != 0),
    {
        self.title.len() != 0
    }

    /// The mapper number (not assembled from the header: always 0).
    pub fn get_mapper(&self) -> (r: u8)
        ensures
            r == self@.mapper,
    {
        self.mapper
    }

    /// The hard-wired mirroring.
    pub fn get_hard_wired_mirroring_type(&self) -> (r: &HardWiredMirroringType)
        ensures
            *r == self@.mirroring,
    {
        &self.hard_wired_mirroring_type
    }

    /// Whether battery-backed memory is present.
    pub fn get_battery(&self) -> (r: &Battery)
        ensures
            *r == self@.battery,
    {
        &self.battery
    }

    /// Whether hard-wired four-screen mode is on.
    pub fn get_hard_wired_four_screen_mode(&self) -> (r: &HardWiredFourScreenMode)
        ensures
            *r == self@.four_screen,
    {
        &self.hard_wired_four_screen_mode
    }

    /// The console the image is meant for.
    pub fn get_console_type(&self) -> (r: &ConsoleType)
        ensures
            *r == self@.console_type,
    {
        &self.console_type
    }

    /// The television system.
    pub fn get_tv_system(&self) -> (r: &TvSystem)
        ensures
            *r == self@.tv_system,
    {
        &self.tv_system
    }
}

} // verus!
