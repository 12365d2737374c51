use nesoxide_core::{
    Battery, ConsoleType, FormatError, HardWiredFourScreenMode, HardWiredMirroringType, INes, Rom,
    TvSystem,
};

fn header(prg_pages: u8, chr_pages: u8, flags6: u8) -> Vec<u8> {
    let mut h = vec![0x4E, 0x45, 0x53, 0x1A, prg_pages, chr_pages, flags6];
    h.resize(16, 0);
    h
}

/// A byte pattern that differs from one offset to the next.
fn pattern(len: usize, seed: u8) -> Vec<u8> {
    (0..len).map(|i| (i as u8).wrapping_mul(7).wrapping_add(seed)).collect()
}

fn decode(bytes: Vec<u8>) -> INes {
    match INes::new(bytes) {
        Ok(image) => image,
        Err(e) => panic!("unexpected error {:?}", e),
    }
}

fn decode_err(bytes: Vec<u8>) -> FormatError {
    match INes::new(bytes) {
        Ok(_) => panic!("decoding was expected to fail"),
        Err(e) => e,
    }
}

#[test]
fn rejects_bad_signature() {
    let mut bytes = header(1, 0, 0);
    bytes.extend(pattern(16384, 1));
    bytes[3] = 0x1B;
    assert_eq!(decode_err(bytes), FormatError::InvalidSignature);
    let mut lower = header(0, 0, 0);
    lower[0] = b'n';
    assert_eq!(decode_err(lower), FormatError::InvalidSignature);
}

#[test]
fn rejects_empty_and_short_input_as_unsigned() {
    assert_eq!(decode_err(Vec::new()), FormatError::InvalidSignature);
    assert_eq!(decode_err(vec![0x4E, 0x45, 0x53]), FormatError::InvalidSignature);
}

#[test]
fn signed_input_shorter_than_header_is_truncated() {
    assert_eq!(decode_err(vec![0x4E, 0x45, 0x53, 0x1A]), FormatError::TruncatedImage);
    let mut h = header(0, 0, 0);
    h.truncate(15);
    assert_eq!(decode_err(h), FormatError::TruncatedImage);
}

#[test]
fn minimal_image_with_one_prg_page() {
    let mut bytes = header(1, 0, 0);
    let prg = pattern(16384, 3);
    bytes.extend(prg.iter().copied());
    assert_eq!(bytes.len(), 16 + 16384);
    let image = decode(bytes);
    assert_eq!(image.get_prg_rom().len(), 16384);
    assert_eq!(image.get_prg_rom(), prg);
    assert_eq!(image.get_chr_rom().len(), 0);
    assert!(image.get_trainer().is_empty());
    assert!(image.get_title().is_empty());
    assert!(!image.is_trainer_present());
    assert!(!image.is_chr_rom_present());
    assert!(!image.is_title_present());
    assert_eq!(image.get_size(), 16 + 16384);
    assert_eq!(image.get_prg_rom_size(), 16384);
    assert_eq!(image.get_chr_rom_size(), 0);
    assert_eq!(image.get_trainer_size(), 0);
}

#[test]
fn trainer_precedes_prg_rom() {
    let mut bytes = header(1, 0, 0x04);
    let trainer = pattern(512, 11);
    let prg = pattern(16384, 200);
    bytes.extend(trainer.iter().copied());
    bytes.extend(prg.iter().copied());
    let image = decode(bytes.clone());
    assert_eq!(image.get_trainer().len(), 512);
    assert_eq!(image.get_trainer(), trainer);
    assert!(image.is_trainer_present());
    assert_eq!(image.get_trainer_size(), 512);
    assert_eq!(image.get_prg_rom(), bytes[16 + 512..16 + 512 + 16384].to_vec());
    assert_ne!(image.get_prg_rom(), bytes[16..16 + 16384].to_vec());
    assert!(image.get_title().is_empty());
}

#[test]
fn truncated_prg_rom_is_an_error() {
    let mut bytes = header(2, 0, 0);
    bytes.extend(pattern(16384, 5));
    assert_eq!(decode_err(bytes), FormatError::TruncatedImage);
}

#[test]
fn truncated_by_one_byte_in_each_section() {
    let full = |h: Vec<u8>, body: usize| {
        let mut b = h;
        b.extend(pattern(body, 9));
        b
    };
    // trainer only
    let mut b = full(header(0, 0, 0x04), 511);
    assert_eq!(decode_err(b.clone()), FormatError::TruncatedImage);
    b.push(0);
    assert!(INes::new(b).is_ok());
    // character ROM
    let mut b = full(header(1, 1, 0), 16384 + 8191);
    assert_eq!(decode_err(b.clone()), FormatError::TruncatedImage);
    b.push(0);
    assert!(INes::new(b).is_ok());
    // PlayChoice blocks
    let mut b = full(header(0, 0, 0x02), 8192 + 16384 + 16383);
    assert_eq!(decode_err(b.clone()), FormatError::TruncatedImage);
    b.push(0);
    assert!(INes::new(b).is_ok());
}

#[test]
fn header_is_first_sixteen_bytes() {
    for flags6 in [0x00u8, 0x01, 0x02, 0x04, 0x08, 0x0F] {
        let mut bytes = header(1, 1, flags6);
        bytes[8] = 3;
        bytes[9] = 0x10;
        bytes[15] = 0xAB;
        bytes.extend(pattern(40000 + 512 + 8192 + 32768, flags6));
        let image = decode(bytes.clone());
        assert_eq!(image.get_header(), bytes[0..16].to_vec());
    }
}

#[test]
fn decoding_twice_gives_equal_images() {
    let mut bytes = header(1, 1, 0x07);
    bytes[8] = 1;
    bytes.extend(pattern(512 + 16384 + 8192 + 8192 + 16384 + 16384 + 9, 42));
    let a = decode(bytes.clone());
    let b = decode(bytes);
    assert_eq!(a.get_size(), b.get_size());
    assert_eq!(a.get_header(), b.get_header());
    assert_eq!(a.get_trainer(), b.get_trainer());
    assert_eq!(a.get_prg_rom(), b.get_prg_rom());
    assert_eq!(a.get_chr_rom(), b.get_chr_rom());
    assert_eq!(a.get_chr_ram_size(), b.get_chr_ram_size());
    assert_eq!(a.get_prg_ram_size(), b.get_prg_ram_size());
    assert_eq!(a.get_pc_inst_rom(), b.get_pc_inst_rom());
    assert_eq!(a.get_pc_prom_data(), b.get_pc_prom_data());
    assert_eq!(a.get_pc_prom_counterout(), b.get_pc_prom_counterout());
    assert_eq!(a.get_title(), b.get_title());
    assert_eq!(a.get_mapper(), b.get_mapper());
    assert_eq!(a.get_hard_wired_mirroring_type(), b.get_hard_wired_mirroring_type());
    assert_eq!(a.get_battery(), b.get_battery());
    assert_eq!(a.get_hard_wired_four_screen_mode(), b.get_hard_wired_four_screen_mode());
    assert_eq!(a.get_console_type(), b.get_console_type());
    assert_eq!(a.get_tv_system(), b.get_tv_system());
}

fn flags(bytes: Vec<u8>) -> (HardWiredMirroringType, Battery, HardWiredFourScreenMode, ConsoleType, TvSystem) {
    let image = decode(bytes);
    (
        *image.get_hard_wired_mirroring_type(),
        *image.get_battery(),
        *image.get_hard_wired_four_screen_mode(),
        *image.get_console_type(),
        *image.get_tv_system(),
    )
}

/// A header with no sections, padded so that any single flag may be flipped.
fn flag_image(h5: u8, h6: u8, h8: u8) -> Vec<u8> {
    let mut bytes = header(0, h5, h6);
    bytes[8] = h8;
    bytes.extend(pattern(8192 * h5 as usize + 512 + 8192 + 32768, 1));
    bytes
}

#[test]
fn all_flags_clear() {
    assert_eq!(
        flags(flag_image(0, 0, 0)),
        (
            HardWiredMirroringType::HorizontalOrMapper,
            Battery::NotPresent,
            HardWiredFourScreenMode::No,
            ConsoleType::NesOrFamicom,
            TvSystem::Ntsc,
        )
    );
}

#[test]
fn each_flag_follows_its_own_bit() {
    let base = flags(flag_image(0, 0, 0));
    let m = flags(flag_image(0x01, 0, 0));
    assert_eq!(m.0, HardWiredMirroringType::Vertical);
    assert_eq!((m.1, m.2, m.3, m.4), (base.1, base.2, base.3, base.4));
    let b = flags(flag_image(0x02, 0, 0));
    assert_eq!(b.1, Battery::Present);
    assert_eq!((b.0, b.2, b.3, b.4), (base.0, base.2, base.3, base.4));
    let f = flags(flag_image(0, 0x08, 0));
    assert_eq!(f.2, HardWiredFourScreenMode::Yes);
    assert_eq!((f.0, f.1, f.3, f.4), (base.0, base.1, base.3, base.4));
    let v = flags(flag_image(0, 0x01, 0));
    assert_eq!(v.3, ConsoleType::NintendoVsSystem);
    assert_eq!((v.0, v.1, v.2, v.4), (base.0, base.1, base.2, base.4));
    let p = flags(flag_image(0, 0x02, 0));
    assert_eq!(p.3, ConsoleType::NintendoPlaychoice10);
    assert_eq!((p.0, p.1, p.2, p.4), (base.0, base.1, base.2, base.4));
    let t = flags(flag_image(0, 0, 0x01));
    assert_eq!(t.4, TvSystem::Pal);
    assert_eq!((t.0, t.1, t.2, t.3), (base.0, base.1, base.2, base.3));
}

#[test]
fn flipping_a_flag_bit_from_set_to_clear() {
    let all = flags(flag_image(0x03, 0x09, 0x01));
    assert_eq!(
        all,
        (
            HardWiredMirroringType::Vertical,
            Battery::Present,
            HardWiredFourScreenMode::Yes,
            ConsoleType::NintendoVsSystem,
            TvSystem::Pal,
        )
    );
    let no_tv = flags(flag_image(0x03, 0x09, 0x00));
    assert_eq!(no_tv.4, TvSystem::Ntsc);
    assert_eq!((no_tv.0, no_tv.1, no_tv.2, no_tv.3), (all.0, all.1, all.2, all.3));
    let no_four = flags(flag_image(0x03, 0x01, 0x01));
    assert_eq!(no_four.2, HardWiredFourScreenMode::No);
    assert_eq!((no_four.0, no_four.1, no_four.3, no_four.4), (all.0, all.1, all.3, all.4));
}

#[test]
fn vs_system_bit_takes_precedence_over_playchoice() {
    let both = flags(flag_image(0, 0x03, 0));
    assert_eq!(both.3, ConsoleType::NintendoVsSystem);
}

#[test]
fn playchoice_blocks_and_title() {
    let mut bytes = header(1, 1, 0x02);
    let prg = pattern(16384, 1);
    let chr = pattern(8192, 2);
    let inst = pattern(8192, 3);
    let data = pattern(16384, 4);
    let counter = pattern(16384, 5);
    let title = b"SUPER GAME".to_vec();
    for part in [&prg, &chr, &inst, &data, &counter, &title] {
        bytes.extend(part.iter().copied());
    }
    let image = decode(bytes);
    assert_eq!(image.get_prg_rom(), prg);
    assert_eq!(image.get_chr_rom(), chr);
    assert!(image.is_chr_rom_present());
    assert_eq!(image.get_chr_rom_size(), 8192);
    assert_eq!(image.get_pc_inst_rom(), inst);
    assert_eq!(image.get_pc_prom_data(), data);
    assert_eq!(image.get_pc_prom_counterout(), counter);
    assert_eq!(image.get_title(), title);
    assert!(image.is_title_present());
    assert_eq!(*image.get_console_type(), ConsoleType::NintendoPlaychoice10);
}

#[test]
fn no_playchoice_blocks_without_the_bit() {
    let mut bytes = header(0, 0, 0);
    bytes.extend(b"TITLE".iter().copied());
    let image = decode(bytes);
    assert!(image.get_pc_inst_rom().is_empty());
    assert!(image.get_pc_prom_data().is_empty());
    assert!(image.get_pc_prom_counterout().is_empty());
    assert_eq!(image.get_title(), b"TITLE".to_vec());
}

#[test]
fn section_sizes_follow_page_counts() {
    let mut bytes = header(3, 2, 0);
    bytes.extend(pattern(3 * 16384 + 2 * 8192 + 1, 0));
    let image = decode(bytes);
    assert_eq!(image.get_prg_rom_size(), 49152);
    assert_eq!(image.get_chr_rom_size(), 16384);
    assert_eq!(image.get_title().len(), 1);
}

#[test]
fn largest_page_counts() {
    let mut bytes = header(255, 255, 0x06);
    let body = 512 + 255 * 16384 + 255 * 8192 + 8192 + 16384 + 16384;
    bytes.extend(pattern(body, 0));
    let image = decode(bytes.clone());
    assert_eq!(image.get_prg_rom_size(), 4177920);
    assert_eq!(image.get_chr_rom_size(), 2088960);
    assert!(image.get_title().is_empty());
    bytes.pop();
    assert_eq!(decode_err(bytes), FormatError::TruncatedImage);
}

#[test]
fn prg_ram_size_and_absence() {
    let mut bytes = header(0, 0, 0);
    bytes[8] = 2;
    let image = decode(bytes.clone());
    assert_eq!(image.get_prg_ram_size(), 16384);
    assert!(image.is_prg_ram_present());
    bytes[9] = 0x10;
    let image = decode(bytes.clone());
    assert_eq!(image.get_prg_ram_size(), 0);
    assert!(!image.is_prg_ram_present());
    bytes[9] = 0;
    bytes[8] = 0;
    assert_eq!(decode(bytes).get_prg_ram_size(), 0);
}

#[test]
fn mapper_and_chr_ram_are_zero() {
    let mut bytes = header(0, 0, 0);
    bytes[6] = 0xF0;
    bytes[7] = 0xF0;
    let image = decode(bytes);
    assert_eq!(image.get_mapper(), 0);
    assert_eq!(image.get_chr_ram_size(), 0);
    assert!(!image.is_chr_ram_present());
}

#[test]
fn rom_wraps_a_decoded_image() {
    let mut bytes = header(1, 0, 0);
    bytes.extend(pattern(16384, 8));
    let rom = match Rom::from_bytes(bytes.clone()) {
        Ok(r) => r,
        Err(e) => panic!("unexpected error {:?}", e),
    };
    assert_eq!(rom.get_data().get_prg_rom(), bytes[16..].to_vec());
    assert!(matches!(Rom::from_bytes(vec![0; 32]), Err(FormatError::InvalidSignature)));
}
