//! Facts about decoding that relate inputs to outcomes.
use vstd::prelude::*;

use crate::ines::{
    battery_of, bit_set, chr_rom_start, console_type_of, decode_spec, four_screen_of,
    has_signature, mirroring_of, outcome_view, pc_inst_rom_start, pc_prom_counterout_start,
    pc_prom_data_start, prg_rom_start, title_start, tv_system_of, CartridgeView, FormatError, INes,
    BATTERY_MASK, FOUR_SCREEN_MASK, HEADER_LEN, MIRRORING_MASK, PLAYCHOICE_MASK, TV_SYSTEM_MASK,
    VS_SYSTEM_MASK,
};

verus! {

/// Flips the bits of `mask` in byte `i` of `h`.
pub open spec fn toggle_bit(h: Seq<u8>, i: int, mask: u8) -> Seq<u8> {
    h.update(i, h[i] ^ mask)
}

/// For each of the decoded flags (mirroring, battery, four-screen mode,
/// console type, TV system), whether it differs between `a` and `b`.
pub open spec fn changed_flags(a: Seq<u8>, b: Seq<u8>) -> (bool, bool, bool, bool, bool) {
    (
        mirroring_of(a) != mirroring_of(b),
        battery_of(a) != battery_of(b),
        four_screen_of(a) != four_screen_of(b),
        console_type_of(a) != console_type_of(b),
        tv_system_of(a) != tv_system_of(b),
    )
}

/// The sections of a decoded image, joined in format order.
pub open spec fn reassembled(v: CartridgeView) -> Seq<u8> {
    v.header + v.trainer + v.prg_rom + v.chr_rom + v.pc_inst_rom + v.pc_prom_data
        + v.pc_prom_counterout + v.title
}

/// An input that does not start with the signature is rejected with
/// `InvalidSignature`, whatever follows.
pub proof fn lemma_unsigned_input_rejected(bytes: Seq<u8>)
    requires
        !has_signature(bytes),
    ensures
        decode_spec(bytes) == Err::<CartridgeView, FormatError>(FormatError::InvalidSignature),
{
}

/// The header of a decoded image is exactly the first 16 bytes of the
/// input, whichever flags are set.
pub proof fn lemma_header_is_prefix(bytes: Seq<u8>)
    requires
        decode_spec(bytes) is Ok,
    ensures
        decode_spec(bytes)->Ok_0.header == bytes.subrange(0, 16),
        decode_spec(bytes)->Ok_0.header.len() == 16,
{
}

/// Decoding the same bytes twice gives outcomes that are equal field for
/// field.
pub proof fn lemma_decode_deterministic(
    bytes: Seq<u8>,
    first: Result<INes, FormatError>,
    second: Result<INes, FormatError>,
)
    requires
        outcome_view(first) == decode_spec(bytes),
        outcome_view(second) == decode_spec(bytes),
    ensures
        outcome_view(first) == outcome_view(second),
{
}

proof fn lemma_toggle_flips(b: u8, m: u8)
    requires
        m == 1 || m == 2 || m == 4 || m == 8,
    ensures
        bit_set(b ^ m, m) != bit_set(b, m),
{
    assert(((b ^ m) & m != 0) != (b & m != 0)) by (bit_vector)
        requires
            m == 1 || m == 2 || m == 4 || m == 8,
    ;
}

proof fn lemma_toggle_keeps(b: u8, m: u8, other: u8)
    requires
        m == 1 || m == 2 || m == 4 || m == 8,
        other == 1 || other == 2 || other == 4 || other == 8,
        m != other,
    ensures
        bit_set(b ^ m, other) == bit_set(b, other),
{
    assert((b ^ m) & other == b & other) by (bit_vector)
        requires
            m == 1 || m == 2 || m == 4 || m == 8,
            other == 1 || other == 2 || other == 4 || other == 8,
            m != other,
    ;
}

/// Each decoded flag is a function of its own header bit: flipping that
/// bit changes that flag and leaves the other four as they were. The
/// PlayChoice bit decides the console type only while the VS System bit
/// is clear.
pub proof fn lemma_flag_bits_independent(h: Seq<u8>)
    requires
        h.len() >= HEADER_LEN,
    ensures
        changed_flags(h, toggle_bit(h, 5, MIRRORING_MASK)) == (true, false, false, false, false),
        changed_flags(h, toggle_bit(h, 5, BATTERY_MASK)) == (false, true, false, false, false),
        changed_flags(h, toggle_bit(h, 6, FOUR_SCREEN_MASK)) == (false, false, true, false, false),
        changed_flags(h, toggle_bit(h, 6, VS_SYSTEM_MASK)) == (false, false, false, true, false),
        changed_flags(h, toggle_bit(h, 6, PLAYCHOICE_MASK)) == (
            false,
            false,
            false,
            !bit_set(h[6], VS_SYSTEM_MASK),
            false,
        ),
        changed_flags(h, toggle_bit(h, 8, TV_SYSTEM_MASK)) == (false, false, false, false, true),
{
    lemma_toggle_flips(h[5], MIRRORING_MASK);
    lemma_toggle_keeps(h[5], MIRRORING_MASK, BATTERY_MASK);
    lemma_toggle_flips(h[5], BATTERY_MASK);
    lemma_toggle_keeps(h[5], BATTERY_MASK, MIRRORING_MASK);
    lemma_toggle_flips(h[6], FOUR_SCREEN_MASK);
    lemma_toggle_keeps(h[6], FOUR_SCREEN_MASK, VS_SYSTEM_MASK);
    lemma_toggle_keeps(h[6], FOUR_SCREEN_MASK, PLAYCHOICE_MASK);
    lemma_toggle_flips(h[6], VS_SYSTEM_MASK);
    lemma_toggle_keeps(h[6], VS_SYSTEM_MASK, FOUR_SCREEN_MASK);
    lemma_toggle_keeps(h[6], VS_SYSTEM_MASK, PLAYCHOICE_MASK);
    lemma_toggle_flips(h[6], PLAYCHOICE_MASK);
    lemma_toggle_keeps(h[6], PLAYCHOICE_MASK, FOUR_SCREEN_MASK);
    lemma_toggle_keeps(h[6], PLAYCHOICE_MASK, VS_SYSTEM_MASK);
    lemma_toggle_flips(h[8], TV_SYSTEM_MASK);
}

/// The sections of a decoded image cover the input exactly: joined in
/// format order (header, trainer, program ROM, character ROM, the three
/// PlayChoice blocks, title) they give back the input, so they neither
/// overlap nor leave gaps.
pub proof fn lemma_sections_reassemble(bytes: Seq<u8>)
    requires
        decode_spec(bytes) is Ok,
    ensures
        reassembled(decode_spec(bytes)->Ok_0) == bytes,
{
    let v = decode_spec(bytes)->Ok_0;
    let s = |a: nat, b: nat| bytes.subrange(a as int, b as int);
    assert(s(0, 16) + s(16, prg_rom_start(bytes)) =~= s(0, prg_rom_start(bytes)));
    assert(s(0, prg_rom_start(bytes)) + v.prg_rom =~= s(0, chr_rom_start(bytes)));
    assert(s(0, chr_rom_start(bytes)) + v.chr_rom =~= s(0, pc_inst_rom_start(bytes)));
    assert(s(0, pc_inst_rom_start(bytes)) + v.pc_inst_rom =~= s(0, pc_prom_data_start(bytes)));
    assert(s(0, pc_prom_data_start(bytes)) + v.pc_prom_data =~= s(
        0,
        pc_prom_counterout_start(bytes),
    ));
    assert(s(0, pc_prom_counterout_start(bytes)) + v.pc_prom_counterout =~= s(
        0,
        title_start(bytes),
    ));
    assert(s(0, title_start(bytes)) + v.title =~= bytes);
}

} // verus!
