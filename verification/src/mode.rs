use vstd::prelude::*;

use crate::wide::{
    before_nul, encode_wide, le_bytes, le_bytes_of, lemma_before_nul_of_terminated,
    units_before_nul, utf16_of,
};

verus! {

/// The keyboard layout the whole session is held to.
#[derive(Clone, Copy, PartialEq, Eq, Structural, Debug)]
pub enum Mode {
    /// United States-International.
    UsIntl,
    /// Portuguese (Brazilian ABNT2).
    Abnt2,
}

/// Keyboard layout identifier (KLID) of each mode.
pub open spec fn klid_spec(mode: Mode) -> Seq<char> {
    match mode {
        Mode::UsIntl => "00020409"@,
        Mode::Abnt2 => "00010416"@,
    }
}

/// The KLID that `LoadKeyboardLayoutW` is given for `mode`.
pub fn klid_for(mode: Mode) -> (klid: &'static str)
    ensures
        klid@ == klid_spec(mode),
{
    match mode {
        Mode::UsIntl => "00020409",
        Mode::Abnt2 => "00010416",
    }
}

/// The text under which a mode is remembered in the user's registry.
pub open spec fn stored_value_spec(mode: Mode) -> Seq<char> {
    match mode {
        Mode::UsIntl => "US"@,
        Mode::Abnt2 => "ABNT"@,
    }
}

/// The registry text that remembers `mode`.
pub fn stored_value(mode: Mode) -> (text: &'static str)
    ensures
        text@ == stored_value_spec(mode),
{
    match mode {
        Mode::UsIntl => "US",
        Mode::Abnt2 => "ABNT",
    }
}

/// UTF-16 units of the text "ABNT".
pub open spec fn abnt_units() -> Seq<u16> {
    seq![0x41u16, 0x42u16, 0x4Eu16, 0x54u16]
}

/// The mode read back from the registry. `found` says whether the value could
/// be read at all; `buf` is the buffer it was read into. Only the exact text
/// "ABNT" (up to the first NUL) selects ABNT2; anything else, a missing
/// value included, falls back to US International.
pub open spec fn stored_mode_of(found: bool, buf: Seq<u16>) -> Mode {
    if found && before_nul(buf) == abnt_units() {
        Mode::Abnt2
    } else {
        Mode::UsIntl
    }
}

/// The units, NUL included, written to the registry to remember `mode`.
pub open spec fn stored_units_of(mode: Mode) -> Seq<u16> {
    utf16_of(stored_value_spec(mode)).push(0u16)
}

/// Decodes the remembered mode from the outcome of a registry read.
pub fn decode_stored_mode(found: bool, buf: &Vec<u16>) -> (mode: Mode)
    ensures
        mode == stored_mode_of(found, buf@),
{
    if !found {
        return Mode::UsIntl;
    }
    let text = units_before_nul(buf);
    if text.len() == 4 && text[0] == 0x41 && text[1] == 0x42 && text[2] == 0x4E && text[3] == 0x54 {
        assert(text@ == abnt_units());
        Mode::Abnt2
    } else {
        assert(text@ != abnt_units());
        Mode::UsIntl
    }
}

/// The wide string, NUL included, that remembers `mode` in the registry.
pub fn encode_stored_mode(mode: Mode) -> (units: Vec<u16>)
    ensures
        units@ == stored_units_of(mode),
{
    encode_wide(stored_value(mode))
}

/// The `REG_SZ` bytes written to remember `mode`.
pub fn stored_mode_bytes(mode: Mode) -> (bytes: Vec<u8>)
    ensures
        bytes@ == le_bytes_of(stored_units_of(mode)),
{
    let units = encode_stored_mode(mode);
    proof {
        lemma_stored_units(mode);
    }
    le_bytes(&units)
}

/// The stored units of each mode, spelled out.
pub proof fn lemma_stored_units(mode: Mode)
    ensures
        stored_units_of(mode) == (match mode {
            Mode::UsIntl => seq![0x55u16, 0x53u16, 0u16],
            Mode::Abnt2 => seq![0x41u16, 0x42u16, 0x4Eu16, 0x54u16, 0u16],
        }),
{
    reveal_strlit("US");
    reveal_strlit("ABNT");
    let s = stored_value_spec(mode);
    reveal_with_fuel(utf16_of, 5);
    match mode {
        Mode::UsIntl => {
            assert(s.drop_last() =~= seq!['U']);
            assert(s.drop_last().drop_last() =~= Seq::<char>::empty());
        },
        Mode::Abnt2 => {
            assert(s.drop_last() =~= seq!['A', 'B', 'N']);
            assert(s.drop_last().drop_last() =~= seq!['A', 'B']);
            assert(s.drop_last().drop_last().drop_last() =~= seq!['A']);
            assert(s.drop_last().drop_last().drop_last().drop_last() =~= Seq::<char>::empty());
        },
    }
}

/// What is written for a mode reads back as that mode: whatever follows the
/// terminator in the read buffer, decoding a successful read of the stored
/// units gives the mode that was stored.
pub proof fn lemma_stored_mode_roundtrip(mode: Mode, rest: Seq<u16>)
    ensures
        stored_mode_of(true, stored_units_of(mode) + rest) == mode,
{
    lemma_stored_units(mode);
    let text = stored_units_of(mode).drop_last();
    assert(stored_units_of(mode) == text.push(0u16));
    lemma_before_nul_of_terminated(text, rest);
    match mode {
        Mode::UsIntl => {
            assert(text =~= seq![0x55u16, 0x53u16]);
            assert(text[0] != abnt_units()[0]);
        },
        Mode::Abnt2 => {
            assert(text =~= abnt_units());
        },
    }
}

/// A failed registry read always yields US International.
pub proof fn lemma_missing_value_is_us(buf: Seq<u16>)
    ensures
        stored_mode_of(false, buf) == Mode::UsIntl,
{
}

} // verus!
