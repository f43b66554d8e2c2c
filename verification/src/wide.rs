use vstd::prelude::*;

verus! {

/// The UTF-16 code units of one character: one unit for the Basic Multilingual
/// Plane, a surrogate pair above it.
pub open spec fn char_units(c: char) -> Seq<u16> {
    let v = c as u32;
    if v < 0x10000 {
        seq![v as u16]
    } else {
        let s = (v - 0x10000) as u32;
        seq![(0xD800 + s / 0x400) as u16, (0xDC00 + s % 0x400) as u16]
    }
}

/// The UTF-16 encoding of a character sequence (no terminator).
pub open spec fn utf16_of(cs: Seq<char>) -> Seq<u16>
    decreases cs.len(),
{
    if cs.len() == 0 {
        Seq::empty()
    } else {
        utf16_of(cs.drop_last()) + char_units(cs.last())
    }
}

fn push_char_units(out: &mut Vec<u16>, c: char)
    ensures
        final(out)@ == old(out)@ + char_units(c),
{
    let v = c as u32;
    if v < 0x10000 {
        out.push(v as u16);
    } else {
        let s = v - 0x10000;
        assert(s < 0x100000);
        out.push((0xD800 + s / 0x400) as u16);
        out.push((0xDC00 + s % 0x400) as u16);
    }
}

/// UTF-16 code units of `s`, without a terminator.
pub fn encode_utf16(s: &str) -> (units: Vec<u16>)
    ensures
        units@ == utf16_of(s@),
{
    broadcast use vstd::string::group_string_axioms;
    let mut out: Vec<u16> = Vec::new();
    for c in it: s.chars()
        invariant
            it.seq() == s@,
            out@ == utf16_of(it.seq().take(it.index())),
    {
        assert(it.seq().take(it.index() + 1).drop_last() == it.seq().take(it.index()));
        push_char_units(&mut out, c);
    }
    assert(s@.take(s@.len() as int) == s@);
    out
}

/// UTF-16 code units of `s` followed by a NUL terminator, the form Win32
/// wide-string parameters take.
pub fn encode_wide(s: &str) -> (units: Vec<u16>)
    ensures
        units@ == utf16_of(s@).push(0u16),
{
    let mut out = encode_utf16(s);
    out.push(0u16);
    out
}

/// The units of `buf` before its first NUL, or all of them when there is none.
pub open spec fn before_nul(buf: Seq<u16>) -> Seq<u16>
    decreases buf.len(),
{
    if buf.len() == 0 {
        buf
    } else if buf[0] == 0 {
        Seq::empty()
    } else {
        seq![buf[0]] + before_nul(buf.drop_first())
    }
}

/// Index of the first NUL in `buf`, or its length when there is none.
pub open spec fn nul_position(buf: Seq<u16>) -> int
    decreases buf.len(),
{
    if buf.len() == 0 {
        0
    } else if buf[0] == 0 {
        0
    } else {
        1 + nul_position(buf.drop_first())
    }
}

proof fn lemma_nul_position(buf: Seq<u16>)
    ensures
        0 <= nul_position(buf) <= buf.len(),
        before_nul(buf) == buf.take(nul_position(buf)),
        forall|i: int| 0 <= i < nul_position(buf) ==> buf[i] != 0,
        nul_position(buf) < buf.len() ==> buf[nul_position(buf)] == 0,
    decreases buf.len(),
{
    if buf.len() > 0 && buf[0] != 0 {
        lemma_nul_position(buf.drop_first());
        assert(before_nul(buf) == buf.take(nul_position(buf)));
        assert forall|i: int| 0 <= i < nul_position(buf) implies buf[i] != 0 by {
            if i > 0 {
                assert(buf[i] == buf.drop_first()[i - 1]);
            }
        }
    } else if buf.len() > 0 {
        assert(buf.take(0) == Seq::<u16>::empty());
    }
}

/// A sequence that holds no NUL followed by a NUL and anything: the units
/// before the first NUL are exactly that sequence.
pub proof fn lemma_before_nul_of_terminated(text: Seq<u16>, rest: Seq<u16>)
    requires
        forall|i: int| 0 <= i < text.len() ==> text[i] != 0,
    ensures
        before_nul(text.push(0u16) + rest) == text,
    decreases text.len(),
{
    let buf = text.push(0u16) + rest;
    if text.len() > 0 {
        assert(buf.drop_first() == text.drop_first().push(0u16) + rest);
        lemma_before_nul_of_terminated(text.drop_first(), rest);
        assert(seq![text[0]] + text.drop_first() == text);
    } else {
        assert(buf[0] == 0);
    }
}

/// The units of `buf` up to (not including) its first NUL.
pub fn units_before_nul(buf: &Vec<u16>) -> (text: Vec<u16>)
    ensures
        text@ == before_nul(buf@),
{
    proof {
        lemma_nul_position(buf@);
    }
    let mut out: Vec<u16> = Vec::new();
    let mut i: usize = 0;
    while i < buf.len() && buf[i] != 0
        invariant
            i <= nul_position(buf@),
            0 <= nul_position(buf@) <= buf@.len(),
            forall|j: int| 0 <= j < nul_position(buf@) ==> buf@[j] != 0,
            nul_position(buf@) < buf@.len() ==> buf@[nul_position(buf@)] == 0,
            out@ == buf@.take(i as int),
        decreases buf.len() - i,
    {
        out.push(buf[i]);
        i = i + 1;
        assert(out@ == buf@.take(i as int));
    }
    proof {
        assert(i == nul_position(buf@));
    }
    out
}

/// Little-endian bytes of a sequence of UTF-16 units: the in-memory form of
/// a wide string on Windows, which registry values of type `REG_SZ` store.
pub open spec fn le_bytes_of(units: Seq<u16>) -> Seq<u8> {
    Seq::new(
        2 * units.len(),
        |i: int|
            if i % 2 == 0 {
                (units[i / 2] % 256) as u8
            } else {
                (units[i / 2] / 256) as u8
            },
    )
}

/// The little-endian byte image of `units`.
pub fn le_bytes(units: &Vec<u16>) -> (bytes: Vec<u8>)
    requires
        2 * units@.len() <= usize::MAX,
    ensures
        bytes@ == le_bytes_of(units@),
{
    let mut out: Vec<u8> = Vec::new();
    let mut i: usize = 0;
    while i < units.len()
        invariant
            i <= units@.len(),
            2 * units@.len() <= usize::MAX,
            out@.len() == 2 * i,
            forall|j: int|
                0 <= j < 2 * i ==> out@[j] == (if j % 2 == 0 {
                    (units@[j / 2] % 256) as u8
                } else {
                    (units@[j / 2] / 256) as u8
                }),
        decreases units.len() - i,
    {
        let u = units[i];
        out.push((u % 256) as u8);
        out.push((u / 256) as u8);
        i = i + 1;
    }
    assert(out@ == le_bytes_of(units@));
    out
}

/// Width, in UTF-16 units, of the tooltip field of a tray icon record
/// (`NOTIFYICONDATAW::szTip`).
pub const TIP_FIELD_LEN: usize = 128;

/// The tooltip field filled from `tip`: its first units, at most one fewer
/// than the field holds, and zeros after them.
pub open spec fn tip_field_of(tip: Seq<u16>) -> Seq<u16> {
    let n = if tip.len() < 127 { tip.len() as int } else { 127int };
    Seq::new(128, |i: int| if i < n { tip[i] } else { 0u16 })
}

/// Copies `tip` into a zeroed tooltip field, truncated so the field always
/// ends with a NUL.
pub fn tip_field(tip: &Vec<u16>) -> (field: Vec<u16>)
    ensures
        field@ == tip_field_of(tip@),
        field@.len() == TIP_FIELD_LEN,
{
    let n: usize = if tip.len() < 127 { tip.len() } else { 127 };
    let mut out: Vec<u16> = Vec::new();
    let mut i: usize = 0;
    while i < 128
        invariant
            i <= 128,
            n == (if tip@.len() < 127 { tip@.len() as int } else { 127int }),
            n <= tip@.len(),
            out@.len() == i,
            forall|j: int| 0 <= j < i ==> out@[j] == (if j < n { tip@[j] } else { 0u16 }),
        decreases 128 - i,
    {
        if i < n {
            out.push(tip[i]);
        } else {
            out.push(0u16);
        }
        i = i + 1;
    }
    assert(out@ == tip_field_of(tip@));
    out
}

/// The tooltip field is always exactly as wide as the record's field and
/// always ends in a NUL, however long the tooltip: the shell never reads past it.
pub proof fn lemma_tip_field_terminated(tip: Seq<u16>)
    ensures
        tip_field_of(tip).len() == TIP_FIELD_LEN,
        tip_field_of(tip)[127] == 0,
        forall|i: int| 0 <= i < tip.len() && i < 127 ==> #[trigger] tip_field_of(tip)[i] == tip[i],
{
}

} // verus!
