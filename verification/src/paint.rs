use vstd::prelude::*;

verus! {

/// The `COLORREF` value (`0x00BBGGRR`) of an RGB triple.
pub open spec fn rgb_spec(r: u8, g: u8, b: u8) -> u32 {
    (r + 256 * g + 65536 * b) as u32
}

/// Packs an RGB triple into a Win32 `COLORREF` value.
pub fn rgb(r: u8, g: u8, b: u8) -> (c: u32)
    ensures
        c == rgb_spec(r, g, b),
        c == r + 256 * g + 65536 * b,
{
    let c = (r as u32) | ((g as u32) << 8u32) | ((b as u32) << 16u32);
    assert(c == r + 256 * g + 65536 * b) by (bit_vector)
        requires
            c == (r as u32) | ((g as u32) << 8u32) | ((b as u32) << 16u32),
    ;
    c
}

/// Side, in pixels, of the drawn tray and brand icons.
pub const ICON_SIZE: i32 = 32;

/// Bytes in the 32-bit colour bitmap of a drawn icon.
pub const ICON_BITMAP_BYTES: usize = 4096;

/// The colour bitmap after every pixel was made opaque: GDI leaves the alpha
/// byte (the fourth of each pixel) at zero, which would make the icon
/// invisible, so it is set to 255; all other bytes keep their value.
pub open spec fn opaque_spec(before: Seq<u8>) -> Seq<u8> {
    Seq::new(
        before.len(),
        |j: int|
            if j < ICON_BITMAP_BYTES && j % 4 == 3 {
                255u8
            } else {
                before[j]
            },
    )
}

/// Sets the alpha byte of every pixel of a drawn icon's bitmap to opaque.
pub fn force_opaque(bits: &mut [u8])
    requires
        old(bits)@.len() >= ICON_BITMAP_BYTES,
    ensures
        final(bits)@ == opaque_spec(old(bits)@),
{
    let mut i: usize = 0;
    while i < 1024
        invariant
            i <= 1024,
            bits@.len() == old(bits)@.len(),
            bits@.len() >= ICON_BITMAP_BYTES,
            forall|j: int|
                0 <= j < bits@.len() ==> #[trigger] bits@[j] == (if j < 4 * i && j % 4 == 3 {
                    255u8
                } else {
                    old(bits)@[j]
                }),
        decreases 1024 - i,
    {
        bits[i * 4 + 3] = 255u8;
        i = i + 1;
    }
    assert(bits@ == opaque_spec(old(bits)@));
}

/// The monochrome mask of a drawn icon: all zero, one byte per pixel of the
/// icon (more than the one-bit-per-pixel mask needs).
pub fn icon_mask() -> (mask: Vec<u8>)
    ensures
        mask@.len() == 1024,
        forall|i: int| 0 <= i < 1024 ==> #[trigger] mask@[i] == 0,
{
    let mut mask: Vec<u8> = Vec::new();
    let mut i: usize = 0;
    while i < 1024
        invariant
            i <= 1024,
            mask@.len() == i,
            forall|j: int| 0 <= j < i ==> #[trigger] mask@[j] == 0,
        decreases 1024 - i,
    {
        mask.push(0u8);
        i = i + 1;
    }
    mask
}

/// White, the colour of the text on a drawn icon.
pub fn icon_text_color() -> (c: u32)
    ensures
        c == rgb_spec(255, 255, 255),
{
    rgb(255, 255, 255)
}

} // verus!
