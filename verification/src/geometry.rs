use vstd::prelude::*;

use crate::paint::{rgb, rgb_spec};

verus! {

/// Whether `v` is representable as an `i32`.
pub open spec fn fits(v: int) -> bool {
    i32::MIN <= v <= i32::MAX
}

/// Half of `v`, rounded toward zero (integer division by two in Rust).
pub open spec fn half(v: int) -> int {
    if v >= 0 {
        v / 2
    } else {
        -((-v) / 2)
    }
}

/// A rectangle in window or screen coordinates; `right` and `bottom` are
/// exclusive.
#[derive(Clone, Copy, PartialEq, Eq, Structural, Debug)]
pub struct Rect {
    pub left: i32,
    pub top: i32,
    pub right: i32,
    pub bottom: i32,
}

impl Rect {
    /// The all-zero rectangle, which contains no point.
    pub fn empty() -> (r: Rect)
        ensures
            r == (Rect { left: 0, top: 0, right: 0, bottom: 0 }),
    {
        Rect { left: 0, top: 0, right: 0, bottom: 0 }
    }
}

/// Whether the point lies inside the rectangle.
pub open spec fn in_rect_spec(r: Rect, x: i32, y: i32) -> bool {
    x >= r.left && x < r.right && y >= r.top && y < r.bottom
}

/// Hit test of a point against a rectangle.
pub fn in_rect(r: Rect, x: i32, y: i32) -> (hit: bool)
    ensures
        hit == in_rect_spec(r, x, y),
{
    x >= r.left && x < r.right && y >= r.top && y < r.bottom
}

/// Width of the custom close button.
pub const CLOSE_BTN_W: i32 = 46;
/// Height of the custom close button.
pub const CLOSE_BTN_H: i32 = 36;
/// Height of the strip at the top of a borderless window that drags it.
pub const DRAG_STRIP_H: i32 = 92;

/// The close button: the top-right corner of a client area `client_right` wide.
pub open spec fn close_btn_rect_spec(client_right: i32) -> Rect {
    Rect {
        left: (client_right - CLOSE_BTN_W) as i32,
        top: 0,
        right: client_right,
        bottom: CLOSE_BTN_H,
    }
}

/// The rectangle of the close button.
pub fn close_btn_rect(client_right: i32) -> (r: Rect)
    requires
        fits(client_right - CLOSE_BTN_W),
    ensures
        r == close_btn_rect_spec(client_right),
{
    Rect { left: client_right - CLOSE_BTN_W, top: 0, right: client_right, bottom: CLOSE_BTN_H }
}

/// A press starts dragging the window when it is in the top strip and not on
/// the close button.
pub open spec fn starts_drag_spec(x: i32, y: i32, client_right: i32) -> bool {
    y < DRAG_STRIP_H && !in_rect_spec(close_btn_rect_spec(client_right), x, y)
}

/// Decides whether a left-button press at (`x`, `y`) drags the window.
pub fn starts_drag(x: i32, y: i32, client_right: i32) -> (drag: bool)
    requires
        fits(client_right - CLOSE_BTN_W),
    ensures
        drag == starts_drag_spec(x, y, client_right),
{
    y < DRAG_STRIP_H && !in_rect(close_btn_rect(client_right), x, y)
}

/// A line segment drawn with the current pen.
#[derive(Clone, Copy, PartialEq, Eq, Structural, Debug)]
pub struct Stroke {
    pub from_x: i32,
    pub from_y: i32,
    pub to_x: i32,
    pub to_y: i32,
}

/// How the close button is painted: an optional red hover fill and a cross
/// of two strokes, white when hovered and grey otherwise.
#[derive(Clone, Copy, PartialEq, Eq, Structural, Debug)]
pub struct ClosePaint {
    pub rect: Rect,
    pub fill: Option<u32>,
    pub pen: u32,
    pub first: Stroke,
    pub second: Stroke,
}

/// The painting of the close button of a client area `client_right` wide.
pub open spec fn close_paint_spec(client_right: i32, hot: bool) -> ClosePaint {
    let cx = client_right - 23;
    let cy = 18int;
    ClosePaint {
        rect: close_btn_rect_spec(client_right),
        fill: if hot {
            Some(rgb_spec(196, 43, 43))
        } else {
            None
        },
        pen: if hot {
            rgb_spec(255, 255, 255)
        } else {
            rgb_spec(180, 186, 198)
        },
        first: Stroke {
            from_x: (cx - 5) as i32,
            from_y: (cy - 5) as i32,
            to_x: (cx + 6) as i32,
            to_y: (cy + 6) as i32,
        },
        second: Stroke {
            from_x: (cx + 5) as i32,
            from_y: (cy - 5) as i32,
            to_x: (cx - 6) as i32,
            to_y: (cy + 6) as i32,
        },
    }
}

/// Computes how to paint the close button; it is centred on the button.
pub fn close_paint(client_right: i32, hot: bool) -> (p: ClosePaint)
    requires
        fits(client_right - CLOSE_BTN_W),
        fits(2 * client_right - CLOSE_BTN_W),
    ensures
        p == close_paint_spec(client_right, hot),
{
    let rc = close_btn_rect(client_right);
    let fill = if hot {
        Some(rgb(196, 43, 43))
    } else {
        None
    };
    let pen = if hot {
        rgb(255, 255, 255)
    } else {
        rgb(180, 186, 198)
    };
    let cx = (rc.left + rc.right) / 2;
    let cy = (rc.top + rc.bottom) / 2;
    assert(cx == client_right - 23);
    let s: i32 = 5;
    ClosePaint {
        rect: rc,
        fill,
        pen,
        first: Stroke { from_x: cx - s, from_y: cy - s, to_x: cx + s + 1, to_y: cy + s + 1 },
        second: Stroke { from_x: cx + s, from_y: cy - s, to_x: cx - s - 1, to_y: cy + s + 1 },
    }
}

/// A 16-bit word read as a signed value.
pub open spec fn signed_word(w: int) -> int {
    if w < 0x8000 {
        w
    } else {
        w - 0x10000
    }
}

/// The client coordinates packed in a mouse message's `lParam`: the signed
/// low word is x, the signed high word is y.
pub open spec fn lparam_point_spec(lparam: isize) -> (i32, i32) {
    (
        signed_word((lparam & 0xffffisize) as int) as i32,
        signed_word(((lparam >> 16isize) & 0xffffisize) as int) as i32,
    )
}

/// Reads the signed 16-bit value out of the low word of `v`.
fn signed_low_word(v: isize) -> (r: i32)
    ensures
        r == signed_word((v & 0xffffisize) as int),
{
    let w = v & 0xffffisize;
    assert(0 <= w <= 0xffff) by (bit_vector)
        requires
            w == v & 0xffffisize,
    ;
    let r = w as i16 as i32;
    assert(r == (if w < 0x8000 {
        w as int
    } else {
        w - 0x10000
    })) by (bit_vector)
        requires
            0 <= w <= 0xffff,
            r == w as i16 as i32,
    ;
    r
}

/// Unpacks the point of a mouse message.
pub fn lparam_point(lparam: isize) -> (p: (i32, i32))
    ensures
        p == lparam_point_spec(lparam),
{
    let x = signed_low_word(lparam);
    let y = signed_low_word(lparam >> 16isize);
    (x, y)
}

/// The centre of the work area, when it has a width; otherwise the caller
/// falls back to the centre of the screen.
pub open spec fn work_area_center_spec(work: Rect) -> Option<(i32, i32)> {
    if work.right > work.left {
        Some(
            (
                (work.left + half(work.right - work.left)) as i32,
                (work.top + half(work.bottom - work.top)) as i32,
            ),
        )
    } else {
        None
    }
}

/// Centre of the work area of the monitor the menu was opened on.
pub fn work_area_center(work: Rect) -> (c: Option<(i32, i32)>)
    requires
        work.right > work.left ==> fits(work.right - work.left) && fits(work.bottom - work.top),
    ensures
        c == work_area_center_spec(work),
{
    if work.right > work.left {
        let cx = work.left + (work.right - work.left) / 2;
        let cy = work.top + (work.bottom - work.top) / 2;
        Some((cx, cy))
    } else {
        None
    }
}

/// Centre of a screen `width` by `height` pixels.
pub fn screen_center(width: i32, height: i32) -> (c: (i32, i32))
    ensures
        c == (half(width as int) as i32, half(height as int) as i32),
{
    (width / 2, height / 2)
}

/// Top-left corner of a window `w` by `h` centred on (`cx`, `cy`).
pub fn centered_origin(cx: i32, cy: i32, w: i32, h: i32) -> (o: (i32, i32))
    requires
        fits(cx - half(w as int)),
        fits(cy - half(h as int)),
    ensures
        o == ((cx - half(w as int)) as i32, (cy - half(h as int)) as i32),
{
    (cx - w / 2, cy - h / 2)
}

/// Size of the About window.
pub const ABOUT_W: i32 = 440;
/// Height of the About window.
pub const ABOUT_H: i32 = 260;
/// Width of the message dialog.
pub const DLG_W: i32 = 430;
/// Least height of the message dialog; it grows to fit its body.
pub const DLG_H: i32 = 248;
/// Least width of a dialog button.
pub const DLG_BTN_W: i32 = 116;
/// Height of a dialog button.
pub const DLG_BTN_H: i32 = 34;
/// Horizontal padding of a button's label.
pub const DLG_BTN_PAD_X: i32 = 18;
/// Gap between the dialog body and its buttons.
pub const DLG_BODY_GAP: i32 = 28;
/// Margin of the About window and dialog contents.
pub const PAD: i32 = 28;

/// Height of the dialog for a word-wrapped body `body_height` pixels tall:
/// room for the heading, the body, the gap and the buttons, never below the
/// least height.
pub open spec fn dialog_height_spec(body_height: i32) -> i32 {
    let h = 96 + body_height + DLG_BODY_GAP + DLG_BTN_H + 20;
    if h > DLG_H {
        h as i32
    } else {
        DLG_H
    }
}

/// The dialog height that fits its body.
pub fn dialog_height(body_height: i32) -> (h: i32)
    requires
        fits(96 + body_height + DLG_BODY_GAP + DLG_BTN_H + 20),
    ensures
        h == dialog_height_spec(body_height),
        h >= DLG_H,
{
    let h = 96 + body_height + DLG_BODY_GAP + DLG_BTN_H + 20;
    if h > DLG_H {
        h
    } else {
        DLG_H
    }
}

/// The rectangle the dialog body is measured in: the dialog width less the
/// margins, starting at the origin.
pub fn dialog_body_measure_rect() -> (r: Rect)
    ensures
        r == (Rect { left: 0, top: 0, right: 374, bottom: 0 }),
{
    Rect { left: 0, top: 0, right: DLG_W - 2 * PAD, bottom: 0 }
}

/// Width of a button whose label is `text_width` pixels wide: the label plus
/// padding on both sides, never below the least button width.
pub open spec fn button_width_spec(text_width: i32) -> i32 {
    let w = text_width + 2 * DLG_BTN_PAD_X;
    if w > DLG_BTN_W {
        w as i32
    } else {
        DLG_BTN_W
    }
}

/// The width a button needs for its label.
pub fn button_width(text_width: i32) -> (w: i32)
    requires
        fits(text_width + 2 * DLG_BTN_PAD_X),
    ensures
        w == button_width_spec(text_width),
        w >= DLG_BTN_W,
        w >= text_width + 2 * DLG_BTN_PAD_X,
{
    let w = text_width + 2 * DLG_BTN_PAD_X;
    if w > DLG_BTN_W {
        w
    } else {
        DLG_BTN_W
    }
}

/// How a dialog button is painted: its rectangle, fill, border and label
/// colours. The accent (primary) button is blue with white text.
#[derive(Clone, Copy, PartialEq, Eq, Structural, Debug)]
pub struct ButtonPaint {
    pub rect: Rect,
    pub fill: u32,
    pub pen: u32,
    pub text: u32,
}

/// The button `width` wide with its top-left corner at (`x`, `y`).
pub open spec fn button_paint_spec(x: i32, y: i32, width: i32, accent: bool) -> ButtonPaint {
    ButtonPaint {
        rect: Rect { left: x, top: y, right: (x + width) as i32, bottom: (y + DLG_BTN_H) as i32 },
        fill: if accent {
            rgb_spec(56, 118, 240)
        } else {
            rgb_spec(48, 52, 62)
        },
        pen: if accent {
            rgb_spec(56, 118, 240)
        } else {
            rgb_spec(74, 80, 92)
        },
        text: if accent {
            rgb_spec(255, 255, 255)
        } else {
            rgb_spec(214, 219, 228)
        },
    }
}

/// Computes how to paint one dialog button.
pub fn button_paint(x: i32, y: i32, width: i32, accent: bool) -> (p: ButtonPaint)
    requires
        fits(x + width),
        fits(y + DLG_BTN_H),
    ensures
        p == button_paint_spec(x, y, width, accent),
{
    ButtonPaint {
        rect: Rect { left: x, top: y, right: x + width, bottom: y + DLG_BTN_H },
        fill: if accent {
            rgb(56, 118, 240)
        } else {
            rgb(48, 52, 62)
        },
        pen: if accent {
            rgb(56, 118, 240)
        } else {
            rgb(74, 80, 92)
        },
        text: if accent {
            rgb(255, 255, 255)
        } else {
            rgb(214, 219, 228)
        },
    }
}

/// Where the dialog's buttons go, bottom-right: the primary button against
/// the right margin, the secondary one (if any) 12 pixels to its left, each as
/// wide as its label needs. Without a secondary button its rectangle is empty.
pub open spec fn dialog_buttons_spec(client: Rect, primary_w: i32, secondary_w: Option<i32>) -> (
    Rect,
    Rect,
) {
    let by = client.bottom - 20 - DLG_BTN_H;
    let px = client.right - PAD - primary_w;
    let primary = Rect {
        left: px as i32,
        top: by as i32,
        right: (px + primary_w) as i32,
        bottom: (by + DLG_BTN_H) as i32,
    };
    let secondary = match secondary_w {
        Some(sw) => {
            let sx = px - 12 - sw;
            Rect {
                left: sx as i32,
                top: by as i32,
                right: (sx + sw) as i32,
                bottom: (by + DLG_BTN_H) as i32,
            }
        },
        None => Rect { left: 0, top: 0, right: 0, bottom: 0 },
    };
    (primary, secondary)
}

/// The coordinates the button layout needs all fit in `i32`.
pub open spec fn dialog_buttons_fit(client: Rect, primary_w: i32, secondary_w: Option<i32>) -> bool {
    &&& fits(client.bottom - 20 - DLG_BTN_H)
    &&& fits(client.right - PAD)
    &&& fits(client.right - PAD - primary_w)
    &&& match secondary_w {
        Some(sw) => fits(client.right - PAD - primary_w - 12) && fits(
            client.right - PAD - primary_w - 12 - sw,
        ),
        None => true,
    }
}

/// Lays out the dialog's buttons in a client area.
pub fn dialog_buttons(client: Rect, primary_w: i32, secondary_w: Option<i32>) -> (r: (Rect, Rect))
    requires
        dialog_buttons_fit(client, primary_w, secondary_w),
    ensures
        r == dialog_buttons_spec(client, primary_w, secondary_w),
{
    let by = client.bottom - 20 - DLG_BTN_H;
    let px = client.right - PAD - primary_w;
    let primary = Rect { left: px, top: by, right: px + primary_w, bottom: by + DLG_BTN_H };
    let secondary = match secondary_w {
        Some(sw) => {
            let sx = px - 12 - sw;
            Rect { left: sx, top: by, right: sx + sw, bottom: by + DLG_BTN_H }
        },
        None => Rect::empty(),
    };
    (primary, secondary)
}

/// A font: pixel height, weight and whether it is underlined.
#[derive(Clone, Copy, PartialEq, Eq, Structural, Debug)]
pub struct FontSpec {
    pub height: i32,
    pub weight: i32,
    pub underline: bool,
}

/// A line of text: where it is drawn, in which font and colour.
#[derive(Clone, Copy, PartialEq, Eq, Structural, Debug)]
pub struct TextBox {
    pub rect: Rect,
    pub font: FontSpec,
    pub color: u32,
}

/// Background colour of the About window and the dialog.
pub open spec fn window_background_spec() -> u32 {
    rgb_spec(24, 27, 35)
}

/// The background colour of the borderless windows.
pub fn window_background() -> (c: u32)
    ensures
        c == window_background_spec(),
{
    rgb(24, 27, 35)
}

/// The About window's contents: a 56-pixel icon at (28, 34), then the title,
/// version, tagline, description and repository link.
#[derive(Clone, Copy, PartialEq, Eq, Structural, Debug)]
pub struct AboutLayout {
    pub icon_x: i32,
    pub icon_y: i32,
    pub icon_size: i32,
    pub title: TextBox,
    pub version: TextBox,
    pub tagline: TextBox,
    pub description: TextBox,
    pub link: TextBox,
}

/// The About window layout for a client area.
pub open spec fn about_layout_spec(client: Rect) -> AboutLayout {
    let text_x: i32 = 102;
    let right = (client.right - PAD) as i32;
    let link_top = (client.bottom - 40) as i32;
    AboutLayout {
        icon_x: PAD,
        icon_y: 34,
        icon_size: 56,
        title: TextBox {
            rect: Rect { left: text_x, top: 36, right, bottom: 68 },
            font: FontSpec { height: 27, weight: 600, underline: false },
            color: rgb_spec(250, 250, 252),
        },
        version: TextBox {
            rect: Rect { left: text_x, top: 70, right, bottom: 94 },
            font: FontSpec { height: 17, weight: 400, underline: false },
            color: rgb_spec(150, 156, 170),
        },
        tagline: TextBox {
            rect: Rect { left: PAD, top: 116, right, bottom: 144 },
            font: FontSpec { height: 17, weight: 400, underline: false },
            color: rgb_spec(196, 202, 214),
        },
        description: TextBox {
            rect: Rect { left: PAD, top: 146, right, bottom: 174 },
            font: FontSpec { height: 17, weight: 400, underline: false },
            color: rgb_spec(150, 156, 170),
        },
        link: TextBox {
            rect: Rect { left: PAD, top: link_top, right, bottom: (client.bottom - 14) as i32 },
            font: FontSpec { height: 17, weight: 400, underline: true },
            color: rgb_spec(90, 150, 245),
        },
    }
}

/// Lays out the About window.
pub fn about_layout(client: Rect) -> (l: AboutLayout)
    requires
        fits(client.right - PAD),
        fits(client.bottom - 40),
    ensures
        l == about_layout_spec(client),
{
    let text_x = PAD + 56 + 18;
    let right = client.right - PAD;
    let link_top = client.bottom - 40;
    let body = FontSpec { height: 17, weight: 400, underline: false };
    AboutLayout {
        icon_x: PAD,
        icon_y: 34,
        icon_size: 56,
        title: TextBox {
            rect: Rect { left: text_x, top: 36, right, bottom: 68 },
            font: FontSpec { height: 27, weight: 600, underline: false },
            color: rgb(250, 250, 252),
        },
        version: TextBox {
            rect: Rect { left: text_x, top: 70, right, bottom: 94 },
            font: body,
            color: rgb(150, 156, 170),
        },
        tagline: TextBox {
            rect: Rect { left: PAD, top: 116, right, bottom: 144 },
            font: body,
            color: rgb(196, 202, 214),
        },
        description: TextBox {
            rect: Rect { left: PAD, top: 146, right, bottom: 174 },
            font: body,
            color: rgb(150, 156, 170),
        },
        link: TextBox {
            rect: Rect { left: PAD, top: link_top, right, bottom: client.bottom - 14 },
            font: FontSpec { height: 17, weight: 400, underline: true },
            color: rgb(90, 150, 245),
        },
    }
}

/// The clickable area of the link: where its text starts, as wide and tall
/// as the text measured.
pub open spec fn link_hit_rect_spec(client: Rect, text_w: i32, text_h: i32) -> Rect {
    let top = client.bottom - 40;
    Rect {
        left: PAD,
        top: top as i32,
        right: (PAD + text_w) as i32,
        bottom: (top + text_h) as i32,
    }
}

/// The clickable rectangle of the About window's link.
pub fn link_hit_rect(client: Rect, text_w: i32, text_h: i32) -> (r: Rect)
    requires
        fits(client.bottom - 40),
        fits(PAD + text_w),
        fits(client.bottom - 40 + text_h),
    ensures
        r == link_hit_rect_spec(client, text_w, text_h),
{
    let top = client.bottom - 40;
    Rect { left: PAD, top, right: PAD + text_w, bottom: top + text_h }
}

/// The message dialog's contents: a 48-pixel icon at (28, 30), the heading
/// beside it and the word-wrapped body below.
#[derive(Clone, Copy, PartialEq, Eq, Structural, Debug)]
pub struct DialogLayout {
    pub icon_x: i32,
    pub icon_y: i32,
    pub icon_size: i32,
    pub heading: TextBox,
    pub body: TextBox,
}

/// The dialog layout for a client area.
pub open spec fn dialog_layout_spec(client: Rect) -> DialogLayout {
    let right = (client.right - PAD) as i32;
    DialogLayout {
        icon_x: PAD,
        icon_y: 30,
        icon_size: 48,
        heading: TextBox {
            rect: Rect { left: 92, top: 38, right, bottom: 74 },
            font: FontSpec { height: 24, weight: 600, underline: false },
            color: rgb_spec(250, 250, 252),
        },
        body: TextBox {
            rect: Rect { left: PAD, top: 96, right, bottom: (client.bottom - 64) as i32 },
            font: FontSpec { height: 17, weight: 400, underline: false },
            color: rgb_spec(196, 202, 214),
        },
    }
}

/// Lays out the dialog's icon, heading and body.
pub fn dialog_layout(client: Rect) -> (l: DialogLayout)
    requires
        fits(client.right - PAD),
        fits(client.bottom - 64),
    ensures
        l == dialog_layout_spec(client),
{
    let right = client.right - PAD;
    DialogLayout {
        icon_x: PAD,
        icon_y: 30,
        icon_size: 48,
        heading: TextBox {
            rect: Rect { left: PAD + 48 + 16, top: 38, right, bottom: 74 },
            font: FontSpec { height: 24, weight: 600, underline: false },
            color: rgb(250, 250, 252),
        },
        body: TextBox {
            rect: Rect { left: PAD, top: 96, right, bottom: client.bottom - 64 },
            font: FontSpec { height: 17, weight: 400, underline: false },
            color: rgb(196, 202, 214),
        },
    }
}

/// The font of a dialog button's label, shared by measuring and painting.
pub fn button_font() -> (f: FontSpec)
    ensures
        f == (FontSpec { height: 17, weight: 600, underline: false }),
{
    FontSpec { height: 17, weight: 600, underline: false }
}

/// The font the dialog body is measured and drawn in.
pub fn body_font() -> (f: FontSpec)
    ensures
        f == (FontSpec { height: 17, weight: 400, underline: false }),
{
    FontSpec { height: 17, weight: 400, underline: false }
}

} // verus!
