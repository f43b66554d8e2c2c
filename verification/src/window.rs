use vstd::prelude::*;

use crate::geometry::{
    button_paint, button_paint_spec, button_width, button_width_spec, close_btn_rect_spec, close_paint, close_paint_spec, dialog_buttons, dialog_buttons_fit,
    dialog_buttons_spec, fits, in_rect, in_rect_spec, link_hit_rect, link_hit_rect_spec,
    ButtonPaint, ClosePaint, Rect, CLOSE_BTN_W, DLG_BTN_PAD_X,
};

verus! {

/// Virtual-key code of Enter.
pub const VK_RETURN: u16 = 0x0D;
/// Virtual-key code of Escape.
pub const VK_ESCAPE: u16 = 0x1B;

/// The painting coordinates of a client area `client_right` wide fit in `i32`.
pub open spec fn close_fits(client_right: i32) -> bool {
    fits(client_right - CLOSE_BTN_W) && fits(2 * client_right - CLOSE_BTN_W)
}

/// What a click released in the About window does.
#[derive(Clone, Copy, PartialEq, Eq, Structural, Debug)]
pub enum AboutClick {
    /// Nothing was hit.
    Nothing,
    /// The close button: hide the window.
    Hide,
    /// The link: open the repository page.
    OpenLink,
}

/// The About window's interactive state: where its close button and link
/// were last painted, and whether the pointer is over the close button.
#[derive(Clone, Copy, PartialEq, Eq, Structural, Debug)]
pub struct AboutWindow {
    pub close: Rect,
    pub link: Rect,
    pub close_hot: bool,
}

impl AboutWindow {
    /// Before the first paint nothing can be hit.
    pub fn new() -> (w: Self)
        ensures
            w.close == (Rect { left: 0, top: 0, right: 0, bottom: 0 }),
            w.link == (Rect { left: 0, top: 0, right: 0, bottom: 0 }),
            !w.close_hot,
    {
        AboutWindow { close: Rect::empty(), link: Rect::empty(), close_hot: false }
    }

    /// Records the link and close rectangles of a paint of a client area
    /// `client`, the link text measuring `link_w` by `link_h`, and returns how
    /// to paint the close button.
    pub fn painted(&mut self, client: Rect, link_w: i32, link_h: i32) -> (p: ClosePaint)
        requires
            close_fits(client.right),
            fits(client.bottom - 40),
            fits(28 + link_w),
            fits(client.bottom - 40 + link_h),
        ensures
            final(self).link == link_hit_rect_spec(client, link_w, link_h),
            final(self).close == close_btn_rect_spec(client.right),
            final(self).close_hot == old(self).close_hot,
            p == close_paint_spec(client.right, old(self).close_hot),
    {
        self.link = link_hit_rect(client, link_w, link_h);
        let p = close_paint(client.right, self.close_hot);
        self.close = p.rect;
        p
    }

    /// A release on the close button hides the window; one on the link opens
    /// it; anywhere else does nothing.
    pub fn click(&self, x: i32, y: i32) -> (c: AboutClick)
        ensures
            c == (if in_rect_spec(self.close, x, y) {
                AboutClick::Hide
            } else if in_rect_spec(self.link, x, y) {
                AboutClick::OpenLink
            } else {
                AboutClick::Nothing
            }),
    {
        if in_rect(self.close, x, y) {
            AboutClick::Hide
        } else if in_rect(self.link, x, y) {
            AboutClick::OpenLink
        } else {
            AboutClick::Nothing
        }
    }

    /// Tracks the pointer over the close button. Returns the rectangle to
    /// repaint when the hover state changed, and nothing otherwise.
    pub fn pointer_moved(&mut self, x: i32, y: i32) -> (repaint: Option<Rect>)
        ensures
            final(self).close_hot == in_rect_spec(old(self).close, x, y),
            final(self).close == old(self).close,
            final(self).link == old(self).link,
            repaint == (if in_rect_spec(old(self).close, x, y) != old(self).close_hot {
                Some(old(self).close)
            } else {
                None::<Rect>
            }),
    {
        let hot = in_rect(self.close, x, y);
        if hot != self.close_hot {
            self.close_hot = hot;
            Some(self.close)
        } else {
            None
        }
    }

    /// The hand cursor is shown over the link and over the close button.
    pub fn shows_hand(&self, x: i32, y: i32) -> (hand: bool)
        ensures
            hand == (in_rect_spec(self.link, x, y) || in_rect_spec(self.close, x, y)),
    {
        in_rect(self.link, x, y) || in_rect(self.close, x, y)
    }

    /// Escape hides the window; other keys do nothing.
    pub fn key_hides(vk: u16) -> (hide: bool)
        ensures
            hide == (vk == VK_ESCAPE),
    {
        vk == VK_ESCAPE
    }
}

/// The dialog's decision is not made yet.
pub const DIALOG_PENDING: u8 = 0;
/// The primary button was chosen.
pub const DIALOG_PRIMARY: u8 = 1;
/// The dialog was dismissed: closed, escaped, or the secondary button.
pub const DIALOG_DISMISSED: u8 = 2;

/// The message dialog's interactive state: its painted buttons, whether it
/// has a secondary button, the close button's hover state and the decision.
#[derive(Clone, Copy, PartialEq, Eq, Structural, Debug)]
pub struct DialogWindow {
    pub close: Rect,
    pub primary: Rect,
    pub secondary: Rect,
    pub has_secondary: bool,
    pub close_hot: bool,
    pub result: u8,
}

/// The decision after a click released at (`x`, `y`): the close button
/// dismisses, the primary button accepts, the secondary button (only when
/// the dialog has one) dismisses; the first of these that is hit wins.
pub open spec fn click_result_spec(w: DialogWindow, x: i32, y: i32) -> Option<u8> {
    if in_rect_spec(w.close, x, y) {
        Some(DIALOG_DISMISSED)
    } else if in_rect_spec(w.primary, x, y) {
        Some(DIALOG_PRIMARY)
    } else if w.has_secondary && in_rect_spec(w.secondary, x, y) {
        Some(DIALOG_DISMISSED)
    } else {
        None
    }
}

/// The decision a key press makes: Enter accepts, Escape dismisses.
pub open spec fn key_result_spec(vk: u16) -> Option<u8> {
    if vk == VK_RETURN {
        Some(DIALOG_PRIMARY)
    } else if vk == VK_ESCAPE {
        Some(DIALOG_DISMISSED)
    } else {
        None
    }
}

/// The painting of the dialog's buttons and close button, in the order they
/// are drawn.
#[derive(Clone, Copy, PartialEq, Eq, Structural, Debug)]
pub struct DialogPaint {
    pub primary: ButtonPaint,
    pub secondary: Option<ButtonPaint>,
    pub close: ClosePaint,
}

/// The button widths of a paint: each label's measured width plus padding.
pub open spec fn secondary_width_spec(w: DialogWindow, secondary_text_w: i32) -> Option<i32> {
    if w.has_secondary {
        Some(button_width_spec(secondary_text_w))
    } else {
        None
    }
}

/// All coordinates of a dialog paint fit in `i32`.
pub open spec fn dialog_paint_fits(
    w: DialogWindow,
    client: Rect,
    primary_text_w: i32,
    secondary_text_w: i32,
) -> bool {
    &&& fits(primary_text_w + 2 * DLG_BTN_PAD_X)
    &&& (w.has_secondary ==> fits(secondary_text_w + 2 * DLG_BTN_PAD_X))
    &&& dialog_buttons_fit(
        client,
        button_width_spec(primary_text_w),
        secondary_width_spec(w, secondary_text_w),
    )
    &&& close_fits(client.right)
}

impl DialogWindow {
    /// The state before any dialog was shown.
    pub fn new() -> (w: Self)
        ensures
            w.result == DIALOG_PENDING,
            !w.close_hot,
            !w.has_secondary,
            w.close == (Rect { left: 0, top: 0, right: 0, bottom: 0 }),
            w.primary == (Rect { left: 0, top: 0, right: 0, bottom: 0 }),
            w.secondary == (Rect { left: 0, top: 0, right: 0, bottom: 0 }),
    {
        DialogWindow {
            close: Rect::empty(),
            primary: Rect::empty(),
            secondary: Rect::empty(),
            has_secondary: false,
            close_hot: false,
            result: DIALOG_PENDING,
        }
    }

    /// Starts a new dialog, with a secondary button or not: the decision is
    /// pending and the close button not hovered. The rectangles stay those of
    /// the last paint until this dialog is painted.
    pub fn open(&mut self, has_secondary: bool)
        ensures
            final(self).result == DIALOG_PENDING,
            !final(self).close_hot,
            final(self).has_secondary == has_secondary,
            final(self).close == old(self).close,
            final(self).primary == old(self).primary,
            final(self).secondary == old(self).secondary,
    {
        self.has_secondary = has_secondary;
        self.close_hot = false;
        self.result = DIALOG_PENDING;
    }

    /// Lays out the buttons for a paint of a client area `client`, the labels
    /// measuring `primary_text_w` and `secondary_text_w`, records where they
    /// are, and returns how to paint them and the close button.
    pub fn painted(&mut self, client: Rect, primary_text_w: i32, secondary_text_w: i32) -> (p:
        DialogPaint)
        requires
            dialog_paint_fits(*old(self), client, primary_text_w, secondary_text_w),
        ensures
            ({
                let (pr, sr) = dialog_buttons_spec(
                    client,
                    button_width_spec(primary_text_w),
                    secondary_width_spec(*old(self), secondary_text_w),
                );
                &&& final(self).primary == pr
                &&& final(self).secondary == sr
                &&& p.primary == button_paint_spec(
                    pr.left,
                    pr.top,
                    button_width_spec(primary_text_w),
                    true,
                )
                &&& p.secondary == (if old(self).has_secondary {
                    Some(
                        button_paint_spec(
                            sr.left,
                            sr.top,
                            button_width_spec(secondary_text_w),
                            false,
                        ),
                    )
                } else {
                    None::<ButtonPaint>
                })
            }),
            final(self).close == close_btn_rect_spec(client.right),
            p.close == close_paint_spec(client.right, old(self).close_hot),
            final(self).has_secondary == old(self).has_secondary,
            final(self).close_hot == old(self).close_hot,
            final(self).result == old(self).result,
    {
        let pw = button_width(primary_text_w);
        let sw = if self.has_secondary {
            Some(button_width(secondary_text_w))
        } else {
            None
        };
        let (pr, sr) = dialog_buttons(client, pw, sw);
        let primary = button_paint(pr.left, pr.top, pw, true);
        let secondary = match sw {
            Some(w) => Some(button_paint(sr.left, sr.top, w, false)),
            None => None,
        };
        self.primary = pr;
        self.secondary = sr;
        let close = close_paint(client.right, self.close_hot);
        self.close = close.rect;
        DialogPaint { primary, secondary, close }
    }

    /// A click released at (`x`, `y`). Returns whether the dialog window is
    /// destroyed; it is exactly when the click made a decision, which is then
    /// recorded.
    pub fn click(&mut self, x: i32, y: i32) -> (destroy: bool)
        ensures
            destroy == click_result_spec(*old(self), x, y).is_some(),
            final(self).result == (match click_result_spec(*old(self), x, y) {
                Some(r) => r,
                None => old(self).result,
            }),
            destroy ==> final(self).result != DIALOG_PENDING,
            final(self).close == old(self).close,
            final(self).primary == old(self).primary,
            final(self).secondary == old(self).secondary,
            final(self).has_secondary == old(self).has_secondary,
            final(self).close_hot == old(self).close_hot,
    {
        if in_rect(self.close, x, y) {
            self.result = DIALOG_DISMISSED;
            true
        } else if in_rect(self.primary, x, y) {
            self.result = DIALOG_PRIMARY;
            true
        } else if self.has_secondary && in_rect(self.secondary, x, y) {
            self.result = DIALOG_DISMISSED;
            true
        } else {
            false
        }
    }

    /// A key press. Returns whether the dialog window is destroyed: Enter
    /// accepts and Escape dismisses; other keys do nothing.
    pub fn key(&mut self, vk: u16) -> (destroy: bool)
        ensures
            destroy == key_result_spec(vk).is_some(),
            final(self).result == (match key_result_spec(vk) {
                Some(r) => r,
                None => old(self).result,
            }),
            destroy ==> final(self).result != DIALOG_PENDING,
            *final(self) == (DialogWindow { result: final(self).result, ..*old(self) }),
    {
        if vk == VK_RETURN {
            self.result = DIALOG_PRIMARY;
            true
        } else if vk == VK_ESCAPE {
            self.result = DIALOG_DISMISSED;
            true
        } else {
            false
        }
    }

    /// The window is asked to close: an undecided dialog counts as
    /// dismissed, a decided one keeps its decision. The window is always
    /// destroyed.
    pub fn close_requested(&mut self)
        ensures
            final(self).result == (if old(self).result == DIALOG_PENDING {
                DIALOG_DISMISSED
            } else {
                old(self).result
            }),
            final(self).result != DIALOG_PENDING,
            *final(self) == (DialogWindow { result: final(self).result, ..*old(self) }),
    {
        if self.result == DIALOG_PENDING {
            self.result = DIALOG_DISMISSED;
        }
    }

    /// Tracks the pointer over the close button. Returns the rectangle to
    /// repaint when the hover state changed.
    pub fn pointer_moved(&mut self, x: i32, y: i32) -> (repaint: Option<Rect>)
        ensures
            final(self).close_hot == in_rect_spec(old(self).close, x, y),
            *final(self) == (DialogWindow { close_hot: final(self).close_hot, ..*old(self) }),
            repaint == (if in_rect_spec(old(self).close, x, y) != old(self).close_hot {
                Some(old(self).close)
            } else {
                None::<Rect>
            }),
    {
        let hot = in_rect(self.close, x, y);
        if hot != self.close_hot {
            self.close_hot = hot;
            Some(self.close)
        } else {
            None
        }
    }

    /// The hand cursor is shown over the primary button, the close button,
    /// and the secondary button when there is one.
    pub fn shows_hand(&self, x: i32, y: i32) -> (hand: bool)
        ensures
            hand == (in_rect_spec(self.primary, x, y) || in_rect_spec(self.close, x, y) || (
            self.has_secondary && in_rect_spec(self.secondary, x, y))),
    {
        in_rect(self.primary, x, y) || in_rect(self.close, x, y) || (self.has_secondary
            && in_rect(self.secondary, x, y))
    }

    /// Whether the modal loop should stop: a decision has been made.
    pub fn is_decided(&self) -> (d: bool)
        ensures
            d == (self.result != DIALOG_PENDING),
    {
        self.result != DIALOG_PENDING
    }

    /// Whether the primary button was chosen.
    pub fn accepted(&self) -> (a: bool)
        ensures
            a == (self.result == DIALOG_PRIMARY),
    {
        self.result == DIALOG_PRIMARY
    }
}

/// A dialog is accepted only by its primary button or Enter: neither closing
/// the window nor a click that hits the close button can accept it, and a
/// dialog without a secondary button ignores its stale secondary rectangle.
pub proof fn lemma_dialog_acceptance(w: DialogWindow, x: i32, y: i32, vk: u16)
    ensures
        click_result_spec(w, x, y) == Some(DIALOG_PRIMARY) ==> in_rect_spec(w.primary, x, y)
            && !in_rect_spec(w.close, x, y),
        key_result_spec(vk) == Some(DIALOG_PRIMARY) ==> vk == VK_RETURN,
        !w.has_secondary && !in_rect_spec(w.close, x, y) && !in_rect_spec(w.primary, x, y)
            ==> click_result_spec(w, x, y).is_none(),
{
}

/// Which click decides what, for every dialog, with or without a secondary
/// button: the close button always dismisses; otherwise the primary button
/// always accepts (an OK-only dialog included); otherwise a present secondary
/// button dismisses; any other click leaves the dialog undecided.
pub proof fn lemma_dialog_clicks(w: DialogWindow, x: i32, y: i32)
    ensures
        in_rect_spec(w.close, x, y) ==> click_result_spec(w, x, y) == Some(DIALOG_DISMISSED),
        in_rect_spec(w.primary, x, y) && !in_rect_spec(w.close, x, y) ==> click_result_spec(w, x, y)
            == Some(DIALOG_PRIMARY),
        w.has_secondary && in_rect_spec(w.secondary, x, y) && !in_rect_spec(w.primary, x, y)
            && !in_rect_spec(w.close, x, y) ==> click_result_spec(w, x, y) == Some(DIALOG_DISMISSED),
        !in_rect_spec(w.close, x, y) && !in_rect_spec(w.primary, x, y) && !(w.has_secondary
            && in_rect_spec(w.secondary, x, y)) ==> click_result_spec(w, x, y).is_none(),
{
}

/// A decision, once made, is one of the two outcomes: a click or a key either
/// makes no decision or accepts or dismisses, so the dialog's result is always
/// pending, accepted or dismissed.
pub proof fn lemma_dialog_result_is_an_outcome(w: DialogWindow, x: i32, y: i32, vk: u16)
    ensures
        click_result_spec(w, x, y) matches Some(r) ==> r == DIALOG_PRIMARY || r == DIALOG_DISMISSED,
        key_result_spec(vk) matches Some(r) ==> r == DIALOG_PRIMARY || r == DIALOG_DISMISSED,
{
}

/// One event of bringing the hidden window to the foreground before its menu
/// is shown, in the order they are asked for.
#[derive(Clone, Copy, PartialEq, Eq, Structural, Debug)]
pub enum RaiseEvent {
    /// Whether the plain request to become the foreground window succeeded.
    Raised(bool),
    /// Whether there is a foreground window.
    Foreground(bool),
    /// The id of the thread owning the foreground window (0 when unknown).
    Thread(u32),
}

/// What raising the window needs next, or its conclusion.
#[derive(Clone, Copy, PartialEq, Eq, Structural, Debug)]
pub enum RaiseAction {
    /// Nothing more to do.
    Done,
    /// Find the foreground window.
    QueryForeground,
    /// Find its thread.
    QueryThread,
    /// Attach to that thread's input queue, request the foreground again,
    /// then detach.
    BorrowInput(u32),
}

/// One step of raising the window from the thread `our_tid`: when the plain
/// request is refused, borrow the input queue of the thread owning the
/// foreground, unless there is none or it is our own.
pub open spec fn raise_step_spec(our_tid: u32, event: RaiseEvent) -> RaiseAction {
    match event {
        RaiseEvent::Raised(ok) => if ok {
            RaiseAction::Done
        } else {
            RaiseAction::QueryForeground
        },
        RaiseEvent::Foreground(present) => if present {
            RaiseAction::QueryThread
        } else {
            RaiseAction::Done
        },
        RaiseEvent::Thread(tid) => if tid == 0 || tid == our_tid {
            RaiseAction::Done
        } else {
            RaiseAction::BorrowInput(tid)
        },
    }
}

/// Takes one step of raising the window.
pub fn raise_step(our_tid: u32, event: RaiseEvent) -> (action: RaiseAction)
    ensures
        action == raise_step_spec(our_tid, event),
{
    match event {
        RaiseEvent::Raised(ok) => if ok {
            RaiseAction::Done
        } else {
            RaiseAction::QueryForeground
        },
        RaiseEvent::Foreground(present) => if present {
            RaiseAction::QueryThread
        } else {
            RaiseAction::Done
        },
        RaiseEvent::Thread(tid) => if tid == 0 || tid == our_tid {
            RaiseAction::Done
        } else {
            RaiseAction::BorrowInput(tid)
        },
    }
}

/// The input queue borrowed is never our own nor an unknown thread's.
pub proof fn lemma_raise_never_borrows_own_queue(our_tid: u32, event: RaiseEvent)
    ensures
        raise_step_spec(our_tid, event) matches RaiseAction::BorrowInput(t) ==> t != our_tid && t
            != 0,
{
}

} // verus!
