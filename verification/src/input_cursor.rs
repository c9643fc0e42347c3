//! What clients see of the cursor.

use vstd::prelude::*;
use crate::cursor::{
    bgra_to_rgba_premultiplied, can_be_fitted, copied, crop_box, crop_cursor_to_opaque, cut_out,
    estimate_cursor_hotspot, fit_cursor_shape_to_payload_budget, fits_with, fitted,
    guessed_hotspot, red_first, CroppedCursor, CursorShape, ShapeView, MAX_CURSOR_SHAPE_RGBA_BYTES,
};
use crate::input::{
    message_views, CapturedCursor, CursorMessage, CursorMessageView, CursorState,
    CursorVersionCursor, InnerView, InputRuntime, InputRuntimeInner, RuntimeView,
};
use crate::pointer::{clamp_stream_coord, clamped_coord, normalized_to_stream_coord, stream_coord};
use crate::warp::WarpDetector;

verus! {

/// That a captured cursor shows an image.
pub open spec fn shows(c: CapturedCursor) -> bool {
    c.visible && c.width != 0 && c.height != 0 && c.pixels@.len() > 0
}

/// The image of a cursor without its transparent borders.
pub ghost struct Trimmed {
    pub pixels: Seq<u8>,
    pub width: int,
    pub height: int,
    pub left: int,
    pub top: int,
}

pub open spec fn trimmed_image(c: CapturedCursor) -> Trimmed {
    match crop_box(c.pixels@, c.width as int, c.height as int) {
        Some(b) => Trimmed {
            pixels: cut_out(c.pixels@, c.width as int, b),
            width: b.width(),
            height: b.height(),
            left: b.left,
            top: b.top,
        },
        None => Trimmed {
            pixels: c.pixels@,
            width: c.width as int,
            height: c.height as int,
            left: 0,
            top: 0,
        },
    }
}

/// What is left of `n` when `m` is taken away, and zero where `m` is more.
pub open spec fn less(n: int, m: int) -> int {
    if n < m {
        0
    } else {
        n - m
    }
}

/// The hotspot of a cursor within its trimmed image. One that the capture reported moves
/// with the borders; one that it did not report is guessed.
pub open spec fn image_hotspot(c: CapturedCursor) -> (int, int) {
    let t = trimmed_image(c);
    if c.hotspot_x == 0 && c.hotspot_y == 0 {
        guessed_hotspot(t.pixels, t.width, t.height)
    } else {
        (less(c.hotspot_x as int, t.left), less(c.hotspot_y as int, t.top))
    }
}

/// `n`, as far as sixteen bits hold it.
pub open spec fn within_u16(n: int) -> u16 {
    if n > 65535 {
        65535
    } else {
        n as u16
    }
}

/// The image of a cursor at its own size.
pub open spec fn native_shape(c: CapturedCursor) -> ShapeView {
    let t = trimmed_image(c);
    ShapeView {
        serial: c.shape_serial,
        width: within_u16(t.width),
        height: within_u16(t.height),
        hotspot_x: within_u16(image_hotspot(c).0),
        hotspot_y: within_u16(image_hotspot(c).1),
        rgba: red_first(t.pixels),
    }
}

/// That the pixels of a cursor suffice to bring its image to a size that can be sent.
pub open spec fn is_readable(c: CapturedCursor) -> bool {
    shows(c) ==> can_be_fitted(native_shape(c))
}

/// A cursor with all the pixels of its size is readable.
pub proof fn whole_cursor_is_readable(c: CapturedCursor)
    requires
        c.width * c.height * 4 <= c.pixels@.len(),
    ensures
        is_readable(c),
{
    if shows(c) {
        let t = trimmed_image(c);
        let w = c.width as int;
        let h = c.height as int;
        assert(t.width >= 1 && t.height >= 1 && t.width * t.height * 4 <= red_first(t.pixels).len())
            by {
            match crop_box(c.pixels@, w, h) {
                Some(b) => {
                    crate::cursor::crop_box_is_inside(c.pixels@, w, h);
                    assert(b.width() * b.height() >= 0) by (nonlinear_arith)
                        requires
                            b.width() >= 0,
                            b.height() >= 0,
                    ;
                },
                None => {},
            }
        }
        let sw = crate::cursor::at_least_one(within_u16(t.width) as int);
        let sh = crate::cursor::at_least_one(within_u16(t.height) as int);
        assert(sw * sh <= t.width * t.height) by (nonlinear_arith)
            requires
                0 < sw <= t.width,
                0 < sh <= t.height,
        ;
        crate::cursor::whole_image_can_be_fitted(native_shape(c));
    }
}

fn to_u16(n: u32) -> (out: u16)
    ensures
        out == within_u16(n as int),
{
    if n > 65535 {
        65535
    } else {
        n as u16
    }
}

/// Where the trimmed image of a cursor lies on the screen.
pub open spec fn image_position(c: CapturedCursor) -> (i32, i32) {
    let t = trimmed_image(c);
    (c.x.wrapping_add(t.left as i32), c.y.wrapping_add(t.top as i32))
}

impl InnerView {
    /// With the detector as new.
    pub open spec fn unwarped(self) -> InnerView {
        InnerView { warp: WarpDetector::fresh(self.warp.enabled), ..self }
    }

    /// With a cursor that has no image to show.
    pub open spec fn bare_cursor(self, c: CapturedCursor) -> InnerView {
        let serial = if c.shape_serial != 0 {
            c.shape_serial
        } else {
            match self.cursor_shape {
                Some(s) => s.serial,
                None => 0,
            }
        };
        self.unwarped().published(
            CursorState { serial, x: c.x, y: c.y, visible: c.visible, app_grab: false },
        )
    }

    /// With a cursor that shows.
    pub open spec fn shown_cursor(self, c: CapturedCursor) -> InnerView {
        let shaped = self.with_shape(fitted(native_shape(c)));
        let (x, y) = image_position(c);
        let watched = InnerView { warp: shaped.warp.after_cursor((x as i64, y as i64)), ..shaped };
        watched.published(
            CursorState {
                serial: c.shape_serial,
                x,
                y,
                visible: c.visible,
                app_grab: watched.warp.app_grab,
            },
        )
    }

    /// With what a frame says about the cursor. Without a separate cursor nothing is kept.
    /// A frame without one changes nothing on the desktop, where it may only be idle; in a
    /// game it means that the game took the pointer.
    pub open spec fn cursor_seen(self, game_mode: bool, cursor: Option<CapturedCursor>) -> InnerView {
        if !self.capabilities.separate_cursor {
            if self.cursor_shape is Some || self.cursor_state.visible {
                self.without_cursor()
            } else {
                self
            }
        } else {
            match cursor {
                None => if game_mode {
                    self.unwarped().published(
                        CursorState { visible: false, app_grab: false, ..self.cursor_state },
                    )
                } else {
                    self
                },
                Some(c) => if shows(c) {
                    self.shown_cursor(c)
                } else {
                    self.bare_cursor(c)
                },
            }
        }
    }
}

/// The cursor of a frame as a value.
pub open spec fn cursor_value(cursor: Option<&CapturedCursor>) -> Option<CapturedCursor> {
    match cursor {
        Some(c) => Some(*c),
        None => None,
    }
}

fn trim_cursor(c: &CapturedCursor) -> (out: CroppedCursor)
    ensures
        ({
            let t = trimmed_image(*c);
            &&& out.pixels@ == t.pixels
            &&& out.width == t.width
            &&& out.height == t.height
            &&& out.left == t.left
            &&& out.top == t.top
        }),
{
    match crop_cursor_to_opaque(c.pixels.as_slice(), c.width, c.height) {
        Some(cropped) => cropped,
        None => CroppedCursor {
            pixels: copied(c.pixels.as_slice()),
            width: c.width,
            height: c.height,
            left: 0,
            top: 0,
        },
    }
}

/// Whether the pixels of a cursor suffice to bring its image to a size that can be sent.
pub fn cursor_is_readable(c: &CapturedCursor) -> (ok: bool)
    ensures
        ok == is_readable(*c),
{
    if !c.visible || c.width == 0 || c.height == 0 || c.pixels.len() == 0 {
        return true;
    }
    let trimmed = trim_cursor(c);
    fits_with(to_u16(trimmed.width), to_u16(trimmed.height), trimmed.pixels.len() / 4 * 4)
}

impl InputRuntime {
    /// Takes in what a frame says about the cursor.
    pub fn update_cursor(&mut self, cursor: Option<&CapturedCursor>)
        requires
            old(self).wf(),
            cursor matches Some(c) ==> is_readable(*c),
        ensures
            final(self).wf(),
            final(self)@ == (RuntimeView {
                inner: old(self)@.inner.cursor_seen(old(self)@.game_mode, cursor_value(cursor)),
                ..old(self)@
            }),
    {
        if !self.inner.capabilities.separate_cursor {
            if self.inner.cursor_shape.is_some() || self.inner.cursor_state.visible {
                self.inner.forget_cursor();
            }
            return;
        }
        match cursor {
            None => {
                if self.game_mode {
                    self.inner.warp.reset();
                    let state = self.inner.cursor_state;
                    self.inner.publish(
                        CursorState {
                            serial: state.serial,
                            x: state.x,
                            y: state.y,
                            visible: false,
                            app_grab: false,
                        },
                    );
                }
            },
            Some(c) => {
                if !c.visible || c.width == 0 || c.height == 0 || c.pixels.len() == 0 {
                    self.inner.show_bare_cursor(c);
                } else {
                    self.inner.show_cursor(c);
                }
            },
        }
    }

    /// The cursor messages that a client has not had yet. There are none while nobody is
    /// in control.
    pub fn cursor_messages(&self, versions: &mut CursorVersionCursor) -> (out: Vec<CursorMessage>)
        ensures
            message_views(out@) == self@.inner.messages_since(*old(versions)),
            *final(versions) == self@.inner.versions_after(*old(versions)),
    {
        let mut out: Vec<CursorMessage> = Vec::new();
        let ghost start = *versions;
        proof {
            assert(message_views(out@) =~= Seq::<CursorMessageView>::empty());
        }
        if self.inner.controller_id.is_none() {
            return out;
        }
        if self.inner.cursor_shape_version > versions.shape {
            versions.shape = self.inner.cursor_shape_version;
            if let Some(shape) = &self.inner.cursor_shape {
                if shape.rgba.len() <= MAX_CURSOR_SHAPE_RGBA_BYTES {
                    out.push(CursorMessage::Shape(shape.duplicate()));
                }
            }
        }
        let ghost first = out@;
        proof {
            assert(message_views(first) =~= self@.inner.shape_messages(start));
        }
        if self.inner.cursor_state_version > versions.state {
            versions.state = self.inner.cursor_state_version;
            if !(self.inner.cursor_state.serial == 0 && !self.inner.cursor_state.visible
                && self.inner.cursor_shape.is_none()) {
                out.push(CursorMessage::State(self.inner.cursor_state));
            }
        }
        proof {
            assert(message_views(out@) =~= message_views(first) + self@.inner.state_messages(start));
        }
        out
    }
}

impl InnerView {
    /// The image, where a client has not had it and it fits into a message.
    pub open spec fn shape_messages(self, versions: CursorVersionCursor) -> Seq<CursorMessageView> {
        match self.cursor_shape {
            Some(s) if self.cursor_shape_version > versions.shape && s.rgba.len()
                <= MAX_CURSOR_SHAPE_RGBA_BYTES => seq![CursorMessageView::Shape(s)],
            _ => Seq::empty(),
        }
    }

    /// The state, where a client has not had it and there is anything to tell.
    pub open spec fn state_messages(self, versions: CursorVersionCursor) -> Seq<CursorMessageView> {
        if self.cursor_state_version > versions.state && !(self.cursor_state.serial == 0
            && !self.cursor_state.visible && self.cursor_shape is None) {
            seq![CursorMessageView::State(self.cursor_state)]
        } else {
            Seq::empty()
        }
    }

    pub open spec fn messages_since(self, versions: CursorVersionCursor) -> Seq<CursorMessageView> {
        if self.controller_id is None {
            Seq::empty()
        } else {
            self.shape_messages(versions) + self.state_messages(versions)
        }
    }

    pub open spec fn versions_after(self, versions: CursorVersionCursor) -> CursorVersionCursor {
        if self.controller_id is None {
            versions
        } else {
            CursorVersionCursor {
                shape: if self.cursor_shape_version > versions.shape {
                    self.cursor_shape_version
                } else {
                    versions.shape
                },
                state: if self.cursor_state_version > versions.state {
                    self.cursor_state_version
                } else {
                    versions.state
                },
            }
        }
    }
}

impl InputRuntimeInner {
    fn show_bare_cursor(&mut self, c: &CapturedCursor)
        requires
            old(self).wf(),
        ensures
            final(self).wf(),
            final(self)@ == old(self)@.bare_cursor(*c),
    {
        let serial: u64 = if c.shape_serial != 0 {
            c.shape_serial
        } else {
            match &self.cursor_shape {
                Some(shape) => shape.serial,
                None => 0,
            }
        };
        self.warp.reset();
        self.publish(
            CursorState { serial, x: c.x, y: c.y, visible: c.visible, app_grab: false },
        );
    }

    fn show_cursor(&mut self, c: &CapturedCursor)
        requires
            old(self).wf(),
            shows(*c),
            is_readable(*c),
        ensures
            final(self).wf(),
            final(self)@ == old(self)@.shown_cursor(*c),
    {
        let ghost start = self@;
        let trimmed = trim_cursor(c);
        let (hotspot_x, hotspot_y): (u32, u32) = if c.hotspot_x == 0 && c.hotspot_y == 0 {
            estimate_cursor_hotspot(trimmed.pixels.as_slice(), trimmed.width, trimmed.height)
        } else {
            (
                c.hotspot_x.saturating_sub(trimmed.left),
                c.hotspot_y.saturating_sub(trimmed.top),
            )
        };
        let native = CursorShape {
            serial: c.shape_serial,
            width: to_u16(trimmed.width),
            height: to_u16(trimmed.height),
            hotspot_x: to_u16(hotspot_x),
            hotspot_y: to_u16(hotspot_y),
            rgba: bgra_to_rgba_premultiplied(trimmed.pixels.as_slice()),
        };
        proof {
            assert(native@ == native_shape(*c));
        }
        let (next, _) = fit_cursor_shape_to_payload_budget(native);
        self.show_shape(next);
        let left: i32 = #[verifier::truncate]
        (trimmed.left as i32);
        let top: i32 = #[verifier::truncate]
        (trimmed.top as i32);
        let x: i32 = c.x.wrapping_add(left);
        let y: i32 = c.y.wrapping_add(top);
        let app_grab: bool = self.warp.observe_cursor(x, y);
        self.publish(
            CursorState { serial: c.shape_serial, x, y, visible: c.visible, app_grab },
        );
    }

    fn show_shape(&mut self, next: CursorShape)
        requires
            old(self).wf(),
        ensures
            final(self).wf(),
            final(self)@ == old(self)@.with_shape(next@),
    {
        let changed: bool = match &self.cursor_shape {
            Some(shape) => !shape.same(&next),
            None => true,
        };
        if changed {
            self.cursor_shape = Some(next);
            self.cursor_shape_version = self.cursor_shape_version.wrapping_add(1);
        }
    }
}

impl RuntimeView {
    /// With the game-mode hint set. Coming out of a game, the pointer that the game may
    /// have hidden shows again.
    pub open spec fn with_game_mode(self, on: bool) -> RuntimeView {
        let hinted = RuntimeView { game_mode: on, ..self };
        if self.game_mode == on || on {
            hinted
        } else {
            RuntimeView {
                inner: self.inner.unwarped().published(
                    CursorState { visible: true, app_grab: false, ..self.inner.cursor_state },
                ),
                ..hinted
            }
        }
    }
}

impl InputRuntime {
    /// Takes the session's word on whether a game is in front. It does not grab the
    /// pointer by itself: it says how a missing cursor is read.
    pub fn set_game_mode(&mut self, on: bool)
        requires
            old(self).wf(),
        ensures
            final(self).wf(),
            final(self)@ == old(self)@.with_game_mode(on),
    {
        if self.game_mode == on {
            return;
        }
        self.game_mode = on;
        if on {
            return;
        }
        self.inner.warp.reset();
        if !self.inner.cursor_state.visible || self.inner.cursor_state.app_grab {
            self.inner.cursor_state.visible = true;
            self.inner.cursor_state.app_grab = false;
            self.inner.cursor_state_version = self.inner.cursor_state_version.wrapping_add(1);
        }
    }
}

/// What game mode means for a cursor that the capture reports: nothing. A game that shows
/// its cursor, in a menu, is never taken to hold the pointer on that account.
pub proof fn game_mode_leaves_a_reported_cursor_alone(v: InnerView, c: CapturedCursor)
    ensures
        v.cursor_seen(true, Some(c)) == v.cursor_seen(false, Some(c)),
{
}

/// A cursor that is missing while a game is in front is published as hidden.
pub proof fn missing_cursor_in_a_game_is_hidden(v: InnerView)
    requires
        v.capabilities.separate_cursor,
    ensures
        !v.cursor_seen(true, None).cursor_state.visible,
        !v.cursor_seen(true, None).cursor_state.app_grab,
{
}

/// A cursor that is missing on the desktop is taken to be idle: nothing changes.
pub proof fn missing_cursor_on_the_desktop_stays(v: InnerView)
    requires
        v.capabilities.separate_cursor,
    ensures
        v.cursor_seen(false, None) == v,
{
}

/// Leaving a game brings the pointer back.
pub proof fn leaving_a_game_shows_the_pointer(v: RuntimeView)
    requires
        v.game_mode,
    ensures
        v.with_game_mode(false).inner.cursor_state.visible,
        !v.with_game_mode(false).inner.cursor_state.app_grab,
        !v.with_game_mode(false).game_mode,
{
}

/// A client has every cursor message once: right after it had its messages, there are
/// none.
pub proof fn cursor_messages_come_once(v: InnerView, versions: CursorVersionCursor)
    ensures
        v.messages_since(v.versions_after(versions)) == Seq::<CursorMessageView>::empty(),
{
}

/// An image that is sent fits into a message.
pub proof fn sent_shapes_fit(v: InnerView, versions: CursorVersionCursor, i: int)
    requires
        0 <= i < v.messages_since(versions).len(),
    ensures
        v.messages_since(versions)[i] matches CursorMessageView::Shape(s) ==> s.rgba.len()
            <= MAX_CURSOR_SHAPE_RGBA_BYTES,
{
}

/// The image of a cursor that shows can always be sent.
pub proof fn shown_cursor_can_be_sent(v: InnerView, c: CapturedCursor)
    requires
        v.capabilities.separate_cursor,
        shows(c),
    ensures
        v.cursor_seen(true, Some(c)).cursor_shape matches Some(s) && s.rgba.len()
            <= MAX_CURSOR_SHAPE_RGBA_BYTES,
{
    crate::cursor::fitted_shape_fits(native_shape(c));
}

impl InnerView {
    /// That a cursor position can be told from the commands.
    pub open spec fn predicts(self) -> bool {
        self.capabilities.separate_cursor && self.cursor_state.visible && self.stream_width > 0
            && self.stream_height > 0
    }

    /// The hotspot of the image.
    pub open spec fn hotspot(self) -> (int, int) {
        match self.cursor_shape {
            Some(s) => (s.hotspot_x as int, s.hotspot_y as int),
            None => (0, 0),
        }
    }

    /// With the cursor where a command puts its hotspot.
    pub open spec fn predicted(self, x: int, y: int) -> InnerView {
        if self.predicts() {
            self.published(
                CursorState {
                    serial: self.cursor_state.serial,
                    x: (x - self.hotspot().0) as i32,
                    y: (y - self.hotspot().1) as i32,
                    visible: true,
                    app_grab: self.cursor_state.app_grab,
                },
            )
        } else {
            self
        }
    }
}

impl InputRuntimeInner {
    /// Puts the cursor where an absolute command will, ahead of the capture.
    pub fn predict_cursor_absolute(&mut self, x: u16, y: u16)
        requires
            old(self).wf(),
            old(self).stream_width <= 0x8000_0000,
            old(self).stream_height <= 0x8000_0000,
        ensures
            final(self).wf(),
            final(self)@ == old(self)@.predicted(
                stream_coord(x, old(self).stream_width),
                stream_coord(y, old(self).stream_height),
            ),
    {
        if !self.cursor_prediction_active() {
            return;
        }
        proof {
            crate::pointer::stream_coord_is_inside(x, self.stream_width);
            crate::pointer::stream_coord_is_inside(y, self.stream_height);
        }
        let (hotspot_x, hotspot_y) = self.cursor_hotspot();
        let target_x: i32 = normalized_to_stream_coord(x, self.stream_width);
        let target_y: i32 = normalized_to_stream_coord(y, self.stream_height);
        let state = self.cursor_state;
        self.publish(
            CursorState {
                serial: state.serial,
                x: target_x - hotspot_x,
                y: target_y - hotspot_y,
                visible: true,
                app_grab: state.app_grab,
            },
        );
    }

    /// Puts the cursor where a relative command will, ahead of the capture.
    pub fn predict_cursor_relative(&mut self, dx: i16, dy: i16)
        requires
            old(self).wf(),
            old(self).stream_width <= 0x8000_0000,
            old(self).stream_height <= 0x8000_0000,
        ensures
            final(self).wf(),
            final(self)@ == old(self)@.predicted(
                clamped_coord(
                    old(self).cursor_state.x + old(self)@.hotspot().0 + dx,
                    old(self).stream_width,
                ),
                clamped_coord(
                    old(self).cursor_state.y + old(self)@.hotspot().1 + dy,
                    old(self).stream_height,
                ),
            ),
    {
        if !self.cursor_prediction_active() {
            return;
        }
        let (hotspot_x, hotspot_y) = self.cursor_hotspot();
        let state = self.cursor_state;
        let target_x: i32 = clamp_stream_coord(
            state.x as i64 + hotspot_x as i64 + dx as i64,
            self.stream_width,
        );
        let target_y: i32 = clamp_stream_coord(
            state.y as i64 + hotspot_y as i64 + dy as i64,
            self.stream_height,
        );
        self.publish(
            CursorState {
                serial: state.serial,
                x: target_x - hotspot_x,
                y: target_y - hotspot_y,
                visible: true,
                app_grab: state.app_grab,
            },
        );
    }

    fn cursor_prediction_active(&self) -> (yes: bool)
        ensures
            yes == self@.predicts(),
    {
        self.capabilities.separate_cursor && self.cursor_state.visible && self.stream_width > 0
            && self.stream_height > 0
    }

    fn cursor_hotspot(&self) -> (out: (i32, i32))
        ensures
            (out.0 as int, out.1 as int) == self@.hotspot(),
            0 <= out.0 <= 65535,
            0 <= out.1 <= 65535,
    {
        match &self.cursor_shape {
            Some(shape) => (shape.hotspot_x as i32, shape.hotspot_y as i32),
            None => (0, 0),
        }
    }
}

} // verus!
