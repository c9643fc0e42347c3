//! Cursor images: cropping, hotspots, and fitting into a message.
//!
//! An image is a run of four-byte pixels, row by row, with the alpha in the last byte
//! of each.

use vstd::prelude::*;
use vstd::arithmetic::div_mod::{lemma_div_is_ordered, lemma_fundamental_div_mod_converse};
use vstd::arithmetic::mul::lemma_mul_inequality;

verus! {

/// The most bytes that a cursor image may have in a message.
pub const MAX_CURSOR_SHAPE_RGBA_BYTES: usize = 65519;

/// The most pixels that such an image has.
pub const MAX_CURSOR_SHAPE_PIXELS: u64 = 16379;

/// A cursor image as it is sent.
#[derive(Debug, PartialEq, Eq)]
pub struct CursorShape {
    pub serial: u64,
    pub width: u16,
    pub height: u16,
    pub hotspot_x: u16,
    pub hotspot_y: u16,
    pub rgba: Vec<u8>,
}

/// A cursor image as a value of mathematics.
pub ghost struct ShapeView {
    pub serial: u64,
    pub width: u16,
    pub height: u16,
    pub hotspot_x: u16,
    pub hotspot_y: u16,
    pub rgba: Seq<u8>,
}

impl View for CursorShape {
    type V = ShapeView;

    open spec fn view(&self) -> ShapeView {
        ShapeView {
            serial: self.serial,
            width: self.width,
            height: self.height,
            hotspot_x: self.hotspot_x,
            hotspot_y: self.hotspot_y,
            rgba: self.rgba@,
        }
    }
}

impl CursorShape {
    /// A copy of the image.
    pub fn duplicate(&self) -> (out: Self)
        ensures
            out@ == self@,
    {
        CursorShape {
            serial: self.serial,
            width: self.width,
            height: self.height,
            hotspot_x: self.hotspot_x,
            hotspot_y: self.hotspot_y,
            rgba: copied(self.rgba.as_slice()),
        }
    }

    /// Whether two images are the same, in every field.
    pub fn same(&self, other: &CursorShape) -> (yes: bool)
        ensures
            yes == (self@ == other@),
    {
        self.serial == other.serial && self.width == other.width && self.height == other.height
            && self.hotspot_x == other.hotspot_x && self.hotspot_y == other.hotspot_y
            && same_bytes(self.rgba.as_slice(), other.rgba.as_slice())
    }
}

/// A copy of `bytes`.
pub fn copied(bytes: &[u8]) -> (out: Vec<u8>)
    ensures
        out@ == bytes@,
{
    let mut out: Vec<u8> = Vec::new();
    let mut i: usize = 0;
    while i < bytes.len()
        invariant
            i <= bytes@.len(),
            out@ == bytes@.subrange(0, i as int),
        decreases bytes@.len() - i,
    {
        out.push(bytes[i]);
        i = i + 1;
        proof {
            assert(bytes@.subrange(0, i as int) == bytes@.subrange(0, i - 1).push(bytes@[i - 1]));
        }
    }
    proof {
        assert(bytes@.subrange(0, i as int) == bytes@);
    }
    out
}

fn same_bytes(a: &[u8], b: &[u8]) -> (yes: bool)
    ensures
        yes == (a@ == b@),
{
    if a.len() != b.len() {
        return false;
    }
    let mut i: usize = 0;
    while i < a.len()
        invariant
            a@.len() == b@.len(),
            i <= a@.len(),
            forall|k: int| 0 <= k < i ==> a@[k] == b@[k],
        decreases a@.len() - i,
    {
        if a[i] != b[i] {
            return false;
        }
        i = i + 1;
    }
    proof {
        assert(a@ =~= b@);
    }
    true
}

proof fn lemma_row_col(y: int, x: int, width: int)
    requires
        0 <= y,
        0 <= x < width,
    ensures
        (y * width + x) / width == y,
        (y * width + x) % width == x,
{
    lemma_fundamental_div_mod_converse(y * width + x, width, y, x);
}

proof fn lemma_pixel_inside(y: int, x: int, width: int, height: int)
    requires
        0 <= y < height,
        0 <= x < width,
    ensures
        0 <= y * width + x < width * height,
        y * width + x + (width - x) <= width * height,
        0 <= y * width,
{
    assert(0 <= y * width && (y + 1) * width <= width * height && (y + 1) * width == y * width
        + width) by (nonlinear_arith)
        requires
            0 <= y < height,
            0 < width,
    ;
}

/// `n`, but at least one.
pub open spec fn at_least_one(n: int) -> int {
    if n < 1 {
        1
    } else {
        n
    }
}

/// The byte of the source that byte `i` of a resized image shows.
pub open spec fn sampled_byte(i: int, sw: int, sh: int, dw: int, dh: int) -> int {
    let x = i / 4 % dw;
    let y = i / 4 / dw;
    ((y * sh / dh) * sw + x * sw / dw) * 4 + i % 4
}

/// The length of the shortest source that a resize can read.
pub open spec fn sampled_end(sw: int, sh: int, dw: int, dh: int) -> int {
    (((dh - 1) * sh / dh) * sw + (dw - 1) * sw / dw) * 4 + 4
}

/// An image resized by taking the nearest source pixel to the upper left.
pub open spec fn resized(src: Seq<u8>, sw: int, sh: int, dw: int, dh: int) -> Seq<u8> {
    Seq::new((dw * dh * 4) as nat, |i: int| src[sampled_byte(i, sw, sh, dw, dh)])
}

proof fn lemma_scaled_position(k: int, s: int, d: int)
    requires
        0 <= k < d,
        0 < s,
    ensures
        0 <= k * s / d <= (d - 1) * s / d,
        k * s / d < s,
        0 <= k * s,
        k * s <= d * s,
{
    assert(0 <= k * s && k * s <= (d - 1) * s && (d - 1) * s < d * s && d * s == s * d)
        by (nonlinear_arith)
        requires
            0 <= k < d,
            0 < s,
    ;
    lemma_div_is_ordered(0, k * s, d);
    lemma_div_is_ordered(k * s, (d - 1) * s, d);
    assert(k * s / d < s) by (nonlinear_arith)
        requires
            0 <= k * s,
            k * s < s * d,
            0 < d,
    ;
}

proof fn lemma_sample_inside(y: int, x: int, sw: int, sh: int, dw: int, dh: int)
    requires
        0 < sw,
        0 < sh,
        0 <= y < dh,
        0 <= x < dw,
    ensures
        0 <= y * sh / dh,
        0 <= x * sw / dw,
        0 <= (y * sh / dh) * sw,
        ((y * sh / dh) * sw + x * sw / dw) * 4 + 4 <= sampled_end(sw, sh, dw, dh),
{
    lemma_scaled_position(y, sh, dh);
    lemma_scaled_position(x, sw, dw);
    lemma_mul_inequality(0, y * sh / dh, sw);
    lemma_mul_inequality(y * sh / dh, (dh - 1) * sh / dh, sw);
}

/// An image that has all its pixels can be resized to any size.
pub proof fn whole_image_can_be_resized(sw: int, sh: int, dw: int, dh: int)
    requires
        0 < sw,
        0 < sh,
        0 < dw,
        0 < dh,
    ensures
        sampled_end(sw, sh, dw, dh) <= sw * sh * 4,
{
    lemma_scaled_position(dh - 1, sh, dh);
    lemma_scaled_position(dw - 1, sw, dw);
    let y = (dh - 1) * sh / dh;
    let x = (dw - 1) * sw / dw;
    lemma_pixel_inside(y, x, sw, sh);
}

/// Resizes an image by taking the nearest source pixel. A side of no pixels counts as one.
pub fn resize_rgba_premultiplied_nearest(
    src: &[u8],
    src_width: u16,
    src_height: u16,
    dst_width: u16,
    dst_height: u16,
) -> (out: Vec<u8>)
    requires
        sampled_end(
            at_least_one(src_width as int),
            at_least_one(src_height as int),
            at_least_one(dst_width as int),
            at_least_one(dst_height as int),
        ) <= src@.len(),
        at_least_one(dst_width as int) * at_least_one(dst_height as int) * 4 <= usize::MAX,
    ensures
        out@ == resized(
            src@,
            at_least_one(src_width as int),
            at_least_one(src_height as int),
            at_least_one(dst_width as int),
            at_least_one(dst_height as int),
        ),
{
    let sw: u64 = if src_width == 0 {
        1
    } else {
        src_width as u64
    };
    let sh: u64 = if src_height == 0 {
        1
    } else {
        src_height as u64
    };
    let dw: u64 = if dst_width == 0 {
        1
    } else {
        dst_width as u64
    };
    let dh: u64 = if dst_height == 0 {
        1
    } else {
        dst_height as u64
    };
    let ghost full = resized(src@, sw as int, sh as int, dw as int, dh as int);
    let mut out: Vec<u8> = Vec::new();
    let mut y: u64 = 0;
    proof {
        assert(dw * dh * 4 >= 0) by (nonlinear_arith);
    }
    while y < dh
        invariant
            0 < sw <= 65535,
            0 < sh <= 65535,
            0 < dw <= 65535,
            0 < dh <= 65535,
            y <= dh,
            full == resized(src@, sw as int, sh as int, dw as int, dh as int),
            full.len() == dw * dh * 4,
            sampled_end(sw as int, sh as int, dw as int, dh as int) <= src@.len(),
            out@.len() == y * dw * 4,
            forall|k: int| 0 <= k < out@.len() ==> out@[k] == full[k],
        decreases dh - y,
    {
        let mut x: u64 = 0;
        while x < dw
            invariant
                0 < sw <= 65535,
                0 < sh <= 65535,
                0 < dw <= 65535,
                0 < dh <= 65535,
                y < dh,
                x <= dw,
                full == resized(src@, sw as int, sh as int, dw as int, dh as int),
                full.len() == dw * dh * 4,
                sampled_end(sw as int, sh as int, dw as int, dh as int) <= src@.len(),
                out@.len() == (y * dw + x) * 4,
                forall|k: int| 0 <= k < out@.len() ==> out@[k] == full[k],
            decreases dw - x,
        {
            proof {
                lemma_scaled_position(y as int, sh as int, dh as int);
                lemma_scaled_position(x as int, sw as int, dw as int);
                lemma_sample_inside(y as int, x as int, sw as int, sh as int, dw as int, dh as int);
                lemma_pixel_inside(y as int, x as int, dw as int, dh as int);
                lemma_row_col(y as int, x as int, dw as int);
                assert(y * sh <= 65535 * 65535 && x * sw <= 65535 * 65535) by (nonlinear_arith)
                    requires
                        y < 65535,
                        x < 65535,
                        sh <= 65535,
                        sw <= 65535,
                ;
                assert((y * sh / dh as int) * sw <= 65535 * 65535) by (nonlinear_arith)
                    requires
                        0 <= y * sh / dh as int <= 65535,
                        sw <= 65535,
                ;
            }
            let sy: u64 = y * sh / dh;
            let sx: u64 = x * sw / dw;
            let at: u64 = (sy * sw + sx) * 4;
            let ghost first = (y * dw + x) * 4;
            let at: usize = at as usize;
            out.push(src[at]);
            out.push(src[at + 1]);
            out.push(src[at + 2]);
            out.push(src[at + 3]);
            proof {
                assert forall|c: int| 0 <= c < 4 implies #[trigger] full[first + c] == src@[at + c] by {
                    assert((first + c) / 4 == y * dw + x);
                    assert((first + c) % 4 == c);
                }
                assert(full[first + 0] == src@[at + 0]);
                assert(full[first + 1] == src@[at + 1]);
                assert(full[first + 2] == src@[at + 2]);
                assert(full[first + 3] == src@[at + 3]);
            }
            x = x + 1;
        }
        proof {
            assert(y * dw + dw == (y + 1) * dw) by (nonlinear_arith);
        }
        y = y + 1;
    }
    proof {
        assert(out@.len() == full.len()) by {
            assert(dh * dw == dw * dh) by (nonlinear_arith);
        }
        assert(out@ =~= full);
    }
    out
}

/// That `d` is the whole part of `a * sqrt(m / (a * b))`, where `m` is the most pixels
/// that a message carries: what is left of a side `a` of an image whose other side is
/// `b` when both shrink by the same factor to `m` pixels.
pub open spec fn is_scaled_side(d: int, a: int, b: int) -> bool {
    &&& 0 <= d
    &&& d * d * b <= a * MAX_CURSOR_SHAPE_PIXELS
    &&& a * MAX_CURSOR_SHAPE_PIXELS < (d + 1) * (d + 1) * b
}

/// The scaled side, and at least one pixel.
pub open spec fn scaled_side(a: int, b: int) -> int {
    at_least_one(choose|d: int| is_scaled_side(d, a, b))
}

proof fn lemma_scaled_side_is_one(d: int, e: int, a: int, b: int)
    requires
        0 < b,
        is_scaled_side(d, a, b),
        is_scaled_side(e, a, b),
    ensures
        d == e,
{
    if d < e {
        assert((d + 1) * (d + 1) * b <= e * e * b) by (nonlinear_arith)
            requires
                0 <= d < e,
                0 < b,
        ;
    } else if e < d {
        assert((e + 1) * (e + 1) * b <= d * d * b) by (nonlinear_arith)
            requires
                0 <= e < d,
                0 < b,
        ;
    }
}

fn scale_side(a: u16, b: u16) -> (out: u16)
    requires
        0 < b,
    ensures
        out == scaled_side(a as int, b as int),
        1 <= out,
{
    let limit: u64 = a as u64 * MAX_CURSOR_SHAPE_PIXELS;
    let mut d: u64 = 0;
    proof {
        assert(0 * 0 * (b as int) == 0 && 1 * 1 * (b as int) == b) by (nonlinear_arith);
    }
    while (d + 1) * (d + 1) * (b as u64) <= limit
        invariant
            0 < b,
            limit == a as int * MAX_CURSOR_SHAPE_PIXELS,
            limit <= 65535 * 16379,
            d <= 32762,
            d * d * (b as int) <= limit,
            (d + 1) * (d + 1) <= 32763 * 32763,
            (d + 1) * (d + 1) * (b as int) <= 32763 * 32763 * 65535,
        decreases 32763 - d,
    {
        proof {
            assert((d + 1) * (d + 1) <= 65535 * 16379) by (nonlinear_arith)
                requires
                    (d + 1) * (d + 1) * (b as int) <= 65535 * 16379,
                    0 < b,
            ;
            assert(d + 1 <= 32762) by (nonlinear_arith)
                requires
                    (d + 1) * (d + 1) <= 65535 * 16379,
            ;
            assert((d + 2) * (d + 2) <= 32763 * 32763) by (nonlinear_arith)
                requires
                    d + 2 <= 32763,
            ;
            assert((d + 2) * (d + 2) * (b as int) <= 32763 * 32763 * 65535) by (nonlinear_arith)
                requires
                    d + 2 <= 32763,
                    b <= 65535,
            ;
        }
        d = d + 1;
    }
    proof {
        assert(is_scaled_side(d as int, a as int, b as int));
        let e = choose|e: int| is_scaled_side(e, a as int, b as int);
        lemma_scaled_side_is_one(d as int, e, a as int, b as int);
    }
    if d == 0 {
        1
    } else {
        d as u16
    }
}

/// The size that is left when the longer side loses pixels until the image fits.
pub open spec fn shrunk(w: nat, h: nat) -> (nat, nat)
    decreases w + h,
{
    if w * h * 4 <= MAX_CURSOR_SHAPE_RGBA_BYTES {
        (w, h)
    } else if w >= h && w > 1 {
        shrunk((w - 1) as nat, h)
    } else if h > 1 {
        shrunk(w, (h - 1) as nat)
    } else {
        (w, h)
    }
}

/// The size to which an image of `sw` by `sh` pixels is brought.
pub open spec fn fitted_size(sw: int, sh: int) -> (nat, nat) {
    shrunk(scaled_side(sw, sh) as nat, scaled_side(sh, sw) as nat)
}

/// A hotspot coordinate on a side that goes from `s` pixels to `d`.
pub open spec fn fitted_hotspot(at: int, s: int, d: int) -> int {
    let moved = (at * d + s / 2) / s;
    if moved < d - 1 {
        moved
    } else {
        d - 1
    }
}

/// The image that is sent for `shape`.
pub open spec fn fitted(shape: ShapeView) -> ShapeView {
    let sw = at_least_one(shape.width as int);
    let sh = at_least_one(shape.height as int);
    let (dw, dh) = fitted_size(sw, sh);
    if shape.rgba.len() <= MAX_CURSOR_SHAPE_RGBA_BYTES {
        shape
    } else {
        ShapeView {
            serial: shape.serial,
            width: dw as u16,
            height: dh as u16,
            hotspot_x: fitted_hotspot(shape.hotspot_x as int, sw, dw as int) as u16,
            hotspot_y: fitted_hotspot(shape.hotspot_y as int, sh, dh as int) as u16,
            rgba: resized(shape.rgba, sw, sh, dw as int, dh as int),
        }
    }
}

/// That an image holds the pixels that are read when it is brought to a size that fits.
pub open spec fn can_be_fitted(shape: ShapeView) -> bool {
    let sw = at_least_one(shape.width as int);
    let sh = at_least_one(shape.height as int);
    let (dw, dh) = fitted_size(sw, sh);
    shape.rgba.len() > MAX_CURSOR_SHAPE_RGBA_BYTES ==> sampled_end(sw, sh, dw as int, dh as int)
        <= shape.rgba.len()
}

proof fn lemma_shrunk(w: nat, h: nat)
    requires
        1 <= w,
        1 <= h,
    ensures
        1 <= shrunk(w, h).0 <= w,
        1 <= shrunk(w, h).1 <= h,
        shrunk(w, h).0 * shrunk(w, h).1 * 4 <= MAX_CURSOR_SHAPE_RGBA_BYTES,
    decreases w + h,
{
    if w * h * 4 <= MAX_CURSOR_SHAPE_RGBA_BYTES {
    } else if w >= h && w > 1 {
        lemma_shrunk((w - 1) as nat, h);
    } else if h > 1 {
        lemma_shrunk(w, (h - 1) as nat);
    } else {
        assert(w * h * 4 == 4) by (nonlinear_arith)
            requires
                w == 1,
                h == 1,
        ;
    }
}

/// The image that is sent always fits into a message.
pub proof fn fitted_shape_fits(shape: ShapeView)
    ensures
        fitted(shape).rgba.len() <= MAX_CURSOR_SHAPE_RGBA_BYTES,
        shape.rgba.len() > MAX_CURSOR_SHAPE_RGBA_BYTES ==> fitted(shape).rgba.len() == fitted(
            shape,
        ).width * fitted(shape).height * 4,
{
    let sw = at_least_one(shape.width as int);
    let sh = at_least_one(shape.height as int);
    lemma_scaled_bound(sw, sh);
    lemma_scaled_bound(sh, sw);
    lemma_shrunk(scaled_side(sw, sh) as nat, scaled_side(sh, sw) as nat);
}

/// The sides of the size that an image is brought to have pixels, and neither is longer than its
/// share of the pixels that a message carries.
pub proof fn fitted_sides(shape: ShapeView)
    ensures
        ({
            let sw = at_least_one(shape.width as int);
            let sh = at_least_one(shape.height as int);
            let (dw, dh) = fitted_size(sw, sh);
            &&& 1 <= dw <= 32762
            &&& 1 <= dh <= 32762
            &&& dw > 1 ==> dw * dw * sh <= sw * 16379
            &&& dh > 1 ==> dh * dh * sw <= sh * 16379
        }),
{
    let sw = at_least_one(shape.width as int);
    let sh = at_least_one(shape.height as int);
    let (dw, dh) = fitted_size(sw, sh);
    lemma_scaled_bound(sw, sh);
    lemma_scaled_bound(sh, sw);
    lemma_shrunk(scaled_side(sw, sh) as nat, scaled_side(sh, sw) as nat);
    lemma_share(sw, sh, dw as int);
    lemma_share(sh, sw, dh as int);
}

proof fn lemma_share(a: int, b: int, d: int)
    requires
        0 < a,
        0 < b,
        1 < d <= scaled_side(a, b) || d == 1,
    ensures
        d > 1 ==> d * d * b <= a * 16379,
{
    assert(0 * 0 * b <= a * MAX_CURSOR_SHAPE_PIXELS) by (nonlinear_arith)
        requires
            0 < a,
            0 < b,
    ;
    lemma_scaled_exists(a, b, 0);
    let e = choose|e: int| is_scaled_side(e, a, b);
    assert(is_scaled_side(e, a, b));
    if d > 1 {
        assert(d * d * b <= e * e * b) by (nonlinear_arith)
            requires
                1 < d <= e,
                0 < b,
        ;
    }
}

/// An image with all its pixels can be fitted.
pub proof fn whole_image_can_be_fitted(shape: ShapeView)
    requires
        at_least_one(shape.width as int) * at_least_one(shape.height as int) * 4
            <= shape.rgba.len(),
    ensures
        can_be_fitted(shape),
{
    let sw = at_least_one(shape.width as int);
    let sh = at_least_one(shape.height as int);
    let (dw, dh) = fitted_size(sw, sh);
    lemma_scaled_bound(sw, sh);
    lemma_scaled_bound(sh, sw);
    lemma_shrunk(scaled_side(sw, sh) as nat, scaled_side(sh, sw) as nat);
    whole_image_can_be_resized(sw, sh, dw as int, dh as int);
}

proof fn lemma_scaled_exists(a: int, b: int, d: int)
    requires
        0 < b,
        0 <= d,
        d * d * b <= a * MAX_CURSOR_SHAPE_PIXELS,
    ensures
        exists|e: int| is_scaled_side(e, a, b),
    decreases a * MAX_CURSOR_SHAPE_PIXELS - d,
{
    if a * MAX_CURSOR_SHAPE_PIXELS < (d + 1) * (d + 1) * b {
        assert(is_scaled_side(d, a, b));
    } else {
        assert(d + 1 <= (d + 1) * (d + 1) * b) by (nonlinear_arith)
            requires
                0 <= d,
                0 < b,
        ;
        lemma_scaled_exists(a, b, d + 1);
    }
}

proof fn lemma_scaled_bound(a: int, b: int)
    requires
        0 < a <= 65535,
        0 < b,
    ensures
        1 <= scaled_side(a, b) <= 32762,
{
    assert(0 * 0 * b == 0) by (nonlinear_arith);
    lemma_scaled_exists(a, b, 0);
    let d = choose|d: int| is_scaled_side(d, a, b);
    assert(d <= 32762) by (nonlinear_arith)
        requires
            0 <= d,
            d * d * b <= a * 16379,
            0 < a <= 65535,
            0 < b,
    ;
}

/// The size to which an image of `sw` by `sh` pixels is brought.
fn fit_size(sw: u16, sh: u16) -> (size: (u16, u16))
    requires
        0 < sw,
        0 < sh,
    ensures
        (size.0 as nat, size.1 as nat) == fitted_size(sw as int, sh as int),
        1 <= size.0,
        1 <= size.1,
        size.0 * size.1 * 4 <= MAX_CURSOR_SHAPE_RGBA_BYTES,
{
    let mut dw: u16 = scale_side(sw, sh);
    let mut dh: u16 = scale_side(sh, sw);
    proof {
        lemma_shrunk(dw as nat, dh as nat);
        assert(dw as int * dh as int * 4 <= 65535 * 65535 * 4) by (nonlinear_arith)
            requires
                dw <= 65535,
                dh <= 65535,
        ;
    }
    let ghost size = shrunk(dw as nat, dh as nat);
    while dw as u64 * dh as u64 * 4 > MAX_CURSOR_SHAPE_RGBA_BYTES as u64
        invariant_except_break
            1 <= dw,
            1 <= dh,
            size == shrunk(dw as nat, dh as nat),
            dw as int * dh as int * 4 <= 65535 * 65535 * 4,
        ensures
            1 <= dw,
            1 <= dh,
            size == (dw as nat, dh as nat),
        decreases dw + dh,
    {
        if dw >= dh && dw > 1 {
            dw = dw - 1;
        } else if dh > 1 {
            dh = dh - 1;
        } else {
            break;
        }
        proof {
            assert(dw as int * dh as int * 4 <= 65535 * 65535 * 4) by (nonlinear_arith)
                requires
                    dw <= 65535,
                    dh <= 65535,
            ;
        }
    }
    (dw, dh)
}

/// Whether an image of a size and of `len` bytes holds the pixels that are read when it is
/// brought to a size that fits.
pub fn fits_with(width: u16, height: u16, len: usize) -> (ok: bool)
    ensures
        ok == (len > MAX_CURSOR_SHAPE_RGBA_BYTES ==> ({
            let sw = at_least_one(width as int);
            let sh = at_least_one(height as int);
            let (dw, dh) = fitted_size(sw, sh);
            sampled_end(sw, sh, dw as int, dh as int) <= len
        })),
{
    if len <= MAX_CURSOR_SHAPE_RGBA_BYTES {
        return true;
    }
    let sw: u16 = if width == 0 {
        1
    } else {
        width
    };
    let sh: u16 = if height == 0 {
        1
    } else {
        height
    };
    let (dw, dh): (u16, u16) = fit_size(sw, sh);
    proof {
        lemma_scaled_position(dh - 1, sh as int, dh as int);
        lemma_scaled_position(dw - 1, sw as int, dw as int);
        assert((dh - 1) * (sh as int) <= 65535 * 65535 && 0 <= (dh - 1) * (sh as int))
            by (nonlinear_arith)
            requires
                1 <= dh <= 65535,
                0 < sh <= 65535,
        ;
        assert((dw - 1) * (sw as int) <= 65535 * 65535 && 0 <= (dw - 1) * (sw as int))
            by (nonlinear_arith)
            requires
                1 <= dw <= 65535,
                0 < sw <= 65535,
        ;
    }
    let y: u64 = (dh as u64 - 1) * sh as u64 / dh as u64;
    let x: u64 = (dw as u64 - 1) * sw as u64 / dw as u64;
    proof {
        assert(0 <= y * sw <= 65535 * 65535) by (nonlinear_arith)
            requires
                0 <= y <= 65535,
                0 < sw <= 65535,
        ;
    }
    (y * sw as u64 + x) * 4 + 4 <= len as u64
}

/// Brings an image to a size that a message carries; tells whether it had to shrink.
pub fn fit_cursor_shape_to_payload_budget(shape: CursorShape) -> (out: (CursorShape, bool))
    requires
        can_be_fitted(shape@),
    ensures
        out.0@ == fitted(shape@),
        out.1 == (shape.rgba@.len() > MAX_CURSOR_SHAPE_RGBA_BYTES),
{
    if shape.rgba.len() <= MAX_CURSOR_SHAPE_RGBA_BYTES {
        return (shape, false);
    }
    let sw: u16 = if shape.width == 0 {
        1
    } else {
        shape.width
    };
    let sh: u16 = if shape.height == 0 {
        1
    } else {
        shape.height
    };
    let (dw, dh): (u16, u16) = fit_size(sw, sh);
    let rgba = resize_rgba_premultiplied_nearest(shape.rgba.as_slice(), sw, sh, dw, dh);
    let hotspot_x: u16 = fit_hotspot(shape.hotspot_x, sw, dw);
    let hotspot_y: u16 = fit_hotspot(shape.hotspot_y, sh, dh);
    (
        CursorShape { serial: shape.serial, width: dw, height: dh, hotspot_x, hotspot_y, rgba },
        true,
    )
}

fn fit_hotspot(at: u16, s: u16, d: u16) -> (out: u16)
    requires
        0 < s,
        0 < d,
    ensures
        out == fitted_hotspot(at as int, s as int, d as int),
{
    proof {
        assert(0 <= at as int * d as int <= 65535 * 65535) by (nonlinear_arith)
            requires
                at <= 65535,
                d <= 65535,
        ;
        vstd::arithmetic::div_mod::lemma_div_pos_is_pos(at as int * d as int + s as int / 2, s as int);
    }
    let moved: u32 = (at as u32 * d as u32 + s as u32 / 2) / s as u32;
    if moved < d as u32 - 1 {
        moved as u16
    } else {
        d - 1
    }
}

/// The bytes of a four-byte pixel with the first and the third exchanged.
pub open spec fn exchanged(c: int) -> int {
    if c == 0 {
        2
    } else if c == 2 {
        0
    } else {
        c
    }
}

/// An image with blue and red exchanged; a piece of a pixel at the end is dropped.
pub open spec fn red_first(src: Seq<u8>) -> Seq<u8> {
    Seq::new((src.len() / 4 * 4) as nat, |i: int| src[i / 4 * 4 + exchanged(i % 4)])
}

/// Turns blue-first pixels into red-first ones.
pub fn bgra_to_rgba_premultiplied(src: &[u8]) -> (out: Vec<u8>)
    ensures
        out@ == red_first(src@),
{
    let mut out: Vec<u8> = Vec::new();
    let mut at: usize = 0;
    while src.len() - at >= 4
        invariant
            at <= src@.len(),
            at % 4 == 0,
            out@.len() == at,
            forall|k: int| 0 <= k < at ==> out@[k] == red_first(src@)[k],
        decreases src@.len() - at,
    {
        out.push(src[at + 2]);
        out.push(src[at + 1]);
        out.push(src[at]);
        out.push(src[at + 3]);
        at = at + 4;
    }
    proof {
        assert(out@ =~= red_first(src@));
    }
    out
}

/// That pixel `(x, y)` of an image of width `w` is not fully transparent.
pub open spec fn opaque_at(pixels: Seq<u8>, w: int, x: int, y: int) -> bool {
    pixels[(y * w + x) * 4 + 3] != 0
}

/// A rectangle of pixels, its borders included.
pub ghost struct PixelBox {
    pub left: int,
    pub top: int,
    pub right: int,
    pub bottom: int,
}

impl PixelBox {
    pub open spec fn width(self) -> int {
        self.right - self.left + 1
    }

    pub open spec fn height(self) -> int {
        self.bottom - self.top + 1
    }
}

/// That a column has an opaque pixel.
pub open spec fn opaque_column(pixels: Seq<u8>, w: int, h: int, x: int) -> bool {
    exists|y: int| 0 <= y < h && #[trigger] opaque_at(pixels, w, x, y)
}

/// That a row has an opaque pixel.
pub open spec fn opaque_row(pixels: Seq<u8>, w: int, h: int, y: int) -> bool {
    exists|x: int| 0 <= x < w && #[trigger] opaque_at(pixels, w, x, y)
}

/// That `b` is the smallest rectangle around the opaque pixels: it lies in the image, all
/// of them lie in it, and one lies on each of its borders.
pub open spec fn is_opaque_box(pixels: Seq<u8>, w: int, h: int, b: PixelBox) -> bool {
    &&& 0 <= b.left <= b.right < w
    &&& 0 <= b.top <= b.bottom < h
    &&& forall|x: int, y: int|
        #![trigger opaque_at(pixels, w, x, y)]
        0 <= x < w && 0 <= y < h && opaque_at(pixels, w, x, y) ==> b.left <= x <= b.right && b.top
            <= y <= b.bottom
    &&& opaque_column(pixels, w, h, b.left)
    &&& opaque_column(pixels, w, h, b.right)
    &&& opaque_row(pixels, w, h, b.top)
    &&& opaque_row(pixels, w, h, b.bottom)
}

/// That an image has an opaque pixel.
pub open spec fn has_opaque(pixels: Seq<u8>, w: int, h: int) -> bool {
    exists|x: int, y: int| 0 <= x < w && 0 <= y < h && #[trigger] opaque_at(pixels, w, x, y)
}

/// The rectangle that an image is cropped to, where cropping takes something away.
pub open spec fn crop_box(pixels: Seq<u8>, w: int, h: int) -> Option<PixelBox> {
    let b = choose|b: PixelBox| is_opaque_box(pixels, w, h, b);
    if w == 0 || h == 0 || pixels.len() < w * h * 4 || !has_opaque(pixels, w, h) || (b.width() == w
        && b.height() == h) {
        None
    } else {
        Some(b)
    }
}

/// The pixels of a rectangle.
pub open spec fn cut_out(pixels: Seq<u8>, w: int, b: PixelBox) -> Seq<u8> {
    Seq::new(
        (b.width() * b.height() * 4) as nat,
        |i: int|
            pixels[((b.top + i / 4 / b.width()) * w + b.left + i / 4 % b.width()) * 4 + i % 4],
    )
}

proof fn lemma_opaque_box_is_one(pixels: Seq<u8>, w: int, h: int, a: PixelBox, b: PixelBox)
    requires
        is_opaque_box(pixels, w, h, a),
        is_opaque_box(pixels, w, h, b),
    ensures
        a == b,
{
}

proof fn lemma_least(f: spec_fn(int) -> bool, k: int) -> (m: int)
    requires
        0 <= k,
        f(k),
    ensures
        0 <= m <= k,
        f(m),
        forall|j: int| 0 <= j < m ==> !#[trigger] f(j),
    decreases k,
{
    if exists|j: int| 0 <= j < k && #[trigger] f(j) {
        let j = choose|j: int| 0 <= j < k && #[trigger] f(j);
        lemma_least(f, j)
    } else {
        k
    }
}

proof fn lemma_greatest(f: spec_fn(int) -> bool, k: int, n: int) -> (m: int)
    requires
        k < n,
        f(k),
    ensures
        k <= m < n,
        f(m),
        forall|j: int| m < j < n ==> !#[trigger] f(j),
    decreases n - k,
{
    if exists|j: int| k < j < n && #[trigger] f(j) {
        let j = choose|j: int| k < j < n && #[trigger] f(j);
        lemma_greatest(f, j, n)
    } else {
        k
    }
}

pub proof fn lemma_opaque_box_exists(pixels: Seq<u8>, w: int, h: int)
    requires
        has_opaque(pixels, w, h),
    ensures
        exists|b: PixelBox| is_opaque_box(pixels, w, h, b),
{
    let (x, y) = choose|x: int, y: int|
        0 <= x < w && 0 <= y < h && #[trigger] opaque_at(pixels, w, x, y);
    let column = |a: int| opaque_column(pixels, w, h, a);
    let row = |b: int| opaque_row(pixels, w, h, b);
    assert(column(x));
    assert(row(y));
    let left = lemma_least(column, x);
    let right = lemma_greatest(column, x, w);
    let top = lemma_least(row, y);
    let bottom = lemma_greatest(row, y, h);
    let tight = PixelBox { left, top, right, bottom };
    assert forall|a: int, b: int|
        #![trigger opaque_at(pixels, w, a, b)]
        0 <= a < w && 0 <= b < h && opaque_at(pixels, w, a, b) implies left <= a <= right && top
        <= b <= bottom by {
        assert(column(a));
        assert(row(b));
    }
    assert(is_opaque_box(pixels, w, h, tight));
}

/// What an image is cropped to lies within it and is not empty.
pub proof fn crop_box_is_inside(pixels: Seq<u8>, w: int, h: int)
    requires
        0 <= w,
        0 <= h,
    ensures
        crop_box(pixels, w, h) matches Some(b) ==> is_opaque_box(pixels, w, h, b),
{
    if crop_box(pixels, w, h) is Some {
        lemma_opaque_box_exists(pixels, w, h);
    }
}

/// A cropped image: its pixels, its size, and where its corner lay in the source.
pub struct CroppedCursor {
    pub pixels: Vec<u8>,
    pub width: u32,
    pub height: u32,
    pub left: u32,
    pub top: u32,
}

/// Crops an image to its opaque pixels; `None` where that takes nothing away, where no
/// pixel is opaque, and where the image is empty or cut short.
pub fn crop_cursor_to_opaque(pixels: &[u8], width: u32, height: u32) -> (out: Option<CroppedCursor>)
    ensures
        match out {
            Some(c) => {
                &&& crop_box(pixels@, width as int, height as int) matches Some(b)
                &&& c.pixels@ == cut_out(pixels@, width as int, b)
                &&& c.width == b.width()
                &&& c.height == b.height()
                &&& c.left == b.left
                &&& c.top == b.top
            },
            None => crop_box(pixels@, width as int, height as int) is None,
        },
{
    proof {
        assert(0 <= width * height <= 0xffff_ffff * 0xffff_ffff) by (nonlinear_arith)
            requires
                width <= 0xffff_ffff,
                height <= 0xffff_ffff,
        ;
    }
    if width == 0 || height == 0 || (pixels.len() as u128) < width as u128 * height as u128 * 4 {
        return None;
    }
    let w: usize = width as usize;
    let h: usize = height as usize;
    let mut min_x: usize = w;
    let mut min_y: usize = h;
    let mut max_x: usize = 0;
    let mut max_y: usize = 0;
    let mut any: bool = false;
    let ghost mut left_y: int = 0;
    let ghost mut right_y: int = 0;
    let ghost mut top_x: int = 0;
    let ghost mut bottom_x: int = 0;
    let ghost p = pixels@;
    let len: usize = pixels.len();
    let mut y: usize = 0;
    while y < h
        invariant
            p == pixels@,
            len == p.len(),
            w == width,
            h == height,
            0 < w,
            0 < h,
            y <= h,
            w * h * 4 <= p.len(),
            !any ==> min_x == w && min_y == h && max_x == 0 && max_y == 0,
            any ==> min_x <= max_x < w && min_y <= max_y < h,
            any ==> max_y < y,
            any ==> 0 <= left_y < h && opaque_at(p, w as int, min_x as int, left_y),
            any ==> 0 <= right_y < h && opaque_at(p, w as int, max_x as int, right_y),
            any ==> 0 <= top_x < w && opaque_at(p, w as int, top_x, min_y as int),
            any ==> 0 <= bottom_x < w && opaque_at(p, w as int, bottom_x, max_y as int),
            forall|a: int, b: int|
                #![trigger opaque_at(p, w as int, a, b)]
                0 <= a < w && 0 <= b < y && opaque_at(p, w as int, a, b) ==> any && min_x <= a
                    <= max_x && min_y <= b <= max_y,
        decreases h - y,
    {
        let mut x: usize = 0;
        while x < w
            invariant
                p == pixels@,
                len == p.len(),
                w == width,
                h == height,
                0 < w,
                0 < h,
                y < h,
                x <= w,
                w * h * 4 <= p.len(),
                !any ==> min_x == w && min_y == h && max_x == 0 && max_y == 0,
                any ==> min_x <= max_x < w && min_y <= max_y < h,
                any ==> max_y <= y,
                any ==> 0 <= left_y < h && opaque_at(p, w as int, min_x as int, left_y),
                any ==> 0 <= right_y < h && opaque_at(p, w as int, max_x as int, right_y),
                any ==> 0 <= top_x < w && opaque_at(p, w as int, top_x, min_y as int),
                any ==> 0 <= bottom_x < w && opaque_at(p, w as int, bottom_x, max_y as int),
                forall|a: int, b: int|
                    #![trigger opaque_at(p, w as int, a, b)]
                    0 <= a < w && 0 <= b < y && opaque_at(p, w as int, a, b) ==> any && min_x <= a
                        <= max_x && min_y <= b <= max_y,
                forall|a: int|
                    #![trigger opaque_at(p, w as int, a, y as int)]
                    0 <= a < x && opaque_at(p, w as int, a, y as int) ==> any && min_x <= a <= max_x
                        && min_y <= y <= max_y,
            decreases w - x,
        {
            proof {
                lemma_pixel_inside(y as int, x as int, w as int, h as int);
            }
            if pixels[(y * w + x) * 4 + 3] != 0 {
                proof {
                    assert(opaque_at(p, w as int, x as int, y as int));
                    if x < min_x {
                        left_y = y as int;
                    }
                    if !any || x >= max_x {
                        right_y = y as int;
                    }
                    if y < min_y {
                        top_x = x as int;
                    }
                    bottom_x = x as int;
                }
                any = true;
                if x < min_x {
                    min_x = x;
                }
                if y < min_y {
                    min_y = y;
                }
                if x > max_x {
                    max_x = x;
                }
                if y > max_y {
                    max_y = y;
                }
            }
            x = x + 1;
        }
        y = y + 1;
    }
    if !any {
        return None;
    }
    let ghost tight = PixelBox {
        left: min_x as int,
        top: min_y as int,
        right: max_x as int,
        bottom: max_y as int,
    };
    proof {
        assert(opaque_at(p, w as int, tight.left, left_y));
        assert(opaque_at(p, w as int, tight.right, right_y));
        assert(opaque_at(p, w as int, top_x, tight.top));
        assert(opaque_at(p, w as int, bottom_x, tight.bottom));
        assert(is_opaque_box(p, w as int, h as int, tight));
        let b = choose|b: PixelBox| is_opaque_box(p, w as int, h as int, b);
        lemma_opaque_box_is_one(p, w as int, h as int, tight, b);
        assert(has_opaque(p, w as int, h as int));
    }
    let cw: usize = max_x - min_x + 1;
    let ch: usize = max_y - min_y + 1;
    if cw == w && ch == h {
        return None;
    }
    let out = cut(pixels, w, h, min_x, min_y, cw, ch, Ghost(tight));
    Some(
        CroppedCursor {
            pixels: out,
            width: cw as u32,
            height: ch as u32,
            left: min_x as u32,
            top: min_y as u32,
        },
    )
}

fn cut(
    pixels: &[u8],
    w: usize,
    h: usize,
    left: usize,
    top: usize,
    cw: usize,
    ch: usize,
    Ghost(b): Ghost<PixelBox>,
) -> (out: Vec<u8>)
    requires
        w * h * 4 <= pixels@.len(),
        b.left == left,
        b.top == top,
        b.width() == cw,
        b.height() == ch,
        0 < cw,
        0 < ch,
        left + cw <= w,
        top + ch <= h,
    ensures
        out@ == cut_out(pixels@, w as int, b),
{
    let ghost full = cut_out(pixels@, w as int, b);
    let len: usize = pixels.len();
    let mut out: Vec<u8> = Vec::new();
    let mut y: usize = 0;
    proof {
        assert(0 <= cw * ch) by (nonlinear_arith);
    }
    while y < ch
        invariant
            full == cut_out(pixels@, w as int, b),
            len == pixels@.len(),
            full.len() == cw * ch * 4,
            w * h * 4 <= pixels@.len(),
            b.left == left,
            b.top == top,
            b.width() == cw,
            b.height() == ch,
            0 < cw,
            0 < ch,
            left + cw <= w,
            top + ch <= h,
            y <= ch,
            out@.len() == y * cw * 4,
            forall|k: int| 0 <= k < out@.len() ==> out@[k] == full[k],
        decreases ch - y,
    {
        let mut x: usize = 0;
        while x < cw
            invariant
                full == cut_out(pixels@, w as int, b),
                len == pixels@.len(),
                full.len() == cw * ch * 4,
                w * h * 4 <= pixels@.len(),
                b.left == left,
                b.top == top,
                b.width() == cw,
                b.height() == ch,
                0 < cw,
                0 < ch,
                left + cw <= w,
                top + ch <= h,
                y < ch,
                x <= cw,
                out@.len() == (y * cw + x) * 4,
                forall|k: int| 0 <= k < out@.len() ==> out@[k] == full[k],
            decreases cw - x,
        {
            proof {
                lemma_pixel_inside(top + y, left + x, w as int, h as int);
                lemma_pixel_inside(y as int, x as int, cw as int, ch as int);
                lemma_row_col(y as int, x as int, cw as int);
            }
            let at: usize = ((top + y) * w + left + x) * 4;
            let ghost first = (y * cw + x) * 4;
            out.push(pixels[at]);
            out.push(pixels[at + 1]);
            out.push(pixels[at + 2]);
            out.push(pixels[at + 3]);
            proof {
                assert forall|c: int| 0 <= c < 4 implies #[trigger] full[first + c] == pixels@[at
                    + c] by {
                    assert((first + c) / 4 == y * cw + x);
                    assert((first + c) % 4 == c);
                }
                assert(full[first + 0] == pixels@[at + 0]);
                assert(full[first + 1] == pixels@[at + 1]);
                assert(full[first + 2] == pixels@[at + 2]);
                assert(full[first + 3] == pixels@[at + 3]);
            }
            x = x + 1;
        }
        proof {
            assert(y * cw + cw == (y + 1) * cw) by (nonlinear_arith);
        }
        y = y + 1;
    }
    proof {
        assert(ch * cw == cw * ch) by (nonlinear_arith);
        assert(out@ =~= full);
    }
    out
}

/// That the opaque mask of an image agrees with its mirror image at pair `n`, counting
/// the pixels of the left half row by row.
pub open spec fn pair_mirrors(pixels: Seq<u8>, w: int, n: int) -> bool {
    let y = n / (w / 2);
    let x = n % (w / 2);
    opaque_at(pixels, w, x, y) == opaque_at(pixels, w, w - 1 - x, y)
}

/// How many of the first `n` pairs mirror.
pub open spec fn mirrored_pairs(pixels: Seq<u8>, w: int, n: int) -> int
    decreases n,
{
    if n <= 0 {
        0
    } else if pair_mirrors(pixels, w, n - 1) {
        mirrored_pairs(pixels, w, n - 1) + 1
    } else {
        mirrored_pairs(pixels, w, n - 1)
    }
}

/// The hotspot that is taken for an image that came without one: the centre where at
/// least eighty-five in a hundred pairs mirror, the upper left corner elsewhere.
pub open spec fn guessed_hotspot(pixels: Seq<u8>, w: int, h: int) -> (int, int) {
    let pairs = h * (w / 2);
    if w < 2 || h == 0 || pixels.len() < w * h * 4 {
        (0, 0)
    } else if mirrored_pairs(pixels, w, pairs) * 100 >= pairs * 85 {
        (w / 2, h / 2)
    } else {
        (0, 0)
    }
}

/// Guesses the hotspot of a cropped image.
pub fn estimate_cursor_hotspot(pixels: &[u8], w: u32, h: u32) -> (out: (u32, u32))
    ensures
        (out.0 as int, out.1 as int) == guessed_hotspot(pixels@, w as int, h as int),
{
    proof {
        assert(0 <= w * h <= 0xffff_ffff * 0xffff_ffff) by (nonlinear_arith)
            requires
                w <= 0xffff_ffff,
                h <= 0xffff_ffff,
        ;
    }
    if w < 2 || h == 0 || (pixels.len() as u128) < w as u128 * h as u128 * 4 {
        return (0, 0);
    }
    let wu: usize = w as usize;
    let hu: usize = h as usize;
    let half: usize = wu / 2;
    let mut matched: usize = 0;
    let mut total: usize = 0;
    let ghost p = pixels@;
    let len: usize = pixels.len();
    let mut y: usize = 0;
    while y < hu
        invariant
            p == pixels@,
            len == p.len(),
            2 <= wu,
            half == wu / 2,
            y <= hu,
            wu * hu * 4 <= p.len(),
            total == y * half,
            total <= wu * hu,
            0 <= matched <= total,
            matched == mirrored_pairs(p, wu as int, total as int),
        decreases hu - y,
    {
        let mut x: usize = 0;
        while x < half
            invariant
                p == pixels@,
                len == p.len(),
                2 <= wu,
                half == wu / 2,
                y < hu,
                x <= half,
                wu * hu * 4 <= p.len(),
                total == y * half + x,
                total <= wu * hu,
                0 <= matched <= total,
                matched == mirrored_pairs(p, wu as int, total as int),
            decreases half - x,
        {
            proof {
                lemma_pixel_inside(y as int, x as int, wu as int, hu as int);
                lemma_pixel_inside(y as int, wu - 1 - x, wu as int, hu as int);
                lemma_row_col(y as int, x as int, half as int);
                lemma_pixel_inside(y as int, x as int, half as int, hu as int);
                assert(half * hu <= wu * hu) by (nonlinear_arith)
                    requires
                        half <= wu,
                ;
            }
            let left: bool = pixels[(y * wu + x) * 4 + 3] != 0;
            let right: bool = pixels[(y * wu + (wu - 1 - x)) * 4 + 3] != 0;
            proof {
                assert(left == opaque_at(p, wu as int, x as int, y as int));
                assert(right == opaque_at(p, wu as int, wu - 1 - x, y as int));
                assert(pair_mirrors(p, wu as int, total as int) == (left == right));
            }
            total = total + 1;
            if left == right {
                matched = matched + 1;
            }
            x = x + 1;
        }
        proof {
            assert(y * half + half == (y + 1) * half) by (nonlinear_arith);
        }
        y = y + 1;
    }
    if (matched as u128) * 100 >= (total as u128) * 85 {
        (w / 2, h / 2)
    } else {
        (0, 0)
    }
}

} // verus!
