//! Fitting a rendered block of text into the screen area without distortion.
//!
//! The block is never enlarged. When it is too wide or too tall it is shrunk
//! along the axis that overshoots the most, and the other side follows in
//! proportion, rounded down to a whole pixel.

use vstd::prelude::*;

verus! {

/// Horizontal position of the fitted block inside its container.
pub const ANCHOR_X: i32 = 30;

/// Vertical position of the fitted block inside its container.
pub const ANCHOR_Y: i32 = 30;

/// True when the content overshoots the container along at least one axis.
pub open spec fn needs_scaling(rw: int, rh: int, cw: int, ch: int) -> bool {
    rw > cw || rh > ch
}

/// True when the width ratio `rw / cw` is strictly larger than the height
/// ratio `rh / ch`, compared without division.
pub open spec fn width_dominates(rw: int, rh: int, cw: int, ch: int) -> bool {
    rw * ch > rh * cw
}

/// The size at which a `rw` by `rh` block is shown in a `cw` by `ch` container.
pub open spec fn fitted(rw: int, rh: int, cw: int, ch: int) -> (int, int) {
    if !needs_scaling(rw, rh, cw, ch) {
        (rw, rh)
    } else if width_dominates(rw, rh, cw, ch) {
        (cw, (rh * cw) / rw)
    } else if rh == 0 {
        (0, ch)
    } else {
        ((rw * ch) / rh, ch)
    }
}

/// Computes the displayed size of a block of `rect_width` by `rect_height`
/// pixels inside a container of `cons_width` by `cons_height` pixels.
pub fn fit_size(rect_width: u32, rect_height: u32, cons_width: u32, cons_height: u32) -> (size: (
    u32,
    u32,
))
    ensures
        (size.0 as int, size.1 as int) == fitted(
            rect_width as int,
            rect_height as int,
            cons_width as int,
            cons_height as int,
        ),
{
    proof {
        lemma_fitted_within(
            rect_width as nat,
            rect_height as nat,
            cons_width as nat,
            cons_height as nat,
        );
    }
    if rect_width <= cons_width && rect_height <= cons_height {
        return (rect_width, rect_height);
    }
    let rw: u64 = rect_width as u64;
    let rh: u64 = rect_height as u64;
    let cw: u64 = cons_width as u64;
    let ch: u64 = cons_height as u64;
    assert(rw * ch <= 0xffff_ffff * 0xffff_ffff && rh * cw <= 0xffff_ffff * 0xffff_ffff
        && rh * cw >= 0 && rw * ch >= 0) by (nonlinear_arith)
        requires
            rw <= 0xffff_ffff,
            rh <= 0xffff_ffff,
            cw <= 0xffff_ffff,
            ch <= 0xffff_ffff,
    ;
    if rw * ch > rh * cw {
        assert(rw > 0) by (nonlinear_arith)
            requires
                rw * ch > rh * cw,
                rw >= 0,
                rh * cw >= 0,
        ;
        let h: u64 = (rh * cw) / rw;
        (cons_width, h as u32)
    } else if rect_height == 0 {
        (0, cons_height)
    } else {
        let w: u64 = (rw * ch) / rh;
        (w as u32, cons_height)
    }
}

/// Fitting never enlarges: the fitted size stays within the container along
/// both axes, whatever the content and the container are.
pub proof fn lemma_fitted_within(rw: nat, rh: nat, cw: nat, ch: nat)
    ensures
        0 <= fitted(rw as int, rh as int, cw as int, ch as int).0 <= cw,
        0 <= fitted(rw as int, rh as int, cw as int, ch as int).1 <= ch,
        fitted(rw as int, rh as int, cw as int, ch as int).0 <= rw,
        fitted(rw as int, rh as int, cw as int, ch as int).1 <= rh,
{
    let (rw, rh, cw, ch) = (rw as int, rh as int, cw as int, ch as int);
    if needs_scaling(rw, rh, cw, ch) {
        if width_dominates(rw, rh, cw, ch) {
            assert(rw > 0 && cw <= rw && 0 <= (rh * cw) / rw <= ch && (rh * cw) / rw <= rh)
                by (nonlinear_arith)
                requires
                    rw * ch > rh * cw,
                    rw >= 0,
                    rh >= 0,
                    cw >= 0,
                    ch >= 0,
                    rw > cw || rh > ch,
            ;
        } else {
            assert(ch <= rh) by (nonlinear_arith)
                requires
                    rw * ch <= rh * cw,
                    rw >= 0,
                    rh >= 0,
                    cw >= 0,
                    ch >= 0,
                    rw > cw || rh > ch,
            ;
            if rh != 0 {
                assert(0 <= (rw * ch) / rh <= cw && (rw * ch) / rh <= rw) by (nonlinear_arith)
                    requires
                        rw * ch <= rh * cw,
                        rh > 0,
                        rw >= 0,
                        cw >= 0,
                        ch >= 0,
                        ch <= rh,
                ;
            }
        }
    }
}

/// Whenever the block is shrunk its proportions are kept: one side is the
/// side of the container, and the other is the exact proportional length
/// rounded down to a whole pixel, so the cross products of old and new sides
/// differ by less than one old side. A block without height that is too wide
/// for a container without height is shown empty.
pub proof fn lemma_fitted_keeps_aspect(rw: nat, rh: nat, cw: nat, ch: nat)
    requires
        needs_scaling(rw as int, rh as int, cw as int, ch as int),
    ensures
        ({
            let (w, h) = fitted(rw as int, rh as int, cw as int, ch as int);
            if width_dominates(rw as int, rh as int, cw as int, ch as int) {
                w == cw && h * rw <= rh * w < (h + 1) * rw
            } else if rh > 0 {
                h == ch && w * rh <= rw * h < (w + 1) * rh
            } else {
                w == 0 && h == 0 && ch == 0
            }
        }),
{
    let (rw, rh, cw, ch) = (rw as int, rh as int, cw as int, ch as int);
    if width_dominates(rw, rh, cw, ch) {
        let h = (rh * cw) / rw;
        assert(rw > 0 && h * rw <= rh * cw < (h + 1) * rw) by (nonlinear_arith)
            requires
                rw * ch > rh * cw,
                rw >= 0,
                rh >= 0,
                cw >= 0,
                h == (rh * cw) / rw,
        ;
    } else if rh > 0 {
        let w = (rw * ch) / rh;
        assert(w * rh <= rw * ch < (w + 1) * rh) by (nonlinear_arith)
            requires
                rh > 0,
                w == (rw * ch) / rh,
        ;
    } else {
        assert(ch == 0) by (nonlinear_arith)
            requires
                rw * ch <= rh * cw,
                rh == 0,
                rw > cw,
                cw >= 0,
                ch >= 0,
        ;
    }
}

/// Where a block is drawn: its top-left corner and its size, in pixels.
#[derive(Clone, Copy, Debug, PartialEq, Eq, Structural)]
pub struct Placement {
    pub x: i32,
    pub y: i32,
    pub width: u32,
    pub height: u32,
}

/// The target area of a block on screen: anchored at
/// (`ANCHOR_X`, `ANCHOR_Y`), with the fitted size.
pub fn get_centered_rect(rect_width: u32, rect_height: u32, cons_width: u32, cons_height: u32) -> (r:
    Placement)
    ensures
        r.x == ANCHOR_X,
        r.y == ANCHOR_Y,
        (r.width as int, r.height as int) == fitted(
            rect_width as int,
            rect_height as int,
            cons_width as int,
            cons_height as int,
        ),
        r.width <= cons_width,
        r.height <= cons_height,
        r.width <= rect_width,
        r.height <= rect_height,
{
    proof {
        lemma_fitted_within(
            rect_width as nat,
            rect_height as nat,
            cons_width as nat,
            cons_height as nat,
        );
    }
    let size = fit_size(rect_width, rect_height, cons_width, cons_height);
    Placement { x: ANCHOR_X, y: ANCHOR_Y, width: size.0, height: size.1 }
}

} // verus!
