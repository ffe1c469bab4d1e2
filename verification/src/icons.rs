//! The shield icons and the pixel layout that the tray expects.

use vstd::prelude::*;

verus! {

/// Shield with a check mark: protection on.
pub const SHIELD_ON_SVG: &'static str = r##"<svg xmlns="http://www.w3.org/2000/svg" viewBox="0 0 64 64" width="64" height="64">
  <path d="M32 4L8 14v16c0 14.8 10.24 28.64 24 32 13.76-3.36 24-17.2 24-32V14L32 4z" fill="#4ade80" stroke="#22c55e" stroke-width="1.5"/>
  <path d="M24 33l6 6 12-12" fill="none" stroke="#ffffff" stroke-width="4" stroke-linecap="round" stroke-linejoin="round"/>
</svg>"##;

/// Crossed-out shield: protection off.
pub const SHIELD_OFF_SVG: &'static str = r##"<svg xmlns="http://www.w3.org/2000/svg" viewBox="0 0 64 64" width="64" height="64">
  <path d="M32 4L8 14v16c0 14.8 10.24 28.64 24 32 13.76-3.36 24-17.2 24-32V14L32 4z" fill="none" stroke="#64748b" stroke-width="2.5"/>
  <path d="M24 24l16 16M40 24l-16 16" fill="none" stroke="#64748b" stroke-width="4" stroke-linecap="round"/>
</svg>"##;

pub fn shield_on_svg() -> (r: &'static str)
    ensures
        r@ == SHIELD_ON_SVG@,
{
    SHIELD_ON_SVG
}

pub fn shield_off_svg() -> (r: &'static str)
    ensures
        r@ == SHIELD_OFF_SVG@,
{
    SHIELD_OFF_SVG
}

/// The shield drawn for the protection state `enabled`, both by the tray
/// icon and by the on-screen display.
pub open spec fn shield_svg_for(enabled: bool) -> Seq<char> {
    if enabled {
        SHIELD_ON_SVG@
    } else {
        SHIELD_OFF_SVG@
    }
}

/// The four bytes of pixel `k` of a buffer of 4-byte pixels.
pub open spec fn pixel(s: Seq<u8>, k: int) -> (u8, u8, u8, u8) {
    (s[4 * k], s[4 * k + 1], s[4 * k + 2], s[4 * k + 3])
}

/// An RGBA pixel rearranged as ARGB.
pub open spec fn argb_of(p: (u8, u8, u8, u8)) -> (u8, u8, u8, u8) {
    (p.3, p.0, p.1, p.2)
}

/// Rearranges RGBA pixels (premultiplied, as tiny-skia renders them) into
/// ARGB32 in network byte order, as the tray protocol wants them. Bytes after
/// the last whole pixel are dropped.
pub fn rgba_to_argb(rgba: &[u8]) -> (argb: Vec<u8>)
    ensures
        argb@.len() == (rgba@.len() / 4) * 4,
        forall|k: int|
            0 <= k < rgba@.len() / 4 ==> #[trigger] pixel(argb@, k) == argb_of(pixel(rgba@, k)),
        forall|k: int|
            0 <= k < rgba@.len() / 4 ==> #[trigger] pixel(argb@, k) == (
                rgba@[4 * k + 3],
                rgba@[4 * k],
                rgba@[4 * k + 1],
                rgba@[4 * k + 2],
            ),
{
    let len = rgba.len();
    let n = len / 4;
    let mut argb: Vec<u8> = Vec::with_capacity(n * 4);
    let mut i: usize = 0;
    while i < n
        invariant
            len == rgba@.len(),
            n == rgba@.len() / 4,
            i <= n,
            argb@.len() == 4 * i,
            forall|k: int| 0 <= k < i ==> #[trigger] pixel(argb@, k) == argb_of(pixel(rgba@, k)),
        decreases n - i,
    {
        assert(4 * i + 3 < rgba@.len()) by (nonlinear_arith)
            requires
                i < n,
                n == rgba@.len() / 4,
        ;
        let r = rgba[4 * i];
        let g = rgba[4 * i + 1];
        let b = rgba[4 * i + 2];
        let a = rgba[4 * i + 3];
        let ghost before = argb@;
        argb.push(a);
        argb.push(r);
        argb.push(g);
        argb.push(b);
        assert forall|k: int| 0 <= k < i + 1 implies #[trigger] pixel(argb@, k) == argb_of(
            pixel(rgba@, k),
        ) by {
            if k < i {
                assert(pixel(argb@, k) == pixel(before, k));
            }
        }
        i = i + 1;
    }
    assert forall|k: int| 0 <= k < rgba@.len() / 4 implies #[trigger] pixel(argb@, k) == (
        rgba@[4 * k + 3],
        rgba@[4 * k],
        rgba@[4 * k + 1],
        rgba@[4 * k + 2],
    ) by {
        assert(pixel(argb@, k) == argb_of(pixel(rgba@, k)));
    }
    argb
}

/// The ARGB form of a pixel puts its alpha first and keeps red, green and
/// blue in their order, whatever the values; reading it back as RGBA gives
/// the pixel again.
pub proof fn lemma_argb_alpha_first(r: u8, g: u8, b: u8, a: u8)
    ensures
        argb_of((r, g, b, a)) == (a, r, g, b),
        ({
            let q = argb_of((r, g, b, a));
            (q.1, q.2, q.3, q.0) == (r, g, b, a)
        }),
{
}

} // verus!
