//! The tray icon.

use vstd::prelude::*;

verus! {

/// Width and height of the icon, in pixels.
pub const ICON_SIZE: u32 = 32;

/// Whether a pixel lies in the disc: at most 14 pixels from the middle of the icon.
pub open spec fn in_disc(x: int, y: int) -> bool {
    (x - 16) * (x - 16) + (y - 16) * (y - 16) <= 14 * 14
}

/// Red, green, blue and opacity of a pixel: purple in the disc, transparent outside.
pub open spec fn icon_pixel(x: int, y: int) -> Seq<u8> {
    if in_disc(x, y) {
        seq![139u8, 92u8, 246u8, 255u8]
    } else {
        seq![0u8, 0u8, 0u8, 0u8]
    }
}

/// The first `n` pixels of the icon, row by row.
pub open spec fn icon_pixels(n: nat) -> Seq<u8>
    decreases n,
{
    if n == 0 {
        seq![]
    } else {
        icon_pixels((n - 1) as nat) + icon_pixel((n - 1) % 32, (n - 1) / 32)
    }
}

/// Draws the icon: four bytes per pixel, row by row.
pub fn create_default_icon() -> (r: Vec<u8>)
    ensures
        r@ == icon_pixels(1024),
{
    let mut rgba: Vec<u8> = Vec::with_capacity(4096);
    let mut y: i32 = 0;
    while y < 32
        invariant
            0 <= y <= 32,
            rgba@ == icon_pixels((32 * y) as nat),
        decreases 32 - y,
    {
        let mut x: i32 = 0;
        while x < 32
            invariant
                0 <= x <= 32,
                0 <= y < 32,
                rgba@ == icon_pixels((32 * y + x) as nat),
            decreases 32 - x,
        {
            let cx: i32 = x - 16;
            let cy: i32 = y - 16;
            proof {
                assert(0 <= cx * cx <= 256) by (nonlinear_arith)
                    requires
                        -16 <= cx <= 16,
                ;
                assert(0 <= cy * cy <= 256) by (nonlinear_arith)
                    requires
                        -16 <= cy <= 16,
                ;
            }
            if cx * cx + cy * cy <= 196 {
                rgba.push(139);
                rgba.push(92);
                rgba.push(246);
                rgba.push(255);
            } else {
                rgba.push(0);
                rgba.push(0);
                rgba.push(0);
                rgba.push(0);
            }
            proof {
                let n = (32 * y + x) as nat;
                assert(n as int % 32 == x && n as int / 32 == y);
                assert(rgba@ =~= icon_pixels(n) + icon_pixel(x as int, y as int));
                assert(icon_pixels((n + 1) as nat) == icon_pixels(n) + icon_pixel(
                    x as int,
                    y as int,
                ));
            }
            x = x + 1;
        }
        y = y + 1;
    }
    rgba
}

/// The icon holds four bytes for each pixel, and the bytes of the pixel in column `x` and
/// row `y` stand at `4 * (32 * y + x)`.
pub proof fn icon_is_laid_out_by_rows(n: nat, x: int, y: int)
    requires
        0 <= x < 32,
        0 <= 32 * y + x < n,
    ensures
        icon_pixels(n).len() == 4 * n,
        icon_pixels(n).subrange(4 * (32 * y + x), 4 * (32 * y + x) + 4) == icon_pixel(x, y),
    decreases n,
{
    icon_length(n);
    icon_length((n - 1) as nat);
    let at = 4 * (32 * y + x);
    if 32 * y + x == n - 1 {
        assert((n - 1) % 32 == x && (n - 1) / 32 == y);
        assert(icon_pixels(n).subrange(at, at + 4) =~= icon_pixel(x, y));
    } else {
        icon_is_laid_out_by_rows((n - 1) as nat, x, y);
        assert(icon_pixels(n).subrange(at, at + 4) =~= icon_pixels((n - 1) as nat).subrange(
            at,
            at + 4,
        ));
    }
}

/// The icon holds four bytes for each pixel.
proof fn icon_length(n: nat)
    ensures
        icon_pixels(n).len() == 4 * n,
    decreases n,
{
    if n > 0 {
        icon_length((n - 1) as nat);
    }
}

} // verus!
