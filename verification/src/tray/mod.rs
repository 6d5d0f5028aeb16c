//! The tray icon's image: a small dark panel with three rising green bars,
//! drawn at run time so that no binary asset has to be shipped.

use vstd::prelude::*;

verus! {

/// The icon's width and height in pixels.
pub const ICON_SIZE: u32 = 32;

/// Whether pixel (x, y) is on one of the three bars: columns 6..12, 13..19
/// and 20..26, rising from rows 22, 16 and 10 down to row 26.
pub open spec fn on_bar(x: int, y: int) -> bool {
    ||| (6 <= x < 12 && 22 <= y < 26)
    ||| (13 <= x < 19 && 16 <= y < 26)
    ||| (20 <= x < 26 && 10 <= y < 26)
}

/// Whether pixel (x, y) is on the dark panel.
pub open spec fn on_panel(x: int, y: int) -> bool {
    2 <= x < 30 && 2 <= y < 30
}

/// The RGBA colour of pixel (x, y): green on a bar, dark on the panel,
/// transparent elsewhere.
pub open spec fn pixel(x: int, y: int) -> Seq<u8> {
    if on_bar(x, y) {
        seq![120u8, 230u8, 130u8, 255u8]
    } else if on_panel(x, y) {
        seq![20u8, 22u8, 28u8, 235u8]
    } else {
        seq![0u8, 0u8, 0u8, 0u8]
    }
}

/// The icon as RGBA bytes, row by row: pixel (x, y) occupies the four bytes
/// from `(y * 32 + x) * 4`.
pub fn icon_rgba() -> (r: Vec<u8>)
    ensures
        r@.len() == 32 * 32 * 4,
        forall|x: int, y: int, c: int|
            0 <= x < 32 && 0 <= y < 32 && 0 <= c < 4 ==> #[trigger] r@[(y * 32 + x) * 4 + c]
                == pixel(x, y)[c],
{
    let mut r: Vec<u8> = Vec::new();
    let mut y: u32 = 0;
    while y < ICON_SIZE
        invariant
            y <= 32,
            r@.len() == y * 32 * 4,
            forall|px: int, py: int, c: int|
                0 <= px < 32 && 0 <= py < y && 0 <= c < 4 ==> #[trigger] r@[(py * 32 + px) * 4 + c]
                    == pixel(px, py)[c],
        decreases 32 - y,
    {
        let mut x: u32 = 0;
        while x < ICON_SIZE
            invariant
                y < 32,
                x <= 32,
                r@.len() == (y * 32 + x) * 4,
                forall|px: int, py: int, c: int|
                    0 <= py < 32 && 0 <= px < 32 && 0 <= c < 4 && (py * 32 + px) < y * 32 + x
                        ==> #[trigger] r@[(py * 32 + px) * 4 + c] == pixel(px, py)[c],
            decreases 32 - x,
        {
            let xi = x as i64;
            let yi = y as i64;
            let bar = (6 <= xi && xi < 12 && 22 <= yi && yi < 26) || (13 <= xi && xi < 19 && 16
                <= yi && yi < 26) || (20 <= xi && xi < 26 && 10 <= yi && yi < 26);
            let panel = 2 <= xi && xi < 30 && 2 <= yi && yi < 30;
            let (cr, cg, cb, ca): (u8, u8, u8, u8) = if bar {
                (120, 230, 130, 255)
            } else if panel {
                (20, 22, 28, 235)
            } else {
                (0, 0, 0, 0)
            };
            let ghost before = r@;
            r.push(cr);
            r.push(cg);
            r.push(cb);
            r.push(ca);
            proof {
                assert forall|px: int, py: int, c: int|
                    0 <= py < 32 && 0 <= px < 32 && 0 <= c < 4 && (py * 32 + px) < y * 32 + x + 1
                        implies #[trigger] r@[(py * 32 + px) * 4 + c] == pixel(px, py)[c] by {
                    if py * 32 + px < y * 32 + x {
                        assert((py * 32 + px) * 4 + c < before.len()) by (nonlinear_arith)
                            requires
                                py * 32 + px < y * 32 + x,
                                0 <= c < 4,
                                before.len() == (y * 32 + x) * 4,
                        ;
                        assert(r@[(py * 32 + px) * 4 + c] == before[(py * 32 + px) * 4 + c]);
                    } else {
                        assert(py == y && px == x) by (nonlinear_arith)
                            requires
                                py * 32 + px == y * 32 + x,
                                0 <= px < 32,
                                0 <= x < 32,
                        ;
                        assert((py * 32 + px) * 4 + c == before.len() + c);
                    }
                }
            }
            x = x + 1;
        }
        y = y + 1;
    }
    r
}

} // verus!
