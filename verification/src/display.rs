//! Drawing sprites onto the 64x32 display.

use vstd::prelude::*;
use crate::model::{sprite_collides, sprite_drawn, sprite_pixel};

verus! {

/// Whether cell `p` belongs to a sprite pixel that comes before row `r`,
/// column `c` of a sprite placed at (`vx`, `vy`), going row by row.
spec fn reached(p: int, vx: int, vy: int, r: int, c: int) -> bool {
    let col = p % 64 - vx;
    let row = p / 64 - vy;
    row < r || (row == r && col < c)
}

/// XORs the sprite of `rows` rows that `memory` holds at `base` onto
/// `display`, its top left corner at column `vx`, row `vy`. Pixels that fall
/// off the right or the bottom edge are dropped. Returns whether a pixel
/// that was on went off.
pub fn blit(
    display: &mut [bool; 2048],
    memory: &[u8; 4096],
    base: usize,
    rows: usize,
    vx: u8,
    vy: u8,
) -> (collided: bool)
    requires
        rows > 0 ==> base + rows <= 4096,
    ensures
        final(display)@ == sprite_drawn(
            old(display)@,
            memory@,
            base as int,
            rows as int,
            vx as int,
            vy as int,
        ),
        collided == sprite_collides(
            old(display)@,
            memory@,
            base as int,
            rows as int,
            vx as int,
            vy as int,
        ),
{
    let ghost orig = display@;
    let ghost mut witness: int = 0;
    let mut collided = false;
    let mut r: usize = 0;
    while r < rows
        invariant
            r <= rows,
            rows > 0 ==> base + rows <= 4096,
            orig.len() == 2048,
            forall|p: int|
                0 <= p < 2048 ==> #[trigger] display@[p] == (orig[p] != (sprite_pixel(
                    memory@,
                    base as int,
                    rows as int,
                    vx as int,
                    vy as int,
                    p,
                ) && reached(p, vx as int, vy as int, r as int, 0))),
            collided ==> 0 <= witness < 2048 && orig[witness] && sprite_pixel(
                memory@,
                base as int,
                rows as int,
                vx as int,
                vy as int,
                witness,
            ),
            !collided ==> forall|p: int|
                0 <= p < 2048 && orig[p] && reached(p, vx as int, vy as int, r as int, 0)
                    ==> !#[trigger] sprite_pixel(
                    memory@,
                    base as int,
                    rows as int,
                    vx as int,
                    vy as int,
                    p,
                ),
        decreases rows - r,
    {
        let byte: u8 = memory[base + r];
        let mut c: usize = 0;
        while c < 8
            invariant
                c <= 8,
                r < rows,
                base + rows <= 4096,
                orig.len() == 2048,
                byte == memory@[base + r],
                forall|p: int|
                    0 <= p < 2048 ==> #[trigger] display@[p] == (orig[p] != (sprite_pixel(
                        memory@,
                        base as int,
                        rows as int,
                        vx as int,
                        vy as int,
                        p,
                    ) && reached(p, vx as int, vy as int, r as int, c as int))),
                collided ==> 0 <= witness < 2048 && orig[witness] && sprite_pixel(
                    memory@,
                    base as int,
                    rows as int,
                    vx as int,
                    vy as int,
                    witness,
                ),
                !collided ==> forall|p: int|
                    0 <= p < 2048 && orig[p] && reached(p, vx as int, vy as int, r as int, c as int)
                        ==> !#[trigger] sprite_pixel(
                        memory@,
                        base as int,
                        rows as int,
                        vx as int,
                        vy as int,
                        p,
                    ),
            decreases 8 - c,
        {
            let cx: usize = vx as usize + c;
            let cy: usize = vy as usize + r;
            if cx < 64 && cy < 32 {
                let pos: usize = cx + cy * 64;
                let shift: u8 = (7 - c) as u8;
                let lit: bool = (byte >> shift) & 1 == 1;
                if lit {
                    if display[pos] {
                        collided = true;
                        proof {
                            witness = pos as int;
                        }
                    }
                    display[pos] = !display[pos];
                }
            }
            c += 1;
        }
        r += 1;
    }
    assert(display@ =~= sprite_drawn(
        orig,
        memory@,
        base as int,
        rows as int,
        vx as int,
        vy as int,
    ));
    collided
}

} // verus!
