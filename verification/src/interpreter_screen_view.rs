//! The emulator's screen as an image.
use vstd::prelude::*;

verus! {

/// The RGBA bytes of the screen: each lit pixel (non-zero) takes the colour `on`, each dark
/// pixel the colour `off`, four bytes per pixel in the order of the screen buffer.
pub open spec fn spec_screen_rgba(buffer: Seq<u8>, on: Seq<u8>, off: Seq<u8>) -> Seq<u8> {
    Seq::new(
        buffer.len() * 4,
        |k: int|
            if buffer[k / 4] > 0 {
                on[k % 4]
            } else {
                off[k % 4]
            },
    )
}

/// The RGBA bytes of the screen, given the colours of lit and dark pixels.
pub fn screen_rgba(buffer: &Vec<u8>, on: [u8; 4], off: [u8; 4]) -> (pixels: Vec<u8>)
    requires
        buffer@.len() * 4 <= usize::MAX,
    ensures
        pixels@ == spec_screen_rgba(buffer@, on@, off@),
{
    let mut pixels: Vec<u8> = Vec::new();
    let mut i: usize = 0;
    while i < buffer.len()
        invariant
            i <= buffer@.len(),
            pixels@.len() == i * 4,
            forall|k: int|
                0 <= k < i * 4 ==> pixels@[k] == (if buffer@[k / 4] > 0 {
                    on@[k % 4]
                } else {
                    off@[k % 4]
                }),
        decreases buffer@.len() - i,
    {
        let colour = if buffer[i] > 0 {
            on
        } else {
            off
        };
        pixels.push(colour[0]);
        pixels.push(colour[1]);
        pixels.push(colour[2]);
        pixels.push(colour[3]);
        proof {
            let ii = i as int;
            assert forall|k: int| 0 <= k < ii * 4 + 4 implies #[trigger] pixels@[k] == (if buffer@[k
                / 4] > 0 {
                on@[k % 4]
            } else {
                off@[k % 4]
            }) by {
                if k >= ii * 4 {
                    assert(k / 4 == ii && k % 4 == k - ii * 4) by (nonlinear_arith)
                        requires
                            ii * 4 <= k < ii * 4 + 4,
                    ;
                }
            }
        }
        i = i + 1;
    }
    assert(pixels@ =~= spec_screen_rgba(buffer@, on@, off@));
    pixels
}

} // verus!
