//! The picture of the tray icon.

use vstd::prelude::*;

verus! {

/// Width and height of the picture in pixels.
pub const ICON_SIZE: usize = 32;

/// The data from which an icon is made.
pub struct Icon {
    pub width: i32,
    pub height: i32,
    pub planes: u8,
    pub bits_per_pixel: u8,
    /// One bit per pixel: what of the background shines through.
    pub and_bits: Vec<u8>,
    /// Blue, green, red and opacity of each pixel, row by row.
    pub xor_bits: Vec<u8>,
}

/// A pixel of the window in the corner.
pub open spec fn in_window(x: int, y: int) -> bool {
    18 <= x < 31 && 18 <= y < 31
}

/// A pixel of the frame of the screen.
pub open spec fn in_frame(x: int, y: int) -> bool {
    x < 2 || y < 2 || x >= 30 || y >= 30
}

/// Blue, green, red and opacity of a pixel.
pub open spec fn pixel(x: int, y: int) -> Seq<u8> {
    if in_window(x, y) {
        seq![60u8, 150u8, 255u8, 255u8]
    } else if in_frame(x, y) {
        seq![255u8, 160u8, 90u8, 255u8]
    } else {
        seq![32u8, 26u8, 24u8, 255u8]
    }
}

/// The bytes of the first `n` pixels, row by row.
pub open spec fn pixel_bytes(n: nat) -> Seq<u8>
    decreases n,
{
    if n == 0 {
        Seq::empty()
    } else {
        let k = (n - 1) as int;
        pixel_bytes((n - 1) as nat) + pixel(k % 32, k / 32)
    }
}

/// Draws the icon: a screen with a frame, and an opaque window in its lower right corner.
pub fn create_icon() -> (icon: Icon)
    ensures
        icon.width == 32,
        icon.height == 32,
        icon.planes == 1,
        icon.bits_per_pixel == 32,
        icon.and_bits@ == Seq::new(128, |i: int| 0u8),
        icon.xor_bits@ == pixel_bytes(1024),
{
    let mut xor_bits: Vec<u8> = Vec::new();
    let mut k: usize = 0;
    while k < ICON_SIZE * ICON_SIZE
        invariant
            k <= 1024,
            xor_bits@ == pixel_bytes(k as nat),
        decreases 1024 - k,
    {
        let x: usize = k % ICON_SIZE;
        let y: usize = k / ICON_SIZE;
        let (mut b, mut g, mut r): (u8, u8, u8) = (32, 26, 24);
        if x < 2 || y < 2 || x >= ICON_SIZE - 2 || y >= ICON_SIZE - 2 {
            b = 255;
            g = 160;
            r = 90;
        }
        if x >= 18 && y >= 18 && x < 31 && y < 31 {
            b = 60;
            g = 150;
            r = 255;
        }
        let ghost before = xor_bits@;
        xor_bits.push(b);
        xor_bits.push(g);
        xor_bits.push(r);
        xor_bits.push(255);
        assert(xor_bits@ =~= before + pixel(x as int, y as int));
        k = k + 1;
    }
    let mut and_bits: Vec<u8> = Vec::new();
    let mut i: usize = 0;
    while i < ICON_SIZE * ICON_SIZE / 8
        invariant
            i <= 128,
            and_bits@ == Seq::new(i as nat, |i: int| 0u8),
        decreases 128 - i,
    {
        and_bits.push(0);
        i = i + 1;
        assert(and_bits@ =~= Seq::new(i as nat, |i: int| 0u8));
    }
    Icon { width: 32, height: 32, planes: 1, bits_per_pixel: 32, and_bits, xor_bits }
}

/// The icon that is shown.
#[derive(Clone, Copy, Debug, PartialEq, Eq, Structural)]
pub enum IconChoice {
    /// The icon that was made.
    Made { handle: usize },
    /// The stock icon of an application.
    Stock,
}

/// Chooses the icon. The handle of the icon that was made is 0 if it could not be made.
pub fn choose_icon(made: usize) -> (choice: IconChoice)
    ensures
        choice == if made == 0 {
            IconChoice::Stock
        } else {
            IconChoice::Made { handle: made }
        },
{
    if made == 0 {
        IconChoice::Stock
    } else {
        IconChoice::Made { handle: made }
    }
}

/// The bytes of every pixel stand at its place in the rows.
pub proof fn pixels_are_in_their_rows(n: nat, x: int, y: int)
    requires
        0 <= x < 32,
        0 <= y,
        32 * y + x < n,
    ensures
        pixel_bytes(n).len() == 4 * n,
        pixel_bytes(n).subrange(4 * (32 * y + x), 4 * (32 * y + x) + 4) == pixel(x, y),
    decreases n,
{
    lemma_pixel_bytes_len(n);
    let last = (n - 1) as nat;
    lemma_pixel_bytes_len(last);
    if 32 * y + x < last {
        pixels_are_in_their_rows(last, x, y);
        assert(pixel_bytes(n).subrange(4 * (32 * y + x), 4 * (32 * y + x) + 4) =~= pixel_bytes(
            last,
        ).subrange(4 * (32 * y + x), 4 * (32 * y + x) + 4));
    } else {
        assert(last % 32 == x && last / 32 == y);
        assert(pixel_bytes(n).subrange(4 * (32 * y + x), 4 * (32 * y + x) + 4) =~= pixel(x, y));
    }
}

proof fn lemma_pixel_bytes_len(n: nat)
    ensures
        pixel_bytes(n).len() == 4 * n,
    decreases n,
{
    if n > 0 {
        lemma_pixel_bytes_len((n - 1) as nat);
    }
}

} // verus!
