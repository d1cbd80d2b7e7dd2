//! Rectangles on the screen.

use vstd::prelude::*;

verus! {

/// A rectangle in screen coordinates; `right` and `bottom` lie just outside.
#[derive(Clone, Copy, Debug, PartialEq, Eq, Structural)]
pub struct Rect {
    pub left: i32,
    pub top: i32,
    pub right: i32,
    pub bottom: i32,
}

/// The rectangle with all coordinates zero.
pub open spec fn zero_rect() -> Rect {
    Rect { left: 0, top: 0, right: 0, bottom: 0 }
}

impl Rect {
    /// The rectangle with all coordinates zero.
    pub fn zero() -> (r: Rect)
        ensures
            r == zero_rect(),
    {
        Rect { left: 0, top: 0, right: 0, bottom: 0 }
    }

    /// The distance from the left side to the right side.
    pub open spec fn wide(self) -> int {
        self.right - self.left
    }

    /// The distance from the upper side to the lower side.
    pub open spec fn high(self) -> int {
        self.bottom - self.top
    }
}

/// Are the rectangles the same?
pub fn rects_equal(a: &Rect, b: &Rect) -> (yes: bool)
    ensures
        yes == (*a == *b),
{
    a.left == b.left && a.top == b.top && a.right == b.right && a.bottom == b.bottom
}

/// Can a coordinate hold the number?
pub open spec fn fits(n: int) -> bool {
    i32::MIN <= n <= i32::MAX
}

/// The size of a number without its sign.
pub open spec fn size(n: int) -> int {
    if n < 0 {
        -n
    } else {
        n
    }
}

/// The strip of `r` that is `width` wide and lies at its right or its left side.
pub open spec fn strip(r: Rect, right_edge: bool, width: i32) -> Rect {
    if right_edge {
        Rect { left: (r.right - width) as i32, ..r }
    } else {
        Rect { right: (r.left + width) as i32, ..r }
    }
}

/// Can coordinates hold the strip?
pub open spec fn strip_fits(r: Rect, right_edge: bool, width: i32) -> bool {
    if right_edge {
        fits(r.right - width)
    } else {
        fits(r.left + width)
    }
}

/// Is the strip within the coordinates?
pub fn has_strip(r: &Rect, right_edge: bool, width: i32) -> (yes: bool)
    ensures
        yes == strip_fits(*r, right_edge, width),
{
    if right_edge {
        r.right.checked_sub(width).is_some()
    } else {
        r.left.checked_add(width).is_some()
    }
}

/// Cuts the strip out of a rectangle.
pub fn cut_strip(r: &Rect, right_edge: bool, width: i32) -> (s: Rect)
    requires
        strip_fits(*r, right_edge, width),
    ensures
        s == strip(*r, right_edge, width),
{
    let mut s = *r;
    if right_edge {
        s.left = s.right - width;
    } else {
        s.right = s.left + width;
    }
    s
}

/// Can coordinates hold width and height of the rectangle?
pub open spec fn sides_fit(r: Rect) -> bool {
    fits(r.wide()) && fits(r.high())
}

/// Are width and height within the coordinates?
pub fn has_sides(r: &Rect) -> (yes: bool)
    ensures
        yes == sides_fit(*r),
{
    r.right.checked_sub(r.left).is_some() && r.bottom.checked_sub(r.top).is_some()
}

/// The smaller of a wanted height and the height of the strip.
pub open spec fn cut_height(strip: Rect, height: i32) -> int {
    if height < strip.high() {
        height as int
    } else {
        strip.high()
    }
}

/// The part of a strip that is as high as wanted, as far as the strip goes, and stands at its
/// upper or its lower end.
pub open spec fn end_of(strip: Rect, height: i32, top: bool) -> Rect {
    if top {
        Rect { bottom: (strip.top + cut_height(strip, height)) as i32, ..strip }
    } else {
        Rect { top: (strip.bottom - cut_height(strip, height)) as i32, ..strip }
    }
}

/// Can coordinates hold the strip's sides and that part of it?
pub open spec fn end_fits(strip: Rect, height: i32, top: bool) -> bool {
    &&& sides_fit(strip)
    &&& if top {
        fits(strip.top + cut_height(strip, height))
    } else {
        fits(strip.bottom - cut_height(strip, height))
    }
}

/// Cuts the part off an end of a strip, where coordinates can hold it.
pub fn cut_end(strip: &Rect, height: i32, top: bool) -> (part: Option<Rect>)
    ensures
        part is Some <==> end_fits(*strip, height, top),
        part matches Some(r) ==> r == end_of(*strip, height, top),
{
    strip.right.checked_sub(strip.left)?;
    let whole: i32 = strip.bottom.checked_sub(strip.top)?;
    let h: i32 = if height < whole {
        height
    } else {
        whole
    };
    let mut part = *strip;
    if top {
        part.bottom = strip.top.checked_add(h)?;
    } else {
        part.top = strip.bottom.checked_sub(h)?;
    }
    Some(part)
}

/// A window at `r` is not where it belongs if its place or its size is off by more than one pixel.
pub open spec fn misplaced(r: Rect, place: Rect) -> bool {
    ||| size(r.left - place.left) > 1
    ||| size(r.top - place.top) > 1
    ||| size(r.wide() - place.wide()) > 1
    ||| size(r.high() - place.high()) > 1
}

/// Can coordinates hold the number and its size?
pub open spec fn size_fits(n: int) -> bool {
    -i32::MAX <= n <= i32::MAX
}

/// Can coordinates hold what the comparison computes? It stops at the first side that is off.
pub open spec fn comparable(r: Rect, place: Rect) -> bool {
    &&& size_fits(r.left - place.left)
    &&& size(r.left - place.left) <= 1 ==> {
        &&& size_fits(r.top - place.top)
        &&& size(r.top - place.top) <= 1 ==> {
            &&& fits(r.wide())
            &&& size_fits(r.wide() - place.wide())
            &&& size(r.wide() - place.wide()) <= 1 ==> {
                &&& fits(r.high())
                &&& size_fits(r.high() - place.high())
            }
        }
    }
}

/// The size of the difference of two numbers, where coordinates can hold it.
fn distance(a: i32, b: i32) -> (d: Option<i32>)
    ensures
        d is Some <==> size_fits(a - b),
        d matches Some(n) ==> n == size(a - b),
{
    match a.checked_sub(b) {
        Some(n) => if n >= 0 {
            Some(n)
        } else if n > i32::MIN {
            Some(-n)
        } else {
            None
        },
        None => None,
    }
}

/// Compares a window with its place, where coordinates can hold what that computes.
pub fn compare_place(r: &Rect, place: &Rect) -> (off: Option<bool>)
    requires
        sides_fit(*place),
    ensures
        off is Some <==> comparable(*r, *place),
        off matches Some(b) ==> b == misplaced(*r, *place),
{
    if distance(r.left, place.left)? > 1 {
        return Some(true);
    }
    if distance(r.top, place.top)? > 1 {
        return Some(true);
    }
    let w: i32 = r.right.checked_sub(r.left)?;
    if distance(w, place.right - place.left)? > 1 {
        return Some(true);
    }
    let h: i32 = r.bottom.checked_sub(r.top)?;
    Some(distance(h, place.bottom - place.top)? > 1)
}

/// The strip has the width asked for, lies at the side asked for, and is as high as the whole.
pub proof fn strip_lies_at_its_edge(r: Rect, right_edge: bool, width: i32)
    requires
        strip_fits(r, right_edge, width),
    ensures
        strip(r, right_edge, width).wide() == width,
        strip(r, right_edge, width).top == r.top,
        strip(r, right_edge, width).bottom == r.bottom,
        right_edge ==> strip(r, right_edge, width).right == r.right,
        !right_edge ==> strip(r, right_edge, width).left == r.left,
{
}

/// The part lies in its strip, is as wide as the strip, has the height asked for if the strip has
/// room for it, and stands at the end asked for.
pub proof fn end_lies_in_the_strip(strip: Rect, height: i32, top: bool)
    requires
        sides_fit(strip),
        0 <= height,
        0 <= strip.high(),
    ensures
        end_fits(strip, height, top),
        end_of(strip, height, top).left == strip.left,
        end_of(strip, height, top).right == strip.right,
        strip.top <= end_of(strip, height, top).top,
        end_of(strip, height, top).bottom <= strip.bottom,
        height <= strip.high() ==> end_of(strip, height, top).high() == height,
        height >= strip.high() ==> end_of(strip, height, top) == strip,
        top ==> end_of(strip, height, top).top == strip.top,
        !top ==> end_of(strip, height, top).bottom == strip.bottom,
{
}

/// Cutting the same strip again changes nothing.
pub proof fn strip_of_a_strip(r: Rect, right_edge: bool, width: i32)
    requires
        strip_fits(r, right_edge, width),
    ensures
        strip(strip(r, right_edge, width), right_edge, width) == strip(r, right_edge, width),
{
}

/// A window counts as being at its place exactly if its left side, its upper side, its width and
/// its height are each off by one pixel at most, in whichever direction.
pub proof fn one_pixel_off_is_in_place(r: Rect, place: Rect)
    ensures
        !misplaced(r, place) <==> {
            &&& -1 <= r.left - place.left <= 1
            &&& -1 <= r.top - place.top <= 1
            &&& -1 <= (r.right - r.left) - (place.right - place.left) <= 1
            &&& -1 <= (r.bottom - r.top) - (place.bottom - place.top) <= 1
        },
{
}

/// Whether a window is at its place depends on how far the two are apart, not on where they are:
/// moving both by the same distance changes nothing, and neither does comparing the place with the
/// window.
pub proof fn being_in_place_is_relative(
    r: Rect,
    place: Rect,
    r2: Rect,
    place2: Rect,
    dx: int,
    dy: int,
)
    requires
        r2.left == r.left + dx && r2.right == r.right + dx,
        r2.top == r.top + dy && r2.bottom == r.bottom + dy,
        place2.left == place.left + dx && place2.right == place.right + dx,
        place2.top == place.top + dy && place2.bottom == place.bottom + dy,
    ensures
        misplaced(r2, place2) == misplaced(r, place),
        misplaced(place, r) == misplaced(r, place),
        !misplaced(r, r),
{
}

/// Windows and places can be compared wherever the distances and the sides fit into thirty-two
/// bits.
pub proof fn places_within_reach_are_compared(r: Rect, place: Rect)
    requires
        -0x7FFF_FFFF <= r.left - place.left <= 0x7FFF_FFFF,
        -0x7FFF_FFFF <= r.top - place.top <= 0x7FFF_FFFF,
        -0x8000_0000 <= r.right - r.left <= 0x7FFF_FFFF,
        -0x8000_0000 <= r.bottom - r.top <= 0x7FFF_FFFF,
        -0x7FFF_FFFF <= (r.right - r.left) - (place.right - place.left) <= 0x7FFF_FFFF,
        -0x7FFF_FFFF <= (r.bottom - r.top) - (place.bottom - place.top) <= 0x7FFF_FFFF,
    ensures
        comparable(r, place),
{
}

/// Once a side is seen to be off, the others do not matter: a window that is off to the left or to
/// the right can be compared whatever its other sides are, and one that is off upwards or downwards
/// whatever its width and its height are.
pub proof fn first_side_that_is_off_is_enough(r: Rect, place: Rect)
    ensures
        2 <= r.left - place.left <= 0x7FFF_FFFF || -0x7FFF_FFFF <= r.left - place.left <= -2
            ==> comparable(r, place),
        -1 <= r.left - place.left <= 1 && (2 <= r.top - place.top <= 0x7FFF_FFFF || -0x7FFF_FFFF
            <= r.top - place.top <= -2) ==> comparable(r, place),
{
}

/// A strip at the right side reaches from there as far to the left as it is wide, one at the left
/// side as far to the right; upper and lower side are those of the whole. There is a strip
/// wherever its inner side fits into thirty-two bits.
pub proof fn strip_reaches_inwards(r: Rect, width: i32)
    ensures
        strip_fits(r, true, width) <==> -0x8000_0000 <= r.right - width <= 0x7FFF_FFFF,
        strip_fits(r, false, width) <==> -0x8000_0000 <= r.left + width <= 0x7FFF_FFFF,
        strip_fits(r, true, width) ==> {
            let s = strip(r, true, width);
            s.left == r.right - width && s.right == r.right && s.top == r.top && s.bottom
                == r.bottom
        },
        strip_fits(r, false, width) ==> {
            let s = strip(r, false, width);
            s.left == r.left && s.right == r.left + width && s.top == r.top && s.bottom == r.bottom
        },
{
}

/// A rectangle has sides wherever its width and its height fit into thirty-two bits.
pub proof fn sides_are_differences(r: Rect)
    ensures
        r.wide() == r.right - r.left,
        r.high() == r.bottom - r.top,
        sides_fit(r) <==> -0x8000_0000 <= r.right - r.left <= 0x7FFF_FFFF && -0x8000_0000
            <= r.bottom - r.top <= 0x7FFF_FFFF,
{
}

/// The end of a strip is as wide as the strip. It begins at the upper side, or it stops at the
/// lower one; it is no higher than wanted and no higher than the strip, and as high as one of
/// them. There is such an end wherever the strip has sides and the end's inner side fits into
/// thirty-two bits.
pub proof fn end_is_as_high_as_it_can_be(strip: Rect, height: i32, top: bool)
    ensures
        ({
            let all = strip.bottom - strip.top;
            let least = if height <= all {
                height as int
            } else {
                all
            };
            &&& end_fits(strip, height, top) <==> {
                &&& -0x8000_0000 <= strip.right - strip.left <= 0x7FFF_FFFF
                &&& -0x8000_0000 <= all <= 0x7FFF_FFFF
                &&& top ==> -0x8000_0000 <= strip.top + least <= 0x7FFF_FFFF
                &&& !top ==> -0x8000_0000 <= strip.bottom - least <= 0x7FFF_FFFF
            }
            &&& end_fits(strip, height, top) ==> {
                let e = end_of(strip, height, top);
                &&& e.left == strip.left && e.right == strip.right
                &&& top ==> e.top == strip.top
                &&& !top ==> e.bottom == strip.bottom
                &&& e.bottom - e.top == least
            }
        }),
{
}

} // verus!
