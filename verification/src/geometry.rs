use vstd::prelude::*;

use embedded_graphics::prelude::{Point, Size};
use embedded_graphics::primitives::{Rectangle, Triangle};
use embedded_graphics::geometry::Dimensions;
use embedded_layout::align::{horizontal, vertical, Alignment};

verus! {

/// A pixel position on the screen; y grows downwards.
#[derive(Clone, Copy, Debug, PartialEq, Eq, Structural)]
pub struct Pos {
    pub x: i32,
    pub y: i32,
}

/// An axis-aligned rectangle: its top-left pixel and its size in pixels.
#[derive(Clone, Copy, Debug, PartialEq, Eq, Structural)]
pub struct Rect {
    pub x: i32,
    pub y: i32,
    pub width: u32,
    pub height: u32,
}

/// The largest coordinate or size that layout works with; the alignment
/// arithmetic stays inside `i32` for everything up to it.
pub const COORD_LIMIT: i32 = 0x2000_0000;

/// A coordinate within the layout range.
pub open spec fn coord_ok(c: int) -> bool {
    -COORD_LIMIT <= c <= COORD_LIMIT
}

impl Pos {
    pub open spec fn fits(self) -> bool {
        coord_ok(self.x as int) && coord_ok(self.y as int)
    }

    /// Whether the position lies within the layout range.
    pub fn fits_exec(&self) -> (b: bool)
        ensures
            b == self.fits(),
    {
        -COORD_LIMIT <= self.x && self.x <= COORD_LIMIT && -COORD_LIMIT <= self.y
            && self.y <= COORD_LIMIT
    }
}

impl Rect {
    /// Position and size lie within the layout range.
    pub open spec fn fits(self) -> bool {
        &&& coord_ok(self.x as int)
        &&& coord_ok(self.y as int)
        &&& self.width <= COORD_LIMIT
        &&& self.height <= COORD_LIMIT
    }

    /// Whether the rectangle lies within the layout range.
    pub fn fits_exec(&self) -> (b: bool)
        ensures
            b == self.fits(),
    {
        -COORD_LIMIT <= self.x && self.x <= COORD_LIMIT && -COORD_LIMIT <= self.y
            && self.y <= COORD_LIMIT && self.width <= COORD_LIMIT as u32
            && self.height <= COORD_LIMIT as u32
    }

    /// How far the last column lies from the first; a rectangle with no
    /// width counts as one pixel wide.
    pub open spec fn width_span(self) -> int {
        if self.width == 0 { 0 } else { self.width - 1 }
    }

    pub open spec fn height_span(self) -> int {
        if self.height == 0 { 0 } else { self.height - 1 }
    }

    /// The x coordinate of the centre column (rounded towards the left).
    pub open spec fn center_x(self) -> int {
        self.x + self.width_span() / 2
    }

    /// The y coordinate of the centre row (rounded upwards).
    pub open spec fn center_y(self) -> int {
        self.y + self.height_span() / 2
    }

    /// The x coordinate of the last column.
    pub open spec fn right_x(self) -> int {
        self.x + self.width_span()
    }

    /// The y coordinate of the last row.
    pub open spec fn bottom_y(self) -> int {
        self.y + self.height_span()
    }

    /// The rectangle moved by `(dx, dy)`.
    pub open spec fn moved(self, dx: int, dy: int) -> Rect {
        Rect { x: (self.x + dx) as i32, y: (self.y + dy) as i32, ..self }
    }
}

/// Horizontal alignment rules of the layout library.
#[derive(Clone, Copy, Debug, PartialEq, Eq, Structural)]
pub enum HAlign {
    /// Left edges together.
    Left,
    /// Centre columns together.
    Center,
    /// Right edges together.
    Right,
    /// The object just right of the reference, not overlapping.
    LeftToRight,
    /// The object just left of the reference, not overlapping.
    RightToLeft,
}

/// Vertical alignment rules of the layout library.
#[derive(Clone, Copy, Debug, PartialEq, Eq, Structural)]
pub enum VAlign {
    /// Top edges together.
    Top,
    /// Centre rows together.
    Center,
    /// Bottom edges together.
    Bottom,
    /// The object just above the reference, not overlapping.
    BottomToTop,
    /// The object just below the reference, not overlapping.
    TopToBottom,
}

/// How far an object moves sideways to be aligned to a reference.
pub open spec fn h_offset(object: Rect, reference: Rect, h: HAlign) -> int {
    match h {
        HAlign::Left => reference.x - object.x,
        HAlign::Center => reference.center_x() - object.center_x(),
        HAlign::Right => reference.right_x() - object.right_x(),
        HAlign::LeftToRight => reference.right_x() - object.x
            + if object.width == 0 { 0int } else { 1int },
        HAlign::RightToLeft => reference.x - object.right_x()
            - if object.width == 0 { 0int } else { 1int },
    }
}

/// How far an object moves up or down to be aligned to a reference.
pub open spec fn v_offset(object: Rect, reference: Rect, v: VAlign) -> int {
    match v {
        VAlign::Top => reference.y - object.y,
        VAlign::Center => reference.center_y() - object.center_y(),
        VAlign::Bottom => reference.bottom_y() - object.bottom_y(),
        VAlign::BottomToTop => reference.y - object.bottom_y()
            - if object.height == 0 { 0int } else { 1int },
        VAlign::TopToBottom => reference.bottom_y() - object.y
            + if object.height == 0 { 0int } else { 1int },
    }
}

/// An object aligned to a reference.
pub open spec fn aligned(object: Rect, reference: Rect, h: HAlign, v: VAlign) -> Rect {
    object.moved(h_offset(object, reference, h), v_offset(object, reference, v))
}

/// The rectangle spanned by two corner pixels, both corners included.
pub open spec fn spanned(a: Pos, b: Pos) -> Rect {
    Rect {
        x: if a.x <= b.x { a.x } else { b.x },
        y: if a.y <= b.y { a.y } else { b.y },
        width: (if a.x <= b.x { b.x - a.x } else { a.x - b.x } + 1) as u32,
        height: (if a.y <= b.y { b.y - a.y } else { a.y - b.y } + 1) as u32,
    }
}

pub open spec fn min3(a: i32, b: i32, c: i32) -> i32 {
    if a <= b && a <= c { a } else if b <= c { b } else { c }
}

pub open spec fn max3(a: i32, b: i32, c: i32) -> i32 {
    if a >= b && a >= c { a } else if b >= c { b } else { c }
}

/// The smallest rectangle that holds the three points.
pub open spec fn triangle_bounds_spec(a: Pos, b: Pos, c: Pos) -> Rect {
    spanned(
        Pos { x: min3(a.x, b.x, c.x), y: min3(a.y, b.y, c.y) },
        Pos { x: max3(a.x, b.x, c.x), y: max3(a.y, b.y, c.y) },
    )
}

/// `embedded_layout`'s `horizontal::Left` rule, `Alignment::align`: the
/// reference's left column minus the object's.
#[verifier::external_body]
fn align_left(object: Rect, reference: Rect) -> (d: i32)
    requires
        object.fits(),
        reference.fits(),
    ensures
        d == h_offset(object, reference, HAlign::Left),
{
    let o = Rectangle::new(Point::new(object.x, object.y), Size::new(object.width, object.height));
    let r = Rectangle::new(
        Point::new(reference.x, reference.y),
        Size::new(reference.width, reference.height),
    );
    horizontal::Left.align(o, r)
}

/// `embedded_layout`'s `horizontal::Center` rule, `Alignment::align`: the
/// difference of the centre columns, a rectangle's centre column being its
/// left column plus half (rounded down) of its width less one.
#[verifier::external_body]
fn align_center_x(object: Rect, reference: Rect) -> (d: i32)
    requires
        object.fits(),
        reference.fits(),
    ensures
        d == h_offset(object, reference, HAlign::Center),
{
    let o = Rectangle::new(Point::new(object.x, object.y), Size::new(object.width, object.height));
    let r = Rectangle::new(
        Point::new(reference.x, reference.y),
        Size::new(reference.width, reference.height),
    );
    horizontal::Center.align(o, r)
}

/// `embedded_layout`'s `horizontal::Right` rule, `Alignment::align`: the
/// difference of the last columns.
#[verifier::external_body]
fn align_right(object: Rect, reference: Rect) -> (d: i32)
    requires
        object.fits(),
        reference.fits(),
    ensures
        d == h_offset(object, reference, HAlign::Right),
{
    let o = Rectangle::new(Point::new(object.x, object.y), Size::new(object.width, object.height));
    let r = Rectangle::new(
        Point::new(reference.x, reference.y),
        Size::new(reference.width, reference.height),
    );
    horizontal::Right.align(o, r)
}

/// `embedded_layout`'s `horizontal::LeftToRight` rule, `Alignment::align`:
/// moves the object's left column to just after the reference's last column
/// (onto it when the object has no width).
#[verifier::external_body]
fn align_left_to_right(object: Rect, reference: Rect) -> (d: i32)
    requires
        object.fits(),
        reference.fits(),
    ensures
        d == h_offset(object, reference, HAlign::LeftToRight),
{
    let o = Rectangle::new(Point::new(object.x, object.y), Size::new(object.width, object.height));
    let r = Rectangle::new(
        Point::new(reference.x, reference.y),
        Size::new(reference.width, reference.height),
    );
    horizontal::LeftToRight.align(o, r)
}

/// `embedded_layout`'s `horizontal::RightToLeft` rule, `Alignment::align`:
/// moves the object's last column to just before the reference's left
/// column (onto it when the object has no width).
#[verifier::external_body]
fn align_right_to_left(object: Rect, reference: Rect) -> (d: i32)
    requires
        object.fits(),
        reference.fits(),
    ensures
        d == h_offset(object, reference, HAlign::RightToLeft),
{
    let o = Rectangle::new(Point::new(object.x, object.y), Size::new(object.width, object.height));
    let r = Rectangle::new(
        Point::new(reference.x, reference.y),
        Size::new(reference.width, reference.height),
    );
    horizontal::RightToLeft.align(o, r)
}

/// `embedded_layout`'s `vertical::Top` rule, `Alignment::align`: the
/// reference's top row minus the object's.
#[verifier::external_body]
fn align_top(object: Rect, reference: Rect) -> (d: i32)
    requires
        object.fits(),
        reference.fits(),
    ensures
        d == v_offset(object, reference, VAlign::Top),
{
    let o = Rectangle::new(Point::new(object.x, object.y), Size::new(object.width, object.height));
    let r = Rectangle::new(
        Point::new(reference.x, reference.y),
        Size::new(reference.width, reference.height),
    );
    vertical::Top.align(o, r)
}

/// `embedded_layout`'s `vertical::Center` rule, `Alignment::align`: the
/// difference of the centre rows (top row plus half, rounded down, of the
/// height less one).
#[verifier::external_body]
fn align_center_y(object: Rect, reference: Rect) -> (d: i32)
    requires
        object.fits(),
        reference.fits(),
    ensures
        d == v_offset(object, reference, VAlign::Center),
{
    let o = Rectangle::new(Point::new(object.x, object.y), Size::new(object.width, object.height));
    let r = Rectangle::new(
        Point::new(reference.x, reference.y),
        Size::new(reference.width, reference.height),
    );
    vertical::Center.align(o, r)
}

/// `embedded_layout`'s `vertical::Bottom` rule, `Alignment::align`: the
/// difference of the last rows.
#[verifier::external_body]
fn align_bottom(object: Rect, reference: Rect) -> (d: i32)
    requires
        object.fits(),
        reference.fits(),
    ensures
        d == v_offset(object, reference, VAlign::Bottom),
{
    let o = Rectangle::new(Point::new(object.x, object.y), Size::new(object.width, object.height));
    let r = Rectangle::new(
        Point::new(reference.x, reference.y),
        Size::new(reference.width, reference.height),
    );
    vertical::Bottom.align(o, r)
}

/// `embedded_layout`'s `vertical::BottomToTop` rule, `Alignment::align`:
/// moves the object's last row to just above the reference's top row (onto
/// it when the object has no height).
#[verifier::external_body]
fn align_bottom_to_top(object: Rect, reference: Rect) -> (d: i32)
    requires
        object.fits(),
        reference.fits(),
    ensures
        d == v_offset(object, reference, VAlign::BottomToTop),
{
    let o = Rectangle::new(Point::new(object.x, object.y), Size::new(object.width, object.height));
    let r = Rectangle::new(
        Point::new(reference.x, reference.y),
        Size::new(reference.width, reference.height),
    );
    vertical::BottomToTop.align(o, r)
}

/// `embedded_layout`'s `vertical::TopToBottom` rule, `Alignment::align`:
/// moves the object's top row to just below the reference's last row (onto
/// it when the object has no height).
#[verifier::external_body]
fn align_top_to_bottom(object: Rect, reference: Rect) -> (d: i32)
    requires
        object.fits(),
        reference.fits(),
    ensures
        d == v_offset(object, reference, VAlign::TopToBottom),
{
    let o = Rectangle::new(Point::new(object.x, object.y), Size::new(object.width, object.height));
    let r = Rectangle::new(
        Point::new(reference.x, reference.y),
        Size::new(reference.width, reference.height),
    );
    vertical::TopToBottom.align(o, r)
}

/// `embedded_graphics`' `Rectangle::center`: the top-left pixel moved by half
/// (rounded down) of the width less one and of the height less one, an empty
/// side counting as one pixel.
#[verifier::external_body]
pub(crate) fn rectangle_center(r: Rect) -> (c: Pos)
    requires
        r.fits(),
    ensures
        c == (Pos { x: r.center_x() as i32, y: r.center_y() as i32 }),
{
    let c = Rectangle::new(Point::new(r.x, r.y), Size::new(r.width, r.height)).center();
    Pos { x: c.x, y: c.y }
}

/// `embedded_graphics`' `Rectangle::with_corners`: the rectangle from the
/// smaller to the larger coordinate of the two corners, both included.
#[verifier::external_body]
pub(crate) fn rectangle_with_corners(a: Pos, b: Pos) -> (r: Rect)
    requires
        a.fits(),
        b.fits(),
    ensures
        r == spanned(a, b),
{
    let r = Rectangle::with_corners(Point::new(a.x, a.y), Point::new(b.x, b.y));
    Rect { x: r.top_left.x, y: r.top_left.y, width: r.size.width, height: r.size.height }
}

/// `embedded_graphics`' bounding box of a `Triangle` (`Dimensions::bounding_box`):
/// the rectangle spanned by the smallest and the largest coordinates of the
/// three vertices.
#[verifier::external_body]
pub(crate) fn triangle_bounding_box(a: Pos, b: Pos, c: Pos) -> (r: Rect)
    requires
        a.fits(),
        b.fits(),
        c.fits(),
    ensures
        r == triangle_bounds_spec(a, b, c),
{
    let t = Triangle::new(Point::new(a.x, a.y), Point::new(b.x, b.y), Point::new(c.x, c.y));
    let r = t.bounding_box();
    Rect { x: r.top_left.x, y: r.top_left.y, width: r.size.width, height: r.size.height }
}

/// The sideways move that aligns `object` to `reference`.
fn horizontal_offset(object: Rect, reference: Rect, h: HAlign) -> (d: i32)
    requires
        object.fits(),
        reference.fits(),
    ensures
        d == h_offset(object, reference, h),
{
    match h {
        HAlign::Left => align_left(object, reference),
        HAlign::Center => align_center_x(object, reference),
        HAlign::Right => align_right(object, reference),
        HAlign::LeftToRight => align_left_to_right(object, reference),
        HAlign::RightToLeft => align_right_to_left(object, reference),
    }
}

/// The vertical move that aligns `object` to `reference`.
fn vertical_offset(object: Rect, reference: Rect, v: VAlign) -> (d: i32)
    requires
        object.fits(),
        reference.fits(),
    ensures
        d == v_offset(object, reference, v),
{
    match v {
        VAlign::Top => align_top(object, reference),
        VAlign::Center => align_center_y(object, reference),
        VAlign::Bottom => align_bottom(object, reference),
        VAlign::BottomToTop => align_bottom_to_top(object, reference),
        VAlign::TopToBottom => align_top_to_bottom(object, reference),
    }
}

/// `object` aligned to `reference`, as `embedded_layout`'s `align_to` places
/// a rectangle: moved by the horizontal and the vertical offsets of the two
/// rules.
pub fn align(object: Rect, reference: Rect, h: HAlign, v: VAlign) -> (r: Rect)
    requires
        object.fits(),
        reference.fits(),
    ensures
        r == aligned(object, reference, h, v),
{
    let dx: i32 = horizontal_offset(object, reference, h);
    let dy: i32 = vertical_offset(object, reference, v);
    Rect { x: object.x + dx, y: object.y + dy, ..object }
}

/// `r` moved by `(dx, dy)`.
pub fn translate(r: Rect, dx: i32, dy: i32) -> (t: Rect)
    requires
        coord_ok(r.x + dx),
        coord_ok(r.y + dy),
    ensures
        t == r.moved(dx as int, dy as int),
{
    Rect { x: r.x + dx, y: r.y + dy, ..r }
}

} // verus!
