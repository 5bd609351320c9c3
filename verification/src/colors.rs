//! Colors and the element-to-color table.
//!
//! Channels are kept in exact thousandths of full intensity, so the spoke
//! shading arithmetic and the palette are integer-valued; a front end divides
//! by 1000 when it hands colors to the renderer.

use vstd::prelude::*;

verus! {

/// Mathematical model of a color: channel intensities in thousandths.
pub ghost struct GColor {
    pub r: int,
    pub g: int,
    pub b: int,
    pub a: int,
}

/// An RGBA color with channels in exact thousandths of full intensity.
#[derive(Clone, Copy, Debug, PartialEq, Eq, Structural)]
pub struct Color {
    pub r: i32,
    pub g: i32,
    pub b: i32,
    pub a: i32,
}

impl View for Color {
    type V = GColor;

    open spec fn view(&self) -> GColor {
        GColor { r: self.r as int, g: self.g as int, b: self.b as int, a: self.a as int }
    }
}

impl Color {
    /// Builds a color from channel intensities in thousandths.
    pub fn new(r: i32, g: i32, b: i32, a: i32) -> (c: Color)
        ensures
            c@ == (GColor { r: r as int, g: g as int, b: b as int, a: a as int }),
    {
        Color { r, g, b, a }
    }
}

pub open spec fn spec_white() -> GColor {
    GColor { r: 1000, g: 1000, b: 1000, a: 1000 }
}

pub open spec fn spec_green() -> GColor {
    GColor { r: 0, g: 1000, b: 0, a: 1000 }
}

pub open spec fn spec_dark_grey() -> GColor {
    GColor { r: 250, g: 250, b: 250, a: 1000 }
}

/// Opaque white; the stroke color of every grid line segment.
pub fn white() -> (c: Color)
    ensures
        c@ == spec_white(),
{
    Color { r: 1000, g: 1000, b: 1000, a: 1000 }
}

/// Opaque green; the starting shade handed to the spoke drawing.
pub fn green() -> (c: Color)
    ensures
        c@ == spec_green(),
{
    Color { r: 0, g: 1000, b: 0, a: 1000 }
}

/// Opaque dark grey; the border color of obstacle cells.
pub fn dark_grey() -> (c: Color)
    ensures
        c@ == spec_dark_grey(),
{
    Color { r: 250, g: 250, b: 250, a: 1000 }
}

/// The elemental affinity of a game entity.
///
/// `Unset` is the sentinel of an entity whose element was never assigned;
/// it has no display color.
#[derive(Clone, Copy, Debug, PartialEq, Eq, Structural)]
pub enum Element {
    Unset,
    Fire,
    Ice,
    Wind,
    Water,
    Electric,
    Earth,
    Light,
    Dark,
}

/// An element without a display color was asked for one.
#[derive(Clone, Copy, Debug, PartialEq, Eq, Structural)]
pub enum ColorError {
    UnknownElement,
}

/// The display color of each element that has one. `Unset` has none; this
/// table is only consulted under `elem != Element::Unset`.
pub open spec fn spec_element_color(elem: Element) -> GColor {
    match elem {
        Element::Unset => GColor { r: 0, g: 0, b: 0, a: 0 },
        Element::Fire => GColor { r: 1000, g: 0, b: 0, a: 1000 },
        Element::Ice => GColor { r: 0, g: 1000, b: 1000, a: 1000 },
        Element::Wind => GColor { r: 0, g: 1000, b: 0, a: 1000 },
        Element::Water => GColor { r: 0, g: 0, b: 1000, a: 1000 },
        Element::Electric => GColor { r: 1000, g: 1000, b: 0, a: 1000 },
        Element::Earth => GColor { r: 547, g: 273, b: 78, a: 1000 },
        Element::Light => GColor { r: 1000, g: 1000, b: 941, a: 1000 },
        Element::Dark => GColor { r: 180, g: 168, b: 371, a: 1000 },
    }
}

/// Looks up the display color of an element.
///
/// Every element except the `Unset` sentinel maps to exactly one color;
/// `Unset` is reported as an error rather than aborting the render path.
pub fn from_element(elem: Element) -> (r: Result<Color, ColorError>)
    ensures
        r is Ok <==> elem != Element::Unset,
        r is Ok ==> r->Ok_0@ == spec_element_color(elem),
        r is Err ==> r->Err_0 == ColorError::UnknownElement,
{
    match elem {
        Element::Unset => Err(ColorError::UnknownElement),
        Element::Fire => Ok(Color { r: 1000, g: 0, b: 0, a: 1000 }),
        Element::Ice => Ok(Color { r: 0, g: 1000, b: 1000, a: 1000 }),
        Element::Wind => Ok(Color { r: 0, g: 1000, b: 0, a: 1000 }),
        Element::Water => Ok(Color { r: 0, g: 0, b: 1000, a: 1000 }),
        Element::Electric => Ok(Color { r: 1000, g: 1000, b: 0, a: 1000 }),
        Element::Earth => Ok(Color { r: 547, g: 273, b: 78, a: 1000 }),
        Element::Light => Ok(Color { r: 1000, g: 1000, b: 941, a: 1000 }),
        Element::Dark => Ok(Color { r: 180, g: 168, b: 371, a: 1000 }),
    }
}

} // verus!
