//! Colours of the control surface, as 8-bit RGB. Turning them into the
//! toolkit's own style values is the host's part.

use vstd::prelude::*;

verus! {

/// An opaque colour.
#[derive(Clone, Copy, Debug, PartialEq, Eq, Structural)]
pub struct Rgb {
    pub r: u8,
    pub g: u8,
    pub b: u8,
}

/// What a container's style sets.
#[derive(Clone, Copy, Debug, PartialEq, Eq, Structural)]
pub struct ContainerStyle {
    pub background: Rgb,
    pub text_color: Rgb,
}

/// What a button's style sets. The border width is in pixels.
#[derive(Clone, Copy, Debug, PartialEq, Eq, Structural)]
pub struct ButtonStyle {
    pub background: Rgb,
    pub text_color: Rgb,
    pub border_width: u16,
    pub border_color: Rgb,
}

/// The near-black of backgrounds.
pub open spec fn black() -> Rgb {
    Rgb { r: 0x11, g: 0x11, b: 0x11 }
}

/// The off-white of text and borders.
pub open spec fn white() -> Rgb {
    Rgb { r: 0xfa, g: 0xfa, b: 0xfa }
}

/// The blue of a button under the pointer.
pub open spec fn hover_blue() -> Rgb {
    Rgb { r: 0x67, g: 0x7b, b: 0xc4 }
}

/// A button at rest: off-white on near-black, with a one-pixel border.
pub open spec fn button_at_rest() -> ButtonStyle {
    ButtonStyle { background: black(), text_color: white(), border_width: 1, border_color: white() }
}

/// A button under the pointer: as at rest, but pure white on blue.
pub open spec fn button_under_pointer() -> ButtonStyle {
    ButtonStyle {
        background: hover_blue(),
        text_color: Rgb { r: 0xff, g: 0xff, b: 0xff },
        ..button_at_rest()
    }
}

/// Style of the window's content.
pub struct Container;

impl Container {
    pub fn style(&self) -> (s: ContainerStyle)
        ensures
            s == (ContainerStyle { background: black(), text_color: white() }),
    {
        ContainerStyle {
            background: Rgb { r: 0x11, g: 0x11, b: 0x11 },
            text_color: Rgb { r: 0xfa, g: 0xfa, b: 0xfa },
        }
    }
}

/// Style of the key caps.
pub struct Button;

impl Button {
    pub fn active(&self) -> (s: ButtonStyle)
        ensures
            s == button_at_rest(),
    {
        let white = Rgb { r: 0xfa, g: 0xfa, b: 0xfa };
        ButtonStyle {
            background: Rgb { r: 0x11, g: 0x11, b: 0x11 },
            text_color: white,
            border_width: 1,
            border_color: white,
        }
    }

    pub fn hovered(&self) -> (s: ButtonStyle)
        ensures
            s == button_under_pointer(),
    {
        ButtonStyle {
            background: Rgb { r: 0x67, g: 0x7b, b: 0xc4 },
            text_color: Rgb { r: 0xff, g: 0xff, b: 0xff },
            ..self.active()
        }
    }

    /// A pressed button looks like one under the pointer.
    pub fn pressed(&self) -> (s: ButtonStyle)
        ensures
            s == button_under_pointer(),
    {
        self.hovered()
    }
}

} // verus!
