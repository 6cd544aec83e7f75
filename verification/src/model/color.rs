//! Colours, by name or by their four channels.

use vstd::prelude::*;

use crate::reader::error::{Error, ErrorView};
use crate::reader::reader::{string_of, values_of, Reader, ReaderView};
use crate::reader::{read_required, required, ReadUiconf};
use crate::text::{eq_ignore_case, same_ignoring_case};

verus! {

/// A colour by its red, green, blue and alpha channels.
#[derive(Debug, Clone, Copy, PartialEq, Eq, Structural)]
pub struct Color {
    pub r: u8,
    pub g: u8,
    pub b: u8,
    pub a: u8,
}

impl DeepView for Color {
    type V = Color;

    open spec fn deep_view(&self) -> Color {
        *self
    }
}

/// The colours that can be written by name.
#[derive(Debug, Clone, Copy, PartialEq, Eq, Structural)]
pub enum ColorName {
    Transparent,
    Black,
    DarkGray,
    Gray,
    LightGray,
    White,
    Brown,
    DarkRed,
    Red,
    LightRed,
    Yellow,
    LightYellow,
    Khaki,
    DarkGreen,
    Green,
    LightGreen,
    DarkBlue,
    Blue,
    LightBlue,
    Gold,
    DebugColor,
    TemporaryColor,
}

impl DeepView for ColorName {
    type V = ColorName;

    open spec fn deep_view(&self) -> ColorName {
        *self
    }
}

impl ColorName {
    /// The names of the variants, in the order of their declaration.
    pub open spec fn names() -> Seq<Seq<char>> {
        seq![
            "transparent"@,
            "black"@,
            "dark_gray"@,
            "gray"@,
            "light_gray"@,
            "white"@,
            "brown"@,
            "dark_red"@,
            "red"@,
            "light_red"@,
            "yellow"@,
            "light_yellow"@,
            "khaki"@,
            "dark_green"@,
            "green"@,
            "light_green"@,
            "dark_blue"@,
            "blue"@,
            "light_blue"@,
            "gold"@,
            "debug_color"@,
            "temporary_color"@,
        ]
    }

    /// The variant that `name` names, whatever the case of its letters.
    pub open spec fn named(name: Seq<char>) -> Option<ColorName> {
        if same_ignoring_case(name, "transparent"@) {
            Some(ColorName::Transparent)
        } else if same_ignoring_case(name, "black"@) {
            Some(ColorName::Black)
        } else if same_ignoring_case(name, "dark_gray"@) {
            Some(ColorName::DarkGray)
        } else if same_ignoring_case(name, "gray"@) {
            Some(ColorName::Gray)
        } else if same_ignoring_case(name, "light_gray"@) {
            Some(ColorName::LightGray)
        } else if same_ignoring_case(name, "white"@) {
            Some(ColorName::White)
        } else if same_ignoring_case(name, "brown"@) {
            Some(ColorName::Brown)
        } else if same_ignoring_case(name, "dark_red"@) {
            Some(ColorName::DarkRed)
        } else if same_ignoring_case(name, "red"@) {
            Some(ColorName::Red)
        } else if same_ignoring_case(name, "light_red"@) {
            Some(ColorName::LightRed)
        } else if same_ignoring_case(name, "yellow"@) {
            Some(ColorName::Yellow)
        } else if same_ignoring_case(name, "light_yellow"@) {
            Some(ColorName::LightYellow)
        } else if same_ignoring_case(name, "khaki"@) {
            Some(ColorName::Khaki)
        } else if same_ignoring_case(name, "dark_green"@) {
            Some(ColorName::DarkGreen)
        } else if same_ignoring_case(name, "green"@) {
            Some(ColorName::Green)
        } else if same_ignoring_case(name, "light_green"@) {
            Some(ColorName::LightGreen)
        } else if same_ignoring_case(name, "dark_blue"@) {
            Some(ColorName::DarkBlue)
        } else if same_ignoring_case(name, "blue"@) {
            Some(ColorName::Blue)
        } else if same_ignoring_case(name, "light_blue"@) {
            Some(ColorName::LightBlue)
        } else if same_ignoring_case(name, "gold"@) {
            Some(ColorName::Gold)
        } else if same_ignoring_case(name, "debug_color"@) {
            Some(ColorName::DebugColor)
        } else if same_ignoring_case(name, "temporary_color"@) {
            Some(ColorName::TemporaryColor)
        } else {
            None
        }
    }

    /// The names of the variants, in the order of their declaration.
    pub fn variants() -> (r: Vec<&'static str>)
        ensures
            r.deep_view() == Self::names(),
    {
        let r = vec![
            "transparent",
            "black",
            "dark_gray",
            "gray",
            "light_gray",
            "white",
            "brown",
            "dark_red",
            "red",
            "light_red",
            "yellow",
            "light_yellow",
            "khaki",
            "dark_green",
            "green",
            "light_green",
            "dark_blue",
            "blue",
            "light_blue",
            "gold",
            "debug_color",
            "temporary_color",
        ];
        assert(r.deep_view() =~= Self::names());
        r
    }

    /// The variant that `name` names, whatever the case of its letters.
    pub fn from_name(name: &str) -> (r: Option<ColorName>)
        ensures
            r == Self::named(name@),
    {
        if eq_ignore_case(name, "transparent") {
            Some(ColorName::Transparent)
        } else if eq_ignore_case(name, "black") {
            Some(ColorName::Black)
        } else if eq_ignore_case(name, "dark_gray") {
            Some(ColorName::DarkGray)
        } else if eq_ignore_case(name, "gray") {
            Some(ColorName::Gray)
        } else if eq_ignore_case(name, "light_gray") {
            Some(ColorName::LightGray)
        } else if eq_ignore_case(name, "white") {
            Some(ColorName::White)
        } else if eq_ignore_case(name, "brown") {
            Some(ColorName::Brown)
        } else if eq_ignore_case(name, "dark_red") {
            Some(ColorName::DarkRed)
        } else if eq_ignore_case(name, "red") {
            Some(ColorName::Red)
        } else if eq_ignore_case(name, "light_red") {
            Some(ColorName::LightRed)
        } else if eq_ignore_case(name, "yellow") {
            Some(ColorName::Yellow)
        } else if eq_ignore_case(name, "light_yellow") {
            Some(ColorName::LightYellow)
        } else if eq_ignore_case(name, "khaki") {
            Some(ColorName::Khaki)
        } else if eq_ignore_case(name, "dark_green") {
            Some(ColorName::DarkGreen)
        } else if eq_ignore_case(name, "green") {
            Some(ColorName::Green)
        } else if eq_ignore_case(name, "light_green") {
            Some(ColorName::LightGreen)
        } else if eq_ignore_case(name, "dark_blue") {
            Some(ColorName::DarkBlue)
        } else if eq_ignore_case(name, "blue") {
            Some(ColorName::Blue)
        } else if eq_ignore_case(name, "light_blue") {
            Some(ColorName::LightBlue)
        } else if eq_ignore_case(name, "gold") {
            Some(ColorName::Gold)
        } else if eq_ignore_case(name, "debug_color") {
            Some(ColorName::DebugColor)
        } else if eq_ignore_case(name, "temporary_color") {
            Some(ColorName::TemporaryColor)
        } else {
            None
        }
    }
}

impl ReadUiconf for ColorName {
    open spec fn decoded(value: ReaderView) -> Result<ColorName, ErrorView> {
        match string_of(value) {
            Ok(name) => match ColorName::named(name) {
                Some(variant) => Ok(variant),
                None => Err(ErrorView::unknown_variant(value.path, name, ColorName::names())),
            },
            Err(error) => Err(error),
        }
    }

    fn read_uiconf(value: &Reader) -> (r: Result<Self, Error>) {
        let name = value.read_string()?;
        match ColorName::from_name(name.as_str()) {
            Some(variant) => Ok(variant),
            None => Err(Error::unknown_variant(value, name.as_str(), &ColorName::variants())),
        }
    }
}

impl ColorName {
    /// The channels of the named colour.
    pub open spec fn color(self) -> Color {
        match self {
            ColorName::Transparent => Color { r: 0, g: 0, b: 0, a: 0 },
            ColorName::Black => Color { r: 0, g: 0, b: 0, a: 255 },
            ColorName::DarkGray => Color { r: 96, g: 96, b: 96, a: 255 },
            ColorName::Gray => Color { r: 160, g: 160, b: 160, a: 255 },
            ColorName::LightGray => Color { r: 220, g: 220, b: 220, a: 255 },
            ColorName::White => Color { r: 255, g: 255, b: 255, a: 255 },
            ColorName::Brown => Color { r: 165, g: 42, b: 42, a: 255 },
            ColorName::DarkRed => Color { r: 139, g: 0, b: 0, a: 255 },
            ColorName::Red => Color { r: 255, g: 0, b: 0, a: 255 },
            ColorName::LightRed => Color { r: 255, g: 128, b: 128, a: 255 },
            ColorName::Yellow => Color { r: 255, g: 255, b: 0, a: 255 },
            ColorName::LightYellow => Color { r: 255, g: 255, b: 224, a: 255 },
            ColorName::Khaki => Color { r: 240, g: 230, b: 140, a: 255 },
            ColorName::DarkGreen => Color { r: 0, g: 100, b: 0, a: 255 },
            ColorName::Green => Color { r: 0, g: 255, b: 0, a: 255 },
            ColorName::LightGreen => Color { r: 144, g: 238, b: 144, a: 255 },
            ColorName::DarkBlue => Color { r: 0, g: 0, b: 139, a: 255 },
            ColorName::Blue => Color { r: 0, g: 0, b: 255, a: 255 },
            ColorName::LightBlue => Color { r: 173, g: 216, b: 230, a: 255 },
            ColorName::Gold => Color { r: 255, g: 215, b: 0, a: 255 },
            ColorName::DebugColor => Color { r: 0, g: 200, b: 0, a: 128 },
            ColorName::TemporaryColor => Color { r: 64, g: 254, b: 0, a: 255 },
        }
    }

    /// The channels of the named colour.
    pub fn to_color(self) -> (r: Color)
        ensures
            r == self.color(),
    {
        match self {
            ColorName::Transparent => Color { r: 0, g: 0, b: 0, a: 0 },
            ColorName::Black => Color { r: 0, g: 0, b: 0, a: 255 },
            ColorName::DarkGray => Color { r: 96, g: 96, b: 96, a: 255 },
            ColorName::Gray => Color { r: 160, g: 160, b: 160, a: 255 },
            ColorName::LightGray => Color { r: 220, g: 220, b: 220, a: 255 },
            ColorName::White => Color { r: 255, g: 255, b: 255, a: 255 },
            ColorName::Brown => Color { r: 165, g: 42, b: 42, a: 255 },
            ColorName::DarkRed => Color { r: 139, g: 0, b: 0, a: 255 },
            ColorName::Red => Color { r: 255, g: 0, b: 0, a: 255 },
            ColorName::LightRed => Color { r: 255, g: 128, b: 128, a: 255 },
            ColorName::Yellow => Color { r: 255, g: 255, b: 0, a: 255 },
            ColorName::LightYellow => Color { r: 255, g: 255, b: 224, a: 255 },
            ColorName::Khaki => Color { r: 240, g: 230, b: 140, a: 255 },
            ColorName::DarkGreen => Color { r: 0, g: 100, b: 0, a: 255 },
            ColorName::Green => Color { r: 0, g: 255, b: 0, a: 255 },
            ColorName::LightGreen => Color { r: 144, g: 238, b: 144, a: 255 },
            ColorName::DarkBlue => Color { r: 0, g: 0, b: 139, a: 255 },
            ColorName::Blue => Color { r: 0, g: 0, b: 255, a: 255 },
            ColorName::LightBlue => Color { r: 173, g: 216, b: 230, a: 255 },
            ColorName::Gold => Color { r: 255, g: 215, b: 0, a: 255 },
            ColorName::DebugColor => Color { r: 0, g: 200, b: 0, a: 128 },
            ColorName::TemporaryColor => Color { r: 64, g: 254, b: 0, a: 255 },
        }
    }
}

/// The colour that an array of channels spells: red, green and blue, then
/// alpha, which is 255 where it is left out.
pub open spec fn channels_of(path: Seq<Seq<char>>, elements: Seq<ReaderView>) -> Result<
    Color,
    ErrorView,
> {
    match required::<u8>(path, elements, 0, "{ r g b a? }"@) {
        Err(error) => Err(error),
        Ok(r) => match required::<u8>(path, elements, 1, "{ r g b a? }"@) {
            Err(error) => Err(error),
            Ok(g) => match required::<u8>(path, elements, 2, "{ r g b a? }"@) {
                Err(error) => Err(error),
                Ok(b) => if elements.len() > 3 {
                    match u8::decoded(elements[3]) {
                        Err(error) => Err(error),
                        Ok(a) => if elements.len() > 4 {
                            Err(ErrorView::invalid_length(path, 5, "{ r g b a? }"@))
                        } else {
                            Ok(Color { r, g, b, a })
                        },
                    }
                } else {
                    Ok(Color { r, g, b, a: 255 })
                },
            },
        },
    }
}

impl ReadUiconf for Color {
    /// A scalar is the name of a colour; an array holds its channels.
    open spec fn decoded(value: ReaderView) -> Result<Color, ErrorView> {
        if value.node.is_scalar() {
            match ColorName::decoded(value) {
                Ok(name) => Ok(name.color()),
                Err(error) => Err(error),
            }
        } else {
            match values_of(value) {
                Ok(elements) => channels_of(value.path, elements),
                Err(error) => Err(error),
            }
        }
    }

    fn read_uiconf(value: &Reader) -> (r: Result<Self, Error>) {
        if value.is_scalar() {
            let name = ColorName::read_uiconf(value)?;
            return Ok(name.to_color());
        }
        let elements = value.read_array()?;
        let r = read_required::<u8>(value, &elements, 0, "{ r g b a? }")?;
        let g = read_required::<u8>(value, &elements, 1, "{ r g b a? }")?;
        let b = read_required::<u8>(value, &elements, 2, "{ r g b a? }")?;
        let a: u8 = if elements.len() > 3 {
            u8::read_uiconf(&elements[3])?
        } else {
            255
        };
        if elements.len() > 4 {
            return Err(Error::invalid_length(value, 5, "{ r g b a? }"));
        }
        Ok(Color { r, g, b, a })
    }
}

} // verus!
