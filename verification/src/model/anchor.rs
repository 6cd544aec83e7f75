//! Where a window is anchored: an alignment on each axis and an offset.

use vstd::prelude::*;
use vstd::string::StringExecFns;

use crate::reader::error::{Error, ErrorView};
use crate::reader::reader::{string_of, values_of, Reader, ReaderView};
use crate::reader::{read_required, required, Number, ReadUiconf};
use crate::text::{eq_ignore_case, same_ignoring_case};

verus! {

/// A place along one axis: at its start, its middle or its end.
#[derive(Debug, Clone, Copy, PartialEq, Eq, Structural)]
pub enum Align {
    Min,
    Center,
    Max,
}

impl DeepView for Align {
    type V = Align;

    open spec fn deep_view(&self) -> Align {
        *self
    }
}

impl Align {
    /// The names of the variants, in the order of their declaration.
    pub open spec fn names() -> Seq<Seq<char>> {
        seq![
            "min"@,
            "center"@,
            "max"@,
        ]
    }

    /// The variant that `name` names, whatever the case of its letters.
    pub open spec fn named(name: Seq<char>) -> Option<Align> {
        if same_ignoring_case(name, "min"@) {
            Some(Align::Min)
        } else if same_ignoring_case(name, "center"@) {
            Some(Align::Center)
        } else if same_ignoring_case(name, "max"@) {
            Some(Align::Max)
        } else {
            None
        }
    }

    /// The names of the variants, in the order of their declaration.
    pub fn variants() -> (r: Vec<&'static str>)
        ensures
            r.deep_view() == Self::names(),
    {
        let r = vec![
            "min",
            "center",
            "max",
        ];
        assert(r.deep_view() =~= Self::names());
        r
    }

    /// The variant that `name` names, whatever the case of its letters.
    pub fn from_name(name: &str) -> (r: Option<Align>)
        ensures
            r == Self::named(name@),
    {
        if eq_ignore_case(name, "min") {
            Some(Align::Min)
        } else if eq_ignore_case(name, "center") {
            Some(Align::Center)
        } else if eq_ignore_case(name, "max") {
            Some(Align::Max)
        } else {
            None
        }
    }
}

impl ReadUiconf for Align {
    open spec fn decoded(value: ReaderView) -> Result<Align, ErrorView> {
        match string_of(value) {
            Ok(name) => match Align::named(name) {
                Some(variant) => Ok(variant),
                None => Err(ErrorView::unknown_variant(value.path, name, Align::names())),
            },
            Err(error) => Err(error),
        }
    }

    fn read_uiconf(value: &Reader) -> (r: Result<Self, Error>) {
        let name = value.read_string()?;
        match Align::from_name(name.as_str()) {
            Some(variant) => Ok(variant),
            None => Err(Error::unknown_variant(value, name.as_str(), &Align::variants())),
        }
    }
}

/// A place on both axes.
#[derive(Debug, Clone, Copy, PartialEq, Eq, Structural)]
pub struct Align2 {
    pub x: Align,
    pub y: Align,
}

/// Two numbers, one for each axis.
#[derive(Debug, Clone, Copy, PartialEq, Eq, Structural)]
pub struct Vec2 {
    pub x: Number,
    pub y: Number,
}

impl Vec2 {
    /// Zero on both axes.
    pub open spec fn zero() -> Vec2 {
        Vec2 { x: Number::zero(), y: Number::zero() }
    }
}

/// A side or the centre, as an anchor names it.
#[derive(Debug, Clone, Copy, PartialEq, Eq, Structural)]
pub enum Alignment {
    Center,
    Left,
    Right,
    Top,
    Bottom,
}

impl DeepView for Alignment {
    type V = Alignment;

    open spec fn deep_view(&self) -> Alignment {
        *self
    }
}

impl Alignment {
    /// The names of the variants, in the order of their declaration.
    pub open spec fn names() -> Seq<Seq<char>> {
        seq![
            "center"@,
            "left"@,
            "right"@,
            "top"@,
            "bottom"@,
        ]
    }

    /// The variant that `name` names, whatever the case of its letters.
    pub open spec fn named(name: Seq<char>) -> Option<Alignment> {
        if same_ignoring_case(name, "center"@) {
            Some(Alignment::Center)
        } else if same_ignoring_case(name, "left"@) {
            Some(Alignment::Left)
        } else if same_ignoring_case(name, "right"@) {
            Some(Alignment::Right)
        } else if same_ignoring_case(name, "top"@) {
            Some(Alignment::Top)
        } else if same_ignoring_case(name, "bottom"@) {
            Some(Alignment::Bottom)
        } else {
            None
        }
    }

    /// The name of the variant.
    pub open spec fn name(self) -> Seq<char> {
        match self {
            Alignment::Center => "center"@,
            Alignment::Left => "left"@,
            Alignment::Right => "right"@,
            Alignment::Top => "top"@,
            Alignment::Bottom => "bottom"@,
        }
    }

    /// The name of the variant.
    pub fn to_str(self) -> (r: &'static str)
        ensures
            r@ == self.name(),
    {
        match self {
            Alignment::Center => "center",
            Alignment::Left => "left",
            Alignment::Right => "right",
            Alignment::Top => "top",
            Alignment::Bottom => "bottom",
        }
    }

    /// The names of the variants, in the order of their declaration.
    pub fn variants() -> (r: Vec<&'static str>)
        ensures
            r.deep_view() == Self::names(),
    {
        let r = vec![
            "center",
            "left",
            "right",
            "top",
            "bottom",
        ];
        assert(r.deep_view() =~= Self::names());
        r
    }

    /// The variant that `name` names, whatever the case of its letters.
    pub fn from_name(name: &str) -> (r: Option<Alignment>)
        ensures
            r == Self::named(name@),
    {
        if eq_ignore_case(name, "center") {
            Some(Alignment::Center)
        } else if eq_ignore_case(name, "left") {
            Some(Alignment::Left)
        } else if eq_ignore_case(name, "right") {
            Some(Alignment::Right)
        } else if eq_ignore_case(name, "top") {
            Some(Alignment::Top)
        } else if eq_ignore_case(name, "bottom") {
            Some(Alignment::Bottom)
        } else {
            None
        }
    }
}

impl ReadUiconf for Alignment {
    open spec fn decoded(value: ReaderView) -> Result<Alignment, ErrorView> {
        match string_of(value) {
            Ok(name) => match Alignment::named(name) {
                Some(variant) => Ok(variant),
                None => Err(ErrorView::unknown_variant(value.path, name, Alignment::names())),
            },
            Err(error) => Err(error),
        }
    }

    fn read_uiconf(value: &Reader) -> (r: Result<Self, Error>) {
        let name = value.read_string()?;
        match Alignment::from_name(name.as_str()) {
            Some(variant) => Ok(variant),
            None => Err(Error::unknown_variant(value, name.as_str(), &Alignment::variants())),
        }
    }
}

impl Alignment {
    /// Whether the alignment can stand for the horizontal axis.
    pub open spec fn horizontal(self) -> bool {
        self is Center || self is Left || self is Right
    }

    /// Whether the alignment can stand for the vertical axis.
    pub open spec fn vertical(self) -> bool {
        self is Center || self is Top || self is Bottom
    }

    /// The place along its axis that the alignment names.
    pub open spec fn place(self) -> Align {
        match self {
            Alignment::Left => Align::Min,
            Alignment::Top => Align::Min,
            Alignment::Center => Align::Center,
            Alignment::Right => Align::Max,
            Alignment::Bottom => Align::Max,
        }
    }

    /// Whether the alignment can stand for the horizontal axis.
    pub fn can_be_horizontal(self) -> (r: bool)
        ensures
            r == self.horizontal(),
    {
        match self {
            Alignment::Center => true,
            Alignment::Left => true,
            Alignment::Right => true,
            _ => false,
        }
    }

    /// Whether the alignment can stand for the vertical axis.
    pub fn can_be_vertical(self) -> (r: bool)
        ensures
            r == self.vertical(),
    {
        match self {
            Alignment::Center => true,
            Alignment::Top => true,
            Alignment::Bottom => true,
            _ => false,
        }
    }

    /// The place along its axis that the alignment names.
    pub fn to_align(self) -> (r: Align)
        ensures
            r == self.place(),
    {
        match self {
            Alignment::Left => Align::Min,
            Alignment::Top => Align::Min,
            Alignment::Center => Align::Center,
            Alignment::Right => Align::Max,
            Alignment::Bottom => Align::Max,
        }
    }
}

/// The place on both axes that two alignments name together. One of them
/// must be horizontal and the other vertical, in either order.
pub open spec fn paired(first: Alignment, second: Alignment) -> Option<Align2> {
    if first.horizontal() && second.vertical() {
        Some(Align2 { x: first.place(), y: second.place() })
    } else if first.vertical() && second.horizontal() {
        Some(Align2 { x: second.place(), y: first.place() })
    } else {
        None
    }
}

/// The message for two alignments that do not name a place.
pub open spec fn invalid_alignment(first: Alignment, second: Alignment) -> Seq<char> {
    "invalid alignment: `"@ + first.name() + " "@ + second.name() + "`"@
}

/// The place on both axes that two alignments name together.
pub fn pair(first: Alignment, second: Alignment) -> (r: Option<Align2>)
    ensures
        r == paired(first, second),
{
    if first.can_be_horizontal() && second.can_be_vertical() {
        Some(Align2 { x: first.to_align(), y: second.to_align() })
    } else if first.can_be_vertical() && second.can_be_horizontal() {
        Some(Align2 { x: second.to_align(), y: first.to_align() })
    } else {
        None
    }
}

/// Where a window is anchored on the screen, and how far from that place.
#[derive(Debug, Clone, Copy, PartialEq, Eq, Structural)]
pub struct Anchor {
    pub align: Align2,
    pub offset: Vec2,
}

impl DeepView for Anchor {
    type V = Anchor;

    open spec fn deep_view(&self) -> Anchor {
        *self
    }
}

/// The anchor that an array spells: two alignments, and after them either
/// nothing or the two numbers of the offset.
pub open spec fn anchor_of(path: Seq<Seq<char>>, elements: Seq<ReaderView>) -> Result<
    Anchor,
    ErrorView,
> {
    match required::<Alignment>(path, elements, 0, "{ align valign x y }"@) {
        Err(error) => Err(error),
        Ok(first) => match required::<Alignment>(path, elements, 1, "{ align valign x y }"@) {
            Err(error) => Err(error),
            Ok(second) => match paired(first, second) {
                None => Err(ErrorView::custom(path, invalid_alignment(first, second))),
                Some(align) => if elements.len() > 2 {
                    match Number::decoded(elements[2]) {
                        Err(error) => Err(error),
                        Ok(x) => match required::<Number>(
                            path,
                            elements,
                            3,
                            "{ align valign x y }"@,
                        ) {
                            Err(error) => Err(error),
                            Ok(y) => if elements.len() > 4 {
                                Err(ErrorView::invalid_length(path, 5, "{ align valign x y }"@))
                            } else {
                                Ok(Anchor { align, offset: Vec2 { x, y } })
                            },
                        },
                    }
                } else {
                    Ok(Anchor { align, offset: Vec2::zero() })
                },
            },
        },
    }
}

impl ReadUiconf for Anchor {
    open spec fn decoded(value: ReaderView) -> Result<Anchor, ErrorView> {
        match values_of(value) {
            Ok(elements) => anchor_of(value.path, elements),
            Err(error) => Err(error),
        }
    }

    fn read_uiconf(value: &Reader) -> (r: Result<Self, Error>) {
        let elements = value.read_array()?;
        let first = read_required::<Alignment>(value, &elements, 0, "{ align valign x y }")?;
        let second = read_required::<Alignment>(value, &elements, 1, "{ align valign x y }")?;
        let align = match pair(first, second) {
            Some(align) => align,
            None => {
                let mut message = String::from_str("invalid alignment: `");
                message.append(first.to_str());
                message.append(" ");
                message.append(second.to_str());
                message.append("`");
                return Err(Error::custom(value, message));
            },
        };
        let offset = if elements.len() > 2 {
            let x = Number::read_uiconf(&elements[2])?;
            let y = read_required::<Number>(value, &elements, 3, "{ align valign x y }")?;
            if elements.len() > 4 {
                return Err(Error::invalid_length(value, 5, "{ align valign x y }"));
            }
            Vec2 { x, y }
        } else {
            Vec2 { x: Number { bits: 0 }, y: Number { bits: 0 } }
        };
        Ok(Anchor { align, offset })
    }
}

} // verus!
