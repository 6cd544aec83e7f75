//! The small values of widget properties: corner rounding, what a widget
//! senses, and sizes.

use vstd::prelude::*;

use crate::model::anchor::Vec2;
use crate::reader::error::{outcome, Error, ErrorView};
use crate::reader::node::Node;
use crate::reader::reader::{scalar_of, string_of, values_of, Reader, ReaderView};
use crate::reader::{read_required, required, Number, ReadUiconf};
use crate::text::{eq_ignore_case, same_ignoring_case};

verus! {

/// The radius of each corner of a rectangle.
#[derive(Debug, Clone, Copy, PartialEq, Eq, Structural)]
pub struct Rounding {
    /// Top left.
    pub nw: Number,
    /// Top right.
    pub ne: Number,
    /// Bottom right.
    pub se: Number,
    /// Bottom left.
    pub sw: Number,
}

impl DeepView for Rounding {
    type V = Rounding;

    open spec fn deep_view(&self) -> Rounding {
        *self
    }
}

impl Rounding {
    /// No rounding.
    pub open spec fn zero() -> Rounding {
        Rounding::same(Number::zero())
    }

    /// The same radius at every corner.
    pub open spec fn same(radius: Number) -> Rounding {
        Rounding { nw: radius, ne: radius, se: radius, sw: radius }
    }
}

/// The radius at `index` where the array has a number there, and `fallback`
/// where it has not.
pub open spec fn corner_or(elements: Seq<ReaderView>, index: int, fallback: Number) -> Number {
    if 0 <= index < elements.len() {
        match Number::decoded(elements[index]) {
            Ok(radius) => radius,
            Err(_) => fallback,
        }
    } else {
        fallback
    }
}

/// The rounding that an array of one to four radii spells, in the order top
/// left, top right, bottom right, bottom left. A corner that is left out has
/// the radius of the corner opposite to it, and the top right that of the
/// top left.
pub open spec fn corners_of(path: Seq<Seq<char>>, elements: Seq<ReaderView>) -> Result<
    Rounding,
    ErrorView,
> {
    match required::<Number>(
        path,
        elements,
        0,
        "{ top-left top-right bottom-right bottom-left }"@,
    ) {
        Err(error) => Err(error),
        Ok(nw) => {
            let ne = corner_or(elements, 1, nw);
            let se = corner_or(elements, 2, nw);
            let sw = corner_or(elements, 3, ne);
            if elements.len() > 4 {
                Err(
                    ErrorView::invalid_length(
                        path,
                        5,
                        "{ top-left top-right bottom-right bottom-left }"@,
                    ),
                )
            } else {
                Ok(Rounding { nw, ne, se, sw })
            }
        },
    }
}

fn read_corner(elements: &Vec<Reader>, index: usize, fallback: Number) -> (r: Number)
    ensures
        r == corner_or(elements.deep_view(), index as int, fallback),
{
    if index < elements.len() {
        assert(elements.deep_view()[index as int] == elements[index as int].deep_view());
        match Number::read_uiconf(&elements[index]) {
            Ok(radius) => radius,
            Err(_) => fallback,
        }
    } else {
        fallback
    }
}

impl ReadUiconf for Rounding {
    /// The scalar `none` is no rounding, any other scalar one radius for all
    /// corners, and an array one radius for each.
    open spec fn decoded(value: ReaderView) -> Result<Rounding, ErrorView> {
        match string_of(value) {
            Ok(text) => if text == "none"@ {
                Ok(Rounding::zero())
            } else {
                match Number::decoded(value) {
                    Ok(radius) => Ok(Rounding::same(radius)),
                    Err(error) => Err(error),
                }
            },
            Err(_) => match values_of(value) {
                Ok(elements) => corners_of(value.path, elements),
                Err(error) => Err(error),
            },
        }
    }

    fn read_uiconf(value: &Reader) -> (r: Result<Self, Error>) {
        match value.read_string() {
            Ok(text) => {
                if text.as_str().eq("none") {
                    let zero = Number { bits: 0 };
                    return Ok(Rounding { nw: zero, ne: zero, se: zero, sw: zero });
                }
                let radius = Number::read_uiconf(value)?;
                return Ok(Rounding { nw: radius, ne: radius, se: radius, sw: radius });
            },
            Err(_) => {},
        }
        let elements = value.read_array()?;
        let nw = read_required::<Number>(
            value,
            &elements,
            0,
            "{ top-left top-right bottom-right bottom-left }",
        )?;
        let ne = read_corner(&elements, 1, nw);
        let se = read_corner(&elements, 2, nw);
        let sw = read_corner(&elements, 3, ne);
        if elements.len() > 4 {
            return Err(
                Error::invalid_length(value, 5, "{ top-left top-right bottom-right bottom-left }"),
            );
        }
        Ok(Rounding { nw, ne, se, sw })
    }
}

/// What a widget reacts to.
#[derive(Debug, Clone, Copy, PartialEq, Eq, Structural)]
pub struct Sense {
    pub click: bool,
    pub drag: bool,
    pub focusable: bool,
}

impl DeepView for Sense {
    type V = Sense;

    open spec fn deep_view(&self) -> Sense {
        *self
    }
}

/// The senses that can be written as one word.
#[derive(Debug, Clone, Copy, PartialEq, Eq, Structural)]
pub enum SenseKind {
    Hover,
    FocusableNoninteractive,
    Click,
    Drag,
    ClickAndDrag,
}

impl DeepView for SenseKind {
    type V = SenseKind;

    open spec fn deep_view(&self) -> SenseKind {
        *self
    }
}

impl SenseKind {
    /// The names of the variants, in the order of their declaration.
    pub open spec fn names() -> Seq<Seq<char>> {
        seq![
            "hover"@,
            "focusable_noninteractive"@,
            "click"@,
            "drag"@,
            "click_and_drag"@,
        ]
    }

    /// The variant that `name` names, whatever the case of its letters.
    pub open spec fn named(name: Seq<char>) -> Option<SenseKind> {
        if same_ignoring_case(name, "hover"@) {
            Some(SenseKind::Hover)
        } else if same_ignoring_case(name, "focusable_noninteractive"@) {
            Some(SenseKind::FocusableNoninteractive)
        } else if same_ignoring_case(name, "click"@) {
            Some(SenseKind::Click)
        } else if same_ignoring_case(name, "drag"@) {
            Some(SenseKind::Drag)
        } else if same_ignoring_case(name, "click_and_drag"@) {
            Some(SenseKind::ClickAndDrag)
        } else {
            None
        }
    }

    /// The names of the variants, in the order of their declaration.
    pub fn variants() -> (r: Vec<&'static str>)
        ensures
            r.deep_view() == Self::names(),
    {
        let r = vec![
            "hover",
            "focusable_noninteractive",
            "click",
            "drag",
            "click_and_drag",
        ];
        assert(r.deep_view() =~= Self::names());
        r
    }

    /// The variant that `name` names, whatever the case of its letters.
    pub fn from_name(name: &str) -> (r: Option<SenseKind>)
        ensures
            r == Self::named(name@),
    {
        if eq_ignore_case(name, "hover") {
            Some(SenseKind::Hover)
        } else if eq_ignore_case(name, "focusable_noninteractive") {
            Some(SenseKind::FocusableNoninteractive)
        } else if eq_ignore_case(name, "click") {
            Some(SenseKind::Click)
        } else if eq_ignore_case(name, "drag") {
            Some(SenseKind::Drag)
        } else if eq_ignore_case(name, "click_and_drag") {
            Some(SenseKind::ClickAndDrag)
        } else {
            None
        }
    }
}

impl ReadUiconf for SenseKind {
    open spec fn decoded(value: ReaderView) -> Result<SenseKind, ErrorView> {
        match string_of(value) {
            Ok(name) => match SenseKind::named(name) {
                Some(variant) => Ok(variant),
                None => Err(ErrorView::unknown_variant(value.path, name, SenseKind::names())),
            },
            Err(error) => Err(error),
        }
    }

    fn read_uiconf(value: &Reader) -> (r: Result<Self, Error>) {
        let name = value.read_string()?;
        match SenseKind::from_name(name.as_str()) {
            Some(variant) => Ok(variant),
            None => Err(Error::unknown_variant(value, name.as_str(), &SenseKind::variants())),
        }
    }
}

/// One thing that a widget can react to, as the parts of a sense list them.
#[derive(Debug, Clone, Copy, PartialEq, Eq, Structural)]
pub enum SenseType {
    Click,
    Drag,
    Focusable,
}

impl DeepView for SenseType {
    type V = SenseType;

    open spec fn deep_view(&self) -> SenseType {
        *self
    }
}

impl SenseType {
    /// The names of the variants, in the order of their declaration.
    pub open spec fn names() -> Seq<Seq<char>> {
        seq![
            "click"@,
            "drag"@,
            "focusable"@,
        ]
    }

    /// The variant that `name` names, whatever the case of its letters.
    pub open spec fn named(name: Seq<char>) -> Option<SenseType> {
        if same_ignoring_case(name, "click"@) {
            Some(SenseType::Click)
        } else if same_ignoring_case(name, "drag"@) {
            Some(SenseType::Drag)
        } else if same_ignoring_case(name, "focusable"@) {
            Some(SenseType::Focusable)
        } else {
            None
        }
    }

    /// The names of the variants, in the order of their declaration.
    pub fn variants() -> (r: Vec<&'static str>)
        ensures
            r.deep_view() == Self::names(),
    {
        let r = vec![
            "click",
            "drag",
            "focusable",
        ];
        assert(r.deep_view() =~= Self::names());
        r
    }

    /// The variant that `name` names, whatever the case of its letters.
    pub fn from_name(name: &str) -> (r: Option<SenseType>)
        ensures
            r == Self::named(name@),
    {
        if eq_ignore_case(name, "click") {
            Some(SenseType::Click)
        } else if eq_ignore_case(name, "drag") {
            Some(SenseType::Drag)
        } else if eq_ignore_case(name, "focusable") {
            Some(SenseType::Focusable)
        } else {
            None
        }
    }
}

impl ReadUiconf for SenseType {
    open spec fn decoded(value: ReaderView) -> Result<SenseType, ErrorView> {
        match string_of(value) {
            Ok(name) => match SenseType::named(name) {
                Some(variant) => Ok(variant),
                None => Err(ErrorView::unknown_variant(value.path, name, SenseType::names())),
            },
            Err(error) => Err(error),
        }
    }

    fn read_uiconf(value: &Reader) -> (r: Result<Self, Error>) {
        let name = value.read_string()?;
        match SenseType::from_name(name.as_str()) {
            Some(variant) => Ok(variant),
            None => Err(Error::unknown_variant(value, name.as_str(), &SenseType::variants())),
        }
    }
}

impl Sense {
    /// A widget that reacts to nothing but the pointer above it.
    pub open spec fn hover() -> Sense {
        Sense { click: false, drag: false, focusable: false }
    }

    /// The sense with one more thing to react to.
    pub open spec fn with(self, part: SenseType) -> Sense {
        match part {
            SenseType::Click => Sense { click: true, ..self },
            SenseType::Drag => Sense { drag: true, ..self },
            SenseType::Focusable => Sense { focusable: true, ..self },
        }
    }
}

impl SenseKind {
    /// The sense that the word stands for.
    pub open spec fn sense(self) -> Sense {
        match self {
            SenseKind::Hover => Sense { click: false, drag: false, focusable: false },
            SenseKind::FocusableNoninteractive => Sense {
                click: false,
                drag: false,
                focusable: true,
            },
            SenseKind::Click => Sense { click: true, drag: false, focusable: true },
            SenseKind::Drag => Sense { click: false, drag: true, focusable: true },
            SenseKind::ClickAndDrag => Sense { click: true, drag: true, focusable: true },
        }
    }

    /// The sense that the word stands for.
    pub fn to_sense(self) -> (r: Sense)
        ensures
            r == self.sense(),
    {
        match self {
            SenseKind::Hover => Sense { click: false, drag: false, focusable: false },
            SenseKind::FocusableNoninteractive => Sense {
                click: false,
                drag: false,
                focusable: true,
            },
            SenseKind::Click => Sense { click: true, drag: false, focusable: true },
            SenseKind::Drag => Sense { click: false, drag: true, focusable: true },
            SenseKind::ClickAndDrag => Sense { click: true, drag: true, focusable: true },
        }
    }
}

/// The sense `so_far` with the parts that the elements from `from` on name.
pub open spec fn senses_from(elements: Seq<ReaderView>, from: int, so_far: Sense) -> Result<
    Sense,
    ErrorView,
>
    decreases elements.len() - from,
{
    if from < 0 || from >= elements.len() {
        Ok(so_far)
    } else {
        match SenseType::decoded(elements[from]) {
            Ok(part) => senses_from(elements, from + 1, so_far.with(part)),
            Err(error) => Err(error),
        }
    }
}

impl ReadUiconf for Sense {
    /// A scalar is one of the words for a sense; an array lists what to
    /// react to besides the pointer above the widget.
    open spec fn decoded(value: ReaderView) -> Result<Sense, ErrorView> {
        match string_of(value) {
            Ok(text) => match SenseKind::named(text) {
                Some(kind) => Ok(kind.sense()),
                None => Err(ErrorView::unknown_variant(value.path, text, SenseKind::names())),
            },
            Err(_) => match values_of(value) {
                Ok(elements) => senses_from(elements, 0, Sense::hover()),
                Err(error) => Err(error),
            },
        }
    }

    fn read_uiconf(value: &Reader) -> (r: Result<Self, Error>) {
        match value.read_string() {
            Ok(text) => {
                return match SenseKind::from_name(text.as_str()) {
                    Some(kind) => Ok(kind.to_sense()),
                    None => Err(
                        Error::unknown_variant(value, text.as_str(), &SenseKind::variants()),
                    ),
                };
            },
            Err(_) => {},
        }
        let elements = value.read_array()?;
        let ghost views = elements.deep_view();
        let mut sense = Sense { click: false, drag: false, focusable: false };
        let mut i: usize = 0;
        while i < elements.len()
            invariant
                i <= elements.len(),
                views == elements.deep_view(),
                values_of(value.deep_view()) == Ok::<Seq<ReaderView>, ErrorView>(views),
                string_of(value.deep_view()) is Err,
                senses_from(views, 0, Sense::hover()) == senses_from(views, i as int, sense),
            decreases elements.len() - i,
        {
            assert(views[i as int] == elements[i as int].deep_view());
            match SenseType::read_uiconf(&elements[i])? {
                SenseType::Click => {
                    sense.click = true;
                },
                SenseType::Drag => {
                    sense.drag = true;
                },
                SenseType::Focusable => {
                    sense.focusable = true;
                },
            }
            i = i + 1;
        }
        Ok(sense)
    }
}

/// What the word `any` means in a size.
#[derive(Debug, Clone, Copy, PartialEq, Eq, Structural)]
pub enum SizeMode {
    /// `any` is zero: no lower bound.
    AnyIsZero,
    /// `any` is infinity: no upper bound.
    AnyIsInfinity,
    /// `any` is not accepted.
    AnyDisallowed,
}

/// A number, or the word `any` in its place.
#[derive(Debug, Clone, Copy, PartialEq, Eq, Structural)]
pub struct AnyOrNumber(pub Option<Number>);

impl DeepView for AnyOrNumber {
    type V = Option<Number>;

    open spec fn deep_view(&self) -> Option<Number> {
        self.0
    }
}

/// The bytes of the word `any`.
pub open spec fn any_word() -> Seq<u8> {
    seq![0x61u8, 0x6eu8, 0x79u8]
}

fn is_any(bytes: &Vec<u8>) -> (r: bool)
    ensures
        r == (bytes@ == any_word()),
{
    let r = bytes.len() == 3 && bytes[0] == 0x61u8 && bytes[1] == 0x6eu8 && bytes[2] == 0x79u8;
    assert(r == (bytes@ =~= any_word()));
    r
}

impl ReadUiconf for AnyOrNumber {
    open spec fn decoded(value: ReaderView) -> Result<Option<Number>, ErrorView> {
        match scalar_of(value) {
            Ok(bytes) => if bytes == any_word() {
                Ok(None)
            } else {
                match Number::decoded(value) {
                    Ok(number) => Ok(Some(number)),
                    Err(error) => Err(error),
                }
            },
            Err(error) => Err(error),
        }
    }

    fn read_uiconf(value: &Reader) -> (r: Result<Self, Error>) {
        let bytes = value.read_scalar()?;
        if is_any(bytes) {
            Ok(AnyOrNumber(None))
        } else {
            let number = Number::read_uiconf(value)?;
            Ok(AnyOrNumber(Some(number)))
        }
    }
}

/// What a component of a size stands for under `mode`, where `at` is the
/// path of the component: a number is itself, and `any` is what the mode
/// makes of it, which is an `InvalidValue` where the mode does not accept it.
pub open spec fn size_component(mode: SizeMode, at: Seq<Seq<char>>, component: Option<Number>) -> Result<
    Number,
    ErrorView,
> {
    match component {
        Some(number) => Ok(number),
        None => match mode {
            SizeMode::AnyIsZero => Ok(Number::zero()),
            SizeMode::AnyIsInfinity => Ok(Number::infinity()),
            SizeMode::AnyDisallowed => Err(ErrorView::invalid_value(at, "any"@, "number"@)),
        },
    }
}

/// The `index`-th component of a size.
pub open spec fn size_part(
    mode: SizeMode,
    path: Seq<Seq<char>>,
    elements: Seq<ReaderView>,
    index: int,
) -> Result<Number, ErrorView> {
    match required::<AnyOrNumber>(path, elements, index, "{ x y }"@) {
        Ok(component) => size_component(mode, elements[index].path, component),
        Err(error) => Err(error),
    }
}

/// The size that the node spells under `mode`: an array of exactly two
/// components.
pub open spec fn size_of(mode: SizeMode, value: ReaderView) -> Result<Vec2, ErrorView> {
    match values_of(value) {
        Err(error) => Err(error),
        Ok(elements) => match size_part(mode, value.path, elements, 0) {
            Err(error) => Err(error),
            Ok(x) => match size_part(mode, value.path, elements, 1) {
                Err(error) => Err(error),
                Ok(y) => if elements.len() > 2 {
                    Err(ErrorView::invalid_length(value.path, 3, "{ x y }"@))
                } else {
                    Ok(Vec2 { x, y })
                },
            },
        },
    }
}

/// What a component of a size stands for under `mode`; `at` is the cursor on
/// the component.
pub fn resolve_component(mode: SizeMode, at: &Reader, component: AnyOrNumber) -> (r: Result<
    Number,
    Error,
>)
    ensures
        outcome(r) == size_component(mode, at.deep_view().path, component.0),
{
    match component.0 {
        Some(number) => Ok(number),
        None => match mode {
            SizeMode::AnyIsZero => Ok(Number { bits: 0 }),
            SizeMode::AnyIsInfinity => Ok(Number { bits: 0x7ff0_0000_0000_0000 }),
            SizeMode::AnyDisallowed => Err(Error::invalid_value(at, "any", "number")),
        },
    }
}

fn read_size_part(mode: SizeMode, value: &Reader, elements: &Vec<Reader>, index: usize) -> (r:
    Result<Number, Error>)
    ensures
        outcome(r) == size_part(
            mode,
            value.deep_view().path,
            elements.deep_view(),
            index as int,
        ),
{
    let component = read_required::<AnyOrNumber>(value, elements, index, "{ x y }")?;
    assert(elements.deep_view()[index as int] == elements[index as int].deep_view());
    resolve_component(mode, &elements[index], component)
}

/// Decodes the node under the cursor as a size under `mode`.
pub fn read_size(mode: SizeMode, value: &Reader) -> (r: Result<Vec2, Error>)
    ensures
        match r {
            Ok(size) => size_of(mode, value.deep_view()) == Ok::<Vec2, ErrorView>(size),
            Err(error) => size_of(mode, value.deep_view()) == Err::<Vec2, ErrorView>(
                error.deep_view(),
            ),
        },
{
    let elements = value.read_array()?;
    let x = read_size_part(mode, value, &elements, 0)?;
    let y = read_size_part(mode, value, &elements, 1)?;
    if elements.len() > 2 {
        return Err(Error::invalid_length(value, 3, "{ x y }"));
    }
    Ok(Vec2 { x, y })
}

/// The empty container `{}`, which stands for a flag that is set.
#[derive(Debug, Clone, Copy, PartialEq, Eq, Structural)]
pub struct Empty;

impl DeepView for Empty {
    type V = Empty;

    open spec fn deep_view(&self) -> Empty {
        *self
    }
}

impl ReadUiconf for Empty {
    /// Any container is accepted, whatever it holds.
    open spec fn decoded(value: ReaderView) -> Result<Empty, ErrorView> {
        if value.node.is_container() {
            Ok(Empty)
        } else {
            Err(ErrorView::invalid_type(value.path, value.node.kind_name(), "{}"@))
        }
    }

    fn read_uiconf(value: &Reader) -> (r: Result<Self, Error>) {
        match value.token() {
            Node::Array { .. } => Ok(Empty),
            Node::Object { .. } => Ok(Empty),
            _ => Err(Error::invalid_type(value, value.token_type(), "{}")),
        }
    }
}

} // verus!
