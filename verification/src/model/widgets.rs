//! The widgets of a window and what they hold.

use vstd::prelude::*;
use vstd::string::StringExecFns;

use crate::const_concat::concat;
use crate::model::anchor::{Align, Vec2};
use crate::model::color::Color;
use crate::model::rich_text::{wrapped, RichText, RichTextView};
use crate::model::shape::{read_size, size_of, Rounding, Sense, SizeMode};
use crate::model::stroke::{Stroke, StrokeView};
use crate::reader::binding::{Binding, BindingRef, BindingRefView, BindingView};
use crate::reader::data_model::Trigger;
use crate::reader::error::{outcome, Error, ErrorView};
use crate::reader::reader::{field_is_child, fields_of, string_of, Reader, ReaderView};
use crate::reader::{Number, ReadUiconf};
use crate::text::{contains_name, eq_ignore_case, same_ignoring_case};

verus! {

/// The direction in which a layout places its widgets.
#[derive(Debug, Clone, Copy, PartialEq, Eq, Structural)]
pub enum Direction {
    LeftToRight,
    RightToLeft,
    TopDown,
    BottomUp,
}

impl DeepView for Direction {
    type V = Direction;

    open spec fn deep_view(&self) -> Direction {
        *self
    }
}

impl Direction {
    /// The names of the variants, in the order of their declaration.
    pub open spec fn names() -> Seq<Seq<char>> {
        seq![
            "left_to_right"@,
            "right_to_left"@,
            "top_down"@,
            "bottom_up"@,
        ]
    }

    /// The variant that `name` names, whatever the case of its letters.
    pub open spec fn named(name: Seq<char>) -> Option<Direction> {
        if same_ignoring_case(name, "left_to_right"@) {
            Some(Direction::LeftToRight)
        } else if same_ignoring_case(name, "right_to_left"@) {
            Some(Direction::RightToLeft)
        } else if same_ignoring_case(name, "top_down"@) {
            Some(Direction::TopDown)
        } else if same_ignoring_case(name, "bottom_up"@) {
            Some(Direction::BottomUp)
        } else {
            None
        }
    }

    /// The names of the variants, in the order of their declaration.
    pub fn variants() -> (r: Vec<&'static str>)
        ensures
            r.deep_view() == Self::names(),
    {
        let r = vec![
            "left_to_right",
            "right_to_left",
            "top_down",
            "bottom_up",
        ];
        assert(r.deep_view() =~= Self::names());
        r
    }

    /// The variant that `name` names, whatever the case of its letters.
    pub fn from_name(name: &str) -> (r: Option<Direction>)
        ensures
            r == Self::named(name@),
    {
        if eq_ignore_case(name, "left_to_right") {
            Some(Direction::LeftToRight)
        } else if eq_ignore_case(name, "right_to_left") {
            Some(Direction::RightToLeft)
        } else if eq_ignore_case(name, "top_down") {
            Some(Direction::TopDown)
        } else if eq_ignore_case(name, "bottom_up") {
            Some(Direction::BottomUp)
        } else {
            None
        }
    }
}

impl ReadUiconf for Direction {
    open spec fn decoded(value: ReaderView) -> Result<Direction, ErrorView> {
        match string_of(value) {
            Ok(name) => match Direction::named(name) {
                Some(variant) => Ok(variant),
                None => Err(ErrorView::unknown_variant(value.path, name, Direction::names())),
            },
            Err(error) => Err(error),
        }
    }

    fn read_uiconf(value: &Reader) -> (r: Result<Self, Error>) {
        let name = value.read_string()?;
        match Direction::from_name(name.as_str()) {
            Some(variant) => Ok(variant),
            None => Err(Error::unknown_variant(value, name.as_str(), &Direction::variants())),
        }
    }
}

/// How a layout places its widgets.
#[derive(Debug, Clone, Copy, PartialEq, Eq, Structural)]
pub struct Flow {
    pub main_dir: Direction,
    pub main_wrap: bool,
    pub main_align: Align,
    pub main_justify: bool,
    pub cross_align: Align,
    pub cross_justify: bool,
}

impl Flow {
    /// From the top down, centred along the way and aligned to the left.
    pub open spec fn initial() -> Flow {
        Flow {
            main_dir: Direction::TopDown,
            main_wrap: false,
            main_align: Align::Center,
            main_justify: false,
            cross_align: Align::Min,
            cross_justify: false,
        }
    }
}

/// A property of a label.
#[derive(Debug, Clone, Copy, PartialEq, Eq, Structural)]
pub enum LabelProperty {
    Wrap(bool),
    Truncate(bool),
    Sense(Sense),
}

impl DeepView for LabelProperty {
    type V = LabelProperty;

    open spec fn deep_view(&self) -> LabelProperty {
        *self
    }
}

/// A property of a separator.
#[derive(Debug, Clone, Copy, PartialEq, Eq, Structural)]
pub enum SeparatorProperty {
    Vertical(bool),
    Spacing(Number),
    Grow(Number),
    Shrink(Number),
}

impl DeepView for SeparatorProperty {
    type V = SeparatorProperty;

    open spec fn deep_view(&self) -> SeparatorProperty {
        *self
    }
}

/// A property of a button.
#[derive(Debug, PartialEq, Eq)]
pub enum ButtonProperty {
    ShortcutText(RichText),
    Wrap(bool),
    Fill(Binding<Color>),
    Stroke(Stroke),
    Sense(Sense),
    Frame(bool),
    MinSize(Vec2),
    Rounding(Rounding),
    Selected(bool),
}

/// The mathematical value of a [`ButtonProperty`].
pub enum ButtonPropertyView {
    ShortcutText(RichTextView),
    Wrap(bool),
    Fill(BindingView<Color>),
    Stroke(StrokeView),
    Sense(Sense),
    Frame(bool),
    MinSize(Vec2),
    Rounding(Rounding),
    Selected(bool),
}

impl DeepView for ButtonProperty {
    type V = ButtonPropertyView;

    open spec fn deep_view(&self) -> ButtonPropertyView {
        match self {
            ButtonProperty::ShortcutText(text) => ButtonPropertyView::ShortcutText(
                text.deep_view(),
            ),
            ButtonProperty::Wrap(wrap) => ButtonPropertyView::Wrap(*wrap),
            ButtonProperty::Fill(color) => ButtonPropertyView::Fill(color.deep_view()),
            ButtonProperty::Stroke(stroke) => ButtonPropertyView::Stroke(stroke.deep_view()),
            ButtonProperty::Sense(sense) => ButtonPropertyView::Sense(*sense),
            ButtonProperty::Frame(frame) => ButtonPropertyView::Frame(*frame),
            ButtonProperty::MinSize(size) => ButtonPropertyView::MinSize(*size),
            ButtonProperty::Rounding(rounding) => ButtonPropertyView::Rounding(*rounding),
            ButtonProperty::Selected(selected) => ButtonPropertyView::Selected(*selected),
        }
    }
}

/// What a widget does when something happens to it.
#[derive(Debug, PartialEq, Eq)]
pub enum ResponseProperty {
    Clicked(BindingRef<Trigger>),
    SecondaryClicked(BindingRef<Trigger>),
    MiddleClicked(BindingRef<Trigger>),
    DoubleClicked(BindingRef<Trigger>),
    TripleClicked(BindingRef<Trigger>),
    ClickedElsewhere(BindingRef<Trigger>),
    Hovered(BindingRef<Trigger>),
    Highlighted(BindingRef<Trigger>),
    Changed(BindingRef<Trigger>),
    OnHover(Content),
    OnDisabledHover(Content),
    OnHoverAtPointer(Content),
    Highlight(Binding<bool>),
}

/// The responses of a widget, in the order in which they were written.
#[derive(Debug, PartialEq, Eq)]
pub struct Response(pub Vec<ResponseProperty>);

/// A button.
#[derive(Debug, PartialEq, Eq)]
pub struct Button {
    pub text: RichText,
    pub small: bool,
    pub visible: Option<Binding<bool>>,
    pub props: Vec<ButtonProperty>,
    pub response: Response,
}

/// A label.
#[derive(Debug, PartialEq, Eq)]
pub struct Label {
    pub text: RichText,
    pub visible: Option<Binding<bool>>,
    pub props: Vec<LabelProperty>,
    pub response: Response,
}

/// A line between widgets.
#[derive(Debug, PartialEq, Eq)]
pub struct Separator {
    pub visible: Option<Binding<bool>>,
    pub props: Vec<SeparatorProperty>,
    pub response: Response,
}

/// A group of widgets that are placed together.
#[derive(Debug, PartialEq, Eq)]
pub struct Layout {
    pub layout: Flow,
    pub visible: Option<Binding<bool>>,
    pub content: Content,
}

/// One widget.
#[derive(Debug, PartialEq, Eq)]
pub enum ContentWidget {
    Button(Button),
    Label(Label),
    Separator(Separator),
    Layout(Layout),
}

/// Widgets, in the order in which they were written.
#[derive(Debug, PartialEq, Eq)]
pub struct Content(pub Vec<ContentWidget>);

/// The mathematical value of a [`ResponseProperty`].
pub enum ResponsePropertyView {
    Clicked(BindingRefView),
    SecondaryClicked(BindingRefView),
    MiddleClicked(BindingRefView),
    DoubleClicked(BindingRefView),
    TripleClicked(BindingRefView),
    ClickedElsewhere(BindingRefView),
    Hovered(BindingRefView),
    Highlighted(BindingRefView),
    Changed(BindingRefView),
    OnHover(Seq<ContentWidgetView>),
    OnDisabledHover(Seq<ContentWidgetView>),
    OnHoverAtPointer(Seq<ContentWidgetView>),
    Highlight(BindingView<bool>),
}

/// The mathematical value of a [`Button`].
pub struct ButtonView {
    pub text: RichTextView,
    pub small: bool,
    pub visible: Option<BindingView<bool>>,
    pub props: Seq<ButtonPropertyView>,
    pub response: Seq<ResponsePropertyView>,
}

/// The mathematical value of a [`Label`].
pub struct LabelView {
    pub text: RichTextView,
    pub visible: Option<BindingView<bool>>,
    pub props: Seq<LabelProperty>,
    pub response: Seq<ResponsePropertyView>,
}

/// The mathematical value of a [`Separator`].
pub struct SeparatorView {
    pub visible: Option<BindingView<bool>>,
    pub props: Seq<SeparatorProperty>,
    pub response: Seq<ResponsePropertyView>,
}

/// The mathematical value of a [`Layout`].
pub struct LayoutView {
    pub layout: Flow,
    pub visible: Option<BindingView<bool>>,
    pub content: Seq<ContentWidgetView>,
}

/// The mathematical value of a [`ContentWidget`].
pub enum ContentWidgetView {
    Button(ButtonView),
    Label(LabelView),
    Separator(SeparatorView),
    Layout(LayoutView),
}

/// The value of a response property.
pub open spec fn response_property_view(property: &ResponseProperty) -> ResponsePropertyView
    decreases property,
{
    match property {
        ResponseProperty::Clicked(trigger) => ResponsePropertyView::Clicked(trigger.deep_view()),
        ResponseProperty::SecondaryClicked(trigger) => ResponsePropertyView::SecondaryClicked(
            trigger.deep_view(),
        ),
        ResponseProperty::MiddleClicked(trigger) => ResponsePropertyView::MiddleClicked(
            trigger.deep_view(),
        ),
        ResponseProperty::DoubleClicked(trigger) => ResponsePropertyView::DoubleClicked(
            trigger.deep_view(),
        ),
        ResponseProperty::TripleClicked(trigger) => ResponsePropertyView::TripleClicked(
            trigger.deep_view(),
        ),
        ResponseProperty::ClickedElsewhere(trigger) => ResponsePropertyView::ClickedElsewhere(
            trigger.deep_view(),
        ),
        ResponseProperty::Hovered(trigger) => ResponsePropertyView::Hovered(trigger.deep_view()),
        ResponseProperty::Highlighted(trigger) => ResponsePropertyView::Highlighted(
            trigger.deep_view(),
        ),
        ResponseProperty::Changed(trigger) => ResponsePropertyView::Changed(trigger.deep_view()),
        ResponseProperty::OnHover(content) => ResponsePropertyView::OnHover(content_view(content)),
        ResponseProperty::OnDisabledHover(content) => ResponsePropertyView::OnDisabledHover(
            content_view(content),
        ),
        ResponseProperty::OnHoverAtPointer(content) => ResponsePropertyView::OnHoverAtPointer(
            content_view(content),
        ),
        ResponseProperty::Highlight(highlight) => ResponsePropertyView::Highlight(
            highlight.deep_view(),
        ),
    }
}

/// The values of a widget's responses, in order.
pub open spec fn response_view(response: &Response) -> Seq<ResponsePropertyView>
    decreases response,
{
    Seq::new(
        response.0.len() as nat,
        |i: int|
            if 0 <= i < response.0.len() {
                response_property_view(&response.0[i])
            } else {
                ResponsePropertyView::OnHover(Seq::empty())
            },
    )
}

/// The value of a button.
pub open spec fn button_view(button: &Button) -> ButtonView
    decreases button,
{
    ButtonView {
        text: button.text.deep_view(),
        small: button.small,
        visible: button.visible.deep_view(),
        props: button.props.deep_view(),
        response: response_view(&button.response),
    }
}

/// The value of a label.
pub open spec fn label_view(label: &Label) -> LabelView
    decreases label,
{
    LabelView {
        text: label.text.deep_view(),
        visible: label.visible.deep_view(),
        props: label.props.deep_view(),
        response: response_view(&label.response),
    }
}

/// The value of a separator.
pub open spec fn separator_view(separator: &Separator) -> SeparatorView
    decreases separator,
{
    SeparatorView {
        visible: separator.visible.deep_view(),
        props: separator.props.deep_view(),
        response: response_view(&separator.response),
    }
}

/// The value of a layout.
pub open spec fn layout_view(layout: &Layout) -> LayoutView
    decreases layout,
{
    LayoutView {
        layout: layout.layout,
        visible: layout.visible.deep_view(),
        content: content_view(&layout.content),
    }
}

/// The value of a widget.
pub open spec fn widget_view(widget: &ContentWidget) -> ContentWidgetView
    decreases widget,
{
    match widget {
        ContentWidget::Button(button) => ContentWidgetView::Button(button_view(button)),
        ContentWidget::Label(label) => ContentWidgetView::Label(label_view(label)),
        ContentWidget::Separator(separator) => ContentWidgetView::Separator(
            separator_view(separator),
        ),
        ContentWidget::Layout(layout) => ContentWidgetView::Layout(layout_view(layout)),
    }
}

/// The values of widgets, in order.
pub open spec fn content_view(content: &Content) -> Seq<ContentWidgetView>
    decreases content,
{
    Seq::new(
        content.0.len() as nat,
        |i: int|
            if 0 <= i < content.0.len() {
                widget_view(&content.0[i])
            } else {
                ContentWidgetView::Separator(
                    SeparatorView { visible: None, props: Seq::empty(), response: Seq::empty() },
                )
            },
    )
}

impl DeepView for ResponseProperty {
    type V = ResponsePropertyView;

    open spec fn deep_view(&self) -> ResponsePropertyView {
        response_property_view(self)
    }
}

impl DeepView for Response {
    type V = Seq<ResponsePropertyView>;

    open spec fn deep_view(&self) -> Seq<ResponsePropertyView> {
        response_view(self)
    }
}

impl DeepView for Button {
    type V = ButtonView;

    open spec fn deep_view(&self) -> ButtonView {
        button_view(self)
    }
}

impl DeepView for Label {
    type V = LabelView;

    open spec fn deep_view(&self) -> LabelView {
        label_view(self)
    }
}

impl DeepView for Separator {
    type V = SeparatorView;

    open spec fn deep_view(&self) -> SeparatorView {
        separator_view(self)
    }
}

impl DeepView for Layout {
    type V = LayoutView;

    open spec fn deep_view(&self) -> LayoutView {
        layout_view(self)
    }
}

impl DeepView for ContentWidget {
    type V = ContentWidgetView;

    open spec fn deep_view(&self) -> ContentWidgetView {
        widget_view(self)
    }
}

impl DeepView for Content {
    type V = Seq<ContentWidgetView>;

    open spec fn deep_view(&self) -> Seq<ContentWidgetView> {
        content_view(self)
    }
}

/// Widgets are viewed as any vector of widgets is.
pub proof fn content_view_is_deep_view(content: &Content)
    ensures
        content_view(content) == content.0.deep_view(),
{
    assert(content_view(content) =~= content.0.deep_view());
}

/// Responses are viewed as any vector of responses is.
pub proof fn response_view_is_deep_view(response: &Response)
    ensures
        response_view(response) == response.0.deep_view(),
{
    assert(response_view(response) =~= response.0.deep_view());
}

/// How many fields the node under the cursor has; none where it cannot be
/// read as an object.
pub open spec fn fields_count(value: ReaderView) -> nat {
    match fields_of(value) {
        Ok(fields) => fields.len(),
        Err(_) => 0,
    }
}

impl LabelProperty {
    /// The keys of the properties.
    pub open spec fn names() -> Seq<Seq<char>> {
        seq![
            "wrap"@,
            "truncate"@,
            "sense"@,
        ]
    }

    /// The keys of the properties.
    pub fn fields() -> (r: Vec<&'static str>)
        ensures
            r.deep_view() == Self::names(),
    {
        let r = vec![
            "wrap",
            "truncate",
            "sense",
        ];
        assert(r.deep_view() =~= Self::names());
        r
    }

    /// The property that the field `tag` spells with the node under the
    /// cursor as its value.
    pub open spec fn mapped(tag: Seq<char>, value: ReaderView) -> Result<LabelProperty, ErrorView> {
        if tag == "wrap"@ {
            wrapped(bool::decoded(value), |v: bool| LabelProperty::Wrap(v))
        } else if tag == "truncate"@ {
            wrapped(bool::decoded(value), |v: bool| LabelProperty::Truncate(v))
        } else if tag == "sense"@ {
            wrapped(Sense::decoded(value), |v: Sense| LabelProperty::Sense(v))
        } else {
            Err(ErrorView::unknown_field(value.path, tag, Self::names()))
        }
    }

    /// Decodes the value of the field `tag` as the property of that name.
    pub fn read_map_value(tag: &str, value: &Reader) -> (r: Result<Self, Error>)
        ensures
            outcome(r) == Self::mapped(tag@, value.deep_view()),
    {
        if tag.eq("wrap") {
            Ok(LabelProperty::Wrap(value.read()?))
        } else if tag.eq("truncate") {
            Ok(LabelProperty::Truncate(value.read()?))
        } else if tag.eq("sense") {
            Ok(LabelProperty::Sense(value.read()?))
        } else {
            Err(Error::unknown_field(value, tag, &Self::fields()))
        }
    }
}

impl SeparatorProperty {
    /// The keys of the properties.
    pub open spec fn names() -> Seq<Seq<char>> {
        seq![
            "vertical"@,
            "spacing"@,
            "grow"@,
            "shrink"@,
        ]
    }

    /// The keys of the properties.
    pub fn fields() -> (r: Vec<&'static str>)
        ensures
            r.deep_view() == Self::names(),
    {
        let r = vec![
            "vertical",
            "spacing",
            "grow",
            "shrink",
        ];
        assert(r.deep_view() =~= Self::names());
        r
    }

    /// The property that the field `tag` spells with the node under the
    /// cursor as its value.
    pub open spec fn mapped(tag: Seq<char>, value: ReaderView) -> Result<
        SeparatorProperty,
        ErrorView,
    > {
        if tag == "vertical"@ {
            wrapped(bool::decoded(value), |v: bool| SeparatorProperty::Vertical(v))
        } else if tag == "spacing"@ {
            wrapped(Number::decoded(value), |v: Number| SeparatorProperty::Spacing(v))
        } else if tag == "grow"@ {
            wrapped(Number::decoded(value), |v: Number| SeparatorProperty::Grow(v))
        } else if tag == "shrink"@ {
            wrapped(Number::decoded(value), |v: Number| SeparatorProperty::Shrink(v))
        } else {
            Err(ErrorView::unknown_field(value.path, tag, Self::names()))
        }
    }

    /// Decodes the value of the field `tag` as the property of that name.
    pub fn read_map_value(tag: &str, value: &Reader) -> (r: Result<Self, Error>)
        ensures
            outcome(r) == Self::mapped(tag@, value.deep_view()),
    {
        if tag.eq("vertical") {
            Ok(SeparatorProperty::Vertical(value.read()?))
        } else if tag.eq("spacing") {
            Ok(SeparatorProperty::Spacing(value.read()?))
        } else if tag.eq("grow") {
            Ok(SeparatorProperty::Grow(value.read()?))
        } else if tag.eq("shrink") {
            Ok(SeparatorProperty::Shrink(value.read()?))
        } else {
            Err(Error::unknown_field(value, tag, &Self::fields()))
        }
    }
}

impl ButtonProperty {
    /// The keys of the properties.
    pub open spec fn names() -> Seq<Seq<char>> {
        seq![
            "shortcut_text"@,
            "wrap"@,
            "fill"@,
            "stroke"@,
            "sense"@,
            "frame"@,
            "min_size"@,
            "rounding"@,
            "selected"@,
        ]
    }

    /// The keys of the properties.
    pub fn fields() -> (r: Vec<&'static str>)
        ensures
            r.deep_view() == Self::names(),
    {
        let r = vec![
            "shortcut_text",
            "wrap",
            "fill",
            "stroke",
            "sense",
            "frame",
            "min_size",
            "rounding",
            "selected",
        ];
        assert(r.deep_view() =~= Self::names());
        r
    }

    /// The property that the field `tag` spells with the node under the
    /// cursor as its value.
    pub open spec fn mapped(tag: Seq<char>, value: ReaderView) -> Result<
        ButtonPropertyView,
        ErrorView,
    > {
        if tag == "shortcut_text"@ {
            wrapped(RichText::decoded(value), |v: RichTextView| ButtonPropertyView::ShortcutText(v))
        } else if tag == "wrap"@ {
            wrapped(bool::decoded(value), |v: bool| ButtonPropertyView::Wrap(v))
        } else if tag == "fill"@ {
            wrapped(
                Binding::<Color>::decoded(value),
                |v: BindingView<Color>| ButtonPropertyView::Fill(v),
            )
        } else if tag == "stroke"@ {
            wrapped(Stroke::decoded(value), |v: StrokeView| ButtonPropertyView::Stroke(v))
        } else if tag == "sense"@ {
            wrapped(Sense::decoded(value), |v: Sense| ButtonPropertyView::Sense(v))
        } else if tag == "frame"@ {
            wrapped(bool::decoded(value), |v: bool| ButtonPropertyView::Frame(v))
        } else if tag == "min_size"@ {
            wrapped(size_of(SizeMode::AnyIsZero, value), |v: Vec2| ButtonPropertyView::MinSize(v))
        } else if tag == "rounding"@ {
            wrapped(Rounding::decoded(value), |v: Rounding| ButtonPropertyView::Rounding(v))
        } else if tag == "selected"@ {
            wrapped(bool::decoded(value), |v: bool| ButtonPropertyView::Selected(v))
        } else {
            Err(ErrorView::unknown_field(value.path, tag, Self::names()))
        }
    }

    /// Decodes the value of the field `tag` as the property of that name.
    pub fn read_map_value(tag: &str, value: &Reader) -> (r: Result<Self, Error>)
        ensures
            outcome(r) == Self::mapped(tag@, value.deep_view()),
    {
        if tag.eq("shortcut_text") {
            Ok(ButtonProperty::ShortcutText(value.read()?))
        } else if tag.eq("wrap") {
            Ok(ButtonProperty::Wrap(value.read()?))
        } else if tag.eq("fill") {
            Ok(ButtonProperty::Fill(value.read()?))
        } else if tag.eq("stroke") {
            Ok(ButtonProperty::Stroke(value.read()?))
        } else if tag.eq("sense") {
            Ok(ButtonProperty::Sense(value.read()?))
        } else if tag.eq("frame") {
            Ok(ButtonProperty::Frame(value.read()?))
        } else if tag.eq("min_size") {
            Ok(ButtonProperty::MinSize(read_size(SizeMode::AnyIsZero, value)?))
        } else if tag.eq("rounding") {
            Ok(ButtonProperty::Rounding(value.read()?))
        } else if tag.eq("selected") {
            Ok(ButtonProperty::Selected(value.read()?))
        } else {
            Err(Error::unknown_field(value, tag, &Self::fields()))
        }
    }
}

/// What the fields of a button have given so far.
pub struct ButtonParts {
    pub text: Option<RichTextView>,
    pub small: Option<bool>,
    pub visible: Option<BindingView<bool>>,
    pub props: Seq<ButtonPropertyView>,
    pub response: Seq<ResponsePropertyView>,
}

/// What the fields of a label have given so far.
pub struct LabelParts {
    pub text: Option<RichTextView>,
    pub visible: Option<BindingView<bool>>,
    pub props: Seq<LabelProperty>,
    pub response: Seq<ResponsePropertyView>,
}

/// A property of a layout.
#[derive(Debug, Clone, Copy, PartialEq, Eq, Structural)]
pub enum LayoutField {
    MainDir,
    MainWrap,
    MainAlign,
    MainJustify,
    CrossAlign,
    CrossJustify,
    Visible,
}

impl LayoutField {
    /// The property that a key names.
    pub open spec fn named(key: Seq<char>) -> Option<LayoutField> {
        if key == "main_dir"@ {
            Some(LayoutField::MainDir)
        } else if key == "main_wrap"@ {
            Some(LayoutField::MainWrap)
        } else if key == "main_align"@ {
            Some(LayoutField::MainAlign)
        } else if key == "main_justify"@ {
            Some(LayoutField::MainJustify)
        } else if key == "cross_align"@ {
            Some(LayoutField::CrossAlign)
        } else if key == "cross_justify"@ {
            Some(LayoutField::CrossJustify)
        } else if key == "visible"@ {
            Some(LayoutField::Visible)
        } else {
            None
        }
    }

    /// The property that a key names.
    pub fn from_key(key: &str) -> (r: Option<LayoutField>)
        ensures
            r == Self::named(key@),
    {
        if key.eq("main_dir") {
            Some(LayoutField::MainDir)
        } else if key.eq("main_wrap") {
            Some(LayoutField::MainWrap)
        } else if key.eq("main_align") {
            Some(LayoutField::MainAlign)
        } else if key.eq("main_justify") {
            Some(LayoutField::MainJustify)
        } else if key.eq("cross_align") {
            Some(LayoutField::CrossAlign)
        } else if key.eq("cross_justify") {
            Some(LayoutField::CrossJustify)
        } else if key.eq("visible") {
            Some(LayoutField::Visible)
        } else {
            None
        }
    }
}

/// Whether `field` is one of `seen`.
pub fn was_seen(seen: &Vec<LayoutField>, field: LayoutField) -> (r: bool)
    ensures
        r == seen@.contains(field),
{
    let mut i: usize = 0;
    while i < seen.len()
        invariant
            i <= seen.len(),
            forall|j: int| 0 <= j < i ==> seen@[j] != field,
        decreases seen.len() - i,
    {
        if seen[i] == field {
            return true;
        }
        i = i + 1;
    }
    false
}

/// What the fields of a layout have given so far; `seen` holds the
/// properties that were given, and `last_content` is the key of the last
/// widget.
pub struct LayoutParts {
    pub seen: Seq<LayoutField>,
    pub layout: Flow,
    pub visible: Option<BindingView<bool>>,
    pub content: Seq<ContentWidgetView>,
    pub last_content: Option<Seq<char>>,
}

/// The message for a property of a layout that is written after a widget.
pub open spec fn layout_order_message(key: Seq<char>, last_content: Seq<char>) -> Seq<char> {
    "all layout properties should be above content, but `"@ + key + "` is located after `"@
        + last_content + "`"@
}

impl ResponseProperty {
    /// The keys of the properties.
    pub open spec fn names() -> Seq<Seq<char>> {
        seq![
            "clicked"@,
            "secondary_clicked"@,
            "middle_clicked"@,
            "double_clicked"@,
            "triple_clicked"@,
            "clicked_elsewhere"@,
            "hovered"@,
            "highlighted"@,
            "changed"@,
            "on_hover"@,
            "on_disabled_hover"@,
            "on_hover_at_pointer"@,
            "highlight"@,
        ]
    }

    /// The keys of the properties.
    pub fn fields() -> (r: Vec<&'static str>)
        ensures
            r.deep_view() == Self::names(),
    {
        let r = vec![
            "clicked",
            "secondary_clicked",
            "middle_clicked",
            "double_clicked",
            "triple_clicked",
            "clicked_elsewhere",
            "hovered",
            "highlighted",
            "changed",
            "on_hover",
            "on_disabled_hover",
            "on_hover_at_pointer",
            "highlight",
        ];
        assert(r.deep_view() =~= Self::names());
        r
    }

    /// The response that the field `tag` spells with the node under the
    /// cursor as its value.
    pub open spec fn mapped(tag: Seq<char>, value: ReaderView) -> Result<
        ResponsePropertyView,
        ErrorView,
    >
        decreases value.node, 2 * fields_count(value) + 3,
    {
        if tag == "clicked"@ {
            wrapped(
                BindingRef::<Trigger>::decoded(value),
                |v: BindingRefView| ResponsePropertyView::Clicked(v),
            )
        } else if tag == "secondary_clicked"@ {
            wrapped(
                BindingRef::<Trigger>::decoded(value),
                |v: BindingRefView| ResponsePropertyView::SecondaryClicked(v),
            )
        } else if tag == "middle_clicked"@ {
            wrapped(
                BindingRef::<Trigger>::decoded(value),
                |v: BindingRefView| ResponsePropertyView::MiddleClicked(v),
            )
        } else if tag == "double_clicked"@ {
            wrapped(
                BindingRef::<Trigger>::decoded(value),
                |v: BindingRefView| ResponsePropertyView::DoubleClicked(v),
            )
        } else if tag == "triple_clicked"@ {
            wrapped(
                BindingRef::<Trigger>::decoded(value),
                |v: BindingRefView| ResponsePropertyView::TripleClicked(v),
            )
        } else if tag == "clicked_elsewhere"@ {
            wrapped(
                BindingRef::<Trigger>::decoded(value),
                |v: BindingRefView| ResponsePropertyView::ClickedElsewhere(v),
            )
        } else if tag == "hovered"@ {
            wrapped(
                BindingRef::<Trigger>::decoded(value),
                |v: BindingRefView| ResponsePropertyView::Hovered(v),
            )
        } else if tag == "highlighted"@ {
            wrapped(
                BindingRef::<Trigger>::decoded(value),
                |v: BindingRefView| ResponsePropertyView::Highlighted(v),
            )
        } else if tag == "changed"@ {
            wrapped(
                BindingRef::<Trigger>::decoded(value),
                |v: BindingRefView| ResponsePropertyView::Changed(v),
            )
        } else if tag == "on_hover"@ {
            wrapped(
                Content::decoded(value),
                |v: Seq<ContentWidgetView>| ResponsePropertyView::OnHover(v),
            )
        } else if tag == "on_disabled_hover"@ {
            wrapped(
                Content::decoded(value),
                |v: Seq<ContentWidgetView>| ResponsePropertyView::OnDisabledHover(v),
            )
        } else if tag == "on_hover_at_pointer"@ {
            wrapped(
                Content::decoded(value),
                |v: Seq<ContentWidgetView>| ResponsePropertyView::OnHoverAtPointer(v),
            )
        } else if tag == "highlight"@ {
            wrapped(
                Binding::<bool>::decoded(value),
                |v: BindingView<bool>| ResponsePropertyView::Highlight(v),
            )
        } else {
            Err(ErrorView::unknown_field(value.path, tag, Self::names()))
        }
    }

    /// Decodes the value of the field `tag` as the response of that name.
    pub fn read_map_value(tag: &str, value: &Reader) -> (r: Result<Self, Error>)
        ensures
            outcome(r) == Self::mapped(tag@, value.deep_view()),
        decreases value.deep_view().node, fields_count(value.deep_view()) + 2,
    {
        if tag.eq("clicked") {
            Ok(ResponseProperty::Clicked(value.read()?))
        } else if tag.eq("secondary_clicked") {
            Ok(ResponseProperty::SecondaryClicked(value.read()?))
        } else if tag.eq("middle_clicked") {
            Ok(ResponseProperty::MiddleClicked(value.read()?))
        } else if tag.eq("double_clicked") {
            Ok(ResponseProperty::DoubleClicked(value.read()?))
        } else if tag.eq("triple_clicked") {
            Ok(ResponseProperty::TripleClicked(value.read()?))
        } else if tag.eq("clicked_elsewhere") {
            Ok(ResponseProperty::ClickedElsewhere(value.read()?))
        } else if tag.eq("hovered") {
            Ok(ResponseProperty::Hovered(value.read()?))
        } else if tag.eq("highlighted") {
            Ok(ResponseProperty::Highlighted(value.read()?))
        } else if tag.eq("changed") {
            Ok(ResponseProperty::Changed(value.read()?))
        } else if tag.eq("on_hover") {
            Ok(ResponseProperty::OnHover(Content::read_uiconf(value)?))
        } else if tag.eq("on_disabled_hover") {
            Ok(ResponseProperty::OnDisabledHover(Content::read_uiconf(value)?))
        } else if tag.eq("on_hover_at_pointer") {
            Ok(ResponseProperty::OnHoverAtPointer(Content::read_uiconf(value)?))
        } else if tag.eq("highlight") {
            Ok(ResponseProperty::Highlight(value.read()?))
        } else {
            Err(Error::unknown_field(value, tag, &Self::fields()))
        }
    }
}

impl ContentWidget {
    /// The keys of the properties.
    pub open spec fn names() -> Seq<Seq<char>> {
        seq![
            "button"@,
            "label"@,
            "separator"@,
            "layout"@,
        ]
    }

    /// The keys of the properties.
    pub fn fields() -> (r: Vec<&'static str>)
        ensures
            r.deep_view() == Self::names(),
    {
        let r = vec![
            "button",
            "label",
            "separator",
            "layout",
        ];
        assert(r.deep_view() =~= Self::names());
        r
    }

    /// The widget that the field `tag` spells with the node under the cursor
    /// as its value.
    pub open spec fn mapped(tag: Seq<char>, value: ReaderView) -> Result<
        ContentWidgetView,
        ErrorView,
    >
        decreases value.node, 2 * fields_count(value) + 3,
    {
        if tag == "button"@ {
            wrapped(Button::decoded(value), |v: ButtonView| ContentWidgetView::Button(v))
        } else if tag == "label"@ {
            wrapped(Label::decoded(value), |v: LabelView| ContentWidgetView::Label(v))
        } else if tag == "separator"@ {
            wrapped(Separator::decoded(value), |v: SeparatorView| ContentWidgetView::Separator(v))
        } else if tag == "layout"@ {
            wrapped(Layout::decoded(value), |v: LayoutView| ContentWidgetView::Layout(v))
        } else {
            Err(ErrorView::unknown_field(value.path, tag, Self::names()))
        }
    }

    /// Decodes the value of the field `tag` as the widget of that name.
    pub fn read_map_value(tag: &str, value: &Reader) -> (r: Result<Self, Error>)
        ensures
            outcome(r) == Self::mapped(tag@, value.deep_view()),
        decreases value.deep_view().node, fields_count(value.deep_view()) + 2,
    {
        if tag.eq("button") {
            Ok(ContentWidget::Button(Button::read_uiconf(value)?))
        } else if tag.eq("label") {
            Ok(ContentWidget::Label(Label::read_uiconf(value)?))
        } else if tag.eq("separator") {
            Ok(ContentWidget::Separator(Separator::read_uiconf(value)?))
        } else if tag.eq("layout") {
            Ok(ContentWidget::Layout(Layout::read_uiconf(value)?))
        } else {
            Err(Error::unknown_field(value, tag, &Self::fields()))
        }
    }
}

impl Content {
    /// The widgets that field `from` and those after it add to `widgets`.
    pub open spec fn folded(value: ReaderView, from: int, widgets: Seq<ContentWidgetView>) -> Result<
        Seq<ContentWidgetView>,
        ErrorView,
    >
        decreases value.node, fields_count(value) - from,
    {
        match fields_of(value) {
            Err(error) => Err(error),
            Ok(fields) => if from < 0 || from >= fields.len() {
                Ok(widgets)
            } else {
                let (key, child) = fields[from];
                proof {
                    field_is_child(value, from);
                }
                match ContentWidget::mapped(key, child) {
                    Ok(widget) => Self::folded(value, from + 1, widgets.push(widget)),
                    Err(error) => Err(error),
                }
            },
        }
    }

    /// What decoding makes of the node under a cursor. A scalar is one label
    /// with that text; an object holds one widget in each field.
    pub open spec fn decoded(value: ReaderView) -> Result<Seq<ContentWidgetView>, ErrorView>
        decreases value.node, 2 * fields_count(value) + 2,
    {
        if value.node.is_scalar() {
            match RichText::decoded(value) {
                Ok(text) => Ok(seq![ContentWidgetView::Label(Label::plain(text))]),
                Err(error) => Err(error),
            }
        } else {
            match fields_of(value) {
                Err(error) => Err(error),
                Ok(_) => Self::folded(value, 0, Seq::empty()),
            }
        }
    }

    /// Decodes the node under the cursor.
    pub fn read_uiconf(value: &Reader) -> (r: Result<Self, Error>)
        ensures
            outcome(r) == Self::decoded(value.deep_view()),
        decreases value.deep_view().node, fields_count(value.deep_view()) + 1,
    {
        if value.is_scalar() {
            let text = RichText::read_uiconf(value)?;
            let widgets = vec![ContentWidget::Label(Label::new(text))];
            let content = Content(widgets);
            proof {
                content_view_is_deep_view(&content);
                assert(content.0.deep_view() =~= seq![
                    ContentWidgetView::Label(Label::plain(text.deep_view())),
                ]);
            }
            return Ok(content);
        }
        let fields = value.read_object()?;
        let ghost view = value.deep_view();
        let ghost views = fields.deep_view();
        let mut widgets: Vec<ContentWidget> = Vec::new();
        let mut i: usize = 0;
        assert(widgets.deep_view() =~= Seq::<ContentWidgetView>::empty());
        while i < fields.len()
            invariant
                i <= fields.len(),
                view == value.deep_view(),
                views == fields.deep_view(),
                fields_of(view) == Ok::<Seq<(Seq<char>, ReaderView)>, ErrorView>(views),
                Content::folded(view, 0, Seq::empty()) == Content::folded(
                    view,
                    i as int,
                    widgets.deep_view(),
                ),
            decreases fields.len() - i,
        {
            assert(views[i as int] == fields[i as int].deep_view());
            proof {
                field_is_child(view, i as int);
            }
            let ghost before = widgets.deep_view();
            let widget = ContentWidget::read_map_value(fields[i].0.as_str(), &fields[i].1)?;
            let ghost added = widget.deep_view();
            widgets.push(widget);
            assert(widgets.deep_view() =~= before.push(added));
            i = i + 1;
        }
        let content = Content(widgets);
        proof {
            content_view_is_deep_view(&content);
        }
        Ok(content)
    }
}

impl Label {
    /// The keys that a label accepts.
    pub open spec fn names() -> Seq<Seq<char>> {
        seq!["text"@, "visible"@] + LabelProperty::names() + ResponseProperty::names()
    }

    /// A label with this text and nothing else.
    pub open spec fn plain(text: RichTextView) -> LabelView {
        LabelView { text, visible: None, props: Seq::empty(), response: Seq::empty() }
    }

    /// What field `from` and those after it add to `parts`.
    pub open spec fn folded(value: ReaderView, from: int, parts: LabelParts) -> Result<
        LabelParts,
        ErrorView,
    >
        decreases value.node, fields_count(value) - from,
    {
        match fields_of(value) {
            Err(error) => Err(error),
            Ok(fields) => if from < 0 || from >= fields.len() {
                Ok(parts)
            } else {
                let (key, child) = fields[from];
                if key == "text"@ {
                    if parts.text is Some {
                        Err(ErrorView::duplicate_field(child.path, "text"@))
                    } else {
                        match RichText::decoded(child) {
                            Ok(text) => Self::folded(
                                value,
                                from + 1,
                                LabelParts { text: Some(text), ..parts },
                            ),
                            Err(error) => Err(error),
                        }
                    }
                } else if key == "visible"@ {
                    if parts.visible is Some {
                        Err(ErrorView::duplicate_field(child.path, "visible"@))
                    } else {
                        match Binding::<bool>::decoded(child) {
                            Ok(visible) => Self::folded(
                                value,
                                from + 1,
                                LabelParts { visible: Some(visible), ..parts },
                            ),
                            Err(error) => Err(error),
                        }
                    }
                } else if LabelProperty::names().contains(key) {
                    match LabelProperty::mapped(key, child) {
                        Ok(prop) => Self::folded(
                            value,
                            from + 1,
                            LabelParts { props: parts.props.push(prop), ..parts },
                        ),
                        Err(error) => Err(error),
                    }
                } else if ResponseProperty::names().contains(key) {
                    proof {
                        field_is_child(value, from);
                    }
                    match ResponseProperty::mapped(key, child) {
                        Ok(response) => Self::folded(
                            value,
                            from + 1,
                            LabelParts { response: parts.response.push(response), ..parts },
                        ),
                        Err(error) => Err(error),
                    }
                } else {
                    Err(ErrorView::unknown_field(child.path, key, Self::names()))
                }
            },
        }
    }

    /// What decoding makes of the node under a cursor. A scalar is the text
    /// alone; an object must hold the text under `text`.
    pub open spec fn decoded(value: ReaderView) -> Result<LabelView, ErrorView>
        decreases value.node, 2 * fields_count(value) + 2,
    {
        if value.node.is_scalar() {
            match RichText::decoded(value) {
                Ok(text) => Ok(Label::plain(text)),
                Err(error) => Err(error),
            }
        } else {
            match fields_of(value) {
                Err(error) => Err(error),
                Ok(_) => match Self::folded(
                    value,
                    0,
                    LabelParts {
                        text: None,
                        visible: None,
                        props: Seq::empty(),
                        response: Seq::empty(),
                    },
                ) {
                    Err(error) => Err(error),
                    Ok(parts) => match parts.text {
                        Some(text) => Ok(
                            LabelView {
                                text,
                                visible: parts.visible,
                                props: parts.props,
                                response: parts.response,
                            },
                        ),
                        None => Err(ErrorView::missing_field(value.path, "text"@)),
                    },
                },
            }
        }
    }

    /// The keys that a label accepts.
    pub fn fields() -> (r: Vec<&'static str>)
        ensures
            r.deep_view() == Self::names(),
    {
        let head = vec!["text", "visible"];
        assert(head.deep_view() =~= seq!["text"@, "visible"@]);
        concat(&concat(&head, &LabelProperty::fields()), &ResponseProperty::fields())
    }

    /// A label with this text and nothing else.
    pub fn new(text: RichText) -> (r: Self)
        ensures
            r.deep_view() == Label::plain(text.deep_view()),
    {
        let r = Label { text, visible: None, props: Vec::new(), response: Response(Vec::new()) };
        proof {
            response_view_is_deep_view(&r.response);
            assert(r.response.0.deep_view() =~= Seq::<ResponsePropertyView>::empty());
            assert(r.props.deep_view() =~= Seq::<LabelProperty>::empty());
        }
        r
    }

    /// Decodes the node under the cursor.
    pub fn read_uiconf(value: &Reader) -> (r: Result<Self, Error>)
        ensures
            outcome(r) == Self::decoded(value.deep_view()),
        decreases value.deep_view().node, fields_count(value.deep_view()) + 1,
    {
        if value.is_scalar() {
            let text = RichText::read_uiconf(value)?;
            return Ok(Label::new(text));
        }
        let fields = value.read_object()?;
        let ghost view = value.deep_view();
        let ghost views = fields.deep_view();
        let mut text: Option<RichText> = None;
        let mut visible: Option<Binding<bool>> = None;
        let mut props: Vec<LabelProperty> = Vec::new();
        let mut response: Vec<ResponseProperty> = Vec::new();
        let mut i: usize = 0;
        assert(props.deep_view() =~= Seq::<LabelProperty>::empty());
        assert(response.deep_view() =~= Seq::<ResponsePropertyView>::empty());
        while i < fields.len()
            invariant
                i <= fields.len(),
                view == value.deep_view(),
                views == fields.deep_view(),
                fields_of(view) == Ok::<Seq<(Seq<char>, ReaderView)>, ErrorView>(views),
                !view.node.is_scalar(),
                Label::folded(
                    view,
                    0,
                    LabelParts {
                        text: None,
                        visible: None,
                        props: Seq::empty(),
                        response: Seq::empty(),
                    },
                ) == Label::folded(
                    view,
                    i as int,
                    LabelParts {
                        text: text.deep_view(),
                        visible: visible.deep_view(),
                        props: props.deep_view(),
                        response: response.deep_view(),
                    },
                ),
            decreases fields.len() - i,
        {
            assert(views[i as int] == fields[i as int].deep_view());
            let key = fields[i].0.as_str();
            let child = &fields[i].1;
            if key.eq("text") {
                if text.is_some() {
                    return Err(Error::duplicate_field(child, "text"));
                }
                text = Some(RichText::read_uiconf(child)?);
            } else if key.eq("visible") {
                if visible.is_some() {
                    return Err(Error::duplicate_field(child, "visible"));
                }
                visible = Some(Binding::<bool>::read_uiconf(child)?);
            } else if contains_name(&LabelProperty::fields(), key) {
                let ghost before = props.deep_view();
                let prop = LabelProperty::read_map_value(key, child)?;
                props.push(prop);
                assert(props.deep_view() =~= before.push(prop));
            } else if contains_name(&ResponseProperty::fields(), key) {
                proof {
                    field_is_child(view, i as int);
                }
                let ghost before = response.deep_view();
                let added = ResponseProperty::read_map_value(key, child)?;
                let ghost added_view = added.deep_view();
                response.push(added);
                assert(response.deep_view() =~= before.push(added_view));
            } else {
                return Err(Error::unknown_field(child, key, &Label::fields()));
            }
            i = i + 1;
        }
        match text {
            Some(text) => {
                let label = Label { text, visible, props, response: Response(response) };
                proof {
                    response_view_is_deep_view(&label.response);
                }
                Ok(label)
            },
            None => Err(Error::missing_field(value, "text")),
        }
    }
}

impl Button {
    /// The keys that a button accepts.
    pub open spec fn names() -> Seq<Seq<char>> {
        seq!["text"@, "small"@, "visible"@] + ButtonProperty::names() + ResponseProperty::names()
    }

    /// A button with this text and nothing else.
    pub open spec fn plain(text: RichTextView) -> ButtonView {
        ButtonView {
            text,
            small: false,
            visible: None,
            props: Seq::empty(),
            response: Seq::empty(),
        }
    }

    /// What field `from` and those after it add to `parts`.
    pub open spec fn folded(value: ReaderView, from: int, parts: ButtonParts) -> Result<
        ButtonParts,
        ErrorView,
    >
        decreases value.node, fields_count(value) - from,
    {
        match fields_of(value) {
            Err(error) => Err(error),
            Ok(fields) => if from < 0 || from >= fields.len() {
                Ok(parts)
            } else {
                let (key, child) = fields[from];
                if key == "text"@ {
                    if parts.text is Some {
                        Err(ErrorView::duplicate_field(child.path, "text"@))
                    } else {
                        match RichText::decoded(child) {
                            Ok(text) => Self::folded(
                                value,
                                from + 1,
                                ButtonParts { text: Some(text), ..parts },
                            ),
                            Err(error) => Err(error),
                        }
                    }
                } else if key == "visible"@ {
                    if parts.visible is Some {
                        Err(ErrorView::duplicate_field(child.path, "visible"@))
                    } else {
                        match Binding::<bool>::decoded(child) {
                            Ok(visible) => Self::folded(
                                value,
                                from + 1,
                                ButtonParts { visible: Some(visible), ..parts },
                            ),
                            Err(error) => Err(error),
                        }
                    }
                } else if key == "small"@ {
                    if parts.small is Some {
                        Err(ErrorView::duplicate_field(child.path, "small"@))
                    } else {
                        match bool::decoded(child) {
                            Ok(small) => Self::folded(
                                value,
                                from + 1,
                                ButtonParts { small: Some(small), ..parts },
                            ),
                            Err(error) => Err(error),
                        }
                    }
                } else if ButtonProperty::names().contains(key) {
                    match ButtonProperty::mapped(key, child) {
                        Ok(prop) => Self::folded(
                            value,
                            from + 1,
                            ButtonParts { props: parts.props.push(prop), ..parts },
                        ),
                        Err(error) => Err(error),
                    }
                } else if ResponseProperty::names().contains(key) {
                    proof {
                        field_is_child(value, from);
                    }
                    match ResponseProperty::mapped(key, child) {
                        Ok(response) => Self::folded(
                            value,
                            from + 1,
                            ButtonParts { response: parts.response.push(response), ..parts },
                        ),
                        Err(error) => Err(error),
                    }
                } else {
                    Err(ErrorView::unknown_field(child.path, key, Self::names()))
                }
            },
        }
    }

    /// What decoding makes of the node under a cursor. A scalar is the text
    /// alone; an object must hold the text under `text`.
    pub open spec fn decoded(value: ReaderView) -> Result<ButtonView, ErrorView>
        decreases value.node, 2 * fields_count(value) + 2,
    {
        if value.node.is_scalar() {
            match RichText::decoded(value) {
                Ok(text) => Ok(Button::plain(text)),
                Err(error) => Err(error),
            }
        } else {
            match fields_of(value) {
                Err(error) => Err(error),
                Ok(_) => match Self::folded(
                    value,
                    0,
                    ButtonParts {
                        text: None,
                        small: None,
                        visible: None,
                        props: Seq::empty(),
                        response: Seq::empty(),
                    },
                ) {
                    Err(error) => Err(error),
                    Ok(parts) => match parts.text {
                        Some(text) => Ok(
                            ButtonView {
                                text,
                                small: parts.small == Some(true),
                                visible: parts.visible,
                                props: parts.props,
                                response: parts.response,
                            },
                        ),
                        None => Err(ErrorView::missing_field(value.path, "text"@)),
                    },
                },
            }
        }
    }

    /// The keys that a button accepts.
    pub fn fields() -> (r: Vec<&'static str>)
        ensures
            r.deep_view() == Self::names(),
    {
        let head = vec!["text", "small", "visible"];
        assert(head.deep_view() =~= seq!["text"@, "small"@, "visible"@]);
        concat(&concat(&head, &ButtonProperty::fields()), &ResponseProperty::fields())
    }

    /// A button with this text and nothing else.
    pub fn new(text: RichText) -> (r: Self)
        ensures
            r.deep_view() == Button::plain(text.deep_view()),
    {
        let r = Button {
            text,
            small: false,
            visible: None,
            props: Vec::new(),
            response: Response(Vec::new()),
        };
        proof {
            response_view_is_deep_view(&r.response);
            assert(r.response.0.deep_view() =~= Seq::<ResponsePropertyView>::empty());
            assert(r.props.deep_view() =~= Seq::<ButtonPropertyView>::empty());
        }
        r
    }

    /// Decodes the node under the cursor.
    pub fn read_uiconf(value: &Reader) -> (r: Result<Self, Error>)
        ensures
            outcome(r) == Self::decoded(value.deep_view()),
        decreases value.deep_view().node, fields_count(value.deep_view()) + 1,
    {
        if value.is_scalar() {
            let text = RichText::read_uiconf(value)?;
            return Ok(Button::new(text));
        }
        let fields = value.read_object()?;
        let ghost view = value.deep_view();
        let ghost views = fields.deep_view();
        let mut text: Option<RichText> = None;
        let mut visible: Option<Binding<bool>> = None;
        let mut small: Option<bool> = None;
        let mut props: Vec<ButtonProperty> = Vec::new();
        let mut response: Vec<ResponseProperty> = Vec::new();
        let mut i: usize = 0;
        assert(props.deep_view() =~= Seq::<ButtonPropertyView>::empty());
        assert(response.deep_view() =~= Seq::<ResponsePropertyView>::empty());
        while i < fields.len()
            invariant
                i <= fields.len(),
                view == value.deep_view(),
                views == fields.deep_view(),
                fields_of(view) == Ok::<Seq<(Seq<char>, ReaderView)>, ErrorView>(views),
                !view.node.is_scalar(),
                Button::folded(
                    view,
                    0,
                    ButtonParts {
                        text: None,
                        small: None,
                        visible: None,
                        props: Seq::empty(),
                        response: Seq::empty(),
                    },
                ) == Button::folded(
                    view,
                    i as int,
                    ButtonParts {
                        text: text.deep_view(),
                        small,
                        visible: visible.deep_view(),
                        props: props.deep_view(),
                        response: response.deep_view(),
                    },
                ),
            decreases fields.len() - i,
        {
            assert(views[i as int] == fields[i as int].deep_view());
            let key = fields[i].0.as_str();
            let child = &fields[i].1;
            if key.eq("text") {
                if text.is_some() {
                    return Err(Error::duplicate_field(child, "text"));
                }
                text = Some(RichText::read_uiconf(child)?);
            } else if key.eq("visible") {
                if visible.is_some() {
                    return Err(Error::duplicate_field(child, "visible"));
                }
                visible = Some(Binding::<bool>::read_uiconf(child)?);
            } else if key.eq("small") {
                if small.is_some() {
                    return Err(Error::duplicate_field(child, "small"));
                }
                small = Some(bool::read_uiconf(child)?);
            } else if contains_name(&ButtonProperty::fields(), key) {
                let ghost before = props.deep_view();
                let prop = ButtonProperty::read_map_value(key, child)?;
                let ghost added = prop.deep_view();
                props.push(prop);
                assert(props.deep_view() =~= before.push(added));
            } else if contains_name(&ResponseProperty::fields(), key) {
                proof {
                    field_is_child(view, i as int);
                }
                let ghost before = response.deep_view();
                let added = ResponseProperty::read_map_value(key, child)?;
                let ghost added_view = added.deep_view();
                response.push(added);
                assert(response.deep_view() =~= before.push(added_view));
            } else {
                return Err(Error::unknown_field(child, key, &Button::fields()));
            }
            i = i + 1;
        }
        match text {
            Some(text) => {
                let button = Button {
                    text,
                    small: match small {
                        Some(small) => small,
                        None => false,
                    },
                    visible,
                    props,
                    response: Response(response),
                };
                proof {
                    response_view_is_deep_view(&button.response);
                }
                Ok(button)
            },
            None => Err(Error::missing_field(value, "text")),
        }
    }
}

impl Separator {
    /// The keys that a separator accepts.
    pub open spec fn names() -> Seq<Seq<char>> {
        seq!["visible"@] + SeparatorProperty::names() + ResponseProperty::names()
    }

    /// What field `from` and those after it add to `parts`.
    pub open spec fn folded(value: ReaderView, from: int, parts: SeparatorView) -> Result<
        SeparatorView,
        ErrorView,
    >
        decreases value.node, fields_count(value) - from,
    {
        match fields_of(value) {
            Err(error) => Err(error),
            Ok(fields) => if from < 0 || from >= fields.len() {
                Ok(parts)
            } else {
                let (key, child) = fields[from];
                if key == "visible"@ {
                    if parts.visible is Some {
                        Err(ErrorView::duplicate_field(child.path, "visible"@))
                    } else {
                        match Binding::<bool>::decoded(child) {
                            Ok(visible) => Self::folded(
                                value,
                                from + 1,
                                SeparatorView { visible: Some(visible), ..parts },
                            ),
                            Err(error) => Err(error),
                        }
                    }
                } else if SeparatorProperty::names().contains(key) {
                    match SeparatorProperty::mapped(key, child) {
                        Ok(prop) => Self::folded(
                            value,
                            from + 1,
                            SeparatorView { props: parts.props.push(prop), ..parts },
                        ),
                        Err(error) => Err(error),
                    }
                } else if ResponseProperty::names().contains(key) {
                    proof {
                        field_is_child(value, from);
                    }
                    match ResponseProperty::mapped(key, child) {
                        Ok(response) => Self::folded(
                            value,
                            from + 1,
                            SeparatorView { response: parts.response.push(response), ..parts },
                        ),
                        Err(error) => Err(error),
                    }
                } else {
                    Err(ErrorView::unknown_field(child.path, key, Self::names()))
                }
            },
        }
    }

    /// What decoding makes of the node under a cursor, which must be an
    /// object.
    pub open spec fn decoded(value: ReaderView) -> Result<SeparatorView, ErrorView>
        decreases value.node, 2 * fields_count(value) + 2,
    {
        match fields_of(value) {
            Err(error) => Err(error),
            Ok(_) => Self::folded(
                value,
                0,
                SeparatorView { visible: None, props: Seq::empty(), response: Seq::empty() },
            ),
        }
    }

    /// The keys that a separator accepts.
    pub fn fields() -> (r: Vec<&'static str>)
        ensures
            r.deep_view() == Self::names(),
    {
        let head = vec!["visible"];
        assert(head.deep_view() =~= seq!["visible"@]);
        concat(&concat(&head, &SeparatorProperty::fields()), &ResponseProperty::fields())
    }

    /// Decodes the node under the cursor.
    pub fn read_uiconf(value: &Reader) -> (r: Result<Self, Error>)
        ensures
            outcome(r) == Self::decoded(value.deep_view()),
        decreases value.deep_view().node, fields_count(value.deep_view()) + 1,
    {
        let fields = value.read_object()?;
        let ghost view = value.deep_view();
        let ghost views = fields.deep_view();
        let mut visible: Option<Binding<bool>> = None;
        let mut props: Vec<SeparatorProperty> = Vec::new();
        let mut response: Vec<ResponseProperty> = Vec::new();
        let mut i: usize = 0;
        assert(props.deep_view() =~= Seq::<SeparatorProperty>::empty());
        assert(response.deep_view() =~= Seq::<ResponsePropertyView>::empty());
        while i < fields.len()
            invariant
                i <= fields.len(),
                view == value.deep_view(),
                views == fields.deep_view(),
                fields_of(view) == Ok::<Seq<(Seq<char>, ReaderView)>, ErrorView>(views),
                Separator::folded(
                    view,
                    0,
                    SeparatorView { visible: None, props: Seq::empty(), response: Seq::empty() },
                ) == Separator::folded(
                    view,
                    i as int,
                    SeparatorView {
                        visible: visible.deep_view(),
                        props: props.deep_view(),
                        response: response.deep_view(),
                    },
                ),
            decreases fields.len() - i,
        {
            assert(views[i as int] == fields[i as int].deep_view());
            let key = fields[i].0.as_str();
            let child = &fields[i].1;
            if key.eq("visible") {
                if visible.is_some() {
                    return Err(Error::duplicate_field(child, "visible"));
                }
                visible = Some(Binding::<bool>::read_uiconf(child)?);
            } else if contains_name(&SeparatorProperty::fields(), key) {
                let ghost before = props.deep_view();
                let prop = SeparatorProperty::read_map_value(key, child)?;
                props.push(prop);
                assert(props.deep_view() =~= before.push(prop));
            } else if contains_name(&ResponseProperty::fields(), key) {
                proof {
                    field_is_child(view, i as int);
                }
                let ghost before = response.deep_view();
                let added = ResponseProperty::read_map_value(key, child)?;
                let ghost added_view = added.deep_view();
                response.push(added);
                assert(response.deep_view() =~= before.push(added_view));
            } else {
                return Err(Error::unknown_field(child, key, &Separator::fields()));
            }
            i = i + 1;
        }
        let separator = Separator { visible, props, response: Response(response) };
        proof {
            response_view_is_deep_view(&separator.response);
        }
        Ok(separator)
    }
}

impl Layout {
    /// The keys of the properties of a layout.
    pub open spec fn property_names() -> Seq<Seq<char>> {
        seq![
            "main_dir"@,
            "main_wrap"@,
            "main_align"@,
            "main_justify"@,
            "cross_align"@,
            "cross_justify"@,
            "visible"@,
        ]
    }

    /// The keys that a layout accepts.
    pub open spec fn names() -> Seq<Seq<char>> {
        Self::property_names() + ContentWidget::names()
    }

    /// What the value under `child` makes of `parts` as the property
    /// `field`.
    pub open spec fn assigned(field: LayoutField, child: ReaderView, parts: LayoutParts) -> Result<
        LayoutParts,
        ErrorView,
    > {
        match field {
            LayoutField::MainDir => wrapped(
                Direction::decoded(child),
                |v: Direction| LayoutParts { layout: Flow { main_dir: v, ..parts.layout }, ..parts },
            ),
            LayoutField::MainWrap => wrapped(
                bool::decoded(child),
                |v: bool| LayoutParts { layout: Flow { main_wrap: v, ..parts.layout }, ..parts },
            ),
            LayoutField::MainAlign => wrapped(
                Align::decoded(child),
                |v: Align| LayoutParts { layout: Flow { main_align: v, ..parts.layout }, ..parts },
            ),
            LayoutField::MainJustify => wrapped(
                bool::decoded(child),
                |v: bool| LayoutParts { layout: Flow { main_justify: v, ..parts.layout }, ..parts },
            ),
            LayoutField::CrossAlign => wrapped(
                Align::decoded(child),
                |v: Align| LayoutParts { layout: Flow { cross_align: v, ..parts.layout }, ..parts },
            ),
            LayoutField::CrossJustify => wrapped(
                bool::decoded(child),
                |v: bool|
                    LayoutParts { layout: Flow { cross_justify: v, ..parts.layout }, ..parts },
            ),
            LayoutField::Visible => wrapped(
                Binding::<bool>::decoded(child),
                |v: BindingView<bool>| LayoutParts { visible: Some(v), ..parts },
            ),
        }
    }

    /// What the property `key` with the value under `child` makes of
    /// `parts`; nothing where `key` is no property of a layout. A property
    /// that was given before is a duplicate.
    pub open spec fn with_property(key: Seq<char>, child: ReaderView, parts: LayoutParts) -> Option<
        Result<LayoutParts, ErrorView>,
    > {
        match LayoutField::named(key) {
            None => None,
            Some(field) => if parts.seen.contains(field) {
                Some(Err(ErrorView::duplicate_field(child.path, key)))
            } else {
                Some(
                    Self::assigned(
                        field,
                        child,
                        LayoutParts { seen: parts.seen.push(field), ..parts },
                    ),
                )
            },
        }
    }

    /// What field `from` and those after it add to `parts`. A property that
    /// follows a widget is an error of its own, which names both.
    pub open spec fn folded(value: ReaderView, from: int, parts: LayoutParts) -> Result<
        LayoutParts,
        ErrorView,
    >
        decreases value.node, fields_count(value) - from,
    {
        match fields_of(value) {
            Err(error) => Err(error),
            Ok(fields) => if from < 0 || from >= fields.len() {
                Ok(parts)
            } else {
                let (key, child) = fields[from];
                match Self::with_property(key, child, parts) {
                    Some(Err(error)) => Err(error),
                    Some(Ok(next)) => match parts.last_content {
                        Some(last) => Err(
                            ErrorView::custom(child.path, layout_order_message(key, last)),
                        ),
                        None => Self::folded(value, from + 1, next),
                    },
                    None => if ContentWidget::names().contains(key) {
                        proof {
                            field_is_child(value, from);
                        }
                        match ContentWidget::mapped(key, child) {
                            Ok(widget) => Self::folded(
                                value,
                                from + 1,
                                LayoutParts {
                                    content: parts.content.push(widget),
                                    last_content: Some(key),
                                    ..parts
                                },
                            ),
                            Err(error) => Err(error),
                        }
                    } else {
                        Err(ErrorView::unknown_field(child.path, key, Self::names()))
                    },
                }
            },
        }
    }

    /// What field `from` makes of `parts`. A property that follows a widget
    /// is an error of its own, which names both keys.
    pub open spec fn step(value: ReaderView, from: int, parts: LayoutParts) -> Result<
        LayoutParts,
        ErrorView,
    > {
        match fields_of(value) {
            Err(error) => Err(error),
            Ok(fields) => if from < 0 || from >= fields.len() {
                Ok(parts)
            } else {
                let (key, child) = fields[from];
                match Self::with_property(key, child, parts) {
                    Some(Err(error)) => Err(error),
                    Some(Ok(next)) => match parts.last_content {
                        Some(last) => Err(
                            ErrorView::custom(child.path, layout_order_message(key, last)),
                        ),
                        None => Ok(next),
                    },
                    None => if ContentWidget::names().contains(key) {
                        wrapped(
                            ContentWidget::mapped(key, child),
                            |v: ContentWidgetView|
                                LayoutParts {
                                    content: parts.content.push(v),
                                    last_content: Some(key),
                                    ..parts
                                },
                        )
                    } else {
                        Err(ErrorView::unknown_field(child.path, key, Self::names()))
                    },
                }
            },
        }
    }

    /// What the first `upto` fields give, where none of them fails.
    pub open spec fn before(value: ReaderView, upto: int) -> Option<LayoutParts>
        decreases upto,
    {
        if upto <= 0 {
            Some(Self::no_parts())
        } else {
            match Self::before(value, upto - 1) {
                Some(parts) => match Self::step(value, upto - 1, parts) {
                    Ok(next) => Some(next),
                    Err(_) => None,
                },
                None => None,
            }
        }
    }

    /// Nothing given yet: the layout of a column, and no widgets.
    pub open spec fn no_parts() -> LayoutParts {
        LayoutParts {
            seen: Seq::empty(),
            layout: Flow::initial(),
            visible: None,
            content: Seq::empty(),
            last_content: None,
        }
    }

    /// What decoding makes of the node under a cursor, which must be an
    /// object: the properties of the layout first, then its widgets.
    pub open spec fn decoded(value: ReaderView) -> Result<LayoutView, ErrorView>
        decreases value.node, 2 * fields_count(value) + 2,
    {
        match fields_of(value) {
            Err(error) => Err(error),
            Ok(_) => match Self::folded(value, 0, Self::no_parts()) {
                Err(error) => Err(error),
                Ok(parts) => Ok(
                    LayoutView {
                        layout: parts.layout,
                        visible: parts.visible,
                        content: parts.content,
                    },
                ),
            },
        }
    }

    /// The keys that a layout accepts.
    pub fn fields() -> (r: Vec<&'static str>)
        ensures
            r.deep_view() == Self::names(),
    {
        let head = vec![
            "main_dir",
            "main_wrap",
            "main_align",
            "main_justify",
            "cross_align",
            "cross_justify",
            "visible",
        ];
        assert(head.deep_view() =~= Self::property_names());
        concat(&head, &ContentWidget::fields())
    }

    /// Decodes the node under the cursor.
    pub fn read_uiconf(value: &Reader) -> (r: Result<Self, Error>)
        ensures
            outcome(r) == Self::decoded(value.deep_view()),
        decreases value.deep_view().node, fields_count(value.deep_view()) + 1,
    {
        let fields = value.read_object()?;
        let ghost view = value.deep_view();
        let ghost views = fields.deep_view();
        let mut layout = Flow {
            main_dir: Direction::TopDown,
            main_wrap: false,
            main_align: Align::Center,
            main_justify: false,
            cross_align: Align::Min,
            cross_justify: false,
        };
        let mut visible: Option<Binding<bool>> = None;
        let mut content: Vec<ContentWidget> = Vec::new();
        let mut last_content: Option<String> = None;
        let mut seen: Vec<LayoutField> = Vec::new();
        let mut i: usize = 0;
        assert(content.deep_view() =~= Seq::<ContentWidgetView>::empty());
        while i < fields.len()
            invariant
                i <= fields.len(),
                view == value.deep_view(),
                views == fields.deep_view(),
                fields_of(view) == Ok::<Seq<(Seq<char>, ReaderView)>, ErrorView>(views),
                Layout::folded(view, 0, Layout::no_parts()) == Layout::folded(
                    view,
                    i as int,
                    LayoutParts {
                        seen: seen@,
                        layout,
                        visible: visible.deep_view(),
                        content: content.deep_view(),
                        last_content: last_content.deep_view(),
                    },
                ),
            decreases fields.len() - i,
        {
            assert(views[i as int] == fields[i as int].deep_view());
            let key = fields[i].0.as_str();
            let child = &fields[i].1;
            let mut is_content = false;
            let field = LayoutField::from_key(key);
            if field.is_some() {
                let field = field.unwrap();
                if was_seen(&seen, field) {
                    return Err(Error::duplicate_field(child, key));
                }
                seen.push(field);
                match field {
                    LayoutField::MainDir => {
                        layout.main_dir = Direction::read_uiconf(child)?;
                    },
                    LayoutField::MainWrap => {
                        layout.main_wrap = bool::read_uiconf(child)?;
                    },
                    LayoutField::MainAlign => {
                        layout.main_align = Align::read_uiconf(child)?;
                    },
                    LayoutField::MainJustify => {
                        layout.main_justify = bool::read_uiconf(child)?;
                    },
                    LayoutField::CrossAlign => {
                        layout.cross_align = Align::read_uiconf(child)?;
                    },
                    LayoutField::CrossJustify => {
                        layout.cross_justify = bool::read_uiconf(child)?;
                    },
                    LayoutField::Visible => {
                        visible = Some(Binding::<bool>::read_uiconf(child)?);
                    },
                }
            } else if contains_name(&ContentWidget::fields(), key) {
                proof {
                    field_is_child(view, i as int);
                }
                let ghost before = content.deep_view();
                let widget = ContentWidget::read_map_value(key, child)?;
                let ghost added = widget.deep_view();
                content.push(widget);
                assert(content.deep_view() =~= before.push(added));
                last_content = Some(String::from_str(key));
                is_content = true;
            } else {
                return Err(Error::unknown_field(child, key, &Layout::fields()));
            }
            if !is_content {
                match &last_content {
                    Some(last) => {
                        let mut message = String::from_str(
                            "all layout properties should be above content, but `",
                        );
                        message.append(key);
                        message.append("` is located after `");
                        message.append(last.as_str());
                        message.append("`");
                        return Err(Error::custom(child, message));
                    },
                    None => {},
                }
            }
            i = i + 1;
        }
        let layout = Layout { layout, visible, content: Content(content) };
        proof {
            content_view_is_deep_view(&layout.content);
        }
        Ok(layout)
    }
}

impl ReadUiconf for Content {
    open spec fn decoded(value: ReaderView) -> Result<Seq<ContentWidgetView>, ErrorView> {
        Content::decoded(value)
    }

    fn read_uiconf(value: &Reader) -> (r: Result<Self, Error>) {
        Content::read_uiconf(value)
    }
}

impl ReadUiconf for Button {
    open spec fn decoded(value: ReaderView) -> Result<ButtonView, ErrorView> {
        Button::decoded(value)
    }

    fn read_uiconf(value: &Reader) -> (r: Result<Self, Error>) {
        Button::read_uiconf(value)
    }
}

impl ReadUiconf for Label {
    open spec fn decoded(value: ReaderView) -> Result<LabelView, ErrorView> {
        Label::decoded(value)
    }

    fn read_uiconf(value: &Reader) -> (r: Result<Self, Error>) {
        Label::read_uiconf(value)
    }
}

impl ReadUiconf for Separator {
    open spec fn decoded(value: ReaderView) -> Result<SeparatorView, ErrorView> {
        Separator::decoded(value)
    }

    fn read_uiconf(value: &Reader) -> (r: Result<Self, Error>) {
        Separator::read_uiconf(value)
    }
}

impl ReadUiconf for Layout {
    open spec fn decoded(value: ReaderView) -> Result<LayoutView, ErrorView> {
        Layout::decoded(value)
    }

    fn read_uiconf(value: &Reader) -> (r: Result<Self, Error>) {
        Layout::read_uiconf(value)
    }
}

} // verus!
