//! Text with its style.

use vstd::prelude::*;

use crate::const_concat::concat;
use crate::model::color::Color;
use crate::reader::binding::{Binding, BindingView};
use crate::reader::error::{outcome, Error, ErrorView};
use crate::reader::reader::{fields_of, string_of, Reader, ReaderView};
use crate::reader::{Number, ReadUiconf};
use crate::text::{contains_name, eq_ignore_case, same_ignoring_case};

verus! {

/// One trait of a text's style.
#[derive(Debug, Clone, Copy, PartialEq, Eq, Structural)]
pub enum RichTextStyle {
    Small,
    Body,
    Monospace,
    Button,
    Heading,
    Code,
    Strong,
    Weak,
    Strikethrough,
    Underline,
    Italics,
    Raised,
}

impl DeepView for RichTextStyle {
    type V = RichTextStyle;

    open spec fn deep_view(&self) -> RichTextStyle {
        *self
    }
}

impl RichTextStyle {
    /// The names of the variants, in the order of their declaration.
    pub open spec fn names() -> Seq<Seq<char>> {
        seq![
            "small"@,
            "body"@,
            "monospace"@,
            "button"@,
            "heading"@,
            "code"@,
            "strong"@,
            "weak"@,
            "strikethrough"@,
            "underline"@,
            "italics"@,
            "raised"@,
        ]
    }

    /// The variant that `name` names, whatever the case of its letters.
    pub open spec fn named(name: Seq<char>) -> Option<RichTextStyle> {
        if same_ignoring_case(name, "small"@) {
            Some(RichTextStyle::Small)
        } else if same_ignoring_case(name, "body"@) {
            Some(RichTextStyle::Body)
        } else if same_ignoring_case(name, "monospace"@) {
            Some(RichTextStyle::Monospace)
        } else if same_ignoring_case(name, "button"@) {
            Some(RichTextStyle::Button)
        } else if same_ignoring_case(name, "heading"@) {
            Some(RichTextStyle::Heading)
        } else if same_ignoring_case(name, "code"@) {
            Some(RichTextStyle::Code)
        } else if same_ignoring_case(name, "strong"@) {
            Some(RichTextStyle::Strong)
        } else if same_ignoring_case(name, "weak"@) {
            Some(RichTextStyle::Weak)
        } else if same_ignoring_case(name, "strikethrough"@) {
            Some(RichTextStyle::Strikethrough)
        } else if same_ignoring_case(name, "underline"@) {
            Some(RichTextStyle::Underline)
        } else if same_ignoring_case(name, "italics"@) {
            Some(RichTextStyle::Italics)
        } else if same_ignoring_case(name, "raised"@) {
            Some(RichTextStyle::Raised)
        } else {
            None
        }
    }

    /// The names of the variants, in the order of their declaration.
    pub fn variants() -> (r: Vec<&'static str>)
        ensures
            r.deep_view() == Self::names(),
    {
        let r = vec![
            "small",
            "body",
            "monospace",
            "button",
            "heading",
            "code",
            "strong",
            "weak",
            "strikethrough",
            "underline",
            "italics",
            "raised",
        ];
        assert(r.deep_view() =~= Self::names());
        r
    }

    /// The variant that `name` names, whatever the case of its letters.
    pub fn from_name(name: &str) -> (r: Option<RichTextStyle>)
        ensures
            r == Self::named(name@),
    {
        if eq_ignore_case(name, "small") {
            Some(RichTextStyle::Small)
        } else if eq_ignore_case(name, "body") {
            Some(RichTextStyle::Body)
        } else if eq_ignore_case(name, "monospace") {
            Some(RichTextStyle::Monospace)
        } else if eq_ignore_case(name, "button") {
            Some(RichTextStyle::Button)
        } else if eq_ignore_case(name, "heading") {
            Some(RichTextStyle::Heading)
        } else if eq_ignore_case(name, "code") {
            Some(RichTextStyle::Code)
        } else if eq_ignore_case(name, "strong") {
            Some(RichTextStyle::Strong)
        } else if eq_ignore_case(name, "weak") {
            Some(RichTextStyle::Weak)
        } else if eq_ignore_case(name, "strikethrough") {
            Some(RichTextStyle::Strikethrough)
        } else if eq_ignore_case(name, "underline") {
            Some(RichTextStyle::Underline)
        } else if eq_ignore_case(name, "italics") {
            Some(RichTextStyle::Italics)
        } else if eq_ignore_case(name, "raised") {
            Some(RichTextStyle::Raised)
        } else {
            None
        }
    }
}

impl ReadUiconf for RichTextStyle {
    open spec fn decoded(value: ReaderView) -> Result<RichTextStyle, ErrorView> {
        match string_of(value) {
            Ok(name) => match RichTextStyle::named(name) {
                Some(variant) => Ok(variant),
                None => Err(ErrorView::unknown_variant(value.path, name, RichTextStyle::names())),
            },
            Err(error) => Err(error),
        }
    }

    fn read_uiconf(value: &Reader) -> (r: Result<Self, Error>) {
        let name = value.read_string()?;
        match RichTextStyle::from_name(name.as_str()) {
            Some(variant) => Ok(variant),
            None => Err(Error::unknown_variant(value, name.as_str(), &RichTextStyle::variants())),
        }
    }
}

/// One property of a text.
#[derive(Debug, PartialEq, Eq)]
pub enum RichTextProperty {
    Size(Binding<Number>),
    Style(Vec<RichTextStyle>),
    Color(Binding<Color>),
    BackgroundColor(Binding<Color>),
    LineHeight(Binding<Number>),
    ExtraLetterSpacing(Binding<Number>),
}

/// The mathematical value of a [`RichTextProperty`].
pub enum RichTextPropertyView {
    Size(BindingView<Number>),
    Style(Seq<RichTextStyle>),
    Color(BindingView<Color>),
    BackgroundColor(BindingView<Color>),
    LineHeight(BindingView<Number>),
    ExtraLetterSpacing(BindingView<Number>),
}

impl DeepView for RichTextProperty {
    type V = RichTextPropertyView;

    open spec fn deep_view(&self) -> RichTextPropertyView {
        match self {
            RichTextProperty::Size(size) => RichTextPropertyView::Size(size.deep_view()),
            RichTextProperty::Style(styles) => RichTextPropertyView::Style(styles.deep_view()),
            RichTextProperty::Color(color) => RichTextPropertyView::Color(color.deep_view()),
            RichTextProperty::BackgroundColor(color) => RichTextPropertyView::BackgroundColor(
                color.deep_view(),
            ),
            RichTextProperty::LineHeight(height) => RichTextPropertyView::LineHeight(
                height.deep_view(),
            ),
            RichTextProperty::ExtraLetterSpacing(spacing) => {
                RichTextPropertyView::ExtraLetterSpacing(spacing.deep_view())
            },
        }
    }
}

/// `r` with `wrap` applied to what it holds.
pub open spec fn wrapped<A, B>(r: Result<A, ErrorView>, wrap: spec_fn(A) -> B) -> Result<
    B,
    ErrorView,
> {
    match r {
        Ok(value) => Ok(wrap(value)),
        Err(error) => Err(error),
    }
}

impl RichTextProperty {
    /// The keys of the properties.
    pub open spec fn names() -> Seq<Seq<char>> {
        seq![
            "size"@,
            "style"@,
            "color"@,
            "background_color"@,
            "line_height"@,
            "extra_letter_spacing"@,
        ]
    }

    /// The property that the field `tag` spells with the node under the
    /// cursor as its value.
    pub open spec fn mapped(tag: Seq<char>, value: ReaderView) -> Result<
        RichTextPropertyView,
        ErrorView,
    > {
        if tag == "size"@ {
            wrapped(
                Binding::<Number>::decoded(value),
                |v: BindingView<Number>| RichTextPropertyView::Size(v),
            )
        } else if tag == "extra_letter_spacing"@ {
            wrapped(
                Binding::<Number>::decoded(value),
                |v: BindingView<Number>| RichTextPropertyView::ExtraLetterSpacing(v),
            )
        } else if tag == "line_height"@ {
            wrapped(
                Binding::<Number>::decoded(value),
                |v: BindingView<Number>| RichTextPropertyView::LineHeight(v),
            )
        } else if tag == "style"@ {
            wrapped(
                Vec::<RichTextStyle>::decoded(value),
                |v: Seq<RichTextStyle>| RichTextPropertyView::Style(v),
            )
        } else if tag == "background_color"@ {
            wrapped(
                Binding::<Color>::decoded(value),
                |v: BindingView<Color>| RichTextPropertyView::BackgroundColor(v),
            )
        } else if tag == "color"@ {
            wrapped(
                Binding::<Color>::decoded(value),
                |v: BindingView<Color>| RichTextPropertyView::Color(v),
            )
        } else {
            Err(ErrorView::unknown_field(value.path, tag, Self::names()))
        }
    }

    /// The keys of the properties.
    pub fn fields() -> (r: Vec<&'static str>)
        ensures
            r.deep_view() == Self::names(),
    {
        let r = vec![
            "size",
            "style",
            "color",
            "background_color",
            "line_height",
            "extra_letter_spacing",
        ];
        assert(r.deep_view() =~= Self::names());
        r
    }

    /// Decodes the value of the field `tag` as the property of that name.
    pub fn read_map_value(tag: &str, value: &Reader) -> (r: Result<Self, Error>)
        ensures
            outcome(r) == Self::mapped(tag@, value.deep_view()),
    {
        if tag.eq("size") {
            Ok(RichTextProperty::Size(value.read()?))
        } else if tag.eq("extra_letter_spacing") {
            Ok(RichTextProperty::ExtraLetterSpacing(value.read()?))
        } else if tag.eq("line_height") {
            Ok(RichTextProperty::LineHeight(value.read()?))
        } else if tag.eq("style") {
            Ok(RichTextProperty::Style(value.read()?))
        } else if tag.eq("background_color") {
            Ok(RichTextProperty::BackgroundColor(value.read()?))
        } else if tag.eq("color") {
            Ok(RichTextProperty::Color(value.read()?))
        } else {
            Err(Error::unknown_field(value, tag, &Self::fields()))
        }
    }
}

/// A text and the properties of its style, in the order in which they were
/// written.
#[derive(Debug, PartialEq, Eq)]
pub struct RichText {
    pub text: Binding<String>,
    pub props: Vec<RichTextProperty>,
}

/// The mathematical value of a [`RichText`].
pub struct RichTextView {
    pub text: BindingView<Seq<char>>,
    pub props: Seq<RichTextPropertyView>,
}

impl DeepView for RichText {
    type V = RichTextView;

    open spec fn deep_view(&self) -> RichTextView {
        RichTextView { text: self.text.deep_view(), props: self.props.deep_view() }
    }
}

/// What the fields of a text have given so far.
pub struct RichTextParts {
    pub text: Option<BindingView<Seq<char>>>,
    pub props: Seq<RichTextPropertyView>,
}

impl RichText {
    /// The keys that a text accepts.
    pub open spec fn names() -> Seq<Seq<char>> {
        seq!["text"@] + RichTextProperty::names()
    }

    /// What field `from` and those after it add to `parts`.
    pub open spec fn folded(
        fields: Seq<(Seq<char>, ReaderView)>,
        from: int,
        parts: RichTextParts,
    ) -> Result<RichTextParts, ErrorView>
        decreases fields.len() - from,
    {
        if from < 0 || from >= fields.len() {
            Ok(parts)
        } else {
            let (key, child) = fields[from];
            if key == "text"@ {
                if parts.text is Some {
                    Err(ErrorView::duplicate_field(child.path, "text"@))
                } else {
                    match Binding::<String>::decoded(child) {
                        Ok(text) => Self::folded(
                            fields,
                            from + 1,
                            RichTextParts { text: Some(text), ..parts },
                        ),
                        Err(error) => Err(error),
                    }
                }
            } else if RichTextProperty::names().contains(key) {
                match RichTextProperty::mapped(key, child) {
                    Ok(prop) => Self::folded(
                        fields,
                        from + 1,
                        RichTextParts { props: parts.props.push(prop), ..parts },
                    ),
                    Err(error) => Err(error),
                }
            } else {
                Err(ErrorView::unknown_field(child.path, key, Self::names()))
            }
        }
    }

    /// The keys that a text accepts.
    pub fn fields() -> (r: Vec<&'static str>)
        ensures
            r.deep_view() == Self::names(),
    {
        let head = vec!["text"];
        assert(head.deep_view() =~= seq!["text"@]);
        concat(&head, &RichTextProperty::fields())
    }

    /// A text without properties.
    pub fn new(text: Binding<String>) -> (r: Self)
        ensures
            r.deep_view() == (RichTextView {
                text: text.deep_view(),
                props: Seq::<RichTextPropertyView>::empty(),
            }),
    {
        let r = RichText { text, props: Vec::new() };
        assert(r.props.deep_view() =~= Seq::<RichTextPropertyView>::empty());
        r
    }
}

impl ReadUiconf for RichText {
    /// A scalar is the text alone. An object holds the text under `text`,
    /// once, and the properties of its style.
    open spec fn decoded(value: ReaderView) -> Result<RichTextView, ErrorView> {
        if value.node.is_scalar() {
            match Binding::<String>::decoded(value) {
                Ok(text) => Ok(RichTextView { text, props: Seq::empty() }),
                Err(error) => Err(error),
            }
        } else {
            match fields_of(value) {
                Err(error) => Err(error),
                Ok(fields) => match RichText::folded(
                    fields,
                    0,
                    RichTextParts { text: None, props: Seq::empty() },
                ) {
                    Err(error) => Err(error),
                    Ok(parts) => match parts.text {
                        Some(text) => Ok(RichTextView { text, props: parts.props }),
                        None => Err(ErrorView::missing_field(value.path, "text"@)),
                    },
                },
            }
        }
    }

    fn read_uiconf(value: &Reader) -> (r: Result<Self, Error>) {
        if value.is_scalar() {
            let text = Binding::<String>::read_uiconf(value)?;
            return Ok(RichText::new(text));
        }
        let fields = value.read_object()?;
        let ghost views = fields.deep_view();
        let mut text: Option<Binding<String>> = None;
        let mut props: Vec<RichTextProperty> = Vec::new();
        let mut i: usize = 0;
        assert(props.deep_view() =~= Seq::<RichTextPropertyView>::empty());
        while i < fields.len()
            invariant
                i <= fields.len(),
                views == fields.deep_view(),
                !value.deep_view().node.is_scalar(),
                fields_of(value.deep_view()) == Ok::<Seq<(Seq<char>, ReaderView)>, ErrorView>(
                    views,
                ),
                RichText::folded(views, 0, RichTextParts { text: None, props: Seq::empty() })
                    == RichText::folded(
                    views,
                    i as int,
                    RichTextParts { text: text.deep_view(), props: props.deep_view() },
                ),
            decreases fields.len() - i,
        {
            assert(views[i as int] == fields[i as int].deep_view());
            let key = fields[i].0.as_str();
            let child = &fields[i].1;
            if key.eq("text") {
                if text.is_some() {
                    return Err(Error::duplicate_field(child, "text"));
                }
                text = Some(Binding::<String>::read_uiconf(child)?);
            } else if contains_name(&RichTextProperty::fields(), key) {
                let ghost before = props.deep_view();
                let prop = RichTextProperty::read_map_value(key, child)?;
                let ghost added = prop.deep_view();
                props.push(prop);
                assert(props.deep_view() =~= before.push(added));
            } else {
                return Err(Error::unknown_field(child, key, &RichText::fields()));
            }
            i = i + 1;
        }
        match text {
            Some(text) => Ok(RichText { text, props }),
            None => Err(Error::missing_field(value, "text")),
        }
    }
}

} // verus!
