//! The window at the root of a document.

use vstd::prelude::*;
use vstd::string::StringExecFns;

use crate::const_concat::concat;
use crate::model::anchor::{Anchor, Vec2};
use crate::model::rich_text::{wrapped, RichText, RichTextView};
use crate::model::shape::{read_size, size_of, Empty, SizeMode};
use crate::model::widgets::{content_view_is_deep_view, Content, ContentWidget, ContentWidgetView};
use crate::reader::binding::{Binding, BindingView};
use crate::reader::error::{outcome, Error, ErrorView};
use crate::reader::node::{document_of, parse_document, Node, NodeView};
use crate::reader::reader::{
    fields_of, root_fields, root_fields_of, Reader, ReaderView, RootFieldView,
};
use crate::reader::ReadUiconf;
use crate::text::contains_name;

verus! {

/// A property of a window.
#[derive(Debug, PartialEq, Eq)]
pub enum WindowProperty {
    Anchor(Anchor),
    TitleBar(Binding<bool>),
    DefaultSize(Vec2),
    MinSize(Vec2),
    MaxSize(Vec2),
    FixedSize(Vec2),
    AutoSized,
    Resizable(Binding<bool>),
    Enabled(Binding<bool>),
    Interactable(Binding<bool>),
    Movable(Binding<bool>),
    Collapsible(Binding<bool>),
}

/// The mathematical value of a [`WindowProperty`].
pub enum WindowPropertyView {
    Anchor(Anchor),
    TitleBar(BindingView<bool>),
    DefaultSize(Vec2),
    MinSize(Vec2),
    MaxSize(Vec2),
    FixedSize(Vec2),
    AutoSized,
    Resizable(BindingView<bool>),
    Enabled(BindingView<bool>),
    Interactable(BindingView<bool>),
    Movable(BindingView<bool>),
    Collapsible(BindingView<bool>),
}

impl DeepView for WindowProperty {
    type V = WindowPropertyView;

    open spec fn deep_view(&self) -> WindowPropertyView {
        match self {
            WindowProperty::Anchor(anchor) => WindowPropertyView::Anchor(*anchor),
            WindowProperty::TitleBar(flag) => WindowPropertyView::TitleBar(flag.deep_view()),
            WindowProperty::DefaultSize(size) => WindowPropertyView::DefaultSize(*size),
            WindowProperty::MinSize(size) => WindowPropertyView::MinSize(*size),
            WindowProperty::MaxSize(size) => WindowPropertyView::MaxSize(*size),
            WindowProperty::FixedSize(size) => WindowPropertyView::FixedSize(*size),
            WindowProperty::AutoSized => WindowPropertyView::AutoSized,
            WindowProperty::Resizable(flag) => WindowPropertyView::Resizable(flag.deep_view()),
            WindowProperty::Enabled(flag) => WindowPropertyView::Enabled(flag.deep_view()),
            WindowProperty::Interactable(flag) => WindowPropertyView::Interactable(
                flag.deep_view(),
            ),
            WindowProperty::Movable(flag) => WindowPropertyView::Movable(flag.deep_view()),
            WindowProperty::Collapsible(flag) => WindowPropertyView::Collapsible(flag.deep_view()),
        }
    }
}

impl WindowProperty {
    /// The keys of the properties.
    pub open spec fn names() -> Seq<Seq<char>> {
        seq![
            "anchor"@,
            "title_bar"@,
            "default_size"@,
            "min_size"@,
            "max_size"@,
            "fixed_size"@,
            "auto_sized"@,
            "resizable"@,
            "enabled"@,
            "interactable"@,
            "movable"@,
            "collapsible"@,
        ]
    }

    /// The keys of the properties.
    pub fn fields() -> (r: Vec<&'static str>)
        ensures
            r.deep_view() == Self::names(),
    {
        let r = vec![
            "anchor",
            "title_bar",
            "default_size",
            "min_size",
            "max_size",
            "fixed_size",
            "auto_sized",
            "resizable",
            "enabled",
            "interactable",
            "movable",
            "collapsible",
        ];
        assert(r.deep_view() =~= Self::names());
        r
    }

    /// The property that the field `tag` spells with the node under the
    /// cursor as its value.
    pub open spec fn mapped(tag: Seq<char>, value: ReaderView) -> Result<
        WindowPropertyView,
        ErrorView,
    > {
        if tag == "anchor"@ {
            wrapped(Anchor::decoded(value), |v: Anchor| WindowPropertyView::Anchor(v))
        } else if tag == "default_size"@ {
            wrapped(size_of(SizeMode::AnyDisallowed, value), |v: Vec2| WindowPropertyView::DefaultSize(v))
        } else if tag == "min_size"@ {
            wrapped(size_of(SizeMode::AnyIsZero, value), |v: Vec2| WindowPropertyView::MinSize(v))
        } else if tag == "max_size"@ {
            wrapped(size_of(SizeMode::AnyIsInfinity, value), |v: Vec2| WindowPropertyView::MaxSize(v))
        } else if tag == "fixed_size"@ {
            wrapped(size_of(SizeMode::AnyDisallowed, value), |v: Vec2| WindowPropertyView::FixedSize(v))
        } else if tag == "auto_sized"@ {
            wrapped(Empty::decoded(value), |v: Empty| WindowPropertyView::AutoSized)
        } else if tag == "title_bar"@ {
            wrapped(
                Binding::<bool>::decoded(value),
                |v: BindingView<bool>| WindowPropertyView::TitleBar(v),
            )
        } else if tag == "resizable"@ {
            wrapped(
                Binding::<bool>::decoded(value),
                |v: BindingView<bool>| WindowPropertyView::Resizable(v),
            )
        } else if tag == "enabled"@ {
            wrapped(
                Binding::<bool>::decoded(value),
                |v: BindingView<bool>| WindowPropertyView::Enabled(v),
            )
        } else if tag == "interactable"@ {
            wrapped(
                Binding::<bool>::decoded(value),
                |v: BindingView<bool>| WindowPropertyView::Interactable(v),
            )
        } else if tag == "movable"@ {
            wrapped(
                Binding::<bool>::decoded(value),
                |v: BindingView<bool>| WindowPropertyView::Movable(v),
            )
        } else if tag == "collapsible"@ {
            wrapped(
                Binding::<bool>::decoded(value),
                |v: BindingView<bool>| WindowPropertyView::Collapsible(v),
            )
        } else {
            Err(ErrorView::unknown_field(value.path, tag, Self::names()))
        }
    }

    /// Decodes the value of the field `tag` as the property of that name.
    pub fn read_map_value(tag: &str, value: &Reader) -> (r: Result<Self, Error>)
        ensures
            outcome(r) == Self::mapped(tag@, value.deep_view()),
    {
        if tag.eq("anchor") {
            Ok(WindowProperty::Anchor(value.read()?))
        } else if tag.eq("default_size") {
            Ok(WindowProperty::DefaultSize(read_size(SizeMode::AnyDisallowed, value)?))
        } else if tag.eq("min_size") {
            Ok(WindowProperty::MinSize(read_size(SizeMode::AnyIsZero, value)?))
        } else if tag.eq("max_size") {
            Ok(WindowProperty::MaxSize(read_size(SizeMode::AnyIsInfinity, value)?))
        } else if tag.eq("fixed_size") {
            Ok(WindowProperty::FixedSize(read_size(SizeMode::AnyDisallowed, value)?))
        } else if tag.eq("auto_sized") {
            let _ = value.read::<Empty>()?;
            Ok(WindowProperty::AutoSized)
        } else if tag.eq("title_bar") {
            Ok(WindowProperty::TitleBar(value.read()?))
        } else if tag.eq("resizable") {
            Ok(WindowProperty::Resizable(value.read()?))
        } else if tag.eq("enabled") {
            Ok(WindowProperty::Enabled(value.read()?))
        } else if tag.eq("interactable") {
            Ok(WindowProperty::Interactable(value.read()?))
        } else if tag.eq("movable") {
            Ok(WindowProperty::Movable(value.read()?))
        } else if tag.eq("collapsible") {
            Ok(WindowProperty::Collapsible(value.read()?))
        } else {
            Err(Error::unknown_field(value, tag, &Self::fields()))
        }
    }
}

/// A window: its title, its properties and its widgets, each in the order in
/// which they were written.
#[derive(Debug, PartialEq, Eq)]
pub struct Window {
    pub title: RichText,
    pub props: Vec<WindowProperty>,
    pub content: Content,
}

/// The mathematical value of a [`Window`].
pub struct WindowView {
    pub title: RichTextView,
    pub props: Seq<WindowPropertyView>,
    pub content: Seq<ContentWidgetView>,
}

impl DeepView for Window {
    type V = WindowView;

    open spec fn deep_view(&self) -> WindowView {
        WindowView {
            title: self.title.deep_view(),
            props: self.props.deep_view(),
            content: self.content.deep_view(),
        }
    }
}

/// What the fields of a window have given so far; `last_content` is the key
/// of the last widget.
pub struct WindowParts {
    pub title: Option<RichTextView>,
    pub props: Seq<WindowPropertyView>,
    pub content: Seq<ContentWidgetView>,
    pub last_content: Option<Seq<char>>,
}

/// The message for a property of a window that is written after a widget.
pub open spec fn window_order_message(key: Seq<char>, last_content: Seq<char>) -> Seq<char> {
    "all window properties should be above content, but `"@ + key + "` is located after `"@
        + last_content + "`"@
}

impl Window {
    /// The keys that a window accepts.
    pub open spec fn names() -> Seq<Seq<char>> {
        seq!["title"@] + WindowProperty::names() + ContentWidget::names()
    }

    /// Nothing given yet.
    pub open spec fn no_parts() -> WindowParts {
        WindowParts {
            title: None,
            props: Seq::empty(),
            content: Seq::empty(),
            last_content: None,
        }
    }

    /// What the title or property `key` with the value under `child` makes
    /// of `parts`; nothing where `key` is neither.
    pub open spec fn with_property(key: Seq<char>, child: ReaderView, parts: WindowParts) -> Option<
        Result<WindowParts, ErrorView>,
    > {
        if key == "title"@ {
            if parts.title is Some {
                Some(Err(ErrorView::duplicate_field(child.path, "title"@)))
            } else {
                Some(
                    wrapped(
                        RichText::decoded(child),
                        |v: RichTextView| WindowParts { title: Some(v), ..parts },
                    ),
                )
            }
        } else if WindowProperty::names().contains(key) {
            Some(
                wrapped(
                    WindowProperty::mapped(key, child),
                    |v: WindowPropertyView| WindowParts { props: parts.props.push(v), ..parts },
                ),
            )
        } else {
            None
        }
    }

    /// What one field makes of `parts`. A title or a property that follows a
    /// widget is an error of its own, which names both keys.
    pub open spec fn step(key: Seq<char>, child: ReaderView, parts: WindowParts) -> Result<
        WindowParts,
        ErrorView,
    > {
        match Self::with_property(key, child, parts) {
            Some(Err(error)) => Err(error),
            Some(Ok(next)) => match parts.last_content {
                Some(last) => Err(ErrorView::custom(child.path, window_order_message(key, last))),
                None => Ok(next),
            },
            None => if ContentWidget::names().contains(key) {
                wrapped(
                    ContentWidget::mapped(key, child),
                    |v: ContentWidgetView|
                        WindowParts {
                            content: parts.content.push(v),
                            last_content: Some(key),
                            ..parts
                        },
                )
            } else {
                Err(ErrorView::unknown_field(child.path, key, Self::names()))
            },
        }
    }

    /// What field `from` and those after it add to `parts`.
    pub open spec fn folded(
        fields: Seq<(Seq<char>, ReaderView)>,
        from: int,
        parts: WindowParts,
    ) -> Result<WindowParts, ErrorView>
        decreases fields.len() - from,
    {
        if from < 0 || from >= fields.len() {
            Ok(parts)
        } else {
            match Self::step(fields[from].0, fields[from].1, parts) {
                Ok(next) => Self::folded(fields, from + 1, next),
                Err(error) => Err(error),
            }
        }
    }

    /// What the first `upto` fields give, where none of them fails.
    pub open spec fn before(fields: Seq<(Seq<char>, ReaderView)>, upto: int) -> Option<WindowParts>
        decreases upto,
    {
        if upto <= 0 {
            Some(Self::no_parts())
        } else {
            match Self::before(fields, upto - 1) {
                Some(parts) => match Self::step(fields[upto - 1].0, fields[upto - 1].1, parts) {
                    Ok(next) => Some(next),
                    Err(_) => None,
                },
                None => None,
            }
        }
    }

    /// The keys that a window accepts.
    pub fn fields() -> (r: Vec<&'static str>)
        ensures
            r.deep_view() == Self::names(),
    {
        let head = vec!["title"];
        assert(head.deep_view() =~= seq!["title"@]);
        concat(&concat(&head, &WindowProperty::fields()), &ContentWidget::fields())
    }
}

impl ReadUiconf for Window {
    /// A window is an object: the title, once, and the properties first,
    /// then the widgets.
    open spec fn decoded(value: ReaderView) -> Result<WindowView, ErrorView> {
        match fields_of(value) {
            Err(error) => Err(error),
            Ok(fields) => match Window::folded(fields, 0, Window::no_parts()) {
                Err(error) => Err(error),
                Ok(parts) => match parts.title {
                    Some(title) => Ok(
                        WindowView { title, props: parts.props, content: parts.content },
                    ),
                    None => Err(ErrorView::missing_field(value.path, "title"@)),
                },
            },
        }
    }

    fn read_uiconf(value: &Reader) -> (r: Result<Self, Error>) {
        let fields = value.read_object()?;
        let ghost view = value.deep_view();
        let ghost views = fields.deep_view();
        let mut title: Option<RichText> = None;
        let mut props: Vec<WindowProperty> = Vec::new();
        let mut content: Vec<ContentWidget> = Vec::new();
        let mut last_content: Option<String> = None;
        let mut i: usize = 0;
        assert(props.deep_view() =~= Seq::<WindowPropertyView>::empty());
        assert(content.deep_view() =~= Seq::<ContentWidgetView>::empty());
        while i < fields.len()
            invariant
                i <= fields.len(),
                view == value.deep_view(),
                views == fields.deep_view(),
                fields_of(view) == Ok::<Seq<(Seq<char>, ReaderView)>, ErrorView>(views),
                Window::folded(views, 0, Window::no_parts()) == Window::folded(
                    views,
                    i as int,
                    WindowParts {
                        title: title.deep_view(),
                        props: props.deep_view(),
                        content: content.deep_view(),
                        last_content: last_content.deep_view(),
                    },
                ),
            decreases fields.len() - i,
        {
            assert(views[i as int] == fields[i as int].deep_view());
            let key = fields[i].0.as_str();
            let child = &fields[i].1;
            let mut should_be_on_top = false;
            if key.eq("title") {
                if title.is_some() {
                    return Err(Error::duplicate_field(child, "title"));
                }
                title = Some(RichText::read_uiconf(child)?);
                should_be_on_top = true;
            } else if contains_name(&WindowProperty::fields(), key) {
                let ghost before = props.deep_view();
                let prop = WindowProperty::read_map_value(key, child)?;
                let ghost added = prop.deep_view();
                props.push(prop);
                assert(props.deep_view() =~= before.push(added));
                should_be_on_top = true;
            } else if contains_name(&ContentWidget::fields(), key) {
                let ghost before = content.deep_view();
                let widget = ContentWidget::read_map_value(key, child)?;
                let ghost added = widget.deep_view();
                content.push(widget);
                assert(content.deep_view() =~= before.push(added));
                last_content = Some(String::from_str(key));
            } else {
                return Err(Error::unknown_field(child, key, &Window::fields()));
            }
            if should_be_on_top {
                match &last_content {
                    Some(last) => {
                        let mut message = String::from_str(
                            "all window properties should be above content, but `",
                        );
                        message.append(key);
                        message.append("` is located after `");
                        message.append(last.as_str());
                        message.append("`");
                        return Err(Error::custom(child, message));
                    },
                    None => {},
                }
            }
            i = i + 1;
        }
        match title {
            Some(title) => {
                let window = Window { title, props, content: Content(content) };
                proof {
                    content_view_is_deep_view(&window.content);
                }
                Ok(window)
            },
            None => Err(Error::missing_field(value, "title")),
        }
    }
}

/// A document: one window.
#[derive(Debug, PartialEq, Eq)]
pub struct Root {
    pub window: Window,
}

impl Root {
    /// The keys that a document accepts.
    pub open spec fn names() -> Seq<Seq<char>> {
        seq!["window"@]
    }

    /// What field `from` of the top level and those after it make of the
    /// window found so far. Only the key `window` is accepted, written with
    /// `=` and once.
    pub open spec fn folded(fields: Seq<RootFieldView>, from: int, window: Option<WindowView>) -> Result<
        Option<WindowView>,
        ErrorView,
    >
        decreases fields.len() - from,
    {
        if from < 0 || from >= fields.len() {
            Ok(window)
        } else {
            let field = fields[from];
            if field.key == "window"@ {
                match field.operator {
                    Some(symbol) => Err(ErrorView::unexpected_operator(field.value.path, symbol)),
                    None => if window is Some {
                        Err(ErrorView::duplicate_field(field.value.path, "window"@))
                    } else {
                        match Window::decoded(field.value) {
                            Ok(found) => Self::folded(fields, from + 1, Some(found)),
                            Err(error) => Err(error),
                        }
                    },
                }
            } else {
                Err(ErrorView::unknown_field(field.value.path, field.key, Self::names()))
            }
        }
    }

    /// The window that the nodes at the top level of a document spell.
    pub open spec fn window_of(nodes: Seq<NodeView>) -> Result<WindowView, ErrorView> {
        match Self::folded(root_fields_of(nodes), 0, None) {
            Err(error) => Err(error),
            Ok(Some(window)) => Ok(window),
            Ok(None) => Err(ErrorView::missing_field(Seq::empty(), "window"@)),
        }
    }

    /// The window that a document spells. Bytes that are no document are a
    /// `DeserializeError` with the parser's message.
    pub open spec fn decoded(data: Seq<u8>) -> Result<WindowView, ErrorView> {
        match document_of(data) {
            Ok(nodes) => Self::window_of(nodes),
            Err(message) => Err(ErrorView::deserialize_error(Seq::empty(), message)),
        }
    }

    /// The keys that a document accepts.
    pub fn fields() -> (r: Vec<&'static str>)
        ensures
            r.deep_view() == Self::names(),
    {
        let r = vec!["window"];
        assert(r.deep_view() =~= Self::names());
        r
    }

    /// Decodes the window from the nodes at the top level of a document.
    pub fn read_nodes(nodes: &Vec<Node>) -> (r: Result<Window, Error>)
        ensures
            outcome(r) == Self::window_of(nodes.deep_view()),
    {
        let fields = root_fields(nodes);
        let ghost views = fields.deep_view();
        let mut window: Option<Window> = None;
        let mut i: usize = 0;
        while i < fields.len()
            invariant
                i <= fields.len(),
                views == fields.deep_view(),
                views == root_fields_of(nodes.deep_view()),
                Root::folded(views, 0, None) == Root::folded(views, i as int, window.deep_view()),
            decreases fields.len() - i,
        {
            assert(views[i as int] == fields[i as int].deep_view());
            let field = &fields[i];
            if field.key.as_str().eq("window") {
                match &field.operator {
                    Some(symbol) => {
                        return Err(Error::unexpected_operator(&field.value, symbol.as_str()));
                    },
                    None => {},
                }
                if window.is_some() {
                    return Err(Error::duplicate_field(&field.value, "window"));
                }
                window = Some(Window::read_uiconf(&field.value)?);
            } else {
                return Err(
                    Error::unknown_field(&field.value, field.key.as_str(), &Root::fields()),
                );
            }
            i = i + 1;
        }
        match window {
            Some(window) => Ok(window),
            None => {
                let nothing = Node::MixedContainer;
                let top = Reader::new(&nothing, Vec::new());
                assert(top.path.deep_view() =~= Seq::<Seq<char>>::empty());
                Err(Error::missing_field(&top, "window"))
            },
        }
    }

    /// Parses a document and decodes its window.
    pub fn read(data: &[u8]) -> (r: Result<Window, Error>)
        ensures
            outcome(r) == Self::decoded(data@),
    {
        match parse_document(data) {
            Ok(nodes) => Root::read_nodes(&nodes),
            Err(message) => {
                let nothing = Node::MixedContainer;
                let top = Reader::new(&nothing, Vec::new());
                assert(top.path.deep_view() =~= Seq::<Seq<char>>::empty());
                Err(Error::deserialize_error(&top, message.as_str()))
            },
        }
    }
}

} // verus!
