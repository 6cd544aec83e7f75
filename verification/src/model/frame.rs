//! What a window shows at one moment: its properties with every binding
//! resolved against the data of that moment.
//!
//! A binding that does not resolve is passed over: what it would have set
//! keeps its default. The first failure of each reference is written to a
//! log of diagnostics.

use vstd::prelude::*;

use crate::model::anchor::{Anchor, Vec2};
use crate::model::color::Color;
use crate::model::rich_text::{
    RichText, RichTextProperty, RichTextPropertyView, RichTextStyle, RichTextView,
};
use crate::model::shape::{Rounding, Sense};
use crate::model::stroke::{Stroke, StrokeView};
use crate::model::widgets::{
    Button, ButtonProperty, ButtonPropertyView, ButtonView, Label, LabelView, Layout, LayoutView,
    Separator, SeparatorView,
};
use crate::model::window::{Window, WindowProperty, WindowPropertyView, WindowView};
use crate::reader::binding::{
    attempted, logged, Attempt, Binding, BindingView, Diagnostic, DiagnosticView,
};
use crate::reader::data_model::{DataObject, Fields, ResolveBinding, ResolveError};
use crate::reader::Number;

verus! {

/// What resolving a part of the document gives: what it shows, the part as
/// it is afterwards, and the log of diagnostics.
pub struct Resolution<S, D> {
    pub shown: S,
    pub after: D,
    pub log: Seq<DiagnosticView>,
}

/// Where one element of a vector changes, the vector as it is viewed
/// changes at that element alone.
pub broadcast proof fn view_after_update<T: DeepView>(before: Vec<T>, after: Vec<T>, index: int)
    requires
        0 <= index < before.len(),
        after@ == before@.update(index, after@[index]),
    ensures
        #![trigger after.deep_view(), before@[index]]
        after.deep_view() == before.deep_view().update(index, after@[index].deep_view()),
{
    assert(after.deep_view() =~= before.deep_view().update(index, after@[index].deep_view()));
}

/// The element at `index`, to be changed in place.
pub fn element_at<T: DeepView>(items: &mut Vec<T>, index: usize) -> (r: &mut T)
    requires
        index < old(items).len(),
    ensures
        *r == old(items)[index as int],
        final(items)@ == old(items)@.update(index as int, *final(r)),
        final(items).deep_view() == old(items).deep_view().update(
            index as int,
            final(r).deep_view(),
        ),
{
    broadcast use view_after_update;

    &mut items[index]
}

/// One trait of the look of a text.
#[derive(Debug, Clone, Copy, PartialEq, Eq, Structural)]
pub enum TextSetting {
    Size(Number),
    Style(RichTextStyle),
    Color(Color),
    BackgroundColor(Color),
    LineHeight(Number),
    ExtraLetterSpacing(Number),
}

/// A text with the traits of its look, in the order in which they apply.
#[derive(Debug, PartialEq, Eq)]
pub struct ResolvedText {
    pub text: String,
    pub settings: Vec<TextSetting>,
}

/// The mathematical value of a [`ResolvedText`].
pub struct ResolvedTextView {
    pub text: Seq<char>,
    pub settings: Seq<TextSetting>,
}

impl DeepView for ResolvedText {
    type V = ResolvedTextView;

    open spec fn deep_view(&self) -> ResolvedTextView {
        ResolvedTextView { text: self.text@, settings: self.settings@ }
    }
}

/// `settings` with what the attempt gave, where it gave something.
pub open spec fn set_by<V, S>(settings: Seq<S>, attempt: Attempt<V>, make: spec_fn(V) -> S) -> Seq<
    S,
> {
    match attempt.value {
        Some(value) => settings.push(make(value)),
        None => settings,
    }
}

impl RichTextPropertyView {
    /// What resolving the property adds to `settings` and to `log`. Every
    /// style of a list of styles is a setting of its own.
    pub open spec fn resolution(
        self,
        fields: Fields,
        settings: Seq<TextSetting>,
        log: Seq<DiagnosticView>,
    ) -> Resolution<Seq<TextSetting>, RichTextPropertyView> {
        match self {
            RichTextPropertyView::Size(binding) => {
                let attempt = attempted::<Number>(binding, fields);
                Resolution {
                    shown: set_by(settings, attempt, |v: Number| TextSetting::Size(v)),
                    after: RichTextPropertyView::Size(attempt.binding),
                    log: logged(log, attempt.warning),
                }
            },
            RichTextPropertyView::Style(styles) => Resolution {
                shown: settings + styles.map_values(|v: RichTextStyle| TextSetting::Style(v)),
                after: self,
                log,
            },
            RichTextPropertyView::Color(binding) => {
                let attempt = attempted::<Color>(binding, fields);
                Resolution {
                    shown: set_by(settings, attempt, |v: Color| TextSetting::Color(v)),
                    after: RichTextPropertyView::Color(attempt.binding),
                    log: logged(log, attempt.warning),
                }
            },
            RichTextPropertyView::BackgroundColor(binding) => {
                let attempt = attempted::<Color>(binding, fields);
                Resolution {
                    shown: set_by(settings, attempt, |v: Color| TextSetting::BackgroundColor(v)),
                    after: RichTextPropertyView::BackgroundColor(attempt.binding),
                    log: logged(log, attempt.warning),
                }
            },
            RichTextPropertyView::LineHeight(binding) => {
                let attempt = attempted::<Number>(binding, fields);
                Resolution {
                    shown: set_by(settings, attempt, |v: Number| TextSetting::LineHeight(v)),
                    after: RichTextPropertyView::LineHeight(attempt.binding),
                    log: logged(log, attempt.warning),
                }
            },
            RichTextPropertyView::ExtraLetterSpacing(binding) => {
                let attempt = attempted::<Number>(binding, fields);
                Resolution {
                    shown: set_by(
                        settings,
                        attempt,
                        |v: Number| TextSetting::ExtraLetterSpacing(v),
                    ),
                    after: RichTextPropertyView::ExtraLetterSpacing(attempt.binding),
                    log: logged(log, attempt.warning),
                }
            },
        }
    }
}

/// What resolving the first `upto` properties of a text gives, one after the
/// other.
pub open spec fn text_settings(
    props: Seq<RichTextPropertyView>,
    upto: int,
    fields: Fields,
    log: Seq<DiagnosticView>,
) -> Resolution<Seq<TextSetting>, Seq<RichTextPropertyView>>
    decreases upto,
{
    if upto <= 0 {
        Resolution { shown: Seq::empty(), after: props, log }
    } else {
        let earlier = text_settings(props, upto - 1, fields, log);
        let step = props[upto - 1].resolution(fields, earlier.shown, earlier.log);
        Resolution {
            shown: step.shown,
            after: earlier.after.update(upto - 1, step.after),
            log: step.log,
        }
    }
}

impl RichTextView {
    /// What resolving the text and its properties gives. A text that does
    /// not resolve is shown empty.
    pub open spec fn resolution(self, fields: Fields, log: Seq<DiagnosticView>) -> Resolution<
        ResolvedTextView,
        RichTextView,
    > {
        let text = attempted::<String>(self.text, fields);
        let props = text_settings(
            self.props,
            self.props.len() as int,
            fields,
            logged(log, text.warning),
        );
        Resolution {
            shown: ResolvedTextView {
                text: match text.value {
                    Some(resolved) => resolved,
                    None => Seq::empty(),
                },
                settings: props.shown,
            },
            after: RichTextView { text: text.binding, props: props.after },
            log: props.log,
        }
    }
}

impl RichTextProperty {
    /// Resolves the property against `data` and adds what it sets to
    /// `settings`.
    pub fn apply(
        &mut self,
        data: &DataObject,
        settings: &mut Vec<TextSetting>,
        log: &mut Vec<Diagnostic>,
    )
        ensures
            final(settings)@ == old(self).deep_view().resolution(
                data.deep_view(),
                old(settings)@,
                old(log).deep_view(),
            ).shown,
            final(self).deep_view() == old(self).deep_view().resolution(
                data.deep_view(),
                old(settings)@,
                old(log).deep_view(),
            ).after,
            final(log).deep_view() == old(self).deep_view().resolution(
                data.deep_view(),
                old(settings)@,
                old(log).deep_view(),
            ).log,
    {
        match self {
            RichTextProperty::Size(binding) => {
                match binding.resolve_or_skip(data, log) {
                    Some(value) => {
                        settings.push(TextSetting::Size(value));
                    },
                    None => {},
                }
            },
            RichTextProperty::Style(styles) => {
                let ghost before = settings@;
                let ghost all = styles.deep_view().map_values(
                    |v: RichTextStyle| TextSetting::Style(v),
                );
                let mut i: usize = 0;
                while i < styles.len()
                    invariant
                        i <= styles.len(),
                        all == styles.deep_view().map_values(
                            |v: RichTextStyle| TextSetting::Style(v),
                        ),
                        settings@ == before + all.take(i as int),
                    decreases styles.len() - i,
                {
                    settings.push(TextSetting::Style(styles[i]));
                    assert(settings@ =~= before + all.take(i + 1));
                    i = i + 1;
                }
                assert(all.take(styles.len() as int) =~= all);
            },
            RichTextProperty::Color(binding) => {
                match binding.resolve_or_skip(data, log) {
                    Some(value) => {
                        settings.push(TextSetting::Color(value));
                    },
                    None => {},
                }
            },
            RichTextProperty::BackgroundColor(binding) => {
                match binding.resolve_or_skip(data, log) {
                    Some(value) => {
                        settings.push(TextSetting::BackgroundColor(value));
                    },
                    None => {},
                }
            },
            RichTextProperty::LineHeight(binding) => {
                match binding.resolve_or_skip(data, log) {
                    Some(value) => {
                        settings.push(TextSetting::LineHeight(value));
                    },
                    None => {},
                }
            },
            RichTextProperty::ExtraLetterSpacing(binding) => {
                match binding.resolve_or_skip(data, log) {
                    Some(value) => {
                        settings.push(TextSetting::ExtraLetterSpacing(value));
                    },
                    None => {},
                }
            },
        }
    }
}

impl RichText {
    /// The text as it is shown with `data`: the text itself, which is empty
    /// where it does not resolve, and the settings of those of its
    /// properties that resolve, in their order.
    pub fn snapshot(&mut self, data: &DataObject, log: &mut Vec<Diagnostic>) -> (r: ResolvedText)
        ensures
            r.deep_view() == old(self).deep_view().resolution(
                data.deep_view(),
                old(log).deep_view(),
            ).shown,
            final(self).deep_view() == old(self).deep_view().resolution(
                data.deep_view(),
                old(log).deep_view(),
            ).after,
            final(log).deep_view() == old(self).deep_view().resolution(
                data.deep_view(),
                old(log).deep_view(),
            ).log,
    {
        let ghost fields = data.deep_view();
        let ghost props = self.props.deep_view();
        let text = match self.text.resolve_text(data, log) {
            Some(text) => text,
            None => String::new(),
        };
        let ghost start = log.deep_view();
        let ghost resolved = self.text.deep_view();
        let mut settings: Vec<TextSetting> = Vec::new();
        let mut i: usize = 0;
        while i < self.props.len()
            invariant
                i <= self.props.len(),
                self.props.len() == props.len(),
                fields == data.deep_view(),
                self.text.deep_view() == resolved,
                settings@ == text_settings(props, i as int, fields, start).shown,
                self.props.deep_view() == text_settings(props, i as int, fields, start).after,
                log.deep_view() == text_settings(props, i as int, fields, start).log,
            decreases self.props.len() - i,
        {
            assert(text_settings(props, i as int, fields, start).after[i as int] == props[i as int]) by {
                untouched_behind(props, i as int, fields, start, i as int);
            }
            let prop = element_at(&mut self.props, i);
            prop.apply(data, &mut settings, log);
            i = i + 1;
        }
        ResolvedText { text, settings }
    }
}

/// The properties behind the first `upto` are as they were.
pub proof fn untouched_behind(
    props: Seq<RichTextPropertyView>,
    upto: int,
    fields: Fields,
    log: Seq<DiagnosticView>,
    index: int,
)
    requires
        0 <= upto <= index < props.len(),
    ensures
        text_settings(props, upto, fields, log).after.len() == props.len(),
        text_settings(props, upto, fields, log).after[index] == props[index],
    decreases upto,
{
    if upto > 0 {
        untouched_behind(props, upto - 1, fields, log, index);
    }
}

/// An outline with its width and colour resolved.
#[derive(Debug, Clone, Copy, PartialEq, Eq, Structural)]
pub struct ResolvedStroke {
    pub width: Number,
    pub color: Color,
}

impl StrokeView {
    /// What resolving the outline gives. A width that does not resolve is
    /// zero, and a colour that does not resolve is white.
    pub open spec fn resolution(self, fields: Fields, log: Seq<DiagnosticView>) -> Resolution<
        ResolvedStroke,
        StrokeView,
    > {
        let width = attempted::<Number>(self.width, fields);
        let color = attempted::<Color>(self.color, fields);
        Resolution {
            shown: ResolvedStroke {
                width: match width.value {
                    Some(resolved) => resolved,
                    None => Number::zero(),
                },
                color: match color.value {
                    Some(resolved) => resolved,
                    None => Color { r: 255, g: 255, b: 255, a: 255 },
                },
            },
            after: StrokeView { width: width.binding, color: color.binding },
            log: logged(logged(log, width.warning), color.warning),
        }
    }
}

impl Stroke {
    /// The outline as it is shown with `data`.
    pub fn snapshot(&mut self, data: &DataObject, log: &mut Vec<Diagnostic>) -> (r: ResolvedStroke)
        ensures
            r == old(self).deep_view().resolution(data.deep_view(), old(log).deep_view()).shown,
            final(self).deep_view() == old(self).deep_view().resolution(
                data.deep_view(),
                old(log).deep_view(),
            ).after,
            final(log).deep_view() == old(self).deep_view().resolution(
                data.deep_view(),
                old(log).deep_view(),
            ).log,
    {
        let width = match self.width.resolve_or_skip(data, log) {
            Some(width) => width,
            None => Number { bits: 0 },
        };
        let color = match self.color.resolve_or_skip(data, log) {
            Some(color) => color,
            None => Color { r: 255, g: 255, b: 255, a: 255 },
        };
        ResolvedStroke { width, color }
    }
}

/// Whether a widget with the visibility `visible` is shown. A widget
/// without one is shown, and so is one whose visibility does not resolve.
pub open spec fn visibility(
    visible: Option<BindingView<bool>>,
    fields: Fields,
    log: Seq<DiagnosticView>,
) -> Resolution<bool, Option<BindingView<bool>>> {
    match visible {
        None => Resolution { shown: true, after: None, log },
        Some(binding) => {
            let attempt = attempted::<bool>(binding, fields);
            Resolution {
                shown: match attempt.value {
                    Some(shown) => shown,
                    None => true,
                },
                after: Some(attempt.binding),
                log: logged(log, attempt.warning),
            }
        },
    }
}

/// Whether a widget with the visibility `visible` is shown with `data`.
pub fn is_shown(
    visible: &mut Option<Binding<bool>>,
    data: &DataObject,
    log: &mut Vec<Diagnostic>,
) -> (r: bool)
    ensures
        r == visibility(old(visible).deep_view(), data.deep_view(), old(log).deep_view()).shown,
        final(visible).deep_view() == visibility(
            old(visible).deep_view(),
            data.deep_view(),
            old(log).deep_view(),
        ).after,
        final(log).deep_view() == visibility(
            old(visible).deep_view(),
            data.deep_view(),
            old(log).deep_view(),
        ).log,
{
    match visible {
        None => true,
        Some(binding) => match binding.resolve_or_skip(data, log) {
            Some(shown) => shown,
            None => true,
        },
    }
}

/// One trait of the look of a window.
#[derive(Debug, Clone, Copy, PartialEq, Eq, Structural)]
pub enum WindowSetting {
    Anchor(Anchor),
    TitleBar(bool),
    DefaultSize(Vec2),
    MinSize(Vec2),
    MaxSize(Vec2),
    FixedSize(Vec2),
    AutoSized,
    Resizable(bool),
    Enabled(bool),
    Interactable(bool),
    Movable(bool),
    Collapsible(bool),
}

/// A window as it is shown: its title and the traits of its look, in the
/// order in which they apply.
#[derive(Debug, PartialEq, Eq)]
pub struct WindowFrame {
    pub title: ResolvedText,
    pub settings: Vec<WindowSetting>,
}

/// The mathematical value of a [`WindowFrame`].
pub struct WindowFrameView {
    pub title: ResolvedTextView,
    pub settings: Seq<WindowSetting>,
}

impl DeepView for WindowFrame {
    type V = WindowFrameView;

    open spec fn deep_view(&self) -> WindowFrameView {
        WindowFrameView { title: self.title.deep_view(), settings: self.settings@ }
    }
}

impl WindowPropertyView {
    /// What resolving the property adds to `settings` and to `log`.
    pub open spec fn resolution(
        self,
        fields: Fields,
        settings: Seq<WindowSetting>,
        log: Seq<DiagnosticView>,
    ) -> Resolution<Seq<WindowSetting>, WindowPropertyView> {
        match self {
            WindowPropertyView::Anchor(value) => Resolution {
                shown: settings.push(WindowSetting::Anchor(value)),
                after: self,
                log,
            },
            WindowPropertyView::DefaultSize(value) => Resolution {
                shown: settings.push(WindowSetting::DefaultSize(value)),
                after: self,
                log,
            },
            WindowPropertyView::MinSize(value) => Resolution {
                shown: settings.push(WindowSetting::MinSize(value)),
                after: self,
                log,
            },
            WindowPropertyView::MaxSize(value) => Resolution {
                shown: settings.push(WindowSetting::MaxSize(value)),
                after: self,
                log,
            },
            WindowPropertyView::FixedSize(value) => Resolution {
                shown: settings.push(WindowSetting::FixedSize(value)),
                after: self,
                log,
            },
            WindowPropertyView::AutoSized => Resolution {
                shown: settings.push(WindowSetting::AutoSized),
                after: self,
                log,
            },
            WindowPropertyView::TitleBar(binding) => {
                let attempt = attempted::<bool>(binding, fields);
                Resolution {
                    shown: set_by(settings, attempt, |v: bool| WindowSetting::TitleBar(v)),
                    after: WindowPropertyView::TitleBar(attempt.binding),
                    log: logged(log, attempt.warning),
                }
            },
            WindowPropertyView::Resizable(binding) => {
                let attempt = attempted::<bool>(binding, fields);
                Resolution {
                    shown: set_by(settings, attempt, |v: bool| WindowSetting::Resizable(v)),
                    after: WindowPropertyView::Resizable(attempt.binding),
                    log: logged(log, attempt.warning),
                }
            },
            WindowPropertyView::Enabled(binding) => {
                let attempt = attempted::<bool>(binding, fields);
                Resolution {
                    shown: set_by(settings, attempt, |v: bool| WindowSetting::Enabled(v)),
                    after: WindowPropertyView::Enabled(attempt.binding),
                    log: logged(log, attempt.warning),
                }
            },
            WindowPropertyView::Interactable(binding) => {
                let attempt = attempted::<bool>(binding, fields);
                Resolution {
                    shown: set_by(settings, attempt, |v: bool| WindowSetting::Interactable(v)),
                    after: WindowPropertyView::Interactable(attempt.binding),
                    log: logged(log, attempt.warning),
                }
            },
            WindowPropertyView::Movable(binding) => {
                let attempt = attempted::<bool>(binding, fields);
                Resolution {
                    shown: set_by(settings, attempt, |v: bool| WindowSetting::Movable(v)),
                    after: WindowPropertyView::Movable(attempt.binding),
                    log: logged(log, attempt.warning),
                }
            },
            WindowPropertyView::Collapsible(binding) => {
                let attempt = attempted::<bool>(binding, fields);
                Resolution {
                    shown: set_by(settings, attempt, |v: bool| WindowSetting::Collapsible(v)),
                    after: WindowPropertyView::Collapsible(attempt.binding),
                    log: logged(log, attempt.warning),
                }
            },
        }
    }
}

/// What resolving the first `upto` properties of a window gives, one after
/// the other.
pub open spec fn window_settings(
    props: Seq<WindowPropertyView>,
    upto: int,
    fields: Fields,
    log: Seq<DiagnosticView>,
) -> Resolution<Seq<WindowSetting>, Seq<WindowPropertyView>>
    decreases upto,
{
    if upto <= 0 {
        Resolution { shown: Seq::empty(), after: props, log }
    } else {
        let earlier = window_settings(props, upto - 1, fields, log);
        let step = props[upto - 1].resolution(fields, earlier.shown, earlier.log);
        Resolution {
            shown: step.shown,
            after: earlier.after.update(upto - 1, step.after),
            log: step.log,
        }
    }
}

/// The properties of a window behind the first `upto` are as they were.
pub proof fn window_untouched_behind(
    props: Seq<WindowPropertyView>,
    upto: int,
    fields: Fields,
    log: Seq<DiagnosticView>,
    index: int,
)
    requires
        0 <= upto <= index < props.len(),
    ensures
        window_settings(props, upto, fields, log).after.len() == props.len(),
        window_settings(props, upto, fields, log).after[index] == props[index],
    decreases upto,
{
    if upto > 0 {
        window_untouched_behind(props, upto - 1, fields, log, index);
    }
}

impl WindowView {
    /// What resolving the title and the properties of the window gives. The
    /// widgets are resolved when they are shown, one by one.
    pub open spec fn frame(self, fields: Fields, log: Seq<DiagnosticView>) -> Resolution<
        WindowFrameView,
        WindowView,
    > {
        let title = self.title.resolution(fields, log);
        let props = window_settings(self.props, self.props.len() as int, fields, title.log);
        Resolution {
            shown: WindowFrameView { title: title.shown, settings: props.shown },
            after: WindowView { title: title.after, props: props.after, content: self.content },
            log: props.log,
        }
    }
}

impl WindowProperty {
    /// Resolves the property against `data` and adds what it sets to
    /// `settings`.
    pub fn apply(
        &mut self,
        data: &DataObject,
        settings: &mut Vec<WindowSetting>,
        log: &mut Vec<Diagnostic>,
    )
        ensures
            final(settings)@ == old(self).deep_view().resolution(
                data.deep_view(),
                old(settings)@,
                old(log).deep_view(),
            ).shown,
            final(self).deep_view() == old(self).deep_view().resolution(
                data.deep_view(),
                old(settings)@,
                old(log).deep_view(),
            ).after,
            final(log).deep_view() == old(self).deep_view().resolution(
                data.deep_view(),
                old(settings)@,
                old(log).deep_view(),
            ).log,
    {
        match self {
            WindowProperty::Anchor(value) => {
                settings.push(WindowSetting::Anchor(*value));
            },
            WindowProperty::DefaultSize(value) => {
                settings.push(WindowSetting::DefaultSize(*value));
            },
            WindowProperty::MinSize(value) => {
                settings.push(WindowSetting::MinSize(*value));
            },
            WindowProperty::MaxSize(value) => {
                settings.push(WindowSetting::MaxSize(*value));
            },
            WindowProperty::FixedSize(value) => {
                settings.push(WindowSetting::FixedSize(*value));
            },
            WindowProperty::AutoSized => {
                settings.push(WindowSetting::AutoSized);
            },
            WindowProperty::TitleBar(binding) => {
                match binding.resolve_or_skip(data, log) {
                    Some(value) => {
                        settings.push(WindowSetting::TitleBar(value));
                    },
                    None => {},
                }
            },
            WindowProperty::Resizable(binding) => {
                match binding.resolve_or_skip(data, log) {
                    Some(value) => {
                        settings.push(WindowSetting::Resizable(value));
                    },
                    None => {},
                }
            },
            WindowProperty::Enabled(binding) => {
                match binding.resolve_or_skip(data, log) {
                    Some(value) => {
                        settings.push(WindowSetting::Enabled(value));
                    },
                    None => {},
                }
            },
            WindowProperty::Interactable(binding) => {
                match binding.resolve_or_skip(data, log) {
                    Some(value) => {
                        settings.push(WindowSetting::Interactable(value));
                    },
                    None => {},
                }
            },
            WindowProperty::Movable(binding) => {
                match binding.resolve_or_skip(data, log) {
                    Some(value) => {
                        settings.push(WindowSetting::Movable(value));
                    },
                    None => {},
                }
            },
            WindowProperty::Collapsible(binding) => {
                match binding.resolve_or_skip(data, log) {
                    Some(value) => {
                        settings.push(WindowSetting::Collapsible(value));
                    },
                    None => {},
                }
            },
        }
    }
}

impl Window {
    /// The window as it is shown with `data`: its title, and the settings of
    /// those of its properties that resolve, in their order.
    pub fn frame(&mut self, data: &DataObject, log: &mut Vec<Diagnostic>) -> (r: WindowFrame)
        ensures
            r.deep_view() == old(self).deep_view().frame(
                data.deep_view(),
                old(log).deep_view(),
            ).shown,
            final(self).deep_view() == old(self).deep_view().frame(
                data.deep_view(),
                old(log).deep_view(),
            ).after,
            final(log).deep_view() == old(self).deep_view().frame(
                data.deep_view(),
                old(log).deep_view(),
            ).log,
    {
        let ghost fields = data.deep_view();
        let ghost props = self.props.deep_view();
        let ghost content = self.content.deep_view();
        let title = self.title.snapshot(data, log);
        let ghost start = log.deep_view();
        let ghost resolved = self.title.deep_view();
        let mut settings: Vec<WindowSetting> = Vec::new();
        let mut i: usize = 0;
        while i < self.props.len()
            invariant
                i <= self.props.len(),
                self.props.len() == props.len(),
                fields == data.deep_view(),
                self.title.deep_view() == resolved,
                self.content.deep_view() == content,
                settings@ == window_settings(props, i as int, fields, start).shown,
                self.props.deep_view() == window_settings(props, i as int, fields, start).after,
                log.deep_view() == window_settings(props, i as int, fields, start).log,
            decreases self.props.len() - i,
        {
            proof {
                window_untouched_behind(props, i as int, fields, start, i as int);
            }
            let prop = element_at(&mut self.props, i);
            prop.apply(data, &mut settings, log);
            i = i + 1;
        }
        WindowFrame { title, settings }
    }
}

/// One trait of the look of a button.
#[derive(Debug, PartialEq, Eq)]
pub enum ButtonSetting {
    ShortcutText(ResolvedText),
    Wrap(bool),
    Fill(Color),
    Stroke(ResolvedStroke),
    Sense(Sense),
    Frame(bool),
    MinSize(Vec2),
    Rounding(Rounding),
    Selected(bool),
}

/// The mathematical value of a [`ButtonSetting`].
pub enum ButtonSettingView {
    ShortcutText(ResolvedTextView),
    Wrap(bool),
    Fill(Color),
    Stroke(ResolvedStroke),
    Sense(Sense),
    Frame(bool),
    MinSize(Vec2),
    Rounding(Rounding),
    Selected(bool),
}

impl DeepView for ButtonSetting {
    type V = ButtonSettingView;

    open spec fn deep_view(&self) -> ButtonSettingView {
        match self {
            ButtonSetting::ShortcutText(text) => ButtonSettingView::ShortcutText(text.deep_view()),
            ButtonSetting::Wrap(wrap) => ButtonSettingView::Wrap(*wrap),
            ButtonSetting::Fill(color) => ButtonSettingView::Fill(*color),
            ButtonSetting::Stroke(stroke) => ButtonSettingView::Stroke(*stroke),
            ButtonSetting::Sense(sense) => ButtonSettingView::Sense(*sense),
            ButtonSetting::Frame(frame) => ButtonSettingView::Frame(*frame),
            ButtonSetting::MinSize(size) => ButtonSettingView::MinSize(*size),
            ButtonSetting::Rounding(rounding) => ButtonSettingView::Rounding(*rounding),
            ButtonSetting::Selected(selected) => ButtonSettingView::Selected(*selected),
        }
    }
}

/// A button as it is shown: its text, whether it is small, and the traits
/// of its look, in the order in which they apply.
#[derive(Debug, PartialEq, Eq)]
pub struct ButtonFrame {
    pub text: ResolvedText,
    pub small: bool,
    pub settings: Vec<ButtonSetting>,
}

/// The mathematical value of a [`ButtonFrame`].
pub struct ButtonFrameView {
    pub text: ResolvedTextView,
    pub small: bool,
    pub settings: Seq<ButtonSettingView>,
}

impl DeepView for ButtonFrame {
    type V = ButtonFrameView;

    open spec fn deep_view(&self) -> ButtonFrameView {
        ButtonFrameView {
            text: self.text.deep_view(),
            small: self.small,
            settings: self.settings.deep_view(),
        }
    }
}

impl ButtonPropertyView {
    /// What resolving the property adds to `settings` and to `log`.
    pub open spec fn resolution(
        self,
        fields: Fields,
        settings: Seq<ButtonSettingView>,
        log: Seq<DiagnosticView>,
    ) -> Resolution<Seq<ButtonSettingView>, ButtonPropertyView> {
        match self {
            ButtonPropertyView::ShortcutText(text) => {
                let resolved = text.resolution(fields, log);
                Resolution {
                    shown: settings.push(ButtonSettingView::ShortcutText(resolved.shown)),
                    after: ButtonPropertyView::ShortcutText(resolved.after),
                    log: resolved.log,
                }
            },
            ButtonPropertyView::Wrap(wrap) => Resolution {
                shown: settings.push(ButtonSettingView::Wrap(wrap)),
                after: self,
                log,
            },
            ButtonPropertyView::Fill(binding) => {
                let attempt = attempted::<Color>(binding, fields);
                Resolution {
                    shown: set_by(settings, attempt, |v: Color| ButtonSettingView::Fill(v)),
                    after: ButtonPropertyView::Fill(attempt.binding),
                    log: logged(log, attempt.warning),
                }
            },
            ButtonPropertyView::Stroke(stroke) => {
                let resolved = stroke.resolution(fields, log);
                Resolution {
                    shown: settings.push(ButtonSettingView::Stroke(resolved.shown)),
                    after: ButtonPropertyView::Stroke(resolved.after),
                    log: resolved.log,
                }
            },
            ButtonPropertyView::Sense(sense) => Resolution {
                shown: settings.push(ButtonSettingView::Sense(sense)),
                after: self,
                log,
            },
            ButtonPropertyView::Frame(frame) => Resolution {
                shown: settings.push(ButtonSettingView::Frame(frame)),
                after: self,
                log,
            },
            ButtonPropertyView::MinSize(size) => Resolution {
                shown: settings.push(ButtonSettingView::MinSize(size)),
                after: self,
                log,
            },
            ButtonPropertyView::Rounding(rounding) => Resolution {
                shown: settings.push(ButtonSettingView::Rounding(rounding)),
                after: self,
                log,
            },
            ButtonPropertyView::Selected(selected) => Resolution {
                shown: settings.push(ButtonSettingView::Selected(selected)),
                after: self,
                log,
            },
        }
    }
}

/// What resolving the first `upto` properties of a button gives, one after
/// the other.
pub open spec fn button_settings(
    props: Seq<ButtonPropertyView>,
    upto: int,
    fields: Fields,
    log: Seq<DiagnosticView>,
) -> Resolution<Seq<ButtonSettingView>, Seq<ButtonPropertyView>>
    decreases upto,
{
    if upto <= 0 {
        Resolution { shown: Seq::empty(), after: props, log }
    } else {
        let earlier = button_settings(props, upto - 1, fields, log);
        let step = props[upto - 1].resolution(fields, earlier.shown, earlier.log);
        Resolution {
            shown: step.shown,
            after: earlier.after.update(upto - 1, step.after),
            log: step.log,
        }
    }
}

/// The properties of a button behind the first `upto` are as they were.
pub proof fn button_untouched_behind(
    props: Seq<ButtonPropertyView>,
    upto: int,
    fields: Fields,
    log: Seq<DiagnosticView>,
    index: int,
)
    requires
        0 <= upto <= index < props.len(),
    ensures
        button_settings(props, upto, fields, log).after.len() == props.len(),
        button_settings(props, upto, fields, log).after[index] == props[index],
    decreases upto,
{
    if upto > 0 {
        button_untouched_behind(props, upto - 1, fields, log, index);
    }
}

impl ButtonView {
    /// What resolving the button gives. A button whose visibility resolves
    /// to false shows nothing, and nothing else of it is resolved.
    pub open spec fn frame(self, fields: Fields, log: Seq<DiagnosticView>) -> Resolution<
        Option<ButtonFrameView>,
        ButtonView,
    > {
        let visible = visibility(self.visible, fields, log);
        if !visible.shown {
            Resolution {
                shown: None,
                after: ButtonView { visible: visible.after, ..self },
                log: visible.log,
            }
        } else {
            let text = self.text.resolution(fields, visible.log);
            let props = button_settings(self.props, self.props.len() as int, fields, text.log);
            Resolution {
                shown: Some(
                    ButtonFrameView { text: text.shown, small: self.small, settings: props.shown },
                ),
                after: ButtonView {
                    text: text.after,
                    visible: visible.after,
                    props: props.after,
                    ..self
                },
                log: props.log,
            }
        }
    }
}

impl LabelView {
    /// What resolving the label gives: its text, or nothing where its
    /// visibility resolves to false.
    pub open spec fn frame(self, fields: Fields, log: Seq<DiagnosticView>) -> Resolution<
        Option<ResolvedTextView>,
        LabelView,
    > {
        let visible = visibility(self.visible, fields, log);
        if !visible.shown {
            Resolution {
                shown: None,
                after: LabelView { visible: visible.after, ..self },
                log: visible.log,
            }
        } else {
            let text = self.text.resolution(fields, visible.log);
            Resolution {
                shown: Some(text.shown),
                after: LabelView { text: text.after, visible: visible.after, ..self },
                log: text.log,
            }
        }
    }
}

impl SeparatorView {
    /// Whether the separator is shown.
    pub open spec fn shown(self, fields: Fields, log: Seq<DiagnosticView>) -> Resolution<
        bool,
        SeparatorView,
    > {
        let visible = visibility(self.visible, fields, log);
        Resolution {
            shown: visible.shown,
            after: SeparatorView { visible: visible.after, ..self },
            log: visible.log,
        }
    }
}

impl LayoutView {
    /// Whether the layout and the widgets in it are shown.
    pub open spec fn shown(self, fields: Fields, log: Seq<DiagnosticView>) -> Resolution<
        bool,
        LayoutView,
    > {
        let visible = visibility(self.visible, fields, log);
        Resolution {
            shown: visible.shown,
            after: LayoutView { visible: visible.after, ..self },
            log: visible.log,
        }
    }
}

impl ButtonProperty {
    /// Resolves the property against `data` and adds what it sets to
    /// `settings`.
    pub fn apply(
        &mut self,
        data: &DataObject,
        settings: &mut Vec<ButtonSetting>,
        log: &mut Vec<Diagnostic>,
    )
        ensures
            final(settings).deep_view() == old(self).deep_view().resolution(
                data.deep_view(),
                old(settings).deep_view(),
                old(log).deep_view(),
            ).shown,
            final(self).deep_view() == old(self).deep_view().resolution(
                data.deep_view(),
                old(settings).deep_view(),
                old(log).deep_view(),
            ).after,
            final(log).deep_view() == old(self).deep_view().resolution(
                data.deep_view(),
                old(settings).deep_view(),
                old(log).deep_view(),
            ).log,
    {
        let ghost before = settings.deep_view();
        let setting: Option<ButtonSetting> = match self {
            ButtonProperty::ShortcutText(text) => Some(
                ButtonSetting::ShortcutText(text.snapshot(data, log)),
            ),
            ButtonProperty::Wrap(wrap) => Some(ButtonSetting::Wrap(*wrap)),
            ButtonProperty::Fill(binding) => match binding.resolve_or_skip(data, log) {
                Some(color) => Some(ButtonSetting::Fill(color)),
                None => None,
            },
            ButtonProperty::Stroke(stroke) => Some(
                ButtonSetting::Stroke(stroke.snapshot(data, log)),
            ),
            ButtonProperty::Sense(sense) => Some(ButtonSetting::Sense(*sense)),
            ButtonProperty::Frame(frame) => Some(ButtonSetting::Frame(*frame)),
            ButtonProperty::MinSize(size) => Some(ButtonSetting::MinSize(*size)),
            ButtonProperty::Rounding(rounding) => Some(ButtonSetting::Rounding(*rounding)),
            ButtonProperty::Selected(selected) => Some(ButtonSetting::Selected(*selected)),
        };
        match setting {
            Some(setting) => {
                let ghost added = setting.deep_view();
                settings.push(setting);
                assert(settings.deep_view() =~= before.push(added));
            },
            None => {},
        }
    }
}

impl Button {
    /// The button as it is shown with `data`, or nothing where it is not
    /// shown.
    pub fn frame(&mut self, data: &DataObject, log: &mut Vec<Diagnostic>) -> (r: Option<
        ButtonFrame,
    >)
        ensures
            r.deep_view() == old(self).deep_view().frame(
                data.deep_view(),
                old(log).deep_view(),
            ).shown,
            final(self).deep_view() == old(self).deep_view().frame(
                data.deep_view(),
                old(log).deep_view(),
            ).after,
            final(log).deep_view() == old(self).deep_view().frame(
                data.deep_view(),
                old(log).deep_view(),
            ).log,
    {
        let ghost fields = data.deep_view();
        let ghost props = self.props.deep_view();
        let ghost response = self.response.deep_view();
        if !is_shown(&mut self.visible, data, log) {
            return None;
        }
        let ghost visible = self.visible.deep_view();
        let text = self.text.snapshot(data, log);
        let ghost start = log.deep_view();
        let ghost resolved = self.text.deep_view();
        let mut settings: Vec<ButtonSetting> = Vec::new();
        let mut i: usize = 0;
        assert(settings.deep_view() =~= Seq::<ButtonSettingView>::empty());
        while i < self.props.len()
            invariant
                i <= self.props.len(),
                self.props.len() == props.len(),
                fields == data.deep_view(),
                self.text.deep_view() == resolved,
                self.visible.deep_view() == visible,
                self.small == old(self).small,
                self.response.deep_view() == response,
                settings.deep_view() == button_settings(props, i as int, fields, start).shown,
                self.props.deep_view() == button_settings(props, i as int, fields, start).after,
                log.deep_view() == button_settings(props, i as int, fields, start).log,
            decreases self.props.len() - i,
        {
            proof {
                button_untouched_behind(props, i as int, fields, start, i as int);
            }
            let prop = element_at(&mut self.props, i);
            prop.apply(data, &mut settings, log);
            i = i + 1;
        }
        Some(ButtonFrame { text, small: self.small, settings })
    }
}

impl Label {
    /// The text of the label as it is shown with `data`, or nothing where
    /// the label is not shown.
    pub fn frame(&mut self, data: &DataObject, log: &mut Vec<Diagnostic>) -> (r: Option<
        ResolvedText,
    >)
        ensures
            r.deep_view() == old(self).deep_view().frame(
                data.deep_view(),
                old(log).deep_view(),
            ).shown,
            final(self).deep_view() == old(self).deep_view().frame(
                data.deep_view(),
                old(log).deep_view(),
            ).after,
            final(log).deep_view() == old(self).deep_view().frame(
                data.deep_view(),
                old(log).deep_view(),
            ).log,
    {
        if !is_shown(&mut self.visible, data, log) {
            return None;
        }
        Some(self.text.snapshot(data, log))
    }
}

impl Separator {
    /// Whether the separator is shown with `data`.
    pub fn shown(&mut self, data: &DataObject, log: &mut Vec<Diagnostic>) -> (r: bool)
        ensures
            r == old(self).deep_view().shown(data.deep_view(), old(log).deep_view()).shown,
            final(self).deep_view() == old(self).deep_view().shown(
                data.deep_view(),
                old(log).deep_view(),
            ).after,
            final(log).deep_view() == old(self).deep_view().shown(
                data.deep_view(),
                old(log).deep_view(),
            ).log,
    {
        is_shown(&mut self.visible, data, log)
    }
}

impl Layout {
    /// Whether the layout and the widgets in it are shown with `data`.
    pub fn shown(&mut self, data: &DataObject, log: &mut Vec<Diagnostic>) -> (r: bool)
        ensures
            r == old(self).deep_view().shown(data.deep_view(), old(log).deep_view()).shown,
            final(self).deep_view() == old(self).deep_view().shown(
                data.deep_view(),
                old(log).deep_view(),
            ).after,
            final(log).deep_view() == old(self).deep_view().shown(
                data.deep_view(),
                old(log).deep_view(),
            ).log,
    {
        is_shown(&mut self.visible, data, log)
    }
}

impl ResolveBinding for RichText {
    type Item = ResolvedText;

    /// The text as it is shown with `data`. This never fails, and no
    /// diagnostic is kept: use [`RichText::snapshot`] to have them.
    fn resolve(&mut self, data: &DataObject) -> (r: Result<ResolvedText, ResolveError>)
        ensures
            r matches Ok(shown) && shown.deep_view() == old(self).deep_view().resolution(
                data.deep_view(),
                Seq::empty(),
            ).shown,
            final(self).deep_view() == old(self).deep_view().resolution(
                data.deep_view(),
                Seq::empty(),
            ).after,
    {
        let mut log: Vec<Diagnostic> = Vec::new();
        assert(log.deep_view() =~= Seq::<DiagnosticView>::empty());
        Ok(self.snapshot(data, &mut log))
    }
}

impl ResolveBinding for Stroke {
    type Item = ResolvedStroke;

    /// The outline as it is shown with `data`. This never fails, and no
    /// diagnostic is kept: use [`Stroke::snapshot`] to have them.
    fn resolve(&mut self, data: &DataObject) -> (r: Result<ResolvedStroke, ResolveError>)
        ensures
            r == Ok::<ResolvedStroke, ResolveError>(
                old(self).deep_view().resolution(data.deep_view(), Seq::empty()).shown,
            ),
            final(self).deep_view() == old(self).deep_view().resolution(
                data.deep_view(),
                Seq::empty(),
            ).after,
    {
        let mut log: Vec<Diagnostic> = Vec::new();
        assert(log.deep_view() =~= Seq::<DiagnosticView>::empty());
        Ok(self.snapshot(data, &mut log))
    }
}

} // verus!
