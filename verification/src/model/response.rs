//! What a widget does with what happened to it: events are counted in the
//! triggers they are bound to.

use vstd::prelude::*;

use crate::model::frame::element_at;
use crate::model::widgets::{
    response_view_is_deep_view, Response, ResponseProperty, ResponsePropertyView,
};
use crate::reader::binding::{
    attempted, attempted_ref, logged, report, BindingRef, BindingRefView, BindingView, Diagnostic,
    DiagnosticView,
};
use crate::reader::data_model::{
    same_field_is_no_change, with_field, DataObject, Fields, Trigger, ValueView,
};

verus! {

/// What happened to a widget since it was last shown.
#[derive(Debug, Clone, Copy, PartialEq, Eq, Structural, Default)]
pub struct Interaction {
    pub clicked: bool,
    pub secondary_clicked: bool,
    pub middle_clicked: bool,
    pub double_clicked: bool,
    pub triple_clicked: bool,
    pub clicked_elsewhere: bool,
    pub hovered: bool,
    pub highlighted: bool,
    pub changed: bool,
}

/// What is to be done for a widget after one of its responses was applied.
#[derive(Debug, Clone, Copy, PartialEq, Eq, Structural)]
pub enum ResponseAction {
    /// Nothing.
    Nothing,
    /// The widgets of the response are to be shown while the pointer is
    /// above the widget.
    ShowOnHover,
    /// The same, while the widget is disabled.
    ShowOnDisabledHover,
    /// The same, at the place of the pointer.
    ShowOnHoverAtPointer,
    /// The widget is to be highlighted.
    Highlight,
}

/// What counting an event gives: the reference and the data as they are
/// afterwards, and the log of diagnostics.
pub struct Counted {
    pub reference: BindingRefView,
    pub fields: Fields,
    pub log: Seq<DiagnosticView>,
}

/// Counts an event in the trigger that `reference` stands for, where it
/// `happened`. The reference is resolved whether it happened or not.
pub open spec fn counted(
    reference: BindingRefView,
    happened: bool,
    fields: Fields,
    log: Seq<DiagnosticView>,
) -> Counted {
    let attempt = attempted_ref::<Trigger>(reference, fields);
    Counted {
        reference: match attempt.binding {
            BindingView::Ref(after) => after,
            BindingView::Value(_) => reference,
        },
        fields: match attempt.value {
            Some(trigger) => if happened {
                with_field(fields, reference.name, ValueView::Trigger(trigger.triggered()))
            } else {
                fields
            },
            None => fields,
        },
        log: logged(log, attempt.warning),
    }
}

/// Counts an event in the trigger that `reference` stands for, where it
/// `happened`.
pub fn count(
    reference: &mut BindingRef<Trigger>,
    happened: bool,
    data: &mut DataObject,
    log: &mut Vec<Diagnostic>,
)
    ensures
        final(reference).deep_view() == counted(
            old(reference).deep_view(),
            happened,
            old(data).deep_view(),
            old(log).deep_view(),
        ).reference,
        final(data).deep_view() == counted(
            old(reference).deep_view(),
            happened,
            old(data).deep_view(),
            old(log).deep_view(),
        ).fields,
        final(log).deep_view() == counted(
            old(reference).deep_view(),
            happened,
            old(data).deep_view(),
            old(log).deep_view(),
        ).log,
{
    let ghost fields = data.deep_view();
    match reference.resolve_mut(data) {
        Ok(trigger) => {
            proof {
                same_field_is_no_change(fields, reference.name@, ValueView::Trigger(*trigger));
            }
            if happened {
                trigger.trigger();
            }
        },
        Err(error) => {
            report(log, &reference.name, error);
        },
    }
}

/// What applying one response gives: the response, the data and the events
/// as they are afterwards, what is to be done, and the log of diagnostics.
pub struct Applied {
    pub after: ResponsePropertyView,
    pub fields: Fields,
    pub events: Interaction,
    pub action: ResponseAction,
    pub log: Seq<DiagnosticView>,
}

/// What applying a response that counts an event gives, but for the
/// response as it is afterwards.
pub open spec fn applied_count(step: Counted, events: Interaction, after: ResponsePropertyView) -> Applied {
    Applied {
        after,
        fields: step.fields,
        events,
        action: ResponseAction::Nothing,
        log: step.log,
    }
}

impl ResponsePropertyView {
    /// What applying the response to the events of a widget gives. A
    /// trigger counts its event. Widgets for the pointer above the widget
    /// are left to be shown. A highlight that resolves to true is left to
    /// be made, and the widget counts as highlighted from then on.
    pub open spec fn applied(self, fields: Fields, events: Interaction, log: Seq<DiagnosticView>) -> Applied {
        match self {
            ResponsePropertyView::Clicked(reference) => {
                let step = counted(reference, events.clicked, fields, log);
                applied_count(step, events, ResponsePropertyView::Clicked(step.reference))
            },
            ResponsePropertyView::SecondaryClicked(reference) => {
                let step = counted(reference, events.secondary_clicked, fields, log);
                applied_count(step, events, ResponsePropertyView::SecondaryClicked(step.reference))
            },
            ResponsePropertyView::MiddleClicked(reference) => {
                let step = counted(reference, events.middle_clicked, fields, log);
                applied_count(step, events, ResponsePropertyView::MiddleClicked(step.reference))
            },
            ResponsePropertyView::DoubleClicked(reference) => {
                let step = counted(reference, events.double_clicked, fields, log);
                applied_count(step, events, ResponsePropertyView::DoubleClicked(step.reference))
            },
            ResponsePropertyView::TripleClicked(reference) => {
                let step = counted(reference, events.triple_clicked, fields, log);
                applied_count(step, events, ResponsePropertyView::TripleClicked(step.reference))
            },
            ResponsePropertyView::ClickedElsewhere(reference) => {
                let step = counted(reference, events.clicked_elsewhere, fields, log);
                applied_count(step, events, ResponsePropertyView::ClickedElsewhere(step.reference))
            },
            ResponsePropertyView::Hovered(reference) => {
                let step = counted(reference, events.hovered, fields, log);
                applied_count(step, events, ResponsePropertyView::Hovered(step.reference))
            },
            ResponsePropertyView::Highlighted(reference) => {
                let step = counted(reference, events.highlighted, fields, log);
                applied_count(step, events, ResponsePropertyView::Highlighted(step.reference))
            },
            ResponsePropertyView::Changed(reference) => {
                let step = counted(reference, events.changed, fields, log);
                applied_count(step, events, ResponsePropertyView::Changed(step.reference))
            },
            ResponsePropertyView::OnHover(_) => Applied {
                after: self,
                fields,
                events,
                action: ResponseAction::ShowOnHover,
                log,
            },
            ResponsePropertyView::OnDisabledHover(_) => Applied {
                after: self,
                fields,
                events,
                action: ResponseAction::ShowOnDisabledHover,
                log,
            },
            ResponsePropertyView::OnHoverAtPointer(_) => Applied {
                after: self,
                fields,
                events,
                action: ResponseAction::ShowOnHoverAtPointer,
                log,
            },
            ResponsePropertyView::Highlight(binding) => {
                let attempt = attempted::<bool>(binding, fields);
                let lit = attempt.value == Some(true);
                Applied {
                    after: ResponsePropertyView::Highlight(attempt.binding),
                    fields,
                    events: if lit {
                        Interaction { highlighted: true, ..events }
                    } else {
                        events
                    },
                    action: if lit {
                        ResponseAction::Highlight
                    } else {
                        ResponseAction::Nothing
                    },
                    log: logged(log, attempt.warning),
                }
            },
        }
    }
}

impl ResponseProperty {
    /// Applies the response to the events of a widget, and tells what is to
    /// be done for the widget.
    pub fn apply(
        &mut self,
        data: &mut DataObject,
        events: &mut Interaction,
        log: &mut Vec<Diagnostic>,
    ) -> (action: ResponseAction)
        ensures
            final(self).deep_view() == old(self).deep_view().applied(
                old(data).deep_view(),
                *old(events),
                old(log).deep_view(),
            ).after,
            final(data).deep_view() == old(self).deep_view().applied(
                old(data).deep_view(),
                *old(events),
                old(log).deep_view(),
            ).fields,
            *final(events) == old(self).deep_view().applied(
                old(data).deep_view(),
                *old(events),
                old(log).deep_view(),
            ).events,
            action == old(self).deep_view().applied(
                old(data).deep_view(),
                *old(events),
                old(log).deep_view(),
            ).action,
            final(log).deep_view() == old(self).deep_view().applied(
                old(data).deep_view(),
                *old(events),
                old(log).deep_view(),
            ).log,
    {
        match self {
            ResponseProperty::Clicked(reference) => {
                count(reference, events.clicked, data, log);
                ResponseAction::Nothing
            },
            ResponseProperty::SecondaryClicked(reference) => {
                count(reference, events.secondary_clicked, data, log);
                ResponseAction::Nothing
            },
            ResponseProperty::MiddleClicked(reference) => {
                count(reference, events.middle_clicked, data, log);
                ResponseAction::Nothing
            },
            ResponseProperty::DoubleClicked(reference) => {
                count(reference, events.double_clicked, data, log);
                ResponseAction::Nothing
            },
            ResponseProperty::TripleClicked(reference) => {
                count(reference, events.triple_clicked, data, log);
                ResponseAction::Nothing
            },
            ResponseProperty::ClickedElsewhere(reference) => {
                count(reference, events.clicked_elsewhere, data, log);
                ResponseAction::Nothing
            },
            ResponseProperty::Hovered(reference) => {
                count(reference, events.hovered, data, log);
                ResponseAction::Nothing
            },
            ResponseProperty::Highlighted(reference) => {
                count(reference, events.highlighted, data, log);
                ResponseAction::Nothing
            },
            ResponseProperty::Changed(reference) => {
                count(reference, events.changed, data, log);
                ResponseAction::Nothing
            },
            ResponseProperty::OnHover(_) => ResponseAction::ShowOnHover,
            ResponseProperty::OnDisabledHover(_) => ResponseAction::ShowOnDisabledHover,
            ResponseProperty::OnHoverAtPointer(_) => ResponseAction::ShowOnHoverAtPointer,
            ResponseProperty::Highlight(binding) => {
                match binding.resolve_or_skip(data, log) {
                    Some(true) => {
                        events.highlighted = true;
                        ResponseAction::Highlight
                    },
                    _ => ResponseAction::Nothing,
                }
            },
        }
    }
}

/// What applying the responses of a widget gives: the responses, the data
/// and the events as they are afterwards, what is to be done, in order, and
/// the log of diagnostics.
pub struct Processed {
    pub after: Seq<ResponsePropertyView>,
    pub fields: Fields,
    pub events: Interaction,
    pub actions: Seq<ResponseAction>,
    pub log: Seq<DiagnosticView>,
}

/// What applying the first `upto` responses of a widget gives, one after the
/// other.
pub open spec fn processed(
    responses: Seq<ResponsePropertyView>,
    upto: int,
    fields: Fields,
    events: Interaction,
    log: Seq<DiagnosticView>,
) -> Processed
    decreases upto,
{
    if upto <= 0 {
        Processed { after: responses, fields, events, actions: Seq::empty(), log }
    } else {
        let earlier = processed(responses, upto - 1, fields, events, log);
        let step = responses[upto - 1].applied(earlier.fields, earlier.events, earlier.log);
        Processed {
            after: earlier.after.update(upto - 1, step.after),
            fields: step.fields,
            events: step.events,
            actions: earlier.actions.push(step.action),
            log: step.log,
        }
    }
}

/// The responses behind the first `upto` are as they were.
pub proof fn responses_untouched_behind(
    responses: Seq<ResponsePropertyView>,
    upto: int,
    fields: Fields,
    events: Interaction,
    log: Seq<DiagnosticView>,
    index: int,
)
    requires
        0 <= upto <= index < responses.len(),
    ensures
        processed(responses, upto, fields, events, log).after.len() == responses.len(),
        processed(responses, upto, fields, events, log).after[index] == responses[index],
    decreases upto,
{
    if upto > 0 {
        responses_untouched_behind(responses, upto - 1, fields, events, log, index);
    }
}

impl Response {
    /// Applies the responses of a widget to what happened to it, in their
    /// order, and tells for each what is to be done.
    pub fn process(
        &mut self,
        data: &mut DataObject,
        events: Interaction,
        log: &mut Vec<Diagnostic>,
    ) -> (actions: Vec<ResponseAction>)
        ensures
            final(self).deep_view() == processed(
                old(self).deep_view(),
                old(self).deep_view().len() as int,
                old(data).deep_view(),
                events,
                old(log).deep_view(),
            ).after,
            final(data).deep_view() == processed(
                old(self).deep_view(),
                old(self).deep_view().len() as int,
                old(data).deep_view(),
                events,
                old(log).deep_view(),
            ).fields,
            actions@ == processed(
                old(self).deep_view(),
                old(self).deep_view().len() as int,
                old(data).deep_view(),
                events,
                old(log).deep_view(),
            ).actions,
            final(log).deep_view() == processed(
                old(self).deep_view(),
                old(self).deep_view().len() as int,
                old(data).deep_view(),
                events,
                old(log).deep_view(),
            ).log,
    {
        proof {
            response_view_is_deep_view(self);
        }
        let ghost responses = self.0.deep_view();
        let ghost fields = data.deep_view();
        let ghost start = log.deep_view();
        let mut seen = events;
        let mut actions: Vec<ResponseAction> = Vec::new();
        let mut i: usize = 0;
        while i < self.0.len()
            invariant
                i <= self.0.len(),
                self.0.len() == responses.len(),
                self.0.deep_view() == processed(responses, i as int, fields, events, start).after,
                data.deep_view() == processed(responses, i as int, fields, events, start).fields,
                seen == processed(responses, i as int, fields, events, start).events,
                actions@ == processed(responses, i as int, fields, events, start).actions,
                log.deep_view() == processed(responses, i as int, fields, events, start).log,
            decreases self.0.len() - i,
        {
            proof {
                responses_untouched_behind(responses, i as int, fields, events, start, i as int);
            }
            let response = element_at(&mut self.0, i);
            let action = response.apply(data, &mut seen, log);
            actions.push(action);
            i = i + 1;
        }
        proof {
            response_view_is_deep_view(self);
        }
        actions
    }
}

} // verus!
