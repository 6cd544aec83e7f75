use uiconf::model::{
    Button, ButtonFrame, ButtonProperty, ButtonSetting, Color, Content, ContentWidget,
    Interaction, Label, ResolvedStroke, ResolvedText, Response, ResponseAction, ResponseProperty,
    RichText, RichTextProperty, RichTextStyle, Root, Stroke, TextSetting, Window, WindowFrame,
    WindowSetting,
};
use uiconf::model::frame::is_shown;
use uiconf::model::response::count;
use uiconf::reader::binding::{Binding, BindingRef, Diagnostic};
use uiconf::reader::data_model::{
    DataObject, FieldType, Reason, ResolveBinding, ResolveBindingRef, ResolveError, Trigger,
    Value, ValueKind,
};
use uiconf::reader::Number;

fn number(value: f64) -> Number {
    Number { bits: value.to_bits() }
}

fn reference<T>(name: &str) -> BindingRef<T> {
    BindingRef::new(name.to_string())
}

fn warned<T>(name: &str) -> BindingRef<T> {
    let mut reference = BindingRef::new(name.to_string());
    reference.warned = true;
    reference
}

fn sample() -> DataObject {
    let mut data = DataObject::new();
    data.set("flag", Value::Bool(true));
    data.set("size", Value::Number(number(12.0)));
    data.set("name", Value::Text("Ada".to_string()));
    data.set("ink", Value::Color(Color { r: 1, g: 2, b: 3, a: 4 }));
    data.set("go", Value::Trigger(Trigger(0)));
    data.set("items", Value::List(vec![Value::Bool(false), Value::Text("x".to_string())]));
    data
}

#[test]
fn trigger_counts_until_it_is_looked_at() {
    let mut trigger = Trigger::default();
    assert_eq!(trigger.get_count(), 0);
    assert!(!trigger.check_reset());
    trigger.trigger();
    trigger.trigger();
    assert_eq!(trigger.get_count(), 2);
    assert!(trigger.check_reset());
    assert_eq!(trigger.get_count(), 0);
    assert!(!trigger.check_reset());
}

#[test]
fn trigger_stays_at_the_largest_count() {
    let mut trigger = Trigger(u32::MAX - 1);
    trigger.trigger();
    assert_eq!(trigger.get_count(), u32::MAX);
    trigger.trigger();
    assert_eq!(trigger.get_count(), u32::MAX);
}

#[test]
fn data_object_holds_the_last_value_of_each_name() {
    let mut data = DataObject::new();
    assert_eq!(data.get_field("a"), None);
    data.set("a", Value::Bool(true));
    data.set("b", Value::Number(number(1.0)));
    data.set("a", Value::Text("x".to_string()));
    assert_eq!(data.get_field("a"), Some(&Value::Text("x".to_string())));
    assert_eq!(data.get_field("b"), Some(&Value::Number(number(1.0))));
    assert_eq!(data.get_field("A"), None);
    assert_eq!(data.fields.len(), 2);
    match data.get_field_mut("b") {
        Some(value) => *value = Value::Bool(false),
        None => panic!("no field"),
    }
    assert_eq!(data.get_field("b"), Some(&Value::Bool(false)));
    assert!(data.get_field_mut("c").is_none());
    assert_eq!(Value::List(vec![]).kind(), ValueKind::List);
    assert_eq!(Value::Trigger(Trigger(1)).kind(), ValueKind::Trigger);
}

#[test]
fn values_are_held_by_their_kind() {
    assert_eq!(bool::downcast_ref(&Value::Bool(true)), Some(&true));
    assert_eq!(bool::downcast_ref(&Value::Text("yes".to_string())), None);
    assert_eq!(String::downcast_ref(&Value::Text("yes".to_string())), Some(&"yes".to_string()));
    assert_eq!(Number::downcast_ref(&Value::Number(number(2.0))), Some(&number(2.0)));
    assert_eq!(Color::downcast_ref(&Value::Number(number(2.0))), None);
    assert_eq!(Trigger::downcast_ref(&Value::Trigger(Trigger(3))), Some(&Trigger(3)));
    let mut value = Value::Trigger(Trigger(3));
    assert!(bool::downcast_mut(&mut value).is_none());
    Trigger::downcast_mut(&mut value).unwrap().trigger();
    assert_eq!(value, Value::Trigger(Trigger(4)));
    assert_eq!(bool::kind_of(), ValueKind::Bool);
    assert_eq!(Number::kind_of(), ValueKind::Number);
    assert_eq!(String::kind_of(), ValueKind::Text);
    assert_eq!(Color::kind_of(), ValueKind::Color);
    assert_eq!(Trigger::kind_of(), ValueKind::Trigger);
}

#[test]
fn reference_to_a_missing_field_fails_and_harms_nothing() {
    let data = sample();
    let untouched = sample();
    let mut flag: Binding<bool> = Binding::Ref(reference("absent"));
    assert_eq!(
        flag.resolve(&data),
        Err(ResolveError { reason: Reason::KeyNotFound, first: true })
    );
    assert_eq!(flag, Binding::Ref(warned("absent")));
    assert_eq!(data, untouched);
    assert_eq!(
        flag.resolve(&data),
        Err(ResolveError { reason: Reason::KeyNotFound, first: false })
    );
    assert_eq!(flag, Binding::Ref(warned("absent")));
}

#[test]
fn literal_resolves_whatever_the_data_holds() {
    let mut literal: Binding<bool> = Binding::Value(true);
    assert_eq!(literal.resolve(&DataObject::new()), Ok(true));
    assert_eq!(literal.resolve(&sample()), Ok(true));
    let mut flag_as_text = DataObject::new();
    flag_as_text.set("flag", Value::Text("no".to_string()));
    assert_eq!(literal.resolve(&flag_as_text), Ok(true));
    assert_eq!(literal, Binding::Value(true));
    let mut text: Binding<String> = Binding::Value("fixed".to_string());
    assert_eq!(text.resolve_ref(&sample()), Ok(&"fixed".to_string()));
}

#[test]
fn reference_resolves_once_its_field_appears() {
    let mut data = DataObject::new();
    let mut flag: Binding<bool> = Binding::Ref(reference("flag"));
    assert_eq!(
        flag.resolve(&data),
        Err(ResolveError { reason: Reason::KeyNotFound, first: true })
    );
    data.set("flag", Value::Bool(false));
    assert_eq!(flag.resolve(&data), Ok(false));
    data.set("flag", Value::Bool(true));
    assert_eq!(flag.resolve(&data), Ok(true));
    assert_eq!(flag, Binding::Ref(warned("flag")));
}

#[test]
fn reference_must_find_the_kind_it_asks_for() {
    let data = sample();
    let mut flag: BindingRef<bool> = reference("name");
    assert_eq!(
        flag.resolve_ref(&data),
        Err(ResolveError {
            reason: Reason::TypeMismatch { expected: ValueKind::Bool, found: ValueKind::Text },
            first: true
        })
    );
    let mut name: BindingRef<String> = reference("name");
    assert_eq!(name.resolve_ref(&data), Ok(&"Ada".to_string()));
    assert!(!name.warned);
    let mut size: BindingRef<Number> = reference("size");
    assert_eq!(size.resolve_ref(&data), Ok(&number(12.0)));
    let mut ink: BindingRef<Color> = reference("ink");
    assert_eq!(ink.resolve_ref(&data), Ok(&Color { r: 1, g: 2, b: 3, a: 4 }));
}

#[test]
fn reference_resolves_to_the_field_itself() {
    let mut data = sample();
    let mut go: BindingRef<Trigger> = reference("go");
    go.resolve_mut(&mut data).unwrap().trigger();
    go.resolve_mut(&mut data).unwrap().trigger();
    assert_eq!(data.get_field("go"), Some(&Value::Trigger(Trigger(2))));
    let mut name: BindingRef<String> = reference("name");
    name.resolve_mut(&mut data).unwrap().push_str(" Lovelace");
    assert_eq!(data.get_field("name"), Some(&Value::Text("Ada Lovelace".to_string())));
    let mut absent: BindingRef<Trigger> = reference("absent");
    assert_eq!(
        absent.resolve_mut(&mut data).err(),
        Some(ResolveError { reason: Reason::KeyNotFound, first: true })
    );
    let mut wrong: BindingRef<Trigger> = reference("flag");
    assert_eq!(
        wrong.resolve_mut(&mut data).err(),
        Some(ResolveError {
            reason: Reason::TypeMismatch { expected: ValueKind::Trigger, found: ValueKind::Bool },
            first: true
        })
    );
    assert_eq!(data.get_field("flag"), Some(&Value::Bool(true)));
}

#[test]
fn reference_resolves_to_a_list() {
    let mut data = sample();
    let mut items: BindingRef<bool> = reference("items");
    assert_eq!(
        items.resolve_list_ref(&data),
        Ok(&vec![Value::Bool(false), Value::Text("x".to_string())])
    );
    items.resolve_list_mut(&mut data).unwrap().push(Value::Bool(true));
    assert_eq!(
        data.get_field("items"),
        Some(&Value::List(vec![
            Value::Bool(false),
            Value::Text("x".to_string()),
            Value::Bool(true)
        ]))
    );
    let mut wrong: BindingRef<bool> = reference("flag");
    assert_eq!(
        wrong.resolve_list_ref(&data).err(),
        Some(ResolveError {
            reason: Reason::TypeMismatch { expected: ValueKind::List, found: ValueKind::Bool },
            first: true
        })
    );
    assert_eq!(
        wrong.resolve_list_mut(&mut data).err(),
        Some(ResolveError {
            reason: Reason::TypeMismatch { expected: ValueKind::List, found: ValueKind::Bool },
            first: false
        })
    );
    let mut absent: BindingRef<bool> = reference("absent");
    assert_eq!(
        absent.resolve_list_mut(&mut data).err(),
        Some(ResolveError { reason: Reason::KeyNotFound, first: true })
    );
}

#[test]
fn binding_keeps_its_reference_when_its_value_is_mapped() {
    let literal: Binding<u8> = Binding::Value(3);
    assert_eq!(literal.map_value(|v| v > 2), Binding::Value(true));
    let by_name: Binding<u8> = Binding::Ref(warned("n"));
    assert_eq!(by_name.map_value(|v| v > 2), Binding::Ref(warned("n")));
}

#[test]
fn failure_is_reported_once() {
    let data = sample();
    let mut log = Vec::new();
    let mut size: Binding<Number> = Binding::Ref(reference("width"));
    assert_eq!(size.resolve_or_skip(&data, &mut log), None);
    assert_eq!(size.resolve_or_skip(&data, &mut log), None);
    assert_eq!(log, vec![Diagnostic { name: "width".to_string(), reason: Reason::KeyNotFound }]);
    let mut known: Binding<Number> = Binding::Ref(reference("size"));
    assert_eq!(known.resolve_or_skip(&data, &mut log), Some(number(12.0)));
    let mut text: Binding<String> = Binding::Ref(reference("size"));
    assert_eq!(text.resolve_text(&data, &mut log), None);
    assert_eq!(text.resolve_text(&sample(), &mut log), None);
    let mut name: Binding<String> = Binding::Ref(reference("name"));
    assert_eq!(name.resolve_text(&data, &mut log), Some("Ada".to_string()));
    assert_eq!(
        log,
        vec![
            Diagnostic { name: "width".to_string(), reason: Reason::KeyNotFound },
            Diagnostic {
                name: "size".to_string(),
                reason: Reason::TypeMismatch {
                    expected: ValueKind::Text,
                    found: ValueKind::Number
                }
            },
        ]
    );
}

#[test]
fn widget_is_shown_unless_its_visibility_says_no() {
    let data = sample();
    let mut log = Vec::new();
    assert!(is_shown(&mut None, &data, &mut log));
    assert!(is_shown(&mut Some(Binding::Value(true)), &data, &mut log));
    assert!(!is_shown(&mut Some(Binding::Value(false)), &data, &mut log));
    assert!(is_shown(&mut Some(Binding::Ref(reference("flag"))), &data, &mut log));
    assert!(log.is_empty());
    let mut absent = Some(Binding::Ref(reference("absent")));
    assert!(is_shown(&mut absent, &data, &mut log));
    assert_eq!(absent, Some(Binding::Ref(warned("absent"))));
    assert_eq!(log.len(), 1);
    let mut hidden = DataObject::new();
    hidden.set("flag", Value::Bool(false));
    assert!(!is_shown(&mut Some(Binding::Ref(reference("flag"))), &hidden, &mut log));
}

#[test]
fn text_is_shown_with_what_resolves() {
    let mut text = RichText {
        text: Binding::Ref(reference("name")),
        props: vec![
            RichTextProperty::Size(Binding::Ref(reference("size"))),
            RichTextProperty::Style(vec![RichTextStyle::Strong, RichTextStyle::Code]),
            RichTextProperty::Color(Binding::Ref(reference("paper"))),
            RichTextProperty::BackgroundColor(Binding::Ref(reference("ink"))),
            RichTextProperty::LineHeight(Binding::Value(number(1.5))),
            RichTextProperty::ExtraLetterSpacing(Binding::Ref(reference("flag"))),
        ],
    };
    let mut log = Vec::new();
    let shown = text.snapshot(&sample(), &mut log);
    assert_eq!(
        shown,
        ResolvedText {
            text: "Ada".to_string(),
            settings: vec![
                TextSetting::Size(number(12.0)),
                TextSetting::Style(RichTextStyle::Strong),
                TextSetting::Style(RichTextStyle::Code),
                TextSetting::BackgroundColor(Color { r: 1, g: 2, b: 3, a: 4 }),
                TextSetting::LineHeight(number(1.5)),
            ],
        }
    );
    assert_eq!(
        log,
        vec![
            Diagnostic { name: "paper".to_string(), reason: Reason::KeyNotFound },
            Diagnostic {
                name: "flag".to_string(),
                reason: Reason::TypeMismatch {
                    expected: ValueKind::Number,
                    found: ValueKind::Bool
                }
            },
        ]
    );
    assert_eq!(text.props[2], RichTextProperty::Color(Binding::Ref(warned("paper"))));
    assert_eq!(text.props[0], RichTextProperty::Size(Binding::Ref(reference("size"))));

    let again = text.snapshot(&DataObject::new(), &mut log);
    assert_eq!(
        again,
        ResolvedText {
            text: String::new(),
            settings: vec![
                TextSetting::Style(RichTextStyle::Strong),
                TextSetting::Style(RichTextStyle::Code),
                TextSetting::LineHeight(number(1.5)),
            ],
        }
    );
    assert_eq!(log.len(), 5);
    assert_eq!(text.resolve(&sample()).map(|shown| shown.text), Ok("Ada".to_string()));
}

#[test]
fn stroke_falls_back_to_no_width_and_white() {
    let mut stroke = Stroke {
        width: Binding::Ref(reference("size")),
        color: Binding::Ref(reference("ink")),
    };
    let mut log = Vec::new();
    assert_eq!(
        stroke.snapshot(&sample(), &mut log),
        ResolvedStroke { width: number(12.0), color: Color { r: 1, g: 2, b: 3, a: 4 } }
    );
    assert_eq!(
        stroke.snapshot(&DataObject::new(), &mut log),
        ResolvedStroke { width: number(0.0), color: Color { r: 255, g: 255, b: 255, a: 255 } }
    );
    assert_eq!(log.len(), 2);
    assert_eq!(
        stroke.resolve(&DataObject::new()),
        Ok(ResolvedStroke { width: number(0.0), color: Color { r: 255, g: 255, b: 255, a: 255 } })
    );
}

fn parse(document: &str) -> Window {
    Root::read(document.as_bytes()).unwrap()
}

#[test]
fn window_is_shown_with_what_resolves() {
    let mut window = parse(
        "window = { title = @name title_bar = @flag default_size = { 300 200 } \
         auto_sized = {} resizable = @size movable = no collapsible = @absent label = hi }",
    );
    let mut log = Vec::new();
    let frame = window.frame(&sample(), &mut log);
    assert_eq!(
        frame,
        WindowFrame {
            title: ResolvedText { text: "Ada".to_string(), settings: vec![] },
            settings: vec![
                WindowSetting::TitleBar(true),
                WindowSetting::DefaultSize(uiconf::model::Vec2 {
                    x: number(300.0),
                    y: number(200.0)
                }),
                WindowSetting::AutoSized,
                WindowSetting::Movable(false),
            ],
        }
    );
    assert_eq!(
        log,
        vec![
            Diagnostic {
                name: "size".to_string(),
                reason: Reason::TypeMismatch {
                    expected: ValueKind::Bool,
                    found: ValueKind::Number
                }
            },
            Diagnostic { name: "absent".to_string(), reason: Reason::KeyNotFound },
        ]
    );
    let again = window.frame(&sample(), &mut log);
    assert_eq!(again, frame);
    assert_eq!(log.len(), 2);
    assert_eq!(window.content.0.len(), 1);
}

fn first_button(window: Window) -> Button {
    match window.content.0.into_iter().next() {
        Some(ContentWidget::Button(button)) => button,
        other => panic!("no button: {:?}", other),
    }
}

#[test]
fn button_is_shown_with_what_resolves() {
    let mut button = first_button(parse(
        "window = { title = t button = { text = @name small = yes visible = @flag \
         shortcut_text = { text = S color = @ink } wrap = yes fill = @paper \
         stroke = { @size red } frame = no selected = yes } }",
    ));
    let mut log = Vec::new();
    assert_eq!(
        button.frame(&sample(), &mut log),
        Some(ButtonFrame {
            text: ResolvedText { text: "Ada".to_string(), settings: vec![] },
            small: true,
            settings: vec![
                ButtonSetting::ShortcutText(ResolvedText {
                    text: "S".to_string(),
                    settings: vec![TextSetting::Color(Color { r: 1, g: 2, b: 3, a: 4 })]
                }),
                ButtonSetting::Wrap(true),
                ButtonSetting::Stroke(ResolvedStroke {
                    width: number(12.0),
                    color: Color { r: 255, g: 0, b: 0, a: 255 }
                }),
                ButtonSetting::Frame(false),
                ButtonSetting::Selected(true),
            ],
        })
    );
    assert_eq!(log, vec![Diagnostic { name: "paper".to_string(), reason: Reason::KeyNotFound }]);

    let mut hidden = sample();
    hidden.set("flag", Value::Bool(false));
    assert_eq!(button.frame(&hidden, &mut log), None);
    assert_eq!(log.len(), 1);
}

#[test]
fn label_is_shown_with_its_text() {
    let mut label = Label {
        text: RichText { text: Binding::Ref(reference("name")), props: vec![] },
        visible: Some(Binding::Ref(reference("flag"))),
        props: vec![],
        response: Response(vec![]),
    };
    let mut log = Vec::new();
    assert_eq!(
        label.frame(&sample(), &mut log),
        Some(ResolvedText { text: "Ada".to_string(), settings: vec![] })
    );
    let mut hidden = DataObject::new();
    hidden.set("flag", Value::Bool(false));
    assert_eq!(label.frame(&hidden, &mut log), None);
    assert!(log.is_empty());
    assert_eq!(
        label.frame(&DataObject::new(), &mut log),
        Some(ResolvedText { text: String::new(), settings: vec![] })
    );
    assert_eq!(log.len(), 2);
}

#[test]
fn separator_and_layout_follow_their_visibility() {
    let window = parse(
        "window = { title = t separator = { visible = @flag } layout = { visible = @flag } }",
    );
    let mut widgets = window.content.0.into_iter();
    let mut log = Vec::new();
    let mut hidden = DataObject::new();
    hidden.set("flag", Value::Bool(false));
    match widgets.next() {
        Some(ContentWidget::Separator(mut separator)) => {
            assert!(separator.shown(&sample(), &mut log));
            assert!(!separator.shown(&hidden, &mut log));
        }
        other => panic!("no separator: {:?}", other),
    }
    match widgets.next() {
        Some(ContentWidget::Layout(mut layout)) => {
            assert!(layout.shown(&sample(), &mut log));
            assert!(!layout.shown(&hidden, &mut log));
            assert!(layout.shown(&DataObject::new(), &mut log));
        }
        other => panic!("no layout: {:?}", other),
    }
    assert_eq!(log.len(), 1);
}

#[test]
fn event_is_counted_where_it_happened() {
    let mut data = sample();
    let mut log = Vec::new();
    let mut go: BindingRef<Trigger> = reference("go");
    count(&mut go, false, &mut data, &mut log);
    assert_eq!(data, sample());
    count(&mut go, true, &mut data, &mut log);
    count(&mut go, true, &mut data, &mut log);
    assert_eq!(data.get_field("go"), Some(&Value::Trigger(Trigger(2))));
    assert!(log.is_empty());
    let mut absent: BindingRef<Trigger> = reference("absent");
    count(&mut absent, false, &mut data, &mut log);
    count(&mut absent, true, &mut data, &mut log);
    assert_eq!(log, vec![Diagnostic { name: "absent".to_string(), reason: Reason::KeyNotFound }]);
    assert_eq!(absent, warned("absent"));
}

#[test]
fn responses_are_applied_in_their_order() {
    let mut button = first_button(parse(
        "window = { title = t button = { text = a clicked = @go secondary_clicked = @go \
         highlighted = @lit_before on_hover = tip highlight = @flag highlighted = @lit_after \
         hovered = @absent changed = @flag on_disabled_hover = off on_hover_at_pointer = here \
         highlight = no } }",
    ));
    let mut data = sample();
    data.set("lit_before", Value::Trigger(Trigger(0)));
    data.set("lit_after", Value::Trigger(Trigger(0)));
    let mut log = Vec::new();
    let events = Interaction { clicked: true, hovered: true, changed: true, ..Interaction::default() };
    let actions = button.response.process(&mut data, events, &mut log);
    assert_eq!(
        actions,
        vec![
            ResponseAction::Nothing,
            ResponseAction::Nothing,
            ResponseAction::Nothing,
            ResponseAction::ShowOnHover,
            ResponseAction::Highlight,
            ResponseAction::Nothing,
            ResponseAction::Nothing,
            ResponseAction::Nothing,
            ResponseAction::ShowOnDisabledHover,
            ResponseAction::ShowOnHoverAtPointer,
            ResponseAction::Nothing,
        ]
    );
    assert_eq!(data.get_field("go"), Some(&Value::Trigger(Trigger(1))));
    assert_eq!(data.get_field("lit_before"), Some(&Value::Trigger(Trigger(0))));
    assert_eq!(data.get_field("lit_after"), Some(&Value::Trigger(Trigger(1))));
    assert_eq!(data.get_field("flag"), Some(&Value::Bool(true)));
    assert_eq!(
        log,
        vec![
            Diagnostic { name: "absent".to_string(), reason: Reason::KeyNotFound },
            Diagnostic {
                name: "flag".to_string(),
                reason: Reason::TypeMismatch {
                    expected: ValueKind::Trigger,
                    found: ValueKind::Bool
                }
            },
        ]
    );
    button.response.process(&mut data, events, &mut log);
    assert_eq!(log.len(), 2);
    assert_eq!(data.get_field("go"), Some(&Value::Trigger(Trigger(2))));
}

#[test]
fn one_response_is_applied_at_a_time() {
    let mut data = sample();
    let mut log = Vec::new();
    let mut events = Interaction { double_clicked: true, ..Interaction::default() };
    let mut twice = ResponseProperty::DoubleClicked(reference("go"));
    assert_eq!(twice.apply(&mut data, &mut events, &mut log), ResponseAction::Nothing);
    assert_eq!(data.get_field("go"), Some(&Value::Trigger(Trigger(1))));
    let mut thrice = ResponseProperty::TripleClicked(reference("go"));
    assert_eq!(thrice.apply(&mut data, &mut events, &mut log), ResponseAction::Nothing);
    assert_eq!(data.get_field("go"), Some(&Value::Trigger(Trigger(1))));
    let mut lit = ResponseProperty::Highlight(Binding::Ref(reference("flag")));
    assert_eq!(lit.apply(&mut data, &mut events, &mut log), ResponseAction::Highlight);
    assert!(events.highlighted);
    let mut tip = ResponseProperty::OnHover(Content(vec![]));
    assert_eq!(tip.apply(&mut data, &mut events, &mut log), ResponseAction::ShowOnHover);
    assert!(log.is_empty());
    let _ = ButtonProperty::Wrap(true);
}
