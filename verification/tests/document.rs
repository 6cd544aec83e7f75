use uiconf::model::{
    Align, Align2, Anchor, Button, ButtonProperty, Color, Content, ContentWidget, Direction, Flow,
    Label, LabelProperty, Layout, Response, ResponseProperty, RichText, RichTextProperty,
    RichTextStyle, Root, Rounding, Sense, Separator, SeparatorProperty, Stroke, Vec2, Window,
    WindowProperty,
};
use uiconf::reader::binding::{Binding, BindingRef};
use uiconf::reader::error::{Error, ScalarFailure};
use uiconf::reader::Number;

fn number(value: f64) -> Number {
    Number { bits: value.to_bits() }
}

fn text(value: &str) -> RichText {
    RichText { text: Binding::Value(value.to_string()), props: vec![] }
}

fn window(title: &str) -> Window {
    Window { title: text(title), props: vec![], content: Content(vec![]) }
}

fn read(document: &str) -> Result<Window, Error> {
    Root::read(document.as_bytes())
}

fn first_button(window: Window) -> Button {
    match window.content.0.into_iter().next() {
        Some(ContentWidget::Button(button)) => button,
        other => panic!("no button: {:?}", other),
    }
}

#[test]
fn minimal_window_parses() {
    let parsed = read("window = { title = \"t\" }").unwrap();
    assert_eq!(parsed, window("t"));
    assert!(parsed.props.is_empty());
    assert!(parsed.content.0.is_empty());
    assert_eq!(parsed.title.text, Binding::Value("t".to_string()));
}

#[test]
fn second_window_is_a_duplicate() {
    assert_eq!(
        read("window = { title = t } window = { title = u }"),
        Err(Error::DuplicateField { field: "window".to_string(), at: "window".to_string() })
    );
}

#[test]
fn window_must_be_there() {
    assert_eq!(
        read(""),
        Err(Error::MissingField { field: "window".to_string(), at: String::new() })
    );
}

#[test]
fn other_top_level_key_is_unknown() {
    assert_eq!(
        read("a = b window = { title = t }"),
        Err(Error::UnknownField {
            field: "a".to_string(),
            expected: "`window`".to_string(),
            at: "a".to_string()
        })
    );
}

#[test]
fn window_with_operator_is_refused() {
    assert_eq!(
        read("window > { title = t }"),
        Err(Error::UnexpectedOperator { op: ">".to_string(), at: "window".to_string() })
    );
}

#[test]
fn bytes_that_are_no_document_are_refused() {
    assert_eq!(
        read("window"),
        Err(Error::DeserializeError {
            error: "unexpected end of file".to_string(),
            at: String::new()
        })
    );
}

#[test]
fn title_must_be_there() {
    assert_eq!(
        read("window = { resizable = yes }"),
        Err(Error::MissingField { field: "title".to_string(), at: "window".to_string() })
    );
}

#[test]
fn second_title_is_a_duplicate() {
    assert_eq!(
        read("window = { title = a title = b }"),
        Err(Error::DuplicateField { field: "title".to_string(), at: "window.title".to_string() })
    );
}

#[test]
fn window_property_after_widget_is_refused() {
    assert_eq!(
        read("window = { label = x title = t }"),
        Err(Error::Custom {
            message:
                "all window properties should be above content, but `title` is located after `label`"
                    .to_string(),
            at: "window.title".to_string()
        })
    );
    assert_eq!(
        read("window = { title = t button = hi separator = {} movable = no }"),
        Err(Error::Custom {
            message:
                "all window properties should be above content, but `movable` is located after `separator`"
                    .to_string(),
            at: "window.movable".to_string()
        })
    );
}

#[test]
fn failing_property_after_widget_reports_its_own_error() {
    assert_eq!(
        read("window = { title = t label = x movable = maybe }"),
        Err(Error::ScalarError {
            error: ScalarFailure::InvalidBool,
            at: "window.movable".to_string()
        })
    );
}

#[test]
fn layout_property_after_widget_is_refused() {
    assert_eq!(
        read("window = { title = t layout = { label = a visible = yes } }"),
        Err(Error::Custom {
            message:
                "all layout properties should be above content, but `visible` is located after `label`"
                    .to_string(),
            at: "window.layout.visible".to_string()
        })
    );
}

#[test]
fn unknown_window_key_lists_the_accepted_keys() {
    assert_eq!(
        read("window = { title = t small = yes }"),
        Err(Error::UnknownField {
            field: "small".to_string(),
            expected: "`title`, `anchor`, `title_bar`, `default_size`, `min_size`, `max_size`, \
                       `fixed_size`, `auto_sized`, `resizable`, `enabled`, `interactable`, \
                       `movable`, `collapsible`, `button`, `label`, `separator`, `layout`"
                .to_string(),
            at: "window.small".to_string()
        })
    );
}

#[test]
fn window_properties_are_kept_in_order() {
    let parsed = read(
        "window = { title = t anchor = { right bottom -4 8 } title_bar = no \
         default_size = { 300 200 } min_size = { any 50 } max_size = { 800 any } \
         fixed_size = { 10 20 } auto_sized = {} resizable = @can_resize enabled = yes \
         interactable = yes movable = no collapsible = no }",
    )
    .unwrap();
    assert_eq!(
        parsed.props,
        vec![
            WindowProperty::Anchor(Anchor {
                align: Align2 { x: Align::Max, y: Align::Max },
                offset: Vec2 { x: number(-4.0), y: number(8.0) }
            }),
            WindowProperty::TitleBar(Binding::Value(false)),
            WindowProperty::DefaultSize(Vec2 { x: number(300.0), y: number(200.0) }),
            WindowProperty::MinSize(Vec2 { x: number(0.0), y: number(50.0) }),
            WindowProperty::MaxSize(Vec2 { x: number(800.0), y: number(f64::INFINITY) }),
            WindowProperty::FixedSize(Vec2 { x: number(10.0), y: number(20.0) }),
            WindowProperty::AutoSized,
            WindowProperty::Resizable(Binding::Ref(BindingRef::new("can_resize".to_string()))),
            WindowProperty::Enabled(Binding::Value(true)),
            WindowProperty::Interactable(Binding::Value(true)),
            WindowProperty::Movable(Binding::Value(false)),
            WindowProperty::Collapsible(Binding::Value(false)),
        ]
    );
}

#[test]
fn auto_sized_takes_a_container() {
    assert_eq!(
        read("window = { title = t auto_sized = yes }"),
        Err(Error::InvalidType {
            actual: "unquoted scalar".to_string(),
            expected: "{}".to_string(),
            at: "window.auto_sized".to_string()
        })
    );
}

#[test]
fn anchor_alignments_come_in_either_order() {
    let one = read("window = { title = t anchor = { left top } }").unwrap();
    let other = read("window = { title = t anchor = { top left } }").unwrap();
    assert_eq!(one, other);
    assert_eq!(
        one.props,
        vec![WindowProperty::Anchor(Anchor {
            align: Align2 { x: Align::Min, y: Align::Min },
            offset: Vec2 { x: number(0.0), y: number(0.0) }
        })]
    );
    let centred = read("window = { title = t anchor = { center bottom } }").unwrap();
    assert_eq!(centred, read("window = { title = t anchor = { bottom center } }").unwrap());
    assert_eq!(
        centred.props,
        vec![WindowProperty::Anchor(Anchor {
            align: Align2 { x: Align::Center, y: Align::Max },
            offset: Vec2 { x: number(0.0), y: number(0.0) }
        })]
    );
}

#[test]
fn anchor_of_two_sides_of_one_axis_is_refused() {
    assert_eq!(
        read("window = { title = t anchor = { left right } }"),
        Err(Error::Custom {
            message: "invalid alignment: `left right`".to_string(),
            at: "window.anchor".to_string()
        })
    );
    assert_eq!(
        read("window = { title = t anchor = { bottom top } }"),
        Err(Error::Custom {
            message: "invalid alignment: `bottom top`".to_string(),
            at: "window.anchor".to_string()
        })
    );
}

#[test]
fn anchor_length_is_two_or_four() {
    assert_eq!(
        read("window = { title = t anchor = { } }"),
        Err(Error::InvalidLength {
            actual: 0,
            expected: "{ align valign x y }".to_string(),
            at: "window.anchor".to_string()
        })
    );
    assert_eq!(
        read("window = { title = t anchor = { left } }"),
        Err(Error::InvalidLength {
            actual: 1,
            expected: "{ align valign x y }".to_string(),
            at: "window.anchor".to_string()
        })
    );
    assert_eq!(
        read("window = { title = t anchor = { left top 1 } }"),
        Err(Error::InvalidLength {
            actual: 3,
            expected: "{ align valign x y }".to_string(),
            at: "window.anchor".to_string()
        })
    );
    assert_eq!(
        read("window = { title = t anchor = { left top 1 2 3 } }"),
        Err(Error::InvalidLength {
            actual: 5,
            expected: "{ align valign x y }".to_string(),
            at: "window.anchor".to_string()
        })
    );
}

#[test]
fn unknown_alignment_lists_the_variants() {
    assert_eq!(
        read("window = { title = t anchor = { middle top } }"),
        Err(Error::UnknownVariant {
            actual: "middle".to_string(),
            expected: "`center`, `left`, `right`, `top`, `bottom`".to_string(),
            at: "window.anchor.0".to_string()
        })
    );
}

#[test]
fn variant_names_ignore_case() {
    let parsed = read("window = { title = t anchor = { LEFT Top } }").unwrap();
    assert_eq!(parsed, read("window = { title = t anchor = { left top } }").unwrap());
}

#[test]
fn any_is_refused_where_a_size_must_be_given() {
    assert_eq!(
        read("window = { title = t default_size = { any 1 } }"),
        Err(Error::InvalidValue {
            actual: "any".to_string(),
            expected: "number".to_string(),
            at: "window.default_size.0".to_string()
        })
    );
    assert_eq!(
        read("window = { title = t fixed_size = { 1 any } }"),
        Err(Error::InvalidValue {
            actual: "any".to_string(),
            expected: "number".to_string(),
            at: "window.fixed_size.1".to_string()
        })
    );
}

#[test]
fn any_is_zero_or_infinity_where_it_is_accepted() {
    let parsed =
        read("window = { title = t min_size = { any any } max_size = { any any } }").unwrap();
    assert_eq!(
        parsed.props,
        vec![
            WindowProperty::MinSize(Vec2 { x: number(0.0), y: number(0.0) }),
            WindowProperty::MaxSize(Vec2 { x: number(f64::INFINITY), y: number(f64::INFINITY) }),
        ]
    );
}

#[test]
fn size_has_two_components() {
    assert_eq!(
        read("window = { title = t min_size = { 1 } }"),
        Err(Error::InvalidLength {
            actual: 1,
            expected: "{ x y }".to_string(),
            at: "window.min_size".to_string()
        })
    );
    assert_eq!(
        read("window = { title = t min_size = { 1 2 3 } }"),
        Err(Error::InvalidLength {
            actual: 3,
            expected: "{ x y }".to_string(),
            at: "window.min_size".to_string()
        })
    );
    assert_eq!(
        read("window = { title = t min_size = { 1 two } }"),
        Err(Error::ScalarError {
            error: ScalarFailure::AllDigits,
            at: "window.min_size.1".to_string()
        })
    );
}

#[test]
fn one_radius_rounds_every_corner() {
    let scalar = first_button(read("window = { title = t button = { text = a rounding = 5 } }").unwrap());
    let array =
        first_button(read("window = { title = t button = { text = a rounding = { 5 5 5 5 } } }").unwrap());
    assert_eq!(scalar, array);
    assert_eq!(
        scalar.props,
        vec![ButtonProperty::Rounding(Rounding {
            nw: number(5.0),
            ne: number(5.0),
            se: number(5.0),
            sw: number(5.0)
        })]
    );
}

#[test]
fn rounding_none_is_zero() {
    let button =
        first_button(read("window = { title = t button = { text = a rounding = none } }").unwrap());
    assert_eq!(
        button.props,
        vec![ButtonProperty::Rounding(Rounding {
            nw: number(0.0),
            ne: number(0.0),
            se: number(0.0),
            sw: number(0.0)
        })]
    );
    let quoted = first_button(
        read("window = { title = t button = { text = a rounding = \"none\" } }").unwrap(),
    );
    assert_eq!(button, quoted);
}

#[test]
fn corners_left_out_take_the_opposite_radius() {
    let corners = |document: &str| match first_button(read(document).unwrap()).props.pop() {
        Some(ButtonProperty::Rounding(rounding)) => rounding,
        other => panic!("no rounding: {:?}", other),
    };
    assert_eq!(
        corners("window = { title = t button = { text = a rounding = { 1 } } }"),
        Rounding { nw: number(1.0), ne: number(1.0), se: number(1.0), sw: number(1.0) }
    );
    assert_eq!(
        corners("window = { title = t button = { text = a rounding = { 1 2 } } }"),
        Rounding { nw: number(1.0), ne: number(2.0), se: number(1.0), sw: number(2.0) }
    );
    assert_eq!(
        corners("window = { title = t button = { text = a rounding = { 1 2 3 } } }"),
        Rounding { nw: number(1.0), ne: number(2.0), se: number(3.0), sw: number(2.0) }
    );
    assert_eq!(
        corners("window = { title = t button = { text = a rounding = { 1 2 3 4 } } }"),
        Rounding { nw: number(1.0), ne: number(2.0), se: number(3.0), sw: number(4.0) }
    );
    assert_eq!(
        corners("window = { title = t button = { text = a rounding = { 1 x 3 y } } }"),
        Rounding { nw: number(1.0), ne: number(1.0), se: number(3.0), sw: number(1.0) }
    );
}

#[test]
fn rounding_has_one_to_four_radii() {
    assert_eq!(
        read("window = { title = t button = { text = a rounding = { } } }"),
        Err(Error::InvalidLength {
            actual: 0,
            expected: "{ top-left top-right bottom-right bottom-left }".to_string(),
            at: "window.button.rounding".to_string()
        })
    );
    assert_eq!(
        read("window = { title = t button = { text = a rounding = { 1 2 3 4 5 } } }"),
        Err(Error::InvalidLength {
            actual: 5,
            expected: "{ top-left top-right bottom-right bottom-left }".to_string(),
            at: "window.button.rounding".to_string()
        })
    );
    assert_eq!(
        read("window = { title = t button = { text = a rounding = soft } }"),
        Err(Error::ScalarError {
            error: ScalarFailure::AllDigits,
            at: "window.button.rounding".to_string()
        })
    );
}

#[test]
fn button_is_decoded_with_all_it_holds() {
    let button = first_button(
        read(
            "window = { title = t button = { text = { text = Go size = 14 } small = yes \
             visible = @shown shortcut_text = \"Ctrl+G\" wrap = no fill = gold \
             stroke = { 2 { 10 20 30 40 } } sense = click_and_drag frame = yes \
             min_size = { 40 any } rounding = { 1 2 } selected = no \
             clicked = @go hovered = @over on_hover = \"a tip\" highlight = @lit } }",
        )
        .unwrap(),
    );
    assert_eq!(
        button,
        Button {
            text: RichText {
                text: Binding::Value("Go".to_string()),
                props: vec![RichTextProperty::Size(Binding::Value(number(14.0)))],
            },
            small: true,
            visible: Some(Binding::Ref(BindingRef::new("shown".to_string()))),
            props: vec![
                ButtonProperty::ShortcutText(text("Ctrl+G")),
                ButtonProperty::Wrap(false),
                ButtonProperty::Fill(Binding::Value(Color { r: 255, g: 215, b: 0, a: 255 })),
                ButtonProperty::Stroke(Stroke {
                    width: Binding::Value(number(2.0)),
                    color: Binding::Value(Color { r: 10, g: 20, b: 30, a: 40 }),
                }),
                ButtonProperty::Sense(Sense { click: true, drag: true, focusable: true }),
                ButtonProperty::Frame(true),
                ButtonProperty::MinSize(Vec2 { x: number(40.0), y: number(0.0) }),
                ButtonProperty::Rounding(Rounding {
                    nw: number(1.0),
                    ne: number(2.0),
                    se: number(1.0),
                    sw: number(2.0)
                }),
                ButtonProperty::Selected(false),
            ],
            response: Response(vec![
                ResponseProperty::Clicked(BindingRef::new("go".to_string())),
                ResponseProperty::Hovered(BindingRef::new("over".to_string())),
                ResponseProperty::OnHover(Content(vec![ContentWidget::Label(Label {
                    text: text("a tip"),
                    visible: None,
                    props: vec![],
                    response: Response(vec![]),
                })])),
                ResponseProperty::Highlight(Binding::Ref(BindingRef::new("lit".to_string()))),
            ]),
        }
    );
}

#[test]
fn scalar_widgets_are_their_text() {
    let parsed = read("window = { title = t button = Go label = \"Hello there\" }").unwrap();
    assert_eq!(
        parsed.content,
        Content(vec![
            ContentWidget::Button(Button {
                text: text("Go"),
                small: false,
                visible: None,
                props: vec![],
                response: Response(vec![]),
            }),
            ContentWidget::Label(Label {
                text: text("Hello there"),
                visible: None,
                props: vec![],
                response: Response(vec![]),
            }),
        ])
    );
}

#[test]
fn button_needs_its_text_once() {
    assert_eq!(
        read("window = { title = t button = { small = yes } }"),
        Err(Error::MissingField { field: "text".to_string(), at: "window.button".to_string() })
    );
    assert_eq!(
        read("window = { title = t button = { text = a text = b } }"),
        Err(Error::DuplicateField {
            field: "text".to_string(),
            at: "window.button.text".to_string()
        })
    );
    assert_eq!(
        read("window = { title = t button = { text = a visible = yes visible = no } }"),
        Err(Error::DuplicateField {
            field: "visible".to_string(),
            at: "window.button.visible".to_string()
        })
    );
}

#[test]
fn unknown_button_key_lists_the_accepted_keys() {
    assert_eq!(
        read("window = { title = t button = { text = a truncate = yes } }"),
        Err(Error::UnknownField {
            field: "truncate".to_string(),
            expected: "`text`, `small`, `visible`, `shortcut_text`, `wrap`, `fill`, `stroke`, \
                       `sense`, `frame`, `min_size`, `rounding`, `selected`, `clicked`, \
                       `secondary_clicked`, `middle_clicked`, `double_clicked`, `triple_clicked`, \
                       `clicked_elsewhere`, `hovered`, `highlighted`, `changed`, `on_hover`, \
                       `on_disabled_hover`, `on_hover_at_pointer`, `highlight`"
                .to_string(),
            at: "window.button.truncate".to_string()
        })
    );
}

#[test]
fn label_and_separator_are_decoded_with_all_they_hold() {
    let parsed = read(
        "window = { title = t label = { text = Hi visible = no wrap = yes truncate = no \
         sense = { click focusable } double_clicked = @twice } \
         separator = { visible = @line vertical = yes spacing = 6 grow = 1 shrink = 2 \
         changed = @moved } }",
    )
    .unwrap();
    assert_eq!(
        parsed.content,
        Content(vec![
            ContentWidget::Label(Label {
                text: text("Hi"),
                visible: Some(Binding::Value(false)),
                props: vec![
                    LabelProperty::Wrap(true),
                    LabelProperty::Truncate(false),
                    LabelProperty::Sense(Sense { click: true, drag: false, focusable: true }),
                ],
                response: Response(vec![ResponseProperty::DoubleClicked(BindingRef::new(
                    "twice".to_string()
                ))]),
            }),
            ContentWidget::Separator(Separator {
                visible: Some(Binding::Ref(BindingRef::new("line".to_string()))),
                props: vec![
                    SeparatorProperty::Vertical(true),
                    SeparatorProperty::Spacing(number(6.0)),
                    SeparatorProperty::Grow(number(1.0)),
                    SeparatorProperty::Shrink(number(2.0)),
                ],
                response: Response(vec![ResponseProperty::Changed(BindingRef::new(
                    "moved".to_string()
                ))]),
            }),
        ])
    );
}

#[test]
fn separator_is_an_object() {
    assert_eq!(
        read("window = { title = t separator = yes }"),
        Err(Error::InvalidType {
            actual: "unquoted scalar".to_string(),
            expected: "object".to_string(),
            at: "window.separator".to_string()
        })
    );
}

#[test]
fn layout_is_decoded_with_its_widgets() {
    let parsed = read(
        "window = { title = t layout = { main_dir = right_to_left main_wrap = yes \
         main_align = max main_justify = yes cross_align = center cross_justify = yes \
         visible = @open label = a layout = { button = b } } }",
    )
    .unwrap();
    assert_eq!(
        parsed.content,
        Content(vec![ContentWidget::Layout(Layout {
            layout: Flow {
                main_dir: Direction::RightToLeft,
                main_wrap: true,
                main_align: Align::Max,
                main_justify: true,
                cross_align: Align::Center,
                cross_justify: true,
            },
            visible: Some(Binding::Ref(BindingRef::new("open".to_string()))),
            content: Content(vec![
                ContentWidget::Label(Label {
                    text: text("a"),
                    visible: None,
                    props: vec![],
                    response: Response(vec![]),
                }),
                ContentWidget::Layout(Layout {
                    layout: Flow {
                        main_dir: Direction::TopDown,
                        main_wrap: false,
                        main_align: Align::Center,
                        main_justify: false,
                        cross_align: Align::Min,
                        cross_justify: false,
                    },
                    visible: None,
                    content: Content(vec![ContentWidget::Button(Button {
                        text: text("b"),
                        small: false,
                        visible: None,
                        props: vec![],
                        response: Response(vec![]),
                    })]),
                }),
            ]),
        })])
    );
}

#[test]
fn named_field_is_given_once() {
    let duplicate = |field: &str, at: &str| {
        Err(Error::DuplicateField { field: field.to_string(), at: at.to_string() })
    };
    assert_eq!(
        read("window = { title = t layout = { visible = yes visible = @open } }"),
        duplicate("visible", "window.layout.visible")
    );
    assert_eq!(
        read("window = { title = t layout = { main_wrap = yes main_dir = top_down main_wrap = no } }"),
        duplicate("main_wrap", "window.layout.main_wrap")
    );
    assert_eq!(
        read("window = { title = t layout = { main_dir = top_down main_dir = top_down } }"),
        duplicate("main_dir", "window.layout.main_dir")
    );
    assert_eq!(
        read("window = { title = t layout = { main_align = min main_align = max } }"),
        duplicate("main_align", "window.layout.main_align")
    );
    assert_eq!(
        read("window = { title = t layout = { main_justify = no main_justify = no } }"),
        duplicate("main_justify", "window.layout.main_justify")
    );
    assert_eq!(
        read("window = { title = t layout = { cross_align = min cross_align = max } }"),
        duplicate("cross_align", "window.layout.cross_align")
    );
    assert_eq!(
        read("window = { title = t layout = { cross_justify = no cross_justify = yes } }"),
        duplicate("cross_justify", "window.layout.cross_justify")
    );
    assert_eq!(
        read("window = { title = t button = { text = a small = yes small = yes } }"),
        duplicate("small", "window.button.small")
    );
    assert_eq!(
        read("window = { title = t label = { text = a visible = yes visible = yes } }"),
        duplicate("visible", "window.label.visible")
    );
    assert_eq!(
        read("window = { title = t separator = { visible = yes visible = yes } }"),
        duplicate("visible", "window.separator.visible")
    );
}

#[test]
fn property_may_be_given_again() {
    let button = first_button(
        read("window = { title = t button = { text = a wrap = yes wrap = no } }").unwrap(),
    );
    assert_eq!(button.props, vec![ButtonProperty::Wrap(true), ButtonProperty::Wrap(false)]);
    let parsed = read("window = { title = t movable = yes movable = no }").unwrap();
    assert_eq!(
        parsed.props,
        vec![
            WindowProperty::Movable(Binding::Value(true)),
            WindowProperty::Movable(Binding::Value(false))
        ]
    );
}

#[test]
fn unknown_layout_key_lists_the_accepted_keys() {
    assert_eq!(
        read("window = { title = t layout = { text = a } }"),
        Err(Error::UnknownField {
            field: "text".to_string(),
            expected: "`main_dir`, `main_wrap`, `main_align`, `main_justify`, `cross_align`, \
                       `cross_justify`, `visible`, `button`, `label`, `separator`, `layout`"
                .to_string(),
            at: "window.layout.text".to_string()
        })
    );
}

#[test]
fn rich_text_is_decoded_with_its_style() {
    let parsed = read(
        "window = { title = { text = @name size = @big style = { heading Strong italics } \
         color = light_blue background_color = { 1 2 3 } line_height = 1.5 \
         extra_letter_spacing = 0.25 } }",
    )
    .unwrap();
    assert_eq!(
        parsed.title,
        RichText {
            text: Binding::Ref(BindingRef::new("name".to_string())),
            props: vec![
                RichTextProperty::Size(Binding::Ref(BindingRef::new("big".to_string()))),
                RichTextProperty::Style(vec![
                    RichTextStyle::Heading,
                    RichTextStyle::Strong,
                    RichTextStyle::Italics
                ]),
                RichTextProperty::Color(Binding::Value(Color { r: 0xad, g: 0xd8, b: 0xe6, a: 255 })),
                RichTextProperty::BackgroundColor(Binding::Value(Color {
                    r: 1,
                    g: 2,
                    b: 3,
                    a: 255
                })),
                RichTextProperty::LineHeight(Binding::Value(number(1.5))),
                RichTextProperty::ExtraLetterSpacing(Binding::Value(number(0.25))),
            ],
        }
    );
}

#[test]
fn rich_text_needs_its_text_once() {
    assert_eq!(
        read("window = { title = { size = 3 } }"),
        Err(Error::MissingField { field: "text".to_string(), at: "window.title".to_string() })
    );
    assert_eq!(
        read("window = { title = { text = a text = b } }"),
        Err(Error::DuplicateField {
            field: "text".to_string(),
            at: "window.title.text".to_string()
        })
    );
    assert_eq!(
        read("window = { title = { text = a bold = yes } }"),
        Err(Error::UnknownField {
            field: "bold".to_string(),
            expected: "`text`, `size`, `style`, `color`, `background_color`, `line_height`, \
                       `extra_letter_spacing`"
                .to_string(),
            at: "window.title.bold".to_string()
        })
    );
}

#[test]
fn unknown_style_lists_the_variants() {
    assert_eq!(
        read("window = { title = { text = a style = { bold } } }"),
        Err(Error::UnknownVariant {
            actual: "bold".to_string(),
            expected: "`small`, `body`, `monospace`, `button`, `heading`, `code`, `strong`, \
                       `weak`, `strikethrough`, `underline`, `italics`, `raised`"
                .to_string(),
            at: "window.title.style.0".to_string()
        })
    );
}

#[test]
fn colour_channels_must_fit_a_byte() {
    assert_eq!(
        read("window = { title = t button = { text = a fill = { 1 2 300 } } }"),
        Err(Error::InvalidValue {
            actual: "300".to_string(),
            expected: "u8".to_string(),
            at: "window.button.fill.2".to_string()
        })
    );
    assert_eq!(
        read("window = { title = t button = { text = a fill = { 1 2 } } }"),
        Err(Error::InvalidLength {
            actual: 2,
            expected: "{ r g b a? }".to_string(),
            at: "window.button.fill".to_string()
        })
    );
    assert_eq!(
        read("window = { title = t button = { text = a fill = { 1 2 3 4 5 } } }"),
        Err(Error::InvalidLength {
            actual: 5,
            expected: "{ r g b a? }".to_string(),
            at: "window.button.fill".to_string()
        })
    );
}

#[test]
fn stroke_is_none_or_width_and_colour() {
    let stroke = |document: &str| match first_button(read(document).unwrap()).props.pop() {
        Some(ButtonProperty::Stroke(stroke)) => stroke,
        other => panic!("no stroke: {:?}", other),
    };
    assert_eq!(
        stroke("window = { title = t button = { text = a stroke = none } }"),
        Stroke {
            width: Binding::Value(number(0.0)),
            color: Binding::Value(Color { r: 0, g: 0, b: 0, a: 0 })
        }
    );
    assert_eq!(
        stroke("window = { title = t button = { text = a stroke = { @wide @ink } } }"),
        Stroke {
            width: Binding::Ref(BindingRef::new("wide".to_string())),
            color: Binding::Ref(BindingRef::new("ink".to_string()))
        }
    );
    assert_eq!(
        read("window = { title = t button = { text = a stroke = thick } }"),
        Err(Error::InvalidType {
            actual: "unquoted scalar".to_string(),
            expected: "array".to_string(),
            at: "window.button.stroke".to_string()
        })
    );
    assert_eq!(
        read("window = { title = t button = { text = a stroke = { 1 red 2 } } }"),
        Err(Error::InvalidLength {
            actual: 3,
            expected: "{ width color } or none".to_string(),
            at: "window.button.stroke".to_string()
        })
    );
}

#[test]
fn sense_is_a_word_or_a_list() {
    let sense = |document: &str| match first_button(read(document).unwrap()).props.pop() {
        Some(ButtonProperty::Sense(sense)) => sense,
        other => panic!("no sense: {:?}", other),
    };
    assert_eq!(
        sense("window = { title = t button = { text = a sense = hover } }"),
        Sense { click: false, drag: false, focusable: false }
    );
    assert_eq!(
        sense("window = { title = t button = { text = a sense = { drag } } }"),
        Sense { click: false, drag: true, focusable: false }
    );
    assert_eq!(
        sense("window = { title = t button = { text = a sense = { } } }"),
        Sense { click: false, drag: false, focusable: false }
    );
    assert_eq!(
        read("window = { title = t button = { text = a sense = touch } }"),
        Err(Error::UnknownVariant {
            actual: "touch".to_string(),
            expected: "`hover`, `focusable_noninteractive`, `click`, `drag`, `click_and_drag`"
                .to_string(),
            at: "window.button.sense".to_string()
        })
    );
    assert_eq!(
        read("window = { title = t button = { text = a sense = { click hover } } }"),
        Err(Error::UnknownVariant {
            actual: "hover".to_string(),
            expected: "`click`, `drag`, `focusable`".to_string(),
            at: "window.button.sense.1".to_string()
        })
    );
}

#[test]
fn reference_needs_a_name() {
    assert_eq!(
        read("window = { title = @ }"),
        Err(Error::InvalidValue {
            actual: "@".to_string(),
            expected: "@ref".to_string(),
            at: "window.title".to_string()
        })
    );
}

#[test]
fn quoted_reference_is_a_literal() {
    assert_eq!(read("window = { title = \"@name\" }"), Ok(window("@name")));
}

#[test]
fn response_takes_a_reference() {
    assert_eq!(
        read("window = { title = t button = { text = a clicked = go } }"),
        Err(Error::InvalidValue {
            actual: "go".to_string(),
            expected: "@ref".to_string(),
            at: "window.button.clicked".to_string()
        })
    );
    assert_eq!(
        read("window = { title = t button = { text = a clicked = \"@go\" } }"),
        Err(Error::InvalidType {
            actual: "quoted scalar".to_string(),
            expected: "unquoted scalar".to_string(),
            at: "window.button.clicked".to_string()
        })
    );
}

#[test]
fn field_with_operator_is_refused() {
    assert_eq!(
        read("window = { title = t button = { text = a small < yes } }"),
        Err(Error::UnexpectedOperator { op: "<".to_string(), at: "window.button".to_string() })
    );
}

#[test]
fn value_without_key_is_refused() {
    assert_eq!(
        read("window = { title = t button = { text = a b } }"),
        Err(Error::UnexpectedRemainder {
            remainder: "b".to_string(),
            at: "window.button".to_string()
        })
    );
    assert_eq!(
        read("window = { title = t button = { a b c } }"),
        Err(Error::UnexpectedRemainder {
            remainder: "a".to_string(),
            at: "window.button".to_string()
        })
    );
}

#[test]
fn header_is_no_value() {
    assert_eq!(
        read("window = { title = t button = { text = a fill = rgb { 1 2 3 } } }"),
        Err(Error::InvalidType {
            actual: "header".to_string(),
            expected: "array".to_string(),
            at: "window.button.fill".to_string()
        })
    );
}

#[test]
fn messages_name_what_is_wrong_and_where() {
    let message = |document: &str| read(document).unwrap_err().message();
    assert_eq!(
        message("window = { title = t auto_sized = yes }"),
        "invalid type unquoted scalar, expected {} (at window.auto_sized)"
    );
    assert_eq!(
        message("window = { title = @ }"),
        "invalid value @, expected @ref (at window.title)"
    );
    assert_eq!(
        message("window = { title = t min_size = { 1 } }"),
        "invalid length 1, expected { x y } (at window.min_size)"
    );
    assert_eq!(
        message("window = { title = t anchor = { middle top } }"),
        "unknown variant middle, expected one of `center`, `left`, `right`, `top`, `bottom` (at window.anchor.0)"
    );
    assert_eq!(
        message("a = b"),
        "unknown field `a`, expected one of `window` (at a)"
    );
    assert_eq!(
        message("window = { title = a title = b }"),
        "duplicate field `title` (at window.title)"
    );
    assert_eq!(message(""), "missing field `window` (at )");
    assert_eq!(message("window >= { title = t }"), "unexpected operator `>=` (at window)");
    assert_eq!(
        message("window = { title = t button = { text = a b } }"),
        "unexpected remainder `b` (at window.button)"
    );
    assert_eq!(message("window"), "failed to deserialize: unexpected end of file (at )");
    assert_eq!(
        message("window = { title = t resizable = perhaps }"),
        "failed to parse: is not a valid bool (at window.resizable)"
    );
    assert_eq!(
        message("window = { title = t anchor = { top top } }"),
        "invalid alignment: `top top` (at window.anchor)"
    );
}

#[test]
fn scalar_failures_read_as_the_parser_words_them() {
    assert_eq!(ScalarFailure::AllDigits.to_str(), jomini::ScalarError::AllDigits.to_string());
    assert_eq!(ScalarFailure::Overflow.to_str(), jomini::ScalarError::Overflow.to_string());
    assert_eq!(ScalarFailure::InvalidBool.to_str(), jomini::ScalarError::InvalidBool.to_string());
    assert_eq!(
        ScalarFailure::PrecisionLoss.to_str(),
        jomini::ScalarError::PrecisionLoss(1.0).to_string()
    );
}
