use egui::Color32;
use uiconf::model::{
    Align, Color, ColorName, ContentWidget, Direction, Root, SenseKind, SenseType, Sense,
};
use uiconf::reader::node::Node;
use uiconf::reader::reader::Reader;

fn channels(color: Color32) -> Color {
    Color { r: color.r(), g: color.g(), b: color.b(), a: color.a() }
}

#[test]
fn named_colours_are_those_of_egui() {
    let palette = [
        (ColorName::Transparent, Color32::TRANSPARENT),
        (ColorName::Black, Color32::BLACK),
        (ColorName::DarkGray, Color32::DARK_GRAY),
        (ColorName::Gray, Color32::GRAY),
        (ColorName::LightGray, Color32::LIGHT_GRAY),
        (ColorName::White, Color32::WHITE),
        (ColorName::Brown, Color32::BROWN),
        (ColorName::DarkRed, Color32::DARK_RED),
        (ColorName::Red, Color32::RED),
        (ColorName::LightRed, Color32::LIGHT_RED),
        (ColorName::Yellow, Color32::YELLOW),
        (ColorName::LightYellow, Color32::LIGHT_YELLOW),
        (ColorName::Khaki, Color32::KHAKI),
        (ColorName::DarkGreen, Color32::DARK_GREEN),
        (ColorName::Green, Color32::GREEN),
        (ColorName::LightGreen, Color32::LIGHT_GREEN),
        (ColorName::DarkBlue, Color32::DARK_BLUE),
        (ColorName::Blue, Color32::BLUE),
        (ColorName::LightBlue, Color32::LIGHT_BLUE),
        (ColorName::Gold, Color32::GOLD),
        (ColorName::DebugColor, Color32::DEBUG_COLOR),
        (ColorName::TemporaryColor, Color32::TEMPORARY_COLOR),
    ];
    assert_eq!(palette.len(), ColorName::variants().len());
    for (name, colour) in palette {
        assert_eq!(name.to_color(), channels(colour), "{:?}", name);
    }
}

#[test]
fn colour_names_are_the_variants_in_snake_case() {
    assert_eq!(
        ColorName::variants(),
        vec![
            "transparent",
            "black",
            "dark_gray",
            "gray",
            "light_gray",
            "white",
            "brown",
            "dark_red",
            "red",
            "light_red",
            "yellow",
            "light_yellow",
            "khaki",
            "dark_green",
            "green",
            "light_green",
            "dark_blue",
            "blue",
            "light_blue",
            "gold",
            "debug_color",
            "temporary_color"
        ]
    );
    for name in ColorName::variants() {
        assert!(ColorName::from_name(name).is_some());
        assert_eq!(ColorName::from_name(name), ColorName::from_name(&name.to_uppercase()));
    }
    assert_eq!(ColorName::from_name("dark_gray"), Some(ColorName::DarkGray));
    assert_eq!(ColorName::from_name("darkgray"), None);
    assert_eq!(ColorName::from_name(""), None);
}

#[test]
fn colour_is_a_name_or_its_channels() {
    let read_at = |node: Node| Reader::new(&node, vec![]).read::<Color>();
    assert_eq!(read_at(Node::Unquoted(b"khaki".to_vec())), Ok(channels(Color32::KHAKI)));
    assert_eq!(read_at(Node::Quoted(b"Debug_Color".to_vec())), Ok(channels(Color32::DEBUG_COLOR)));
    let channel = |text: &str| Node::Unquoted(text.as_bytes().to_vec());
    assert_eq!(
        read_at(Node::Array {
            mixed: false,
            items: vec![channel("1"), channel("2"), channel("3")]
        }),
        Ok(Color { r: 1, g: 2, b: 3, a: 255 })
    );
    assert_eq!(
        read_at(Node::Array {
            mixed: false,
            items: vec![channel("1"), channel("2"), channel("3"), channel("0")]
        }),
        Ok(Color { r: 1, g: 2, b: 3, a: 0 })
    );
}

fn sense_of(sense: egui::Sense) -> Sense {
    Sense { click: sense.click, drag: sense.drag, focusable: sense.focusable }
}

#[test]
fn senses_are_those_of_egui() {
    assert_eq!(SenseKind::Hover.to_sense(), sense_of(egui::Sense::hover()));
    assert_eq!(
        SenseKind::FocusableNoninteractive.to_sense(),
        sense_of(egui::Sense::focusable_noninteractive())
    );
    assert_eq!(SenseKind::Click.to_sense(), sense_of(egui::Sense::click()));
    assert_eq!(SenseKind::Drag.to_sense(), sense_of(egui::Sense::drag()));
    assert_eq!(SenseKind::ClickAndDrag.to_sense(), sense_of(egui::Sense::click_and_drag()));
    assert_eq!(SenseType::variants(), vec!["click", "drag", "focusable"]);
    assert_eq!(
        SenseKind::variants(),
        vec!["hover", "focusable_noninteractive", "click", "drag", "click_and_drag"]
    );
}

#[test]
fn layout_starts_as_that_of_egui() {
    let window = Root::read(b"window = { title = t layout = {} }").unwrap();
    let flow = match &window.content.0[0] {
        ContentWidget::Layout(layout) => layout.layout,
        other => panic!("no layout: {:?}", other),
    };
    let theirs = egui::Layout::default();
    let direction = |direction: egui::Direction| match direction {
        egui::Direction::LeftToRight => Direction::LeftToRight,
        egui::Direction::RightToLeft => Direction::RightToLeft,
        egui::Direction::TopDown => Direction::TopDown,
        egui::Direction::BottomUp => Direction::BottomUp,
    };
    let align = |align: egui::Align| match align {
        egui::Align::Min => Align::Min,
        egui::Align::Center => Align::Center,
        egui::Align::Max => Align::Max,
    };
    assert_eq!(flow.main_dir, direction(theirs.main_dir));
    assert_eq!(flow.main_wrap, theirs.main_wrap);
    assert_eq!(flow.main_align, align(theirs.main_align));
    assert_eq!(flow.main_justify, theirs.main_justify);
    assert_eq!(flow.cross_align, align(theirs.cross_align));
    assert_eq!(flow.cross_justify, theirs.cross_justify);
}

#[test]
fn no_stroke_and_no_rounding_are_those_of_egui() {
    let window = Root::read(
        b"window = { title = t button = { text = a stroke = none rounding = none } }",
    )
    .unwrap();
    let button = match &window.content.0[0] {
        ContentWidget::Button(button) => button,
        other => panic!("no button: {:?}", other),
    };
    match &button.props[0] {
        uiconf::model::ButtonProperty::Stroke(stroke) => {
            assert_eq!(
                stroke.width,
                uiconf::reader::binding::Binding::Value(uiconf::reader::Number {
                    bits: (egui::Stroke::NONE.width as f64).to_bits()
                })
            );
            assert_eq!(
                stroke.color,
                uiconf::reader::binding::Binding::Value(channels(egui::Stroke::NONE.color))
            );
        }
        other => panic!("no stroke: {:?}", other),
    }
    match &button.props[1] {
        uiconf::model::ButtonProperty::Rounding(rounding) => {
            let zero = egui::Rounding::ZERO;
            assert_eq!(rounding.nw.bits, (zero.nw as f64).to_bits());
            assert_eq!(rounding.ne.bits, (zero.ne as f64).to_bits());
            assert_eq!(rounding.se.bits, (zero.se as f64).to_bits());
            assert_eq!(rounding.sw.bits, (zero.sw as f64).to_bits());
        }
        other => panic!("no rounding: {:?}", other),
    }
}
