//! The document: a window, its properties and its widgets.

pub mod anchor;
pub mod color;
pub mod frame;
pub mod response;
pub mod rich_text;
pub mod shape;
pub mod stroke;
pub mod widgets;
pub mod window;

pub use anchor::{Align, Align2, Alignment, Anchor, Vec2};
pub use color::{Color, ColorName};
pub use frame::{
    ButtonFrame, ButtonSetting, ResolvedStroke, ResolvedText, TextSetting, WindowFrame,
    WindowSetting,
};
pub use response::{Interaction, ResponseAction};
pub use rich_text::{RichText, RichTextProperty, RichTextStyle};
pub use shape::{AnyOrNumber, Empty, Rounding, Sense, SenseKind, SenseType, SizeMode};
pub use stroke::Stroke;
pub use widgets::{
    Button, ButtonProperty, Content, ContentWidget, Direction, Flow, Label, LabelProperty, Layout,
    Response, ResponseProperty, Separator, SeparatorProperty,
};
pub use window::{Root, Window, WindowProperty};
