//! The outline of a shape.

use vstd::prelude::*;

use crate::model::color::Color;
use crate::reader::binding::{Binding, BindingView};
use crate::reader::error::{Error, ErrorView};
use crate::reader::reader::{string_of, values_of, Reader, ReaderView};
use crate::reader::{read_required, required, Number, ReadUiconf};

verus! {

/// An outline: how wide it is drawn, and in which colour.
#[derive(Debug, PartialEq, Eq)]
pub struct Stroke {
    pub width: Binding<Number>,
    pub color: Binding<Color>,
}

/// The mathematical value of a [`Stroke`].
pub struct StrokeView {
    pub width: BindingView<Number>,
    pub color: BindingView<Color>,
}

impl DeepView for Stroke {
    type V = StrokeView;

    open spec fn deep_view(&self) -> StrokeView {
        StrokeView { width: self.width.deep_view(), color: self.color.deep_view() }
    }
}

impl Stroke {
    /// No outline: no width, and a colour that does not show.
    pub open spec fn none() -> StrokeView {
        StrokeView {
            width: BindingView::Value(Number::zero()),
            color: BindingView::Value(Color { r: 0, g: 0, b: 0, a: 0 }),
        }
    }
}

/// Whether the node is the scalar `none`.
pub open spec fn is_none_word(value: ReaderView) -> bool {
    string_of(value) == Ok::<Seq<char>, ErrorView>("none"@)
}

/// The outline that an array spells: a width and a colour.
pub open spec fn stroke_of(path: Seq<Seq<char>>, elements: Seq<ReaderView>) -> Result<
    StrokeView,
    ErrorView,
> {
    match required::<Binding<Number>>(path, elements, 0, "{ width color } or none"@) {
        Err(error) => Err(error),
        Ok(width) => match required::<Binding<Color>>(
            path,
            elements,
            1,
            "{ width color } or none"@,
        ) {
            Err(error) => Err(error),
            Ok(color) => if elements.len() > 2 {
                Err(ErrorView::invalid_length(path, 3, "{ width color } or none"@))
            } else {
                Ok(StrokeView { width, color })
            },
        },
    }
}

impl ReadUiconf for Stroke {
    /// The scalar `none` is no outline; an array holds width and colour.
    open spec fn decoded(value: ReaderView) -> Result<StrokeView, ErrorView> {
        if is_none_word(value) {
            Ok(Stroke::none())
        } else {
            match values_of(value) {
                Ok(elements) => stroke_of(value.path, elements),
                Err(error) => Err(error),
            }
        }
    }

    fn read_uiconf(value: &Reader) -> (r: Result<Self, Error>) {
        match value.read_string() {
            Ok(text) => {
                if text.as_str().eq("none") {
                    return Ok(
                        Stroke {
                            width: Binding::Value(Number { bits: 0 }),
                            color: Binding::Value(Color { r: 0, g: 0, b: 0, a: 0 }),
                        },
                    );
                }
            },
            Err(_) => {},
        }
        let elements = value.read_array()?;
        let width = read_required::<Binding<Number>>(
            value,
            &elements,
            0,
            "{ width color } or none",
        )?;
        let color = read_required::<Binding<Color>>(value, &elements, 1, "{ width color } or none")?;
        if elements.len() > 2 {
            return Err(Error::invalid_length(value, 3, "{ width color } or none"));
        }
        Ok(Stroke { width, color })
    }
}

} // verus!
