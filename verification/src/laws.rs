//! What holds of decoding and of resolving, whatever the document and the
//! data.

use vstd::prelude::*;

use crate::model::anchor::{anchor_of, paired, Alignment, Vec2};
use crate::model::shape::{any_word, size_of, AnyOrNumber, Rounding, SizeMode};
use crate::model::widgets::{
    layout_order_message, ContentWidget, Layout, LayoutField, LayoutParts, LayoutView,
};
use crate::model::window::{window_order_message, Root, Window, WindowProperty, WindowView};
use crate::reader::binding::{noted, resolved_binding, BindingRefView, BindingView};
use crate::reader::data_model::{
    field_of, index_from, index_from_after_update, index_from_found, index_of, resolved,
    with_field, FieldType, Fields, Reason, ValueView,
};
use crate::reader::error::ErrorView;
use crate::reader::node::{document_of, NodeView};
use crate::reader::reader::{
    fields_of, root_fields_of, scalar_of, string_of, values_of, ReaderView,
};
use crate::reader::{Number, ReadUiconf};

verus! {

/// A document with two windows is refused. Where the first two fields of a
/// document are both called `window` and written with `=`, and the first of
/// them decodes, the document is a `DuplicateField` of `window`, found at
/// `window`.
pub proof fn second_window_is_duplicate(data: Seq<u8>, nodes: Seq<NodeView>)
    requires
        document_of(data) == Ok::<Seq<NodeView>, Seq<char>>(nodes),
        root_fields_of(nodes).len() >= 2,
        root_fields_of(nodes)[0].key == "window"@,
        root_fields_of(nodes)[0].operator is None,
        Window::decoded(root_fields_of(nodes)[0].value) is Ok,
        root_fields_of(nodes)[1].key == "window"@,
        root_fields_of(nodes)[1].operator is None,
    ensures
        Root::window_of(nodes) == Err::<WindowView, ErrorView>(
            ErrorView::DuplicateField { field: "window"@, at: "window"@ },
        ),
        Root::decoded(data) == Root::window_of(nodes),
{
    let fields = root_fields_of(nodes);
    let first = Window::decoded(fields[0].value)->Ok_0;
    assert(fields[1].value.path == seq![fields[1].key]);
    assert(Root::folded(fields, 1, Some(first)) == Err::<Option<WindowView>, ErrorView>(
        ErrorView::duplicate_field(fields[1].value.path, "window"@),
    ));
    assert(Root::folded(fields, 0, None) == Root::folded(fields, 1, Some(first)));
}

/// A name of a widget is neither `title` nor the name of a property of a
/// window.
pub proof fn widget_names_are_no_window_properties(key: Seq<char>)
    requires
        ContentWidget::names().contains(key),
    ensures
        key != "title"@,
        !WindowProperty::names().contains(key),
{
    reveal_strlit("button");
    reveal_strlit("label");
    reveal_strlit("separator");
    reveal_strlit("layout");
    reveal_strlit("title");
    reveal_strlit("anchor");
    reveal_strlit("title_bar");
    reveal_strlit("default_size");
    reveal_strlit("min_size");
    reveal_strlit("max_size");
    reveal_strlit("fixed_size");
    reveal_strlit("auto_sized");
    reveal_strlit("resizable");
    reveal_strlit("enabled");
    reveal_strlit("interactable");
    reveal_strlit("movable");
    reveal_strlit("collapsible");
    assert(key == "button"@ || key == "label"@ || key == "separator"@ || key == "layout"@);
    if WindowProperty::names().contains(key) {
        let properties = WindowProperty::names();
        let found = choose|i: int| 0 <= i < properties.len() && properties[i] == key;
        assert(properties[found].len() == key.len());
        assert(properties[found][0] == key[0]);
    }
}

/// A name of a widget is not the name of a property of a layout.
pub proof fn widget_names_are_no_layout_properties(key: Seq<char>)
    requires
        ContentWidget::names().contains(key),
    ensures
        LayoutField::named(key) is None,
{
    reveal_strlit("button");
    reveal_strlit("label");
    reveal_strlit("separator");
    reveal_strlit("layout");
    reveal_strlit("main_dir");
    reveal_strlit("main_wrap");
    reveal_strlit("main_align");
    reveal_strlit("main_justify");
    reveal_strlit("cross_align");
    reveal_strlit("cross_justify");
    reveal_strlit("visible");
    assert(key == "button"@ || key == "label"@ || key == "separator"@ || key == "layout"@);
    match LayoutField::named(key) {
        Some(field) => {
            assert(key[0] == 'm' || key[0] == 'c' || key[0] == 'v');
        },
        None => {},
    }
}

/// Decoding the fields of a window goes on, behind the first `upto` of
/// them, from what they gave.
pub proof fn window_fold_goes_on(fields: Seq<(Seq<char>, ReaderView)>, upto: int)
    requires
        0 <= upto <= fields.len(),
        Window::before(fields, upto) is Some,
    ensures
        Window::folded(fields, 0, Window::no_parts()) == Window::folded(
            fields,
            upto,
            Window::before(fields, upto)->0,
        ),
    decreases upto,
{
    if upto > 0 {
        window_fold_goes_on(fields, upto - 1);
    }
}

/// In a window, the title and the properties stand above the widgets. Where
/// the fields before `at` decode, the last of them is a widget, and the
/// field at `at` is the title or a property whose value decodes, the
/// window is refused with the ordering error that names both keys, found at
/// that field.
pub proof fn window_property_after_widget(value: ReaderView, at: int)
    requires
        fields_of(value) is Ok,
        1 <= at < fields_of(value)->Ok_0.len(),
        Window::before(fields_of(value)->Ok_0, at) is Some,
        ContentWidget::names().contains(fields_of(value)->Ok_0[at - 1].0),
        Window::with_property(
            fields_of(value)->Ok_0[at].0,
            fields_of(value)->Ok_0[at].1,
            Window::before(fields_of(value)->Ok_0, at)->0,
        ) matches Some(Ok(_)),
    ensures
        Window::decoded(value) == Err::<WindowView, ErrorView>(
            ErrorView::custom(
                fields_of(value)->Ok_0[at].1.path,
                window_order_message(
                    fields_of(value)->Ok_0[at].0,
                    fields_of(value)->Ok_0[at - 1].0,
                ),
            ),
        ),
{
    let fields = fields_of(value)->Ok_0;
    let parts = Window::before(fields, at)->0;
    let earlier = Window::before(fields, at - 1)->0;
    widget_names_are_no_window_properties(fields[at - 1].0);
    assert(Window::with_property(fields[at - 1].0, fields[at - 1].1, earlier) is None);
    assert(parts.last_content == Some(fields[at - 1].0));
    window_fold_goes_on(fields, at);
    assert(Window::step(fields[at].0, fields[at].1, parts) is Err);
}

/// Decoding the fields of a layout goes on, behind the first `upto` of
/// them, from what they gave.
pub proof fn layout_fold_goes_on(value: ReaderView, upto: int)
    requires
        fields_of(value) is Ok,
        0 <= upto <= fields_of(value)->Ok_0.len(),
        Layout::before(value, upto) is Some,
    ensures
        Layout::folded(value, 0, Layout::no_parts()) == Layout::folded(
            value,
            upto,
            Layout::before(value, upto)->0,
        ),
    decreases upto,
{
    if upto > 0 {
        layout_fold_goes_on(value, upto - 1);
        let earlier = Layout::before(value, upto - 1)->0;
        assert(Layout::folded(value, upto - 1, earlier) == match Layout::step(
            value,
            upto - 1,
            earlier,
        ) {
            Ok(next) => Layout::folded(value, upto, next),
            Err(error) => Err(error),
        });
    }
}

/// In a layout, the properties stand above the widgets. Where the fields
/// before `at` decode, the last of them is a widget, and the field at `at`
/// is a property whose value decodes, the layout is refused with the
/// ordering error that names both keys, found at that field.
pub proof fn layout_property_after_widget(value: ReaderView, at: int)
    requires
        fields_of(value) is Ok,
        1 <= at < fields_of(value)->Ok_0.len(),
        Layout::before(value, at) is Some,
        ContentWidget::names().contains(fields_of(value)->Ok_0[at - 1].0),
        Layout::with_property(
            fields_of(value)->Ok_0[at].0,
            fields_of(value)->Ok_0[at].1,
            Layout::before(value, at)->0,
        ) matches Some(Ok(_)),
    ensures
        Layout::decoded(value) == Err::<LayoutView, ErrorView>(
            ErrorView::custom(
                fields_of(value)->Ok_0[at].1.path,
                layout_order_message(
                    fields_of(value)->Ok_0[at].0,
                    fields_of(value)->Ok_0[at - 1].0,
                ),
            ),
        ),
{
    let fields = fields_of(value)->Ok_0;
    let parts = Layout::before(value, at)->0;
    let earlier = Layout::before(value, at - 1)->0;
    widget_names_are_no_layout_properties(fields[at - 1].0);
    assert(Layout::with_property(fields[at - 1].0, fields[at - 1].1, earlier) is None);
    assert(Layout::step(value, at - 1, earlier) == Ok::<LayoutParts, ErrorView>(parts));
    assert(parts.last_content == Some(fields[at - 1].0));
    layout_fold_goes_on(value, at);
    assert(Layout::step(value, at, parts) is Err);
    assert(Layout::folded(value, at, parts) == match Layout::step(value, at, parts) {
        Ok(next) => Layout::folded(value, at + 1, next),
        Err(error) => Err(error),
    });
}

/// A number decodes to the same value wherever in the document it stands.
pub proof fn number_is_the_same_anywhere(a: ReaderView, b: ReaderView)
    requires
        a.node == b.node,
        Number::decoded(a) is Ok,
    ensures
        Number::decoded(b) == Number::decoded(a),
{
}

/// One radius is the radius of all four corners: a scalar rounding and the
/// array that repeats it four times decode to the same rounding, each
/// corner of which is that radius.
pub proof fn rounding_of_one_radius(scalar: ReaderView, array: ReaderView)
    requires
        scalar.node.is_scalar(),
        string_of(scalar) != Ok::<Seq<char>, ErrorView>("none"@),
        Number::decoded(scalar) is Ok,
        array.node is Array,
        array.node.items() == seq![scalar.node, scalar.node, scalar.node, scalar.node],
    ensures
        Rounding::decoded(scalar) == Ok::<Rounding, ErrorView>(
            Rounding::same(Number::decoded(scalar)->Ok_0),
        ),
        Rounding::decoded(array) == Rounding::decoded(scalar),
{
    let elements = values_of(array)->Ok_0;
    assert(elements.len() == 4);
    number_is_the_same_anywhere(scalar, elements[0]);
    number_is_the_same_anywhere(scalar, elements[1]);
    number_is_the_same_anywhere(scalar, elements[2]);
    number_is_the_same_anywhere(scalar, elements[3]);
}

/// The rounding `none` is zero at every corner.
pub proof fn rounding_none_is_zero(value: ReaderView)
    requires
        string_of(value) == Ok::<Seq<char>, ErrorView>("none"@),
    ensures
        Rounding::decoded(value) == Ok::<Rounding, ErrorView>(
            Rounding {
                nw: Number { bits: 0 },
                ne: Number { bits: 0 },
                se: Number { bits: 0 },
                sw: Number { bits: 0 },
            },
        ),
{
}

/// The two alignments of an anchor may come in either order. They name no
/// place exactly when both are sides of the same axis.
pub proof fn alignments_pair_in_either_order(first: Alignment, second: Alignment)
    ensures
        paired(first, second) == paired(second, first),
        paired(first, second) is None <==> (!first.vertical() && !second.vertical()) || (
        !first.horizontal() && !second.horizontal()),
{
}

/// An alignment decodes to the same value wherever in the document it
/// stands.
pub proof fn alignment_is_the_same_anywhere(a: ReaderView, b: ReaderView)
    requires
        a.node == b.node,
        Alignment::decoded(a) is Ok,
    ensures
        Alignment::decoded(b) == Alignment::decoded(a),
{
}

/// An anchor of two alignments decodes to the same anchor when they are
/// written in the other order, and fails in one order exactly when it fails
/// in the other.
pub proof fn anchor_in_either_order(
    path: Seq<Seq<char>>,
    first: ReaderView,
    second: ReaderView,
    swapped_first: ReaderView,
    swapped_second: ReaderView,
)
    requires
        swapped_first.node == second.node,
        swapped_second.node == first.node,
        Alignment::decoded(first) is Ok,
        Alignment::decoded(second) is Ok,
    ensures
        anchor_of(path, seq![first, second]) is Ok <==> anchor_of(
            path,
            seq![swapped_first, swapped_second],
        ) is Ok,
        anchor_of(path, seq![first, second]) is Ok ==> anchor_of(path, seq![first, second])
            == anchor_of(path, seq![swapped_first, swapped_second]),
{
    alignment_is_the_same_anywhere(first, swapped_second);
    alignment_is_the_same_anywhere(second, swapped_first);
    alignments_pair_in_either_order(
        Alignment::decoded(first)->Ok_0,
        Alignment::decoded(second)->Ok_0,
    );
}

/// A reference to a field that the data object lacks does not resolve: the
/// failure is that the key was not found, and the reference keeps its name
/// and has recorded the failure.
pub proof fn missing_field_is_not_found<T: FieldType>(reference: BindingRefView, fields: Fields)
    requires
        field_of(fields, reference.name) is None,
    ensures
        resolved_binding::<T>(BindingView::Ref(reference), fields) == Err::<T::V, Reason>(
            Reason::KeyNotFound,
        ),
        noted::<T>(BindingView::Ref(reference), fields) == BindingView::<T::V>::Ref(
            BindingRefView { name: reference.name, warned: true },
        ),
{
}

/// A value that was written in the document resolves to itself against any
/// data object, and resolving leaves it as it is.
pub proof fn literal_resolves_to_itself<T: FieldType>(literal: T::V, fields: Fields)
    ensures
        resolved_binding::<T>(BindingView::Value(literal), fields) == Ok::<T::V, Reason>(literal),
        noted::<T>(BindingView::Value(literal), fields) == BindingView::Value(literal),
{
}

/// Where `any` is not accepted, a size whose first component is `any` is an
/// `InvalidValue` found at that component.
pub proof fn any_is_refused_as_first_component(value: ReaderView)
    requires
        values_of(value) is Ok,
        values_of(value)->Ok_0.len() >= 1,
        scalar_of(values_of(value)->Ok_0[0]) == Ok::<Seq<u8>, ErrorView>(any_word()),
    ensures
        size_of(SizeMode::AnyDisallowed, value) == Err::<Vec2, ErrorView>(
            ErrorView::invalid_value(values_of(value)->Ok_0[0].path, "any"@, "number"@),
        ),
{
}

/// Where `any` is not accepted, a size whose first component is a number and
/// whose second is `any` is an `InvalidValue` found at the second.
pub proof fn any_is_refused_as_second_component(value: ReaderView)
    requires
        values_of(value) is Ok,
        values_of(value)->Ok_0.len() >= 2,
        AnyOrNumber::decoded(values_of(value)->Ok_0[0]) matches Ok(Some(_)),
        scalar_of(values_of(value)->Ok_0[1]) == Ok::<Seq<u8>, ErrorView>(any_word()),
    ensures
        size_of(SizeMode::AnyDisallowed, value) == Err::<Vec2, ErrorView>(
            ErrorView::invalid_value(values_of(value)->Ok_0[1].path, "any"@, "number"@),
        ),
{
}

/// Nothing is kept of a failure. A reference that failed against one data
/// object resolves against another that has the field with a value of the
/// right kind.
pub proof fn failure_is_not_kept<T: FieldType>(
    reference: BindingRefView,
    before: Fields,
    after: Fields,
    held: T::V,
)
    requires
        resolved::<T>(before, reference.name) is Err,
        field_of(after, reference.name) matches Some(value) && T::extract(value) == Some(held),
    ensures
        resolved_binding::<T>(noted::<T>(BindingView::Ref(reference), before), after) == Ok::<
            T::V,
            Reason,
        >(held),
{
}

/// A name that no field from `from` on bears is found where it is added.
pub proof fn added_field_is_found(fields: Fields, name: Seq<char>, value: ValueView, from: int)
    requires
        0 <= from <= fields.len(),
        index_from(fields, name, from) is None,
    ensures
        index_from(fields.push((name, value)), name, from) == Some(fields.len() as int),
    decreases fields.len() - from,
{
    let longer = fields.push((name, value));
    if from < fields.len() {
        assert(longer[from] == fields[from]);
        added_field_is_found(fields, name, value, from + 1);
    } else {
        assert(longer[from].0 == name);
    }
}

/// A field that was set is found under its name with the value it was set
/// to.
pub proof fn set_field_is_found(fields: Fields, name: Seq<char>, value: ValueView)
    ensures
        field_of(with_field(fields, name, value), name) == Some(value),
{
    match index_of(fields, name) {
        Some(index) => {
            index_from_found(fields, name, 0);
            index_from_after_update(fields, index, value, name, 0);
            assert(fields.update(index, (name, value)) == fields.update(
                index,
                (fields[index].0, value),
            ));
        },
        None => {
            added_field_is_found(fields, name, value, 0);
        },
    }
}

/// A reference resolves once its field is there: after the field was set to
/// a value of the right kind, the reference resolves to what that value
/// holds, whatever failed before.
pub proof fn reference_resolves_once_field_is_set<T: FieldType>(
    reference: BindingRefView,
    fields: Fields,
    value: ValueView,
    held: T::V,
)
    requires
        T::extract(value) == Some(held),
    ensures
        resolved_binding::<T>(
            noted::<T>(BindingView::Ref(reference), fields),
            with_field(fields, reference.name, value),
        ) == Ok::<T::V, Reason>(held),
{
    set_field_is_found(fields, reference.name, value);
}

} // verus!
