//! The data that bindings are resolved against: an object of named fields,
//! each of which holds a value of one of a few kinds.

use vstd::prelude::*;

use crate::model::color::Color;
use crate::reader::Number;

verus! {

/// A counter of events that have not been looked at yet.
#[derive(Debug, Clone, Copy, PartialEq, Eq, Structural, Default)]
pub struct Trigger(pub u32);

impl DeepView for Trigger {
    type V = Trigger;

    open spec fn deep_view(&self) -> Trigger {
        *self
    }
}

impl Trigger {
    /// The counter after one more event. It stays at the largest number it
    /// can hold.
    pub open spec fn triggered(self) -> Trigger {
        if self.0 < u32::MAX {
            Trigger((self.0 + 1) as u32)
        } else {
            self
        }
    }

    /// Whether anything was counted since the last look; the count starts
    /// again at zero.
    pub fn check_reset(&mut self) -> (triggered: bool)
        ensures
            triggered == (old(self).0 > 0),
            final(self).0 == 0,
    {
        let triggered = self.0 > 0;
        self.0 = 0;
        triggered
    }

    /// How many events were counted since the last look.
    pub fn get_count(&self) -> (count: u32)
        ensures
            count == self.0,
    {
        self.0
    }

    /// Counts one event.
    pub fn trigger(&mut self)
        ensures
            *final(self) == old(self).triggered(),
    {
        if self.0 < u32::MAX {
            self.0 = self.0 + 1;
        }
    }
}

/// The kinds of value that a field can hold.
#[derive(Debug, Clone, Copy, PartialEq, Eq, Structural)]
pub enum ValueKind {
    Bool,
    Number,
    Text,
    Color,
    Trigger,
    List,
}

/// The value of one field.
#[derive(Debug, PartialEq, Eq)]
pub enum Value {
    Bool(bool),
    Number(Number),
    Text(String),
    Color(Color),
    Trigger(Trigger),
    List(Vec<Value>),
}

/// The mathematical value of a [`Value`].
pub enum ValueView {
    Bool(bool),
    Number(Number),
    Text(Seq<char>),
    Color(Color),
    Trigger(Trigger),
    List(Seq<ValueView>),
}

/// The values of the items of a list, in order.
pub open spec fn items_view(items: &Vec<Value>) -> Seq<ValueView>
    decreases items,
{
    Seq::new(
        items.len() as nat,
        |i: int|
            if 0 <= i < items.len() {
                value_view(&items[i])
            } else {
                ValueView::Bool(false)
            },
    )
}

/// The value of a field's value.
pub open spec fn value_view(value: &Value) -> ValueView
    decreases value,
{
    match value {
        Value::Bool(flag) => ValueView::Bool(*flag),
        Value::Number(number) => ValueView::Number(*number),
        Value::Text(text) => ValueView::Text(text@),
        Value::Color(color) => ValueView::Color(*color),
        Value::Trigger(trigger) => ValueView::Trigger(*trigger),
        Value::List(items) => ValueView::List(items_view(items)),
    }
}

impl DeepView for Value {
    type V = ValueView;

    open spec fn deep_view(&self) -> ValueView {
        value_view(self)
    }
}

/// The items of a list are viewed as any vector of values is.
pub proof fn items_view_is_deep_view(items: &Vec<Value>)
    ensures
        items_view(items) == items.deep_view(),
{
    assert(items_view(items) =~= items.deep_view());
}

impl ValueView {
    /// The kind of the value.
    pub open spec fn kind(self) -> ValueKind {
        match self {
            ValueView::Bool(_) => ValueKind::Bool,
            ValueView::Number(_) => ValueKind::Number,
            ValueView::Text(_) => ValueKind::Text,
            ValueView::Color(_) => ValueKind::Color,
            ValueView::Trigger(_) => ValueKind::Trigger,
            ValueView::List(_) => ValueKind::List,
        }
    }
}

impl Value {
    /// The kind of the value.
    pub fn kind(&self) -> (r: ValueKind)
        ensures
            r == self.deep_view().kind(),
    {
        match self {
            Value::Bool(_) => ValueKind::Bool,
            Value::Number(_) => ValueKind::Number,
            Value::Text(_) => ValueKind::Text,
            Value::Color(_) => ValueKind::Color,
            Value::Trigger(_) => ValueKind::Trigger,
            Value::List(_) => ValueKind::List,
        }
    }
}

/// The fields of a data object: names and values, in the order in which the
/// fields were added.
pub type Fields = Seq<(Seq<char>, ValueView)>;

/// The index of the first field from `from` on that is called `name`.
pub open spec fn index_from(fields: Fields, name: Seq<char>, from: int) -> Option<int>
    decreases fields.len() - from,
{
    if from < 0 || from >= fields.len() {
        None
    } else if fields[from].0 == name {
        Some(from)
    } else {
        index_from(fields, name, from + 1)
    }
}

/// The index of the field called `name`.
pub open spec fn index_of(fields: Fields, name: Seq<char>) -> Option<int> {
    index_from(fields, name, 0)
}

/// The value of the field called `name`.
pub open spec fn field_of(fields: Fields, name: Seq<char>) -> Option<ValueView> {
    match index_of(fields, name) {
        Some(index) => Some(fields[index].1),
        None => None,
    }
}

/// The fields with `value` as the value of the field called `name`, which
/// is added behind the others where there is none of that name.
pub open spec fn with_field(fields: Fields, name: Seq<char>, value: ValueView) -> Fields {
    match index_of(fields, name) {
        Some(index) => fields.update(index, (name, value)),
        None => fields.push((name, value)),
    }
}

/// An index that `index_from` finds lies at or behind `from`, and holds the
/// name.
pub proof fn index_from_found(fields: Fields, name: Seq<char>, from: int)
    requires
        0 <= from,
    ensures
        match index_from(fields, name, from) {
            Some(index) => from <= index < fields.len() && fields[index].0 == name,
            None => forall|i: int| from <= i < fields.len() ==> fields[i].0 != name,
        },
    decreases fields.len() - from,
{
    if from < fields.len() && fields[from].0 != name {
        index_from_found(fields, name, from + 1);
    }
}

/// A change of one field's value leaves every name in its place.
pub proof fn index_from_after_update(
    fields: Fields,
    at: int,
    value: ValueView,
    name: Seq<char>,
    from: int,
)
    requires
        0 <= at < fields.len(),
        0 <= from,
    ensures
        index_from(fields.update(at, (fields[at].0, value)), name, from) == index_from(
            fields,
            name,
            from,
        ),
    decreases fields.len() - from,
{
    let changed = fields.update(at, (fields[at].0, value));
    if from < fields.len() && fields[from].0 != name {
        assert(changed[from].0 == fields[from].0);
        index_from_after_update(fields, at, value, name, from + 1);
    } else if from < fields.len() {
        assert(changed[from].0 == fields[from].0);
    }
}

/// Setting a field to the value it has changes nothing.
pub proof fn same_field_is_no_change(fields: Fields, name: Seq<char>, value: ValueView)
    requires
        field_of(fields, name) == Some(value),
    ensures
        with_field(fields, name, value) == fields,
{
    index_from_found(fields, name, 0);
    assert(with_field(fields, name, value) =~= fields);
}

/// Where one field's value changes, the fields as they are viewed change at
/// that field alone.
pub broadcast proof fn fields_view_after_update(
    before: Vec<(String, Value)>,
    after: Vec<(String, Value)>,
    index: int,
)
    requires
        0 <= index < before.len(),
        after@ == before@.update(index, (before@[index].0, after@[index].1)),
    ensures
        #![trigger after.deep_view(), before@[index]]
        after.deep_view() == before.deep_view().update(
            index,
            (before@[index].0@, after@[index].1.deep_view()),
        ),
{
    assert(after.deep_view() =~= before.deep_view().update(
        index,
        (before@[index].0@, after@[index].1.deep_view()),
    ));
}

fn value_at(fields: &mut Vec<(String, Value)>, index: usize) -> (r: &mut Value)
    requires
        index < old(fields).len(),
    ensures
        *r == old(fields)[index as int].1,
        final(fields)@ == old(fields)@.update(
            index as int,
            (old(fields)[index as int].0, *final(r)),
        ),
        final(fields).deep_view() == old(fields).deep_view().update(
            index as int,
            (old(fields)[index as int].0@, final(r).deep_view()),
        ),
{
    broadcast use fields_view_after_update;

    &mut fields[index].1
}

/// An object of named fields.
#[derive(Debug, PartialEq, Eq)]
pub struct DataObject {
    pub fields: Vec<(String, Value)>,
}

impl DeepView for DataObject {
    type V = Fields;

    open spec fn deep_view(&self) -> Fields {
        self.fields.deep_view()
    }
}

impl DataObject {
    /// An object without fields.
    pub fn new() -> (r: Self)
        ensures
            r.deep_view() == Seq::<(Seq<char>, ValueView)>::empty(),
    {
        let r = DataObject { fields: Vec::new() };
        assert(r.deep_view() =~= Seq::<(Seq<char>, ValueView)>::empty());
        r
    }

    fn position(&self, name: &str) -> (r: Option<usize>)
        ensures
            match r {
                Some(index) => index_of(self.deep_view(), name@) == Some(index as int) && index
                    < self.fields.len() && self.fields[index as int].0@ == name@,
                None => index_of(self.deep_view(), name@) is None,
            },
    {
        let mut i: usize = 0;
        while i < self.fields.len()
            invariant
                i <= self.fields.len(),
                index_of(self.deep_view(), name@) == index_from(
                    self.deep_view(),
                    name@,
                    i as int,
                ),
            decreases self.fields.len() - i,
        {
            assert(self.deep_view()[i as int].0 == self.fields[i as int].0@);
            if self.fields[i].0.as_str().eq(name) {
                return Some(i);
            }
            i = i + 1;
        }
        None
    }

    /// The value of the field called `name`.
    pub fn get_field(&self, name: &str) -> (r: Option<&Value>)
        ensures
            r.deep_view() == field_of(self.deep_view(), name@),
    {
        match self.position(name) {
            Some(index) => {
                assert(self.deep_view()[index as int].1 == self.fields[index as int].1.deep_view());
                Some(&self.fields[index].1)
            },
            None => None,
        }
    }

    /// The value of the field called `name`, to be changed in place. The
    /// object afterwards holds, under that name, what the caller left there.
    pub fn get_field_mut(&mut self, name: &str) -> (r: Option<&mut Value>)
        ensures
            match r {
                Some(value) => field_of(old(self).deep_view(), name@) == Some(value.deep_view())
                    && final(self).deep_view() == with_field(
                    old(self).deep_view(),
                    name@,
                    final(value).deep_view(),
                ),
                None => field_of(old(self).deep_view(), name@) is None && *final(self) == *old(
                    self,
                ),
            },
    {
        match self.position(name) {
            Some(index) => {
                assert(self.deep_view()[index as int] == self.fields[index as int].deep_view());
                Some(value_at(&mut self.fields, index))
            },
            None => None,
        }
    }

    /// Sets the field called `name` to `value`. A field that is not there
    /// yet is added behind the others.
    pub fn set(&mut self, name: &str, value: Value)
        ensures
            final(self).deep_view() == with_field(
                old(self).deep_view(),
                name@,
                value.deep_view(),
            ),
    {
        let ghost before = self.deep_view();
        match self.position(name) {
            Some(index) => {
                let slot = value_at(&mut self.fields, index);
                *slot = value;
            },
            None => {
                self.fields.push((name.to_string(), value));
                assert(self.deep_view() =~= before.push((name@, value.deep_view())));
            },
        }
    }
}

/// Why a reference could not be resolved.
#[derive(Debug, Clone, Copy, PartialEq, Eq, Structural)]
pub enum Reason {
    /// The data object has no field of that name.
    KeyNotFound,
    /// The field holds a value of another kind than the one asked for.
    TypeMismatch { expected: ValueKind, found: ValueKind },
}

/// A failure to resolve a reference. `first` tells that the reference had
/// not failed before: a diagnostic is owed for this failure, and for no
/// later one.
#[derive(Debug, Clone, Copy, PartialEq, Eq, Structural)]
pub struct ResolveError {
    pub reason: Reason,
    pub first: bool,
}

/// A type of value that a field can hold.
pub trait FieldType: Sized + DeepView {
    /// The kind of value that holds a `Self`.
    spec fn kind() -> ValueKind;

    /// The `Self` that a value holds, where it is of that kind.
    spec fn extract(value: ValueView) -> Option<Self::V>;

    /// The value that holds `held`.
    spec fn inject(held: Self::V) -> ValueView;

    /// The kind of value that holds a `Self`.
    fn kind_of() -> (r: ValueKind)
        ensures
            r == Self::kind(),
    ;

    /// The `Self` that a value holds, where it is of that kind.
    fn downcast_ref(value: &Value) -> (r: Option<&Self>)
        ensures
            match r {
                Some(held) => Self::extract(value.deep_view()) == Some(held.deep_view()),
                None => Self::extract(value.deep_view()) is None,
            },
    ;

    /// The `Self` that a value holds, to be changed in place.
    fn downcast_mut(value: &mut Value) -> (r: Option<&mut Self>)
        ensures
            match r {
                Some(held) => Self::extract(old(value).deep_view()) == Some(held.deep_view())
                    && final(value).deep_view() == Self::inject(final(held).deep_view()),
                None => Self::extract(old(value).deep_view()) is None && *final(value) == *old(
                    value,
                ),
            },
    ;
}

impl FieldType for bool {
    open spec fn kind() -> ValueKind {
        ValueKind::Bool
    }

    open spec fn extract(value: ValueView) -> Option<bool> {
        match value {
            ValueView::Bool(held) => Some(held),
            _ => None,
        }
    }

    open spec fn inject(held: bool) -> ValueView {
        ValueView::Bool(held)
    }

    fn kind_of() -> (r: ValueKind) {
        ValueKind::Bool
    }

    fn downcast_ref(value: &Value) -> (r: Option<&Self>) {
        match value {
            Value::Bool(held) => Some(held),
            _ => None,
        }
    }

    fn downcast_mut(value: &mut Value) -> (r: Option<&mut Self>) {
        match value {
            Value::Bool(held) => Some(held),
            _ => None,
        }
    }
}

impl FieldType for Number {
    open spec fn kind() -> ValueKind {
        ValueKind::Number
    }

    open spec fn extract(value: ValueView) -> Option<Number> {
        match value {
            ValueView::Number(held) => Some(held),
            _ => None,
        }
    }

    open spec fn inject(held: Number) -> ValueView {
        ValueView::Number(held)
    }

    fn kind_of() -> (r: ValueKind) {
        ValueKind::Number
    }

    fn downcast_ref(value: &Value) -> (r: Option<&Self>) {
        match value {
            Value::Number(held) => Some(held),
            _ => None,
        }
    }

    fn downcast_mut(value: &mut Value) -> (r: Option<&mut Self>) {
        match value {
            Value::Number(held) => Some(held),
            _ => None,
        }
    }
}

impl FieldType for String {
    open spec fn kind() -> ValueKind {
        ValueKind::Text
    }

    open spec fn extract(value: ValueView) -> Option<Seq<char>> {
        match value {
            ValueView::Text(held) => Some(held),
            _ => None,
        }
    }

    open spec fn inject(held: Seq<char>) -> ValueView {
        ValueView::Text(held)
    }

    fn kind_of() -> (r: ValueKind) {
        ValueKind::Text
    }

    fn downcast_ref(value: &Value) -> (r: Option<&Self>) {
        match value {
            Value::Text(held) => Some(held),
            _ => None,
        }
    }

    fn downcast_mut(value: &mut Value) -> (r: Option<&mut Self>) {
        match value {
            Value::Text(held) => Some(held),
            _ => None,
        }
    }
}

impl FieldType for Color {
    open spec fn kind() -> ValueKind {
        ValueKind::Color
    }

    open spec fn extract(value: ValueView) -> Option<Color> {
        match value {
            ValueView::Color(held) => Some(held),
            _ => None,
        }
    }

    open spec fn inject(held: Color) -> ValueView {
        ValueView::Color(held)
    }

    fn kind_of() -> (r: ValueKind) {
        ValueKind::Color
    }

    fn downcast_ref(value: &Value) -> (r: Option<&Self>) {
        match value {
            Value::Color(held) => Some(held),
            _ => None,
        }
    }

    fn downcast_mut(value: &mut Value) -> (r: Option<&mut Self>) {
        match value {
            Value::Color(held) => Some(held),
            _ => None,
        }
    }
}

impl FieldType for Trigger {
    open spec fn kind() -> ValueKind {
        ValueKind::Trigger
    }

    open spec fn extract(value: ValueView) -> Option<Trigger> {
        match value {
            ValueView::Trigger(held) => Some(held),
            _ => None,
        }
    }

    open spec fn inject(held: Trigger) -> ValueView {
        ValueView::Trigger(held)
    }

    fn kind_of() -> (r: ValueKind) {
        ValueKind::Trigger
    }

    fn downcast_ref(value: &Value) -> (r: Option<&Self>) {
        match value {
            Value::Trigger(held) => Some(held),
            _ => None,
        }
    }

    fn downcast_mut(value: &mut Value) -> (r: Option<&mut Self>) {
        match value {
            Value::Trigger(held) => Some(held),
            _ => None,
        }
    }
}

/// What resolving the name `name` as a `T` gives: the value of the field of
/// that name, which must be there and hold a `T`.
pub open spec fn resolved<T: FieldType>(fields: Fields, name: Seq<char>) -> Result<T::V, Reason> {
    match field_of(fields, name) {
        None => Err(Reason::KeyNotFound),
        Some(value) => match T::extract(value) {
            Some(held) => Ok(held),
            None => Err(Reason::TypeMismatch { expected: T::kind(), found: value.kind() }),
        },
    }
}

/// What resolving the name `name` as a list gives: the items of the field of
/// that name, which must be there and hold a list.
pub open spec fn resolved_list(fields: Fields, name: Seq<char>) -> Result<Seq<ValueView>, Reason> {
    match field_of(fields, name) {
        None => Err(Reason::KeyNotFound),
        Some(ValueView::List(items)) => Ok(items),
        Some(value) => Err(
            Reason::TypeMismatch { expected: ValueKind::List, found: value.kind() },
        ),
    }
}

/// A value that is resolved against a data object to a copy of what it
/// stands for.
pub trait ResolveBinding {
    type Item;

    /// Resolves the value against `data`.
    fn resolve(&mut self, data: &DataObject) -> Result<Self::Item, ResolveError>;
}

/// A value that is resolved against a data object to a reference to what it
/// stands for.
pub trait ResolveBindingRef {
    type Item;

    /// Resolves the value against `data`.
    fn resolve_ref<'data>(&'data mut self, data: &'data DataObject) -> Result<
        &'data Self::Item,
        ResolveError,
    >;
}

} // verus!
