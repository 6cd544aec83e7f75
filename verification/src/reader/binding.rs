//! Bindings: values that are either written in the document or looked up by
//! name in a data object each time they are needed.

use std::marker::PhantomData;
use vstd::prelude::*;
use vstd::string::StrSliceExecFns;
use vstd::string::StringExecFns;

use crate::reader::data_model::{
    items_view_is_deep_view, resolved, resolved_list, with_field, DataObject, FieldType, Reason,
    ResolveBinding, ResolveBindingRef, ResolveError, Value, ValueKind, ValueView,
};
use crate::reader::error::{outcome, Error, ErrorView};
use crate::reader::node::{Node, NodeView};
use crate::reader::reader::{Reader, ReaderView};
use crate::reader::scalar::{display_text, scalar_text};
use crate::reader::ReadUiconf;

verus! {

/// A reference to a field of the data object, written `@name`.
///
/// `warned` records that a failure to resolve the reference was reported
/// once already.
#[derive(Debug, PartialEq, Eq)]
pub struct BindingRef<T> {
    pub name: String,
    pub warned: bool,
    pub marker: PhantomData<T>,
}

/// The mathematical value of a [`BindingRef`].
pub struct BindingRefView {
    pub name: Seq<char>,
    pub warned: bool,
}

impl<T> DeepView for BindingRef<T> {
    type V = BindingRefView;

    open spec fn deep_view(&self) -> BindingRefView {
        BindingRefView { name: self.name@, warned: self.warned }
    }
}

/// A value of the document: either a reference that is resolved later, or
/// the value as it was written.
#[derive(Debug, PartialEq, Eq)]
pub enum Binding<T> {
    Ref(BindingRef<T>),
    Value(T),
}

/// The mathematical value of a [`Binding`].
pub enum BindingView<V> {
    Ref(BindingRefView),
    Value(V),
}

impl<T: DeepView> DeepView for Binding<T> {
    type V = BindingView<T::V>;

    open spec fn deep_view(&self) -> BindingView<T::V> {
        match self {
            Binding::Ref(reference) => BindingView::Ref(reference.deep_view()),
            Binding::Value(value) => BindingView::Value(value.deep_view()),
        }
    }
}

/// Whether a text starts with the `@` of a reference.
pub open spec fn is_reference(text: Seq<char>) -> bool {
    text.len() > 0 && text[0] == '@'
}

/// The reference that a scalar's text spells: `@` and a name that is not
/// empty. Anything else is an `InvalidValue`.
pub open spec fn reference_of(path: Seq<Seq<char>>, text: Seq<char>) -> Result<
    BindingRefView,
    ErrorView,
> {
    if is_reference(text) && text.len() > 1 {
        Ok(BindingRefView { name: text.subrange(1, text.len() as int), warned: false })
    } else {
        Err(ErrorView::invalid_value(path, text, "@ref"@))
    }
}

/// Whether the node is an unquoted scalar whose text starts with `@`.
pub open spec fn holds_reference(node: NodeView) -> bool {
    match node {
        NodeView::Unquoted(bytes) => is_reference(display_text(bytes)),
        _ => false,
    }
}

impl<T> BindingRef<T> {
    /// A reference to the field `name` that has not failed yet.
    pub fn new(name: String) -> (r: Self)
        ensures
            r.deep_view() == (BindingRefView { name: name@, warned: false }),
    {
        BindingRef { name, warned: false, marker: PhantomData }
    }

    /// The reference that `text`, the text of the scalar under the cursor,
    /// spells.
    pub fn from_text(value: &Reader, text: &str) -> (r: Result<Self, Error>)
        ensures
            outcome(r) == reference_of(value.deep_view().path, text@),
    {
        let n = text.unicode_len();
        if n > 1 && text.get_char(0) == '@' {
            Ok(BindingRef::new(String::from_str(text.substring_char(1, n))))
        } else {
            Err(Error::invalid_value(value, text, "@ref"))
        }
    }

    fn change_type<U>(self) -> (r: BindingRef<U>)
        ensures
            r.deep_view() == self.deep_view(),
    {
        BindingRef { name: self.name, warned: self.warned, marker: PhantomData }
    }
}

impl<T> ReadUiconf for BindingRef<T> {
    open spec fn decoded(value: ReaderView) -> Result<BindingRefView, ErrorView> {
        match value.node {
            NodeView::Unquoted(bytes) => reference_of(value.path, display_text(bytes)),
            node => Err(ErrorView::invalid_type(value.path, node.kind_name(), "unquoted scalar"@)),
        }
    }

    fn read_uiconf(value: &Reader) -> (r: Result<Self, Error>) {
        match value.token() {
            Node::Unquoted(bytes) => {
                let text = scalar_text(bytes.as_slice());
                BindingRef::from_text(value, text.as_str())
            },
            _ => Err(Error::invalid_type(value, value.token_type(), "unquoted scalar")),
        }
    }
}

impl<T> Binding<T> {
    /// The binding with its value, where it has one, replaced by what `f`
    /// makes of it. A reference stays the reference it is.
    pub fn map_value<U, F: FnOnce(T) -> U>(self, f: F) -> (r: Binding<U>)
        requires
            self matches Binding::Value(value) ==> f.requires((value,)),
        ensures
            match self {
                Binding::Ref(reference) => r matches Binding::Ref(changed) && changed.deep_view()
                    == reference.deep_view(),
                Binding::Value(value) => r matches Binding::Value(mapped) && f.ensures(
                    (value,),
                    mapped,
                ),
            },
    {
        match self {
            Binding::Ref(reference) => Binding::Ref(reference.change_type()),
            Binding::Value(value) => Binding::Value(f(value)),
        }
    }
}

fn starts_reference(value: &Reader) -> (r: bool)
    ensures
        r == holds_reference(value.deep_view().node),
{
    match value.token() {
        Node::Unquoted(bytes) => {
            let text = scalar_text(bytes.as_slice());
            text.as_str().unicode_len() > 0 && text.as_str().get_char(0) == '@'
        },
        _ => false,
    }
}

impl<T: ReadUiconf> ReadUiconf for Binding<T> {
    /// An unquoted scalar that starts with `@` must be a reference; any other
    /// node is decoded as a `T`.
    open spec fn decoded(value: ReaderView) -> Result<BindingView<T::V>, ErrorView> {
        if holds_reference(value.node) {
            match BindingRef::<T>::decoded(value) {
                Ok(reference) => Ok(BindingView::Ref(reference)),
                Err(error) => Err(error),
            }
        } else {
            match T::decoded(value) {
                Ok(literal) => Ok(BindingView::Value(literal)),
                Err(error) => Err(error),
            }
        }
    }

    fn read_uiconf(value: &Reader) -> (r: Result<Self, Error>) {
        if starts_reference(value) {
            let reference = BindingRef::<T>::read_uiconf(value)?;
            Ok(Binding::Ref(reference))
        } else {
            let literal = T::read_uiconf(value)?;
            Ok(Binding::Value(literal))
        }
    }
}

impl<T> BindingRef<T> {
    /// Records a failure: the error carries whether it is the first of this
    /// reference.
    fn failed(&mut self, reason: Reason) -> (r: ResolveError)
        ensures
            r.reason == reason,
            r.first == !old(self).warned,
            final(self).name == old(self).name,
            final(self).warned,
    {
        let first = !self.warned;
        self.warned = true;
        ResolveError { reason, first }
    }

    /// The items of the list that the reference stands for.
    ///
    /// The data object must have a field of the reference's name that holds
    /// a list. A failure is recorded in the reference; the data object is
    /// read only.
    pub fn resolve_list_ref<'data>(&mut self, data: &'data DataObject) -> (r: Result<
        &'data Vec<Value>,
        ResolveError,
    >)
        ensures
            match r {
                Ok(items) => resolved_list(data.deep_view(), old(self).name@) == Ok::<
                    Seq<ValueView>,
                    Reason,
                >(items.deep_view()),
                Err(error) => resolved_list(data.deep_view(), old(self).name@) == Err::<
                    Seq<ValueView>,
                    Reason,
                >(error.reason) && error.first == !old(self).warned,
            },
            final(self).name == old(self).name,
            final(self).warned == (old(self).warned || r is Err),
    {
        match data.get_field(self.name.as_str()) {
            None => Err(self.failed(Reason::KeyNotFound)),
            Some(value) => match value {
                Value::List(items) => {
                    proof {
                        items_view_is_deep_view(items);
                    }
                    Ok(items)
                },
                other => Err(
                    self.failed(
                        Reason::TypeMismatch { expected: ValueKind::List, found: other.kind() },
                    ),
                ),
            },
        }
    }

    /// The items of the list that the reference stands for, to be changed in
    /// place. The reference is resolved as by
    /// [`resolve_list_ref`](Self::resolve_list_ref) first; the data object
    /// afterwards holds, under the reference's name, the list as the caller
    /// left it.
    pub fn resolve_list_mut<'data>(&mut self, data: &'data mut DataObject) -> (r: Result<
        &'data mut Vec<Value>,
        ResolveError,
    >)
        ensures
            match r {
                Ok(items) => resolved_list(old(data).deep_view(), old(self).name@) == Ok::<
                    Seq<ValueView>,
                    Reason,
                >(items.deep_view()) && final(data).deep_view() == with_field(
                    old(data).deep_view(),
                    old(self).name@,
                    ValueView::List(final(items).deep_view()),
                ),
                Err(error) => resolved_list(old(data).deep_view(), old(self).name@) == Err::<
                    Seq<ValueView>,
                    Reason,
                >(error.reason) && error.first == !old(self).warned && *final(data) == *old(
                    data,
                ),
            },
            final(self).name == old(self).name,
            final(self).warned == (old(self).warned || r is Err),
    {
        match self.resolve_list_ref(data) {
            Ok(_) => {},
            Err(error) => {
                return Err(error);
            },
        }
        match data.get_field_mut(self.name.as_str()) {
            Some(value) => match list_mut(value) {
                Some(items) => Ok(items),
                None => Err(ResolveError { reason: Reason::KeyNotFound, first: false }),
            },
            None => Err(ResolveError { reason: Reason::KeyNotFound, first: false }),
        }
    }
}

fn list_mut(value: &mut Value) -> (r: Option<&mut Vec<Value>>)
    ensures
        match r {
            Some(items) => old(value).deep_view() == ValueView::List(items.deep_view())
                && final(value).deep_view() == ValueView::List(final(items).deep_view()),
            None => !(old(value).deep_view() is List) && *final(value) == *old(value),
        },
{
    broadcast use list_view_is_deep_view;

    match value {
        Value::List(items) => Some(items),
        _ => None,
    }
}

/// A list's items are viewed as any vector of values is.
pub broadcast proof fn list_view_is_deep_view(items: Vec<Value>)
    ensures
        #[trigger] Value::List(items).deep_view() == ValueView::List(items.deep_view()),
{
    items_view_is_deep_view(&items);
}

impl<T: FieldType> BindingRef<T> {
    /// The value that the reference stands for.
    ///
    /// The data object must have a field of the reference's name that holds
    /// a `T`. A failure is recorded in the reference; the data object is
    /// read only, and nothing is kept of an earlier result.
    pub fn resolve_ref<'data>(&mut self, data: &'data DataObject) -> (r: Result<
        &'data T,
        ResolveError,
    >)
        ensures
            match r {
                Ok(held) => resolved::<T>(data.deep_view(), old(self).name@) == Ok::<T::V, Reason>(
                    held.deep_view(),
                ),
                Err(error) => resolved::<T>(data.deep_view(), old(self).name@) == Err::<
                    T::V,
                    Reason,
                >(error.reason) && error.first == !old(self).warned,
            },
            final(self).name == old(self).name,
            final(self).warned == (old(self).warned || r is Err),
    {
        match data.get_field(self.name.as_str()) {
            None => Err(self.failed(Reason::KeyNotFound)),
            Some(value) => match T::downcast_ref(value) {
                Some(held) => Ok(held),
                None => Err(
                    self.failed(
                        Reason::TypeMismatch { expected: T::kind_of(), found: value.kind() },
                    ),
                ),
            },
        }
    }

    /// The value that the reference stands for, to be changed in place. The
    /// reference is resolved as by [`resolve_ref`](Self::resolve_ref) first;
    /// the data object afterwards holds, under the reference's name, the
    /// value as the caller left it.
    pub fn resolve_mut<'data>(&mut self, data: &'data mut DataObject) -> (r: Result<
        &'data mut T,
        ResolveError,
    >)
        ensures
            match r {
                Ok(held) => resolved::<T>(old(data).deep_view(), old(self).name@) == Ok::<
                    T::V,
                    Reason,
                >(held.deep_view()) && final(data).deep_view() == with_field(
                    old(data).deep_view(),
                    old(self).name@,
                    T::inject(final(held).deep_view()),
                ),
                Err(error) => resolved::<T>(old(data).deep_view(), old(self).name@) == Err::<
                    T::V,
                    Reason,
                >(error.reason) && error.first == !old(self).warned && *final(data) == *old(
                    data,
                ),
            },
            final(self).name == old(self).name,
            final(self).warned == (old(self).warned || r is Err),
    {
        match self.resolve_ref(data) {
            Ok(_) => {},
            Err(error) => {
                return Err(error);
            },
        }
        match data.get_field_mut(self.name.as_str()) {
            Some(value) => match T::downcast_mut(value) {
                Some(held) => Ok(held),
                None => Err(ResolveError { reason: Reason::KeyNotFound, first: false }),
            },
            None => Err(ResolveError { reason: Reason::KeyNotFound, first: false }),
        }
    }
}

/// What resolving a binding gives: its own value where it has one, and
/// otherwise what its reference resolves to.
pub open spec fn resolved_binding<T: FieldType>(binding: BindingView<T::V>, fields: Seq<(Seq<char>, ValueView)>) -> Result<
    T::V,
    Reason,
> {
    match binding {
        BindingView::Value(value) => Ok(value),
        BindingView::Ref(reference) => resolved::<T>(fields, reference.name),
    }
}

/// The binding after it was resolved against `fields`: a reference that
/// failed has recorded it.
pub open spec fn noted<T: FieldType>(binding: BindingView<T::V>, fields: Seq<(Seq<char>, ValueView)>) -> BindingView<
    T::V,
> {
    match binding {
        BindingView::Value(value) => binding,
        BindingView::Ref(reference) => BindingView::Ref(
            BindingRefView {
                name: reference.name,
                warned: reference.warned || resolved::<T>(fields, reference.name) is Err,
            },
        ),
    }
}

/// Whether a failure to resolve the binding against `fields` would be its
/// first.
pub open spec fn unwarned<V>(binding: BindingView<V>) -> bool {
    match binding {
        BindingView::Value(_) => true,
        BindingView::Ref(reference) => !reference.warned,
    }
}

impl<T: FieldType> ResolveBindingRef for Binding<T> {
    type Item = T;

    /// A value that was written in the document resolves to itself, whatever
    /// the data object holds. A reference is resolved against the data
    /// object.
    fn resolve_ref<'data>(&'data mut self, data: &'data DataObject) -> (r: Result<
        &'data T,
        ResolveError,
    >)
        ensures
            match r {
                Ok(held) => resolved_binding::<T>(old(self).deep_view(), data.deep_view()) == Ok::<
                    T::V,
                    Reason,
                >(held.deep_view()),
                Err(error) => resolved_binding::<T>(old(self).deep_view(), data.deep_view())
                    == Err::<T::V, Reason>(error.reason) && error.first == unwarned(
                    old(self).deep_view(),
                ),
            },
            final(self).deep_view() == noted::<T>(old(self).deep_view(), data.deep_view()),
    {
        match self {
            Binding::Ref(reference) => reference.resolve_ref(data),
            Binding::Value(value) => Ok(value),
        }
    }
}

impl<T: FieldType + Copy> ResolveBinding for Binding<T> {
    type Item = T;

    /// A value that was written in the document resolves to itself, whatever
    /// the data object holds. A reference is resolved against the data
    /// object.
    fn resolve(&mut self, data: &DataObject) -> (r: Result<T, ResolveError>)
        ensures
            match r {
                Ok(held) => resolved_binding::<T>(old(self).deep_view(), data.deep_view()) == Ok::<
                    T::V,
                    Reason,
                >(held.deep_view()),
                Err(error) => resolved_binding::<T>(old(self).deep_view(), data.deep_view())
                    == Err::<T::V, Reason>(error.reason) && error.first == unwarned(
                    old(self).deep_view(),
                ),
            },
            final(self).deep_view() == noted::<T>(old(self).deep_view(), data.deep_view()),
    {
        match self {
            Binding::Ref(reference) => match reference.resolve_ref(data) {
                Ok(held) => Ok(*held),
                Err(error) => Err(error),
            },
            Binding::Value(value) => Ok(*value),
        }
    }
}

/// A failure to resolve a reference that is to be reported: the first
/// failure of that reference.
#[derive(Debug, PartialEq, Eq)]
pub struct Diagnostic {
    /// The name of the field that was asked for.
    pub name: String,
    /// Why it could not be had.
    pub reason: Reason,
}

/// The mathematical value of a [`Diagnostic`].
pub struct DiagnosticView {
    pub name: Seq<char>,
    pub reason: Reason,
}

impl DeepView for Diagnostic {
    type V = DiagnosticView;

    open spec fn deep_view(&self) -> DiagnosticView {
        DiagnosticView { name: self.name@, reason: self.reason }
    }
}

/// What an attempt to resolve a binding gives: the value where there is
/// one, the binding as it is afterwards, and the diagnostic that is owed.
pub struct Attempt<V> {
    pub value: Option<V>,
    pub binding: BindingView<V>,
    pub warning: Option<DiagnosticView>,
}

/// The attempt to resolve `binding` against `fields`. A reference that fails
/// records it, and owes a diagnostic where it had not failed before.
pub open spec fn attempted<T: FieldType>(binding: BindingView<T::V>, fields: Seq<(Seq<char>, ValueView)>) -> Attempt<
    T::V,
> {
    match resolved_binding::<T>(binding, fields) {
        Ok(value) => Attempt { value: Some(value), binding, warning: None },
        Err(reason) => Attempt {
            value: None,
            binding: noted::<T>(binding, fields),
            warning: match binding {
                BindingView::Ref(reference) => if reference.warned {
                    None
                } else {
                    Some(DiagnosticView { name: reference.name, reason })
                },
                BindingView::Value(_) => None,
            },
        },
    }
}

/// The attempt to resolve the reference `reference` against `fields`.
pub open spec fn attempted_ref<T: FieldType>(
    reference: BindingRefView,
    fields: Seq<(Seq<char>, ValueView)>,
) -> Attempt<T::V> {
    attempted::<T>(BindingView::Ref(reference), fields)
}

/// The log with the diagnostic that is owed, where one is.
pub open spec fn logged(log: Seq<DiagnosticView>, warning: Option<DiagnosticView>) -> Seq<
    DiagnosticView,
> {
    match warning {
        Some(diagnostic) => log.push(diagnostic),
        None => log,
    }
}

/// Writes the diagnostic for a failure to resolve the reference `name` to
/// `log`, where the failure is the first of that reference.
pub fn report(log: &mut Vec<Diagnostic>, name: &String, error: ResolveError)
    ensures
        final(log).deep_view() == logged(
            old(log).deep_view(),
            if error.first {
                Some(DiagnosticView { name: name@, reason: error.reason })
            } else {
                None
            },
        ),
{
    if error.first {
        let ghost before = log.deep_view();
        let diagnostic = Diagnostic { name: name.clone(), reason: error.reason };
        log.push(diagnostic);
        assert(log.deep_view() =~= before.push(diagnostic.deep_view()));
    }
}

impl<T: FieldType + Copy> Binding<T> {
    /// Resolves the binding against `data`, and gives nothing where that
    /// fails. The first failure of a reference is written to `log`.
    pub fn resolve_or_skip(&mut self, data: &DataObject, log: &mut Vec<Diagnostic>) -> (r: Option<
        T,
    >)
        ensures
            r.deep_view() == attempted::<T>(old(self).deep_view(), data.deep_view()).value,
            final(self).deep_view() == attempted::<T>(
                old(self).deep_view(),
                data.deep_view(),
            ).binding,
            final(log).deep_view() == logged(
                old(log).deep_view(),
                attempted::<T>(old(self).deep_view(), data.deep_view()).warning,
            ),
    {
        match self {
            Binding::Value(value) => Some(*value),
            Binding::Ref(reference) => match reference.resolve_ref(data) {
                Ok(held) => Some(*held),
                Err(error) => {
                    report(log, &reference.name, error);
                    None
                },
            },
        }
    }
}

impl Binding<String> {
    /// Resolves the binding against `data` to a copy of its text, and gives
    /// nothing where that fails. The first failure of a reference is
    /// written to `log`.
    pub fn resolve_text(&mut self, data: &DataObject, log: &mut Vec<Diagnostic>) -> (r: Option<
        String,
    >)
        ensures
            r.deep_view() == attempted::<String>(old(self).deep_view(), data.deep_view()).value,
            final(self).deep_view() == attempted::<String>(
                old(self).deep_view(),
                data.deep_view(),
            ).binding,
            final(log).deep_view() == logged(
                old(log).deep_view(),
                attempted::<String>(old(self).deep_view(), data.deep_view()).warning,
            ),
    {
        match self {
            Binding::Value(value) => Some(value.clone()),
            Binding::Ref(reference) => match reference.resolve_ref(data) {
                Ok(held) => Some(held.clone()),
                Err(error) => {
                    report(log, &reference.name, error);
                    None
                },
            },
        }
    }
}

} // verus!
