//! The cursor over one node of a document.

use vstd::prelude::*;

use crate::reader::error::{outcome, Error, ErrorView};
use crate::reader::node::{children_view_is_deep_view, Node, NodeView};
use crate::reader::scalar::{decode_utf8, display_text, scalar_text, utf8_text};
use crate::reader::ReadUiconf;
use crate::text::{decimal, decimal_string};

verus! {

/// One node of a document together with the path that leads to it from the
/// root: the keys and indices passed on the way.
pub struct Reader<'a> {
    pub node: &'a Node,
    pub path: Vec<String>,
}

/// The mathematical value of a [`Reader`].
pub struct ReaderView {
    pub node: NodeView,
    pub path: Seq<Seq<char>>,
}

impl<'a> DeepView for Reader<'a> {
    type V = ReaderView;

    open spec fn deep_view(&self) -> ReaderView {
        ReaderView { node: self.node.deep_view(), path: self.path.deep_view() }
    }
}

/// A key of an object, and the two or three children that make up one field:
/// the key at `key`, an operator after it where `operator` holds, and the
/// value at `value`.
pub struct Slot {
    pub key: int,
    pub operator: bool,
    pub value: int,
}

/// The fields found at the head of a container, and the index of the child
/// at which they end.
pub struct Scan {
    pub slots: Seq<Slot>,
    pub stop: int,
}

impl NodeView {
    /// A quoted or unquoted scalar.
    pub open spec fn is_scalar(self) -> bool {
        self is Unquoted || self is Quoted
    }

    /// An array or an object.
    pub open spec fn is_container(self) -> bool {
        self is Array || self is Object
    }

    /// The children of a container.
    pub open spec fn items(self) -> Seq<NodeView> {
        match self {
            NodeView::Array { items, .. } => items,
            NodeView::Object { items, .. } => items,
            _ => Seq::empty(),
        }
    }

    /// The kind of the node in words, as error messages give it.
    pub open spec fn kind_name(self) -> Seq<char> {
        match self {
            NodeView::Array { .. } => "array"@,
            NodeView::Object { .. } => "object"@,
            NodeView::MixedContainer => "mixed container"@,
            NodeView::Unquoted(_) => "unquoted scalar"@,
            NodeView::Quoted(_) => "quoted scalar"@,
            NodeView::Parameter(_) => "parameter"@,
            NodeView::UndefinedParameter(_) => "undefined parameter"@,
            NodeView::Operator(_) => "operator"@,
            NodeView::Header(_) => "header"@,
        }
    }

    /// The bytes of a node that can stand as a key.
    pub open spec fn key(self) -> Option<Seq<u8>> {
        match self {
            NodeView::Unquoted(bytes) => Some(bytes),
            NodeView::Quoted(bytes) => Some(bytes),
            NodeView::Parameter(bytes) => Some(bytes),
            NodeView::UndefinedParameter(bytes) => Some(bytes),
            _ => None,
        }
    }

    /// The node as text: a scalar decoded, an operator by its symbol, and the
    /// empty text for anything else.
    pub open spec fn text(self) -> Seq<char> {
        match self {
            NodeView::Unquoted(bytes) => utf8_text(bytes),
            NodeView::Quoted(bytes) => utf8_text(bytes),
            NodeView::Parameter(bytes) => utf8_text(bytes),
            NodeView::UndefinedParameter(bytes) => utf8_text(bytes),
            NodeView::Header(bytes) => utf8_text(bytes),
            NodeView::Operator(symbol) => symbol,
            _ => Seq::empty(),
        }
    }
}

/// The index of the first child after the header's body, which starts at
/// `body`; never beyond the last child's successor.
pub open spec fn after_header(items: Seq<NodeView>, body: int) -> int {
    if body < 0 || body >= items.len() {
        items.len() as int
    } else if (items[body] is Operator || items[body] is MixedContainer) && body + 2
        <= items.len() {
        body + 2
    } else {
        body + 1
    }
}

/// The index of the first child after the value that starts at `value`. A
/// header takes its body with it and an operator the value behind it.
pub open spec fn after_value(items: Seq<NodeView>, value: int) -> int
    decreases items.len() - value,
{
    if value < 0 || value >= items.len() {
        items.len() as int
    } else if items[value] is Operator {
        after_value(items, value + 1)
    } else if items[value] is Header {
        after_header(items, value + 1)
    } else {
        value + 1
    }
}

/// A value ends behind its start, and inside the container.
pub proof fn after_value_bounds(items: Seq<NodeView>, value: int)
    requires
        0 <= value < items.len(),
    ensures
        value < after_value(items, value) <= items.len(),
    decreases items.len() - value,
{
    if items[value] is Operator {
        if value + 1 < items.len() {
            after_value_bounds(items, value + 1);
        } else {
            assert(after_value(items, value + 1) == items.len());
        }
    }
}

/// The fields that start at child `from`: a key, an operator if one follows,
/// and a value, again and again, until a child is no key or a key has no
/// value.
pub open spec fn scan(items: Seq<NodeView>, from: int) -> Scan
    decreases items.len() - from,
{
    if from < 0 || from >= items.len() || items[from].key() is None {
        Scan { slots: Seq::empty(), stop: from }
    } else {
        let operator = from + 1 < items.len() && items[from + 1] is Operator;
        let value = if operator {
            from + 2
        } else {
            from + 1
        };
        if value >= items.len() {
            Scan { slots: Seq::empty(), stop: from }
        } else {
            proof {
                after_value_bounds(items, value);
            }
            let rest = scan(items, after_value(items, value));
            Scan {
                slots: seq![Slot { key: from, operator, value }] + rest.slots,
                stop: rest.stop,
            }
        }
    }
}

/// The first field that was written with an operator.
pub open spec fn first_operator(slots: Seq<Slot>) -> Option<Slot>
    decreases slots.len(),
{
    if slots.len() == 0 {
        None
    } else if slots[0].operator {
        Some(slots[0])
    } else {
        first_operator(slots.drop_first())
    }
}

/// Where the values without a key begin in a container whose fields end at
/// `stop`: an array is all values, and in an object they follow the mark of
/// a mixed container.
pub open spec fn remainder_start(node: NodeView, stop: int) -> int {
    if node is Array {
        0
    } else if 0 <= stop < node.items().len() && node.items()[stop] is MixedContainer {
        stop + 1
    } else {
        stop
    }
}

/// The fields of a container that is read as an object.
pub open spec fn slots_of(node: NodeView) -> Seq<Slot> {
    if node is Object {
        scan(node.items(), 0).slots
    } else {
        Seq::empty()
    }
}

/// Where the fields of a container end.
pub open spec fn stop_of(node: NodeView) -> int {
    if node is Object {
        scan(node.items(), 0).stop
    } else {
        node.items().len() as int
    }
}

/// The cursor on the value of a field, reached under the field's key.
pub open spec fn field_of(value: ReaderView, slot: Slot) -> (Seq<char>, ReaderView) {
    let key = utf8_text(value.node.items()[slot.key].key().unwrap());
    (key, ReaderView { node: value.node.items()[slot.value], path: value.path.push(key) })
}

/// The fields of the node as key and cursor, in document order.
///
/// Only an object or an array has fields. A field with an operator other
/// than `=` is refused, and so is a value without a key.
pub open spec fn fields_of(value: ReaderView) -> Result<Seq<(Seq<char>, ReaderView)>, ErrorView> {
    let node = value.node;
    if !node.is_container() {
        Err(ErrorView::invalid_type(value.path, node.kind_name(), "object"@))
    } else {
        let slots = slots_of(node);
        match first_operator(slots) {
            Some(slot) => Err(
                ErrorView::unexpected_operator(value.path, node.items()[slot.key + 1].text()),
            ),
            None => {
                let start = remainder_start(node, stop_of(node));
                if 0 <= start < node.items().len() {
                    Err(ErrorView::unexpected_remainder(value.path, node.items()[start].text()))
                } else {
                    Ok(slots.map_values(|slot: Slot| field_of(value, slot)))
                }
            },
        }
    }
}

/// Where the values begin in an object that mixes fields and values: behind
/// the mark, which is looked for value by value from `from`.
pub open spec fn mixed_start(items: Seq<NodeView>, from: int) -> int
    decreases items.len() - from,
{
    if from < 0 || from >= items.len() {
        items.len() as int
    } else if items[from] is MixedContainer {
        from + 1
    } else {
        proof {
            after_value_bounds(items, from);
        }
        mixed_start(items, after_value(items, from))
    }
}

/// The index of the first child that a container yields when it is read as
/// an array.
pub open spec fn values_start(node: NodeView) -> int {
    match node {
        NodeView::Object { mixed: true, items } => mixed_start(items, 0),
        _ => 0,
    }
}

/// The cursor on the `index`-th value of an array, whose first value is the
/// child at `start`.
pub open spec fn element_of(value: ReaderView, start: int, index: int) -> ReaderView {
    ReaderView {
        node: value.node.items()[start + index],
        path: value.path.push(decimal(index as nat)),
    }
}

/// The values of the node, each under its index as the last path segment.
pub open spec fn values_of(value: ReaderView) -> Result<Seq<ReaderView>, ErrorView> {
    let node = value.node;
    if !node.is_container() {
        Err(ErrorView::invalid_type(value.path, node.kind_name(), "array"@))
    } else {
        let start = values_start(node);
        Ok(
            Seq::new(
                (node.items().len() - start) as nat,
                |index: int| element_of(value, start, index),
            ),
        )
    }
}

/// The bytes of a scalar node.
pub open spec fn scalar_of(value: ReaderView) -> Result<Seq<u8>, ErrorView> {
    match value.node {
        NodeView::Quoted(bytes) => Ok(bytes),
        NodeView::Unquoted(bytes) => Ok(bytes),
        node => Err(ErrorView::invalid_type(value.path, node.kind_name(), "scalar"@)),
    }
}

/// The text of a scalar node.
pub open spec fn string_of(value: ReaderView) -> Result<Seq<char>, ErrorView> {
    match scalar_of(value) {
        Ok(bytes) => Ok(display_text(bytes)),
        Err(error) => Err(error),
    }
}

/// The value of a field is a child of the node: decoding can descend into
/// it.
pub proof fn field_is_child(value: ReaderView, index: int)
    requires
        fields_of(value) is Ok,
        0 <= index < fields_of(value)->Ok_0.len(),
    ensures
        decreases_to!(value.node => fields_of(value)->Ok_0[index].1.node),
{
    scan_in_range(value.node.items(), 0, index);
}

/// Every slot of a scan lies inside the container.
pub proof fn scan_in_range(items: Seq<NodeView>, from: int, index: int)
    requires
        0 <= from,
        0 <= index < scan(items, from).slots.len(),
    ensures
        from <= scan(items, from).slots[index].key < scan(items, from).slots[index].value
            < items.len(),
        scan(items, from).slots[index].operator ==> items[scan(items, from).slots[index].key
            + 1] is Operator,
        items[scan(items, from).slots[index].key].key() is Some,
    decreases items.len() - from,
{
    if from >= items.len() || items[from].key() is None {
    } else {
        let operator = from + 1 < items.len() && items[from + 1] is Operator;
        let value = if operator {
            from + 2
        } else {
            from + 1
        };
        if value < items.len() && index > 0 {
            after_value_bounds(items, value);
            scan_in_range(items, after_value(items, value), index - 1);
        }
    }
}

/// A field as the scan finds it, by the indices of its children.
#[derive(Debug, Clone, Copy, PartialEq, Eq)]
pub struct Span {
    pub key: usize,
    pub operator: bool,
    pub value: usize,
}

impl Span {
    /// The field as a [`Slot`].
    pub open spec fn slot(self) -> Slot {
        Slot { key: self.key as int, operator: self.operator, value: self.value as int }
    }
}

/// The slots that a vector of spans stands for.
pub open spec fn slots_view(spans: Seq<Span>) -> Seq<Slot> {
    spans.map_values(|span: Span| span.slot())
}

fn is_operator(node: &Node) -> (r: bool)
    ensures
        r == (node.deep_view() is Operator),
{
    match node {
        Node::Operator(_) => true,
        _ => false,
    }
}

fn is_mixed_mark(node: &Node) -> (r: bool)
    ensures
        r == (node.deep_view() is MixedContainer),
{
    match node {
        Node::MixedContainer => true,
        _ => false,
    }
}

fn key_of(node: &Node) -> (r: Option<&Vec<u8>>)
    ensures
        match r {
            Some(bytes) => node.deep_view().key() == Some(bytes@),
            None => node.deep_view().key() is None,
        },
{
    match node {
        Node::Unquoted(bytes) => Some(bytes),
        Node::Quoted(bytes) => Some(bytes),
        Node::Parameter(bytes) => Some(bytes),
        Node::UndefinedParameter(bytes) => Some(bytes),
        _ => None,
    }
}

fn text_of(node: &Node) -> (r: String)
    ensures
        r@ == node.deep_view().text(),
{
    match node {
        Node::Unquoted(bytes) => decode_utf8(bytes.as_slice()),
        Node::Quoted(bytes) => decode_utf8(bytes.as_slice()),
        Node::Parameter(bytes) => decode_utf8(bytes.as_slice()),
        Node::UndefinedParameter(bytes) => decode_utf8(bytes.as_slice()),
        Node::Header(bytes) => decode_utf8(bytes.as_slice()),
        Node::Operator(symbol) => symbol.clone(),
        _ => String::new(),
    }
}

fn next_after(items: &Vec<Node>, value: usize) -> (r: usize)
    requires
        value < items.len(),
    ensures
        r == after_value(items.deep_view(), value as int),
        value < r <= items.len(),
    decreases items.len() - value,
{
    proof {
        after_value_bounds(items.deep_view(), value as int);
    }
    match &items[value] {
        Node::Operator(_) => {
            if value + 1 < items.len() {
                next_after(items, value + 1)
            } else {
                items.len()
            }
        },
        Node::Header(_) => {
            let body = value + 1;
            if body >= items.len() {
                items.len()
            } else if (is_operator(&items[body]) || is_mixed_mark(&items[body])) && items.len()
                - body >= 2 {
                body + 2
            } else {
                body + 1
            }
        },
        _ => value + 1,
    }
}

fn scan_spans(items: &Vec<Node>) -> (r: (Vec<Span>, usize))
    ensures
        slots_view(r.0@) == scan(items.deep_view(), 0).slots,
        r.1 == scan(items.deep_view(), 0).stop,
        r.1 <= items.len(),
{
    let ghost nodes = items.deep_view();
    let mut spans: Vec<Span> = Vec::new();
    let mut from: usize = 0;
    loop
        invariant
            nodes == items.deep_view(),
            from <= items.len(),
            scan(nodes, 0).slots == slots_view(spans@) + scan(nodes, from as int).slots,
            scan(nodes, 0).stop == scan(nodes, from as int).stop,
        ensures
            slots_view(spans@) == scan(nodes, 0).slots,
            from == scan(nodes, 0).stop,
            from <= items.len(),
        decreases items.len() - from,
    {
        if from >= items.len() {
            assert(slots_view(spans@) + Seq::<Slot>::empty() =~= slots_view(spans@));
            break ;
        }
        if key_of(&items[from]).is_none() {
            assert(slots_view(spans@) + Seq::<Slot>::empty() =~= slots_view(spans@));
            break ;
        }
        let operator = from + 1 < items.len() && is_operator(&items[from + 1]);
        let value: usize = if operator {
            from + 2
        } else {
            from + 1
        };
        if value >= items.len() {
            assert(slots_view(spans@) + Seq::<Slot>::empty() =~= slots_view(spans@));
            break ;
        }
        let next = next_after(items, value);
        let span = Span { key: from, operator, value };
        proof {
            let rest = scan(nodes, next as int);
            assert(scan(nodes, from as int).slots == seq![span.slot()] + rest.slots);
            assert(slots_view(spans@.push(span)) =~= slots_view(spans@).push(span.slot()));
            assert(slots_view(spans@) + (seq![span.slot()] + rest.slots) =~= slots_view(
                spans@,
            ).push(span.slot()) + rest.slots);
        }
        spans.push(span);
        from = next;
    }
    (spans, from)
}

/// `path` with one more segment.
pub fn extend_path(path: &Vec<String>, segment: String) -> (r: Vec<String>)
    ensures
        r.deep_view() == path.deep_view().push(segment@),
{
    let mut out: Vec<String> = Vec::new();
    let mut i: usize = 0;
    while i < path.len()
        invariant
            i <= path.len(),
            out.len() == i,
            forall|j: int| 0 <= j < i ==> out[j]@ == path[j]@,
        decreases path.len() - i,
    {
        out.push(path[i].clone());
        i = i + 1;
    }
    out.push(segment);
    assert(out.deep_view() =~= path.deep_view().push(segment@));
    out
}

/// A field at the top level of a document: its key, the symbol of the
/// operator it was written with where that is not `=`, and the cursor on its
/// value.
pub struct RootField<'a> {
    pub key: String,
    pub operator: Option<String>,
    pub value: Reader<'a>,
}

/// The mathematical value of a [`RootField`].
pub struct RootFieldView {
    pub key: Seq<char>,
    pub operator: Option<Seq<char>>,
    pub value: ReaderView,
}

impl<'a> DeepView for RootField<'a> {
    type V = RootFieldView;

    open spec fn deep_view(&self) -> RootFieldView {
        RootFieldView {
            key: self.key@,
            operator: match self.operator {
                Some(symbol) => Some(symbol@),
                None => None,
            },
            value: self.value.deep_view(),
        }
    }
}

/// The field that a slot of the top level stands for. The path of its value
/// is its key.
pub open spec fn root_field_of(nodes: Seq<NodeView>, slot: Slot) -> RootFieldView {
    let key = utf8_text(nodes[slot.key].key().unwrap());
    RootFieldView {
        key,
        operator: if slot.operator {
            Some(nodes[slot.key + 1].text())
        } else {
            None
        },
        value: ReaderView { node: nodes[slot.value], path: seq![key] },
    }
}

/// The fields at the top level of a document: those that stand at its head,
/// up to the first node that is no key.
pub open spec fn root_fields_of(nodes: Seq<NodeView>) -> Seq<RootFieldView> {
    scan(nodes, 0).slots.map_values(|slot: Slot| root_field_of(nodes, slot))
}

/// The fields at the top level of a document.
pub fn root_fields<'a>(nodes: &'a Vec<Node>) -> (r: Vec<RootField<'a>>)
    ensures
        r.deep_view() == root_fields_of(nodes.deep_view()),
{
    let (spans, _) = scan_spans(nodes);
    let ghost views = nodes.deep_view();
    let ghost slots = scan(views, 0).slots;
    let mut out: Vec<RootField<'a>> = Vec::new();
    let mut k: usize = 0;
    while k < spans.len()
        invariant
            k <= spans.len(),
            out.len() == k,
            views == nodes.deep_view(),
            slots == scan(views, 0).slots,
            slots_view(spans@) == slots,
            forall|i: int| 0 <= i < k ==> out[i].deep_view() == root_field_of(views, slots[i]),
        decreases spans.len() - k,
    {
        proof {
            scan_in_range(views, 0, k as int);
            assert(slots[k as int] == spans[k as int].slot());
        }
        let span = spans[k];
        let key = match key_of(&nodes[span.key]) {
            Some(bytes) => decode_utf8(bytes.as_slice()),
            None => String::new(),
        };
        let operator = if span.operator {
            Some(text_of(&nodes[span.key + 1]))
        } else {
            None
        };
        let mut path: Vec<String> = Vec::new();
        path.push(key.clone());
        assert(path.deep_view() =~= seq![key@]);
        let field = RootField { key, operator, value: Reader::new(&nodes[span.value], path) };
        assert(field.deep_view() == root_field_of(views, slots[k as int]));
        out.push(field);
        k = k + 1;
    }
    assert(out.deep_view() =~= root_fields_of(views));
    out
}

impl<'a> Reader<'a> {
    /// A cursor on `node`, reached by `path`.
    pub fn new(node: &'a Node, path: Vec<String>) -> (r: Self)
        ensures
            r.node == node,
            r.path == path,
    {
        Reader { node, path }
    }

    /// The node under the cursor.
    pub fn token(&self) -> (r: &'a Node)
        ensures
            r == self.node,
    {
        self.node
    }

    /// The path to the node, segment by segment.
    pub fn path(&self) -> (r: &Vec<String>)
        ensures
            r == &self.path,
    {
        &self.path
    }

    /// Decodes the node under the cursor as a `T`.
    pub fn read<T: ReadUiconf>(&self) -> (r: Result<T, Error>)
        ensures
            outcome(r) == T::decoded(self.deep_view()),
    {
        T::read_uiconf(self)
    }

    /// Whether the node is a quoted or unquoted scalar.
    pub fn is_scalar(&self) -> (r: bool)
        ensures
            r == self.deep_view().node.is_scalar(),
    {
        match self.node {
            Node::Quoted(_) => true,
            Node::Unquoted(_) => true,
            _ => false,
        }
    }

    /// The kind of the node in words.
    pub fn token_type(&self) -> (r: &'static str)
        ensures
            r@ == self.deep_view().node.kind_name(),
    {
        match self.node {
            Node::Array { .. } => "array",
            Node::Object { .. } => "object",
            Node::MixedContainer => "mixed container",
            Node::Unquoted(_) => "unquoted scalar",
            Node::Quoted(_) => "quoted scalar",
            Node::Parameter(_) => "parameter",
            Node::UndefinedParameter(_) => "undefined parameter",
            Node::Operator(_) => "operator",
            Node::Header(_) => "header",
        }
    }

    /// The bytes of a scalar; any other node is an `InvalidType`.
    pub fn read_scalar(&self) -> (r: Result<&'a Vec<u8>, Error>)
        ensures
            match r {
                Ok(bytes) => scalar_of(self.deep_view()) == Ok::<Seq<u8>, ErrorView>(bytes@),
                Err(error) => scalar_of(self.deep_view()) == Err::<Seq<u8>, ErrorView>(
                    error.deep_view(),
                ),
            },
    {
        match self.node {
            Node::Quoted(bytes) => Ok(bytes),
            Node::Unquoted(bytes) => Ok(bytes),
            _ => Err(Error::invalid_type(self, self.token_type(), "scalar")),
        }
    }

    /// The text of a scalar; any other node is an `InvalidType`.
    pub fn read_string(&self) -> (r: Result<String, Error>)
        ensures
            outcome(r) == string_of(self.deep_view()),
    {
        match self.read_scalar() {
            Ok(bytes) => Ok(scalar_text(bytes.as_slice())),
            Err(error) => Err(error),
        }
    }

    /// The fields of an object, each as its key and a cursor on its value.
    ///
    /// An array is read as an object too. A field with an operator other than
    /// `=` is an `UnexpectedOperator`, a value without a key an
    /// `UnexpectedRemainder`, and a node that is no container an
    /// `InvalidType`.
    pub fn read_object(&self) -> (r: Result<Vec<(String, Reader<'a>)>, Error>)
        ensures
            outcome(r) == fields_of(self.deep_view()),
    {
        let ghost view = self.deep_view();
        let (items, object): (&'a Vec<Node>, bool) = match self.node {
            Node::Object { items, .. } => (items, true),
            Node::Array { items, .. } => (items, false),
            _ => {
                return Err(Error::invalid_type(self, self.token_type(), "object"));
            },
        };
        proof {
            children_view_is_deep_view(items);
            assert(view.node.items() == items.deep_view());
        }
        let (spans, stop) = if object {
            scan_spans(items)
        } else {
            (Vec::new(), items.len())
        };
        let ghost slots = slots_of(view.node);
        assert(slots_view(spans@) =~= slots);
        assert(slots.subrange(0, slots.len() as int) =~= slots);
        let mut j: usize = 0;
        while j < spans.len()
            invariant
                j <= spans.len(),
                slots_view(spans@) == slots,
                first_operator(slots) == first_operator(slots.subrange(j as int, slots.len() as int)),
                view == self.deep_view(),
                view.node.items() == items.deep_view(),
                slots == slots_of(view.node),
                object ==> view.node is Object,
                !object ==> spans.len() == 0,
            decreases spans.len() - j,
        {
            let ghost tail = slots.subrange(j as int, slots.len() as int);
            proof {
                assert(tail[0] == spans[j as int].slot());
                assert(tail.drop_first() =~= slots.subrange(j + 1, slots.len() as int));
                scan_in_range(items.deep_view(), 0, j as int);
            }
            if spans[j].operator {
                let symbol = text_of(&items[spans[j].key + 1]);
                return Err(Error::unexpected_operator(self, symbol.as_str()));
            }
            j = j + 1;
        }
        assert(first_operator(slots.subrange(slots.len() as int, slots.len() as int)) is None);
        let start: usize = if !object {
            0
        } else if stop < items.len() && is_mixed_mark(&items[stop]) {
            stop + 1
        } else {
            stop
        };
        if start < items.len() {
            let remainder = text_of(&items[start]);
            return Err(Error::unexpected_remainder(self, remainder.as_str()));
        }
        let mut out: Vec<(String, Reader<'a>)> = Vec::new();
        let mut k: usize = 0;
        while k < spans.len()
            invariant
                k <= spans.len(),
                out.len() == k,
                slots_view(spans@) == slots,
                view == self.deep_view(),
                view.node.items() == items.deep_view(),
                slots == slots_of(view.node),
                object ==> view.node is Object,
                !object ==> spans.len() == 0,
                forall|i: int| 0 <= i < k ==> out[i].deep_view() == field_of(view, slots[i]),
            decreases spans.len() - k,
        {
            proof {
                scan_in_range(items.deep_view(), 0, k as int);
                assert(slots[k as int] == spans[k as int].slot());
            }
            let span = spans[k];
            let key = match key_of(&items[span.key]) {
                Some(bytes) => decode_utf8(bytes.as_slice()),
                None => String::new(),
            };
            let path = extend_path(&self.path, key.clone());
            let field = (key, Reader::new(&items[span.value], path));
            assert(field.deep_view() == field_of(view, slots[k as int]));
            out.push(field);
            k = k + 1;
        }
        assert(out.deep_view() =~= slots.map_values(|slot: Slot| field_of(view, slot)));
        Ok(out)
    }

    /// The values of an array, each as a cursor with its index as the last
    /// path segment. An object is read as an array too; a node that is no
    /// container is an `InvalidType`.
    pub fn read_array(&self) -> (r: Result<Vec<Reader<'a>>, Error>)
        ensures
            outcome(r) == values_of(self.deep_view()),
    {
        let ghost view = self.deep_view();
        let (items, mixed): (&'a Vec<Node>, bool) = match self.node {
            Node::Object { items, mixed } => (items, *mixed),
            Node::Array { items, .. } => (items, false),
            _ => {
                return Err(Error::invalid_type(self, self.token_type(), "array"));
            },
        };
        proof {
            children_view_is_deep_view(items);
            assert(view.node.items() == items.deep_view());
        }
        let mut start: usize = 0;
        if mixed {
            while start < items.len() && !is_mixed_mark(&items[start])
                invariant
                    start <= items.len(),
                    mixed_start(items.deep_view(), 0) == mixed_start(
                        items.deep_view(),
                        start as int,
                    ),
                decreases items.len() - start,
            {
                start = next_after(items, start);
            }
            if start < items.len() {
                start = start + 1;
            }
        }
        assert(start == values_start(view.node));
        let mut out: Vec<Reader<'a>> = Vec::new();
        let mut k: usize = 0;
        while start + k < items.len()
            invariant
                start + k <= items.len(),
                out.len() == k,
                view == self.deep_view(),
                view.node.items() == items.deep_view(),
                forall|i: int| 0 <= i < k ==> out[i].deep_view() == element_of(view, start as int, i),
            decreases items.len() - start - k,
        {
            let path = extend_path(&self.path, decimal_string(k as u64));
            let element = Reader::new(&items[start + k], path);
            assert(element.deep_view() == element_of(view, start as int, k as int));
            out.push(element);
            k = k + 1;
        }
        assert(out.deep_view() =~= Seq::new(
            (items.len() - start) as nat,
            |index: int| element_of(view, start as int, index),
        ));
        Ok(out)
    }
}

} // verus!
