//! Reading a document: the node tree, the cursor over it, and the decoders of
//! the scalar types.

use vstd::prelude::*;

use crate::reader::error::{outcome, Error, ErrorView, ScalarFailure};
use crate::reader::reader::{scalar_of, string_of, values_of, Reader, ReaderView};
use crate::reader::scalar::{
    float_bits_of, scalar_bool, scalar_float_bits, scalar_i64, scalar_u64, signed_of, truth_of,
    unsigned_of,
};
use crate::text::{decimal, decimal_string, signed_decimal, signed_decimal_string};

pub mod binding;
pub mod data_model;
pub mod error;
pub mod node;
pub mod reader;
pub mod scalar;
pub mod tape;

verus! {

/// A type that can be decoded from a node of a document.
pub trait ReadUiconf: Sized + DeepView {
    /// What decoding makes of the node under a cursor: the value, or the
    /// error with the cursor's path.
    spec fn decoded(value: ReaderView) -> Result<Self::V, ErrorView>;

    /// Decodes the node under the cursor.
    fn read_uiconf(value: &Reader) -> (r: Result<Self, Error>)
        ensures
            outcome(r) == Self::decoded(value.deep_view()),
    ;
}

/// A floating-point number, held by the bit pattern of its IEEE 754
/// double-precision form.
#[derive(Debug, Clone, Copy, PartialEq, Eq, Structural)]
pub struct Number {
    pub bits: u64,
}

impl DeepView for Number {
    type V = Number;

    open spec fn deep_view(&self) -> Number {
        *self
    }
}

impl Number {
    /// Zero.
    pub open spec fn zero() -> Number {
        Number { bits: 0 }
    }

    /// Positive infinity.
    pub open spec fn infinity() -> Number {
        Number { bits: 0x7ff0_0000_0000_0000 }
    }
}

/// The result of a scalar conversion as a decoding result: a failure becomes
/// a `ScalarError` at `path`.
pub open spec fn converted<T>(path: Seq<Seq<char>>, r: Result<T, ScalarFailure>) -> Result<
    T,
    ErrorView,
> {
    match r {
        Ok(number) => Ok(number),
        Err(failure) => Err(ErrorView::scalar_error(path, failure)),
    }
}

/// The unsigned number under the cursor.
pub open spec fn unsigned_at(value: ReaderView) -> Result<u64, ErrorView> {
    match scalar_of(value) {
        Ok(bytes) => converted(value.path, unsigned_of(bytes)),
        Err(error) => Err(error),
    }
}

/// The signed number under the cursor.
pub open spec fn signed_at(value: ReaderView) -> Result<i64, ErrorView> {
    match scalar_of(value) {
        Ok(bytes) => converted(value.path, signed_of(bytes)),
        Err(error) => Err(error),
    }
}

/// `number` where it is at most `max`; otherwise an `InvalidValue` that names
/// the numeral and the type `name` that cannot hold it.
pub open spec fn unsigned_within(
    path: Seq<Seq<char>>,
    number: u64,
    max: u64,
    name: Seq<char>,
) -> Result<u64, ErrorView> {
    if number <= max {
        Ok(number)
    } else {
        Err(ErrorView::invalid_value(path, decimal(number as nat), name))
    }
}

/// `number` where it lies between `min` and `max`; otherwise an
/// `InvalidValue` that names the numeral and the type `name`.
pub open spec fn signed_within(
    path: Seq<Seq<char>>,
    number: i64,
    min: i64,
    max: i64,
    name: Seq<char>,
) -> Result<i64, ErrorView> {
    if min <= number <= max {
        Ok(number)
    } else {
        Err(ErrorView::invalid_value(path, signed_decimal(number as int), name))
    }
}

/// The unsigned number under the cursor, where it is at most `max`.
pub open spec fn narrow_unsigned_at(value: ReaderView, max: u64, name: Seq<char>) -> Result<
    u64,
    ErrorView,
> {
    match unsigned_at(value) {
        Ok(number) => unsigned_within(value.path, number, max, name),
        Err(error) => Err(error),
    }
}

/// The signed number under the cursor, where it lies between `min` and `max`.
pub open spec fn narrow_signed_at(
    value: ReaderView,
    min: i64,
    max: i64,
    name: Seq<char>,
) -> Result<i64, ErrorView> {
    match signed_at(value) {
        Ok(number) => signed_within(value.path, number, min, max, name),
        Err(error) => Err(error),
    }
}

/// Turns the result of a scalar conversion into a decoding result at the
/// cursor.
pub fn convert<T>(value: &Reader, r: Result<T, ScalarFailure>) -> (out: Result<T, Error>)
    ensures
        match out {
            Ok(number) => converted(value.deep_view().path, r) == Ok::<T, ErrorView>(number),
            Err(error) => converted(value.deep_view().path, r) == Err::<T, ErrorView>(
                error.deep_view(),
            ),
        },
{
    match r {
        Ok(number) => Ok(number),
        Err(failure) => Err(Error::scalar_error(value, failure)),
    }
}

/// Checks that `number` is at most `max`, the largest value of the type
/// called `name`.
pub fn check_unsigned(value: &Reader, number: u64, max: u64, name: &str) -> (r: Result<
    u64,
    Error,
>)
    ensures
        outcome(r) == unsigned_within(value.deep_view().path, number, max, name@),
{
    if number <= max {
        Ok(number)
    } else {
        Err(Error::invalid_value(value, decimal_string(number).as_str(), name))
    }
}

/// Checks that `number` lies between `min` and `max`, the bounds of the type
/// called `name`.
pub fn check_signed(value: &Reader, number: i64, min: i64, max: i64, name: &str) -> (r: Result<
    i64,
    Error,
>)
    ensures
        outcome(r) == signed_within(value.deep_view().path, number, min, max, name@),
{
    if min <= number && number <= max {
        Ok(number)
    } else {
        Err(Error::invalid_value(value, signed_decimal_string(number).as_str(), name))
    }
}

fn read_unsigned(value: &Reader) -> (r: Result<u64, Error>)
    ensures
        outcome(r) == unsigned_at(value.deep_view()),
{
    let bytes = value.read_scalar()?;
    convert(value, scalar_u64(bytes.as_slice()))
}

fn read_signed(value: &Reader) -> (r: Result<i64, Error>)
    ensures
        outcome(r) == signed_at(value.deep_view()),
{
    let bytes = value.read_scalar()?;
    convert(value, scalar_i64(bytes.as_slice()))
}

fn read_narrow_unsigned(value: &Reader, max: u64, name: &str) -> (r: Result<u64, Error>)
    ensures
        outcome(r) == narrow_unsigned_at(value.deep_view(), max, name@),
        r is Ok ==> r->Ok_0 <= max,
{
    let number = read_unsigned(value)?;
    check_unsigned(value, number, max, name)
}

fn read_narrow_signed(value: &Reader, min: i64, max: i64, name: &str) -> (r: Result<i64, Error>)
    ensures
        outcome(r) == narrow_signed_at(value.deep_view(), min, max, name@),
        r is Ok ==> min <= r->Ok_0 <= max,
{
    let number = read_signed(value)?;
    check_signed(value, number, min, max, name)
}

impl ReadUiconf for String {
    open spec fn decoded(value: ReaderView) -> Result<Seq<char>, ErrorView> {
        string_of(value)
    }

    fn read_uiconf(value: &Reader) -> (r: Result<Self, Error>) {
        value.read_string()
    }
}

impl ReadUiconf for bool {
    open spec fn decoded(value: ReaderView) -> Result<bool, ErrorView> {
        match scalar_of(value) {
            Ok(bytes) => converted(value.path, truth_of(bytes)),
            Err(error) => Err(error),
        }
    }

    fn read_uiconf(value: &Reader) -> (r: Result<Self, Error>) {
        let bytes = value.read_scalar()?;
        convert(value, scalar_bool(bytes.as_slice()))
    }
}

impl ReadUiconf for u8 {
    open spec fn decoded(value: ReaderView) -> Result<u8, ErrorView> {
        match narrow_unsigned_at(value, 0xff, "u8"@) {
            Ok(number) => Ok(number as u8),
            Err(error) => Err(error),
        }
    }

    fn read_uiconf(value: &Reader) -> (r: Result<Self, Error>) {
        let number = read_narrow_unsigned(value, 0xff, "u8")?;
        Ok(number as u8)
    }
}

impl ReadUiconf for u16 {
    open spec fn decoded(value: ReaderView) -> Result<u16, ErrorView> {
        match narrow_unsigned_at(value, 0xffff, "u16"@) {
            Ok(number) => Ok(number as u16),
            Err(error) => Err(error),
        }
    }

    fn read_uiconf(value: &Reader) -> (r: Result<Self, Error>) {
        let number = read_narrow_unsigned(value, 0xffff, "u16")?;
        Ok(number as u16)
    }
}

impl ReadUiconf for u32 {
    open spec fn decoded(value: ReaderView) -> Result<u32, ErrorView> {
        match narrow_unsigned_at(value, 0xffff_ffff, "u32"@) {
            Ok(number) => Ok(number as u32),
            Err(error) => Err(error),
        }
    }

    fn read_uiconf(value: &Reader) -> (r: Result<Self, Error>) {
        let number = read_narrow_unsigned(value, 0xffff_ffff, "u32")?;
        Ok(number as u32)
    }
}

impl ReadUiconf for u64 {
    open spec fn decoded(value: ReaderView) -> Result<u64, ErrorView> {
        unsigned_at(value)
    }

    fn read_uiconf(value: &Reader) -> (r: Result<Self, Error>) {
        read_unsigned(value)
    }
}

impl ReadUiconf for i8 {
    open spec fn decoded(value: ReaderView) -> Result<i8, ErrorView> {
        match narrow_signed_at(value, -0x80i64, 0x7fi64, "i8"@) {
            Ok(number) => Ok(number as i8),
            Err(error) => Err(error),
        }
    }

    fn read_uiconf(value: &Reader) -> (r: Result<Self, Error>) {
        let number = read_narrow_signed(value, -0x80, 0x7f, "i8")?;
        Ok(number as i8)
    }
}

impl ReadUiconf for i16 {
    open spec fn decoded(value: ReaderView) -> Result<i16, ErrorView> {
        match narrow_signed_at(value, -0x8000i64, 0x7fffi64, "i16"@) {
            Ok(number) => Ok(number as i16),
            Err(error) => Err(error),
        }
    }

    fn read_uiconf(value: &Reader) -> (r: Result<Self, Error>) {
        let number = read_narrow_signed(value, -0x8000, 0x7fff, "i16")?;
        Ok(number as i16)
    }
}

impl ReadUiconf for i32 {
    open spec fn decoded(value: ReaderView) -> Result<i32, ErrorView> {
        match narrow_signed_at(value, -0x8000_0000i64, 0x7fff_ffffi64, "i32"@) {
            Ok(number) => Ok(number as i32),
            Err(error) => Err(error),
        }
    }

    fn read_uiconf(value: &Reader) -> (r: Result<Self, Error>) {
        let number = read_narrow_signed(value, -0x8000_0000, 0x7fff_ffff, "i32")?;
        Ok(number as i32)
    }
}

impl ReadUiconf for i64 {
    open spec fn decoded(value: ReaderView) -> Result<i64, ErrorView> {
        signed_at(value)
    }

    fn read_uiconf(value: &Reader) -> (r: Result<Self, Error>) {
        read_signed(value)
    }
}

impl ReadUiconf for Number {
    open spec fn decoded(value: ReaderView) -> Result<Number, ErrorView> {
        match scalar_of(value) {
            Ok(bytes) => match converted(value.path, float_bits_of(bytes)) {
                Ok(bits) => Ok(Number { bits }),
                Err(error) => Err(error),
            },
            Err(error) => Err(error),
        }
    }

    fn read_uiconf(value: &Reader) -> (r: Result<Self, Error>) {
        let bytes = value.read_scalar()?;
        let bits = convert(value, scalar_float_bits(bytes.as_slice()))?;
        Ok(Number { bits })
    }
}

/// `done` in front of what is still to come, where that succeeds.
pub open spec fn extended<V>(done: Seq<V>, rest: Result<Seq<V>, ErrorView>) -> Result<
    Seq<V>,
    ErrorView,
> {
    match rest {
        Ok(values) => Ok(done + values),
        Err(error) => Err(error),
    }
}

/// The elements from `from` on, each decoded; the first failure ends it.
pub open spec fn decoded_from<T: ReadUiconf>(elements: Seq<ReaderView>, from: int) -> Result<
    Seq<T::V>,
    ErrorView,
>
    decreases elements.len() - from,
{
    if from < 0 || from >= elements.len() {
        Ok(Seq::empty())
    } else {
        match T::decoded(elements[from]) {
            Ok(first) => extended(seq![first], decoded_from::<T>(elements, from + 1)),
            Err(error) => Err(error),
        }
    }
}

impl<T: ReadUiconf> ReadUiconf for Vec<T> {
    open spec fn decoded(value: ReaderView) -> Result<Seq<T::V>, ErrorView> {
        match values_of(value) {
            Ok(elements) => decoded_from::<T>(elements, 0),
            Err(error) => Err(error),
        }
    }

    fn read_uiconf(value: &Reader) -> (r: Result<Self, Error>) {
        let elements = value.read_array()?;
        let ghost views = elements.deep_view();
        let mut out: Vec<T> = Vec::new();
        let mut i: usize = 0;
        while i < elements.len()
            invariant
                i <= elements.len(),
                views == elements.deep_view(),
                values_of(value.deep_view()) == Ok::<Seq<ReaderView>, ErrorView>(views),
                decoded_from::<T>(views, 0) == extended(
                    out.deep_view(),
                    decoded_from::<T>(views, i as int),
                ),
            decreases elements.len() - i,
        {
            let ghost done = out.deep_view();
            assert(views[i as int] == elements[i as int].deep_view());
            let item = T::read_uiconf(&elements[i])?;
            let ghost first = item.deep_view();
            out.push(item);
            proof {
                assert(out.deep_view() =~= done.push(first));
                let rest = decoded_from::<T>(views, i + 1);
                if rest is Ok {
                    assert(done + (seq![first] + rest->Ok_0) =~= done.push(first) + rest->Ok_0);
                }
            }
            i = i + 1;
        }
        proof {
            assert(out.deep_view() + Seq::<T::V>::empty() =~= out.deep_view());
        }
        Ok(out)
    }
}

/// The `index`-th of the values of an array, decoded; an `InvalidLength`
/// that reports `index` values where the array has no more.
pub open spec fn required<T: ReadUiconf>(
    path: Seq<Seq<char>>,
    elements: Seq<ReaderView>,
    index: int,
    expected: Seq<char>,
) -> Result<T::V, ErrorView> {
    if 0 <= index < elements.len() {
        T::decoded(elements[index])
    } else {
        Err(ErrorView::invalid_length(path, index as usize, expected))
    }
}

/// Decodes the `index`-th of the values of the array under the cursor.
pub fn read_required<T: ReadUiconf>(
    value: &Reader,
    elements: &Vec<Reader>,
    index: usize,
    expected: &str,
) -> (r: Result<T, Error>)
    ensures
        outcome(r) == required::<T>(
            value.deep_view().path,
            elements.deep_view(),
            index as int,
            expected@,
        ),
{
    if index < elements.len() {
        assert(elements.deep_view()[index as int] == elements[index as int].deep_view());
        T::read_uiconf(&elements[index])
    } else {
        Err(Error::invalid_length(value, index, expected))
    }
}

} // verus!
