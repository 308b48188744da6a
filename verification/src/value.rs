//! Dynamically-typed values: what a setting holds once its type is forgotten.
//!
//! Both the report and the keyword payload of a toolkit call work on named
//! values.  The shapes are exactly those that settings have, so the type is
//! flat: lists nest by their element type, never by recursion.
use crate::plain::Plain;
use vstd::prelude::*;

verus! {

/// A floating-point setting, carried as the decimal text that denotes it:
/// the digits of a finite number, or one of the names `NaN`, `inf` and
/// `-inf`.
///
/// The library passes such numbers through and shows them; it never computes
/// with them.  Two of them are the same when their texts are.
#[derive(Clone, Debug, PartialEq)]
pub struct Decimal {
    pub text: String,
}

impl View for Decimal {
    type V = Seq<char>;

    open spec fn view(&self) -> Seq<char> {
        self.text@
    }
}

impl DeepView for Decimal {
    type V = Seq<char>;

    open spec fn deep_view(&self) -> Seq<char> {
        self.text@
    }
}

impl Plain for Decimal {
    fn copy(&self) -> (copy: Self) {
        Decimal { text: self.text.clone() }
    }

    fn same(&self, other: &Self) -> (same: bool) {
        self.text == other.text
    }
}

/// One array loaded from an array file.  The library never looks inside: the
/// caller keeps the data and hands out a number that stands for it.
#[derive(Clone, Copy, Debug, PartialEq, Eq, Structural)]
pub struct ArrayHandle {
    pub id: u64,
}

impl DeepView for ArrayHandle {
    type V = ArrayHandle;

    open spec fn deep_view(&self) -> ArrayHandle {
        *self
    }
}

impl Plain for ArrayHandle {
    fn copy(&self) -> (copy: Self) {
        ArrayHandle { id: self.id }
    }

    fn same(&self, other: &Self) -> (same: bool) {
        self.id == other.id
    }
}

/// A value of any of the shapes that a setting can have.
#[derive(Clone, Debug, PartialEq)]
pub enum Value {
    /// No value: the setting is absent.
    Null,
    Bool(bool),
    Int(i64),
    Float(Decimal),
    Str(String),
    FloatList(Vec<Decimal>),
    StrList(Vec<String>),
    /// Shapes, each a list of sizes.
    ShapeList(Vec<Vec<usize>>),
    /// Sets of shapes, outermost first.
    ShapeSets(Vec<Vec<Vec<usize>>>),
    /// Keys with their values, in the order they were given.
    StrMap(Vec<(String, String)>),
    /// Arrays, in the order the loader reported them.
    Arrays(Vec<ArrayHandle>),
}

/// What a [`Value`] means.
pub enum ValueView {
    Null,
    Bool(bool),
    Int(int),
    Float(Seq<char>),
    Str(Seq<char>),
    FloatList(Seq<Seq<char>>),
    StrList(Seq<Seq<char>>),
    ShapeList(Seq<Seq<usize>>),
    ShapeSets(Seq<Seq<Seq<usize>>>),
    StrMap(Seq<(Seq<char>, Seq<char>)>),
    Arrays(Seq<ArrayHandle>),
}

impl DeepView for Value {
    type V = ValueView;

    open spec fn deep_view(&self) -> ValueView {
        match self {
            Value::Null => ValueView::Null,
            Value::Bool(b) => ValueView::Bool(*b),
            Value::Int(n) => ValueView::Int(*n as int),
            Value::Float(x) => ValueView::Float(x.deep_view()),
            Value::Str(s) => ValueView::Str(s.deep_view()),
            Value::FloatList(list) => ValueView::FloatList(list.deep_view()),
            Value::StrList(list) => ValueView::StrList(list.deep_view()),
            Value::ShapeList(list) => ValueView::ShapeList(list.deep_view()),
            Value::ShapeSets(list) => ValueView::ShapeSets(list.deep_view()),
            Value::StrMap(entries) => ValueView::StrMap(entries.deep_view()),
            Value::Arrays(list) => ValueView::Arrays(list.deep_view()),
        }
    }
}

impl View for Value {
    type V = ValueView;

    open spec fn view(&self) -> ValueView {
        self.deep_view()
    }
}

impl Plain for Value {
    fn copy(&self) -> (copy: Self) {
        match self {
            Value::Null => Value::Null,
            Value::Bool(b) => Value::Bool(*b),
            Value::Int(n) => Value::Int(*n),
            Value::Float(x) => Value::Float(x.copy()),
            Value::Str(s) => Value::Str(s.copy()),
            Value::FloatList(list) => Value::FloatList(list.copy()),
            Value::StrList(list) => Value::StrList(list.copy()),
            Value::ShapeList(list) => Value::ShapeList(list.copy()),
            Value::ShapeSets(list) => Value::ShapeSets(list.copy()),
            Value::StrMap(entries) => Value::StrMap(entries.copy()),
            Value::Arrays(list) => Value::Arrays(list.copy()),
        }
    }

    fn same(&self, other: &Self) -> (same: bool) {
        match (self, other) {
            (Value::Null, Value::Null) => true,
            (Value::Bool(a), Value::Bool(b)) => *a == *b,
            (Value::Int(a), Value::Int(b)) => *a == *b,
            (Value::Float(a), Value::Float(b)) => a.same(b),
            (Value::Str(a), Value::Str(b)) => a.same(b),
            (Value::FloatList(a), Value::FloatList(b)) => a.same(b),
            (Value::StrList(a), Value::StrList(b)) => a.same(b),
            (Value::ShapeList(a), Value::ShapeList(b)) => a.same(b),
            (Value::ShapeSets(a), Value::ShapeSets(b)) => a.same(b),
            (Value::StrMap(a), Value::StrMap(b)) => a.same(b),
            (Value::Arrays(a), Value::Arrays(b)) => a.same(b),
            _ => false,
        }
    }
}

impl Value {
    /// Whether this is [`Value::Null`].
    pub fn is_null(&self) -> (null: bool)
        ensures
            null == (self@ is Null),
    {
        match self {
            Value::Null => true,
            _ => false,
        }
    }

    /// The value of an optional flag: `Null` when it is absent.
    pub fn of_bool(flag: &Option<bool>) -> (value: Value)
        ensures
            value@ == bool_value(*flag),
    {
        match flag {
            Some(b) => Value::Bool(*b),
            None => Value::Null,
        }
    }

    /// The value of an optional integer: `Null` when it is absent.
    pub fn of_int(number: Option<i64>) -> (value: Value)
        ensures
            value@ == int_value(number),
    {
        match number {
            Some(n) => Value::Int(n),
            None => Value::Null,
        }
    }

    /// The value of an optional number: `Null` when it is absent.
    pub fn of_float(number: &Option<Decimal>) -> (value: Value)
        ensures
            value@ == float_value(number.deep_view()),
    {
        match number {
            Some(x) => Value::Float(x.copy()),
            None => Value::Null,
        }
    }

    /// The value of an optional string: `Null` when it is absent.
    pub fn of_str(text: &Option<String>) -> (value: Value)
        ensures
            value@ == str_value(text.deep_view()),
    {
        match text {
            Some(s) => Value::Str(s.copy()),
            None => Value::Null,
        }
    }

    /// The value of an optional list of numbers: `Null` when it is absent.
    pub fn of_float_list(list: &Option<Vec<Decimal>>) -> (value: Value)
        ensures
            value@ == float_list_value(list.deep_view()),
    {
        match list {
            Some(items) => Value::FloatList(items.copy()),
            None => Value::Null,
        }
    }

    /// The value of an optional list of strings: `Null` when it is absent.
    pub fn of_str_list(list: &Option<Vec<String>>) -> (value: Value)
        ensures
            value@ == str_list_value(list.deep_view()),
    {
        match list {
            Some(items) => Value::StrList(items.copy()),
            None => Value::Null,
        }
    }

    /// The value of an optional list of shapes: `Null` when it is absent.
    pub fn of_shape_list(list: &Option<Vec<Vec<usize>>>) -> (value: Value)
        ensures
            value@ == shape_list_value(list.deep_view()),
    {
        match list {
            Some(items) => Value::ShapeList(items.copy()),
            None => Value::Null,
        }
    }

    /// The value of an optional list of shape sets: `Null` when it is absent.
    pub fn of_shape_sets(list: &Option<Vec<Vec<Vec<usize>>>>) -> (value: Value)
        ensures
            value@ == shape_sets_value(list.deep_view()),
    {
        match list {
            Some(items) => Value::ShapeSets(items.copy()),
            None => Value::Null,
        }
    }

    /// The value of an optional mapping: `Null` when it is absent.
    pub fn of_str_map(entries: &Option<Vec<(String, String)>>) -> (value: Value)
        ensures
            value@ == str_map_value(entries.deep_view()),
    {
        match entries {
            Some(items) => Value::StrMap(items.copy()),
            None => Value::Null,
        }
    }
}

pub open spec fn bool_value(flag: Option<bool>) -> ValueView {
    match flag {
        Some(b) => ValueView::Bool(b),
        None => ValueView::Null,
    }
}

pub open spec fn int_value(number: Option<i64>) -> ValueView {
    match number {
        Some(n) => ValueView::Int(n as int),
        None => ValueView::Null,
    }
}

pub open spec fn float_value(number: Option<Seq<char>>) -> ValueView {
    match number {
        Some(x) => ValueView::Float(x),
        None => ValueView::Null,
    }
}

pub open spec fn str_value(text: Option<Seq<char>>) -> ValueView {
    match text {
        Some(s) => ValueView::Str(s),
        None => ValueView::Null,
    }
}

pub open spec fn float_list_value(list: Option<Seq<Seq<char>>>) -> ValueView {
    match list {
        Some(items) => ValueView::FloatList(items),
        None => ValueView::Null,
    }
}

pub open spec fn str_list_value(list: Option<Seq<Seq<char>>>) -> ValueView {
    match list {
        Some(items) => ValueView::StrList(items),
        None => ValueView::Null,
    }
}

pub open spec fn shape_list_value(list: Option<Seq<Seq<usize>>>) -> ValueView {
    match list {
        Some(items) => ValueView::ShapeList(items),
        None => ValueView::Null,
    }
}

pub open spec fn shape_sets_value(list: Option<Seq<Seq<Seq<usize>>>>) -> ValueView {
    match list {
        Some(items) => ValueView::ShapeSets(items),
        None => ValueView::Null,
    }
}

pub open spec fn str_map_value(entries: Option<Seq<(Seq<char>, Seq<char>)>>) -> ValueView {
    match entries {
        Some(items) => ValueView::StrMap(items),
        None => ValueView::Null,
    }
}

/// A value under the name of the setting that holds it.
#[derive(Clone, Debug, PartialEq)]
pub struct Field {
    pub name: String,
    pub value: Value,
}

/// What a [`Field`] means.
pub struct FieldView {
    pub name: Seq<char>,
    pub value: ValueView,
}

impl DeepView for Field {
    type V = FieldView;

    open spec fn deep_view(&self) -> FieldView {
        FieldView { name: self.name@, value: self.value@ }
    }
}

impl View for Field {
    type V = FieldView;

    open spec fn view(&self) -> FieldView {
        self.deep_view()
    }
}

impl Plain for Field {
    fn copy(&self) -> (copy: Self) {
        Field { name: self.name.clone(), value: self.value.copy() }
    }

    fn same(&self, other: &Self) -> (same: bool) {
        self.name == other.name && self.value.same(&other.value)
    }
}

impl Field {
    /// The field `name` with `value`.
    pub fn new(name: &str, value: Value) -> (field: Field)
        ensures
            field@ == (FieldView { name: name@, value: value@ }),
    {
        Field { name: name.to_owned(), value }
    }
}

/// Whether no two fields have the same name.
pub open spec fn names_distinct(fields: Seq<FieldView>) -> bool {
    forall|i: int, j: int| 0 <= i < j < fields.len() ==> fields[i].name != fields[j].name
}

/// What tells the names of a section apart: the length and the first
/// character.
pub open spec fn mark(name: Seq<char>) -> (nat, char) {
    (name.len(), name[0])
}

/// Fields that are named like fields with distinct names have distinct
/// names.
pub proof fn lemma_named_alike(fields: Seq<FieldView>, others: Seq<FieldView>)
    requires
        fields.len() == others.len(),
        forall|i: int| 0 <= i < fields.len() ==> fields[i].name == others[i].name,
        names_distinct(others),
    ensures
        names_distinct(fields),
{
    assert forall|i: int, j: int| 0 <= i < j < fields.len() implies fields[i].name
        != fields[j].name by {
        assert(others[i].name != others[j].name);
    }
}

} // verus!
