//! What an array file holds, as the loader reports it.
//!
//! Loading is the caller's work.  The library only needs the outcome: one
//! array, or several named arrays in the order the loader lists them, or the
//! reason why the file could not be loaded.
use crate::plain::Plain;
use crate::value::{ArrayHandle, Value, ValueView};
use vstd::prelude::*;

verus! {

/// A named array of an archive.
#[derive(Clone, Debug, PartialEq)]
pub struct NamedArray {
    pub name: String,
    pub array: ArrayHandle,
}

/// The contents of an array file.
#[derive(Clone, Debug, PartialEq)]
pub enum ArrayFile {
    /// A file that holds one array without a name.
    Single(ArrayHandle),
    /// An archive, with its arrays in the order the loader enumerates them.
    Archive(Vec<NamedArray>),
}

/// Why an array file could not be loaded.
#[derive(Clone, Copy, Debug, PartialEq, Eq, Structural)]
pub enum ArrayFileErrorKind {
    NotFound,
    UnsupportedFormat,
    Corrupt,
}

/// A failed load: the kind of failure and the loader's own words.
#[derive(Clone, Debug, PartialEq)]
pub struct ArrayFileError {
    pub kind: ArrayFileErrorKind,
    pub cause: String,
}

/// Where the loading of an array file stands.
#[derive(Clone, Debug, PartialEq)]
pub enum ArrayResolution {
    /// Nothing was loaded.
    NotLoaded,
    /// The file was loaded.
    Loaded(ArrayFile),
    /// The loader failed.
    Failed(ArrayFileError),
}

impl ArrayFile {
    /// The arrays of the file as one sequence: the single array alone, or the
    /// arrays of the archive in the loader's order, their names dropped.
    pub open spec fn spec_arrays(self) -> Seq<ArrayHandle> {
        match self {
            ArrayFile::Single(array) => seq![array],
            ArrayFile::Archive(entries) => Seq::new(entries@.len(), |i: int| entries@[i].array),
        }
    }

    /// The arrays of the file as one list, whichever kind of file it is.
    pub fn arrays(&self) -> (list: Vec<ArrayHandle>)
        ensures
            list@ == self.spec_arrays(),
            self is Single ==> list@.len() == 1,
            self matches ArrayFile::Archive(entries) ==> list@.len() == entries@.len(),
    {
        match self {
            ArrayFile::Single(array) => {
                let mut list: Vec<ArrayHandle> = Vec::new();
                list.push(*array);
                assert(list@ =~= self.spec_arrays());
                list
            },
            ArrayFile::Archive(entries) => {
                let mut list: Vec<ArrayHandle> = Vec::new();
                let mut i: usize = 0;
                while i < entries.len()
                    invariant
                        i <= entries.len(),
                        list@.len() == i,
                        forall|j: int| 0 <= j < i ==> list@[j] == entries@[j].array,
                    decreases entries.len() - i,
                {
                    list.push(entries[i].array);
                    i += 1;
                }
                assert(list@ =~= self.spec_arrays());
                list
            },
        }
    }

    /// The arrays of the file as the value that a payload carries.
    pub fn to_value(&self) -> (value: Value)
        ensures
            value@ == ValueView::Arrays(self.spec_arrays()),
    {
        let list = self.arrays();
        assert(list.deep_view() =~= list@);
        Value::Arrays(list)
    }
}

impl ArrayFileErrorKind {
    /// The kind of failure in words.
    pub open spec fn spec_description(self) -> Seq<char> {
        match self {
            ArrayFileErrorKind::NotFound => "file not found"@,
            ArrayFileErrorKind::UnsupportedFormat => "unsupported format"@,
            ArrayFileErrorKind::Corrupt => "corrupt content"@,
        }
    }

    /// The kind of failure in words.
    pub fn description(&self) -> (text: &'static str)
        ensures
            text@ == self.spec_description(),
    {
        match self {
            ArrayFileErrorKind::NotFound => "file not found",
            ArrayFileErrorKind::UnsupportedFormat => "unsupported format",
            ArrayFileErrorKind::Corrupt => "corrupt content",
        }
    }
}

impl ArrayFileError {
    /// A copy of this failure.
    pub fn copy(&self) -> (copy: ArrayFileError)
        ensures
            copy.kind == self.kind,
            copy.cause@ == self.cause@,
    {
        ArrayFileError { kind: self.kind, cause: self.cause.copy() }
    }
}

} // verus!
