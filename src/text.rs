//! Byte ranges, file positions and ranged results.
use vstd::prelude::*;

verus! {

/// Identifies one file of the project snapshot.
pub type FileId = u32;

/// A half-open range of byte offsets `[start, end)` inside one file.
#[derive(Clone, Copy, Debug, PartialEq, Eq, Structural)]
pub struct TextRange {
    pub start: u32,
    pub end: u32,
}

impl TextRange {
    pub open spec fn wf(self) -> bool {
        self.start <= self.end
    }

    pub open spec fn len_spec(self) -> int {
        self.end - self.start
    }

    pub open spec fn contains_spec(self, offset: u32) -> bool {
        self.start <= offset && offset < self.end
    }

    pub open spec fn contains_inclusive_spec(self, offset: u32) -> bool {
        self.start <= offset && offset <= self.end
    }

    /// Two ranges intersect when the overlap `[max start, min end]` is not
    /// reversed; ranges that only touch intersect in an empty range.
    pub open spec fn intersects_spec(self, other: TextRange) -> bool {
        (if self.start >= other.start { self.start } else { other.start }) <= (if self.end
            <= other.end {
            self.end
        } else {
            other.end
        })
    }

    pub fn new(start: u32, end: u32) -> (r: TextRange)
        requires
            start <= end,
        ensures
            r.start == start && r.end == end,
    {
        TextRange { start, end }
    }

    /// The empty range at `offset`.
    pub fn empty(offset: u32) -> (r: TextRange)
        ensures
            r.start == offset && r.end == offset,
    {
        TextRange { start: offset, end: offset }
    }

    pub fn contains(&self, offset: u32) -> (r: bool)
        ensures
            r == self.contains_spec(offset),
    {
        self.start <= offset && offset < self.end
    }

    pub fn contains_inclusive(&self, offset: u32) -> (r: bool)
        ensures
            r == self.contains_inclusive_spec(offset),
    {
        self.start <= offset && offset <= self.end
    }

    pub fn intersects(&self, other: &TextRange) -> (r: bool)
        ensures
            r == self.intersects_spec(*other),
    {
        let start = if self.start >= other.start {
            self.start
        } else {
            other.start
        };
        let end = if self.end <= other.end {
            self.end
        } else {
            other.end
        };
        start <= end
    }
}

/// A cursor: a byte offset inside one file.
#[derive(Clone, Copy, Debug, PartialEq, Eq, Structural)]
pub struct FilePosition {
    pub file_id: FileId,
    pub offset: u32,
}

/// A range inside one file.
#[derive(Clone, Copy, Debug, PartialEq, Eq, Structural)]
pub struct FileRange {
    pub file_id: FileId,
    pub range: TextRange,
}

/// A result together with the range of text it was computed for.
#[derive(Debug)]
pub struct RangeInfo<T> {
    pub range: TextRange,
    pub info: T,
}

impl<T> RangeInfo<T> {
    pub fn new(range: TextRange, info: T) -> (r: RangeInfo<T>)
        ensures
            r.range == range && r.info == info,
    {
        RangeInfo { range, info }
    }
}

} // verus!
