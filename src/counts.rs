//! The four-field count record and its field-wise addition.

use vstd::prelude::*;

verus! {

/// Counts of one source, or a running total over several.
#[derive(Debug, Clone, Copy, PartialEq, Eq, Structural)]
pub struct FileInfo {
    pub line_count: usize,
    pub word_count: usize,
    pub char_count: usize,
    pub byte_size: usize,
}

/// Addition of two counts, held at `usize::MAX` where the true sum is larger.
pub open spec fn capped_sum(x: usize, y: usize) -> usize {
    if x + y > usize::MAX {
        usize::MAX
    } else {
        (x + y) as usize
    }
}

/// The field-wise sum of two records.
pub open spec fn combine_spec(a: FileInfo, b: FileInfo) -> FileInfo {
    FileInfo {
        line_count: capped_sum(a.line_count, b.line_count),
        word_count: capped_sum(a.word_count, b.word_count),
        char_count: capped_sum(a.char_count, b.char_count),
        byte_size: capped_sum(a.byte_size, b.byte_size),
    }
}

/// The record with every count zero.
pub open spec fn identity_spec() -> FileInfo {
    FileInfo { line_count: 0, word_count: 0, char_count: 0, byte_size: 0 }
}

impl FileInfo {
    /// The all-zero record: the start of a running total.
    pub fn zero() -> (r: FileInfo)
        ensures
            r == identity_spec(),
    {
        FileInfo { line_count: 0, word_count: 0, char_count: 0, byte_size: 0 }
    }

    /// Adds `other` into `self`, field by field.
    pub fn add_assign(&mut self, other: FileInfo)
        ensures
            *final(self) == combine_spec(*old(self), other),
    {
        *self = combine(*self, other);
    }
}

/// The field-wise sum of `a` and `b`. A sum past `usize::MAX` stays at
/// `usize::MAX`, so the operation never fails.
pub fn combine(a: FileInfo, b: FileInfo) -> (r: FileInfo)
    ensures
        r == combine_spec(a, b),
        a.line_count + b.line_count <= usize::MAX ==> r.line_count == a.line_count + b.line_count,
        a.word_count + b.word_count <= usize::MAX ==> r.word_count == a.word_count + b.word_count,
        a.char_count + b.char_count <= usize::MAX ==> r.char_count == a.char_count + b.char_count,
        a.byte_size + b.byte_size <= usize::MAX ==> r.byte_size == a.byte_size + b.byte_size,
{
    FileInfo {
        line_count: a.line_count.saturating_add(b.line_count),
        word_count: a.word_count.saturating_add(b.word_count),
        char_count: a.char_count.saturating_add(b.char_count),
        byte_size: a.byte_size.saturating_add(b.byte_size),
    }
}

/// Capped addition is associative.
pub proof fn lemma_capped_sum_assoc(x: usize, y: usize, z: usize)
    ensures
        capped_sum(capped_sum(x, y), z) == capped_sum(x, capped_sum(y, z)),
{
}

/// Combining is associative: the grouping of a running total does not
/// change it.
pub proof fn lemma_combine_assoc(a: FileInfo, b: FileInfo, c: FileInfo)
    ensures
        combine_spec(combine_spec(a, b), c) == combine_spec(a, combine_spec(b, c)),
{
    lemma_capped_sum_assoc(a.line_count, b.line_count, c.line_count);
    lemma_capped_sum_assoc(a.word_count, b.word_count, c.word_count);
    lemma_capped_sum_assoc(a.char_count, b.char_count, c.char_count);
    lemma_capped_sum_assoc(a.byte_size, b.byte_size, c.byte_size);
}

/// Combining is commutative: the order of the sources does not change
/// the total.
pub proof fn lemma_combine_comm(a: FileInfo, b: FileInfo)
    ensures
        combine_spec(a, b) == combine_spec(b, a),
{
}

/// The all-zero record is the identity of combining.
pub proof fn lemma_combine_identity(a: FileInfo)
    ensures
        combine_spec(a, identity_spec()) == a,
        combine_spec(identity_spec(), a) == a,
{
}

} // verus!
