//! Small helpers.

use vstd::prelude::*;
use crate::text::{chars_of, string_of, strings, strip, trim, CharClass};

verus! {

/// How many bytes at the end of a file are read for display.
pub const LOG_TAIL_BYTES: usize = 1024 * 1024;

/// The labels, each trimmed; those of which nothing is left are dropped.
pub open spec fn normalized_labels(labels: Seq<Seq<char>>) -> Seq<Seq<char>>
    decreases labels.len(),
{
    if labels.len() == 0 {
        seq![]
    } else if trim(labels.last()).len() > 0 {
        normalized_labels(labels.drop_last()).push(trim(labels.last()))
    } else {
        normalized_labels(labels.drop_last())
    }
}

/// The labels, each trimmed; those of which nothing is left are dropped.
pub fn normalize_labels(labels: Vec<String>) -> (r: Vec<String>)
    ensures
        strings(r@) == normalized_labels(strings(labels@)),
{
    let ghost all = strings(labels@);
    let mut out: Vec<String> = Vec::new();
    let mut i: usize = 0;
    assert(strings(out@) =~= normalized_labels(all.take(0)));
    while i < labels.len()
        invariant
            i <= labels.len(),
            all == strings(labels@),
            strings(out@) == normalized_labels(all.take(i as int)),
        decreases labels.len() - i,
    {
        assert(all.take(i + 1).drop_last() == all.take(i as int));
        assert(all.take(i + 1).last() == labels@[i as int]@);
        let ghost before = strings(out@);
        let chars = chars_of(labels[i].as_str());
        let trimmed = strip(&chars, CharClass::Whitespace);
        if trimmed.len() > 0 {
            let label = string_of(&trimmed);
            out.push(label);
            assert(strings(out@) =~= before.push(trim(labels@[i as int]@)));
        }
        i += 1;
    }
    assert(all.take(labels.len() as int) == all);
    out
}

/// Where reading starts in a file of `len` bytes of which at most
/// `max_bytes` at the end are read.
pub fn tail_start(len: u64, max_bytes: usize) -> (r: u64)
    ensures
        r == if len > max_bytes {
            len - max_bytes
        } else {
            0
        },
{
    let max = max_bytes as u64;
    if len > max {
        len - max
    } else {
        0
    }
}

} // verus!
