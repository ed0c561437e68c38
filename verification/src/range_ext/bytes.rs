//! Ranges of bytes.

use vstd::prelude::*;
use vstd::string::*;
use std::ops::Range;
use crate::range_ext::RangeExt;
use crate::scan::is_single_byte;
use crate::byte_range::{split_parts, sub_part, delimited_parts, delimited_parts_tri, splitrange,
    subrange, delimited, delimited_tri};

verus! {

impl RangeExt for Range<usize> {
    type Position = usize;

    open spec fn can_split_at(self, text: Seq<u8>, at: usize) -> bool {
        self.start <= self.end && at <= self.end - self.start
    }

    open spec fn split_at_parts(self, text: Seq<u8>, at: usize) -> (Self, Self) {
        split_parts(self, at)
    }

    open spec fn can_shrink(self, text: Seq<u8>, amount_left: usize, amount_right: usize) -> bool {
        self.start <= self.end && amount_left + amount_right <= self.end - self.start
    }

    open spec fn shrunk(self, text: Seq<u8>, amount_left: usize, amount_right: usize) -> Self {
        Range { start: (self.start + amount_left) as usize, end: (self.end - amount_right) as usize }
    }

    open spec fn can_sub(self, text: Seq<u8>, from: usize, to: usize) -> bool {
        self.start <= self.end && from <= to <= self.end - self.start
    }

    open spec fn sub_part(self, text: Seq<u8>, from: usize, to: usize) -> Self {
        crate::byte_range::sub_part(self, from, to)
    }

    open spec fn can_sub_delimited(self, text: Seq<u8>, delimiter: char) -> bool {
        self.start <= self.end && text.len() == self.end - self.start && is_single_byte(delimiter)
    }

    open spec fn sub_delimited_parts(self, text: Seq<u8>, delimiter: char) -> (
        Option<Self>,
        Option<Self>,
    ) {
        delimited_parts(text, self, delimiter as u8)
    }

    open spec fn can_sub_delimited_tri(self, text: Seq<u8>, delim0: char, delim1: char) -> bool {
        is_single_byte(delim0) && is_single_byte(delim1) && (text.len() > 0 ==> self.start
            <= self.end && text.len() == self.end - self.start)
    }

    open spec fn sub_delimited_tri_parts(self, text: Seq<u8>, delim0: char, delim1: char) -> (
        Option<Self>,
        Option<Self>,
        Option<Self>,
    ) {
        delimited_parts_tri(text, self, delim0 as u8, delim1 as u8)
    }

    fn split_at(self, text: &str, at: usize) -> (parts: (Self, Self)) {
        splitrange(self, at)
    }

    fn shrink(self, text: &str, amount_left: usize, amount_right: usize) -> (range: Self) {
        Range { start: self.start + amount_left, end: self.end - amount_right }
    }

    fn sub(self, text: &str, from: usize, to: usize) -> (part: Self) {
        subrange(self, from, to)
    }

    fn sub_delimited(self, text: &str, delimiter: char) -> (parts: (Option<Self>, Option<Self>)) {
        delimited(text.as_bytes(), self, delimiter as u8)
    }

    fn sub_delimited_tri(self, text: &str, delim0: char, delim1: char) -> (parts: (
        Option<Self>,
        Option<Self>,
        Option<Self>,
    )) {
        delimited_tri(text.as_bytes(), self, delim0 as u8, delim1 as u8)
    }
}

} // verus!
