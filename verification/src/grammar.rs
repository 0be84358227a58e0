//! The MML markers: how parts and multiparts open and close, and their
//! escaped forms, which stand for the markers themselves in text.

use vstd::prelude::*;

verus! {

pub const PART_BEGIN: &'static str = "<#part";
pub const PART_BEGIN_ESCAPED: &'static str = "<#!part";
pub const PART_END: &'static str = "<#/part>";
pub const PART_END_ESCAPED: &'static str = "<#!/part>";

pub const MULTIPART_BEGIN: &'static str = "<#multipart";
pub const MULTIPART_BEGIN_ESCAPED: &'static str = "<#!multipart";
pub const MULTIPART_END: &'static str = "<#/multipart>";
pub const MULTIPART_END_ESCAPED: &'static str = "<#!/multipart>";

/// What every escaped marker starts with.
pub open spec fn escape_mark() -> Seq<char> {
    seq!['<', '#', '!']
}

} // verus!
