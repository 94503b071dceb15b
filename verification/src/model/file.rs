//! File contents read for the frontend.
use vstd::prelude::*;

verus! {

#[derive(Debug, Clone)]
pub struct FileContentDto {
    pub content: String,
    pub size_bytes: u64,
    pub is_binary: bool,
}

} // verus!
