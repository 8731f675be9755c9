//! The paging decision used when walking a paged endpoint.
//!
//! Fetching a page is the surrounding (unverified) plumbing's job; this
//! module decides, from the page that arrived, whether the walk goes on and
//! at which offset.

use vstd::prelude::*;

verus! {

/// After a page with `items_in_page` items arrived at `offset`: the walk
/// stops on an empty page (`None`), and otherwise continues at the offset
/// just past the items received (`Some`).
pub fn next_page_offset(offset: u32, items_in_page: u32) -> (r: Option<u32>)
    requires
        offset + items_in_page <= u32::MAX,
    ensures
        r == if items_in_page == 0 {
            None::<u32>
        } else {
            Some((offset + items_in_page) as u32)
        },
{
    if items_in_page == 0 {
        None
    } else {
        Some(offset + items_in_page)
    }
}

} // verus!
