//! The paging decision.

use spotify_ids::pagination::next_page_offset;

#[test]
fn test_next_page_offset() {
    // A page walk advances by the number of items received and stops on an
    // empty page.
    assert_eq!(next_page_offset(0, 50), Some(50));
    assert_eq!(next_page_offset(50, 50), Some(100));
    assert_eq!(next_page_offset(100, 3), Some(103));
    assert_eq!(next_page_offset(103, 0), None);
}
