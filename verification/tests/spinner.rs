use ciphey::spinner::{random_quote_index, ENHANCED_SPINNER_FRAMES, QUOTES};

#[test]
fn test_quote_count() {
    assert_eq!(QUOTES.len(), 40);
}

#[test]
fn test_enhanced_spinner_frame_count() {
    assert_eq!(ENHANCED_SPINNER_FRAMES.len(), 8);
}

#[test]
fn test_random_quote_index_in_range() {
    for _ in 0..100 {
        let idx = random_quote_index();
        assert!(idx < QUOTES.len());
    }
}
