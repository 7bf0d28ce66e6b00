use guidance_bridge::mask::{mask_allows, singleton_mask};

#[test]
fn singleton_mask_has_one_bit() {
    let mask = singleton_mask(100, 7);
    assert_eq!(mask, vec![0x80, 0, 0, 0]);
    for tok in 0..200u32 {
        assert_eq!(mask_allows(&mask, tok), tok == 7);
    }
}

#[test]
fn singleton_mask_in_a_later_word() {
    let mask = singleton_mask(70, 69);
    assert_eq!(mask, vec![0, 0, 1 << 5]);
    assert!(mask_allows(&mask, 69));
    assert!(!mask_allows(&mask, 5));
}

#[test]
fn mask_length_covers_the_vocabulary() {
    assert_eq!(singleton_mask(1, 0).len(), 1);
    assert_eq!(singleton_mask(31, 30).len(), 1);
    assert_eq!(singleton_mask(32, 31).len(), 2);
    assert_eq!(singleton_mask(64, 0).len(), 3);
    assert_eq!(singleton_mask(32, 31), vec![0x8000_0000, 0]);
}

#[test]
fn mask_allows_nothing_past_its_words() {
    let mask = singleton_mask(10, 3);
    assert!(!mask_allows(&mask, 32));
    assert!(!mask_allows(&mask, u32::MAX));
}
