use keyforge_model::constants::MAX_KEYCODE_SPACE;
use keyforge_model::corpus::Corpus;
use keyforge_model::types::FixedWeight;
use keyforge_model::validator::Validator;

#[test]
fn test_corpus_basic() {
    let corpus = Corpus::default();
    assert_eq!(corpus.char_freqs.len(), MAX_KEYCODE_SPACE);
    assert!(corpus.validate_internal().is_ok());
}

#[test]
fn corpus_wrong_size_is_rejected() {
    let mut corpus = Corpus::default();
    corpus.char_freqs.truncate(10);
    let err = corpus.validate_internal().unwrap_err();
    assert_eq!(
        err.message(),
        "Invalid Data: Corpus char_freqs length must be 65536, found 10"
    );
    assert_eq!(
        corpus.validate().unwrap_err(),
        "Invalid Data: Corpus char_freqs length must be 65536, found 10"
    );
    assert!(corpus.post_load().is_err());
}

#[test]
fn corpus_merge_weighted_adds_scaled_frequencies() {
    let mut a = Corpus::default();
    let mut b = Corpus::default();
    a.char_freqs[97] = 10;
    b.char_freqs[97] = 4;
    b.char_freqs[98] = 1000;
    a.char_freqs[99] = u64::MAX - 1;
    b.char_freqs[99] = 5;
    a.merge_weighted(&b, FixedWeight::from_raw(500));
    assert_eq!(a.char_freqs[97], 12);
    assert_eq!(a.char_freqs[98], 500);
    assert_eq!(a.char_freqs[99], u64::MAX);
    assert_eq!(a.char_freqs.len(), MAX_KEYCODE_SPACE);
}

#[test]
fn corpus_merge_zero_and_unit_weight() {
    let mut a = Corpus::default();
    let mut b = Corpus::default();
    b.char_freqs[5] = 77;
    a.merge_weighted(&b, FixedWeight::zero());
    assert_eq!(a.char_freqs[5], 0);
    a.merge_weighted(&b, FixedWeight::unit());
    assert_eq!(a.char_freqs[5], 77);
    let mut short = Corpus::default();
    short.char_freqs.truncate(3);
    short.merge_weighted(&b, FixedWeight::unit());
    assert_eq!(short.char_freqs.len(), 3);
}
