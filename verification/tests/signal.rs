use oxi_talib::signal::MAX_QUALITY;
use oxi_talib::{Quality, Signal};

#[test]
fn quality_of_zero_is_absent() {
    assert_eq!(Quality::try_new(0), None);
    assert_eq!(Signal::try_from_quality(0), None);
}

#[test]
fn quality_keeps_scores_up_to_the_maximum() {
    for score in 1u8..=100 {
        let quality = Quality::try_new(score).unwrap();
        assert_eq!(quality.value(), score);
        assert_eq!(quality.value(), score.min(100));
    }
}

#[test]
fn quality_caps_scores_above_the_maximum() {
    assert_eq!(MAX_QUALITY, 100);
    for score in 101u8..=255 {
        assert_eq!(Quality::try_new(score).unwrap().value(), 100);
    }
}

#[test]
fn quality_is_never_zero() {
    for score in 0u8..=255 {
        match Quality::try_new(score) {
            Some(quality) => {
                assert!(score > 0);
                assert!(1 <= quality.value() && quality.value() <= 100);
            }
            None => assert_eq!(score, 0),
        }
    }
}

#[test]
fn qualities_are_ordered_by_score() {
    let low = Quality::try_new(1).unwrap();
    let high = Quality::try_new(100).unwrap();
    assert!(low < high);
    assert_eq!(Quality::try_new(150), Some(high));
}

#[test]
fn signal_wraps_the_quality_it_was_made_from() {
    let quality = Quality::try_new(42).unwrap();
    assert_eq!(Signal::new(quality).quality, quality);
    assert_eq!(Signal::try_from_quality(42), Some(Signal::new(quality)));
    assert_eq!(Signal::try_from_quality(42).unwrap().quality.value(), 42);
}

#[test]
fn signal_from_a_score_above_the_maximum_is_capped() {
    assert_eq!(Signal::try_from_quality(255).unwrap().quality.value(), 100);
    assert_eq!(Signal::try_from_quality(101).unwrap().quality.value(), 100);
}
