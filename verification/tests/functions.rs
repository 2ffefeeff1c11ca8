use oxi_talib::functions::{filter_wrapper, EngineFunction, Filter, Primitive, RetCode};
use oxi_talib::settings::Penetration;
use oxi_talib::Pattern;

#[test]
fn one_sided_patterns_are_dispatched_directly() {
    let direct = [
        (Pattern::Hammer, EngineFunction::Hammer),
        (Pattern::InvertedHammer, EngineFunction::InvertedHammer),
        (Pattern::ThreeWhiteSoldiers, EngineFunction::ThreeWhiteSoldiers),
        (Pattern::PiercingLine, EngineFunction::Piercing),
        (Pattern::DragonFly, EngineFunction::DragonflyDoji),
        (Pattern::HangingMan, EngineFunction::HangingMan),
        (Pattern::ShootingStar, EngineFunction::ShootingStar),
        (Pattern::ThreeBlackCrows, EngineFunction::ThreeBlackCrows),
        (Pattern::Gravestone, EngineFunction::GravestoneDoji),
        (Pattern::Doji, EngineFunction::Doji),
        (Pattern::SpinningTop, EngineFunction::SpinningTop),
    ];
    for (pattern, function) in direct {
        assert_eq!(pattern.ta_lib_function(), Primitive::Direct(function));
    }
}

#[test]
fn reversal_patterns_take_their_penetration_factor() {
    assert_eq!(
        Pattern::MorningStar.ta_lib_function(),
        Primitive::PenetrationAdapted(EngineFunction::MorningStar, Penetration::Star)
    );
    assert_eq!(
        Pattern::EveningStar.ta_lib_function(),
        Primitive::PenetrationAdapted(EngineFunction::EveningStar, Penetration::Star)
    );
    assert_eq!(
        Pattern::DarkCloudCover.ta_lib_function(),
        Primitive::PenetrationAdapted(EngineFunction::DarkCloudCover, Penetration::Piercing)
    );
}

#[test]
fn split_patterns_share_their_engine_function() {
    let split = [
        (Pattern::BullishEngulfing, Pattern::BearishEngulfing, EngineFunction::Engulfing),
        (Pattern::BullishHarami, Pattern::BearishHarami, EngineFunction::Harami),
        (Pattern::BullishHaramiCross, Pattern::BearishHaramiCross, EngineFunction::HaramiCross),
        (Pattern::BullishMarubozu, Pattern::BearishMarubozu, EngineFunction::Marubozu),
        (Pattern::BullishLongLine, Pattern::BearishLongLine, EngineFunction::LongLine),
        (Pattern::BullishShortLine, Pattern::BearishShortLine, EngineFunction::ShortLine),
        (Pattern::BullishKicking, Pattern::BearishKicking, EngineFunction::Kicking),
    ];
    for (bullish, bearish, function) in split {
        assert_eq!(
            bullish.ta_lib_function(),
            Primitive::DirectionalFilter(function, Filter::Bullish)
        );
        assert_eq!(
            bearish.ta_lib_function(),
            Primitive::DirectionalFilter(function, Filter::Bearish)
        );
        assert_eq!(bullish.ta_lib_function().engine_function(), function);
        assert_eq!(bearish.ta_lib_function().engine_function(), function);
    }
}

#[test]
fn primitive_names_its_engine_function() {
    assert_eq!(Pattern::Doji.ta_lib_function().engine_function(), EngineFunction::Doji);
    assert_eq!(
        Pattern::EveningStar.ta_lib_function().engine_function(),
        EngineFunction::EveningStar
    );
}

#[test]
fn bullish_filter_keeps_positive_values() {
    let mut values = vec![5, -3, 0, -7, 2];
    filter_wrapper(Filter::Bullish, &RetCode::Success, 5, &mut values);
    assert_eq!(values, vec![100, 0, 0, 0, 100]);
}

#[test]
fn bearish_filter_keeps_negative_values() {
    let mut values = vec![5, -3, 0, -7, 2];
    filter_wrapper(Filter::Bearish, &RetCode::Success, 5, &mut values);
    assert_eq!(values, vec![0, 100, 0, 100, 0]);
}

#[test]
fn filter_stops_at_the_end_of_the_window() {
    let mut values = vec![5, -3, 0, -7, 2];
    filter_wrapper(Filter::Bullish, &RetCode::Success, 2, &mut values);
    assert_eq!(values, vec![100, 0, 0, -7, 2]);

    let mut values = vec![5, -3, 0, -7, 2];
    filter_wrapper(Filter::Bearish, &RetCode::Success, 4, &mut values);
    assert_eq!(values, vec![0, 100, 0, 100, 2]);
}

#[test]
fn filter_of_an_empty_window_changes_nothing() {
    let mut values = vec![5, -3, 0, -7, 2];
    filter_wrapper(Filter::Bullish, &RetCode::Success, 0, &mut values);
    assert_eq!(values, vec![5, -3, 0, -7, 2]);
    filter_wrapper(Filter::Bearish, &RetCode::Success, -4, &mut values);
    assert_eq!(values, vec![5, -3, 0, -7, 2]);
    filter_wrapper(Filter::Bearish, &RetCode::Success, i32::MIN, &mut values);
    assert_eq!(values, vec![5, -3, 0, -7, 2]);
}

#[test]
fn filter_of_a_window_beyond_the_buffer_covers_the_buffer() {
    let mut values = vec![-100, 100, 0];
    filter_wrapper(Filter::Bearish, &RetCode::Success, 10, &mut values);
    assert_eq!(values, vec![100, 0, 0]);
    let mut values = vec![-100, 100, 0];
    filter_wrapper(Filter::Bullish, &RetCode::Success, i32::MAX, &mut values);
    assert_eq!(values, vec![0, 100, 0]);
}

#[test]
fn filter_leaves_the_buffer_of_a_failed_call_alone() {
    let mut values = vec![5, -3, 0, -7, 2];
    let failed = RetCode::Failure("BAD_PARAM".to_string());
    filter_wrapper(Filter::Bullish, &failed, 5, &mut values);
    assert_eq!(values, vec![5, -3, 0, -7, 2]);
    filter_wrapper(Filter::Bearish, &failed, 5, &mut values);
    assert_eq!(values, vec![5, -3, 0, -7, 2]);
}

#[test]
fn filter_maps_extreme_values_by_sign() {
    let mut values = vec![i32::MAX, i32::MIN, 1, -1];
    filter_wrapper(Filter::Bullish, &RetCode::Success, 4, &mut values);
    assert_eq!(values, vec![100, 0, 100, 0]);
    let mut values = vec![i32::MAX, i32::MIN, 1, -1];
    filter_wrapper(Filter::Bearish, &RetCode::Success, 4, &mut values);
    assert_eq!(values, vec![0, 100, 0, 100]);
}

#[test]
fn post_processing_filters_only_split_patterns() {
    let mut values = vec![100, -100, 0];
    Pattern::Doji.ta_lib_function().post_process(&RetCode::Success, 3, &mut values);
    assert_eq!(values, vec![100, -100, 0]);
    Pattern::MorningStar.ta_lib_function().post_process(&RetCode::Success, 3, &mut values);
    assert_eq!(values, vec![100, -100, 0]);
    Pattern::BearishHarami.ta_lib_function().post_process(&RetCode::Success, 3, &mut values);
    assert_eq!(values, vec![0, 100, 0]);
}

#[test]
fn post_processing_skips_a_failed_call() {
    let mut values = vec![100, -100, 0];
    let failed = RetCode::Failure("INTERNAL_ERROR".to_string());
    Pattern::BullishKicking.ta_lib_function().post_process(&failed, 3, &mut values);
    assert_eq!(values, vec![100, -100, 0]);
}
