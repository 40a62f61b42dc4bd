use key_counter::effect::{Effect, OnFailure, StatusLabel};
use key_counter::persist::{format_counter, parse_counter, startup};

#[test]
fn counter_is_written_in_base_ten() {
    assert_eq!(format_counter(0), "0");
    assert_eq!(format_counter(1), "1");
    assert_eq!(format_counter(9), "9");
    assert_eq!(format_counter(10), "10");
    assert_eq!(format_counter(50), "50");
    assert_eq!(format_counter(1000), "1000");
    assert_eq!(format_counter(907_020), "907020");
    assert_eq!(format_counter(u32::MAX), "4294967295");
}

#[test]
fn format_agrees_with_the_standard_library() {
    let samples: [u32; 12] =
        [0, 5, 10, 11, 99, 100, 101, 65_535, 65_536, 999_999_999, 1_000_000_000, 4_294_967_294];
    let mut i: usize = 0;
    while i < samples.len() {
        assert_eq!(format_counter(samples[i]), samples[i].to_string());
        i += 1;
    }
}

#[test]
fn well_formed_text_is_read_as_its_value() {
    assert_eq!(parse_counter("0"), 0);
    assert_eq!(parse_counter("1"), 1);
    assert_eq!(parse_counter("50"), 50);
    assert_eq!(parse_counter("007"), 7);
    assert_eq!(parse_counter("+12"), 12);
    assert_eq!(parse_counter("4294967295"), u32::MAX);
    assert_eq!(parse_counter("0000000004294967295"), u32::MAX);
}

#[test]
fn malformed_text_counts_as_zero() {
    assert_eq!(parse_counter(""), 0);
    assert_eq!(parse_counter("+"), 0);
    assert_eq!(parse_counter("-5"), 0);
    assert_eq!(parse_counter("++5"), 0);
    assert_eq!(parse_counter("5+"), 0);
    assert_eq!(parse_counter("12 "), 0);
    assert_eq!(parse_counter(" 12"), 0);
    assert_eq!(parse_counter("12\n"), 0);
    assert_eq!(parse_counter("1.5"), 0);
    assert_eq!(parse_counter("abc"), 0);
    assert_eq!(parse_counter("12a"), 0);
    assert_eq!(parse_counter("flashing"), 0);
    assert_eq!(parse_counter("\u{0663}"), 0);
    assert_eq!(parse_counter("1\u{e9}"), 0);
}

#[test]
fn numbers_too_large_count_as_zero() {
    assert_eq!(parse_counter("4294967296"), 0);
    assert_eq!(parse_counter("4294967300"), 0);
    assert_eq!(parse_counter("42949672950"), 0);
    assert_eq!(parse_counter("99999999999999999999999999"), 0);
    assert_eq!(parse_counter("5000000000x"), 0);
}

#[test]
fn parse_agrees_with_the_standard_library() {
    let samples: [&str; 16] = [
        "", "0", "+0", "-0", "+", "17", "+17", "017", "4294967295", "4294967296", "1 ", "x", "1_000",
        "0x10", "1e3", "٣",
    ];
    let mut i: usize = 0;
    while i < samples.len() {
        assert_eq!(parse_counter(samples[i]), samples[i].parse::<u32>().unwrap_or(0));
        i += 1;
    }
}

#[test]
fn written_counter_reads_back() {
    let samples: [u32; 8] = [0, 1, 9, 10, 49, 50, 123_456, u32::MAX];
    let mut i: usize = 0;
    while i < samples.len() {
        assert_eq!(parse_counter(&format_counter(samples[i])), samples[i]);
        i += 1;
    }
}

fn reset_effects() -> Vec<Effect> {
    vec![Effect::PersistCounter(0), Effect::PersistStatus(StatusLabel::Flashing)]
}

#[test]
fn startup_resets_the_sink_when_told_to() {
    let plan = startup(true, Some("41"));
    assert_eq!(plan.counter, 0);
    assert_eq!(plan.reaction.effects, reset_effects());
    assert_eq!(plan.reaction.on_failure, OnFailure::Abort);
    let fresh = startup(true, None);
    assert_eq!(fresh.counter, 0);
    assert_eq!(fresh.reaction.effects, reset_effects());
}

#[test]
fn startup_resets_a_sink_that_holds_nothing() {
    let plan = startup(false, None);
    assert_eq!(plan.counter, 0);
    assert_eq!(plan.reaction.effects, reset_effects());
    assert_eq!(plan.reaction.on_failure, OnFailure::Abort);
}

#[test]
fn startup_takes_over_a_persisted_score() {
    let plan = startup(false, Some("41"));
    assert_eq!(plan.counter, 41);
    assert!(plan.reaction.effects.is_empty());
    assert_eq!(plan.reaction.on_failure, OnFailure::Abort);
}

#[test]
fn startup_counts_a_malformed_score_as_zero() {
    let plan = startup(false, Some("forty-one"));
    assert_eq!(plan.counter, 0);
    assert!(plan.reaction.effects.is_empty());
    assert_eq!(startup(false, Some("")).counter, 0);
    assert_eq!(startup(false, Some("41\n")).counter, 0);
}

#[test]
fn status_tokens() {
    assert_eq!(StatusLabel::Flashing.as_str(), "flashing");
    assert_eq!(StatusLabel::SuperChargeFlash.as_str(), "super-charge-flash");
    assert_eq!(StatusLabel::for_bonus(false), StatusLabel::Flashing);
    assert_eq!(StatusLabel::for_bonus(true), StatusLabel::SuperChargeFlash);
}
