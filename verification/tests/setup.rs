use key_counter::mode::{draw_threshold, parse_mode, select_mode, GameMode, ModeChoice};
use key_counter::state::{AppState, COMBO_MIN_SCORE, COMBO_PRESSES};
use key_counter::text::{chars_of, same_text, text_contains};

#[test]
fn selectors_name_their_modes() {
    assert_eq!(parse_mode("--test"), Some(GameMode::Test));
    assert_eq!(parse_mode("--normal"), Some(GameMode::Normal));
    assert_eq!(parse_mode("--hard"), Some(GameMode::Hard));
    assert_eq!(parse_mode("--Hard"), None);
    assert_eq!(parse_mode("--hard "), None);
    assert_eq!(parse_mode("hard"), None);
    assert_eq!(parse_mode("--tes"), None);
    assert_eq!(parse_mode(""), None);
}

#[test]
fn mode_falls_back_to_normal() {
    assert_eq!(select_mode(None), ModeChoice { mode: GameMode::Normal, unrecognized: false });
    assert_eq!(
        select_mode(Some("--easy")),
        ModeChoice { mode: GameMode::Normal, unrecognized: true }
    );
    assert_eq!(select_mode(Some("")), ModeChoice { mode: GameMode::Normal, unrecognized: true });
    assert_eq!(
        select_mode(Some("--test")),
        ModeChoice { mode: GameMode::Test, unrecognized: false }
    );
    assert_eq!(
        select_mode(Some("--normal")),
        ModeChoice { mode: GameMode::Normal, unrecognized: false }
    );
    assert_eq!(
        select_mode(Some("--hard")),
        ModeChoice { mode: GameMode::Hard, unrecognized: false }
    );
}

#[test]
fn mode_ranges() {
    assert_eq!(GameMode::Test.upper_bound(), 1);
    assert_eq!(GameMode::Normal.upper_bound(), 100);
    assert_eq!(GameMode::Hard.upper_bound(), 1000);
    assert!(GameMode::Test.allows(1));
    assert!(!GameMode::Test.allows(0));
    assert!(!GameMode::Test.allows(2));
    assert!(GameMode::Normal.allows(1));
    assert!(GameMode::Normal.allows(100));
    assert!(!GameMode::Normal.allows(101));
    assert!(!GameMode::Normal.allows(0));
    assert!(GameMode::Hard.allows(1000));
    assert!(!GameMode::Hard.allows(1001));
}

#[test]
fn drawn_thresholds_lie_in_the_mode_range() {
    let mut draws: u32 = 0;
    let mut normal_low: u32 = u32::MAX;
    let mut normal_high: u32 = 0;
    let mut hard_high: u32 = 0;
    while draws < 2000 {
        assert_eq!(draw_threshold(GameMode::Test), 1);
        let normal: u32 = draw_threshold(GameMode::Normal);
        assert!(1 <= normal && normal <= 100);
        normal_low = normal_low.min(normal);
        normal_high = normal_high.max(normal);
        let hard: u32 = draw_threshold(GameMode::Hard);
        assert!(1 <= hard && hard <= 1000);
        hard_high = hard_high.max(hard);
        draws += 1;
    }
    assert!(normal_low <= 10);
    assert!(normal_high >= 90);
    assert!(hard_high > 100);
}

#[test]
fn fresh_state() {
    let s = AppState::start(GameMode::Normal, 12);
    assert_eq!(s.counter, 12);
    assert_eq!(s.backslash_count, 0);
    assert!(!s.bonus_active);
    assert_eq!(s.keystroke_buffer, 0);
    assert!(1 <= s.target_keystrokes && s.target_keystrokes <= 100);
    assert_eq!(s.mode, GameMode::Normal);
    assert!(s.is_valid());
    let t = AppState::start(GameMode::Test, 0);
    assert_eq!(t.target_keystrokes, 1);
}

#[test]
fn state_with_a_chosen_target() {
    let s = AppState::with_target(GameMode::Hard, 3, 1000).expect("1000 is within 1..=1000");
    assert_eq!(
        s,
        AppState {
            counter: 3,
            backslash_count: 0,
            bonus_active: false,
            keystroke_buffer: 0,
            target_keystrokes: 1000,
            mode: GameMode::Hard,
        }
    );
    assert_eq!(AppState::with_target(GameMode::Hard, 3, 1001), None);
    assert_eq!(AppState::with_target(GameMode::Normal, 3, 0), None);
    assert_eq!(AppState::with_target(GameMode::Test, 3, 2), None);
}

#[test]
fn only_well_formed_states_are_accepted() {
    let good = AppState {
        counter: 50,
        backslash_count: 2,
        bonus_active: false,
        keystroke_buffer: 99,
        target_keystrokes: 100,
        mode: GameMode::Normal,
    };
    assert_eq!(good.checked(), Some(good));
    assert!(good.is_valid());
    assert_eq!(AppState { backslash_count: 3, ..good }.checked(), None);
    assert_eq!(AppState { keystroke_buffer: 100, ..good }.checked(), None);
    assert_eq!(AppState { target_keystrokes: 101, keystroke_buffer: 0, ..good }.checked(), None);
    assert_eq!(AppState { target_keystrokes: 0, keystroke_buffer: 0, ..good }.checked(), None);
    assert_eq!(AppState { bonus_active: true, ..good }.checked(), None);
    let bonus = AppState { bonus_active: true, backslash_count: 0, ..good };
    assert_eq!(bonus.checked(), Some(bonus));
    assert_eq!(COMBO_MIN_SCORE, 50);
    assert_eq!(COMBO_PRESSES, 3);
}

#[test]
fn text_comparison() {
    assert!(same_text("", ""));
    assert!(same_text("--test", "--test"));
    assert!(!same_text("--test", "--tesT"));
    assert!(!same_text("--test", "--test "));
    assert!(!same_text("abc", "abd"));
    assert!(same_text("né", "né"));
    assert!(!same_text("ne", "né"));
    assert_eq!(chars_of("aé✓"), vec!['a', 'é', '✓']);
    assert_eq!(chars_of(""), Vec::<char>::new());
}

#[test]
fn text_search_agrees_with_the_standard_library() {
    let hays: [&str; 6] = ["", "a", "abcabd", "GMMK Pro Keyboard", "aaa", "né✓é"];
    let needles: [&str; 10] = ["", "a", "b", "abd", "abcabdx", "Pro", "pro", "aa", "é", "✓é"];
    let mut h: usize = 0;
    while h < hays.len() {
        let mut n: usize = 0;
        while n < needles.len() {
            assert_eq!(text_contains(hays[h], needles[n]), hays[h].contains(needles[n]));
            n += 1;
        }
        h += 1;
    }
}
