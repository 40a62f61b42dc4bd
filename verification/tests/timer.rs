use key_counter::audio::AudioCommand;
use key_counter::effect::{Effect, OnFailure, StatusLabel};
use key_counter::mode::GameMode;
use key_counter::state::AppState;
use key_counter::timer::timer_tick;

fn bonus_state(counter: u32) -> AppState {
    AppState {
        counter,
        backslash_count: 0,
        bonus_active: true,
        keystroke_buffer: 3,
        target_keystrokes: 10,
        mode: GameMode::Normal,
    }
    .checked()
    .expect("a well-formed state")
}

#[test]
fn countdown_from_two() {
    let mut s = bonus_state(2);
    let first = timer_tick(&mut s);
    assert_eq!(s.counter, 1);
    assert!(s.bonus_active);
    assert!(!first.finished);
    assert_eq!(first.reaction.effects, vec![Effect::PersistCounter(1)]);
    assert_eq!(first.reaction.on_failure, OnFailure::Continue);
    let second = timer_tick(&mut s);
    assert_eq!(s.counter, 0);
    assert!(s.bonus_active);
    assert!(!second.finished);
    assert_eq!(second.reaction.effects, vec![Effect::PersistCounter(0)]);
    let last = timer_tick(&mut s);
    assert!(last.finished);
    assert_eq!(s.counter, 0);
    assert!(!s.bonus_active);
    assert_eq!(
        last.reaction.effects,
        vec![Effect::PersistStatus(StatusLabel::Flashing), Effect::Enqueue(AudioCommand::Stop)]
    );
    assert_eq!(last.reaction.on_failure, OnFailure::Continue);
    assert_eq!(s.status(), StatusLabel::Flashing);
    assert_eq!(s.status().as_str(), "flashing");
}

#[test]
fn tick_at_zero_finishes_at_once() {
    let mut s = bonus_state(0);
    let tick = timer_tick(&mut s);
    assert!(tick.finished);
    assert_eq!(s.counter, 0);
    assert!(!s.bonus_active);
    assert_eq!(tick.reaction.effects.len(), 2);
}

#[test]
fn whole_countdown_stops_audio_exactly_once() {
    let mut s = bonus_state(60);
    let mut ticks: u32 = 0;
    let mut stops: u32 = 0;
    let mut persisted: Vec<u32> = Vec::new();
    loop {
        let before = s;
        let tick = timer_tick(&mut s);
        ticks += 1;
        let mut i: usize = 0;
        while i < tick.reaction.effects.len() {
            match &tick.reaction.effects[i] {
                Effect::Enqueue(AudioCommand::Stop) => stops += 1,
                Effect::Enqueue(_) => panic!("the timer only ever stops playback"),
                Effect::PersistCounter(value) => persisted.push(*value),
                _ => {}
            }
            i += 1;
        }
        if tick.finished {
            break;
        }
        assert_eq!(s.counter + 1, before.counter);
        assert_eq!(s.keystroke_buffer, before.keystroke_buffer);
        assert_eq!(s.target_keystrokes, before.target_keystrokes);
        assert!(s.bonus_active);
    }
    assert_eq!(ticks, 61);
    assert_eq!(stops, 1);
    assert_eq!(persisted.len(), 60);
    assert_eq!(persisted[0], 59);
    assert_eq!(persisted[59], 0);
    assert_eq!(s.counter, 0);
    assert!(!s.bonus_active);
    assert!(s.is_valid());
}
