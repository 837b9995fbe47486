use hot_reload_lib::shared::FixedRng;
use hot_reload_lib::shared::Rng;
use hot_reload_lib::shared::State;
use hot_reload_lib::update::push_sample;
use hot_reload_lib::update::update_state;
use hot_reload_lib::view::view_state;

#[test]
fn first_sample_is_zero() {
    let mut state = State::new(FixedRng { value: 5 });
    update_state(&mut state);
    assert_eq!(state.items, vec![0]);
}

#[test]
fn twelve_updates_keep_the_ten_most_recent() {
    let mut state = State::new(FixedRng { value: 1 });
    for _ in 0..12 {
        update_state(&mut state);
    }
    assert_eq!(state.items, vec![2, 3, 4, 5, 6, 7, 8, 9, 10, 11]);
}

#[test]
fn history_never_exceeds_ten_and_evicts_oldest_first() {
    let mut state = State::new(FixedRng { value: 1 });
    for k in 0..30 {
        update_state(&mut state);
        assert!(state.items.len() <= 10);
        assert!(state.items.len() == std::cmp::min(k + 1, 10));
    }
    assert_eq!(state.items, vec![20, 21, 22, 23, 24, 25, 26, 27, 28, 29]);
}

#[test]
fn push_sample_applies_the_given_offset_exactly() {
    let mut state = State::new(FixedRng { value: 0 });
    push_sample(&mut state, 17);
    assert_eq!(state.items, vec![0]);
    push_sample(&mut state, 17);
    assert_eq!(state.items, vec![0, 17]);
    push_sample(&mut state, -20);
    assert_eq!(state.items, vec![0, 17, -3]);
    state.items = vec![1, 2, 3, 4, 5, 6, 7, 8, 9, 10];
    push_sample(&mut state, 90);
    assert_eq!(state.items, vec![2, 3, 4, 5, 6, 7, 8, 9, 10, 100]);
}

#[test]
fn fixed_rng_clamps_into_range() {
    let mut rng = FixedRng { value: 500 };
    assert_eq!(rng.gen_range(-100, 101), 100);
    let mut rng = FixedRng { value: -500 };
    assert_eq!(rng.gen_range(-100, 101), -100);
    let mut rng = FixedRng { value: 42 };
    assert_eq!(rng.gen_range(-100, 101), 42);
}

#[test]
fn negative_offsets_walk_downward() {
    let mut state = State::new(FixedRng { value: -3 });
    update_state(&mut state);
    update_state(&mut state);
    update_state(&mut state);
    assert_eq!(state.items, vec![0, -3, -6]);
}

#[test]
fn view_line_lists_samples_space_separated() {
    let mut state = State::new(FixedRng { value: 0 });
    state.items = vec![1, -2, 3];
    assert_eq!(view_state(&state), "1 -2 3 \n");
    state.items = vec![];
    assert_eq!(view_state(&state), "\n");
}
