use hermes::carrier::query::{UpdateEvent, UpdateState};
use hermes::clock::Timestamp;

fn at(secs: i64) -> Timestamp {
    Timestamp::new(secs, 0)
}

fn updating(started: i64, back_to_back: Option<i64>) -> UpdateState {
    UpdateState::Updating { time_started: at(started), back_to_back: back_to_back.map(at) }
}

fn after_start(mut state: UpdateState, t: i64) -> UpdateState {
    state.set_updating(at(t));
    state
}

fn after_invalidate(mut state: UpdateState, t: i64) -> UpdateState {
    state.set_should_update(at(t));
    state
}

fn after_done(mut state: UpdateState, d: i64) -> UpdateState {
    state.check_and_set_done(at(d));
    state
}

#[test]
fn start_from_up_to_date_or_should_update() {
    assert_eq!(updating(5, None), after_start(UpdateState::UpToDate, 5));
    assert_eq!(updating(5, None), after_start(UpdateState::ShouldUpdate, 5));
}

#[test]
fn start_while_updating_keeps_the_later_start() {
    assert_eq!(updating(7, None), after_start(updating(5, None), 7));
    assert_eq!(updating(5, None), after_start(updating(5, None), 3));
    assert_eq!(updating(5, None), after_start(updating(5, None), 5));
}

#[test]
fn start_while_a_change_waits() {
    assert_eq!(updating(8, None), after_start(updating(5, Some(8)), 6));
    assert_eq!(updating(9, None), after_start(updating(5, Some(8)), 9));
    assert_eq!(updating(8, None), after_start(updating(5, Some(8)), 8));
}

#[test]
fn invalidate_while_updating() {
    assert_eq!(updating(5, None), after_invalidate(updating(5, None), 4));
    assert_eq!(updating(5, Some(5)), after_invalidate(updating(5, None), 5));
    assert_eq!(updating(5, Some(6)), after_invalidate(updating(5, None), 6));
}

#[test]
fn invalidate_while_a_change_waits() {
    assert_eq!(updating(5, Some(8)), after_invalidate(updating(5, Some(8)), 4));
    assert_eq!(updating(5, Some(8)), after_invalidate(updating(5, Some(8)), 6));
    assert_eq!(updating(5, Some(9)), after_invalidate(updating(5, Some(8)), 9));
    assert_eq!(updating(5, Some(8)), after_invalidate(updating(5, Some(8)), 8));
}

#[test]
fn invalidate_without_refresh_in_flight() {
    assert_eq!(UpdateState::ShouldUpdate, after_invalidate(UpdateState::UpToDate, 1));
    assert_eq!(UpdateState::ShouldUpdate, after_invalidate(UpdateState::ShouldUpdate, 1));
}

#[test]
fn done_while_updating() {
    assert_eq!(updating(5, None), after_done(updating(5, None), 4));
    assert_eq!(UpdateState::UpToDate, after_done(updating(5, None), 5));
    assert_eq!(UpdateState::UpToDate, after_done(updating(5, None), 6));
}

#[test]
fn done_while_a_change_waits() {
    assert_eq!(updating(5, Some(8)), after_done(updating(5, Some(8)), 4));
    assert_eq!(UpdateState::ShouldUpdate, after_done(updating(5, Some(8)), 5));
    assert_eq!(UpdateState::ShouldUpdate, after_done(updating(5, Some(8)), 8));
    assert_eq!(UpdateState::ShouldUpdate, after_done(updating(5, Some(8)), 9));
}

#[test]
fn done_without_refresh_in_flight_changes_nothing() {
    assert_eq!(UpdateState::UpToDate, after_done(UpdateState::UpToDate, 5));
    assert_eq!(UpdateState::ShouldUpdate, after_done(UpdateState::ShouldUpdate, 5));
}

#[test]
fn nanoseconds_decide_between_equal_seconds() {
    let mut state = UpdateState::Updating {
        time_started: Timestamp::new(5, 100),
        back_to_back: None,
    };
    state.check_and_set_done(Timestamp::new(5, 99));
    assert_eq!(
        UpdateState::Updating { time_started: Timestamp::new(5, 100), back_to_back: None },
        state
    );
    state.set_should_update(Timestamp::new(5, 99));
    assert_eq!(
        UpdateState::Updating { time_started: Timestamp::new(5, 100), back_to_back: None },
        state
    );
    state.set_should_update(Timestamp::new(5, 101));
    assert_eq!(
        UpdateState::Updating {
            time_started: Timestamp::new(5, 100),
            back_to_back: Some(Timestamp::new(5, 101)),
        },
        state
    );
    state.check_and_set_done(Timestamp::new(5, 100));
    assert_eq!(UpdateState::ShouldUpdate, state);
}

#[test]
fn stale_done_leaves_state_unchanged() {
    for state in [updating(10, None), updating(10, Some(10)), updating(10, Some(12))] {
        for d in [-3, 0, 9] {
            assert_eq!(state, after_done(state, d));
        }
    }
}

#[test]
fn change_during_refresh_ends_in_should_update() {
    for before in [updating(10, None), updating(10, Some(11)), updating(10, Some(15))] {
        for t in [10, 11, 14, 20] {
            let state = after_done(after_invalidate(before, t), 10);
            assert_eq!(UpdateState::ShouldUpdate, state);
        }
    }
}

#[test]
fn back_to_back_writes_ask_for_one_more_refresh() {
    // The view refreshes since s = 100; a write lands at s + 1; the
    // refresh ends at s + 2; the next look starts a refresh, which ends.
    let mut state = UpdateState::UpToDate;
    state.apply(UpdateEvent::Start(at(100)));
    assert_eq!(updating(100, None), state);
    state.apply(UpdateEvent::Invalidate(at(101)));
    assert_eq!(updating(100, Some(101)), state);
    state.apply(UpdateEvent::Done(at(100)));
    assert_eq!(UpdateState::ShouldUpdate, state);
    state.apply(UpdateEvent::Start(at(103)));
    assert_eq!(updating(103, None), state);
    state.apply(UpdateEvent::Done(at(103)));
    assert_eq!(UpdateState::UpToDate, state);
}

#[test]
fn display_names_the_variant() {
    assert_eq!("ShouldUpdate", UpdateState::ShouldUpdate.display());
    assert_eq!("Updating", updating(1, None).display());
    assert_eq!("Updating", updating(1, Some(2)).display());
    assert_eq!("UpToDate", UpdateState::UpToDate.display());
}
