use juggernaut_calculator::handlers::{
    apply_amrap, new_user, next_cycle, next_lifts, next_wave, program_for, upsert_lifts, wave_key,
    AmrapPayload, ApiError, ProgramQuery, UpsertPayload,
};
use juggernaut_calculator::models::{AmrapReps, History, Lifts};

fn lifts_100() -> Lifts {
    Lifts { bench_press: 10_000, squat: 14_000, deadlift: 18_000, overhead_press: 6_000 }
}

fn user_with(key: &str, lifts: Lifts) -> juggernaut_calculator::models::User {
    upsert_lifts(
        None,
        "kim".to_string(),
        UpsertPayload { wave_key: key.to_string(), lifts },
    )
}

#[test]
fn wave_keys_are_cycle_dash_reps_s() {
    assert_eq!(wave_key(1, 10), "1-10s");
    assert_eq!(wave_key(2, 10), "2-10s");
    assert_eq!(wave_key(0, 3), "0-3s");
    assert_eq!(wave_key(4_294_967_295, 255), "4294967295-255s");
}

#[test]
fn waves_follow_ten_eight_five_three() {
    assert_eq!(next_wave(10), Some(8));
    assert_eq!(next_wave(8), Some(5));
    assert_eq!(next_wave(5), Some(3));
    assert_eq!(next_wave(3), Some(10));
    assert_eq!(next_wave(7), None);
    assert_eq!(next_cycle(1, 3), Some(2));
    assert_eq!(next_cycle(1, 10), Some(1));
    assert_eq!(next_cycle(u32::MAX, 3), None);
    assert_eq!(next_cycle(u32::MAX, 5), Some(u32::MAX));
}

#[test]
fn upsert_creates_then_overwrites() {
    let user = user_with("1-10s", lifts_100());
    assert_eq!(user.name, "kim");
    assert_eq!(user.lift_history.get(&"1-10s".to_string()), Some(lifts_100()));
    assert_eq!(user.lift_history.entries().len(), 1);
    assert!(user.amrap_history.entries().is_empty());

    let heavier = Lifts { bench_press: 10_250, ..lifts_100() };
    let user = upsert_lifts(
        Some(user),
        "other".to_string(),
        UpsertPayload { wave_key: "1-10s".to_string(), lifts: heavier },
    );
    assert_eq!(user.name, "kim");
    assert_eq!(user.lift_history.entries().len(), 1);
    assert_eq!(user.lift_history.get(&"1-10s".to_string()), Some(heavier));

    let user = upsert_lifts(
        Some(user),
        "kim".to_string(),
        UpsertPayload { wave_key: "1-8s".to_string(), lifts: lifts_100() },
    );
    assert_eq!(user.lift_history.entries().len(), 2);
    assert_eq!(user.lift_history.get(&"1-8s".to_string()), Some(lifts_100()));
    assert_eq!(user.lift_history.get(&"1-5s".to_string()), None);
}

#[test]
fn program_uses_the_wave_keys_lifts() {
    let user = user_with("1-10s", lifts_100());
    let program = program_for(&user, &ProgramQuery { cycle: 1, wave: 10, week: 1 }).unwrap();
    assert_eq!(program.wave_type, "10s Wave");
    assert_eq!(program.days[0].sets[0].weight, 5_500);
    assert_eq!(
        program_for(&user, &ProgramQuery { cycle: 2, wave: 10, week: 1 }).unwrap_err(),
        ApiError::NotFound
    );
}

#[test]
fn amrap_after_threes_moves_to_next_cycle() {
    let user = user_with("1-3s", lifts_100());
    let reps = AmrapReps { bench_press: 5, squat: 5, deadlift: 3, overhead_press: 2 };
    let user = apply_amrap(user, &AmrapPayload { cycle: 1, wave: 3, amrap_reps: reps }).unwrap();
    let next = user.lift_history.get(&"2-10s".to_string()).unwrap();
    // bench: 2 over -> +1 kg WM -> 101.11; squat: 2 over -> +2.5 kg WM -> 142.78
    assert_eq!(next.bench_press, 10_111);
    assert_eq!(next.squat, 14_278);
    assert_eq!(next.deadlift, 18_000);
    assert_eq!(next.overhead_press, 6_000);
    assert_eq!(user.amrap_history.get(&"1-3s".to_string()), Some(reps));
    assert_eq!(user.lift_history.get(&"1-3s".to_string()), Some(lifts_100()));
}

#[test]
fn amrap_within_a_cycle_keeps_the_cycle() {
    let user = user_with("3-10s", lifts_100());
    let reps = AmrapReps { bench_press: 12, squat: 10, deadlift: 10, overhead_press: 10 };
    let user = apply_amrap(user, &AmrapPayload { cycle: 3, wave: 10, amrap_reps: reps }).unwrap();
    let next = user.lift_history.get(&"3-8s".to_string()).unwrap();
    assert_eq!(next.bench_press, 10_111);
    assert_eq!(next.squat, 14_000);
}

#[test]
fn amrap_errors() {
    let reps = AmrapReps { bench_press: 1, squat: 1, deadlift: 1, overhead_press: 1 };
    // no 3RMs recorded for the wave
    let user = user_with("1-10s", lifts_100());
    assert_eq!(
        apply_amrap(user, &AmrapPayload { cycle: 1, wave: 8, amrap_reps: reps }).unwrap_err(),
        ApiError::BadRequest
    );
    // a rep count that names no wave
    let user = user_with("1-7s", lifts_100());
    assert_eq!(
        apply_amrap(user, &AmrapPayload { cycle: 1, wave: 7, amrap_reps: reps }).unwrap_err(),
        ApiError::BadRequest
    );
    // the cycle after the last one
    let user = user_with("4294967295-3s", lifts_100());
    assert_eq!(
        apply_amrap(user, &AmrapPayload { cycle: u32::MAX, wave: 3, amrap_reps: reps })
            .unwrap_err(),
        ApiError::OutOfRange
    );
    // a 3RM that outgrows its type
    let top = Lifts { bench_press: u32::MAX, ..lifts_100() };
    let user = user_with("1-5s", top);
    let many = AmrapReps { bench_press: 9, ..reps };
    assert_eq!(
        apply_amrap(user, &AmrapPayload { cycle: 1, wave: 5, amrap_reps: many }).unwrap_err(),
        ApiError::OutOfRange
    );
}

#[test]
fn next_lifts_by_category() {
    let reps = AmrapReps { bench_press: 7, squat: 7, deadlift: 5, overhead_press: 5 };
    let next = next_lifts(&lifts_100(), 5, &reps).unwrap();
    // 2 over: upper +1/0.9 kg, lower +2.5/0.9 kg
    assert_eq!(next.bench_press, 10_111);
    assert_eq!(next.squat, 14_278);
    assert_eq!(next.deadlift, 18_000);
    assert_eq!(next.overhead_press, 6_000);
}

#[test]
fn history_starts_empty() {
    let h: History<Lifts> = History::new();
    assert!(h.entries().is_empty());
    assert_eq!(h.get(&"1-10s".to_string()), None);
    let u = new_user("lee".to_string());
    assert_eq!(u.name, "lee");
    assert!(u.lift_history.entries().is_empty());
}
