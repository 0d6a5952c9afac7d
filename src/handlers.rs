use vstd::prelude::*;
use vstd::string::*;

use crate::logic::{
    calculate_new_3rm, decimal, decimal_text, generate_single_week_program, is_program_for,
    is_wave, next_3rm_wide, next_three_rm, LiftType,
};
use crate::models::{AmrapReps, History, Lifts, ProgramWeek, User};

verus! {

/// The body of a request that records the 3RMs of one wave.
#[derive(Debug, Clone)]
pub struct UpsertPayload {
    pub wave_key: String,
    pub lifts: Lifts,
}

/// Which week of which wave of which cycle a program is asked for.
#[derive(Debug, Clone, Copy, PartialEq, Eq, Structural)]
pub struct ProgramQuery {
    pub cycle: u32,
    pub wave: u8,
    pub week: u8,
}

/// The AMRAP result of the current wave of a cycle.
#[derive(Debug, Clone, Copy, PartialEq, Eq, Structural)]
pub struct AmrapPayload {
    pub cycle: u32,
    pub wave: u8,
    pub amrap_reps: AmrapReps,
}

/// Why a request cannot be answered.
#[derive(Debug, Clone, Copy, PartialEq, Eq, Structural)]
pub enum ApiError {
    /// The user, or the 3RMs of the wave asked for, are not recorded.
    NotFound,
    /// The wave is not one of 10, 8, 5, 3, or its 3RMs are not recorded.
    BadRequest,
    /// The next cycle number or a new 3RM does not fit its integer type.
    OutOfRange,
}

/// The key of a wave within a cycle, "{cycle}-{wave}s".
pub open spec fn wave_key_text(cycle: nat, wave_reps: nat) -> Seq<char> {
    decimal(cycle) + "-"@ + decimal(wave_reps) + "s"@
}

/// The wave that follows: 10, 8, 5, 3 and again 10.
pub open spec fn following_wave(wave_reps: u8) -> Option<u8> {
    if wave_reps == 10 {
        Some(8u8)
    } else if wave_reps == 8 {
        Some(5u8)
    } else if wave_reps == 5 {
        Some(3u8)
    } else if wave_reps == 3 {
        Some(10u8)
    } else {
        None
    }
}

/// The cycle of the wave that follows: the next one after the 3s wave.
pub open spec fn following_cycle(cycle: int, wave_reps: u8) -> int {
    if wave_reps == 3 {
        cycle + 1
    } else {
        cycle
    }
}

/// The key under which the 3RMs and AMRAP results of a wave are recorded.
pub fn wave_key(cycle: u32, wave_reps: u8) -> (r: String)
    ensures
        r@ == wave_key_text(cycle as nat, wave_reps as nat),
{
    let mut key = decimal_text(cycle);
    key.append("-");
    let wave = decimal_text(wave_reps as u32);
    key.append(wave.as_str());
    key.append("s");
    key
}

/// The wave after `wave_reps`; none for a rep count that names no wave.
pub fn next_wave(wave_reps: u8) -> (r: Option<u8>)
    ensures
        r == following_wave(wave_reps),
        r.is_some() <==> is_wave(wave_reps),
{
    match wave_reps {
        10 => Some(8),
        8 => Some(5),
        5 => Some(3),
        3 => Some(10),
        _ => None,
    }
}

/// The cycle of the wave after `wave_reps`; none where it exceeds `u32`.
pub fn next_cycle(cycle: u32, wave_reps: u8) -> (r: Option<u32>)
    ensures
        following_cycle(cycle as int, wave_reps) <= u32::MAX ==> r == Some(
            following_cycle(cycle as int, wave_reps) as u32,
        ),
        following_cycle(cycle as int, wave_reps) > u32::MAX ==> r.is_none(),
{
    if wave_reps == 3 {
        cycle.checked_add(1)
    } else {
        Some(cycle)
    }
}

/// A user with nothing recorded yet.
pub fn new_user(name: String) -> (r: User)
    ensures
        r.wf(),
        r.name@ == name@,
        r.lift_history@ == Map::<Seq<char>, Lifts>::empty(),
        r.amrap_history@ == Map::<Seq<char>, AmrapReps>::empty(),
{
    User { name, lift_history: History::new(), amrap_history: History::new() }
}

/// Records the 3RMs of a wave for a user, creating the user named
/// `username` where none is stored yet.
pub fn upsert_lifts(existing: Option<User>, username: String, payload: UpsertPayload) -> (r: User)
    requires
        existing.is_some() ==> existing.unwrap().wf(),
    ensures
        r.wf(),
        match existing {
            Some(u) => {
                &&& r.name@ == u.name@
                &&& r.lift_history@ == u.lift_history@.insert(payload.wave_key@, payload.lifts)
                &&& r.amrap_history@ == u.amrap_history@
            },
            None => {
                &&& r.name@ == username@
                &&& r.lift_history@ == Map::<Seq<char>, Lifts>::empty().insert(
                    payload.wave_key@,
                    payload.lifts,
                )
                &&& r.amrap_history@ == Map::<Seq<char>, AmrapReps>::empty()
            },
        },
{
    let mut user = match existing {
        Some(u) => u,
        None => new_user(username),
    };
    user.lift_history.insert(payload.wave_key, payload.lifts);
    user
}

/// The program of the week that `query` names, built from the 3RMs recorded
/// for its wave; `NotFound` where none are.
pub fn program_for(user: &User, query: &ProgramQuery) -> (r: Result<ProgramWeek, ApiError>)
    requires
        user.wf(),
    ensures
        ({
            let key = wave_key_text(query.cycle as nat, query.wave as nat);
            match r {
                Ok(p) => user.lift_history@.contains_key(key) && is_program_for(
                    p,
                    user.lift_history@[key],
                    query.wave,
                    query.week,
                ),
                Err(e) => !user.lift_history@.contains_key(key) && e == ApiError::NotFound,
            }
        }),
{
    let key = wave_key(query.cycle, query.wave);
    match user.lift_history.get(&key) {
        Some(lifts) => Ok(generate_single_week_program(&lifts, query.wave, query.week)),
        None => Err(ApiError::NotFound),
    }
}

/// The 3RMs of the next wave from those of this one, with `target_reps` the
/// wave's rep count; the press lifts are upper body, squat and deadlift
/// lower body.
pub open spec fn progressed(lifts: Lifts, target_reps: u8, reps: AmrapReps) -> (int, int, int, int) {
    (
        next_three_rm(lifts.bench_press as int, LiftType::UpperBody, target_reps as int, reps.bench_press as int),
        next_three_rm(lifts.squat as int, LiftType::LowerBody, target_reps as int, reps.squat as int),
        next_three_rm(lifts.deadlift as int, LiftType::LowerBody, target_reps as int, reps.deadlift as int),
        next_three_rm(lifts.overhead_press as int, LiftType::UpperBody, target_reps as int, reps.overhead_press as int),
    )
}

/// Each of the four progressed 3RMs fits a `u32`.
pub open spec fn progressed_fits(lifts: Lifts, target_reps: u8, reps: AmrapReps) -> bool {
    let p = progressed(lifts, target_reps, reps);
    p.0 <= u32::MAX && p.1 <= u32::MAX && p.2 <= u32::MAX && p.3 <= u32::MAX
}

/// The progressed 3RMs as a `Lifts`.
pub open spec fn progressed_lifts(lifts: Lifts, target_reps: u8, reps: AmrapReps) -> Lifts {
    let p = progressed(lifts, target_reps, reps);
    Lifts { bench_press: p.0 as u32, squat: p.1 as u32, deadlift: p.2 as u32, overhead_press: p.3 as u32 }
}

/// One lift's next 3RM, where it fits a `u32`.
fn checked_new_3rm(current_3rm: u32, lift_type: LiftType, target_reps: u8, actual_reps: u8) -> (r:
    Option<u32>)
    ensures
        ({
            let n = next_three_rm(current_3rm as int, lift_type, target_reps as int, actual_reps as int);
            &&& n <= u32::MAX ==> r == Some(n as u32)
            &&& n > u32::MAX ==> r.is_none()
        }),
{
    let n = next_3rm_wide(current_3rm, lift_type, target_reps, actual_reps);
    if n <= u32::MAX as u64 {
        Some(n as u32)
    } else {
        None
    }
}

/// The 3RMs of the next wave, where all four fit a `u32`.
pub fn next_lifts(lifts: &Lifts, target_reps: u8, reps: &AmrapReps) -> (r: Option<Lifts>)
    ensures
        progressed_fits(*lifts, target_reps, *reps) ==> r == Some(
            progressed_lifts(*lifts, target_reps, *reps),
        ),
        !progressed_fits(*lifts, target_reps, *reps) ==> r.is_none(),
{
    let bench_press = checked_new_3rm(lifts.bench_press, LiftType::UpperBody, target_reps, reps.bench_press);
    let squat = checked_new_3rm(lifts.squat, LiftType::LowerBody, target_reps, reps.squat);
    let deadlift = checked_new_3rm(lifts.deadlift, LiftType::LowerBody, target_reps, reps.deadlift);
    let overhead_press = checked_new_3rm(lifts.overhead_press, LiftType::UpperBody, target_reps, reps.overhead_press);
    match (bench_press, squat, deadlift, overhead_press) {
        (Some(bench_press), Some(squat), Some(deadlift), Some(overhead_press)) => Some(
            Lifts { bench_press, squat, deadlift, overhead_press },
        ),
        _ => None,
    }
}

/// The user after an AMRAP session: the progressed 3RMs recorded under the
/// next wave's key, the AMRAP reps under the current one. The current
/// wave's 3RMs must be recorded and the wave must be one of 10, 8, 5, 3
/// (else `BadRequest`); the next cycle number and the new 3RMs must fit
/// their types (else `OutOfRange`).
pub fn apply_amrap(user: User, payload: &AmrapPayload) -> (r: Result<User, ApiError>)
    requires
        user.wf(),
    ensures
        ({
            let key = wave_key_text(payload.cycle as nat, payload.wave as nat);
            let cycle = following_cycle(payload.cycle as int, payload.wave);
            if !user.lift_history@.contains_key(key) || !is_wave(payload.wave) {
                r == Err::<User, ApiError>(ApiError::BadRequest)
            } else if cycle > u32::MAX || !progressed_fits(
                user.lift_history@[key],
                payload.wave,
                payload.amrap_reps,
            ) {
                r == Err::<User, ApiError>(ApiError::OutOfRange)
            } else {
                &&& r is Ok
                &&& r->Ok_0.wf()
                &&& r->Ok_0.name@ == user.name@
                &&& r->Ok_0.lift_history@ == user.lift_history@.insert(
                    wave_key_text(cycle as nat, following_wave(payload.wave)->Some_0 as nat),
                    progressed_lifts(user.lift_history@[key], payload.wave, payload.amrap_reps),
                )
                &&& r->Ok_0.amrap_history@ == user.amrap_history@.insert(key, payload.amrap_reps)
            }
        }),
{
    let mut user = user;
    let current_wave_key = wave_key(payload.cycle, payload.wave);
    let current_lifts = match user.lift_history.get(&current_wave_key) {
        Some(lifts) => lifts,
        None => return Err(ApiError::BadRequest),
    };
    let next_wave_reps = match next_wave(payload.wave) {
        Some(w) => w,
        None => return Err(ApiError::BadRequest),
    };
    let next_cycle = match next_cycle(payload.cycle, payload.wave) {
        Some(c) => c,
        None => return Err(ApiError::OutOfRange),
    };
    let new_lifts = match next_lifts(&current_lifts, payload.wave, &payload.amrap_reps) {
        Some(l) => l,
        None => return Err(ApiError::OutOfRange),
    };
    let next_wave_key = wave_key(next_cycle, next_wave_reps);
    user.lift_history.insert(next_wave_key, new_lifts);
    user.amrap_history.insert(current_wave_key, payload.amrap_reps);
    Ok(user)
}

/// Four steps from any wave lead back to it, and the cycle grows by exactly
/// one over such a lap.
pub proof fn lemma_full_lap(cycle: int, wave_reps: u8)
    requires
        is_wave(wave_reps),
    ensures
        ({
            let w1 = following_wave(wave_reps)->Some_0;
            let w2 = following_wave(w1)->Some_0;
            let w3 = following_wave(w2)->Some_0;
            let c1 = following_cycle(cycle, wave_reps);
            let c2 = following_cycle(c1, w1);
            let c3 = following_cycle(c2, w2);
            &&& following_wave(w3) == Some(wave_reps)
            &&& following_cycle(c3, w3) == cycle + 1
        }),
{
}

} // verus!
