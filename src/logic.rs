use vstd::prelude::*;
use vstd::string::*;

use crate::models::{Lifts, ProgramDay, ProgramWeek, TrainingSet};

verus! {

/// Whether a lift trains the upper or the lower body; the two progress at
/// different rates.
#[derive(Debug, Clone, Copy, PartialEq, Eq, Structural)]
pub enum LiftType {
    UpperBody,
    LowerBody,
}

/// The character of a decimal digit.
pub open spec fn digit_char(d: nat) -> char {
    if d == 0 {
        '0'
    } else if d == 1 {
        '1'
    } else if d == 2 {
        '2'
    } else if d == 3 {
        '3'
    } else if d == 4 {
        '4'
    } else if d == 5 {
        '5'
    } else if d == 6 {
        '6'
    } else if d == 7 {
        '7'
    } else if d == 8 {
        '8'
    } else {
        '9'
    }
}

/// The decimal notation of `n`: no sign, no leading zeros.
pub open spec fn decimal(n: nat) -> Seq<char>
    decreases n,
{
    if n < 10 {
        seq![digit_char(n)]
    } else {
        decimal(n / 10).push(digit_char(n % 10))
    }
}

/// Relies on `ToString::to_string` through `u32`'s `Display`, which writes
/// the number in decimal without sign, padding or separators.
#[verifier::external_body]
pub(crate) fn decimal_text(n: u32) -> (r: String)
    ensures
        r@ == decimal(n as nat),
{
    n.to_string()
}

/// The (percentage of the working max, target reps) pair of each set that
/// a week prescribes. A reps value of -1 is an AMRAP set. Weeks 1 to 3 depend
/// on the wave; the deload week does not; any other pair prescribes nothing.
pub open spec fn set_scheme(week_in_wave: u8, wave_reps: u8) -> Seq<(u8, i8)> {
    if week_in_wave == 1 && wave_reps == 10 {
        Seq::new(5, |_i: int| (60u8, 10i8))
    } else if week_in_wave == 1 && wave_reps == 8 {
        Seq::new(5, |_i: int| (65u8, 8i8))
    } else if week_in_wave == 1 && wave_reps == 5 {
        Seq::new(5, |_i: int| (70u8, 5i8))
    } else if week_in_wave == 1 && wave_reps == 3 {
        Seq::new(5, |_i: int| (75u8, 3i8))
    } else if week_in_wave == 2 && wave_reps == 10 {
        seq![(50u8, 5i8), (60u8, 5i8), (70u8, 10i8)]
    } else if week_in_wave == 2 && wave_reps == 8 {
        seq![(55u8, 5i8), (65u8, 5i8), (75u8, 8i8)]
    } else if week_in_wave == 2 && wave_reps == 5 {
        seq![(60u8, 5i8), (70u8, 3i8), (80u8, 5i8)]
    } else if week_in_wave == 2 && wave_reps == 3 {
        seq![(65u8, 3i8), (75u8, 3i8), (85u8, 3i8)]
    } else if week_in_wave == 3 && wave_reps == 10 {
        seq![(50u8, 5i8), (60u8, 3i8), (70u8, 1i8), (75u8, -1i8)]
    } else if week_in_wave == 3 && wave_reps == 8 {
        seq![(55u8, 5i8), (65u8, 3i8), (75u8, 1i8), (80u8, -1i8)]
    } else if week_in_wave == 3 && wave_reps == 5 {
        seq![(60u8, 3i8), (70u8, 2i8), (80u8, 1i8), (85u8, -1i8)]
    } else if week_in_wave == 3 && wave_reps == 3 {
        seq![(65u8, 3i8), (75u8, 1i8), (85u8, 1i8), (90u8, -1i8)]
    } else if week_in_wave == 4 {
        seq![(40u8, 5i8), (50u8, 5i8), (60u8, 5i8)]
    } else {
        Seq::empty()
    }
}

/// The rep counts that name a wave.
pub open spec fn is_wave(wave_reps: u8) -> bool {
    wave_reps == 10 || wave_reps == 8 || wave_reps == 5 || wave_reps == 3
}

/// The working max, 90% of the 3RM, in thousandths of the weight unit when
/// the 3RM is in hundredths.
pub open spec fn working_max(three_rm: int) -> int {
    9 * three_rm
}

/// A weight in hundred-thousandths of the unit, rounded to the nearest
/// multiple of 2.5 (halves away from zero), in hundredths.
pub open spec fn nearest_2_5(weight: int) -> int {
    ((2 * weight + 250_000) / 500_000) * 250
}

/// The weight of a set at `percent` of the working max `wm` (thousandths),
/// in hundredths.
pub open spec fn set_weight(wm: int, percent: int) -> int {
    nearest_2_5(wm * percent)
}

/// The set at the (percentage, reps) pair `p` of the working max `wm`.
pub open spec fn set_at(wm: int, p: (u8, i8)) -> TrainingSet {
    TrainingSet { weight: set_weight(wm, p.0 as int) as u32, reps: p.1, percentage: p.0 }
}

/// The sets that a lift with 3RM `three_rm` gets in the given week.
pub open spec fn day_sets(week_in_wave: u8, wave_reps: u8, three_rm: u32) -> Seq<TrainingSet> {
    set_scheme(week_in_wave, wave_reps).map_values(|p: (u8, i8)| set_at(working_max(three_rm as int), p))
}

/// The name of the lift of day `i` of a week.
pub open spec fn lift_name(i: int) -> Seq<char> {
    if i == 0 {
        "Bench Press"@
    } else if i == 1 {
        "Squat"@
    } else if i == 2 {
        "Deadlift"@
    } else {
        "Overhead Press"@
    }
}

/// The 3RM of the lift of day `i` of a week.
pub open spec fn lift_three_rm(lifts: Lifts, i: int) -> u32 {
    if i == 0 {
        lifts.bench_press
    } else if i == 1 {
        lifts.squat
    } else if i == 2 {
        lifts.deadlift
    } else {
        lifts.overhead_press
    }
}

/// The label of a wave, such as "10s Wave".
pub open spec fn wave_label(wave_reps: u8) -> Seq<char> {
    decimal(wave_reps as nat) + "s Wave"@
}

/// `p` is the week `week_in_wave` of the wave `wave_reps` for the 3RMs `lifts`.
pub open spec fn is_program_for(p: ProgramWeek, lifts: Lifts, wave_reps: u8, week_in_wave: u8) -> bool {
    &&& p.macro_week == 0
    &&& p.wave_type@ == wave_label(wave_reps)
    &&& p.week_in_wave == week_in_wave
    &&& p.days@.len() == 4
    &&& forall|i: int|
        0 <= i < 4 ==> {
            &&& (#[trigger] p.days@[i]).lift_name@ == lift_name(i)
            &&& p.days@[i].sets@ == day_sets(week_in_wave, wave_reps, lift_three_rm(lifts, i))
        }
}

/// Working max of a 3RM: 90% of it, in thousandths of the unit.
fn calculate_wm(rm3: u32) -> (r: u64)
    ensures
        r == working_max(rm3 as int),
{
    9 * rm3 as u64
}

/// Rounds a weight in hundred-thousandths to the nearest 2.5, in hundredths.
fn round_to_nearest_2_5(weight: u64) -> (r: u32)
    requires
        weight <= 90 * 9 * (u32::MAX as int),
    ensures
        r == nearest_2_5(weight as int),
{
    (((2 * weight + 250_000) / 500_000) * 250) as u32
}

/// The table of a week: percentages, rep counts and the number of sets.
fn set_table(week_in_wave: u8, wave_reps: u8) -> (r: (Vec<u8>, Vec<i8>, usize))
    ensures
        r.0@.len() == r.1@.len(),
        forall|i: int| 0 <= i < r.0@.len() ==> #[trigger] r.0@[i] <= 90,
        r.2 == set_scheme(week_in_wave, wave_reps).len(),
        week_in_wave == 1 && is_wave(wave_reps) ==> r.0@.len() == 1,
        !(week_in_wave == 1 && is_wave(wave_reps)) ==> r.0@.len() == r.2,
        forall|i: int|
            0 <= i < r.2 ==> #[trigger] set_scheme(week_in_wave, wave_reps)[i] == (
                if week_in_wave == 1 {
                    (r.0@[0], r.1@[0])
                } else {
                    (r.0@[i], r.1@[i])
                }
            ),
{
    if week_in_wave == 1 && wave_reps == 10 {
        (vec![60], vec![10], 5)
    } else if week_in_wave == 1 && wave_reps == 8 {
        (vec![65], vec![8], 5)
    } else if week_in_wave == 1 && wave_reps == 5 {
        (vec![70], vec![5], 5)
    } else if week_in_wave == 1 && wave_reps == 3 {
        (vec![75], vec![3], 5)
    } else if week_in_wave == 2 && wave_reps == 10 {
        (vec![50, 60, 70], vec![5, 5, 10], 3)
    } else if week_in_wave == 2 && wave_reps == 8 {
        (vec![55, 65, 75], vec![5, 5, 8], 3)
    } else if week_in_wave == 2 && wave_reps == 5 {
        (vec![60, 70, 80], vec![5, 3, 5], 3)
    } else if week_in_wave == 2 && wave_reps == 3 {
        (vec![65, 75, 85], vec![3, 3, 3], 3)
    } else if week_in_wave == 3 && wave_reps == 10 {
        (vec![50, 60, 70, 75], vec![5, 3, 1, -1], 4)
    } else if week_in_wave == 3 && wave_reps == 8 {
        (vec![55, 65, 75, 80], vec![5, 3, 1, -1], 4)
    } else if week_in_wave == 3 && wave_reps == 5 {
        (vec![60, 70, 80, 85], vec![3, 2, 1, -1], 4)
    } else if week_in_wave == 3 && wave_reps == 3 {
        (vec![65, 75, 85, 90], vec![3, 1, 1, -1], 4)
    } else if week_in_wave == 4 {
        (vec![40, 50, 60], vec![5, 5, 5], 3)
    } else {
        (vec![], vec![], 0)
    }
}

/// The sets of one day for the working max `wm` (thousandths of the unit).
fn get_sets(week_in_wave: u8, wave_reps: u8, wm: u64) -> (r: Vec<TrainingSet>)
    requires
        wm <= 9 * (u32::MAX as int),
    ensures
        r@ == set_scheme(week_in_wave, wave_reps).map_values(|p: (u8, i8)| set_at(wm as int, p)),
{
    let ghost scheme = set_scheme(week_in_wave, wave_reps);
    let (percents, reps, num_sets) = set_table(week_in_wave, wave_reps);
    let mut sets: Vec<TrainingSet> = Vec::new();
    let mut i: usize = 0;
    while i < num_sets
        invariant
            0 <= i <= num_sets,
            scheme == set_scheme(week_in_wave, wave_reps),
            num_sets == scheme.len(),
            forall|k: int| 0 <= k < percents@.len() ==> #[trigger] percents@[k] <= 90,
            percents@.len() == reps@.len(),
            week_in_wave == 1 && is_wave(wave_reps) ==> percents@.len() == 1,
            !(week_in_wave == 1 && is_wave(wave_reps)) ==> percents@.len() == num_sets,
            forall|k: int|
                0 <= k < num_sets ==> #[trigger] scheme[k] == (
                    if week_in_wave == 1 {
                        (percents@[0], reps@[0])
                    } else {
                        (percents@[k], reps@[k])
                    }
                ),
            wm <= 9 * (u32::MAX as int),
            sets@.len() == i,
            forall|k: int|
                0 <= k < i ==> #[trigger] sets@[k] == set_at(wm as int, scheme[k]),
        decreases num_sets - i,
    {
        let j: usize = if week_in_wave == 2 || week_in_wave == 3 || week_in_wave == 4 {
            i
        } else {
            0
        };
        assert(scheme[i as int] == (percents@[j as int], reps@[j as int]));
        let percent = percents[j];
        assert(wm * percent <= 90 * 9 * (u32::MAX as int)) by (nonlinear_arith)
            requires
                wm <= 9 * (u32::MAX as int),
                percent <= 90,
        ;
        let weight = round_to_nearest_2_5(wm * percent as u64);
        sets.push(TrainingSet { weight, reps: reps[j], percentage: percent });
        i = i + 1;
    }
    assert(sets@ =~= scheme.map_values(|p: (u8, i8)| set_at(wm as int, p)));
    sets
}

/// The day of one lift: its name and its sets.
fn lift_day(name: &str, week_in_wave: u8, wave_reps: u8, three_rm: u32) -> (r: ProgramDay)
    ensures
        r.lift_name@ == name@,
        r.sets@ == day_sets(week_in_wave, wave_reps, three_rm),
{
    ProgramDay {
        lift_name: String::from_str(name),
        sets: get_sets(week_in_wave, wave_reps, calculate_wm(three_rm)),
    }
}

/// The program of week `week_in_wave` of the wave `wave_reps` for the 3RMs
/// `lifts`: one day per lift (bench press, squat, deadlift, overhead press),
/// each with the sets that the week prescribes at the lift's working max.
/// Weeks and waves outside the table give days without sets.
pub fn generate_single_week_program(lifts: &Lifts, wave_reps: u8, week_in_wave: u8) -> (r:
    ProgramWeek)
    ensures
        is_program_for(r, *lifts, wave_reps, week_in_wave),
{
    let mut days: Vec<ProgramDay> = Vec::new();
    days.push(lift_day("Bench Press", week_in_wave, wave_reps, lifts.bench_press));
    days.push(lift_day("Squat", week_in_wave, wave_reps, lifts.squat));
    days.push(lift_day("Deadlift", week_in_wave, wave_reps, lifts.deadlift));
    days.push(lift_day("Overhead Press", week_in_wave, wave_reps, lifts.overhead_press));
    let mut wave_type = decimal_text(wave_reps as u32);
    wave_type.append("s Wave");
    let r = ProgramWeek { macro_week: 0, wave_type, week_in_wave, days };
    assert forall|i: int| 0 <= i < 4 implies {
        &&& (#[trigger] r.days@[i]).lift_name@ == lift_name(i)
        &&& r.days@[i].sets@ == day_sets(week_in_wave, wave_reps, lift_three_rm(*lifts, i))
    } by {
        if i == 0 {
        } else if i == 1 {
        } else if i == 2 {
        } else {
        }
    }
    r
}

/// Working-max gain per repetition beyond the target, in hundredths of the
/// unit: 0.5 for the upper body, 1.25 for the lower body.
pub open spec fn increment_per_rep(lift_type: LiftType) -> int {
    match lift_type {
        LiftType::UpperBody => 50,
        LiftType::LowerBody => 125,
    }
}

/// Repetitions beyond the target, none when the target was not exceeded.
pub open spec fn excess_reps(target_reps: int, actual_reps: int) -> int {
    if actual_reps > target_reps {
        actual_reps - target_reps
    } else {
        0
    }
}

/// The next 3RM, in hundredths: unchanged without excess repetitions; else
/// the working max (90% of the 3RM) grows by the increment per excess
/// repetition, and the new 3RM is that working max over 0.9, rounded half up
/// to the hundredth.
pub open spec fn next_three_rm(
    current_3rm: int,
    lift_type: LiftType,
    target_reps: int,
    actual_reps: int,
) -> int {
    let excess = excess_reps(target_reps, actual_reps);
    if excess == 0 {
        current_3rm
    } else {
        // thousandths of the unit
        let new_wm = working_max(current_3rm) + 10 * excess * increment_per_rep(lift_type);
        (2 * new_wm + 9) / 18
    }
}

/// The next 3RM in a type wide enough for every input.
pub(crate) fn next_3rm_wide(
    current_3rm: u32,
    lift_type: LiftType,
    target_reps: u8,
    actual_reps: u8,
) -> (r: u64)
    ensures
        r == next_three_rm(current_3rm as int, lift_type, target_reps as int, actual_reps as int),
{
    let reps_over_target = actual_reps.saturating_sub(target_reps);
    if reps_over_target == 0 {
        return current_3rm as u64;
    }
    let current_wm = calculate_wm(current_3rm);
    // thousandths of the unit: 0.5 or 1.25 per excess repetition
    let wm_increase: u64 = match lift_type {
        LiftType::UpperBody => reps_over_target as u64 * 500,
        LiftType::LowerBody => reps_over_target as u64 * 1250,
    };
    let new_wm = current_wm + wm_increase;
    (2 * new_wm + 9) / 18
}

/// The 3RM for the next wave from the AMRAP result of this one (weights in
/// hundredths of the unit).
pub fn calculate_new_3rm(
    current_3rm: u32,
    lift_type: &LiftType,
    target_reps: u8,
    actual_reps: u8,
) -> (r: u32)
    requires
        next_three_rm(current_3rm as int, *lift_type, target_reps as int, actual_reps as int)
            <= u32::MAX,
    ensures
        r == next_three_rm(current_3rm as int, *lift_type, target_reps as int, actual_reps as int),
{
    next_3rm_wide(current_3rm, *lift_type, target_reps, actual_reps) as u32
}

/// In the accumulation week of any wave, the five sets of a lift share one
/// weight and one rep count.
pub proof fn lemma_accumulation_sets_uniform(wave_reps: u8, three_rm: u32)
    requires
        is_wave(wave_reps),
    ensures
        day_sets(1, wave_reps, three_rm).len() == 5,
        forall|i: int, j: int|
            0 <= i < 5 && 0 <= j < 5 ==> {
                &&& (#[trigger] day_sets(1, wave_reps, three_rm)[i]).weight
                    == (#[trigger] day_sets(1, wave_reps, three_rm)[j]).weight
                &&& day_sets(1, wave_reps, three_rm)[i].reps == day_sets(1, wave_reps, three_rm)[j].reps
            },
{
}

/// In the realization week of any wave, the last of the four sets is the
/// AMRAP set (reps -1) and every other set has a positive rep count.
pub proof fn lemma_realization_ends_with_amrap(wave_reps: u8, three_rm: u32)
    requires
        is_wave(wave_reps),
    ensures
        day_sets(3, wave_reps, three_rm).len() == 4,
        day_sets(3, wave_reps, three_rm)[3].reps == -1,
        forall|i: int| 0 <= i < 3 ==> (#[trigger] day_sets(3, wave_reps, three_rm)[i]).reps > 0,
{
}

/// Without repetitions beyond the target, the 3RM stays as it is.
pub proof fn lemma_no_excess_keeps_three_rm(
    current_3rm: u32,
    lift_type: LiftType,
    target_reps: u8,
    actual_reps: u8,
)
    requires
        actual_reps <= target_reps,
    ensures
        next_three_rm(current_3rm as int, lift_type, target_reps as int, actual_reps as int)
            == current_3rm,
{
}

/// More repetitions on the AMRAP set never give a lower next 3RM.
pub proof fn lemma_next_three_rm_monotonic(
    current_3rm: u32,
    lift_type: LiftType,
    target_reps: u8,
    fewer_reps: u8,
    more_reps: u8,
)
    requires
        fewer_reps <= more_reps,
    ensures
        next_three_rm(current_3rm as int, lift_type, target_reps as int, fewer_reps as int)
            <= next_three_rm(current_3rm as int, lift_type, target_reps as int, more_reps as int),
{
    let c = current_3rm as int;
    let inc = increment_per_rep(lift_type);
    let e1 = excess_reps(target_reps as int, fewer_reps as int);
    let e2 = excess_reps(target_reps as int, more_reps as int);
    assert(0 <= e1 <= e2);
    assert(inc > 0);
    if e1 == 0 {
        if e2 > 0 {
            assert((18 * c + 9) / 18 == c);
            assert(18 * c + 9 <= 2 * (9 * c + 10 * e2 * inc) + 9) by (nonlinear_arith)
                requires
                    e2 > 0,
                    inc > 0,
            ;
            lemma_div_monotonic(18 * c + 9, 2 * (9 * c + 10 * e2 * inc) + 9, 18);
        }
    } else {
        assert(2 * (9 * c + 10 * e1 * inc) + 9 <= 2 * (9 * c + 10 * e2 * inc) + 9)
            by (nonlinear_arith)
            requires
                e1 <= e2,
                inc > 0,
        ;
        lemma_div_monotonic(2 * (9 * c + 10 * e1 * inc) + 9, 2 * (9 * c + 10 * e2 * inc) + 9, 18);
    }
}

proof fn lemma_div_monotonic(a: int, b: int, d: int)
    requires
        0 <= a <= b,
        0 < d,
    ensures
        a / d <= b / d,
{
    vstd::arithmetic::div_mod::lemma_div_is_ordered(a, b, d);
}

/// Generating a program depends on its inputs alone: two programs that
/// both answer the same 3RMs, wave and week are the same program.
pub proof fn lemma_program_determined(
    p: ProgramWeek,
    q: ProgramWeek,
    lifts: Lifts,
    wave_reps: u8,
    week_in_wave: u8,
)
    requires
        is_program_for(p, lifts, wave_reps, week_in_wave),
        is_program_for(q, lifts, wave_reps, week_in_wave),
    ensures
        p.macro_week == q.macro_week,
        p.wave_type@ == q.wave_type@,
        p.week_in_wave == q.week_in_wave,
        p.days@.len() == q.days@.len(),
        forall|i: int|
            0 <= i < p.days@.len() ==> {
                &&& (#[trigger] p.days@[i]).lift_name@ == q.days@[i].lift_name@
                &&& p.days@[i].sets@ == q.days@[i].sets@
            },
{
    assert forall|i: int| 0 <= i < p.days@.len() implies {
        &&& (#[trigger] p.days@[i]).lift_name@ == q.days@[i].lift_name@
        &&& p.days@[i].sets@ == q.days@[i].sets@
    } by {
        assert(q.days@[i].lift_name@ == lift_name(i));
    }
}

} // verus!
