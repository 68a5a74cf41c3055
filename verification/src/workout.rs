//! Decides a day's workout from the requested intensity and a random number,
//! memoizing the simulated expensive calculation in a single-slot cache.

use crate::cache::Cacher;
use vstd::prelude::*;

verus! {

/// What the day's workout is: a round of exercises, a rest day, or a run.
#[derive(Clone, Copy, Debug, PartialEq, Eq)]
pub enum WorkoutPlan {
    Exercise { pushups: u32, situps: u32 },
    TakeBreak,
    Run { minutes: u32 },
}

/// Low intensity asks for `intensity` pushups and as many situps; otherwise a
/// random number of three grants a break, and anything else a run of
/// `intensity` minutes. Both exercise counts come out of the same single-slot
/// cache, so they are equal by construction.
pub fn workout_plan(intensity: u32, random_number: u32) -> (p: WorkoutPlan)
    ensures
        intensity < 25 ==> p == (WorkoutPlan::Exercise { pushups: intensity, situps: intensity }),
        intensity >= 25 && random_number == 3 ==> p == WorkoutPlan::TakeBreak,
        intensity >= 25 && random_number != 3 ==> p == (WorkoutPlan::Run { minutes: intensity }),
{
    let calculation = |num: u32| -> (r: u32)
        ensures
            r == num,
        { num };
    let mut expensive_result = Cacher::new(calculation);
    if intensity < 25 {
        let pushups = expensive_result.value(intensity);
        let situps = expensive_result.value(intensity);
        WorkoutPlan::Exercise { pushups, situps }
    } else if random_number == 3 {
        WorkoutPlan::TakeBreak
    } else {
        WorkoutPlan::Run { minutes: expensive_result.value(intensity) }
    }
}

} // verus!
