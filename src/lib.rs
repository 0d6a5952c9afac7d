// Juggernaut-method training programs: the set tables and 3RM progression
// (logic), the lifter's data (models), and what each request decides
// (handlers). Weights are held in hundredths of the weight unit.
use vstd::prelude::*;

pub mod handlers;
pub mod logic;
pub mod models;
