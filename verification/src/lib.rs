use vstd::prelude::*;

pub mod text;
pub mod ids;
pub mod planner;
pub mod prp_hub;
pub mod scanner;
pub mod github;
pub mod tui;
pub mod router;
pub mod auth;

verus! {

} // verus!
