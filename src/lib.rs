//! The measurement and composition core of a declarative UI toolkit.
//!
//! Every geometric and temporal quantity is a single-precision float held to
//! a domain (finite; non-negative; positive; within `[-1, 1]` or `[0, 1]`).
//! The library keeps each such float as its IEEE-754 bit pattern and proves
//! its validation, its order and its clamps over that pattern. The containers
//! carry their children and parameters and say how their size folds from
//! their children's sizes.
pub mod ieee;
pub mod math;
pub mod base;
pub mod layout;
pub mod path;
pub mod scroll;
pub mod dynamic;
pub mod text;
pub mod animation;
