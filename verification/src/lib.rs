//! Simulation core of a "catch the falling item" arcade game.
//!
//! The library models a player-controlled catcher, a stream of procedurally
//! generated falling items with weighted rarity, collision-based scoring, a
//! timed status-effect engine, and an escalating failure sequence that ends
//! the game. Rendering, audio, raw input polling and persistence are external
//! collaborators: the core only consumes an already-resolved movement axis
//! and an injected random-number source, and advances one deterministic step
//! per frame.
//!
//! All quantities are integers:
//! - lengths and positions are measured in milliunits (one thousandth of a
//!   screen unit),
//! - times and durations in milliseconds,
//! - rates and probabilities in permille,
//! - scale factors, input axes and difficulty in thousandths.

pub mod anim;
pub mod bucket;
pub mod collision;
pub mod config;
pub mod effects;
pub mod geom;
pub mod num;
pub mod objects;
pub mod rng;
pub mod scoring;
pub mod spawn;
pub mod world;
