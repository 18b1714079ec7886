//! Verified core of a headless real-time-strategy test harness: scenario
//! construction, spawn placement, scripted build orders, metric bookkeeping
//! and the small rule tables that the game runner applies.

pub mod analyzer;
pub mod ascii_visualizer;
pub mod balance;
pub mod batch;
pub mod determinism;
pub mod faction_loader;
pub mod fixtures;
pub mod game_runner;
pub mod metrics;
pub mod protocol;
pub mod runner;
pub mod scenario;
pub mod screenshot;
pub mod server;
pub mod spawn_generator;
pub mod strategies;
pub mod text;
pub mod visual_rating;
pub mod visual_review;
