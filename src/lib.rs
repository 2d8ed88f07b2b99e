//! A bank of elevators served by a greedy, direction-aware dispatcher.
//!
//! Each elevator follows a direction-persistent sweep: it keeps moving one
//! floor per tick toward pending stops in its current direction and reverses
//! only when nothing is left ahead. The dispatcher gives each request to the
//! elevator with the lowest score.
pub mod dispatch;
pub mod elevator;
