//! Occupancy and profitability statistics for a forty-space circular board,
//! estimated by repeated random play of a single token.
//!
//! A [`player::Player`] moves round the board by the sum of two dice, counts
//! its visits of every space and group, and credits each space visited with
//! its highest rent. At the end of a game the space and the group that earned
//! most beyond their cost win it. The counters are modelled by
//! [`stats::Stats`], over which every contract of the player is stated.

pub mod decimal;
pub mod dice;
pub mod group;
pub mod leader;
pub mod player;
pub mod rent;
pub mod road;
pub mod stats;
