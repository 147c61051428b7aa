//! A study collection of small verified programs and worked examples:
//! whole-number temperature conversion, an iterative additive-sequence
//! generator, and the cumulative-verse carol printer, together with
//! chapter-sized examples of records, enums and matching, module
//! trees, validated wrapper types, traits and borrowed data.
//!
//! Each module is self-contained; the three exercise routines are tied
//! together by [`program`], which computes every line the
//! demonstration run prints.

pub mod carol;
pub mod coins;
pub mod concepts;
pub mod decimal;
pub mod excerpts;
pub mod fibonacci;
pub mod garden;
pub mod guess;
pub mod ip;
pub mod longest;
pub mod matching;
pub mod messages;
pub mod mixed_points;
pub mod ownership;
pub mod pairs;
pub mod points;
pub mod program;
pub mod rectangles;
pub mod restaurant;
pub mod shared_bounds;
pub mod slices;
pub mod state_coins;
pub mod summaries;
pub mod temperature;
pub mod users;
