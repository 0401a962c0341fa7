//! Fixtures that one test produces and later tests read.
//!
//! A fixture body runs at most once per process. Its outcome, a value or a
//! failure, is stored in a [`FixtureCell`] and replayed to every reader. The
//! outcome is held in a tagged form ([`Layer`]) that nests success layers down
//! to a leaf value or a failure, and [`unwrap`] descends through it.

use vstd::prelude::*;

pub mod cell;
pub mod outcome;

pub use cell::FixtureCell;
pub use outcome::{unwrap, Failure, Fixer, Layer, Outcome, ReportSuccess, MAX_DEPTH};

/// The lazily initialized global that holds each fixture binding.
pub use once_cell::sync::Lazy;
