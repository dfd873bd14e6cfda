//! Decision logic of a linter for the Bevy game engine, stated over plain models of the
//! compiler's data and proved correct against those models.

pub mod text;
pub mod paths;
pub mod ty;
pub mod expr;
pub mod camera;
pub mod bundle;
pub mod diag;
pub mod reflect;
pub mod unit_struct;
pub mod naming;
pub mod panicking;
pub mod reborrow;
pub mod appexit;
pub mod schedule;
pub mod events;
pub mod query;
pub mod platform;
pub mod sym;
pub mod config;
pub mod dependencies;
pub mod lint;
pub mod hir;
pub mod version;
pub mod callback;
pub mod cli;

pub use self::callback::BevyLintCallback;
pub use self::version::{BevyVersion, V0_15};
