//! Syntax tree nodes: one struct for each kind, and the enum over them.

pub mod begin;
pub mod class;
pub mod cvasgn;
pub mod forward_arg;
pub mod hash;
pub mod mlhs;
pub mod module;
pub mod nil;
pub mod or_asgn;
pub mod pair;
pub mod retry;
pub mod undef;
pub mod while_;
pub mod node;
pub mod cloning;
pub mod equality;
pub mod inspect;
pub mod with_locs;
