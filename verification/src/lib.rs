//! Resolution of the property names of a replay's entity classes.
//!
//! The descriptor tree of each entity class is walked once. Every leaf gets
//! a numeric identifier by which the decoder refers to it from then on, the
//! same for all leaves that are one property under different class names.
//!
//! `model` says what the engine computes, `prop_controller` computes it, and
//! `laws` holds what follows for every run. The hash maps come from the
//! `ahash` crate; what is taken on trust about them stands in `index`.

pub mod canonical;
pub mod collect_data;
pub mod index;
pub mod laws;
pub mod maps;
pub mod model;
pub mod policy;
pub mod prop_controller;
pub mod sendtables;
pub mod special_ids;
pub mod text;

pub use crate::collect_data::PropType;
pub use crate::prop_controller::{PropController, PropInfo, ResolveError};
pub use crate::sendtables::{Field, Serializer};
pub use crate::special_ids::SpecialIDs;
