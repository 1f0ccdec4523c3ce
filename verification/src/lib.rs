//! A tiered state engine for counter-driven level classification.
//!
//! A sorted threshold table ([`state::OffsetTiers`]) maps an accumulating
//! counter ("offset") to a discrete tier ([`state::Level`]). A per-entity
//! record ([`state::OffsetMetadata`]) remembers the tier an entity currently
//! occupies, so that a new counter value can be turned into a transition
//! decision together with an ordered list of side-effect intents for the
//! hosting system to execute.

pub mod error;
pub mod external_programs;
pub mod state;
pub mod transition;
