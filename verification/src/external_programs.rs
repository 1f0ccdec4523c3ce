//! Identifiers of the external programs the hosting layer drives intents
//! against.

pub mod mpl_token_metadata;
