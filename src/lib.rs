pub mod competition;
pub mod direct;
pub mod encoding;
pub mod errors;
pub mod events;
pub mod host;
pub mod registry;
pub mod types;
