//! Mirror of host-owned game objects: an entity store, a registry from native
//! handles to entities, typed facets, an event decoder and a registry of loaded
//! resources.

pub mod decoder;
pub mod elements;
pub mod events;
pub mod hashing;
pub mod kind;
pub mod logger;
pub mod mvalue;
pub mod registry;
pub mod resources;
pub mod rgba;
pub mod store;
pub mod string;
pub mod world;

pub use hashing::hash;
pub mod components;
