pub mod counter;
pub mod events;
pub mod greet;
pub mod lemmas;
pub mod store;

pub use events::GenericEventRes;
