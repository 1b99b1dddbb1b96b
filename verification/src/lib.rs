pub mod address;
pub mod crypto;
pub mod factory;
pub mod instance;
pub mod laws;
pub mod outcomes;
pub mod raffle_instance;
pub mod shared;
pub mod table;
