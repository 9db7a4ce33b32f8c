pub mod account;
pub mod address;
pub mod error;
pub mod instructions;
pub mod rent;
pub mod state;

pub use instructions::initialize;
