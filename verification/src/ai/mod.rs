//! Species behaviour rules, one module per monster family.
pub mod horned;
pub mod reward;
pub mod hell;
pub mod hugger;
pub mod kirin;
pub mod meow;
pub mod shinsu;
pub mod armadillo;
pub mod evil_mir;
pub mod great_fox;
pub mod reactive;
pub mod mud;
pub mod horned_encounter;
pub mod revival;
pub mod pet;
pub mod periodic;
pub mod passive;
pub mod node;
pub mod mud_tick;
pub mod evil_mir_tick;
