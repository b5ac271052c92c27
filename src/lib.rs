//! Arithmetization core of a PLONK-style proof system with Plookup tables,
//! over the scalar field of BLS12-381.
pub mod field;
pub mod composer;
pub mod helper;
pub mod lookup;
pub mod tables;
pub mod constraint_system;
pub mod poly;
pub mod util;
pub mod evaluations;
pub mod arithmetic;
pub mod plookup;
pub mod uint8;

