//! A satirical weak-password generator.
//!
//! The library picks one entry of a wordlist and applies up to three cosmetic
//! edits to it: uppercasing the first character, appending one of five
//! predictable number strings, and appending an exclamation mark. Every
//! function that decides or computes something lives here with a contract;
//! reading the wordlist file and printing belong to the surrounding binary.

pub mod config;
pub mod decimal;
pub mod dictionary;
pub mod generate;
pub mod transform;
