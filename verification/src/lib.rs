//! Manifest data model of a Dojo world, and the text that the Katana node
//! prints about its genesis state, with their contracts proved by Verus.
pub mod outside;
pub mod abi;
pub mod expansion;
pub mod felt;
pub mod genesis;
pub mod manifest;

