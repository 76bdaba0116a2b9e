//! A small resource ledger: honey is earned and spent, beehives are bought
//! with it, and each hive may be given a queen bee.
pub mod game;
