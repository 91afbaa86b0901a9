pub mod controllers;
pub mod data;
pub mod models;
pub mod numbers;
pub mod validations;

pub use vstd::hash_map::StringHashMap;
