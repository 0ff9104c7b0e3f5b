//! Backends for the store interfaces of the domain.

pub mod data_stores;
