//! The key/value storage underneath the durable store.

use vstd::prelude::*;

verus! {

/// Why a key/value operation failed.
#[derive(Debug)]
pub enum StorageError {
    NotFound(String),
    Serialization(String),
    Io(std::io::Error),
    Json(String),
    Sled(String),
    Other(String),
}

/// A string-keyed store of string values.
pub trait Storage {
    fn get(&self, key: &str) -> Result<Option<String>, StorageError>;

    fn set(&mut self, key: &str, value: &str) -> Result<(), StorageError>;

    fn delete(&mut self, key: &str) -> Result<(), StorageError>;

    fn list_keys(&self) -> Result<Vec<String>, StorageError>;

    fn contains_key(&self, key: &str) -> Result<bool, StorageError>;
}

} // verus!
