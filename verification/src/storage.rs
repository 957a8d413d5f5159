//! The records that the journal exchanges with its store.

use vstd::prelude::*;
use vstd::string::StringExecFns;

use crate::models::{Mnemon, Work};

verus! {

/// Why the store could not do what was asked.
#[derive(Debug)]
pub enum StorageError {
    /// The database could not be built or opened.
    DatabaseError(String),
    /// A record could not be written out.
    SerializeError(String),
    /// A stored record could not be read back.
    DeserializeError(String),
    /// A transaction failed.
    TransactionError(String),
    /// An operation on one table failed.
    StoreError(String),
}

impl StorageError {
    /// What kind of failure this is, as the words that start its message.
    pub open spec fn heading(&self) -> Seq<char> {
        match *self {
            StorageError::DatabaseError(_) => "Database error: "@,
            StorageError::SerializeError(_) => "Serialize error: "@,
            StorageError::DeserializeError(_) => "Deserialize error: "@,
            StorageError::TransactionError(_) => "Transaction error: "@,
            StorageError::StoreError(_) => "Store error: "@,
        }
    }

    /// The detail that the store gave.
    pub open spec fn detail(&self) -> Seq<char> {
        match *self {
            StorageError::DatabaseError(m) => m@,
            StorageError::SerializeError(m) => m@,
            StorageError::DeserializeError(m) => m@,
            StorageError::TransactionError(m) => m@,
            StorageError::StoreError(m) => m@,
        }
    }

    /// The failure in words: its kind, then the detail.
    pub fn message(&self) -> (r: String)
        ensures
            r@ == self.heading() + self.detail(),
    {
        let (heading, detail) = match self {
            StorageError::DatabaseError(m) => ("Database error: ", m),
            StorageError::SerializeError(m) => ("Serialize error: ", m),
            StorageError::DeserializeError(m) => ("Deserialize error: ", m),
            StorageError::TransactionError(m) => ("Transaction error: ", m),
            StorageError::StoreError(m) => ("Store error: ", m),
        };
        let mut r = heading.to_owned();
        r.append(detail.as_str());
        r
    }
}

/// All that the store holds of works and mnemons.
#[derive(Debug)]
pub struct PersistedData {
    pub works: Vec<Work>,
    pub mnemons: Vec<Mnemon>,
}

impl PersistedData {
    /// Nothing stored: what a store that cannot be read stands for.
    pub fn empty() -> (r: Self)
        ensures
            r.works@.len() == 0,
            r.mnemons@.len() == 0,
    {
        PersistedData { works: Vec::new(), mnemons: Vec::new() }
    }
}

/// An image or a piece of music kept in the store.
#[derive(Debug)]
pub struct StoredAsset {
    /// What the asset is found by: mostly its address.
    pub id: String,
    /// The asset's MIME type.
    pub mime_type: String,
    /// The asset's bytes in base64.
    pub data_base64: String,
}

impl Clone for StoredAsset {
    fn clone(&self) -> (r: Self)
        ensures
            r.id@ == self.id@,
            r.mime_type@ == self.mime_type@,
            r.data_base64@ == self.data_base64@,
    {
        StoredAsset {
            id: self.id.clone(),
            mime_type: self.mime_type.clone(),
            data_base64: self.data_base64.clone(),
        }
    }
}

} // verus!
