//! Errors of the persistence layer, as the domain sees them.
use vstd::prelude::*;

verus! {

/// An opaque failure of the storage backend, carried as its message.
#[derive(Debug)]
pub struct StorageFault {
    message: String,
}

impl StorageFault {
    pub closed spec fn view(self) -> Seq<char> {
        self.message@
    }

    pub fn new(message: &str) -> (r: Self)
        ensures
            r.view() == message@,
    {
        StorageFault { message: String::from_str(message) }
    }

    /// The message of the underlying failure, as `Display` prints it.
    pub fn to_string(&self) -> (r: String)
        ensures
            r@ == self.view(),
    {
        self.message.clone()
    }
}

#[derive(Debug)]
pub enum StorageError {
    Unavailable(String),
    Fault(StorageFault),
}

impl From<StorageFault> for StorageError {
    fn from(f: StorageFault) -> (r: StorageError) {
        StorageError::Fault(f)
    }
}

impl vstd::std_specs::convert::FromSpecImpl<StorageFault> for StorageError {
    open spec fn obeys_from_spec() -> bool {
        true
    }

    open spec fn from_spec(v: StorageFault) -> StorageError {
        StorageError::Fault(v)
    }
}

impl StorageError {
    /// The human-readable text of the error, as `Display` prints it.
    pub fn to_string(&self) -> (r: String)
        ensures
            self matches StorageError::Unavailable(m) ==> r@ == "storage is unavailable: "@ + m@,
            self matches StorageError::Fault(f) ==> r@ == f.view(),
    {
        match self {
            StorageError::Unavailable(m) => {
                let mut s = String::from_str("storage is unavailable: ");
                s.append(m.as_str());
                s
            },
            StorageError::Fault(f) => f.to_string(),
        }
    }
}

} // verus!
