use vstd::prelude::*;

use crate::credential::{Credential, CredentialModel};
use crate::record::{decode, encode, is_record, lemma_record_injective, record_bytes, record_fits};

verus! {

#[derive(Debug, PartialEq, Eq, Structural)]
pub enum LoadError {
    /// No record has been stored yet.
    NotFound,
    /// The stored bytes are the record of no credential.
    Corrupt,
}

#[derive(Debug, PartialEq, Eq, Structural)]
pub enum PersistenceError {
    /// The record of the credential would not fit in memory.
    TooLarge,
}

/// What `load` gives for a stored record, or for none.
pub open spec fn loaded(record: Option<Seq<u8>>) -> Result<CredentialModel, LoadError> {
    match record {
        None => Err(LoadError::NotFound),
        Some(b) => if is_record(b) {
            Ok(choose|c: CredentialModel| record_bytes(c) == b)
        } else {
            Err(LoadError::Corrupt)
        },
    }
}

/// The durable record of one credential. It holds the record's bytes; the
/// medium that keeps them across restarts writes what `record` returns after
/// each successful `save`, and hands the bytes back through `from_record`.
pub struct CredentialStore {
    record: Option<Vec<u8>>,
}

impl View for CredentialStore {
    type V = Option<Seq<u8>>;

    closed spec fn view(&self) -> Option<Seq<u8>> {
        match self.record {
            Some(b) => Some(b@),
            None => None,
        }
    }
}

impl CredentialStore {
    /// A store that holds no record.
    pub fn new() -> (s: CredentialStore)
        ensures
            s@ is None,
    {
        CredentialStore { record: None }
    }

    /// A store that holds the bytes read back from the durable medium.
    pub fn from_record(bytes: Vec<u8>) -> (s: CredentialStore)
        ensures
            s@ == Some(bytes@),
    {
        CredentialStore { record: Some(bytes) }
    }

    /// The bytes to write to the durable medium.
    pub fn record(&self) -> (r: Option<&Vec<u8>>)
        ensures
            match r {
                Some(b) => self@ == Some(b@),
                None => self@ is None,
            },
    {
        self.record.as_ref()
    }

    /// Reads the stored credential.
    pub fn load(&self) -> (r: Result<Credential, LoadError>)
        ensures
            match loaded(self@) {
                Ok(c) => r is Ok && r->Ok_0@ == c,
                Err(e) => r == Err::<Credential, LoadError>(e),
            },
    {
        match &self.record {
            None => Err(LoadError::NotFound),
            Some(b) => match decode(b.as_slice()) {
                Some(c) => {
                    proof {
                        let d = choose|d: CredentialModel| record_bytes(d) == b@;
                        lemma_record_injective(c@, d);
                    }
                    Ok(c)
                },
                None => Err(LoadError::Corrupt),
            },
        }
    }

    /// Overwrites the record with that of `c`. It fails, and leaves the
    /// record as it was, only when that record would not fit in memory.
    pub fn save(&mut self, c: &Credential) -> (r: Result<(), PersistenceError>)
        ensures
            r is Ok <==> record_fits(c@),
            r is Ok ==> final(self)@ == Some(record_bytes(c@)),
            r is Err ==> final(self)@ == old(self)@,
    {
        let t = c.refresh_token.as_str().as_bytes().len();
        let f = c.fingerprint_of_prior_refresh_token.as_str().as_bytes().len();
        let total = match t.checked_add(f) {
            Some(n) => n.checked_add(24),
            None => None,
        };
        match total {
            Some(_) => {
                self.record = Some(encode(c));
                Ok(())
            },
            None => Err(PersistenceError::TooLarge),
        }
    }
}

/// Saving a credential and loading it back gives the same credential.
pub proof fn lemma_save_then_load(c: CredentialModel)
    requires
        record_fits(c),
    ensures
        loaded(Some(record_bytes(c))) == Ok::<CredentialModel, LoadError>(c),
{
    let b = record_bytes(c);
    assert(is_record(b));
    let d = choose|d: CredentialModel| record_bytes(d) == b;
    lemma_record_injective(c, d);
}

} // verus!
