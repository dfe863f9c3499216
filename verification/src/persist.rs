//! What the plugin keeps in its storage, and how it updates a stored record safely: read it,
//! change it, and write it back only if nobody wrote it in between, retrying a few times.
use vstd::prelude::*;
use vstd::string::StringExecFns;

use crate::error::NostrError;
use crate::storage::{storage_error_text, PluginStorageError, StorageResult};
use crate::zaps::optional_text;

verus! {

/// How many times a safe write reads, changes and writes a record before it gives up.
pub const MAX_SAFE_WRITE_RETRIES: u64 = 3;

/// The storage key of the plugin's Nostr secret key.
pub const KEY_NOSTR_SECKEY: &'static str = "nostr_seckey";

/// What a safe write does after a write attempt.
#[derive(Debug)]
pub enum SafeWriteNext {
    /// The record was written: return the change's result.
    Finished,
    /// The record changed since it was read: read it again and retry.
    Retry,
    /// The storage failed: return this error.
    Failed(NostrError),
}

/// The attempts of one safe write.
pub struct SafeWrite {
    attempts: u64,
}

impl SafeWrite {
    #[verifier::type_invariant]
    spec fn well_formed(self) -> bool {
        self.attempts <= MAX_SAFE_WRITE_RETRIES
    }

    /// How many attempts have begun.
    pub closed spec fn attempts(self) -> nat {
        self.attempts as nat
    }

    /// A safe write that has made no attempt yet.
    pub fn new() -> (write: Self)
        ensures
            write.attempts() == 0,
    {
        SafeWrite { attempts: 0 }
    }

    /// Begins the next attempt, unless all have been made: then the error to return.
    pub fn begin_attempt(&mut self) -> (refused: Option<NostrError>)
        ensures
            old(self).attempts() < MAX_SAFE_WRITE_RETRIES ==> refused is None
                && final(self).attempts() == old(self).attempts() + 1,
            old(self).attempts() >= MAX_SAFE_WRITE_RETRIES ==> final(self).attempts() == old(self).attempts(),
            old(self).attempts() >= MAX_SAFE_WRITE_RETRIES ==> (refused matches Some(NostrError::Persist { err })
                && err@ == "Maximum write attempts reached"@),
            final(self).attempts() <= MAX_SAFE_WRITE_RETRIES,
    {
        proof {
            use_type_invariant(&*self);
        }
        if self.attempts < MAX_SAFE_WRITE_RETRIES {
            self.attempts = self.attempts + 1;
            None
        } else {
            Some(NostrError::Persist { err: String::from_str("Maximum write attempts reached") })
        }
    }

    /// After the change: the record is written only when the change altered it.
    pub fn needs_write(&self, changed: bool) -> (write: bool)
        ensures
            write == changed,
    {
        changed
    }

    /// After a write attempt: done when it succeeded, again when the record changed meanwhile,
    /// and the storage's error otherwise.
    pub fn after_write(&self, outcome: &StorageResult<()>) -> (next: SafeWriteNext)
        ensures
            match *outcome {
                Ok(_) => next is Finished,
                Err(PluginStorageError::DataTooOld) => next is Retry,
                Err(e) => next matches SafeWriteNext::Failed(NostrError::Persist { err }) && err@ == storage_error_text(e),
            },
    {
        match outcome {
            Ok(_) => SafeWriteNext::Finished,
            Err(PluginStorageError::DataTooOld) => SafeWriteNext::Retry,
            Err(e) => SafeWriteNext::Failed(NostrError::from_storage(e)),
        }
    }
}

/// Where the plugin's Nostr secret key comes from.
#[derive(Debug, PartialEq)]
pub enum SecretKeySource {
    /// The key given in the configuration.
    Configured(String),
    /// The key stored by an earlier session.
    Restored(String),
    /// No key is known: a new one is generated and stored.
    Generate,
}

/// The key that a start uses: the configured one, else the stored one; `None` when a new key
/// must be generated.
pub open spec fn chosen_key(configured: Option<Seq<char>>, restored: Option<Seq<char>>) -> Option<Seq<char>> {
    match configured {
        Some(key) => Some(key),
        None => restored,
    }
}

/// The configured key wins over a stored one; without either a new key is generated.
pub fn choose_secret_key(configured: &Option<String>, restored: &Option<String>) -> (source: SecretKeySource)
    ensures
        match source {
            SecretKeySource::Configured(k) => chosen_key(optional_text(*configured), optional_text(*restored)) == Some(k@),
            SecretKeySource::Restored(k) => chosen_key(optional_text(*configured), optional_text(*restored)) == Some(k@),
            SecretKeySource::Generate => chosen_key(optional_text(*configured), optional_text(*restored)) is None,
        },
        match *configured {
            Some(key) => source matches SecretKeySource::Configured(k) && k@ == key@,
            None => match *restored {
                Some(key) => source matches SecretKeySource::Restored(k) && k@ == key@,
                None => source is Generate,
            },
        },
{
    match configured {
        Some(key) => SecretKeySource::Configured(key.clone()),
        None => match restored {
            Some(key) => SecretKeySource::Restored(key.clone()),
            None => SecretKeySource::Generate,
        },
    }
}

} // verus!
