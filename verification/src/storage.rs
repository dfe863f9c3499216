//! Plugin storage: every value a plugin keeps goes under a key scoped by the plugin's id and is
//! sealed with AES-256-GCM under the plugin's passphrase before it reaches the storage backend.
use vstd::prelude::*;
use vstd::string::StringExecFns;
use vstd::utf8::*;

use crate::cipher::{
    aes256_gcm_decrypt, aes256_gcm_encrypt, aes256_gcm_open, aes256_gcm_seal, random_nonce,
    string_from_utf8, KEY_LEN, MAX_PLAINTEXT_LEN, NONCE_LEN,
};
use crate::hex_codec::{
    hex_decode, hex_decoding, hex_encode, hex_encoding, lemma_hex_decoding_inverts_encoding,
};

verus! {

/// What can go wrong in a storage operation.
#[derive(Debug)]
pub enum PluginStorageError {
    /// The stored value changed since it was last read, so a safe write was refused.
    DataTooOld,
    /// Sealing or opening a value failed.
    Encryption { err: String },
    /// Any other failure of the storage backend.
    Generic { err: String },
}

/// The result of a storage operation.
pub type StorageResult<T> = Result<T, PluginStorageError>;

/// The text that describes a storage error.
pub open spec fn storage_error_text(e: PluginStorageError) -> Seq<char> {
    match e {
        PluginStorageError::DataTooOld => "Could not write to storage: value has changed since last read."@,
        PluginStorageError::Encryption { err } => "Could not encrypt storage data: "@ + err@,
        PluginStorageError::Generic { err } => "Plugin storage operation failed: "@ + err@,
    }
}

impl PluginStorageError {
    /// The text that describes this error.
    pub fn message(&self) -> (text: String)
        ensures
            text@ == storage_error_text(*self),
    {
        match self {
            PluginStorageError::DataTooOld => String::from_str("Could not write to storage: value has changed since last read."),
            PluginStorageError::Encryption { err } => String::from_str("Could not encrypt storage data: ").concat(err.as_str()),
            PluginStorageError::Generic { err } => String::from_str("Plugin storage operation failed: ").concat(err.as_str()),
        }
    }

    /// A `Generic` error that carries the text of `err`.
    /// For a string slice, the text is the slice itself.
    pub fn generic<T: std::fmt::Display + ?Sized>(err: &T) -> (res: Self)
        ensures
            res matches PluginStorageError::Generic { err: text }
                && vstd::string::to_string_from_display_ensures::<T>(err, text),
    {
        PluginStorageError::Generic { err: err.to_string() }
    }

    /// An `Encryption` error that carries the text of an AES-GCM failure, as its `Display`
    /// writes it.
    pub(crate) fn from_aead(err: aes_gcm::Error) -> (res: Self)
        ensures
            res matches PluginStorageError::Encryption { err: text }
                && vstd::string::to_string_from_display_ensures::<aes_gcm::Error>(&err, text),
    {
        PluginStorageError::Encryption { err: err.to_string() }
    }
}

/// The text that a plugin's storage holds for `plaintext` when it was sealed with `nonce`:
/// the lower-case hex of the nonce followed by the AES-256-GCM ciphertext of its UTF-8 bytes.
pub open spec fn sealed_text(key: Seq<u8>, nonce: Seq<u8>, plaintext: Seq<char>) -> Seq<char> {
    hex_encoding(nonce + aes256_gcm_seal(key, nonce, encode_utf8(plaintext)))
}

/// The plaintext that a stored text opens to: its hex bytes split after the nonce, the rest
/// opened with AES-256-GCM and read as UTF-8. `None` when any of the three steps fails.
pub open spec fn opened_text(key: Seq<u8>, text: Seq<char>) -> Option<Seq<char>> {
    match hex_decoding(text) {
        Some(bytes) => match aes256_gcm_open(
            key,
            bytes.subrange(0, NONCE_LEN as int),
            bytes.subrange(NONCE_LEN as int, bytes.len() as int),
        ) {
            Some(plain) => if valid_utf8(plain) {
                Some(decode_utf8(plain))
            } else {
                None
            },
            None => None,
        },
        None => None,
    }
}

/// The hex bytes of a sealed text are the nonce followed by the ciphertext.
pub proof fn lemma_sealed_text_bytes(key: Seq<u8>, nonce: Seq<u8>, plaintext: Seq<char>)
    ensures
        hex_decoding(sealed_text(key, nonce, plaintext))
            == Some(nonce + aes256_gcm_seal(key, nonce, encode_utf8(plaintext))),
{
    lemma_hex_decoding_inverts_encoding(nonce + aes256_gcm_seal(key, nonce, encode_utf8(plaintext)));
}

/// A stored text can be opened without running off its end: it is no valid hex, or its bytes
/// hold at least a whole nonce.
pub open spec fn openable(text: Seq<char>) -> bool {
    hex_decoding(text) matches Some(bytes) ==> bytes.len() >= NONCE_LEN
}

/// Whether a stored text can be handed to `PluginStorage::decrypt`.
pub fn openable_text(text: &str) -> (ok: bool)
    ensures
        ok == openable(text@),
{
    match hex_decode(text) {
        Ok(bytes) => bytes.len() >= NONCE_LEN,
        Err(_) => true,
    }
}

/// A plugin's view of the storage: its id and the passphrase that seals its values.
pub struct PluginStorage {
    plugin_id: String,
    passphrase: Vec<u8>,
}

impl PluginStorage {
    #[verifier::type_invariant]
    spec fn well_formed(self) -> bool {
        &&& self.plugin_id@.len() > 0
        &&& self.passphrase@.len() == KEY_LEN
    }

    /// The plugin's id.
    pub closed spec fn id(self) -> Seq<char> {
        self.plugin_id@
    }

    /// The AES-256 key that seals the plugin's values.
    pub closed spec fn key(self) -> Seq<u8> {
        self.passphrase@
    }

    /// A storage for `plugin_id` whose values are sealed under `passphrase`. An empty plugin id
    /// is refused.
    pub fn new(passphrase: &[u8], plugin_id: String) -> (res: Result<Self, PluginStorageError>)
        requires
            plugin_id@.len() > 0 ==> passphrase@.len() == KEY_LEN,
        ensures
            res is Err <==> plugin_id@.len() == 0,
            res matches Err(e) ==> (e matches PluginStorageError::Generic { err }
                && err@ == "Plugin ID cannot be an empty string!"@),
            res matches Ok(storage) ==> storage.id() == plugin_id@ && storage.key() == passphrase@,
    {
        if plugin_id.as_str().is_empty() {
            return Err(PluginStorageError::Generic { err: String::from_str("Plugin ID cannot be an empty string!") });
        }
        let mut key: Vec<u8> = Vec::new();
        key.extend_from_slice(passphrase);
        assert(key@ =~= passphrase@);
        Ok(PluginStorage { plugin_id, passphrase: key })
    }

    /// The plugin's id.
    pub fn plugin_id(&self) -> (id: &String)
        ensures
            id@ == self.id(),
    {
        &self.plugin_id
    }

    /// The backend key under which the plugin's `key` is stored: the plugin id, a dash, and
    /// the key.
    pub fn scoped_key(&self, key: &str) -> (scoped: String)
        ensures
            scoped@ == self.id() + seq!['-'] + key@,
    {
        proof {
            reveal_strlit("-");
        }
        let mut scoped = self.plugin_id.clone();
        scoped.append("-");
        scoped.append(key);
        scoped
    }

    /// Seals `data` with the given nonce into the text that the backend stores.
    pub fn encrypt_with_nonce(&self, data: &str, nonce: &[u8]) -> (res: StorageResult<String>)
        requires
            nonce@.len() == NONCE_LEN,
        ensures
            res is Ok <==> encode_utf8(data@).len() <= MAX_PLAINTEXT_LEN,
            res matches Ok(text) ==> text@ == sealed_text(self.key(), nonce@, data@),
            res matches Ok(text) ==> opened_text(self.key(), text@) == Some(data@),
            res matches Err(e) ==> e is Encryption,
    {
        proof {
            use_type_invariant(self);
        }
        let encrypted = match aes256_gcm_encrypt(self.passphrase.as_slice(), nonce, data.as_bytes()) {
            Ok(encrypted) => encrypted,
            Err(err) => return Err(PluginStorageError::from_aead(err)),
        };
        let mut payload: Vec<u8> = Vec::new();
        payload.extend_from_slice(nonce);
        payload.extend_from_slice(encrypted.as_slice());
        assert(payload@ =~= nonce@ + encrypted@);
        let text = hex_encode(payload.as_slice());
        proof {
            lemma_hex_decoding_inverts_encoding(payload@);
            assert(payload@.subrange(0, NONCE_LEN as int) =~= nonce@);
            assert(payload@.subrange(NONCE_LEN as int, payload@.len() as int) =~= encrypted@);
            encode_utf8_valid_utf8(data@);
            encode_utf8_decode_utf8(data@);
        }
        Ok(text)
    }

    /// Seals `data` under a fresh random nonce into the text that the backend stores.
    pub fn encrypt(&self, data: &str) -> (res: StorageResult<String>)
        ensures
            res is Ok <==> encode_utf8(data@).len() <= MAX_PLAINTEXT_LEN,
            res matches Ok(text) ==> exists|nonce: Seq<u8>|
                nonce.len() == NONCE_LEN && text@ == #[trigger] sealed_text(self.key(), nonce, data@),
            res matches Ok(text) ==> opened_text(self.key(), text@) == Some(data@),
            res matches Err(e) ==> e is Encryption,
    {
        let nonce = random_nonce();
        self.encrypt_with_nonce(data, nonce.as_slice())
    }

    /// Opens a stored text back into the value that was sealed into it. Every text that
    /// `encrypt` made under this storage's key opens to the value it was made from.
    pub fn decrypt(&self, data: &str) -> (res: StorageResult<String>)
        requires
            openable(data@),
        ensures
            res is Ok <==> opened_text(self.key(), data@) is Some,
            res matches Ok(text) ==> opened_text(self.key(), data@) == Some(text@),
            res matches Err(e) ==> e is Encryption,
            forall|nonce: Seq<u8>, plaintext: Seq<char>|
                nonce.len() == NONCE_LEN && encode_utf8(plaintext).len() <= MAX_PLAINTEXT_LEN
                    && data@ == #[trigger] sealed_text(self.key(), nonce, plaintext)
                    ==> (res matches Ok(text) && text@ == plaintext),
    {
        proof {
            use_type_invariant(self);
        }
        let decoded = match hex_decode(data) {
            Ok(decoded) => decoded,
            Err(err) => {
                proof {
                    assert forall|n: Seq<u8>, p: Seq<char>|
                        n.len() == NONCE_LEN && data@ == #[trigger] sealed_text(self.key(), n, p)
                    implies false by {
                        lemma_sealed_text_bytes(self.key(), n, p);
                    }
                }
                return Err(PluginStorageError::Encryption { err: err.to_string() });
            },
        };
        let (nonce, sealed) = decoded.as_slice().split_at(NONCE_LEN);
        let decrypted = match aes256_gcm_decrypt(self.passphrase.as_slice(), nonce, sealed) {
            Ok(decrypted) => decrypted,
            Err(err) => {
                proof {
                    assert forall|n: Seq<u8>, p: Seq<char>|
                        n.len() == NONCE_LEN && encode_utf8(p).len() <= MAX_PLAINTEXT_LEN
                            && data@ == #[trigger] sealed_text(self.key(), n, p)
                    implies false by {
                        lemma_sealed_text_bytes(self.key(), n, p);
                        assert(nonce@ =~= n);
                        assert(sealed@ =~= aes256_gcm_seal(self.key(), n, encode_utf8(p)));
                    }
                }
                return Err(PluginStorageError::from_aead(err));
            },
        };
        let ghost plain = decrypted@;
        proof {
            assert forall|n: Seq<u8>, p: Seq<char>|
                n.len() == NONCE_LEN && encode_utf8(p).len() <= MAX_PLAINTEXT_LEN
                    && data@ == #[trigger] sealed_text(self.key(), n, p)
            implies plain == encode_utf8(p) by {
                lemma_sealed_text_bytes(self.key(), n, p);
                assert(nonce@ =~= n);
                assert(sealed@ =~= aes256_gcm_seal(self.key(), n, encode_utf8(p)));
            }
        }
        let result = match string_from_utf8(decrypted) {
            Ok(result) => result,
            Err(err) => {
                proof {
                    assert forall|n: Seq<u8>, p: Seq<char>|
                        n.len() == NONCE_LEN && encode_utf8(p).len() <= MAX_PLAINTEXT_LEN
                            && data@ == #[trigger] sealed_text(self.key(), n, p)
                    implies false by {
                        encode_utf8_valid_utf8(p);
                    }
                }
                return Err(PluginStorageError::Encryption { err: err.to_string() });
            },
        };
        proof {
            assert forall|n: Seq<u8>, p: Seq<char>|
                n.len() == NONCE_LEN && encode_utf8(p).len() <= MAX_PLAINTEXT_LEN
                    && data@ == #[trigger] sealed_text(self.key(), n, p)
            implies result@ == p by {
                encode_utf8_decode_utf8(p);
            }
        }
        Ok(result)
    }

    /// What a write of `value` under `key` hands the backend: the scoped key and the sealed
    /// value.
    pub fn seal_item(&self, key: &str, value: &str) -> (res: StorageResult<(String, String)>)
        ensures
            res is Ok <==> encode_utf8(value@).len() <= MAX_PLAINTEXT_LEN,
            res matches Ok((scoped, sealed)) ==> scoped@ == self.id() + seq!['-'] + key@
                && exists|nonce: Seq<u8>| nonce.len() == NONCE_LEN
                    && sealed@ == #[trigger] sealed_text(self.key(), nonce, value@),
            res matches Err(e) ==> e is Encryption,
    {
        let scoped = self.scoped_key(key);
        let sealed = self.encrypt(value)?;
        Ok((scoped, sealed))
    }

    /// What a safe write of `value` over `old_value` under `key` hands the backend, given the
    /// text that the backend holds under the scoped key: the scoped key, the sealed new value,
    /// and the stored text for the backend to compare against before it writes. A stored value
    /// that opens to something other than `old_value` has changed since it was read, and the
    /// write is refused with `DataTooOld`; when nothing is stored there is nothing to compare.
    /// What is handed over reads back as `value`.
    pub fn seal_item_safe(&self, key: &str, value: &str, old_value: &str, stored: Option<String>) -> (res: StorageResult<(String, String, Option<String>)>)
        requires
            stored matches Some(text) ==> openable(text@),
        ensures
            match stored {
                None => res is Ok <==> encode_utf8(value@).len() <= MAX_PLAINTEXT_LEN,
                Some(text) => match opened_text(self.key(), text@) {
                    None => res matches Err(e) && e is Encryption,
                    Some(current) => if current == old_value@ {
                        res is Ok <==> encode_utf8(value@).len() <= MAX_PLAINTEXT_LEN
                    } else {
                        res == Err::<(String, String, Option<String>), PluginStorageError>(PluginStorageError::DataTooOld)
                    },
                },
            },
            res matches Ok((scoped, sealed, previous)) ==> {
                &&& scoped@ == self.id() + seq!['-'] + key@
                &&& exists|nonce: Seq<u8>| nonce.len() == NONCE_LEN && sealed@ == #[trigger] sealed_text(self.key(), nonce, value@)
                &&& opened_text(self.key(), sealed@) == Some(value@)
                &&& previous == stored
            },
            res matches Err(e) ==> e is Encryption || e is DataTooOld,
    {
        let scoped = self.scoped_key(key);
        match &stored {
            Some(text) => {
                let current = match self.decrypt(text.as_str()) {
                    Ok(current) => current,
                    Err(err) => return Err(err),
                };
                let old = String::from_str(old_value);
                if !(current == old) {
                    return Err(PluginStorageError::DataTooOld);
                }
            },
            None => {},
        }
        match self.encrypt(value) {
            Ok(sealed) => Ok((scoped, sealed, stored)),
            Err(err) => Err(err),
        }
    }

    /// The value that a read gives back from what the backend holds: nothing when it holds
    /// nothing, the opened value otherwise. What a write sealed under this storage's key reads
    /// back as the value written.
    pub fn open_item(&self, stored: Option<String>) -> (res: StorageResult<Option<String>>)
        requires
            stored matches Some(text) ==> openable(text@),
        ensures
            match stored {
                None => res matches Ok(None),
                Some(text) => {
                    &&& res is Ok <==> opened_text(self.key(), text@) is Some
                    &&& res matches Ok(value) ==> value matches Some(v) && opened_text(self.key(), text@) == Some(v@)
                    &&& res matches Err(e) ==> e is Encryption
                    &&& forall|nonce: Seq<u8>, plaintext: Seq<char>|
                        nonce.len() == NONCE_LEN && encode_utf8(plaintext).len() <= MAX_PLAINTEXT_LEN
                            && text@ == #[trigger] sealed_text(self.key(), nonce, plaintext)
                            ==> (res matches Ok(Some(v)) && v@ == plaintext)
                },
            },
    {
        match stored {
            Some(text) => {
                let value = self.decrypt(text.as_str())?;
                Ok(Some(value))
            },
            None => Ok(None),
        }
    }
}

} // verus!
