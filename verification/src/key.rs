//! Provisioning of the 256-bit key that protects the worker's credential cache.
//!
//! The key lives in a backing store (the OS secret store, or a key file).
//! Reading and writing the store is the host's work; every decision about
//! what was read, and what to do next, is made here.

use crate::encoding::{
    base64_decoded, base64_encoded, base64_len, decode_standard, encode_standard, is_base64_char,
    random_bytes, random_error_text,
};
use crate::locate::{join_path, joined, Platform};
use crate::text::{
    concat, eq_ignore_ascii_case, lemma_trimmed_is_fixed,
    same_ignoring_ascii_case, same_text, trim, trimmed,
};
use vstd::string::*;
use vstd::prelude::*;

verus! {

/// Length of the cache key in bytes.
pub const KEY_LEN: usize = 32;

/// Which backing store supplied the cache key.
#[derive(Debug, Clone, Copy, PartialEq, Eq, Structural)]
pub enum KeySource {
    Keyring,
    File,
    NoKey,
}

impl KeySource {
    /// The tag handed to the worker.
    pub open spec fn tag(self) -> Seq<char> {
        match self {
            KeySource::Keyring => "keyring"@,
            KeySource::File => "file"@,
            KeySource::NoKey => "none"@,
        }
    }

    /// The tag handed to the worker.
    pub fn as_str(&self) -> (out: &'static str)
        ensures
            out@ == self.tag(),
    {
        match self {
            KeySource::Keyring => "keyring",
            KeySource::File => "file",
            KeySource::NoKey => "none",
        }
    }
}

/// Whether `value` is a usable stored key: after trimming it is not empty
/// and decodes to exactly `KEY_LEN` bytes.
pub open spec fn valid_key_text(value: Seq<char>) -> bool {
    &&& trimmed(value).len() > 0
    &&& base64_decoded(trimmed(value)) matches Some(bytes)
    &&& bytes.len() == KEY_LEN
}

/// Whether a decoding result is a key of the right length.
pub fn is_key_sized(decoded: &Option<Vec<u8>>) -> (r: bool)
    ensures
        r == (decoded matches Some(bytes) && bytes@.len() == KEY_LEN),
{
    match decoded {
        Some(bytes) => bytes.len() == KEY_LEN,
        None => false,
    }
}

/// Whether `value` holds a valid base64 cache key.
pub fn is_valid_cache_key_b64(value: &str) -> (r: bool)
    ensures
        r == valid_key_text(value@),
{
    let t = trim(value);
    if t.as_str().unicode_len() == 0 {
        return false;
    }
    let decoded = decode_standard(t.as_str());
    is_key_sized(&decoded)
}

/// Why a key could not be obtained from a store. Each variant carries the
/// underlying failure's text.
#[derive(Debug, PartialEq, Eq)]
pub enum KeyError {
    KeyringInit(String),
    KeyringRead(String),
    KeyringWrite(String),
    Generate(String),
    CreateDir(String),
    WriteFile(String),
}

impl KeyError {
    /// The wording that introduces the underlying failure.
    pub open spec fn prefix(self) -> Seq<char> {
        match self {
            KeyError::KeyringInit(_) => "Failed to initialize keyring: "@,
            KeyError::KeyringRead(_) => "Failed to read keyring entry: "@,
            KeyError::KeyringWrite(_) => "Failed to write keyring entry: "@,
            KeyError::Generate(_) => "Failed to generate cache key: "@,
            KeyError::CreateDir(_) => "Failed to create cache key directory: "@,
            KeyError::WriteFile(_) => "Failed to write cache key file: "@,
        }
    }

    /// The underlying failure's text.
    pub open spec fn detail(self) -> Seq<char> {
        match self {
            KeyError::KeyringInit(e) => e@,
            KeyError::KeyringRead(e) => e@,
            KeyError::KeyringWrite(e) => e@,
            KeyError::Generate(e) => e@,
            KeyError::CreateDir(e) => e@,
            KeyError::WriteFile(e) => e@,
        }
    }

    /// The full diagnostic: prefix, then detail.
    pub fn message(&self) -> (out: String)
        ensures
            out@ == self.prefix() + self.detail(),
    {
        match self {
            KeyError::KeyringInit(e) => concat("Failed to initialize keyring: ", e.as_str()),
            KeyError::KeyringRead(e) => concat("Failed to read keyring entry: ", e.as_str()),
            KeyError::KeyringWrite(e) => concat("Failed to write keyring entry: ", e.as_str()),
            KeyError::Generate(e) => concat("Failed to generate cache key: ", e.as_str()),
            KeyError::CreateDir(e) => concat("Failed to create cache key directory: ", e.as_str()),
            KeyError::WriteFile(e) => concat("Failed to write cache key file: ", e.as_str()),
        }
    }
}

/// The secret-store service under which the key is kept.
pub fn keyring_service() -> (out: &'static str)
    ensures
        out@ == "Entra Token Studio"@,
{
    "Entra Token Studio"
}

/// The secret-store account for `identifier`.
pub fn keyring_account(identifier: &str) -> (out: String)
    ensures
        out@ == identifier@ + ":msal-cache-key"@,
{
    concat(identifier, ":msal-cache-key")
}

/// The key file's name for `identifier`.
pub fn cache_key_file_name(identifier: &str) -> (out: String)
    ensures
        out@ == "msal-cache-key."@ + identifier@ + ".b64"@,
{
    let head = concat("msal-cache-key.", identifier);
    concat(head.as_str(), ".b64")
}

/// The key file for `identifier` in the directory `data_dir`. The file's
/// name holds the identifier, so that different builds do not share a key.
pub fn cache_key_file_path(data_dir: &str, identifier: &str, platform: Platform) -> (out: String)
    ensures
        out@ == joined(data_dir@, "msal-cache-key."@ + identifier@ + ".b64"@, platform),
{
    let name = cache_key_file_name(identifier);
    join_path(data_dir, name.as_str(), platform)
}

/// What reading the secret store gave.
#[derive(Debug, PartialEq, Eq)]
pub enum StoreRead {
    /// The entry exists and holds this text.
    Found(String),
    /// The store answered that there is no such entry.
    Missing,
    /// The store could not be read; the entry may still exist.
    Failed(String),
}

/// What to do after reading a store.
#[derive(Debug, PartialEq, Eq)]
pub enum StoreDecision {
    /// Use this key; leave the store as it is.
    Reuse(String),
    /// Create a new key and store it in place of what was read.
    Regenerate,
    /// Stop without touching the store.
    GiveUp(KeyError),
}

/// The key that a secret-store entry gives for reuse: the entry itself when
/// it is not blank.
pub open spec fn reusable_keyring_entry(entry: Option<Seq<char>>) -> Option<Seq<char>> {
    match entry {
        Some(s) => if trimmed(s).len() > 0 {
            Some(s)
        } else {
            None
        },
        None => None,
    }
}

/// The key that a key file gives for reuse: its trimmed content when that is
/// a valid key.
pub open spec fn reusable_file_key(content: Option<Seq<char>>) -> Option<Seq<char>> {
    match content {
        Some(s) => if valid_key_text(s) {
            Some(trimmed(s))
        } else {
            None
        },
        None => None,
    }
}

/// A run against a store that can be read and written, as the pair of the
/// key returned and the store's content afterwards. `reusable` is the key
/// that the store gives for reuse, `fresh` the key created if there is none.
pub open spec fn run_on_store(
    content: Option<Seq<char>>,
    reusable: Option<Seq<char>>,
    fresh: Seq<char>,
) -> (Seq<char>, Option<Seq<char>>) {
    match reusable {
        Some(k) => (k, content),
        None => (fresh, Some(fresh)),
    }
}

/// A run against the key file.
pub open spec fn run_on_file(content: Option<Seq<char>>, fresh: Seq<char>) -> (
    Seq<char>,
    Option<Seq<char>>,
) {
    run_on_store(content, reusable_file_key(content), fresh)
}

/// A run against the secret store.
pub open spec fn run_on_keyring(entry: Option<Seq<char>>, fresh: Seq<char>) -> (
    Seq<char>,
    Option<Seq<char>>,
) {
    run_on_store(entry, reusable_keyring_entry(entry), fresh)
}

/// A key file that holds a valid key is never rewritten: every run returns
/// the same key, whatever key a run could have created instead.
pub proof fn law_valid_file_key_is_stable(content: Seq<char>, fresh_a: Seq<char>, fresh_b: Seq<char>)
    requires
        valid_key_text(content),
    ensures
        run_on_file(Some(content), fresh_a) == (trimmed(content), Some(content)),
        run_on_file(run_on_file(Some(content), fresh_a).1, fresh_b).0 == run_on_file(
            Some(content),
            fresh_a,
        ).0,
{
}

/// A key file that is missing or does not hold a valid key is overwritten
/// with the newly created key, which the run returns.
pub proof fn law_invalid_file_key_is_replaced(content: Option<Seq<char>>, fresh: Seq<char>)
    requires
        content matches Some(s) ==> !valid_key_text(s),
    ensures
        run_on_file(content, fresh) == (fresh, Some(fresh)),
{
}

/// A key file that is replaced holds a key that is not what it held
/// before and that the next run reuses: where the content is no valid
/// key and the key created is valid and free of surrounding whitespace, as
/// every key created here is, the run returns the new key, the file holds
/// exactly the new key, and a further run returns it again.
pub proof fn law_replaced_file_key_is_new_and_kept(
    content: Option<Seq<char>>,
    fresh: Seq<char>,
    later: Seq<char>,
)
    requires
        content matches Some(s) ==> !valid_key_text(s),
        valid_key_text(fresh),
        trimmed(fresh) == fresh,
    ensures
        run_on_file(content, fresh) == (fresh, Some(fresh)),
        content matches Some(s) ==> trimmed(s) != fresh,
        run_on_file(run_on_file(content, fresh).1, later) == (fresh, Some(fresh)),
{
}

/// A secret-store entry that is not blank is never rewritten: every run
/// returns it unchanged.
pub proof fn law_keyring_entry_is_stable(entry: Seq<char>, fresh_a: Seq<char>, fresh_b: Seq<char>)
    requires
        trimmed(entry).len() > 0,
    ensures
        run_on_keyring(Some(entry), fresh_a) == (entry, Some(entry)),
        run_on_keyring(run_on_keyring(Some(entry), fresh_a).1, fresh_b).0 == entry,
{
}

/// A secret-store entry that is missing or blank is replaced by the newly
/// created key, which the run returns.
pub proof fn law_blank_keyring_entry_is_replaced(entry: Option<Seq<char>>, fresh: Seq<char>)
    requires
        entry matches Some(s) ==> trimmed(s).len() == 0,
    ensures
        run_on_keyring(entry, fresh) == (fresh, Some(fresh)),
{
}

/// Decides what to do with what the secret store returned.
///
/// A non-blank entry is reused as it stands. A blank or missing entry is
/// replaced. After any other failure the store is left alone: the entry may
/// exist and merely be unreadable now, and replacing it would orphan what it
/// protects.
pub fn keyring_decision(read: StoreRead) -> (out: StoreDecision)
    ensures
        match read {
            StoreRead::Found(s) => match reusable_keyring_entry(Some(s@)) {
                Some(key) => out matches StoreDecision::Reuse(k) && k@ == key,
                None => out is Regenerate,
            },
            StoreRead::Missing => out is Regenerate,
            StoreRead::Failed(e) => out matches StoreDecision::GiveUp(KeyError::KeyringRead(t))
                && t@ == e@,
        },
{
    match read {
        StoreRead::Found(s) => {
            let t = trim(s.as_str());
            if t.as_str().unicode_len() > 0 {
                StoreDecision::Reuse(s)
            } else {
                StoreDecision::Regenerate
            }
        },
        StoreRead::Missing => StoreDecision::Regenerate,
        StoreRead::Failed(e) => StoreDecision::GiveUp(KeyError::KeyringRead(e)),
    }
}

/// Decides what to do with the key file's content, `None` when it could not
/// be read. A valid key is reused, trimmed; anything else is replaced.
pub fn file_decision(existing: Option<String>) -> (out: StoreDecision)
    ensures
        match reusable_file_key(
            match existing {
                Some(s) => Some(s@),
                None => None,
            },
        ) {
            Some(key) => out matches StoreDecision::Reuse(k) && k@ == key,
            None => out is Regenerate,
        },
{
    match existing {
        Some(s) => {
            if is_valid_cache_key_b64(s.as_str()) {
                StoreDecision::Reuse(trim(s.as_str()))
            } else {
                StoreDecision::Regenerate
            }
        },
        None => StoreDecision::Regenerate,
    }
}

/// Whether `text` is the encoding of some key of `KEY_LEN` bytes.
pub open spec fn is_fresh_key(text: Seq<char>) -> bool {
    exists|bytes: Seq<u8>| bytes.len() == KEY_LEN && text == #[trigger] base64_encoded(bytes)
}

/// Turns the outcome of drawing the key's `KEY_LEN` random bytes into a
/// key: the bytes' encoding, or the failure. The key is stored as it is
/// returned, and passes the validity check when it is read back.
pub fn cache_key_from(random: Result<Vec<u8>, String>) -> (out: Result<String, KeyError>)
    requires
        random matches Ok(bytes) ==> bytes@.len() == KEY_LEN,
    ensures
        match random {
            Ok(bytes) => out matches Ok(k) && k@ == base64_encoded(bytes@) && k@.len() == 44
                && valid_key_text(k@) && trimmed(k@) == k@ && base64_decoded(k@) == Some(bytes@),
            Err(e) => out matches Err(KeyError::Generate(t)) && t@ == e@,
        },
{
    match random {
        Ok(bytes) => {
            let key = encode_standard(&bytes);
            proof {
                assert(key@.len() == base64_len(KEY_LEN as nat));
                assert(is_base64_char(key@[0]) && is_base64_char(key@.last()));
                lemma_trimmed_is_fixed(key@);
            }
            Ok(key)
        },
        Err(e) => Err(KeyError::Generate(e)),
    }
}

/// Creates a new key from `KEY_LEN` random bytes. A key that is created
/// has 44 characters and is valid: written to a store, it is reused by the
/// next run.
pub fn generate_cache_key_b64() -> (out: Result<String, KeyError>)
    ensures
        match out {
            Ok(k) => is_fresh_key(k@) && k@.len() == 44 && valid_key_text(k@) && trimmed(k@) == k@,
            Err(e) => e is Generate,
        },
{
    let random = match random_bytes(KEY_LEN) {
        Ok(bytes) => Ok(bytes),
        Err(e) => Err(random_error_text(&e)),
    };
    cache_key_from(random)
}

/// The result of writing `key` to the store named by `source`: the key once
/// it is stored, the write's failure otherwise.
pub fn stored_key(key: String, written: Result<(), String>, source: KeySource) -> (out: Result<
    String,
    KeyError,
>)
    ensures
        match written {
            Ok(_) => out matches Ok(k) && k@ == key@,
            Err(e) => if source == KeySource::Keyring {
                out matches Err(KeyError::KeyringWrite(t)) && t@ == e@
            } else {
                out matches Err(KeyError::WriteFile(t)) && t@ == e@
            },
        },
{
    match written {
        Ok(_) => Ok(key),
        Err(e) => match source {
            KeySource::Keyring => Err(KeyError::KeyringWrite(e)),
            _ => Err(KeyError::WriteFile(e)),
        },
    }
}

/// Whether a switch read from the environment is on: its value is `1`, or
/// `true` in any ASCII case.
pub open spec fn flag_on(value: Option<Seq<char>>) -> bool {
    value matches Some(v) && (v == "1"@ || same_ignoring_ascii_case(v, "true"@))
}

/// Whether a switch read from the environment is on.
pub fn env_flag_enabled(value: Option<&str>) -> (r: bool)
    ensures
        r == flag_on(
            match value {
                Some(v) => Some(v@),
                None => None,
            },
        ),
{
    match value {
        Some(v) => same_text(v, "1") || eq_ignore_ascii_case(v, "true"),
        None => false,
    }
}

/// The switch that makes a development build try the secret store first.
pub fn dev_use_keyring_variable() -> (out: &'static str)
    ensures
        out@ == "ENTRA_TOKEN_STUDIO_DEV_USE_KEYRING"@,
{
    "ENTRA_TOKEN_STUDIO_DEV_USE_KEYRING"
}

/// Which store a run tries first.
#[derive(Debug, Clone, Copy, PartialEq, Eq, Structural)]
pub struct ProvisionPolicy {
    /// Try the OS secret store before the key file.
    pub prefer_keyring: bool,
}

/// The policy of a build. A release build tries the secret store first. A
/// development build goes straight to the key file, so that restarts keep
/// the cached credentials, unless it is asked to try the secret store
/// first. Whichever comes first, the key file is what a run falls back on.
pub fn provision_policy(debug_build: bool, dev_use_keyring: Option<&str>) -> (out: ProvisionPolicy)
    ensures
        out.prefer_keyring == (!debug_build || flag_on(
            match dev_use_keyring {
                Some(v) => Some(v@),
                None => None,
            },
        )),
{
    ProvisionPolicy { prefer_keyring: !debug_build || env_flag_enabled(dev_use_keyring) }
}

/// How far the attempt on one store has come.
#[derive(Debug, PartialEq, Eq)]
pub enum KeyAttempt {
    NotTried,
    Failed,
    Obtained(String),
}

/// The values handed to the worker at spawn: the data directory, the cache
/// key if one was provisioned, and where the key came from.
#[derive(Debug, PartialEq, Eq)]
pub struct SidecarEnv {
    pub data_dir: Option<String>,
    pub cache_key_b64: Option<String>,
    pub cache_key_source: KeySource,
}

impl SidecarEnv {
    /// A key is present exactly when its source is a store.
    pub open spec fn well_formed(self) -> bool {
        (self.cache_key_b64 is None) <==> (self.cache_key_source == KeySource::NoKey)
    }
}

/// The store that a run tries next, `None` when the run is over: the
/// secret store first where the policy prefers it; then, unless the secret
/// store gave a key, the key file, where a data directory is known.
pub open spec fn store_to_try(
    policy: ProvisionPolicy,
    has_data_dir: bool,
    keyring: KeyAttempt,
    file: KeyAttempt,
) -> Option<KeySource> {
    if policy.prefer_keyring && keyring is NotTried {
        Some(KeySource::Keyring)
    } else if keyring is Obtained {
        None
    } else if has_data_dir && file is NotTried {
        Some(KeySource::File)
    } else {
        None
    }
}

/// A store is tried at most once in a run, the key file only while the
/// secret store has given no key and only where a data directory is known.
/// So a run ends after two attempts at most.
pub proof fn law_each_store_is_tried_once(
    policy: ProvisionPolicy,
    has_data_dir: bool,
    keyring: KeyAttempt,
    file: KeyAttempt,
)
    ensures
        match store_to_try(policy, has_data_dir, keyring, file) {
            Some(KeySource::Keyring) => keyring is NotTried && policy.prefer_keyring,
            Some(KeySource::File) => file is NotTried && keyring !is Obtained && has_data_dir,
            Some(KeySource::NoKey) => false,
            None => true,
        },
{
}

/// A secret store that gives no key is no end: in every build, where a
/// data directory is known, the key file is tried next.
pub proof fn law_failed_keyring_falls_back_to_file(policy: ProvisionPolicy)
    ensures
        store_to_try(policy, true, KeyAttempt::Failed, KeyAttempt::NotTried) == Some(
            KeySource::File,
        ),
{
}

/// There is no key only when both stores have failed or could not be
/// tried: a run that is over without a key has used up every store open
/// to it.
pub proof fn law_no_key_only_after_every_store(
    policy: ProvisionPolicy,
    has_data_dir: bool,
    keyring: KeyAttempt,
    file: KeyAttempt,
)
    requires
        store_to_try(policy, has_data_dir, keyring, file) is None,
        keyring !is Obtained,
        file !is Obtained,
    ensures
        policy.prefer_keyring ==> keyring is Failed,
        has_data_dir ==> file is Failed,
{
}

/// The store to try next, given what was tried so far; `None` when
/// provisioning is over.
pub fn next_store(
    policy: &ProvisionPolicy,
    has_data_dir: bool,
    keyring: &KeyAttempt,
    file: &KeyAttempt,
) -> (out: Option<KeySource>)
    ensures
        out == store_to_try(*policy, has_data_dir, *keyring, *file),
{
    if policy.prefer_keyring && matches!(keyring, KeyAttempt::NotTried) {
        Some(KeySource::Keyring)
    } else if matches!(keyring, KeyAttempt::Obtained(_)) {
        None
    } else if has_data_dir && matches!(file, KeyAttempt::NotTried) {
        Some(KeySource::File)
    } else {
        None
    }
}

/// Records the outcome of provisioning. The secret store's key wins over the
/// key file's; with neither there is no key, and the source says so.
pub fn init_sidecar_env(data_dir: Option<String>, keyring: KeyAttempt, file: KeyAttempt) -> (out:
    SidecarEnv)
    ensures
        out.well_formed(),
        out.data_dir == data_dir,
        match (keyring, file) {
            (KeyAttempt::Obtained(k), _) => out.cache_key_source == KeySource::Keyring
                && out.cache_key_b64 == Some(k),
            (_, KeyAttempt::Obtained(k)) => out.cache_key_source == KeySource::File
                && out.cache_key_b64 == Some(k),
            _ => out.cache_key_source == KeySource::NoKey && out.cache_key_b64 is None,
        },
{
    match keyring {
        KeyAttempt::Obtained(k) => SidecarEnv {
            data_dir,
            cache_key_b64: Some(k),
            cache_key_source: KeySource::Keyring,
        },
        _ => match file {
            KeyAttempt::Obtained(k) => SidecarEnv {
                data_dir,
                cache_key_b64: Some(k),
                cache_key_source: KeySource::File,
            },
            _ => SidecarEnv {
                data_dir,
                cache_key_b64: None,
                cache_key_source: KeySource::NoKey,
            },
        },
    }
}

} // verus!
