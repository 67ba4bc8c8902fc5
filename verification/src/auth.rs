//! API keys: their textual form, their hashed form as stored, and the
//! decision whether a user-provided key authenticates a project.

use vstd::prelude::*;
use crate::strings::{first_index_of, lemma_first_index_of, lemma_first_index_unique, chars_of,
    substring, owned, concat, same_text};
use crate::text::push_char;
use crate::clock::now_unix_seconds;
use base64::Engine;
use sha2::Digest;

verus! {

/// The text every secret API key starts with.
pub const API_KEY_PREFIX: &'static str = "sk_";

/// The characters of `API_KEY_PREFIX`.
pub open spec fn key_prefix() -> Seq<char> {
    seq!['s', 'k', '_']
}

/// The pattern of text that may hold a secret key.
pub const SECRET_KEY_PATTERN: &'static str = "sk_[0-9a-f]{32}_[0-9a-f]{32}";

// ---------------------------------------------------------------------------
// Outside crates: sha2, base64, regex, uuid
// ---------------------------------------------------------------------------

/// The SHA-512 digest of a byte sequence.
pub uninterp spec fn sha512(data: Seq<u8>) -> Seq<u8>;

/// The standard (padded) base64 encoding of a byte sequence.
pub uninterp spec fn base64_standard(data: Seq<u8>) -> Seq<char>;

/// What searching `haystack` with the regular expression `pattern` gives:
/// `None` when the pattern does not compile, else whether it matches
/// somewhere in the haystack.
pub uninterp spec fn regex_search(pattern: Seq<char>, haystack: Seq<char>) -> Option<bool>;

/// `sha2::Sha512::digest`: the digest is a function of the input; it is 64
/// bytes long.
#[verifier::external_body]
fn sha512_digest(data: &[u8]) -> (digest: Vec<u8>)
    ensures
        digest@ == sha512(data@),
        digest@.len() == 64,
{
    sha2::Sha512::digest(data).as_slice().to_vec()
}

/// `base64::engine::general_purpose::STANDARD.encode`.
#[verifier::external_body]
fn base64_encode(data: &[u8]) -> (text: String)
    ensures
        text@ == base64_standard(data@),
{
    base64::engine::general_purpose::STANDARD.encode(data)
}

/// `regex::Regex::new(pattern)` followed by `is_match(haystack)`; a pattern
/// that does not compile gives `None`.
#[verifier::external_body]
fn regex_is_match(pattern: &str, haystack: &str) -> (r: Option<bool>)
    ensures
        r == regex_search(pattern@, haystack@),
{
    match regex::Regex::new(pattern) {
        Ok(re) => Some(re.is_match(haystack)),
        Err(_) => None,
    }
}

/// Whether a character is a lower-case hexadecimal digit.
pub open spec fn is_lower_hex(c: char) -> bool {
    ('0' <= c && c <= '9') || ('a' <= c && c <= 'f')
}

/// Whether a text is a simple-format UUID: 32 lower-case hexadecimal digits.
pub open spec fn is_simple_uuid(s: Seq<char>) -> bool {
    s.len() == 32 && forall|i: int| 0 <= i < 32 ==> is_lower_hex(#[trigger] s[i])
}

/// `uuid::Uuid::new_v4().simple().to_string()`: a random UUID in simple
/// format, which the uuid crate writes as 32 lower-case hexadecimal digits.
/// Which UUID comes out is random and not stated.
#[verifier::external_body]
fn random_simple_uuid() -> (id: String)
    ensures
        is_simple_uuid(id@),
{
    uuid::Uuid::new_v4().simple().to_string()
}

// ---------------------------------------------------------------------------
// Errors
// ---------------------------------------------------------------------------

/// Errors the HTTP API answers with.
pub enum ApiError {
    BadRequest(String),
    Unauthorized,
    Forbidden,
    NotFound(String),
    UnprocessableContent(String),
    ServiceUnavailable,
}

/// Why authentication failed.
pub enum AuthError {
    /// The key store failed; holds its message.
    Database(String),
    /// The key is unknown or its secret does not match.
    AuthFailed(String),
    /// The stored key cannot be checked.
    Internal(String),
}

/// The answer the API gives for an authentication error.
pub open spec fn api_error_for(value: AuthError) -> ApiError {
    match value {
        AuthError::Database(_) => ApiError::ServiceUnavailable,
        AuthError::Internal(_) => ApiError::ServiceUnavailable,
        AuthError::AuthFailed(_) => ApiError::Unauthorized,
    }
}

impl From<AuthError> for ApiError {
    /// Store and internal failures make the service unavailable, a failed
    /// check makes the caller unauthorized.
    fn from(value: AuthError) -> (e: ApiError) {
        match value {
            AuthError::Database(_) => ApiError::ServiceUnavailable,
            AuthError::Internal(_) => ApiError::ServiceUnavailable,
            AuthError::AuthFailed(_) => ApiError::Unauthorized,
        }
    }
}

impl vstd::std_specs::convert::FromSpecImpl<AuthError> for ApiError {
    open spec fn obeys_from_spec() -> bool {
        true
    }

    open spec fn from_spec(value: AuthError) -> ApiError {
        api_error_for(value)
    }
}

// ---------------------------------------------------------------------------
// Hash versions
// ---------------------------------------------------------------------------

/// The scheme a stored key hash was made with.
pub enum HashVersion {
    V1,
}

impl Default for HashVersion {
    fn default() -> (v: HashVersion)
        ensures
            v is V1,
    {
        HashVersion::V1
    }
}

/// The name of the first hash scheme.
pub open spec fn v1_name() -> Seq<char> {
    seq!['v', '1']
}

impl HashVersion {
    /// The name the version is stored under.
    pub fn to_text(&self) -> (s: String)
        ensures
            s@ == v1_name(),
    {
        let mut s = String::new();
        push_char(&mut s, 'v');
        push_char(&mut s, '1');
        s
    }

    /// Reads a stored version name; an unknown one gives
    /// `Invalid version: <name>`.
    pub fn from_str(s: &str) -> (r: Result<HashVersion, String>)
        ensures
            s@ == v1_name() ==> r matches Ok(HashVersion::V1),
            s@ != v1_name() ==> (r matches Err(msg) && msg@ == "Invalid version: "@ + s@),
    {
        let v = chars_of(s);
        if v.len() == 2 && v[0] == 'v' && v[1] == '1' {
            assert(s@ == v1_name());
            Ok(HashVersion::V1)
        } else {
            Err(concat("Invalid version: ", s))
        }
    }
}

// ---------------------------------------------------------------------------
// Secret keys
// ---------------------------------------------------------------------------

/// How a key text splits into key id and secret: after the `sk_` prefix,
/// the text up to the first `_` is the key id and the rest the secret.
pub open spec fn parse_secret_key(s: Seq<char>) -> Option<(Seq<char>, Seq<char>)> {
    if s.len() >= 3 && s.take(3) == key_prefix() {
        let rest = s.skip(3);
        match first_index_of(rest, '_') {
            Some(i) => Some((rest.take(i), rest.skip(i + 1))),
            None => None,
        }
    } else {
        None
    }
}

/// The text of a key: `sk_<key id>_<secret>`.
pub open spec fn key_text(key_id: Seq<char>, secret: Seq<char>) -> Seq<char> {
    key_prefix() + key_id + seq!['_'] + secret
}

/// The hash stored for a secret under the first scheme: the base64 text of
/// the SHA-512 digest of the secret's UTF-8 bytes.
pub open spec fn secret_hash_v1(secret: Seq<char>) -> Seq<char> {
    base64_standard(sha512(vstd::utf8::encode_utf8(secret)))
}

/// A user-provided or generated secret API key. The secret itself can only
/// leave the value through `unsafe_to_string`.
pub struct SecretApiKey {
    key_id: String,
    plain_secret: String,
}

/// A key as it is stored: its id and the hash of its secret.
pub struct HashedApiKey {
    pub key_id: String,
    pub hash: String,
    pub hash_version: HashVersion,
}

impl SecretApiKey {
    /// The key id.
    pub closed spec fn spec_key_id(&self) -> Seq<char> {
        self.key_id@
    }

    /// The secret.
    pub closed spec fn spec_secret(&self) -> Seq<char> {
        self.plain_secret@
    }

    /// Builds a key from its two parts.
    pub fn new(key_id: String, plain_secret: String) -> (k: SecretApiKey)
        ensures
            k.spec_key_id() == key_id@,
            k.spec_secret() == plain_secret@,
    {
        SecretApiKey { key_id, plain_secret }
    }

    /// Parses `sk_<key id>_<secret>`.
    pub fn from_str(s: &str) -> (r: Result<SecretApiKey, String>)
        ensures
            match parse_secret_key(s@) {
                Some((id, secret)) => r matches Ok(k) && k.spec_key_id() == id && k.spec_secret() == secret,
                None => r is Err,
            },
            !(s@.len() >= 3 && s@.take(3) == key_prefix()) ==> (r matches Err(msg) && msg@
                == "API key doesn't start with sk_"@),
            (s@.len() >= 3 && s@.take(3) == key_prefix() && parse_secret_key(s@) is None) ==> (r
                matches Err(msg) && msg@ == "Malformed API key"@),
    {
        let v = chars_of(s);
        let n = v.len();
        if !(n >= 3 && v[0] == 's' && v[1] == 'k' && v[2] == '_') {
            assert(!(s@.len() >= 3 && s@.take(3) == key_prefix())) by {
                if s@.len() >= 3 && s@.take(3) == key_prefix() {
                    assert(s@[0] == s@.take(3)[0]);
                    assert(s@[1] == s@.take(3)[1]);
                    assert(s@[2] == s@.take(3)[2]);
                }
            }
            proof {
                reveal_strlit("sk_");
                reveal_strlit("API key doesn't start with ");
                reveal_strlit("API key doesn't start with sk_");
            }
            let msg = concat("API key doesn't start with ", API_KEY_PREFIX);
            assert(msg@ == "API key doesn't start with sk_"@);
            return Err(msg);
        }
        assert(s@.take(3) == key_prefix());
        let ghost rest = s@.skip(3);
        proof {
            lemma_first_index_of(rest, '_');
        }
        let mut i: usize = 3;
        while i < n
            invariant
                n == v@.len(),
                v@ == s@,
                rest == s@.skip(3),
                s@.len() >= 3,
                s@.take(3) == key_prefix(),
                3 <= i <= n,
                forall|j: int| 3 <= j < i ==> v@[j] != '_',
            decreases n - i,
        {
            if v[i] == '_' {
                proof {
                    assert forall|j: int| 0 <= j < i - 3 implies rest[j] != '_' by {
                        assert(rest[j] == v@[j + 3]);
                    }
                    lemma_first_index_unique(rest, '_', i - 3);
                }
                let key_id = substring(&v, 3, i);
                let plain_secret = substring(&v, i + 1, n);
                assert(key_id@ == rest.take(i - 3));
                assert(plain_secret@ == rest.skip(i - 3 + 1));
                return Ok(SecretApiKey { key_id, plain_secret });
            }
            i = i + 1;
        }
        assert(first_index_of(rest, '_') is None) by {
            if first_index_of(rest, '_') is Some {
                let k = first_index_of(rest, '_')->0;
                assert(rest[k] == v@[k + 3]);
            }
        }
        Err(owned("Malformed API key"))
    }

    /// A fresh random key: key id and secret are each a random simple-format
    /// UUID.
    pub fn generate() -> (k: SecretApiKey)
        ensures
            is_simple_uuid(k.spec_key_id()),
            is_simple_uuid(k.spec_secret()),
    {
        let key_id = random_simple_uuid();
        let plain_secret = random_simple_uuid();
        SecretApiKey { key_id, plain_secret }
    }

    /// The key as stored under a hash scheme.
    pub fn hash(&self, version: HashVersion) -> (h: HashedApiKey)
        ensures
            h.key_id@ == self.spec_key_id(),
            h.hash@ == secret_hash_v1(self.spec_secret()),
            h.hash_version is V1,
    {
        match version {
            HashVersion::V1 => {
                let digest = sha512_digest(self.plain_secret.as_str().as_bytes());
                HashedApiKey {
                    key_id: self.key_id.clone(),
                    hash: base64_encode(digest.as_slice()),
                    hash_version: HashVersion::V1,
                }
            },
        }
    }

    /// The key id.
    pub fn key_id(&self) -> (id: &String)
        ensures
            id@ == self.spec_key_id(),
    {
        &self.key_id
    }

    /// The full key text, secret included.
    pub fn unsafe_to_string(&self) -> (s: String)
        ensures
            s@ == key_text(self.spec_key_id(), self.spec_secret()),
    {
        proof {
            reveal_strlit("sk_");
        }
        assert(API_KEY_PREFIX@ == key_prefix());
        let mut s = concat(API_KEY_PREFIX, self.key_id.as_str());
        push_char(&mut s, '_');
        let s = concat(s.as_str(), self.plain_secret.as_str());
        s
    }

    /// Whether a text may hold a secret key: whether the regular expression
    /// `sk_[0-9a-f]{32}_[0-9a-f]{32}` matches somewhere in it.
    pub fn matches(string: &str) -> (r: bool)
        ensures
            r == (regex_search(SECRET_KEY_PATTERN@, string@) == Some(true)),
    {
        match regex_is_match(SECRET_KEY_PATTERN, string) {
            Some(found) => found,
            None => false,
        }
    }
}

/// The text of a key parses back into the same key id and secret, provided
/// the key id holds no underscore.
pub proof fn lemma_key_text_round_trip(key_id: Seq<char>, secret: Seq<char>)
    requires
        forall|i: int| 0 <= i < key_id.len() ==> key_id[i] != '_',
    ensures
        parse_secret_key(key_text(key_id, secret)) == Some((key_id, secret)),
{
    let s = key_text(key_id, secret);
    assert(s.take(3) == key_prefix());
    let rest = s.skip(3);
    assert(rest == key_id + seq!['_'] + secret);
    assert(rest[key_id.len() as int] == '_');
    assert forall|j: int| 0 <= j < key_id.len() implies rest[j] != '_' by {
        assert(rest[j] == key_id[j]);
    }
    lemma_first_index_unique(rest, '_', key_id.len() as int);
    assert(rest.take(key_id.len() as int) == key_id);
    assert(rest.skip(key_id.len() + 1int) == secret);
}

// ---------------------------------------------------------------------------
// Stored keys and authentication
// ---------------------------------------------------------------------------

/// An API key record as the key store holds it.
pub struct StoredApiKey {
    pub key_id: String,
    pub hash: String,
    pub hash_version: String,
    pub project_id: String,
    pub name: String,
    pub created_at: i64,
    pub creator_user_id: Option<String>,
}

/// Whether a stored record authenticates a secret: its hash version is the
/// first scheme and its hash is the hash of the secret.
pub open spec fn record_accepts(stored: StoredApiKey, secret: Seq<char>) -> bool {
    stored.hash_version@ == v1_name() && stored.hash@ == secret_hash_v1(secret)
}

/// Where API keys are kept. The store's answers are taken as they come: no
/// property of them is assumed.
pub trait AuthStore {
    /// Stores a new key record.
    fn save_key(&self, key: StoredApiKey) -> Result<(), String>;

    /// The record stored under a key id, if any.
    fn get_key(&self, key_id: &str) -> Result<Option<StoredApiKey>, String>;

    /// Deletes the key of a project; whether a key was deleted.
    fn delete_key(&self, key_id: &str, project: &str) -> Result<bool, String>;

    /// The key records of a project.
    fn list_keys(&self, project: &str) -> Result<Vec<StoredApiKey>, String>;
}

/// Checks user-provided keys against the key store and makes new keys.
pub struct Authenticator<S> {
    store: S,
}

/// The verdict on a key's secret given the record the store holds under its
/// key id (`None` when there is none).
pub open spec fn stored_key_verdict(secret: Seq<char>, stored: Option<StoredApiKey>, r: Result<String, AuthError>) -> bool {
    match stored {
        None => r matches Err(AuthError::AuthFailed(msg)) && msg@ == "key_id doesn't exist"@,
        Some(m) => if m.hash_version@ != v1_name() {
            r matches Err(AuthError::Internal(msg)) && msg@ == "Unknown version: "@ + m.hash_version@
        } else if m.hash@ != secret_hash_v1(secret) {
            r matches Err(AuthError::AuthFailed(msg)) && msg@ == "Mismatched secret key"@
        } else {
            r == Ok::<String, AuthError>(m.project_id)
        },
    }
}

/// What authenticating a secret can give: a store failure, or the verdict
/// on the secret for some answer of the store.
pub open spec fn authentication_outcome(secret: Seq<char>, r: Result<String, AuthError>) -> bool {
    ||| r matches Err(AuthError::Database(_))
    ||| exists|stored: Option<StoredApiKey>| #[trigger] stored_key_verdict(secret, stored, r)
}

/// Decides a user-provided key against the record the store holds under
/// its key id (`None` when there is none): the record's hash scheme must be
/// known and its hash must be the hash of the key's secret.
pub fn check_stored_key(user_provided_secret: &SecretApiKey, stored: Option<StoredApiKey>) -> (r: Result<
    String,
    AuthError,
>)
    ensures
        stored_key_verdict(user_provided_secret.spec_secret(), stored, r),
        r is Ok <==> (stored matches Some(m) && record_accepts(m, user_provided_secret.spec_secret())),
{
    let key_model = match stored {
        Some(m) => m,
        None => {
            return Err(AuthError::AuthFailed(owned("key_id doesn't exist")));
        },
    };
    let hash_version = match HashVersion::from_str(key_model.hash_version.as_str()) {
        Ok(v) => v,
        Err(_) => {
            return Err(AuthError::Internal(concat("Unknown version: ", key_model.hash_version.as_str())));
        },
    };
    let user_provided_hash = user_provided_secret.hash(hash_version);
    if !same_text(user_provided_hash.hash.as_str(), key_model.hash.as_str()) {
        return Err(AuthError::AuthFailed(owned("Mismatched secret key")));
    }
    Ok(key_model.project_id)
}

/// A new key for a project and the record to store for it: the record
/// holds the key id, the first-scheme hash of the secret, the version name
/// `v1`, the project, the key's name, its creator and the current time.
pub fn new_key_record(key_name: String, creator_user_id: Option<String>, project: &String) -> (r: (
    SecretApiKey,
    StoredApiKey,
))
    ensures
        is_simple_uuid(r.0.spec_key_id()),
        is_simple_uuid(r.0.spec_secret()),
        r.1.key_id@ == r.0.spec_key_id(),
        r.1.hash@ == secret_hash_v1(r.0.spec_secret()),
        r.1.hash_version@ == v1_name(),
        r.1.project_id@ == project@,
        r.1.name == key_name,
        r.1.creator_user_id == creator_user_id,
{
    let key = SecretApiKey::generate();
    let hashed = key.hash(HashVersion::default());
    let record = StoredApiKey {
        key_id: hashed.key_id,
        hash: hashed.hash,
        hash_version: hashed.hash_version.to_text(),
        project_id: project.clone(),
        name: key_name,
        created_at: now_unix_seconds(),
        creator_user_id,
    };
    (key, record)
}

/// What the authenticator makes of an answer of the key store: the answer
/// itself, a store failure becoming a database error with the store's
/// message.
pub fn store_answer<T>(answer: Result<T, String>) -> (r: Result<T, AuthError>)
    ensures
        match answer {
            Ok(v) => r == Ok::<T, AuthError>(v),
            Err(e) => r == Err::<T, AuthError>(AuthError::Database(e)),
        },
{
    match answer {
        Ok(v) => Ok(v),
        Err(e) => Err(AuthError::Database(e)),
    }
}

impl<S: AuthStore> Authenticator<S> {
    /// The store the authenticator reads keys from.
    pub closed spec fn spec_store(&self) -> S {
        self.store
    }

    pub fn new(store: S) -> (a: Authenticator<S>)
        ensures
            a.spec_store() == store,
    {
        Authenticator { store }
    }

    /// The key store.
    pub fn store(&self) -> (s: &S)
        ensures
            *s == self.spec_store(),
    {
        &self.store
    }

    /// Makes a new key for a project and hands its record (see
    /// `new_key_record`) to the store; the key is given once the store took
    /// the record, and a store failure is a database error.
    pub fn gen_key(&self, key_name: String, creator_user_id: Option<String>, project: &String) -> (r: Result<
        SecretApiKey,
        AuthError,
    >)
        ensures
            r matches Ok(k) ==> is_simple_uuid(k.spec_key_id()) && is_simple_uuid(k.spec_secret()),
            r is Err ==> r matches Err(AuthError::Database(_)),
            exists|record: StoredApiKey, answer: Result<(), String>|
                #![trigger call_ensures(S::save_key, (&self.spec_store(), record), answer)]
                call_ensures(S::save_key, (&self.spec_store(), record), answer) && record.project_id@ == project@
                    && record.name == key_name && record.creator_user_id == creator_user_id
                    && record.hash_version@ == v1_name() && match answer {
                    Ok(_) => r matches Ok(k) && record.key_id@ == k.spec_key_id() && record.hash@ == secret_hash_v1(
                        k.spec_secret(),
                    ),
                    Err(e) => r == Err::<SecretApiKey, AuthError>(AuthError::Database(e)),
                },
    {
        let (key, record) = new_key_record(key_name, creator_user_id, project);
        let ghost rec = record;
        let answer = self.store.save_key(record);
        assert(call_ensures(S::save_key, (&self.spec_store(), rec), answer));
        match answer {
            Ok(()) => Ok(key),
            Err(e) => Err(AuthError::Database(e)),
        }
    }

    /// Checks a user-provided key against the record the store answers for
    /// the key's own id (see `check_stored_key`); a store failure is a
    /// database error (see `store_answer`). A key is let through only when
    /// some record accepts its secret, and then to that record's project;
    /// what the store answers is not stated.
    pub fn authenticate(&self, user_provided_secret: &SecretApiKey) -> (r: Result<String, AuthError>)
        ensures
            authentication_outcome(user_provided_secret.spec_secret(), r),
            r matches Ok(p) ==> exists|m: StoredApiKey|
                #![trigger record_accepts(m, user_provided_secret.spec_secret())]
                record_accepts(m, user_provided_secret.spec_secret()) && m.project_id == p,
            exists|key_id: &str, answer: Result<Option<StoredApiKey>, String>|
                #![trigger call_ensures(S::get_key, (&self.spec_store(), key_id), answer)]
                key_id@ == user_provided_secret.spec_key_id() && call_ensures(
                    S::get_key,
                    (&self.spec_store(), key_id),
                    answer,
                ) && match answer {
                    Ok(stored) => stored_key_verdict(user_provided_secret.spec_secret(), stored, r),
                    Err(e) => r == Err::<String, AuthError>(AuthError::Database(e)),
                },
    {
        let key_id = user_provided_secret.key_id().as_str();
        let answer = self.store.get_key(key_id);
        let ghost a = answer;
        match store_answer(answer) {
            Ok(stored) => {
                let ghost s = stored;
                let r = check_stored_key(user_provided_secret, stored);
                proof {
                    assert(stored_key_verdict(user_provided_secret.spec_secret(), s, r));
                    if r is Ok {
                        let m = s->0;
                        assert(record_accepts(m, user_provided_secret.spec_secret()));
                    }
                }
                assert(call_ensures(S::get_key, (&self.spec_store(), key_id), a));
                r
            },
            Err(e) => {
                assert(call_ensures(S::get_key, (&self.spec_store(), key_id), a));
                Err(e)
            },
        }
    }

    /// Deletes a key of a project; whether a key was deleted is the store's
    /// answer to deleting that key of that project (see `store_answer`).
    /// What the store answers is not stated.
    pub fn revoke_key(&self, key_id: &str, project: &str) -> (r: Result<bool, AuthError>)
        ensures
            r is Err ==> r matches Err(AuthError::Database(_)),
            exists|answer: Result<bool, String>|
                #![trigger call_ensures(S::delete_key, (&self.spec_store(), key_id, project), answer)]
                call_ensures(S::delete_key, (&self.spec_store(), key_id, project), answer) && r == (match answer {
                    Ok(b) => Ok::<bool, AuthError>(b),
                    Err(e) => Err::<bool, AuthError>(AuthError::Database(e)),
                }),
    {
        store_answer(self.store.delete_key(key_id, project))
    }

    /// The key records of a project: the store's answer to listing that
    /// project's keys (see `store_answer`). What the store answers is not
    /// stated.
    pub fn list_keys(&self, project: &str) -> (r: Result<Vec<StoredApiKey>, AuthError>)
        ensures
            r is Err ==> r matches Err(AuthError::Database(_)),
            exists|answer: Result<Vec<StoredApiKey>, String>|
                #![trigger call_ensures(S::list_keys, (&self.spec_store(), project), answer)]
                call_ensures(S::list_keys, (&self.spec_store(), project), answer) && r == (match answer {
                    Ok(keys) => Ok::<Vec<StoredApiKey>, AuthError>(keys),
                    Err(e) => Err::<Vec<StoredApiKey>, AuthError>(AuthError::Database(e)),
                }),
    {
        store_answer(self.store.list_keys(project))
    }
}

/// A key and the record made with it by `new_key_record` pass the check of
/// `check_stored_key`: when the key store answers the lookup of the key's
/// id with that record, authenticating the key (`r`, the verdict of
/// `check_stored_key` and so of `Authenticator::authenticate`) gives the
/// project the key was made for. Keys made for different projects thus
/// each resolve to their own project.
pub proof fn lemma_generated_key_authenticates(
    key: SecretApiKey,
    record: StoredApiKey,
    project: Seq<char>,
    r: Result<String, AuthError>,
)
    requires
        record.key_id@ == key.spec_key_id(),
        record.hash@ == secret_hash_v1(key.spec_secret()),
        record.hash_version@ == v1_name(),
        record.project_id@ == project,
        stored_key_verdict(key.spec_secret(), Some(record), r),
    ensures
        record_accepts(record, key.spec_secret()),
        r matches Ok(p) && p@ == project,
{
}

/// What a store call's answer becomes in the authenticator: the answer
/// itself, a failure becoming a database error.
pub open spec fn as_auth_answer<T>(answer: Result<T, String>) -> Result<T, AuthError> {
    match answer {
        Ok(v) => Ok(v),
        Err(e) => Err(AuthError::Database(e)),
    }
}

/// Revoking a key reports what the key store did when asked to delete that
/// key of that project: when every answer the store gives to
/// `delete_key(key_id, project)` is `Ok(deleted)`, revoking answers
/// `Ok(deleted)`; a key the store did not delete is never reported deleted.
/// `r` is the answer of `revoke_key(key_id, project)` on `a`.
pub proof fn lemma_revoke_reports_store_deletion<S: AuthStore>(
    a: Authenticator<S>,
    key_id: &str,
    project: &str,
    deleted: bool,
    r: Result<bool, AuthError>,
)
    requires
        exists|answer: Result<bool, String>|
            #![trigger call_ensures(S::delete_key, (&a.spec_store(), key_id, project), answer)]
            call_ensures(S::delete_key, (&a.spec_store(), key_id, project), answer) && r == as_auth_answer(answer),
        forall|answer: Result<bool, String>|
            #![trigger call_ensures(S::delete_key, (&a.spec_store(), key_id, project), answer)]
            call_ensures(S::delete_key, (&a.spec_store(), key_id, project), answer) ==> answer == Ok::<
                bool,
                String,
            >(deleted),
    ensures
        r == Ok::<bool, AuthError>(deleted),
{
}

} // verus!
