use vstd::prelude::*;
use vstd::utf8::{decode_utf8, encode_utf8, encode_utf8_decode_utf8, encode_utf8_valid_utf8, valid_utf8};

use pgp::crypto::hash::HashAlgorithm;
use pgp::crypto::sym::SymmetricKeyAlgorithm;
use pgp::ser::Serialize;
use pgp::types::{CompressionAlgorithm, StringToKey};
use pgp::{Deserializable, Message};
use rand::SeedableRng;
use std::io::Read;

use crate::api::auth::Client;
use crate::api::opt_view;
use crate::data::cache::Cache;
use crate::data::config::Config;
use crate::data::packets::{check_packets, packets_ok};

verus! {

/// What pgp unpacks from `bytes`: the packets inside its compressed message,
/// or `None` where the bytes are no compressed message.
pub uninterp spec fn inner_of(bytes: Seq<u8>) -> Option<Seq<u8>>;

/// What pgp recovers from the packets `inner` with `password`: the text sealed
/// in them, or `None` where they hold no text sealed with that password.
pub uninterp spec fn unsealed_of(inner: Seq<u8>, password: Seq<char>) -> Option<Seq<char>>;

/// Relies on pgp: Message::from_bytes, then CompressedData::decompress read
/// to the end; any failure is `None`.
#[verifier::external_body]
fn pgp_inner(bytes: &[u8]) -> (r: Option<Vec<u8>>)
    ensures
        match r {
            Some(v) => inner_of(bytes@) == Some(v@),
            None => inner_of(bytes@) is None,
        },
{
    match Message::from_bytes(bytes).ok()? {
        Message::Compressed(data) => {
            let mut inner = Vec::new();
            data.decompress().ok()?.read_to_end(&mut inner).ok()?;
            Some(inner)
        },
        _ => None,
    }
}

/// Relies on pgp: Message::from_bytes, decrypt_with_password and get_content,
/// then String::from_utf8; any failure is `None`. pgp's SEIPD v1 decryption
/// subtracts the MDC length from the decrypted length unchecked, so only
/// packets that `check_packets` accepts are handed over.
#[verifier::external_body]
fn pgp_unseal(inner: &[u8], password: &str) -> (r: Option<String>)
    requires
        packets_ok(inner@, 0),
    ensures
        opt_view(r) == unsealed_of(inner@, password@),
{
    let pw = password.to_owned();
    let message = Message::from_bytes(inner).ok()?;
    let content = message.decrypt_with_password(|| pw).ok()?.get_content().ok()??;
    String::from_utf8(content).ok()
}

/// Relies on pgp: Message::new_literal_bytes (binary, so no line-ending
/// conversion), encrypt_with_password_seipdv1 (AES-256, salted SHA-256 key
/// derivation, a generator of rand's StdRng seeded with `seed`), compress with
/// ZLIB, to_bytes. None of these steps fails for these algorithms. The packets
/// inside are a password packet and a SEIPD v1 packet with fixed-length
/// headers, and they unseal with the same password to the same text.
#[verifier::external_body]
fn pgp_seal(text: &str, password: &str, seed: u64, salt: [u8; 8]) -> (r: Option<Vec<u8>>)
    ensures
        r is Some,
        r matches Some(b) ==> inner_of(b@) matches Some(inner) && packets_ok(inner, 0)
            && unsealed_of(inner, password@) == Some(text@),
{
    let pw = password.to_owned();
    let rng = rand::rngs::StdRng::seed_from_u64(seed);
    let s2k = StringToKey::Salted { hash_alg: HashAlgorithm::SHA2_256, salt };
    let message = Message::new_literal_bytes("data", text.as_bytes());
    let sealed = message.encrypt_with_password_seipdv1(rng, s2k, SymmetricKeyAlgorithm::AES256, || pw).ok()?;
    sealed.compress(CompressionAlgorithm::ZLIB).ok()?.to_bytes().ok()
}

/// Relies on String::from_utf8: the text that valid UTF-8 encodes.
#[verifier::external_body]
fn utf8_text(bytes: &[u8]) -> (r: Option<String>)
    ensures
        r is Some <==> valid_utf8(bytes@),
        r matches Some(s) ==> s@ == decode_utf8(bytes@),
{
    String::from_utf8(bytes.to_vec()).ok()
}

/// Salt of the password-based key derivation.
pub const KEY_SALT: [u8; 8] = [105, 110, 118, 101, 110, 116, 111, 114];

/// Why a payload could not be sealed or opened.
#[derive(Debug, Clone, Copy, PartialEq, Eq, Structural)]
pub enum CryptoError {
    /// Encryption or compression failed.
    EncryptFailed,
    /// Wrong password or corrupt data: the two are not told apart.
    DecryptFailed,
}

/// What decrypting `bytes` with `password` gives: the sealed text, where the
/// packets inside are accepted and unseal; else the one `DecryptFailed`.
pub open spec fn decrypt_spec(bytes: Seq<u8>, password: Seq<char>) -> Result<Seq<char>, CryptoError> {
    match inner_of(bytes) {
        Some(inner) => if packets_ok(inner, 0) {
            match unsealed_of(inner, password) {
                Some(t) => Ok(t),
                None => Err(CryptoError::DecryptFailed),
            }
        } else {
            Err(CryptoError::DecryptFailed)
        },
        None => Err(CryptoError::DecryptFailed),
    }
}

pub open spec fn text_result(r: Result<String, CryptoError>) -> Result<Seq<char>, CryptoError> {
    match r {
        Ok(s) => Ok(s@),
        Err(e) => Err(e),
    }
}

/// Seals `content` with a key derived from `password`; `seed` seeds the
/// generator of the session key. What it returns decrypts, with the same
/// password, to `content`.
pub fn encrypt(content: &str, password: &str, seed: u64) -> (r: Result<Vec<u8>, CryptoError>)
    ensures
        r is Ok,
        r matches Ok(b) ==> decrypt_spec(b@, password@) == Ok::<Seq<char>, CryptoError>(content@),
        r matches Err(e) ==> e == CryptoError::EncryptFailed,
{
    match pgp_seal(content, password, seed, KEY_SALT) {
        Some(b) => Ok(b),
        None => Err(CryptoError::EncryptFailed),
    }
}

/// Opens bytes sealed by `encrypt`; every failure is the one `DecryptFailed`.
pub fn decrypt(content: &[u8], password: &str) -> (r: Result<String, CryptoError>)
    ensures
        text_result(r) == decrypt_spec(content@, password@),
{
    let inner = match pgp_inner(content) {
        Some(inner) => inner,
        None => return Err(CryptoError::DecryptFailed),
    };
    if !check_packets(inner.as_slice()) {
        return Err(CryptoError::DecryptFailed);
    }
    match pgp_unseal(inner.as_slice(), password) {
        Some(t) => Ok(t),
        None => Err(CryptoError::DecryptFailed),
    }
}

/// Why a cached credential is not used.
#[derive(Debug, Clone, Copy, PartialEq, Eq, Structural)]
pub enum MissReason {
    /// There is no readable metadata.
    NoMetadata,
    /// The cache belongs to another instance.
    OtherInstance,
    /// The cache is encrypted but encryption is no longer wanted.
    ProtectionDisabled,
}

/// What loading the cache does once the metadata is known.
#[derive(Debug, Clone, Copy, PartialEq, Eq, Structural)]
pub enum LoadPlan {
    /// The cache is treated as absent; the payload is not read.
    Miss(MissReason),
    /// The payload is read, decrypted where `encrypted`; `unprotected_warning`
    /// where encryption is wanted but the cache was stored in the clear.
    Read { encrypted: bool, unprotected_warning: bool },
}

/// The plan for metadata `meta`, current instance `instance` and wanted
/// encryption `protect`.
pub open spec fn plan_spec(meta: Option<(Seq<char>, bool)>, instance: Seq<char>, protect: bool) -> LoadPlan {
    match meta {
        None => LoadPlan::Miss(MissReason::NoMetadata),
        Some(m) => if m.0 != instance {
            LoadPlan::Miss(MissReason::OtherInstance)
        } else if m.1 && !protect {
            LoadPlan::Miss(MissReason::ProtectionDisabled)
        } else if !m.1 && protect {
            LoadPlan::Read { encrypted: false, unprotected_warning: true }
        } else {
            LoadPlan::Read { encrypted: m.1, unprotected_warning: false }
        },
    }
}

pub fn plan_load(meta: &Option<Cache>, instance: &str, protect: bool) -> (r: LoadPlan)
    ensures
        r == plan_spec(Cache::opt_view(*meta), instance@, protect),
{
    match meta {
        None => LoadPlan::Miss(MissReason::NoMetadata),
        Some(m) => {
            let current = String::from_str(instance);
            if !(m.instance == current) {
                LoadPlan::Miss(MissReason::OtherInstance)
            } else if m.protect && !protect {
                LoadPlan::Miss(MissReason::ProtectionDisabled)
            } else if !m.protect && protect {
                LoadPlan::Read { encrypted: false, unprotected_warning: true }
            } else {
                LoadPlan::Read { encrypted: m.protect, unprotected_warning: false }
            }
        },
    }
}

/// Why a payload that was read yields no credential.
#[derive(Debug, Clone, Copy, PartialEq, Eq, Structural)]
pub enum LoadError {
    /// The encrypted payload did not decrypt: fatal, never a cache miss.
    DecryptFailed,
    /// The plain payload is not UTF-8 text: a cache miss.
    NotText,
}

pub open spec fn payload_spec(payload: Seq<u8>, password: Option<Seq<char>>) -> Result<Seq<char>, LoadError> {
    match password {
        Some(pw) => match decrypt_spec(payload, pw) {
            Ok(t) => Ok(t),
            Err(_) => Err(LoadError::DecryptFailed),
        },
        None => if valid_utf8(payload) {
            Ok(decode_utf8(payload))
        } else {
            Err(LoadError::NotText)
        },
    }
}

pub open spec fn payload_result(r: Result<String, LoadError>) -> Result<Seq<char>, LoadError> {
    match r {
        Ok(s) => Ok(s@),
        Err(e) => Err(e),
    }
}

pub open spec fn opt_str_view(o: Option<&str>) -> Option<Seq<char>> {
    match o {
        Some(s) => Some(s@),
        None => None,
    }
}

/// The stored form of a serialized credential: sealed with the password where
/// one is given, else its UTF-8 bytes.
pub open spec fn stored_bytes_ok(b: Seq<u8>, text: Seq<char>, password: Option<Seq<char>>) -> bool {
    match password {
        Some(pw) => decrypt_spec(b, pw) == Ok::<Seq<char>, CryptoError>(text),
        None => b == encode_utf8(text),
    }
}

/// A credential: the app registration that minted the token, if any, and the
/// token itself.
#[derive(Debug, Clone)]
pub struct Secrets {
    /// `None` only for a token the operator supplied; such a token is never
    /// revoked.
    pub client: Option<Client>,
    /// The value of the `Authorization` header.
    pub token: String,
    /// Obtained during this run; never stored.
    pub new: bool,
}

impl Secrets {
    /// A credential from a token the operator supplied.
    pub fn explicit(token: String) -> (r: Secrets)
        ensures
            r.client is None,
            r.token@ == token@,
            r.new,
    {
        Secrets { client: None, token, new: true }
    }

    /// A credential freshly obtained through the authorisation flow.
    pub fn new(client: Client, token: String) -> (r: Secrets)
        ensures
            r.client == Some(client),
            r.token@ == token@,
            r.new,
    {
        Secrets { client: Some(client), token, new: true }
    }

    /// A credential read back from the cache: never fresh.
    pub fn stored(client: Option<Client>, token: String) -> (r: Secrets)
        ensures
            r.client == client,
            r.token@ == token@,
            !r.new,
    {
        Secrets { client, token, new: false }
    }

    /// What loading does, given the text of the metadata file (`None` where
    /// there is none).
    pub open spec fn load_plan_spec(config: &Config, metadata: Option<Seq<char>>) -> LoadPlan {
        plan_spec(
            match metadata {
                None => None,
                Some(text) => Cache::parsed(text),
            },
            config.instance@,
            config.cache.protect,
        )
    }

    pub fn load_plan(config: &Config, metadata: Option<&str>) -> (r: LoadPlan)
        ensures
            r == Secrets::load_plan_spec(config, opt_str_view(metadata)),
    {
        let meta = Cache::load(metadata);
        plan_load(&meta, config.instance.as_str(), config.cache.protect)
    }

    /// The serialized credential held by a payload: decrypted with the
    /// password where there is one, else read as UTF-8.
    pub fn open_payload(payload: &[u8], password: Option<&str>) -> (r: Result<String, LoadError>)
        ensures
            payload_result(r) == payload_spec(payload@, opt_str_view(password)),
    {
        match password {
            Some(pw) => match decrypt(payload, pw) {
                Ok(t) => Ok(t),
                Err(_) => Err(LoadError::DecryptFailed),
            },
            None => match utf8_text(payload) {
                Some(t) => Ok(t),
                None => Err(LoadError::NotText),
            },
        }
    }

    /// Whether the operator is asked for the password: the plan reads an
    /// encrypted payload and there is one.
    pub fn wants_password(plan: LoadPlan, payload_present: bool) -> (r: bool)
        ensures
            r == (payload_present && plan matches LoadPlan::Read { encrypted: true, .. }),
    {
        match plan {
            LoadPlan::Read { encrypted, .. } => encrypted && payload_present,
            LoadPlan::Miss(_) => false,
        }
    }

    /// What a cache read yields under `plan`, given the payload file (`None`
    /// where there is none): the serialized credential, opened with
    /// `password` where the plan reads it encrypted; `Ok(None)`, a miss, where
    /// the plan is a miss or the file is absent or not text;
    /// `Err(DecryptFailed)`, fatal, where it does not decrypt.
    pub fn read_payload(plan: LoadPlan, payload: Option<&[u8]>, password: &str) -> (r: Result<Option<String>, LoadError>)
        ensures
            match (plan, payload) {
                (LoadPlan::Read { encrypted, .. }, Some(b)) => match payload_spec(
                    b@,
                    if encrypted { Some(password@) } else { None },
                ) {
                    Ok(t) => r matches Ok(Some(s)) && s@ == t,
                    Err(LoadError::NotText) => r == Ok::<Option<String>, LoadError>(None),
                    Err(LoadError::DecryptFailed) => r == Err::<Option<String>, LoadError>(
                        LoadError::DecryptFailed,
                    ),
                },
                _ => r == Ok::<Option<String>, LoadError>(None),
            },
    {
        let encrypted = match plan {
            LoadPlan::Read { encrypted, .. } => encrypted,
            LoadPlan::Miss(_) => return Ok(None),
        };
        let b = match payload {
            Some(b) => b,
            None => return Ok(None),
        };
        let pw = if encrypted { Some(password) } else { None };
        match Secrets::open_payload(b, pw) {
            Ok(t) => Ok(Some(t)),
            Err(LoadError::NotText) => Ok(None),
            Err(LoadError::DecryptFailed) => Err(LoadError::DecryptFailed),
        }
    }

    /// The payload that stores a serialized credential: sealed with the
    /// password where one is given, else its UTF-8 bytes.
    pub fn dump(text: &str, password: Option<&str>, seed: u64) -> (r: Result<Vec<u8>, CryptoError>)
        ensures
            r is Ok,
            r matches Ok(b) ==> stored_bytes_ok(b@, text@, opt_str_view(password)),
            r matches Err(e) ==> e == CryptoError::EncryptFailed,
    {
        match password {
            Some(pw) => encrypt(text, pw, seed),
            None => Ok(vstd::slice::slice_to_vec(text.as_bytes())),
        }
    }

    /// The metadata to write once the payload is written: none when writing
    /// the payload failed.
    pub fn saved_metadata(payload_written: bool, config: &Config) -> (r: Option<Cache>)
        ensures
            Cache::opt_view(r) == if payload_written {
                Some((config.instance@, config.cache.protect))
            } else {
                None
            },
    {
        if payload_written {
            Some(Cache { instance: config.instance.clone(), protect: config.cache.protect })
        } else {
            None
        }
    }

    /// The form that revokes this credential's token; none for a token the
    /// operator supplied.
    pub fn revoke(&self) -> (r: Option<Vec<(String, String)>>)
        ensures
            r is Some <==> self.client is Some,
            r matches Some(v) ==> crate::api::auth::pairs_view(v@)
                == crate::api::auth::revoke_form_spec(
                self.client->Some_0.client_id@,
                self.client->Some_0.client_secret@,
                self.token@,
            ),
    {
        match &self.client {
            Some(c) => Some(c.revoke_form(self.token.as_str())),
            None => None,
        }
    }
}

/// A payload stored without a password reads back as the text it was made from.
pub proof fn lemma_plain_payload_round_trip(text: Seq<char>)
    ensures
        payload_spec(encode_utf8(text), None) == Ok::<Seq<char>, LoadError>(text),
{
    encode_utf8_valid_utf8(text);
    encode_utf8_decode_utf8(text);
}

/// A payload sealed with a password reads back, with that password, as the
/// text it was made from.
pub proof fn lemma_sealed_payload_round_trip(b: Seq<u8>, text: Seq<char>, password: Seq<char>)
    requires
        stored_bytes_ok(b, text, Some(password)),
    ensures
        payload_spec(b, Some(password)) == Ok::<Seq<char>, LoadError>(text),
        decrypt_spec(b, password) == Ok::<Seq<char>, CryptoError>(text),
{
}

/// A cache stored for another instance is never read, whatever its payload.
pub proof fn lemma_other_instance_misses(config: &Config, metadata: Seq<char>)
    requires
        Cache::parsed(metadata) is Some,
        Cache::parsed(metadata)->Some_0.0 != config.instance@,
    ensures
        Secrets::load_plan_spec(config, Some(metadata)) == LoadPlan::Miss(MissReason::OtherInstance),
{
}

/// An encrypted cache is discarded when encryption is no longer wanted: its
/// bytes are never read as plain text.
pub proof fn lemma_no_downgrade(config: &Config, metadata: Seq<char>)
    requires
        Cache::parsed(metadata) is Some,
        Cache::parsed(metadata)->Some_0.0 == config.instance@,
        Cache::parsed(metadata)->Some_0.1,
        !config.cache.protect,
    ensures
        Secrets::load_plan_spec(config, Some(metadata)) == LoadPlan::Miss(MissReason::ProtectionDisabled),
{
}

/// A cache stored in the clear is read in the clear, with a warning, when
/// encryption is wanted.
pub proof fn lemma_upgrade_reads_plain(config: &Config, metadata: Seq<char>)
    requires
        Cache::parsed(metadata) is Some,
        Cache::parsed(metadata)->Some_0.0 == config.instance@,
        !Cache::parsed(metadata)->Some_0.1,
        config.cache.protect,
    ensures
        Secrets::load_plan_spec(config, Some(metadata)) == (LoadPlan::Read {
            encrypted: false,
            unprotected_warning: true,
        }),
{
}

/// Metadata saved for a configuration, once written by `Cache::dump`, makes
/// the next load with that configuration read the payload in its mode.
pub proof fn lemma_saved_cache_is_read(config: &Config, saved: Cache, text: Seq<char>)
    requires
        Cache::opt_view(Some(saved)) == Some((config.instance@, config.cache.protect)),
        Cache::parsed(text) == Some(saved.view()),
    ensures
        Secrets::load_plan_spec(config, Some(text)) == (LoadPlan::Read {
            encrypted: config.cache.protect,
            unprotected_warning: false,
        }),
{
}

} // verus!
