//! Keys, records and their codecs, and the rules of the two endpoints.

use vstd::prelude::*;
use vstd::string::*;
use vstd::bytes::*;
use crate::config::Config;
use crate::config::KEY_BYTES;
use crate::db::Database;
use crate::db::StoreError;
use crate::wait_cache::WaitCache;

verus! {

/// The status an endpoint answers with when it does not answer with a record.
#[derive(Clone, Copy, Debug, PartialEq, Eq, Structural)]
pub enum Status {
    /// Malformed key, malformed body or malformed signature encoding.
    BadRequest,
    /// The record is not stored and the wait for it ran out.
    NotFound,
    /// A stored record could not be encoded or decoded, or the store failed.
    InternalServerError,
    /// No worker could take the store operation.
    ServiceUnavailable,
}

impl Status {
    /// The HTTP status code.
    pub fn code(self) -> (c: u16)
        ensures
            c == self.spec_code(),
    {
        match self {
            Status::BadRequest => 400,
            Status::NotFound => 404,
            Status::InternalServerError => 500,
            Status::ServiceUnavailable => 503,
        }
    }

    /// The HTTP status code, for contracts.
    pub open spec fn spec_code(self) -> u16 {
        match self {
            Status::BadRequest => 400,
            Status::NotFound => 404,
            Status::InternalServerError => 500,
            Status::ServiceUnavailable => 503,
        }
    }
}

/// Whether `c` is one of `0-9`, `a-f`, `A-F`.
pub open spec fn is_hex_digit(c: char) -> bool {
    ('0' <= c <= '9') || ('a' <= c <= 'f') || ('A' <= c <= 'F')
}

/// The number a hex digit stands for.
pub open spec fn hex_digit_value(c: char) -> int {
    if '0' <= c <= '9' {
        c as int - '0' as int
    } else if 'a' <= c <= 'f' {
        c as int - 'a' as int + 10
    } else {
        c as int - 'A' as int + 10
    }
}

/// Whether every character of `s` is a hex digit.
pub open spec fn all_hex_digits(s: Seq<char>) -> bool {
    forall|i: int| 0 <= i < s.len() ==> is_hex_digit(#[trigger] s[i])
}

/// The bytes that a hex text stands for: two digits per byte, the high one
/// first. `None` where the text has an odd length or a character that is no
/// hex digit.
pub open spec fn hex_decoded(s: Seq<char>) -> Option<Seq<u8>> {
    if s.len() % 2 == 0 && all_hex_digits(s) {
        Some(
            Seq::new(
                s.len() / 2,
                |i: int| (16 * hex_digit_value(s[2 * i]) + hex_digit_value(s[2 * i + 1])) as u8,
            ),
        )
    } else {
        None
    }
}

/// `hex::FromHexError`, carried as an opaque value.
#[verifier::external_type_specification]
#[verifier::external_body]
pub struct ExFromHexError(hex::FromHexError);

/// `hex::decode` on a string. The crate reads the text two bytes at a time,
/// accepts upper and lower case digits, and fails on an odd length or on any
/// byte that is no hex digit; a character outside ASCII is made of such bytes.
#[verifier::external_body]
fn hex_crate_decode(input: &str) -> (r: Result<Vec<u8>, hex::FromHexError>)
    ensures
        match r {
            Ok(bytes) => hex_decoded(input@) == Some(bytes@),
            Err(_) => hex_decoded(input@) is None,
        },
{
    hex::decode(input)
}

/// Decodes hex text; a malformed text is a bad request.
pub fn hex_decode(input: &str) -> (r: Result<Vec<u8>, Status>)
    ensures
        match r {
            Ok(bytes) => hex_decoded(input@) == Some(bytes@),
            Err(status) => hex_decoded(input@) is None && status == Status::BadRequest,
        },
{
    match hex_crate_decode(input) {
        Ok(bytes) => Ok(bytes),
        Err(_) => Err(Status::BadRequest),
    }
}

/// Whether a path segment is a well-formed key: exactly
/// `Config::HEX_KEY_SIZE` characters, each a hex digit.
pub open spec fn valid_key(s: Seq<char>) -> bool {
    s.len() == Config::HEX_KEY_SIZE && all_hex_digits(s)
}

/// The identifier of a record: always exactly `KEY_BYTES` bytes.
pub struct Key(Vec<u8>);

impl View for Key {
    type V = Seq<u8>;

    closed spec fn view(&self) -> Seq<u8> {
        self.0@
    }
}

impl Key {
    #[verifier::type_invariant]
    spec fn well_formed(self) -> bool {
        self.0@.len() == KEY_BYTES
    }

    /// Parses a path segment. The segment is accepted if and only if it is a
    /// well-formed key; a rejected segment is handed back.
    pub fn from_param(key: &str) -> (r: Result<Key, &str>)
        ensures
            match r {
                Ok(k) => valid_key(key@) && hex_decoded(key@) == Some(k@),
                Err(rejected) => !valid_key(key@) && rejected@ == key@,
            },
    {
        proof {
            if all_hex_digits(key@) {
                assert(is_ascii(key)) by {
                    assert forall|i: int| 0 <= i < key@.len() implies '\0' <= #[trigger] key@[i]
                        <= '\u{7f}' by {
                        assert(is_hex_digit(key@[i]));
                    }
                }
                is_ascii_spec_bytes(key);
            }
        }
        if key.as_bytes().len() != Config::HEX_KEY_SIZE {
            return Err(key);
        }
        match hex_decode(key) {
            Ok(bytes) => Ok(Key(bytes)),
            _ => Err(key),
        }
    }

    /// The bytes of the key.
    pub fn as_bytes(&self) -> (bytes: &[u8])
        ensures
            bytes@ == self@,
            bytes@.len() == KEY_BYTES,
    {
        proof {
            use_type_invariant(self);
        }
        self.0.as_slice()
    }

    /// The bytes of the key, owned.
    pub fn into_bytes(self) -> (bytes: Vec<u8>)
        ensures
            bytes@ == self@,
            bytes@.len() == KEY_BYTES,
    {
        proof {
            use_type_invariant(&self);
        }
        self.0
    }
}

/// Parses the key of a request: a malformed path segment is a bad request.
pub fn parse_key(segment: &str) -> (r: Result<Key, Status>)
    ensures
        match r {
            Ok(key) => valid_key(segment@) && hex_decoded(segment@) == Some(key@),
            Err(status) => !valid_key(segment@) && status == Status::BadRequest,
        },
{
    match Key::from_param(segment) {
        Ok(key) => Ok(key),
        Err(_) => Err(Status::BadRequest),
    }
}

/// What `base64::decode` returns for a text, under the standard alphabet with
/// canonical padding: the decoded bytes, or `None` where the crate rejects the
/// text.
pub uninterp spec fn base64_decoded(text: Seq<char>) -> Option<Seq<u8>>;

/// What `base64::encode` returns for bytes, under the same alphabet and
/// padding.
pub uninterp spec fn base64_encoded(bytes: Seq<u8>) -> Seq<char>;

/// `base64::DecodeError`, carried as an opaque value.
#[verifier::external_type_specification]
#[verifier::external_body]
pub struct ExDecodeError(base64::DecodeError);

/// `base64::decode` on a string. The result is a function of the text alone:
/// `base64_decoded` names it.
#[verifier::external_body]
#[allow(deprecated)]
fn base64_crate_decode(input: &str) -> (r: Result<Vec<u8>, base64::DecodeError>)
    ensures
        match r {
            Ok(bytes) => base64_decoded(input@) == Some(bytes@),
            Err(_) => base64_decoded(input@) is None,
        },
{
    base64::decode(input)
}

/// `base64::encode` on bytes. The result is a function of the bytes alone:
/// `base64_encoded` names it. The crate's decoder, under the same alphabet and
/// padding, reads every text that its encoder writes back to the bytes it was
/// written from.
#[verifier::external_body]
#[allow(deprecated)]
fn base64_crate_encode(input: &Vec<u8>) -> (text: String)
    ensures
        text@ == base64_encoded(input@),
        base64_decoded(text@) == Some(input@),
{
    base64::encode(input)
}

/// Decodes base64 text; a malformed text is a bad request.
pub fn base64_decode(input: &str) -> (r: Result<Vec<u8>, Status>)
    ensures
        match r {
            Ok(bytes) => base64_decoded(input@) == Some(bytes@),
            Err(status) => base64_decoded(input@) is None && status == Status::BadRequest,
        },
{
    match base64_crate_decode(input) {
        Ok(bytes) => Ok(bytes),
        Err(_) => Err(Status::BadRequest),
    }
}

/// A decryption that is received and sent over HTTP: the signature is base64
/// text.
#[derive(Debug)]
pub struct Decryption {
    pub value: u64,
    pub signature: String,
}

/// A `Decryption` as contracts see it.
pub struct DecryptionView {
    pub value: u64,
    pub signature: Seq<char>,
}

impl View for Decryption {
    type V = DecryptionView;

    open spec fn view(&self) -> DecryptionView {
        DecryptionView { value: self.value, signature: self.signature@ }
    }
}

/// A decryption that is stored in the database or in the cache: the signature
/// is raw bytes.
#[derive(Clone, Debug)]
pub struct StoredDecryption {
    pub value: u64,
    pub signature: Vec<u8>,
}

/// A `StoredDecryption` as contracts see it.
pub struct StoredDecryptionView {
    pub value: u64,
    pub signature: Seq<u8>,
}

impl View for StoredDecryption {
    type V = StoredDecryptionView;

    open spec fn view(&self) -> StoredDecryptionView {
        StoredDecryptionView { value: self.value, signature: self.signature@ }
    }
}

/// The stored form of a wire record: the same value, the signature decoded.
/// `None` where the signature is no base64 text.
pub open spec fn stored_of_wire(wire: DecryptionView) -> Option<StoredDecryptionView> {
    match base64_decoded(wire.signature) {
        Some(signature) => Some(StoredDecryptionView { value: wire.value, signature }),
        None => None,
    }
}

/// The wire form of a stored record: the same value, the signature encoded.
pub open spec fn wire_of_stored(stored: StoredDecryptionView) -> DecryptionView {
    DecryptionView { value: stored.value, signature: base64_encoded(stored.signature) }
}

impl StoredDecryption {
    /// Wire to stored. Fails with a bad request exactly where the signature is
    /// no base64 text.
    pub fn try_from(decryption: Decryption) -> (r: Result<StoredDecryption, Status>)
        ensures
            match r {
                Ok(stored) => stored_of_wire(decryption@) == Some(stored@),
                Err(status) => stored_of_wire(decryption@) is None && status
                    == Status::BadRequest,
            },
    {
        let signature = base64_decode(decryption.signature.as_str())?;
        Ok(StoredDecryption { value: decryption.value, signature })
    }
}

impl Decryption {
    /// Stored to wire. Total; decoding the result gives the stored record back.
    pub fn from(stored_decryption: StoredDecryption) -> (wire: Decryption)
        ensures
            wire@ == wire_of_stored(stored_decryption@),
            stored_of_wire(wire@) == Some(stored_decryption@),
    {
        Decryption {
            value: stored_decryption.value,
            signature: base64_crate_encode(&stored_decryption.signature),
        }
    }
}

/// The envelope under which a record is persisted: the value as 8 bytes, the
/// length of the signature as 8 bytes, both little-endian, then the signature.
pub open spec fn envelope(stored: StoredDecryptionView) -> Seq<u8> {
    spec_u64_to_le_bytes(stored.value) + spec_u64_to_le_bytes(stored.signature.len() as u64)
        + stored.signature
}

/// The record that an envelope holds. `None` where the bytes are too short for
/// the two integers or for the signature whose length they announce. Bytes
/// after the signature are ignored.
pub open spec fn envelope_decoded(bytes: Seq<u8>) -> Option<StoredDecryptionView> {
    if bytes.len() >= 16 && spec_u64_from_le_bytes(bytes.subrange(8, 16)) <= bytes.len() - 16 {
        Some(
            StoredDecryptionView {
                value: spec_u64_from_le_bytes(bytes.subrange(0, 8)),
                signature: bytes.subrange(
                    16,
                    16 + spec_u64_from_le_bytes(bytes.subrange(8, 16)) as int,
                ),
            },
        )
    } else {
        None
    }
}

/// `bincode::ErrorKind`, carried as an opaque value.
#[verifier::external_type_specification]
#[verifier::external_body]
pub struct ExBincodeErrorKind(bincode::ErrorKind);

/// `bincode::serialize` on the pair of a record's fields. With the options of
/// that function (fixed-width little-endian integers, no size limit) the
/// crate writes the fields in order with nothing between them, a byte
/// sequence as its length in 8 bytes followed by the bytes, and cannot fail
/// on integers and byte vectors written into a vector.
#[verifier::external_body]
fn bincode_crate_serialize(value: u64, signature: &Vec<u8>) -> (r: Result<Vec<u8>, bincode::Error>)
    ensures
        match r {
            Ok(bytes) => bytes@ == envelope(
                (StoredDecryptionView { value, signature: signature@ }),
            ),
            Err(_) => false,
        },
{
    bincode::serialize(&(value, signature))
}

/// `bincode::deserialize` to the pair of a record's fields. The crate reads
/// an 8-byte integer, then an 8-byte length, then that many bytes, fails where
/// the input ends before that, and accepts bytes that follow.
#[verifier::external_body]
fn bincode_crate_deserialize(input: &[u8]) -> (r: Result<(u64, Vec<u8>), bincode::Error>)
    ensures
        match r {
            Ok(fields) => envelope_decoded(input@) == Some(
                (StoredDecryptionView { value: fields.0, signature: fields.1@ }),
            ),
            Err(_) => envelope_decoded(input@) is None,
        },
{
    bincode::deserialize::<(u64, Vec<u8>)>(input)
}

/// Encodes a record for the store.
pub fn bincode_serialize(value: &StoredDecryption) -> (r: Result<Vec<u8>, Status>)
    ensures
        r matches Ok(bytes) && bytes@ == envelope(value@),
{
    match bincode_crate_serialize(value.value, &value.signature) {
        Ok(bytes) => Ok(bytes),
        Err(_) => Err(Status::InternalServerError),
    }
}

/// Decodes what the store holds; bytes that are no envelope are an internal
/// error.
pub fn bincode_deserialize(input: &[u8]) -> (r: Result<StoredDecryption, Status>)
    ensures
        match r {
            Ok(stored) => envelope_decoded(input@) == Some(stored@),
            Err(status) => envelope_decoded(input@) is None && status
                == Status::InternalServerError,
        },
{
    match bincode_crate_deserialize(input) {
        Ok(fields) => Ok(StoredDecryption { value: fields.0, signature: fields.1 }),
        Err(_) => Err(Status::InternalServerError),
    }
}

/// Decoding an envelope gives back the record it was made from.
pub proof fn lemma_envelope_round_trip(stored: StoredDecryptionView)
    requires
        stored.signature.len() <= u64::MAX,
    ensures
        envelope_decoded(envelope(stored)) == Some(stored),
{
    lemma_auto_spec_u64_to_from_le_bytes();
    let value = spec_u64_to_le_bytes(stored.value);
    let length = spec_u64_to_le_bytes(stored.signature.len() as u64);
    let bytes = envelope(stored);
    assert(bytes.subrange(0, 8) =~= value);
    assert(bytes.subrange(8, 16) =~= length);
    assert(bytes.subrange(16, 16 + stored.signature.len() as int) =~= stored.signature);
}

/// Two records with the same envelope are the same record.
pub proof fn lemma_envelope_injective(a: StoredDecryptionView, b: StoredDecryptionView)
    requires
        a.signature.len() <= u64::MAX,
        b.signature.len() <= u64::MAX,
        envelope(a) == envelope(b),
    ensures
        a == b,
{
    lemma_envelope_round_trip(a);
    lemma_envelope_round_trip(b);
}

/// The status that a failure of the store is answered with.
pub open spec fn spec_store_status(error: StoreError) -> Status {
    match error {
        StoreError::Unavailable => Status::ServiceUnavailable,
        StoreError::Failed => Status::InternalServerError,
    }
}

/// The status that a failure of the store is answered with: service
/// unavailable where no worker took the operation, internal server error where
/// the store failed.
pub fn store_status(error: StoreError) -> (status: Status)
    ensures
        status == spec_store_status(error),
{
    match error {
        StoreError::Unavailable => Status::ServiceUnavailable,
        StoreError::Failed => Status::InternalServerError,
    }
}

/// The body of a PUT as contracts see it; `None` is a body that did not parse.
pub open spec fn wire_body(body: Option<Decryption>) -> Option<DecryptionView> {
    match body {
        Some(decryption) => Some(decryption@),
        None => None,
    }
}

/// The record that a PUT asks to store. `None` where the body did not parse or
/// its signature is no base64 text: such a PUT is a bad request.
pub open spec fn put_record(body: Option<DecryptionView>) -> Option<StoredDecryptionView> {
    match body {
        Some(wire) => stored_of_wire(wire),
        None => None,
    }
}

/// The first step of a PUT: the record to publish and the envelope to store.
/// A body that did not parse, or whose signature is no base64 text, is a bad
/// request, and nothing else is.
pub fn prepare_put(decryption: Option<Decryption>) -> (r: Result<
    (StoredDecryption, Vec<u8>),
    Status,
>)
    ensures
        match r {
            Ok(plan) => put_record(wire_body(decryption)) == Some(plan.0@) && plan.1@ == envelope(
                plan.0@,
            ),
            Err(status) => put_record(wire_body(decryption)) is None && status
                == Status::BadRequest,
        },
{
    let decryption = match decryption {
        Some(decryption) => decryption,
        None => { return Err(Status::BadRequest); },
    };
    let stored_decryption = StoredDecryption::try_from(decryption)?;
    let stored_decryption_bytes = bincode_serialize(&stored_decryption)?;
    Ok((stored_decryption, stored_decryption_bytes))
}

/// The answer to a PUT whose envelope went to the store: success where the
/// store took it, else the status of the store's failure.
pub open spec fn spec_answer_put(outcome: Result<(), StoreError>) -> Result<(), Status> {
    match outcome {
        Ok(_) => Ok(()),
        Err(error) => Err(spec_store_status(error)),
    }
}

/// The answer to a PUT, given what the store said. The record is published to
/// the wait cache only where this is `Ok`.
pub fn answer_put(outcome: Result<(), StoreError>) -> (r: Result<(), Status>)
    ensures
        r == spec_answer_put(outcome),
{
    match outcome {
        Ok(()) => Ok(()),
        Err(error) => Err(store_status(error)),
    }
}

/// The store after a PUT that it accepted.
pub open spec fn store_after_put(
    store: Map<Seq<u8>, Seq<u8>>,
    key: Seq<u8>,
    body: Option<DecryptionView>,
) -> Map<Seq<u8>, Seq<u8>> {
    match put_record(body) {
        Some(stored) => store.insert(key, envelope(stored)),
        None => store,
    }
}

/// The PUT endpoint, the key already parsed. A body that did not parse, or
/// whose signature is no base64 text, is a bad request, and the store is not
/// asked. Otherwise the record's envelope goes to the store under the key, and
/// the answer is `answer_put` of what the store said. Only once the store has
/// taken the envelope is the record published to the readers that wait on the
/// key. Whenever the answer is an error the store is as it was.
pub fn put_decryption<D: Database>(
    db: &mut D,
    cache: &WaitCache<Vec<u8>, StoredDecryption>,
    key: Key,
    decryption: Option<Decryption>,
) -> (r: Result<(), Status>)
    ensures
        put_record(wire_body(decryption)) is None ==> r == Err::<(), Status>(Status::BadRequest),
        put_record(wire_body(decryption)) is Some ==> exists|outcome: Result<(), StoreError>|
            r == spec_answer_put(outcome),
        r is Ok ==> final(db).view() == store_after_put(
            old(db).view(),
            key@,
            wire_body(decryption),
        ),
        r is Err ==> final(db).view() == old(db).view(),
{
    let (stored_decryption, stored_decryption_bytes) = prepare_put(decryption)?;
    let outcome = db.put_require(key.as_bytes(), stored_decryption_bytes.as_slice());
    answer_put(outcome)?;
    cache.put(key.into_bytes(), stored_decryption);
    Ok(())
}

/// How far a GET has come once the store has been asked.
#[derive(Debug)]
pub enum GetStep {
    /// The answer.
    Done(Result<Decryption, Status>),
    /// The store has no record under the key: the reader waits on the wait
    /// cache under `key` for at most `timeout_ms` milliseconds, and
    /// `finish_get` turns what the wait gave into the answer.
    Wait { key: Vec<u8>, timeout_ms: u64 },
}

/// A `GetStep` as contracts see it.
pub enum GetStepView {
    Done(Result<DecryptionView, Status>),
    Wait { key: Seq<u8>, timeout_ms: u64 },
}

impl View for GetStep {
    type V = GetStepView;

    open spec fn view(&self) -> GetStepView {
        match *self {
            GetStep::Done(Ok(decryption)) => GetStepView::Done(Ok(decryption@)),
            GetStep::Done(Err(status)) => GetStepView::Done(Err(status)),
            GetStep::Wait { key, timeout_ms } => GetStepView::Wait { key: key@, timeout_ms },
        }
    }
}

/// What the store said to a read, as contracts see it.
pub open spec fn found_view(found: Result<Option<Vec<u8>>, StoreError>) -> Result<
    Option<Seq<u8>>,
    StoreError,
> {
    match found {
        Ok(Some(bytes)) => Ok(Some(bytes@)),
        Ok(None) => Ok(None),
        Err(error) => Err(error),
    }
}

/// What a GET comes to, given what the store said: the status of the store's
/// failure; the stored record in wire form; an internal server error where
/// the stored bytes are no envelope; a wait, bounded by `timeout_ms`, where
/// the store has nothing under the key.
pub open spec fn spec_answer_get(
    found: Result<Option<Seq<u8>>, StoreError>,
    key: Seq<u8>,
    timeout_ms: u64,
) -> GetStepView {
    match found {
        Err(error) => GetStepView::Done(Err(spec_store_status(error))),
        Ok(Some(bytes)) => match envelope_decoded(bytes) {
            Some(stored) => GetStepView::Done(Ok(wire_of_stored(stored))),
            None => GetStepView::Done(Err(Status::InternalServerError)),
        },
        Ok(None) => GetStepView::Wait { key, timeout_ms },
    }
}

/// What a store that answers says to a read of `key`.
pub open spec fn store_lookup(store: Map<Seq<u8>, Seq<u8>>, key: Seq<u8>) -> Result<
    Option<Seq<u8>>,
    StoreError,
> {
    if store.contains_key(key) {
        Ok(Some(store[key]))
    } else {
        Ok(None)
    }
}

/// What a GET comes to on a store that answers.
pub open spec fn get_step(store: Map<Seq<u8>, Seq<u8>>, key: Seq<u8>, timeout_ms: u64)
    -> GetStepView {
    spec_answer_get(store_lookup(store, key), key, timeout_ms)
}

/// The step of a GET that follows the read of the store. The wait is bounded
/// by the configured delay. A record that is answered decodes to the record
/// that the store held.
pub fn answer_get(config: &Config, key: Key, found: Result<Option<Vec<u8>>, StoreError>) -> (step:
    GetStep)
    ensures
        step@ == spec_answer_get(found_view(found), key@, config.max_expected_oracle_delay_ms),
        step matches GetStep::Done(Ok(wire)) ==> found matches Ok(Some(bytes))
            && stored_of_wire(wire@) == envelope_decoded(bytes@),
{
    match found {
        Err(error) => GetStep::Done(Err(store_status(error))),
        Ok(Some(value)) => {
            match bincode_deserialize(value.as_slice()) {
                Ok(stored_decryption) => GetStep::Done(Ok(Decryption::from(stored_decryption))),
                Err(status) => GetStep::Done(Err(status)),
            }
        },
        Ok(None) => GetStep::Wait {
            key: key.into_bytes(),
            timeout_ms: config.max_expected_oracle_delay_ms,
        },
    }
}

/// The GET endpoint up to the wait, the key already parsed: `answer_get` of
/// what the store says to a read of the key. Where the store answers, that is
/// `get_step`.
pub fn get_decryption<D: Database>(config: &Config, db: &D, key: Key) -> (step: GetStep)
    ensures
        step@ == get_step(db.view(), key@, config.max_expected_oracle_delay_ms) || (exists|
            error: StoreError,
        |
            step@ == spec_answer_get(Err(error), key@, config.max_expected_oracle_delay_ms)),
        step matches GetStep::Done(Ok(wire)) ==> db.view().contains_key(key@) && stored_of_wire(
            wire@,
        ) == envelope_decoded(db.view()[key@]),
{
    let found = db.get_require(key.as_bytes());
    answer_get(config, key, found)
}

/// The end of a GET that waited on the wait cache: the record in wire form
/// where the wait gave one, not found where it ran out.
pub fn finish_get(waited: Option<StoredDecryption>) -> (r: Result<Decryption, Status>)
    ensures
        match (waited, r) {
            (Some(stored), Ok(wire)) => wire@ == wire_of_stored(stored@) && stored_of_wire(wire@)
                == Some(stored@),
            (None, Err(status)) => status == Status::NotFound,
            _ => false,
        },
{
    match waited {
        Some(stored_decryption) => Ok(Decryption::from(stored_decryption)),
        None => Err(Status::NotFound),
    }
}

/// The store after a run of PUTs on one key, each accepted by the store, in
/// the order of `bodies`.
pub open spec fn store_after_puts(
    store: Map<Seq<u8>, Seq<u8>>,
    key: Seq<u8>,
    bodies: Seq<DecryptionView>,
) -> Map<Seq<u8>, Seq<u8>>
    decreases bodies.len(),
{
    if bodies.len() == 0 {
        store
    } else {
        store_after_put(store_after_puts(store, key, bodies.drop_last()), key, Some(bodies.last()))
    }
}

/// Round trip. After a PUT of a well-formed record that the store accepted, a
/// GET on the same key finds the record in the store and answers with its
/// wire form: the value is the one that was put, and every answer that
/// decodes to what the store holds under the key decodes to what the body of
/// the PUT decodes to.
pub proof fn lemma_get_after_put(
    store: Map<Seq<u8>, Seq<u8>>,
    key: Seq<u8>,
    wire: DecryptionView,
    timeout_ms: u64,
)
    requires
        stored_of_wire(wire) is Some,
        stored_of_wire(wire).unwrap().signature.len() <= u64::MAX,
    ensures
        get_step(store_after_put(store, key, Some(wire)), key, timeout_ms) == GetStepView::Done(
            Ok(wire_of_stored(stored_of_wire(wire).unwrap())),
        ),
        wire_of_stored(stored_of_wire(wire).unwrap()).value == wire.value,
        forall|answer: DecryptionView|
            stored_of_wire(answer) == envelope_decoded(
                store_after_put(store, key, Some(wire))[key],
            ) ==> #[trigger] stored_of_wire(answer) == stored_of_wire(wire),
{
    lemma_envelope_round_trip(stored_of_wire(wire).unwrap());
}

/// Last writer wins. After any run of PUTs of well-formed records on one key,
/// each accepted by the store, a GET on that key answers with the record of
/// the last PUT.
pub proof fn lemma_last_writer_wins(
    store: Map<Seq<u8>, Seq<u8>>,
    key: Seq<u8>,
    bodies: Seq<DecryptionView>,
    timeout_ms: u64,
)
    requires
        bodies.len() > 0,
        stored_of_wire(bodies.last()) is Some,
        stored_of_wire(bodies.last()).unwrap().signature.len() <= u64::MAX,
    ensures
        get_step(store_after_puts(store, key, bodies), key, timeout_ms) == GetStepView::Done(
            Ok(wire_of_stored(stored_of_wire(bodies.last()).unwrap())),
        ),
{
    lemma_get_after_put(
        store_after_puts(store, key, bodies.drop_last()),
        key,
        bodies.last(),
        timeout_ms,
    );
}

/// A PUT that is a bad request is invisible: the store after it is the store
/// before it, so every GET, on any key, comes to the same as before.
pub proof fn lemma_rejected_put_is_invisible(
    store: Map<Seq<u8>, Seq<u8>>,
    key: Seq<u8>,
    body: Option<DecryptionView>,
    read_key: Seq<u8>,
    timeout_ms: u64,
)
    requires
        put_record(body) is None,
    ensures
        store_after_put(store, key, body) == store,
        get_step(store_after_put(store, key, body), read_key, timeout_ms) == get_step(
            store,
            read_key,
            timeout_ms,
        ),
{
}

} // verus!
