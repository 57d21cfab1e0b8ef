//! The state that the endpoints share, and the endpoints on raw path
//! segments.

use vstd::prelude::*;
use crate::config::Config;
use crate::db::Database;
use crate::db::StoreError;
use crate::routes::envelope_decoded;
use crate::routes::get_decryption;
use crate::routes::get_step;
use crate::routes::hex_decoded;
use crate::routes::parse_key;
use crate::routes::put_decryption;
use crate::routes::put_record;
use crate::routes::spec_answer_get;
use crate::routes::spec_answer_put;
use crate::routes::store_after_put;
use crate::routes::stored_of_wire;
use crate::routes::valid_key;
use crate::routes::wire_body;
use crate::routes::Decryption;
use crate::routes::GetStep;
use crate::routes::GetStepView;
use crate::routes::Status;
use crate::routes::StoredDecryption;
use crate::wait_cache::WaitCache;

verus! {

/// What the handlers share: the configuration, the durable store and the wait
/// cache.
pub struct AppState<D> {
    pub config: Config,
    pub db: D,
    pub cache: WaitCache<Vec<u8>, StoredDecryption>,
}

impl<D: Database> AppState<D> {
    /// `PUT /<record>/<key>`. The answer is a bad request if and only if the
    /// key is malformed, the body did not parse, or its signature is no base64
    /// text; the store is not asked then. On success the store holds the
    /// record's envelope under the key's bytes; on every error it is as it
    /// was.
    pub fn put(&mut self, key: &str, body: Option<Decryption>) -> (r: Result<(), Status>)
        ensures
            r == Err::<(), Status>(Status::BadRequest) <==> !valid_key(key@) || put_record(
                wire_body(body),
            ) is None,
            valid_key(key@) && put_record(wire_body(body)) is Some ==> exists|
                outcome: Result<(), StoreError>,
            |
                r == spec_answer_put(outcome),
            r is Ok ==> final(self).db.view() == store_after_put(
                old(self).db.view(),
                hex_decoded(key@).unwrap(),
                wire_body(body),
            ),
            r is Err ==> final(self).db.view() == old(self).db.view(),
            final(self).config == old(self).config,
    {
        let key = parse_key(key)?;
        put_decryption(&mut self.db, &self.cache, key, body)
    }

    /// `GET /<record>/<key>` up to the wait. The answer is a bad request if
    /// and only if the key is malformed; the store is not asked then.
    /// Otherwise it is what `get_decryption` gives for the key's bytes.
    pub fn get(&self, key: &str) -> (step: GetStep)
        ensures
            step@ == GetStepView::Done(Err(Status::BadRequest)) <==> !valid_key(key@),
            valid_key(key@) ==> step@ == get_step(
                self.db.view(),
                hex_decoded(key@).unwrap(),
                self.config.max_expected_oracle_delay_ms,
            ) || (exists|error: StoreError|
                step@ == spec_answer_get(
                    Err(error),
                    hex_decoded(key@).unwrap(),
                    self.config.max_expected_oracle_delay_ms,
                )),
            step matches GetStep::Done(Ok(wire)) ==> self.db.view().contains_key(
                hex_decoded(key@).unwrap(),
            ) && stored_of_wire(wire@) == envelope_decoded(
                self.db.view()[hex_decoded(key@).unwrap()],
            ),
    {
        match parse_key(key) {
            Ok(key) => get_decryption(&self.config, &self.db, key),
            Err(status) => GetStep::Done(Err(status)),
        }
    }
}

} // verus!
