//! Per-account cache handles with explicit freshness control and an
//! optional push subscription.
//!
//! A handle owns one address and at most one decoded record. `get_data`
//! replaces the cache exactly when the caller forces a refresh or nothing
//! is cached yet; a push always replaces it. Decode failures never damage
//! what is already cached and never tear a subscription down.

use vstd::prelude::*;
use crate::address::Address;
use crate::errors::DriftError;
use crate::records::{AccountKind, Record, record_matches_bytes, spec_record_decodes,
    decode_record};

verus! {

/// Remote reads are attempted at most this many times.
pub const READ_ATTEMPTS: u64 = 3;

/// Seconds between remote read attempts.
pub const READ_RETRY_DELAY_SECS: u64 = 4;

/// A failed unsubscribe request is retried at most this many times.
pub const UNSUBSCRIBE_RETRIES: u64 = 2;

/// Seconds between unsubscribe attempts.
pub const UNSUBSCRIBE_RETRY_DELAY_SECS: u64 = 2;

/// Whether another remote read should be attempted after `attempts_done`
/// failed attempts: the bound prevents unbounded blocking.
pub fn should_retry_read(attempts_done: u64) -> (r: bool)
    ensures
        r == (attempts_done < READ_ATTEMPTS),
{
    attempts_done < READ_ATTEMPTS
}

/// Whether another unsubscribe request should be sent after
/// `failures` failed ones. One stuck handle retries on its own bound and
/// never blocks the others.
pub fn should_retry_unsubscribe(failures: u64) -> (r: bool)
    ensures
        r == (failures <= UNSUBSCRIBE_RETRIES),
{
    failures <= UNSUBSCRIBE_RETRIES
}

/// What the standard base64 decoding yields for a string: its bytes, or
/// nothing when the string is not valid base64. A pure function of the
/// input alone.
pub uninterp spec fn b64_decoded(s: Seq<char>) -> Option<Seq<u8>>;

/// Relies on base64's standard-alphabet engine decode: deterministic in
/// the input string; malformed input yields an error.
#[verifier::external_body]
fn base64_decode_raw(s: &str) -> (r: Option<Vec<u8>>)
    ensures
        (match r {
            Some(v) => b64_decoded(s@) == Some(v@),
            None => b64_decoded(s@) is None,
        }),
{
    match base64::Engine::decode(&base64::engine::general_purpose::STANDARD, s) {
        Ok(v) => Some(v),
        Err(_) => None,
    }
}

/// The cache handle for one tracked account: its kind, its address, a
/// diagnostic label, the last decoded record if any, and whether a push
/// subscription is up.
#[derive(Debug)]
pub struct AccountHandle {
    pub kind: AccountKind,
    pub address: Address,
    pub label: String,
    pub cached: Option<Record>,
    pub subscribed: bool,
}

impl AccountHandle {
    /// A cached record always belongs to the handle's kind and is
    /// structurally well-formed.
    pub open spec fn wf(self) -> bool {
        match self.cached {
            Some(rec) => rec.kind() == self.kind && rec.wf(),
            None => true,
        }
    }

    /// The same handle with no subscription up.
    pub open spec fn spec_unsubscribed(self) -> AccountHandle {
        AccountHandle { subscribed: false, ..self }
    }

    /// Whether a `get_data(force)` step must issue a remote read: always
    /// under force, otherwise exactly when nothing is cached.
    pub open spec fn spec_needs_fetch(self, force: bool) -> bool {
        force || self.cached is None
    }

    /// A fresh handle: empty cache, no subscription.
    pub fn new(kind: AccountKind, address: Address, label: String) -> (r: AccountHandle)
        ensures
            r == (AccountHandle { kind, address, label, cached: None, subscribed: false }),
    {
        AccountHandle { kind, address, label, cached: None, subscribed: false }
    }

    pub fn pubkey(&self) -> (r: Address)
        ensures
            r == self.address,
    {
        self.address
    }

    pub fn get_name(&self) -> (r: &String)
        ensures
            r == self.label,
    {
        &self.label
    }

    pub fn is_subscribed(&self) -> (r: bool)
        ensures
            r == self.subscribed,
    {
        self.subscribed
    }

    /// The cached record, if any, as a read-only borrow.
    pub fn cached_record(&self) -> (r: Option<&Record>)
        ensures
            (match r {
                Some(rec) => self.cached == Some(*rec),
                None => self.cached is None,
            }),
    {
        match &self.cached {
            Some(rec) => Some(rec),
            None => None,
        }
    }

    /// Whether `get_data(force)` must issue a remote read before it can
    /// answer.
    pub fn needs_fetch(&self, force: bool) -> (r: bool)
        ensures
            r == self.spec_needs_fetch(force),
    {
        force || match &self.cached {
            Some(_) => false,
            None => true,
        }
    }

    /// One `get_data(force)` step, with the remote read's outcome handed
    /// in by the transport. A read is consumed exactly when the step needs
    /// one: always under force, otherwise only when nothing is cached. On
    /// fetched bytes that decode, the cache is replaced; on a transport or
    /// decode failure the cache keeps its old value and the error is
    /// surfaced.
    pub fn get_data(&mut self, force: bool, fetched: Option<Result<Vec<u8>, DriftError>>) -> (r:
        Result<(), DriftError>)
        requires
            old(self).wf(),
            fetched is Some <==> old(self).spec_needs_fetch(force),
        ensures
            final(self).kind == old(self).kind,
            final(self).address == old(self).address,
            final(self).label == old(self).label,
            final(self).subscribed == old(self).subscribed,
            final(self).wf(),
            !old(self).spec_needs_fetch(force) ==> *final(self) == *old(self) && r is Ok,
            r is Ok ==> final(self).cached is Some,
            (match fetched {
                Some(Ok(bytes)) => {
                    if spec_record_decodes(old(self).kind, bytes@) {
                        &&& r is Ok
                        &&& final(self).cached is Some
                        &&& record_matches_bytes(final(self).cached->Some_0, bytes@)
                    } else {
                        &&& r is Err
                        &&& r->Err_0 == DriftError::DecodeError
                        &&& final(self).cached == old(self).cached
                    }
                },
                Some(Err(e)) => r is Err && r->Err_0 == e && final(self).cached == old(
                    self,
                ).cached,
                None => true,
            }),
    {
        match fetched {
            Some(Ok(bytes)) => {
                match decode_record(self.kind, bytes.as_slice()) {
                    Ok(rec) => {
                        self.cached = Some(rec);
                        Ok(())
                    },
                    Err(e) => Err(e),
                }
            },
            Some(Err(e)) => Err(e),
            None => Ok(()),
        }
    }

    /// Apply one pushed update. Pushes replace the cache regardless of any
    /// freshness flag; a push that fails to decode is dropped on its own —
    /// the cache keeps its value and the subscription stays up, so the
    /// next valid push still lands.
    pub fn apply_push(&mut self, bytes: &[u8]) -> (r: Result<(), DriftError>)
        requires
            old(self).wf(),
        ensures
            final(self).kind == old(self).kind,
            final(self).address == old(self).address,
            final(self).label == old(self).label,
            final(self).subscribed == old(self).subscribed,
            final(self).wf(),
            r is Ok <==> spec_record_decodes(old(self).kind, bytes@),
            r is Ok ==> final(self).cached is Some && record_matches_bytes(
                final(self).cached->Some_0,
                bytes@,
            ),
            r is Err ==> r->Err_0 == DriftError::DecodeError && final(self).cached == old(
                self,
            ).cached,
    {
        match decode_record(self.kind, bytes) {
            Ok(rec) => {
                self.cached = Some(rec);
                Ok(())
            },
            Err(e) => Err(e),
        }
    }

    /// Apply one pushed update that arrives base64-encoded, as the live
    /// channel delivers it. Undecodable text counts as a decode failure of
    /// that single message.
    pub fn apply_push_encoded(&mut self, payload: &str) -> (r: Result<(), DriftError>)
        requires
            old(self).wf(),
        ensures
            final(self).kind == old(self).kind,
            final(self).address == old(self).address,
            final(self).label == old(self).label,
            final(self).subscribed == old(self).subscribed,
            final(self).wf(),
            (match b64_decoded(payload@) {
                Some(bytes) => {
                    &&& (r is Ok <==> spec_record_decodes(old(self).kind, bytes))
                    &&& (r is Ok ==> final(self).cached is Some && record_matches_bytes(
                        final(self).cached->Some_0,
                        bytes,
                    ))
                },
                None => r is Err && final(self).cached == old(self).cached,
            }),
            r is Err ==> r->Err_0 == DriftError::DecodeError && final(self).cached == old(
                self,
            ).cached,
    {
        match base64_decode_raw(payload) {
            Some(bytes) => self.apply_push(bytes.as_slice()),
            None => Err(DriftError::DecodeError),
        }
    }

    /// Mark a push subscription open. Nothing is done when one is already
    /// up; the result says whether the caller must actually open a
    /// channel.
    pub fn subscribe(&mut self) -> (r: bool)
        ensures
            *final(self) == (AccountHandle { subscribed: true, ..*old(self) }),
            r == !old(self).subscribed,
    {
        let was = self.subscribed;
        self.subscribed = true;
        !was
    }

    /// Apply one unsubscribe attempt. When no subscription is up the call
    /// is a no-op that succeeds trivially; otherwise `send_ok` is the
    /// transport's answer to the unsubscribe request, and only a
    /// successful answer clears the marker. Failure corrupts nothing.
    pub fn unsubscribe(&mut self, send_ok: bool) -> (r: Result<(), DriftError>)
        ensures
            r is Ok <==> (!old(self).subscribed || send_ok),
            r is Ok ==> *final(self) == old(self).spec_unsubscribed(),
            r is Err ==> *final(self) == *old(self) && r->Err_0 == DriftError::TransportError,
    {
        if !self.subscribed {
            return Ok(());
        }
        if send_ok {
            self.subscribed = false;
            proof {
                assert(*self =~= old(self).spec_unsubscribed());
            }
            Ok(())
        } else {
            Err(DriftError::TransportError)
        }
    }
}

/// Law: `unsubscribe` is idempotent. After one successful unsubscribe the
/// handle holds no subscription; a second unsubscribe from that state is
/// answered without consulting the transport, succeeds, and changes
/// nothing.
pub proof fn lemma_unsubscribe_idempotent(h: AccountHandle)
    ensures
        !h.spec_unsubscribed().subscribed,
        h.spec_unsubscribed().spec_unsubscribed() == h.spec_unsubscribed(),
{
}

/// Law: the read policy of `get_data`. A forced get always issues a
/// remote read, cached value or not; an unforced get issues one exactly
/// when nothing is cached.
pub proof fn lemma_get_read_policy(h: AccountHandle)
    ensures
        h.spec_needs_fetch(true),
        h.spec_needs_fetch(false) <==> h.cached is None,
{
}

} // verus!
