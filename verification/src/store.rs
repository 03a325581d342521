//! The token store: the single persisted credential record.
//!
//! At most one credential is active per local profile; the store models the
//! one record slot the persistence collaborator keeps for it. `save` is an
//! atomic replace of the whole record, `load` distinguishes an absent record
//! from a corrupt one, and `delete` clears the slot. The caller that owns
//! the real storage mirrors this slot byte-for-byte: `record` hands it the
//! bytes to write, `from_record` rebuilds the store from the bytes it read.

use vstd::prelude::*;

use crate::codec::decode_record;
use crate::codec::encode_token;
use crate::codec::lemma_record_round_trip;
use crate::codec::spec_decode;
use crate::codec::spec_encode;
use crate::codec::spec_token_wf;
use crate::error::AuthError;
use crate::token::BuilderIdToken;

verus! {

use vstd::std_specs::vec::spec_vec_len;

/// The one record slot the persistence layer keeps for the credential.
#[derive(Debug)]
pub struct TokenStore {
    record: Option<Vec<u8>>,
}

impl View for TokenStore {
    type V = Option<Seq<u8>>;

    closed spec fn view(&self) -> Option<Seq<u8>> {
        match self.record {
            Option::Some(r) => Option::Some(r@),
            Option::None => Option::None,
        }
    }
}

/// A credential is present when a record exists and decodes; a corrupt or
/// absent record is no credential.
pub open spec fn spec_has_token(rec: Option<Seq<u8>>) -> bool {
    match rec {
        Option::Some(r) => spec_decode(r) is Some,
        Option::None => false,
    }
}

impl TokenStore {
    /// An empty store: no credential.
    pub fn new() -> (s: TokenStore)
        ensures
            s@ is None,
    {
        TokenStore { record: Option::None }
    }

    /// Rebuild the store from the raw record the persistence layer holds,
    /// or from its absence.
    pub fn from_record(record: Option<Vec<u8>>) -> (s: TokenStore)
        ensures
            s@ == match record {
                Option::Some(r) => Option::Some(r@),
                Option::None => Option::<Seq<u8>>::None,
            },
    {
        TokenStore { record }
    }

    /// The raw record to hand to the persistence layer, or `None` when the
    /// slot is empty.
    pub fn record(&self) -> (r: &Option<Vec<u8>>)
        ensures
            self@ == match r {
                Option::Some(b) => Option::Some(b@),
                Option::None => Option::<Seq<u8>>::None,
            },
    {
        &self.record
    }

    /// Replace the whole record with the encoding of `t`, atomically: the
    /// slot holds either the old record or the complete new one, never a
    /// mixture. The new record is guaranteed to decode back to `t`.
    pub fn save(&mut self, t: &BuilderIdToken)
        ensures
            final(self)@ == Option::Some(spec_encode(t@)),
            spec_decode(spec_encode(t@)) == Option::Some(t@),
    {
        let encoded = encode_token(t);
        proof {
            assert(spec_vec_len(&t.access_token) == t.access_token@.len());
            assert(spec_vec_len(&t.region) == t.region@.len());
            assert(spec_vec_len(&t.start_url) == t.start_url@.len());
            assert(spec_vec_len(&t.scopes) == t.scopes@.len());
            if t.refresh_token is Some {
                let rt = t.refresh_token->Some_0;
                assert(spec_vec_len(&rt) == rt@.len());
            }
            assert(t@.scopes == t.scopes.deep_view());
            assert forall|i: int| 0 <= i < t@.scopes.len() implies #[trigger] t@.scopes[i].len()
                <= u64::MAX by {
                assert(t@.scopes[i] =~= t.scopes@[i]@);
                assert(spec_vec_len(&t.scopes@[i]) == t.scopes@[i]@.len());
            }
            assert(spec_token_wf(t@));
            lemma_record_round_trip(t@);
        }
        self.record = Option::Some(encoded);
    }

    /// Load the stored credential: `Ok(None)` when no record exists,
    /// `Err(TokenCorrupted)` when a record exists but does not decode, and
    /// the decoded token otherwise.
    pub fn load(&self) -> (r: Result<Option<BuilderIdToken>, AuthError>)
        ensures
            match self@ {
                Option::None => r == Result::<Option<BuilderIdToken>, AuthError>::Ok(
                    Option::<BuilderIdToken>::None,
                ),
                Option::Some(rec) => match spec_decode(rec) {
                    Option::Some(v) => match r {
                        Result::Ok(Option::Some(t)) => t@ == v,
                        _ => false,
                    },
                    Option::None => r == Result::<Option<BuilderIdToken>, AuthError>::Err(
                        AuthError::TokenCorrupted,
                    ),
                },
            },
    {
        match &self.record {
            Option::None => Result::Ok(Option::None),
            Option::Some(rec) => match decode_record(rec) {
                Option::Some(t) => Result::Ok(Option::Some(t)),
                Option::None => Result::Err(AuthError::TokenCorrupted),
            },
        }
    }

    /// Clear the record slot.
    pub fn delete(&mut self)
        ensures
            final(self)@ is None,
    {
        self.record = Option::None;
    }

    /// True iff a record is present and decodes: "is there a credential,"
    /// not "is it currently valid."
    pub fn has_token(&self) -> (r: bool)
        ensures
            r == spec_has_token(self@),
    {
        match self.load() {
            Result::Ok(Option::Some(_)) => true,
            _ => false,
        }
    }
}

} // verus!
