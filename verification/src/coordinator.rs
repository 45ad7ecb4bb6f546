//! The negotiation coordinator: the single owner of the session record table.
//!
//! A negotiation runs in two steps. [`begin_negotiation`] validates the offer
//! and allocates the session identity; only when it succeeds may the caller
//! invoke the external media engine (so a rejected offer never reaches the
//! engine). [`Coordinator::finish_negotiation`] then takes the engine's
//! outcome: on success it binds a [`NegotiationRecord`] under the session id
//! and builds the answer, on failure it reports the failure and leaves the
//! table untouched.
//!
//! The coordinator also owns the lenient ICE relay (always acknowledges) and
//! the session closer (removes the record; always acknowledges, so closing is
//! idempotent).

use vstd::prelude::*;

use crate::session_id::{allocate_session_id, is_canonical_session_id};
use crate::text::is_blank;
use crate::validate::{answer_type, offer_is_valid, offer_type, validate_offer, ValidationError};
use crate::wire::{
    CloseSessionRequest, CloseSessionResponse, ErrorResponse, IceCandidateRequest,
    IceCandidateResponse, SdpAnswerResponse, SdpOfferRequest, SdpSessionDescription,
};

verus! {

/// One negotiated exchange, held by the coordinator from answer creation to
/// close. Metadata is the caller's opaque value, stored verbatim.
#[derive(Debug)]
pub struct NegotiationRecord {
    pub session_id: String,
    pub offer_sdp: String,
    pub answer_sdp: String,
    pub metadata: Option<serde_json::Value>,
    pub created_at_ms: u64,
}

/// A validated offer whose session identity has been allocated, awaiting the
/// media engine's answer.
#[derive(Debug)]
pub struct PendingNegotiation {
    pub session_id: String,
    pub offer_sdp: String,
    pub metadata: Option<serde_json::Value>,
}

/// The message of the rejection returned for a description that is not an
/// offer.
pub open spec fn invalid_kind_message() -> Seq<char> {
    "Invalid SDP type, expected 'offer'"@
}

/// The message of the rejection returned for an offer whose body is blank.
pub open spec fn empty_body_message() -> Seq<char> {
    "SDP content cannot be empty"@
}

/// The message reported when the media engine fails on a given detail.
pub open spec fn engine_failure_message(detail: Seq<char>) -> Seq<char> {
    "Failed to process SDP offer: "@ + detail
}

/// No two records share a session id.
pub open spec fn unique_ids(rs: Seq<NegotiationRecord>) -> bool {
    forall|i: int, j: int|
        0 <= i < j < rs.len() ==> (#[trigger] rs[i]).session_id@ != (#[trigger] rs[j]).session_id@
}

/// The record table as a map from session id to record; a later record for
/// the same id shadows an earlier one.
pub closed spec fn table_of(rs: Seq<NegotiationRecord>) -> Map<Seq<char>, NegotiationRecord>
    decreases rs.len(),
{
    if rs.len() == 0 {
        Map::empty()
    } else {
        table_of(rs.drop_last()).insert(rs.last().session_id@, rs.last())
    }
}

proof fn lemma_table_contains(rs: Seq<NegotiationRecord>, id: Seq<char>)
    ensures
        table_of(rs).contains_key(id) <==> exists|i: int|
            0 <= i < rs.len() && (#[trigger] rs[i]).session_id@ == id,
    decreases rs.len(),
{
    if rs.len() > 0 {
        lemma_table_contains(rs.drop_last(), id);
        if table_of(rs).contains_key(id) {
            if rs.last().session_id@ == id {
                assert(rs[rs.len() - 1].session_id@ == id);
            } else {
                let i = choose|i: int|
                    0 <= i < rs.drop_last().len() && (#[trigger] rs.drop_last()[i]).session_id@
                        == id;
                assert(rs[i].session_id@ == id);
            }
        }
        if exists|i: int| 0 <= i < rs.len() && (#[trigger] rs[i]).session_id@ == id {
            let i = choose|i: int| 0 <= i < rs.len() && (#[trigger] rs[i]).session_id@ == id;
            if i < rs.len() - 1 {
                assert(rs.drop_last()[i].session_id@ == id);
            }
        }
    }
}

proof fn lemma_table_at(rs: Seq<NegotiationRecord>, i: int)
    requires
        unique_ids(rs),
        0 <= i < rs.len(),
    ensures
        table_of(rs).contains_key(rs[i].session_id@),
        table_of(rs)[rs[i].session_id@] == rs[i],
    decreases rs.len(),
{
    if i == rs.len() - 1 {
        lemma_table_contains(rs, rs[i].session_id@);
    } else {
        assert(rs[i].session_id@ != rs.last().session_id@);
        assert(rs.drop_last()[i] == rs[i]);
        lemma_table_at(rs.drop_last(), i);
    }
}

proof fn lemma_table_push(rs: Seq<NegotiationRecord>, rec: NegotiationRecord)
    ensures
        table_of(rs.push(rec)) == table_of(rs).insert(rec.session_id@, rec),
{
    assert(rs.push(rec).drop_last() =~= rs);
    assert(rs.push(rec).last() == rec);
}

proof fn lemma_table_remove_absent(rs: Seq<NegotiationRecord>, id: Seq<char>)
    requires
        forall|i: int| 0 <= i < rs.len() ==> (#[trigger] rs[i]).session_id@ != id,
    ensures
        table_of(rs).remove(id) == table_of(rs),
{
    lemma_table_contains(rs, id);
    assert(table_of(rs).remove(id) =~= table_of(rs));
}

proof fn lemma_table_remove(rs: Seq<NegotiationRecord>, i: int)
    requires
        unique_ids(rs),
        0 <= i < rs.len(),
    ensures
        unique_ids(rs.remove(i)),
        table_of(rs.remove(i)) == table_of(rs).remove(rs[i].session_id@),
    decreases rs.len(),
{
    let id = rs[i].session_id@;
    assert(unique_ids(rs.remove(i))) by {
        assert forall|p: int, q: int| 0 <= p < q < rs.remove(i).len() implies (#[trigger] rs.remove(
            i,
        )[p]).session_id@ != (#[trigger] rs.remove(i)[q]).session_id@ by {
            let p0: int = if p < i {
                p
            } else {
                p + 1
            };
            let q0: int = if q < i {
                q
            } else {
                q + 1
            };
            assert(rs.remove(i)[p] == rs[p0]);
            assert(rs.remove(i)[q] == rs[q0]);
        }
    }
    if i == rs.len() - 1 {
        assert(rs.remove(i) =~= rs.drop_last());
        assert(forall|j: int|
            0 <= j < rs.drop_last().len() ==> (#[trigger] rs.drop_last()[j]).session_id@ != id);
        lemma_table_remove_absent(rs.drop_last(), id);
        assert(table_of(rs).remove(id) =~= table_of(rs.drop_last()));
    } else {
        assert(rs.remove(i).drop_last() =~= rs.drop_last().remove(i));
        assert(rs.remove(i).last() == rs.last());
        assert(unique_ids(rs.drop_last())) by {
            assert(forall|p: int|
                0 <= p < rs.drop_last().len() ==> rs.drop_last()[p] == #[trigger] rs[p]);
        }
        assert(rs.drop_last()[i] == rs[i]);
        lemma_table_remove(rs.drop_last(), i);
        assert(id != rs.last().session_id@);
        assert(table_of(rs.drop_last()).remove(id).insert(rs.last().session_id@, rs.last())
            =~= table_of(rs.drop_last()).insert(rs.last().session_id@, rs.last()).remove(id));
    }
}

/// The negotiation coordinator. It exclusively owns the record table; all
/// access goes through its operations.
#[derive(Debug)]
pub struct Coordinator {
    records: Vec<NegotiationRecord>,
}

impl Coordinator {
    /// The record table: one binding per active session id.
    pub closed spec fn table(self) -> Map<Seq<char>, NegotiationRecord> {
        table_of(self.records@)
    }

    /// The coordinator's invariant: no two records share a session id. It is
    /// established by [`Coordinator::new`] and preserved by every operation.
    pub closed spec fn wf(self) -> bool {
        unique_ids(self.records@)
    }

    pub fn new() -> (c: Coordinator)
        ensures
            c.wf(),
            c.table() == Map::<Seq<char>, NegotiationRecord>::empty(),
    {
        Coordinator { records: Vec::new() }
    }

    /// The index of the record bound to `id`, if one is.
    fn find_index(&self, id: &str) -> (r: Option<usize>)
        ensures
            (match r {
                Some(i) => i < self.records@.len() && self.records@[i as int].session_id@ == id@,
                None => forall|i: int|
                    0 <= i < self.records@.len() ==> (#[trigger] self.records@[i]).session_id@
                        != id@,
            }),
    {
        let n = self.records.len();
        let mut i: usize = 0;
        while i < n
            invariant
                i <= n,
                n == self.records@.len(),
                forall|j: int| 0 <= j < i ==> (#[trigger] self.records@[j]).session_id@ != id@,
            decreases n - i,
        {
            if crate::text::str_eq(self.records[i].session_id.as_str(), id) {
                return Some(i);
            }
            i += 1;
        }
        None
    }

    /// Whether a record is currently bound under `id`.
    pub fn contains_session(&self, id: &str) -> (r: bool)
        ensures
            r == self.table().contains_key(id@),
    {
        let found = self.find_index(id);
        proof {
            lemma_table_contains(self.records@, id@);
        }
        match found {
            Some(_) => true,
            None => false,
        }
    }

    /// A copy of the record bound under `id`, if one is.
    pub fn lookup_session(&self, id: &str) -> (r: Option<NegotiationRecord>)
        requires
            self.wf(),
        ensures
            (match r {
                Some(rec) => self.table().contains_key(id@) && rec == self.table()[id@],
                None => !self.table().contains_key(id@),
            }),
    {
        let found = self.find_index(id);
        proof {
            lemma_table_contains(self.records@, id@);
        }
        match found {
            Some(i) => {
                proof {
                    lemma_table_at(self.records@, i as int);
                }
                let rec = &self.records[i];
                Some(
                    NegotiationRecord {
                        session_id: rec.session_id.clone(),
                        offer_sdp: rec.offer_sdp.clone(),
                        answer_sdp: rec.answer_sdp.clone(),
                        metadata: clone_metadata(&rec.metadata),
                        created_at_ms: rec.created_at_ms,
                    },
                )
            },
            None => None,
        }
    }

    /// Binds `rec` under its session id, replacing any earlier record there.
    fn upsert(&mut self, rec: NegotiationRecord)
        requires
            old(self).wf(),
        ensures
            final(self).wf(),
            final(self).table() == old(self).table().insert(rec.session_id@, rec),
    {
        let ghost rs0 = self.records@;
        let found = self.find_index(rec.session_id.as_str());
        match found {
            Some(i) => {
                proof {
                    lemma_table_remove(rs0, i as int);
                }
                self.records.remove(i);
                proof {
                    lemma_table_push(rs0.remove(i as int), rec);
                    assert(forall|j: int|
                        0 <= j < rs0.remove(i as int).len() ==> (#[trigger] rs0.remove(
                            i as int,
                        )[j]).session_id@ != rec.session_id@) by {
                        assert forall|j: int| 0 <= j < rs0.remove(i as int).len() implies (
                        #[trigger] rs0.remove(i as int)[j]).session_id@ != rec.session_id@ by {
                            let j0: int = if j < i {
                                j
                            } else {
                                j + 1
                            };
                            assert(rs0.remove(i as int)[j] == rs0[j0]);
                        }
                    }
                    assert(unique_ids(rs0.remove(i as int).push(rec))) by {
                        let rs1 = rs0.remove(i as int);
                        assert(forall|p: int| 0 <= p < rs1.len() ==> rs1.push(rec)[p] == #[trigger] rs1[p]);
                        assert(rs1.push(rec)[rs1.len() as int] == rec);
                    }
                    assert(table_of(rs0).remove(rec.session_id@).insert(rec.session_id@, rec)
                        =~= table_of(rs0).insert(rec.session_id@, rec));
                }
                self.records.push(rec);
            },
            None => {
                proof {
                    lemma_table_push(rs0, rec);
                    assert(unique_ids(rs0.push(rec))) by {
                        assert(forall|p: int| 0 <= p < rs0.len() ==> rs0.push(rec)[p] == #[trigger] rs0[p]);
                        assert(rs0.push(rec)[rs0.len() as int] == rec);
                    }
                    lemma_table_contains(rs0, rec.session_id@);
                    assert(table_of(rs0).insert(rec.session_id@, rec) =~= table_of(rs0).remove(
                        rec.session_id@,
                    ).insert(rec.session_id@, rec));
                }
                self.records.push(rec);
            },
        }
    }

    /// Completes a negotiation that [`begin_negotiation`] admitted, given the
    /// media engine's outcome for the pending offer and the current time.
    ///
    /// On engine success the record is bound under the session id (replacing
    /// any earlier record there, every other binding untouched) and the
    /// answer echoes the session id and the caller's metadata. On engine
    /// failure no record is created and the table is left as it was.
    pub fn finish_negotiation(
        &mut self,
        pending: PendingNegotiation,
        engine_result: Result<String, String>,
        now_ms: u64,
    ) -> (r: Result<SdpAnswerResponse, ErrorResponse>)
        requires
            old(self).wf(),
        ensures
            final(self).wf(),
            r is Ok <==> engine_result is Ok,
            engine_result matches Ok(answer) ==> (r matches Ok(resp) && {
                &&& resp.sdp.sdp_type@ == answer_type()
                &&& resp.sdp.sdp@ == answer@
                &&& resp.session_id@ == pending.session_id@
                &&& resp.ice_candidates is None
                &&& resp.metadata == pending.metadata
                &&& final(self).table().contains_key(pending.session_id@)
                &&& final(self).table()[pending.session_id@].session_id@ == pending.session_id@
                &&& final(self).table()[pending.session_id@].offer_sdp@ == pending.offer_sdp@
                &&& final(self).table()[pending.session_id@].answer_sdp@ == answer@
                &&& final(self).table()[pending.session_id@].metadata == pending.metadata
                &&& final(self).table()[pending.session_id@].created_at_ms == now_ms
                &&& final(self).table().remove(pending.session_id@) == old(self).table().remove(
                    pending.session_id@,
                )
            }),
            engine_result matches Err(detail) ==> (r matches Err(e) && {
                &&& e.code == 500
                &&& e.error@ == engine_failure_message(detail@)
                &&& e.session_id == Some(pending.session_id)
                &&& *final(self) == *old(self)
            }),
    {
        match engine_result {
            Ok(answer_sdp) => {
                let record = NegotiationRecord {
                    session_id: pending.session_id.clone(),
                    offer_sdp: pending.offer_sdp,
                    answer_sdp: answer_sdp.clone(),
                    metadata: clone_metadata(&pending.metadata),
                    created_at_ms: now_ms,
                };
                self.upsert(record);
                Ok(
                    SdpAnswerResponse {
                        sdp: SdpSessionDescription {
                            sdp_type: String::from_str("answer"),
                            sdp: answer_sdp,
                        },
                        session_id: pending.session_id,
                        ice_candidates: None,
                        metadata: pending.metadata,
                    },
                )
            },
            Err(detail) => Err(
                ErrorResponse {
                    error: String::from_str("Failed to process SDP offer: ").concat(
                        detail.as_str(),
                    ),
                    code: 500,
                    session_id: Some(pending.session_id),
                },
            ),
        }
    }

    /// Accepts a trickled candidate and acknowledges receipt. The baseline
    /// contract is lenient: every session id is acknowledged, known or not,
    /// and no lookup is performed.
    pub fn relay_candidate(&self, request: IceCandidateRequest) -> (r: IceCandidateResponse)
        ensures
            r.session_id@ == request.session_id@,
            r.status@ == "received"@,
    {
        IceCandidateResponse { session_id: request.session_id, status: String::from_str(
            "received",
        ) }
    }

    /// Terminates a session: removes its record (a no-op for an unknown or
    /// already-closed id) and acknowledges. Close always succeeds, so closing
    /// the same id twice succeeds twice; see [`lemma_close_idempotent`].
    pub fn close_session(&mut self, request: CloseSessionRequest) -> (r: CloseSessionResponse)
        requires
            old(self).wf(),
        ensures
            final(self).wf(),
            final(self).table() == old(self).table().remove(request.session_id@),
            r.session_id@ == request.session_id@,
            r.status@ == "closed"@,
    {
        let ghost rs0 = self.records@;
        let found = self.find_index(request.session_id.as_str());
        match found {
            Some(i) => {
                proof {
                    lemma_table_remove(rs0, i as int);
                }
                self.records.remove(i);
            },
            None => {
                proof {
                    lemma_table_remove_absent(rs0, request.session_id@);
                }
            },
        }
        CloseSessionResponse { session_id: request.session_id, status: String::from_str("closed") }
    }
}

/// Copies the caller's opaque metadata without interpreting it.
fn clone_metadata(m: &Option<serde_json::Value>) -> (r: Option<serde_json::Value>)
    ensures
        r == *m,
{
    match m {
        Some(v) => Some(v.clone()),
        None => None,
    }
}

/// Validates an offer submission and allocates its session identity.
///
/// A rejected offer is answered with the 400 payload straight away, so the
/// media engine is never consulted for it: only the returned
/// [`PendingNegotiation`] carries an offer to the engine. An admitted offer
/// keeps a non-empty explicit session id exactly as supplied and otherwise
/// receives a freshly generated canonical id.
pub fn begin_negotiation(request: SdpOfferRequest) -> (r: Result<PendingNegotiation, ErrorResponse>)
    ensures
        r is Ok <==> offer_is_valid(request.sdp),
        r matches Ok(p) ==> {
            &&& p.offer_sdp@ == request.sdp.sdp@
            &&& p.metadata == request.metadata
            &&& p.session_id@.len() > 0
            &&& (match request.session_id {
                Some(e) => if e@.len() > 0 {
                    p.session_id@ == e@
                } else {
                    is_canonical_session_id(p.session_id@)
                },
                None => is_canonical_session_id(p.session_id@),
            })
        },
        request.sdp.sdp_type@ != offer_type() ==> (r matches Err(e) && {
            &&& e.code == 400
            &&& e.error@ == invalid_kind_message()
            &&& e.session_id == request.session_id
        }),
        request.sdp.sdp_type@ == offer_type() && is_blank(request.sdp.sdp@) ==> (r matches Err(e)
            && {
            &&& e.code == 400
            &&& e.error@ == empty_body_message()
            &&& e.session_id == request.session_id
        }),
{
    match validate_offer(&request.sdp) {
        Err(ValidationError::InvalidKind) => Err(
            ErrorResponse {
                error: String::from_str("Invalid SDP type, expected 'offer'"),
                code: 400,
                session_id: request.session_id,
            },
        ),
        Err(ValidationError::EmptyBody) => Err(
            ErrorResponse {
                error: String::from_str("SDP content cannot be empty"),
                code: 400,
                session_id: request.session_id,
            },
        ),
        Ok(()) => {
            let session_id = allocate_session_id(request.session_id);
            Ok(
                PendingNegotiation {
                    session_id,
                    offer_sdp: request.sdp.sdp,
                    metadata: request.metadata,
                },
            )
        },
    }
}

/// The name of the media track bound to a session: the session id under the
/// `webrtc-` prefix.
pub fn track_id_for(session_id: &str) -> (r: String)
    ensures
        r@ == "webrtc-"@ + session_id@,
{
    let mut track_id = String::from_str("webrtc-");
    track_id.append(session_id);
    track_id
}

/// Closing is idempotent on the record table: removing a session id a second
/// time changes nothing, so a double close leaves the table exactly where the
/// first close left it (and each close call returns the "closed"
/// acknowledgment by [`Coordinator::close_session`]'s contract).
pub proof fn lemma_close_idempotent(table: Map<Seq<char>, NegotiationRecord>, id: Seq<char>)
    ensures
        table.remove(id).remove(id) == table.remove(id),
{
    assert(table.remove(id).remove(id) =~= table.remove(id));
}

} // verus!
