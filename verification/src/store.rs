//! The relay record store: an in-memory map from message id to the relay
//! record needed to reverse-route a later reply to that message.  Writes are
//! insert-if-absent only — the first writer wins and records are never
//! overwritten or deleted.

use std::collections::HashMap;
use vstd::prelude::*;

verus! {

/// Mathematical view of a [`RelayRecord`].
pub ghost struct RecordView {
    pub channel_id: u64,
    pub message_id: u64,
    pub language: Seq<char>,
}

/// "This message, in this channel, carries content known to be in this
/// language."  Stored under a message id, it is the anchor for reversing the
/// translation direction when somebody replies to that message.
pub struct RelayRecord {
    /// Channel the recorded message lives in.
    pub channel_id: u64,
    /// Id of the recorded message.
    pub message_id: u64,
    /// Language the recorded message is known to be written in.
    pub language: String,
}

impl View for RelayRecord {
    type V = RecordView;

    open spec fn view(&self) -> RecordView {
        RecordView {
            channel_id: self.channel_id,
            message_id: self.message_id,
            language: self.language@,
        }
    }
}

impl Clone for RelayRecord {
    fn clone(&self) -> (r: Self)
        ensures
            r@ == self@,
    {
        RelayRecord {
            channel_id: self.channel_id,
            message_id: self.message_id,
            language: self.language.clone(),
        }
    }
}

/// What [`RelayStore::put_if_absent`] does to the store's contents: a key
/// already present keeps its first record, a fresh key is bound to `record`.
pub open spec fn spec_put_if_absent(
    m: Map<u64, RecordView>,
    message_id: u64,
    record: RecordView,
) -> Map<u64, RecordView> {
    if m.contains_key(message_id) {
        m
    } else {
        m.insert(message_id, record)
    }
}

/// In-memory store of relay records, keyed by message id.
///
/// The store itself is single-owner; concurrent message workflows share it
/// behind a reader/writer lock owned by the embedding program, so every
/// method here runs inside a read or write critical section.
pub struct RelayStore {
    records: HashMap<u64, RelayRecord>,
}

impl View for RelayStore {
    type V = Map<u64, RecordView>;

    closed spec fn view(&self) -> Map<u64, RecordView> {
        Map::new(
            |id: u64| self.records@.contains_key(id),
            |id: u64| self.records@[id]@,
        )
    }
}

impl RelayStore {
    /// An empty store: no message has been relayed yet.
    pub fn new() -> (r: Self)
        ensures
            r@ == Map::<u64, RecordView>::empty(),
    {
        let r = RelayStore { records: HashMap::new() };
        proof {
            assert(r@ =~= Map::<u64, RecordView>::empty());
        }
        r
    }

    /// Looks a message id up; `None` is the normal "first message in a
    /// thread" outcome, never an error.
    pub fn get(&self, message_id: u64) -> (r: Option<&RelayRecord>)
        ensures
            match r {
                Some(record) => self@.contains_key(message_id) && record@ == self@[message_id],
                None => !self@.contains_key(message_id),
            },
    {
        self.records.get(&message_id)
    }

    /// Writes `record` under `message_id` only if the key is absent; a later
    /// write to an occupied key is a no-op, so the first record for a message
    /// is immutable.
    pub fn put_if_absent(&mut self, message_id: u64, record: RelayRecord)
        ensures
            final(self)@ == spec_put_if_absent(old(self)@, message_id, record@),
    {
        if !self.records.contains_key(&message_id) {
            self.records.insert(message_id, record);
            proof {
                assert(self@ =~= spec_put_if_absent(old(self)@, message_id, record@));
            }
        } else {
            proof {
                assert(self@ =~= spec_put_if_absent(old(self)@, message_id, record@));
            }
        }
    }
}

/// First writer wins: after writing `a` and then `b` under the same id, the
/// store still holds `a`.
pub proof fn lemma_no_overwrite(
    m: Map<u64, RecordView>,
    id: u64,
    a: RecordView,
    b: RecordView,
)
    requires
        !m.contains_key(id),
    ensures
        spec_put_if_absent(spec_put_if_absent(m, id, a), id, b).contains_key(id),
        spec_put_if_absent(spec_put_if_absent(m, id, a), id, b)[id] == a,
{
}

/// Workflows for distinct messages do not interfere: whichever order their
/// store writes are serialized in, both records end up present, unchanged,
/// and the resulting store contents are identical.
pub proof fn lemma_distinct_writes_commute(
    m: Map<u64, RecordView>,
    id1: u64,
    r1: RecordView,
    id2: u64,
    r2: RecordView,
)
    requires
        id1 != id2,
        !m.contains_key(id1),
        !m.contains_key(id2),
    ensures
        spec_put_if_absent(spec_put_if_absent(m, id1, r1), id2, r2) == spec_put_if_absent(
            spec_put_if_absent(m, id2, r2),
            id1,
            r1,
        ),
        spec_put_if_absent(spec_put_if_absent(m, id1, r1), id2, r2)[id1] == r1,
        spec_put_if_absent(spec_put_if_absent(m, id1, r1), id2, r2)[id2] == r2,
{
    assert(spec_put_if_absent(spec_put_if_absent(m, id1, r1), id2, r2) =~= spec_put_if_absent(
        spec_put_if_absent(m, id2, r2),
        id1,
        r1,
    ));
}

} // verus!
