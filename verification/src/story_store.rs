//! The story metadata store: an insert-only mapping from record identifier to
//! `StoryMetadataRecord`, together with its identifier allocator. It mirrors
//! the plain metadata store but its records carry detection matches, supplied
//! verbatim by the caller at creation. The two stores are fully independent:
//! their identifier sequences and histories never interact.

use vstd::prelude::*;
use crate::hash::{hash_of, keccak_hash};
use crate::record::{
    DetectionMatch, Owner, StoryMetadataRecord, StoryMetadataRecordView, matches_view,
    story_record_hashed,
};

verus! {

/// Every record in the history has the identifier its position dictates
/// (position `i` holds identifier `i + 1`, so identifiers are unique and
/// strictly increasing in insertion order) and carries the hash of its own
/// metadata text.
pub open spec fn story_store_inv(s: Seq<StoryMetadataRecordView>) -> bool {
    forall|i: int|
        0 <= i < s.len() ==> (#[trigger] s[i]).record_id == i + 1 && story_record_hashed(s[i])
}

/// The record an identifier lookup yields on a history: the record at position
/// `record_id - 1`, or absent when the identifier was never issued.
pub open spec fn story_spec_get(s: Seq<StoryMetadataRecordView>, record_id: u64) -> Option<
    StoryMetadataRecordView,
> {
    if 1 <= record_id && record_id <= s.len() {
        Some(s[record_id - 1])
    } else {
        None
    }
}

/// The earliest record of the history whose `document_id` matches, or absent
/// when none does.
pub open spec fn story_first_match(s: Seq<StoryMetadataRecordView>, document_id: u64) -> Option<
    StoryMetadataRecordView,
>
    decreases s.len(),
{
    if s.len() == 0 {
        None
    } else if s[0].document_id == document_id {
        Some(s[0])
    } else {
        story_first_match(s.drop_first(), document_id)
    }
}

/// The position of the earliest match of `document_id`, or the history's
/// length when none exists.
pub open spec fn story_first_match_index(s: Seq<StoryMetadataRecordView>, document_id: u64) -> int
    decreases s.len(),
{
    if s.len() == 0 {
        0
    } else if s[0].document_id == document_id {
        0
    } else {
        1 + story_first_match_index(s.drop_first(), document_id)
    }
}

/// `story_first_match` returns exactly the record at `story_first_match_index`: a matching
/// record before which no position matches, or absence when no position
/// matches at all.
pub proof fn lemma_story_first_match_earliest(s: Seq<StoryMetadataRecordView>, document_id: u64)
    ensures
        0 <= story_first_match_index(s, document_id) <= s.len(),
        story_first_match_index(s, document_id) < s.len() ==> s[story_first_match_index(
            s,
            document_id,
        )].document_id == document_id && story_first_match(s, document_id) == Some(
            s[story_first_match_index(s, document_id)],
        ),
        story_first_match_index(s, document_id) == s.len() ==> story_first_match(s, document_id) is None,
        forall|j: int|
            0 <= j < story_first_match_index(s, document_id) ==> (#[trigger] s[j]).document_id
                != document_id,
    decreases s.len(),
{
    if s.len() > 0 && s[0].document_id != document_id {
        lemma_story_first_match_earliest(s.drop_first(), document_id);
        assert(forall|j: int|
            0 <= j < story_first_match_index(s, document_id) ==> (#[trigger] s[j]).document_id
                != document_id) by {
            assert(forall|j: int|
                1 <= j < story_first_match_index(s, document_id) ==> s[j]
                    == s.drop_first()[j - 1]);
        }
    }
}

/// The views of the records in a vector, in order.
pub open spec fn story_records_view(v: Seq<StoryMetadataRecord>) -> Seq<StoryMetadataRecordView> {
    Seq::new(v.len(), |i: int| v[i]@)
}

/// The view of an optional record.
pub open spec fn story_view_opt(r: Option<StoryMetadataRecord>) -> Option<StoryMetadataRecordView> {
    match r {
        Some(rec) => Some(rec@),
        None => None,
    }
}

/// The story metadata store: the full insertion history of its records,
/// together with the identifier the next insert will be given.
pub struct StoryStore {
    next_id: u64,
    records: Vec<StoryMetadataRecord>,
}

impl View for StoryStore {
    type V = Seq<StoryMetadataRecordView>;

    closed spec fn view(&self) -> Seq<StoryMetadataRecordView> {
        story_records_view(self.records@)
    }
}

impl StoryStore {
    /// The store's counter agrees with its history and the history satisfies
    /// the store invariant.
    pub closed spec fn wf(&self) -> bool {
        self.next_id == self.records@.len() + 1 && story_store_inv(self@)
    }

    /// A well-formed store's history satisfies the public store invariant.
    pub proof fn lemma_wf_inv(&self)
        requires
            self.wf(),
        ensures
            story_store_inv(self@),
    {
    }

    /// An empty store whose allocator will issue identifier 1 first.
    pub fn new() -> (s: Self)
        ensures
            s.wf(),
            s@ == Seq::<StoryMetadataRecordView>::empty(),
    {
        let s = StoryStore { next_id: 1, records: Vec::new() };
        proof {
            assert(s@ =~= Seq::<StoryMetadataRecordView>::empty());
        }
        s
    }

    /// Allocates the next identifier, hashes the payload, stamps the caller
    /// identity and time, stores the completed record with its matches kept
    /// verbatim (an empty sequence included), and returns a copy of it. The
    /// new record is appended to the history; nothing else changes.
    pub fn store_story_metadata(
        &mut self,
        document_id: u64,
        metadata: String,
        matches: Vec<DetectionMatch>,
        owner: Owner,
        timestamp: u64,
    ) -> (r: StoryMetadataRecord)
        requires
            old(self).wf(),
            old(self)@.len() + 1 < u64::MAX,
        ensures
            final(self).wf(),
            final(self)@ == old(self)@.push(r@),
            r@.record_id == old(self)@.len() + 1,
            r@.document_id == document_id,
            r@.metadata == metadata@,
            r@.owner == owner@,
            r@.timestamp == timestamp,
            r@.metadata_hash == hash_of(metadata@),
            r@.matches == matches_view(matches@),
    {
        let record_id = self.next_id;
        self.next_id = self.next_id + 1;
        let metadata_hash = keccak_hash(metadata.as_str());
        let record = StoryMetadataRecord {
            record_id,
            document_id,
            metadata,
            owner,
            timestamp,
            metadata_hash,
            matches,
        };
        let copy = record.clone();
        self.records.push(record);
        proof {
            assert(self@ =~= old(self)@.push(copy@));
        }
        copy
    }

    /// How many records the store holds: the length of its insertion history.
    pub fn len(&self) -> (n: usize)
        ensures
            n == self@.len(),
    {
        self.records.len()
    }

    /// Exact-identifier lookup: a copy of the record with that identifier, or
    /// absent when the identifier was never issued.
    pub fn get_story_record(&self, record_id: u64) -> (r: Option<StoryMetadataRecord>)
        ensures
            story_view_opt(r) == story_spec_get(self@, record_id),
    {
        if 1 <= record_id && record_id <= self.records.len() as u64 {
            Some(self.records[(record_id - 1) as usize].clone())
        } else {
            None
        }
    }

    /// Copies of every record currently held, in ascending identifier order:
    /// the full insertion history.
    pub fn list_story_records(&self) -> (r: Vec<StoryMetadataRecord>)
        ensures
            story_records_view(r@) == self@,
    {
        let mut out: Vec<StoryMetadataRecord> = Vec::new();
        let mut i: usize = 0;
        while i < self.records.len()
            invariant
                0 <= i <= self.records@.len(),
                out@.len() == i,
                forall|j: int| 0 <= j < i ==> (#[trigger] out@[j])@ == self@[j],
            decreases self.records@.len() - i,
        {
            out.push(self.records[i].clone());
            i = i + 1;
        }
        proof {
            assert(story_records_view(out@) =~= self@);
        }
        out
    }

    /// A copy of the earliest-inserted record whose `document_id` matches, or
    /// absent when none does. When several records share a document
    /// identifier, all but the earliest are unreachable here by design.
    pub fn get_story_by_document(&self, document_id: u64) -> (r: Option<StoryMetadataRecord>)
        ensures
            story_view_opt(r) == story_first_match(self@, document_id),
    {
        let mut i: usize = 0;
        proof {
            assert(self@.skip(0) =~= self@);
        }
        while i < self.records.len()
            invariant
                0 <= i <= self.records@.len(),
                forall|j: int| 0 <= j < i ==> (#[trigger] self@[j]).document_id != document_id,
                story_first_match(self@, document_id) == story_first_match(
                    self@.skip(i as int),
                    document_id,
                ),
            decreases self.records@.len() - i,
        {
            if self.records[i].document_id == document_id {
                let found = self.records[i].clone();
                proof {
                    assert(self@.skip(i as int)[0] == self@[i as int]);
                }
                return Some(found);
            }
            proof {
                assert(self@.skip(i as int).drop_first() =~= self@.skip(i as int + 1));
                assert(self@.skip(i as int)[0] == self@[i as int]);
            }
            i = i + 1;
        }
        proof {
            assert(self@.skip(i as int) =~= Seq::<StoryMetadataRecordView>::empty());
        }
        None
    }
}

} // verus!
