//! The record types held by the registry: plain metadata records, story
//! records with their attached detection matches, and the opaque caller
//! identity stamped on every record.

use vstd::prelude::*;
use crate::hash::hash_of;

verus! {

/// The identity that the hosting environment attributes to a write, carried as
/// an opaque sequence of bytes. The registry never reads or validates it.
pub struct Owner {
    pub id: Vec<u8>,
}

impl View for Owner {
    type V = Seq<u8>;

    open spec fn view(&self) -> Seq<u8> {
        self.id@
    }
}

impl Clone for Owner {
    fn clone(&self) -> (r: Self)
        ensures
            r@ == self@,
    {
        let id = self.id.clone();
        proof {
            assert(id@ =~= self.id@);
        }
        Owner { id }
    }
}

/// The fields of a plain metadata record, with text and bytes as sequences.
pub struct MetadataRecordView {
    pub record_id: u64,
    pub document_id: u64,
    pub metadata: Seq<char>,
    pub owner: Seq<u8>,
    pub timestamp: u64,
    pub metadata_hash: Seq<char>,
}

/// An immutable stored entry: created once on insert, never updated or
/// removed.
pub struct MetadataRecord {
    /// Unique within the store, assigned by the store's allocator, never
    /// reused.
    pub record_id: u64,
    /// Caller-supplied; several records may share one document identifier.
    pub document_id: u64,
    /// The payload text, opaque to the store.
    pub metadata: String,
    /// The identity that created the record.
    pub owner: Owner,
    /// The creation time supplied by the hosting environment's clock.
    pub timestamp: u64,
    /// The content hash of `metadata`, computed once at creation.
    pub metadata_hash: String,
}

impl View for MetadataRecord {
    type V = MetadataRecordView;

    open spec fn view(&self) -> MetadataRecordView {
        MetadataRecordView {
            record_id: self.record_id,
            document_id: self.document_id,
            metadata: self.metadata@,
            owner: self.owner@,
            timestamp: self.timestamp,
            metadata_hash: self.metadata_hash@,
        }
    }
}

impl Clone for MetadataRecord {
    fn clone(&self) -> (r: Self)
        ensures
            r@ == self@,
    {
        MetadataRecord {
            record_id: self.record_id,
            document_id: self.document_id,
            metadata: self.metadata.clone(),
            owner: self.owner.clone(),
            timestamp: self.timestamp,
            metadata_hash: self.metadata_hash.clone(),
        }
    }
}

/// A record carries the content hash of its own metadata text.
pub open spec fn record_hashed(r: MetadataRecordView) -> bool {
    r.metadata_hash == hash_of(r.metadata)
}

/// One similarity-detection result, attached verbatim to a story record. The
/// score is carried as the raw bit pattern of the caller's 64-bit
/// floating-point value: the registry never reads it, and the bits round-trip
/// exactly.
pub struct DetectionMatch {
    pub url: String,
    pub similarity: u64,
    pub excerpt: Option<String>,
}

/// The fields of a detection match, with text as sequences.
pub struct DetectionMatchView {
    pub url: Seq<char>,
    pub similarity: u64,
    pub excerpt: Option<Seq<char>>,
}

impl View for DetectionMatch {
    type V = DetectionMatchView;

    open spec fn view(&self) -> DetectionMatchView {
        DetectionMatchView {
            url: self.url@,
            similarity: self.similarity,
            excerpt: match self.excerpt {
                Some(e) => Some(e@),
                None => None,
            },
        }
    }
}

impl Clone for DetectionMatch {
    fn clone(&self) -> (r: Self)
        ensures
            r@ == self@,
    {
        DetectionMatch {
            url: self.url.clone(),
            similarity: self.similarity,
            excerpt: match &self.excerpt {
                Some(e) => Some(e.clone()),
                None => None,
            },
        }
    }
}

/// The fields of a story record, with its matches as a sequence of views.
pub struct StoryMetadataRecordView {
    pub record_id: u64,
    pub document_id: u64,
    pub metadata: Seq<char>,
    pub owner: Seq<u8>,
    pub timestamp: u64,
    pub metadata_hash: Seq<char>,
    pub matches: Seq<DetectionMatchView>,
}

/// An immutable stored story entry: a metadata record together with the
/// detection matches supplied verbatim by the caller at creation.
pub struct StoryMetadataRecord {
    pub record_id: u64,
    pub document_id: u64,
    pub metadata: String,
    pub owner: Owner,
    pub timestamp: u64,
    pub metadata_hash: String,
    pub matches: Vec<DetectionMatch>,
}

/// The views of the matches in a vector, in order.
pub open spec fn matches_view(v: Seq<DetectionMatch>) -> Seq<DetectionMatchView> {
    Seq::new(v.len(), |i: int| v[i]@)
}

impl View for StoryMetadataRecord {
    type V = StoryMetadataRecordView;

    open spec fn view(&self) -> StoryMetadataRecordView {
        StoryMetadataRecordView {
            record_id: self.record_id,
            document_id: self.document_id,
            metadata: self.metadata@,
            owner: self.owner@,
            timestamp: self.timestamp,
            metadata_hash: self.metadata_hash@,
            matches: matches_view(self.matches@),
        }
    }
}

impl Clone for StoryMetadataRecord {
    fn clone(&self) -> (r: Self)
        ensures
            r@ == self@,
    {
        let matches = self.matches.clone();
        proof {
            assert(matches_view(matches@) =~= matches_view(self.matches@));
        }
        StoryMetadataRecord {
            record_id: self.record_id,
            document_id: self.document_id,
            metadata: self.metadata.clone(),
            owner: self.owner.clone(),
            timestamp: self.timestamp,
            metadata_hash: self.metadata_hash.clone(),
            matches,
        }
    }
}

/// A story record carries the content hash of its own metadata text.
pub open spec fn story_record_hashed(r: StoryMetadataRecordView) -> bool {
    r.metadata_hash == hash_of(r.metadata)
}

} // verus!
