//! The registry's laws, stated and proved over the stores' views: identifier
//! allocation, lookup after insert, listing order, and hash agreement.

use vstd::prelude::*;
use crate::metadata_store::{MetadataStore, spec_get, store_inv};
use crate::record::MetadataRecordView;
use crate::record::StoryMetadataRecordView;
use crate::story_store::{StoryStore, story_spec_get, story_store_inv};

verus! {

/// Identifiers in a well-formed metadata store are exactly 1, 2, 3, ... in
/// insertion order: they start at 1, increase by exactly 1 per insert, and are
/// never repeated or reused, whatever the other store does.
pub proof fn lemma_record_ids_sequential(s: &MetadataStore)
    requires
        s.wf(),
    ensures
        forall|i: int| 0 <= i < s@.len() ==> (#[trigger] s@[i]).record_id == i + 1,
        forall|i: int, j: int|
            0 <= i < j < s@.len() ==> s@[i].record_id < s@[j].record_id,
{
    s.lemma_wf_inv();
}

/// Identifiers in a well-formed story store are exactly 1, 2, 3, ... in
/// insertion order, independently of the plain store's own sequence.
pub proof fn lemma_story_record_ids_sequential(s: &StoryStore)
    requires
        s.wf(),
    ensures
        forall|i: int| 0 <= i < s@.len() ==> (#[trigger] s@[i]).record_id == i + 1,
        forall|i: int, j: int|
            0 <= i < j < s@.len() ==> s@[i].record_id < s@[j].record_id,
{
    s.lemma_wf_inv();
}

/// Looking up the identifier of a freshly appended record yields exactly that
/// record: together with the contracts of `store_metadata` and `get_record`,
/// a lookup right after an insert returns a record equal in every field to the
/// one the insert returned.
pub proof fn lemma_get_after_insert(pre: Seq<MetadataRecordView>, r: MetadataRecordView)
    requires
        r.record_id == pre.len() + 1,
    ensures
        spec_get(pre.push(r), r.record_id) == Some(r),
{
}

/// The story-store counterpart of `lemma_get_after_insert`.
pub proof fn lemma_get_story_after_insert(
    pre: Seq<StoryMetadataRecordView>,
    r: StoryMetadataRecordView,
)
    requires
        r.record_id == pre.len() + 1,
    ensures
        story_spec_get(pre.push(r), r.record_id) == Some(r),
{
}

/// In any history that satisfies the store invariant, two records with equal
/// metadata text carry equal content hashes, and two records at distinct
/// positions carry distinct identifiers — so two sequential inserts with the
/// same payload and different document identifiers agree on the hash and
/// differ in identifier.
pub proof fn lemma_hash_agreement_distinct_ids(
    s: Seq<MetadataRecordView>,
    i: int,
    j: int,
)
    requires
        store_inv(s),
        0 <= i < s.len(),
        0 <= j < s.len(),
        i != j,
    ensures
        s[i].metadata == s[j].metadata ==> s[i].metadata_hash == s[j].metadata_hash,
        s[i].record_id != s[j].record_id,
{
}

/// The story-store counterpart of `lemma_hash_agreement_distinct_ids`.
pub proof fn lemma_story_hash_agreement_distinct_ids(
    s: Seq<StoryMetadataRecordView>,
    i: int,
    j: int,
)
    requires
        story_store_inv(s),
        0 <= i < s.len(),
        0 <= j < s.len(),
        i != j,
    ensures
        s[i].metadata == s[j].metadata ==> s[i].metadata_hash == s[j].metadata_hash,
        s[i].record_id != s[j].record_id,
{
}

} // verus!
