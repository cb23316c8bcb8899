use metadata_registry::hash::keccak_hash;
use metadata_registry::metadata_store::MetadataStore;
use metadata_registry::record::{DetectionMatch, Owner};
use metadata_registry::story_store::StoryStore;

fn owner_of(bytes: &[u8]) -> Owner {
    Owner { id: bytes.to_vec() }
}

#[test]
fn hash_of_empty_payload_is_known_vector() {
    // The Keccak-256 digest of the empty input, as used on the Ethereum side.
    assert_eq!(
        keccak_hash(""),
        "0xc5d2460186f7233c927e7db2dcc703c0e500b653ca82273b7bfad8045d85a470"
    );
}

#[test]
fn hash_agrees_with_direct_keccak_and_hex() {
    let input = "hello world";
    let mut hasher = tiny_keccak::Keccak::v256();
    let mut output = [0u8; 32];
    tiny_keccak::Hasher::update(&mut hasher, input.as_bytes());
    tiny_keccak::Hasher::finalize(hasher, &mut output);
    let expected = format!("0x{}", hex::encode(output));
    assert_eq!(keccak_hash(input), expected);
}

#[test]
fn hash_is_deterministic_and_well_formed() {
    let a = keccak_hash("some metadata payload");
    let b = keccak_hash("some metadata payload");
    assert_eq!(a, b);
    assert_eq!(a.len(), 66);
    assert!(a.starts_with("0x"));
    assert!(a[2..].chars().all(|c| c.is_ascii_hexdigit() && !c.is_ascii_uppercase()));
    let c = keccak_hash("another payload");
    assert_ne!(a, c);
}

#[test]
fn record_ids_increase_by_one_from_one_independently() {
    let mut store = MetadataStore::new();
    let mut stories = StoryStore::new();
    let r1 = store.store_metadata(10, "a".to_string(), owner_of(&[1]), 100);
    let r2 = store.store_metadata(11, "b".to_string(), owner_of(&[1]), 101);
    let s1 = stories.store_story_metadata(50, "x".to_string(), Vec::new(), owner_of(&[2]), 102);
    let r3 = store.store_metadata(12, "c".to_string(), owner_of(&[1]), 103);
    let s2 = stories.store_story_metadata(51, "y".to_string(), Vec::new(), owner_of(&[2]), 104);
    assert_eq!(r1.record_id, 1);
    assert_eq!(r2.record_id, 2);
    assert_eq!(r3.record_id, 3);
    assert_eq!(s1.record_id, 1);
    assert_eq!(s2.record_id, 2);
}

#[test]
fn get_record_returns_inserted_record_in_every_field() {
    let mut store = MetadataStore::new();
    store.store_metadata(1, "first".to_string(), owner_of(&[9]), 100);
    let inserted = store.store_metadata(42, "the payload".to_string(), owner_of(&[1, 2, 3]), 777);
    let found = store.get_record(inserted.record_id).expect("record must be found");
    assert_eq!(found.record_id, inserted.record_id);
    assert_eq!(found.document_id, inserted.document_id);
    assert_eq!(found.metadata, inserted.metadata);
    assert_eq!(found.owner.id, inserted.owner.id);
    assert_eq!(found.timestamp, inserted.timestamp);
    assert_eq!(found.metadata_hash, inserted.metadata_hash);
}

#[test]
fn get_record_is_absent_for_unissued_identifiers() {
    let mut store = MetadataStore::new();
    assert!(store.get_record(0).is_none());
    assert!(store.get_record(1).is_none());
    store.store_metadata(1, "only".to_string(), owner_of(&[1]), 1);
    assert!(store.get_record(0).is_none());
    assert!(store.get_record(2).is_none());
    assert!(store.get_record(u64::MAX).is_none());
}

#[test]
fn get_by_document_returns_earliest_match() {
    let mut store = MetadataStore::new();
    // Nine inserts; document 7 appears at record identifiers 3 and 9.
    for (i, doc) in [100u64, 101, 7, 102, 103, 104, 105, 106, 7].iter().enumerate() {
        store.store_metadata(*doc, format!("m{}", i), owner_of(&[1]), 100 + i as u64);
    }
    let found = store.get_by_document(7).expect("a record with document 7 exists");
    assert_eq!(found.record_id, 3);
    assert_eq!(found.document_id, 7);
    assert!(store.get_by_document(999).is_none());
}

#[test]
fn list_records_returns_full_history_in_ascending_id_order() {
    let mut store = MetadataStore::new();
    assert!(store.list_records().is_empty());
    let docs = [5u64, 5, 9];
    for (i, doc) in docs.iter().enumerate() {
        store.store_metadata(*doc, format!("payload {}", i), owner_of(&[7]), 10 + i as u64);
    }
    let all = store.list_records();
    assert_eq!(all.len(), 3);
    for (i, rec) in all.iter().enumerate() {
        assert_eq!(rec.record_id, i as u64 + 1);
        assert_eq!(rec.document_id, docs[i]);
        assert_eq!(rec.metadata, format!("payload {}", i));
        assert_eq!(rec.timestamp, 10 + i as u64);
    }
}

#[test]
fn story_record_with_empty_matches_round_trips() {
    let mut stories = StoryStore::new();
    let inserted =
        stories.store_story_metadata(8, "story".to_string(), Vec::new(), owner_of(&[4]), 55);
    assert!(inserted.matches.is_empty());
    let found = stories.get_story_record(inserted.record_id).expect("record must be found");
    assert!(found.matches.is_empty());
    assert_eq!(found.record_id, inserted.record_id);
    assert_eq!(found.metadata, inserted.metadata);
}

#[test]
fn story_matches_are_kept_verbatim() {
    let mut stories = StoryStore::new();
    let score = 0.87f64;
    let matches = vec![
        DetectionMatch {
            url: "https://example.com/a".to_string(),
            similarity: score.to_bits(),
            excerpt: Some("a quoted passage".to_string()),
        },
        DetectionMatch {
            url: "https://example.com/b".to_string(),
            similarity: 0f64.to_bits(),
            excerpt: None,
        },
    ];
    let inserted =
        stories.store_story_metadata(3, "story text".to_string(), matches, owner_of(&[5]), 60);
    let found = stories.get_story_record(inserted.record_id).expect("record must be found");
    assert_eq!(found.matches.len(), 2);
    assert_eq!(found.matches[0].url, "https://example.com/a");
    assert_eq!(f64::from_bits(found.matches[0].similarity), score);
    assert_eq!(found.matches[0].excerpt.as_deref(), Some("a quoted passage"));
    assert_eq!(found.matches[1].url, "https://example.com/b");
    assert_eq!(f64::from_bits(found.matches[1].similarity), 0.0);
    assert_eq!(found.matches[1].excerpt, None);
}

#[test]
fn story_queries_mirror_plain_queries() {
    let mut stories = StoryStore::new();
    assert!(stories.list_story_records().is_empty());
    assert!(stories.get_story_record(1).is_none());
    assert!(stories.get_story_by_document(7).is_none());
    stories.store_story_metadata(7, "s1".to_string(), Vec::new(), owner_of(&[1]), 1);
    stories.store_story_metadata(8, "s2".to_string(), Vec::new(), owner_of(&[1]), 2);
    stories.store_story_metadata(7, "s3".to_string(), Vec::new(), owner_of(&[1]), 3);
    let all = stories.list_story_records();
    assert_eq!(all.len(), 3);
    assert_eq!(all[0].record_id, 1);
    assert_eq!(all[1].record_id, 2);
    assert_eq!(all[2].record_id, 3);
    let found = stories.get_story_by_document(7).expect("a story with document 7 exists");
    assert_eq!(found.record_id, 1);
    assert_eq!(found.metadata, "s1");
}

#[test]
fn same_metadata_different_documents_share_hash_not_id() {
    let mut store = MetadataStore::new();
    let a = store.store_metadata(1, "identical text".to_string(), owner_of(&[1]), 100);
    let b = store.store_metadata(2, "identical text".to_string(), owner_of(&[1]), 100);
    assert_eq!(a.metadata_hash, b.metadata_hash);
    assert_ne!(a.record_id, b.record_id);
    assert_eq!(a.record_id, 1);
    assert_eq!(b.record_id, 2);
}

#[test]
fn record_hash_matches_hasher_output() {
    let mut store = MetadataStore::new();
    let rec = store.store_metadata(1, "check me".to_string(), owner_of(&[1]), 1);
    assert_eq!(rec.metadata_hash, keccak_hash("check me"));
    assert_eq!(rec.metadata_hash.len(), 66);
}
