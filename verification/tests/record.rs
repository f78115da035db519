use torustiq_common::ffi::shared::{do_free_record, torustiq_module_pipeline_free_record};
use torustiq_common::ffi::types::buffer::ByteBuffer;
use torustiq_common::ffi::types::collections::{Array, StringMap};
use torustiq_common::ffi::types::module::{Record, RecordMetadata};
use torustiq_common::ffi::types::std_types::{CharString, MarshalError};
use torustiq_common::ffi::types::traits::ShallowCopy;

fn s(text: &str) -> String {
    String::from(text)
}

fn sample_metadata() -> StringMap {
    let mut metadata = StringMap::new();
    metadata.insert(s("topic"), s("events"));
    metadata.insert(s("partition"), s("3"));
    metadata
}

#[test]
fn record_from_std_types_keeps_content_and_metadata() {
    let record = Record::from_std_types(vec![1, 0, 2], sample_metadata()).unwrap();
    assert_eq!(record.get_content_len(), 3);
    assert_eq!(record.content.to_byte_vec(), vec![1, 0, 2]);
    assert_eq!(record.metadata.len(), 2);
    assert_eq!(record.metadata.get(0).name.as_bytes(), b"topic");
    assert_eq!(record.metadata.get(0).value.as_bytes(), b"events");
    assert_eq!(record.metadata.get(1).name.as_bytes(), b"partition");
    assert_eq!(record.metadata.get(1).value.as_bytes(), b"3");
}

#[test]
fn record_without_metadata() {
    let record = Record::from_std_types(Vec::new(), StringMap::new()).unwrap();
    assert_eq!(record.get_content_len(), 0);
    assert_eq!(record.metadata.len(), 0);
    assert_eq!(record.get_metadata_as_hashmap().len(), 0);
}

#[test]
fn record_metadata_round_trip() {
    let record = Record::from_std_types(vec![7], sample_metadata()).unwrap();
    let metadata = record.get_metadata_as_hashmap();
    assert_eq!(metadata.len(), 2);
    assert_eq!(metadata.get("topic"), Some(&s("events")));
    assert_eq!(metadata.get("partition"), Some(&s("3")));
    assert_eq!(metadata.get("offset"), None);
}

#[test]
fn record_refuses_a_terminator_in_a_name() {
    let mut metadata = StringMap::new();
    metadata.insert(s("fine"), s("value"));
    metadata.insert(s("na\0me"), s("value"));
    assert_eq!(
        Record::from_std_types(vec![1], metadata).err(),
        Some(MarshalError::InteriorTerminator(2))
    );
}

#[test]
fn record_refuses_a_terminator_in_a_value() {
    let mut metadata = StringMap::new();
    metadata.insert(s("name"), s("\0"));
    assert_eq!(
        Record::from_std_types(vec![1], metadata).err(),
        Some(MarshalError::InteriorTerminator(0))
    );
}

#[test]
fn record_reports_the_first_text_that_fails() {
    let mut metadata = StringMap::new();
    metadata.insert(s("a"), s("xyz\0"));
    metadata.insert(s("b\0"), s("\0"));
    assert_eq!(
        Record::from_std_types(vec![1], metadata).err(),
        Some(MarshalError::InteriorTerminator(3))
    );
}

#[test]
fn record_metadata_entry_from_a_pair() {
    let entry = RecordMetadata::try_from((s("key"), s("value"))).unwrap();
    assert_eq!(entry.name.as_bytes(), b"key");
    assert_eq!(entry.value.as_bytes(), b"value");
    assert_eq!(
        RecordMetadata::try_from((s("k\0"), s("\0"))).err(),
        Some(MarshalError::InteriorTerminator(1))
    );
    assert_eq!(
        RecordMetadata::from_texts("key", "val\0ue").err(),
        Some(MarshalError::InteriorTerminator(3))
    );
}

#[test]
fn record_keeps_duplicate_names_and_the_map_has_the_last() {
    let entries = vec![
        RecordMetadata::from_texts("k", "first").unwrap(),
        RecordMetadata::from_texts("other", "x").unwrap(),
        RecordMetadata::from_texts("k", "second").unwrap(),
    ];
    let record = Record {
        content: ByteBuffer::from(vec![1, 2]),
        metadata: Array::from_vec(entries),
    };
    assert_eq!(record.metadata.len(), 3);
    let map = record.get_metadata_as_hashmap();
    assert_eq!(map.len(), 2);
    assert_eq!(map.get("k"), Some(&s("second")));
    assert_eq!(map.get("other"), Some(&s("x")));
}

#[test]
fn record_metadata_is_read_lossily() {
    let entries = vec![RecordMetadata {
        name: CharString::from_region(&[b'n', 0xFF, 0]),
        value: CharString::from_region(b"v\0ignored"),
    }];
    let record = Record {
        content: ByteBuffer::from(Vec::new()),
        metadata: Array::from_vec(entries),
    };
    let map = record.get_metadata_as_hashmap();
    assert_eq!(map.get("n\u{FFFD}"), Some(&s("v")));
}

#[test]
fn record_free_contents_empties() {
    let mut record = Record::from_std_types(vec![1, 2, 3], sample_metadata()).unwrap();
    record.free_contents();
    assert_eq!(record.get_content_len(), 0);
    assert_eq!(record.metadata.len(), 0);
    assert_eq!(record.get_metadata_as_hashmap().len(), 0);
}

#[test]
fn record_clone_is_independent() {
    let mut record = Record::from_std_types(vec![1, 2, 3], sample_metadata()).unwrap();
    let copy = record.clone();
    record.free_contents();
    assert_eq!(copy.get_content_len(), 3);
    assert_eq!(copy.content.to_byte_vec(), vec![1, 2, 3]);
    assert_eq!(copy.get_metadata_as_hashmap().get("topic"), Some(&s("events")));
    do_free_record(record);
    torustiq_module_pipeline_free_record(copy);
}

#[test]
fn record_shallow_copy_shows_the_same() {
    let record = Record::from_std_types(vec![5, 0, 5], sample_metadata()).unwrap();
    let seen = record.shallow_copy();
    assert_eq!(seen.get_content_len(), 3);
    assert_eq!(seen.content.to_byte_vec(), vec![5, 0, 5]);
    assert_eq!(seen.metadata.len(), 2);
    assert_eq!(seen.metadata.get(1).value.as_bytes(), b"3");
    assert_eq!(record.content.to_byte_vec(), vec![5, 0, 5]);
}
