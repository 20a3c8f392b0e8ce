use http_data::DataKind;
use http_data::DataKindPreference;
use http_data::DataKinds;
use http_data::Status;

#[test]
fn test_top_missing() {
    let pref: DataKindPreference = DataKindPreference::from_slice(&[DataKind::Parsed]);
    let provided = DataKinds::from_slice(&[DataKind::Str]);
    assert_eq!(pref.top(provided), None);
}

#[test]
fn test_top_best() {
    let pref = DataKindPreference::parsed_pref();
    let provided = DataKinds::from_slice(&[DataKind::Parsed, DataKind::Bytes, DataKind::Str]);
    assert_eq!(pref.top(provided), Some(DataKind::Parsed));
}

#[test]
fn test_top_worst() {
    let pref = DataKindPreference::parsed_pref();
    let provided = DataKinds::from_slice(&[DataKind::Bytes, DataKind::Str]);
    assert_eq!(pref.top(provided), Some(DataKind::Str));
}

#[test]
fn test_top_empty_set() {
    let empty = DataKinds::empty();
    assert_eq!(DataKindPreference::parsed_pref().top(empty), None);
    assert_eq!(DataKindPreference::bytes_pref().top(empty), None);
    assert_eq!(DataKindPreference::str_pref().top(empty), None);
    assert_eq!(
        DataKindPreference::from_slice(&[DataKind::Str]).top(empty),
        None
    );
    assert_eq!(DataKindPreference::from_slice(&[]).top(empty), None);
}

#[test]
fn test_top_empty_preference() {
    let pref = DataKindPreference::from_slice(&[]);
    let provided = DataKinds::from_slice(&[DataKind::Parsed, DataKind::Bytes, DataKind::Str]);
    assert_eq!(pref.top(provided), None);
}

#[test]
fn test_top_unlisted_kind_never_picked() {
    let pref = DataKindPreference::from_slice(&[DataKind::Bytes, DataKind::Str]);
    let provided = DataKinds::from_slice(&[DataKind::Parsed]);
    assert_eq!(pref.top(provided), None);
}

#[test]
fn test_top_entries_beyond_capacity_ignored() {
    let pref = DataKindPreference::from_slice(&[
        DataKind::Bytes,
        DataKind::Bytes,
        DataKind::Bytes,
        DataKind::Str,
    ]);
    let provided = DataKinds::from_slice(&[DataKind::Str]);
    assert_eq!(pref.top(provided), None);
}

#[test]
fn test_top_repeated_kind_first_occurrence_wins() {
    let pref = DataKindPreference::from_slice(&[DataKind::Str, DataKind::Str, DataKind::Bytes]);
    let provided = DataKinds::from_slice(&[DataKind::Bytes, DataKind::Str]);
    assert_eq!(pref.top(provided), Some(DataKind::Str));
    let bytes_only = DataKinds::from_slice(&[DataKind::Bytes]);
    assert_eq!(pref.top(bytes_only), Some(DataKind::Bytes));
}

#[test]
fn test_presets_pick_their_favourite() {
    let all = DataKinds::from_slice(&[DataKind::Bytes, DataKind::Str, DataKind::Parsed]);
    assert_eq!(
        DataKindPreference::bytes_pref().top(all),
        Some(DataKind::Bytes)
    );
    assert_eq!(DataKindPreference::str_pref().top(all), Some(DataKind::Str));
    assert_eq!(
        DataKindPreference::parsed_pref().top(all),
        Some(DataKind::Parsed)
    );
}

#[test]
fn test_from_slice_idempotent() {
    let with_duplicate =
        DataKinds::from_slice(&[DataKind::Bytes, DataKind::Bytes, DataKind::Str]);
    let plain = DataKinds::from_slice(&[DataKind::Str, DataKind::Bytes]);
    assert_eq!(with_duplicate, plain);
}

#[test]
fn test_from_slice_empty_is_empty() {
    assert_eq!(DataKinds::from_slice(&[]), DataKinds::empty());
}

#[test]
fn test_contains() {
    let kinds = DataKinds::from_slice(&[DataKind::Str, DataKind::Parsed]);
    assert!(kinds.contains(DataKind::Str));
    assert!(kinds.contains(DataKind::Parsed));
    assert!(!kinds.contains(DataKind::Bytes));
}

#[test]
fn test_union() {
    let a = DataKinds::from_slice(&[DataKind::Str]);
    let b = DataKinds::from_slice(&[DataKind::Bytes]);
    let u = a.union(b);
    assert!(u.contains(DataKind::Str));
    assert!(u.contains(DataKind::Bytes));
    assert!(!u.contains(DataKind::Parsed));
    assert_eq!(u, DataKinds::from_slice(&[DataKind::Bytes, DataKind::Str]));
}

#[test]
fn test_intersection() {
    let a = DataKinds::from_slice(&[DataKind::Str, DataKind::Bytes]);
    let b = DataKinds::from_slice(&[DataKind::Bytes, DataKind::Parsed]);
    let i = a.intersection(b);
    assert!(i.contains(DataKind::Bytes));
    assert!(!i.contains(DataKind::Str));
    assert!(!i.contains(DataKind::Parsed));
}

#[test]
fn test_stable_bit_encodings() {
    assert_eq!(DataKind::Bytes.bit(), 0b001);
    assert_eq!(DataKind::Str.bit(), 0b010);
    assert_eq!(DataKind::Parsed.bit(), 0b100);
    assert_eq!(DataKinds::empty().bits(), 0);
    assert_eq!(DataKinds::from_slice(&[DataKind::Bytes]).bits(), 0b001);
    assert_eq!(DataKinds::from_kind(DataKind::Parsed).bits(), 0b100);
    assert_eq!(
        DataKinds::from_slice(&[DataKind::Bytes, DataKind::Str, DataKind::Parsed]).bits(),
        0b111
    );
}

#[test]
fn test_status_round_trip() {
    let status = Status::new(204);
    assert_eq!(status.code(), 204);
}
