use epic_data::archive::BalancingDataArchive;
use epic_data::wire::DecodeError;

fn sample() -> BalancingDataArchive {
    let mut a = BalancingDataArchive::default();
    a.set_data_key_raw("ABH.Shared.BalancingData.BossBalancingData", vec![1, 2, 3]);
    a.set_data_key_raw("ABH.Shared.BalancingData.PigBalancingData", vec![]);
    a.set_data_key_raw("ABH.Shared.Events.BalancingData.EventBalancingData", vec![0xff; 300]);
    a.set_version("1.2.3");
    a
}

fn bytes_of(a: &BalancingDataArchive) -> Vec<u8> {
    let mut out = Vec::new();
    a.write(&mut out);
    out
}

#[test]
fn archive_round_trip_keeps_order_bytes_and_version() {
    let a = sample();
    let b = BalancingDataArchive::new(&bytes_of(&a)).unwrap();
    assert_eq!(b.get_balaning_data_keys(), a.get_balaning_data_keys());
    for k in a.get_balaning_data_keys() {
        assert_eq!(b.get_data_key(&k), a.get_data_key(&k));
    }
    assert_eq!(b.get_version(), "1.2.3");
    assert_eq!(bytes_of(&b), bytes_of(&a));
}

#[test]
fn empty_archive_round_trip() {
    let a = BalancingDataArchive::default();
    assert!(bytes_of(&a).is_empty());
    let b = BalancingDataArchive::new(&[]).unwrap();
    assert!(b.get_balaning_data_keys().is_empty());
    assert_eq!(b.get_version(), "");
}

#[test]
fn archive_layout_is_exact() {
    let mut a = BalancingDataArchive::default();
    a.set_data_key_raw("a", vec![1, 2]);
    a.set_version("v");
    assert_eq!(
        bytes_of(&a),
        vec![0x0A, 0x07, 0x0A, 0x01, b'a', 0x12, 0x02, 1, 2, 0x12, 0x01, b'v']
    );
}

#[test]
fn long_lengths_use_multi_byte_varints() {
    let mut a = BalancingDataArchive::default();
    a.set_data_key_raw("k", vec![7; 200]);
    let bytes = bytes_of(&a);
    // entry: 0A, len(206) = CE 01; key field 0A 01 'k'; value field 12, len(200) = C8 01
    assert_eq!(&bytes[..8], &[0x0A, 0xCE, 0x01, 0x0A, 0x01, b'k', 0x12, 0xC8]);
    assert_eq!(bytes[8], 0x01);
    assert_eq!(bytes.len(), 3 + 206);
}

#[test]
fn set_keeps_position_of_existing_key() {
    let mut a = sample();
    a.set_data_key_raw("ABH.Shared.BalancingData.BossBalancingData", vec![9]);
    assert_eq!(a.get_balaning_data_keys()[0], "ABH.Shared.BalancingData.BossBalancingData");
    assert_eq!(a.get_balaning_data_keys().len(), 3);
    assert_eq!(a.get_data_key("ABH.Shared.BalancingData.BossBalancingData"), Some(&vec![9]));
    a.set_data_key_raw("new", vec![4]);
    assert_eq!(a.get_balaning_data_keys()[3], "new");
}

#[test]
fn missing_key_is_not_found() {
    let a = sample();
    assert_eq!(a.get_data_key("nonexistent"), None);
    assert_eq!(a.get_data_key_required("nonexistent"), Err(DecodeError::KeyNotFound));
    assert_eq!(a.get_data_key_required("ABH.Shared.BalancingData.PigBalancingData"), Ok(&vec![]));
}

#[test]
fn malformed_and_truncated_inputs() {
    assert_eq!(BalancingDataArchive::new(&[0xFF]).err(), Some(DecodeError::Malformed));
    assert_eq!(BalancingDataArchive::new(&[0x0A, 0x05, 0x01]).err(), Some(DecodeError::TruncatedField));
    assert_eq!(BalancingDataArchive::new(&[0x0A]).err(), Some(DecodeError::Malformed));
    assert_eq!(BalancingDataArchive::new(&[0x0A, 0x80]).err(), Some(DecodeError::Malformed));
    // an entry whose key field overruns the entry
    assert_eq!(BalancingDataArchive::new(&[0x0A, 0x02, 0x0A, 0x05]).err(), Some(DecodeError::TruncatedField));
    // an entry with an unknown field
    assert_eq!(BalancingDataArchive::new(&[0x0A, 0x02, 0x1A, 0x00]).err(), Some(DecodeError::Malformed));
    // a key that is not UTF-8
    assert_eq!(BalancingDataArchive::new(&[0x0A, 0x03, 0x0A, 0x01, 0xFF]).err(), Some(DecodeError::Malformed));
}

#[test]
fn missing_entry_fields_read_as_empty() {
    let a = BalancingDataArchive::new(&[0x0A, 0x00, 0x0A, 0x03, 0x12, 0x01, 0x05]).unwrap();
    assert_eq!(a.get_balaning_data_keys(), vec![String::new()]);
    assert_eq!(a.get_data_key(""), Some(&vec![5]));
}

#[test]
fn later_version_field_wins() {
    let a = BalancingDataArchive::new(&[0x12, 0x01, b'a', 0x12, 0x01, b'b']).unwrap();
    assert_eq!(a.get_version(), "b");
}

#[test]
fn gzip_round_trip() {
    let a = sample();
    let mut z = Vec::new();
    a.write_gzipped(&mut z);
    assert_eq!(&z[..2], &[0x1f, 0x8b]);
    assert_ne!(z, bytes_of(&a));
    let b = BalancingDataArchive::new_gzipped(&z).unwrap();
    assert_eq!(bytes_of(&b), bytes_of(&a));
    let c = BalancingDataArchive::new_auto(&z).unwrap();
    assert_eq!(bytes_of(&c), bytes_of(&a));
}

#[test]
fn plain_bytes_fall_back_from_gzip() {
    let plain = bytes_of(&sample());
    assert_eq!(BalancingDataArchive::new_gzipped(&plain).err(), Some(DecodeError::CompressionFormat));
    let b = BalancingDataArchive::new_auto(&plain).unwrap();
    assert_eq!(bytes_of(&b), plain);
    assert_eq!(BalancingDataArchive::new_auto(&[0xFF]).err(), Some(DecodeError::Malformed));
}

#[test]
fn short_or_unmarked_input_is_no_gzip_stream() {
    assert_eq!(BalancingDataArchive::new_gzipped(&[]).err(), Some(DecodeError::CompressionFormat));
    assert_eq!(BalancingDataArchive::new_gzipped(&[0x1f, 0x8b]).err(), Some(DecodeError::CompressionFormat));
    let empty = BalancingDataArchive::new_auto(&[]).unwrap();
    assert!(empty.get_balaning_data_keys().is_empty());
}

#[test]
fn gzip_stream_with_bad_archive_reports_archive_error() {
    let mut z = Vec::new();
    let mut bad = BalancingDataArchive::default();
    bad.set_version("x");
    bad.write_gzipped(&mut z);
    assert!(BalancingDataArchive::new_gzipped(&z).is_ok());
    let garbage = epic_data::envelope::gzip_data(&[0xFF]);
    assert_eq!(BalancingDataArchive::new_gzipped(&garbage).err(), Some(DecodeError::Malformed));
    assert_eq!(BalancingDataArchive::new_auto(&garbage).err(), Some(DecodeError::Malformed));
}
