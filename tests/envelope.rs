use epic_data::archive::BalancingDataArchive;
use epic_data::envelope::{compress_data, decompress_data};
use epic_data::wire::DecodeError;

#[test]
fn length_field_records_uncompressed_size() {
    let data = vec![0x41u8; 1000];
    let wrapped = compress_data(&data);
    let mut field = [0u8; 8];
    field.copy_from_slice(&wrapped[5..13]);
    assert_eq!(u64::from_le_bytes(field), 1000);
}

#[test]
fn envelope_round_trip() {
    for data in [vec![], vec![0x41u8; 1000], b"hello envelope".to_vec(), (0..=255u8).collect::<Vec<u8>>()] {
        let wrapped = compress_data(&data);
        let mut field = [0u8; 8];
        field.copy_from_slice(&wrapped[5..13]);
        assert_eq!(u64::from_le_bytes(field), data.len() as u64);
        assert_eq!(decompress_data(&wrapped).unwrap(), data);
    }
}

#[test]
fn compressed_stream_differs_from_input() {
    let data = vec![0x41u8; 1000];
    let wrapped = compress_data(&data);
    assert!(wrapped.len() < data.len());
}

#[test]
fn plain_archive_falls_back_after_envelope_error() {
    let mut a = BalancingDataArchive::default();
    a.set_data_key_raw("ABH.Shared.BalancingData.BossBalancingData", vec![1, 2, 3]);
    a.set_version("7");
    let mut plain = Vec::new();
    a.write(&mut plain);
    assert_eq!(decompress_data(&plain), Err(DecodeError::CompressionFormat));
    let b = BalancingDataArchive::new(&plain).unwrap();
    assert_eq!(b.get_data_key("ABH.Shared.BalancingData.BossBalancingData"), Some(&vec![1, 2, 3]));
    assert_eq!(b.get_version(), "7");
}

#[test]
fn corrupt_envelope_is_format_error() {
    assert_eq!(decompress_data(&[]), Err(DecodeError::CompressionFormat));
    assert_eq!(decompress_data(&[1, 2, 3, 4, 5]), Err(DecodeError::CompressionFormat));
}

#[test]
fn envelope_header_is_complete() {
    let wrapped = compress_data(&[]);
    assert!(wrapped.len() >= 13);
    assert_eq!(&wrapped[5..13], &[0u8; 8]);
}
