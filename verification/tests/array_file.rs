use fad::npy::{decimal_digits, header, image};

#[test]
fn decimal_digits_of_some_numbers() {
    assert_eq!(decimal_digits(0), b"0".to_vec());
    assert_eq!(decimal_digits(7), b"7".to_vec());
    assert_eq!(decimal_digits(10), b"10".to_vec());
    assert_eq!(decimal_digits(100000), b"100000".to_vec());
    assert_eq!(decimal_digits(909), b"909".to_vec());
    assert_eq!(decimal_digits(usize::MAX), format!("{}", usize::MAX).as_bytes().to_vec());
}

#[test]
fn header_of_a_hundred_thousand_rows() {
    let h = header(100000);
    assert_eq!(h.len() % 64, 0);
    assert_eq!(h[h.len() - 1], b'\n');

    let parsed = npyz::NpyHeader::from_reader(&h[..]).unwrap();
    assert_eq!(parsed.shape(), &[100000u64, 2][..]);
    assert_eq!(parsed.order(), npyz::Order::C);
    match parsed.dtype() {
        npyz::DType::Plain(ty) => assert_eq!(format!("{}", ty), "<f8"),
        _ => panic!(),
    }
}

#[test]
fn header_bytes_are_exact() {
    let mut expected = b"\x93NUMPY\x01\x00".to_vec();
    expected.extend_from_slice(&118u16.to_le_bytes());
    expected.extend_from_slice(b"{'descr': '<f8', 'fortran_order': False, 'shape': (100000, 2), }");
    while expected.len() < 127 {
        expected.push(b' ');
    }
    expected.push(b'\n');
    assert_eq!(header(100000), expected);
}

#[test]
fn header_length_field_counts_what_follows_it() {
    for n in [0usize, 1, 9, 10, 12345, 100000, 99999999999, usize::MAX] {
        let h = header(n);
        assert_eq!(&h[..8], b"\x93NUMPY\x01\x00");
        let field = u16::from_le_bytes([h[8], h[9]]) as usize;
        assert_eq!(field + 10, h.len());
        assert_eq!(h.len() % 64, 0);
        assert_eq!(h[h.len() - 1], b'\n');
        let text = format!("{{'descr': '<f8', 'fortran_order': False, 'shape': ({}, 2), }}", n);
        assert_eq!(&h[10..10 + text.len()], text.as_bytes());
        assert!(h[10 + text.len()..h.len() - 1].iter().all(|b| *b == b' '));
        assert!(h.len() - 1 - (10 + text.len()) < 64);
    }
}

#[test]
fn header_of_the_largest_row_count() {
    let h = header(usize::MAX);
    let text = format!("{{'descr': '<f8', 'fortran_order': False, 'shape': ({}, 2), }}", usize::MAX);
    assert_eq!(h.len(), 128);
    assert_eq!(&h[10..10 + text.len()], text.as_bytes());
    assert_eq!(h[10 + text.len()..].len(), 128 - 10 - text.len());
    assert!(h[10 + text.len()..127].iter().all(|b| *b == b' '));
}

#[test]
fn round_trip_through_a_reader() {
    let values = vec![1.5f64.to_bits(), (-2.25f64).to_bits()];
    let sensitivities = vec![0.0f64.to_bits(), 3.0f64.to_bits()];
    let bytes = image(&values, &sensitivities);

    let file = npyz::NpyFile::new(&bytes[..]).unwrap();
    assert_eq!(file.shape(), &[2u64, 2][..]);
    assert_eq!(file.order(), npyz::Order::C);
    let numbers: Vec<f64> = file.into_vec().unwrap();
    assert_eq!(numbers, vec![1.5, 0.0, -2.25, 3.0]);
}

#[test]
fn rows_are_interleaved_little_endian() {
    let bytes = image(&vec![0x0102030405060708, 0x1112131415161718], &vec![0x2122232425262728, 0]);
    assert_eq!(bytes.len(), 128 + 32);
    assert_eq!(&bytes[..128], &header(2)[..]);
    assert_eq!(&bytes[128..136], &[8, 7, 6, 5, 4, 3, 2, 1]);
    assert_eq!(&bytes[136..144], &[0x28, 0x27, 0x26, 0x25, 0x24, 0x23, 0x22, 0x21]);
    assert_eq!(&bytes[144..152], &[0x18, 0x17, 0x16, 0x15, 0x14, 0x13, 0x12, 0x11]);
    assert_eq!(&bytes[152..160], &[0u8; 8]);
}

#[test]
fn rows_match_the_float_encoding() {
    let values = [1.5f64, -2.25, f64::INFINITY, f64::MIN_POSITIVE];
    let sensitivities = [0.0f64, 3.0, -0.0, 1e300];
    let bytes = image(
        &values.iter().map(|v| v.to_bits()).collect(),
        &sensitivities.iter().map(|v| v.to_bits()).collect(),
    );
    let mut expected = header(4);
    for i in 0..4 {
        expected.extend_from_slice(&values[i].to_le_bytes());
        expected.extend_from_slice(&sensitivities[i].to_le_bytes());
    }
    assert_eq!(bytes, expected);
}

#[test]
fn file_of_no_rows() {
    let bytes = image(&vec![], &vec![]);
    assert_eq!(bytes, header(0));
    let file = npyz::NpyFile::new(&bytes[..]).unwrap();
    assert_eq!(file.shape(), &[0u64, 2][..]);
    let numbers: Vec<f64> = file.into_vec().unwrap();
    assert!(numbers.is_empty());
}
