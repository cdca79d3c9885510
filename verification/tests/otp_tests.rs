use onetime_cli::{decrypt, encrypt};

#[test]
fn decrypt_gives_the_xor_of_its_inputs() {
    let in1: [u8; 10] = [1, 2, 3, 4, 5, 6, 7, 8, 9, 10];
    let in2: [u8; 10] = [26, 89, 3, 93, 78, 12, 60, 23, 4, 71];
    let mut data = [0u8; 10];

    assert!(decrypt(&in1, &in2, &mut data).is_ok());

    assert_eq!(data, [27, 91, 0, 89, 75, 10, 59, 31, 13, 77]);
}

#[test]
fn decrypt_does_not_care_for_the_order_of_its_inputs() {
    let in1: [u8; 4] = [0x00, 0xff, 0x0f, 0xa5];
    let in2: [u8; 4] = [0xff, 0xff, 0xf0, 0x5a];
    let mut ab = [0u8; 4];
    let mut ba = [0u8; 4];
    assert!(decrypt(&in1, &in2, &mut ab).is_ok());
    assert!(decrypt(&in2, &in1, &mut ba).is_ok());
    assert_eq!(ab, [0xff, 0x00, 0xff, 0xff]);
    assert_eq!(ab, ba);
}

#[test]
fn decrypt_leaves_the_rest_of_a_longer_buffer() {
    let in1: [u8; 2] = [1, 2];
    let in2: [u8; 2] = [3, 3];
    let mut out = [9u8; 5];
    assert!(decrypt(&in1, &in2, &mut out).is_ok());
    assert_eq!(out, [2, 1, 9, 9, 9]);
}

#[test]
fn decrypt_of_nothing_changes_nothing() {
    let mut out = [7u8; 3];
    assert!(decrypt(&[], &[], &mut out).is_ok());
    assert_eq!(out, [7, 7, 7]);
    let mut none: [u8; 0] = [];
    assert!(decrypt(&[], &[], &mut none).is_ok());
}

#[test]
fn encrypt_writes_pad_and_input_under_pad() {
    let data: [u8; 10] = [1, 2, 3, 4, 5, 6, 7, 8, 9, 10];
    let mut out1 = [0u8; 10];
    let mut out2 = [0u8; 10];

    assert!(encrypt(&data, &mut out1, &mut out2).is_ok());

    for i in 0..10 {
        assert_eq!(out2[i], data[i] ^ out1[i]);
    }
}

#[test]
fn encrypt_then_decrypt_gives_the_input_back() {
    let data: Vec<u8> = (0..=255u8).cycle().take(1000).collect();
    let mut out1 = vec![0u8; 1000];
    let mut out2 = vec![0u8; 1000];
    assert!(encrypt(&data, &mut out1, &mut out2).is_ok());

    let mut back = vec![0u8; 1000];
    assert!(decrypt(&out1, &out2, &mut back).is_ok());
    assert_eq!(back, data);

    let mut swapped = vec![0u8; 1000];
    assert!(decrypt(&out2, &out1, &mut swapped).is_ok());
    assert_eq!(swapped, data);
}

#[test]
fn encrypt_of_nothing_changes_nothing() {
    let mut out1 = [5u8; 2];
    let mut out2 = [6u8; 2];
    assert!(encrypt(&[], &mut out1, &mut out2).is_ok());
    assert_eq!(out1, [5, 5]);
    assert_eq!(out2, [6, 6]);
}

#[test]
fn encrypt_leaves_the_rest_of_longer_buffers() {
    let data: [u8; 3] = [10, 20, 30];
    let mut out1 = [0xaau8; 6];
    let mut out2 = [0xbbu8; 8];
    assert!(encrypt(&data, &mut out1, &mut out2).is_ok());
    assert_eq!(&out1[3..], &[0xaa, 0xaa, 0xaa]);
    assert_eq!(&out2[3..], &[0xbb, 0xbb, 0xbb, 0xbb, 0xbb]);
    for i in 0..3 {
        assert_eq!(out1[i] ^ out2[i], data[i]);
    }
}

#[test]
fn pads_are_not_repeated() {
    let data = [0u8; 64];
    let mut pad_a = [0u8; 64];
    let mut pad_b = [0u8; 64];
    let mut cipher = [0u8; 64];
    assert!(encrypt(&data, &mut pad_a, &mut cipher).is_ok());
    assert!(encrypt(&data, &mut pad_b, &mut cipher).is_ok());
    assert_ne!(pad_a, pad_b);
    // a pad is no constant either
    assert_ne!(pad_a, [pad_a[0]; 64]);
}

#[test]
fn pad_bytes_cover_the_whole_byte_range_evenly() {
    let n = 1 << 18;
    let data = vec![0u8; n];
    let mut pad = vec![0u8; n];
    let mut cipher = vec![0u8; n];
    assert!(encrypt(&data, &mut pad, &mut cipher).is_ok());
    let mut seen = [0usize; 256];
    for b in &pad {
        seen[*b as usize] += 1;
    }
    // each value is expected 1024 times; the bounds are more than ten
    // standard deviations away
    for count in seen {
        assert!(count > 512 && count < 1536);
    }
}
