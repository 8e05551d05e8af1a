use sqep_lite::cipher::decode_text;
use sqep_lite::{CipherError, FrameDefect, Scheme, ZeroshieldCipher};

const PAYLOAD: &[u8] = b"hello quantum world!";

const NONCE: [u8; 12] = [
    0xa0, 0xa1, 0xa2, 0xa3, 0xa4, 0xa5, 0xa6, 0xa7, 0xa8, 0xa9, 0xaa, 0xab,
];

const LITE_FRAME: [u8; 60] = [
    0x53, 0x51, 0x45, 0x50, 0x34, 0x2e, 0x30, 0x2d, 0x4c, 0x49, 0x54, 0x45, 0xa0, 0xa1, 0xa2,
    0xa3, 0xa4, 0xa5, 0xa6, 0xa7, 0xa8, 0xa9, 0xaa, 0xab, 0xa6, 0x5c, 0xad, 0x1b, 0x10, 0x24,
    0x99, 0x31, 0x37, 0x10, 0xb0, 0xe7, 0x57, 0xf7, 0x02, 0xa9, 0x77, 0x63, 0x65, 0xa7, 0x5d,
    0xa0, 0x96, 0xf5, 0x17, 0x4d, 0x17, 0xb9, 0x41, 0xcd, 0xec, 0x99, 0x49, 0x3a, 0x4d, 0x13,
];

const LEGACY_FRAME: [u8; 55] = [
    0x53, 0x51, 0x45, 0x50, 0x33, 0x2e, 0x39, 0xa0, 0xa1, 0xa2, 0xa3, 0xa4, 0xa5, 0xa6, 0xa7,
    0xa8, 0xa9, 0xaa, 0xab, 0x64, 0xce, 0x14, 0x33, 0x22, 0xc6, 0xb3, 0xd8, 0xc1, 0x61, 0x87,
    0x61, 0x91, 0xda, 0x8a, 0x94, 0xef, 0x32, 0xb7, 0x9e, 0x0f, 0x14, 0xea, 0xe9, 0xa0, 0x1b,
    0x0a, 0x86, 0xb3, 0x0d, 0x9d, 0xa8, 0x72, 0xa4, 0xe0, 0x60,
];

const EMPTY_LITE_FRAME: [u8; 40] = [
    0x53, 0x51, 0x45, 0x50, 0x34, 0x2e, 0x30, 0x2d, 0x4c, 0x49, 0x54, 0x45, 0xa0, 0xa1, 0xa2,
    0xa3, 0xa4, 0xa5, 0xa6, 0xa7, 0xa8, 0xa9, 0xaa, 0xab, 0x03, 0xb4, 0x13, 0xae, 0xf8, 0x3b,
    0x38, 0x48, 0x87, 0xa4, 0xd6, 0x80, 0x52, 0xfd, 0x59, 0xaa,
];

fn test_key() -> [u8; 32] {
    let mut key = [0u8; 32];
    for (i, byte) in key.iter_mut().enumerate() {
        *byte = i as u8;
    }
    key
}

fn other_key() -> [u8; 32] {
    let mut key = test_key();
    key[31] ^= 0x01;
    key
}

fn lite() -> ZeroshieldCipher {
    ZeroshieldCipher::from_key(test_key())
}

fn legacy() -> ZeroshieldCipher {
    ZeroshieldCipher::from_key(test_key()).with_scheme(Scheme::Legacy)
}

fn patterned(len: usize) -> Vec<u8> {
    (0..len).map(|i| (i * 7 + 3) as u8).collect()
}

#[test]
fn roundtrip_exact_len() {
    let cipher = ZeroshieldCipher::new().expect("Secure key generation failed");
    let msg = b"hello quantum world!";
    let (ct, _m) = cipher.encrypt_with_meta(msg).expect("Nonce generation failed");
    let pt = cipher.decrypt(&ct).expect("decrypt");
    assert_eq!(pt, msg, "roundtrip mismatch");
    // Also check UTF-8 path
    let s = cipher.decrypt_utf8(&ct).expect("utf8");
    assert_eq!(s.as_bytes(), msg);
}

#[test]
fn round_trip_over_many_lengths() {
    for cipher in [lite(), legacy()] {
        for len in [0usize, 1, 2, 3, 4, 5, 15, 16, 17, 63, 64, 65, 255, 256, 257, 1000, 4099] {
            let payload = patterned(len);
            assert!(cipher.can_seal(payload.len()));
            let (frame, _meta) = cipher.encrypt_with_meta(&payload).expect("seal");
            assert_eq!(cipher.decrypt(&frame), Ok(payload));
        }
    }
}

#[test]
fn round_trip_under_random_keys() {
    for _ in 0..8 {
        let cipher = ZeroshieldCipher::new().expect("key");
        let payload = patterned(77);
        let (frame, _meta) = cipher.encrypt_with_meta(&payload).expect("seal");
        assert_eq!(cipher.decrypt(&frame), Ok(payload));
    }
}

#[test]
fn sealed_frame_has_known_bytes() {
    let (frame, meta) = lite().seal_with(PAYLOAD, NONCE, 1_700_000_000);
    assert_eq!(frame, LITE_FRAME.to_vec());
    assert_eq!(meta.timestamp, 1_700_000_000);
    assert_eq!(
        meta.hash,
        "855a3562c40d0817096d2451b672e1c50fc6d7254c47efa8ed9094d2d3a320f1"
    );
}

#[test]
fn legacy_frame_has_known_bytes() {
    let (frame, meta) = legacy().seal_with(PAYLOAD, NONCE, 42);
    assert_eq!(frame, LEGACY_FRAME.to_vec());
    assert_eq!(meta.timestamp, 42);
    assert_eq!(
        meta.hash,
        "a9dd129af6c7087375f911ed5a1c0fb6652c1a3ce29b0b359092989be57343e9"
    );
}

#[test]
fn known_frames_unseal_to_the_payload() {
    assert_eq!(lite().decrypt(&LITE_FRAME), Ok(PAYLOAD.to_vec()));
    assert_eq!(legacy().decrypt(&LEGACY_FRAME), Ok(PAYLOAD.to_vec()));
    assert_eq!(
        lite().decrypt_utf8(&LITE_FRAME),
        Ok(String::from("hello quantum world!"))
    );
}

#[test]
fn concrete_scenario() {
    let cipher = lite();
    let (frame, _meta) = cipher.encrypt_with_meta(PAYLOAD).expect("seal");
    assert!(frame.starts_with(b"SQEP4.0-LITE"));
    assert_eq!(frame.len(), 12 + 12 + PAYLOAD.len() + 16);
    assert_eq!(cipher.decrypt(&frame), Ok(PAYLOAD.to_vec()));
    let stranger = ZeroshieldCipher::from_key(other_key());
    assert_eq!(
        stranger.decrypt(&frame),
        Err(CipherError::AuthenticationFailure)
    );
    let zero = ZeroshieldCipher::from_key([0u8; 32]);
    assert_eq!(zero.decrypt(&frame), Err(CipherError::AuthenticationFailure));
}

#[test]
fn concrete_scenario_legacy() {
    let cipher = legacy();
    let (frame, _meta) = cipher.encrypt_with_meta(PAYLOAD).expect("seal");
    assert!(frame.starts_with(b"SQEP3.9"));
    assert_eq!(frame.len(), 7 + 12 + PAYLOAD.len() + 16);
    assert_eq!(cipher.decrypt(&frame), Ok(PAYLOAD.to_vec()));
}

#[test]
fn empty_payload_round_trips() {
    for cipher in [lite(), legacy()] {
        let (frame, _meta) = cipher.encrypt_with_meta(b"").expect("seal");
        assert_eq!(cipher.decrypt(&frame), Ok(Vec::new()));
        assert_eq!(cipher.decrypt_utf8(&frame), Ok(String::new()));
    }
    let (frame, _meta) = lite().seal_with(b"", NONCE, 0);
    assert_eq!(frame, EMPTY_LITE_FRAME.to_vec());
    assert_eq!(lite().decrypt(&EMPTY_LITE_FRAME), Ok(Vec::new()));
}

#[test]
fn two_seals_of_one_payload_differ() {
    let cipher = lite();
    let (first, _) = cipher.encrypt_with_meta(PAYLOAD).expect("seal");
    let (second, _) = cipher.encrypt_with_meta(PAYLOAD).expect("seal");
    assert_ne!(first, second);
    assert_ne!(first[12..24], second[12..24]);
    assert_ne!(first[24..], second[24..]);
}

#[test]
fn another_nonce_gives_another_frame() {
    let mut nonce = NONCE;
    nonce[0] ^= 0x80;
    let (frame, _) = lite().seal_with(PAYLOAD, nonce, 0);
    assert_ne!(frame[24..], LITE_FRAME[24..]);
    assert_eq!(lite().decrypt(&frame), Ok(PAYLOAD.to_vec()));
}

#[test]
fn every_flipped_bit_behind_the_tag_is_detected() {
    for (cipher, frame, tag_len) in [
        (lite(), LITE_FRAME.to_vec(), 12usize),
        (legacy(), LEGACY_FRAME.to_vec(), 7usize),
    ] {
        for at in tag_len..frame.len() {
            for bit in 0..8 {
                let mut altered = frame.clone();
                altered[at] ^= 1 << bit;
                assert_eq!(
                    cipher.decrypt(&altered),
                    Err(CipherError::AuthenticationFailure)
                );
            }
        }
    }
}

#[test]
fn cut_or_lengthened_frames_fail_authentication() {
    let cipher = lite();
    let mut longer = LITE_FRAME.to_vec();
    longer.push(0);
    assert_eq!(
        cipher.decrypt(&longer),
        Err(CipherError::AuthenticationFailure)
    );
    for keep in 24..LITE_FRAME.len() {
        assert_eq!(
            cipher.decrypt(&LITE_FRAME[..keep]),
            Err(CipherError::AuthenticationFailure)
        );
    }
}

#[test]
fn wrong_key_is_rejected() {
    let stranger = ZeroshieldCipher::from_key(other_key());
    assert_eq!(
        stranger.decrypt(&LITE_FRAME),
        Err(CipherError::AuthenticationFailure)
    );
    let stranger = stranger.with_scheme(Scheme::Legacy);
    assert_eq!(
        stranger.decrypt(&LEGACY_FRAME),
        Err(CipherError::AuthenticationFailure)
    );
    assert_eq!(
        stranger.decrypt_utf8(&LEGACY_FRAME),
        Err(CipherError::AuthenticationFailure)
    );
}

#[test]
fn corrupted_format_tag_is_malformed() {
    let unknown = Err(CipherError::MalformedFrame(FrameDefect::UnknownFormat));
    for at in 0..12 {
        for bit in 0..8 {
            let mut altered = LITE_FRAME.to_vec();
            altered[at] ^= 1 << bit;
            assert_eq!(lite().decrypt(&altered), unknown);
            assert_eq!(
                ZeroshieldCipher::from_key(other_key()).decrypt(&altered),
                unknown
            );
        }
    }
    assert_eq!(lite().decrypt(&LEGACY_FRAME), unknown);
    assert_eq!(legacy().decrypt(&LITE_FRAME), unknown);
    assert_eq!(
        lite().decrypt_utf8(&LEGACY_FRAME),
        Err(CipherError::MalformedFrame(FrameDefect::UnknownFormat))
    );
}

#[test]
fn short_input_is_truncated() {
    let truncated = Err(CipherError::MalformedFrame(FrameDefect::Truncated));
    assert_eq!(lite().decrypt(b""), truncated);
    assert_eq!(lite().decrypt(&LITE_FRAME[..23]), truncated);
    assert_eq!(legacy().decrypt(&LEGACY_FRAME[..18]), truncated);
    // Length is judged before the tag.
    assert_eq!(lite().decrypt(&[0u8; 23]), truncated);
    assert_eq!(
        lite().decrypt(&[0u8; 24]),
        Err(CipherError::MalformedFrame(FrameDefect::UnknownFormat))
    );
    // Tag and nonce alone: a frame in form, with nothing to authenticate.
    assert_eq!(
        lite().decrypt(&LITE_FRAME[..24]),
        Err(CipherError::AuthenticationFailure)
    );
}

#[test]
fn payload_that_is_no_text() {
    let cipher = lite();
    let (frame, _) = cipher.encrypt_with_meta(&[0xff, 0xfe, 0x00]).expect("seal");
    assert_eq!(cipher.decrypt(&frame), Ok(vec![0xff, 0xfe, 0x00]));
    assert_eq!(
        cipher.decrypt_utf8(&frame),
        Err(CipherError::TextDecodingFailure)
    );
}

#[test]
fn text_payload_with_wide_characters() {
    let cipher = lite();
    let text = "gr\u{fc}\u{df}e \u{2014} \u{1f512}";
    let (frame, _) = cipher.encrypt_with_meta(text.as_bytes()).expect("seal");
    assert_eq!(cipher.decrypt_utf8(&frame), Ok(String::from(text)));
}

#[test]
fn decode_text_accepts_exactly_utf8() {
    assert_eq!(decode_text(b"abc"), Ok(String::from("abc")));
    assert_eq!(decode_text(b""), Ok(String::new()));
    assert_eq!(decode_text(&[0xc3, 0xa9]), Ok(String::from("\u{e9}")));
    assert_eq!(decode_text(&[0xc3]), Err(CipherError::TextDecodingFailure));
    assert_eq!(
        decode_text(&[0xed, 0xa0, 0x80]),
        Err(CipherError::TextDecodingFailure)
    );
}

#[test]
fn recover_maps_the_outcome_of_decryption() {
    assert_eq!(
        lite().recover(&NONCE, None),
        Err(CipherError::AuthenticationFailure)
    );
    assert_eq!(
        legacy().recover(&NONCE, None),
        Err(CipherError::AuthenticationFailure)
    );
    assert_eq!(legacy().recover(&NONCE, Some(vec![1, 2, 3])), Ok(vec![1, 2, 3]));
    let whitened = vec![
        0xaa, 0xf7, 0xd5, 0x44, 0x5d, 0xc2, 0x5b, 0x9c, 0x97, 0x1f, 0x43, 0xf3, 0xab, 0x0d, 0xff,
        0x52, 0xea, 0x3d, 0xb6, 0x18,
    ];
    assert_eq!(lite().recover(&NONCE, Some(whitened)), Ok(PAYLOAD.to_vec()));
}

#[test]
fn metadata_holds_the_digest_of_the_frame() {
    let cipher = lite();
    let (frame, meta) = cipher.encrypt_with_meta(PAYLOAD).expect("seal");
    assert_eq!(meta.hash, sqep_lite::digest::hex_digest(&frame));
    assert_eq!(meta.hash.len(), 64);
    // Later than the first of January 2020, as any present clock is.
    assert!(meta.timestamp > 1_577_836_800);
    let copy = meta.clone();
    assert_eq!(copy.timestamp, meta.timestamp);
    assert_eq!(copy.hash, meta.hash);
}

#[test]
fn metadata_plays_no_part_in_unsealing() {
    let cipher = lite();
    let (frame, mut meta) = cipher.seal_with(PAYLOAD, NONCE, 7);
    meta.hash.clear();
    meta.timestamp = 0;
    assert_eq!(cipher.decrypt(&frame), Ok(PAYLOAD.to_vec()));
}

#[test]
fn fingerprint_depends_on_the_key_alone() {
    let cipher = lite();
    assert_eq!(cipher.fingerprint(), "630dcd2966c4");
    assert_eq!(cipher.fingerprint(), cipher.fingerprint());
    assert_eq!(legacy().fingerprint(), cipher.fingerprint());
    assert_eq!(cipher.clone().fingerprint(), cipher.fingerprint());
    assert_ne!(
        ZeroshieldCipher::from_key(other_key()).fingerprint(),
        cipher.fingerprint()
    );
    let fresh = ZeroshieldCipher::new().expect("key");
    assert_eq!(fresh.fingerprint().len(), 12);
    assert_eq!(fresh.fingerprint(), fresh.fingerprint());
}

#[test]
fn exported_key_is_standard_base64() {
    assert_eq!(
        lite().export_key_base64(),
        "AAECAwQFBgcICQoLDA0ODxAREhMUFRYXGBkaGxwdHh8="
    );
    assert_eq!(
        ZeroshieldCipher::from_key([0xff; 32]).export_key_base64(),
        "//////////////////////////////////////////8="
    );
}

#[test]
fn fresh_keys_differ() {
    let first = ZeroshieldCipher::new().expect("key");
    let second = ZeroshieldCipher::new().expect("key");
    assert_ne!(first.export_key_base64(), second.export_key_base64());
    assert_eq!(first.export_key_base64().len(), 44);
}

#[test]
fn clone_is_an_equal_cipher() {
    let cipher = legacy();
    let copy = cipher.clone();
    assert_eq!(copy.export_key_base64(), cipher.export_key_base64());
    let (frame, _) = cipher.encrypt_with_meta(PAYLOAD).expect("seal");
    assert_eq!(copy.decrypt(&frame), Ok(PAYLOAD.to_vec()));
    assert_eq!(copy.seal_with(PAYLOAD, NONCE, 0).0, LEGACY_FRAME.to_vec());
}

#[test]
fn can_seal_knows_the_limit() {
    assert!(lite().can_seal(0));
    assert!(lite().can_seal(274_877_906_880));
    assert!(!lite().can_seal(274_877_906_881));
    assert!(!legacy().can_seal(usize::MAX));
}

#[test]
fn drawn_key_becomes_the_key() {
    let cipher = ZeroshieldCipher::from_drawn_key(Some(test_key())).expect("key");
    assert_eq!(cipher.export_key_base64(), lite().export_key_base64());
    assert_eq!(cipher.fingerprint(), "630dcd2966c4");
    // The scheme is `Lite`: the known frame of that scheme unseals.
    assert_eq!(cipher.decrypt(&LITE_FRAME), Ok(PAYLOAD.to_vec()));
    assert_eq!(cipher.seal_with(PAYLOAD, NONCE, 0).0, LITE_FRAME.to_vec());
}

#[test]
fn failed_draw_is_an_environment_failure() {
    assert_eq!(
        ZeroshieldCipher::from_drawn_key(None).err(),
        Some(CipherError::EnvironmentFailure)
    );
}

#[test]
fn seal_drawn_seals_under_the_nonce_it_was_given() {
    let (frame, meta) = lite()
        .seal_drawn(PAYLOAD, Some(NONCE), Some(1_700_000_000))
        .expect("seal");
    assert_eq!(frame, LITE_FRAME.to_vec());
    assert_eq!(frame[12..24], NONCE);
    assert_eq!(meta.timestamp, 1_700_000_000);
    assert_eq!(
        meta.hash,
        "855a3562c40d0817096d2451b672e1c50fc6d7254c47efa8ed9094d2d3a320f1"
    );
    let (frame, meta) = legacy().seal_drawn(PAYLOAD, Some(NONCE), Some(0)).expect("seal");
    assert_eq!(frame, LEGACY_FRAME.to_vec());
    assert_eq!(meta.timestamp, 0);
}

#[test]
fn failed_nonce_draw_is_an_environment_failure() {
    for cipher in [lite(), legacy()] {
        let outcome = cipher.seal_drawn(PAYLOAD, None, Some(1_700_000_000));
        assert_eq!(outcome.err(), Some(CipherError::EnvironmentFailure));
        let outcome = cipher.seal_drawn(b"", None, None);
        assert_eq!(outcome.err(), Some(CipherError::EnvironmentFailure));
    }
}

#[test]
fn missing_clock_reading_is_an_environment_failure() {
    let outcome = lite().seal_drawn(PAYLOAD, Some(NONCE), None);
    assert_eq!(outcome.err(), Some(CipherError::EnvironmentFailure));
}

#[test]
fn metadata_hash_is_the_hex_digest_of_the_whole_frame() {
    let cipher = lite();
    for payload in [&b""[..], &b"x"[..], PAYLOAD] {
        let (frame, meta) = cipher.encrypt_with_meta(payload).expect("seal");
        assert_eq!(meta.hash.len(), 64);
        assert!(meta
            .hash
            .chars()
            .all(|c| c.is_ascii_digit() || ('a'..='f').contains(&c)));
        assert_eq!(meta.hash, sqep_lite::digest::hex_digest(&frame));
        assert_ne!(meta.hash, sqep_lite::digest::hex_digest(payload));
        assert_ne!(meta.hash, sqep_lite::digest::hex_digest(&frame[24..]));
    }
}

#[test]
fn empty_payload_frame_has_forty_bytes() {
    let cipher = ZeroshieldCipher::from_key([0x42u8; 32]);
    let (frame, meta) = cipher.encrypt_with_meta(&[]).expect("seal");
    assert_eq!(frame.len(), 40);
    assert_eq!(meta.hash.len(), 64);
}
