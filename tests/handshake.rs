use oxy::handshake::{
    accept_handshake, assemble_message, build_initial_message, compose_handshake,
    handshake_salt, open_at_offset, seal_session, seed_from_password, session_from_draws,
    static_keypair, HandshakeError,
    FILL_LEN, MESSAGE_LEN,
};
use oxy::session::{decode_session, encode_session, SessionMaterial};

fn setup() {
    sodiumoxide::init().unwrap();
}

fn material(k: u8, a: u8, b: u8) -> SessionMaterial {
    SessionMaterial {
        key: vec![k; 32],
        client_to_server_nonce: vec![a; 24],
        server_to_client_nonce: vec![b; 24],
    }
}

fn same_material(x: &SessionMaterial, y: &SessionMaterial) -> bool {
    x.key == y.key
        && x.client_to_server_nonce == y.client_to_server_nonce
        && x.server_to_client_nonce == y.server_to_client_nonce
}

/// The front padding length of a message, found by trying each offset.
fn find_pad(msg: &[u8], sk: &[u8]) -> usize {
    (0..100).find(|&p| open_at_offset(msg, p, sk).is_some()).unwrap()
}

#[test]
fn salt_is_fixed() {
    assert_eq!(
        handshake_salt(),
        b"i7'\xe0\xf0\xe6\xc0\xb2\xf9V\x1b\xe4\xc8\xb6\x95\x07".to_vec()
    );
}

#[test]
fn derivation_is_deterministic() {
    setup();
    let a = seed_from_password(b"correct").unwrap();
    let b = seed_from_password(b"correct").unwrap();
    assert_eq!(a.len(), 32);
    assert_eq!(a, b);
    let ka = static_keypair(b"correct").unwrap();
    let kb = static_keypair(b"correct").unwrap();
    assert_eq!(ka, kb);
    assert_eq!(ka.0.len(), 32);
    assert_eq!(ka.1.len(), 32);
}

#[test]
fn derivation_is_sensitive() {
    setup();
    let a = seed_from_password(b"correct").unwrap();
    let b = seed_from_password(b"correcu").unwrap();
    let differing = a.iter().zip(b.iter()).filter(|(x, y)| x != y).count();
    assert!(differing >= 20, "only {} bytes differ", differing);
    assert_ne!(static_keypair(b"correct").unwrap().0, static_keypair(b"correcu").unwrap().0);
}

#[test]
fn empty_password_is_accepted() {
    setup();
    let e = seed_from_password(b"").unwrap();
    assert_eq!(e.len(), 32);
    assert_ne!(e, seed_from_password(b"a").unwrap());
    assert_eq!(e, seed_from_password(b"").unwrap());
}

#[test]
fn session_block_round_trip() {
    let m = material(1, 2, 3);
    let e = encode_session(&m);
    assert_eq!(e.len(), 80);
    assert_eq!(&e[..32], &[1u8; 32][..]);
    assert_eq!(&e[32..56], &[2u8; 24][..]);
    assert_eq!(&e[56..], &[3u8; 24][..]);
    let d = decode_session(&e).unwrap();
    assert!(same_material(&m, &d));
}

#[test]
fn session_block_rejects_bad_input() {
    assert!(decode_session(&[0u8; 79]).is_none());
    assert!(decode_session(&[0u8; 81]).is_none());
    // equal nonces
    let e = encode_session(&material(1, 2, 3));
    let mut same = e.clone();
    same[56..].copy_from_slice(&[2u8; 24]);
    assert!(decode_session(&same).is_none());
}

#[test]
fn message_layout_is_exact() {
    let nonce = vec![0xaau8; 24];
    let pk = vec![0xbbu8; 32];
    let sealed = vec![0xccu8; 96];
    let fill: Vec<u8> = (0..FILL_LEN).map(|i| (i % 251) as u8).collect();
    for &pad in &[0usize, 1, 57, 99] {
        let msg = assemble_message(&nonce, &pk, pad, &sealed, &fill);
        assert_eq!(msg.len(), MESSAGE_LEN);
        assert_eq!(&msg[..24], &nonce[..]);
        assert_eq!(&msg[24..56], &pk[..]);
        assert_eq!(&msg[56..56 + pad], &fill[..pad]);
        assert_eq!(&msg[56 + pad..152 + pad], &sealed[..]);
        assert_eq!(&msg[152 + pad..], &fill[pad..]);
    }
}

#[test]
fn message_has_fixed_size() {
    setup();
    for _ in 0..5 {
        let (msg, m) = build_initial_message(b"correct").unwrap();
        assert_eq!(msg.len(), 1024);
        assert_eq!(m.key.len(), 32);
    }
    let (msg, _) = build_initial_message(b"").unwrap();
    assert_eq!(msg.len(), 1024);
}

#[test]
fn sealing_hides_the_session_block() {
    setup();
    let (server_pk, _) = static_keypair(b"correct").unwrap();
    let (_, eph_sk) = static_keypair(b"ephemeral").unwrap();
    let m = material(7, 8, 9);
    let sealed = seal_session(&m, &[5u8; 24], &server_pk, &eph_sk);
    assert_eq!(sealed.len(), 96);
    assert_ne!(&sealed[..80], &encode_session(&m)[..]);
}

#[test]
fn composed_message_opens_at_its_padding() {
    setup();
    let (server_pk, server_sk) = static_keypair(b"correct").unwrap();
    let (eph_pk, eph_sk) = static_keypair(b"ephemeral").unwrap();
    let m = material(7, 8, 9);
    let fill = vec![0u8; FILL_LEN];
    let msg = compose_handshake(&server_pk, &m, &[5u8; 24], &eph_pk, &eph_sk, 42, &fill);
    assert_eq!(msg.len(), 1024);
    let got = open_at_offset(&msg, 42, &server_sk).unwrap();
    assert!(same_material(&m, &got));
    assert!(open_at_offset(&msg, 41, &server_sk).is_none());
    let accepted = accept_handshake(&msg, &server_sk).unwrap();
    assert!(same_material(&m, &accepted));
}

#[test]
fn handshake_round_trip() {
    setup();
    let (_, server_sk) = static_keypair(b"correct").unwrap();
    for _ in 0..3 {
        let (msg, sent) = build_initial_message(b"correct").unwrap();
        let got = accept_handshake(&msg, &server_sk).unwrap();
        assert!(same_material(&sent, &got));
    }
}

#[test]
fn wrong_key_recovers_nothing() {
    setup();
    let (_, server_sk) = static_keypair(b"correct").unwrap();
    let (msg, _) = build_initial_message(b"wrong").unwrap();
    assert!(accept_handshake(&msg, &server_sk).is_none());
}

#[test]
fn wrong_size_is_rejected() {
    setup();
    let (_, server_sk) = static_keypair(b"correct").unwrap();
    let (msg, _) = build_initial_message(b"correct").unwrap();
    assert!(accept_handshake(&msg[..1023], &server_sk).is_none());
    let mut longer = msg.clone();
    longer.push(0);
    assert!(accept_handshake(&longer, &server_sk).is_none());
}

#[test]
fn tampering_is_detected() {
    setup();
    let (_, server_sk) = static_keypair(b"correct").unwrap();
    let (msg, _) = build_initial_message(b"correct").unwrap();
    let pad = find_pad(&msg, &server_sk);
    for byte in 56 + pad..152 + pad {
        for bit in 0..8 {
            let mut t = msg.clone();
            t[byte] ^= 1 << bit;
            assert!(open_at_offset(&t, pad, &server_sk).is_none());
        }
    }
    for &byte in &[56 + pad, 100 + pad, 135 + pad, 151 + pad] {
        let mut t = msg.clone();
        t[byte] ^= 0x80;
        assert!(accept_handshake(&t, &server_sk).is_none());
    }
}

#[test]
fn session_from_draws_keeps_the_draws() {
    let m = session_from_draws(vec![4; 32], vec![5; 24], vec![6; 24]).unwrap();
    assert_eq!(m.key, vec![4u8; 32]);
    assert_eq!(m.client_to_server_nonce, vec![5u8; 24]);
    assert_eq!(m.server_to_client_nonce, vec![6u8; 24]);
}

#[test]
fn session_from_draws_rejects_equal_nonces() {
    assert!(matches!(
        session_from_draws(vec![4; 32], vec![5; 24], vec![5; 24]),
        Err(HandshakeError::RandomSource)
    ));
}
