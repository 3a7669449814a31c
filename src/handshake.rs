use crate::primitives::{
    argon2id_derive, argon2id_interactive_of, box_gen_keypair, box_gen_nonce,
    box_keypair_from_seed, box_keypair_of, box_open_detached, box_open_detached_of,
    box_seal_detached, box_seal_detached_of, random_below, random_bytes, secretbox_gen_key,
    secretbox_gen_nonce,
};
use crate::session::{
    bytes_equal, copy_range, decode_session, encode_session, is_session_block,
    lemma_session_round_trip, push_range,
    SessionMaterial, SESSION_BLOCK_LEN,
};
use vstd::prelude::*;

verus! {

/// Total size of the handshake message on the wire.
pub const MESSAGE_LEN: usize = 1024;

/// Length of the outer nonce that opens the message.
pub const OUTER_NONCE_LEN: usize = 24;

/// Length of the ephemeral public key that follows the outer nonce.
pub const EPHEMERAL_KEY_LEN: usize = 32;

/// Length of a static or ephemeral key.
pub const KEY_LEN: usize = 32;

/// Length of the derived seed.
pub const SEED_LEN: usize = 32;

/// Length of the authentication tag that follows the encrypted session block.
pub const TAG_LEN: usize = 16;

/// Length of the encrypted session block together with its tag.
pub const SEALED_LEN: usize = 96;

/// Front padding is drawn from `[0, FRONT_PAD_BOUND)`.
pub const FRONT_PAD_BOUND: usize = 100;

/// Random bytes in a message: front padding and trailing fill together.
pub const FILL_LEN: usize = 872;

/// Offset of the front padding, just after the outer nonce and ephemeral key.
pub const PAD_START: usize = 56;

/// Why a handshake could not be built.
#[derive(Debug, Clone, Copy, PartialEq, Eq, Structural)]
pub enum HandshakeError {
    /// The password hash did not complete.
    KeyDerivation,
    /// The random source handed out two equal traffic nonces.
    RandomSource,
}

/// The fixed salt of the password hash.
pub open spec fn salt_bytes() -> Seq<u8> {
    seq![
        0x69u8, 0x37u8, 0x27u8, 0xe0u8, 0xf0u8, 0xe6u8, 0xc0u8, 0xb2u8,
        0xf9u8, 0x56u8, 0x1bu8, 0xe4u8, 0xc8u8, 0xb6u8, 0x95u8, 0x07u8,
    ]
}

/// The seed that a password derives.
pub open spec fn seed_of(password: Seq<u8>) -> Seq<u8> {
    argon2id_interactive_of(password, salt_bytes(), SEED_LEN as nat)
}

/// The server's static key pair, (public, secret), as a password determines it.
pub open spec fn static_keypair_of(password: Seq<u8>) -> (Seq<u8>, Seq<u8>) {
    box_keypair_of(seed_of(password))
}

/// The encrypted session block followed by its tag.
pub open spec fn sealed_block_of(plain: Seq<u8>, nonce: Seq<u8>, pk: Seq<u8>, sk: Seq<u8>) -> Seq<u8> {
    box_seal_detached_of(plain, nonce, pk, sk).0 + box_seal_detached_of(plain, nonce, pk, sk).1
}

/// The wire layout: outer nonce, ephemeral key, the first `pad` fill bytes, the
/// sealed block, and the rest of the fill.
pub open spec fn handshake_layout(
    nonce: Seq<u8>,
    eph_pk: Seq<u8>,
    pad: int,
    sealed: Seq<u8>,
    fill: Seq<u8>,
) -> Seq<u8> {
    nonce + eph_pk + fill.subrange(0, pad) + sealed + fill.subrange(pad, fill.len() as int)
}

/// `msg` is laid out from these parts, with the session block sealed to
/// `server_pk` under the ephemeral secret key `eph_sk`.
pub open spec fn framed_with(
    msg: Seq<u8>,
    server_pk: Seq<u8>,
    block: Seq<u8>,
    nonce: Seq<u8>,
    eph_pk: Seq<u8>,
    eph_sk: Seq<u8>,
    pad: int,
    fill: Seq<u8>,
) -> bool {
    &&& nonce.len() == OUTER_NONCE_LEN
    &&& eph_pk.len() == EPHEMERAL_KEY_LEN
    &&& eph_sk.len() == KEY_LEN
    &&& 0 <= pad < FRONT_PAD_BOUND
    &&& fill.len() == FILL_LEN
    &&& msg == handshake_layout(nonce, eph_pk, pad, sealed_block_of(block, nonce, server_pk, eph_sk), fill)
}

/// `msg` is a handshake that carries `block` sealed to `server_pk`.
pub open spec fn is_handshake_for(msg: Seq<u8>, server_pk: Seq<u8>, block: Seq<u8>) -> bool {
    exists|nonce: Seq<u8>, eph_pk: Seq<u8>, eph_sk: Seq<u8>, pad: int, fill: Seq<u8>|
        #[trigger] framed_with(msg, server_pk, block, nonce, eph_pk, eph_sk, pad, fill)
}

/// The fixed salt of the password hash.
pub fn handshake_salt() -> (r: Vec<u8>)
    ensures
        r@ == salt_bytes(),
{
    let r: Vec<u8> = vec![
        0x69u8, 0x37u8, 0x27u8, 0xe0u8, 0xf0u8, 0xe6u8, 0xc0u8, 0xb2u8,
        0xf9u8, 0x56u8, 0x1bu8, 0xe4u8, 0xc8u8, 0xb6u8, 0x95u8, 0x07u8,
    ];
    assert(r@ =~= salt_bytes());
    r
}

/// Derives the 32-byte seed from a password (an empty one included) with the
/// fixed salt.
pub fn seed_from_password(password: &[u8]) -> (r: Result<Vec<u8>, HandshakeError>)
    ensures
        r matches Ok(s) ==> s@ == seed_of(password@) && s@.len() == SEED_LEN,
        r matches Err(e) ==> e == HandshakeError::KeyDerivation,
{
    let salt = handshake_salt();
    match argon2id_derive(password, salt.as_slice(), SEED_LEN) {
        Some(seed) => Ok(seed),
        None => Err(HandshakeError::KeyDerivation),
    }
}

/// The server's static key pair, (public, secret), derived from the password.
pub fn static_keypair(password: &[u8]) -> (r: Result<(Vec<u8>, Vec<u8>), HandshakeError>)
    ensures
        r matches Ok(kp) ==> (kp.0@, kp.1@) == static_keypair_of(password@),
        r matches Ok(kp) ==> kp.0@.len() == KEY_LEN && kp.1@.len() == KEY_LEN,
        r matches Err(e) ==> e == HandshakeError::KeyDerivation,
{
    let seed = seed_from_password(password)?;
    Ok(box_keypair_from_seed(seed.as_slice()))
}

/// Encrypts the serialized session material to `server_pk` under the ephemeral
/// secret key, and appends the tag.
pub fn seal_session(
    material: &SessionMaterial,
    nonce: &[u8],
    server_pk: &[u8],
    eph_sk: &[u8],
) -> (r: Vec<u8>)
    requires
        material.wf(),
        nonce@.len() == OUTER_NONCE_LEN,
        server_pk@.len() == KEY_LEN,
        eph_sk@.len() == KEY_LEN,
    ensures
        r@ == sealed_block_of(material.encoding(), nonce@, server_pk@, eph_sk@),
        r@.len() == SEALED_LEN,
        box_seal_detached_of(material.encoding(), nonce@, server_pk@, eph_sk@).0.len()
            == SESSION_BLOCK_LEN,
        box_seal_detached_of(material.encoding(), nonce@, server_pk@, eph_sk@).1.len() == TAG_LEN,
{
    let plain = encode_session(material);
    let (cipher, tag) = box_seal_detached(plain.as_slice(), nonce, server_pk, eph_sk);
    let mut r = cipher;
    push_range(&mut r, tag.as_slice(), 0, tag.len());
    assert(tag@.subrange(0, tag@.len() as int) =~= tag@);
    r
}

/// Lays out a handshake message: outer nonce, ephemeral public key, the first
/// `front_pad` bytes of `fill`, the sealed block, then the rest of `fill`.
pub fn assemble_message(
    nonce: &[u8],
    eph_pk: &[u8],
    front_pad: usize,
    sealed: &[u8],
    fill: &[u8],
) -> (r: Vec<u8>)
    requires
        nonce@.len() == OUTER_NONCE_LEN,
        eph_pk@.len() == EPHEMERAL_KEY_LEN,
        front_pad < FRONT_PAD_BOUND,
        sealed@.len() == SEALED_LEN,
        fill@.len() == FILL_LEN,
    ensures
        r@ == handshake_layout(nonce@, eph_pk@, front_pad as int, sealed@, fill@),
        r@.len() == MESSAGE_LEN,
{
    let mut r: Vec<u8> = Vec::new();
    push_range(&mut r, nonce, 0, OUTER_NONCE_LEN);
    push_range(&mut r, eph_pk, 0, EPHEMERAL_KEY_LEN);
    push_range(&mut r, fill, 0, front_pad);
    push_range(&mut r, sealed, 0, SEALED_LEN);
    push_range(&mut r, fill, front_pad, FILL_LEN);
    assert(nonce@.subrange(0, 24) =~= nonce@);
    assert(eph_pk@.subrange(0, 32) =~= eph_pk@);
    assert(sealed@.subrange(0, 96) =~= sealed@);
    assert(r@ =~= handshake_layout(nonce@, eph_pk@, front_pad as int, sealed@, fill@));
    r
}

/// Builds the handshake message from the values drawn for it: the session
/// material sealed to `server_pk`, framed with the nonce, the ephemeral public
/// key and the random fill.
pub fn compose_handshake(
    server_pk: &[u8],
    material: &SessionMaterial,
    nonce: &[u8],
    eph_pk: &[u8],
    eph_sk: &[u8],
    front_pad: usize,
    fill: &[u8],
) -> (r: Vec<u8>)
    requires
        server_pk@.len() == KEY_LEN,
        material.wf(),
        nonce@.len() == OUTER_NONCE_LEN,
        eph_pk@.len() == EPHEMERAL_KEY_LEN,
        eph_sk@.len() == KEY_LEN,
        front_pad < FRONT_PAD_BOUND,
        fill@.len() == FILL_LEN,
    ensures
        framed_with(r@, server_pk@, material.encoding(), nonce@, eph_pk@, eph_sk@, front_pad as int, fill@),
        r@.len() == MESSAGE_LEN,
        box_seal_detached_of(material.encoding(), nonce@, server_pk@, eph_sk@).0.len()
            == SESSION_BLOCK_LEN,
        box_seal_detached_of(material.encoding(), nonce@, server_pk@, eph_sk@).1.len() == TAG_LEN,
{
    let sealed = seal_session(material, nonce, server_pk, eph_sk);
    assemble_message(nonce, eph_pk, front_pad, sealed.as_slice(), fill)
}

/// Session material from drawn values: the key and the two traffic nonces as
/// given. Fails where the two nonces are equal, which only a broken random
/// source produces.
pub fn session_from_draws(key: Vec<u8>, c2s: Vec<u8>, s2c: Vec<u8>) -> (r: Result<
    SessionMaterial,
    HandshakeError,
>)
    requires
        key@.len() == 32,
        c2s@.len() == 24,
        s2c@.len() == 24,
    ensures
        r is Err <==> c2s@ == s2c@,
        r matches Err(e) ==> e == HandshakeError::RandomSource,
        r matches Ok(m) ==> {
            &&& m.wf()
            &&& m.key@ == key@
            &&& m.client_to_server_nonce@ == c2s@
            &&& m.server_to_client_nonce@ == s2c@
        },
{
    if bytes_equal(c2s.as_slice(), s2c.as_slice()) {
        return Err(HandshakeError::RandomSource);
    }
    Ok(SessionMaterial { key, client_to_server_nonce: c2s, server_to_client_nonce: s2c })
}

/// Draws fresh session material: a random key and two random traffic nonces.
/// Fails if the two nonces come out equal.
pub fn fresh_session() -> (r: Result<SessionMaterial, HandshakeError>)
    ensures
        r matches Ok(m) ==> m.wf(),
        r matches Err(e) ==> e == HandshakeError::RandomSource,
{
    let key = secretbox_gen_key();
    let c2s = secretbox_gen_nonce();
    let s2c = secretbox_gen_nonce();
    session_from_draws(key, c2s, s2c)
}

/// The client's first message: fresh session material sealed to the static
/// public key that the password determines, under a fresh ephemeral key pair
/// and outer nonce, behind random front padding and padded with random bytes
/// to the fixed size. Returns the message and the session material it carries.
pub fn build_initial_message(password: &[u8]) -> (r: Result<(Vec<u8>, SessionMaterial), HandshakeError>)
    ensures
        r matches Ok((msg, m)) ==> {
            &&& msg@.len() == MESSAGE_LEN
            &&& m.wf()
            &&& is_handshake_for(msg@, static_keypair_of(password@).0, m.encoding())
        },
{
    let nonce = box_gen_nonce();
    let (eph_pk, eph_sk) = box_gen_keypair();
    let material = fresh_session()?;
    let (server_pk, _server_sk) = static_keypair(password)?;
    let front_pad = random_below(FRONT_PAD_BOUND);
    let fill = random_bytes(FILL_LEN);
    let msg = compose_handshake(
        server_pk.as_slice(),
        &material,
        nonce.as_slice(),
        eph_pk.as_slice(),
        eph_sk.as_slice(),
        front_pad,
        fill.as_slice(),
    );
    assert(framed_with(msg@, server_pk@, material.encoding(), nonce@, eph_pk@, eph_sk@, front_pad as int, fill@));
    Ok((msg, material))
}

/// What decrypting the block at front padding `pad` of `msg` yields under
/// the secret key `sk`, with the outer nonce and ephemeral key that `msg`
/// carries.
pub open spec fn opened_at(msg: Seq<u8>, pad: int, sk: Seq<u8>) -> Option<Seq<u8>> {
    let start = PAD_START + pad;
    box_open_detached_of(
        msg.subrange(start, start + SESSION_BLOCK_LEN),
        msg.subrange(start + SESSION_BLOCK_LEN, start + SEALED_LEN),
        msg.subrange(0, OUTER_NONCE_LEN as int),
        msg.subrange(OUTER_NONCE_LEN as int, PAD_START as int),
        sk,
    )
}

/// The session block recovered at front padding `pad`, where the tag verifies
/// and the plaintext is a well-formed session block.
pub open spec fn session_at(msg: Seq<u8>, pad: int, sk: Seq<u8>) -> Option<Seq<u8>> {
    match opened_at(msg, pad, sk) {
        Some(p) => if is_session_block(p) { Some(p) } else { None },
        None => None,
    }
}

/// Decrypts the session block of a handshake message under the server's
/// secret key, taking the front padding to be `pad` bytes.
pub fn open_at_offset(msg: &[u8], pad: usize, server_sk: &[u8]) -> (r: Option<SessionMaterial>)
    requires
        msg@.len() == MESSAGE_LEN,
        pad < FRONT_PAD_BOUND,
        server_sk@.len() == KEY_LEN,
    ensures
        r is Some <==> session_at(msg@, pad as int, server_sk@) is Some,
        r matches Some(m) ==> m.wf() && session_at(msg@, pad as int, server_sk@) == Some(m.encoding()),
{
    let start = PAD_START + pad;
    let cipher = copy_range(msg, start, start + SESSION_BLOCK_LEN);
    let tag = copy_range(msg, start + SESSION_BLOCK_LEN, start + SEALED_LEN);
    let nonce = copy_range(msg, 0, OUTER_NONCE_LEN);
    let eph_pk = copy_range(msg, OUTER_NONCE_LEN, PAD_START);
    match box_open_detached(cipher.as_slice(), tag.as_slice(), nonce.as_slice(), eph_pk.as_slice(), server_sk) {
        Some(plain) => decode_session(plain.as_slice()),
        None => None,
    }
}

/// No front padding length gives a block that verifies and decodes.
pub open spec fn no_session(msg: Seq<u8>, sk: Seq<u8>) -> bool {
    forall|p: int| 0 <= p < FRONT_PAD_BOUND ==> #[trigger] session_at(msg, p, sk) is None
}

/// `block` is recovered at the smallest front padding length that gives one.
pub open spec fn first_session_is(msg: Seq<u8>, sk: Seq<u8>, block: Seq<u8>) -> bool {
    exists|p: int|
        0 <= p < FRONT_PAD_BOUND && #[trigger] session_at(msg, p, sk) == Some(block) && forall|q: int|
            0 <= q < p ==> #[trigger] session_at(msg, q, sk) is None
}

/// The server's side of the handshake: tries each possible front padding in
/// turn and returns the session material from the first offset whose block
/// verifies and decodes. Rejects a message of the wrong size, or one where no
/// offset verifies.
pub fn accept_handshake(msg: &[u8], server_sk: &[u8]) -> (r: Option<SessionMaterial>)
    requires
        server_sk@.len() == KEY_LEN,
    ensures
        r is None <==> (msg@.len() != MESSAGE_LEN || no_session(msg@, server_sk@)),
        r matches Some(m) ==> m.wf() && first_session_is(msg@, server_sk@, m.encoding()),
{
    if msg.len() != MESSAGE_LEN {
        return None;
    }
    let mut pad: usize = 0;
    while pad < FRONT_PAD_BOUND
        invariant
            msg@.len() == MESSAGE_LEN,
            server_sk@.len() == KEY_LEN,
            pad <= FRONT_PAD_BOUND,
            forall|q: int| 0 <= q < pad ==> #[trigger] session_at(msg@, q, server_sk@) is None,
        decreases FRONT_PAD_BOUND - pad,
    {
        match open_at_offset(msg, pad, server_sk) {
            Some(m) => {
                assert(session_at(msg@, pad as int, server_sk@) == Some(m.encoding()));
                return Some(m);
            },
            None => {},
        }
        pad = pad + 1;
    }
    None
}

/// Derivation is deterministic: equal passwords give byte-identical seeds and
/// therefore identical static key pairs.
pub proof fn lemma_derivation_deterministic(p1: Seq<u8>, p2: Seq<u8>)
    requires
        p1 == p2,
    ensures
        seed_of(p1) == seed_of(p2),
        static_keypair_of(p1) == static_keypair_of(p2),
{
}

/// Whatever front padding is drawn, the laid-out handshake message has the
/// fixed total size.
pub proof fn lemma_handshake_fixed_size(
    nonce: Seq<u8>,
    eph_pk: Seq<u8>,
    pad: int,
    sealed: Seq<u8>,
    fill: Seq<u8>,
)
    requires
        nonce.len() == OUTER_NONCE_LEN,
        eph_pk.len() == EPHEMERAL_KEY_LEN,
        0 <= pad < FRONT_PAD_BOUND,
        sealed.len() == SEALED_LEN,
        fill.len() == FILL_LEN,
    ensures
        handshake_layout(nonce, eph_pk, pad, sealed, fill).len() == MESSAGE_LEN,
{
}

/// Round trip: where the server's secret key opens what was sealed, reading
/// the block at the message's front padding, with the outer nonce and
/// ephemeral key that the message embeds, yields exactly the serialized
/// session material, whose key and two nonces are the ones encoded.
pub proof fn lemma_handshake_round_trip(
    material: SessionMaterial,
    nonce: Seq<u8>,
    eph_pk: Seq<u8>,
    pad: int,
    sealed: Seq<u8>,
    fill: Seq<u8>,
    server_sk: Seq<u8>,
)
    requires
        material.wf(),
        nonce.len() == OUTER_NONCE_LEN,
        eph_pk.len() == EPHEMERAL_KEY_LEN,
        0 <= pad < FRONT_PAD_BOUND,
        sealed.len() == SEALED_LEN,
        fill.len() == FILL_LEN,
        box_open_detached_of(
            sealed.subrange(0, SESSION_BLOCK_LEN as int),
            sealed.subrange(SESSION_BLOCK_LEN as int, SEALED_LEN as int),
            nonce,
            eph_pk,
            server_sk,
        ) == Some(material.encoding()),
    ensures
        session_at(handshake_layout(nonce, eph_pk, pad, sealed, fill), pad, server_sk)
            == Some(material.encoding()),
        material.encoding().subrange(0, 32) == material.key@,
        material.encoding().subrange(32, 56) == material.client_to_server_nonce@,
        material.encoding().subrange(56, 80) == material.server_to_client_nonce@,
{
    let msg = handshake_layout(nonce, eph_pk, pad, sealed, fill);
    let start = PAD_START + pad;
    assert(msg.subrange(start, start + SESSION_BLOCK_LEN) =~= sealed.subrange(0, SESSION_BLOCK_LEN as int));
    assert(msg.subrange(start + SESSION_BLOCK_LEN, start + SEALED_LEN) =~= sealed.subrange(
        SESSION_BLOCK_LEN as int,
        SEALED_LEN as int,
    ));
    assert(msg.subrange(0, OUTER_NONCE_LEN as int) =~= nonce);
    assert(msg.subrange(OUTER_NONCE_LEN as int, PAD_START as int) =~= eph_pk);
    lemma_session_round_trip(material);
}

} // verus!
