use vstd::prelude::*;

verus! {

/// Length of the symmetric session key.
pub const SESSION_KEY_LEN: usize = 32;

/// Length of each per-direction traffic nonce.
pub const TRAFFIC_NONCE_LEN: usize = 24;

/// Length of the serialized session block: key, then client-to-server nonce,
/// then server-to-client nonce.
pub const SESSION_BLOCK_LEN: usize = 80;

/// The symmetric key and the two per-direction nonces that a handshake
/// negotiates.
pub struct SessionMaterial {
    pub key: Vec<u8>,
    pub client_to_server_nonce: Vec<u8>,
    pub server_to_client_nonce: Vec<u8>,
}

impl SessionMaterial {
    /// Each field has its fixed length, and the two directions never share a
    /// nonce.
    pub open spec fn wf(&self) -> bool {
        &&& self.key@.len() == SESSION_KEY_LEN
        &&& self.client_to_server_nonce@.len() == TRAFFIC_NONCE_LEN
        &&& self.server_to_client_nonce@.len() == TRAFFIC_NONCE_LEN
        &&& self.client_to_server_nonce@ != self.server_to_client_nonce@
    }

    /// The serialized block: the three fields in their fixed order.
    pub open spec fn encoding(&self) -> Seq<u8> {
        self.key@ + self.client_to_server_nonce@ + self.server_to_client_nonce@
    }
}

/// Copies `src[from..to]` onto the end of `out`.
pub fn push_range(out: &mut Vec<u8>, src: &[u8], from: usize, to: usize)
    requires
        from <= to <= src@.len(),
    ensures
        final(out)@ == old(out)@ + src@.subrange(from as int, to as int),
{
    let mut i: usize = from;
    while i < to
        invariant
            from <= i <= to <= src@.len(),
            out@ == old(out)@ + src@.subrange(from as int, i as int),
        decreases to - i,
    {
        out.push(src[i]);
        assert(src@.subrange(from as int, i + 1) =~= src@.subrange(from as int, i as int).push(
            src@[i as int],
        ));
        i = i + 1;
    }
}

/// The subsequence of `src` from `from` to `to`, as a new vector.
pub fn copy_range(src: &[u8], from: usize, to: usize) -> (r: Vec<u8>)
    requires
        from <= to <= src@.len(),
    ensures
        r@ == src@.subrange(from as int, to as int),
{
    let mut r: Vec<u8> = Vec::new();
    push_range(&mut r, src, from, to);
    assert(r@ =~= src@.subrange(from as int, to as int));
    r
}

/// Whether two byte strings are equal.
pub fn bytes_equal(a: &[u8], b: &[u8]) -> (r: bool)
    ensures
        r == (a@ == b@),
{
    if a.len() != b.len() {
        return false;
    }
    let mut i: usize = 0;
    while i < a.len()
        invariant
            a@.len() == b@.len(),
            0 <= i <= a@.len(),
            forall|j: int| 0 <= j < i ==> a@[j] == b@[j],
        decreases a@.len() - i,
    {
        if a[i] != b[i] {
            return false;
        }
        i = i + 1;
    }
    assert(a@ =~= b@);
    true
}

/// Serializes the session material into its fixed-size block.
pub fn encode_session(m: &SessionMaterial) -> (r: Vec<u8>)
    requires
        m.wf(),
    ensures
        r@ == m.encoding(),
        r@.len() == SESSION_BLOCK_LEN,
{
    let mut r: Vec<u8> = Vec::new();
    push_range(&mut r, m.key.as_slice(), 0, m.key.len());
    push_range(&mut r, m.client_to_server_nonce.as_slice(), 0, m.client_to_server_nonce.len());
    push_range(&mut r, m.server_to_client_nonce.as_slice(), 0, m.server_to_client_nonce.len());
    assert(m.key@.subrange(0, m.key@.len() as int) =~= m.key@);
    assert(m.client_to_server_nonce@.subrange(0, TRAFFIC_NONCE_LEN as int)
        =~= m.client_to_server_nonce@);
    assert(m.server_to_client_nonce@.subrange(0, TRAFFIC_NONCE_LEN as int)
        =~= m.server_to_client_nonce@);
    r
}

/// Whether `b` is the encoding of some well-formed session material: the
/// right length, with distinct nonces.
pub open spec fn is_session_block(b: Seq<u8>) -> bool {
    &&& b.len() == SESSION_BLOCK_LEN
    &&& b.subrange(32, 56) != b.subrange(56, 80)
}

/// Reads session material back from its serialized block. Fails on a block of
/// the wrong length or one whose two nonces are equal.
pub fn decode_session(b: &[u8]) -> (r: Option<SessionMaterial>)
    ensures
        r is Some <==> is_session_block(b@),
        r matches Some(m) ==> {
            &&& m.wf()
            &&& m.key@ == b@.subrange(0, 32)
            &&& m.client_to_server_nonce@ == b@.subrange(32, 56)
            &&& m.server_to_client_nonce@ == b@.subrange(56, 80)
            &&& m.encoding() == b@
        },
{
    if b.len() != SESSION_BLOCK_LEN {
        return None;
    }
    let key = copy_range(b, 0, 32);
    let c2s = copy_range(b, 32, 56);
    let s2c = copy_range(b, 56, 80);
    if bytes_equal(c2s.as_slice(), s2c.as_slice()) {
        return None;
    }
    let m = SessionMaterial { key, client_to_server_nonce: c2s, server_to_client_nonce: s2c };
    assert(m.encoding() =~= b@);
    Some(m)
}

/// Serializing well-formed session material and reading it back yields the
/// same key and nonces.
pub proof fn lemma_session_round_trip(m: SessionMaterial)
    requires
        m.wf(),
    ensures
        is_session_block(m.encoding()),
        m.encoding().subrange(0, 32) == m.key@,
        m.encoding().subrange(32, 56) == m.client_to_server_nonce@,
        m.encoding().subrange(56, 80) == m.server_to_client_nonce@,
{
    let e = m.encoding();
    assert(e.subrange(0, 32) =~= m.key@);
    assert(e.subrange(32, 56) =~= m.client_to_server_nonce@);
    assert(e.subrange(56, 80) =~= m.server_to_client_nonce@);
}

} // verus!
