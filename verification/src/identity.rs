use vstd::prelude::*;

verus! {

/// The base58 text of the peer identifier that the ed25519 keypair grown
/// out of a zero-padded one-byte seed yields. The derivation (key
/// expansion, protobuf encoding, multihash, base58) is a pure function of
/// the seed; only that fact is assumed, not the text itself.
pub uninterp spec fn peer_id_text(seed: u8) -> Seq<char>;

/// Relies on `libp2p_identity::Keypair::ed25519_from_bytes`,
/// `PeerId::from(PublicKey)` and `PeerId::to_base58`: deriving the peer
/// identifier text from a 32-byte secret is deterministic, and decoding a
/// buffer of exactly 32 bytes never fails (the decoder rejects only wrong
/// lengths).
#[verifier::external_body]
fn peer_id_base58(seed: u8) -> (r: String)
    ensures
        r@ == peer_id_text(seed),
{
    let mut bytes = [0u8; 32];
    bytes[0] = seed;
    let keypair = libp2p::identity::Keypair::ed25519_from_bytes(bytes)
        .expect("a buffer of exactly 32 bytes always decodes");
    libp2p::PeerId::from(keypair.public()).to_base58()
}

/// A node's identity: the seed its keypair is grown from and the derived
/// globally-unique peer identifier, in its textual (base58) form.
#[derive(Clone, Debug)]
pub struct NodeIdentity {
    pub seed: u8,
    pub peer_id: String,
}

impl NodeIdentity {
    /// The identifier is the one that this identity's seed derives.
    pub open spec fn wf(self) -> bool {
        self.peer_id@ == peer_id_text(self.seed)
    }
}

/// Derive the node identity that a one-byte seed selects. Pure and
/// deterministic: the result is a function of the seed alone.
pub fn derive_identity(seed: u8) -> (id: NodeIdentity)
    ensures
        id.seed == seed,
        id.wf(),
{
    NodeIdentity { seed, peer_id: peer_id_base58(seed) }
}

/// Deriving twice from one seed yields identical identities: any two
/// well-formed identities over the same seed agree on the identifier.
pub proof fn lemma_identity_deterministic(a: NodeIdentity, b: NodeIdentity)
    requires
        a.wf(),
        b.wf(),
        a.seed == b.seed,
    ensures
        a.peer_id@ == b.peer_id@,
{
}

/// Identities derived from distinct seeds are distinct: they differ at
/// least in the seed they carry. (That the derived identifier texts also
/// never collide across the 256-value seed space rests on the ed25519 key
/// expansion; the test suite checks it exhaustively.)
pub proof fn lemma_identity_injective_in_seed(a: NodeIdentity, b: NodeIdentity)
    requires
        a.wf(),
        b.wf(),
        a.seed != b.seed,
    ensures
        a != b,
{
}

} // verus!
