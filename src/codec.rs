use vstd::prelude::*;

use crate::chain_id::{is_chain_id_char, valid_chain_id, ChainId};
use crate::error::InitError;

verus! {

/// Category of a consensus message that a signer may be asked to sign.
#[derive(Clone, Copy, Debug, PartialEq, Eq, Structural)]
pub enum SignedMsgType {
    /// A block proposal: the least consequential message that still goes
    /// through the device's full height/round/step bookkeeping.
    Proposal,
}

/// A vote-like consensus message. It carries no block id and no timestamp:
/// those stay empty, so its signature cannot stand for a real vote.
#[derive(Clone, Copy, Debug, PartialEq, Eq, Structural)]
pub struct VoteMessage {
    /// Block height the message is for.
    pub height: i64,
    /// Consensus round within that height.
    pub round: i64,
    /// What kind of message this is.
    pub message_type: SignedMsgType,
}

/// Largest round that the canonical encoding can carry.
pub const MAX_ROUND: i64 = 2147483647;

/// The message's fields fit the canonical encoding: a height of at least zero,
/// and a round from zero to `MAX_ROUND`.
pub open spec fn encodable(m: VoteMessage) -> bool {
    0 <= m.height && 0 <= m.round <= MAX_ROUND
}

/// The `n` lowest bytes of `v`, least significant first.
pub open spec fn le_bytes(v: nat, n: nat) -> Seq<u8>
    decreases n,
{
    if n == 0 {
        Seq::empty()
    } else {
        seq![(v % 256) as u8] + le_bytes(v / 256, (n - 1) as nat)
    }
}

/// A fixed 64-bit field with key byte `key`, left out when the value is zero.
pub open spec fn fixed64_field(key: u8, v: nat) -> Seq<u8> {
    if v == 0 {
        Seq::empty()
    } else {
        seq![key] + le_bytes(v, 8)
    }
}

/// The proof-of-lock round field holding -1 ("none"): key byte 32, then the
/// ten-byte varint of -1.
pub open spec fn no_pol_round_field() -> Seq<u8> {
    seq![32u8, 255u8, 255u8, 255u8, 255u8, 255u8, 255u8, 255u8, 255u8, 255u8, 1u8]
}

/// The fields of a canonical proposal ahead of the chain id: type (key byte
/// 8, value 32), height (key byte 17), round (key byte 25), proof-of-lock
/// round. There is no block id and no timestamp.
pub open spec fn proposal_fields(height: nat, round: nat) -> Seq<u8> {
    seq![8u8, 32u8] + fixed64_field(17, height) + fixed64_field(25, round) + no_pol_round_field()
}

/// The bytes ahead of the chain id: the length of the whole message (one byte,
/// as it stays under 128 for a valid name), then the fields before the chain id.
pub open spec fn proposal_head(height: nat, round: nat, chain_len: nat) -> Seq<u8> {
    let body_len = proposal_fields(height, round).len() + 2 + chain_len;
    seq![body_len as u8] + proposal_fields(height, round)
}

/// The last field of a canonical proposal: key byte 58 (field seven, length
/// delimited), the name's length, then the name's bytes.
pub open spec fn chain_id_field(chain: Seq<char>) -> Seq<u8> {
    seq![58u8, chain.len() as u8] + chain.map_values(|c: char| c as u8)
}

/// The sign bytes of the handshake proposal at a height and round on a chain.
pub open spec fn canonical_proposal_bytes(chain: Seq<char>, height: int, round: int) -> Seq<u8> {
    proposal_head(height as nat, round as nat, chain.len()) + chain_id_field(chain)
}

/// `s` ends with `t`.
pub open spec fn ends_with(s: Seq<u8>, t: Seq<u8>) -> bool {
    t.len() <= s.len() && s.subrange(s.len() - t.len(), s.len() as int) == t
}

/// Relies on tendermint's `Proposal::into_signable_vec`, which writes the
/// length-delimited protobuf `CanonicalProposal` for the chain: prost writes
/// the fields in tag order and leaves out zero scalars and absent messages;
/// height and round are `sfixed64`, the proof-of-lock round an `int64` set to
/// -1 when absent, and the chain id, field seven, comes last. A valid name
/// keeps the whole message under 128 bytes, so each length takes one byte.
/// `Height::try_from` accepts every height of at least zero,
/// `Round::try_from` every round up to `i32::MAX`, and `chain::Id::try_from`
/// every valid name.
#[verifier::external_body]
fn proposal_sign_bytes(chain: &str, height: i64, round: u32) -> (r: Vec<u8>)
    requires
        valid_chain_id(chain@),
        0 <= height,
        round <= MAX_ROUND,
    ensures
        r@ == proposal_head(height as nat, round as nat, chain@.len()) + chain_id_field(chain@),
{
    let proposal = tendermint::proposal::Proposal {
        msg_type: tendermint::proposal::Type::Proposal,
        height: tendermint::block::Height::try_from(height).unwrap(),
        round: tendermint::block::Round::try_from(round).unwrap(),
        pol_round: None,
        block_id: None,
        timestamp: None,
        signature: None,
    };
    proposal.into_signable_vec(tendermint::chain::Id::try_from(chain).unwrap())
}

/// What encoding `m` on `chain` yields.
pub open spec fn encode(chain: Seq<char>, m: VoteMessage) -> Result<Seq<u8>, InitError> {
    if encodable(m) {
        Ok(canonical_proposal_bytes(chain, m.height as int, m.round as int))
    } else {
        Err(InitError::EncodingError)
    }
}

/// Encodes `m` into the canonical, chain-bound bytes that a signer signs.
pub fn sign_bytes(m: &VoteMessage, chain_id: &ChainId) -> (r: Result<Vec<u8>, InitError>)
    ensures
        r is Ok <==> encodable(*m),
        r matches Ok(b) ==> encode(chain_id@, *m) == Ok::<Seq<u8>, InitError>(b@),
        r matches Err(e) ==> e == InitError::EncodingError,
{
    if m.height < 0 || m.round < 0 || m.round > MAX_ROUND {
        return Err(InitError::EncodingError);
    }
    proof {
        use_type_invariant(chain_id);
    }
    match m.message_type {
        SignedMsgType::Proposal => {
            Ok(proposal_sign_bytes(chain_id.as_str(), m.height, m.round as u32))
        },
    }
}

/// Encoding is deterministic: the same chain and the same message always give
/// the same sign bytes, whichever identifier values carry the chain's name.
pub proof fn lemma_encoding_deterministic(a: ChainId, b: ChainId, m: VoteMessage, n: VoteMessage)
    requires
        a@ == b@,
        m == n,
    ensures
        encode(a@, m) == encode(b@, n),
        encodable(m) ==> encode(a@, m) is Ok,
{
}

proof fn lemma_field_byte(chain: Seq<char>, k: int)
    requires
        valid_chain_id(chain),
        0 <= k < chain_id_field(chain).len(),
    ensures
        k == 0 ==> chain_id_field(chain)[k] == 58u8,
        k == 1 ==> chain_id_field(chain)[k] == chain.len() as u8,
        k >= 1 ==> chain_id_field(chain)[k] != 58u8,
        k >= 2 ==> chain_id_field(chain)[k] == chain[k - 2] as u8,
{
    if k >= 2 {
        let c = chain[k - 2];
        assert(is_chain_id_char(c));
        assert(chain_id_field(chain)[k] == c as u8);
        assert((c as u8) != 58u8);
    }
}

/// Two byte strings that both end with a chain-id field end with the same one.
proof fn lemma_one_chain_field(s: Seq<u8>, a: Seq<char>, b: Seq<char>)
    requires
        valid_chain_id(a),
        valid_chain_id(b),
        ends_with(s, chain_id_field(a)),
        ends_with(s, chain_id_field(b)),
    ensures
        a == b,
{
    let fa = chain_id_field(a);
    let fb = chain_id_field(b);
    if a.len() < b.len() {
        let k = b.len() - a.len();
        lemma_field_byte(a, 0);
        lemma_field_byte(b, k);
        assert(s[s.len() - fa.len()] == fa[0]);
        assert(s[s.len() - fb.len() + k] == fb[k]);
    } else if b.len() < a.len() {
        let k = a.len() - b.len();
        lemma_field_byte(b, 0);
        lemma_field_byte(a, k);
        assert(s[s.len() - fb.len()] == fb[0]);
        assert(s[s.len() - fa.len() + k] == fa[k]);
    } else {
        assert forall|i: int| 0 <= i < a.len() implies a[i] == b[i] by {
            lemma_field_byte(a, i + 2);
            lemma_field_byte(b, i + 2);
            assert(s[s.len() - fa.len() + i + 2] == fa[i + 2]);
            assert(s[s.len() - fb.len() + i + 2] == fb[i + 2]);
            assert(is_chain_id_char(a[i]) && is_chain_id_char(b[i]));
        }
        assert(a =~= b);
    }
}

proof fn lemma_ends_with_last(chain: Seq<char>, height: int, round: int)
    ensures
        ends_with(canonical_proposal_bytes(chain, height, round), chain_id_field(chain)),
{
    let h = proposal_head(height as nat, round as nat, chain.len());
    let f = chain_id_field(chain);
    let s = h + f;
    assert(s.subrange(s.len() - f.len(), s.len() as int) =~= f);
}

/// Encoding is chain-bound: a message that can be encoded gives different
/// sign bytes on two different chains, so a signature made for one chain is
/// never a valid request on another.
pub proof fn lemma_chain_binding(a: Seq<char>, b: Seq<char>, m: VoteMessage)
    requires
        valid_chain_id(a),
        valid_chain_id(b),
        a != b,
        encodable(m),
    ensures
        encode(a, m) != encode(b, m),
{
    let s = canonical_proposal_bytes(a, m.height as int, m.round as int);
    let t = canonical_proposal_bytes(b, m.height as int, m.round as int);
    if s == t {
        lemma_ends_with_last(a, m.height as int, m.round as int);
        lemma_ends_with_last(b, m.height as int, m.round as int);
        lemma_one_chain_field(s, a, b);
    }
}

/// `256` to the power `n`.
spec fn pow256(n: nat) -> nat
    decreases n,
{
    if n == 0 {
        1
    } else {
        256 * pow256((n - 1) as nat)
    }
}

proof fn lemma_le_bytes_len(v: nat, n: nat)
    ensures
        le_bytes(v, n).len() == n,
    decreases n,
{
    if n > 0 {
        lemma_le_bytes_len(v / 256, (n - 1) as nat);
    }
}

proof fn lemma_le_bytes_injective(v: nat, w: nat, n: nat)
    requires
        le_bytes(v, n) == le_bytes(w, n),
        v < pow256(n),
        w < pow256(n),
    ensures
        v == w,
    decreases n,
{
    if n > 0 {
        let k = (n - 1) as nat;
        let sv = le_bytes(v, n);
        let sw = le_bytes(w, n);
        assert(sv[0] == sw[0]);
        assert(v % 256 == w % 256);
        assert(sv.subrange(1, sv.len() as int) =~= le_bytes(v / 256, k));
        assert(sw.subrange(1, sw.len() as int) =~= le_bytes(w / 256, k));
        assert(v / 256 < pow256(k)) by (nonlinear_arith)
            requires
                v < 256 * pow256(k),
        ;
        assert(w / 256 < pow256(k)) by (nonlinear_arith)
            requires
                w < 256 * pow256(k),
        ;
        lemma_le_bytes_injective(v / 256, w / 256, k);
        assert(v == 256 * (v / 256) + v % 256) by (nonlinear_arith);
        assert(w == 256 * (w / 256) + w % 256) by (nonlinear_arith);
    }
}

proof fn lemma_fixed64_field(key: u8, v: nat)
    ensures
        v == 0 ==> fixed64_field(key, v).len() == 0,
        v != 0 ==> fixed64_field(key, v).len() == 9 && fixed64_field(key, v)[0] == key
            && fixed64_field(key, v).subrange(1, 9) == le_bytes(v, 8),
{
    lemma_le_bytes_len(v, 8);
    if v != 0 {
        assert(fixed64_field(key, v).subrange(1, 9) =~= le_bytes(v, 8));
    }
}

proof fn lemma_fields_injective(h1: nat, r1: nat, h2: nat, r2: nat)
    requires
        proposal_fields(h1, r1) == proposal_fields(h2, r2),
        h1 < pow256(8),
        r1 < pow256(8),
        h2 < pow256(8),
        r2 < pow256(8),
    ensures
        h1 == h2,
        r1 == r2,
{
    let f = proposal_fields(h1, r1);
    let a1 = fixed64_field(17, h1);
    let a2 = fixed64_field(17, h2);
    let b1 = fixed64_field(25, r1);
    let b2 = fixed64_field(25, r2);
    let p = no_pol_round_field();
    lemma_fixed64_field(17, h1);
    lemma_fixed64_field(17, h2);
    lemma_fixed64_field(25, r1);
    lemma_fixed64_field(25, r2);
    assert(f =~= seq![8u8, 32u8] + a1 + b1 + p);
    assert(f =~= seq![8u8, 32u8] + a2 + b2 + p);
    // the byte after the type field tells whether a height is present
    assert(h1 != 0 <==> h2 != 0) by {
        assert(f[2] == (if h1 != 0 { 17u8 } else if r1 != 0 { 25u8 } else { 32u8 }));
        assert(f[2] == (if h2 != 0 { 17u8 } else if r2 != 0 { 25u8 } else { 32u8 }));
    }
    if h1 != 0 {
        assert(f.subrange(3, 11) =~= le_bytes(h1, 8));
        assert(f.subrange(3, 11) =~= le_bytes(h2, 8));
        lemma_le_bytes_injective(h1, h2, 8);
    }
    let o: int = 2 + a1.len() as int;
    assert(a1.len() == a2.len());
    assert(r1 != 0 <==> r2 != 0) by {
        assert(f[o] == (if r1 != 0 { 25u8 } else { 32u8 }));
        assert(f[o] == (if r2 != 0 { 25u8 } else { 32u8 }));
    }
    if r1 != 0 {
        assert(f.subrange(o + 1, o + 9) =~= le_bytes(r1, 8));
        assert(f.subrange(o + 1, o + 9) =~= le_bytes(r2, 8));
        lemma_le_bytes_injective(r1, r2, 8);
    }
}

/// Encoding is injective on one chain: two different messages that can be
/// encoded never give the same sign bytes.
pub proof fn lemma_encoding_injective(chain: Seq<char>, m1: VoteMessage, m2: VoteMessage)
    requires
        valid_chain_id(chain),
        encodable(m1),
        encodable(m2),
        m1 != m2,
    ensures
        encode(chain, m1) != encode(chain, m2),
{
    let h1 = m1.height as nat;
    let r1 = m1.round as nat;
    let h2 = m2.height as nat;
    let r2 = m2.round as nat;
    let s1 = canonical_proposal_bytes(chain, m1.height as int, m1.round as int);
    let s2 = canonical_proposal_bytes(chain, m2.height as int, m2.round as int);
    if s1 == s2 {
        let tail = chain_id_field(chain);
        let g1 = proposal_head(h1, r1, chain.len());
        let g2 = proposal_head(h2, r2, chain.len());
        assert(g1 =~= s1.subrange(0, s1.len() - tail.len()));
        assert(g2 =~= s2.subrange(0, s2.len() - tail.len()));
        assert(proposal_fields(h1, r1) =~= g1.subrange(1, g1.len() as int));
        assert(proposal_fields(h2, r2) =~= g2.subrange(1, g2.len() as int));
        reveal_with_fuel(pow256, 9);
        assert(pow256(8) == 18446744073709551616nat);
        lemma_fields_injective(h1, r1, h2, r2);
        assert(m1.message_type == m2.message_type);
    }
}

} // verus!
