use vstd::prelude::*;

verus! {

/// Longest chain identifier, in characters, that the network accepts.
pub const MAX_CHAIN_ID_LEN: usize = 50;

/// A character that may appear in a chain identifier.
pub open spec fn is_chain_id_char(c: char) -> bool {
    ('a' <= c && c <= 'z') || ('A' <= c && c <= 'Z') || ('0' <= c && c <= '9') || c == '-'
        || c == '_' || c == '.'
}

/// A well-formed chain identifier: non-empty, at most fifty characters, from
/// the letters, digits, `-`, `_` and `.`.
pub open spec fn valid_chain_id(s: Seq<char>) -> bool {
    &&& 1 <= s.len() <= MAX_CHAIN_ID_LEN
    &&& forall|i: int| 0 <= i < s.len() ==> is_chain_id_char(#[trigger] s[i])
}

#[verifier::external_type_specification]
#[verifier::external_body]
pub struct ExTendermintChainId(tendermint::chain::Id);

#[verifier::external_type_specification]
#[verifier::external_body]
pub struct ExTendermintError(tendermint::Error);

/// Relies on tendermint's `chain::Id::try_from(&str)`: it accepts exactly the
/// non-empty names of at most fifty bytes drawn from `a-z`, `A-Z`, `0-9`, `-`,
/// `_` and `.` (a name made of those characters has as many bytes as characters).
#[verifier::external_body]
fn tendermint_chain_id(name: &str) -> (r: Result<tendermint::chain::Id, tendermint::Error>)
    ensures
        r is Ok <==> valid_chain_id(name@),
{
    tendermint::chain::Id::try_from(name)
}

/// Identifier of one blockchain network; the binding context for message
/// encoding and key selection.
pub struct ChainId {
    name: String,
}

impl View for ChainId {
    type V = Seq<char>;

    closed spec fn view(&self) -> Seq<char> {
        self.name@
    }
}

impl ChainId {
    /// Every identifier is well formed.
    #[verifier::type_invariant]
    pub open spec fn wf(self) -> bool {
        valid_chain_id(self@)
    }

    /// Parses a chain identifier; `None` unless the name is well formed.
    pub fn parse(name: &str) -> (r: Option<ChainId>)
        ensures
            r is Some <==> valid_chain_id(name@),
            r matches Some(id) ==> id@ == name@,
    {
        match tendermint_chain_id(name) {
            Ok(_) => Some(ChainId { name: name.to_owned() }),
            Err(_) => None,
        }
    }

    /// The identifier's text.
    pub fn as_str(&self) -> (r: &str)
        ensures
            r@ == self@,
    {
        self.name.as_str()
    }

    /// Whether two identifiers name the same chain.
    pub fn same_chain(&self, other: &ChainId) -> (r: bool)
        ensures
            r == (self@ == other@),
    {
        self.name == other.name
    }

}

impl Clone for ChainId {
    fn clone(&self) -> (r: ChainId)
        ensures
            r@ == self@,
    {
        proof {
            use_type_invariant(self);
        }
        ChainId { name: self.name.clone() }
    }
}

} // verus!
