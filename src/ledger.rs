use vstd::prelude::*;

use crate::chain_id::{valid_chain_id, ChainId};
use crate::codec::{
    canonical_proposal_bytes, encodable, lemma_chain_binding, sign_bytes, SignedMsgType,
    VoteMessage,
};
use crate::error::{InitError, SigningError};
use crate::registry::{Registry, SigningCapability};

verus! {

/// A step that a procedure took, in the order taken.
#[derive(Debug, PartialEq, Eq)]
pub enum Operation {
    /// The chain was looked up in the registry.
    LookUpChain,
    /// The message was encoded into sign bytes.
    Encode(VoteMessage),
    /// The signing capability was asked to sign `bytes` with the key that
    /// `key` selects, and gave `answer`.
    Sign { key: Option<Vec<u8>>, bytes: Vec<u8>, answer: Result<Vec<u8>, SigningError> },
    /// The signing capability was asked for the public identity of the key
    /// that `key` selects, and gave `answer`.
    QueryIdentity { key: Option<Vec<u8>>, answer: Result<Vec<u8>, SigningError> },
}

/// What a procedure returned, and the steps it took to get there.
pub struct Report {
    /// The signature or public identity, or why there is none.
    pub result: Result<Vec<u8>, InitError>,
    /// The steps taken, in order.
    pub operations: Vec<Operation>,
}

/// Seeds the device's height/round/step state with a signed proposal.
#[derive(Debug)]
pub struct InitCommand {
    /// Configuration file to load the validators and chains from.
    pub config: Option<String>,
    /// Height to seed; zero when absent.
    pub height: Option<i64>,
    /// Round to seed; zero when absent.
    pub round: Option<i64>,
}

/// Shows the public identity of the device's key.
#[derive(Debug)]
pub struct ShowCommand {}

/// The subcommands for a hardware signing device.
#[derive(Debug)]
pub enum LedgerCommand {
    /// Initialise the height/round/step.
    Initialise(InitCommand),
    /// Show the device's keys.
    Show(ShowCommand),
}

/// No step in `ops` encodes a message or signs.
pub open spec fn neither_encodes_nor_signs(ops: Seq<Operation>) -> bool {
    forall|k: int| 0 <= k < ops.len() ==> !(#[trigger] ops[k] is Encode) && !(ops[k] is Sign)
}

/// An operator override, or zero when there is none.
pub open spec fn override_or_zero(o: Option<i64>) -> i64 {
    match o {
        Some(v) => v,
        None => 0,
    }
}

/// The handshake message for the given overrides: a proposal at the
/// overridden height and round, zero where none is given.
pub open spec fn handshake_message(height: Option<i64>, round: Option<i64>) -> VoteMessage {
    VoteMessage {
        height: override_or_zero(height),
        round: override_or_zero(round),
        message_type: SignedMsgType::Proposal,
    }
}

/// `result` passes on what the signing capability answered: its value on
/// success, its error, unchanged, otherwise.
pub open spec fn passes_on(
    result: Result<Vec<u8>, InitError>,
    answer: Result<Vec<u8>, SigningError>,
) -> bool {
    match answer {
        Ok(v) => result matches Ok(w) && w@ == v@,
        Err(e) => result == Err::<Vec<u8>, InitError>(InitError::SigningError(e)),
    }
}

/// `result` reports that the chain named `chain` is not registered.
pub open spec fn chain_not_found(result: Result<Vec<u8>, InitError>, chain: Seq<char>) -> bool {
    result matches Err(InitError::ChainNotFound(n)) && n@ == chain
}

/// `r` is the report of a handshake for message `m` on chain `chain`, which
/// the registry holds when `found`: each step runs only when the one before it
/// succeeded, the bytes signed are the chain's canonical bytes for `m`, the
/// sole key is used, and the signer's answer is passed on.
pub open spec fn handshake_report(
    r: Report,
    found: bool,
    chain: Seq<char>,
    m: VoteMessage,
) -> bool {
    let ops = r.operations@;
    if !found {
        chain_not_found(r.result, chain) && ops == seq![Operation::LookUpChain]
    } else if !encodable(m) {
        r.result == Err::<Vec<u8>, InitError>(InitError::EncodingError) && ops == seq![
            Operation::LookUpChain,
            Operation::Encode(m),
        ]
    } else {
        &&& ops.len() == 3
        &&& ops[0] == Operation::LookUpChain
        &&& ops[1] == Operation::Encode(m)
        &&& (ops[2] matches Operation::Sign { key, bytes, answer } && key is None && bytes@
            == canonical_proposal_bytes(chain, m.height as int, m.round as int) && passes_on(
            r.result,
            answer,
        ))
    }
}

/// `r` is the report of an identity query on chain `chain`, which the
/// registry holds when `found`: the sole key's identity is asked for once, its
/// answer passed on, and nothing is encoded or signed.
pub open spec fn identity_report(r: Report, found: bool, chain: Seq<char>) -> bool {
    let ops = r.operations@;
    if !found {
        chain_not_found(r.result, chain) && ops == seq![Operation::LookUpChain]
    } else {
        &&& ops.len() == 2
        &&& ops[0] == Operation::LookUpChain
        &&& (ops[1] matches Operation::QueryIdentity { key, answer } && key is None && passes_on(
            r.result,
            answer,
        ))
    }
}

/// `r` reports a configuration without validators, and no step was taken.
pub open spec fn no_validator_report(r: Report) -> bool {
    r.result == Err::<Vec<u8>, InitError>(InitError::ConfigurationError) && r.operations@.len() == 0
}

/// `r` is the report of running `cmd` on the first of `validators`.
pub open spec fn init_call_report<S>(
    r: Report,
    cmd: InitCommand,
    registry: Registry<S>,
    validators: Seq<ChainId>,
) -> bool {
    if validators.len() == 0 {
        no_validator_report(r)
    } else {
        handshake_report(
            r,
            registry.contains(validators[0]@),
            validators[0]@,
            handshake_message(cmd.height, cmd.round),
        )
    }
}

/// `r` is the report of an identity query on the first of `validators`.
pub open spec fn show_call_report<S>(
    r: Report,
    registry: Registry<S>,
    validators: Seq<ChainId>,
) -> bool {
    if validators.len() == 0 {
        no_validator_report(r)
    } else {
        identity_report(r, registry.contains(validators[0]@), validators[0]@)
    }
}

/// The bytes that the third step of `r` handed to the signer, if it is a
/// signing step.
pub open spec fn signed_bytes(r: Report) -> Option<Seq<u8>> {
    if r.operations@.len() >= 3 {
        match r.operations@[2] {
            Operation::Sign { bytes, .. } => Some(bytes@),
            _ => None,
        }
    } else {
        None
    }
}

/// Two handshakes for the same message on the same chain sign the same bytes,
/// whatever backends carry them out.
pub proof fn lemma_handshake_deterministic(r1: Report, r2: Report, chain: Seq<char>, m: VoteMessage)
    requires
        handshake_report(r1, true, chain, m),
        handshake_report(r2, true, chain, m),
        encodable(m),
    ensures
        signed_bytes(r1) is Some,
        signed_bytes(r1) == signed_bytes(r2),
{
}

/// Handshakes for the same message on two different chains sign different
/// bytes: a request signed for one chain is never a request for the other.
pub proof fn lemma_handshake_chain_bound(
    r1: Report,
    r2: Report,
    a: Seq<char>,
    b: Seq<char>,
    m: VoteMessage,
)
    requires
        valid_chain_id(a),
        valid_chain_id(b),
        a != b,
        handshake_report(r1, true, a, m),
        handshake_report(r2, true, b, m),
        encodable(m),
    ensures
        signed_bytes(r1) is Some,
        signed_bytes(r2) is Some,
        signed_bytes(r1) != signed_bytes(r2),
{
    lemma_chain_binding(a, b, m);
}

/// Ends the handshake with what the signer answered: a failure is passed on,
/// never taken for success.
pub fn finish_handshake(answer: &Result<Vec<u8>, SigningError>) -> (r: Result<Vec<u8>, InitError>)
    ensures
        passes_on(r, *answer),
{
    match answer {
        Ok(sig) => Ok(sig.clone()),
        Err(e) => Err(InitError::SigningError(*e)),
    }
}

fn not_found(chain_id: &ChainId) -> (r: Result<Vec<u8>, InitError>)
    ensures
        chain_not_found(r, chain_id@),
{
    Err(InitError::ChainNotFound(chain_id.as_str().to_owned()))
}

fn override_value(o: Option<i64>) -> (r: i64)
    ensures
        r == override_or_zero(o),
{
    match o {
        Some(v) => v,
        None => 0,
    }
}

impl InitCommand {
    /// The message that seeds the device.
    pub fn vote_message(&self) -> (r: VoteMessage)
        ensures
            r == handshake_message(self.height, self.round),
    {
        VoteMessage {
            height: override_value(self.height),
            round: override_value(self.round),
            message_type: SignedMsgType::Proposal,
        }
    }

    /// Runs the handshake on `chain_id`: looks up the chain, builds the
    /// message, encodes it, and has the chain's signer sign it with its sole
    /// key. Each step runs only when the one before it succeeded.
    pub fn initialize<S: SigningCapability>(
        &self,
        registry: &Registry<S>,
        chain_id: &ChainId,
    ) -> (r: Report)
        requires
            registry.wf(),
        ensures
            handshake_report(
                r,
                registry.contains(chain_id@),
                chain_id@,
                handshake_message(self.height, self.round),
            ),
    {
        let mut operations: Vec<Operation> = Vec::new();
        operations.push(Operation::LookUpChain);
        let ctx = match registry.get_chain(chain_id) {
            Some(ctx) => ctx,
            None => {
                return Report { result: not_found(chain_id), operations };
            },
        };
        let m = self.vote_message();
        operations.push(Operation::Encode(m));
        let bytes = match sign_bytes(&m, &ctx.chain_id) {
            Ok(b) => b,
            Err(e) => {
                assert(operations@ =~= seq![Operation::LookUpChain, Operation::Encode(m)]);
                return Report { result: Err(e), operations };
            },
        };
        let answer = ctx.signer.sign(None, bytes.as_slice());
        let result = finish_handshake(&answer);
        operations.push(Operation::Sign { key: None, bytes, answer });
        Report { result, operations }
    }

    /// Runs the handshake on the first configured validator's chain; a
    /// configuration error, with no step taken, when there is no validator.
    pub fn call<S: SigningCapability>(
        &self,
        registry: &Registry<S>,
        validators: &Vec<ChainId>,
    ) -> (r: Report)
        requires
            registry.wf(),
        ensures
            init_call_report(r, *self, *registry, validators@),
    {
        if validators.len() == 0 {
            return Report { result: Err(InitError::ConfigurationError), operations: Vec::new() };
        }
        self.initialize(registry, &validators[0])
    }
}

/// Asks the signer bound to `chain_id` for its public identity. Nothing is
/// encoded and nothing is signed.
pub fn show_identity<S: SigningCapability>(
    registry: &Registry<S>,
    chain_id: &ChainId,
) -> (r: Report)
    requires
        registry.wf(),
    ensures
        identity_report(r, registry.contains(chain_id@), chain_id@),
        neither_encodes_nor_signs(r.operations@),
{
    let mut operations: Vec<Operation> = Vec::new();
    operations.push(Operation::LookUpChain);
    let ctx = match registry.get_chain(chain_id) {
        Some(ctx) => ctx,
        None => {
            return Report { result: not_found(chain_id), operations };
        },
    };
    let answer = ctx.signer.identity(None);
    let result = finish_handshake(&answer);
    operations.push(Operation::QueryIdentity { key: None, answer });
    Report { result, operations }
}

impl ShowCommand {
    /// Shows the identity of the signer of the first configured validator's
    /// chain; a configuration error, with no step taken, when there is no
    /// validator.
    pub fn call<S: SigningCapability>(
        &self,
        registry: &Registry<S>,
        validators: &Vec<ChainId>,
    ) -> (r: Report)
        requires
            registry.wf(),
        ensures
            show_call_report(r, *registry, validators@),
            neither_encodes_nor_signs(r.operations@),
    {
        if validators.len() == 0 {
            return Report { result: Err(InitError::ConfigurationError), operations: Vec::new() };
        }
        show_identity(registry, &validators[0])
    }
}

impl LedgerCommand {
    /// The configuration file that the subcommand names, if any.
    pub fn config_path(&self) -> (r: Option<&String>)
        ensures
            r matches Some(p) ==> self matches LedgerCommand::Initialise(i) && i.config == Some(*p),
            r is None ==> !(self matches LedgerCommand::Initialise(i) && i.config is Some),
    {
        match self {
            LedgerCommand::Initialise(init) => match &init.config {
                Some(p) => Some(p),
                None => None,
            },
            LedgerCommand::Show(_) => None,
        }
    }

    /// Runs the subcommand against the registry and the configured validators,
    /// exactly as the subcommand's own `call` does.
    pub fn call<S: SigningCapability>(
        &self,
        registry: &Registry<S>,
        validators: &Vec<ChainId>,
    ) -> (r: Report)
        requires
            registry.wf(),
        ensures
            self is Initialise ==> init_call_report(
                r,
                self->Initialise_0,
                *registry,
                validators@,
            ),
            self is Show ==> show_call_report(r, *registry, validators@)
                && neither_encodes_nor_signs(r.operations@),
    {
        match self {
            LedgerCommand::Initialise(init) => init.call(registry, validators),
            LedgerCommand::Show(show) => show.call(registry, validators),
        }
    }
}

} // verus!
