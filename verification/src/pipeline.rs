//! The update pipeline as a state machine.
//!
//! One run is a sequence of steps. Each step consumes the outcome of the
//! previous network action (an [`Event`]) and decides the next state and
//! the next action. The surrounding binary performs the actions; every
//! decision is made here.

use vstd::prelude::*;
use solana_sdk::address_lookup_table::AddressLookupTableAccount;
use solana_sdk::instruction::Instruction;
use solana_sdk::signer::keypair::Keypair;
use solana_sdk::transaction::VersionedTransaction;
use crate::aggregate::check_quorum;
use crate::aggregate::quorum_met;
use crate::aggregate::success_count_spec;
use crate::chain::build_update_instructions;
use crate::chain::clone_tx;
use crate::chain::compile_message;
use crate::chain::compile_of;
use crate::chain::payer_pubkey;
use crate::chain::pubkey_of;
use crate::chain::limit_directive_data;
use crate::chain::price_directive_data;
use crate::chain::sign_message;
use crate::chain::sign_of;
use crate::chain::update_instruction_list;
use crate::chain::within_wire_limits;
use crate::chain::WIRE_FIELD_MAX;
use crate::errors::CrankError;
use crate::model::Gateway;
use crate::model::OracleResponse;
use crate::registry::select_gateway;

verus! {

/// Configuration of one run, fixed for its whole lifetime.
pub struct CrankConfig {
    /// Identity that pays for and signs the update transaction.
    pub payer: Keypair,
    /// How many independent attestations to request from the gateway.
    pub num_signatures: u32,
    /// Minimum number of successful attestations for a usable update.
    pub quorum_threshold: u64,
    /// Compute-unit limit directive value.
    pub cu_limit: u32,
    /// Compute-unit price (priority fee) directive value.
    pub cu_price: u64,
}

/// Why the queue account could not be loaded.
#[derive(Clone, Copy, Debug, PartialEq, Eq, Structural)]
pub enum QueueFault {
    /// The address held no account.
    NotFound,
    /// The account data did not decode into a queue layout.
    Malformed,
}

/// What the gateway handed back for one update request.
pub struct UpdateBundle {
    /// The update instruction to land on-chain.
    pub ix: Instruction,
    /// Lookup tables the instruction's compilation depends on.
    pub luts: Vec<AddressLookupTableAccount>,
    /// The raw oracle responses, in reply order.
    pub responses: Vec<OracleResponse>,
}

/// What the simulation endpoint reported.
pub struct SimulationOutcome {
    /// The execution error, when the simulated transaction failed.
    pub err: Option<String>,
    /// Execution logs, when the endpoint returned any.
    pub logs: Vec<String>,
}

/// The outcome of one network action, handed back to the machine.
pub enum Event {
    /// Outcome of loading the queue account and resolving its members.
    QueueResolved(Result<Vec<Gateway>, QueueFault>),
    /// Outcome of the gateway attestation request; the error is the
    /// transport failure's description.
    UpdateFetched(Result<UpdateBundle, String>),
    /// Outcome of asking the ledger for a recent blockhash.
    BlockhashFetched(Result<solana_sdk::hash::Hash, String>),
    /// Outcome of the simulation endpoint; the error is a transport
    /// failure, not an execution error.
    SimulationFinished(Result<SimulationOutcome, String>),
    /// Outcome of send-and-confirm: the confirmed signature's text, or
    /// the submission failure's description.
    SubmissionFinished(Result<String, String>),
}

/// The next network action the surrounding binary must perform.
pub enum Action {
    /// Load the queue account and resolve its gateway member list.
    LoadQueue,
    /// Request attestations for the feed from this gateway.
    FetchUpdate { gateway: Gateway },
    /// Ask the ledger for a recent blockhash.
    FetchBlockhash,
    /// Simulate this transaction; no on-chain effect.
    Simulate { tx: VersionedTransaction },
    /// Send this transaction and wait for confirmation.
    SubmitAndConfirm { tx: VersionedTransaction },
    /// The run is over; report the outcome.
    Halt,
}

/// Where one run stands.
pub enum RunState {
    /// The queue account load has been requested.
    ResolvingQueue,
    /// The attestation request has been issued to the selected gateway.
    FetchingUpdate,
    /// Quorum is met; a recent blockhash has been requested.
    FetchingBlockhash { ix: Instruction, luts: Vec<AddressLookupTableAccount> },
    /// The message is compiled and signed; simulation has been requested.
    Signed { tx: VersionedTransaction },
    /// Simulation reported no error; submission has been requested.
    Submitted { tx: VersionedTransaction },
    /// Terminal: the network confirmed the transaction.
    Confirmed { signature: String },
    /// Terminal: the run failed.
    Failed { error: CrankError },
}

/// How far along a run a state stands; every step is non-decreasing.
pub open spec fn rank(s: RunState) -> int {
    match s {
        RunState::ResolvingQueue => 0,
        RunState::FetchingUpdate => 1,
        RunState::FetchingBlockhash { .. } => 2,
        RunState::Signed { .. } => 3,
        RunState::Submitted { .. } => 4,
        RunState::Confirmed { .. } => 5,
        RunState::Failed { .. } => 6,
    }
}

/// The failure text for a payload whose fields exceed the wire limit.
pub open spec fn oversize_detail() -> Seq<char> {
    "payload instruction exceeds the wire format's field length limit"@
}

/// The failure reported for such a payload, without compiling anything.
fn oversize_message() -> (s: String)
    ensures
        s@ == oversize_detail(),
{
    broadcast use vstd::string::to_string_from_display_ensures_for_str;

    "payload instruction exceeds the wire format's field length limit".to_string()
}

/// The transition relation of the pipeline: from state `s`, event `e`
/// leads to state `s2` with action `a`. Every arm is exact; the compile
/// and sign stage is pinned through the named results of the trusted
/// calls, which are deterministic in their arguments.
pub open spec fn steps_to(
    cfg: CrankConfig,
    s: RunState,
    e: Event,
    s2: RunState,
    a: Action,
) -> bool {
    match (s, e) {
        (RunState::ResolvingQueue, Event::QueueResolved(res)) => match res {
            Err(QueueFault::NotFound) => s2 == (RunState::Failed {
                error: CrankError::QueueNotFound,
            }) && a == Action::Halt,
            Err(QueueFault::Malformed) => s2 == (RunState::Failed {
                error: CrankError::QueueMalformed,
            }) && a == Action::Halt,
            Ok(gateways) => if gateways@.len() == 0 {
                s2 == (RunState::Failed { error: CrankError::EmptyQueue }) && a == Action::Halt
            } else {
                s2 == RunState::FetchingUpdate && a == (Action::FetchUpdate {
                    gateway: gateways@[0],
                })
            },
        },
        (RunState::FetchingUpdate, Event::UpdateFetched(res)) => match res {
            Err(detail) => s2 == (RunState::Failed {
                error: CrankError::GatewayUnreachable { detail },
            }) && a == Action::Halt,
            Ok(bundle) => if !quorum_met(bundle.responses@, cfg.quorum_threshold) {
                s2 == (RunState::Failed {
                    error: CrankError::NoQuorum {
                        got: success_count_spec(bundle.responses@) as u64,
                        need: cfg.quorum_threshold,
                    },
                }) && a == Action::Halt
            } else {
                s2 == (RunState::FetchingBlockhash { ix: bundle.ix, luts: bundle.luts }) && a
                    == Action::FetchBlockhash
            },
        },
        (RunState::FetchingBlockhash { ix, luts }, Event::BlockhashFetched(res)) => match res {
            Err(detail) => s2 == (RunState::Failed {
                error: CrankError::BlockhashUnavailable { detail },
            }) && a == Action::Halt,
            Ok(blockhash) => if ix.data@.len() > WIRE_FIELD_MAX || ix.accounts@.len()
                > WIRE_FIELD_MAX {
                s2 matches RunState::Failed { error } && error matches CrankError::Compile {
                    detail,
                } && detail@ == oversize_detail() && a == Action::Halt
            } else {
                match compile_of(
                    pubkey_of(cfg.payer),
                    update_instruction_list(cfg.cu_limit, cfg.cu_price, ix),
                    luts@,
                    blockhash,
                ) {
                    Err(detail) => s2 == (RunState::Failed {
                        error: CrankError::Compile { detail },
                    }) && a == Action::Halt,
                    Ok(message) => match sign_of(message, cfg.payer) {
                        Err(detail) => s2 == (RunState::Failed {
                            error: CrankError::Signing { detail },
                        }) && a == Action::Halt,
                        Ok(tx) => s2 == (RunState::Signed { tx }) && a == (Action::Simulate {
                            tx,
                        }),
                    },
                }
            },
        },
        (RunState::Signed { tx }, Event::SimulationFinished(res)) => match res {
            Err(detail) => s2 == (RunState::Failed {
                error: CrankError::SimulationUnavailable { detail },
            }) && a == Action::Halt,
            Ok(outcome) => match outcome.err {
                Some(err) => s2 == (RunState::Failed {
                    error: CrankError::SimulationRejected { err, logs: outcome.logs },
                }) && a == Action::Halt,
                None => s2 == (RunState::Submitted { tx }) && a == (Action::SubmitAndConfirm {
                    tx,
                }),
            },
        },
        (RunState::Submitted { .. }, Event::SubmissionFinished(res)) => match res {
            Ok(signature) => s2 == (RunState::Confirmed { signature }) && a == Action::Halt,
            Err(detail) => s2 == (RunState::Failed {
                error: CrankError::Submission { detail },
            }) && a == Action::Halt,
        },
        // A terminal state, or an event that does not answer the pending
        // action, moves nothing and ends the run.
        _ => s2 == s && a == Action::Halt,
    }
}

/// Start a run: the first action loads the queue.
pub fn begin() -> (r: (RunState, Action))
    ensures
        r.0 == RunState::ResolvingQueue,
        r.1 == Action::LoadQueue,
{
    (RunState::ResolvingQueue, Action::LoadQueue)
}

/// One step of the pipeline: consume the outcome of the previous action,
/// decide the next state and the next action.
pub fn step(cfg: &CrankConfig, state: RunState, event: Event) -> (r: (RunState, Action))
    ensures
        steps_to(*cfg, state, event, r.0, r.1),
{
    match (state, event) {
        (RunState::ResolvingQueue, Event::QueueResolved(res)) => match res {
            Err(QueueFault::NotFound) => (
                RunState::Failed { error: CrankError::QueueNotFound },
                Action::Halt,
            ),
            Err(QueueFault::Malformed) => (
                RunState::Failed { error: CrankError::QueueMalformed },
                Action::Halt,
            ),
            Ok(gateways) => match select_gateway(gateways) {
                Err(error) => (RunState::Failed { error }, Action::Halt),
                Ok(gateway) => (RunState::FetchingUpdate, Action::FetchUpdate { gateway }),
            },
        },
        (RunState::FetchingUpdate, Event::UpdateFetched(res)) => match res {
            Err(detail) => (
                RunState::Failed { error: CrankError::GatewayUnreachable { detail } },
                Action::Halt,
            ),
            Ok(bundle) => {
                let UpdateBundle { ix, luts, responses } = bundle;
                match check_quorum(responses, cfg.quorum_threshold) {
                    Err(error) => (RunState::Failed { error }, Action::Halt),
                    Ok(_quorum) => (
                        RunState::FetchingBlockhash { ix, luts },
                        Action::FetchBlockhash,
                    ),
                }
            },
        },
        (RunState::FetchingBlockhash { ix, luts }, Event::BlockhashFetched(res)) => match res {
            Err(detail) => (
                RunState::Failed { error: CrankError::BlockhashUnavailable { detail } },
                Action::Halt,
            ),
            Ok(blockhash) => {
                if ix.data.len() > WIRE_FIELD_MAX || ix.accounts.len() > WIRE_FIELD_MAX {
                    return (
                        RunState::Failed {
                            error: CrankError::Compile { detail: oversize_message() },
                        },
                        Action::Halt,
                    );
                }
                let instructions = build_update_instructions(cfg.cu_limit, cfg.cu_price, ix);
                let payer_key = payer_pubkey(&cfg.payer);
                proof {
                    assert(within_wire_limits(instructions@)) by {
                        assert forall|i: int| 0 <= i < instructions@.len() implies (
                        #[trigger] instructions@[i]).data@.len() <= WIRE_FIELD_MAX
                            && instructions@[i].accounts@.len() <= WIRE_FIELD_MAX by {
                            if i == 0 {
                                assert(instructions@[0].data@.len() == limit_directive_data(
                                    cfg.cu_limit,
                                ).len());
                            } else if i == 1 {
                                assert(instructions@[1].data@.len() == price_directive_data(
                                    cfg.cu_price,
                                ).len());
                            }
                        }
                    }
                }
                match compile_message(&payer_key, &instructions, &luts, blockhash) {
                    Err(detail) => (
                        RunState::Failed { error: CrankError::Compile { detail } },
                        Action::Halt,
                    ),
                    Ok(message) => match sign_message(message, &cfg.payer) {
                        Err(detail) => (
                            RunState::Failed { error: CrankError::Signing { detail } },
                            Action::Halt,
                        ),
                        Ok(tx) => {
                            let simulated = clone_tx(&tx);
                            (RunState::Signed { tx }, Action::Simulate { tx: simulated })
                        },
                    },
                }
            },
        },
        (RunState::Signed { tx }, Event::SimulationFinished(res)) => match res {
            Err(detail) => (
                RunState::Failed { error: CrankError::SimulationUnavailable { detail } },
                Action::Halt,
            ),
            Ok(outcome) => {
                let SimulationOutcome { err, logs } = outcome;
                match err {
                    Some(err) => (
                        RunState::Failed {
                            error: CrankError::SimulationRejected { err, logs },
                        },
                        Action::Halt,
                    ),
                    None => {
                        let submitted = clone_tx(&tx);
                        (
                            RunState::Submitted { tx },
                            Action::SubmitAndConfirm { tx: submitted },
                        )
                    },
                }
            },
        },
        (RunState::Submitted { tx: _ }, Event::SubmissionFinished(res)) => match res {
            Ok(signature) => (RunState::Confirmed { signature }, Action::Halt),
            Err(detail) => (
                RunState::Failed { error: CrankError::Submission { detail } },
                Action::Halt,
            ),
        },
        (other, _) => (other, Action::Halt),
    }
}

/// The outcome of a finished run: the confirmed signature or the
/// failure; nothing while the run is still under way.
pub fn outcome(state: RunState) -> (r: Option<Result<String, CrankError>>)
    ensures
        state matches RunState::Confirmed { signature } ==> r == Some(
            Ok::<String, CrankError>(signature),
        ),
        state matches RunState::Failed { error } ==> r == Some(Err::<String, CrankError>(error)),
        !(state is Confirmed) && !(state is Failed) ==> r is None,
{
    match state {
        RunState::Confirmed { signature } => Some(Ok(signature)),
        RunState::Failed { error } => Some(Err(error)),
        _ => None,
    }
}

} // verus!
