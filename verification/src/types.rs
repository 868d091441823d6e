//! Plain data types shared across the engine: identifiers, origins, errors,
//! result envelopes, events, and the action scripts that stand for what the
//! sandboxed interpreter does inside a frame.

use vstd::prelude::*;
use crate::weight::Weight;

verus! {

/// A ledger account, a contract address, or a storage-namespace id.
///
/// Contract addresses are the leading bytes of a content hash (see
/// `contract_address`); namespace ids come from a monotonic counter, so a
/// re-created contract never shares a namespace with a prior occupant.
pub type AccountId = u64;

/// An amount of the ledger's currency.
pub type Balance = u64;

/// Whether uploaded code is guaranteed to run identically on every node.
#[derive(Clone, Copy, PartialEq, Eq, Structural, Debug)]
pub enum Determinism {
    /// The code may only perform deterministic operations.
    Enforced,
    /// The code may also perform non-deterministic operations, and may only
    /// be run off-chain.
    Relaxed,
}

/// The raw dispatch origin handed to an entry point.
#[derive(Clone, Copy, PartialEq, Eq, Structural, Debug)]
pub enum RuntimeOrigin {
    /// The privileged root origin.
    Root,
    /// A transaction signed by an account.
    Signed(AccountId),
    /// Any other origin kind, never accepted here.
    Other,
}

/// The origins supported by the engine.
#[derive(Clone, Copy, PartialEq, Eq, Structural, Debug)]
pub enum Origin {
    /// The privileged root origin.
    Root,
    /// A plain account.
    Signed(AccountId),
}

/// Errors raised by the engine itself.
#[derive(Clone, Copy, PartialEq, Eq, Structural, Debug)]
pub enum Error {
    /// The executed contract exhausted its compute budget.
    OutOfGas,
    /// A balance transfer could not be performed.
    TransferFailed,
    /// A call would have exceeded the configured frame-depth limit.
    MaxCallDepthReached,
    /// No contract was found at the given address.
    ContractNotFound,
    /// Uploaded code exceeds the configured maximum length.
    CodeTooLarge,
    /// No code is stored under the given hash.
    CodeNotFound,
    /// The executed contract trapped.
    ContractTrapped,
    /// A storage value exceeds the configured maximum length.
    ValueTooLarge,
    /// A contract tried to terminate itself while also being somewhere
    /// further up the active call stack.
    TerminatedWhileReentrant,
    /// A contract with the same address already exists.
    DuplicateContract,
    /// A contract terminated itself in its own constructor.
    TerminatedInConstructor,
    /// A second top-level invocation was attempted while one was in flight.
    ReentranceDenied,
    /// The origin cannot pay the storage deposits of the invocation.
    StorageDepositNotEnoughFunds,
    /// More storage deposit was required than the caller-supplied limit.
    StorageDepositLimitExhausted,
    /// Code removal was denied because a contract still references it.
    CodeInUse,
    /// The contract ran to completion but chose to revert its effects.
    ContractReverted,
    /// Non-deterministic code was used where determinism is enforced.
    Indeterministic,
    /// A schema migration must complete before the operation can run.
    MigrationInProgress,
    /// A migration call was made but no migration step could be performed.
    NoMigrationPerformed,
    /// A monotonic counter of the engine reached its maximum value; no
    /// further namespace id or queue position can be handed out.
    CounterOverflow,
}

/// Errors at the dispatch boundary, wrapping [`Error`].
#[derive(Clone, Copy, PartialEq, Eq, Structural, Debug)]
pub enum DispatchError {
    /// The origin kind is not allowed for this operation.
    BadOrigin,
    /// The privileged root origin cannot take this role.
    RootNotAllowed,
    /// An engine error.
    Contract(Error),
}

/// Which side a failed invocation blames.
#[derive(Clone, Copy, PartialEq, Eq, Structural, Debug)]
pub enum ErrorOrigin {
    /// The caller supplied a request that could not be run.
    Caller,
    /// The callee failed while running.
    Callee,
}

/// An execution error together with the side it blames.
#[derive(Clone, Copy, PartialEq, Eq, Structural, Debug)]
pub struct ExecError {
    /// What went wrong.
    pub error: DispatchError,
    /// Who is responsible.
    pub origin: ErrorOrigin,
}

/// The output of a frame that ran to completion.
#[derive(Debug)]
pub struct ExecReturnValue {
    /// The frame asked for its effects to be rolled back.
    pub did_revert: bool,
    /// The returned payload.
    pub data: Vec<u8>,
}

/// Mathematical image of [`ExecReturnValue`].
pub ghost struct ExecReturnValueV {
    /// The frame asked for its effects to be rolled back.
    pub did_revert: bool,
    /// The returned payload.
    pub data: Seq<u8>,
}

impl View for ExecReturnValue {
    type V = ExecReturnValueV;

    open spec fn view(&self) -> ExecReturnValueV {
        ExecReturnValueV { did_revert: self.did_revert, data: self.data@ }
    }
}

impl ExecReturnValue {
    /// Whether the frame chose to roll its effects back.
    pub fn did_revert(&self) -> (r: bool)
        ensures
            r == self.did_revert,
    {
        self.did_revert
    }
}

/// Net storage-deposit movement of one invocation, seen from the origin.
#[derive(Clone, Copy, PartialEq, Eq, Structural, Debug)]
pub enum StorageDeposit {
    /// The origin owes this much additional deposit.
    Charge(Balance),
    /// This much deposit was released back to the origin.
    Refund(Balance),
}

/// Code supplied to an instantiation: fresh bytes or an existing hash.
pub enum Code {
    /// Upload these bytes first, then instantiate from them.
    Upload(Vec<u8>),
    /// Instantiate from code already stored under this hash.
    Existing(Vec<u8>),
}

/// Whether a bare entry point should report the events of the invocation.
#[derive(Clone, Copy, PartialEq, Eq, Structural, Debug)]
pub enum CollectEvents {
    /// Collect and return events.
    UnsafeCollect,
    /// Skip event collection.
    Skip,
}

/// Whether a bare entry point should collect diagnostic output.
#[derive(Clone, Copy, PartialEq, Eq, Structural, Debug)]
pub enum DebugInfo {
    /// Collect diagnostic output.
    UnsafeDebug,
    /// Skip collection of diagnostic output.
    Skip,
}

/// Events recorded by the engine, subject to the same frame-rollback
/// discipline as storage.
pub enum Event {
    /// A contract was deployed at `contract`.
    Instantiated {
        /// The account that deployed the contract.
        deployer: AccountId,
        /// The new contract's address.
        contract: AccountId,
    },
    /// A contract was removed; its balance went to the beneficiary.
    Terminated {
        /// The contract that was terminated.
        contract: AccountId,
        /// The account that received its remaining balance.
        beneficiary: AccountId,
    },
    /// Code was stored under a hash, backed by a deposit.
    CodeStored {
        /// Content hash of the stored code.
        code_hash: Vec<u8>,
        /// Deposit held from the uploader.
        deposit_held: Balance,
        /// The uploader.
        uploader: AccountId,
    },
    /// Code stored under a hash was removed and its deposit released.
    CodeRemoved {
        /// Content hash of the removed code.
        code_hash: Vec<u8>,
        /// Deposit released back to the owner.
        deposit_released: Balance,
        /// The account that requested removal.
        remover: AccountId,
    },
    /// A contract was re-bound to new code without changing address.
    ContractCodeUpdated {
        /// The contract that was updated.
        contract: AccountId,
        /// Hash of the code it is bound to now.
        new_code_hash: Vec<u8>,
        /// Hash of the code it was bound to before.
        old_code_hash: Vec<u8>,
    },
    /// A contract was called.
    Called {
        /// Who called it.
        caller: Origin,
        /// The contract that was called.
        contract: AccountId,
    },
    /// A contract emitted a custom payload.
    ContractEmitted {
        /// The emitting contract.
        contract: AccountId,
        /// The payload.
        data: Vec<u8>,
    },
}

/// Mathematical image of [`Event`].
pub ghost enum EventV {
    /// A contract was deployed.
    Instantiated { deployer: AccountId, contract: AccountId },
    /// A contract was removed.
    Terminated { contract: AccountId, beneficiary: AccountId },
    /// Code was stored.
    CodeStored { code_hash: Seq<u8>, deposit_held: Balance, uploader: AccountId },
    /// Code was removed.
    CodeRemoved { code_hash: Seq<u8>, deposit_released: Balance, remover: AccountId },
    /// A contract was re-bound to new code.
    ContractCodeUpdated { contract: AccountId, new_code_hash: Seq<u8>, old_code_hash: Seq<u8> },
    /// A contract was called.
    Called { caller: Origin, contract: AccountId },
    /// A contract emitted a payload.
    ContractEmitted { contract: AccountId, data: Seq<u8> },
}

impl View for Event {
    type V = EventV;

    open spec fn view(&self) -> EventV {
        match *self {
            Event::Instantiated { deployer, contract } => EventV::Instantiated {
                deployer,
                contract,
            },
            Event::Terminated { contract, beneficiary } => EventV::Terminated {
                contract,
                beneficiary,
            },
            Event::CodeStored { ref code_hash, deposit_held, uploader } => EventV::CodeStored {
                code_hash: code_hash@,
                deposit_held,
                uploader,
            },
            Event::CodeRemoved { ref code_hash, deposit_released, remover } => EventV::CodeRemoved {
                code_hash: code_hash@,
                deposit_released,
                remover,
            },
            Event::ContractCodeUpdated { contract, ref new_code_hash, ref old_code_hash } => (
            EventV::ContractCodeUpdated {
                contract,
                new_code_hash: new_code_hash@,
                old_code_hash: old_code_hash@,
            }),
            Event::Called { caller, contract } => EventV::Called { caller, contract },
            Event::ContractEmitted { contract, ref data } => EventV::ContractEmitted {
                contract,
                data: data@,
            },
        }
    }
}

/// How a frame's script ends.
pub enum Outcome {
    /// Run to completion, optionally asking for a rollback of this frame.
    Finish {
        /// Payload handed back to the caller.
        data: Vec<u8>,
        /// Roll this frame's effects back while still returning the payload.
        revert: bool,
    },
    /// Abort abnormally; the frame's effects are rolled back.
    Trap,
}

/// One observable step a contract takes while its frame runs.
///
/// The sandboxed interpreter is an external collaborator: the engine hands it
/// code and input and receives its effects.  A script of `Action`s stands for
/// those effects, so that the orchestration around them — metering,
/// journaling, rollback — is fully checked.
pub enum Action {
    /// Burn some of the frame's compute budget.
    Work {
        /// How much to burn.
        amount: Weight,
    },
    /// Write or clear one key of the contract's own storage namespace.
    SetStorage {
        /// The storage key.
        key: Vec<u8>,
        /// The new value, or `Option::None` to clear the key.
        value: Option<Vec<u8>>,
    },
    /// Transfer balance from the running contract to another account.
    Transfer {
        /// The receiving account.
        to: AccountId,
        /// The amount to move.
        value: Balance,
    },
    /// Call another contract (or plain account) as a child frame.
    Call {
        /// The callee.
        dest: AccountId,
        /// Balance transferred to the callee.
        value: Balance,
        /// Compute budget reserved for the child frame.
        gas_limit: Weight,
        /// On child failure: fail this frame too (`true`) or absorb the
        /// failure and continue (`false`).
        propagate: bool,
        /// What the callee does.
        plan: CallPlan,
    },
    /// Instantiate a new contract from stored code as a child frame.
    Instantiate {
        /// Content hash of the code to bind the new contract to.
        code_hash: Vec<u8>,
        /// Endowment transferred to the new contract.
        endowment: Balance,
        /// Compute budget reserved for the constructor frame.
        gas_limit: Weight,
        /// Constructor input, entering the address derivation.
        input: Vec<u8>,
        /// Salt entering the address derivation.
        salt: Vec<u8>,
        /// On child failure: fail this frame too (`true`) or absorb the
        /// failure and continue (`false`).
        propagate: bool,
        /// What the constructor does.
        plan: CallPlan,
    },
    /// Remove the running contract, sending its balance to `beneficiary`.
    Terminate {
        /// Receiver of the contract's remaining balance.
        beneficiary: AccountId,
    },
    /// Emit a custom event payload.
    Emit {
        /// The payload.
        data: Vec<u8>,
    },
    /// Attempt a second top-level invocation through an indirect dispatch
    /// path while this one is still in flight.
    Reenter {
        /// On denial: fail this frame too (`true`) or continue (`false`).
        propagate: bool,
    },
}

/// The script of one frame: its steps and how it ends.
pub struct CallPlan {
    /// The steps, run in order.
    pub actions: Vec<Action>,
    /// How the frame ends if no step fails first.
    pub outcome: Outcome,
}

/// Result envelope of a bare call or instantiation.
pub struct ContractResult<R> {
    /// Compute spent by the invocation, also when it failed.
    pub gas_consumed: Weight,
    /// Compute the invocation needed.
    pub gas_required: Weight,
    /// Net storage-deposit movement of the invocation.
    pub storage_deposit: StorageDeposit,
    /// Diagnostic output, when it was requested.
    pub debug_message: Vec<u8>,
    /// The outcome.
    pub result: Result<R, DispatchError>,
    /// The recorded events, when collection was requested.
    pub events: Option<Vec<Event>>,
}

/// Successful instantiation: the new address and the constructor's output.
#[derive(Debug)]
pub struct InstantiateReturnValue {
    /// Address of the new contract.
    pub account_id: AccountId,
    /// Output of the constructor frame.
    pub result: ExecReturnValue,
}

/// Successful code upload: the content hash and the deposit held.
#[derive(Debug)]
pub struct CodeUploadReturnValue {
    /// Content hash of the stored code.
    pub code_hash: Vec<u8>,
    /// Deposit held from the uploader (zero when the code already existed).
    pub deposit: Balance,
}

/// Weight/fee information returned by a successful dispatch.
#[derive(Clone, Copy, PartialEq, Eq, Structural, Debug)]
pub struct PostInfo {
    /// The weight actually spent.
    pub actual_weight: Weight,
    /// Whether the caller pays the dispatch fee.
    pub pays_fee: bool,
}

/// A failed dispatch still reports the weight it spent.
#[derive(Clone, Copy, PartialEq, Eq, Structural, Debug)]
pub struct DispatchErrorWithPostInfo {
    /// The weight actually spent.
    pub post_info: PostInfo,
    /// Why the dispatch failed.
    pub error: DispatchError,
}

/// Outcome of a dispatched entry point.
pub type DispatchResultWithPostInfo = Result<PostInfo, DispatchErrorWithPostInfo>;

/// Errors of the raw storage-reading entry point.
#[derive(Clone, Copy, PartialEq, Eq, Structural, Debug)]
pub enum ContractAccessError {
    /// The address does not hold a contract.
    DoesntExist,
    /// The supplied key cannot be a storage key.
    KeyDecodingFailed,
    /// A schema migration is in progress.
    MigrationInProgress,
}

/// Marker that carries one configurable type into the engine's metadata,
/// so offchain tooling can read which concrete types a deployment uses.
#[verifier::reject_recursive_types(T)]
pub struct EnvironmentType<T>(pub core::marker::PhantomData<T>);

/// The configurable types used in the communication between the engine and
/// any given contract.  Values of this type carry no data; the type alone
/// appears in metadata.
pub struct Environment {
    /// The account-id type.
    pub account_id: EnvironmentType<AccountId>,
    /// The balance type.
    pub balance: EnvironmentType<Balance>,
    /// The code-hash type.
    pub hash: EnvironmentType<Vec<u8>>,
    /// The timestamp type.
    pub timestamp: EnvironmentType<u64>,
    /// The block-number type.
    pub block_number: EnvironmentType<u64>,
}

/// Why the engine holds funds on the ledger.
#[derive(Clone, Copy, PartialEq, Eq, Structural, Debug)]
pub enum HoldReason {
    /// Reserved for storing code on-chain.
    CodeUploadDepositReserve,
    /// Reserved as storage deposit.
    StorageDepositReserve,
}

/// Progress report of one `migrate` round.
#[derive(Clone, Copy, PartialEq, Eq, Structural, Debug)]
pub enum MigrateResult {
    /// No migration cursor is present.
    NoMigrationInProgress,
    /// The budget did not allow performing any step.
    NoMigrationPerformed,
    /// Steps were (possibly) performed and more remain.
    InProgress {
        /// How many steps this round performed.
        steps_done: u64,
    },
    /// The migration ran to completion and the cursor was cleared.
    Completed,
}

} // verus!
