//! The execution stack: configuration, balance transfers, metered storage
//! writes, and the depth-bounded transactional frames in which contract
//! scripts run.

use vstd::prelude::*;
use crate::deposit::{StorageMeter, DEPOSIT_CEIL, DEPOSIT_FLOOR};
use crate::hashing::{account_from_hash, blake2_256, encode_address_parts};
use crate::kv::{copy_bytes, KvMap};
use crate::state::{CodeRec, CodeRecV, ContractInfo, ContractInfoV, World, WorldV};
use crate::types::{
    AccountId, Action, Balance, CallPlan, Determinism, Error, Event, EventV, ExecReturnValue,
    Origin, Outcome,
};
use crate::weight::{GasMeter, Weight};

verus! {

/// The engine's constants, fixed when the engine is created.
#[derive(Clone, Copy, PartialEq, Eq, Structural, Debug)]
pub struct Config {
    /// Deepest frame index allowed; the root frame has index zero.
    pub max_call_depth: u64,
    /// Longest code blob accepted by the registry.
    pub max_code_len: u64,
    /// Longest storage key accepted.
    pub max_storage_key_len: u64,
    /// Longest storage value accepted.
    pub max_value_len: u64,
    /// Deposit owed per stored item.
    pub deposit_per_item: Balance,
    /// Deposit owed per stored byte.
    pub deposit_per_byte: Balance,
    /// Deposit owed for a contract account's own record.
    pub contract_deposit: Balance,
    /// Storage-deposit allowance used when the caller supplies none.
    pub default_deposit_limit: Balance,
    /// Smallest balance an account can be created with.
    pub min_balance: Balance,
    /// Number of steps the configured migration sequence has.
    pub migration_steps: u64,
    /// Weight of one migration step.
    pub migration_step_weight: Weight,
    /// Weight of reclaiming one storage namespace.
    pub deletion_base_weight: Weight,
    /// Memory available to the runtime, in bytes.
    pub runtime_memory: u64,
    /// Memory available to a validating node, in bytes.
    pub validator_runtime_memory: u64,
    /// Largest heap a single executing contract may use, in bytes.
    pub max_heap_size: u64,
    /// Largest transient storage a single invocation may use, in bytes.
    pub max_transient_storage_size: u64,
    /// Largest diagnostic buffer, in bytes.
    pub max_debug_buffer_len: u64,
    /// Compute budget of one block.
    pub block_ref_time: u64,
    /// Largest payload of a storage write or an event.
    pub payload_len: u64,
    /// Base compute cost of a storage write.
    pub set_storage_weight_base: u64,
    /// Per-byte compute cost of a storage write.
    pub set_storage_weight_byte: u64,
    /// Base compute cost of recording an event.
    pub deposit_event_weight_base: u64,
    /// Per-byte compute cost of recording an event.
    pub deposit_event_weight_byte: u64,
}

impl Config {
    /// Bounds under which all deposit arithmetic stays inside `u64`.
    pub open spec fn wf(self) -> bool {
        &&& self.deposit_per_item <= 0xFFFF_FFFF
        &&& self.deposit_per_byte <= 0xFFFF_FFFF
        &&& self.contract_deposit <= 0xFFFF_FFFF
        &&& self.max_code_len <= 0xFFFF_FFFF
        &&& self.max_storage_key_len <= 0xFFFF_FFFF
        &&& self.max_value_len <= 0xFFFF_FFFF
    }
}

/// Deposit owed for one stored item of `len` bytes.
pub open spec fn item_deposit(cfg: Config, len: int) -> int {
    cfg.deposit_per_item + cfg.deposit_per_byte * len
}

proof fn lemma_item_deposit_bounds(cfg: Config, len: int)
    requires
        cfg.wf(),
        0 <= len <= cfg.max_value_len || 0 <= len <= cfg.max_code_len,
    ensures
        0 <= item_deposit(cfg, len) < 0x1_0000_0000_0000_0000,
{
    assert(cfg.deposit_per_byte * len <= 0xFFFF_FFFF * 0xFFFF_FFFF) by (nonlinear_arith)
        requires
            0 <= len <= 0xFFFF_FFFF,
            0 <= cfg.deposit_per_byte <= 0xFFFF_FFFF,
    ;
}

/// Computes [`item_deposit`] in machine integers.
pub fn calc_item_deposit(cfg: &Config, len: u64) -> (r: u64)
    requires
        cfg.wf(),
        len <= cfg.max_value_len || len <= cfg.max_code_len,
    ensures
        r == item_deposit(*cfg, len as int),
{
    proof {
        lemma_item_deposit_bounds(*cfg, len as int);
    }
    cfg.deposit_per_item + cfg.deposit_per_byte * len
}

/// Whether a transfer of `amount` from `from` to `to` can be performed:
/// the sender must hold the amount, and the receiver must either exist
/// (and not overflow) or be creatable with at least the minimum balance.
/// A zero transfer always succeeds and touches nothing.
pub open spec fn can_transfer(
    w: WorldV,
    min_balance: Balance,
    from: AccountId,
    to: AccountId,
    amount: Balance,
) -> bool {
    if amount == 0 {
        true
    } else {
        &&& w.balances.contains_key(from)
        &&& w.balances[from] >= amount
        &&& if from == to {
            true
        } else if w.balances.contains_key(to) {
            w.balances[to] + amount <= u64::MAX
        } else {
            amount >= min_balance
        }
    }
}

/// The balance table after a transfer that [`can_transfer`] allows.
pub open spec fn balances_after_transfer(
    b: Map<AccountId, Balance>,
    from: AccountId,
    to: AccountId,
    amount: Balance,
) -> Map<AccountId, Balance> {
    if amount == 0 || from == to {
        b
    } else {
        b.insert(from, (b[from] - amount) as u64).insert(
            to,
            if b.contains_key(to) {
                (b[to] + amount) as u64
            } else {
                amount
            },
        )
    }
}

/// Moves `amount` from `from` to `to`, or does nothing and reports `false`
/// when [`can_transfer`] does not allow it.
pub fn do_transfer(
    cfg: &Config,
    world: &mut World,
    from: AccountId,
    to: AccountId,
    amount: Balance,
) -> (r: bool)
    ensures
        r == can_transfer(old(world)@, cfg.min_balance, from, to, amount),
        r ==> final(world)@ == (WorldV {
            balances: balances_after_transfer(old(world)@.balances, from, to, amount),
            ..old(world)@
        }),
        !r ==> final(world)@ == old(world)@,
        old(world).wf() ==> final(world).wf(),
        forall|cfg2: Config|
            storage_bounded(old(world)@, cfg2) ==> #[trigger] storage_bounded(final(world)@, cfg2),
{
    let ghost w0 = world@;
    if amount == 0 {
        proof {
            assert(world@ == (WorldV {
                balances: balances_after_transfer(w0.balances, from, to, amount),
                ..w0
            }));
        }
        return true;
    }
    let from_bal: u64 = match world.balances.get(&from) {
        Some(b) => *b,
        Option::None => {
            return false;
        },
    };
    if from_bal < amount {
        return false;
    }
    if from == to {
        proof {
            assert(world@ == (WorldV {
                balances: balances_after_transfer(w0.balances, from, to, amount),
                ..w0
            }));
        }
        return true;
    }
    let to_bal: Option<u64> = match world.balances.get(&to) {
        Some(b) => Some(*b),
        Option::None => Option::None,
    };
    match to_bal {
        Some(tb) => {
            if tb > u64::MAX - amount {
                return false;
            }
            world.balances.insert(from, from_bal - amount);
            world.balances.insert(to, tb + amount);
        },
        Option::None => {
            if amount < cfg.min_balance {
                return false;
            }
            world.balances.insert(from, from_bal - amount);
            world.balances.insert(to, amount);
        },
    }
    proof {
        assert(world@ == (WorldV {
            balances: balances_after_transfer(w0.balances, from, to, amount),
            ..w0
        }));
        if old(world).wf() {
            World::lemma_wf_parts(*world, *old(world));
        }
        assert forall|cfg2: Config| storage_bounded(old(world)@, cfg2) implies #[trigger]
            storage_bounded(world@, cfg2) by {
            lemma_storage_bounded_parts(world@, old(world)@, cfg2);
        }
    }
    true
}

/// The storage namespace under id `tid`, empty when none is recorded.
pub open spec fn trie_of(w: WorldV, tid: u64) -> Map<Seq<u8>, Seq<u8>> {
    if w.tries.contains_key(tid) {
        w.tries[tid]
    } else {
        Map::empty()
    }
}

/// Every stored value respects the configured maximum length.
pub open spec fn storage_bounded(w: WorldV, cfg: Config) -> bool {
    forall|t: u64|
        #[trigger] w.tries.contains_key(t) ==> forall|k: Seq<u8>|
            #[trigger] w.tries[t].contains_key(k) ==> w.tries[t][k].len() <= cfg.max_value_len
}

/// Value boundedness depends only on the namespaces.
pub proof fn lemma_storage_bounded_parts(w2: WorldV, w1: WorldV, cfg: Config)
    requires
        storage_bounded(w1, cfg),
        w2.tries == w1.tries,
    ensures
        storage_bounded(w2, cfg),
{
    assert forall|t: u64| #[trigger] w2.tries.contains_key(t) implies (forall|k: Seq<u8>|
        #[trigger] w2.tries[t].contains_key(k) ==> w2.tries[t][k].len()
            <= cfg.max_value_len) by {
        assert(w1.tries.contains_key(t));
    }
}

/// Deposit currently held for the entry under `key` of namespace `tid`.
pub open spec fn entry_deposit(cfg: Config, w: WorldV, tid: u64, key: Seq<u8>) -> int {
    if trie_of(w, tid).contains_key(key) {
        item_deposit(cfg, trie_of(w, tid)[key].len() as int)
    } else {
        0
    }
}

/// Deposit a new value will hold: zero for a deletion.
pub open spec fn value_deposit(cfg: Config, value: Option<Seq<u8>>) -> int {
    match value {
        Some(v) => item_deposit(cfg, v.len() as int),
        None => 0,
    }
}

/// The namespace after writing or clearing `key`.
pub open spec fn trie_after_write(
    t: Map<Seq<u8>, Seq<u8>>,
    key: Seq<u8>,
    value: Option<Seq<u8>>,
) -> Map<Seq<u8>, Seq<u8>> {
    match value {
        Some(v) => t.insert(key, v),
        None => t.remove(key),
    }
}

/// Deposit held by a contract after a signed adjustment, clamped to `u64`
/// from below (an over-release cannot make the held amount negative).
pub open spec fn held_after(held: Balance, delta: int) -> int {
    if held + delta < 0 {
        0
    } else {
        held + delta
    }
}

/// Writes or clears one key of the contract's own storage namespace,
/// charging the deposit delta to the frame's sub-ledger and adjusting the
/// contract's held deposit.  On any failure, nothing changes.
pub fn do_set_storage(
    cfg: &Config,
    world: &mut World,
    sm: &mut StorageMeter,
    self_addr: AccountId,
    key: &Vec<u8>,
    value: Option<Vec<u8>>,
) -> (r: Result<(), Error>)
    requires
        cfg.wf(),
        old(world).wf(),
        storage_bounded(old(world)@, *cfg),
        old(world)@.contracts.contains_key(self_addr),
        old(sm).inv(),
    ensures
        final(world).wf(),
        storage_bounded(final(world)@, *cfg),
        final(sm).inv(),
        final(sm).limit == old(sm).limit,
        ({
            let tid = old(world)@.contracts[self_addr].trie_id;
            let delta = value_deposit(*cfg, match value {
                Some(ref v) => Some(v@),
                None => None,
            }) - entry_deposit(*cfg, old(world)@, tid, key@);
            let held2 = held_after(old(world)@.contracts[self_addr].deposit_held, delta);
            if key@.len() > cfg.max_storage_key_len {
                r == Err::<(), Error>(Error::ValueTooLarge) && final(world)@ == old(world)@
                    && final(sm).net == old(sm).net
            } else if (match value {
                Some(ref v) => v@.len() > cfg.max_value_len,
                None => false,
            }) {
                r == Err::<(), Error>(Error::ValueTooLarge) && final(world)@ == old(world)@
                    && final(sm).net == old(sm).net
            } else if held2 > u64::MAX {
                r == Err::<(), Error>(Error::StorageDepositLimitExhausted) && final(world)@ == old(
                    world,
                )@ && final(sm).net == old(sm).net
            } else if !(DEPOSIT_FLOOR <= old(sm).net + delta <= old(sm).limit) {
                r == Err::<(), Error>(Error::StorageDepositLimitExhausted) && final(world)@ == old(
                    world,
                )@ && final(sm).net == old(sm).net
            } else {
                r is Ok && final(sm).net == old(sm).net + delta && final(world)@ == (WorldV {
                    contracts: old(world)@.contracts.insert(
                        self_addr,
                        ContractInfoV {
                            deposit_held: held2 as u64,
                            ..old(world)@.contracts[self_addr]
                        },
                    ),
                    tries: old(world)@.tries.insert(
                        tid,
                        trie_after_write(trie_of(old(world)@, tid), key@, match value {
                            Some(ref v) => Some(v@),
                            None => None,
                        }),
                    ),
                    ..old(world)@
                })
            }
        }),
{
    let ghost w0 = world@;
    if (key.len() as u64) > cfg.max_storage_key_len {
        return Err(Error::ValueTooLarge);
    }
    let new_dep: u64 = match value {
        Some(ref v) => {
            if (v.len() as u64) > cfg.max_value_len {
                return Err(Error::ValueTooLarge);
            }
            calc_item_deposit(cfg, v.len() as u64)
        },
        Option::None => 0,
    };
    // Read the contract record and the current entry.
    let info: &ContractInfo = match world.contracts.get(&self_addr) {
        Some(c) => c,
        Option::None => {
            return Err(Error::ContractNotFound);  // unreachable under the precondition
        },
    };
    let tid: u64 = info.trie_id;
    let held: u64 = info.deposit_held;
    let old_dep: u64 = match world.tries.get(&tid) {
        Some(t) => match t.get(key) {
            Some(v) => calc_item_deposit(cfg, v.len() as u64),
            Option::None => 0,
        },
        Option::None => 0,
    };
    let delta: i128 = (new_dep as i128) - (old_dep as i128);
    let held2_wide: i128 = (held as i128) + delta;
    let held2: u64 = if held2_wide < 0 {
        0u64
    } else if held2_wide > u64::MAX as i128 {
        return Err(Error::StorageDepositLimitExhausted);
    } else {
        held2_wide as u64
    };
    if !sm.charge(delta) {
        return Err(Error::StorageDepositLimitExhausted);
    }
    // Apply: contract record, then the namespace itself.
    let mut info2: ContractInfo = match world.contracts.take(&self_addr) {
        Some(c) => c,
        Option::None => {
            return Err(Error::ContractNotFound);  // unreachable: presence was just checked
        },
    };
    info2.deposit_held = held2;
    world.contracts.insert(self_addr, info2);
    let mut trie: KvMap<Vec<u8>, Vec<u8>> = match world.tries.take(&tid) {
        Some(t) => t,
        Option::None => KvMap::new(),
    };
    match value {
        Some(v) => {
            trie.insert(copy_bytes(key), v);
        },
        Option::None => {
            trie.remove(key);
        },
    }
    world.tries.insert(tid, trie);
    proof {
        let tid0 = w0.contracts[self_addr].trie_id;
        assert(tid == tid0);
        assert(world@.tries =~= w0.tries.insert(
            tid0,
            trie_after_write(trie_of(w0, tid0), key@, match value {
                Some(ref v) => Some(v@),
                None => None,
            }),
        ));
        assert(world@.contracts =~= w0.contracts.insert(
            self_addr,
            ContractInfoV { deposit_held: held2, ..w0.contracts[self_addr] },
        ));
        assert(world@ == (WorldV {
            contracts: world@.contracts,
            tries: world@.tries,
            ..w0
        }));
        // Well-formedness: the touched namespace belongs to the contract and
        // its id is below the counter; nothing else moved.
        assert(world.wf()) by {
            assert(forall|t: u64| #[trigger]
                world@.tries.contains_key(t) ==> t == tid0 || w0.tries.contains_key(t));
            assert(forall|a: AccountId| #[trigger]
                world@.contracts.contains_key(a) ==> w0.contracts.contains_key(a)
                    && world@.contracts[a].trie_id == w0.contracts[a].trie_id);
        }
    }
    Ok(())
}

} // verus!

verus! {

/// The weight value zero.
pub open spec fn zero_weight() -> Weight {
    Weight { ref_time: 0, proof_size: 0 }
}

/// Whether the callee's bound code can be resolved in the registry.
pub open spec fn code_resolvable(w: WorldV, dest: AccountId) -> bool {
    w.codes.contains_key(w.contracts[dest].code_hash)
}

/// Whether the callee's code may run under the frame's determinism mode:
/// relaxed code only runs in a relaxed frame.
pub open spec fn det_ok(w: WorldV, dest: AccountId, det: Determinism) -> bool {
    det == Determinism::Relaxed || w.codes[w.contracts[dest].code_hash].determinism
        == Determinism::Enforced
}

/// Whether the value transfer into the frame can be performed: a frame
/// without a paying account (the privileged origin) can only carry value
/// zero.
pub open spec fn entry_transfer_ok(
    w: WorldV,
    min_balance: Balance,
    from: Option<AccountId>,
    dest: AccountId,
    value: Balance,
) -> bool {
    match from {
        Some(f) => can_transfer(w, min_balance, f, dest, value),
        None => value == 0,
    }
}

/// A contract that a pure call chain can run against.
pub open spec fn chain_target_ok(w: WorldV, dest: AccountId, det: Determinism) -> bool {
    &&& w.contracts.contains_key(dest)
    &&& code_resolvable(w, dest)
    &&& det_ok(w, dest, det)
}

/// A plan that does nothing but call `dest` again, propagating failure,
/// and finish cleanly: the worst-case recursion for the depth bound.
pub open spec fn is_call_chain(plan: CallPlan, dest: AccountId) -> bool
    decreases plan,
{
    &&& match plan.outcome {
        Outcome::Finish { data, revert } => data@.len() == 0 && !revert,
        Outcome::Trap => false,
    }
    &&& if plan.actions@.len() == 0 {
        true
    } else {
        plan.actions@.len() == 1 && match plan.actions@[0] {
            Action::Call { dest: d2, value, gas_limit, propagate, plan: p2 } => {
                &&& d2 == dest
                &&& value == 0
                &&& gas_limit == zero_weight()
                &&& propagate
                &&& is_call_chain(p2, dest)
            },
            _ => false,
        }
    }
}

/// How many nested sub-calls a pure call chain makes.
pub open spec fn chain_len(plan: CallPlan, dest: AccountId) -> int
    decreases plan,
{
    if plan.actions@.len() == 0 {
        0
    } else {
        match plan.actions@[0] {
            Action::Call { plan: p2, .. } => 1 + chain_len(p2, dest),
            _ => 0,
        }
    }
}

/// A script segment free of sub-calls and sub-instantiations: every step
/// acts on the frame's own world directly.
pub open spec fn is_flat(actions: Seq<Action>, i: int) -> bool {
    forall|j: int|
        i <= j < actions.len() ==> !((#[trigger] actions[j]) is Call) && !(actions[j]
            is Instantiate)
}

/// The state a frame's script works on: the world, the frame sub-ledger's
/// running net charge, the frame meter's consumption, and how the steps so
/// far ended.
pub ghost struct FlatOut {
    /// The world after the steps.
    pub w: WorldV,
    /// The frame sub-ledger's net charge after the steps.
    pub net: int,
    /// The frame meter's consumption after the steps.
    pub gas_consumed: Weight,
    /// `Ok(true)`: the contract terminated itself; `Ok(false)`: every step
    /// ran; `Err`: the step that failed, its predecessors' effects left in
    /// place for the frame to roll back.
    pub result: Result<bool, Error>,
}

/// The world after a contract removes itself: its balance moved to the
/// beneficiary, its record gone, its code unbound, its namespace queued,
/// the event recorded.
pub open spec fn terminated_world(
    w: WorldV,
    self_addr: AccountId,
    beneficiary: AccountId,
) -> WorldV {
    let bal = if w.balances.contains_key(self_addr) {
        w.balances[self_addr]
    } else {
        0
    };
    let ch = w.contracts[self_addr].code_hash;
    WorldV {
        balances: balances_after_transfer(w.balances, self_addr, beneficiary, bal),
        contracts: w.contracts.remove(self_addr),
        codes: if w.codes.contains_key(ch) {
            w.codes.insert(
                ch,
                CodeRecV {
                    refcount: if w.codes[ch].refcount > 0 {
                        (w.codes[ch].refcount - 1) as u64
                    } else {
                        0
                    },
                    ..w.codes[ch]
                },
            )
        } else {
            w.codes
        },
        events: w.events.push(
            EventV::Terminated { contract: self_addr, beneficiary },
        ),
        queue: crate::state::DeletionQueueV {
            insert_counter: (w.queue.insert_counter + 1) as u64,
            pending: w.queue.pending.push(w.contracts[self_addr].trie_id),
            ..w.queue
        },
        ..w
    }
}

/// What a call-free script does, step by step: the spec-level fold that
/// [`exec_actions`] is proved to compute for every such script.  Each arm
/// mirrors one action exactly — its checks in order, its effect, and the
/// partial effects a failing step leaves for the enclosing frame to roll
/// back.
pub open spec fn run_flat(
    cfg: Config,
    active: Seq<AccountId>,
    self_addr: AccountId,
    in_constructor: bool,
    gas_limit: Weight,
    gas_consumed: Weight,
    sm_limit: int,
    net: int,
    w: WorldV,
    actions: Seq<Action>,
    i: int,
) -> FlatOut
    decreases actions.len() - i,
{
    if i < 0 || i >= actions.len() {
        FlatOut { w, net, gas_consumed, result: Ok(false) }
    } else {
        match actions[i] {
            Action::Work { amount } => {
                if amount.spec_fits(gas_limit.spec_sub(gas_consumed)) {
                    run_flat(
                        cfg,
                        active,
                        self_addr,
                        in_constructor,
                        gas_limit,
                        gas_consumed.spec_add(amount),
                        sm_limit,
                        net,
                        w,
                        actions,
                        i + 1,
                    )
                } else {
                    FlatOut { w, net, gas_consumed: gas_limit, result: Err(Error::OutOfGas) }
                }
            },
            Action::SetStorage { key, value } => {
                let vv = match value {
                    Some(v) => Some(v@),
                    None => None,
                };
                let tid = w.contracts[self_addr].trie_id;
                let delta = value_deposit(cfg, vv) - entry_deposit(cfg, w, tid, key@);
                let held2 = held_after(w.contracts[self_addr].deposit_held, delta);
                if key@.len() > cfg.max_storage_key_len {
                    FlatOut { w, net, gas_consumed, result: Err(Error::ValueTooLarge) }
                } else if (match value {
                    Some(v) => v@.len() > cfg.max_value_len,
                    None => false,
                }) {
                    FlatOut { w, net, gas_consumed, result: Err(Error::ValueTooLarge) }
                } else if held2 > u64::MAX {
                    FlatOut {
                        w,
                        net,
                        gas_consumed,
                        result: Err(Error::StorageDepositLimitExhausted),
                    }
                } else if !(DEPOSIT_FLOOR <= net + delta <= sm_limit) {
                    FlatOut {
                        w,
                        net,
                        gas_consumed,
                        result: Err(Error::StorageDepositLimitExhausted),
                    }
                } else {
                    run_flat(
                        cfg,
                        active,
                        self_addr,
                        in_constructor,
                        gas_limit,
                        gas_consumed,
                        sm_limit,
                        net + delta,
                        WorldV {
                            contracts: w.contracts.insert(
                                self_addr,
                                ContractInfoV {
                                    deposit_held: held2 as u64,
                                    ..w.contracts[self_addr]
                                },
                            ),
                            tries: w.tries.insert(tid, trie_after_write(trie_of(w, tid), key@, vv)),
                            ..w
                        },
                        actions,
                        i + 1,
                    )
                }
            },
            Action::Transfer { to, value } => {
                if can_transfer(w, cfg.min_balance, self_addr, to, value) {
                    run_flat(
                        cfg,
                        active,
                        self_addr,
                        in_constructor,
                        gas_limit,
                        gas_consumed,
                        sm_limit,
                        net,
                        WorldV {
                            balances: balances_after_transfer(w.balances, self_addr, to, value),
                            ..w
                        },
                        actions,
                        i + 1,
                    )
                } else {
                    FlatOut { w, net, gas_consumed, result: Err(Error::TransferFailed) }
                }
            },
            Action::Emit { data } => run_flat(
                cfg,
                active,
                self_addr,
                in_constructor,
                gas_limit,
                gas_consumed,
                sm_limit,
                net,
                WorldV {
                    events: w.events.push(
                        EventV::ContractEmitted { contract: self_addr, data: data@ },
                    ),
                    ..w
                },
                actions,
                i + 1,
            ),
            Action::Terminate { beneficiary } => {
                let bal = if w.balances.contains_key(self_addr) {
                    w.balances[self_addr]
                } else {
                    0
                };
                let held = w.contracts[self_addr].deposit_held;
                if in_constructor {
                    FlatOut { w, net, gas_consumed, result: Err(Error::TerminatedInConstructor) }
                } else if active.contains(self_addr) {
                    FlatOut {
                        w,
                        net,
                        gas_consumed,
                        result: Err(Error::TerminatedWhileReentrant),
                    }
                } else if w.queue.insert_counter == u64::MAX {
                    FlatOut { w, net, gas_consumed, result: Err(Error::CounterOverflow) }
                } else if !can_transfer(w, cfg.min_balance, self_addr, beneficiary, bal) {
                    FlatOut { w, net, gas_consumed, result: Err(Error::TransferFailed) }
                } else if !(DEPOSIT_FLOOR <= net - held <= sm_limit) {
                    FlatOut {
                        w: WorldV {
                            balances: balances_after_transfer(
                                w.balances,
                                self_addr,
                                beneficiary,
                                bal,
                            ),
                            ..w
                        },
                        net,
                        gas_consumed,
                        result: Err(Error::StorageDepositLimitExhausted),
                    }
                } else {
                    FlatOut {
                        w: terminated_world(w, self_addr, beneficiary),
                        net: net - held,
                        gas_consumed,
                        result: Ok(true),
                    }
                }
            },
            Action::Reenter { propagate } => {
                if propagate {
                    FlatOut { w, net, gas_consumed, result: Err(Error::ReentranceDenied) }
                } else {
                    run_flat(
                        cfg,
                        active,
                        self_addr,
                        in_constructor,
                        gas_limit,
                        gas_consumed,
                        sm_limit,
                        net,
                        w,
                        actions,
                        i + 1,
                    )
                }
            },
            _ => FlatOut { w, net, gas_consumed, result: Ok(false) },
        }
    }
}

/// Whether `a` is one of the addresses in `v`.
fn contains_account(v: &Vec<AccountId>, a: AccountId) -> (r: bool)
    ensures
        r == v@.contains(a),
{
    let mut i: usize = 0;
    let n = v.len();
    while i < n
        invariant
            n == v@.len(),
            i <= n,
            forall|j: int| 0 <= j < i ==> v@[j] != a,
        decreases n - i,
    {
        if v[i] == a {
            return true;
        }
        i += 1;
    }
    proof {
        assert(!v@.contains(a));
    }
    false
}

/// A copy of `v` with `a` appended: the active stack of a child frame.
fn push_account(v: &Vec<AccountId>, a: AccountId) -> (r: Vec<AccountId>)
    ensures
        r@ == v@.push(a),
{
    let mut r: Vec<AccountId> = Vec::new();
    let mut i: usize = 0;
    let n = v.len();
    while i < n
        invariant
            n == v@.len(),
            i <= n,
            r@ == v@.subrange(0, i as int),
        decreases n - i,
    {
        r.push(v[i]);
        proof {
            assert(r@ =~= v@.subrange(0, i + 1 as int));
        }
        i += 1;
    }
    r.push(a);
    proof {
        assert(r@ =~= v@.push(a));
    }
    r
}

/// An empty, non-reverting frame output.
fn empty_return() -> (r: ExecReturnValue)
    ensures
        !r.did_revert,
        r.data@.len() == 0,
{
    ExecReturnValue { did_revert: false, data: Vec::new() }
}

} // verus!

verus! {

/// Appends an event to the log; the log is rolled back with its frame.
pub(crate) fn push_event(world: &mut World, e: Event)
    ensures
        final(world)@ == (WorldV { events: old(world)@.events.push(e@), ..old(world)@ }),
        old(world).wf() ==> final(world).wf(),
        forall|cfg2: Config|
            storage_bounded(old(world)@, cfg2) ==> #[trigger] storage_bounded(final(world)@, cfg2),
{
    world.events.push(e);
    proof {
        assert(world@.events =~= old(world)@.events.push(e@));
        assert(world@ == (WorldV { events: old(world)@.events.push(e@), ..old(world)@ }));
        if old(world).wf() {
            World::lemma_wf_parts(*world, *old(world));
        }
        assert forall|cfg2: Config| storage_bounded(old(world)@, cfg2) implies #[trigger]
            storage_bounded(world@, cfg2) by {
            lemma_storage_bounded_parts(world@, old(world)@, cfg2);
        }
    }
}

/// Runs the actions of one frame, starting at index `i`.
///
/// Returns `Ok(true)` when the contract terminated itself (the frame ends
/// successfully at once), `Ok(false)` when all actions ran, and `Err` when
/// one failed.  Failed actions leave their partial effects in place: the
/// enclosing [`run_call_frame`] rolls the whole frame back.
#[verifier::rlimit(100)]
pub fn exec_actions(
    cfg: &Config,
    world: &mut World,
    active: &Vec<AccountId>,
    depth: u64,
    self_addr: AccountId,
    in_constructor: bool,
    gas: &mut GasMeter,
    sm: &mut StorageMeter,
    actions: &Vec<Action>,
    i: usize,
    determinism: Determinism,
) -> (r: Result<bool, Error>)
    requires
        cfg.wf(),
        old(world).wf(),
        storage_bounded(old(world)@, *cfg),
        old(gas).inv(),
        old(sm).inv(),
        depth <= cfg.max_call_depth,
        i <= actions@.len(),
        old(world)@.contracts.contains_key(self_addr),
    ensures
        final(world).wf(),
        storage_bounded(final(world)@, *cfg),
        final(gas).inv(),
        final(gas).limit == old(gas).limit,
        final(gas).consumed.ref_time >= old(gas).consumed.ref_time,
        final(gas).consumed.proof_size >= old(gas).consumed.proof_size,
        final(sm).inv(),
        final(sm).limit == old(sm).limit,
        forall|j: int|
            0 <= j < active@.len() && old(world)@.contracts.contains_key(#[trigger] active@[j])
                ==> final(world)@.contracts.contains_key(active@[j]),
        in_constructor ==> r != Ok::<bool, Error>(true),
        i == actions@.len() ==> r == Ok::<bool, Error>(false) && final(world)@ == old(world)@
            && *final(sm) == *old(sm) && *final(gas) == *old(gas),
        // The spec-level fold: for a call-free script the function computes
        // exactly [`run_flat`] — every step's effect, charge and failure.
        is_flat(actions@, i as int) ==> ({
            let fo = run_flat(
                *cfg,
                active@,
                self_addr,
                in_constructor,
                old(gas).limit,
                old(gas).consumed,
                old(sm).limit as int,
                old(sm).net as int,
                old(world)@,
                actions@,
                i as int,
            );
            &&& r == fo.result
            &&& final(world)@ == fo.w
            &&& final(sm).net == fo.net
            &&& final(gas).consumed == fo.gas_consumed
        }),
        // Partial-failure isolation, one level down: an absorbed sub-call
        // that runs an arbitrary call-free script and then reverts leaves
        // no trace in the state or the deposit ledger, while the compute
        // it burned stays settled into this frame.
        match actions@[i as int] {
            Action::Call { dest: d2, value: v2, gas_limit: g2, propagate, plan: p2 } => {
                (i == 0 && actions@.len() == 1 && !propagate && chain_target_ok(
                    old(world)@,
                    d2,
                    determinism,
                ) && entry_transfer_ok(
                    old(world)@,
                    cfg.min_balance,
                    Some(self_addr),
                    d2,
                    v2,
                ) && g2.spec_fits(old(gas).spec_remaining()) && depth < cfg.max_call_depth
                    && is_flat(p2.actions@, 0)) ==> ({
                    let wentry = WorldV {
                        balances: balances_after_transfer(
                            old(world)@.balances,
                            self_addr,
                            d2,
                            v2,
                        ),
                        ..old(world)@
                    };
                    let child_limit = if old(sm).limit - old(sm).net <= DEPOSIT_CEIL {
                        old(sm).limit - old(sm).net
                    } else {
                        DEPOSIT_CEIL as int
                    };
                    let fo = run_flat(
                        *cfg,
                        active@.push(self_addr),
                        d2,
                        false,
                        g2,
                        zero_weight(),
                        child_limit,
                        0,
                        wentry,
                        p2.actions@,
                        0,
                    );
                    (fo.result == Ok::<bool, Error>(false) && (p2.outcome
                        matches Outcome::Finish { data: _, revert: true })) ==> (r == Ok::<
                        bool,
                        Error,
                    >(false) && final(world)@ == old(world)@ && final(sm).net == old(sm).net
                        && final(gas).consumed == old(gas).consumed.spec_add(fo.gas_consumed))
                })
            },
            _ => true,
        },
        match actions@[i as int] {
            Action::Call { dest, value, gas_limit, propagate, plan } => {
                (i == 0 && actions@.len() == 1 && dest == self_addr && value == 0 && gas_limit
                    == zero_weight() && propagate && is_call_chain(plan, self_addr)
                    && chain_target_ok(old(world)@, self_addr, determinism)) ==> (if depth + 1
                    + chain_len(plan, self_addr) <= cfg.max_call_depth {
                    r == Ok::<bool, Error>(false) && final(world)@.contracts
                        == old(world)@.contracts && final(world)@.codes == old(world)@.codes
                        && final(sm).net == old(sm).net && final(gas).consumed == old(gas).consumed
                } else {
                    r == Err::<bool, Error>(Error::MaxCallDepthReached)
                        && final(world)@ == old(world)@ && final(sm).net == old(sm).net
                        && final(gas).consumed == old(gas).consumed
                })
            },
            _ => true,
        },
    decreases cfg.max_call_depth - depth, actions@.len() - i,
{
    let n = actions.len();
    if i >= n {
        return Ok(false);
    }
    let a = &actions[i];
    proof {
        match actions@[i as int] {
            Action::Call { .. } => {
                assert(!is_flat(actions@, i as int)) by {
                    assert(!(!((actions@[i as int]) is Call)));
                }
            },
            Action::Instantiate { .. } => {
                assert(!is_flat(actions@, i as int)) by {
                    assert(!(!((actions@[i as int]) is Instantiate)));
                }
            },
            _ => {},
        }
    }
    match a {
        Action::Work { amount } => {
            if !gas.charge(*amount) {
                return Err(Error::OutOfGas);
            }
            exec_actions(
                cfg,
                world,
                active,
                depth,
                self_addr,
                in_constructor,
                gas,
                sm,
                actions,
                i + 1,
                determinism,
            )
        },
        Action::SetStorage { key, value } => {
            let v2: Option<Vec<u8>> = match value {
                Some(v) => Some(copy_bytes(v)),
                Option::None => Option::None,
            };
            match do_set_storage(cfg, world, sm, self_addr, key, v2) {
                Ok(()) => exec_actions(
                    cfg,
                    world,
                    active,
                    depth,
                    self_addr,
                    in_constructor,
                    gas,
                    sm,
                    actions,
                    i + 1,
                    determinism,
                ),
                Err(e) => Err(e),
            }
        },
        Action::Transfer { to, value } => {
            if !do_transfer(cfg, world, self_addr, *to, *value) {
                return Err(Error::TransferFailed);
            }
            exec_actions(
                cfg,
                world,
                active,
                depth,
                self_addr,
                in_constructor,
                gas,
                sm,
                actions,
                i + 1,
                determinism,
            )
        },
        Action::Call { dest, value, gas_limit, propagate, plan } => {
            if depth >= cfg.max_call_depth {
                // The child frame is rejected before any resource is
                // reserved or any state is touched.
                proof {
                    if is_call_chain(*plan, self_addr) {
                        lemma_chain_len_nonneg(*plan, self_addr);
                    }
                }
                if *propagate {
                    return Err(Error::MaxCallDepthReached);
                }
                return exec_actions(
                    cfg,
                    world,
                    active,
                    depth,
                    self_addr,
                    in_constructor,
                    gas,
                    sm,
                    actions,
                    i + 1,
                    determinism,
                );
            }
            let mut cgas: GasMeter = match gas.reserve(*gas_limit) {
                Some(m) => m,
                Option::None => {
                    if *propagate {
                        return Err(Error::OutOfGas);
                    }
                    return exec_actions(
                        cfg,
                        world,
                        active,
                        depth,
                        self_addr,
                        in_constructor,
                        gas,
                        sm,
                        actions,
                        i + 1,
                        determinism,
                    );
                },
            };
            let mut csm: StorageMeter = sm.child();
            let active2 = push_account(active, self_addr);
            let res = run_call_frame(
                cfg,
                world,
                &active2,
                depth + 1,
                Origin::Signed(self_addr),
                Some(self_addr),
                *dest,
                *value,
                &mut cgas,
                &mut csm,
                plan,
                determinism,
            );
            proof {
                assert forall|j: int|
                    0 <= j < active@.len() && old(world)@.contracts.contains_key(
                        #[trigger] active@[j],
                    ) implies world@.contracts.contains_key(active@[j]) by {
                    assert(active2@[j] == active@[j]);
                }
                assert(world@.contracts.contains_key(self_addr)) by {
                    assert(active2@[active@.len() as int] == self_addr);
                }
            }
            gas.settle(cgas);
            match res {
                Ok(rv) => {
                    if !rv.did_revert() {
                        if !sm.absorb(&csm) {
                            return Err(Error::StorageDepositLimitExhausted);
                        }
                    }
                    exec_actions(
                        cfg,
                        world,
                        active,
                        depth,
                        self_addr,
                        in_constructor,
                        gas,
                        sm,
                        actions,
                        i + 1,
                        determinism,
                    )
                },
                Err(e) => {
                    // A deposit-limit breach aborts the whole invocation;
                    // any other child failure is an ordinary result that
                    // this frame may absorb.
                    match e {
                        Error::StorageDepositLimitExhausted => Err(e),
                        _ => {
                            if *propagate {
                                Err(e)
                            } else {
                                exec_actions(
                                    cfg,
                                    world,
                                    active,
                                    depth,
                                    self_addr,
                                    in_constructor,
                                    gas,
                                    sm,
                                    actions,
                                    i + 1,
                                    determinism,
                                )
                            }
                        },
                    }
                },
            }
        },
        Action::Instantiate { code_hash, endowment, gas_limit, input, salt, propagate, plan } => {
            match exec_instantiate_action(
                cfg,
                world,
                active,
                depth,
                self_addr,
                gas,
                sm,
                code_hash,
                *endowment,
                *gas_limit,
                input,
                salt,
                *propagate,
                plan,
            ) {
                Ok(()) => exec_actions(
                    cfg,
                    world,
                    active,
                    depth,
                    self_addr,
                    in_constructor,
                    gas,
                    sm,
                    actions,
                    i + 1,
                    determinism,
                ),
                Err(e) => Err(e),
            }
        },
        Action::Terminate { beneficiary } => {
            if in_constructor {
                return Err(Error::TerminatedInConstructor);
            }
            if contains_account(active, self_addr) {
                return Err(Error::TerminatedWhileReentrant);
            }
            if world.queue.insert_counter == u64::MAX {
                return Err(Error::CounterOverflow);
            }
            let bal: u64 = match world.balances.get(&self_addr) {
                Some(b) => *b,
                Option::None => 0,
            };
            if !do_transfer(cfg, world, self_addr, *beneficiary, bal) {
                return Err(Error::TransferFailed);
            }
            let info: ContractInfo = match world.contracts.take(&self_addr) {
                Some(c) => c,
                Option::None => {
                    return Err(Error::ContractNotFound);  // unreachable under the precondition
                },
            };
            if !sm.charge(-(info.deposit_held as i128)) {
                world.contracts.insert(self_addr, info);
                proof {
                    assert(world@.contracts =~= old(world)@.contracts);
                    assert(world@ == (WorldV {
                        balances: balances_after_transfer(
                            old(world)@.balances,
                            self_addr,
                            *beneficiary,
                            bal,
                        ),
                        ..old(world)@
                    }));
                }
                return Err(Error::StorageDepositLimitExhausted);
            }
            // The terminated contract stops using its code.
            match world.codes.take(&info.code_hash) {
                Some(mut rec) => {
                    if rec.refcount > 0 {
                        rec.refcount = rec.refcount - 1;
                    }
                    world.codes.insert(copy_bytes(&info.code_hash), rec);
                },
                Option::None => {},
            }
            let ghost wmid = world@;
            world.queue.pending.push(info.trie_id);
            world.queue.insert_counter = world.queue.insert_counter + 1;
            push_event(world, Event::Terminated { contract: self_addr, beneficiary: *beneficiary });
            proof {
                assert(world@.queue.pending =~= wmid.queue.pending.push(
                    old(world)@.contracts[self_addr].trie_id,
                ));
                let ch = old(world)@.contracts[self_addr].code_hash;
                assert(world@.codes =~= terminated_world(
                    old(world)@,
                    self_addr,
                    *beneficiary,
                ).codes);
                assert(world@ == terminated_world(old(world)@, self_addr, *beneficiary));
                let tid = old(world)@.contracts[self_addr].trie_id;
                lemma_storage_bounded_parts(world@, old(world)@, *cfg);
                assert forall|j: int|
                    0 <= j < active@.len() && old(world)@.contracts.contains_key(
                        #[trigger] active@[j],
                    ) implies world@.contracts.contains_key(active@[j]) by {
                    assert(active@[j] != self_addr);
                }
                assert(world.wf()) by {
                    assert(world.queue.wf());
                    assert forall|j: int| 0 <= j < world@.queue.pending.len() implies #[trigger]
                        world@.queue.pending[j] < world@.nonce by {
                        if j < world@.queue.pending.len() - 1 {
                            assert(world@.queue.pending[j] == old(world)@.queue.pending[j]);
                        } else {
                            assert(world@.queue.pending[j] == tid);
                        }
                    }
                    assert forall|b: AccountId, j: int|
                        #[trigger] world@.contracts.contains_key(b) && 0 <= j
                            < world@.queue.pending.len() implies world@.contracts[b].trie_id
                        != #[trigger] world@.queue.pending[j] by {
                        assert(old(world)@.contracts.contains_key(b) && b != self_addr);
                        if j < world@.queue.pending.len() - 1 {
                            assert(world@.queue.pending[j] == old(world)@.queue.pending[j]);
                        } else {
                            assert(world@.queue.pending[j] == tid);
                        }
                    }
                }
            }
            Ok(true)
        },
        Action::Emit { data } => {
            push_event(world, Event::ContractEmitted { contract: self_addr, data: copy_bytes(data) });
            exec_actions(
                cfg,
                world,
                active,
                depth,
                self_addr,
                in_constructor,
                gas,
                sm,
                actions,
                i + 1,
                determinism,
            )
        },
        Action::Reenter { propagate } => {
            // The invocation guard is held for the whole top-level
            // invocation, so an indirect second entry is always denied and
            // consumes nothing.
            if *propagate {
                return Err(Error::ReentranceDenied);
            }
            exec_actions(
                cfg,
                world,
                active,
                depth,
                self_addr,
                in_constructor,
                gas,
                sm,
                actions,
                i + 1,
                determinism,
            )
        },
    }
}

/// Handles one nested-instantiation step of a frame: derives the child
/// address, pushes the constructor frame one level deeper under reserved
/// sub-budgets, settles compute either way, and merges or discards the
/// deposit sub-ledger as the child committed or rolled back.  `Err` means
/// the step fails the enclosing frame (a deposit-limit breach always
/// does; other child failures only when `propagate` asks for it).
fn exec_instantiate_action(
    cfg: &Config,
    world: &mut World,
    active: &Vec<AccountId>,
    depth: u64,
    self_addr: AccountId,
    gas: &mut GasMeter,
    sm: &mut StorageMeter,
    code_hash: &Vec<u8>,
    endowment: Balance,
    gas_limit: Weight,
    input: &Vec<u8>,
    salt: &Vec<u8>,
    propagate: bool,
    plan: &CallPlan,
) -> (r: Result<(), Error>)
    requires
        cfg.wf(),
        old(world).wf(),
        storage_bounded(old(world)@, *cfg),
        old(gas).inv(),
        old(sm).inv(),
        depth <= cfg.max_call_depth,
        old(world)@.contracts.contains_key(self_addr),
    ensures
        final(world).wf(),
        storage_bounded(final(world)@, *cfg),
        final(gas).inv(),
        final(gas).limit == old(gas).limit,
        final(gas).consumed.ref_time >= old(gas).consumed.ref_time,
        final(gas).consumed.proof_size >= old(gas).consumed.proof_size,
        final(sm).inv(),
        final(sm).limit == old(sm).limit,
        final(world)@.contracts.contains_key(self_addr),
        forall|j: int|
            0 <= j < active@.len() && old(world)@.contracts.contains_key(#[trigger] active@[j])
                ==> final(world)@.contracts.contains_key(active@[j]),
    decreases cfg.max_call_depth - depth, 0int,
{
    if depth >= cfg.max_call_depth {
        // The child frame is rejected before any resource is reserved or
        // any state is touched.
        if propagate {
            return Err(Error::MaxCallDepthReached);
        }
        return Ok(());
    }
    // The address-preimage encoder supports byte strings below the
    // compact-length ceiling only; longer inputs fail the step before
    // anything is derived or touched.
    if (code_hash.len() as u64) > 0xFFFF_FFFF || (input.len() as u64) > 0xFFFF_FFFF || (
    salt.len() as u64) > 0xFFFF_FFFF {
        if propagate {
            return Err(Error::ValueTooLarge);
        }
        return Ok(());
    }
    if !world.codes.contains(code_hash) {
        if propagate {
            return Err(Error::CodeNotFound);
        }
        return Ok(());
    }
    let mut cgas: GasMeter = match gas.reserve(gas_limit) {
        Some(m) => m,
        Option::None => {
            if propagate {
                return Err(Error::OutOfGas);
            }
            return Ok(());
        },
    };
    let mut csm: StorageMeter = sm.child();
    let active2 = push_account(active, self_addr);
    let pre = encode_address_parts(self_addr, code_hash, input, salt);
    let hbytes = blake2_256(&pre);
    let child_addr = account_from_hash(&hbytes);
    let res = run_instantiate_frame(
        cfg,
        world,
        &active2,
        depth + 1,
        self_addr,
        child_addr,
        code_hash,
        endowment,
        &mut cgas,
        &mut csm,
        plan,
    );
    proof {
        assert forall|j: int|
            0 <= j < active@.len() && old(world)@.contracts.contains_key(
                #[trigger] active@[j],
            ) implies world@.contracts.contains_key(active@[j]) by {
            assert(active2@[j] == active@[j]);
        }
        assert(world@.contracts.contains_key(self_addr)) by {
            assert(active2@[active@.len() as int] == self_addr);
        }
    }
    gas.settle(cgas);
    match res {
        Ok(p) => {
            if !p.1.did_revert() {
                if !sm.absorb(&csm) {
                    return Err(Error::StorageDepositLimitExhausted);
                }
            }
            Ok(())
        },
        Err(e) => {
            // A deposit-limit breach aborts the whole invocation; any
            // other child failure is an ordinary result that the caller
            // frame may absorb.
            match e {
                Error::StorageDepositLimitExhausted => Err(e),
                _ => {
                    if propagate {
                        Err(e)
                    } else {
                        Ok(())
                    }
                },
            }
        },
    }
}

/// A pure call chain makes a non-negative number of sub-calls.
pub proof fn lemma_chain_len_nonneg(plan: CallPlan, dest: AccountId)
    ensures
        chain_len(plan, dest) >= 0,
    decreases plan,
{
    if plan.actions@.len() > 0 {
        match plan.actions@[0] {
            Action::Call { plan: p2, .. } => {
                lemma_chain_len_nonneg(p2, dest);
            },
            _ => {},
        }
    }
}

/// Runs one call frame: pushes the frame, resolves the callee, transfers
/// the carried value, runs the callee's script, and on failure or revert
/// rolls every effect of the frame back.  Compute consumed is kept either
/// way.
pub fn run_call_frame(
    cfg: &Config,
    world: &mut World,
    active: &Vec<AccountId>,
    depth: u64,
    caller: Origin,
    from: Option<AccountId>,
    dest: AccountId,
    value: Balance,
    gas: &mut GasMeter,
    sm: &mut StorageMeter,
    plan: &CallPlan,
    determinism: Determinism,
) -> (r: Result<ExecReturnValue, Error>)
    requires
        cfg.wf(),
        old(world).wf(),
        storage_bounded(old(world)@, *cfg),
        old(gas).inv(),
        old(sm).inv(),
        depth <= cfg.max_call_depth,
    ensures
        final(world).wf(),
        storage_bounded(final(world)@, *cfg),
        final(gas).inv(),
        final(gas).limit == old(gas).limit,
        final(gas).consumed.ref_time >= old(gas).consumed.ref_time,
        final(gas).consumed.proof_size >= old(gas).consumed.proof_size,
        final(sm).inv(),
        final(sm).limit == old(sm).limit,
        forall|j: int|
            0 <= j < active@.len() && old(world)@.contracts.contains_key(#[trigger] active@[j])
                ==> final(world)@.contracts.contains_key(active@[j]),
        // Frame-local rollback: a failed or reverted frame leaves no trace
        // in the state or in the deposit ledger.
        (r is Err || (r matches Ok(rv) && rv.did_revert)) ==> final(world)@ == old(world)@
            && final(sm).net == old(sm).net,
        // A callee without code degrades to a plain balance transfer.
        !old(world)@.contracts.contains_key(dest) ==> ({
            if entry_transfer_ok(old(world)@, cfg.min_balance, from, dest, value) {
                r matches Ok(rv) && !rv.did_revert && rv.data@.len() == 0 && final(world)@ == (
                WorldV {
                    balances: match from {
                        Some(f) => balances_after_transfer(old(world)@.balances, f, dest, value),
                        None => old(world)@.balances,
                    },
                    ..old(world)@
                }) && final(sm).net == old(sm).net
            } else {
                r == Err::<ExecReturnValue, Error>(Error::TransferFailed)
            }
        }),
        // Entry failures of a contract callee, in check order.
        old(world)@.contracts.contains_key(dest) && !code_resolvable(old(world)@, dest) ==> r
            == Err::<ExecReturnValue, Error>(Error::CodeNotFound),
        old(world)@.contracts.contains_key(dest) && code_resolvable(old(world)@, dest) && !det_ok(
            old(world)@,
            dest,
            determinism,
        ) ==> r == Err::<ExecReturnValue, Error>(Error::Indeterministic),
        old(world)@.contracts.contains_key(dest) && code_resolvable(old(world)@, dest) && det_ok(
            old(world)@,
            dest,
            determinism,
        ) && !entry_transfer_ok(old(world)@, cfg.min_balance, from, dest, value) ==> r
            == Err::<ExecReturnValue, Error>(Error::TransferFailed),
        // A frame whose script takes no step is decided by its outcome.
        old(world)@.contracts.contains_key(dest) && code_resolvable(old(world)@, dest) && det_ok(
            old(world)@,
            dest,
            determinism,
        ) && entry_transfer_ok(old(world)@, cfg.min_balance, from, dest, value)
            && plan.actions@.len() == 0 ==> (match plan.outcome {
            Outcome::Finish { ref data, revert } => r matches Ok(rv) && rv.did_revert == revert
                && rv.data@ == data@ && (!revert ==> final(world)@ == (WorldV {
                balances: match from {
                    Some(f) => balances_after_transfer(old(world)@.balances, f, dest, value),
                    None => old(world)@.balances,
                },
                events: old(world)@.events.push(EventV::Called { caller, contract: dest }),
                ..old(world)@
            }) && final(sm).net == old(sm).net),
            Outcome::Trap => r == Err::<ExecReturnValue, Error>(Error::ContractTrapped),
        }),
        // Partial-failure isolation: an absorbed sub-call that runs an
        // arbitrary call-free script and then reverts leaves no trace, and
        // the caller completes as if it had not happened, keeping only the
        // compute the sub-call burned.
        ({
            let w = old(world)@;
            (from is Some && value == 0 && depth < cfg.max_call_depth && w.contracts.contains_key(
                dest,
            ) && code_resolvable(w, dest) && det_ok(w, dest, determinism) && plan.actions@.len()
                == 1 && (match plan.actions@[0] {
                Action::Call { dest: d2, value: v2, gas_limit: g2, propagate, plan: p2 } => {
                    &&& !propagate
                    &&& chain_target_ok(w, d2, determinism)
                    &&& entry_transfer_ok(w, cfg.min_balance, Some(dest), d2, v2)
                    &&& g2.spec_fits(old(gas).spec_remaining())
                    &&& is_flat(p2.actions@, 0)
                    &&& ({
                        let wentry = WorldV {
                            balances: balances_after_transfer(w.balances, dest, d2, v2),
                            ..w
                        };
                        let child_limit = if old(sm).limit - old(sm).net <= DEPOSIT_CEIL {
                            old(sm).limit - old(sm).net
                        } else {
                            DEPOSIT_CEIL as int
                        };
                        let fo = run_flat(
                            *cfg,
                            active@.push(dest),
                            d2,
                            false,
                            g2,
                            zero_weight(),
                            child_limit,
                            0,
                            wentry,
                            p2.actions@,
                            0,
                        );
                        fo.result == Ok::<bool, Error>(false) && (p2.outcome
                            matches Outcome::Finish { data: _, revert: true })
                    })
                },
                _ => false,
            })) ==> (match plan.outcome {
                Outcome::Finish { ref data, revert } => r matches Ok(rv) && rv.did_revert == revert
                    && rv.data@ == data@ && (!revert ==> final(world)@ == (WorldV {
                    events: w.events.push(EventV::Called { caller, contract: dest }),
                    ..w
                }) && final(sm).net == old(sm).net),
                Outcome::Trap => r == Err::<ExecReturnValue, Error>(Error::ContractTrapped),
            })
        }),
        // For a call-free script the frame is a function: the spec fold
        // decides its outcome exactly, with failure or revert rolling every
        // effect back while the compute it burned stays settled.
        ({
            let w = old(world)@;
            (w.contracts.contains_key(dest) && code_resolvable(w, dest) && det_ok(
                w,
                dest,
                determinism,
            ) && entry_transfer_ok(w, cfg.min_balance, from, dest, value) && is_flat(
                plan.actions@,
                0,
            )) ==> ({
                let wentry = WorldV {
                    balances: match from {
                        Some(f) => balances_after_transfer(w.balances, f, dest, value),
                        None => w.balances,
                    },
                    ..w
                };
                let fo = run_flat(
                    *cfg,
                    active@,
                    dest,
                    false,
                    old(gas).limit,
                    old(gas).consumed,
                    old(sm).limit as int,
                    old(sm).net as int,
                    wentry,
                    plan.actions@,
                    0,
                );
                &&& final(gas).consumed == fo.gas_consumed
                &&& (match fo.result {
                    Ok(halted) => {
                        if halted {
                            r matches Ok(rv) && !rv.did_revert && rv.data@.len() == 0
                                && final(world)@ == fo.w && final(sm).net == fo.net
                        } else {
                            match plan.outcome {
                                Outcome::Finish { ref data, revert } => r matches Ok(rv)
                                    && rv.did_revert == revert && rv.data@ == data@ && (if revert {
                                    final(world)@ == w && final(sm).net == old(sm).net
                                } else {
                                    final(world)@ == (WorldV {
                                        events: fo.w.events.push(
                                            EventV::Called { caller, contract: dest },
                                        ),
                                        ..fo.w
                                    }) && final(sm).net == fo.net
                                }),
                                Outcome::Trap => r == Err::<ExecReturnValue, Error>(
                                    Error::ContractTrapped,
                                ) && final(world)@ == w && final(sm).net == old(sm).net,
                            }
                        }
                    },
                    Err(e) => r == Err::<ExecReturnValue, Error>(e) && final(world)@ == w
                        && final(sm).net == old(sm).net,
                })
            })
        }),
        // The depth bound, exercised by the worst case: a pure chain of
        // nested sub-calls succeeds in full within the configured depth and
        // fails with a depth error, and no other, one level beyond it.
        (from is Some && value == 0 && is_call_chain(*plan, dest) && chain_target_ok(
            old(world)@,
            dest,
            determinism,
        )) ==> (if depth + chain_len(*plan, dest) <= cfg.max_call_depth {
            (r matches Ok(rv) && !rv.did_revert) && final(world)@.contracts
                == old(world)@.contracts && final(world)@.codes == old(world)@.codes
                && final(sm).net == old(sm).net && final(gas).consumed == old(gas).consumed
        } else {
            r == Err::<ExecReturnValue, Error>(Error::MaxCallDepthReached)
                && final(world)@ == old(world)@ && final(sm).net == old(sm).net
                && final(gas).consumed == old(gas).consumed
        }),
    decreases cfg.max_call_depth - depth, plan.actions@.len() + 1,
{
    proof {
        if is_call_chain(*plan, dest) {
            lemma_chain_len_nonneg(*plan, dest);
        }
    }
    let snap = world.snapshot();
    let net0: i128 = sm.net;
    let ch_opt: Option<Vec<u8>> = match world.contracts.get(&dest) {
        Some(c) => Some(copy_bytes(&c.code_hash)),
        Option::None => Option::None,
    };
    let ch: Vec<u8> = match ch_opt {
        Option::None => {
            // Plain value transfer, no code execution.
            match from {
                Some(f) => {
                    if do_transfer(cfg, world, f, dest, value) {
                        return Ok(empty_return());
                    } else {
                        return Err(Error::TransferFailed);
                    }
                },
                Option::None => {
                    if value == 0 {
                        return Ok(empty_return());
                    } else {
                        return Err(Error::TransferFailed);
                    }
                },
            }
        },
        Some(ch) => ch,
    };
    let code_det: Determinism = match world.codes.get(&ch) {
        Some(c) => c.determinism,
        Option::None => {
            return Err(Error::CodeNotFound);
        },
    };
    match (determinism, code_det) {
        (Determinism::Enforced, Determinism::Relaxed) => {
            return Err(Error::Indeterministic);
        },
        _ => {},
    }
    let transfer_ok: bool = match from {
        Some(f) => do_transfer(cfg, world, f, dest, value),
        Option::None => value == 0,
    };
    if !transfer_ok {
        return Err(Error::TransferFailed);
    }
    let res = exec_actions(
        cfg,
        world,
        active,
        depth,
        dest,
        false,
        gas,
        sm,
        &plan.actions,
        0,
        determinism,
    );
    match res {
        Err(e) => {
            *world = snap;
            sm.rollback_to(net0);
            proof {
                assert(world@ == old(world)@);
                lemma_storage_bounded_parts(world@, old(world)@, *cfg);
            }
            Err(e)
        },
        Ok(true) => {
            // The contract terminated itself: the frame ends successfully
            // with an empty output, and its effects stand.
            Ok(empty_return())
        },
        Ok(false) => {
            match &plan.outcome {
                Outcome::Finish { data, revert } => {
                    if *revert {
                        *world = snap;
                        sm.rollback_to(net0);
                        proof {
                            assert(world@ == old(world)@);
                            lemma_storage_bounded_parts(world@, old(world)@, *cfg);
                        }
                        Ok(ExecReturnValue { did_revert: true, data: copy_bytes(data) })
                    } else {
                        push_event(world, Event::Called { caller, contract: dest });
                        Ok(ExecReturnValue { did_revert: false, data: copy_bytes(data) })
                    }
                },
                Outcome::Trap => {
                    *world = snap;
                    sm.rollback_to(net0);
                    proof {
                        assert(world@ == old(world)@);
                        lemma_storage_bounded_parts(world@, old(world)@, *cfg);
                    }
                    Err(Error::ContractTrapped)
                },
            }
        },
    }
}

} // verus!

verus! {

/// The state after a successful instantiation whose constructor script
/// took no step: endowment transferred, account created with a fresh
/// namespace id, code bound, event recorded.
pub open spec fn instantiated_world(
    w: WorldV,
    cfg: Config,
    origin: AccountId,
    addr: AccountId,
    ch: Seq<u8>,
    value: Balance,
) -> WorldV {
    WorldV {
        balances: balances_after_transfer(w.balances, origin, addr, value),
        contracts: w.contracts.insert(
            addr,
            ContractInfoV { trie_id: w.nonce, code_hash: ch, deposit_held: cfg.contract_deposit },
        ),
        codes: w.codes.insert(
            ch,
            CodeRecV { refcount: (w.codes[ch].refcount + 1) as u64, ..w.codes[ch] },
        ),
        events: w.events.push(EventV::Instantiated { deployer: origin, contract: addr }),
        nonce: (w.nonce + 1) as u64,
        ..w
    }
}

/// Runs the root frame of an instantiation: derives nothing itself, but
/// creates the contract account at the given address with a fresh storage
/// namespace, binds the code, transfers the endowment, runs the
/// constructor script, and rolls everything back on failure or revert.
pub fn run_instantiate_frame(
    cfg: &Config,
    world: &mut World,
    active: &Vec<AccountId>,
    depth: u64,
    origin: AccountId,
    addr: AccountId,
    code_hash: &Vec<u8>,
    value: Balance,
    gas: &mut GasMeter,
    sm: &mut StorageMeter,
    plan: &CallPlan,
) -> (r: Result<(AccountId, ExecReturnValue), Error>)
    requires
        cfg.wf(),
        old(world).wf(),
        storage_bounded(old(world)@, *cfg),
        old(gas).inv(),
        old(sm).inv(),
        old(world)@.codes.contains_key(code_hash@),
        depth <= cfg.max_call_depth,
    ensures
        forall|j: int|
            0 <= j < active@.len() && old(world)@.contracts.contains_key(#[trigger] active@[j])
                ==> final(world)@.contracts.contains_key(active@[j]),
        final(world).wf(),
        storage_bounded(final(world)@, *cfg),
        final(gas).inv(),
        final(gas).limit == old(gas).limit,
        final(gas).consumed.ref_time >= old(gas).consumed.ref_time,
        final(gas).consumed.proof_size >= old(gas).consumed.proof_size,
        final(sm).inv(),
        final(sm).limit == old(sm).limit,
        // Frame-local rollback.
        (r is Err || (r matches Ok(p) && p.1.did_revert)) ==> final(world)@ == old(world)@
            && final(sm).net == old(sm).net,
        r matches Ok(p) ==> p.0 == addr,
        // Entry decisions, in check order.
        old(world)@.contracts.contains_key(addr) ==> r == Err::<(AccountId, ExecReturnValue), Error>(
            Error::DuplicateContract,
        ),
        ({
            let w = old(world)@;
            let dup = w.contracts.contains_key(addr);
            let det = w.codes[code_hash@].determinism == Determinism::Enforced;
            let counters = w.nonce < u64::MAX && w.codes[code_hash@].refcount < u64::MAX;
            let paid = can_transfer(w, cfg.min_balance, origin, addr, value);
            let charged = DEPOSIT_FLOOR <= old(sm).net + cfg.contract_deposit <= old(sm).limit;
            &&& (!dup && !det ==> r == Err::<(AccountId, ExecReturnValue), Error>(
                Error::Indeterministic,
            ))
            &&& (!dup && det && !counters ==> r == Err::<(AccountId, ExecReturnValue), Error>(
                Error::CounterOverflow,
            ))
            &&& (!dup && det && counters && !paid ==> r == Err::<
                (AccountId, ExecReturnValue),
                Error,
            >(Error::TransferFailed))
            &&& (!dup && det && counters && paid && !charged ==> r == Err::<
                (AccountId, ExecReturnValue),
                Error,
            >(Error::StorageDepositLimitExhausted))
            &&& (!dup && det && counters && paid && charged && plan.actions@.len() == 0 ==> (
            match plan.outcome {
                Outcome::Finish { ref data, revert } => r matches Ok(p) && p.0 == addr
                    && p.1.did_revert == revert && p.1.data@ == data@ && (!revert
                    ==> final(world)@ == instantiated_world(
                    old(world)@,
                    *cfg,
                    origin,
                    addr,
                    code_hash@,
                    value,
                ) && final(sm).net == old(sm).net + cfg.contract_deposit),
                Outcome::Trap => r == Err::<(AccountId, ExecReturnValue), Error>(
                    Error::ContractTrapped,
                ),
            }))
        }),
    decreases cfg.max_call_depth - depth, plan.actions@.len() + 1,
{
    let snap = world.snapshot();
    let net0: i128 = sm.net;
    if world.contracts.contains(&addr) {
        return Err(Error::DuplicateContract);
    }
    let (code_det, refcount): (Determinism, u64) = match world.codes.get(code_hash) {
        Some(c) => (c.determinism, c.refcount),
        Option::None => {
            return Err(Error::CodeNotFound);  // unreachable under the precondition
        },
    };
    match code_det {
        Determinism::Relaxed => {
            return Err(Error::Indeterministic);
        },
        Determinism::Enforced => {},
    }
    if world.nonce == u64::MAX || refcount == u64::MAX {
        return Err(Error::CounterOverflow);
    }
    if !do_transfer(cfg, world, origin, addr, value) {
        return Err(Error::TransferFailed);
    }
    if !sm.charge(cfg.contract_deposit as i128) {
        *world = snap;
        proof {
            assert(world@ == old(world)@);
            lemma_storage_bounded_parts(world@, old(world)@, *cfg);
        }
        return Err(Error::StorageDepositLimitExhausted);
    }
    let trie_id: u64 = world.nonce;
    world.nonce = world.nonce + 1;
    let mut code: CodeRec = match world.codes.take(code_hash) {
        Some(c) => c,
        Option::None => {
            return Err(Error::CodeNotFound);  // unreachable: presence was just checked
        },
    };
    code.refcount = code.refcount + 1;
    world.codes.insert(copy_bytes(code_hash), code);
    world.contracts.insert(
        addr,
        ContractInfo {
            trie_id,
            code_hash: copy_bytes(code_hash),
            deposit_held: cfg.contract_deposit,
        },
    );
    proof {
        assert(world.wf()) by {
            assert forall|a: AccountId| #[trigger] world@.contracts.contains_key(a) implies (
            world@.contracts[a].trie_id < world@.nonce) by {
                if a != addr {
                    assert(old(world)@.contracts.contains_key(a));
                }
            }
            assert forall|a: AccountId, b: AccountId|
                a != b && #[trigger] world@.contracts.contains_key(a) && #[trigger]
                world@.contracts.contains_key(b) implies (world@.contracts[a].trie_id
                != world@.contracts[b].trie_id) by {
                if a != addr && b != addr {
                    assert(old(world)@.contracts.contains_key(a));
                    assert(old(world)@.contracts.contains_key(b));
                } else if a == addr {
                    assert(old(world)@.contracts.contains_key(b));
                    assert(world@.contracts[b].trie_id < trie_id);
                } else {
                    assert(old(world)@.contracts.contains_key(a));
                    assert(world@.contracts[a].trie_id < trie_id);
                }
            }
            assert forall|a: AccountId, j: int|
                #[trigger] world@.contracts.contains_key(a) && 0 <= j
                    < world@.queue.pending.len() implies (world@.contracts[a].trie_id
                != #[trigger] world@.queue.pending[j]) by {
                if a != addr {
                    assert(old(world)@.contracts.contains_key(a));
                } else {
                    assert(world@.queue.pending[j] < trie_id);
                }
            }
        }
        lemma_storage_bounded_parts(world@, old(world)@, *cfg);
    }
    push_event(world, Event::Instantiated { deployer: origin, contract: addr });
    proof {
        assert(world@.codes =~= old(world)@.codes.insert(
            code_hash@,
            CodeRecV {
                refcount: (old(world)@.codes[code_hash@].refcount + 1) as u64,
                ..old(world)@.codes[code_hash@]
            },
        ));
        assert(world@.contracts =~= old(world)@.contracts.insert(
            addr,
            ContractInfoV {
                trie_id: old(world)@.nonce,
                code_hash: code_hash@,
                deposit_held: cfg.contract_deposit,
            },
        ));
        assert(world@ == instantiated_world(old(world)@, *cfg, origin, addr, code_hash@, value));
    }
    let ghost wcreated = world@;
    let res = exec_actions(
        cfg,
        world,
        active,
        depth,
        addr,
        true,
        gas,
        sm,
        &plan.actions,
        0,
        Determinism::Enforced,
    );
    match res {
        Err(e) => {
            *world = snap;
            sm.rollback_to(net0);
            proof {
                assert(world@ == old(world)@);
                lemma_storage_bounded_parts(world@, old(world)@, *cfg);
            }
            Err(e)
        },
        Ok(true) => {
            // Unreachable: termination inside a constructor is rejected.
            Ok((addr, empty_return()))
        },
        Ok(false) => {
            match &plan.outcome {
                Outcome::Finish { data, revert } => {
                    if *revert {
                        *world = snap;
                        sm.rollback_to(net0);
                        proof {
                            assert(world@ == old(world)@);
                            lemma_storage_bounded_parts(world@, old(world)@, *cfg);
                        }
                        Ok((addr, ExecReturnValue { did_revert: true, data: copy_bytes(data) }))
                    } else {
                        Ok((addr, ExecReturnValue { did_revert: false, data: copy_bytes(data) }))
                    }
                },
                Outcome::Trap => {
                    *world = snap;
                    sm.rollback_to(net0);
                    proof {
                        assert(world@ == old(world)@);
                        lemma_storage_bounded_parts(world@, old(world)@, *cfg);
                    }
                    Err(Error::ContractTrapped)
                },
            }
        },
    }
}

} // verus!
