//! The engine's entry points: the invocation guard, the dispatchables, the
//! code registry operations, the deletion-queue batch processor and the
//! migration stepper.

use vstd::prelude::*;
use crate::deposit::{StorageMeter, DEPOSIT_CEIL};
use crate::exec::{
    balances_after_transfer, calc_item_deposit, can_transfer, chain_len, chain_target_ok,
    code_resolvable, det_ok, entry_transfer_ok, is_call_chain, item_deposit, run_call_frame,
    run_instantiate_frame, storage_bounded, zero_weight, Config,
};
use crate::hashing::{account_from_hash, account_of_hash, address_preimage_of, blake2_256,
    blake2_of, encode_address_parts};
use crate::kv::{copy_bytes, Dup};
use crate::state::{CodeRec, CodeRecV, ContractInfo, World, WorldV};
use crate::types::{
    AccountId, Action, Balance, CallPlan, Code, CodeUploadReturnValue, CollectEvents,
    ContractAccessError,
    ContractResult, DebugInfo, Determinism, DispatchError, DispatchErrorWithPostInfo, Error,
    ErrorOrigin, Event, EventV, ExecError, ExecReturnValue, InstantiateReturnValue, MigrateResult,
    Origin, Outcome, PostInfo, RuntimeOrigin, StorageDeposit,
};
use crate::weight::{GasMeter, Weight};

verus! {

/// The engine: configuration, persisted state, the invocation lock and the
/// migration cursor.
pub struct Pallet {
    /// The constants of this engine instance.
    pub cfg: Config,
    /// Everything persisted and subject to frame rollback.
    pub world: World,
    /// The coarse mutual-exclusion lock spanning one top-level invocation.
    pub in_flight: bool,
    /// Number of migration steps already applied, present only while a
    /// migration is under way.
    pub migration_cursor: Option<u64>,
}

impl Pallet {
    /// The resting-state invariant of the engine: configuration and state
    /// are well-formed and no invocation is in flight.
    pub open spec fn inv(self) -> bool {
        &&& self.cfg.wf()
        &&& self.world.wf()
        &&& storage_bounded(self.world@, self.cfg)
        &&& !self.in_flight
        &&& match self.migration_cursor {
            Some(c) => c <= self.cfg.migration_steps,
            None => true,
        }
    }

    /// A fresh engine over an empty world.
    pub fn new(cfg: Config) -> (r: Pallet)
        requires
            cfg.wf(),
        ensures
            r.inv(),
            r.cfg == cfg,
            r.world@.balances == Map::<AccountId, Balance>::empty(),
            r.world@.contracts.dom() == Set::<AccountId>::empty(),
            r.world@.codes.dom() == Set::<Seq<u8>>::empty(),
            r.world@.queue.pending == Seq::<u64>::empty(),
            r.migration_cursor is None,
    {
        let r = Pallet {
            cfg,
            world: World::new(),
            in_flight: false,
            migration_cursor: Option::None,
        };
        proof {
            assert(r.world@.contracts.dom() =~= Set::<AccountId>::empty());
            assert(r.world@.codes.dom() =~= Set::<Seq<u8>>::empty());
        }
        r
    }

    /// Endows an account with a balance, as a genesis configuration would.
    pub fn endow(&mut self, account: AccountId, amount: Balance)
        requires
            old(self).inv(),
        ensures
            final(self).inv(),
            final(self).cfg == old(self).cfg,
            final(self).migration_cursor == old(self).migration_cursor,
            final(self).world@ == (WorldV {
                balances: old(self).world@.balances.insert(account, amount),
                ..old(self).world@
            }),
    {
        self.world.balances.insert(account, amount);
        proof {
            World::lemma_wf_parts(self.world, old(self).world);
            crate::exec::lemma_storage_bounded_parts(self.world@, old(self).world@, self.cfg);
        }
    }

    /// Free balance of an account, zero when it does not exist.
    pub fn balance_of(&self, account: AccountId) -> (r: Balance)
        ensures
            r == if self.world@.balances.contains_key(account) {
                self.world@.balances[account]
            } else {
                0
            },
    {
        match self.world.balances.get(&account) {
            Some(b) => *b,
            Option::None => 0,
        }
    }
}

/// How many whole units of `cost` fit into `remaining`, capped at `len`:
/// the number of queue entries (or migration steps) one budget allows.
pub open spec fn drain_count(remaining: Weight, cost: Weight, len: int) -> int
    decreases len,
{
    if len <= 0 || !cost.spec_fits(remaining) {
        0
    } else {
        1 + drain_count(remaining.spec_sub(cost), cost, len - 1)
    }
}

/// The budget left after draining as many units of `cost` as fit, capped
/// at `len` units.
pub open spec fn drain_left(remaining: Weight, cost: Weight, len: int) -> Weight
    decreases len,
{
    if len <= 0 || !cost.spec_fits(remaining) {
        remaining
    } else {
        drain_left(remaining.spec_sub(cost), cost, len - 1)
    }
}

/// A budget that covers one unit makes progress.
pub proof fn lemma_drain_progress(remaining: Weight, cost: Weight, len: int)
    requires
        cost.spec_fits(remaining),
        len >= 1,
    ensures
        drain_count(remaining, cost, len) >= 1,
{
    lemma_drain_bounds(remaining.spec_sub(cost), cost, len - 1);
}

/// The drained amount never exceeds the pending length.
pub proof fn lemma_drain_bounds(remaining: Weight, cost: Weight, len: int)
    ensures
        0 <= drain_count(remaining, cost, len) <= if len >= 0 {
            len
        } else {
            0
        },
    decreases len,
{
    if len > 0 && cost.spec_fits(remaining) {
        lemma_drain_bounds(remaining.spec_sub(cost), cost, len - 1);
    }
}

/// The namespaces left after reclaiming the first `k` pending entries.
pub open spec fn tries_after_drain(w: WorldV, k: int) -> Map<u64, Map<Seq<u8>, Seq<u8>>> {
    Map::new(
        |t: u64|
            w.tries.contains_key(t) && !(exists|j: int|
                0 <= j < k && w.queue.pending[j] == t),
        |t: u64| w.tries[t],
    )
}

impl Pallet {
    /// Reclaims storage namespaces of terminated contracts from the front
    /// of the deletion queue, one whole namespace per unit of budget, until
    /// the budget no longer covers a unit or the queue is empty.  The
    /// deletion cursor advances exactly as far as entries were reclaimed,
    /// so the next call resumes where this one stopped; no entry is
    /// revisited, skipped or reordered.
    pub fn process_deletion_queue_batch(&mut self, meter: &mut GasMeter)
        requires
            old(self).inv(),
            old(meter).inv(),
        ensures
            final(self).inv(),
            final(self).cfg == old(self).cfg,
            final(self).migration_cursor == old(self).migration_cursor,
            final(meter).inv(),
            final(meter).limit == old(meter).limit,
            final(meter).spec_remaining() == drain_left(
                old(meter).spec_remaining(),
                old(self).cfg.deletion_base_weight,
                old(self).world@.queue.pending.len() as int,
            ),
            ({
                let k = drain_count(
                    old(meter).spec_remaining(),
                    old(self).cfg.deletion_base_weight,
                    old(self).world@.queue.pending.len() as int,
                );
                &&& final(self).world@.queue.pending == old(self).world@.queue.pending.skip(k)
                &&& final(self).world@.queue.delete_counter == old(self).world@.queue.delete_counter + k
                &&& final(self).world@.queue.insert_counter == old(self).world@.queue.insert_counter
                &&& final(self).world@.tries == tries_after_drain(old(self).world@, k)
                &&& final(self).world@.balances == old(self).world@.balances
                &&& final(self).world@.contracts == old(self).world@.contracts
                &&& final(self).world@.codes == old(self).world@.codes
                &&& final(self).world@.events == old(self).world@.events
                &&& final(self).world@.nonce == old(self).world@.nonce
            }),
    {
        let ghost w0 = self.world@;
        let ghost m0 = *meter;
        let cost = self.cfg.deletion_base_weight;
        let ghost total = drain_count(
            m0.spec_remaining(),
            cost,
            w0.queue.pending.len() as int,
        );
        proof {
            lemma_drain_bounds(m0.spec_remaining(), cost, w0.queue.pending.len() as int);
        }
        let mut done: u64 = 0;
        loop
            invariant
                self.cfg.wf(),
                self.world.wf(),
                storage_bounded(self.world@, self.cfg),
                !self.in_flight,
                self.cfg == old(self).cfg,
                self.migration_cursor == old(self).migration_cursor,
                meter.inv(),
                meter.limit == m0.limit,
                cost == self.cfg.deletion_base_weight,
                0 <= done <= w0.queue.pending.len(),
                total == done + drain_count(
                    meter.spec_remaining(),
                    cost,
                    w0.queue.pending.len() - done,
                ),
                drain_left(m0.spec_remaining(), cost, w0.queue.pending.len() as int) == drain_left(
                    meter.spec_remaining(),
                    cost,
                    w0.queue.pending.len() - done,
                ),
                self.world@.queue.pending == w0.queue.pending.skip(done as int),
                self.world@.queue.delete_counter == w0.queue.delete_counter + done,
                self.world@.queue.insert_counter == w0.queue.insert_counter,
                self.world@.tries == tries_after_drain(w0, done as int),
                self.world@.balances == w0.balances,
                self.world@.contracts == w0.contracts,
                self.world@.codes == w0.codes,
                self.world@.events == w0.events,
                self.world@.nonce == w0.nonce,
            ensures
                total == done,
                drain_left(m0.spec_remaining(), cost, w0.queue.pending.len() as int)
                    == meter.spec_remaining(),
            decreases w0.queue.pending.len() - done,
        {
            if self.world.queue.pending.len() == 0 {
                proof {
                    assert(drain_count(
                        meter.spec_remaining(),
                        cost,
                        w0.queue.pending.len() - done,
                    ) == 0);
                }
                break;
            }
            if !meter.try_charge(cost) {
                break;
            }
            let ghost wpre = self.world@;
            let tid: u64 = self.world.queue.pending.remove(0);
            self.world.queue.delete_counter = self.world.queue.delete_counter + 1;
            self.world.tries.remove(&tid);
            proof {
                assert(wpre.queue.pending[0] == w0.queue.pending[done as int]);
                assert(self.world@.queue.pending =~= w0.queue.pending.skip(done + 1));
                assert(self.world@.tries =~= tries_after_drain(w0, done + 1)) by {
                    assert forall|t: u64| #[trigger] self.world@.tries.contains_key(t) <==>
                        tries_after_drain(w0, done + 1).contains_key(t) by {
                        if tries_after_drain(w0, done + 1).contains_key(t) {
                            assert(!(exists|j: int| 0 <= j < done + 1 && w0.queue.pending[j] == t));
                            assert(!(exists|j: int| 0 <= j < done && w0.queue.pending[j] == t));
                        }
                        if self.world@.tries.contains_key(t) {
                            assert(wpre.tries.contains_key(t) && t != tid);
                            assert forall|j: int| 0 <= j < done + 1 implies w0.queue.pending[j]
                                != t by {
                                if j < done {
                                    assert(!(exists|j2: int|
                                        0 <= j2 < done && w0.queue.pending[j2] == t));
                                } else {
                                    assert(w0.queue.pending[j] == tid);
                                }
                            }
                        }
                    }
                }
                assert(self.world.wf()) by {
                    assert(self.world.queue.wf());
                    assert forall|j: int| 0 <= j < self.world@.queue.pending.len() implies (
                    #[trigger] self.world@.queue.pending[j] < self.world@.nonce) by {
                        assert(self.world@.queue.pending[j] == wpre.queue.pending[j + 1]);
                    }
                    assert forall|a: AccountId| #[trigger]
                        self.world@.contracts.contains_key(a) implies (
                    self.world@.contracts[a].trie_id < self.world@.nonce) by {
                        assert(wpre.contracts.contains_key(a));
                    }
                    assert forall|t: u64| #[trigger] self.world@.tries.contains_key(t) implies (t
                        < self.world@.nonce) by {
                        assert(wpre.tries.contains_key(t));
                    }
                    assert forall|a: AccountId, b: AccountId|
                        a != b && #[trigger] self.world@.contracts.contains_key(a) && #[trigger]
                        self.world@.contracts.contains_key(b) implies (
                    self.world@.contracts[a].trie_id != self.world@.contracts[b].trie_id) by {
                        assert(wpre.contracts.contains_key(a) && wpre.contracts.contains_key(b));
                    }
                    assert forall|a: AccountId, j: int|
                        #[trigger] self.world@.contracts.contains_key(a) && 0 <= j
                            < self.world@.queue.pending.len() implies (
                    self.world@.contracts[a].trie_id != #[trigger] self.world@.queue.pending[j]) by {
                        assert(wpre.contracts.contains_key(a));
                        assert(self.world@.queue.pending[j] == wpre.queue.pending[j + 1]);
                    }
                }
                assert(storage_bounded(self.world@, self.cfg)) by {
                    assert forall|t: u64| #[trigger] self.world@.tries.contains_key(t) implies (
                    forall|kk: Seq<u8>|
                        #[trigger] self.world@.tries[t].contains_key(kk)
                            ==> self.world@.tries[t][kk].len() <= self.cfg.max_value_len) by {
                        assert(wpre.tries.contains_key(t));
                        assert(self.world@.tries[t] == wpre.tries[t]);
                    }
                }
            }
            done = done + 1;
        }
    }
}

} // verus!

verus! {

/// The decision an upload comes to, in check order: oversized bytes are
/// rejected; bytes already stored cost nothing; fresh bytes must fit the
/// deposit allowance and the uploader's balance.  `Ok` carries the deposit
/// held from the uploader.
pub open spec fn upload_decision(
    cfg: Config,
    w: crate::state::WorldV,
    origin: AccountId,
    code: Seq<u8>,
    sdl: Option<Balance>,
) -> Result<Balance, DispatchError> {
    let h = blake2_of(code);
    let dep = item_deposit(cfg, code.len() as int);
    if code.len() > cfg.max_code_len {
        Err(DispatchError::Contract(Error::CodeTooLarge))
    } else if w.codes.contains_key(h) {
        Ok(0)
    } else if (match sdl {
        Some(l) => dep > l,
        None => false,
    }) {
        Err(DispatchError::Contract(Error::StorageDepositLimitExhausted))
    } else if !(w.balances.contains_key(origin) && w.balances[origin] >= dep) {
        Err(DispatchError::Contract(Error::StorageDepositNotEnoughFunds))
    } else {
        Ok(dep as u64)
    }
}

/// The state an upload leaves behind: unchanged unless the bytes are fresh
/// and funded, in which case the new entry is stored with no references,
/// its deposit held from the uploader, and the event recorded.
pub open spec fn upload_world_after(
    cfg: Config,
    w: crate::state::WorldV,
    origin: AccountId,
    code: Seq<u8>,
    det: Determinism,
    sdl: Option<Balance>,
) -> crate::state::WorldV {
    let h = blake2_of(code);
    let dep = item_deposit(cfg, code.len() as int);
    if upload_decision(cfg, w, origin, code, sdl) is Ok && !w.codes.contains_key(h) {
        crate::state::WorldV {
            balances: w.balances.insert(origin, (w.balances[origin] - dep) as u64),
            codes: w.codes.insert(
                h,
                CodeRecV {
                    code,
                    owner: origin,
                    deposit: dep as u64,
                    determinism: det,
                    refcount: 0,
                },
            ),
            events: w.events.push(
                EventV::CodeStored { code_hash: h, deposit_held: dep as u64, uploader: origin },
            ),
            ..w
        }
    } else {
        w
    }
}

impl Pallet {
    /// Whether a migration cursor is present.
    pub fn in_progress(&self) -> (r: bool)
        ensures
            r == (self.migration_cursor is Some),
    {
        match self.migration_cursor {
            Some(_) => true,
            Option::None => false,
        }
    }

    /// The guard called by every state-mutating entry point: fails fast
    /// while a migration cursor is present, so nothing runs against a
    /// stale schema.
    pub fn ensure_migrated(&self) -> (r: Result<(), Error>)
        ensures
            r == if self.migration_cursor is Some {
                Err::<(), Error>(Error::MigrationInProgress)
            } else {
                Ok::<(), Error>(())
            },
    {
        match self.migration_cursor {
            Some(_) => Err(Error::MigrationInProgress),
            Option::None => Ok(()),
        }
    }

    /// Starts the configured migration sequence, setting the cursor to its
    /// first step.  Does nothing when no sequence is configured or one is
    /// already under way.
    pub fn begin_migration(&mut self) -> (r: bool)
        requires
            old(self).inv(),
        ensures
            final(self).inv(),
            final(self).cfg == old(self).cfg,
            final(self).world == old(self).world,
            r == (old(self).migration_cursor is None && old(self).cfg.migration_steps > 0),
            r ==> final(self).migration_cursor == Some(0u64),
            !r ==> final(self).migration_cursor == old(self).migration_cursor,
    {
        match self.migration_cursor {
            Some(_) => false,
            Option::None => {
                if self.cfg.migration_steps > 0 {
                    self.migration_cursor = Some(0);
                    true
                } else {
                    false
                }
            },
        }
    }

    /// Performs migration steps one at a time, each atomic: a step is
    /// either fully applied and the cursor advanced, or not applied at all
    /// when the remaining budget does not cover it.  The sequence finishes
    /// with `Completed` (clearing the cursor), pauses with `InProgress`, or
    /// reports that the budget allowed no step at all.
    pub fn migrate_with_meter(&mut self, meter: &mut GasMeter) -> (r: MigrateResult)
        requires
            old(self).inv(),
            old(meter).inv(),
        ensures
            final(self).inv(),
            final(self).cfg == old(self).cfg,
            final(self).world == old(self).world,
            final(self).in_flight == old(self).in_flight,
            final(meter).inv(),
            final(meter).limit == old(meter).limit,
            match old(self).migration_cursor {
                None => r == MigrateResult::NoMigrationInProgress && *final(meter) == *old(meter)
                    && final(self).migration_cursor is None,
                Some(c) => ({
                    let k = drain_count(
                        old(meter).spec_remaining(),
                        old(self).cfg.migration_step_weight,
                        old(self).cfg.migration_steps - c,
                    );
                    &&& 0 <= k <= old(self).cfg.migration_steps - c
                    &&& final(meter).spec_remaining() == drain_left(
                        old(meter).spec_remaining(),
                        old(self).cfg.migration_step_weight,
                        old(self).cfg.migration_steps - c,
                    )
                    &&& (c + k == old(self).cfg.migration_steps
                        ==> final(self).migration_cursor is None
                        && r == MigrateResult::Completed)
                    &&& (c + k < old(self).cfg.migration_steps ==> final(self).migration_cursor
                        == Some((c + k) as u64) && r == (if k == 0 {
                        MigrateResult::NoMigrationPerformed
                    } else {
                        MigrateResult::InProgress { steps_done: k as u64 }
                    }))
                }),
            },
    {
        let c0: u64 = match self.migration_cursor {
            Some(c) => c,
            Option::None => {
                return MigrateResult::NoMigrationInProgress;
            },
        };
        let total: u64 = self.cfg.migration_steps;
        let step: Weight = self.cfg.migration_step_weight;
        let ghost m0 = *meter;
        let ghost target = drain_count(m0.spec_remaining(), step, total - c0);
        proof {
            lemma_drain_bounds(m0.spec_remaining(), step, total - c0);
        }
        let mut c: u64 = c0;
        loop
            invariant
                c0 <= c <= total,
                total == self.cfg.migration_steps,
                step == self.cfg.migration_step_weight,
                meter.inv(),
                meter.limit == m0.limit,
                target == c - c0 + drain_count(meter.spec_remaining(), step, total - c),
                drain_left(m0.spec_remaining(), step, total - c0) == drain_left(
                    meter.spec_remaining(),
                    step,
                    total - c,
                ),
            ensures
                c == c0 + target,
                drain_left(m0.spec_remaining(), step, total - c0) == meter.spec_remaining(),
            decreases total - c,
        {
            if c >= total {
                break;
            }
            if !meter.try_charge(step) {
                break;
            }
            c = c + 1;
        }
        if c == total {
            self.migration_cursor = Option::None;
            MigrateResult::Completed
        } else {
            self.migration_cursor = Some(c);
            if c == c0 {
                MigrateResult::NoMigrationPerformed
            } else {
                MigrateResult::InProgress { steps_done: c - c0 }
            }
        }
    }

    /// Uploads code, storing it under its content hash.  Identical bytes
    /// hash alike, so a second upload of the same code finds the stored
    /// entry, changes nothing, and costs its uploader no deposit.
    pub fn try_upload_code(
        &mut self,
        origin: AccountId,
        code: Vec<u8>,
        storage_deposit_limit: Option<Balance>,
        determinism: Determinism,
    ) -> (r: Result<(Vec<u8>, Balance), DispatchError>)
        requires
            old(self).inv(),
        ensures
            final(self).inv(),
            final(self).cfg == old(self).cfg,
            final(self).migration_cursor == old(self).migration_cursor,
            final(self).in_flight == old(self).in_flight,
            r matches Ok(p) ==> p.0@.len() == 32,
            ({
                let h = blake2_of(code@);
                let dep = item_deposit(old(self).cfg, code@.len() as int);
                let funded = old(self).world@.balances.contains_key(origin)
                    && old(self).world@.balances[origin] >= dep;
                if code@.len() > old(self).cfg.max_code_len {
                    r == Err::<(Vec<u8>, Balance), DispatchError>(
                        DispatchError::Contract(Error::CodeTooLarge),
                    ) && final(self).world@ == old(self).world@
                } else if old(self).world@.codes.contains_key(h) {
                    r matches Ok(p) && p.0@ == h && p.1 == 0 && final(self).world@ == old(self).world@
                } else if (match storage_deposit_limit {
                    Some(l) => dep > l,
                    None => false,
                }) {
                    r == Err::<(Vec<u8>, Balance), DispatchError>(
                        DispatchError::Contract(Error::StorageDepositLimitExhausted),
                    ) && final(self).world@ == old(self).world@
                } else if !funded {
                    r == Err::<(Vec<u8>, Balance), DispatchError>(
                        DispatchError::Contract(Error::StorageDepositNotEnoughFunds),
                    ) && final(self).world@ == old(self).world@
                } else {
                    r matches Ok(p) && p.0@ == h && p.1 == dep && final(self).world@ == (WorldV {
                        balances: old(self).world@.balances.insert(
                            origin,
                            (old(self).world@.balances[origin] - dep) as u64,
                        ),
                        codes: old(self).world@.codes.insert(
                            h,
                            CodeRecV {
                                code: code@,
                                owner: origin,
                                deposit: dep as u64,
                                determinism,
                                refcount: 0,
                            },
                        ),
                        events: old(self).world@.events.push(
                            EventV::CodeStored {
                                code_hash: h,
                                deposit_held: dep as u64,
                                uploader: origin,
                            },
                        ),
                        ..old(self).world@
                    })
                }
            }),
    {
        if (code.len() as u64) > self.cfg.max_code_len {
            return Err(DispatchError::Contract(Error::CodeTooLarge));
        }
        let h: Vec<u8> = blake2_256(&code);
        if self.world.codes.contains(&h) {
            return Ok((h, 0));
        }
        let dep: u64 = calc_item_deposit(&self.cfg, code.len() as u64);
        match storage_deposit_limit {
            Some(l) => {
                if dep > l {
                    return Err(DispatchError::Contract(Error::StorageDepositLimitExhausted));
                }
            },
            Option::None => {},
        }
        let bal: u64 = match self.world.balances.get(&origin) {
            Some(b) => *b,
            Option::None => {
                return Err(DispatchError::Contract(Error::StorageDepositNotEnoughFunds));
            },
        };
        if bal < dep {
            return Err(DispatchError::Contract(Error::StorageDepositNotEnoughFunds));
        }
        self.world.balances.insert(origin, bal - dep);
        let rec = CodeRec { code, owner: origin, deposit: dep, determinism, refcount: 0 };
        self.world.codes.insert(copy_bytes(&h), rec);
        self.world.events.push(
            Event::CodeStored { code_hash: copy_bytes(&h), deposit_held: dep, uploader: origin },
        );
        proof {
            assert(self.world@.events =~= old(self).world@.events.push(
                EventV::CodeStored { code_hash: h@, deposit_held: dep, uploader: origin },
            ));
            World::lemma_wf_parts(self.world, old(self).world);
            crate::exec::lemma_storage_bounded_parts(self.world@, old(self).world@, self.cfg);
        }
        Ok((h, dep))
    }

    /// Removes the code stored under a hash and refunds its deposit.
    /// Denied unless the caller is the original uploader and no contract
    /// references the code.
    pub fn remove_code(
        &mut self,
        origin: RuntimeOrigin,
        code_hash: Vec<u8>,
    ) -> (r: crate::types::DispatchResultWithPostInfo)
        requires
            old(self).inv(),
        ensures
            final(self).inv(),
            final(self).cfg == old(self).cfg,
            final(self).migration_cursor == old(self).migration_cursor,
            final(self).in_flight == old(self).in_flight,
            ({
                let w = old(self).world@;
                let known = w.codes.contains_key(code_hash@);
                if old(self).migration_cursor is Some {
                    r matches Err(e) && e.error == DispatchError::Contract(
                        Error::MigrationInProgress,
                    ) && final(self).world@ == w
                } else if !(origin matches RuntimeOrigin::Signed(_)) {
                    r matches Err(e) && e.error == DispatchError::BadOrigin && final(self).world@
                        == w
                } else if !known {
                    r matches Err(e) && e.error == DispatchError::Contract(Error::CodeNotFound)
                        && final(self).world@ == w
                } else if !(origin matches RuntimeOrigin::Signed(o) && w.codes[code_hash@].owner
                    == o) {
                    r matches Err(e) && e.error == DispatchError::BadOrigin && final(self).world@
                        == w
                } else if w.codes[code_hash@].refcount != 0 {
                    r matches Err(e) && e.error == DispatchError::Contract(Error::CodeInUse)
                        && final(self).world@ == w
                } else if (w.balances.contains_key(w.codes[code_hash@].owner) && ({
                    let ow = w.codes[code_hash@].owner;
                    w.balances[ow] + w.codes[code_hash@].deposit > u64::MAX
                })) {
                    r matches Err(e) && e.error == DispatchError::Contract(Error::TransferFailed)
                        && final(self).world@ == w
                } else {
                    let owner = w.codes[code_hash@].owner;
                    let dep = w.codes[code_hash@].deposit;
                    let prior = if w.balances.contains_key(owner) {
                        w.balances[owner]
                    } else {
                        0
                    };
                    r matches Ok(p) && !p.pays_fee && final(self).world@ == (WorldV {
                        balances: w.balances.insert(owner, (prior + dep) as u64),
                        codes: w.codes.remove(code_hash@),
                        events: w.events.push(
                            EventV::CodeRemoved {
                                code_hash: code_hash@,
                                deposit_released: dep,
                                remover: owner,
                            },
                        ),
                        ..w
                    })
                }
            }),
    {
        let zero_post = PostInfo { actual_weight: Weight::zero(), pays_fee: true };
        match self.ensure_migrated() {
            Err(e) => {
                return Err(
                    DispatchErrorWithPostInfo {
                        post_info: zero_post,
                        error: DispatchError::Contract(e),
                    },
                );
            },
            Ok(()) => {},
        }
        let o: AccountId = match origin {
            RuntimeOrigin::Signed(a) => a,
            _ => {
                return Err(
                    DispatchErrorWithPostInfo { post_info: zero_post, error: DispatchError::BadOrigin },
                );
            },
        };
        let (owner, dep, refcount): (AccountId, Balance, u64) = match self.world.codes.get(
            &code_hash,
        ) {
            Some(c) => (c.owner, c.deposit, c.refcount),
            Option::None => {
                return Err(
                    DispatchErrorWithPostInfo {
                        post_info: zero_post,
                        error: DispatchError::Contract(Error::CodeNotFound),
                    },
                );
            },
        };
        if owner != o {
            return Err(
                DispatchErrorWithPostInfo { post_info: zero_post, error: DispatchError::BadOrigin },
            );
        }
        if refcount != 0 {
            return Err(
                DispatchErrorWithPostInfo {
                    post_info: zero_post,
                    error: DispatchError::Contract(Error::CodeInUse),
                },
            );
        }
        let prior: u64 = match self.world.balances.get(&owner) {
            Some(b) => *b,
            Option::None => 0,
        };
        if prior > u64::MAX - dep {
            return Err(
                DispatchErrorWithPostInfo {
                    post_info: zero_post,
                    error: DispatchError::Contract(Error::TransferFailed),
                },
            );
        }
        self.world.balances.insert(owner, prior + dep);
        self.world.codes.remove(&code_hash);
        self.world.events.push(
            Event::CodeRemoved {
                code_hash: copy_bytes(&code_hash),
                deposit_released: dep,
                remover: owner,
            },
        );
        proof {
            assert(self.world@.events =~= old(self).world@.events.push(
                EventV::CodeRemoved {
                    code_hash: code_hash@,
                    deposit_released: dep,
                    remover: owner,
                },
            ));
            World::lemma_wf_parts(self.world, old(self).world);
            crate::exec::lemma_storage_bounded_parts(self.world@, old(self).world@, self.cfg);
        }
        // Removing unused code is beneficial: the fee is waived.
        Ok(PostInfo { actual_weight: Weight::zero(), pays_fee: false })
    }
}

} // verus!

verus! {

/// Settling a finished invocation's net deposit charge against the origin,
/// at the spec level: the exact mirror of the executable settlement.  A
/// positive net is debited from the origin's balance, a negative net is
/// credited back, and an origin that cannot pay (or is not an account)
/// fails the settlement.
pub open spec fn settle_against(w2: crate::state::WorldV, origin: Origin, net: int) -> Result<
    (crate::state::WorldV, StorageDeposit),
    Error,
> {
    if net == 0 {
        Ok((w2, StorageDeposit::Charge(0)))
    } else {
        match origin {
            Origin::Root => Err(Error::StorageDepositNotEnoughFunds),
            Origin::Signed(o) => {
                if net > 0 {
                    if w2.balances.contains_key(o) && w2.balances[o] >= net {
                        Ok(
                            (
                                crate::state::WorldV {
                                    balances: w2.balances.insert(o, (w2.balances[o] - net) as u64),
                                    ..w2
                                },
                                StorageDeposit::Charge(net as u64),
                            ),
                        )
                    } else {
                        Err(Error::StorageDepositNotEnoughFunds)
                    }
                } else {
                    let refund = -net;
                    let prior: int = if w2.balances.contains_key(o) {
                        w2.balances[o] as int
                    } else {
                        0
                    };
                    if refund <= u64::MAX && prior + refund <= u64::MAX {
                        Ok(
                            (
                                crate::state::WorldV {
                                    balances: w2.balances.insert(o, (prior + refund) as u64),
                                    ..w2
                                },
                                StorageDeposit::Refund(refund as u64),
                            ),
                        )
                    } else {
                        Err(Error::TransferFailed)
                    }
                }
            },
        }
    }
}

/// The balance table of `w` after the entry transfer of a call into
/// `dest`: the privileged origin carries no value.
pub open spec fn entry_balances(
    w: crate::state::WorldV,
    origin: Origin,
    dest: AccountId,
    value: Balance,
) -> Map<AccountId, Balance> {
    match origin {
        Origin::Signed(o) => balances_after_transfer(w.balances, o, dest, value),
        Origin::Root => w.balances,
    }
}

/// What the result of a call must be, as a function of the state it ran
/// against, together with the state it must leave behind: a callee without
/// code is a plain transfer that succeeds — moving exactly the value —
/// when the transfer can be performed; a callee with code fails, changing
/// nothing, exactly on unresolvable or non-deterministic code or an
/// impossible transfer; and a frame whose script takes no step is decided
/// by its outcome, a clean finish leaving the transferred value and the
/// recorded call event and nothing else.
pub open spec fn call_outcome_exact(
    cfg: Config,
    w: crate::state::WorldV,
    origin: Origin,
    dest: AccountId,
    value: Balance,
    determinism: Determinism,
    n_actions: int,
    outcome: Outcome,
    result: Result<ExecReturnValue, ExecError>,
    w2: crate::state::WorldV,
    dep: StorageDeposit,
) -> bool {
    let from = match origin {
        Origin::Signed(o) => Some(o),
        Origin::Root => None::<AccountId>,
    };
    &&& (!w.contracts.contains_key(dest) ==> (if entry_transfer_ok(
        w,
        cfg.min_balance,
        from,
        dest,
        value,
    ) {
        result matches Ok(rv) && !rv.did_revert && rv.data@.len() == 0 && w2 == (
        crate::state::WorldV { balances: entry_balances(w, origin, dest, value), ..w }) && dep
            == StorageDeposit::Charge(0)
    } else {
        result matches Err(e) && e.error == DispatchError::Contract(Error::TransferFailed) && w2
            == w && dep == StorageDeposit::Charge(0)
    }))
    &&& (w.contracts.contains_key(dest) && !code_resolvable(w, dest) ==> (result matches Err(e)
        && e.error == DispatchError::Contract(Error::CodeNotFound) && w2 == w && dep
        == StorageDeposit::Charge(0)))
    &&& (w.contracts.contains_key(dest) && code_resolvable(w, dest) && !det_ok(
        w,
        dest,
        determinism,
    ) ==> (result matches Err(e) && e.error == DispatchError::Contract(Error::Indeterministic)
        && w2 == w && dep == StorageDeposit::Charge(0)))
    &&& (w.contracts.contains_key(dest) && code_resolvable(w, dest) && det_ok(w, dest, determinism)
        && !entry_transfer_ok(w, cfg.min_balance, from, dest, value) ==> (result matches Err(e)
        && e.error == DispatchError::Contract(Error::TransferFailed) && w2 == w && dep
        == StorageDeposit::Charge(0)))
    &&& (w.contracts.contains_key(dest) && code_resolvable(w, dest) && det_ok(w, dest, determinism)
        && entry_transfer_ok(w, cfg.min_balance, from, dest, value) && n_actions == 0 ==> (
    match outcome {
        Outcome::Finish { ref data, revert } => result matches Ok(rv) && rv.did_revert == revert
            && rv.data@ == data@ && dep == StorageDeposit::Charge(0) && (if revert {
            w2 == w
        } else {
            w2 == (crate::state::WorldV {
                balances: entry_balances(w, origin, dest, value),
                events: w.events.push(EventV::Called { caller: origin, contract: dest }),
                ..w
            })
        }),
        Outcome::Trap => result matches Err(e) && e.error == DispatchError::Contract(
            Error::ContractTrapped,
        ) && w2 == w && dep == StorageDeposit::Charge(0),
    }))
}

/// What the result of an instantiation from stored code must be, as a
/// function of the state it ran against, together with the state it must
/// leave behind, in the order the engine decides: a taken address,
/// non-deterministic code, exhausted counters, an impossible endowment
/// transfer, an over-limit contract deposit, and — for a constructor
/// script that takes no step — the script's own outcome, settled against
/// the origin's remaining balance.  Every failure and every revert leaves
/// the state untouched; a settled success leaves exactly the new account
/// bound to the code, the raised reference count, the moved endowment, the
/// recorded event, and the contract deposit debited from the origin.
pub open spec fn instantiate_outcome_exact(
    cfg: Config,
    w: crate::state::WorldV,
    o: AccountId,
    h: Seq<u8>,
    addr: AccountId,
    value: Balance,
    n_actions: int,
    outcome: Outcome,
    sdl: Option<Balance>,
    result: Result<(AccountId, ExecReturnValue), ExecError>,
    w2: crate::state::WorldV,
    extra: Balance,
    dep: StorageDeposit,
) -> bool {
    let dup = w.contracts.contains_key(addr);
    let det = w.codes[h].determinism == Determinism::Enforced;
    let counters = w.nonce < u64::MAX && w.codes[h].refcount < u64::MAX;
    let paid = can_transfer(w, cfg.min_balance, o, addr, value);
    let charged = cfg.contract_deposit <= spec_deposit_limit(cfg, sdl);
    let bafter = balances_after_transfer(w.balances, o, addr, value);
    let settled = cfg.contract_deposit == 0 || (bafter.contains_key(o) && bafter[o]
        >= cfg.contract_deposit);
    let iw = crate::exec::instantiated_world(w, cfg, o, addr, h, value);
    let settled_world = crate::state::WorldV {
        balances: if cfg.contract_deposit == 0 {
            iw.balances
        } else {
            iw.balances.insert(o, (iw.balances[o] - cfg.contract_deposit) as u64)
        },
        ..iw
    };
    &&& (dup ==> (result matches Err(e) && e.error == DispatchError::Contract(
        Error::DuplicateContract,
    ) && w2 == w && dep == StorageDeposit::Charge(extra)))
    &&& (!dup && !det ==> (result matches Err(e) && e.error == DispatchError::Contract(
        Error::Indeterministic,
    ) && w2 == w && dep == StorageDeposit::Charge(extra)))
    &&& (!dup && det && !counters ==> (result matches Err(e) && e.error == DispatchError::Contract(
        Error::CounterOverflow,
    ) && w2 == w && dep == StorageDeposit::Charge(extra)))
    &&& (!dup && det && counters && !paid ==> (result matches Err(e) && e.error
        == DispatchError::Contract(Error::TransferFailed) && w2 == w && dep
        == StorageDeposit::Charge(extra)))
    &&& (!dup && det && counters && paid && !charged ==> (result matches Err(e) && e.error
        == DispatchError::Contract(Error::StorageDepositLimitExhausted) && w2 == w && dep
        == StorageDeposit::Charge(extra)))
    &&& (!dup && det && counters && paid && charged && n_actions == 0 ==> (match outcome {
        Outcome::Finish { ref data, revert } => {
            if revert {
                result matches Ok(p) && p.0 == addr && p.1.did_revert && p.1.data@ == data@ && w2
                    == w && dep == StorageDeposit::Charge(extra)
            } else if settled {
                result matches Ok(p) && p.0 == addr && !p.1.did_revert && p.1.data@ == data@ && w2
                    == settled_world && dep == StorageDeposit::Charge(
                    sat_u64(cfg.contract_deposit + extra) as u64,
                )
            } else {
                result matches Err(e) && e.error == DispatchError::Contract(
                    Error::StorageDepositNotEnoughFunds,
                ) && w2 == w && dep == StorageDeposit::Charge(extra)
            }
        },
        Outcome::Trap => result matches Err(e) && e.error == DispatchError::Contract(
            Error::ContractTrapped,
        ) && w2 == w && dep == StorageDeposit::Charge(extra),
    }))
}

/// [`instantiate_outcome_exact`], seen from the dispatch boundary, where
/// a constructor-chosen revert surfaces as an error of its own.
pub open spec fn instantiate_dispatch_outcome_exact(
    cfg: Config,
    w: crate::state::WorldV,
    o: AccountId,
    h: Seq<u8>,
    addr: AccountId,
    value: Balance,
    n_actions: int,
    outcome: Outcome,
    sdl: Option<Balance>,
    r: crate::types::DispatchResultWithPostInfo,
    w2: crate::state::WorldV,
) -> bool {
    let dup = w.contracts.contains_key(addr);
    let det = w.codes[h].determinism == Determinism::Enforced;
    let counters = w.nonce < u64::MAX && w.codes[h].refcount < u64::MAX;
    let paid = can_transfer(w, cfg.min_balance, o, addr, value);
    let charged = cfg.contract_deposit <= spec_deposit_limit(cfg, sdl);
    let bafter = balances_after_transfer(w.balances, o, addr, value);
    let settled = cfg.contract_deposit == 0 || (bafter.contains_key(o) && bafter[o]
        >= cfg.contract_deposit);
    let iw = crate::exec::instantiated_world(w, cfg, o, addr, h, value);
    let settled_world = crate::state::WorldV {
        balances: if cfg.contract_deposit == 0 {
            iw.balances
        } else {
            iw.balances.insert(o, (iw.balances[o] - cfg.contract_deposit) as u64)
        },
        ..iw
    };
    &&& (dup ==> (r matches Err(e) && e.error == DispatchError::Contract(Error::DuplicateContract)
        && w2 == w))
    &&& (!dup && !det ==> (r matches Err(e) && e.error == DispatchError::Contract(
        Error::Indeterministic,
    ) && w2 == w))
    &&& (!dup && det && !counters ==> (r matches Err(e) && e.error == DispatchError::Contract(
        Error::CounterOverflow,
    ) && w2 == w))
    &&& (!dup && det && counters && !paid ==> (r matches Err(e) && e.error
        == DispatchError::Contract(Error::TransferFailed) && w2 == w))
    &&& (!dup && det && counters && paid && !charged ==> (r matches Err(e) && e.error
        == DispatchError::Contract(Error::StorageDepositLimitExhausted) && w2 == w))
    &&& (!dup && det && counters && paid && charged && n_actions == 0 ==> (match outcome {
        Outcome::Finish { data: _, revert } => {
            if revert {
                r matches Err(e) && e.error == DispatchError::Contract(Error::ContractReverted)
                    && w2 == w
            } else if settled {
                r is Ok && w2 == settled_world
            } else {
                r matches Err(e) && e.error == DispatchError::Contract(
                    Error::StorageDepositNotEnoughFunds,
                ) && w2 == w
            }
        },
        Outcome::Trap => r matches Err(e) && e.error == DispatchError::Contract(
            Error::ContractTrapped,
        ) && w2 == w,
    }))
}

/// The complete boundary contract of a call whose script is free of
/// sub-calls: the spec fold decides the frame, a revert or failure rolls
/// everything back with the burned compute kept, and a clean finish is
/// settled against the origin — final state, result, reported deposit and
/// consumed compute all pinned.
pub open spec fn flat_call_outcome(
    cfg: Config,
    w: crate::state::WorldV,
    origin: Origin,
    dest: AccountId,
    value: Balance,
    determinism: Determinism,
    actions: Seq<Action>,
    outcome: Outcome,
    gas_limit: Weight,
    gas_start: Weight,
    sdl: Option<Balance>,
    result: Result<ExecReturnValue, ExecError>,
    w2: crate::state::WorldV,
    dep: StorageDeposit,
    gas_consumed: Weight,
) -> bool {
    let from = match origin {
        Origin::Signed(o) => Some(o),
        Origin::Root => None::<AccountId>,
    };
    (w.contracts.contains_key(dest) && code_resolvable(w, dest) && det_ok(w, dest, determinism)
        && entry_transfer_ok(w, cfg.min_balance, from, dest, value) && crate::exec::is_flat(
        actions,
        0,
    )) ==> ({
        let wentry = crate::state::WorldV {
            balances: entry_balances(w, origin, dest, value),
            ..w
        };
        let fo = crate::exec::run_flat(
            cfg,
            Seq::<AccountId>::empty(),
            dest,
            false,
            gas_limit,
            gas_start,
            spec_deposit_limit(cfg, sdl) as int,
            0,
            wentry,
            actions,
            0,
        );
        &&& gas_consumed == fo.gas_consumed
        &&& (match fo.result {
            Ok(halted) => {
                if halted {
                    match settle_against(fo.w, origin, fo.net) {
                        Ok(p) => result matches Ok(rv) && !rv.did_revert && rv.data@.len() == 0
                            && w2 == p.0 && dep == p.1,
                        Err(ce) => result matches Err(e) && e.error == DispatchError::Contract(ce)
                            && w2 == w && dep == StorageDeposit::Charge(0),
                    }
                } else {
                    match outcome {
                        Outcome::Finish { ref data, revert } => {
                            if revert {
                                result matches Ok(rv) && rv.did_revert && rv.data@ == data@ && w2
                                    == w && dep == StorageDeposit::Charge(0)
                            } else {
                                match settle_against(
                                    crate::state::WorldV {
                                        events: fo.w.events.push(
                                            EventV::Called { caller: origin, contract: dest },
                                        ),
                                        ..fo.w
                                    },
                                    origin,
                                    fo.net,
                                ) {
                                    Ok(p) => result matches Ok(rv) && !rv.did_revert && rv.data@
                                        == data@ && w2 == p.0 && dep == p.1,
                                    Err(ce) => result matches Err(e) && e.error
                                        == DispatchError::Contract(ce) && w2 == w && dep
                                        == StorageDeposit::Charge(0),
                                }
                            }
                        },
                        Outcome::Trap => result matches Err(e) && e.error
                            == DispatchError::Contract(Error::ContractTrapped) && w2 == w && dep
                            == StorageDeposit::Charge(0),
                    }
                }
            },
            Err(e2) => result matches Err(e) && e.error == DispatchError::Contract(e2) && w2 == w
                && dep == StorageDeposit::Charge(0),
        })
    })
}

/// Context shared by a call and an instantiation.
pub struct CommonInput {
    /// Who invokes.
    pub origin: Origin,
    /// Balance transferred into the callee frame.
    pub value: Balance,
    /// Compute budget of the whole invocation.
    pub gas_limit: Weight,
    /// Storage-deposit allowance, or the configured default.
    pub storage_deposit_limit: Option<Balance>,
    /// Input handed to the executed code; for an instantiation it also
    /// enters the address derivation.
    pub data: Vec<u8>,
    /// What the executed code does, frame by frame.
    pub plan: CallPlan,
}

/// Input specific to a call into an existing account.
pub struct CallInput {
    /// The account to call.
    pub dest: AccountId,
    /// The determinism mode of this invocation.
    pub determinism: Determinism,
}

/// Reference to an already stored code blob.
pub enum WasmCode {
    /// Code that was just uploaded by this operation.
    Wasm(Vec<u8>),
    /// Code referenced by the hash of an earlier upload.
    CodeHash(Vec<u8>),
}

/// Input specific to an instantiation.
pub struct InstantiateInput {
    /// The code to bind the new contract to.
    pub code: WasmCode,
    /// Salt entering the address derivation.
    pub salt: Vec<u8>,
}

/// Return type of the invocation pipeline.
pub struct InternalOutput<O> {
    /// The root compute meter after the invocation.
    pub gas_meter: GasMeter,
    /// Net storage-deposit movement, settled against the origin.
    pub storage_deposit: StorageDeposit,
    /// The outcome.
    pub result: Result<O, ExecError>,
}

/// The storage-deposit allowance an invocation runs under.
pub open spec fn spec_deposit_limit(cfg: Config, sdl: Option<Balance>) -> Balance {
    match sdl {
        Some(l) => l,
        None => cfg.default_deposit_limit,
    }
}

/// Settles the net storage-deposit of a finished invocation against the
/// origin's free balance: a positive net is debited (the ledger hold), a
/// negative net is credited back.  Fails — changing nothing — when the
/// origin cannot pay or is not an account.
fn try_into_deposit(world: &mut World, origin: Origin, net: i128) -> (r: Result<
    StorageDeposit,
    Error,
>)
    requires
        -DEPOSIT_CEIL <= net <= u64::MAX,
    ensures
        old(world).wf() ==> final(world).wf(),
        forall|cfg2: Config|
            storage_bounded(old(world)@, cfg2) ==> #[trigger] storage_bounded(final(world)@, cfg2),
        r is Err ==> final(world)@ == old(world)@,
        net == 0 ==> r == Ok::<StorageDeposit, Error>(StorageDeposit::Charge(0)) && final(world)@
            == old(world)@,
        match origin {
            Origin::Root => net != 0 ==> r == Err::<StorageDeposit, Error>(
                Error::StorageDepositNotEnoughFunds,
            ),
            Origin::Signed(o) => {
                &&& (net > 0 ==> (if old(world)@.balances.contains_key(o)
                    && old(world)@.balances[o] >= net {
                    r == Ok::<StorageDeposit, Error>(StorageDeposit::Charge(net as u64))
                        && final(world)@ == (WorldV {
                        balances: old(world)@.balances.insert(
                            o,
                            (old(world)@.balances[o] - net) as u64,
                        ),
                        ..old(world)@
                    })
                } else {
                    r == Err::<StorageDeposit, Error>(Error::StorageDepositNotEnoughFunds)
                }))
                &&& (net < 0 ==> ({
                    let refund = -net;
                    let prior: int = if old(world)@.balances.contains_key(o) {
                        old(world)@.balances[o] as int
                    } else {
                        0
                    };
                    if refund <= u64::MAX && prior + refund <= u64::MAX {
                        r == Ok::<StorageDeposit, Error>(StorageDeposit::Refund(refund as u64))
                            && final(world)@ == (WorldV {
                            balances: old(world)@.balances.insert(o, (prior + refund) as u64),
                            ..old(world)@
                        })
                    } else {
                        r == Err::<StorageDeposit, Error>(Error::TransferFailed)
                    }
                }))
            },
        },
{
    let ghost w0 = world@;
    if net == 0 {
        return Ok(StorageDeposit::Charge(0));
    }
    let o: AccountId = match origin {
        Origin::Signed(o) => o,
        Origin::Root => {
            return Err(Error::StorageDepositNotEnoughFunds);
        },
    };
    if net > 0 {
        let owed: u64 = net as u64;
        let bal: u64 = match world.balances.get(&o) {
            Some(b) => *b,
            Option::None => {
                return Err(Error::StorageDepositNotEnoughFunds);
            },
        };
        if bal < owed {
            return Err(Error::StorageDepositNotEnoughFunds);
        }
        world.balances.insert(o, bal - owed);
        proof {
            if old(world).wf() {
                World::lemma_wf_parts(*world, *old(world));
            }
            assert forall|cfg2: Config| storage_bounded(w0, cfg2) implies #[trigger]
                storage_bounded(world@, cfg2) by {
                crate::exec::lemma_storage_bounded_parts(world@, w0, cfg2);
            }
        }
        Ok(StorageDeposit::Charge(owed))
    } else {
        let wide: i128 = -net;
        if wide > u64::MAX as i128 {
            return Err(Error::TransferFailed);
        }
        let refund: u64 = wide as u64;
        let prior: u64 = match world.balances.get(&o) {
            Some(b) => *b,
            Option::None => 0,
        };
        if prior > u64::MAX - refund {
            return Err(Error::TransferFailed);
        }
        world.balances.insert(o, prior + refund);
        proof {
            if old(world).wf() {
                World::lemma_wf_parts(*world, *old(world));
            }
            assert forall|cfg2: Config| storage_bounded(w0, cfg2) implies #[trigger]
                storage_bounded(world@, cfg2) by {
                crate::exec::lemma_storage_bounded_parts(world@, w0, cfg2);
            }
        }
        Ok(StorageDeposit::Refund(refund))
    }
}

impl CallInput {
    /// A call is open to every origin, the privileged one included.
    pub fn ensure_origin(&self, origin: Origin) -> (r: Result<(), DispatchError>)
        ensures
            r is Ok,
    {
        let _ = origin;
        Ok(())
    }

    /// Runs the root call frame under fresh meters and settles the
    /// storage deposit against the origin.
    pub fn run(&self, cfg: &Config, world: &mut World, common: &CommonInput, gas: GasMeter) -> (out:
        InternalOutput<ExecReturnValue>)
        requires
            cfg.wf(),
            old(world).wf(),
            storage_bounded(old(world)@, *cfg),
            gas.inv(),
        ensures
            final(world).wf(),
            storage_bounded(final(world)@, *cfg),
            out.gas_meter.inv(),
            out.gas_meter.limit == gas.limit,
            // Nothing survives a failed or reverted invocation.
            (out.result is Err || (out.result matches Ok(rv) && rv.did_revert)) ==> final(world)@
                == old(world)@,
            // The net charge never exceeds the allowance the caller gave.
            out.storage_deposit matches StorageDeposit::Charge(c) ==> c <= spec_deposit_limit(
                *cfg,
                common.storage_deposit_limit,
            ),
            call_outcome_exact(
                *cfg,
                old(world)@,
                common.origin,
                self.dest,
                common.value,
                self.determinism,
                common.plan.actions@.len() as int,
                common.plan.outcome,
                out.result,
                final(world)@,
                out.storage_deposit,
            ),
            // Call-free scripts are pinned in full at this boundary.
            flat_call_outcome(
                *cfg,
                old(world)@,
                common.origin,
                self.dest,
                common.value,
                self.determinism,
                common.plan.actions@,
                common.plan.outcome,
                gas.limit,
                gas.consumed,
                common.storage_deposit_limit,
                out.result,
                final(world)@,
                out.storage_deposit,
                out.gas_meter.consumed,
            ),
            // The depth bound, at the boundary: a pure chain of nested
            // sub-calls succeeds in full within the configured depth and
            // fails with a depth error one level beyond it.
            (common.origin is Signed && common.value == 0 && is_call_chain(
                common.plan,
                self.dest,
            ) && chain_target_ok(old(world)@, self.dest, self.determinism)) ==> (if chain_len(
                common.plan,
                self.dest,
            ) <= cfg.max_call_depth {
                out.result matches Ok(rv) && !rv.did_revert
            } else {
                out.result matches Err(e) && e.error == DispatchError::Contract(
                    Error::MaxCallDepthReached,
                )
            }),
    {
        let limit: u64 = match common.storage_deposit_limit {
            Some(l) => l,
            Option::None => cfg.default_deposit_limit,
        };
        let mut sm = StorageMeter::new(limit);
        let mut gas = gas;
        let snap = world.snapshot();
        let from: Option<AccountId> = match common.origin {
            Origin::Signed(o) => Some(o),
            Origin::Root => Option::None,
        };
        let active: Vec<AccountId> = Vec::new();
        let res = run_call_frame(
            cfg,
            world,
            &active,
            0,
            common.origin,
            from,
            self.dest,
            common.value,
            &mut gas,
            &mut sm,
            &common.plan,
            self.determinism,
        );
        match try_into_deposit(world, common.origin, sm.net) {
            Ok(dep) => {
                proof {
                    if sm.net > 0 {
                        assert(sm.net <= sm.limit);
                    }
                }
                InternalOutput {
                    gas_meter: gas,
                    storage_deposit: dep,
                    result: match res {
                        Ok(rv) => Ok(rv),
                        Err(e) => Err(
                            ExecError {
                                error: DispatchError::Contract(e),
                                origin: ErrorOrigin::Callee,
                            },
                        ),
                    },
                }
            },
            Err(ce) => {
                *world = snap;
                proof {
                    assert(world@ == old(world)@);
                    crate::exec::lemma_storage_bounded_parts(world@, old(world)@, *cfg);
                }
                InternalOutput {
                    gas_meter: gas,
                    storage_deposit: StorageDeposit::Charge(0),
                    result: Err(
                        ExecError {
                            error: DispatchError::Contract(ce),
                            origin: ErrorOrigin::Caller,
                        },
                    ),
                }
            },
        }
    }

    /// The single entry point: checks the origin, takes the invocation
    /// lock for the whole invocation, delegates to [`CallInput::run`], and
    /// releases the lock on every exit path.  A second entry while the
    /// lock is held is denied outright and consumes nothing.
    pub fn run_guarded(&self, pallet: &mut Pallet, common: &CommonInput) -> (out: InternalOutput<
        ExecReturnValue,
    >)
        requires
            old(pallet).cfg.wf(),
            old(pallet).world.wf(),
            storage_bounded(old(pallet).world@, old(pallet).cfg),
        ensures
            final(pallet).cfg == old(pallet).cfg,
            final(pallet).world.wf(),
            storage_bounded(final(pallet).world@, final(pallet).cfg),
            final(pallet).in_flight == old(pallet).in_flight,
            final(pallet).migration_cursor == old(pallet).migration_cursor,
            out.gas_meter.inv(),
            out.gas_meter.limit == common.gas_limit,
            // Reentrance: a held lock denies the invocation — blaming the
            // caller — with no state change and zero resource consumption.
            old(pallet).in_flight ==> (out.result matches Err(e) && e.error
                == DispatchError::Contract(Error::ReentranceDenied) && e.origin
                == ErrorOrigin::Caller && final(pallet).world@ == old(pallet).world@
                && out.gas_meter.consumed == zero_weight() && out.storage_deposit
                == StorageDeposit::Charge(0)),
            (out.result is Err || (out.result matches Ok(rv) && rv.did_revert))
                ==> final(pallet).world@ == old(pallet).world@,
            out.storage_deposit matches StorageDeposit::Charge(c) ==> c <= spec_deposit_limit(
                old(pallet).cfg,
                common.storage_deposit_limit,
            ),
            !old(pallet).in_flight ==> call_outcome_exact(
                old(pallet).cfg,
                old(pallet).world@,
                common.origin,
                self.dest,
                common.value,
                self.determinism,
                common.plan.actions@.len() as int,
                common.plan.outcome,
                out.result,
                final(pallet).world@,
                out.storage_deposit,
            ),
            !old(pallet).in_flight ==> flat_call_outcome(
                old(pallet).cfg,
                old(pallet).world@,
                common.origin,
                self.dest,
                common.value,
                self.determinism,
                common.plan.actions@,
                common.plan.outcome,
                common.gas_limit,
                zero_weight(),
                common.storage_deposit_limit,
                out.result,
                final(pallet).world@,
                out.storage_deposit,
                out.gas_meter.consumed,
            ),
            (!old(pallet).in_flight && common.origin is Signed && common.value == 0
                && is_call_chain(common.plan, self.dest) && chain_target_ok(
                old(pallet).world@,
                self.dest,
                self.determinism,
            )) ==> (if chain_len(common.plan, self.dest) <= old(pallet).cfg.max_call_depth {
                out.result matches Ok(rv) && !rv.did_revert
            } else {
                out.result matches Err(e) && e.error == DispatchError::Contract(
                    Error::MaxCallDepthReached,
                )
            }),
    {
        match self.ensure_origin(common.origin) {
            Err(e) => {
                return InternalOutput {
                    gas_meter: GasMeter::new(common.gas_limit),
                    storage_deposit: StorageDeposit::Charge(0),
                    result: Err(ExecError { error: e, origin: ErrorOrigin::Caller }),
                };
            },
            Ok(()) => {},
        }
        if pallet.in_flight {
            return InternalOutput {
                gas_meter: GasMeter::new(common.gas_limit),
                storage_deposit: StorageDeposit::Charge(0),
                result: Err(
                    ExecError {
                        error: DispatchError::Contract(Error::ReentranceDenied),
                        origin: ErrorOrigin::Caller,
                    },
                ),
            };
        }
        pallet.in_flight = true;
        let out = self.run(&pallet.cfg, &mut pallet.world, common, GasMeter::new(common.gas_limit));
        pallet.in_flight = false;
        out
    }
}

impl InstantiateInput {
    /// An instantiation must bind the new contract to a concrete account,
    /// so the privileged origin is rejected.
    pub fn ensure_origin(&self, origin: Origin) -> (r: Result<(), DispatchError>)
        ensures
            r == match origin {
                Origin::Signed(_) => Ok::<(), DispatchError>(()),
                Origin::Root => Err::<(), DispatchError>(DispatchError::RootNotAllowed),
            },
    {
        match origin {
            Origin::Signed(_) => Ok(()),
            Origin::Root => Err(DispatchError::RootNotAllowed),
        }
    }

    /// Runs the root instantiation frame under fresh meters and settles
    /// the storage deposit against the origin.
    pub fn run(&self, cfg: &Config, world: &mut World, common: &CommonInput, gas: GasMeter) -> (out:
        InternalOutput<(AccountId, ExecReturnValue)>)
        requires
            cfg.wf(),
            old(world).wf(),
            storage_bounded(old(world)@, *cfg),
            gas.inv(),
        ensures
            final(world).wf(),
            storage_bounded(final(world)@, *cfg),
            out.gas_meter.inv(),
            out.gas_meter.limit == gas.limit,
            (out.result is Err || (out.result matches Ok(p) && p.1.did_revert)) ==> final(world)@
                == old(world)@,
            out.storage_deposit matches StorageDeposit::Charge(c) ==> c <= spec_deposit_limit(
                *cfg,
                common.storage_deposit_limit,
            ),
            // The new address is the content-derived one.
            out.result matches Ok(p) ==> ({
                let h = match self.code {
                    WasmCode::Wasm(ref h) => h@,
                    WasmCode::CodeHash(ref h) => h@,
                };
                match common.origin {
                    Origin::Signed(o) => p.0 == account_of_hash(
                        blake2_of(address_preimage_of(o, h, common.data@, self.salt@)),
                    ),
                    Origin::Root => false,
                }
            }),
            ({
                let h = match self.code {
                    WasmCode::Wasm(ref h) => h@,
                    WasmCode::CodeHash(ref h) => h@,
                };
                match common.origin {
                    Origin::Signed(o) => {
                        &&& (h.len() > 0xFFFF_FFFF || common.data@.len() > 0xFFFF_FFFF
                            || self.salt@.len() > 0xFFFF_FFFF ==> (out.result matches Err(e)
                            && e.error == DispatchError::Contract(Error::ValueTooLarge) && final(world)@ == old(world)@))
                        &&& (h.len() <= 0xFFFF_FFFF && common.data@.len() <= 0xFFFF_FFFF
                            && self.salt@.len() <= 0xFFFF_FFFF ==> {
                            &&& (!old(world)@.codes.contains_key(h) ==> (out.result matches Err(e)
                                && e.error == DispatchError::Contract(Error::CodeNotFound)))
                            &&& (old(world)@.codes.contains_key(h) ==> instantiate_outcome_exact(
                                *cfg,
                                old(world)@,
                                o,
                                h,
                                account_of_hash(
                                    blake2_of(
                                        address_preimage_of(o, h, common.data@, self.salt@),
                                    ),
                                ),
                                common.value,
                                common.plan.actions@.len() as int,
                                common.plan.outcome,
                                common.storage_deposit_limit,
                                out.result,
                                final(world)@,
                                0,
                                out.storage_deposit,
                            ))
                        })
                    },
                    Origin::Root => true,
                }
            }),
    {
        let limit: u64 = match common.storage_deposit_limit {
            Some(l) => l,
            Option::None => cfg.default_deposit_limit,
        };
        let mut sm = StorageMeter::new(limit);
        let mut gas = gas;
        let o: AccountId = match common.origin {
            Origin::Signed(o) => o,
            Origin::Root => {
                return InternalOutput {
                    gas_meter: gas,
                    storage_deposit: StorageDeposit::Charge(0),
                    result: Err(
                        ExecError {
                            error: DispatchError::RootNotAllowed,
                            origin: ErrorOrigin::Caller,
                        },
                    ),
                };
            },
        };
        let h: &Vec<u8> = match &self.code {
            WasmCode::Wasm(h) => h,
            WasmCode::CodeHash(h) => h,
        };
        // The address-preimage encoder supports byte strings below the
        // compact-length ceiling only; longer inputs are rejected before
        // anything is derived or touched.
        if (h.len() as u64) > 0xFFFF_FFFF || (common.data.len() as u64) > 0xFFFF_FFFF || (
        self.salt.len() as u64) > 0xFFFF_FFFF {
            return InternalOutput {
                gas_meter: gas,
                storage_deposit: StorageDeposit::Charge(0),
                result: Err(
                    ExecError {
                        error: DispatchError::Contract(Error::ValueTooLarge),
                        origin: ErrorOrigin::Caller,
                    },
                ),
            };
        }
        if !world.codes.contains(h) {
            return InternalOutput {
                gas_meter: gas,
                storage_deposit: StorageDeposit::Charge(0),
                result: Err(
                    ExecError {
                        error: DispatchError::Contract(Error::CodeNotFound),
                        origin: ErrorOrigin::Caller,
                    },
                ),
            };
        }
        let addr: AccountId = Pallet::contract_address(&o, h, &common.data, &self.salt);
        let snap = world.snapshot();
        let active: Vec<AccountId> = Vec::new();
        let res = run_instantiate_frame(
            cfg,
            world,
            &active,
            0,
            o,
            addr,
            h,
            common.value,
            &mut gas,
            &mut sm,
            &common.plan,
        );
        match try_into_deposit(world, common.origin, sm.net) {
            Ok(dep) => InternalOutput {
                gas_meter: gas,
                storage_deposit: dep,
                result: match res {
                    Ok(p) => Ok(p),
                    Err(e) => Err(
                        ExecError {
                            error: DispatchError::Contract(e),
                            origin: ErrorOrigin::Callee,
                        },
                    ),
                },
            },
            Err(ce) => {
                *world = snap;
                proof {
                    assert(world@ == old(world)@);
                    crate::exec::lemma_storage_bounded_parts(world@, old(world)@, *cfg);
                }
                InternalOutput {
                    gas_meter: gas,
                    storage_deposit: StorageDeposit::Charge(0),
                    result: Err(
                        ExecError {
                            error: DispatchError::Contract(ce),
                            origin: ErrorOrigin::Caller,
                        },
                    ),
                }
            },
        }
    }

    /// The single entry point for instantiations; see
    /// [`CallInput::run_guarded`].
    pub fn run_guarded(&self, pallet: &mut Pallet, common: &CommonInput) -> (out: InternalOutput<
        (AccountId, ExecReturnValue),
    >)
        requires
            old(pallet).cfg.wf(),
            old(pallet).world.wf(),
            storage_bounded(old(pallet).world@, old(pallet).cfg),
        ensures
            final(pallet).cfg == old(pallet).cfg,
            final(pallet).world.wf(),
            storage_bounded(final(pallet).world@, final(pallet).cfg),
            final(pallet).in_flight == old(pallet).in_flight,
            final(pallet).migration_cursor == old(pallet).migration_cursor,
            out.gas_meter.inv(),
            out.gas_meter.limit == common.gas_limit,
            out.result matches Ok(p) ==> ({
                let h = match self.code {
                    WasmCode::Wasm(ref h) => h@,
                    WasmCode::CodeHash(ref h) => h@,
                };
                match common.origin {
                    Origin::Signed(o) => p.0 == account_of_hash(
                        blake2_of(address_preimage_of(o, h, common.data@, self.salt@)),
                    ),
                    Origin::Root => false,
                }
            }),
            common.origin is Root ==> (out.result matches Err(e) && e.error
                == DispatchError::RootNotAllowed && e.origin == ErrorOrigin::Caller
                && final(pallet).world@ == old(pallet).world@
                && out.gas_meter.consumed == zero_weight()
                && out.storage_deposit == StorageDeposit::Charge(0)),
            !old(pallet).in_flight ==> ({
                let h = match self.code {
                    WasmCode::Wasm(ref h) => h@,
                    WasmCode::CodeHash(ref h) => h@,
                };
                match common.origin {
                    Origin::Signed(o) => {
                        &&& (h.len() > 0xFFFF_FFFF || common.data@.len() > 0xFFFF_FFFF
                            || self.salt@.len() > 0xFFFF_FFFF ==> (out.result matches Err(e)
                            && e.error == DispatchError::Contract(Error::ValueTooLarge) && final(pallet).world@ == old(pallet).world@))
                        &&& (h.len() <= 0xFFFF_FFFF && common.data@.len() <= 0xFFFF_FFFF
                            && self.salt@.len() <= 0xFFFF_FFFF ==> {
                            &&& (!old(pallet).world@.codes.contains_key(h) ==> (out.result
                                matches Err(e) && e.error == DispatchError::Contract(
                                Error::CodeNotFound,
                            )))
                            &&& (old(pallet).world@.codes.contains_key(h)
                                ==> instantiate_outcome_exact(
                                old(pallet).cfg,
                                old(pallet).world@,
                                o,
                                h,
                                account_of_hash(
                                    blake2_of(
                                        address_preimage_of(o, h, common.data@, self.salt@),
                                    ),
                                ),
                                common.value,
                                common.plan.actions@.len() as int,
                                common.plan.outcome,
                                common.storage_deposit_limit,
                                out.result,
                                final(pallet).world@,
                                0,
                                out.storage_deposit,
                            ))
                        })
                    },
                    Origin::Root => true,
                }
            }),
            old(pallet).in_flight && common.origin is Signed ==> (out.result matches Err(e)
                && e.error == DispatchError::Contract(Error::ReentranceDenied) && e.origin
                == ErrorOrigin::Caller && final(pallet).world@ == old(pallet).world@
                && out.gas_meter.consumed == zero_weight() && out.storage_deposit
                == StorageDeposit::Charge(0)),
            (out.result is Err || (out.result matches Ok(p) && p.1.did_revert))
                ==> final(pallet).world@ == old(pallet).world@,
            out.storage_deposit matches StorageDeposit::Charge(c) ==> c <= spec_deposit_limit(
                old(pallet).cfg,
                common.storage_deposit_limit,
            ),
    {
        match self.ensure_origin(common.origin) {
            Err(e) => {
                return InternalOutput {
                    gas_meter: GasMeter::new(common.gas_limit),
                    storage_deposit: StorageDeposit::Charge(0),
                    result: Err(ExecError { error: e, origin: ErrorOrigin::Caller }),
                };
            },
            Ok(()) => {},
        }
        if pallet.in_flight {
            return InternalOutput {
                gas_meter: GasMeter::new(common.gas_limit),
                storage_deposit: StorageDeposit::Charge(0),
                result: Err(
                    ExecError {
                        error: DispatchError::Contract(Error::ReentranceDenied),
                        origin: ErrorOrigin::Caller,
                    },
                ),
            };
        }
        pallet.in_flight = true;
        let out = self.run(&pallet.cfg, &mut pallet.world, common, GasMeter::new(common.gas_limit));
        pallet.in_flight = false;
        out
    }
}

impl Pallet {
    /// Determines the address of a contract from its deployer, code hash,
    /// constructor input and salt.  The preimage encoder supports byte
    /// strings below the compact-length ceiling only, so longer inputs are
    /// excluded — the engine's entry points reject them before deriving an
    /// address.
    pub fn contract_address(
        deploying_address: &AccountId,
        code_hash: &Vec<u8>,
        input_data: &Vec<u8>,
        salt: &Vec<u8>,
    ) -> (r: AccountId)
        requires
            code_hash@.len() <= 0xFFFF_FFFF,
            input_data@.len() <= 0xFFFF_FFFF,
            salt@.len() <= 0xFFFF_FFFF,
        ensures
            r == account_of_hash(
                blake2_of(
                    address_preimage_of(*deploying_address, code_hash@, input_data@, salt@),
                ),
            ),
    {
        let pre = encode_address_parts(*deploying_address, code_hash, input_data, salt);
        let h = blake2_256(&pre);
        account_from_hash(&h)
    }
}

} // verus!

verus! {

/// Clamps an unbounded intermediate to the `u64` range, as the saturating
/// machine operations do.
pub open spec fn sat_u64(x: int) -> int {
    if x > u64::MAX {
        u64::MAX as int
    } else if x < 0 {
        0
    } else {
        x
    }
}

/// Saturating product of two machine words.
fn sat_mul_u64(a: u64, b: u64) -> (r: u64)
    ensures
        r == sat_u64(a as int * b as int),
{
    proof {
        assert((a as int) * (b as int) <= 0xFFFF_FFFF_FFFF_FFFF * 0xFFFF_FFFF_FFFF_FFFF)
            by (nonlinear_arith)
            requires
                0 <= a as int <= 0xFFFF_FFFF_FFFF_FFFF,
                0 <= b as int <= 0xFFFF_FFFF_FFFF_FFFF,
        ;
    }
    let wide: u128 = (a as u128) * (b as u128);
    if wide > u64::MAX as u128 {
        u64::MAX
    } else {
        wide as u64
    }
}

/// Saturating sum of two machine words.
fn sat_add_u64(a: u64, b: u64) -> (r: u64)
    ensures
        r == sat_u64(a as int + b as int),
{
    if a <= u64::MAX - b {
        a + b
    } else {
        u64::MAX
    }
}

/// Saturating difference of two machine words.
fn sat_sub_u64(a: u64, b: u64) -> (r: u64)
    ensures
        r == sat_u64(a as int - b as int),
{
    if a >= b {
        a - b
    } else {
        0
    }
}

/// Memory a single executing frame's value stack may use, in bytes.
pub const MAX_STACK_SIZE: u64 = 0x100000;

/// Smallest diagnostic buffer that can hold a plain error message.
pub const MIN_DEBUG_BUF_SIZE: u64 = 256;

/// Bytes a decoded instruction may occupy for each encoded byte, times the
/// worst-case allocator overhead.
pub const CODE_BLOWUP: u64 = 68;

/// Whether the configuration can not break the runtime's memory and
/// storage limits: the worst-case memory of a full call stack of largest
/// contracts stays within half the runtime memory, the diagnostic buffer
/// can hold an error message, and neither storage writes nor events can
/// outgrow a validator's memory within one block's compute budget.
pub open spec fn integrity_ok(cfg: Config) -> bool {
    let transient2 = sat_u64(cfg.max_transient_storage_size * 2);
    let code_len_limit = sat_u64(
        sat_u64(
            sat_u64(
                sat_u64(cfg.runtime_memory / 2 - transient2) / (if cfg.max_call_depth == 0 {
                    1
                } else {
                    cfg.max_call_depth as int
                }) - cfg.max_heap_size,
            ) - MAX_STACK_SIZE,
        ) / CODE_BLOWUP as int,
    );
    let key_size = sat_u64(cfg.max_storage_key_len + 16);
    let ss_w = sat_u64(cfg.set_storage_weight_base + sat_u64(
        cfg.set_storage_weight_byte * cfg.payload_len,
    ));
    let ev_w = sat_u64(cfg.deposit_event_weight_base + sat_u64(
        cfg.deposit_event_weight_byte * cfg.payload_len,
    ));
    let storage_size_limit = sat_u64(cfg.validator_runtime_memory - cfg.runtime_memory) / 2;
    &&& cfg.max_call_depth > 0
    &&& cfg.max_code_len < code_len_limit
    &&& cfg.max_debug_buffer_len > MIN_DEBUG_BUF_SIZE
    &&& ss_w > 0
    &&& sat_u64((cfg.block_ref_time as int / ss_w) * sat_u64(cfg.payload_len + key_size))
        < storage_size_limit
    &&& ev_w > 0
    &&& sat_u64((cfg.block_ref_time as int / ev_w) * cfg.payload_len) < storage_size_limit
}

impl Pallet {
    /// Checks [`integrity_ok`] for this engine's configuration.
    pub fn integrity_test(&self) -> (r: bool)
        ensures
            r == integrity_ok(self.cfg),
    {
        let cfg = &self.cfg;
        if cfg.max_call_depth == 0 {
            return false;
        }
        let transient2: u64 = sat_mul_u64(cfg.max_transient_storage_size, 2);
        let code_len_limit: u64 = sat_sub_u64(
            sat_sub_u64(
                sat_sub_u64(cfg.runtime_memory / 2, transient2) / cfg.max_call_depth,
                cfg.max_heap_size,
            ),
            MAX_STACK_SIZE,
        ) / CODE_BLOWUP;
        if !(cfg.max_code_len < code_len_limit) {
            return false;
        }
        if !(cfg.max_debug_buffer_len > MIN_DEBUG_BUF_SIZE) {
            return false;
        }
        let key_size: u64 = sat_add_u64(cfg.max_storage_key_len, 16);
        let ss_w: u64 = sat_add_u64(
            cfg.set_storage_weight_base,
            sat_mul_u64(cfg.set_storage_weight_byte, cfg.payload_len),
        );
        if ss_w == 0 {
            return false;
        }
        let storage_size_limit: u64 = sat_sub_u64(
            cfg.validator_runtime_memory,
            cfg.runtime_memory,
        ) / 2;
        let max_storage_size: u64 = sat_mul_u64(
            cfg.block_ref_time / ss_w,
            sat_add_u64(cfg.payload_len, key_size),
        );
        if !(max_storage_size < storage_size_limit) {
            return false;
        }
        let ev_w: u64 = sat_add_u64(
            cfg.deposit_event_weight_base,
            sat_mul_u64(cfg.deposit_event_weight_byte, cfg.payload_len),
        );
        if ev_w == 0 {
            return false;
        }
        let max_events_size: u64 = sat_mul_u64(cfg.block_ref_time / ev_w, cfg.payload_len);
        if !(max_events_size < storage_size_limit) {
            return false;
        }
        true
    }

    /// The existential deposit of the ledger.
    pub fn min_balance(&self) -> (r: Balance)
        ensures
            r == self.cfg.min_balance,
    {
        self.cfg.min_balance
    }

    /// Converts a one-dimensional compute limit into a two-dimensional
    /// one, with a proof-size allowance wide enough for legacy callers.
    pub fn compat_weight_limit(&self, gas_limit: u64) -> (r: Weight)
        requires
            self.cfg.wf(),
        ensures
            r.ref_time == gas_limit,
            r.proof_size == self.cfg.max_code_len * 2,
    {
        Weight { ref_time: gas_limit, proof_size: self.cfg.max_code_len * 2 }
    }

    /// Records an engine event.
    pub fn deposit_event(&mut self, event: Event)
        requires
            old(self).inv(),
        ensures
            final(self).inv(),
            final(self).cfg == old(self).cfg,
            final(self).migration_cursor == old(self).migration_cursor,
            final(self).world@ == (WorldV {
                events: old(self).world@.events.push(event@),
                ..old(self).world@
            }),
    {
        crate::exec::push_event(&mut self.world, event);
    }

    /// The events recorded so far, for a caller that asked to collect
    /// them.
    fn collected_events(&self) -> (r: Vec<Event>)
        ensures
            r@.map_values(|e: Event| e@) == self.world@.events,
    {
        let n = self.world.events.len();
        let mut r: Vec<Event> = Vec::new();
        let mut i: usize = 0;
        while i < n
            invariant
                n == self.world.events@.len(),
                i <= n,
                r@.len() == i,
                forall|j: int| 0 <= j < i ==> r@[j]@ == self.world.events@[j]@,
            decreases n - i,
        {
            r.push(self.world.events[i].dup());
            i += 1;
        }
        proof {
            assert(r@.map_values(|e: Event| e@) =~= self.world@.events);
        }
        r
    }

    /// Queries one key of a contract's storage namespace.
    pub fn get_storage(&self, address: AccountId, key: Vec<u8>) -> (r: Result<
        Option<Vec<u8>>,
        ContractAccessError,
    >)
        ensures
            ({
                let w = self.world@;
                if self.migration_cursor is Some {
                    r == Err::<Option<Vec<u8>>, ContractAccessError>(
                        ContractAccessError::MigrationInProgress,
                    )
                } else if !w.contracts.contains_key(address) {
                    r == Err::<Option<Vec<u8>>, ContractAccessError>(
                        ContractAccessError::DoesntExist,
                    )
                } else if key@.len() > self.cfg.max_storage_key_len {
                    r == Err::<Option<Vec<u8>>, ContractAccessError>(
                        ContractAccessError::KeyDecodingFailed,
                    )
                } else {
                    let t = crate::exec::trie_of(w, w.contracts[address].trie_id);
                    if t.contains_key(key@) {
                        r matches Ok(v) && v matches Some(bytes) && bytes@ == t[key@]
                    } else {
                        r == Ok::<Option<Vec<u8>>, ContractAccessError>(Option::None)
                    }
                }
            }),
    {
        if self.in_progress() {
            return Err(ContractAccessError::MigrationInProgress);
        }
        let info: &ContractInfo = match self.world.contracts.get(&address) {
            Some(c) => c,
            Option::None => {
                return Err(ContractAccessError::DoesntExist);
            },
        };
        if (key.len() as u64) > self.cfg.max_storage_key_len {
            return Err(ContractAccessError::KeyDecodingFailed);
        }
        match self.world.tries.get(&info.trie_id) {
            Some(t) => match t.get(&key) {
                Some(v) => Ok(Some(copy_bytes(v))),
                Option::None => Ok(Option::None),
            },
            Option::None => Ok(Option::None),
        }
    }

    /// The code hash a contract is bound to.
    pub fn code_hash(&self, account: &AccountId) -> (r: Option<Vec<u8>>)
        ensures
            match r {
                Some(h) => self.world@.contracts.contains_key(*account) && h@
                    == self.world@.contracts[*account].code_hash,
                None => !self.world@.contracts.contains_key(*account),
            },
    {
        match self.world.contracts.get(account) {
            Some(c) => Some(copy_bytes(&c.code_hash)),
            Option::None => Option::None,
        }
    }
}

impl Origin {
    /// Creates a signed caller from an account id.
    pub fn from_account_id(account_id: AccountId) -> (r: Self)
        ensures
            r == Origin::Signed(account_id),
    {
        Origin::Signed(account_id)
    }

    /// Converts a raw dispatch origin, rejecting anything that is neither
    /// the privileged origin nor a signed account.
    pub fn from_runtime_origin(o: RuntimeOrigin) -> (r: Result<Self, DispatchError>)
        ensures
            r == match o {
                RuntimeOrigin::Root => Ok::<Origin, DispatchError>(Origin::Root),
                RuntimeOrigin::Signed(a) => Ok::<Origin, DispatchError>(Origin::Signed(a)),
                RuntimeOrigin::Other => Err::<Origin, DispatchError>(DispatchError::BadOrigin),
            },
    {
        match o {
            RuntimeOrigin::Root => Ok(Origin::Root),
            RuntimeOrigin::Signed(a) => Ok(Origin::Signed(a)),
            RuntimeOrigin::Other => Err(DispatchError::BadOrigin),
        }
    }

    /// The account id of a signed origin; the privileged origin has none.
    pub fn account_id(&self) -> (r: Result<AccountId, DispatchError>)
        ensures
            r == match *self {
                Origin::Signed(a) => Ok::<AccountId, DispatchError>(a),
                Origin::Root => Err::<AccountId, DispatchError>(DispatchError::RootNotAllowed),
            },
    {
        match self {
            Origin::Signed(a) => Ok(*a),
            Origin::Root => Err(DispatchError::RootNotAllowed),
        }
    }
}

} // verus!

verus! {

/// Adds an already-settled charge (an upload deposit) to the net deposit
/// movement of an invocation.
fn deposit_add_charge(d: StorageDeposit, extra: Balance) -> (r: StorageDeposit)
    ensures
        r == match d {
            StorageDeposit::Charge(c) => StorageDeposit::Charge(sat_u64(c + extra) as u64),
            StorageDeposit::Refund(f) => if extra >= f {
                StorageDeposit::Charge((extra - f) as u64)
            } else {
                StorageDeposit::Refund((f - extra) as u64)
            },
        },
{
    match d {
        StorageDeposit::Charge(c) => StorageDeposit::Charge(sat_add_u64(c, extra)),
        StorageDeposit::Refund(f) => {
            if extra >= f {
                StorageDeposit::Charge(extra - f)
            } else {
                StorageDeposit::Refund(f - extra)
            }
        },
    }
}

impl Pallet {
    /// Makes a call to an account, optionally transferring some balance.
    /// The account's code runs in the root frame; a contract-chosen revert
    /// is surfaced here as an error, with every effect rolled back.
    pub fn call(
        &mut self,
        origin: RuntimeOrigin,
        dest: AccountId,
        value: Balance,
        gas_limit: Weight,
        storage_deposit_limit: Option<Balance>,
        data: Vec<u8>,
        plan: CallPlan,
    ) -> (r: crate::types::DispatchResultWithPostInfo)
        requires
            old(self).inv(),
        ensures
            final(self).inv(),
            final(self).cfg == old(self).cfg,
            final(self).migration_cursor == old(self).migration_cursor,
            old(self).migration_cursor is Some ==> (r matches Err(e) && e.error
                == DispatchError::Contract(Error::MigrationInProgress) && final(self).world@ == old(self).world@),
            old(self).migration_cursor is None && origin is Other ==> (r matches Err(e) && e.error
                == DispatchError::BadOrigin && final(self).world@ == old(self).world@),
            r is Err ==> final(self).world@ == old(self).world@,
            // With no migration pending and an acceptable origin, the
            // dispatch outcome is pinned by the state the call ran against,
            // a contract-chosen revert surfacing as its own error.
            ({
                let w = old(self).world@;
                let from = match origin {
                    RuntimeOrigin::Signed(o) => Some(o),
                    _ => None::<AccountId>,
                };
                let entry_ok = w.contracts.contains_key(dest) && code_resolvable(w, dest)
                    && det_ok(w, dest, Determinism::Enforced) && entry_transfer_ok(
                    w,
                    old(self).cfg.min_balance,
                    from,
                    dest,
                    value,
                );
                let origin2 = match origin {
                    RuntimeOrigin::Signed(o) => Origin::Signed(o),
                    _ => Origin::Root,
                };
                old(self).migration_cursor is None && !(origin is Other) ==> {
                    &&& (!w.contracts.contains_key(dest) && entry_transfer_ok(
                        w,
                        old(self).cfg.min_balance,
                        from,
                        dest,
                        value,
                    ) ==> (r is Ok && final(self).world@ == (crate::state::WorldV {
                        balances: entry_balances(w, origin2, dest, value),
                        ..w
                    })))
                    &&& (!w.contracts.contains_key(dest) && !entry_transfer_ok(
                        w,
                        old(self).cfg.min_balance,
                        from,
                        dest,
                        value,
                    ) ==> (r matches Err(e) && e.error == DispatchError::Contract(
                        Error::TransferFailed,
                    )))
                    &&& (entry_ok && plan.actions@.len() == 0 ==> (match plan.outcome {
                        Outcome::Finish { data: _, revert } => {
                            if revert {
                                r matches Err(e) && e.error == DispatchError::Contract(
                                    Error::ContractReverted,
                                )
                            } else {
                                r is Ok && final(self).world@ == (crate::state::WorldV {
                                    balances: entry_balances(w, origin2, dest, value),
                                    events: w.events.push(
                                        EventV::Called { caller: origin2, contract: dest },
                                    ),
                                    ..w
                                })
                            }
                        },
                        Outcome::Trap => r matches Err(e) && e.error == DispatchError::Contract(
                            Error::ContractTrapped,
                        ),
                    }))
                }
            }),
            // Weight accounting: the reported weight never exceeds the
            // supplied compute limit, on success and on failure alike.
            r matches Ok(p) ==> p.actual_weight.spec_fits(gas_limit),
            r matches Err(e) ==> e.post_info.actual_weight.spec_fits(gas_limit),
    {
        let zero_post = PostInfo { actual_weight: Weight::zero(), pays_fee: true };
        match self.ensure_migrated() {
            Err(e) => {
                return Err(
                    DispatchErrorWithPostInfo {
                        post_info: zero_post,
                        error: DispatchError::Contract(e),
                    },
                );
            },
            Ok(()) => {},
        }
        let origin2: Origin = match Origin::from_runtime_origin(origin) {
            Ok(o) => o,
            Err(e) => {
                return Err(DispatchErrorWithPostInfo { post_info: zero_post, error: e });
            },
        };
        let common = CommonInput {
            origin: origin2,
            value,
            gas_limit,
            storage_deposit_limit,
            data,
            plan,
        };
        let input = CallInput { dest, determinism: Determinism::Enforced };
        let out = input.run_guarded(self, &common);
        let spent = out.gas_meter.consumed;
        match out.result {
            Ok(rv) => {
                if rv.did_revert() {
                    Err(
                        DispatchErrorWithPostInfo {
                            post_info: PostInfo { actual_weight: spent, pays_fee: true },
                            error: DispatchError::Contract(Error::ContractReverted),
                        },
                    )
                } else {
                    Ok(PostInfo { actual_weight: spent, pays_fee: true })
                }
            },
            Err(e) => Err(
                DispatchErrorWithPostInfo {
                    post_info: PostInfo { actual_weight: spent, pays_fee: true },
                    error: e.error,
                },
            ),
        }
    }

    /// Instantiates a contract from code already stored under a hash.
    pub fn instantiate(
        &mut self,
        origin: RuntimeOrigin,
        value: Balance,
        gas_limit: Weight,
        storage_deposit_limit: Option<Balance>,
        code_hash: Vec<u8>,
        data: Vec<u8>,
        salt: Vec<u8>,
        plan: CallPlan,
    ) -> (r: crate::types::DispatchResultWithPostInfo)
        requires
            old(self).inv(),
        ensures
            final(self).inv(),
            final(self).cfg == old(self).cfg,
            final(self).migration_cursor == old(self).migration_cursor,
            old(self).migration_cursor is Some ==> (r matches Err(e) && e.error
                == DispatchError::Contract(Error::MigrationInProgress) && final(self).world@ == old(self).world@),
            old(self).migration_cursor is None && origin is Root ==> (r matches Err(e) && e.error
                == DispatchError::RootNotAllowed && final(self).world@ == old(self).world@),
            r is Err ==> final(self).world@ == old(self).world@,
            // With no migration pending, the outcome is pinned by the state
            // the instantiation ran against; a constructor-chosen revert
            // surfaces as its own error with every effect rolled back.
            ({
                let w = old(self).world@;
                old(self).migration_cursor is None ==> (origin matches RuntimeOrigin::Signed(o)
                    ==> {
                    &&& (code_hash@.len() > 0xFFFF_FFFF || data@.len() > 0xFFFF_FFFF || salt@.len()
                        > 0xFFFF_FFFF ==> (r matches Err(e) && e.error == DispatchError::Contract(
                        Error::ValueTooLarge,
                    )))
                    &&& (code_hash@.len() <= 0xFFFF_FFFF && data@.len() <= 0xFFFF_FFFF
                        && salt@.len() <= 0xFFFF_FFFF ==> {
                        &&& (!w.codes.contains_key(code_hash@) ==> (r matches Err(e) && e.error
                            == DispatchError::Contract(Error::CodeNotFound)))
                        &&& (w.codes.contains_key(code_hash@)
                            ==> instantiate_dispatch_outcome_exact(
                            old(self).cfg,
                            w,
                            o,
                            code_hash@,
                            account_of_hash(
                                blake2_of(address_preimage_of(o, code_hash@, data@, salt@)),
                            ),
                            value,
                            plan.actions@.len() as int,
                            plan.outcome,
                            storage_deposit_limit,
                            r,
                            final(self).world@,
                        ))
                    })
                })
            }),
            // Weight accounting: the reported weight never exceeds the
            // supplied compute limit, on success and on failure alike.
            r matches Ok(p) ==> p.actual_weight.spec_fits(gas_limit),
            r matches Err(e) ==> e.post_info.actual_weight.spec_fits(gas_limit),
    {
        let zero_post = PostInfo { actual_weight: Weight::zero(), pays_fee: true };
        match self.ensure_migrated() {
            Err(e) => {
                return Err(
                    DispatchErrorWithPostInfo {
                        post_info: zero_post,
                        error: DispatchError::Contract(e),
                    },
                );
            },
            Ok(()) => {},
        }
        let origin2: Origin = match Origin::from_runtime_origin(origin) {
            Ok(o) => o,
            Err(e) => {
                return Err(DispatchErrorWithPostInfo { post_info: zero_post, error: e });
            },
        };
        let common = CommonInput {
            origin: origin2,
            value,
            gas_limit,
            storage_deposit_limit,
            data,
            plan,
        };
        let input = InstantiateInput { code: WasmCode::CodeHash(code_hash), salt };
        let out = input.run_guarded(self, &common);
        let spent = out.gas_meter.consumed;
        match out.result {
            Ok(p) => {
                if p.1.did_revert() {
                    Err(
                        DispatchErrorWithPostInfo {
                            post_info: PostInfo { actual_weight: spent, pays_fee: true },
                            error: DispatchError::Contract(Error::ContractReverted),
                        },
                    )
                } else {
                    Ok(PostInfo { actual_weight: spent, pays_fee: true })
                }
            },
            Err(e) => Err(
                DispatchErrorWithPostInfo {
                    post_info: PostInfo { actual_weight: spent, pays_fee: true },
                    error: e.error,
                },
            ),
        }
    }

    /// Uploads the supplied code, then instantiates a contract from it in
    /// one operation.  The upload stands on its own: a constructor failure
    /// does not remove code that was freshly stored.
    pub fn instantiate_with_code(
        &mut self,
        origin: RuntimeOrigin,
        value: Balance,
        gas_limit: Weight,
        storage_deposit_limit: Option<Balance>,
        code: Vec<u8>,
        data: Vec<u8>,
        salt: Vec<u8>,
        plan: CallPlan,
    ) -> (r: crate::types::DispatchResultWithPostInfo)
        requires
            old(self).inv(),
        ensures
            final(self).inv(),
            final(self).cfg == old(self).cfg,
            final(self).migration_cursor == old(self).migration_cursor,
            old(self).migration_cursor is Some ==> (r matches Err(e) && e.error
                == DispatchError::Contract(Error::MigrationInProgress) && final(self).world@ == old(self).world@),
            old(self).migration_cursor is None && !(origin is Signed) ==> (r matches Err(e)
                && e.error == DispatchError::BadOrigin && final(self).world@ == old(self).world@),
            // The upload decision is pinned; after a successful upload the
            // instantiation is pinned against the uploaded state under the
            // reduced allowance, a constructor-chosen revert surfacing as
            // its own error.  A failed constructor leaves a fresh upload
            // in place, and nothing else.
            ({
                let w = old(self).world@;
                old(self).migration_cursor is None && data@.len() <= 0xFFFF_FFFF && salt@.len()
                    <= 0xFFFF_FFFF ==> (origin matches RuntimeOrigin::Signed(o)
                    ==> ({
                    let uw = upload_world_after(
                        old(self).cfg,
                        w,
                        o,
                        code@,
                        Determinism::Enforced,
                        storage_deposit_limit,
                    );
                    let h = blake2_of(code@);
                    match upload_decision(old(self).cfg, w, o, code@, storage_deposit_limit) {
                        Ok(dep) => instantiate_dispatch_outcome_exact(
                            old(self).cfg,
                            uw,
                            o,
                            h,
                            account_of_hash(blake2_of(address_preimage_of(o, h, data@, salt@))),
                            value,
                            plan.actions@.len() as int,
                            plan.outcome,
                            match storage_deposit_limit {
                                Some(l) => Some(sat_u64(l - dep) as u64),
                                None => None::<u64>,
                            },
                            r,
                            final(self).world@,
                        ),
                        Err(e) => r matches Err(de) && de.error == e && final(self).world@ == w,
                    }
                }))
            }),
            // Weight accounting: the reported weight never exceeds the
            // supplied compute limit, on success and on failure alike.
            r matches Ok(p) ==> p.actual_weight.spec_fits(gas_limit),
            r matches Err(e) ==> e.post_info.actual_weight.spec_fits(gas_limit),
    {
        let zero_post = PostInfo { actual_weight: Weight::zero(), pays_fee: true };
        match self.ensure_migrated() {
            Err(e) => {
                return Err(
                    DispatchErrorWithPostInfo {
                        post_info: zero_post,
                        error: DispatchError::Contract(e),
                    },
                );
            },
            Ok(()) => {},
        }
        let o: AccountId = match origin {
            RuntimeOrigin::Signed(a) => a,
            _ => {
                return Err(
                    DispatchErrorWithPostInfo { post_info: zero_post, error: DispatchError::BadOrigin },
                );
            },
        };
        let (code_hash, upload_deposit): (Vec<u8>, Balance) = match self.try_upload_code(
            o,
            code,
            storage_deposit_limit,
            Determinism::Enforced,
        ) {
            Ok(p) => p,
            Err(e) => {
                return Err(DispatchErrorWithPostInfo { post_info: zero_post, error: e });
            },
        };
        // The upload already consumed part of the deposit allowance.
        let storage_deposit_limit: Option<Balance> = match storage_deposit_limit {
            Some(l) => Some(sat_sub_u64(l, upload_deposit)),
            Option::None => Option::None,
        };
        let common = CommonInput {
            origin: Origin::Signed(o),
            value,
            gas_limit,
            storage_deposit_limit,
            data,
            plan,
        };
        let input = InstantiateInput { code: WasmCode::Wasm(code_hash), salt };
        let out = input.run_guarded(self, &common);
        let spent = out.gas_meter.consumed;
        match out.result {
            Ok(p) => {
                if p.1.did_revert() {
                    Err(
                        DispatchErrorWithPostInfo {
                            post_info: PostInfo { actual_weight: spent, pays_fee: true },
                            error: DispatchError::Contract(Error::ContractReverted),
                        },
                    )
                } else {
                    Ok(PostInfo { actual_weight: spent, pays_fee: true })
                }
            },
            Err(e) => Err(
                DispatchErrorWithPostInfo {
                    post_info: PostInfo { actual_weight: spent, pays_fee: true },
                    error: e.error,
                },
            ),
        }
    }

    /// Uploads code without instantiating a contract from it.
    pub fn upload_code(
        &mut self,
        origin: RuntimeOrigin,
        code: Vec<u8>,
        storage_deposit_limit: Option<Balance>,
        determinism: Determinism,
    ) -> (r: Result<(), DispatchError>)
        requires
            old(self).inv(),
        ensures
            final(self).inv(),
            final(self).cfg == old(self).cfg,
            final(self).migration_cursor == old(self).migration_cursor,
            old(self).migration_cursor is Some ==> r == Err::<(), DispatchError>(
                DispatchError::Contract(Error::MigrationInProgress),
            ) && final(self).world@ == old(self).world@,
            old(self).migration_cursor is None && !(origin is Signed) ==> r == Err::<
                (),
                DispatchError,
            >(DispatchError::BadOrigin) && final(self).world@ == old(self).world@,
            r is Err ==> final(self).world@ == old(self).world@,
            r is Ok ==> final(self).world@.codes.contains_key(blake2_of(code@)),
            // With an acceptable origin and no migration pending, the
            // upload is pinned: oversized bytes are rejected, fresh bytes
            // are stored with their deposit held, stored bytes cost
            // nothing.
            ({
                let w = old(self).world@;
                old(self).migration_cursor is None ==> (origin matches RuntimeOrigin::Signed(o)
                    ==> final(self).world@ == upload_world_after(
                    old(self).cfg,
                    w,
                    o,
                    code@,
                    determinism,
                    storage_deposit_limit,
                ) && (match upload_decision(old(self).cfg, w, o, code@, storage_deposit_limit) {
                    Ok(_) => r is Ok,
                    Err(e) => r == Err::<(), DispatchError>(e),
                }))
            }),
    {
        match self.ensure_migrated() {
            Err(e) => {
                return Err(DispatchError::Contract(e));
            },
            Ok(()) => {},
        }
        let o: AccountId = match origin {
            RuntimeOrigin::Signed(a) => a,
            _ => {
                return Err(DispatchError::BadOrigin);
            },
        };
        match self.try_upload_code(o, code, storage_deposit_limit, determinism) {
            Ok(_) => Ok(()),
            Err(e) => Err(e),
        }
    }

    /// Uploads code and reports the hash and the deposit held, without the
    /// origin conversion of the dispatch boundary.
    pub fn bare_upload_code(
        &mut self,
        origin: AccountId,
        code: Vec<u8>,
        storage_deposit_limit: Option<Balance>,
        determinism: Determinism,
    ) -> (r: Result<CodeUploadReturnValue, DispatchError>)
        requires
            old(self).inv(),
        ensures
            final(self).inv(),
            final(self).cfg == old(self).cfg,
            final(self).migration_cursor == old(self).migration_cursor,
            old(self).migration_cursor is Some ==> (r matches Err(e) && e == DispatchError::Contract(
                Error::MigrationInProgress,
            ) && final(self).world@ == old(self).world@),
            r is Err ==> final(self).world@ == old(self).world@,
            r matches Ok(p) ==> p.code_hash@ == blake2_of(code@) && p.code_hash@.len() == 32
                && final(self).world@.codes.contains_key(blake2_of(code@)),
            // With no migration pending, the upload is pinned: the state
            // it leaves and the exact result — a second upload of
            // identical bytes is free, a fresh one holds its deposit.
            old(self).migration_cursor is None ==> final(self).world@ == upload_world_after(
                old(self).cfg,
                old(self).world@,
                origin,
                code@,
                determinism,
                storage_deposit_limit,
            ) && (match upload_decision(
                old(self).cfg,
                old(self).world@,
                origin,
                code@,
                storage_deposit_limit,
            ) {
                Ok(dep) => r matches Ok(p) && p.code_hash@ == blake2_of(code@) && p.deposit == dep,
                Err(e) => r == Err::<CodeUploadReturnValue, DispatchError>(e),
            }),
    {
        match self.ensure_migrated() {
            Err(e) => {
                return Err(DispatchError::Contract(e));
            },
            Ok(()) => {},
        }
        match self.try_upload_code(origin, code, storage_deposit_limit, determinism) {
            Ok((h, dep)) => Ok(CodeUploadReturnValue { code_hash: h, deposit: dep }),
            Err(e) => Err(e),
        }
    }

    /// Privileged re-binding of an existing contract to other stored code,
    /// updating both reference counts without changing the address.
    pub fn set_code(
        &mut self,
        origin: RuntimeOrigin,
        dest: AccountId,
        code_hash: Vec<u8>,
    ) -> (r: Result<(), DispatchError>)
        requires
            old(self).inv(),
        ensures
            final(self).inv(),
            final(self).cfg == old(self).cfg,
            final(self).migration_cursor == old(self).migration_cursor,
            r is Err ==> final(self).world@ == old(self).world@,
            old(self).migration_cursor is Some ==> r == Err::<(), DispatchError>(
                DispatchError::Contract(Error::MigrationInProgress),
            ),
            old(self).migration_cursor is None && !(origin is Root) ==> r == Err::<
                (),
                DispatchError,
            >(DispatchError::BadOrigin),
            ({
                let w = old(self).world@;
                old(self).migration_cursor is None && origin is Root
                    && !w.contracts.contains_key(dest) ==> r == Err::<(), DispatchError>(
                    DispatchError::Contract(Error::ContractNotFound),
                )
            }),
            ({
                let w = old(self).world@;
                old(self).migration_cursor is None && origin is Root && w.contracts.contains_key(
                    dest,
                ) && !w.codes.contains_key(code_hash@) ==> r == Err::<(), DispatchError>(
                    DispatchError::Contract(Error::CodeNotFound),
                )
            }),
            // Success is owed exactly when the gates pass, the contract and
            // the code exist, and the reference count has room.
            ({
                let w = old(self).world@;
                old(self).migration_cursor is None && origin is Root && w.contracts.contains_key(
                    dest,
                ) && w.codes.contains_key(code_hash@) && w.codes[code_hash@].refcount < u64::MAX
                    ==> r is Ok
            }),
            r is Ok ==> ({
                let w = old(self).world@;
                let oldh = w.contracts[dest].code_hash;
                let m1 = w.codes.insert(
                    code_hash@,
                    CodeRecV {
                        refcount: (w.codes[code_hash@].refcount + 1) as u64,
                        ..w.codes[code_hash@]
                    },
                );
                let m2 = if m1.contains_key(oldh) {
                    m1.insert(
                        oldh,
                        CodeRecV {
                            refcount: if m1[oldh].refcount > 0 {
                                (m1[oldh].refcount - 1) as u64
                            } else {
                                0
                            },
                            ..m1[oldh]
                        },
                    )
                } else {
                    m1
                };
                &&& w.contracts.contains_key(dest)
                &&& w.codes.contains_key(code_hash@)
                &&& final(self).world@.contracts == w.contracts.insert(
                    dest,
                    crate::state::ContractInfoV { code_hash: code_hash@, ..w.contracts[dest] },
                )
                &&& final(self).world@.codes == m2
                &&& final(self).world@.events == w.events.push(
                    EventV::ContractCodeUpdated {
                        contract: dest,
                        new_code_hash: code_hash@,
                        old_code_hash: oldh,
                    },
                )
                &&& final(self).world@.balances == w.balances
                &&& final(self).world@.tries == w.tries
                &&& final(self).world@.queue == w.queue
                &&& final(self).world@.nonce == w.nonce
            }),
    {
        match self.ensure_migrated() {
            Err(e) => {
                return Err(DispatchError::Contract(e));
            },
            Ok(()) => {},
        }
        match origin {
            RuntimeOrigin::Root => {},
            _ => {
                return Err(DispatchError::BadOrigin);
            },
        }
        let old_hash: Vec<u8> = match self.world.contracts.get(&dest) {
            Some(c) => copy_bytes(&c.code_hash),
            Option::None => {
                return Err(DispatchError::Contract(Error::ContractNotFound));
            },
        };
        // Bind the new code.
        let mut new_rec: CodeRec = match self.world.codes.take(&code_hash) {
            Some(c) => c,
            Option::None => {
                proof {
                    assert(self.world@.codes =~= old(self).world@.codes);
                    assert(self.world@ == old(self).world@);
                }
                return Err(DispatchError::Contract(Error::CodeNotFound));
            },
        };
        if new_rec.refcount == u64::MAX {
            self.world.codes.insert(copy_bytes(&code_hash), new_rec);
            proof {
                assert(self.world@.codes =~= old(self).world@.codes);
                assert(self.world@ == old(self).world@);
            }
            return Err(DispatchError::Contract(Error::CounterOverflow));
        }
        new_rec.refcount = new_rec.refcount + 1;
        self.world.codes.insert(copy_bytes(&code_hash), new_rec);
        // Unbind the old code; its entry may be the one just changed.
        match self.world.codes.take(&old_hash) {
            Some(mut old_rec) => {
                if old_rec.refcount > 0 {
                    old_rec.refcount = old_rec.refcount - 1;
                }
                self.world.codes.insert(copy_bytes(&old_hash), old_rec);
            },
            Option::None => {},
        }
        let mut info: ContractInfo = match self.world.contracts.take(&dest) {
            Some(c) => c,
            Option::None => {
                return Err(DispatchError::Contract(Error::ContractNotFound));  // unreachable: presence was just checked
            },
        };
        let ghost info0 = info@;
        info.code_hash = copy_bytes(&code_hash);
        self.world.contracts.insert(dest, info);
        self.world.events.push(
            Event::ContractCodeUpdated {
                contract: dest,
                new_code_hash: copy_bytes(&code_hash),
                old_code_hash: old_hash,
            },
        );
        proof {
            assert(self.world@.contracts =~= old(self).world@.contracts.insert(
                dest,
                crate::state::ContractInfoV {
                    code_hash: code_hash@,
                    ..old(self).world@.contracts[dest]
                },
            ));
            let w = old(self).world@;
            let oldh = w.contracts[dest].code_hash;
            let m1 = w.codes.insert(
                code_hash@,
                CodeRecV {
                    refcount: (w.codes[code_hash@].refcount + 1) as u64,
                    ..w.codes[code_hash@]
                },
            );
            let m2 = if m1.contains_key(oldh) {
                m1.insert(
                    oldh,
                    CodeRecV {
                        refcount: if m1[oldh].refcount > 0 {
                            (m1[oldh].refcount - 1) as u64
                        } else {
                            0
                        },
                        ..m1[oldh]
                    },
                )
            } else {
                m1
            };
            assert(self.world@.codes =~= m2);
            assert(self.world@.events =~= w.events.push(
                EventV::ContractCodeUpdated {
                    contract: dest,
                    new_code_hash: code_hash@,
                    old_code_hash: oldh,
                },
            ));
            assert(self.world.wf()) by {
                assert(self.world.queue == old(self).world.queue);
                assert(self.world@.tries == old(self).world@.tries);
                assert(self.world@.nonce == old(self).world@.nonce);
                assert forall|t: u64| #[trigger] self.world@.tries.contains_key(t) implies (t
                    < self.world@.nonce) by {
                    assert(old(self).world@.tries.contains_key(t));
                }
                assert forall|j: int| 0 <= j < self.world@.queue.pending.len() implies (#[trigger]
                self.world@.queue.pending[j] < self.world@.nonce) by {
                    assert(old(self).world@.queue.pending[j] < old(self).world@.nonce);
                }
                assert forall|a: AccountId| #[trigger]
                    self.world@.contracts.contains_key(a) implies (
                self.world@.contracts[a].trie_id < self.world@.nonce) by {
                    assert(old(self).world@.contracts.contains_key(a));
                    assert(self.world@.contracts[a].trie_id == old(
                        self,
                    ).world@.contracts[a].trie_id);
                }
                assert forall|a: AccountId, b: AccountId|
                    a != b && #[trigger] self.world@.contracts.contains_key(a) && #[trigger]
                    self.world@.contracts.contains_key(b) implies (self.world@.contracts[a].trie_id
                    != self.world@.contracts[b].trie_id) by {
                    assert(old(self).world@.contracts.contains_key(a));
                    assert(old(self).world@.contracts.contains_key(b));
                }
                assert forall|a: AccountId, j: int|
                    #[trigger] self.world@.contracts.contains_key(a) && 0 <= j
                        < self.world@.queue.pending.len() implies (self.world@.contracts[a].trie_id
                    != #[trigger] self.world@.queue.pending[j]) by {
                    assert(old(self).world@.contracts.contains_key(a));
                    assert(self.world@.contracts[a].trie_id == old(
                        self,
                    ).world@.contracts[a].trie_id);
                    assert(self.world@.queue.pending == old(self).world@.queue.pending);
                    assert(old(self).world@.contracts[a].trie_id != old(
                        self,
                    ).world@.queue.pending[j]);
                }
            }
            crate::exec::lemma_storage_bounded_parts(self.world@, old(self).world@, self.cfg);
        }
        Ok(())
    }

    /// Runs migration steps with an explicit budget.  Calls that advance
    /// the migration have their fee waived.
    pub fn migrate(&mut self, origin: RuntimeOrigin, weight_limit: Weight) -> (r:
        crate::types::DispatchResultWithPostInfo)
        requires
            old(self).inv(),
        ensures
            final(self).inv(),
            final(self).cfg == old(self).cfg,
            final(self).world == old(self).world,
            !(origin is Signed) ==> (r matches Err(e) && e.error == DispatchError::BadOrigin
                && final(self).migration_cursor == old(self).migration_cursor),
            origin is Signed && old(self).migration_cursor is None ==> (r matches Err(e) && e.error
                == DispatchError::Contract(Error::NoMigrationPerformed) && final(self).migration_cursor is None),
            // With a cursor present, the round is pinned: it performs
            // exactly the steps the budget allows, in order, waiving the
            // fee when it made progress and failing when it could not.
            origin is Signed ==> (old(self).migration_cursor matches Some(c) ==> ({
                let k = drain_count(
                    weight_limit,
                    old(self).cfg.migration_step_weight,
                    old(self).cfg.migration_steps - c,
                );
                &&& (c + k == old(self).cfg.migration_steps
                    ==> final(self).migration_cursor is None && (r matches Ok(p) && !p.pays_fee))
                &&& (c + k < old(self).cfg.migration_steps && k > 0 ==> final(self).migration_cursor == Some((c + k) as u64) && (r matches Ok(p) && !p.pays_fee))
                &&& (c + k < old(self).cfg.migration_steps && k == 0 ==> final(self).migration_cursor == Some(c) && (r matches Err(e) && e.error
                    == DispatchError::Contract(Error::NoMigrationPerformed)))
            })),
            // Weight accounting: the reported weight never exceeds the
            // supplied budget, on success and on failure alike.
            r matches Ok(p) ==> p.actual_weight.spec_fits(weight_limit),
            r matches Err(e) ==> e.post_info.actual_weight.spec_fits(weight_limit),
    {
        match origin {
            RuntimeOrigin::Signed(_) => {},
            _ => {
                return Err(
                    DispatchErrorWithPostInfo {
                        post_info: PostInfo { actual_weight: Weight::zero(), pays_fee: true },
                        error: DispatchError::BadOrigin,
                    },
                );
            },
        }
        let mut meter = GasMeter::new(weight_limit);
        let result = self.migrate_with_meter(&mut meter);
        let spent = meter.consumed;
        match result {
            MigrateResult::Completed => Ok(PostInfo { actual_weight: spent, pays_fee: false }),
            MigrateResult::InProgress { steps_done } => {
                if steps_done > 0 {
                    Ok(PostInfo { actual_weight: spent, pays_fee: false })
                } else {
                    Ok(PostInfo { actual_weight: spent, pays_fee: true })
                }
            },
            MigrateResult::NoMigrationInProgress | MigrateResult::NoMigrationPerformed => Err(
                DispatchErrorWithPostInfo {
                    post_info: PostInfo { actual_weight: spent, pays_fee: true },
                    error: DispatchError::Contract(Error::NoMigrationPerformed),
                },
            ),
        }
    }

    /// Uses idle block capacity: migration steps first, and — only once no
    /// migration remains in progress — reclamation of terminated
    /// contracts' storage, both within the given budget.  Both phases are
    /// pinned exactly: the migration cursor advances by as many steps as
    /// the budget allows, and the queue then drains a strict prefix sized
    /// by what is left of the budget.
    pub fn on_idle(&mut self, block: u64, limit: Weight) -> (r: Weight)
        requires
            old(self).inv(),
        ensures
            final(self).inv(),
            final(self).cfg == old(self).cfg,
            r.spec_fits(limit),
            final(self).world@.balances == old(self).world@.balances,
            final(self).world@.contracts == old(self).world@.contracts,
            final(self).world@.codes == old(self).world@.codes,
            final(self).world@.events == old(self).world@.events,
            final(self).world@.nonce == old(self).world@.nonce,
            final(self).world@.queue.insert_counter == old(self).world@.queue.insert_counter,
            ({
                let w = old(self).world@;
                let step = old(self).cfg.migration_step_weight;
                let dcost = old(self).cfg.deletion_base_weight;
                let plen = w.queue.pending.len() as int;
                match old(self).migration_cursor {
                    Some(c) => ({
                        let steps = old(self).cfg.migration_steps;
                        let k = drain_count(limit, step, steps - c);
                        let rem = drain_left(limit, step, steps - c);
                        if c + k == steps {
                            let k2 = drain_count(rem, dcost, plen);
                            &&& final(self).migration_cursor is None
                            &&& final(self).world@.queue.pending == w.queue.pending.skip(k2)
                            &&& final(self).world@.queue.delete_counter == w.queue.delete_counter
                                + k2
                            &&& final(self).world@.tries == tries_after_drain(w, k2)
                            &&& r == limit.spec_sub(drain_left(rem, dcost, plen))
                        } else {
                            &&& final(self).migration_cursor == Some((c + k) as u64)
                            &&& final(self).world@ == w
                            &&& r == limit.spec_sub(rem)
                        }
                    }),
                    None => ({
                        let k2 = drain_count(limit, dcost, plen);
                        &&& final(self).migration_cursor is None
                        &&& final(self).world@.queue.pending == w.queue.pending.skip(k2)
                        &&& final(self).world@.queue.delete_counter == w.queue.delete_counter + k2
                        &&& final(self).world@.tries == tries_after_drain(w, k2)
                        &&& r == limit.spec_sub(drain_left(limit, dcost, plen))
                    }),
                }
            }),
    {
        let _ = block;
        let mut meter = GasMeter::new(limit);
        // One round performs every step the budget covers, so a second
        // round could at most report that nothing more fits: the phases
        // run in a straight line.
        let cleared: bool = match self.migrate_with_meter(&mut meter) {
            MigrateResult::Completed | MigrateResult::NoMigrationInProgress => true,
            MigrateResult::NoMigrationPerformed | MigrateResult::InProgress { .. } => false,
        };
        if !cleared {
            return meter.consumed;
        }
        self.process_deletion_queue_batch(&mut meter);
        meter.consumed
    }
}

} // verus!

verus! {

impl Pallet {
    /// Performs a call without the dispatch boundary's origin conversion,
    /// reporting the full result envelope for direct callers.
    pub fn bare_call(
        &mut self,
        origin: AccountId,
        dest: AccountId,
        value: Balance,
        gas_limit: Weight,
        storage_deposit_limit: Option<Balance>,
        data: Vec<u8>,
        debug: DebugInfo,
        collect_events: CollectEvents,
        determinism: Determinism,
        plan: CallPlan,
    ) -> (r: ContractResult<ExecReturnValue>)
        requires
            old(self).inv(),
        ensures
            final(self).inv(),
            final(self).cfg == old(self).cfg,
            final(self).migration_cursor == old(self).migration_cursor,
            old(self).migration_cursor is Some ==> (r.result matches Err(e) && e
                == DispatchError::Contract(Error::MigrationInProgress) && final(self).world@ == old(self).world@
                && r.gas_consumed == zero_weight() && r.gas_required == zero_weight()
                && r.storage_deposit == StorageDeposit::Charge(0) && r.events is None),
            (r.result is Err || (r.result matches Ok(rv) && rv.did_revert)) ==> final(self).world@
                == old(self).world@,
            r.gas_consumed.spec_fits(gas_limit),
            // This model reports required compute equal to consumed
            // compute and never collects diagnostic output.
            r.gas_required == r.gas_consumed,
            r.debug_message@.len() == 0,
            old(self).migration_cursor is None ==> (r.events is Some <==> collect_events
                == CollectEvents::UnsafeCollect),
            // The settled net charge never exceeds the allowance the caller
            // supplied (or the configured default).
            r.storage_deposit matches StorageDeposit::Charge(c) ==> c <= spec_deposit_limit(
                old(self).cfg,
                storage_deposit_limit,
            ),
            // The configured depth bound, observable at this boundary: a
            // pure chain of nested sub-calls succeeds in full within the
            // limit and fails with a depth error, and no other, one level
            // beyond it.
            (old(self).migration_cursor is None && value == 0 && is_call_chain(plan, dest)
                && chain_target_ok(old(self).world@, dest, determinism)) ==> (if chain_len(
                plan,
                dest,
            ) <= old(self).cfg.max_call_depth {
                r.result matches Ok(rv) && !rv.did_revert
            } else {
                r.result matches Err(e) && e == DispatchError::Contract(Error::MaxCallDepthReached)
            }),
            // With no migration pending, a call-free script is pinned in
            // full: final state, result, reported deposit, consumed compute.
            old(self).migration_cursor is None ==> flat_call_outcome(
                old(self).cfg,
                old(self).world@,
                Origin::Signed(origin),
                dest,
                value,
                determinism,
                plan.actions@,
                plan.outcome,
                gas_limit,
                zero_weight(),
                storage_deposit_limit,
                match r.result {
                    Ok(rv) => Ok(rv),
                    Err(e) => Err(ExecError { error: e, origin: ErrorOrigin::Callee }),
                },
                final(self).world@,
                r.storage_deposit,
                r.gas_consumed,
            ),
            // With no migration pending, the outcome is pinned by the state
            // the call ran against.
            old(self).migration_cursor is None ==> call_outcome_exact(
                old(self).cfg,
                old(self).world@,
                Origin::Signed(origin),
                dest,
                value,
                determinism,
                plan.actions@.len() as int,
                plan.outcome,
                match r.result {
                    Ok(rv) => Ok(rv),
                    Err(e) => Err(ExecError { error: e, origin: ErrorOrigin::Callee }),
                },
                final(self).world@,
                r.storage_deposit,
            ),
    {
        let _ = debug;
        match self.ensure_migrated() {
            Err(e) => {
                // Nothing ran: no events are reported either.
                return ContractResult {
                    gas_consumed: Weight::zero(),
                    gas_required: Weight::zero(),
                    storage_deposit: StorageDeposit::Charge(0),
                    debug_message: Vec::new(),
                    result: Err(DispatchError::Contract(e)),
                    events: Option::None,
                };
            },
            Ok(()) => {},
        }
        let common = CommonInput {
            origin: Origin::Signed(origin),
            value,
            gas_limit,
            storage_deposit_limit,
            data,
            plan,
        };
        let input = CallInput { dest, determinism };
        let out = input.run_guarded(self, &common);
        let events: Option<Vec<Event>> = match collect_events {
            CollectEvents::UnsafeCollect => Some(self.collected_events()),
            CollectEvents::Skip => Option::None,
        };
        ContractResult {
            gas_consumed: out.gas_meter.consumed,
            gas_required: out.gas_meter.consumed,
            storage_deposit: out.storage_deposit,
            debug_message: Vec::new(),
            result: match out.result {
                Ok(rv) => Ok(rv),
                Err(e) => Err(e.error),
            },
            events,
        }
    }

    /// Instantiates a contract without the dispatch boundary's origin
    /// conversion, uploading fresh code first when asked to.
    pub fn bare_instantiate(
        &mut self,
        origin: AccountId,
        value: Balance,
        gas_limit: Weight,
        storage_deposit_limit: Option<Balance>,
        code: Code,
        data: Vec<u8>,
        salt: Vec<u8>,
        debug: DebugInfo,
        collect_events: CollectEvents,
        plan: CallPlan,
    ) -> (r: ContractResult<InstantiateReturnValue>)
        requires
            old(self).inv(),
        ensures
            final(self).inv(),
            final(self).cfg == old(self).cfg,
            final(self).migration_cursor == old(self).migration_cursor,
            old(self).migration_cursor is Some ==> (r.result matches Err(e) && e
                == DispatchError::Contract(Error::MigrationInProgress) && final(self).world@ == old(self).world@
                && r.gas_consumed == zero_weight() && r.gas_required == zero_weight()
                && r.storage_deposit == StorageDeposit::Charge(0) && r.events is None),
            r.gas_consumed.spec_fits(gas_limit),
            // This model reports required compute equal to consumed
            // compute and never collects diagnostic output.
            r.gas_required == r.gas_consumed,
            r.debug_message@.len() == 0,
            old(self).migration_cursor is None ==> (r.events is Some <==> collect_events
                == CollectEvents::UnsafeCollect),
            // A successful instantiation reports the content-derived
            // address of the new contract.
            code matches Code::Existing(h) ==> (r.result matches Ok(p) ==> p.account_id
                == account_of_hash(blake2_of(address_preimage_of(origin, h@, data@, salt@)))),
            // The combined net charge — upload deposit plus execution
            // deposit — never exceeds a caller-supplied allowance.
            storage_deposit_limit matches Some(l) ==> (r.storage_deposit
                matches StorageDeposit::Charge(c) ==> c <= l),
            // Upload path: the upload decision is pinned, and after a
            // successful upload the instantiation is pinned against the
            // uploaded state under the reduced allowance — so a failed
            // constructor leaves the upload in place and nothing else.
            ({
                let w = old(self).world@;
                old(self).migration_cursor is None && data@.len() <= 0xFFFF_FFFF && salt@.len()
                    <= 0xFFFF_FFFF ==> (code matches Code::Upload(bytes) ==> ({
                    let uw = upload_world_after(
                        old(self).cfg,
                        w,
                        origin,
                        bytes@,
                        Determinism::Enforced,
                        storage_deposit_limit,
                    );
                    let h = blake2_of(bytes@);
                    let mapped = match r.result {
                        Ok(p) => Ok::<(AccountId, ExecReturnValue), ExecError>(
                            (p.account_id, p.result),
                        ),
                        Err(e) => Err::<(AccountId, ExecReturnValue), ExecError>(
                            ExecError { error: e, origin: ErrorOrigin::Callee },
                        ),
                    };
                    match upload_decision(old(self).cfg, w, origin, bytes@, storage_deposit_limit) {
                        Ok(dep) => instantiate_outcome_exact(
                            old(self).cfg,
                            uw,
                            origin,
                            h,
                            account_of_hash(
                                blake2_of(address_preimage_of(origin, h, data@, salt@)),
                            ),
                            value,
                            plan.actions@.len() as int,
                            plan.outcome,
                            match storage_deposit_limit {
                                Some(l) => Some(sat_u64(l - dep) as u64),
                                None => None::<u64>,
                            },
                            mapped,
                            final(self).world@,
                            dep,
                            r.storage_deposit,
                        ),
                        Err(e) => r.result matches Err(e2) && e2 == e && final(self).world@ == w
                            && r.gas_consumed == zero_weight() && r.storage_deposit
                            == StorageDeposit::Charge(0),
                    }
                }))
            }),
            // With no migration pending, instantiation from stored code is
            // pinned by the state it ran against.
            old(self).migration_cursor is None ==> (code matches Code::Existing(h) ==> (h@.len()
                <= 0xFFFF_FFFF && data@.len() <= 0xFFFF_FFFF && salt@.len() <= 0xFFFF_FFFF ==> ({
                let mapped = match r.result {
                    Ok(p) => Ok::<(AccountId, ExecReturnValue), ExecError>(
                        (p.account_id, p.result),
                    ),
                    Err(e) => Err::<(AccountId, ExecReturnValue), ExecError>(
                        ExecError { error: e, origin: ErrorOrigin::Callee },
                    ),
                };
                &&& (!old(self).world@.codes.contains_key(h@) ==> (r.result matches Err(e) && e
                    == DispatchError::Contract(Error::CodeNotFound)))
                &&& (old(self).world@.codes.contains_key(h@) ==> instantiate_outcome_exact(
                    old(self).cfg,
                    old(self).world@,
                    origin,
                    h@,
                    account_of_hash(blake2_of(address_preimage_of(origin, h@, data@, salt@))),
                    value,
                    plan.actions@.len() as int,
                    plan.outcome,
                    storage_deposit_limit,
                    mapped,
                    final(self).world@,
                    0,
                    r.storage_deposit,
                ))
            }))),
    {
        let _ = debug;
        match self.ensure_migrated() {
            Err(e) => {
                // Nothing ran: no events are reported either.
                return ContractResult {
                    gas_consumed: Weight::zero(),
                    gas_required: Weight::zero(),
                    storage_deposit: StorageDeposit::Charge(0),
                    debug_message: Vec::new(),
                    result: Err(DispatchError::Contract(e)),
                    events: Option::None,
                };
            },
            Ok(()) => {},
        }
        let (wasm, upload_deposit, storage_deposit_limit): (WasmCode, Balance, Option<Balance>) =
            match code {
            Code::Upload(bytes) => {
                match self.try_upload_code(
                    origin,
                    bytes,
                    storage_deposit_limit,
                    Determinism::Enforced,
                ) {
                    Ok((h, dep)) => {
                        let reduced: Option<Balance> = match storage_deposit_limit {
                            Some(l) => Some(sat_sub_u64(l, dep)),
                            Option::None => Option::None,
                        };
                        (WasmCode::Wasm(h), dep, reduced)
                    },
                    Err(e) => {
                        let events: Option<Vec<Event>> = match collect_events {
                            CollectEvents::UnsafeCollect => Some(self.collected_events()),
                            CollectEvents::Skip => Option::None,
                        };
                        return ContractResult {
                            gas_consumed: Weight::zero(),
                            gas_required: Weight::zero(),
                            storage_deposit: StorageDeposit::Charge(0),
                            debug_message: Vec::new(),
                            result: Err(e),
                            events,
                        };
                    },
                }
            },
            Code::Existing(h) => (WasmCode::CodeHash(h), 0, storage_deposit_limit),
        };
        let common = CommonInput {
            origin: Origin::Signed(origin),
            value,
            gas_limit,
            storage_deposit_limit,
            data,
            plan,
        };
        let input = InstantiateInput { code: wasm, salt };
        let out = input.run_guarded(self, &common);
        let events: Option<Vec<Event>> = match collect_events {
            CollectEvents::UnsafeCollect => Some(self.collected_events()),
            CollectEvents::Skip => Option::None,
        };
        ContractResult {
            gas_consumed: out.gas_meter.consumed,
            gas_required: out.gas_meter.consumed,
            storage_deposit: deposit_add_charge(out.storage_deposit, upload_deposit),
            debug_message: Vec::new(),
            result: match out.result {
                Ok(p) => Ok(InstantiateReturnValue { account_id: p.0, result: p.1 }),
                Err(e) => Err(e.error),
            },
            events,
        }
    }

    /// Legacy entry point taking a one-dimensional compute limit: behaves
    /// exactly as [`Pallet::call`] under the converted two-dimensional
    /// limit, and carries the same contract.
    pub fn call_old_weight(
        &mut self,
        origin: RuntimeOrigin,
        dest: AccountId,
        value: Balance,
        gas_limit: u64,
        storage_deposit_limit: Option<Balance>,
        data: Vec<u8>,
        plan: CallPlan,
    ) -> (r: crate::types::DispatchResultWithPostInfo)
        requires
            old(self).inv(),
        ensures
            final(self).inv(),
            final(self).cfg == old(self).cfg,
            final(self).migration_cursor == old(self).migration_cursor,
            old(self).migration_cursor is Some ==> (r matches Err(e) && e.error
                == DispatchError::Contract(Error::MigrationInProgress) && final(self).world@ == old(self).world@),
            old(self).migration_cursor is None && origin is Other ==> (r matches Err(e) && e.error
                == DispatchError::BadOrigin && final(self).world@ == old(self).world@),
            r is Err ==> final(self).world@ == old(self).world@,
            // With no migration pending and an acceptable origin, the
            // dispatch outcome is pinned by the state the call ran against,
            // a contract-chosen revert surfacing as its own error.
            ({
                let w = old(self).world@;
                let from = match origin {
                    RuntimeOrigin::Signed(o) => Some(o),
                    _ => None::<AccountId>,
                };
                let entry_ok = w.contracts.contains_key(dest) && code_resolvable(w, dest)
                    && det_ok(w, dest, Determinism::Enforced) && entry_transfer_ok(
                    w,
                    old(self).cfg.min_balance,
                    from,
                    dest,
                    value,
                );
                let origin2 = match origin {
                    RuntimeOrigin::Signed(o) => Origin::Signed(o),
                    _ => Origin::Root,
                };
                old(self).migration_cursor is None && !(origin is Other) ==> {
                    &&& (!w.contracts.contains_key(dest) && entry_transfer_ok(
                        w,
                        old(self).cfg.min_balance,
                        from,
                        dest,
                        value,
                    ) ==> (r is Ok && final(self).world@ == (crate::state::WorldV {
                        balances: entry_balances(w, origin2, dest, value),
                        ..w
                    })))
                    &&& (!w.contracts.contains_key(dest) && !entry_transfer_ok(
                        w,
                        old(self).cfg.min_balance,
                        from,
                        dest,
                        value,
                    ) ==> (r matches Err(e) && e.error == DispatchError::Contract(
                        Error::TransferFailed,
                    )))
                    &&& (entry_ok && plan.actions@.len() == 0 ==> (match plan.outcome {
                        Outcome::Finish { data: _, revert } => {
                            if revert {
                                r matches Err(e) && e.error == DispatchError::Contract(
                                    Error::ContractReverted,
                                )
                            } else {
                                r is Ok && final(self).world@ == (crate::state::WorldV {
                                    balances: entry_balances(w, origin2, dest, value),
                                    events: w.events.push(
                                        EventV::Called { caller: origin2, contract: dest },
                                    ),
                                    ..w
                                })
                            }
                        },
                        Outcome::Trap => r matches Err(e) && e.error == DispatchError::Contract(
                            Error::ContractTrapped,
                        ),
                    }))
                }
            }),
            // Weight accounting: the reported weight never exceeds the
            // supplied compute limit, on success and on failure alike.
            r matches Ok(p) ==> p.actual_weight.spec_fits(Weight { ref_time: gas_limit, proof_size: (old(self).cfg.max_code_len * 2) as u64 }),
            r matches Err(e) ==> e.post_info.actual_weight.spec_fits(Weight { ref_time: gas_limit, proof_size: (old(self).cfg.max_code_len * 2) as u64 }),
    {
        let w = self.compat_weight_limit(gas_limit);
        self.call(origin, dest, value, w, storage_deposit_limit, data, plan)
    }

    /// Legacy entry point taking a one-dimensional compute limit: behaves
    /// exactly as [`Pallet::instantiate_with_code`] under the converted
    /// two-dimensional limit, and carries the same contract.
    pub fn instantiate_with_code_old_weight(
        &mut self,
        origin: RuntimeOrigin,
        value: Balance,
        gas_limit: u64,
        storage_deposit_limit: Option<Balance>,
        code: Vec<u8>,
        data: Vec<u8>,
        salt: Vec<u8>,
        plan: CallPlan,
    ) -> (r: crate::types::DispatchResultWithPostInfo)
        requires
            old(self).inv(),
        ensures
            final(self).inv(),
            final(self).cfg == old(self).cfg,
            final(self).migration_cursor == old(self).migration_cursor,
            old(self).migration_cursor is Some ==> (r matches Err(e) && e.error
                == DispatchError::Contract(Error::MigrationInProgress) && final(self).world@ == old(self).world@),
            old(self).migration_cursor is None && !(origin is Signed) ==> (r matches Err(e)
                && e.error == DispatchError::BadOrigin && final(self).world@ == old(self).world@),
            // The upload decision is pinned; after a successful upload the
            // instantiation is pinned against the uploaded state under the
            // reduced allowance, a constructor-chosen revert surfacing as
            // its own error.  A failed constructor leaves a fresh upload
            // in place, and nothing else.
            ({
                let w = old(self).world@;
                old(self).migration_cursor is None && data@.len() <= 0xFFFF_FFFF && salt@.len()
                    <= 0xFFFF_FFFF ==> (origin matches RuntimeOrigin::Signed(o)
                    ==> ({
                    let uw = upload_world_after(
                        old(self).cfg,
                        w,
                        o,
                        code@,
                        Determinism::Enforced,
                        storage_deposit_limit,
                    );
                    let h = blake2_of(code@);
                    match upload_decision(old(self).cfg, w, o, code@, storage_deposit_limit) {
                        Ok(dep) => instantiate_dispatch_outcome_exact(
                            old(self).cfg,
                            uw,
                            o,
                            h,
                            account_of_hash(blake2_of(address_preimage_of(o, h, data@, salt@))),
                            value,
                            plan.actions@.len() as int,
                            plan.outcome,
                            match storage_deposit_limit {
                                Some(l) => Some(sat_u64(l - dep) as u64),
                                None => None::<u64>,
                            },
                            r,
                            final(self).world@,
                        ),
                        Err(e) => r matches Err(de) && de.error == e && final(self).world@ == w,
                    }
                }))
            }),
            // Weight accounting: the reported weight never exceeds the
            // supplied compute limit, on success and on failure alike.
            r matches Ok(p) ==> p.actual_weight.spec_fits(Weight { ref_time: gas_limit, proof_size: (old(self).cfg.max_code_len * 2) as u64 }),
            r matches Err(e) ==> e.post_info.actual_weight.spec_fits(Weight { ref_time: gas_limit, proof_size: (old(self).cfg.max_code_len * 2) as u64 }),
    {
        let w = self.compat_weight_limit(gas_limit);
        self.instantiate_with_code(origin, value, w, storage_deposit_limit, code, data, salt, plan)
    }

    /// Legacy entry point taking a one-dimensional compute limit: behaves
    /// exactly as [`Pallet::instantiate`] under the converted
    /// two-dimensional limit, and carries the same contract.
    pub fn instantiate_old_weight(
        &mut self,
        origin: RuntimeOrigin,
        value: Balance,
        gas_limit: u64,
        storage_deposit_limit: Option<Balance>,
        code_hash: Vec<u8>,
        data: Vec<u8>,
        salt: Vec<u8>,
        plan: CallPlan,
    ) -> (r: crate::types::DispatchResultWithPostInfo)
        requires
            old(self).inv(),
        ensures
            final(self).inv(),
            final(self).cfg == old(self).cfg,
            final(self).migration_cursor == old(self).migration_cursor,
            old(self).migration_cursor is Some ==> (r matches Err(e) && e.error
                == DispatchError::Contract(Error::MigrationInProgress) && final(self).world@ == old(self).world@),
            old(self).migration_cursor is None && origin is Root ==> (r matches Err(e) && e.error
                == DispatchError::RootNotAllowed && final(self).world@ == old(self).world@),
            r is Err ==> final(self).world@ == old(self).world@,
            // With no migration pending, the outcome is pinned by the state
            // the instantiation ran against; a constructor-chosen revert
            // surfaces as its own error with every effect rolled back.
            ({
                let w = old(self).world@;
                old(self).migration_cursor is None ==> (origin matches RuntimeOrigin::Signed(o)
                    ==> {
                    &&& (code_hash@.len() > 0xFFFF_FFFF || data@.len() > 0xFFFF_FFFF || salt@.len()
                        > 0xFFFF_FFFF ==> (r matches Err(e) && e.error == DispatchError::Contract(
                        Error::ValueTooLarge,
                    )))
                    &&& (code_hash@.len() <= 0xFFFF_FFFF && data@.len() <= 0xFFFF_FFFF
                        && salt@.len() <= 0xFFFF_FFFF ==> {
                        &&& (!w.codes.contains_key(code_hash@) ==> (r matches Err(e) && e.error
                            == DispatchError::Contract(Error::CodeNotFound)))
                        &&& (w.codes.contains_key(code_hash@)
                            ==> instantiate_dispatch_outcome_exact(
                            old(self).cfg,
                            w,
                            o,
                            code_hash@,
                            account_of_hash(
                                blake2_of(address_preimage_of(o, code_hash@, data@, salt@)),
                            ),
                            value,
                            plan.actions@.len() as int,
                            plan.outcome,
                            storage_deposit_limit,
                            r,
                            final(self).world@,
                        ))
                    })
                })
            }),
            // Weight accounting: the reported weight never exceeds the
            // supplied compute limit, on success and on failure alike.
            r matches Ok(p) ==> p.actual_weight.spec_fits(Weight { ref_time: gas_limit, proof_size: (old(self).cfg.max_code_len * 2) as u64 }),
            r matches Err(e) ==> e.post_info.actual_weight.spec_fits(Weight { ref_time: gas_limit, proof_size: (old(self).cfg.max_code_len * 2) as u64 }),
    {
        let w = self.compat_weight_limit(gas_limit);
        self.instantiate(origin, value, w, storage_deposit_limit, code_hash, data, salt, plan)
    }
}

/// A configuration suitable for exercising the engine in tests.
pub struct TestDefaultConfig;

impl TestDefaultConfig {
    /// A complete, well-formed configuration with small, readable values.
    pub fn config() -> (r: Config)
        ensures
            r.wf(),
            r.max_call_depth == 5,
            r.deposit_per_item == 2,
            r.deposit_per_byte == 1,
            r.contract_deposit == 10,
            r.min_balance == 10,
            r.default_deposit_limit == 1000000,
            r.migration_steps == 3,
            r.migration_step_weight == (Weight { ref_time: 10, proof_size: 1 }),
            r.deletion_base_weight == (Weight { ref_time: 7, proof_size: 1 }),
            r.max_code_len == 262144,
            r.max_storage_key_len == 128,
            r.max_value_len == 16384,
    {
        Config {
            max_call_depth: 5,
            max_code_len: 262144,
            max_storage_key_len: 128,
            max_value_len: 16384,
            deposit_per_item: 2,
            deposit_per_byte: 1,
            contract_deposit: 10,
            default_deposit_limit: 1000000,
            min_balance: 10,
            migration_steps: 3,
            migration_step_weight: Weight { ref_time: 10, proof_size: 1 },
            deletion_base_weight: Weight { ref_time: 7, proof_size: 1 },
            runtime_memory: 1073741824,
            validator_runtime_memory: 2147483648,
            max_heap_size: 1048576,
            max_transient_storage_size: 1048576,
            max_debug_buffer_len: 2097152,
            block_ref_time: 100000000000,
            payload_len: 16384,
            set_storage_weight_base: 100000,
            set_storage_weight_byte: 1000,
            deposit_event_weight_base: 100000,
            deposit_event_weight_byte: 500,
        }
    }
}

} // verus!

verus! {

/// Law of the migration stepper: whenever steps remain and the round's
/// budget covers at least one of them, the cursor strictly advances, and a
/// round never performs more steps than remain — so repeated rounds with
/// any step-covering budget reach the end of the sequence without skipping
/// or repeating a step, and the cursor is then cleared.
pub proof fn lemma_migration_progress(remaining: Weight, cfg: Config, c: u64)
    requires
        cfg.migration_step_weight.spec_fits(remaining),
        c < cfg.migration_steps,
    ensures
        1 <= drain_count(remaining, cfg.migration_step_weight, cfg.migration_steps - c)
            <= cfg.migration_steps - c,
{
    lemma_drain_progress(remaining, cfg.migration_step_weight, cfg.migration_steps - c);
    lemma_drain_bounds(remaining, cfg.migration_step_weight, cfg.migration_steps - c);
}

/// Law of the deletion queue: a batch whose budget covers at least one
/// entry reclaims at least one and at most all pending entries — so
/// repeated bounded batches empty the queue, each entry exactly once, in
/// insertion order (the batch itself drains the strict prefix of length
/// [`drain_count`]).
pub proof fn lemma_queue_progress(remaining: Weight, cfg: Config, len: int)
    requires
        cfg.deletion_base_weight.spec_fits(remaining),
        len >= 1,
    ensures
        1 <= drain_count(remaining, cfg.deletion_base_weight, len) <= len,
{
    lemma_drain_progress(remaining, cfg.deletion_base_weight, len);
    lemma_drain_bounds(remaining, cfg.deletion_base_weight, len);
}

} // verus!
