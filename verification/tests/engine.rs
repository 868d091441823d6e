use contracts_engine::exec::Config;
use contracts_engine::pallet::{Pallet, TestDefaultConfig};
use contracts_engine::types::{
    Action, CallPlan, Code, CollectEvents, ContractAccessError, DebugInfo, Determinism,
    DispatchError, Error, Event, MigrateResult, Outcome, RuntimeOrigin, StorageDeposit,
};
use contracts_engine::weight::{GasMeter, Weight};
use contracts_engine::ApiVersion;

const ALICE: u64 = 1;
const BOB: u64 = 2;
const CHARLIE: u64 = 3;

fn gas() -> Weight {
    Weight::from_parts(1_000_000, 1_000_000)
}

fn finish() -> Outcome {
    Outcome::Finish { data: Vec::new(), revert: false }
}

fn empty_plan() -> CallPlan {
    CallPlan { actions: Vec::new(), outcome: finish() }
}

fn setup() -> Pallet {
    let mut p = Pallet::new(TestDefaultConfig::config());
    p.endow(ALICE, 1_000_000);
    p.endow(BOB, 1_000_000);
    p
}

fn code() -> Vec<u8> {
    vec![1, 2, 3]
}

/// Deploys a contract for ALICE from `code()` with the given salt and an
/// empty constructor, endowing it with 100.
fn deploy(p: &mut Pallet, salt: u8) -> u64 {
    let out = p.bare_instantiate(
        ALICE,
        100,
        gas(),
        None,
        Code::Upload(code()),
        Vec::new(),
        vec![salt],
        DebugInfo::Skip,
        CollectEvents::Skip,
        empty_plan(),
    );
    out.result.expect("deploy failed").account_id
}

#[test]
fn api_version_has_expected_value() {
    assert_eq!(ApiVersion::default().0, 4);
}

#[test]
fn plain_transfer_to_codeless_account() {
    let mut p = setup();
    let r = p.call(
        RuntimeOrigin::Signed(ALICE),
        CHARLIE,
        50,
        gas(),
        None,
        Vec::new(),
        empty_plan(),
    );
    assert!(r.is_ok());
    assert_eq!(p.balance_of(CHARLIE), 50);
    assert_eq!(p.balance_of(ALICE), 999_950);
}

#[test]
fn transfer_below_minimum_to_new_account_fails() {
    let mut p = setup();
    let r = p.call(
        RuntimeOrigin::Signed(ALICE),
        CHARLIE,
        5,
        gas(),
        None,
        Vec::new(),
        empty_plan(),
    );
    let e = r.expect_err("expected failure");
    assert_eq!(e.error, DispatchError::Contract(Error::TransferFailed));
    assert_eq!(p.balance_of(ALICE), 1_000_000);
}

#[test]
fn upload_twice_yields_same_hash_and_single_deposit() {
    let mut p = setup();
    let first = p.bare_upload_code(ALICE, code(), None, Determinism::Enforced).unwrap();
    // Deposit: one item plus one unit per byte.
    assert_eq!(first.deposit, 2 + 3);
    assert_eq!(p.balance_of(ALICE), 1_000_000 - 5);
    let second = p.bare_upload_code(BOB, code(), None, Determinism::Enforced).unwrap();
    assert_eq!(second.code_hash, first.code_hash);
    assert_eq!(second.deposit, 0);
    assert_eq!(p.balance_of(BOB), 1_000_000);
}

#[test]
fn remove_code_gated_by_references_and_refunds() {
    let mut p = setup();
    let up = p.bare_upload_code(ALICE, code(), None, Determinism::Enforced).unwrap();
    let addr = deploy(&mut p, 1);
    // The deployed contract references the code: removal is denied.
    let r = p.remove_code(RuntimeOrigin::Signed(ALICE), up.code_hash.clone());
    assert_eq!(
        r.expect_err("still in use").error,
        DispatchError::Contract(Error::CodeInUse)
    );
    // Termination releases the reference.
    let plan = CallPlan {
        actions: vec![Action::Terminate { beneficiary: BOB }],
        outcome: finish(),
    };
    let out = p.bare_call(
        ALICE, addr, 0, gas(), None, Vec::new(), DebugInfo::Skip, CollectEvents::Skip,
        Determinism::Enforced, plan,
    );
    assert!(out.result.is_ok());
    let before = p.balance_of(ALICE);
    let r = p.remove_code(RuntimeOrigin::Signed(ALICE), up.code_hash.clone());
    assert!(r.is_ok());
    assert_eq!(p.balance_of(ALICE), before + 5);
    // Only the uploader may remove.
    let up2 = p.bare_upload_code(ALICE, vec![9, 9], None, Determinism::Enforced).unwrap();
    let r = p.remove_code(RuntimeOrigin::Signed(BOB), up2.code_hash);
    assert_eq!(r.expect_err("not the owner").error, DispatchError::BadOrigin);
}

#[test]
fn upload_rejects_oversized_and_limited() {
    let mut p = setup();
    let huge = vec![0u8; 262_145];
    let r = p.bare_upload_code(ALICE, huge, None, Determinism::Enforced);
    assert_eq!(r.unwrap_err(), DispatchError::Contract(Error::CodeTooLarge));
    let r = p.bare_upload_code(ALICE, code(), Some(4), Determinism::Enforced);
    assert_eq!(
        r.unwrap_err(),
        DispatchError::Contract(Error::StorageDepositLimitExhausted)
    );
}

fn chain(depth: u64, dest: u64) -> CallPlan {
    if depth == 0 {
        CallPlan { actions: Vec::new(), outcome: finish() }
    } else {
        CallPlan {
            actions: vec![Action::Call {
                dest,
                value: 0,
                gas_limit: Weight::from_parts(0, 0),
                propagate: true,
                plan: chain(depth - 1, dest),
            }],
            outcome: finish(),
        }
    }
}

#[test]
fn exactly_max_depth_nested_calls_succeed() {
    let mut p = setup();
    let addr = deploy(&mut p, 1);
    // The configured limit allows five nested sub-calls below the root.
    let ok = p.bare_call(
        ALICE, addr, 0, gas(), None, Vec::new(), DebugInfo::Skip, CollectEvents::Skip,
        Determinism::Enforced, chain(5, addr),
    );
    assert!(ok.result.is_ok());
    let over = p.bare_call(
        ALICE, addr, 0, gas(), None, Vec::new(), DebugInfo::Skip, CollectEvents::Skip,
        Determinism::Enforced, chain(6, addr),
    );
    assert_eq!(
        over.result.unwrap_err(),
        DispatchError::Contract(Error::MaxCallDepthReached)
    );
}

#[test]
fn reentry_attempt_is_denied_and_leaves_state_unchanged() {
    let mut p = setup();
    let addr = deploy(&mut p, 1);
    let plan = CallPlan {
        actions: vec![
            Action::SetStorage { key: vec![1], value: Some(vec![42]) },
            Action::Reenter { propagate: true },
        ],
        outcome: finish(),
    };
    let out = p.bare_call(
        ALICE, addr, 0, gas(), None, Vec::new(), DebugInfo::Skip, CollectEvents::Skip,
        Determinism::Enforced, plan,
    );
    assert_eq!(
        out.result.unwrap_err(),
        DispatchError::Contract(Error::ReentranceDenied)
    );
    // The write before the denied reentry was rolled back with the frame.
    assert_eq!(p.get_storage(addr, vec![1]), Ok(None));
}

#[test]
fn sibling_effects_survive_a_reverting_sub_call() {
    let mut p = setup();
    let a = deploy(&mut p, 1);
    let b = deploy(&mut p, 2);
    let c = deploy(&mut p, 3);
    let bob_before = p.balance_of(BOB);
    let plan = CallPlan {
        actions: vec![
            Action::SetStorage { key: vec![0xa], value: Some(vec![1]) },
            Action::Call {
                dest: b,
                value: 0,
                gas_limit: Weight::from_parts(1000, 1000),
                propagate: false,
                plan: CallPlan {
                    actions: vec![
                        Action::SetStorage { key: vec![0xb], value: Some(vec![2]) },
                        Action::Transfer { to: BOB, value: 20 },
                    ],
                    outcome: Outcome::Finish { data: Vec::new(), revert: true },
                },
            },
            Action::Call {
                dest: c,
                value: 0,
                gas_limit: Weight::from_parts(1000, 1000),
                propagate: false,
                plan: CallPlan {
                    actions: vec![Action::SetStorage { key: vec![0xc], value: Some(vec![3]) }],
                    outcome: finish(),
                },
            },
        ],
        outcome: finish(),
    };
    let out = p.bare_call(
        ALICE, a, 0, gas(), None, Vec::new(), DebugInfo::Skip, CollectEvents::Skip,
        Determinism::Enforced, plan,
    );
    assert!(out.result.is_ok());
    // A's own write and C's write persist; everything B did is undone.
    assert_eq!(p.get_storage(a, vec![0xa]).unwrap().unwrap(), vec![1]);
    assert_eq!(p.get_storage(b, vec![0xb]), Ok(None));
    assert_eq!(p.get_storage(c, vec![0xc]).unwrap().unwrap(), vec![3]);
    assert_eq!(p.balance_of(BOB), bob_before);
}

#[test]
fn deposit_limit_aborts_whole_invocation() {
    let mut p = setup();
    let addr = deploy(&mut p, 1);
    let plan = CallPlan {
        actions: vec![Action::SetStorage { key: vec![1], value: Some(vec![0; 100]) }],
        outcome: finish(),
    };
    let out = p.bare_call(
        ALICE, addr, 0, gas(), Some(10), Vec::new(), DebugInfo::Skip, CollectEvents::Skip,
        Determinism::Enforced,
        CallPlan { actions: plan.actions, outcome: plan.outcome },
    );
    assert_eq!(
        out.result.unwrap_err(),
        DispatchError::Contract(Error::StorageDepositLimitExhausted)
    );
    assert_eq!(p.get_storage(addr, vec![1]), Ok(None));
}

#[test]
fn deposit_charge_is_exact_and_within_limit() {
    let mut p = setup();
    let addr = deploy(&mut p, 1);
    let before = p.balance_of(ALICE);
    let plan = CallPlan {
        actions: vec![Action::SetStorage { key: vec![1], value: Some(vec![0; 100]) }],
        outcome: finish(),
    };
    let out = p.bare_call(
        ALICE, addr, 0, gas(), Some(200), Vec::new(), DebugInfo::Skip, CollectEvents::Skip,
        Determinism::Enforced, plan,
    );
    assert!(out.result.is_ok());
    // One item at two units plus one unit for each of the hundred bytes.
    assert_eq!(out.storage_deposit, StorageDeposit::Charge(102));
    assert_eq!(p.balance_of(ALICE), before - 102);
    // Clearing the key refunds the deposit.
    let clear = CallPlan {
        actions: vec![Action::SetStorage { key: vec![1], value: None }],
        outcome: finish(),
    };
    let out = p.bare_call(
        ALICE, addr, 0, gas(), None, Vec::new(), DebugInfo::Skip, CollectEvents::Skip,
        Determinism::Enforced, clear,
    );
    assert_eq!(out.storage_deposit, StorageDeposit::Refund(102));
    assert_eq!(p.balance_of(ALICE), before);
}

#[test]
fn out_of_gas_burns_the_budget_and_rolls_back() {
    let mut p = setup();
    let addr = deploy(&mut p, 1);
    let small = Weight::from_parts(100, 100);
    let plan = CallPlan {
        actions: vec![
            Action::SetStorage { key: vec![1], value: Some(vec![5]) },
            Action::Work { amount: Weight::from_parts(1000, 0) },
        ],
        outcome: finish(),
    };
    let out = p.bare_call(
        ALICE, addr, 0, small, None, Vec::new(), DebugInfo::Skip, CollectEvents::Skip,
        Determinism::Enforced, plan,
    );
    assert_eq!(out.result.unwrap_err(), DispatchError::Contract(Error::OutOfGas));
    assert_eq!(out.gas_consumed.ref_time, 100);
    assert_eq!(p.get_storage(addr, vec![1]), Ok(None));
}

#[test]
fn revert_surfaces_as_error_at_dispatch_level_only() {
    let mut p = setup();
    let addr = deploy(&mut p, 1);
    let plan = CallPlan {
        actions: Vec::new(),
        outcome: Outcome::Finish { data: vec![7], revert: true },
    };
    let out = p.bare_call(
        ALICE, addr, 0, gas(), None, Vec::new(), DebugInfo::Skip, CollectEvents::Skip,
        Determinism::Enforced,
        CallPlan { actions: plan.actions, outcome: plan.outcome },
    );
    // The engine layer reports a successful outcome carrying the flag.
    let rv = out.result.unwrap();
    assert!(rv.did_revert);
    assert_eq!(rv.data, vec![7]);
    // The dispatch layer turns the flag into an error.
    let plan = CallPlan {
        actions: Vec::new(),
        outcome: Outcome::Finish { data: vec![7], revert: true },
    };
    let r = p.call(RuntimeOrigin::Signed(ALICE), addr, 0, gas(), None, Vec::new(), plan);
    assert_eq!(
        r.expect_err("revert").error,
        DispatchError::Contract(Error::ContractReverted)
    );
}

#[test]
fn terminate_while_on_stack_is_rejected() {
    let mut p = setup();
    let addr = deploy(&mut p, 1);
    let plan = CallPlan {
        actions: vec![Action::Call {
            dest: addr,
            value: 0,
            gas_limit: Weight::from_parts(1000, 1000),
            propagate: true,
            plan: CallPlan {
                actions: vec![Action::Terminate { beneficiary: BOB }],
                outcome: finish(),
            },
        }],
        outcome: finish(),
    };
    let out = p.bare_call(
        ALICE, addr, 0, gas(), None, Vec::new(), DebugInfo::Skip, CollectEvents::Skip,
        Determinism::Enforced, plan,
    );
    assert_eq!(
        out.result.unwrap_err(),
        DispatchError::Contract(Error::TerminatedWhileReentrant)
    );
    assert!(p.code_hash(&addr).is_some());
}

#[test]
fn termination_enqueues_namespace_and_pays_beneficiary() {
    let mut p = setup();
    let addr = deploy(&mut p, 1);
    let bob_before = p.balance_of(BOB);
    let plan = CallPlan {
        actions: vec![Action::Terminate { beneficiary: BOB }],
        outcome: finish(),
    };
    let out = p.bare_call(
        ALICE, addr, 0, gas(), None, Vec::new(), DebugInfo::Skip, CollectEvents::Skip,
        Determinism::Enforced, plan,
    );
    assert!(out.result.is_ok());
    assert!(p.code_hash(&addr).is_none());
    assert_eq!(p.balance_of(BOB), bob_before + 100);
    assert_eq!(p.world.queue.pending.len(), 1);
    assert_eq!(p.world.queue.insert_counter, 1);
    assert_eq!(p.world.queue.delete_counter, 0);
    // The held contract deposit flows back to the origin.
    assert_eq!(out.storage_deposit, StorageDeposit::Refund(10));
}

#[test]
fn deletion_queue_drains_a_strict_prefix_in_order() {
    let mut p = setup();
    let a = deploy(&mut p, 1);
    let b = deploy(&mut p, 2);
    for addr in [a, b] {
        let plan = CallPlan {
            actions: vec![Action::Terminate { beneficiary: BOB }],
            outcome: finish(),
        };
        let out = p.bare_call(
            ALICE, addr, 0, gas(), None, Vec::new(), DebugInfo::Skip, CollectEvents::Skip,
            Determinism::Enforced, plan,
        );
        assert!(out.result.is_ok());
    }
    let first = p.world.queue.pending[0];
    let second = p.world.queue.pending[1];
    // A budget covering exactly one namespace reclaims the oldest entry.
    let spent = p.on_idle(0, Weight::from_parts(7, 1));
    assert_eq!(spent.ref_time, 7);
    assert_eq!(p.world.queue.pending, vec![second]);
    assert_eq!(p.world.queue.delete_counter, 1);
    // The next batch resumes where the last one stopped.
    p.on_idle(0, Weight::from_parts(7, 1));
    assert_eq!(p.world.queue.pending.len(), 0);
    assert_eq!(p.world.queue.delete_counter, 2);
    assert_eq!(p.world.queue.insert_counter, 2);
    let _ = first;
}

#[test]
fn migration_converges_without_skipping_steps() {
    let mut p = setup();
    assert!(p.begin_migration());
    // Every mutating entry point rejects while the cursor is present.
    let r = p.call(RuntimeOrigin::Signed(ALICE), BOB, 1, gas(), None, Vec::new(), empty_plan());
    assert_eq!(
        r.expect_err("gated").error,
        DispatchError::Contract(Error::MigrationInProgress)
    );
    assert_eq!(p.get_storage(BOB, vec![1]), Err(ContractAccessError::MigrationInProgress));
    assert_eq!(
        p.upload_code(RuntimeOrigin::Signed(ALICE), code(), None, Determinism::Enforced),
        Err(DispatchError::Contract(Error::MigrationInProgress))
    );
    // One step fits per round: three rounds finish the three-step sequence.
    let mut m1 = GasMeter::new(Weight::from_parts(10, 1));
    assert_eq!(p.migrate_with_meter(&mut m1), MigrateResult::InProgress { steps_done: 1 });
    let mut m2 = GasMeter::new(Weight::from_parts(10, 1));
    assert_eq!(p.migrate_with_meter(&mut m2), MigrateResult::InProgress { steps_done: 1 });
    let mut m3 = GasMeter::new(Weight::from_parts(10, 1));
    assert_eq!(p.migrate_with_meter(&mut m3), MigrateResult::Completed);
    let mut m4 = GasMeter::new(Weight::from_parts(10, 1));
    assert_eq!(p.migrate_with_meter(&mut m4), MigrateResult::NoMigrationInProgress);
    // A budget below one step performs nothing.
    assert!(p.begin_migration());
    let mut m5 = GasMeter::new(Weight::from_parts(3, 1));
    assert_eq!(p.migrate_with_meter(&mut m5), MigrateResult::NoMigrationPerformed);
}

#[test]
fn migrate_dispatchable_waives_fee_on_progress() {
    let mut p = setup();
    assert!(p.begin_migration());
    let r = p.migrate(RuntimeOrigin::Signed(ALICE), Weight::from_parts(100, 100));
    let post = r.unwrap();
    assert!(!post.pays_fee);
    let r = p.migrate(RuntimeOrigin::Signed(ALICE), Weight::from_parts(100, 100));
    assert_eq!(
        r.expect_err("nothing left").error,
        DispatchError::Contract(Error::NoMigrationPerformed)
    );
}

#[test]
fn instantiate_duplicate_address_is_rejected() {
    let mut p = setup();
    let _ = deploy(&mut p, 1);
    let out = p.bare_instantiate(
        ALICE,
        100,
        gas(),
        None,
        Code::Upload(code()),
        Vec::new(),
        vec![1],
        DebugInfo::Skip,
        CollectEvents::Skip,
        empty_plan(),
    );
    assert_eq!(
        out.result.unwrap_err(),
        DispatchError::Contract(Error::DuplicateContract)
    );
}

#[test]
fn instantiate_forbids_privileged_origin() {
    let mut p = setup();
    let up = p.bare_upload_code(ALICE, code(), None, Determinism::Enforced).unwrap();
    let r = p.instantiate(
        RuntimeOrigin::Root,
        100,
        gas(),
        None,
        up.code_hash,
        Vec::new(),
        vec![1],
        empty_plan(),
    );
    assert_eq!(r.expect_err("root").error, DispatchError::RootNotAllowed);
}

#[test]
fn contract_address_is_deterministic_in_its_inputs() {
    let mut p = setup();
    let up = p.bare_upload_code(ALICE, code(), None, Determinism::Enforced).unwrap();
    let a1 = Pallet::contract_address(&ALICE, &up.code_hash, &Vec::new(), &vec![1]);
    let a2 = Pallet::contract_address(&ALICE, &up.code_hash, &Vec::new(), &vec![1]);
    let a3 = Pallet::contract_address(&ALICE, &up.code_hash, &Vec::new(), &vec![2]);
    assert_eq!(a1, a2);
    assert_ne!(a1, a3);
    let deployed = deploy(&mut p, 1);
    assert_eq!(deployed, a1);
}

#[test]
fn set_code_rebinds_and_updates_refcounts() {
    let mut p = setup();
    let up1 = p.bare_upload_code(ALICE, code(), None, Determinism::Enforced).unwrap();
    let up2 = p.bare_upload_code(ALICE, vec![4, 5, 6], None, Determinism::Enforced).unwrap();
    let addr = deploy(&mut p, 1);
    let r = p.set_code(RuntimeOrigin::Signed(ALICE), addr, up2.code_hash.clone());
    assert_eq!(r, Err(DispatchError::BadOrigin));
    let r = p.set_code(RuntimeOrigin::Root, addr, up2.code_hash.clone());
    assert!(r.is_ok());
    assert_eq!(p.code_hash(&addr).unwrap(), up2.code_hash);
    // The old code is unreferenced again and can be removed.
    let r = p.remove_code(RuntimeOrigin::Signed(ALICE), up1.code_hash);
    assert!(r.is_ok());
    let r = p.set_code(RuntimeOrigin::Root, CHARLIE, up2.code_hash);
    assert_eq!(r, Err(DispatchError::Contract(Error::ContractNotFound)));
}

#[test]
fn get_storage_validates_account_and_key() {
    let mut p = setup();
    assert_eq!(p.get_storage(CHARLIE, vec![1]), Err(ContractAccessError::DoesntExist));
    let addr = deploy(&mut p, 1);
    assert_eq!(
        p.get_storage(addr, vec![0; 129]),
        Err(ContractAccessError::KeyDecodingFailed)
    );
    assert_eq!(p.get_storage(addr, vec![1]), Ok(None));
}

#[test]
fn oversized_storage_values_are_rejected() {
    let mut p = setup();
    let addr = deploy(&mut p, 1);
    let plan = CallPlan {
        actions: vec![Action::SetStorage { key: vec![1], value: Some(vec![0; 16_385]) }],
        outcome: finish(),
    };
    let out = p.bare_call(
        ALICE, addr, 0, gas(), None, Vec::new(), DebugInfo::Skip, CollectEvents::Skip,
        Determinism::Enforced, plan,
    );
    assert_eq!(out.result.unwrap_err(), DispatchError::Contract(Error::ValueTooLarge));
}

#[test]
fn relaxed_code_cannot_run_in_an_enforced_frame() {
    let mut p = setup();
    let up = p.bare_upload_code(ALICE, vec![8, 8], None, Determinism::Relaxed).unwrap();
    let r = p.instantiate(
        RuntimeOrigin::Signed(ALICE),
        100,
        gas(),
        None,
        up.code_hash,
        Vec::new(),
        vec![1],
        empty_plan(),
    );
    assert_eq!(
        r.expect_err("relaxed").error,
        DispatchError::Contract(Error::Indeterministic)
    );
}

#[test]
fn collected_events_include_the_call() {
    let mut p = setup();
    let addr = deploy(&mut p, 1);
    let out = p.bare_call(
        ALICE, addr, 0, gas(), None, Vec::new(), DebugInfo::Skip, CollectEvents::UnsafeCollect,
        Determinism::Enforced, empty_plan(),
    );
    assert!(out.result.is_ok());
    let events = out.events.unwrap();
    assert!(events.iter().any(|e| matches!(e, Event::Called { .. })));
    assert!(events.iter().any(|e| matches!(e, Event::Instantiated { .. })));
}

#[test]
fn integrity_test_checks_the_configuration() {
    let p = setup();
    assert!(p.integrity_test());
    let mut bad: Config = TestDefaultConfig::config();
    bad.max_debug_buffer_len = 100;
    let p2 = Pallet::new(bad);
    assert!(!p2.integrity_test());
}

#[test]
fn legacy_weight_entry_points_delegate() {
    let mut p = setup();
    let r = p.call_old_weight(
        RuntimeOrigin::Signed(ALICE),
        CHARLIE,
        50,
        1_000_000,
        None,
        Vec::new(),
        empty_plan(),
    );
    assert!(r.is_ok());
    assert_eq!(p.balance_of(CHARLIE), 50);
}

#[test]
fn trap_rolls_the_frame_back() {
    let mut p = setup();
    let addr = deploy(&mut p, 1);
    let plan = CallPlan {
        actions: vec![Action::SetStorage { key: vec![1], value: Some(vec![9]) }],
        outcome: Outcome::Trap,
    };
    let out = p.bare_call(
        ALICE, addr, 0, gas(), None, Vec::new(), DebugInfo::Skip, CollectEvents::Skip,
        Determinism::Enforced, plan,
    );
    assert_eq!(out.result.unwrap_err(), DispatchError::Contract(Error::ContractTrapped));
    assert_eq!(p.get_storage(addr, vec![1]), Ok(None));
}

#[test]
fn terminate_in_constructor_is_rejected() {
    let mut p = setup();
    let plan = CallPlan {
        actions: vec![Action::Terminate { beneficiary: BOB }],
        outcome: finish(),
    };
    let out = p.bare_instantiate(
        ALICE,
        100,
        gas(),
        None,
        Code::Upload(code()),
        Vec::new(),
        vec![1],
        DebugInfo::Skip,
        CollectEvents::Skip,
        plan,
    );
    assert_eq!(
        out.result.unwrap_err(),
        DispatchError::Contract(Error::TerminatedInConstructor)
    );
}

#[test]
fn instantiate_from_unknown_hash_fails() {
    let mut p = setup();
    let out = p.bare_instantiate(
        ALICE,
        100,
        gas(),
        None,
        Code::Existing(vec![0; 32]),
        Vec::new(),
        vec![1],
        DebugInfo::Skip,
        CollectEvents::Skip,
        empty_plan(),
    );
    assert_eq!(out.result.unwrap_err(), DispatchError::Contract(Error::CodeNotFound));
}

#[test]
fn origin_without_funds_cannot_pay_deposits() {
    let mut p = setup();
    let addr = deploy(&mut p, 1);
    // CHARLIE can pay the transfer but not the storage deposit.
    p.endow(CHARLIE, 50);
    let plan = CallPlan {
        actions: vec![Action::SetStorage { key: vec![1], value: Some(vec![0; 200]) }],
        outcome: finish(),
    };
    let out = p.bare_call(
        CHARLIE, addr, 0, gas(), None, Vec::new(), DebugInfo::Skip, CollectEvents::Skip,
        Determinism::Enforced, plan,
    );
    assert_eq!(
        out.result.unwrap_err(),
        DispatchError::Contract(Error::StorageDepositNotEnoughFunds)
    );
    assert_eq!(p.balance_of(CHARLIE), 50);
    assert_eq!(p.get_storage(addr, vec![1]), Ok(None));
}

#[test]
fn root_origin_may_call_but_not_carry_value() {
    let mut p = setup();
    let addr = deploy(&mut p, 1);
    let r = p.call(RuntimeOrigin::Root, addr, 0, gas(), None, Vec::new(), empty_plan());
    assert!(r.is_ok());
    let r = p.call(RuntimeOrigin::Root, addr, 1, gas(), None, Vec::new(), empty_plan());
    assert_eq!(
        r.expect_err("no paying account").error,
        DispatchError::Contract(Error::TransferFailed)
    );
}

#[test]
fn unused_gas_reservation_returns_to_the_parent() {
    let mut p = setup();
    let addr = deploy(&mut p, 1);
    // The sub-call reserves a large budget but burns only a little: the
    // invocation's total consumption is the burned part alone.
    let plan = CallPlan {
        actions: vec![Action::Call {
            dest: addr,
            value: 0,
            gas_limit: Weight::from_parts(500_000, 500_000),
            propagate: true,
            plan: CallPlan {
                actions: vec![Action::Work { amount: Weight::from_parts(30, 4) }],
                outcome: finish(),
            },
        }],
        outcome: finish(),
    };
    let out = p.bare_call(
        ALICE, addr, 0, gas(), None, Vec::new(), DebugInfo::Skip, CollectEvents::Skip,
        Determinism::Enforced, plan,
    );
    assert!(out.result.is_ok());
    assert_eq!(out.gas_consumed.ref_time, 30);
    assert_eq!(out.gas_consumed.proof_size, 4);
}

#[test]
fn insufficient_parent_budget_fails_the_reservation_closed() {
    let mut p = setup();
    let addr = deploy(&mut p, 1);
    let plan = CallPlan {
        actions: vec![Action::Call {
            dest: addr,
            value: 0,
            gas_limit: Weight::from_parts(2_000_000, 0),
            propagate: true,
            plan: empty_plan(),
        }],
        outcome: finish(),
    };
    let out = p.bare_call(
        ALICE, addr, 0, gas(), None, Vec::new(), DebugInfo::Skip, CollectEvents::Skip,
        Determinism::Enforced, plan,
    );
    assert_eq!(out.result.unwrap_err(), DispatchError::Contract(Error::OutOfGas));
}

#[test]
fn migration_blocked_call_reports_an_empty_envelope() {
    let mut p = setup();
    let addr = deploy(&mut p, 1);
    assert!(p.begin_migration());
    let out = p.bare_call(
        ALICE, addr, 0, gas(), None, Vec::new(), DebugInfo::Skip, CollectEvents::UnsafeCollect,
        Determinism::Enforced, empty_plan(),
    );
    assert_eq!(
        out.result.unwrap_err(),
        DispatchError::Contract(Error::MigrationInProgress)
    );
    // Nothing ran: nothing is reported, events included.
    assert_eq!(out.gas_consumed, Weight::zero());
    assert_eq!(out.gas_required, Weight::zero());
    assert_eq!(out.storage_deposit, StorageDeposit::Charge(0));
    assert!(out.events.is_none());
    assert!(out.debug_message.is_empty());
}

#[test]
fn on_idle_advances_migration_before_the_queue() {
    let mut p = setup();
    let addr = deploy(&mut p, 1);
    let plan = CallPlan {
        actions: vec![Action::Terminate { beneficiary: BOB }],
        outcome: finish(),
    };
    let out = p.bare_call(
        ALICE, addr, 0, gas(), None, Vec::new(), DebugInfo::Skip, CollectEvents::Skip,
        Determinism::Enforced, plan,
    );
    assert!(out.result.is_ok());
    assert!(p.begin_migration());
    // The budget covers one migration step and nothing more: the queue
    // entry stays.
    let spent = p.on_idle(0, Weight::from_parts(10, 1));
    assert_eq!(spent, Weight::from_parts(10, 1));
    assert_eq!(p.world.queue.pending.len(), 1);
    // A budget covering the remaining two steps and one namespace clears
    // both phases.
    let spent = p.on_idle(0, Weight::from_parts(27, 3));
    assert_eq!(spent, Weight::from_parts(27, 3));
    assert_eq!(p.world.queue.pending.len(), 0);
    assert!(p.get_storage(addr, vec![1]).is_err() || p.code_hash(&addr).is_none());
}

#[test]
fn a_contract_can_deploy_a_sub_contract() {
    let mut p = setup();
    let parent = deploy(&mut p, 1);
    let up = p.bare_upload_code(ALICE, vec![7, 7, 7], None, Determinism::Enforced).unwrap();
    let child = Pallet::contract_address(&parent, &up.code_hash, &Vec::new(), &vec![9]);
    let plan = CallPlan {
        actions: vec![Action::Instantiate {
            code_hash: up.code_hash.clone(),
            endowment: 30,
            gas_limit: Weight::from_parts(1000, 1000),
            input: Vec::new(),
            salt: vec![9],
            propagate: true,
            plan: CallPlan {
                actions: vec![Action::SetStorage { key: vec![1], value: Some(vec![5]) }],
                outcome: finish(),
            },
        }],
        outcome: finish(),
    };
    let out = p.bare_call(
        ALICE, parent, 0, gas(), None, Vec::new(), DebugInfo::Skip, CollectEvents::Skip,
        Determinism::Enforced, plan,
    );
    assert!(out.result.is_ok());
    // The sub-contract exists at its content-derived address, endowed from
    // the parent, its constructor's write in place.
    assert_eq!(p.code_hash(&child).unwrap(), up.code_hash);
    assert_eq!(p.balance_of(child), 30);
    assert_eq!(p.get_storage(child, vec![1]).unwrap().unwrap(), vec![5]);
    assert_eq!(p.balance_of(parent), 70);
}

#[test]
fn a_failing_sub_deployment_is_rolled_back() {
    let mut p = setup();
    let parent = deploy(&mut p, 1);
    let up = p.bare_upload_code(ALICE, vec![7, 7, 7], None, Determinism::Enforced).unwrap();
    let child = Pallet::contract_address(&parent, &up.code_hash, &Vec::new(), &vec![9]);
    let plan = CallPlan {
        actions: vec![Action::Instantiate {
            code_hash: up.code_hash.clone(),
            endowment: 30,
            gas_limit: Weight::from_parts(1000, 1000),
            input: Vec::new(),
            salt: vec![9],
            propagate: false,
            plan: CallPlan { actions: Vec::new(), outcome: Outcome::Trap },
        }],
        outcome: finish(),
    };
    let out = p.bare_call(
        ALICE, parent, 0, gas(), None, Vec::new(), DebugInfo::Skip, CollectEvents::Skip,
        Determinism::Enforced, plan,
    );
    // The parent absorbs the trapped constructor; no account was created
    // and the endowment stayed with the parent.
    assert!(out.result.is_ok());
    assert!(p.code_hash(&child).is_none());
    assert_eq!(p.balance_of(parent), 100);
}
