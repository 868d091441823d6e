//! The engine's persisted state: ledger balances, contract accounts, storage
//! namespaces, the code registry, the event log and the deletion queue,
//! together with their mathematical views, the global well-formedness
//! invariant, and snapshotting for transactional rollback.

use vstd::prelude::*;
use crate::kv::{copy_bytes, Dup, KvMap};
use crate::types::{AccountId, Balance, Determinism, Event, EventV};

verus! {

/// A contract account bound to code and an isolated storage namespace.
pub struct ContractInfo {
    /// The contract's storage-namespace id, fresh for every instantiation.
    pub trie_id: u64,
    /// Content hash of the code the contract is bound to.
    pub code_hash: Vec<u8>,
    /// Storage deposit accumulated for this contract's data.
    pub deposit_held: Balance,
}

/// Mathematical image of [`ContractInfo`].
pub ghost struct ContractInfoV {
    /// The contract's storage-namespace id.
    pub trie_id: u64,
    /// Content hash of the bound code.
    pub code_hash: Seq<u8>,
    /// Storage deposit accumulated for this contract's data.
    pub deposit_held: Balance,
}

impl View for ContractInfo {
    type V = ContractInfoV;

    open spec fn view(&self) -> ContractInfoV {
        ContractInfoV {
            trie_id: self.trie_id,
            code_hash: self.code_hash@,
            deposit_held: self.deposit_held,
        }
    }
}

impl Dup for ContractInfo {
    fn dup(&self) -> (r: Self)
        ensures
            r@ == self@,
    {
        ContractInfo {
            trie_id: self.trie_id,
            code_hash: copy_bytes(&self.code_hash),
            deposit_held: self.deposit_held,
        }
    }
}

/// A code entry of the content-addressed registry.
pub struct CodeRec {
    /// The raw code bytes.
    pub code: Vec<u8>,
    /// The account that uploaded the code and backed its deposit.
    pub owner: AccountId,
    /// The deposit held from the owner for this entry.
    pub deposit: Balance,
    /// Whether execution of this code must be deterministic.
    pub determinism: Determinism,
    /// How many contracts are bound to this code.
    pub refcount: u64,
}

/// Mathematical image of [`CodeRec`].
pub ghost struct CodeRecV {
    /// The raw code bytes.
    pub code: Seq<u8>,
    /// The owning account.
    pub owner: AccountId,
    /// The deposit held from the owner.
    pub deposit: Balance,
    /// Whether execution must be deterministic.
    pub determinism: Determinism,
    /// How many contracts are bound to this code.
    pub refcount: u64,
}

impl View for CodeRec {
    type V = CodeRecV;

    open spec fn view(&self) -> CodeRecV {
        CodeRecV {
            code: self.code@,
            owner: self.owner,
            deposit: self.deposit,
            determinism: self.determinism,
            refcount: self.refcount,
        }
    }
}

impl Dup for CodeRec {
    fn dup(&self) -> (r: Self)
        ensures
            r@ == self@,
    {
        CodeRec {
            code: copy_bytes(&self.code),
            owner: self.owner,
            deposit: self.deposit,
            determinism: self.determinism,
            refcount: self.refcount,
        }
    }
}

impl Dup for Event {
    fn dup(&self) -> (r: Self)
        ensures
            r@ == self@,
    {
        match self {
            Event::Instantiated { deployer, contract } => Event::Instantiated {
                deployer: *deployer,
                contract: *contract,
            },
            Event::Terminated { contract, beneficiary } => Event::Terminated {
                contract: *contract,
                beneficiary: *beneficiary,
            },
            Event::CodeStored { code_hash, deposit_held, uploader } => Event::CodeStored {
                code_hash: copy_bytes(code_hash),
                deposit_held: *deposit_held,
                uploader: *uploader,
            },
            Event::CodeRemoved { code_hash, deposit_released, remover } => Event::CodeRemoved {
                code_hash: copy_bytes(code_hash),
                deposit_released: *deposit_released,
                remover: *remover,
            },
            Event::ContractCodeUpdated { contract, new_code_hash, old_code_hash } => (
            Event::ContractCodeUpdated {
                contract: *contract,
                new_code_hash: copy_bytes(new_code_hash),
                old_code_hash: copy_bytes(old_code_hash),
            }),
            Event::Called { caller, contract } => Event::Called {
                caller: *caller,
                contract: *contract,
            },
            Event::ContractEmitted { contract, data } => Event::ContractEmitted {
                contract: *contract,
                data: copy_bytes(data),
            },
        }
    }
}

/// The lazy reclamation queue: namespace ids of terminated contracts,
/// bounded by two monotonic counters and processed in strict insertion
/// order.
pub struct DeletionQueue {
    /// Position the next enqueued namespace will take.
    pub insert_counter: u64,
    /// Position of the oldest namespace not yet reclaimed.
    pub delete_counter: u64,
    /// The pending namespace ids, oldest first; `pending[i]` sits at
    /// position `delete_counter + i`.
    pub pending: Vec<u64>,
}

/// Mathematical image of [`DeletionQueue`].
pub ghost struct DeletionQueueV {
    /// Position the next enqueued namespace will take.
    pub insert_counter: u64,
    /// Position of the oldest namespace not yet reclaimed.
    pub delete_counter: u64,
    /// The pending namespace ids, oldest first.
    pub pending: Seq<u64>,
}

impl View for DeletionQueue {
    type V = DeletionQueueV;

    open spec fn view(&self) -> DeletionQueueV {
        DeletionQueueV {
            insert_counter: self.insert_counter,
            delete_counter: self.delete_counter,
            pending: self.pending@,
        }
    }
}

impl DeletionQueue {
    /// The counters bound the pending entries: the deletion cursor never
    /// overtakes the insertion cursor, and their distance is the queue
    /// length.
    pub open spec fn wf(self) -> bool {
        self.insert_counter == self.delete_counter + self.pending@.len()
    }

    /// An empty queue with both counters at zero.
    pub fn new() -> (r: Self)
        ensures
            r@.insert_counter == 0,
            r@.delete_counter == 0,
            r@.pending == Seq::<u64>::empty(),
            r.wf(),
    {
        DeletionQueue { insert_counter: 0, delete_counter: 0, pending: Vec::new() }
    }

    fn dup(&self) -> (r: Self)
        ensures
            r@ == self@,
    {
        let mut pending: Vec<u64> = Vec::new();
        let mut i: usize = 0;
        let n = self.pending.len();
        while i < n
            invariant
                n == self.pending@.len(),
                i <= n,
                pending@ == self.pending@.subrange(0, i as int),
            decreases n - i,
        {
            pending.push(self.pending[i]);
            proof {
                assert(pending@ =~= self.pending@.subrange(0, i + 1 as int));
            }
            i += 1;
        }
        proof {
            assert(pending@ =~= self.pending@);
        }
        DeletionQueue {
            insert_counter: self.insert_counter,
            delete_counter: self.delete_counter,
            pending,
        }
    }
}

/// One storage namespace: the key-value data of one (possibly terminated)
/// contract.
pub type StorageTrie = KvMap<Vec<u8>, Vec<u8>>;

/// Everything the engine persists, apart from the migration cursor and the
/// invocation lock.
pub struct World {
    /// Free balance of every account.
    pub balances: KvMap<AccountId, Balance>,
    /// The contract bound to an address, if any.
    pub contracts: KvMap<AccountId, ContractInfo>,
    /// The storage namespaces, keyed by namespace id.
    pub tries: KvMap<u64, StorageTrie>,
    /// The content-addressed code registry, keyed by code hash.
    pub codes: KvMap<Vec<u8>, CodeRec>,
    /// The event log.
    pub events: Vec<Event>,
    /// The lazy reclamation queue.
    pub queue: DeletionQueue,
    /// Monotonic counter from which fresh namespace ids are drawn.
    pub nonce: u64,
}

/// Mathematical image of [`World`].
pub ghost struct WorldV {
    /// Free balance of every account.
    pub balances: Map<AccountId, Balance>,
    /// The contract bound to an address, if any.
    pub contracts: Map<AccountId, ContractInfoV>,
    /// The storage namespaces.
    pub tries: Map<u64, Map<Seq<u8>, Seq<u8>>>,
    /// The code registry.
    pub codes: Map<Seq<u8>, CodeRecV>,
    /// The event log.
    pub events: Seq<EventV>,
    /// The reclamation queue.
    pub queue: DeletionQueueV,
    /// The namespace-id counter.
    pub nonce: u64,
}

impl View for World {
    type V = WorldV;

    open spec fn view(&self) -> WorldV {
        WorldV {
            balances: self.balances@,
            contracts: self.contracts@,
            tries: self.tries@,
            codes: self.codes@,
            events: self.events@.map_values(|e: Event| e@),
            queue: self.queue@,
            nonce: self.nonce,
        }
    }
}

impl World {
    /// Global well-formedness: the queue counters agree with its length;
    /// namespace ids, live and pending alike, all come from the counter;
    /// no two live contracts share a namespace; and no pending namespace
    /// belongs to a live contract.
    pub open spec fn wf(self) -> bool {
        &&& self.queue.wf()
        &&& forall|a: AccountId| #[trigger]
            self@.contracts.contains_key(a) ==> self@.contracts[a].trie_id < self@.nonce
        &&& forall|t: u64| #[trigger] self@.tries.contains_key(t) ==> t < self@.nonce
        &&& forall|i: int|
            0 <= i < self@.queue.pending.len() ==> #[trigger] self@.queue.pending[i] < self@.nonce
        &&& forall|a: AccountId, b: AccountId|
            a != b && #[trigger] self@.contracts.contains_key(a) && #[trigger]
            self@.contracts.contains_key(b) ==> self@.contracts[a].trie_id
                != self@.contracts[b].trie_id
        &&& forall|a: AccountId, i: int|
            #[trigger] self@.contracts.contains_key(a) && 0 <= i < self@.queue.pending.len()
                ==> self@.contracts[a].trie_id != #[trigger] self@.queue.pending[i]
    }

    /// Well-formedness depends only on the contracts, the namespaces, the
    /// queue and the counter.
    pub proof fn lemma_wf_parts(w: World, v: World)
        requires
            v.wf(),
            w@.contracts == v@.contracts,
            w@.tries == v@.tries,
            w.queue == v.queue,
            w@.nonce == v@.nonce,
        ensures
            w.wf(),
    {
        assert forall|a: AccountId| #[trigger] w@.contracts.contains_key(a) implies (
        w@.contracts[a].trie_id < w@.nonce) by {
            assert(v@.contracts.contains_key(a));
        }
        assert forall|t: u64| #[trigger] w@.tries.contains_key(t) implies t < w@.nonce by {
            assert(v@.tries.contains_key(t));
        }
        assert forall|i: int| 0 <= i < w@.queue.pending.len() implies #[trigger] w@.queue.pending[i]
            < w@.nonce by {
            assert(v@.queue.pending[i] < v@.nonce);
        }
        assert forall|a: AccountId, b: AccountId|
            a != b && #[trigger] w@.contracts.contains_key(a) && #[trigger]
            w@.contracts.contains_key(b) implies (w@.contracts[a].trie_id != w@.contracts[b].trie_id) by {
            assert(v@.contracts.contains_key(a) && v@.contracts.contains_key(b));
        }
        assert forall|a: AccountId, i: int|
            #[trigger] w@.contracts.contains_key(a) && 0 <= i
                < w@.queue.pending.len() implies w@.contracts[a].trie_id != #[trigger]
            w@.queue.pending[i] by {
            assert(v@.contracts.contains_key(a));
            assert(v@.contracts[a].trie_id != v@.queue.pending[i]);
        }
    }

    /// An empty world.
    pub fn new() -> (r: Self)
        ensures
            r@.balances == Map::<AccountId, Balance>::empty(),
            r@.contracts == Map::<AccountId, ContractInfoV>::empty(),
            r@.tries == Map::<u64, Map<Seq<u8>, Seq<u8>>>::empty(),
            r@.codes == Map::<Seq<u8>, CodeRecV>::empty(),
            r@.events == Seq::<EventV>::empty(),
            r@.queue.pending == Seq::<u64>::empty(),
            r@.queue.insert_counter == 0,
            r@.queue.delete_counter == 0,
            r@.nonce == 0,
            r.wf(),
    {
        let r = World {
            balances: KvMap::new(),
            contracts: KvMap::new(),
            tries: KvMap::new(),
            codes: KvMap::new(),
            events: Vec::new(),
            queue: DeletionQueue::new(),
            nonce: 0,
        };
        proof {
            assert(r@.events =~= Seq::<EventV>::empty());
        }
        r
    }

    /// A deep copy of the whole state, with the same view.  Taken when a
    /// frame is entered; restoring the copy is the frame's rollback.
    pub fn snapshot(&self) -> (r: Self)
        ensures
            r@ == self@,
            r.wf() == self.wf(),
    {
        let mut events: Vec<Event> = Vec::new();
        let mut i: usize = 0;
        let n = self.events.len();
        while i < n
            invariant
                n == self.events@.len(),
                i <= n,
                events@.len() == i,
                forall|j: int| 0 <= j < i ==> events@[j]@ == self.events@[j]@,
            decreases n - i,
        {
            events.push(self.events[i].dup());
            i += 1;
        }
        let r = World {
            balances: self.balances.dup(),
            contracts: self.contracts.dup(),
            tries: self.tries.dup(),
            codes: self.codes.dup(),
            events,
            queue: self.queue.dup(),
            nonce: self.nonce,
        };
        proof {
            assert(r@.events =~= self@.events) by {
                assert(r@.events.len() == self@.events.len());
                assert(forall|j: int|
                    0 <= j < n ==> r@.events[j] == #[trigger] self@.events[j]);
            }
            assert(r@ == self@);
        }
        r
    }
}

} // verus!
