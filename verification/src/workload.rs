//! Synthetic workloads.
//!
//! A workload is one transaction shape, parameterized so that its encoded
//! size is an exact function of the parameters. Account selection is
//! drawn from a reproducible pool so that repeated builds under warmup
//! and measurement are cost-equivalent.

use vstd::prelude::*;

use crate::text::{dec3_seq, u64_to_dec3};

verus! {

/// A named method of the test contract that host-function workloads call.
#[derive(Clone, Copy, Debug, PartialEq, Eq, Structural)]
pub enum HostFnMethod {
    /// Returns immediately without calling any host function.
    Noop,
    /// Calls the cheapest host function a million times.
    Base1M,
    /// Produces one thousand data receipts of ten bytes each.
    DataReceipt10b1000,
    /// The baseline for the ten-byte data receipts: same control flow,
    /// no receipts.
    DataReceiptBase10b1000,
    /// Produces one thousand data receipts of a hundred kibibytes each.
    DataReceipt100kib1000,
    /// Reads ten bytes of guest memory ten thousand times.
    ReadMemory10b10k,
    /// Reads one mebibyte of guest memory ten thousand times.
    ReadMemory1Mib10k,
    /// Writes ten bytes of guest memory ten thousand times.
    WriteMemory10b10k,
    /// Writes one mebibyte of guest memory ten thousand times.
    WriteMemory1Mib10k,
}

/// An internal resource counter reported by the execution backend.
#[derive(Clone, Copy, Debug, PartialEq, Eq, Structural)]
pub enum ExtCostKind {
    /// Number of host-function invocations.
    Base,
    /// Base count of guest-memory reads.
    ReadMemoryBase,
    /// Bytes read from guest memory.
    ReadMemoryByte,
    /// Base count of guest-memory writes.
    WriteMemoryBase,
    /// Bytes written to guest memory.
    WriteMemoryByte,
}

/// Which contract a deploy workload deploys.
#[derive(Clone, Copy, Debug, PartialEq, Eq, Structural)]
pub enum ContractSource {
    /// The smallest valid contract, for the base deploy cost.
    Smallest,
    /// A large contract, for the per-byte deploy cost.
    Large,
}

/// The shape of one synthetic workload.
#[derive(Clone, Copy, Debug, PartialEq, Eq, Structural)]
pub enum WorkloadKind {
    /// A transaction with no actions between two distinct accounts.
    EmptyCrossAccount,
    /// A transaction with no actions from an account to itself.
    EmptySelf,
    /// A one-token transfer between two distinct accounts.
    Transfer,
    /// Creation of a fresh account, endowed with a deposit.
    CreateAccount,
    /// Deletion of an account with a distinct beneficiary.
    DeleteAccount,
    /// Addition of a full-access key.
    AddFullAccessKey,
    /// Addition of a function-call access key with one short method name.
    AddFunctionAccessKeyBase,
    /// Addition of a function-call access key with a thousand ten-byte
    /// method names.
    AddFunctionAccessKeyManyMethods,
    /// Deletion of an access key.
    DeleteKey,
    /// A staking action.
    Stake,
    /// Deployment of a contract read from the named source.
    DeployContract { source: ContractSource },
    /// A call of the named contract method with an argument of exactly
    /// `arg_len` zero bytes.
    FunctionCall { method: HostFnMethod, arg_len: u64 },
}

/// One action of a transaction, holding exactly the fields whose size or
/// content the charged cost depends on.
#[derive(Clone, Debug)]
pub enum ActionKind {
    CreateAccount,
    DeployContract { code: Vec<u8> },
    FunctionCall { method: String, args: Vec<u8> },
    Transfer { deposit: u128 },
    Stake { stake: u128 },
    AddKey { permission: AccessKeyPermission },
    DeleteKey,
    DeleteAccount { beneficiary_id: u64 },
}

/// The permission carried by an added access key.
#[derive(Clone, Debug)]
pub enum AccessKeyPermission {
    FullAccess,
    FunctionCall { allowance: Option<u128>, receiver_id: u64, method_names: Vec<String> },
}

/// One synthetic transaction. Accounts are indices into the test bed's
/// account pool; indices at or above the pool size denote accounts that
/// do not exist yet.
#[derive(Clone, Debug)]
pub struct Transaction {
    pub sender: u64,
    pub receiver: u64,
    pub actions: Vec<ActionKind>,
}

/// A reproducible pool of test accounts.
///
/// `next_account` cycles through the pool; `unused_account` hands out
/// each pool account at most once; `fresh_account_id` names accounts
/// beyond the pool, which therefore do not exist yet.
#[derive(Clone, Copy, Debug, PartialEq, Eq, Structural)]
pub struct AccountPool {
    pub active_accounts: u64,
    pub next: u64,
    pub next_unused: u64,
    pub next_fresh: u64,
}

impl AccountPool {
    pub open spec fn wf(&self) -> bool {
        2 <= self.active_accounts
    }

    /// A pool over `active_accounts` accounts with nothing handed out.
    pub fn new(active_accounts: u64) -> (r: AccountPool)
        requires
            2 <= active_accounts,
        ensures
            r == (AccountPool { active_accounts, next: 0, next_unused: 0, next_fresh: 0 }),
            r.wf(),
    {
        AccountPool { active_accounts, next: 0, next_unused: 0, next_fresh: 0 }
    }

    /// The next account in the cycle; may repeat after a full round.
    pub fn next_account(&mut self) -> (r: u64)
        requires
            old(self).wf(),
            old(self).next < u64::MAX,
        ensures
            final(self).wf(),
            r == old(self).next % old(self).active_accounts,
            *final(self) == (AccountPool { next: (old(self).next + 1) as u64, ..*old(self) }),
    {
        let r = self.next % self.active_accounts;
        self.next = self.next + 1;
        r
    }

    /// A pair of distinct accounts.
    pub fn account_pair(&mut self) -> (r: (u64, u64))
        requires
            old(self).wf(),
            old(self).next < u64::MAX,
        ensures
            final(self).wf(),
            r.0 == old(self).next % old(self).active_accounts,
            r.1 == if r.0 + 1 == old(self).active_accounts {
                0u64
            } else {
                (r.0 + 1) as u64
            },
            r.0 != r.1,
            *final(self) == (AccountPool { next: (old(self).next + 1) as u64, ..*old(self) }),
    {
        let s = self.next % self.active_accounts;
        self.next = self.next + 1;
        let t = if s + 1 == self.active_accounts {
            0
        } else {
            s + 1
        };
        (s, t)
    }

    /// A pool account that no previous call of this method returned.
    pub fn unused_account(&mut self) -> (r: u64)
        requires
            old(self).wf(),
            old(self).next_unused < old(self).active_accounts,
        ensures
            final(self).wf(),
            r == old(self).next_unused,
            *final(self) == (AccountPool { next_unused: (old(self).next_unused + 1) as u64, ..*old(self) }),
    {
        let r = self.next_unused;
        self.next_unused = self.next_unused + 1;
        r
    }

    /// The index of an account that does not exist yet; each call returns
    /// a new one.
    pub fn fresh_account_id(&mut self) -> (r: u64)
        requires
            old(self).wf(),
            old(self).active_accounts + old(self).next_fresh < u64::MAX,
        ensures
            final(self).wf(),
            r == old(self).active_accounts + old(self).next_fresh,
            r >= old(self).active_accounts,
            *final(self) == (AccountPool { next_fresh: (old(self).next_fresh + 1) as u64, ..*old(self) }),
    {
        let r = self.active_accounts + self.next_fresh;
        self.next_fresh = self.next_fresh + 1;
        r
    }
}

/// The name of the test-contract method a host-function workload calls.
pub open spec fn method_name_seq(m: HostFnMethod) -> Seq<char> {
    match m {
        HostFnMethod::Noop => "noop"@,
        HostFnMethod::Base1M => "base_1M"@,
        HostFnMethod::DataReceipt10b1000 => "data_receipt_10b_1000"@,
        HostFnMethod::DataReceiptBase10b1000 => "data_receipt_base_10b_1000"@,
        HostFnMethod::DataReceipt100kib1000 => "data_receipt_100kib_1000"@,
        HostFnMethod::ReadMemory10b10k => "read_memory_10b_10k"@,
        HostFnMethod::ReadMemory1Mib10k => "read_memory_1Mib_10k"@,
        HostFnMethod::WriteMemory10b10k => "write_memory_10b_10k"@,
        HostFnMethod::WriteMemory1Mib10k => "write_memory_1Mib_10k"@,
    }
}

/// Returns the method name `m` stands for.
pub fn method_name(m: HostFnMethod) -> (r: String)
    ensures
        r@ == method_name_seq(m),
{
    match m {
        HostFnMethod::Noop => String::from_str("noop"),
        HostFnMethod::Base1M => String::from_str("base_1M"),
        HostFnMethod::DataReceipt10b1000 => String::from_str("data_receipt_10b_1000"),
        HostFnMethod::DataReceiptBase10b1000 => String::from_str("data_receipt_base_10b_1000"),
        HostFnMethod::DataReceipt100kib1000 => String::from_str("data_receipt_100kib_1000"),
        HostFnMethod::ReadMemory10b10k => String::from_str("read_memory_10b_10k"),
        HostFnMethod::ReadMemory1Mib10k => String::from_str("read_memory_1Mib_10k"),
        HostFnMethod::WriteMemory10b10k => String::from_str("write_memory_10b_10k"),
        HostFnMethod::WriteMemory1Mib10k => String::from_str("write_memory_1Mib_10k"),
    }
}

/// The `i`-th of the thousand method names used by the many-method
/// access-key workload: a fixed seven-character stem and three digits,
/// ten bytes in all.
pub open spec fn access_key_method_name(i: nat) -> Seq<char> {
    "a123456"@ + dec3_seq(i)
}

/// Builds the thousand ten-byte method names of the many-method
/// access-key workload.
pub fn many_method_names() -> (r: Vec<String>)
    ensures
        r@.len() == 1000,
        forall|i: int| 0 <= i < 1000 ==> (#[trigger] r@[i])@ == access_key_method_name(i as nat),
        forall|i: int| 0 <= i < 1000 ==> (#[trigger] r@[i])@.len() == 10,
{
    proof {
        reveal_strlit("a123456");
    }
    let mut r: Vec<String> = Vec::new();
    let mut i: u64 = 0;
    while i < 1000
        invariant
            0 <= i <= 1000,
            r@.len() == i,
            forall|j: int| 0 <= j < i ==> (#[trigger] r@[j])@ == access_key_method_name(j as nat),
            forall|j: int| 0 <= j < i ==> (#[trigger] r@[j])@.len() == 10,
        decreases 1000 - i,
    {
        let mut name = String::from_str("a123456");
        let digits = u64_to_dec3(i);
        name.append(digits.as_str());
        proof {
            reveal_strlit("a123456");
            assert(name@.len() == 10);
        }
        r.push(name);
        i = i + 1;
    }
    r
}

/// Whether `t` is a transaction from `sender` to `receiver` whose single
/// action is `a`.
pub open spec fn single_action_tx(t: Transaction, sender: u64, receiver: u64) -> bool {
    t.sender == sender && t.receiver == receiver && t.actions@.len() == 1
}

/// Packs a sender, a receiver and a list of actions into a transaction.
pub fn transaction_from_actions(sender: u64, receiver: u64, actions: Vec<ActionKind>) -> (r:
    Transaction)
    ensures
        r.sender == sender,
        r.receiver == receiver,
        r.actions == actions,
{
    Transaction { sender, receiver, actions }
}

/// A call of `method` on the contract deployed to `sender`'s own
/// account, with an argument of exactly `arg_len` zero bytes.
pub fn transaction_from_function_call(sender: u64, method: HostFnMethod, arg_len: usize) -> (r:
    Transaction)
    ensures
        single_action_tx(r, sender, sender),
        r.actions@[0] matches ActionKind::FunctionCall { method: m, args } ==> m@
            == method_name_seq(method) && args@ =~= Seq::new(arg_len as nat, |i: int| 0u8),
        r.actions@[0] is FunctionCall,
    {
    let mut args: Vec<u8> = Vec::new();
    while args.len() < arg_len
        invariant
            args@.len() <= arg_len,
            forall|i: int| 0 <= i < args@.len() ==> args@[i] == 0u8,
        decreases arg_len - args@.len(),
    {
        args.push(0u8);
    }
    let mut actions: Vec<ActionKind> = Vec::new();
    actions.push(ActionKind::FunctionCall { method: method_name(method), args });
    Transaction { sender, receiver: sender, actions }
}

/// A transaction from `sender` to itself that adds one access key with
/// the given permission.
pub fn add_key_transaction(sender: u64, permission: AccessKeyPermission) -> (r: Transaction)
    ensures
        single_action_tx(r, sender, sender),
        r.actions@[0] matches ActionKind::AddKey { permission: p } ==> p == permission,
        r.actions@[0] is AddKey,
{
    let mut actions: Vec<ActionKind> = Vec::new();
    actions.push(ActionKind::AddKey { permission });
    Transaction { sender, receiver: sender, actions }
}

/// The tokens a freshly created account is endowed with.
pub const NEW_ACCOUNT_ENDOWMENT: u128 = 100_000_000_000_000_000_000_000_000;

/// The allowance granted by the synthetic function-call access keys.
pub const ACCESS_KEY_ALLOWANCE: u128 = 100;

/// Whether the permission is a function-call permission on the first
/// pool account, with the default allowance and the given method names.
pub open spec fn call_permission_on_first_account(
    p: AccessKeyPermission,
    names: Seq<Seq<char>>,
) -> bool {
    match p {
        AccessKeyPermission::FunctionCall { allowance, receiver_id, method_names } => {
            &&& allowance == Some(ACCESS_KEY_ALLOWANCE)
            &&& receiver_id == 0
            &&& method_names@.map_values(|s: String| s@) == names
        },
        _ => false,
    }
}

/// What `transaction_for` builds for each workload kind, and how it
/// draws on the pool.
pub open spec fn spec_transaction_for(
    kind: WorkloadKind,
    pool: AccountPool,
    t: Transaction,
    pool2: AccountPool,
) -> bool {
    match kind {
        WorkloadKind::EmptyCrossAccount => {
            &&& t.sender == pool.next % pool.active_accounts
            &&& t.receiver != t.sender
            &&& t.actions@.len() == 0
            &&& pool2 == (AccountPool { next: (pool.next + 1) as u64, ..pool })
        },
        WorkloadKind::EmptySelf => {
            &&& t.sender == pool.next % pool.active_accounts
            &&& t.receiver == t.sender
            &&& t.actions@.len() == 0
            &&& pool2 == (AccountPool { next: (pool.next + 1) as u64, ..pool })
        },
        WorkloadKind::Transfer => {
            &&& t.sender == pool.next % pool.active_accounts
            &&& t.receiver != t.sender
            &&& t.actions@ =~= seq![ActionKind::Transfer { deposit: 1 }]
            &&& pool2 == (AccountPool { next: (pool.next + 1) as u64, ..pool })
        },
        WorkloadKind::CreateAccount => {
            &&& t.sender == pool.next % pool.active_accounts
            &&& t.receiver == pool.active_accounts + pool.next_fresh
            &&& t.actions@ =~= seq![
                ActionKind::CreateAccount,
                ActionKind::Transfer { deposit: NEW_ACCOUNT_ENDOWMENT },
            ]
            &&& pool2 == (AccountPool {
                next: (pool.next + 1) as u64,
                next_fresh: (pool.next_fresh + 1) as u64,
                ..pool
            })
        },
        WorkloadKind::DeleteAccount => {
            &&& t.sender == pool.next_unused
            &&& t.receiver == t.sender
            &&& t.actions@ =~= seq![
                ActionKind::DeleteAccount { beneficiary_id: (pool.next_unused + 1) as u64 },
            ]
            &&& pool2 == (AccountPool { next_unused: (pool.next_unused + 2) as u64, ..pool })
        },
        WorkloadKind::AddFullAccessKey => {
            &&& single_action_tx(t, pool.next_unused, pool.next_unused)
            &&& t.actions@[0] matches ActionKind::AddKey { permission } ==> permission
                is FullAccess
            &&& t.actions@[0] is AddKey
            &&& pool2 == (AccountPool { next_unused: (pool.next_unused + 1) as u64, ..pool })
        },
        WorkloadKind::AddFunctionAccessKeyBase => {
            &&& single_action_tx(t, pool.next_unused, pool.next_unused)
            &&& t.actions@[0] matches ActionKind::AddKey { permission } ==>
                call_permission_on_first_account(permission, seq!["method1"@])
            &&& t.actions@[0] is AddKey
            &&& pool2 == (AccountPool { next_unused: (pool.next_unused + 1) as u64, ..pool })
        },
        WorkloadKind::AddFunctionAccessKeyManyMethods => {
            &&& single_action_tx(t, pool.next_unused, pool.next_unused)
            &&& t.actions@[0] matches ActionKind::AddKey { permission } ==>
                call_permission_on_first_account(
                permission,
                Seq::new(1000, |i: int| access_key_method_name(i as nat)),
            )
            &&& t.actions@[0] is AddKey
            &&& pool2 == (AccountPool { next_unused: (pool.next_unused + 1) as u64, ..pool })
        },
        WorkloadKind::DeleteKey => {
            &&& single_action_tx(t, pool.next_unused, pool.next_unused)
            &&& t.actions@[0] is DeleteKey
            &&& pool2 == (AccountPool { next_unused: (pool.next_unused + 1) as u64, ..pool })
        },
        WorkloadKind::Stake => {
            &&& single_action_tx(t, pool.next_unused, pool.next_unused)
            &&& t.actions@[0] matches ActionKind::Stake { stake } ==> stake == 1
            &&& t.actions@[0] is Stake
            &&& pool2 == (AccountPool { next_unused: (pool.next_unused + 1) as u64, ..pool })
        },
        WorkloadKind::DeployContract { source } => false,
        WorkloadKind::FunctionCall { method, arg_len } => {
            &&& single_action_tx(t, pool.next_unused, pool.next_unused)
            &&& t.actions@[0] matches ActionKind::FunctionCall { method: m, args } ==> m@
                == method_name_seq(method) && args@ =~= Seq::new(arg_len as nat, |i: int| 0u8)
            &&& t.actions@[0] is FunctionCall
            &&& pool2 == (AccountPool { next_unused: (pool.next_unused + 1) as u64, ..pool })
        },
    }
}

/// Builds the one transaction of workload `kind`, drawing accounts from
/// the pool as the kind asks: repeatable accounts for receipt and
/// transfer workloads, never-reused accounts for the state-changing
/// ones, a fresh account for account creation.
///
/// Deploy workloads carry their contract bytes, which the pool does not
/// hold: build them with `deploy_contract_transaction`.
pub fn transaction_for(kind: &WorkloadKind, pool: &mut AccountPool) -> (r: Transaction)
    requires
        old(pool).wf(),
        !(kind is DeployContract),
        old(pool).next < u64::MAX,
        old(pool).next_unused + 2 <= old(pool).active_accounts,
        old(pool).active_accounts + old(pool).next_fresh < u64::MAX,
        kind matches WorkloadKind::FunctionCall { arg_len, .. } ==> arg_len <= usize::MAX,
    ensures
        final(pool).wf(),
        spec_transaction_for(*kind, *old(pool), r, *final(pool)),
{
    match kind {
        WorkloadKind::EmptyCrossAccount => {
            let (sender, receiver) = pool.account_pair();
            transaction_from_actions(sender, receiver, Vec::new())
        },
        WorkloadKind::EmptySelf => {
            let sender = pool.next_account();
            transaction_from_actions(sender, sender, Vec::new())
        },
        WorkloadKind::Transfer => {
            let (sender, receiver) = pool.account_pair();
            let mut actions: Vec<ActionKind> = Vec::new();
            actions.push(ActionKind::Transfer { deposit: 1 });
            transaction_from_actions(sender, receiver, actions)
        },
        WorkloadKind::CreateAccount => {
            let sender = pool.next_account();
            let new_account = pool.fresh_account_id();
            let mut actions: Vec<ActionKind> = Vec::new();
            actions.push(ActionKind::CreateAccount);
            actions.push(ActionKind::Transfer { deposit: NEW_ACCOUNT_ENDOWMENT });
            transaction_from_actions(sender, new_account, actions)
        },
        WorkloadKind::DeleteAccount => {
            let sender = pool.unused_account();
            let beneficiary_id = pool.unused_account();
            let mut actions: Vec<ActionKind> = Vec::new();
            actions.push(ActionKind::DeleteAccount { beneficiary_id });
            transaction_from_actions(sender, sender, actions)
        },
        WorkloadKind::AddFullAccessKey => {
            let sender = pool.unused_account();
            add_key_transaction(sender, AccessKeyPermission::FullAccess)
        },
        WorkloadKind::AddFunctionAccessKeyBase => {
            let sender = pool.unused_account();
            let mut method_names: Vec<String> = Vec::new();
            method_names.push(String::from_str("method1"));
            proof {
                assert(method_names@.map_values(|s: String| s@) =~= seq!["method1"@]);
            }
            let permission = AccessKeyPermission::FunctionCall {
                allowance: Some(ACCESS_KEY_ALLOWANCE),
                receiver_id: 0,
                method_names,
            };
            add_key_transaction(sender, permission)
        },
        WorkloadKind::AddFunctionAccessKeyManyMethods => {
            let sender = pool.unused_account();
            let method_names = many_method_names();
            proof {
                assert(method_names@.map_values(|s: String| s@) =~= Seq::new(
                    1000,
                    |i: int| access_key_method_name(i as nat),
                ));
            }
            let permission = AccessKeyPermission::FunctionCall {
                allowance: Some(ACCESS_KEY_ALLOWANCE),
                receiver_id: 0,
                method_names,
            };
            add_key_transaction(sender, permission)
        },
        WorkloadKind::DeleteKey => {
            let sender = pool.unused_account();
            let mut actions: Vec<ActionKind> = Vec::new();
            actions.push(ActionKind::DeleteKey);
            transaction_from_actions(sender, sender, actions)
        },
        WorkloadKind::Stake => {
            let sender = pool.unused_account();
            let mut actions: Vec<ActionKind> = Vec::new();
            actions.push(ActionKind::Stake { stake: 1 });
            transaction_from_actions(sender, sender, actions)
        },
        WorkloadKind::DeployContract { .. } => {
            // Excluded by the precondition: deploy workloads need their
            // contract bytes.
            proof {
                assert(false);
            }
            transaction_from_actions(0, 0, Vec::new())
        },
        WorkloadKind::FunctionCall { method, arg_len } => {
            let sender = pool.unused_account();
            transaction_from_function_call(sender, *method, *arg_len as usize)
        },
    }
}

/// The transaction of a deploy workload: the given contract bytes,
/// deployed by an account that no other workload of the run reused.
pub fn deploy_contract_transaction(pool: &mut AccountPool, code: Vec<u8>) -> (r: Transaction)
    requires
        old(pool).wf(),
        old(pool).next_unused < old(pool).active_accounts,
    ensures
        final(pool).wf(),
        single_action_tx(r, old(pool).next_unused, old(pool).next_unused),
        r.actions@[0] matches ActionKind::DeployContract { code: c } ==> c@ == code@,
        r.actions@[0] is DeployContract,
        *final(pool) == (AccountPool {
            next_unused: (old(pool).next_unused + 1) as u64,
            ..*old(pool)
        }),
{
    let sender = pool.unused_account();
    let mut actions: Vec<ActionKind> = Vec::new();
    actions.push(ActionKind::DeployContract { code });
    transaction_from_actions(sender, sender, actions)
}

} // verus!
