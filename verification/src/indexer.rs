//! The block transformer: from a decoded rollup block, the scripts of its
//! accounts and the receipts of its transactions to the rows of the blocks,
//! transactions and logs tables.
use crate::error::{DecodeError, TransformError};
use crate::helper::{
    log_of, parse_log, polyjuice_args_of, GwLog, GwLogView, PolyjuiceArgs, PolyjuiceArgsView,
    GW_LOG_POLYJUICE_SYSTEM,
};
use crate::outside::{blake2b_256, ckb_blake2b_256};
use crate::types::{
    address_at, hash_at, is_zero_address, logs_view, optional_address_view,
    same_bytes, transactions_view, zero_address, zero_bytes, zero_hash, Address, L2Block,
    L2Transaction, LogItem, RegistryAddress, Script, SudtArgs, TxReceipt, Web3Block, Web3Log,
    Web3LogView, Web3Transaction, Web3TransactionView, Web3TransactionWithLogs,
    Web3TransactionWithLogsView, H256, U256,
};
use vstd::prelude::*;

verus! {

/// Milliseconds in a second.
pub const MILLIS_PER_SEC: u64 = 1_000;

/// The account id of the rollup's built-in token account.
pub const CKB_SUDT_ACCOUNT_ID: u32 = 1;

/// What a step of the transformer decides of a transaction.
#[derive(Debug)]
pub enum Outcome<T> {
    /// The transaction goes on, with what the step found out.
    Proceed(T),
    /// The transaction is left out of the index.
    Skip,
    /// The block cannot be indexed.
    Fail(TransformError),
}

/// The configuration of the transformer: the code hashes by which it tells
/// accounts apart, and the chain id.
pub struct Web3Indexer {
    l2_sudt_type_script_hash: H256,
    polyjuice_type_script_hash: H256,
    rollup_type_hash: H256,
    allowed_eoa_hashes: Vec<H256>,
    chain_id: u64,
}

/// The three parts of a signature: `r`, `s` and `v`. A signature of 65 bytes
/// is cut at 32 and 64; one of any other length counts as absent, and all
/// three parts are zero.
pub open spec fn signature_parts(signature: Seq<u8>) -> (Seq<u8>, Seq<u8>, u8) {
    if signature.len() == 65 {
        (signature.subrange(0, 32), signature.subrange(32, 64), signature[64])
    } else {
        (zero_bytes(32), zero_bytes(32), 0u8)
    }
}

/// Cuts a signature into `r`, `s` and `v`.
pub fn split_signature(signature: &[u8]) -> (parts: (H256, H256, u8))
    ensures
        (parts.0@, parts.1@, parts.2) == signature_parts(signature@),
        signature@.len() != 65 ==> parts.0@ == zero_bytes(32) && parts.1@ == zero_bytes(32)
            && parts.2 == 0,
{
    if signature.len() == 65 {
        (hash_at(signature, 0), hash_at(signature, 32), signature[64])
    } else {
        (zero_hash(), zero_hash(), 0)
    }
}

/// The address of the contract that a polyjuice script stands for: bytes 36
/// to 56 of its arguments, or the zero address where they are shorter.
pub open spec fn polyjuice_contract_address(args: Seq<u8>) -> Seq<u8> {
    if args.len() < 56 {
        zero_bytes(20)
    } else {
        args.subrange(36, 56)
    }
}

/// Reads the contract address out of a polyjuice script's arguments.
pub fn polyjuice_to_address(args: &[u8]) -> (a: Address)
    ensures
        a@ == polyjuice_contract_address(args@),
{
    if args.len() < 56 {
        zero_address()
    } else {
        address_at(args, 36)
    }
}

/// The 20-byte address of a registry address, if it has one of that length.
pub open spec fn registry_address_bytes(address: Option<RegistryAddress>) -> Option<Seq<u8>> {
    match address {
        Some(a) => if a.address@.len() == 20 {
            Some(a.address@)
        } else {
            None
        },
        None => None,
    }
}

/// Reads the 20-byte address of a registry address, if it has one of that
/// length.
pub fn registry_address_to_eth(address: &Option<RegistryAddress>) -> (r: Option<Address>)
    ensures
        optional_address_view(r) == registry_address_bytes(*address),
{
    match address {
        Some(a) => {
            if a.address.len() == 20 {
                let eth = address_at(a.address.as_slice(), 0);
                assert(a.address@.subrange(0, 20) =~= a.address@);
                Some(eth)
            } else {
                None
            }
        },
        None => None,
    }
}

/// What stands between a transaction and its row once its destination is
/// known: the fields that the destination fixed.
#[derive(Debug)]
pub enum Pending {
    /// A polyjuice transaction: its arguments, and the contract that the
    /// destination's script stands for.
    Polyjuice { args: PolyjuiceArgs, callee: Address },
    /// A token transfer.
    Sudt { to_address: Address, amount: U256, fee: u128 },
}

/// What a `Pending` stands for.
#[verifier::ext_equal]
pub enum PendingView {
    Polyjuice { args: PolyjuiceArgsView, callee: Seq<u8> },
    Sudt { to_address: Seq<u8>, amount: U256, fee: u128 },
}

impl View for Pending {
    type V = PendingView;

    open spec fn view(&self) -> PendingView {
        match *self {
            Pending::Polyjuice { args, callee } => PendingView::Polyjuice {
                args: args@,
                callee: callee@,
            },
            Pending::Sudt { to_address, amount, fee } => PendingView::Sudt {
                to_address: to_address@,
                amount,
                fee,
            },
        }
    }
}

impl Web3Indexer {
    /// The code hash of the token account's script.
    pub closed spec fn l2_sudt_type_script_hash(&self) -> Seq<u8> {
        self.l2_sudt_type_script_hash@
    }

    /// The code hash of polyjuice contracts.
    pub closed spec fn polyjuice_type_script_hash(&self) -> Seq<u8> {
        self.polyjuice_type_script_hash@
    }

    /// The type hash of the rollup.
    pub closed spec fn rollup_type_hash(&self) -> Seq<u8> {
        self.rollup_type_hash@
    }

    /// The code hashes of the account locks whose transactions are indexed.
    pub closed spec fn allowed_eoa_hashes(&self) -> Set<Seq<u8>> {
        Set::new(
            |h: Seq<u8>|
                exists|i: int|
                    0 <= i < self.allowed_eoa_hashes@.len() && (
                    #[trigger] self.allowed_eoa_hashes@[i])@ == h,
        )
    }

    /// The chain id under which polyjuice transactions are hashed.
    pub closed spec fn chain_id(&self) -> u64 {
        self.chain_id
    }

    /// No code hash is held twice.
    pub closed spec fn wf(&self) -> bool {
        forall|i: int, j: int|
            0 <= i < j < self.allowed_eoa_hashes@.len() ==> (
            #[trigger] self.allowed_eoa_hashes@[i])@ != (#[trigger] self.allowed_eoa_hashes@[j])@
    }

    /// A transformer that indexes the transactions of accounts locked by
    /// `eth_account_lock_hash`.
    pub fn new(
        l2_sudt_type_script_hash: H256,
        polyjuice_type_script_hash: H256,
        rollup_type_hash: H256,
        eth_account_lock_hash: H256,
        chain_id: u64,
    ) -> (indexer: Web3Indexer)
        ensures
            indexer.wf(),
            indexer.l2_sudt_type_script_hash() == l2_sudt_type_script_hash@,
            indexer.polyjuice_type_script_hash() == polyjuice_type_script_hash@,
            indexer.rollup_type_hash() == rollup_type_hash@,
            indexer.allowed_eoa_hashes() == set![eth_account_lock_hash@],
            indexer.chain_id() == chain_id,
    {
        let mut allowed_eoa_hashes: Vec<H256> = Vec::new();
        allowed_eoa_hashes.push(eth_account_lock_hash);
        let indexer = Web3Indexer {
            l2_sudt_type_script_hash,
            polyjuice_type_script_hash,
            rollup_type_hash,
            allowed_eoa_hashes,
            chain_id,
        };
        proof {
            assert(indexer.allowed_eoa_hashes@[0]@ == eth_account_lock_hash@);
            assert(indexer.allowed_eoa_hashes() =~= set![eth_account_lock_hash@]);
        }
        indexer
    }

    /// Whether accounts locked by `code_hash` are indexed.
    pub fn allows(&self, code_hash: &H256) -> (yes: bool)
        ensures
            yes == self.allowed_eoa_hashes().contains(code_hash@),
    {
        let mut i: usize = 0;
        while i < self.allowed_eoa_hashes.len()
            invariant
                i <= self.allowed_eoa_hashes@.len(),
                forall|j: int|
                    0 <= j < i ==> (#[trigger] self.allowed_eoa_hashes@[j])@ != code_hash@,
            decreases self.allowed_eoa_hashes.len() - i,
        {
            if same_bytes(self.allowed_eoa_hashes[i].as_slice(), code_hash.as_slice()) {
                return true;
            }
            i += 1;
        }
        false
    }

    /// What the sender's script decides of a transaction.
    ///
    /// Without a script the block fails. A sender whose lock is not among the
    /// allowed ones is left out. Otherwise the script's arguments must be 52
    /// bytes that begin with the rollup's type hash; their last 20 bytes are
    /// the sender's address.
    pub open spec fn sender_outcome(&self, account_id: u32, script: Option<Script>) -> Outcome<
        Seq<u8>,
    > {
        match script {
            None => Outcome::Fail(TransformError::ScriptNotFound { account_id }),
            Some(s) => if !self.allowed_eoa_hashes().contains(s.code_hash@) {
                Outcome::Skip
            } else if s.args@.len() != 52 || s.args@.subrange(0, 32) != self.rollup_type_hash() {
                Outcome::Fail(TransformError::WrongSenderArgs)
            } else {
                Outcome::Proceed(s.args@.subrange(32, 52))
            },
        }
    }

    /// Decides by the sender's script whether a transaction goes on.
    pub fn check_sender(&self, account_id: u32, script: &Option<Script>) -> (o: Outcome<Address>)
        ensures
            match o {
                Outcome::Proceed(a) => self.sender_outcome(account_id, *script)
                    == Outcome::Proceed(a@),
                Outcome::Skip => self.sender_outcome(account_id, *script) == Outcome::<
                    Seq<u8>,
                >::Skip,
                Outcome::Fail(e) => self.sender_outcome(account_id, *script) == Outcome::<
                    Seq<u8>,
                >::Fail(e),
            },
    {
        match script {
            None => Outcome::Fail(TransformError::ScriptNotFound { account_id }),
            Some(s) => {
                if !self.allows(&s.code_hash) {
                    return Outcome::Skip;
                }
                let args = s.args.as_slice();
                if args.len() != 52 {
                    return Outcome::Fail(TransformError::WrongSenderArgs);
                }
                let prefix = hash_at(args, 0);
                if !same_bytes(prefix.as_slice(), self.rollup_type_hash.as_slice()) {
                    return Outcome::Fail(TransformError::WrongSenderArgs);
                }
                Outcome::Proceed(address_at(args, 32))
            },
        }
    }

    /// What the destination's script decides of a transaction.
    ///
    /// Without a script the block fails. A polyjuice contract has the
    /// transaction's arguments decoded as polyjuice arguments, and names the
    /// contract that a call goes to. The token
    /// account has them read as token arguments: a transfer to a 20-byte
    /// address goes on, a query or a transfer elsewhere is left out. Any other
    /// destination leaves the transaction out.
    pub open spec fn destination_outcome(&self, tx: L2Transaction, script: Option<Script>)
        -> Outcome<PendingView> {
        match script {
            None => Outcome::Fail(TransformError::ScriptNotFound { account_id: tx.to_id }),
            Some(s) => if s.code_hash@ == self.polyjuice_type_script_hash() {
                match polyjuice_args_of(tx.args@) {
                    Err(e) => Outcome::Fail(TransformError::Decode(e)),
                    Ok(args) => Outcome::Proceed(
                        PendingView::Polyjuice {
                            args,
                            callee: polyjuice_contract_address(s.args@),
                        },
                    ),
                }
            } else if tx.to_id == CKB_SUDT_ACCOUNT_ID && s.code_hash@
                == self.l2_sudt_type_script_hash() {
                match tx.sudt_args {
                    None => Outcome::Fail(TransformError::SudtArgsUnreadable),
                    Some(SudtArgs::Query) => Outcome::Skip,
                    Some(SudtArgs::Transfer { to_address, amount, fee }) => {
                        match registry_address_bytes(to_address) {
                            Some(to) => Outcome::Proceed(
                                PendingView::Sudt { to_address: to, amount, fee },
                            ),
                            None => Outcome::Skip,
                        }
                    },
                }
            } else {
                Outcome::Skip
            },
        }
    }

    /// Decides by the destination's script how a transaction goes on.
    pub fn check_destination(&self, tx: &L2Transaction, script: &Option<Script>) -> (o: Outcome<
        Pending,
    >)
        ensures
            match o {
                Outcome::Proceed(p) => self.destination_outcome(*tx, *script) == Outcome::Proceed(
                    p@,
                ),
                Outcome::Skip => self.destination_outcome(*tx, *script) == Outcome::<
                    PendingView,
                >::Skip,
                Outcome::Fail(e) => self.destination_outcome(*tx, *script) == Outcome::<
                    PendingView,
                >::Fail(e),
            },
    {
        match script {
            None => Outcome::Fail(TransformError::ScriptNotFound { account_id: tx.to_id }),
            Some(s) => {
                if same_bytes(s.code_hash.as_slice(), self.polyjuice_type_script_hash.as_slice()) {
                    match PolyjuiceArgs::decode(tx.args.as_slice()) {
                        Err(e) => Outcome::Fail(TransformError::Decode(e)),
                        Ok(args) => {
                            let callee = polyjuice_to_address(s.args.as_slice());
                            Outcome::Proceed(Pending::Polyjuice { args, callee })
                        },
                    }
                } else if tx.to_id == CKB_SUDT_ACCOUNT_ID && same_bytes(
                    s.code_hash.as_slice(),
                    self.l2_sudt_type_script_hash.as_slice(),
                ) {
                    match &tx.sudt_args {
                        None => Outcome::Fail(TransformError::SudtArgsUnreadable),
                        Some(SudtArgs::Query) => Outcome::Skip,
                        Some(SudtArgs::Transfer { to_address, amount, fee }) => {
                            match registry_address_to_eth(to_address) {
                                Some(to) => Outcome::Proceed(
                                    Pending::Sudt { to_address: to, amount: *amount, fee: *fee },
                                ),
                                None => Outcome::Skip,
                            }
                        },
                    }
                } else {
                    Outcome::Skip
                }
            },
        }
    }
}


/// Whether item `k` is the first polyjuice system log among `items`.
pub open spec fn is_first_system_log(items: Seq<LogItem>, k: int) -> bool {
    &&& 0 <= k < items.len()
    &&& items[k].service_flag == GW_LOG_POLYJUICE_SYSTEM
    &&& forall|j: int| 0 <= j < k ==> (#[trigger] items[j]).service_flag != GW_LOG_POLYJUICE_SYSTEM
}

/// Whether `items` hold a polyjuice system log.
pub open spec fn has_system_log(items: Seq<LogItem>) -> bool {
    exists|k: int| is_first_system_log(items, k)
}

/// The place of the first polyjuice system log among `items`.
pub open spec fn first_system_log(items: Seq<LogItem>) -> int {
    choose|k: int| is_first_system_log(items, k)
}

/// Finds the first polyjuice system log among `items`.
pub fn find_system_log(items: &Vec<LogItem>) -> (r: Option<usize>)
    ensures
        match r {
            Some(k) => has_system_log(items@) && first_system_log(items@) == k,
            None => !has_system_log(items@),
        },
{
    let mut i: usize = 0;
    while i < items.len()
        invariant
            i <= items@.len(),
            forall|j: int|
                0 <= j < i ==> (#[trigger] items@[j]).service_flag != GW_LOG_POLYJUICE_SYSTEM,
        decreases items.len() - i,
    {
        if items[i].service_flag == GW_LOG_POLYJUICE_SYSTEM {
            assert(is_first_system_log(items@, i as int));
            let ghost chosen = first_system_log(items@);
            assert(is_first_system_log(items@, chosen));
            assert(chosen == i) by {
                if chosen < i {
                    assert(items@[chosen].service_flag != GW_LOG_POLYJUICE_SYSTEM);
                }
                if i < chosen {
                    assert(items@[i as int].service_flag != GW_LOG_POLYJUICE_SYSTEM);
                }
            }
            return Some(i);
        }
        i += 1;
    }
    assert forall|k: int| !is_first_system_log(items@, k) by {
        if 0 <= k < items@.len() {
            assert(items@[k].service_flag != GW_LOG_POLYJUICE_SYSTEM);
        }
    }
    None
}

/// The polyjuice user logs among `items`, in order. The first item that
/// cannot be decoded fails the whole.
pub open spec fn user_logs_of(items: Seq<LogItem>) -> Result<Seq<GwLogView>, DecodeError>
    decreases items.len(),
{
    if items.len() == 0 {
        Ok(Seq::<GwLogView>::empty())
    } else {
        match user_logs_of(items.drop_last()) {
            Err(e) => Err(e),
            Ok(front) => {
                let item = items.last();
                match log_of(item.account_id, item.service_flag, item.data@) {
                    Err(e) => Err(e),
                    Ok(log) => if log is PolyjuiceUser {
                        Ok(front.push(log))
                    } else {
                        Ok(front)
                    },
                }
            },
        }
    }
}

/// The rows of the logs table for the user logs of one transaction: one row
/// each, in order, numbered from zero.
pub open spec fn web3_logs_of(
    users: Seq<GwLogView>,
    transaction_hash: Seq<u8>,
    transaction_index: u32,
    block_number: u64,
    block_hash: Seq<u8>,
) -> Seq<Web3LogView> {
    Seq::new(
        users.len(),
        |j: int|
            Web3LogView {
                transaction_hash,
                transaction_index,
                block_number,
                block_hash,
                address: users[j]->address,
                data: users[j]->data,
                log_index: j as u32,
                topics: users[j]->topics,
            },
    )
}

/// Builds the rows of the logs table from the log items of one receipt.
pub fn collect_user_logs(
    items: &Vec<LogItem>,
    transaction_hash: &H256,
    transaction_index: u32,
    block_number: u64,
    block_hash: &H256,
) -> (r: Result<Vec<Web3Log>, DecodeError>)
    requires
        items@.len() <= u32::MAX,
    ensures
        match r {
            Ok(logs) => user_logs_of(items@) matches Ok(users) && logs_view(logs@) == web3_logs_of(
                users,
                transaction_hash@,
                transaction_index,
                block_number,
                block_hash@,
            ),
            Err(e) => user_logs_of(items@) == Err::<Seq<GwLogView>, DecodeError>(e),
        },
{
    let mut logs: Vec<Web3Log> = Vec::new();
    let ghost mut users: Seq<GwLogView> = Seq::empty();
    let mut i: usize = 0;
    assert(items@.take(0) =~= Seq::<LogItem>::empty());
    assert(logs_view(logs@) =~= web3_logs_of(
        users,
        transaction_hash@,
        transaction_index,
        block_number,
        block_hash@,
    ));
    while i < items.len()
        invariant
            i <= items@.len() <= u32::MAX,
            users.len() == logs@.len() <= i,
            user_logs_of(items@.take(i as int)) == Ok::<Seq<GwLogView>, DecodeError>(users),
            logs_view(logs@) == web3_logs_of(
                users,
                transaction_hash@,
                transaction_index,
                block_number,
                block_hash@,
            ),
        decreases items.len() - i,
    {
        let ghost seen = items@.take(i + 1);
        assert(seen.drop_last() =~= items@.take(i as int));
        assert(seen.last() == items@[i as int]);
        match parse_log(&items[i]) {
            Err(e) => {
                proof {
                    lemma_user_logs_error_stays(items@, i + 1, e);
                }
                return Err(e);
            },
            Ok(log) => {
                let ghost log_view = log@;
                match log {
                    GwLog::PolyjuiceUser { address, data, topics } => {
                        let log_index: u32 = logs.len() as u32;
                        let ghost rows = logs_view(logs@);
                        logs.push(
                            Web3Log {
                                transaction_hash: *transaction_hash,
                                transaction_index,
                                block_number,
                                block_hash: *block_hash,
                                address,
                                data,
                                log_index,
                                topics,
                            },
                        );
                        proof {
                            let before = users;
                            users = users.push(log_view);
                            let wanted = web3_logs_of(
                                users,
                                transaction_hash@,
                                transaction_index,
                                block_number,
                                block_hash@,
                            );
                            assert forall|j: int| 0 <= j < wanted.len() implies logs_view(
                                logs@,
                            )[j] == wanted[j] by {
                                if j < before.len() {
                                    assert(logs_view(logs@)[j] == rows[j]);
                                    assert(users[j] == before[j]);
                                } else {
                                    assert(users[j] == log_view);
                                }
                            }
                            assert(logs_view(logs@) =~= wanted);
                        }
                    },
                    _ => {},
                }
            },
        }
        i += 1;
    }
    assert(items@.take(items@.len() as int) =~= items@);
    Ok(logs)
}

/// There are no more user logs than items.
pub proof fn lemma_user_logs_len(items: Seq<LogItem>)
    ensures
        user_logs_of(items) matches Ok(users) ==> users.len() <= items.len(),
    decreases items.len(),
{
    if items.len() > 0 {
        lemma_user_logs_len(items.drop_last());
    }
}

/// Once a prefix of the items fails to decode, the whole fails the same way.
pub proof fn lemma_user_logs_error_stays(items: Seq<LogItem>, n: int, e: DecodeError)
    requires
        0 <= n <= items.len(),
        user_logs_of(items.take(n)) == Err::<Seq<GwLogView>, DecodeError>(e),
    ensures
        user_logs_of(items) == Err::<Seq<GwLogView>, DecodeError>(e),
    decreases items.len() - n,
{
    if n < items.len() {
        assert(items.take(n + 1).drop_last() =~= items.take(n));
        lemma_user_logs_error_stays(items, n + 1, e);
    } else {
        assert(items.take(n) =~= items);
    }
}


/// The gas used by all of `rows`.
pub open spec fn gas_used_sum(rows: Seq<Web3TransactionWithLogsView>) -> nat
    decreases rows.len(),
{
    if rows.len() == 0 {
        0
    } else {
        gas_used_sum(rows.drop_last()) + rows.last().tx.gas_used as nat
    }
}

/// The gas limits of all of `rows`, added up.
pub open spec fn gas_limit_sum(rows: Seq<Web3TransactionWithLogsView>) -> nat
    decreases rows.len(),
{
    if rows.len() == 0 {
        0
    } else {
        gas_limit_sum(rows.drop_last()) + rows.last().tx.gas_limit as nat
    }
}

impl Web3Indexer {
    /// The row that a transaction is indexed as, once its receipt is known.
    ///
    /// `transaction_index` and `cumulative_gas_used` are the number and the
    /// gas of the transactions indexed before it. Without a receipt the block
    /// fails.
    ///
    /// A polyjuice transaction takes its gas and the address of a created
    /// contract from the first system log of the receipt, and has one log row
    /// for each user log. A token transfer pays its fee as gas at price 1 and
    /// has no logs.
    #[verifier::opaque]
    pub open spec fn row_outcome(
        &self,
        block_number: u64,
        block_hash: Seq<u8>,
        transaction_index: u32,
        cumulative_gas_used: u128,
        tx: L2Transaction,
        from_address: Seq<u8>,
        pending: PendingView,
        receipt: Option<TxReceipt>,
    ) -> Result<Web3TransactionWithLogsView, TransformError> {
        let (r, s, v) = signature_parts(tx.signature@);
        match receipt {
            None => Err(TransformError::ReceiptNotFound),
            Some(rc) => match pending {
                PendingView::Polyjuice { args, callee } => {
                    if rc.logs@.len() > u32::MAX {
                        Err(TransformError::TooManyLogs)
                    } else if !has_system_log(rc.logs@) {
                        Err(TransformError::MissingSystemLog)
                    } else {
                        let item = rc.logs@[first_system_log(rc.logs@)];
                        match log_of(item.account_id, item.service_flag, item.data@) {
                            Err(e) => Err(TransformError::Decode(e)),
                            Ok(system) => {
                                let gas_used = system->gas_used as u128;
                                let created = system->created_address;
                                if cumulative_gas_used + gas_used > u128::MAX {
                                    Err(TransformError::GasOverflow)
                                } else {
                                    match user_logs_of(rc.logs@) {
                                        Err(e) => Err(TransformError::Decode(e)),
                                        Ok(users) => Ok(
                                            Web3TransactionWithLogsView {
                                                tx: Web3TransactionView {
                                                    gw_tx_hash: tx.hash@,
                                                    chain_id: Some(self.chain_id()),
                                                    block_number,
                                                    block_hash,
                                                    transaction_index,
                                                    from_address,
                                                    to_address: if args.is_create {
                                                        None
                                                    } else {
                                                        Some(callee)
                                                    },
                                                    value: U256 { hi: 0, lo: args.value },
                                                    nonce: tx.nonce,
                                                    gas_limit: args.gas_limit as u128,
                                                    gas_price: args.gas_price,
                                                    input: args.input_bytes(),
                                                    r,
                                                    s,
                                                    v,
                                                    cumulative_gas_used: (cumulative_gas_used
                                                        + gas_used) as u128,
                                                    gas_used,
                                                    contract_address: if args.is_create && created
                                                        != zero_bytes(20) {
                                                        Some(created)
                                                    } else {
                                                        None
                                                    },
                                                    exit_code: rc.exit_code,
                                                },
                                                logs: web3_logs_of(
                                                    users,
                                                    tx.hash@,
                                                    transaction_index,
                                                    block_number,
                                                    block_hash,
                                                ),
                                            },
                                        ),
                                    }
                                }
                            },
                        }
                    }
                },
                PendingView::Sudt { to_address, amount, fee } => {
                    if cumulative_gas_used + fee > u128::MAX {
                        Err(TransformError::GasOverflow)
                    } else {
                        Ok(
                            Web3TransactionWithLogsView {
                                tx: Web3TransactionView {
                                    gw_tx_hash: tx.hash@,
                                    chain_id: None,
                                    block_number,
                                    block_hash,
                                    transaction_index,
                                    from_address,
                                    to_address: Some(to_address),
                                    value: amount,
                                    nonce: tx.nonce,
                                    gas_limit: fee,
                                    gas_price: 1,
                                    input: Seq::<u8>::empty(),
                                    r,
                                    s,
                                    v,
                                    cumulative_gas_used: (cumulative_gas_used + fee) as u128,
                                    gas_used: fee,
                                    contract_address: None,
                                    exit_code: rc.exit_code,
                                },
                                logs: Seq::<Web3LogView>::empty(),
                            },
                        )
                    }
                },
            },
        }
    }

    /// Builds the row of a transaction from its receipt.
    pub fn build_row(
        &self,
        block_number: u64,
        block_hash: &H256,
        transaction_index: u32,
        cumulative_gas_used: u128,
        tx: &L2Transaction,
        from_address: Address,
        pending: Pending,
        receipt: Option<TxReceipt>,
    ) -> (r: Result<Web3TransactionWithLogs, TransformError>)
        ensures
            match r {
                Ok(row) => self.row_outcome(
                    block_number,
                    block_hash@,
                    transaction_index,
                    cumulative_gas_used,
                    *tx,
                    from_address@,
                    pending@,
                    receipt,
                ) == Ok::<Web3TransactionWithLogsView, TransformError>(row@),
                Err(e) => self.row_outcome(
                    block_number,
                    block_hash@,
                    transaction_index,
                    cumulative_gas_used,
                    *tx,
                    from_address@,
                    pending@,
                    receipt,
                ) == Err::<Web3TransactionWithLogsView, TransformError>(e),
            },
    {
        proof {
            reveal(Web3Indexer::row_outcome);
        }
        let (r, s, v) = split_signature(tx.signature.as_slice());
        let rc = match receipt {
            None => {
                return Err(TransformError::ReceiptNotFound);
            },
            Some(rc) => rc,
        };
        match pending {
            Pending::Polyjuice { args, callee } => {
                if rc.logs.len() > 0xffff_ffff_usize {
                    return Err(TransformError::TooManyLogs);
                }
                let k = match find_system_log(&rc.logs) {
                    None => {
                        return Err(TransformError::MissingSystemLog);
                    },
                    Some(k) => k,
                };
                let (gas_used, created) = match parse_log(&rc.logs[k]) {
                    Err(e) => {
                        return Err(TransformError::Decode(e));
                    },
                    Ok(GwLog::PolyjuiceSystem { gas_used, created_address, .. }) => (
                        gas_used as u128,
                        created_address,
                    ),
                    Ok(_) => {
                        return Err(TransformError::MissingSystemLog);
                    },
                };
                if gas_used > u128::MAX - cumulative_gas_used {
                    return Err(TransformError::GasOverflow);
                }
                let logs = match collect_user_logs(
                    &rc.logs,
                    &tx.hash,
                    transaction_index,
                    block_number,
                    block_hash,
                ) {
                    Err(e) => {
                        return Err(TransformError::Decode(e));
                    },
                    Ok(logs) => logs,
                };
                let contract_address = if args.is_create && !is_zero_address(&created) {
                    Some(created)
                } else {
                    None
                };
                let to_address = if args.is_create {
                    None
                } else {
                    Some(callee)
                };
                let input = match args.input {
                    Some(bytes) => bytes,
                    None => Vec::new(),
                };
                Ok(
                    Web3TransactionWithLogs {
                        tx: Web3Transaction {
                            gw_tx_hash: tx.hash,
                            chain_id: Some(self.chain_id),
                            block_number,
                            block_hash: *block_hash,
                            transaction_index,
                            from_address,
                            to_address,
                            value: U256::from_u128(args.value),
                            nonce: tx.nonce,
                            gas_limit: args.gas_limit as u128,
                            gas_price: args.gas_price,
                            input,
                            r,
                            s,
                            v,
                            cumulative_gas_used: cumulative_gas_used + gas_used,
                            gas_used,
                            contract_address,
                            exit_code: rc.exit_code,
                        },
                        logs,
                    },
                )
            },
            Pending::Sudt { to_address, amount, fee } => {
                if fee > u128::MAX - cumulative_gas_used {
                    return Err(TransformError::GasOverflow);
                }
                let row = Web3TransactionWithLogs {
                    tx: Web3Transaction {
                        gw_tx_hash: tx.hash,
                        chain_id: None,
                        block_number,
                        block_hash: *block_hash,
                        transaction_index,
                        from_address,
                        to_address: Some(to_address),
                        value: amount,
                        nonce: tx.nonce,
                        gas_limit: fee,
                        gas_price: 1,
                        input: Vec::new(),
                        r,
                        s,
                        v,
                        cumulative_gas_used: cumulative_gas_used + fee,
                        gas_used: fee,
                        contract_address: None,
                        exit_code: rc.exit_code,
                    },
                    logs: Vec::new(),
                };
                assert(logs_view(row.logs@) =~= Seq::<Web3LogView>::empty());
                Ok(row)
            },
        }
    }
}


/// Where the transformer stands with the transaction it is looking at.
#[derive(Debug)]
pub enum Stage {
    /// It waits for the sender's script.
    Sender,
    /// It waits for the destination's script.
    Destination { from_address: Address },
    /// It waits for the receipt.
    Receipt { from_address: Address, pending: Pending },
}

/// What a `Stage` stands for.
#[verifier::ext_equal]
pub enum StageView {
    Sender,
    Destination { from_address: Seq<u8> },
    Receipt { from_address: Seq<u8>, pending: PendingView },
}

impl View for Stage {
    type V = StageView;

    open spec fn view(&self) -> StageView {
        match *self {
            Stage::Sender => StageView::Sender,
            Stage::Destination { from_address } => StageView::Destination {
                from_address: from_address@,
            },
            Stage::Receipt { from_address, pending } => StageView::Receipt {
                from_address: from_address@,
                pending: pending@,
            },
        }
    }
}

/// What the transformer needs next from the rollup.
#[derive(Debug, Clone, Copy, PartialEq, Eq)]
pub enum FilterRequest {
    /// The script of an account.
    Script { account_id: u32 },
    /// The receipt of a transaction.
    Receipt { tx_hash: H256 },
    /// Nothing: every transaction of the block has been looked at.
    Finished,
}

/// The transformation of one block's transactions, under way.
///
/// The transformer looks at the transactions in order. Of each it asks for the
/// sender's script, then for the destination's script, then for the receipt,
/// and stops asking as soon as the transaction is left out.
pub struct TransactionFilter {
    block_number: u64,
    block_hash: H256,
    transactions: Vec<L2Transaction>,
    position: usize,
    stage: Stage,
    cumulative_gas_used: u128,
    indexed: Vec<Web3TransactionWithLogs>,
}

/// What a `TransactionFilter` stands for.
#[verifier::ext_equal]
pub struct FilterView {
    /// The number of the block.
    pub block_number: u64,
    /// The hash of the block.
    pub block_hash: Seq<u8>,
    /// The transactions of the block.
    pub transactions: Seq<L2Transaction>,
    /// How many of them have been dealt with.
    pub position: nat,
    /// What is awaited for the one at `position`.
    pub stage: StageView,
    /// The gas used by the rows so far.
    pub cumulative_gas_used: u128,
    /// The rows so far.
    pub indexed: Seq<Web3TransactionWithLogsView>,
}

/// Whether row `i` of `rows` stands as a row of block `block_number` should:
/// its index is its place, its cumulative gas is the gas used up to and with
/// it, its logs are numbered from zero and carry its hash and index, and it
/// names a created contract only if it is a creation, and then never the zero
/// address.
pub open spec fn row_well_formed(
    rows: Seq<Web3TransactionWithLogsView>,
    i: int,
    block_number: u64,
    block_hash: Seq<u8>,
) -> bool {
    let row = rows[i];
    &&& row.tx.transaction_index == i
    &&& row.tx.block_number == block_number
    &&& row.tx.block_hash == block_hash
    &&& row.tx.cumulative_gas_used == gas_used_sum(rows.take(i + 1))
    &&& (row.tx.contract_address matches Some(created) ==> row.tx.to_address is None && created
        != zero_bytes(20))
    &&& forall|j: int|
        0 <= j < row.logs.len() ==> {
            &&& (#[trigger] row.logs[j]).log_index == j
            &&& row.logs[j].transaction_index == i
            &&& row.logs[j].transaction_hash == row.tx.gw_tx_hash
            &&& row.logs[j].block_number == block_number
            &&& row.logs[j].block_hash == block_hash
        }
}

/// Whether every row of `rows` stands as a row of block `block_number` should.
pub open spec fn rows_well_formed(
    rows: Seq<Web3TransactionWithLogsView>,
    block_number: u64,
    block_hash: Seq<u8>,
) -> bool {
    forall|i: int|
        0 <= i < rows.len() ==> #[trigger] row_well_formed(rows, i, block_number, block_hash)
}

impl FilterView {
    /// Whether every transaction has been dealt with.
    pub open spec fn finished(self) -> bool {
        self.position == self.transactions.len()
    }

    /// What holds of the transformation at every moment.
    pub open spec fn wf(self) -> bool {
        &&& self.transactions.len() <= u32::MAX
        &&& self.indexed.len() <= self.position <= self.transactions.len()
        &&& (self.finished() ==> self.stage is Sender)
        &&& self.cumulative_gas_used == gas_used_sum(self.indexed)
        &&& rows_well_formed(self.indexed, self.block_number, self.block_hash)
    }

    /// The state once the transaction at `position` is left out.
    pub open spec fn skipped(self) -> FilterView {
        FilterView { position: self.position + 1, stage: StageView::Sender, ..self }
    }

    /// The state once the transaction at `position` is indexed as `row`.
    pub open spec fn indexed_as(self, row: Web3TransactionWithLogsView) -> FilterView {
        FilterView {
            position: self.position + 1,
            stage: StageView::Sender,
            cumulative_gas_used: row.tx.cumulative_gas_used,
            indexed: self.indexed.push(row),
            ..self
        }
    }

    /// What the transformation asks for in this state.
    pub open spec fn request(self) -> FilterRequest {
        if self.position >= self.transactions.len() {
            FilterRequest::Finished
        } else {
            let tx = self.transactions[self.position as int];
            match self.stage {
                StageView::Sender => FilterRequest::Script { account_id: tx.from_id },
                StageView::Destination { .. } => FilterRequest::Script { account_id: tx.to_id },
                StageView::Receipt { .. } => FilterRequest::Receipt { tx_hash: tx.hash },
            }
        }
    }
}

impl View for TransactionFilter {
    type V = FilterView;

    closed spec fn view(&self) -> FilterView {
        FilterView {
            block_number: self.block_number,
            block_hash: self.block_hash@,
            transactions: self.transactions@,
            position: self.position as nat,
            stage: self.stage@,
            cumulative_gas_used: self.cumulative_gas_used,
            indexed: transactions_view(self.indexed@),
        }
    }
}

impl TransactionFilter {
    #[verifier::type_invariant]
    spec fn inv(&self) -> bool {
        self@.wf()
    }

    /// What the transformation needs next.
    pub fn request(&self) -> (r: FilterRequest)
        ensures
            self@.wf(),
            r == self@.request(),
    {
        proof {
            use_type_invariant(self);
        }
        if self.position >= self.transactions.len() {
            FilterRequest::Finished
        } else {
            let tx = &self.transactions[self.position];
            match &self.stage {
                Stage::Sender => FilterRequest::Script { account_id: tx.from_id },
                Stage::Destination { .. } => FilterRequest::Script { account_id: tx.to_id },
                Stage::Receipt { .. } => FilterRequest::Receipt { tx_hash: tx.hash },
            }
        }
    }

    /// Whether every transaction of the block has been dealt with.
    pub fn is_finished(&self) -> (done: bool)
        ensures
            done == self@.finished(),
    {
        proof {
            use_type_invariant(self);
        }
        self.position >= self.transactions.len()
    }

    /// Hands out the rows. Whatever the block and whatever the rollup
    /// answered, the rows' indices count up from zero, each row's cumulative
    /// gas is the gas used by the rows up to and with it, the logs of each row
    /// are numbered from zero, and a row names a created contract only if it
    /// is a creation, and then never the zero address.
    pub fn into_transactions(self) -> (rows: Vec<Web3TransactionWithLogs>)
        ensures
            transactions_view(rows@) == self@.indexed,
            rows_well_formed(transactions_view(rows@), self@.block_number, self@.block_hash),
            forall|i: int| 0 <= i < rows@.len() ==> (#[trigger] rows@[i]).tx.transaction_index == i,
            forall|i: int|
                0 <= i < rows@.len() ==> (#[trigger] rows@[i]).tx.cumulative_gas_used
                    == gas_used_sum(transactions_view(rows@).take(i + 1)),
            forall|i: int, j: int|
                0 <= i < rows@.len() && 0 <= j < rows@[i].logs@.len() ==> (
                #[trigger] rows@[i].logs@[j]).log_index == j,
            forall|i: int|
                0 <= i < rows@.len() && (#[trigger] rows@[i]).tx.contract_address is Some
                    ==> rows@[i].tx.to_address is None && rows@[i].tx.contract_address->Some_0@
                    != zero_bytes(20),
    {
        proof {
            use_type_invariant(&self);
        }
        let rows = self.indexed;
        proof {
            let views = transactions_view(rows@);
            assert forall|i: int| 0 <= i < rows@.len() implies {
                &&& (#[trigger] rows@[i]).tx.transaction_index == i
                &&& rows@[i].tx.cumulative_gas_used == gas_used_sum(views.take(i + 1))
                &&& (rows@[i].tx.contract_address is Some ==> rows@[i].tx.to_address is None
                    && rows@[i].tx.contract_address->Some_0@ != zero_bytes(20))
                &&& forall|j: int|
                    0 <= j < rows@[i].logs@.len() ==> (#[trigger] rows@[i].logs@[j]).log_index == j
            } by {
                assert(row_well_formed(views, i, self@.block_number, self@.block_hash));
                assert(views[i] == rows@[i]@);
                assert forall|j: int| 0 <= j < rows@[i].logs@.len() implies (
                #[trigger] rows@[i].logs@[j]).log_index == j by {
                    assert(views[i].logs[j] == rows@[i].logs@[j]@);
                }
            }
        }
        rows
    }
}

/// Adding a row adds its gas.
pub proof fn lemma_gas_used_sum_push(
    rows: Seq<Web3TransactionWithLogsView>,
    row: Web3TransactionWithLogsView,
)
    ensures
        gas_used_sum(rows.push(row)) == gas_used_sum(rows) + row.tx.gas_used,
{
    assert(rows.push(row).drop_last() =~= rows);
}

impl Web3Indexer {
    /// The state in which the transformation of `block` starts.
    pub open spec fn filter_start(&self, block: L2Block) -> Result<FilterView, TransformError> {
        if block.transactions@.len() > u32::MAX {
            Err(TransformError::TooManyTransactions)
        } else {
            Ok(
                FilterView {
                    block_number: block.number,
                    block_hash: ckb_blake2b_256(block.raw@),
                    transactions: block.transactions@,
                    position: 0,
                    stage: StageView::Sender,
                    cumulative_gas_used: 0,
                    indexed: Seq::<Web3TransactionWithLogsView>::empty(),
                },
            )
        }
    }

    /// The state that follows `f` once the script asked for has arrived.
    pub open spec fn after_script(&self, f: FilterView, script: Option<Script>) -> Result<
        FilterView,
        TransformError,
    > {
        if f.position >= f.transactions.len() {
            Err(TransformError::OutOfTurn)
        } else {
            let tx = f.transactions[f.position as int];
            match f.stage {
                StageView::Sender => match self.sender_outcome(tx.from_id, script) {
                    Outcome::Proceed(from_address) => Ok(
                        FilterView { stage: StageView::Destination { from_address }, ..f },
                    ),
                    Outcome::Skip => Ok(f.skipped()),
                    Outcome::Fail(e) => Err(e),
                },
                StageView::Destination { from_address } => match self.destination_outcome(
                    tx,
                    script,
                ) {
                    Outcome::Proceed(pending) => Ok(
                        FilterView { stage: StageView::Receipt { from_address, pending }, ..f },
                    ),
                    Outcome::Skip => Ok(f.skipped()),
                    Outcome::Fail(e) => Err(e),
                },
                StageView::Receipt { .. } => Err(TransformError::OutOfTurn),
            }
        }
    }

    /// The state that follows `f` once the receipt asked for has arrived.
    pub open spec fn after_receipt(&self, f: FilterView, receipt: Option<TxReceipt>) -> Result<
        FilterView,
        TransformError,
    > {
        if f.position >= f.transactions.len() {
            Err(TransformError::OutOfTurn)
        } else {
            match f.stage {
                StageView::Receipt { from_address, pending } => match self.row_outcome(
                    f.block_number,
                    f.block_hash,
                    f.indexed.len() as u32,
                    f.cumulative_gas_used,
                    f.transactions[f.position as int],
                    from_address,
                    pending,
                    receipt,
                ) {
                    Ok(row) => Ok(f.indexed_as(row)),
                    Err(e) => Err(e),
                },
                _ => Err(TransformError::OutOfTurn),
            }
        }
    }

    /// Starts the transformation of a block's transactions.
    pub fn filter_web3_transactions(&self, l2_block: L2Block) -> (r: Result<
        TransactionFilter,
        TransformError,
    >)
        ensures
            match r {
                Ok(filter) => self.filter_start(l2_block) == Ok::<FilterView, TransformError>(
                    filter@,
                ) && filter@.wf(),
                Err(e) => self.filter_start(l2_block) == Err::<FilterView, TransformError>(e),
            },
    {
        if l2_block.transactions.len() > 0xffff_ffff_usize {
            return Err(TransformError::TooManyTransactions);
        }
        let block_hash = blake2b_256(l2_block.raw.as_slice());
        let filter = TransactionFilter {
            block_number: l2_block.number,
            block_hash,
            transactions: l2_block.transactions,
            position: 0,
            stage: Stage::Sender,
            cumulative_gas_used: 0,
            indexed: Vec::new(),
        };
        assert(filter@.indexed =~= Seq::<Web3TransactionWithLogsView>::empty());
        Ok(filter)
    }
}

/// A step that takes a script keeps the transformation well-formed.
pub proof fn lemma_after_script_wf(indexer: Web3Indexer, f: FilterView, script: Option<Script>)
    requires
        f.wf(),
    ensures
        indexer.after_script(f, script) matches Ok(g) ==> g.wf(),
{
}

/// What holds of every row that `row_outcome` gives: it carries the index, the
/// block and the hash it was made for, its cumulative gas is the gas before
/// it and its own, its logs are numbered from zero, and it names a created
/// contract only if it is a creation, and then never the zero address.
pub proof fn lemma_row_outcome_shape(
    indexer: Web3Indexer,
    block_number: u64,
    block_hash: Seq<u8>,
    transaction_index: u32,
    cumulative_gas_used: u128,
    tx: L2Transaction,
    from_address: Seq<u8>,
    pending: PendingView,
    receipt: Option<TxReceipt>,
)
    ensures
        indexer.row_outcome(
            block_number,
            block_hash,
            transaction_index,
            cumulative_gas_used,
            tx,
            from_address,
            pending,
            receipt,
        ) matches Ok(row) ==> {
            &&& row.tx.transaction_index == transaction_index
            &&& row.tx.block_number == block_number
            &&& row.tx.block_hash == block_hash
            &&& row.tx.gw_tx_hash == tx.hash@
            &&& row.tx.cumulative_gas_used == cumulative_gas_used + row.tx.gas_used
            &&& (row.tx.contract_address matches Some(created) ==> row.tx.to_address is None
                && pending is Polyjuice && created != zero_bytes(20))
            &&& forall|j: int|
                0 <= j < row.logs.len() ==> {
                    &&& (#[trigger] row.logs[j]).log_index == j
                    &&& row.logs[j].transaction_index == transaction_index
                    &&& row.logs[j].transaction_hash == tx.hash@
                    &&& row.logs[j].block_number == block_number
                    &&& row.logs[j].block_hash == block_hash
                }
        },
{
    reveal(Web3Indexer::row_outcome);
    if let Some(rc) = receipt {
        lemma_user_logs_len(rc.logs@);
    }
}

/// A step that takes a receipt keeps the transformation well-formed: the new
/// row's index is its place, its cumulative gas is the sum up to and with it,
/// and its logs are numbered from zero.
pub proof fn lemma_after_receipt_wf(indexer: Web3Indexer, f: FilterView, receipt: Option<TxReceipt>)
    requires
        f.wf(),
    ensures
        indexer.after_receipt(f, receipt) matches Ok(g) ==> g.wf(),
{
    if let Ok(g) = indexer.after_receipt(f, receipt) {
        let row = g.indexed.last();
        let n = f.indexed.len() as int;
        assert(g.indexed == f.indexed.push(row));
        lemma_gas_used_sum_push(f.indexed, row);
        if let StageView::Receipt { from_address, pending } = f.stage {
            lemma_row_outcome_shape(
                indexer,
                f.block_number,
                f.block_hash,
                f.indexed.len() as u32,
                f.cumulative_gas_used,
                f.transactions[f.position as int],
                from_address,
                pending,
                receipt,
            );
        }
        assert forall|i: int| 0 <= i < g.indexed.len() implies #[trigger] row_well_formed(
            g.indexed,
            i,
            g.block_number,
            g.block_hash,
        ) by {
            if i < n {
                assert(row_well_formed(f.indexed, i, f.block_number, f.block_hash));
                assert(g.indexed.take(i + 1) =~= f.indexed.take(i + 1));
                assert(g.indexed[i] == f.indexed[i]);
            } else {
                assert(g.indexed.take(i + 1) =~= g.indexed);
                assert(g.indexed[i] == row);
            }
        }
    }
}


impl Web3Indexer {
    /// Takes the script that the transformation asked for, and moves on: to
    /// the next thing to ask of the same transaction, or to the next
    /// transaction where this one is left out.
    pub fn supply_script(&self, filter: TransactionFilter, script: Option<Script>) -> (r: Result<
        TransactionFilter,
        TransformError,
    >)
        ensures
            match r {
                Ok(next) => self.after_script(filter@, script) == Ok::<FilterView, TransformError>(
                    next@,
                ) && next@.wf(),
                Err(e) => self.after_script(filter@, script) == Err::<FilterView, TransformError>(
                    e,
                ),
            },
    {
        proof {
            use_type_invariant(&filter);
            lemma_after_script_wf(*self, filter@, script);
        }
        let TransactionFilter {
            block_number,
            block_hash,
            transactions,
            position,
            stage,
            cumulative_gas_used,
            indexed,
        } = filter;
        if position >= transactions.len() {
            return Err(TransformError::OutOfTurn);
        }
        match stage {
            Stage::Sender => {
                match self.check_sender(transactions[position].from_id, &script) {
                    Outcome::Proceed(from_address) => Ok(
                        TransactionFilter {
                            block_number,
                            block_hash,
                            transactions,
                            position,
                            stage: Stage::Destination { from_address },
                            cumulative_gas_used,
                            indexed,
                        },
                    ),
                    Outcome::Skip => Ok(
                        TransactionFilter {
                            block_number,
                            block_hash,
                            transactions,
                            position: position + 1,
                            stage: Stage::Sender,
                            cumulative_gas_used,
                            indexed,
                        },
                    ),
                    Outcome::Fail(e) => Err(e),
                }
            },
            Stage::Destination { from_address } => {
                match self.check_destination(&transactions[position], &script) {
                    Outcome::Proceed(pending) => Ok(
                        TransactionFilter {
                            block_number,
                            block_hash,
                            transactions,
                            position,
                            stage: Stage::Receipt { from_address, pending },
                            cumulative_gas_used,
                            indexed,
                        },
                    ),
                    Outcome::Skip => Ok(
                        TransactionFilter {
                            block_number,
                            block_hash,
                            transactions,
                            position: position + 1,
                            stage: Stage::Sender,
                            cumulative_gas_used,
                            indexed,
                        },
                    ),
                    Outcome::Fail(e) => Err(e),
                }
            },
            Stage::Receipt { .. } => Err(TransformError::OutOfTurn),
        }
    }

    /// Takes the receipt that the transformation asked for, adds the
    /// transaction's row, and moves on to the next transaction.
    pub fn supply_receipt(&self, filter: TransactionFilter, receipt: Option<TxReceipt>) -> (r:
        Result<TransactionFilter, TransformError>)
        ensures
            match r {
                Ok(next) => self.after_receipt(filter@, receipt) == Ok::<
                    FilterView,
                    TransformError,
                >(next@) && next@.wf(),
                Err(e) => self.after_receipt(filter@, receipt) == Err::<FilterView, TransformError>(
                    e,
                ),
            },
    {
        proof {
            use_type_invariant(&filter);
            lemma_after_receipt_wf(*self, filter@, receipt);
        }
        let TransactionFilter {
            block_number,
            block_hash,
            transactions,
            position,
            stage,
            cumulative_gas_used,
            mut indexed,
        } = filter;
        if position >= transactions.len() {
            return Err(TransformError::OutOfTurn);
        }
        match stage {
            Stage::Receipt { from_address, pending } => {
                let transaction_index: u32 = indexed.len() as u32;
                match self.build_row(
                    block_number,
                    &block_hash,
                    transaction_index,
                    cumulative_gas_used,
                    &transactions[position],
                    from_address,
                    pending,
                    receipt,
                ) {
                    Ok(row) => {
                        let ghost before = transactions_view(indexed@);
                        let cumulative_gas_used = row.tx.cumulative_gas_used;
                        indexed.push(row);
                        assert(transactions_view(indexed@) =~= before.push(row@));
                        Ok(
                            TransactionFilter {
                                block_number,
                                block_hash,
                                transactions,
                                position: position + 1,
                                stage: Stage::Sender,
                                cumulative_gas_used,
                                indexed,
                            },
                        )
                    },
                    Err(e) => Err(e),
                }
            },
            _ => Err(TransformError::OutOfTurn),
        }
    }
}

/// The address that a block is credited to: the producer's 20-byte address,
/// or the zero address where the producer has none.
pub open spec fn miner_of(producer: Option<RegistryAddress>) -> Seq<u8> {
    match registry_address_bytes(producer) {
        Some(address) => address,
        None => zero_bytes(20),
    }
}

/// The part of the rows adds up to no more than the whole.
pub proof fn lemma_gas_sums_grow(rows: Seq<Web3TransactionWithLogsView>, n: int)
    requires
        0 <= n <= rows.len(),
    ensures
        gas_used_sum(rows.take(n)) <= gas_used_sum(rows),
        gas_limit_sum(rows.take(n)) <= gas_limit_sum(rows),
    decreases rows.len() - n,
{
    if n < rows.len() {
        assert(rows.take(n + 1).drop_last() =~= rows.take(n));
        lemma_gas_sums_grow(rows, n + 1);
    } else {
        assert(rows.take(n) =~= rows);
    }
}

/// Within a block the cumulative gas never falls from one row to the next.
pub proof fn lemma_cumulative_gas_never_falls(
    rows: Seq<Web3TransactionWithLogsView>,
    block_number: u64,
    block_hash: Seq<u8>,
    i: int,
    j: int,
)
    requires
        rows_well_formed(rows, block_number, block_hash),
        0 <= i <= j < rows.len(),
    ensures
        rows[i].tx.cumulative_gas_used <= rows[j].tx.cumulative_gas_used,
{
    assert(row_well_formed(rows, i, block_number, block_hash));
    assert(row_well_formed(rows, j, block_number, block_hash));
    assert(rows.take(j + 1).take(i + 1) =~= rows.take(i + 1));
    lemma_gas_sums_grow(rows.take(j + 1), i + 1);
}

impl Web3Indexer {
    /// Builds the row of the blocks table for `l2_block` with the rows `rows`
    /// of its transactions.
    ///
    /// The block's gas used and gas limit are the sums over the rows; its
    /// timestamp is the block's in whole seconds; its size is the number of
    /// its raw bytes. Where a sum does not fit in 128 bits there is no row.
    pub fn build_web3_block(&self, l2_block: &L2Block, rows: &Vec<Web3TransactionWithLogs>) -> (r:
        Result<Web3Block, TransformError>)
        ensures
            match r {
                Ok(block) => {
                    &&& block.number == l2_block.number
                    &&& block.hash@ == ckb_blake2b_256(l2_block.raw@)
                    &&& block.parent_hash == l2_block.parent_block_hash
                    &&& block.gas_limit == gas_limit_sum(transactions_view(rows@))
                    &&& block.gas_used == gas_used_sum(transactions_view(rows@))
                    &&& block.miner@ == miner_of(l2_block.block_producer)
                    &&& block.size == l2_block.raw@.len()
                    &&& block.timestamp == l2_block.timestamp / MILLIS_PER_SEC
                },
                Err(e) => e == TransformError::GasOverflow && (gas_limit_sum(
                    transactions_view(rows@),
                ) > u128::MAX || gas_used_sum(transactions_view(rows@)) > u128::MAX),
            },
    {
        let ghost views = transactions_view(rows@);
        let mut gas_limit: u128 = 0;
        let mut gas_used: u128 = 0;
        let mut i: usize = 0;
        assert(views.take(0) =~= Seq::<Web3TransactionWithLogsView>::empty());
        while i < rows.len()
            invariant
                i <= rows@.len(),
                views == transactions_view(rows@),
                gas_limit == gas_limit_sum(views.take(i as int)),
                gas_used == gas_used_sum(views.take(i as int)),
            decreases rows.len() - i,
        {
            proof {
                assert(views.take(i + 1).drop_last() =~= views.take(i as int));
                assert(views.take(i + 1).last() == rows@[i as int]@);
                lemma_gas_sums_grow(views, i + 1);
            }
            let tx = &rows[i].tx;
            if tx.gas_limit > u128::MAX - gas_limit || tx.gas_used > u128::MAX - gas_used {
                return Err(TransformError::GasOverflow);
            }
            gas_limit = gas_limit + tx.gas_limit;
            gas_used = gas_used + tx.gas_used;
            i += 1;
        }
        assert(views.take(rows@.len() as int) =~= views);
        let miner = match registry_address_to_eth(&l2_block.block_producer) {
            Some(address) => address,
            None => zero_address(),
        };
        Ok(
            Web3Block {
                number: l2_block.number,
                hash: blake2b_256(l2_block.raw.as_slice()),
                parent_hash: l2_block.parent_block_hash,
                gas_limit,
                gas_used,
                miner,
                size: l2_block.raw.len(),
                timestamp: l2_block.timestamp / MILLIS_PER_SEC,
            },
        )
    }
}


/// Whether block `number` is to be written to a table whose tip is `tip`:
/// where it lies above the tip, or where the table does not hold it.
pub open spec fn to_be_stored(number: u64, tip: Option<u64>, held: bool) -> bool {
    let tip_number = match tip {
        Some(t) => t,
        None => 0u64,
    };
    number > tip_number || !held
}

impl Web3Indexer {
    /// Says whether block `number` is to be written, given the table's tip
    /// and whether the table holds a block of that number.
    pub fn store_l2_block(&self, number: u64, tip: Option<u64>, held: bool) -> (store: bool)
        ensures
            store == to_be_stored(number, tip, held),
    {
        let tip_number = match tip {
            Some(t) => t,
            None => 0,
        };
        number > tip_number || !held
    }
}

} // verus!
