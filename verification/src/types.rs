//! The values that travel through the indexer: hashes, addresses and the
//! decoded pieces of the rollup's packed structures.
use vstd::prelude::*;

verus! {

/// A 32-byte hash.
pub type H256 = [u8; 32];

/// A 20-byte account address.
pub type Address = [u8; 20];

/// `n` zero bytes.
pub open spec fn zero_bytes(n: nat) -> Seq<u8> {
    Seq::new(n, |i: int| 0u8)
}

/// The address made of zero bytes.
pub fn zero_address() -> (a: Address)
    ensures
        a@ == zero_bytes(20),
{
    let a: Address = [0u8; 20];
    assert(a@ =~= zero_bytes(20));
    a
}

/// The hash made of zero bytes.
pub fn zero_hash() -> (h: H256)
    ensures
        h@ == zero_bytes(32),
{
    let h: H256 = [0u8; 32];
    assert(h@ =~= zero_bytes(32));
    h
}

/// Whether two runs of bytes hold the same bytes.
pub fn same_bytes(a: &[u8], b: &[u8]) -> (same: bool)
    ensures
        same == (a@ == b@),
{
    if a.len() != b.len() {
        return false;
    }
    let n = a.len();
    let mut i: usize = 0;
    while i < n
        invariant
            i <= n,
            n == a@.len(),
            n == b@.len(),
            forall|j: int| 0 <= j < i ==> a@[j] == b@[j],
        decreases n - i,
    {
        if a[i] != b[i] {
            return false;
        }
        i += 1;
    }
    assert(a@ =~= b@);
    true
}

/// Whether `a` is the address made of zero bytes.
pub fn is_zero_address(a: &Address) -> (zero: bool)
    ensures
        zero == (a@ == zero_bytes(20)),
{
    let mut i: usize = 0;
    while i < 20
        invariant
            i <= 20,
            forall|j: int| 0 <= j < i ==> a@[j] == 0u8,
        decreases 20 - i,
    {
        if a[i] != 0 {
            assert(zero_bytes(20)[i as int] == 0u8);
            return false;
        }
        i += 1;
    }
    assert(a@ =~= zero_bytes(20));
    true
}

/// The 20 bytes of `data` that start at `at`, as an address.
pub fn address_at(data: &[u8], at: usize) -> (a: Address)
    requires
        at + 20 <= data@.len(),
    ensures
        a@ == data@.subrange(at as int, at + 20),
{
    let total = data.len();
    let mut a: Address = [0u8; 20];
    let mut i: usize = 0;
    while i < 20
        invariant
            i <= 20,
            at + 20 <= total == data@.len(),
            forall|j: int| 0 <= j < i ==> a@[j] == data@[at + j],
        decreases 20 - i,
    {
        a[i] = data[at + i];
        i += 1;
    }
    assert(a@ =~= data@.subrange(at as int, at + 20));
    a
}

/// The 32 bytes of `data` that start at `at`, as a hash.
pub fn hash_at(data: &[u8], at: usize) -> (h: H256)
    requires
        at + 32 <= data@.len(),
    ensures
        h@ == data@.subrange(at as int, at + 32),
{
    let total = data.len();
    let mut h: H256 = [0u8; 32];
    let mut i: usize = 0;
    while i < 32
        invariant
            i <= 32,
            at + 32 <= total == data@.len(),
            forall|j: int| 0 <= j < i ==> h@[j] == data@[at + j],
        decreases 32 - i,
    {
        h[i] = data[at + i];
        i += 1;
    }
    assert(h@ =~= data@.subrange(at as int, at + 32));
    h
}

/// A copy of the bytes of `data` from `from` up to `to`.
pub fn bytes_between(data: &[u8], from: usize, to: usize) -> (v: Vec<u8>)
    requires
        from <= to <= data@.len(),
    ensures
        v@ == data@.subrange(from as int, to as int),
{
    let mut v: Vec<u8> = Vec::new();
    let mut i: usize = from;
    while i < to
        invariant
            from <= i <= to <= data@.len(),
            v@ == data@.subrange(from as int, i as int),
        decreases to - i,
    {
        v.push(data[i]);
        assert(v@ =~= data@.subrange(from as int, i + 1));
        i += 1;
    }
    v
}

/// Appends the bytes of `more` to `out`.
pub fn push_bytes(out: &mut Vec<u8>, more: &[u8])
    ensures
        final(out)@ == old(out)@ + more@,
{
    let n = more.len();
    let mut i: usize = 0;
    assert(out@ =~= old(out)@ + more@.subrange(0, 0));
    while i < n
        invariant
            i <= n == more@.len(),
            out@ == old(out)@ + more@.subrange(0, i as int),
        decreases n - i,
    {
        out.push(more[i]);
        assert(out@ =~= old(out)@ + more@.subrange(0, i + 1));
        i += 1;
    }
    assert(more@.subrange(0, n as int) =~= more@);
}

/// An unsigned 256-bit number, held as two 128-bit halves.
#[derive(Debug, Clone, Copy, PartialEq, Eq, Structural)]
pub struct U256 {
    /// The high 128 bits.
    pub hi: u128,
    /// The low 128 bits.
    pub lo: u128,
}

impl U256 {
    /// The number that the two halves stand for.
    pub open spec fn value(self) -> nat {
        self.hi as nat * 0x1_0000_0000_0000_0000_0000_0000_0000_0000 + self.lo as nat
    }

    /// The 256-bit number equal to `v`.
    pub fn from_u128(v: u128) -> (n: U256)
        ensures
            n.value() == v,
            n == (U256 { hi: 0, lo: v }),
    {
        U256 { hi: 0, lo: v }
    }
}

/// An account script of the rollup: the code it runs, named by hash, and the
/// arguments it was deployed with.
#[derive(Debug, Clone)]
pub struct Script {
    /// Hash of the code that the script runs.
    pub code_hash: H256,
    /// How `code_hash` is to be read.
    pub hash_type: u8,
    /// The arguments of the script.
    pub args: Vec<u8>,
}

/// An address as the rollup's registries hand it out: the registry's id and
/// the address bytes, whose number varies.
#[derive(Debug, Clone)]
pub struct RegistryAddress {
    /// The registry that gave the address out.
    pub registry_id: u32,
    /// The address bytes.
    pub address: Vec<u8>,
}

/// One log item of a transaction receipt.
#[derive(Debug, Clone)]
pub struct LogItem {
    /// The account that wrote the log.
    pub account_id: u32,
    /// The kind of log.
    pub service_flag: u8,
    /// The payload.
    pub data: Vec<u8>,
}

/// The receipt of an executed transaction.
#[derive(Debug, Clone)]
pub struct TxReceipt {
    /// How the execution ended; zero on success.
    pub exit_code: u8,
    /// The logs that the execution wrote, in order.
    pub logs: Vec<LogItem>,
}

/// The arguments of a call to the token account.
#[derive(Debug, Clone)]
pub enum SudtArgs {
    /// A balance query.
    Query,
    /// A transfer.
    Transfer {
        /// The receiver, if its bytes form a registry address.
        to_address: Option<RegistryAddress>,
        /// The amount moved.
        amount: U256,
        /// The fee paid.
        fee: u128,
    },
}

/// One transaction of a rollup block.
#[derive(Debug, Clone)]
pub struct L2Transaction {
    /// The rollup's own hash of the transaction.
    pub hash: H256,
    /// The account that sent it.
    pub from_id: u32,
    /// The account it is addressed to.
    pub to_id: u32,
    /// The sender's nonce.
    pub nonce: u32,
    /// The arguments, in the encoding of the account addressed.
    pub args: Vec<u8>,
    /// The signature bytes.
    pub signature: Vec<u8>,
    /// The arguments read as a call to the token account, where they can be
    /// read so.
    pub sudt_args: Option<SudtArgs>,
}

/// One block of the rollup.
#[derive(Debug, Clone)]
pub struct L2Block {
    /// The packed bytes of the block's raw part.
    pub raw: Vec<u8>,
    /// The block's number.
    pub number: u64,
    /// The hash of the block before it.
    pub parent_block_hash: H256,
    /// When the block was produced, in milliseconds since the epoch.
    pub timestamp: u64,
    /// Who produced the block, if the producer's bytes form a registry address.
    pub block_producer: Option<RegistryAddress>,
    /// The transactions, in order.
    pub transactions: Vec<L2Transaction>,
}


/// One row of the blocks table.
#[derive(Debug, Clone, Copy, PartialEq, Eq)]
pub struct Web3Block {
    /// The block's number.
    pub number: u64,
    /// The hash of the block's raw bytes.
    pub hash: H256,
    /// The hash of the block before it.
    pub parent_hash: H256,
    /// The sum of the gas limits of the block's indexed transactions.
    pub gas_limit: u128,
    /// The sum of the gas used by the block's indexed transactions.
    pub gas_used: u128,
    /// The address of the block's producer.
    pub miner: Address,
    /// The number of raw bytes of the block.
    pub size: usize,
    /// When the block was produced, in seconds since the epoch.
    pub timestamp: u64,
}

/// One row of the transactions table.
#[derive(Debug, Clone)]
pub struct Web3Transaction {
    /// The rollup's own hash of the transaction.
    pub gw_tx_hash: H256,
    /// The chain id that the Ethereum-style hash is taken under, if any.
    pub chain_id: Option<u64>,
    pub block_number: u64,
    pub block_hash: H256,
    /// The position among the indexed transactions of the block.
    pub transaction_index: u32,
    pub from_address: Address,
    /// The receiver; none for a contract creation.
    pub to_address: Option<Address>,
    pub value: U256,
    pub nonce: u32,
    pub gas_limit: u128,
    pub gas_price: u128,
    pub input: Vec<u8>,
    pub r: H256,
    pub s: H256,
    pub v: u8,
    /// The gas used by the block's indexed transactions up to and with this one.
    pub cumulative_gas_used: u128,
    pub gas_used: u128,
    /// The address of the contract created, if one was.
    pub contract_address: Option<Address>,
    pub exit_code: u8,
}

/// What a `Web3Transaction` stands for: hashes, addresses and the input as
/// runs of bytes.
#[verifier::ext_equal]
pub struct Web3TransactionView {
    pub gw_tx_hash: Seq<u8>,
    pub chain_id: Option<u64>,
    pub block_number: u64,
    pub block_hash: Seq<u8>,
    pub transaction_index: u32,
    pub from_address: Seq<u8>,
    pub to_address: Option<Seq<u8>>,
    pub value: U256,
    pub nonce: u32,
    pub gas_limit: u128,
    pub gas_price: u128,
    pub input: Seq<u8>,
    pub r: Seq<u8>,
    pub s: Seq<u8>,
    pub v: u8,
    pub cumulative_gas_used: u128,
    pub gas_used: u128,
    pub contract_address: Option<Seq<u8>>,
    pub exit_code: u8,
}

/// An address that may be missing, as its run of bytes.
pub open spec fn optional_address_view(a: Option<Address>) -> Option<Seq<u8>> {
    match a {
        Some(address) => Some(address@),
        None => None,
    }
}

impl View for Web3Transaction {
    type V = Web3TransactionView;

    open spec fn view(&self) -> Web3TransactionView {
        Web3TransactionView {
            gw_tx_hash: self.gw_tx_hash@,
            chain_id: self.chain_id,
            block_number: self.block_number,
            block_hash: self.block_hash@,
            transaction_index: self.transaction_index,
            from_address: self.from_address@,
            to_address: optional_address_view(self.to_address),
            value: self.value,
            nonce: self.nonce,
            gas_limit: self.gas_limit,
            gas_price: self.gas_price,
            input: self.input@,
            r: self.r@,
            s: self.s@,
            v: self.v,
            cumulative_gas_used: self.cumulative_gas_used,
            gas_used: self.gas_used,
            contract_address: optional_address_view(self.contract_address),
            exit_code: self.exit_code,
        }
    }
}

/// One row of the logs table.
#[derive(Debug, Clone)]
pub struct Web3Log {
    pub transaction_hash: H256,
    pub transaction_index: u32,
    pub block_number: u64,
    pub block_hash: H256,
    /// The contract that emitted the event.
    pub address: Address,
    pub data: Vec<u8>,
    /// The position among the logs of the transaction.
    pub log_index: u32,
    pub topics: Vec<H256>,
}

/// What a `Web3Log` stands for.
#[verifier::ext_equal]
pub struct Web3LogView {
    pub transaction_hash: Seq<u8>,
    pub transaction_index: u32,
    pub block_number: u64,
    pub block_hash: Seq<u8>,
    pub address: Seq<u8>,
    pub data: Seq<u8>,
    pub log_index: u32,
    pub topics: Seq<Seq<u8>>,
}

/// The hashes of `hashes`, each as its run of bytes.
pub open spec fn hashes_view(hashes: Seq<H256>) -> Seq<Seq<u8>> {
    Seq::new(hashes.len(), |i: int| hashes[i]@)
}

impl View for Web3Log {
    type V = Web3LogView;

    open spec fn view(&self) -> Web3LogView {
        Web3LogView {
            transaction_hash: self.transaction_hash@,
            transaction_index: self.transaction_index,
            block_number: self.block_number,
            block_hash: self.block_hash@,
            address: self.address@,
            data: self.data@,
            log_index: self.log_index,
            topics: hashes_view(self.topics@),
        }
    }
}

/// The logs of `logs`, each as what it stands for.
pub open spec fn logs_view(logs: Seq<Web3Log>) -> Seq<Web3LogView> {
    Seq::new(logs.len(), |i: int| logs[i]@)
}

/// An indexed transaction with the logs it emitted.
#[derive(Debug, Clone)]
pub struct Web3TransactionWithLogs {
    pub tx: Web3Transaction,
    pub logs: Vec<Web3Log>,
}

/// What a `Web3TransactionWithLogs` stands for.
#[verifier::ext_equal]
pub struct Web3TransactionWithLogsView {
    pub tx: Web3TransactionView,
    pub logs: Seq<Web3LogView>,
}

impl View for Web3TransactionWithLogs {
    type V = Web3TransactionWithLogsView;

    open spec fn view(&self) -> Web3TransactionWithLogsView {
        Web3TransactionWithLogsView { tx: self.tx@, logs: logs_view(self.logs@) }
    }
}

/// The transactions of `txs`, each as what it stands for.
pub open spec fn transactions_view(txs: Seq<Web3TransactionWithLogs>) -> Seq<
    Web3TransactionWithLogsView,
> {
    Seq::new(txs.len(), |i: int| txs[i]@)
}

} // verus!
