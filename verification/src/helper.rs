//! The codec for the two binary shapes that the indexer reads itself:
//! polyjuice arguments and receipt log items.
//!
//! Each shape has a spec function that says what a run of bytes decodes to, a
//! decoder proved against it, an encoder, and a lemma that decoding an encoded
//! value gives the value back.
use crate::error::{DecodeError, HexError};
use crate::numbers::{
    le_bytes, le_value, lemma_le_bytes_len, lemma_le_value_of_bytes, lemma_pow256_widths, push_le,
    read_u128_le, read_u32_le, read_u64_le,
};
use crate::outside::hex_string;
use crate::types::{
    address_at, bytes_between, hash_at, hashes_view, push_bytes, zero_address, zero_bytes,
    Address, LogItem, Script, H256,
};
use vstd::prelude::*;
use vstd::string::StringExecFns;

verus! {

/// The most input bytes that polyjuice arguments may carry: 128 KiB.
pub const GW_L2TX_ARGS_MAX_SIZE: u32 = 128 * 1024;

/// The most data bytes that a polyjuice user log may carry: 4 KiB.
pub const GW_USER_LOG_DATA_MAX_SIZE: u32 = 4 * 1024;

/// Service flag of a token transfer log.
pub const GW_LOG_SUDT_TRANSFER: u8 = 0x0;

/// Service flag of a token fee payment log.
pub const GW_LOG_SUDT_PAY_FEE: u8 = 0x1;

/// Service flag of a polyjuice system log.
pub const GW_LOG_POLYJUICE_SYSTEM: u8 = 0x2;

/// Service flag of a polyjuice user log.
pub const GW_LOG_POLYJUICE_USER: u8 = 0x3;

/// The selector, at byte 7 of polyjuice arguments, that marks a contract
/// creation.
pub const POLYJUICE_CREATE: u8 = 3;

/// The selector that marks a call.
pub const POLYJUICE_CALL: u8 = 0;

/// The arguments of a polyjuice transaction.
#[derive(Debug, Clone)]
pub struct PolyjuiceArgs {
    /// Whether the transaction creates a contract.
    pub is_create: bool,
    /// The gas limit.
    pub gas_limit: u64,
    /// The gas price.
    pub gas_price: u128,
    /// The value sent along.
    pub value: u128,
    /// The call data or the contract's code.
    pub input: Option<Vec<u8>>,
}

/// What `PolyjuiceArgs` stands for.
#[verifier::ext_equal]
pub struct PolyjuiceArgsView {
    pub is_create: bool,
    pub gas_limit: u64,
    pub gas_price: u128,
    pub value: u128,
    pub input: Option<Seq<u8>>,
}

impl View for PolyjuiceArgs {
    type V = PolyjuiceArgsView;

    open spec fn view(&self) -> PolyjuiceArgsView {
        PolyjuiceArgsView {
            is_create: self.is_create,
            gas_limit: self.gas_limit,
            gas_price: self.gas_price,
            value: self.value,
            input: match self.input {
                Some(bytes) => Some(bytes@),
                None => None,
            },
        }
    }
}

impl PolyjuiceArgsView {
    /// The input bytes; none where no input is held.
    pub open spec fn input_bytes(self) -> Seq<u8> {
        match self.input {
            Some(bytes) => bytes,
            None => Seq::<u8>::empty(),
        }
    }

    /// Whether the arguments can be written down: the input is within the limit.
    pub open spec fn encodable(self) -> bool {
        self.input_bytes().len() <= GW_L2TX_ARGS_MAX_SIZE
    }
}

/// What the bytes `b` hold when read as polyjuice arguments.
///
/// Byte 7 is the selector; the gas limit, the gas price, the value and the
/// input's length follow as little-endian numbers of 8, 16, 16 and 4 bytes; the
/// input comes last. Bytes after the input are not read.
pub open spec fn polyjuice_args_of(b: Seq<u8>) -> Result<PolyjuiceArgsView, DecodeError> {
    if b.len() < 52 {
        Err(DecodeError::PolyjuiceArgsTooShort)
    } else {
        let input_size = le_value(b.subrange(48, 52));
        if input_size > GW_L2TX_ARGS_MAX_SIZE {
            Err(DecodeError::PolyjuiceInputTooLong)
        } else if b.len() < 52 + input_size {
            Err(DecodeError::PolyjuiceInputTruncated)
        } else {
            Ok(
                PolyjuiceArgsView {
                    is_create: b[7] == POLYJUICE_CREATE,
                    gas_limit: le_value(b.subrange(8, 16)) as u64,
                    gas_price: le_value(b.subrange(16, 32)) as u128,
                    value: le_value(b.subrange(32, 48)) as u128,
                    input: Some(b.subrange(52, 52 + input_size as int)),
                },
            )
        }
    }
}

/// The seven bytes that open polyjuice arguments.
pub open spec fn polyjuice_magic() -> Seq<u8> {
    seq![0xffu8, 0xffu8, 0xffu8, 0x50u8, 0x4fu8, 0x4cu8, 0x59u8]
}

/// The bytes that `a` is written as.
pub open spec fn polyjuice_args_bytes(a: PolyjuiceArgsView) -> Seq<u8> {
    polyjuice_magic() + seq![
        if a.is_create {
            POLYJUICE_CREATE
        } else {
            POLYJUICE_CALL
        },
    ] + le_bytes(a.gas_limit as nat, 8) + le_bytes(a.gas_price as nat, 16) + le_bytes(
        a.value as nat,
        16,
    ) + le_bytes(a.input_bytes().len(), 4) + a.input_bytes()
}

impl PolyjuiceArgs {
    /// Reads polyjuice arguments from `args`.
    pub fn decode(args: &[u8]) -> (r: Result<PolyjuiceArgs, DecodeError>)
        ensures
            match r {
                Ok(a) => polyjuice_args_of(args@) == Ok::<PolyjuiceArgsView, DecodeError>(a@),
                Err(e) => polyjuice_args_of(args@) == Err::<PolyjuiceArgsView, DecodeError>(e),
            },
    {
        let total = args.len();
        if total < 52 {
            return Err(DecodeError::PolyjuiceArgsTooShort);
        }
        let is_create = args[7] == POLYJUICE_CREATE;
        let gas_limit = read_u64_le(args, 8);
        let gas_price = read_u128_le(args, 16);
        let value = read_u128_le(args, 32);
        let input_size = read_u32_le(args, 48);
        if input_size > GW_L2TX_ARGS_MAX_SIZE {
            return Err(DecodeError::PolyjuiceInputTooLong);
        }
        let input_end: usize = 52 + input_size as usize;
        if total < input_end {
            return Err(DecodeError::PolyjuiceInputTruncated);
        }
        let input = bytes_between(args, 52, input_end);
        Ok(PolyjuiceArgs { is_create, gas_limit, gas_price, value, input: Some(input) })
    }

    /// Writes the arguments down, or nothing where the input is over the limit.
    pub fn encode(&self) -> (r: Option<Vec<u8>>)
        ensures
            match r {
                Some(bytes) => self@.encodable() && bytes@ == polyjuice_args_bytes(self@),
                None => !self@.encodable(),
            },
    {
        let input_len: usize = match &self.input {
            Some(bytes) => bytes.len(),
            None => 0,
        };
        if input_len > GW_L2TX_ARGS_MAX_SIZE as usize {
            return None;
        }
        let mut out: Vec<u8> = Vec::new();
        out.push(0xff);
        out.push(0xff);
        out.push(0xff);
        out.push(0x50);
        out.push(0x4f);
        out.push(0x4c);
        out.push(0x59);
        out.push(
            if self.is_create {
                POLYJUICE_CREATE
            } else {
                POLYJUICE_CALL
            },
        );
        assert(out@ =~= polyjuice_magic() + seq![
            if self.is_create {
                POLYJUICE_CREATE
            } else {
                POLYJUICE_CALL
            },
        ]);
        push_le(&mut out, self.gas_limit as u128, 8);
        push_le(&mut out, self.gas_price, 16);
        push_le(&mut out, self.value, 16);
        push_le(&mut out, input_len as u128, 4);
        match &self.input {
            Some(bytes) => {
                push_bytes(&mut out, bytes.as_slice());
            },
            None => {
                assert(out@ + Seq::<u8>::empty() =~= out@);
            },
        }
        Some(out)
    }
}

impl Default for PolyjuiceArgs {
    fn default() -> (a: PolyjuiceArgs)
        ensures
            a@ == (PolyjuiceArgsView {
                is_create: false,
                gas_limit: 0,
                gas_price: 0,
                value: 0,
                input: None,
            }),
    {
        PolyjuiceArgs { is_create: false, gas_limit: 0, gas_price: 0, value: 0, input: None }
    }
}

/// Decoding what `encode` wrote gives the arguments back: the same selector,
/// gas limit, gas price, value and input. Arguments that hold no input come
/// back with an empty one.
pub proof fn lemma_polyjuice_args_round_trip(a: PolyjuiceArgsView)
    requires
        a.encodable(),
    ensures
        polyjuice_args_of(polyjuice_args_bytes(a)) == Ok::<PolyjuiceArgsView, DecodeError>(
            PolyjuiceArgsView { input: Some(a.input_bytes()), ..a },
        ),
{
    let b = polyjuice_args_bytes(a);
    let input = a.input_bytes();
    lemma_pow256_widths();
    lemma_le_bytes_len(a.gas_limit as nat, 8);
    lemma_le_bytes_len(a.gas_price as nat, 16);
    lemma_le_bytes_len(a.value as nat, 16);
    lemma_le_bytes_len(input.len(), 4);
    lemma_le_value_of_bytes(a.gas_limit as nat, 8);
    lemma_le_value_of_bytes(a.gas_price as nat, 16);
    lemma_le_value_of_bytes(a.value as nat, 16);
    lemma_le_value_of_bytes(input.len(), 4);
    assert(b.len() == 52 + input.len());
    assert(b.subrange(8, 16) =~= le_bytes(a.gas_limit as nat, 8));
    assert(b.subrange(16, 32) =~= le_bytes(a.gas_price as nat, 16));
    assert(b.subrange(32, 48) =~= le_bytes(a.value as nat, 16));
    assert(b.subrange(48, 52) =~= le_bytes(input.len(), 4));
    assert(b.subrange(52, 52 + input.len() as int) =~= input);
    assert(b[7] == if a.is_create {
        POLYJUICE_CREATE
    } else {
        POLYJUICE_CALL
    });
}

/// A decoded log item.
#[derive(Debug, Clone)]
pub enum GwLog {
    /// Tokens moved from one account to another.
    SudtTransfer { sudt_id: u32, from_address: Address, to_address: Address, amount: u128 },
    /// Tokens paid to the block producer as a fee.
    SudtPayFee {
        sudt_id: u32,
        from_address: Address,
        block_producer_address: Address,
        amount: u128,
    },
    /// What polyjuice reports of an execution.
    PolyjuiceSystem {
        gas_used: u64,
        cumulative_gas_used: u64,
        created_address: Address,
        status_code: u32,
    },
    /// An event that a contract emitted.
    PolyjuiceUser { address: Address, data: Vec<u8>, topics: Vec<H256> },
}

/// What `GwLog` stands for: addresses and topics as runs of bytes.
#[verifier::ext_equal]
pub enum GwLogView {
    SudtTransfer { sudt_id: u32, from_address: Seq<u8>, to_address: Seq<u8>, amount: u128 },
    SudtPayFee {
        sudt_id: u32,
        from_address: Seq<u8>,
        block_producer_address: Seq<u8>,
        amount: u128,
    },
    PolyjuiceSystem {
        gas_used: u64,
        cumulative_gas_used: u64,
        created_address: Seq<u8>,
        status_code: u32,
    },
    PolyjuiceUser { address: Seq<u8>, data: Seq<u8>, topics: Seq<Seq<u8>> },
}

impl View for GwLog {
    type V = GwLogView;

    open spec fn view(&self) -> GwLogView {
        match *self {
            GwLog::SudtTransfer { sudt_id, from_address, to_address, amount } => {
                GwLogView::SudtTransfer {
                    sudt_id,
                    from_address: from_address@,
                    to_address: to_address@,
                    amount,
                }
            },
            GwLog::SudtPayFee { sudt_id, from_address, block_producer_address, amount } => {
                GwLogView::SudtPayFee {
                    sudt_id,
                    from_address: from_address@,
                    block_producer_address: block_producer_address@,
                    amount,
                }
            },
            GwLog::PolyjuiceSystem {
                gas_used,
                cumulative_gas_used,
                created_address,
                status_code,
            } => GwLogView::PolyjuiceSystem {
                gas_used,
                cumulative_gas_used,
                created_address: created_address@,
                status_code,
            },
            GwLog::PolyjuiceUser { address, data, topics } => GwLogView::PolyjuiceUser {
                address: address@,
                data: data@,
                topics: hashes_view(topics@),
            },
        }
    }
}

/// The three fields of a token log's payload: two addresses and an amount.
///
/// The payload is 57 bytes: the width of an address, which is 20; the first
/// address; the second address; the amount as a little-endian number of 16
/// bytes.
pub open spec fn sudt_log_fields(data: Seq<u8>) -> Result<(Seq<u8>, Seq<u8>, u128), DecodeError> {
    if data.len() != 57 {
        Err(DecodeError::SudtLogLength)
    } else if data[0] != 20 {
        Err(DecodeError::SudtLogAddressWidth)
    } else {
        Ok((data.subrange(1, 21), data.subrange(21, 41), le_value(data.subrange(41, 57)) as u128))
    }
}

/// What a polyjuice system log's payload holds: 40 bytes, which are the gas
/// used and the cumulative gas used as little-endian numbers of 8 bytes, the
/// created address, and the status code as a little-endian number of 4 bytes.
pub open spec fn system_log_of(data: Seq<u8>) -> Result<GwLogView, DecodeError> {
    if data.len() != 40 {
        Err(DecodeError::SystemLogLength)
    } else {
        Ok(
            GwLogView::PolyjuiceSystem {
                gas_used: le_value(data.subrange(0, 8)) as u64,
                cumulative_gas_used: le_value(data.subrange(8, 16)) as u64,
                created_address: data.subrange(16, 36),
                status_code: le_value(data.subrange(36, 40)) as u32,
            },
        )
    }
}

/// What a polyjuice user log's payload holds: the emitting address, the
/// length of the data as a little-endian number of 4 bytes, the data, the
/// number of topics as a little-endian number of 4 bytes, and the topics, 32
/// bytes each. The payload ends with the last topic.
pub open spec fn user_log_of(data: Seq<u8>) -> Result<GwLogView, DecodeError> {
    if data.len() < 24 {
        Err(DecodeError::UserLogTooShort)
    } else {
        let data_size = le_value(data.subrange(20, 24));
        if data_size > GW_USER_LOG_DATA_MAX_SIZE {
            Err(DecodeError::UserLogDataTooLarge)
        } else if data.len() < 28 + data_size {
            Err(DecodeError::UserLogDataTruncated)
        } else {
            let topics_count = le_value(
                data.subrange(24 + data_size as int, 28 + data_size as int),
            );
            let topics_start = 28 + data_size;
            if data.len() < topics_start + 32 * topics_count {
                Err(DecodeError::UserLogTopicsTruncated)
            } else if data.len() > topics_start + 32 * topics_count {
                Err(DecodeError::UserLogTrailingBytes)
            } else {
                Ok(
                    GwLogView::PolyjuiceUser {
                        address: data.subrange(0, 20),
                        data: data.subrange(24, 24 + data_size as int),
                        topics: Seq::new(
                            topics_count,
                            |i: int|
                                data.subrange(topics_start + 32 * i, topics_start + 32 * i + 32),
                        ),
                    },
                )
            }
        }
    }
}

/// What a log item holds, by its service flag.
pub open spec fn log_of(account_id: u32, service_flag: u8, data: Seq<u8>) -> Result<
    GwLogView,
    DecodeError,
> {
    if service_flag == GW_LOG_SUDT_TRANSFER {
        match sudt_log_fields(data) {
            Ok((from_address, to_address, amount)) => Ok(
                GwLogView::SudtTransfer { sudt_id: account_id, from_address, to_address, amount },
            ),
            Err(e) => Err(e),
        }
    } else if service_flag == GW_LOG_SUDT_PAY_FEE {
        match sudt_log_fields(data) {
            Ok((from_address, block_producer_address, amount)) => Ok(
                GwLogView::SudtPayFee {
                    sudt_id: account_id,
                    from_address,
                    block_producer_address,
                    amount,
                },
            ),
            Err(e) => Err(e),
        }
    } else if service_flag == GW_LOG_POLYJUICE_SYSTEM {
        system_log_of(data)
    } else if service_flag == GW_LOG_POLYJUICE_USER {
        user_log_of(data)
    } else {
        Err(DecodeError::UnknownServiceFlag)
    }
}

/// Reads the payload of a token log.
fn parse_sudt_log_data(data: &[u8]) -> (r: Result<(Address, Address, u128), DecodeError>)
    ensures
        match r {
            Ok((first, second, amount)) => sudt_log_fields(data@) == Ok::<
                (Seq<u8>, Seq<u8>, u128),
                DecodeError,
            >((first@, second@, amount)),
            Err(e) => sudt_log_fields(data@) == Err::<(Seq<u8>, Seq<u8>, u128), DecodeError>(e),
        },
{
    if data.len() != 1 + 20 + 20 + 16 {
        return Err(DecodeError::SudtLogLength);
    }
    if data[0] != 20 {
        return Err(DecodeError::SudtLogAddressWidth);
    }
    let first = address_at(data, 1);
    let second = address_at(data, 21);
    let amount = read_u128_le(data, 41);
    Ok((first, second, amount))
}

/// Reads the payload of a polyjuice system log.
fn parse_system_log(data: &[u8]) -> (r: Result<GwLog, DecodeError>)
    ensures
        match r {
            Ok(log) => system_log_of(data@) == Ok::<GwLogView, DecodeError>(log@),
            Err(e) => system_log_of(data@) == Err::<GwLogView, DecodeError>(e),
        },
{
    if data.len() != 8 + 8 + 20 + 4 {
        return Err(DecodeError::SystemLogLength);
    }
    let gas_used = read_u64_le(data, 0);
    let cumulative_gas_used = read_u64_le(data, 8);
    let created_address = address_at(data, 16);
    let status_code = read_u32_le(data, 36);
    Ok(GwLog::PolyjuiceSystem { gas_used, cumulative_gas_used, created_address, status_code })
}

/// Reads the payload of a polyjuice user log.
fn parse_user_log(data: &[u8]) -> (r: Result<GwLog, DecodeError>)
    ensures
        match r {
            Ok(log) => user_log_of(data@) == Ok::<GwLogView, DecodeError>(log@),
            Err(e) => user_log_of(data@) == Err::<GwLogView, DecodeError>(e),
        },
{
    let total = data.len();
    if total < 24 {
        return Err(DecodeError::UserLogTooShort);
    }
    let address = address_at(data, 0);
    let data_size = read_u32_le(data, 20);
    if data_size > GW_USER_LOG_DATA_MAX_SIZE {
        return Err(DecodeError::UserLogDataTooLarge);
    }
    let data_end: usize = 24 + data_size as usize;
    if total < data_end + 4 {
        return Err(DecodeError::UserLogDataTruncated);
    }
    let log_data = bytes_between(data, 24, data_end);
    let topics_count = read_u32_le(data, data_end);
    let topics_start: usize = data_end + 4;
    let needed: u64 = topics_start as u64 + 32 * (topics_count as u64);
    if (total as u64) < needed {
        return Err(DecodeError::UserLogTopicsTruncated);
    }
    if (total as u64) > needed {
        return Err(DecodeError::UserLogTrailingBytes);
    }
    let mut topics: Vec<H256> = Vec::new();
    let mut i: usize = 0;
    while i < topics_count as usize
        invariant
            i <= topics_count,
            total == data@.len(),
            total == topics_start + 32 * topics_count,
            topics@.len() == i,
            forall|j: int|
                0 <= j < i ==> (#[trigger] topics@[j])@ == data@.subrange(
                    topics_start + 32 * j,
                    topics_start + 32 * j + 32,
                ),
        decreases topics_count - i,
    {
        let topic = hash_at(data, topics_start + 32 * i);
        topics.push(topic);
        i += 1;
    }
    let log = GwLog::PolyjuiceUser { address, data: log_data, topics };
    proof {
        let expected = Seq::new(
            topics_count as nat,
            |i: int| data@.subrange(topics_start + 32 * i, topics_start + 32 * i + 32),
        );
        assert(hashes_view(topics@) =~= expected);
    }
    Ok(log)
}

/// Decodes a log item by its service flag.
pub fn parse_log(item: &LogItem) -> (r: Result<GwLog, DecodeError>)
    ensures
        match r {
            Ok(log) => log_of(item.account_id, item.service_flag, item.data@) == Ok::<
                GwLogView,
                DecodeError,
            >(log@),
            Err(e) => log_of(item.account_id, item.service_flag, item.data@) == Err::<
                GwLogView,
                DecodeError,
            >(e),
        },
{
    let data = item.data.as_slice();
    if item.service_flag == GW_LOG_SUDT_TRANSFER {
        match parse_sudt_log_data(data) {
            Ok((from_address, to_address, amount)) => Ok(
                GwLog::SudtTransfer { sudt_id: item.account_id, from_address, to_address, amount },
            ),
            Err(e) => Err(e),
        }
    } else if item.service_flag == GW_LOG_SUDT_PAY_FEE {
        match parse_sudt_log_data(data) {
            Ok((from_address, block_producer_address, amount)) => Ok(
                GwLog::SudtPayFee {
                    sudt_id: item.account_id,
                    from_address,
                    block_producer_address,
                    amount,
                },
            ),
            Err(e) => Err(e),
        }
    } else if item.service_flag == GW_LOG_POLYJUICE_SYSTEM {
        parse_system_log(data)
    } else if item.service_flag == GW_LOG_POLYJUICE_USER {
        parse_user_log(data)
    } else {
        Err(DecodeError::UnknownServiceFlag)
    }
}


/// The runs of `parts`, one after the other.
pub open spec fn concat_all(parts: Seq<Seq<u8>>) -> Seq<u8>
    decreases parts.len(),
{
    if parts.len() == 0 {
        Seq::<u8>::empty()
    } else {
        concat_all(parts.drop_last()) + parts.last()
    }
}

/// Where every part is `width` bytes long, part `i` stands at `width * i` in
/// the concatenation.
pub proof fn lemma_concat_all_parts(parts: Seq<Seq<u8>>, width: nat)
    requires
        forall|i: int| 0 <= i < parts.len() ==> (#[trigger] parts[i]).len() == width,
    ensures
        concat_all(parts).len() == width * parts.len(),
        forall|i: int|
            0 <= i < parts.len() ==> #[trigger] concat_all(parts).subrange(
                width * i,
                width * i + width,
            ) == parts[i],
    decreases parts.len(),
{
    if parts.len() > 0 {
        let front = parts.drop_last();
        let n = front.len();
        lemma_concat_all_parts(front, width);
        assert(width * parts.len() == width * n + width) by (nonlinear_arith)
            requires
                parts.len() == n + 1,
        ;
        assert forall|i: int| 0 <= i < parts.len() implies #[trigger] concat_all(parts).subrange(
            width * i,
            width * i + width,
        ) == parts[i] by {
            if i < n {
                assert(width * i + width <= width * n) by (nonlinear_arith)
                    requires
                        0 <= i < n,
                ;
                assert(width * i >= 0) by (nonlinear_arith)
                    requires
                        0 <= i,
                ;
                assert(concat_all(parts).subrange(width * i, width * i + width) =~= concat_all(
                    front,
                ).subrange(width * i, width * i + width));
                assert(front[i] == parts[i]);
            } else {
                assert(concat_all(parts).subrange(width * i, width * i + width) =~= parts.last());
            }
        }
    } else {
        assert(width * parts.len() == 0) by (nonlinear_arith)
            requires
                parts.len() == 0,
        ;
    }
}

impl GwLogView {
    /// The service flag under which the log is written.
    pub open spec fn service_flag(self) -> u8 {
        match self {
            GwLogView::SudtTransfer { .. } => GW_LOG_SUDT_TRANSFER,
            GwLogView::SudtPayFee { .. } => GW_LOG_SUDT_PAY_FEE,
            GwLogView::PolyjuiceSystem { .. } => GW_LOG_POLYJUICE_SYSTEM,
            GwLogView::PolyjuiceUser { .. } => GW_LOG_POLYJUICE_USER,
        }
    }

    /// Whether every address is 20 bytes and every topic 32 bytes long, as in
    /// each log that stands for a `GwLog`.
    pub open spec fn well_formed(self) -> bool {
        match self {
            GwLogView::SudtTransfer { from_address, to_address, .. } => from_address.len() == 20
                && to_address.len() == 20,
            GwLogView::SudtPayFee { from_address, block_producer_address, .. } => from_address.len()
                == 20 && block_producer_address.len() == 20,
            GwLogView::PolyjuiceSystem { created_address, .. } => created_address.len() == 20,
            GwLogView::PolyjuiceUser { address, topics, .. } => address.len() == 20 && forall|
                i: int,
            | 0 <= i < topics.len() ==> (#[trigger] topics[i]).len() == 32,
        }
    }

    /// Whether the log can be written down: the data of a user log is within
    /// the limit, and the number of its topics fits in 32 bits.
    pub open spec fn encodable(self) -> bool {
        match self {
            GwLogView::PolyjuiceUser { data, topics, .. } => data.len() <= GW_USER_LOG_DATA_MAX_SIZE
                && topics.len() <= u32::MAX,
            _ => true,
        }
    }

    /// The account that the log is written under, where the log names one.
    pub open spec fn account(self) -> Option<u32> {
        match self {
            GwLogView::SudtTransfer { sudt_id, .. } => Some(sudt_id),
            GwLogView::SudtPayFee { sudt_id, .. } => Some(sudt_id),
            _ => None,
        }
    }

    /// The payload that the log is written as.
    pub open spec fn payload(self) -> Seq<u8> {
        match self {
            GwLogView::SudtTransfer { from_address, to_address, amount, .. } => seq![20u8]
                + from_address + to_address + le_bytes(amount as nat, 16),
            GwLogView::SudtPayFee { from_address, block_producer_address, amount, .. } => seq![20u8]
                + from_address + block_producer_address + le_bytes(amount as nat, 16),
            GwLogView::PolyjuiceSystem {
                gas_used,
                cumulative_gas_used,
                created_address,
                status_code,
            } => le_bytes(gas_used as nat, 8) + le_bytes(cumulative_gas_used as nat, 8)
                + created_address + le_bytes(status_code as nat, 4),
            GwLogView::PolyjuiceUser { address, data, topics } => address + le_bytes(data.len(), 4)
                + data + le_bytes(topics.len(), 4) + concat_all(topics),
        }
    }
}

impl GwLog {
    /// The service flag under which the log is written.
    pub fn service_flag(&self) -> (flag: u8)
        ensures
            flag == self@.service_flag(),
    {
        match self {
            GwLog::SudtTransfer { .. } => GW_LOG_SUDT_TRANSFER,
            GwLog::SudtPayFee { .. } => GW_LOG_SUDT_PAY_FEE,
            GwLog::PolyjuiceSystem { .. } => GW_LOG_POLYJUICE_SYSTEM,
            GwLog::PolyjuiceUser { .. } => GW_LOG_POLYJUICE_USER,
        }
    }

    /// Writes the log's payload down, or nothing where the log cannot be
    /// written: a user log with too much data or too many topics.
    pub fn payload(&self) -> (r: Option<Vec<u8>>)
        ensures
            self@.well_formed(),
            match r {
                Some(bytes) => self@.encodable() && bytes@ == self@.payload(),
                None => !self@.encodable(),
            },
    {
        let mut out: Vec<u8> = Vec::new();
        match self {
            GwLog::SudtTransfer { sudt_id: _, from_address, to_address, amount } => {
                out.push(20);
                assert(out@ =~= seq![20u8]);
                push_bytes(&mut out, from_address.as_slice());
                push_bytes(&mut out, to_address.as_slice());
                push_le(&mut out, *amount, 16);
            },
            GwLog::SudtPayFee { sudt_id: _, from_address, block_producer_address, amount } => {
                out.push(20);
                assert(out@ =~= seq![20u8]);
                push_bytes(&mut out, from_address.as_slice());
                push_bytes(&mut out, block_producer_address.as_slice());
                push_le(&mut out, *amount, 16);
            },
            GwLog::PolyjuiceSystem {
                gas_used,
                cumulative_gas_used,
                created_address,
                status_code,
            } => {
                push_le(&mut out, *gas_used as u128, 8);
                assert(out@ =~= le_bytes(*gas_used as nat, 8));
                push_le(&mut out, *cumulative_gas_used as u128, 8);
                push_bytes(&mut out, created_address.as_slice());
                push_le(&mut out, *status_code as u128, 4);
            },
            GwLog::PolyjuiceUser { address, data, topics } => {
                if data.len() > GW_USER_LOG_DATA_MAX_SIZE as usize || topics.len()
                    > 0xffff_ffff_usize {
                    return None;
                }
                push_bytes(&mut out, address.as_slice());
                assert(out@ =~= address@);
                push_le(&mut out, data.len() as u128, 4);
                push_bytes(&mut out, data.as_slice());
                push_le(&mut out, topics.len() as u128, 4);
                let ghost head = out@;
                let ghost parts = hashes_view(topics@);
                let mut i: usize = 0;
                assert(concat_all(parts.take(0)) =~= Seq::<u8>::empty());
                assert(out@ =~= head + concat_all(parts.take(0)));
                while i < topics.len()
                    invariant
                        i <= topics.len(),
                        parts == hashes_view(topics@),
                        out@ == head + concat_all(parts.take(i as int)),
                    decreases topics.len() - i,
                {
                    push_bytes(&mut out, topics[i].as_slice());
                    proof {
                        let grown = parts.take(i + 1);
                        assert(grown.drop_last() =~= parts.take(i as int));
                        assert(grown.last() == topics@[i as int]@);
                        assert(out@ =~= head + concat_all(grown));
                    }
                    i += 1;
                }
                assert(parts.take(topics.len() as int) =~= parts);
            },
        }
        Some(out)
    }
}

/// Decoding a written log gives the log back: under its service flag and, for
/// a token log, under the account it names, the payload of a log decodes to
/// that log.
pub proof fn lemma_log_round_trip(log: GwLogView, account_id: u32)
    requires
        log.well_formed(),
        log.encodable(),
        log.account() matches Some(id) ==> id == account_id,
    ensures
        log_of(account_id, log.service_flag(), log.payload()) == Ok::<GwLogView, DecodeError>(log),
{
    let b = log.payload();
    lemma_pow256_widths();
    match log {
        GwLogView::SudtTransfer { sudt_id, from_address, to_address, amount } => {
            lemma_le_bytes_len(amount as nat, 16);
            lemma_le_value_of_bytes(amount as nat, 16);
            assert(b.subrange(1, 21) =~= from_address);
            assert(b.subrange(21, 41) =~= to_address);
            assert(b.subrange(41, 57) =~= le_bytes(amount as nat, 16));
        },
        GwLogView::SudtPayFee { sudt_id, from_address, block_producer_address, amount } => {
            lemma_le_bytes_len(amount as nat, 16);
            lemma_le_value_of_bytes(amount as nat, 16);
            assert(b.subrange(1, 21) =~= from_address);
            assert(b.subrange(21, 41) =~= block_producer_address);
            assert(b.subrange(41, 57) =~= le_bytes(amount as nat, 16));
        },
        GwLogView::PolyjuiceSystem {
            gas_used,
            cumulative_gas_used,
            created_address,
            status_code,
        } => {
            lemma_le_bytes_len(gas_used as nat, 8);
            lemma_le_bytes_len(cumulative_gas_used as nat, 8);
            lemma_le_bytes_len(status_code as nat, 4);
            lemma_le_value_of_bytes(gas_used as nat, 8);
            lemma_le_value_of_bytes(cumulative_gas_used as nat, 8);
            lemma_le_value_of_bytes(status_code as nat, 4);
            assert(b.subrange(0, 8) =~= le_bytes(gas_used as nat, 8));
            assert(b.subrange(8, 16) =~= le_bytes(cumulative_gas_used as nat, 8));
            assert(b.subrange(16, 36) =~= created_address);
            assert(b.subrange(36, 40) =~= le_bytes(status_code as nat, 4));
        },
        GwLogView::PolyjuiceUser { address, data, topics } => {
            let n = data.len();
            let c = topics.len();
            let flat = concat_all(topics);
            lemma_le_bytes_len(n, 4);
            lemma_le_bytes_len(c, 4);
            lemma_le_value_of_bytes(n, 4);
            lemma_le_value_of_bytes(c, 4);
            lemma_concat_all_parts(topics, 32);
            assert(b.len() == 28 + n + 32 * c);
            assert(b.subrange(0, 20) =~= address);
            assert(b.subrange(20, 24) =~= le_bytes(n, 4));
            assert(b.subrange(24, 24 + n as int) =~= data);
            assert(b.subrange(24 + n as int, 28 + n as int) =~= le_bytes(c, 4));
            let start = 28 + n;
            let read = Seq::new(
                c,
                |i: int| b.subrange(start + 32 * i, start + 32 * i + 32),
            );
            assert forall|i: int| 0 <= i < c implies read[i] == topics[i] by {
                assert(flat.subrange(32 * i, 32 * i + 32) == topics[i]);
                assert(b.subrange(start + 32 * i, start + 32 * i + 32) =~= flat.subrange(
                    32 * i,
                    32 * i + 32,
                ));
            }
            assert(read =~= topics);
        },
    }
}


/// The sixteen hexadecimal digits, in lower case.
pub open spec fn hex_digits() -> Seq<char> {
    seq!['0', '1', '2', '3', '4', '5', '6', '7', '8', '9', 'a', 'b', 'c', 'd', 'e', 'f']
}

/// The bytes `raw` as hexadecimal digits: two for each byte, the high half
/// first.
pub open spec fn hex_chars(raw: Seq<u8>) -> Seq<char> {
    Seq::new(
        2 * raw.len(),
        |i: int|
            if i % 2 == 0 {
                hex_digits()[raw[i / 2] as int / 16]
            } else {
                hex_digits()[raw[i / 2] as int % 16]
            },
    )
}

/// The bytes `raw` as text: `0x` and their hexadecimal digits.
pub open spec fn hex_text(raw: Seq<u8>) -> Seq<char> {
    "0x"@ + hex_chars(raw)
}

/// Writes `raw` as `0x` and its hexadecimal digits. Only bytes whose text
/// would be longer than a string can be are refused.
pub fn hex(raw: &[u8]) -> (r: Result<String, HexError>)
    ensures
        match r {
            Ok(text) => 2 * raw@.len() + 2 <= isize::MAX && text@ == hex_text(raw@),
            Err(e) => 2 * raw@.len() + 2 > isize::MAX,
        },
{
    if raw.len() > (isize::MAX as usize - 2) / 2 {
        return Err(HexError::TooLong);
    }
    let digits = hex_string(raw);
    Ok(String::from_str("0x").concat(digits.as_str()))
}

/// The address that an account's script arguments name: bytes 32 to 52, or
/// the zero address where the arguments are shorter.
pub open spec fn script_args_address(args: Seq<u8>) -> Seq<u8> {
    if args.len() < 52 {
        zero_bytes(20)
    } else {
        args.subrange(32, 52)
    }
}

/// The address of the account whose script is `account_script`: the address
/// that the script's arguments name, or the zero address where the rollup
/// knows no script for the account.
pub fn account_script_hash_to_eth_address(account_script: &Option<Script>) -> (address: Address)
    ensures
        address@ == match *account_script {
            Some(script) => script_args_address(script.args@),
            None => zero_bytes(20),
        },
{
    match account_script {
        Some(script) => {
            if script.args.len() < 52 {
                zero_address()
            } else {
                address_at(script.args.as_slice(), 32)
            }
        },
        None => zero_address(),
    }
}

} // verus!
