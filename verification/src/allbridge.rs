//! Cross-chain bridge rules for the Allbridge Core routes: which chains and
//! stablecoins are supported, how a fee quote is routed and priced, which
//! transfers may be sent, how the API's answers are read, and the built-in
//! token and route lists used when the API is unavailable.
//!
//! Fees are in millionths of a token unit.

use vstd::prelude::*;

use crate::text::{
    concat2, contains, contains_seq, lowercase, str_eq, to_lowercase,
};

verus! {

/// Why a bridge operation failed.
#[derive(Debug, Clone, PartialEq, Eq)]
pub enum AllbridgeError {
    HttpError(String),
    ApiError(String),
    UnsupportedChain(String),
    UnsupportedToken(String),
    InsufficientLiquidity { available: String, required: String },
    InvalidRequest(String),
    TransactionNotFound(String),
    TransferFailed(String),
    Configuration(String),
}

/// The message an error reads as.
pub open spec fn allbridge_error_text(e: AllbridgeError) -> Seq<char> {
    match e {
        AllbridgeError::HttpError(s) => "HTTP request failed: "@ + s@,
        AllbridgeError::ApiError(s) => "API error: "@ + s@,
        AllbridgeError::UnsupportedChain(s) => "Unsupported chain: "@ + s@,
        AllbridgeError::UnsupportedToken(s) => "Unsupported token: "@ + s@,
        AllbridgeError::InsufficientLiquidity { available, required } => "Insufficient liquidity: available "@
            + available@ + ", required "@ + required@,
        AllbridgeError::InvalidRequest(s) => "Invalid transfer request: "@ + s@,
        AllbridgeError::TransactionNotFound(s) => "Transaction not found: "@ + s@,
        AllbridgeError::TransferFailed(s) => "Bridge transfer failed: "@ + s@,
        AllbridgeError::Configuration(s) => "Configuration error: "@ + s@,
    }
}

impl AllbridgeError {
    /// The error's message.
    pub fn message(&self) -> (r: String)
        ensures
            r@ == allbridge_error_text(*self),
    {
        match self {
            AllbridgeError::HttpError(s) => concat2("HTTP request failed: ", s.as_str()),
            AllbridgeError::ApiError(s) => concat2("API error: ", s.as_str()),
            AllbridgeError::UnsupportedChain(s) => concat2("Unsupported chain: ", s.as_str()),
            AllbridgeError::UnsupportedToken(s) => concat2("Unsupported token: ", s.as_str()),
            AllbridgeError::InsufficientLiquidity { available, required } => {
                let m = concat2("Insufficient liquidity: available ", available.as_str());
                let m = m.concat(", required ");
                m.concat(required.as_str())
            },
            AllbridgeError::InvalidRequest(s) => concat2("Invalid transfer request: ", s.as_str()),
            AllbridgeError::TransactionNotFound(s) => concat2(
                "Transaction not found: ",
                s.as_str(),
            ),
            AllbridgeError::TransferFailed(s) => concat2("Bridge transfer failed: ", s.as_str()),
            AllbridgeError::Configuration(s) => concat2("Configuration error: ", s.as_str()),
        }
    }
}

/// `r` is an `InvalidRequest` error reading `msg`.
pub open spec fn is_invalid_request<T>(r: Result<T, AllbridgeError>, msg: Seq<char>) -> bool {
    r matches Err(AllbridgeError::InvalidRequest(m)) && m@ == msg
}

/// `r` is an `UnsupportedChain` error for `chain`.
pub open spec fn is_unsupported_chain<T>(r: Result<T, AllbridgeError>, chain: Seq<char>) -> bool {
    r matches Err(AllbridgeError::UnsupportedChain(m)) && m@ == chain
}

/// `r` is an `UnsupportedToken` error for `token`.
pub open spec fn is_unsupported_token<T>(r: Result<T, AllbridgeError>, token: Seq<char>) -> bool {
    r matches Err(AllbridgeError::UnsupportedToken(m)) && m@ == token
}

/// A chain the bridge serves.
#[derive(Debug, Clone)]
pub struct ChainConfig {
    pub chain_id: String,
    pub name: String,
    pub rpc_url: Option<String>,
    pub allbridge_chain_symbol: String,
}

impl ChainConfig {
    /// Whether `chain`, whose lowercase is `lower_chain`, names this chain,
    /// whose bridge symbol's lowercase is `lower_symbol`: by the chain id, or
    /// by the lowercased symbol.
    pub fn matches_lowercased(&self, chain: &str, lower_chain: &str, lower_symbol: &str) -> (r: bool)
        ensures
            r == (self.chain_id@ == chain@ || lower_symbol@ == lower_chain@),
    {
        str_eq(self.chain_id.as_str(), chain) || str_eq(lower_symbol, lower_chain)
    }

    /// Ethereum mainnet, with the RPC endpoint configured for it.
    pub fn ethereum(rpc_url: Option<String>) -> (r: ChainConfig)
        ensures
            r.chain_id@ == "1"@,
            r.name@ == "Ethereum"@,
            r.allbridge_chain_symbol@ == "ETH"@,
            r.rpc_url == rpc_url,
    {
        ChainConfig {
            chain_id: "1".to_owned(),
            name: "Ethereum".to_owned(),
            rpc_url,
            allbridge_chain_symbol: "ETH".to_owned(),
        }
    }

    /// Polygon, with the RPC endpoint configured for it.
    pub fn polygon(rpc_url: Option<String>) -> (r: ChainConfig)
        ensures
            r.chain_id@ == "137"@,
            r.name@ == "Polygon"@,
            r.allbridge_chain_symbol@ == "POL"@,
            r.rpc_url == rpc_url,
    {
        ChainConfig {
            chain_id: "137".to_owned(),
            name: "Polygon".to_owned(),
            rpc_url,
            allbridge_chain_symbol: "POL".to_owned(),
        }
    }

    /// Arbitrum, with the RPC endpoint configured for it.
    pub fn arbitrum(rpc_url: Option<String>) -> (r: ChainConfig)
        ensures
            r.chain_id@ == "42161"@,
            r.name@ == "Arbitrum"@,
            r.allbridge_chain_symbol@ == "ARB"@,
            r.rpc_url == rpc_url,
    {
        ChainConfig {
            chain_id: "42161".to_owned(),
            name: "Arbitrum".to_owned(),
            rpc_url,
            allbridge_chain_symbol: "ARB".to_owned(),
        }
    }

    /// Stellar, with the RPC endpoint configured for it.
    pub fn stellar(rpc_url: Option<String>) -> (r: ChainConfig)
        ensures
            r.chain_id@ == "stellar"@,
            r.name@ == "Stellar"@,
            r.allbridge_chain_symbol@ == "STLR"@,
            r.rpc_url == rpc_url,
    {
        ChainConfig {
            chain_id: "stellar".to_owned(),
            name: "Stellar".to_owned(),
            rpc_url,
            allbridge_chain_symbol: "STLR".to_owned(),
        }
    }
}

/// A transfer to quote or send: tokens of `token_address` from one chain to
/// `recipient` on another.
#[derive(Debug, Clone)]
pub struct BridgeTransferRequest {
    pub source_chain: String,
    pub destination_chain: String,
    pub token_address: String,
    pub amount: String,
    pub recipient: String,
}

/// A transfer to send, with its sender.
#[derive(Debug, Clone)]
pub struct BridgeTransfer {
    pub request: BridgeTransferRequest,
    pub sender: String,
    pub nonce: Option<String>,
}

/// A fee quote, with amounts as decimal texts.
#[derive(Debug, Clone)]
pub struct BridgeFeeEstimate {
    pub bridge_fee: String,
    pub gas_fee: String,
    pub total_cost: String,
    pub estimated_time: u32,
    pub source_chain: String,
    pub destination_chain: String,
    pub token_symbol: String,
    pub amount: String,
}

/// Where a bridge transfer stands.
#[derive(Debug, Clone, PartialEq, Eq)]
pub enum BridgeStatus {
    Pending,
    InProgress,
    Completed,
    Failed(String),
    Unknown,
}

/// The text a status displays as.
pub open spec fn bridge_status_text(s: BridgeStatus) -> Seq<char> {
    match s {
        BridgeStatus::Pending => "pending"@,
        BridgeStatus::InProgress => "in_progress"@,
        BridgeStatus::Completed => "completed"@,
        BridgeStatus::Failed(reason) => "failed: "@ + reason@,
        BridgeStatus::Unknown => "unknown"@,
    }
}

impl BridgeStatus {
    /// The status as it displays.
    pub fn to_string(&self) -> (r: String)
        ensures
            r@ == bridge_status_text(*self),
    {
        match self {
            BridgeStatus::Pending => "pending".to_owned(),
            BridgeStatus::InProgress => "in_progress".to_owned(),
            BridgeStatus::Completed => "completed".to_owned(),
            BridgeStatus::Failed(reason) => concat2("failed: ", reason.as_str()),
            BridgeStatus::Unknown => "unknown".to_owned(),
        }
    }
}

/// A token the bridge can carry on a chain.
#[derive(Debug, Clone)]
pub struct TokenInfo {
    pub symbol: String,
    pub name: String,
    pub address: String,
    pub chain: String,
    pub decimals: u8,
    pub is_supported: bool,
}

/// A token's fields as plain values.
pub open spec fn token_view(t: TokenInfo) -> (Seq<char>, Seq<char>, Seq<char>, Seq<char>, u8, bool) {
    (t.symbol@, t.name@, t.address@, t.chain@, t.decimals, t.is_supported)
}

/// A token entry of the API's token list: each field holds the entry's string
/// (or unsigned number) where it has one.
#[derive(Debug, Clone)]
pub struct RawToken {
    pub chain_symbol: Option<String>,
    pub symbol: Option<String>,
    pub name: Option<String>,
    pub token_address: Option<String>,
    pub decimals: Option<u64>,
}

/// A pool entry of the API's pool list: each field holds the entry's string
/// where it has one.
#[derive(Debug, Clone)]
pub struct PoolEntry {
    pub chain_symbol: Option<String>,
    pub token_symbol: Option<String>,
    pub liquidity: Option<String>,
}

/// A field of a JSON object as the bridge reads it.
#[derive(Debug, Clone)]
pub enum JsonField {
    Missing,
    Text(String),
    Other,
}

/// Whether an amount text reads as a number, and a positive one.
#[derive(Debug, Clone, Copy, PartialEq, Eq, Structural)]
pub enum AmountCheck {
    NotANumber,
    NotPositive,
    Positive,
}

/// How a fee quote is routed and priced, apart from the bridge fee itself
/// (0.3% of the amount).
#[derive(Debug, Clone, Copy)]
pub struct FeeRoute {
    /// The gas fee of the source chain, in millionths of a token.
    pub gas_fee_micros: u64,
    /// Minutes the transfer is expected to take.
    pub estimated_time: u32,
    pub token_symbol: &'static str,
}

/// `chain` names `c`: by its chain id, or by its bridge symbol in any case.
pub open spec fn chain_matches(c: ChainConfig, chain: Seq<char>) -> bool {
    c.chain_id@ == chain || lowercase(c.allbridge_chain_symbol@) == lowercase(chain)
}

/// `i` is the first chain of `chains` that `chain` names.
pub open spec fn is_first_match(chains: Seq<ChainConfig>, chain: Seq<char>, i: int) -> bool {
    &&& 0 <= i < chains.len()
    &&& chain_matches(chains[i], chain)
    &&& forall|j: int| 0 <= j < i ==> !chain_matches(#[trigger] chains[j], chain)
}

/// Some chain of `chains` is named by `chain`.
pub open spec fn names_a_chain(chains: Seq<ChainConfig>, chain: Seq<char>) -> bool {
    exists|i: int| 0 <= i < chains.len() && chain_matches(#[trigger] chains[i], chain)
}

/// A lowercased token address is one of the supported stablecoins: it
/// mentions USDC or USDT, or is a known USDC/USDT contract on Ethereum,
/// Polygon or Arbitrum.
pub open spec fn is_stablecoin_text(lower: Seq<char>) -> bool {
    ||| contains_seq(lower, "usdc"@)
    ||| contains_seq(lower, "usdt"@)
    ||| lower == "0xa0b86991c6218b36c1d19d4a2e9eb0ce3606eb48"@
    ||| lower == "0xdac17f958d2ee523a2206206994597c13d831ec7"@
    ||| lower == "0x2791bca1f2de4661ed88a30c99a7a9449aa84174"@
    ||| lower == "0xc2132d05d31c914a87c6611c10748aeb04b58e8f"@
    ||| lower == "0xff970a61a04b1ca14834a43f5de4533ebddb5cc8"@
    ||| lower == "0xfd086bc7cd5c481dcc9c85ebe478a1c0b69fcbb9"@
}

pub open spec fn is_supported_stablecoin_spec(token_address: Seq<char>) -> bool {
    is_stablecoin_text(lowercase(token_address))
}

/// The stablecoin a lowercased token address stands for.
pub open spec fn symbol_of_lowercased(lower: Seq<char>) -> Seq<char> {
    if contains_seq(lower, "usdc"@) {
        "USDC"@
    } else {
        "USDT"@
    }
}

/// The stablecoin a supported token address stands for.
pub open spec fn token_symbol_spec(token_address: Seq<char>) -> Seq<char> {
    symbol_of_lowercased(lowercase(token_address))
}

/// The gas fee of a source chain, in millionths of a token.
pub open spec fn gas_fee_micros_for(symbol: Seq<char>) -> u64 {
    if symbol == "ETH"@ {
        5_000_000
    } else if symbol == "POL"@ {
        500_000
    } else if symbol == "ARB"@ {
        1_000_000
    } else if symbol == "STLR"@ {
        10_000
    } else {
        2_000_000
    }
}

/// Minutes a transfer takes: a route out of Ethereum 15 and out of Stellar
/// 10; otherwise a route into Ethereum 15 and into Stellar 10; any other 5.
pub open spec fn estimated_minutes(source_symbol: Seq<char>, destination: Seq<char>) -> u32 {
    if source_symbol == "ETH"@ {
        15
    } else if source_symbol == "STLR"@ {
        10
    } else if destination == "ETH"@ {
        15
    } else if destination == "STLR"@ {
        10
    } else {
        5
    }
}

/// The token entry the API list gives for `chain_symbol`, if the entry is on
/// that chain and has a symbol.
pub open spec fn token_from_raw(t: RawToken, chain_symbol: Seq<char>, chain: Seq<char>) -> Option<
    (Seq<char>, Seq<char>, Seq<char>, Seq<char>, u8, bool),
> {
    match t.chain_symbol {
        Some(cs) => if cs@ == chain_symbol && t.symbol is Some {
            Some(
                (
                    t.symbol->0@,
                    match t.name {
                        Some(n) => n@,
                        None => Seq::empty(),
                    },
                    match t.token_address {
                        Some(a) => a@,
                        None => Seq::empty(),
                    },
                    chain,
                    match t.decimals {
                        Some(d) => d as u8,
                        None => 6u8,
                    },
                    true,
                ),
            )
        } else {
            None
        },
        None => None,
    }
}

/// The tokens of an API token list that are on `chain_symbol`, in list order.
pub open spec fn tokens_from_raw(raw: Seq<RawToken>, chain_symbol: Seq<char>, chain: Seq<char>) -> Seq<
    (Seq<char>, Seq<char>, Seq<char>, Seq<char>, u8, bool),
>
    decreases raw.len(),
{
    if raw.len() == 0 {
        Seq::empty()
    } else {
        let rest = tokens_from_raw(raw.drop_last(), chain_symbol, chain);
        match token_from_raw(raw.last(), chain_symbol, chain) {
            Some(t) => rest.push(t),
            None => rest,
        }
    }
}

/// The built-in token list of a chain symbol, for `chain`.
pub open spec fn default_tokens(chain_symbol: Seq<char>, chain: Seq<char>) -> Seq<
    (Seq<char>, Seq<char>, Seq<char>, Seq<char>, u8, bool),
> {
    if chain_symbol == "ETH"@ {
        seq![
            ("USDC"@, "USD Coin"@, "0xA0b86991c6218b36c1d19D4a2e9Eb0cE3606eB48"@, chain, 6u8, true),
            ("USDT"@, "Tether USD"@, "0xdAC17F958D2ee523a2206206994597C13D831ec7"@, chain, 6u8, true),
        ]
    } else if chain_symbol == "POL"@ {
        seq![
            ("USDC"@, "USD Coin"@, "0x2791Bca1f2de4661ED88A30C99A7a9449Aa84174"@, chain, 6u8, true),
            ("USDT"@, "Tether USD"@, "0xc2132D05D31c914a87C6611C10748AEb04B58e8F"@, chain, 6u8, true),
        ]
    } else if chain_symbol == "ARB"@ {
        seq![
            ("USDC"@, "USD Coin"@, "0xFF970A61A04b1cA14834A43f5dE4533eBDDB5CC8"@, chain, 6u8, true),
            ("USDT"@, "Tether USD"@, "0xFd086bC7CD5C481DCC9C85ebE478A1C0b69FCbb9"@, chain, 6u8, true),
        ]
    } else if chain_symbol == "STLR"@ {
        seq![("USDC"@, "USD Coin"@, "USDC"@, chain, 7u8, true)]
    } else {
        Seq::empty()
    }
}

/// The liquidity text of the first pool on `chain_symbol` for
/// `token_symbol`, if that pool has one.
pub open spec fn pool_liquidity(pools: Seq<PoolEntry>, chain_symbol: Seq<char>, token_symbol: Seq<
    char,
>) -> Option<Seq<char>>
    decreases pools.len(),
{
    if pools.len() == 0 {
        None
    } else {
        let p = pools[0];
        if (p.chain_symbol matches Some(c) && c@ == chain_symbol) && (p.token_symbol matches Some(
            t) && t@ == token_symbol) {
            match p.liquidity {
                Some(l) => Some(l@),
                None => None,
            }
        } else {
            pool_liquidity(pools.drop_first(), chain_symbol, token_symbol)
        }
    }
}

/// The status a lowercased status text reports.
pub open spec fn status_from_lower(lower: Seq<char>, error: Option<Seq<char>>) -> (Seq<char>, int) {
    if lower == "pending"@ || lower == "initiated"@ {
        ("pending"@, 0)
    } else if lower == "in_progress"@ || lower == "processing"@ || lower == "confirming"@ {
        ("in_progress"@, 1)
    } else if lower == "completed"@ || lower == "success"@ || lower == "confirmed"@ {
        ("completed"@, 2)
    } else if lower == "failed"@ || lower == "error"@ || lower == "reverted"@ {
        (
            match error {
                Some(e) => e,
                None => "unknown error"@,
            },
            3,
        )
    } else {
        ("unknown"@, 4)
    }
}

/// The status words of different kinds are different words.
proof fn lemma_status_words_distinct()
    ensures
        "pending"@ != "in_progress"@,
        "pending"@ != "processing"@,
        "pending"@ != "confirming"@,
        "initiated"@ != "in_progress"@,
        "initiated"@ != "processing"@,
        "initiated"@ != "confirming"@,
        "pending"@ != "completed"@,
        "pending"@ != "success"@,
        "pending"@ != "confirmed"@,
        "initiated"@ != "completed"@,
        "initiated"@ != "success"@,
        "initiated"@ != "confirmed"@,
        "pending"@ != "failed"@,
        "pending"@ != "error"@,
        "pending"@ != "reverted"@,
        "initiated"@ != "failed"@,
        "initiated"@ != "error"@,
        "initiated"@ != "reverted"@,
        "in_progress"@ != "completed"@,
        "in_progress"@ != "success"@,
        "in_progress"@ != "confirmed"@,
        "processing"@ != "completed"@,
        "processing"@ != "success"@,
        "processing"@ != "confirmed"@,
        "confirming"@ != "completed"@,
        "confirming"@ != "success"@,
        "confirming"@ != "confirmed"@,
        "in_progress"@ != "failed"@,
        "in_progress"@ != "error"@,
        "in_progress"@ != "reverted"@,
        "processing"@ != "failed"@,
        "processing"@ != "error"@,
        "processing"@ != "reverted"@,
        "confirming"@ != "failed"@,
        "confirming"@ != "error"@,
        "confirming"@ != "reverted"@,
        "completed"@ != "failed"@,
        "completed"@ != "error"@,
        "completed"@ != "reverted"@,
        "success"@ != "failed"@,
        "success"@ != "error"@,
        "success"@ != "reverted"@,
        "confirmed"@ != "failed"@,
        "confirmed"@ != "error"@,
        "confirmed"@ != "reverted"@,
{
    reveal_strlit("pending");
    reveal_strlit("initiated");
    reveal_strlit("in_progress");
    reveal_strlit("processing");
    reveal_strlit("confirming");
    reveal_strlit("completed");
    reveal_strlit("success");
    reveal_strlit("confirmed");
    reveal_strlit("failed");
    reveal_strlit("error");
    reveal_strlit("reverted");
    assert("pending"@[0] != "success"@[0]);
    assert("initiated"@[0] != "completed"@[0]);
    assert("initiated"@[0] != "confirmed"@[0]);
    assert("pending"@.len() != "in_progress"@.len());
    assert("pending"@.len() != "processing"@.len());
    assert("pending"@.len() != "confirming"@.len());
    assert("initiated"@.len() != "in_progress"@.len());
    assert("initiated"@.len() != "processing"@.len());
    assert("initiated"@.len() != "confirming"@.len());
    assert("pending"@.len() != "completed"@.len());
    assert("pending"@.len() != "confirmed"@.len());
    assert("initiated"@.len() != "success"@.len());
    assert("pending"@.len() != "failed"@.len());
    assert("pending"@.len() != "error"@.len());
    assert("pending"@.len() != "reverted"@.len());
    assert("initiated"@.len() != "failed"@.len());
    assert("initiated"@.len() != "error"@.len());
    assert("initiated"@.len() != "reverted"@.len());
    assert("in_progress"@.len() != "completed"@.len());
    assert("in_progress"@.len() != "success"@.len());
    assert("in_progress"@.len() != "confirmed"@.len());
    assert("processing"@.len() != "completed"@.len());
    assert("processing"@.len() != "success"@.len());
    assert("processing"@.len() != "confirmed"@.len());
    assert("confirming"@.len() != "completed"@.len());
    assert("confirming"@.len() != "success"@.len());
    assert("confirming"@.len() != "confirmed"@.len());
    assert("in_progress"@.len() != "failed"@.len());
    assert("in_progress"@.len() != "error"@.len());
    assert("in_progress"@.len() != "reverted"@.len());
    assert("processing"@.len() != "failed"@.len());
    assert("processing"@.len() != "error"@.len());
    assert("processing"@.len() != "reverted"@.len());
    assert("confirming"@.len() != "failed"@.len());
    assert("confirming"@.len() != "error"@.len());
    assert("confirming"@.len() != "reverted"@.len());
    assert("completed"@.len() != "failed"@.len());
    assert("completed"@.len() != "error"@.len());
    assert("completed"@.len() != "reverted"@.len());
    assert("success"@.len() != "failed"@.len());
    assert("success"@.len() != "error"@.len());
    assert("success"@.len() != "reverted"@.len());
    assert("confirmed"@.len() != "failed"@.len());
    assert("confirmed"@.len() != "error"@.len());
    assert("confirmed"@.len() != "reverted"@.len());
}

/// A status text reads as in progress exactly when it is `in_progress`,
/// `processing` or `confirming`, and as completed exactly when it is
/// `completed`, `success` or `confirmed`; a transfer still being processed is
/// never reported as completed.
pub proof fn lemma_status_kinds(lower: Seq<char>, error: Option<Seq<char>>)
    ensures
        (status_from_lower(lower, error).1 == 1) == (lower == "in_progress"@ || lower
            == "processing"@ || lower == "confirming"@),
        (status_from_lower(lower, error).1 == 2) == (lower == "completed"@ || lower == "success"@
            || lower == "confirmed"@),
        (status_from_lower(lower, error).1 == 0) == (lower == "pending"@ || lower
            == "initiated"@),
        (status_from_lower(lower, error).1 == 3) == (lower == "failed"@ || lower == "error"@
            || lower == "reverted"@),
{
    lemma_status_words_distinct();
}

/// The status a transaction-status answer reports: from its `status` text,
/// read case-insensitively (a missing status reads `unknown`), and for a
/// failure the answer's `error` text (`unknown error` when missing).
pub open spec fn reported_status(status: Option<Seq<char>>, error: Option<Seq<char>>) -> Seq<char> {
    let text = match status {
        Some(s) => s,
        None => "unknown"@,
    };
    lowered_status_text(lowercase(text), error)
}

/// The status a lowercased status text reports, as it displays: for a
/// failure, `failed: ` and the reason.
pub open spec fn lowered_status_text(lower: Seq<char>, error: Option<Seq<char>>) -> Seq<char> {
    let (detail, kind) = status_from_lower(lower, error);
    if kind == 3 {
        "failed: "@ + detail
    } else {
        detail
    }
}

/// The supported routes: (from, to, tokens).
pub open spec fn supported_routes() -> Seq<(Seq<char>, Seq<char>, Seq<Seq<char>>)> {
    let both = seq!["USDC"@, "USDT"@];
    let usdc = seq!["USDC"@];
    seq![
        ("ethereum"@, "polygon"@, both),
        ("polygon"@, "ethereum"@, both),
        ("ethereum"@, "arbitrum"@, both),
        ("arbitrum"@, "ethereum"@, both),
        ("polygon"@, "arbitrum"@, both),
        ("arbitrum"@, "polygon"@, both),
        ("stellar"@, "ethereum"@, usdc),
        ("ethereum"@, "stellar"@, usdc),
    ]
}

/// A route as plain values.
pub open spec fn route_view(r: (String, String, Vec<String>)) -> (Seq<char>, Seq<char>, Seq<Seq<char>>) {
    (r.0@, r.1@, r.2@.map_values(|t: String| t@))
}

fn token(
    symbol: &str,
    name: &str,
    address: &str,
    chain: &str,
    decimals: u8,
) -> (r: TokenInfo)
    ensures
        token_view(r) == (symbol@, name@, address@, chain@, decimals, true),
{
    TokenInfo {
        symbol: symbol.to_owned(),
        name: name.to_owned(),
        address: address.to_owned(),
        chain: chain.to_owned(),
        decimals,
        is_supported: true,
    }
}

fn route(from: &str, to: &str, with_usdt: bool) -> (r: (String, String, Vec<String>))
    ensures
        route_view(r) == (from@, to@, if with_usdt {
            seq!["USDC"@, "USDT"@]
        } else {
            seq!["USDC"@]
        }),
{
    let mut tokens: Vec<String> = Vec::new();
    tokens.push("USDC".to_owned());
    if with_usdt {
        tokens.push("USDT".to_owned());
    }
    let r = (from.to_owned(), to.to_owned(), tokens);
    assert(route_view(r).2 =~= (if with_usdt {
        seq!["USDC"@, "USDT"@]
    } else {
        seq!["USDC"@]
    }));
    r
}

/// Stellar is served for USDC only: every supported route to or from
/// Stellar carries USDC and nothing else, and there is one each way.
pub proof fn lemma_stellar_routes_usdc_only()
    ensures
        supported_routes().len() == 8,
        forall|i: int|
            0 <= i < supported_routes().len() && (supported_routes()[i].0 == "stellar"@
                || supported_routes()[i].1 == "stellar"@) ==> supported_routes()[i].2 == seq![
                "USDC"@,
            ],
        supported_routes()[6] == ("stellar"@, "ethereum"@, seq!["USDC"@]),
        supported_routes()[7] == ("ethereum"@, "stellar"@, seq!["USDC"@]),
{
    reveal_strlit("stellar");
    reveal_strlit("ethereum");
    reveal_strlit("polygon");
    reveal_strlit("arbitrum");
    assert("ethereum"@[0] != "stellar"@[0]);
    assert("polygon"@[0] != "stellar"@[0]);
    assert("arbitrum"@[0] != "stellar"@[0]);
}

/// The bridge service's configuration: its API endpoint and the chains it
/// serves.
pub struct AllbridgeService {
    pub supported_chains: Vec<ChainConfig>,
    pub api_base_url: String,
}

impl AllbridgeService {
    /// A service for Ethereum, Polygon, Arbitrum and Stellar, with the RPC
    /// endpoints configured for each.
    pub fn new(
        api_base_url: String,
        ethereum_rpc: Option<String>,
        polygon_rpc: Option<String>,
        arbitrum_rpc: Option<String>,
        stellar_rpc: Option<String>,
    ) -> (r: AllbridgeService)
        ensures
            r.api_base_url == api_base_url,
            r.supported_chains@.len() == 4,
            r.supported_chains@[0].chain_id@ == "1"@,
            r.supported_chains@[0].allbridge_chain_symbol@ == "ETH"@,
            r.supported_chains@[1].chain_id@ == "137"@,
            r.supported_chains@[1].allbridge_chain_symbol@ == "POL"@,
            r.supported_chains@[2].chain_id@ == "42161"@,
            r.supported_chains@[2].allbridge_chain_symbol@ == "ARB"@,
            r.supported_chains@[3].chain_id@ == "stellar"@,
            r.supported_chains@[3].allbridge_chain_symbol@ == "STLR"@,
            r.supported_chains@[0].name@ == "Ethereum"@,
            r.supported_chains@[1].name@ == "Polygon"@,
            r.supported_chains@[2].name@ == "Arbitrum"@,
            r.supported_chains@[3].name@ == "Stellar"@,
            r.supported_chains@[0].rpc_url == ethereum_rpc,
            r.supported_chains@[1].rpc_url == polygon_rpc,
            r.supported_chains@[2].rpc_url == arbitrum_rpc,
            r.supported_chains@[3].rpc_url == stellar_rpc,
    {
        let mut chains: Vec<ChainConfig> = Vec::new();
        chains.push(ChainConfig::ethereum(ethereum_rpc));
        chains.push(ChainConfig::polygon(polygon_rpc));
        chains.push(ChainConfig::arbitrum(arbitrum_rpc));
        chains.push(ChainConfig::stellar(stellar_rpc));
        AllbridgeService { supported_chains: chains, api_base_url }
    }

    /// The first supported chain that `chain` names by id or by bridge symbol
    /// (in any case).
    pub fn validate_chain(&self, chain: &str) -> (r: Result<&ChainConfig, AllbridgeError>)
        ensures
            r is Ok <==> names_a_chain(self.supported_chains@, chain@),
            r matches Ok(c) ==> exists|i: int|
                is_first_match(self.supported_chains@, chain@, i) && self.supported_chains@[i]
                    == *c,
            r is Err ==> is_unsupported_chain(r, chain@),
    {
        let lower_chain = to_lowercase(chain);
        let n = self.supported_chains.len();
        let mut i: usize = 0;
        while i < n
            invariant
                n == self.supported_chains@.len(),
                i <= n,
                lower_chain@ == lowercase(chain@),
                forall|j: int| 0 <= j < i ==> !chain_matches(#[trigger] self.supported_chains@[j], chain@),
            decreases n - i,
        {
            let c = &self.supported_chains[i];
            let lower_symbol = to_lowercase(c.allbridge_chain_symbol.as_str());
            if c.matches_lowercased(chain, lower_chain.as_str(), lower_symbol.as_str()) {
                assert(is_first_match(self.supported_chains@, chain@, i as int));
                return Ok(c);
            }
            i = i + 1;
        }
        Err(AllbridgeError::UnsupportedChain(chain.to_owned()))
    }

    /// USDC and USDT are the supported stablecoins: by name, or by their
    /// contract addresses on Ethereum, Polygon and Arbitrum.
    pub fn is_supported_stablecoin(token_address: &str) -> (r: bool)
        ensures
            r == is_supported_stablecoin_spec(token_address@),
    {
        let lower = to_lowercase(token_address);
        Self::is_supported_stablecoin_lowercased(lower.as_str())
    }

    /// Whether a lowercased token address is a supported stablecoin: it
    /// mentions `usdc` or `usdt`, or is one of their known contract addresses.
    pub fn is_supported_stablecoin_lowercased(l: &str) -> (r: bool)
        ensures
            r == is_stablecoin_text(l@),
    {
        contains(l, "usdc") || contains(l, "usdt") || str_eq(
            l,
            "0xa0b86991c6218b36c1d19d4a2e9eb0ce3606eb48",
        ) || str_eq(l, "0xdac17f958d2ee523a2206206994597c13d831ec7") || str_eq(
            l,
            "0x2791bca1f2de4661ed88a30c99a7a9449aa84174",
        ) || str_eq(l, "0xc2132d05d31c914a87c6611c10748aeb04b58e8f") || str_eq(
            l,
            "0xff970a61a04b1ca14834a43f5de4533ebddb5cc8",
        ) || str_eq(l, "0xfd086bc7cd5c481dcc9c85ebe478a1c0b69fcbb9")
    }

    /// The stablecoin a token address stands for: USDC where it mentions
    /// `usdc` in any case, else USDT.
    pub fn token_symbol(token_address: &str) -> (r: &'static str)
        ensures
            r@ == token_symbol_spec(token_address@),
    {
        let lower = to_lowercase(token_address);
        Self::token_symbol_lowercased(lower.as_str())
    }

    /// The stablecoin a lowercased token address stands for: USDC where it
    /// mentions `usdc`, else USDT.
    pub fn token_symbol_lowercased(lower: &str) -> (r: &'static str)
        ensures
            r@ == symbol_of_lowercased(lower@),
    {
        if contains(lower, "usdc") {
            "USDC"
        } else {
            "USDT"
        }
    }

    /// Routes and prices a fee quote: both chains must be supported, the token
    /// a supported stablecoin and the amount a positive number.
    pub fn plan_bridge_fee(&self, transfer: &BridgeTransferRequest, amount: AmountCheck) -> (r:
        Result<FeeRoute, AllbridgeError>)
        ensures
            !names_a_chain(self.supported_chains@, transfer.source_chain@) ==> is_unsupported_chain(
                r,
                transfer.source_chain@,
            ),
            names_a_chain(self.supported_chains@, transfer.source_chain@) && !names_a_chain(
                self.supported_chains@,
                transfer.destination_chain@,
            ) ==> is_unsupported_chain(r, transfer.destination_chain@),
            names_a_chain(self.supported_chains@, transfer.source_chain@) && names_a_chain(
                self.supported_chains@,
                transfer.destination_chain@,
            ) ==> {
                if !is_supported_stablecoin_spec(transfer.token_address@) {
                    is_unsupported_token(r, transfer.token_address@)
                } else if amount == AmountCheck::NotANumber {
                    is_invalid_request(r, "Amount must be a valid number"@)
                } else if amount == AmountCheck::NotPositive {
                    is_invalid_request(r, "Amount must be greater than zero"@)
                } else {
                    r matches Ok(route) && exists|i: int|
                        is_first_match(self.supported_chains@, transfer.source_chain@, i)
                            && route.gas_fee_micros == gas_fee_micros_for(
                            self.supported_chains@[i].allbridge_chain_symbol@,
                        ) && route.estimated_time == estimated_minutes(
                            self.supported_chains@[i].allbridge_chain_symbol@,
                            transfer.destination_chain@,
                        ) && route.token_symbol@ == token_symbol_spec(transfer.token_address@)
                }
            },
    {
        let source = self.validate_chain(transfer.source_chain.as_str())?;
        let _ = self.validate_chain(transfer.destination_chain.as_str())?;
        if !Self::is_supported_stablecoin(transfer.token_address.as_str()) {
            return Err(AllbridgeError::UnsupportedToken(transfer.token_address.clone()));
        }
        match amount {
            AmountCheck::NotANumber => {
                return Err(
                    AllbridgeError::InvalidRequest("Amount must be a valid number".to_owned()),
                );
            },
            AmountCheck::NotPositive => {
                return Err(
                    AllbridgeError::InvalidRequest("Amount must be greater than zero".to_owned()),
                );
            },
            AmountCheck::Positive => {},
        }
        let symbol = source.allbridge_chain_symbol.as_str();
        let gas_fee_micros: u64 = if str_eq(symbol, "ETH") {
            5_000_000
        } else if str_eq(symbol, "POL") {
            500_000
        } else if str_eq(symbol, "ARB") {
            1_000_000
        } else if str_eq(symbol, "STLR") {
            10_000
        } else {
            2_000_000
        };
        let destination = transfer.destination_chain.as_str();
        let estimated_time: u32 = if str_eq(symbol, "ETH") {
            15
        } else if str_eq(symbol, "STLR") {
            10
        } else if str_eq(destination, "ETH") {
            15
        } else if str_eq(destination, "STLR") {
            10
        } else {
            5
        };
        let token_symbol = Self::token_symbol(transfer.token_address.as_str());
        Ok(FeeRoute { gas_fee_micros, estimated_time, token_symbol })
    }

    /// Checks a transfer before it is sent: supported chains and token, a
    /// sender and a recipient, and a positive amount.
    pub fn check_transfer(&self, transfer: &BridgeTransfer, amount: AmountCheck) -> (r: Result<
        (),
        AllbridgeError,
    >)
        ensures
            ({
                let req = transfer.request;
                let chains = self.supported_chains@;
                if !names_a_chain(chains, req.source_chain@) {
                    is_unsupported_chain(r, req.source_chain@)
                } else if !names_a_chain(chains, req.destination_chain@) {
                    is_unsupported_chain(r, req.destination_chain@)
                } else if !is_supported_stablecoin_spec(req.token_address@) {
                    is_unsupported_token(r, req.token_address@)
                } else if transfer.sender@.len() == 0 {
                    is_invalid_request(r, "Sender address is required"@)
                } else if req.recipient@.len() == 0 {
                    is_invalid_request(r, "Recipient address is required"@)
                } else if amount == AmountCheck::NotANumber {
                    is_invalid_request(r, "Amount must be a valid number"@)
                } else if amount == AmountCheck::NotPositive {
                    is_invalid_request(r, "Amount must be greater than zero"@)
                } else {
                    r is Ok
                }
            }),
    {
        let _ = self.validate_chain(transfer.request.source_chain.as_str())?;
        let _ = self.validate_chain(transfer.request.destination_chain.as_str())?;
        if !Self::is_supported_stablecoin(transfer.request.token_address.as_str()) {
            return Err(AllbridgeError::UnsupportedToken(transfer.request.token_address.clone()));
        }
        if transfer.sender.as_str().unicode_len() == 0 {
            return Err(AllbridgeError::InvalidRequest("Sender address is required".to_owned()));
        }
        if transfer.request.recipient.as_str().unicode_len() == 0 {
            return Err(AllbridgeError::InvalidRequest("Recipient address is required".to_owned()));
        }
        match amount {
            AmountCheck::NotANumber => Err(
                AllbridgeError::InvalidRequest("Amount must be a valid number".to_owned()),
            ),
            AmountCheck::NotPositive => Err(
                AllbridgeError::InvalidRequest("Amount must be greater than zero".to_owned()),
            ),
            AmountCheck::Positive => Ok(()),
        }
    }

    /// Checks a liquidity request: the destination chain must be supported
    /// and the required amount a number. Gives the destination's bridge
    /// symbol.
    pub fn check_liquidity_request(&self, destination_chain: &str, required_is_number: bool) -> (r:
        Result<String, AllbridgeError>)
        ensures
            !names_a_chain(self.supported_chains@, destination_chain@) ==> is_unsupported_chain(
                r,
                destination_chain@,
            ),
            names_a_chain(self.supported_chains@, destination_chain@) && !required_is_number
                ==> is_invalid_request(r, "Invalid amount format"@),
            names_a_chain(self.supported_chains@, destination_chain@) && required_is_number
                ==> (r matches Ok(s) && exists|i: int|
                is_first_match(self.supported_chains@, destination_chain@, i) && s@
                    == self.supported_chains@[i].allbridge_chain_symbol@),
    {
        let c = self.validate_chain(destination_chain)?;
        if !required_is_number {
            return Err(AllbridgeError::InvalidRequest("Invalid amount format".to_owned()));
        }
        Ok(c.allbridge_chain_symbol.clone())
    }

    /// The liquidity text of the first pool for the token on the chain; `None`
    /// where there is no such pool or it states no liquidity (the transfer is
    /// then taken to be covered).
    pub fn find_pool_liquidity(pools: &Vec<PoolEntry>, chain_symbol: &str, token_symbol: &str) -> (r:
        Option<String>)
        ensures
            match r {
                Some(l) => pool_liquidity(pools@, chain_symbol@, token_symbol@) == Some(l@),
                None => pool_liquidity(pools@, chain_symbol@, token_symbol@) is None,
            },
    {
        let n = pools.len();
        let mut i: usize = 0;
        assert(pools@.subrange(0, n as int) =~= pools@);
        while i < n
            invariant
                n == pools@.len(),
                i <= n,
                pool_liquidity(pools@, chain_symbol@, token_symbol@) == pool_liquidity(
                    pools@.subrange(i as int, n as int),
                    chain_symbol@,
                    token_symbol@,
                ),
            decreases n - i,
        {
            let p = &pools[i];
            let ghost rest = pools@.subrange(i as int, n as int);
            assert(rest[0] == pools@[i as int]);
            assert(rest.drop_first() =~= pools@.subrange(i + 1, n as int));
            let chain_ok = match &p.chain_symbol {
                Some(c) => str_eq(c.as_str(), chain_symbol),
                None => false,
            };
            let token_ok = match &p.token_symbol {
                Some(t) => str_eq(t.as_str(), token_symbol),
                None => false,
            };
            if chain_ok && token_ok {
                return match &p.liquidity {
                    Some(l) => Some(l.clone()),
                    None => None,
                };
            }
            i = i + 1;
        }
        None
    }

    /// The transaction hash of a send answer: its `txHash` field where present,
    /// else its `transactionHash` field; it must be a string.
    pub fn pick_tx_hash(tx_hash: &JsonField, transaction_hash: &JsonField) -> (r: Result<
        String,
        AllbridgeError,
    >)
        ensures
            ({
                let field = if tx_hash is Missing {
                    *transaction_hash
                } else {
                    *tx_hash
                };
                match field {
                    JsonField::Text(s) => r matches Ok(h) && h@ == s@,
                    _ => r matches Err(AllbridgeError::TransferFailed(m)) && m@
                        == "No transaction hash in response"@,
                }
            }),
    {
        let field = match tx_hash {
            JsonField::Missing => transaction_hash,
            _ => tx_hash,
        };
        match field {
            JsonField::Text(s) => Ok(s.clone()),
            _ => Err(AllbridgeError::TransferFailed("No transaction hash in response".to_owned())),
        }
    }

    /// A status request needs a transaction hash.
    pub fn check_tx_hash(tx_hash: &str) -> (r: Result<(), AllbridgeError>)
        ensures
            r is Ok <==> tx_hash@.len() != 0,
            r is Err ==> is_invalid_request(r, "Transaction hash is required"@),
    {
        if tx_hash.unicode_len() == 0 {
            return Err(AllbridgeError::InvalidRequest("Transaction hash is required".to_owned()));
        }
        Ok(())
    }

    /// The status a transaction-status answer reports, from its `status` and
    /// `error` strings.
    pub fn status_from_response(status: Option<&str>, error: Option<&str>) -> (r: BridgeStatus)
        ensures
            bridge_status_text(r) == reported_status(
                match status {
                    Some(s) => Some(s@),
                    None => None,
                },
                match error {
                    Some(e) => Some(e@),
                    None => None,
                },
            ),
            (r is Failed) == (status_from_lower(
                lowercase(
                    match status {
                        Some(s) => s@,
                        None => "unknown"@,
                    },
                ),
                None,
            ).1 == 3),
            ({
                let lower = lowercase(
                    match status {
                        Some(s) => s@,
                        None => "unknown"@,
                    },
                );
                &&& (r is InProgress) == (lower == "in_progress"@ || lower == "processing"@ || lower
                    == "confirming"@)
                &&& (r is Completed) == (lower == "completed"@ || lower == "success"@ || lower
                    == "confirmed"@)
            }),
    {
        let text = match status {
            Some(s) => s,
            None => "unknown",
        };
        let lower = to_lowercase(text);
        Self::status_from_lowercased(lower.as_str(), error)
    }

    /// The status a lowercased status text reports, with the answer's `error`
    /// text as the reason of a failure (`unknown error` when missing).
    pub fn status_from_lowercased(l: &str, error: Option<&str>) -> (r: BridgeStatus)
        ensures
            bridge_status_text(r) == lowered_status_text(
                l@,
                match error {
                    Some(e) => Some(e@),
                    None => None,
                },
            ),
            (r is Failed) == (status_from_lower(l@, None).1 == 3),
            (r is Pending) == (l@ == "pending"@ || l@ == "initiated"@),
            (r is InProgress) == (l@ == "in_progress"@ || l@ == "processing"@ || l@
                == "confirming"@),
            (r is Completed) == (l@ == "completed"@ || l@ == "success"@ || l@ == "confirmed"@),
            (r is Failed) == (l@ == "failed"@ || l@ == "error"@ || l@ == "reverted"@),
            r matches BridgeStatus::Failed(reason) ==> reason@ == match error {
                Some(e) => e@,
                None => "unknown error"@,
            },
    {
        proof {
            lemma_status_words_distinct();
        }
        if str_eq(l, "pending") || str_eq(l, "initiated") {
            BridgeStatus::Pending
        } else if str_eq(l, "in_progress") || str_eq(l, "processing") || str_eq(l, "confirming") {
            BridgeStatus::InProgress
        } else if str_eq(l, "completed") || str_eq(l, "success") || str_eq(l, "confirmed") {
            BridgeStatus::Completed
        } else if str_eq(l, "failed") || str_eq(l, "error") || str_eq(l, "reverted") {
            let reason = match error {
                Some(e) => e.to_owned(),
                None => "unknown error".to_owned(),
            };
            BridgeStatus::Failed(reason)
        } else {
            BridgeStatus::Unknown
        }
    }

    /// The tokens of an API token list that are on `chain_symbol`, each marked
    /// as on `chain`; entries without a symbol are left out, a missing name or
    /// address reads as empty, and missing decimals as 6.
    pub fn tokens_for_chain(raw: &Vec<RawToken>, chain_symbol: &str, chain: &str) -> (r: Vec<
        TokenInfo,
    >)
        ensures
            r@.map_values(|t: TokenInfo| token_view(t)) == tokens_from_raw(
                raw@,
                chain_symbol@,
                chain@,
            ),
    {
        let mut out: Vec<TokenInfo> = Vec::new();
        let n = raw.len();
        let mut i: usize = 0;
        while i < n
            invariant
                n == raw@.len(),
                i <= n,
                out@.map_values(|t: TokenInfo| token_view(t)) == tokens_from_raw(
                    raw@.take(i as int),
                    chain_symbol@,
                    chain@,
                ),
            decreases n - i,
        {
            let t = &raw[i];
            proof {
                assert(raw@.take(i + 1).drop_last() =~= raw@.take(i as int));
                assert(raw@.take(i + 1).last() == raw@[i as int]);
            }
            let ghost before = out@;
            let on_chain = match &t.chain_symbol {
                Some(cs) => str_eq(cs.as_str(), chain_symbol),
                None => false,
            };
            if on_chain {
                match &t.symbol {
                    Some(symbol) => {
                        let name = match &t.name {
                            Some(n) => n.clone(),
                            None => String::new(),
                        };
                        let address = match &t.token_address {
                            Some(a) => a.clone(),
                            None => String::new(),
                        };
                        let decimals: u8 = match t.decimals {
                            Some(d) => d as u8,
                            None => 6,
                        };
                        out.push(
                            TokenInfo {
                                symbol: symbol.clone(),
                                name,
                                address,
                                chain: chain.to_owned(),
                                decimals,
                                is_supported: true,
                            },
                        );
                        proof {
                            assert(out@.map_values(|t: TokenInfo| token_view(t)) =~= before.map_values(
                                |t: TokenInfo| token_view(t),
                            ).push(token_view(out@.last())));
                        }
                    },
                    None => {},
                }
            }
            i = i + 1;
        }
        assert(raw@.take(n as int) =~= raw@);
        out
    }

    /// The built-in token list of a chain symbol, marked as on `chain`.
    pub fn default_tokens_for_chain(chain_symbol: &str, chain: &str) -> (r: Vec<TokenInfo>)
        ensures
            r@.map_values(|t: TokenInfo| token_view(t)) == default_tokens(chain_symbol@, chain@),
    {
        let mut out: Vec<TokenInfo> = Vec::new();
        if str_eq(chain_symbol, "ETH") {
            out.push(token("USDC", "USD Coin", "0xA0b86991c6218b36c1d19D4a2e9Eb0cE3606eB48", chain, 6));
            out.push(
                token("USDT", "Tether USD", "0xdAC17F958D2ee523a2206206994597C13D831ec7", chain, 6),
            );
        } else if str_eq(chain_symbol, "POL") {
            out.push(token("USDC", "USD Coin", "0x2791Bca1f2de4661ED88A30C99A7a9449Aa84174", chain, 6));
            out.push(
                token("USDT", "Tether USD", "0xc2132D05D31c914a87C6611C10748AEb04B58e8F", chain, 6),
            );
        } else if str_eq(chain_symbol, "ARB") {
            out.push(token("USDC", "USD Coin", "0xFF970A61A04b1cA14834A43f5dE4533eBDDB5CC8", chain, 6));
            out.push(
                token("USDT", "Tether USD", "0xFd086bC7CD5C481DCC9C85ebE478A1C0b69FCbb9", chain, 6),
            );
        } else if str_eq(chain_symbol, "STLR") {
            out.push(token("USDC", "USD Coin", "USDC", chain, 7));
        }
        assert(out@.map_values(|t: TokenInfo| token_view(t)) =~= default_tokens(
            chain_symbol@,
            chain@,
        ));
        out
    }

    /// The tokens of a supported chain: from the API's token list when it
    /// could be fetched, else from the built-in list.
    pub fn supported_tokens(
        chain_symbol: &str,
        chain: &str,
        fetched: Option<&Vec<RawToken>>,
    ) -> (r: Vec<TokenInfo>)
        ensures
            r@.map_values(|t: TokenInfo| token_view(t)) == match fetched {
                Some(raw) => tokens_from_raw(raw@, chain_symbol@, chain@),
                None => default_tokens(chain_symbol@, chain@),
            },
    {
        match fetched {
            Some(raw) => Self::tokens_for_chain(raw, chain_symbol, chain),
            None => Self::default_tokens_for_chain(chain_symbol, chain),
        }
    }

    /// All supported bridge routes: (from, to, tokens).
    pub fn get_supported_routes(&self) -> (r: Vec<(String, String, Vec<String>)>)
        ensures
            r@.map_values(|x: (String, String, Vec<String>)| route_view(x)) == supported_routes(),
    {
        let mut out: Vec<(String, String, Vec<String>)> = Vec::new();
        out.push(route("ethereum", "polygon", true));
        out.push(route("polygon", "ethereum", true));
        out.push(route("ethereum", "arbitrum", true));
        out.push(route("arbitrum", "ethereum", true));
        out.push(route("polygon", "arbitrum", true));
        out.push(route("arbitrum", "polygon", true));
        out.push(route("stellar", "ethereum", false));
        out.push(route("ethereum", "stellar", false));
        assert(out@.map_values(|x: (String, String, Vec<String>)| route_view(x))
            =~= supported_routes());
        out
    }
}

} // verus!
