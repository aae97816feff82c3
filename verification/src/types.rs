use vstd::prelude::*;

verus! {

/// Error raised by the chain's standard library, as far as this escrow produces or
/// passes it on.
#[derive(Debug, Clone, PartialEq, Eq)]
pub enum StdError {
    /// An error with a free-form message.
    GenericErr { msg: String },
    /// A stored item that was looked up and is missing.
    NotFound { kind: String },
    /// A value that could not be decoded.
    ParseErr { target_type: String, msg: String },
    /// A value that could not be encoded.
    SerializeErr { source_type: String, msg: String },
}

impl StdError {
    /// A copy of this error.
    pub fn duplicate(&self) -> (r: StdError)
        ensures
            r == *self,
    {
        match self {
            StdError::GenericErr { msg } => StdError::GenericErr { msg: msg.clone() },
            StdError::NotFound { kind } => StdError::NotFound { kind: kind.clone() },
            StdError::ParseErr { target_type, msg } => StdError::ParseErr {
                target_type: target_type.clone(),
                msg: msg.clone(),
            },
            StdError::SerializeErr { source_type, msg } => StdError::SerializeErr {
                source_type: source_type.clone(),
                msg: msg.clone(),
            },
        }
    }
}

/// The escrow's own error type; standard errors are wrapped in it.
#[derive(Debug, Clone, PartialEq, Eq)]
pub enum ContractError {
    Std(StdError),
}

/// A token amount locked in or paid out of the escrow.
#[derive(Debug, Clone, PartialEq, Eq)]
pub struct BeepCoin {
    /// Denomination of a native coin, or the address of a token contract.
    pub token: String,
    pub amount: u128,
    pub is_native: bool,
}

impl BeepCoin {
    /// A copy of this coin.
    pub fn duplicate(&self) -> (r: BeepCoin)
        ensures
            r == *self,
    {
        BeepCoin { token: self.token.clone(), amount: self.amount, is_native: self.is_native }
    }
}

/// A token that the creator of an intent expects to receive.
#[derive(Debug, Clone, PartialEq, Eq)]
pub struct ExpectedToken {
    pub token: String,
    pub is_native: bool,
    pub amount: u128,
    /// Where the token goes; the creator when absent.
    pub target_address: Option<String>,
}

/// What an intent asks for.
#[derive(Debug, Clone, PartialEq, Eq)]
pub enum IntentType {
    Swap { output_tokens: Vec<ExpectedToken> },
}

#[derive(Debug, Clone, Copy, PartialEq, Eq, Structural)]
pub enum IntentStatus {
    Active,
    Completed,
    Expired,
}

/// An intent as it is stored.
#[derive(Debug, Clone, PartialEq, Eq)]
pub struct Intent {
    pub id: String,
    pub creator: String,
    pub input_tokens: Vec<BeepCoin>,
    pub intent_type: IntentType,
    pub executor: Option<String>,
    pub status: IntentStatus,
    pub created_at: u64,
    pub timeout: u64,
    pub tip: BeepCoin,
}

/// The escrow's configuration.
#[derive(Debug, Clone, PartialEq, Eq)]
pub struct Config {
    pub admin: String,
    pub supported_tokens: Vec<String>,
    pub default_timeout_height: u64,
    pub supported_protocols: Vec<String>,
}

/// A native coin sent along with a message.
#[derive(Debug, Clone, PartialEq, Eq)]
pub struct Coin {
    pub denom: String,
    pub amount: u128,
}

/// Who sent the message, and which native coins came with it.
#[derive(Debug, Clone, PartialEq, Eq)]
pub struct MessageInfo {
    pub sender: String,
    pub funds: Vec<Coin>,
}

/// The block the message runs in, and the escrow's own address.
#[derive(Debug, Clone, PartialEq, Eq)]
pub struct Env {
    pub block_height: u64,
    /// Block time in nanoseconds since the epoch.
    pub block_time_nanos: u64,
    pub contract_address: String,
}

/// What a token contract answered about the sender: the sender's balance, and how
/// much the sender allows the escrow to take.  Each answer is the query's result.
#[derive(Debug, PartialEq, Eq)]
pub struct Cw20Standing {
    pub balance: Result<u128, StdError>,
    pub allowance: Result<u128, StdError>,
}

impl Cw20Standing {
    /// A copy of these answers.
    pub fn duplicate(&self) -> (r: Cw20Standing)
        ensures
            r == *self,
    {
        let balance = match &self.balance {
            Ok(b) => Ok(*b),
            Err(e) => Err(e.duplicate()),
        };
        let allowance = match &self.allowance {
            Ok(a) => Ok(*a),
            Err(e) => Err(e.duplicate()),
        };
        Cw20Standing { balance, allowance }
    }
}

/// A transfer that the escrow asks the chain to perform.
#[derive(Debug, Clone, PartialEq, Eq)]
pub enum TransferMsg {
    /// Send native coins from the escrow.
    BankSend { to_address: String, denom: String, amount: u128 },
    /// Send tokens of a token contract from the escrow.
    Cw20Transfer { contract_addr: String, recipient: String, amount: u128 },
    /// Pull tokens of a token contract from `owner` (who allowed it) to `recipient`.
    Cw20TransferFrom { contract_addr: String, owner: String, recipient: String, amount: u128 },
}

#[derive(Debug, Clone, PartialEq, Eq)]
pub struct Attribute {
    pub key: String,
    pub value: String,
}

/// The transfers and the event attributes that an operation answers with.
#[derive(Debug, Clone, PartialEq, Eq)]
pub struct Response {
    pub messages: Vec<TransferMsg>,
    pub attributes: Vec<Attribute>,
}

#[derive(Debug, Clone, PartialEq, Eq)]
pub struct InstantiateMsg {
    pub supported_tokens: Vec<String>,
    pub default_timeout_height: u64,
    pub supported_protocols: Vec<String>,
}

#[derive(Debug, Clone, PartialEq, Eq)]
pub struct ConfigResponse {
    pub admin: String,
    pub supported_tokens: Vec<String>,
    pub default_timeout_height: u64,
    pub supported_protocols: Vec<String>,
}

#[derive(Debug, Clone, PartialEq, Eq)]
pub struct IntentResponse {
    pub intent: Intent,
}

#[derive(Debug, Clone, PartialEq, Eq)]
pub struct IntentsResponse {
    pub intents: Vec<Intent>,
}

#[derive(Debug, Clone, PartialEq, Eq)]
pub struct UserNonceResponse {
    pub nonce: u128,
}

/// An attribute with the given key and value, by their text.
pub open spec fn attr_is(a: Attribute, key: Seq<char>, value: Seq<char>) -> bool {
    a.key@ == key && a.value@ == value
}

/// A standard error with a free-form message of the given text.
pub open spec fn is_generic_err(e: StdError, msg: Seq<char>) -> bool {
    e matches StdError::GenericErr { msg: m } && m@ == msg
}

/// A copy of a list of coins.
pub fn duplicate_coins(coins: &Vec<BeepCoin>) -> (r: Vec<BeepCoin>)
    ensures
        r@ == coins@,
{
    let mut r: Vec<BeepCoin> = Vec::new();
    let mut i: usize = 0;
    while i < coins.len()
        invariant
            i <= coins.len(),
            r@ == coins@.take(i as int),
        decreases coins.len() - i,
    {
        r.push(coins[i].duplicate());
        assert(coins@.take(i + 1) == coins@.take(i as int).push(coins@[i as int]));
        i = i + 1;
    }
    assert(coins@.take(coins.len() as int) == coins@);
    r
}

} // verus!
