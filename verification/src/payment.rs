use vstd::prelude::*;
use vstd::string::*;

use crate::text::{
    allowance_short_text, balance_short_text, debug_text, debug_texts, native_short_text,
    two_amounts_text, unsupported_output_error, unsupported_output_text,
};
use crate::types::{
    is_generic_err, BeepCoin, Coin, Config, ContractError, Cw20Standing, Env, ExpectedToken,
    IntentType, MessageInfo, StdError, TransferMsg,
};

verus! {

/// Whether a list of strings holds one with the given text.
pub open spec fn texts_contain(list: Seq<String>, t: Seq<char>) -> bool {
    exists|i: int| 0 <= i < list.len() && #[trigger] list[i]@ == t
}

/// Whether `list` holds a string equal to `t`.
pub fn list_contains(list: &Vec<String>, t: &String) -> (r: bool)
    ensures
        r == texts_contain(list@, t@),
{
    let mut i: usize = 0;
    while i < list.len()
        invariant
            i <= list.len(),
            forall|j: int| 0 <= j < i ==> #[trigger] list@[j]@ != t@,
        decreases list.len() - i,
    {
        if list[i] == *t {
            return true;
        }
        i = i + 1;
    }
    false
}

/// The amount of the first sent coin of the given denomination, or zero.
pub open spec fn sent_amount(funds: Seq<Coin>, denom: Seq<char>) -> u128
    decreases funds.len(),
{
    if funds.len() == 0 {
        0
    } else if funds[0].denom@ == denom {
        funds[0].amount
    } else {
        sent_amount(funds.drop_first(), denom)
    }
}

/// The amount of the first sent coin of the given denomination, or zero.
pub fn sent_native_amount(funds: &Vec<Coin>, denom: &String) -> (r: u128)
    ensures
        r == sent_amount(funds@, denom@),
{
    let mut i: usize = 0;
    assert(funds@.skip(0) == funds@);
    while i < funds.len()
        invariant
            i <= funds.len(),
            sent_amount(funds@, denom@) == sent_amount(funds@.skip(i as int), denom@),
        decreases funds.len() - i,
    {
        assert(funds@.skip(i as int)[0] == funds@[i as int]);
        assert(funds@.skip(i as int).drop_first() == funds@.skip(i + 1));
        if funds[i].denom == *denom {
            return funds[i].amount;
        }
        i = i + 1;
    }
    0
}

/// How one required payment fares.
pub enum PaymentVerdict {
    Accepted,
    /// The token is not among the supported tokens.
    Unsupported,
    /// Fewer native coins were sent than required.
    NativeShort { sent: u128 },
    /// The balance query failed.
    BalanceUnknown,
    /// The sender holds fewer tokens than required.
    BalanceShort { balance: u128 },
    /// The allowance query failed.
    AllowanceUnknown,
    /// The sender allows the escrow fewer tokens than required.
    AllowanceShort { allowance: u128 },
}

/// How a payment of `amount` of `token` fares, given the sent coins and, for a token
/// contract, what it answered about the sender.
pub open spec fn payment_verdict(
    funds: Seq<Coin>,
    token: Seq<char>,
    amount: u128,
    is_native: bool,
    standing: Cw20Standing,
) -> PaymentVerdict {
    if is_native {
        if sent_amount(funds, token) < amount {
            PaymentVerdict::NativeShort { sent: sent_amount(funds, token) }
        } else {
            PaymentVerdict::Accepted
        }
    } else {
        match standing.balance {
            Err(_) => PaymentVerdict::BalanceUnknown,
            Ok(balance) => if balance < amount {
                PaymentVerdict::BalanceShort { balance }
            } else {
                match standing.allowance {
                    Err(_) => PaymentVerdict::AllowanceUnknown,
                    Ok(allowance) => if allowance < amount {
                        PaymentVerdict::AllowanceShort { allowance }
                    } else {
                        PaymentVerdict::Accepted
                    },
                }
            },
        }
    }
}

/// How a coin that must be supported and paid fares.
pub open spec fn coin_verdict(
    supported: Seq<String>,
    funds: Seq<Coin>,
    coin: BeepCoin,
    standing: Cw20Standing,
) -> PaymentVerdict {
    if !texts_contain(supported, coin.token@) {
        PaymentVerdict::Unsupported
    } else {
        payment_verdict(funds, coin.token@, coin.amount, coin.is_native, standing)
    }
}

/// The error that a rejected payment of `amount` is answered with.
pub open spec fn verdict_error(
    e: StdError,
    v: PaymentVerdict,
    amount: u128,
    standing: Cw20Standing,
) -> bool {
    match v {
        PaymentVerdict::Accepted => false,
        PaymentVerdict::Unsupported => is_generic_err(e, "Unsupported token: {}"@),
        PaymentVerdict::NativeShort { sent } => is_generic_err(e, native_short_text(amount, sent)),
        PaymentVerdict::BalanceUnknown => standing.balance == Err::<u128, StdError>(e),
        PaymentVerdict::BalanceShort { balance } => is_generic_err(
            e,
            balance_short_text(amount, balance),
        ),
        PaymentVerdict::AllowanceUnknown => standing.allowance == Err::<u128, StdError>(e),
        PaymentVerdict::AllowanceShort { allowance } => is_generic_err(
            e,
            allowance_short_text(amount, allowance),
        ),
    }
}

/// Verdicts of coins that must be supported and paid, one per coin.
pub open spec fn listed_verdicts(
    supported: Seq<String>,
    funds: Seq<Coin>,
    coins: Seq<BeepCoin>,
    standings: Seq<Cw20Standing>,
) -> Seq<PaymentVerdict> {
    Seq::new(coins.len(), |i: int| coin_verdict(supported, funds, coins[i], standings[i]))
}

/// Verdicts of coins that must be paid, one per coin.
pub open spec fn paid_verdicts(
    funds: Seq<Coin>,
    coins: Seq<BeepCoin>,
    standings: Seq<Cw20Standing>,
) -> Seq<PaymentVerdict> {
    Seq::new(
        coins.len(),
        |i: int|
            payment_verdict(funds, coins[i].token@, coins[i].amount, coins[i].is_native, standings[i]),
    )
}

pub open spec fn all_accepted(verdicts: Seq<PaymentVerdict>) -> bool {
    forall|i: int| 0 <= i < verdicts.len() ==> #[trigger] verdicts[i] == PaymentVerdict::Accepted
}

/// `e` is the error of the first rejected payment.
pub open spec fn first_rejection(
    e: StdError,
    verdicts: Seq<PaymentVerdict>,
    coins: Seq<BeepCoin>,
    standings: Seq<Cw20Standing>,
) -> bool {
    exists|i: int|
        0 <= i < verdicts.len() && (forall|j: int|
            0 <= j < i ==> #[trigger] verdicts[j] == PaymentVerdict::Accepted)
            && #[trigger] verdicts[i] != PaymentVerdict::Accepted && verdict_error(
            e,
            verdicts[i],
            coins[i].amount,
            standings[i],
        )
}

/// The message that pulls `coin` from `owner` to `recipient` (token contracts only).
pub open spec fn pull_msg(coin: BeepCoin, owner: String, recipient: String) -> TransferMsg {
    TransferMsg::Cw20TransferFrom {
        contract_addr: coin.token,
        owner: owner,
        recipient: recipient,
        amount: coin.amount,
    }
}

/// The pulls of the token-contract coins of a list, in order.
pub open spec fn cw20_pulls(coins: Seq<BeepCoin>, owner: String, recipient: String) -> Seq<
    TransferMsg,
>
    decreases coins.len(),
{
    if coins.len() == 0 {
        Seq::empty()
    } else {
        let rest = cw20_pulls(coins.drop_last(), owner, recipient);
        if coins.last().is_native {
            rest
        } else {
            rest.push(pull_msg(coins.last(), owner, recipient))
        }
    }
}

/// The message that pays `amount` of `token` from the escrow to `to`.
pub open spec fn payout_msg(token: String, is_native: bool, amount: u128, to: String) -> TransferMsg {
    if is_native {
        TransferMsg::BankSend { to_address: to, denom: token, amount: amount }
    } else {
        TransferMsg::Cw20Transfer { contract_addr: token, recipient: to, amount: amount }
    }
}

/// Pays `amount` of token contract `token_address` from the escrow to `to`.
pub fn add_cw20_transfer_msg(token_address: &String, to: &String, amount: u128) -> (m: TransferMsg)
    ensures
        m == (TransferMsg::Cw20Transfer {
            contract_addr: *token_address,
            recipient: *to,
            amount: amount,
        }),
{
    TransferMsg::Cw20Transfer {
        contract_addr: token_address.clone(),
        recipient: to.clone(),
        amount: amount,
    }
}

/// Pays `amount` of native coin `denom` from the escrow to `to`.
pub fn add_native_transfer_msg(denom: &String, to: &String, amount: u128) -> (m: TransferMsg)
    ensures
        m == (TransferMsg::BankSend { to_address: *to, denom: *denom, amount: amount }),
{
    TransferMsg::BankSend { to_address: to.clone(), denom: denom.clone(), amount: amount }
}

/// Pays `amount` of `token`, native or not, from the escrow to `to`.
pub fn payout(token: &String, is_native: bool, amount: u128, to: &String) -> (m: TransferMsg)
    ensures
        m == payout_msg(*token, is_native, amount, *to),
{
    if is_native {
        add_native_transfer_msg(token, to, amount)
    } else {
        add_cw20_transfer_msg(token, to, amount)
    }
}

/// Checks that at least `required_amount` native coins of `denom` came with the
/// message.
pub fn validate_native_token_payment(info: &MessageInfo, denom: &String, required_amount: u128) -> (res:
    Result<(), StdError>)
    ensures
        res is Ok <==> sent_amount(info.funds@, denom@) >= required_amount,
        res matches Err(e) ==> is_generic_err(
            e,
            native_short_text(required_amount, sent_amount(info.funds@, denom@)),
        ),
{
    let sent = sent_native_amount(&info.funds, denom);
    if sent < required_amount {
        return Err(
            StdError::GenericErr {
                msg: two_amounts_text(
                    "Insufficient native token sent. Required: ",
                    required_amount,
                    ", Sent: ",
                    sent,
                ),
            },
        );
    }
    Ok(())
}

/// Whether the allowance answer is consulted for a payment of `required`: only when
/// the balance query succeeded with at least that amount.
pub open spec fn allowance_consulted(balance: Result<u128, StdError>, required: u128) -> bool {
    balance matches Ok(b) && b >= required
}

/// Whether the allowance must still be asked for, given the balance answer; the host
/// makes the allowance query only then.
pub fn allowance_needed(balance: &Result<u128, StdError>, required: u128) -> (r: bool)
    ensures
        r == allowance_consulted(*balance, required),
{
    match balance {
        Ok(b) => *b >= required,
        Err(_) => false,
    }
}

/// Checks, from what the token contract answered, that the sender holds and allows
/// at least `required_amount`, and gives the message that pulls it to the escrow.
pub fn validate_cw20_token_payment(
    env: &Env,
    info: &MessageInfo,
    token_address: &String,
    required_amount: u128,
    standing: &Cw20Standing,
) -> (res: Result<TransferMsg, StdError>)
    ensures
        ({
            let v = payment_verdict(info.funds@, token_address@, required_amount, false, *standing);
            &&& res is Ok <==> v == PaymentVerdict::Accepted
            &&& res matches Ok(m) ==> m == (TransferMsg::Cw20TransferFrom {
                contract_addr: *token_address,
                owner: info.sender,
                recipient: env.contract_address,
                amount: required_amount,
            })
            &&& res matches Err(e) ==> verdict_error(e, v, required_amount, *standing)
        }),
{
    let balance = match &standing.balance {
        Err(e) => {
            return Err(e.duplicate());
        },
        Ok(b) => *b,
    };
    if balance < required_amount {
        return Err(
            StdError::GenericErr {
                msg: two_amounts_text(
                    "Insufficient CW20 token balance. Required: ",
                    required_amount,
                    ", Balance: ",
                    balance,
                ),
            },
        );
    }
    let allowance = match &standing.allowance {
        Err(e) => {
            return Err(e.duplicate());
        },
        Ok(a) => *a,
    };
    if allowance < required_amount {
        return Err(
            StdError::GenericErr {
                msg: two_amounts_text(
                    "Insufficient CW20 token allowance. Required: ",
                    required_amount,
                    ", Allowance: ",
                    allowance,
                ),
            },
        );
    }
    Ok(
        TransferMsg::Cw20TransferFrom {
            contract_addr: token_address.clone(),
            owner: info.sender.clone(),
            recipient: env.contract_address.clone(),
            amount: required_amount,
        },
    )
}

/// Checks that every coin is a supported token and is paid, and gives the messages
/// that pull the token-contract coins to the escrow.  `standings[i]` is what the
/// token contract of `input_tokens[i]` answered (ignored for native coins).
pub fn validate_tokens(
    config: &Config,
    env: &Env,
    info: &MessageInfo,
    input_tokens: &Vec<BeepCoin>,
    standings: &Vec<Cw20Standing>,
) -> (res: Result<Vec<TransferMsg>, ContractError>)
    requires
        standings@.len() == input_tokens@.len(),
    ensures
        ({
            let v = listed_verdicts(
                config.supported_tokens@,
                info.funds@,
                input_tokens@,
                standings@,
            );
            &&& res is Ok <==> all_accepted(v)
            &&& res matches Ok(msgs) ==> msgs@ == cw20_pulls(
                input_tokens@,
                info.sender,
                env.contract_address,
            )
            &&& res matches Err(ContractError::Std(e)) ==> first_rejection(
                e,
                v,
                input_tokens@,
                standings@,
            )
        }),
{
    let ghost v = listed_verdicts(config.supported_tokens@, info.funds@, input_tokens@, standings@);
    let mut msgs: Vec<TransferMsg> = Vec::new();
    let mut i: usize = 0;
    while i < input_tokens.len()
        invariant
            i <= input_tokens@.len(),
            standings@.len() == input_tokens@.len(),
            v == listed_verdicts(config.supported_tokens@, info.funds@, input_tokens@, standings@),
            forall|j: int| 0 <= j < i ==> #[trigger] v[j] == PaymentVerdict::Accepted,
            msgs@ == cw20_pulls(input_tokens@.take(i as int), info.sender, env.contract_address),
        decreases input_tokens.len() - i,
    {
        let token = &input_tokens[i];
        assert(input_tokens@.take(i + 1).drop_last() == input_tokens@.take(i as int));
        assert(input_tokens@.take(i + 1).last() == input_tokens@[i as int]);
        if !list_contains(&config.supported_tokens, &token.token) {
            let e = StdError::GenericErr { msg: String::from_str("Unsupported token: {}") };
            assert(verdict_error(e, v[i as int], token.amount, standings@[i as int]));
            return Err(ContractError::Std(e));
        }
        if token.is_native {
            match validate_native_token_payment(info, &token.token, token.amount) {
                Err(e) => {
                    assert(verdict_error(e, v[i as int], token.amount, standings@[i as int]));
                    return Err(ContractError::Std(e));
                },
                Ok(()) => {},
            }
        } else {
            match validate_cw20_token_payment(env, info, &token.token, token.amount, &standings[i]) {
                Err(e) => {
                    assert(verdict_error(e, v[i as int], token.amount, standings@[i as int]));
                    return Err(ContractError::Std(e));
                },
                Ok(m) => {
                    msgs.push(m);
                },
            }
        }
        i = i + 1;
    }
    assert(input_tokens@.take(input_tokens.len() as int) == input_tokens@);
    Ok(msgs)
}

/// The tokens that an intent of the given type expects.
pub open spec fn expected_outputs(intent_type: IntentType) -> Seq<ExpectedToken> {
    match intent_type {
        IntentType::Swap { output_tokens } => output_tokens@,
    }
}

/// Whether every expected output of an intent is a supported token.
pub open spec fn outputs_supported(intent_type: IntentType, supported: Seq<String>) -> bool {
    forall|i: int|
        0 <= i < expected_outputs(intent_type).len() ==> texts_contain(
            supported,
            #[trigger] expected_outputs(intent_type)[i].token@,
        )
}

/// `e` is the error for the first expected output that is not a supported token.
pub open spec fn first_unsupported_output(
    e: StdError,
    intent_type: IntentType,
    supported: Seq<String>,
) -> bool {
    exists|i: int|
        0 <= i < expected_outputs(intent_type).len() && (forall|j: int|
            0 <= j < i ==> texts_contain(
                supported,
                #[trigger] expected_outputs(intent_type)[j].token@,
            )) && !texts_contain(supported, #[trigger] expected_outputs(intent_type)[i].token@)
            && is_generic_err(
            e,
            unsupported_output_text(
                debug_text(expected_outputs(intent_type)[i].token@),
                debug_texts(supported),
            ),
        )
}

/// Checks that every token that the intent expects is supported.
pub fn validate_intent_type(intent_type: &IntentType, config: &Config) -> (res: Result<(), StdError>)
    ensures
        res is Ok <==> outputs_supported(*intent_type, config.supported_tokens@),
        res matches Err(e) ==> first_unsupported_output(e, *intent_type, config.supported_tokens@),
{
    match intent_type {
        IntentType::Swap { output_tokens } => {
            let mut i: usize = 0;
            while i < output_tokens.len()
                invariant
                    i <= output_tokens@.len(),
                    output_tokens@ == expected_outputs(*intent_type),
                    forall|j: int|
                        0 <= j < i ==> texts_contain(
                            config.supported_tokens@,
                            #[trigger] output_tokens@[j].token@,
                        ),
                decreases output_tokens.len() - i,
            {
                if !list_contains(&config.supported_tokens, &output_tokens[i].token) {
                    let msg = unsupported_output_error(
                        &output_tokens[i].token,
                        &config.supported_tokens,
                    );
                    return Err(StdError::GenericErr { msg });
                }
                i = i + 1;
            }
            Ok(())
        },
    }
}

} // verus!
