use vstd::prelude::*;
use vstd::string::*;

use crate::admin::{attribute, attrs_are};
use crate::intent_id::{generate_intent_id, intent_id_text};
use crate::payment::{
    all_accepted, cw20_pulls, expected_outputs, first_rejection, first_unsupported_output,
    listed_verdicts, outputs_supported, paid_verdicts, payout, payout_msg,
    validate_cw20_token_payment, validate_intent_type, validate_native_token_payment,
    validate_tokens, verdict_error, PaymentVerdict,
};
use crate::text::{timestamp_string, timestamp_text};
use crate::types::{
    duplicate_coins, is_generic_err, Attribute, BeepCoin, Config, ContractError, Cw20Standing,
    Env, ExpectedToken, Intent, IntentStatus, IntentType, MessageInfo, Response, StdError,
    TransferMsg,
};

verus! {

/// The nonce that a creator's next intent uses: the stored one, or zero.
pub open spec fn nonce_or_zero(nonce: Option<u128>) -> u128 {
    match nonce {
        Some(n) => n,
        None => 0,
    }
}

/// The number of blocks an intent stays open: the given timeout, or the default.
pub open spec fn timeout_or_default(timeout: Option<u64>, default: u64) -> u64 {
    match timeout {
        Some(t) => t,
        None => default,
    }
}

/// Whether creating this intent would abort outright: its outputs are supported, but
/// the inputs or the tip are not supported or not paid, the timeout height
/// overflows, or the nonce cannot grow.
pub open spec fn create_intent_aborts(
    config: Config,
    nonce: Option<u128>,
    env: Env,
    info: MessageInfo,
    intent_type: IntentType,
    input_tokens: Seq<BeepCoin>,
    timeout: Option<u64>,
    tip: BeepCoin,
    input_standings: Seq<Cw20Standing>,
    tip_standing: Cw20Standing,
) -> bool {
    &&& outputs_supported(intent_type, config.supported_tokens@)
    &&& {
        ||| !all_accepted(
            listed_verdicts(config.supported_tokens@, info.funds@, input_tokens, input_standings),
        )
        ||| !all_accepted(
            listed_verdicts(
                config.supported_tokens@,
                info.funds@,
                seq![tip],
                seq![tip_standing],
            ),
        )
        ||| env.block_height + timeout_or_default(timeout, config.default_timeout_height)
            > u64::MAX
        ||| nonce_or_zero(nonce) == u128::MAX
    }
}

/// What creating an intent stores and answers.
pub struct IntentCreation {
    /// The new intent, stored under its id.
    pub intent: Intent,
    /// The coins held in escrow for the creator and this intent.
    pub escrow: Vec<BeepCoin>,
    /// The creator's next nonce.
    pub nonce: u128,
    pub response: Response,
}

/// Whether creating this intent would abort outright (see `create_intent_aborts`).
pub fn create_intent_would_abort(
    config: &Config,
    nonce: Option<u128>,
    env: &Env,
    info: &MessageInfo,
    intent_type: &IntentType,
    input_tokens: &Vec<BeepCoin>,
    timeout: Option<u64>,
    tip: &BeepCoin,
    input_standings: &Vec<Cw20Standing>,
    tip_standing: &Cw20Standing,
) -> (r: bool)
    requires
        input_standings@.len() == input_tokens@.len(),
    ensures
        r == create_intent_aborts(
            *config,
            nonce,
            *env,
            *info,
            *intent_type,
            input_tokens@,
            timeout,
            *tip,
            input_standings@,
            *tip_standing,
        ),
{
    if validate_intent_type(intent_type, config).is_err() {
        return false;
    }
    if validate_tokens(config, env, info, input_tokens, input_standings).is_err() {
        return true;
    }
    let mut tips: Vec<BeepCoin> = Vec::new();
    tips.push(tip.duplicate());
    let mut tip_standings: Vec<Cw20Standing> = Vec::new();
    tip_standings.push(tip_standing.duplicate());
    assert(tips@ == seq![*tip]);
    assert(tip_standings@ == seq![*tip_standing]);
    if validate_tokens(config, env, info, &tips, &tip_standings).is_err() {
        return true;
    }
    let span = match timeout {
        Some(t) => t,
        None => config.default_timeout_height,
    };
    if env.block_height > u64::MAX - span {
        return true;
    }
    let n = match nonce {
        Some(n) => n,
        None => 0,
    };
    n == u128::MAX
}

/// The answer to creating an intent: a failed configuration load is passed on; an
/// intent expecting an unsupported token is refused with the error for the first
/// such token; otherwise the new intent is active, identified by the creator and
/// nonce, holds the inputs in escrow, advances the nonce, and pulls the token-contract
/// inputs and tip into the escrow.
pub open spec fn create_outcome(
    config: Result<Config, StdError>,
    nonce: Option<u128>,
    env: Env,
    info: MessageInfo,
    intent_type: IntentType,
    input_tokens: Vec<BeepCoin>,
    timeout: Option<u64>,
    tip: BeepCoin,
    res: Result<IntentCreation, StdError>,
) -> bool {
    match config {
        Err(e) => res == Err::<IntentCreation, StdError>(e),
        Ok(c) => if !outputs_supported(intent_type, c.supported_tokens@) {
            res matches Err(e) && first_unsupported_output(e, intent_type, c.supported_tokens@)
        } else {
            res matches Ok(created) && {
                let n = nonce_or_zero(nonce);
                let height = env.block_height;
                &&& created.intent == (Intent {
                    id: created.intent.id,
                    creator: info.sender,
                    input_tokens: input_tokens,
                    intent_type: intent_type,
                    executor: None,
                    status: IntentStatus::Active,
                    created_at: height,
                    timeout: (height + timeout_or_default(
                        timeout,
                        c.default_timeout_height,
                    )) as u64,
                    tip: tip,
                })
                &&& created.intent.id@ == intent_id_text(info.sender@, n)
                &&& created.intent.id@.len() == 46
                &&& created.escrow@ == input_tokens@
                &&& created.nonce == n + 1
                &&& created.response.messages@ == cw20_pulls(
                    input_tokens@,
                    info.sender,
                    env.contract_address,
                ) + cw20_pulls(seq![tip], info.sender, env.contract_address)
                &&& attrs_are(
                    created.response.attributes@,
                    seq![
                        ("action"@, "create_intent"@),
                        ("intent_id"@, created.intent.id@),
                        ("status"@, "active"@),
                        ("timestamp"@, timestamp_text(env.block_time_nanos)),
                    ],
                )
            }
        },
    }
}

/// Creates an intent: the creator's input tokens and tip are pulled into escrow, and
/// the intent is stored as active until `timeout` blocks (or the default) from now.
pub fn execute_create_intent(
    config: Result<Config, StdError>,
    nonce: Option<u128>,
    env: &Env,
    info: &MessageInfo,
    intent_type: IntentType,
    input_tokens: Vec<BeepCoin>,
    timeout: Option<u64>,
    tip: BeepCoin,
    input_standings: &Vec<Cw20Standing>,
    tip_standing: Cw20Standing,
) -> (res: Result<IntentCreation, StdError>)
    requires
        input_standings@.len() == input_tokens@.len(),
        config matches Ok(c) ==> !create_intent_aborts(
            c,
            nonce,
            *env,
            *info,
            intent_type,
            input_tokens@,
            timeout,
            tip,
            input_standings@,
            tip_standing,
        ),
    ensures
        create_outcome(config, nonce, *env, *info, intent_type, input_tokens, timeout, tip, res),
{
    let config = match config {
        Err(e) => {
            return Err(e);
        },
        Ok(c) => c,
    };
    let n = match nonce {
        Some(n) => n,
        None => 0,
    };
    let id = generate_intent_id(&info.sender, n);
    match validate_intent_type(&intent_type, &config) {
        Err(e) => {
            return Err(e);
        },
        Ok(()) => {},
    }
    let mut msgs = match validate_tokens(&config, env, info, &input_tokens, input_standings) {
        Ok(m) => m,
        Err(ContractError::Std(e)) => {
            proof {
                assert(false);
            }
            return Err(e);
        },
    };
    let mut tips: Vec<BeepCoin> = Vec::new();
    tips.push(tip.duplicate());
    let mut tip_standings: Vec<Cw20Standing> = Vec::new();
    tip_standings.push(tip_standing);
    assert(tips@ == seq![tip]);
    let mut tip_msgs = match validate_tokens(&config, env, info, &tips, &tip_standings) {
        Ok(m) => m,
        Err(ContractError::Std(e)) => {
            proof {
                assert(false);
            }
            return Err(e);
        },
    };
    msgs.append(&mut tip_msgs);
    let span = match timeout {
        Some(t) => t,
        None => config.default_timeout_height,
    };
    let escrow = duplicate_coins(&input_tokens);
    let intent = Intent {
        id: id.clone(),
        creator: info.sender.clone(),
        input_tokens,
        intent_type,
        executor: None,
        status: IntentStatus::Active,
        created_at: env.block_height,
        timeout: env.block_height + span,
        tip,
    };
    let mut attributes: Vec<Attribute> = Vec::new();
    attributes.push(attribute("action", String::from_str("create_intent")));
    attributes.push(attribute("intent_id", id));
    attributes.push(attribute("status", String::from_str("active")));
    attributes.push(attribute("timestamp", timestamp_string(env.block_time_nanos)));
    Ok(
        IntentCreation {
            intent,
            escrow,
            nonce: n + 1,
            response: Response { messages: msgs, attributes },
        },
    )
}


/// An expected output as a coin.
pub open spec fn expected_coin(e: ExpectedToken) -> BeepCoin {
    BeepCoin { token: e.token, amount: e.amount, is_native: e.is_native }
}

/// The expected outputs of an intent as coins.
pub open spec fn output_coins(intent_type: IntentType) -> Seq<BeepCoin> {
    expected_outputs(intent_type).map_values(|e: ExpectedToken| expected_coin(e))
}

/// Two coins of the same token, amount and kind.
pub open spec fn same_coin(a: BeepCoin, b: BeepCoin) -> bool {
    a.token@ == b.token@ && a.amount == b.amount && a.is_native == b.is_native
}

/// `pool` holds a coin like `coin`.
pub open spec fn has_like(pool: Seq<BeepCoin>, coin: BeepCoin) -> bool {
    exists|j: int| 0 <= j < pool.len() && same_coin(#[trigger] pool[j], coin)
}

/// Every coin of `needed` has a coin like it in `pool`.
pub open spec fn covers(pool: Seq<BeepCoin>, needed: Seq<BeepCoin>) -> bool {
    forall|k: int| 0 <= k < needed.len() ==> has_like(pool, #[trigger] needed[k])
}

/// Whether `pool` holds a coin like `coin`.
fn find_like(pool: &Vec<BeepCoin>, coin: &BeepCoin) -> (r: bool)
    ensures
        r == has_like(pool@, *coin),
{
    let mut j: usize = 0;
    while j < pool.len()
        invariant
            j <= pool@.len(),
            forall|q: int| 0 <= q < j ==> !same_coin(#[trigger] pool@[q], *coin),
        decreases pool.len() - j,
    {
        let a = &pool[j];
        if a.token == coin.token && a.amount == coin.amount && a.is_native == coin.is_native {
            return true;
        }
        j = j + 1;
    }
    false
}

/// Whether every coin of `needed` has a coin like it in `pool`.
pub fn escrow_covers(pool: &Vec<BeepCoin>, needed: &Vec<BeepCoin>) -> (r: bool)
    ensures
        r == covers(pool@, needed@),
{
    let mut k: usize = 0;
    while k < needed.len()
        invariant
            k <= needed@.len(),
            forall|m: int| 0 <= m < k ==> has_like(pool@, #[trigger] needed@[m]),
        decreases needed.len() - k,
    {
        if !find_like(pool, &needed[k]) {
            return false;
        }
        k = k + 1;
    }
    true
}

/// Checks that the executor paid every output of `intent_type`: native outputs by the
/// coins sent along, token-contract outputs by what the token contract answered
/// (`standings[i]` for output `i`); gives the messages that pull the token-contract
/// outputs to the escrow.
pub fn check_output_payments(
    env: &Env,
    info: &MessageInfo,
    intent_type: &IntentType,
    standings: &Vec<Cw20Standing>,
) -> (res: Result<Vec<TransferMsg>, StdError>)
    requires
        standings@.len() == expected_outputs(*intent_type).len(),
    ensures
        ({
            let coins = output_coins(*intent_type);
            let v = paid_verdicts(info.funds@, coins, standings@);
            &&& res is Ok <==> all_accepted(v)
            &&& res matches Ok(msgs) ==> msgs@ == cw20_pulls(
                coins,
                info.sender,
                env.contract_address,
            )
            &&& res matches Err(e) ==> first_rejection(e, v, coins, standings@)
        }),
{
    let ghost coins = output_coins(*intent_type);
    let ghost v = paid_verdicts(info.funds@, coins, standings@);
    match intent_type {
        IntentType::Swap { output_tokens } => {
            let mut msgs: Vec<TransferMsg> = Vec::new();
            let mut i: usize = 0;
            while i < output_tokens.len()
                invariant
                    i <= output_tokens@.len(),
                    output_tokens@ == expected_outputs(*intent_type),
                    coins == output_coins(*intent_type),
                    coins.len() == output_tokens@.len(),
                    standings@.len() == coins.len(),
                    v == paid_verdicts(info.funds@, coins, standings@),
                    forall|j: int| 0 <= j < i ==> #[trigger] v[j] == PaymentVerdict::Accepted,
                    msgs@ == cw20_pulls(coins.take(i as int), info.sender, env.contract_address),
                decreases output_tokens.len() - i,
            {
                let token = &output_tokens[i];
                assert(coins[i as int] == expected_coin(output_tokens@[i as int]));
                assert(coins.take(i + 1).drop_last() == coins.take(i as int));
                assert(coins.take(i + 1).last() == coins[i as int]);
                if token.is_native {
                    match validate_native_token_payment(info, &token.token, token.amount) {
                        Err(e) => {
                            assert(verdict_error(e, v[i as int], coins[i as int].amount, standings@[i as int]));
                            return Err(e);
                        },
                        Ok(()) => {},
                    }
                } else {
                    match validate_cw20_token_payment(
                        env,
                        info,
                        &token.token,
                        token.amount,
                        &standings[i],
                    ) {
                        Err(e) => {
                            assert(verdict_error(e, v[i as int], coins[i as int].amount, standings@[i as int]));
                            return Err(e);
                        },
                        Ok(m) => {
                            msgs.push(m);
                        },
                    }
                }
                i = i + 1;
            }
            assert(coins.take(output_tokens.len() as int) == coins);
            Ok(msgs)
        },
    }
}

/// Checks that the executor paid every output of `intent_type` (see
/// `check_output_payments`) and gives the messages that pull the token-contract
/// outputs to the escrow.  Whenever the outputs are paid, the executor's escrow
/// extended by the outputs must hold a coin like each input of the intent.
pub fn validate_filling(
    env: &Env,
    info: &MessageInfo,
    intent: &Intent,
    executor_escrow: &Vec<BeepCoin>,
    intent_type: &IntentType,
    standings: &Vec<Cw20Standing>,
) -> (res: Result<Vec<TransferMsg>, StdError>)
    requires
        standings@.len() == expected_outputs(*intent_type).len(),
        all_accepted(paid_verdicts(info.funds@, output_coins(*intent_type), standings@))
            ==> covers(executor_escrow@ + output_coins(*intent_type), intent.input_tokens@),
    ensures
        ({
            let coins = output_coins(*intent_type);
            let v = paid_verdicts(info.funds@, coins, standings@);
            &&& res is Ok <==> all_accepted(v)
            &&& res matches Ok(msgs) ==> msgs@ == cw20_pulls(
                coins,
                info.sender,
                env.contract_address,
            )
            &&& res matches Err(e) ==> first_rejection(e, v, coins, standings@)
            &&& res is Ok ==> covers(executor_escrow@ + coins, intent.input_tokens@)
        }),
{
    check_output_payments(env, info, intent_type, standings)
}

/// Payments of each coin of a list to `to`, in order.
pub open spec fn payouts(coins: Seq<BeepCoin>, to: String) -> Seq<TransferMsg> {
    Seq::new(
        coins.len(),
        |k: int| payout_msg(coins[k].token, coins[k].is_native, coins[k].amount, to),
    )
}

/// Who receives an expected output: its target, or the creator.
pub open spec fn output_recipient(e: ExpectedToken, creator: String) -> String {
    match e.target_address {
        Some(a) => a,
        None => creator,
    }
}

/// Payments of each expected output to its recipient, in order.
pub open spec fn output_payouts(outputs: Seq<ExpectedToken>, creator: String) -> Seq<TransferMsg> {
    Seq::new(
        outputs.len(),
        |k: int|
            payout_msg(
                outputs[k].token,
                outputs[k].is_native,
                outputs[k].amount,
                output_recipient(outputs[k], creator),
            ),
    )
}

/// Payments of each coin of a list to `to`, in order.
pub fn pay_all(coins: &Vec<BeepCoin>, to: &String) -> (r: Vec<TransferMsg>)
    ensures
        r@ == payouts(coins@, *to),
{
    let mut r: Vec<TransferMsg> = Vec::new();
    let mut i: usize = 0;
    while i < coins.len()
        invariant
            i <= coins@.len(),
            r@ == payouts(coins@.take(i as int), *to),
        decreases coins.len() - i,
    {
        r.push(payout(&coins[i].token, coins[i].is_native, coins[i].amount, to));
        assert(payouts(coins@.take(i + 1), *to) == payouts(coins@.take(i as int), *to).push(
            payout_msg(coins@[i as int].token, coins@[i as int].is_native, coins@[i as int].amount, *to),
        ));
        i = i + 1;
    }
    assert(coins@.take(coins.len() as int) == coins@);
    r
}

/// Whether filling this intent would abort outright: the intent is active, and the
/// executor has no escrow for it, or the outputs are paid but the executor's escrow
/// extended by the outputs lacks one of the intent's inputs.
pub open spec fn fill_intent_aborts(
    intent: Intent,
    executor_escrow: Result<Vec<BeepCoin>, StdError>,
    info: MessageInfo,
    intent_type: IntentType,
    standings: Seq<Cw20Standing>,
) -> bool {
    &&& intent.status == IntentStatus::Active
    &&& match executor_escrow {
        Err(_) => true,
        Ok(escrow) => all_accepted(paid_verdicts(info.funds@, output_coins(intent_type), standings))
            && !covers(escrow@ + output_coins(intent_type), intent.input_tokens@),
    }
}

/// The expected outputs of an intent as coins.
fn output_coin_list(intent_type: &IntentType) -> (r: Vec<BeepCoin>)
    ensures
        r@ == output_coins(*intent_type),
{
    match intent_type {
        IntentType::Swap { output_tokens } => {
            let mut r: Vec<BeepCoin> = Vec::new();
            let mut i: usize = 0;
            while i < output_tokens.len()
                invariant
                    i <= output_tokens@.len(),
                    output_tokens@ == expected_outputs(*intent_type),
                    r@ == output_coins(*intent_type).take(i as int),
                decreases output_tokens.len() - i,
            {
                let t = &output_tokens[i];
                r.push(BeepCoin { token: t.token.clone(), amount: t.amount, is_native: t.is_native });
                assert(output_coins(*intent_type).take(i + 1) == output_coins(*intent_type).take(
                    i as int,
                ).push(expected_coin(output_tokens@[i as int])));
                i = i + 1;
            }
            assert(output_coins(*intent_type).take(output_tokens.len() as int) == output_coins(
                *intent_type,
            ));
            r
        },
    }
}

/// Whether filling this intent would abort outright (see `fill_intent_aborts`).
pub fn fill_intent_would_abort(
    intent: &Intent,
    executor_escrow: &Result<Vec<BeepCoin>, StdError>,
    env: &Env,
    info: &MessageInfo,
    intent_type: &IntentType,
    standings: &Vec<Cw20Standing>,
) -> (r: bool)
    requires
        intent.status == IntentStatus::Active ==> standings@.len() == expected_outputs(
            *intent_type,
        ).len(),
    ensures
        r == fill_intent_aborts(*intent, *executor_escrow, *info, *intent_type, standings@),
{
    if intent.status != IntentStatus::Active {
        return false;
    }
    match executor_escrow {
        Err(_) => true,
        Ok(escrow) => {
            let mut pool = duplicate_coins(escrow);
            let mut outputs = output_coin_list(intent_type);
            pool.append(&mut outputs);
            let covered = escrow_covers(&pool, &intent.input_tokens);
            !covered && check_output_payments(env, info, intent_type, standings).is_ok()
        },
    }
}

/// An intent after `executor` filled it.
pub open spec fn filled_intent(i: Intent, executor: String) -> Intent {
    Intent { executor: Some(executor), status: IntentStatus::Completed, ..i }
}

/// An intent after its funds were withdrawn.
pub open spec fn expired_intent(i: Intent) -> Intent {
    Intent { status: IntentStatus::Expired, ..i }
}

/// What filling an intent stores and answers.
pub struct IntentFill {
    /// The intent, now completed by the executor.
    pub intent: Intent,
    pub response: Response,
}

/// Payments of each expected output to its recipient, in order.
fn pay_outputs(intent_type: &IntentType, creator: &String) -> (r: Vec<TransferMsg>)
    ensures
        r@ == output_payouts(expected_outputs(*intent_type), *creator),
{
    match intent_type {
        IntentType::Swap { output_tokens } => {
            let ghost outs = expected_outputs(*intent_type);
            let mut r: Vec<TransferMsg> = Vec::new();
            let mut i: usize = 0;
            while i < output_tokens.len()
                invariant
                    i <= output_tokens@.len(),
                    outs == output_tokens@,
                    r@ == output_payouts(outs.take(i as int), *creator),
                decreases output_tokens.len() - i,
            {
                let t = &output_tokens[i];
                let recipient = match &t.target_address {
                    Some(a) => a.clone(),
                    None => creator.clone(),
                };
                r.push(payout(&t.token, t.is_native, t.amount, &recipient));
                assert(output_payouts(outs.take(i + 1), *creator) == output_payouts(
                    outs.take(i as int),
                    *creator,
                ).push(
                    payout_msg(
                        outs[i as int].token,
                        outs[i as int].is_native,
                        outs[i as int].amount,
                        output_recipient(outs[i as int], *creator),
                    ),
                ));
                i = i + 1;
            }
            assert(outs.take(output_tokens.len() as int) == outs);
            r
        },
    }
}

/// The answer to filling an intent: a failed intent load is passed on; an intent
/// that is not active is refused; an unpaid output is refused with the error for the
/// first one; otherwise the intent is filled by the sender, who receives the inputs
/// and the tip, and the outputs are pulled from the sender (token contracts) and paid
/// to their recipients.
pub open spec fn fill_outcome(
    env: Env,
    info: MessageInfo,
    intent: Result<Intent, StdError>,
    intent_id: String,
    intent_type: IntentType,
    standings: Seq<Cw20Standing>,
    res: Result<IntentFill, StdError>,
) -> bool {
    match intent {
        Err(e) => res == Err::<IntentFill, StdError>(e),
        Ok(i) => {
            let coins = output_coins(intent_type);
            let v = paid_verdicts(info.funds@, coins, standings);
            if i.status != IntentStatus::Active {
                res matches Err(e) && is_generic_err(e, "Intent is not active"@)
            } else if !all_accepted(v) {
                res matches Err(e) && first_rejection(e, v, coins, standings)
            } else {
                res matches Ok(filled) && {
                    &&& filled.intent == filled_intent(i, info.sender)
                    &&& filled.response.messages@ == payouts(i.input_tokens@, info.sender)
                        + seq![payout_msg(i.tip.token, i.tip.is_native, i.tip.amount, info.sender)]
                        + cw20_pulls(coins, info.sender, env.contract_address)
                        + output_payouts(expected_outputs(intent_type), i.creator)
                    &&& attrs_are(
                        filled.response.attributes@,
                        seq![
                            ("action"@, "fill_intent"@),
                            ("intent_id"@, intent_id@),
                            ("executor"@, info.sender@),
                            ("timestamp"@, timestamp_text(env.block_time_nanos)),
                        ],
                    )
                }
            }
        },
    }
}

/// Fills an active intent: the executor pays the outputs named in `intent_type` (to
/// their targets, or the creator) and receives the intent's inputs and tip; the
/// intent becomes completed with the sender as executor.
pub fn execute_fill_intent(
    env: &Env,
    info: &MessageInfo,
    intent: Result<Intent, StdError>,
    executor_escrow: Result<Vec<BeepCoin>, StdError>,
    intent_id: String,
    intent_type: IntentType,
    standings: &Vec<Cw20Standing>,
) -> (res: Result<IntentFill, StdError>)
    requires
        intent matches Ok(i) && i.status == IntentStatus::Active ==> standings@.len()
            == expected_outputs(intent_type).len(),
        intent matches Ok(i) ==> !fill_intent_aborts(
            i,
            executor_escrow,
            *info,
            intent_type,
            standings@,
        ),
    ensures
        fill_outcome(*env, *info, intent, intent_id, intent_type, standings@, res),
{
    let mut intent = match intent {
        Err(e) => {
            return Err(e);
        },
        Ok(i) => i,
    };
    let ghost loaded = intent;
    if intent.status != IntentStatus::Active {
        return Err(StdError::GenericErr { msg: String::from_str("Intent is not active") });
    }
    let escrow = match executor_escrow {
        Ok(t) => t,
        Err(e) => {
            return Err(e);
        },
    };
    let mut output_msgs = match validate_filling(env, info, &intent, &escrow, &intent_type, standings) {
        Err(e) => {
            return Err(e);
        },
        Ok(m) => m,
    };
    intent.executor = Some(info.sender.clone());
    intent.status = IntentStatus::Completed;
    let mut msgs = pay_all(&intent.input_tokens, &info.sender);
    msgs.push(payout(&intent.tip.token, intent.tip.is_native, intent.tip.amount, &info.sender));
    let mut outputs = pay_outputs(&intent_type, &intent.creator);
    output_msgs.append(&mut outputs);
    msgs.append(&mut output_msgs);
    let mut attributes: Vec<Attribute> = Vec::new();
    attributes.push(attribute("action", String::from_str("fill_intent")));
    attributes.push(attribute("intent_id", intent_id));
    attributes.push(attribute("executor", info.sender.clone()));
    attributes.push(attribute("timestamp", timestamp_string(env.block_time_nanos)));
    assert(intent == filled_intent(loaded, info.sender));
    assert(msgs@ == payouts(loaded.input_tokens@, info.sender) + seq![
        payout_msg(loaded.tip.token, loaded.tip.is_native, loaded.tip.amount, info.sender),
    ] + cw20_pulls(output_coins(intent_type), info.sender, env.contract_address) + output_payouts(
        expected_outputs(intent_type),
        loaded.creator,
    ));
    Ok(IntentFill { intent, response: Response { messages: msgs, attributes } })
}

/// What withdrawing an expired intent's funds stores and answers.
pub struct IntentWithdrawal {
    /// The intent, now expired.
    pub intent: Intent,
    /// The key (owner, intent id) of the escrow entry that is released and removed.
    pub released_escrow: (String, String),
    pub response: Response,
}

/// The answer to withdrawing an intent's funds: a failed intent load is passed on;
/// before the timeout height, or for anyone but the creator, it is refused; a failed
/// escrow load is passed on; otherwise the intent expires, its escrow is released,
/// and its coins are paid to the sender.
pub open spec fn withdraw_outcome(
    env: Env,
    info: MessageInfo,
    intent_id: String,
    intent: Result<Intent, StdError>,
    escrow: Result<Vec<BeepCoin>, StdError>,
    res: Result<IntentWithdrawal, StdError>,
) -> bool {
    match intent {
        Err(e) => res == Err::<IntentWithdrawal, StdError>(e),
        Ok(i) => if env.block_height < i.timeout {
            res matches Err(e) && is_generic_err(e, "Intent has not expired"@)
        } else if i.creator@ != info.sender@ {
            res matches Err(e) && is_generic_err(e, "Unauthorized"@)
        } else {
            match escrow {
                Err(e) => res == Err::<IntentWithdrawal, StdError>(e),
                Ok(tokens) => res matches Ok(w) && {
                    &&& w.intent == expired_intent(i)
                    &&& w.released_escrow == (info.sender, intent_id)
                    &&& w.response.messages@ == payouts(tokens@, info.sender)
                    &&& attrs_are(
                        w.response.attributes@,
                        seq![
                            ("action"@, "withdraw_intent_fund"@),
                            ("timestamp"@, timestamp_text(env.block_time_nanos)),
                        ],
                    )
                },
            }
        },
    }
}

/// Gives the creator back the coins held in escrow for an intent whose timeout
/// height has been reached; the intent becomes expired and its escrow is removed.
/// `intent` and `escrow` are what loading the intent `intent_id` and the sender's
/// escrow for it gave.
pub fn execute_withdraw_intent_fund(
    env: &Env,
    info: &MessageInfo,
    intent_id: String,
    intent: Result<Intent, StdError>,
    escrow: Result<Vec<BeepCoin>, StdError>,
) -> (res: Result<IntentWithdrawal, StdError>)
    ensures
        withdraw_outcome(*env, *info, intent_id, intent, escrow, res),
{
    let mut intent = match intent {
        Err(e) => {
            return Err(e);
        },
        Ok(i) => i,
    };
    if env.block_height < intent.timeout {
        return Err(StdError::GenericErr { msg: String::from_str("Intent has not expired") });
    }
    if intent.creator != info.sender {
        return Err(StdError::GenericErr { msg: String::from_str("Unauthorized") });
    }
    intent.status = IntentStatus::Expired;
    let tokens = match escrow {
        Err(e) => {
            return Err(e);
        },
        Ok(t) => t,
    };
    let messages = pay_all(&tokens, &info.sender);
    let mut attributes: Vec<Attribute> = Vec::new();
    attributes.push(attribute("action", String::from_str("withdraw_intent_fund")));
    attributes.push(attribute("timestamp", timestamp_string(env.block_time_nanos)));
    Ok(
        IntentWithdrawal {
            intent,
            released_escrow: (info.sender.clone(), intent_id),
            response: Response { messages, attributes },
        },
    )
}

} // verus!
