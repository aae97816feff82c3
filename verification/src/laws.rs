use vstd::prelude::*;
use vstd::string::*;

use crate::admin::{
    added_all, admin_change_result, protocols_added, protocols_removed, retained, tokens_added,
    tokens_removed, with_added,
};
use crate::intent_id::intent_seed;
use crate::payment::{
    allowance_consulted, cw20_pulls, expected_outputs, payment_verdict, texts_contain,
    verdict_error,
};
use crate::queries::{at_most, bytes_before, intents_after, list_outcome};
use crate::text::{decimal, digit_char};
use crate::intents::{
    create_outcome, expired_intent, timeout_or_default, fill_outcome, filled_intent, payouts, withdraw_outcome,
    output_coins, IntentCreation, IntentFill, IntentWithdrawal,
};
use crate::types::{
    is_generic_err, BeepCoin, Coin, Config, Cw20Standing, Env, ExpectedToken, Intent, IntentStatus, IntentType,
    IntentsResponse, MessageInfo, Response, StdError, TransferMsg,
};
use vstd::utf8::encode_utf8;

verus! {

/// No two strings of the list have the same text.
pub open spec fn distinct_texts(list: Seq<String>) -> bool {
    forall|i: int, j: int| 0 <= i < j < list.len() ==> #[trigger] list[i]@ != #[trigger] list[j]@
}

proof fn lemma_added_all_extends(list: Seq<String>, items: Seq<String>)
    ensures
        list.len() <= added_all(list, items).len(),
        added_all(list, items).subrange(0, list.len() as int) == list,
        forall|k: int| 0 <= k < items.len() ==> texts_contain(added_all(list, items), #[trigger] items[k]@),
    decreases items.len(),
{
    if items.len() > 0 {
        let prev = added_all(list, items.drop_last());
        lemma_added_all_extends(list, items.drop_last());
        let r = with_added(prev, items.last());
        assert(r.subrange(0, prev.len() as int) == prev);
        assert(r.subrange(0, list.len() as int) == prev.subrange(0, list.len() as int));
        assert forall|k: int| 0 <= k < items.len() implies texts_contain(r, #[trigger] items[k]@) by {
            if k < items.len() - 1 {
                assert(items.drop_last()[k] == items[k]);
                assert(texts_contain(prev, items.drop_last()[k]@));
                let j = choose|j: int| 0 <= j < prev.len() && #[trigger] prev[j]@ == items[k]@;
                assert(r[j] == prev[j]);
            } else if !texts_contain(prev, items.last()@) {
                assert(r[prev.len() as int] == items.last());
            }
        }
    }
}

/// Adding supported tokens (or protocols) keeps the list first and in order, and
/// afterwards every added text is listed.
pub proof fn law_add_extends(list: Seq<String>, items: Seq<String>)
    ensures
        added_all(list, items).subrange(0, list.len() as int) == list,
        forall|t: Seq<char>| texts_contain(list, t) ==> texts_contain(added_all(list, items), t),
        forall|k: int| 0 <= k < items.len() ==> texts_contain(added_all(list, items), #[trigger] items[k]@),
{
    lemma_added_all_extends(list, items);
    let r = added_all(list, items);
    assert forall|t: Seq<char>| texts_contain(list, t) implies texts_contain(r, t) by {
        let j = choose|j: int| 0 <= j < list.len() && #[trigger] list[j]@ == t;
        assert(r[j] == list[j]);
    }
}

/// Adding never lists a text twice: a list without repeated texts stays so.
pub proof fn law_add_keeps_distinct(list: Seq<String>, items: Seq<String>)
    requires
        distinct_texts(list),
    ensures
        distinct_texts(added_all(list, items)),
    decreases items.len(),
{
    if items.len() > 0 {
        law_add_keeps_distinct(list, items.drop_last());
        let prev = added_all(list, items.drop_last());
        let x = items.last();
        if !texts_contain(prev, x@) {
            let r = prev.push(x);
            assert forall|i: int, j: int| 0 <= i < j < r.len() implies #[trigger] r[i]@ != #[trigger] r[j]@ by {
                if j == prev.len() {
                    assert(r[i] == prev[i]);
                } else {
                    assert(r[i] == prev[i] && r[j] == prev[j]);
                }
            }
        }
    }
}

proof fn lemma_add_present(list: Seq<String>, items: Seq<String>)
    requires
        forall|k: int| 0 <= k < items.len() ==> texts_contain(list, #[trigger] items[k]@),
    ensures
        added_all(list, items) == list,
    decreases items.len(),
{
    if items.len() > 0 {
        assert forall|k: int| 0 <= k < items.drop_last().len() implies texts_contain(list, #[trigger] items.drop_last()[k]@) by {
            assert(items.drop_last()[k] == items[k]);
        }
        lemma_add_present(list, items.drop_last());
        assert(texts_contain(list, items[items.len() - 1]@));
    }
}

/// Adding the same texts twice is adding them once.
pub proof fn law_add_idempotent(list: Seq<String>, items: Seq<String>)
    ensures
        added_all(added_all(list, items), items) == added_all(list, items),
{
    lemma_added_all_extends(list, items);
    lemma_add_present(added_all(list, items), items);
}

/// Removing supported tokens (or protocols) keeps, in their order, exactly the
/// listed strings whose text is not removed.
pub proof fn law_remove_exact(list: Seq<String>, removed: Seq<String>)
    ensures
        forall|k: int|
            0 <= k < retained(list, removed).len() ==> !texts_contain(
                removed,
                #[trigger] retained(list, removed)[k]@,
            ),
        forall|k: int|
            0 <= k < retained(list, removed).len() ==> texts_contain(
                list,
                #[trigger] retained(list, removed)[k]@,
            ),
        forall|t: Seq<char>|
            texts_contain(list, t) && !texts_contain(removed, t) ==> texts_contain(
                retained(list, removed),
                t,
            ),
    decreases list.len(),
{
    if list.len() > 0 {
        let init = list.drop_last();
        law_remove_exact(init, removed);
        let prev = retained(init, removed);
        let r = retained(list, removed);
        assert forall|k: int| 0 <= k < r.len() implies !texts_contain(removed, #[trigger] r[k]@)
            && texts_contain(list, r[k]@) by {
            if k < prev.len() {
                assert(r[k] == prev[k]);
                let j = choose|j: int| 0 <= j < init.len() && #[trigger] init[j]@ == prev[k]@;
                assert(list[j] == init[j]);
            } else {
                assert(r[k] == list.last());
                assert(list[list.len() - 1] == list.last());
            }
        }
        assert forall|t: Seq<char>| texts_contain(list, t) && !texts_contain(removed, t) implies texts_contain(r, t) by {
            let j = choose|j: int| 0 <= j < list.len() && #[trigger] list[j]@ == t;
            if j < list.len() - 1 {
                assert(init[j] == list[j]);
                assert(texts_contain(init, t));
                let q = choose|q: int| 0 <= q < prev.len() && #[trigger] prev[q]@ == t;
                assert(r[q] == prev[q]);
            } else {
                assert(r[prev.len() as int] == list.last());
            }
        }
    }
}

/// Removing texts that are not listed changes nothing.
pub proof fn law_remove_absent_noop(list: Seq<String>, removed: Seq<String>)
    requires
        forall|k: int| 0 <= k < list.len() ==> !texts_contain(removed, #[trigger] list[k]@),
    ensures
        retained(list, removed) == list,
    decreases list.len(),
{
    if list.len() > 0 {
        assert forall|k: int| 0 <= k < list.drop_last().len() implies !texts_contain(removed, #[trigger] list.drop_last()[k]@) by {
            assert(list.drop_last()[k] == list[k]);
        }
        law_remove_absent_noop(list.drop_last(), removed);
        assert(!texts_contain(removed, list[list.len() - 1]@));
        assert(list.drop_last().push(list.last()) == list);
    }
}

proof fn lemma_remove_after_add(list: Seq<String>, added: Seq<String>, removed: Seq<String>)
    requires
        forall|k: int| 0 <= k < added.len() ==> texts_contain(removed, #[trigger] added[k]@),
    ensures
        retained(added_all(list, added), removed) == retained(list, removed),
    decreases added.len(),
{
    if added.len() > 0 {
        assert forall|k: int| 0 <= k < added.drop_last().len() implies texts_contain(removed, #[trigger] added.drop_last()[k]@) by {
            assert(added.drop_last()[k] == added[k]);
        }
        lemma_remove_after_add(list, added.drop_last(), removed);
        let prev = added_all(list, added.drop_last());
        let x = added.last();
        assert(texts_contain(removed, added[added.len() - 1]@));
        if !texts_contain(prev, x@) {
            assert(prev.push(x).drop_last() == prev);
            assert(prev.push(x).last() == x);
        }
    }
}

/// Removing texts right after adding them gives what removing them alone gives: an
/// add followed by a remove of the same tokens leaves none of them listed and every
/// other listing as before.
pub proof fn law_remove_undoes_add(list: Seq<String>, items: Seq<String>)
    ensures
        retained(added_all(list, items), items) == retained(list, items),
{
    assert forall|k: int| 0 <= k < items.len() implies texts_contain(items, #[trigger] items[k]@) by {}
    lemma_remove_after_add(list, items, items);
}

proof fn lemma_decimal_digits(n: nat)
    ensures
        decimal(n).len() >= 1,
        forall|i: int| 0 <= i < decimal(n).len() ==> #[trigger] decimal(n)[i] != ':',
    decreases n,
{
    if n >= 10 {
        lemma_decimal_digits(n / 10);
        let d = decimal(n / 10);
        assert forall|i: int| 0 <= i < decimal(n).len() implies #[trigger] decimal(n)[i] != ':' by {
            if i < d.len() {
                assert(decimal(n)[i] == d[i]);
            }
        }
    }
}

proof fn lemma_digit_char_injective(x: int, y: int)
    requires
        0 <= x < 10,
        0 <= y < 10,
        digit_char(x) == digit_char(y),
    ensures
        x == y,
{
}

proof fn lemma_decimal_injective(a: nat, b: nat)
    requires
        decimal(a) == decimal(b),
    ensures
        a == b,
    decreases a,
{
    if a < 10 && b < 10 {
        assert(decimal(a) == seq![digit_char(a as int)]);
        assert(decimal(b) == seq![digit_char(b as int)]);
        assert(decimal(a)[0] == decimal(b)[0]);
        assert(seq![digit_char(a as int)][0] == digit_char(a as int));
        assert(seq![digit_char(b as int)][0] == digit_char(b as int));
        lemma_digit_char_injective(a as int, b as int);
    } else if a < 10 {
        lemma_decimal_digits(b / 10);
        assert(decimal(b).len() >= 2);
    } else if b < 10 {
        lemma_decimal_digits(a / 10);
        assert(decimal(a).len() >= 2);
    } else {
        assert(decimal(a).last() == digit_char((a % 10) as int));
        assert(decimal(b).last() == digit_char((b % 10) as int));
        assert(decimal(a).drop_last() == decimal(a / 10));
        assert(decimal(b).drop_last() == decimal(b / 10));
        lemma_decimal_injective(a / 10, b / 10);
        lemma_digit_char_injective((a % 10) as int, (b % 10) as int);
    }
}

proof fn lemma_seed_no_longer_tail(c1: Seq<char>, n1: u128, c2: Seq<char>, n2: u128)
    requires
        intent_seed(c1, n1) == intent_seed(c2, n2),
    ensures
        decimal(n1 as nat).len() >= decimal(n2 as nat).len(),
{
    let d1 = decimal(n1 as nat);
    let d2 = decimal(n2 as nat);
    if d1.len() < d2.len() {
        reveal_strlit(":");
        let s = intent_seed(c1, n1);
        lemma_decimal_digits(n2 as nat);
        let p = c1.len() as int;
        assert(s[p] == ':');
        assert(s.len() == c1.len() + 1 + d1.len());
        assert(s.len() == c2.len() + 1 + d2.len());
        let q = p - c2.len() - 1;
        assert(0 <= q < d2.len());
        assert(intent_seed(c2, n2)[p] == d2[q]);
    }
}

/// Distinct creators or nonces hash distinct seeds: an intent's identifier is a
/// digest of a text that no other (creator, nonce) pair produces.
pub proof fn law_intent_seed_injective(c1: Seq<char>, n1: u128, c2: Seq<char>, n2: u128)
    requires
        intent_seed(c1, n1) == intent_seed(c2, n2),
    ensures
        c1 == c2,
        n1 == n2,
{
    let d1 = decimal(n1 as nat);
    let d2 = decimal(n2 as nat);
    lemma_seed_no_longer_tail(c1, n1, c2, n2);
    lemma_seed_no_longer_tail(c2, n2, c1, n1);
    {
        reveal_strlit(":");
        let s = intent_seed(c1, n1);
        let s2 = intent_seed(c2, n2);
        assert(s.subrange(s.len() - d1.len(), s.len() as int) == d1);
        assert(s2.subrange(s2.len() - d2.len(), s2.len() as int) == d2);
        assert(s.subrange(0, c1.len() as int) == c1);
        assert(s2.subrange(0, c2.len() as int) == c2);
        lemma_decimal_injective(n1 as nat, n2 as nat);
    }
}

/// `x` is the intent of an entry whose key comes strictly after `start`.
pub open spec fn stored_after(entries: Seq<(String, Intent)>, start: Seq<u8>, x: Intent) -> bool {
    exists|j: int|
        0 <= j < entries.len() && #[trigger] entries[j].1 == x && bytes_before(
            start,
            encode_utf8(entries[j].0@),
        )
}

/// A listing page holds at most `limit` intents, each stored under a key that comes
/// strictly after the start key.
pub proof fn law_page_after_start(entries: Seq<(String, Intent)>, start: Seq<u8>, limit: nat)
    ensures
        at_most(intents_after(entries, start), limit).len() <= limit,
        forall|k: int|
            0 <= k < at_most(intents_after(entries, start), limit).len() ==> stored_after(
                entries,
                start,
                #[trigger] at_most(intents_after(entries, start), limit)[k],
            ),
{
    lemma_after_from_entries(entries, start);
    let all = intents_after(entries, start);
    let page = at_most(all, limit);
    assert forall|k: int| 0 <= k < page.len() implies stored_after(entries, start, #[trigger] page[k]) by {
        assert(page[k] == all[k]);
    }
}

proof fn lemma_after_from_entries(entries: Seq<(String, Intent)>, start: Seq<u8>)
    ensures
        forall|k: int|
            0 <= k < intents_after(entries, start).len() ==> stored_after(
                entries,
                start,
                #[trigger] intents_after(entries, start)[k],
            ),
    decreases entries.len(),
{
    if entries.len() > 0 {
        let init = entries.drop_last();
        lemma_after_from_entries(init, start);
        let prev = intents_after(init, start);
        let r = intents_after(entries, start);
        assert forall|k: int| 0 <= k < r.len() implies stored_after(entries, start, #[trigger] r[k]) by {
            if k < prev.len() {
                assert(r[k] == prev[k]);
                assert(stored_after(init, start, prev[k]));
                let j = choose|j: int|
                    0 <= j < init.len() && #[trigger] init[j].1 == prev[k] && bytes_before(
                        start,
                        encode_utf8(init[j].0@),
                    );
                assert(entries[j] == init[j]);
            } else {
                let j = entries.len() - 1;
                assert(entries[j] == entries.last());
                assert(r[k] == entries[j].1);
            }
        }
    }
}

/// A filled intent is no longer active (so filling it again is refused), and keeps
/// its identity, creator, inputs, tip and timeout.
pub proof fn law_fill_is_final(i: Intent, executor: String)
    ensures
        filled_intent(i, executor).status != IntentStatus::Active,
        filled_intent(i, executor).executor == Some(executor),
        filled_intent(i, executor).id == i.id,
        filled_intent(i, executor).creator == i.creator,
        filled_intent(i, executor).input_tokens == i.input_tokens,
        filled_intent(i, executor).tip == i.tip,
        filled_intent(i, executor).timeout == i.timeout,
{
}

/// A withdrawn intent is no longer active (so filling it is refused), and keeps
/// everything but its status.
pub proof fn law_withdraw_is_final(i: Intent)
    ensures
        expired_intent(i).status == IntentStatus::Expired,
        expired_intent(i).status != IntentStatus::Active,
        expired_intent(i).executor == i.executor,
        expired_intent(i).input_tokens == i.input_tokens,
        expired_intent(i).timeout == i.timeout,
{
}

/// The creator who withdraws a newly created intent at or after its timeout height
/// gets back exactly the intent's input tokens, and the intent expires.
pub proof fn law_withdraw_returns_inputs(
    config: Config,
    nonce: Option<u128>,
    env: Env,
    info: MessageInfo,
    intent_type: IntentType,
    input_tokens: Vec<BeepCoin>,
    timeout: Option<u64>,
    tip: BeepCoin,
    created: IntentCreation,
    later: Env,
    withdrawer: MessageInfo,
    res: Result<IntentWithdrawal, StdError>,
)
    requires
        create_outcome(
            Ok(config),
            nonce,
            env,
            info,
            intent_type,
            input_tokens,
            timeout,
            tip,
            Ok(created),
        ),
        withdrawer.sender == info.sender,
        later.block_height >= created.intent.timeout,
        withdraw_outcome(
            later,
            withdrawer,
            created.intent.id,
            Ok(created.intent),
            Ok(created.escrow),
            res,
        ),
    ensures
        res matches Ok(w) && w.response.messages@ == payouts(input_tokens@, info.sender)
            && w.intent == expired_intent(created.intent) && w.released_escrow == (
            info.sender,
            created.intent.id,
        ),
{
}

/// Before its timeout height, nobody can withdraw a newly created intent's funds.
pub proof fn law_no_early_withdrawal(
    config: Config,
    nonce: Option<u128>,
    env: Env,
    info: MessageInfo,
    intent_type: IntentType,
    input_tokens: Vec<BeepCoin>,
    timeout: Option<u64>,
    tip: BeepCoin,
    created: IntentCreation,
    later: Env,
    withdrawer: MessageInfo,
    escrow: Result<Vec<BeepCoin>, StdError>,
    res: Result<IntentWithdrawal, StdError>,
)
    requires
        create_outcome(
            Ok(config),
            nonce,
            env,
            info,
            intent_type,
            input_tokens,
            timeout,
            tip,
            Ok(created),
        ),
        later.block_height < created.intent.timeout,
        withdraw_outcome(later, withdrawer, created.intent.id, Ok(created.intent), escrow, res),
    ensures
        res matches Err(e) && is_generic_err(e, "Intent has not expired"@),
{
}

/// Only the creator can withdraw a newly created intent's funds.
pub proof fn law_only_creator_withdraws(
    config: Config,
    nonce: Option<u128>,
    env: Env,
    info: MessageInfo,
    intent_type: IntentType,
    input_tokens: Vec<BeepCoin>,
    timeout: Option<u64>,
    tip: BeepCoin,
    created: IntentCreation,
    later: Env,
    withdrawer: MessageInfo,
    escrow: Result<Vec<BeepCoin>, StdError>,
    res: Result<IntentWithdrawal, StdError>,
)
    requires
        create_outcome(
            Ok(config),
            nonce,
            env,
            info,
            intent_type,
            input_tokens,
            timeout,
            tip,
            Ok(created),
        ),
        later.block_height >= created.intent.timeout,
        withdrawer.sender@ != info.sender@,
        withdraw_outcome(later, withdrawer, created.intent.id, Ok(created.intent), escrow, res),
    ensures
        res matches Err(e) && is_generic_err(e, "Unauthorized"@),
{
}

/// An intent is filled at most once: filling the intent that a fill stored is refused.
pub proof fn law_fill_once(
    env: Env,
    info: MessageInfo,
    intent: Intent,
    intent_id: String,
    intent_type: IntentType,
    standings: Seq<Cw20Standing>,
    filled: IntentFill,
    env2: Env,
    info2: MessageInfo,
    intent_id2: String,
    intent_type2: IntentType,
    standings2: Seq<Cw20Standing>,
    res: Result<IntentFill, StdError>,
)
    requires
        fill_outcome(env, info, Ok(intent), intent_id, intent_type, standings, Ok(filled)),
        fill_outcome(env2, info2, Ok(filled.intent), intent_id2, intent_type2, standings2, res),
    ensures
        res matches Err(e) && is_generic_err(e, "Intent is not active"@),
{
}

/// An intent whose funds were withdrawn can no longer be filled.
pub proof fn law_no_fill_after_withdrawal(
    env: Env,
    info: MessageInfo,
    intent_id: String,
    intent: Intent,
    escrow: Result<Vec<BeepCoin>, StdError>,
    withdrawn: IntentWithdrawal,
    env2: Env,
    info2: MessageInfo,
    intent_type2: IntentType,
    standings2: Seq<Cw20Standing>,
    res: Result<IntentFill, StdError>,
)
    requires
        withdraw_outcome(env, info, intent_id, Ok(intent), escrow, Ok(withdrawn)),
        fill_outcome(env2, info2, Ok(withdrawn.intent), intent_id, intent_type2, standings2, res),
    ensures
        res matches Err(e) && is_generic_err(e, "Intent is not active"@),
{
}

/// A newly created intent is active (a fill of it is not refused as inactive), is
/// created at the current height, and times out no earlier; the timeout height is
/// taken to fit its integer type, as creation aborts otherwise.
pub proof fn law_created_intent_is_active(
    config: Config,
    nonce: Option<u128>,
    env: Env,
    info: MessageInfo,
    intent_type: IntentType,
    input_tokens: Vec<BeepCoin>,
    timeout: Option<u64>,
    tip: BeepCoin,
    created: IntentCreation,
)
    requires
        create_outcome(
            Ok(config),
            nonce,
            env,
            info,
            intent_type,
            input_tokens,
            timeout,
            tip,
            Ok(created),
        ),
        env.block_height + timeout_or_default(timeout, config.default_timeout_height) <= u64::MAX,
    ensures
        created.intent.status == IntentStatus::Active,
        created.intent.created_at == env.block_height,
        created.intent.timeout >= env.block_height,
{
}

/// A completed or expired intent is refused by every fill, whatever the sender, the
/// coins sent, the outputs offered and the token contracts' answers.
pub proof fn law_inactive_intent_refused(
    env: Env,
    info: MessageInfo,
    intent: Intent,
    intent_id: String,
    intent_type: IntentType,
    standings: Seq<Cw20Standing>,
    res: Result<IntentFill, StdError>,
)
    requires
        intent.status != IntentStatus::Active,
        fill_outcome(env, info, Ok(intent), intent_id, intent_type, standings, res),
    ensures
        res matches Err(e) && is_generic_err(e, "Intent is not active"@),
{
}

/// The escrow store as the host keeps it: coins by (owner, intent id) text.
pub open spec fn escrow_load(
    store: Map<(Seq<char>, Seq<char>), Vec<BeepCoin>>,
    owner: Seq<char>,
    intent_id: Seq<char>,
    loaded: Result<Vec<BeepCoin>, StdError>,
) -> bool {
    match loaded {
        Ok(coins) => store.contains_key((owner, intent_id)) && store[(owner, intent_id)] == coins,
        Err(_) => !store.contains_key((owner, intent_id)),
    }
}

/// Escrowed funds are refunded at most once: after a withdrawal succeeded and its
/// released escrow entry was removed from the store, a further withdrawal of the
/// same intent fails (so it emits no transfer), whoever sends it and whenever.
pub proof fn law_refund_at_most_once(
    env: Env,
    info: MessageInfo,
    intent_id: String,
    intent: Intent,
    store: Map<(Seq<char>, Seq<char>), Vec<BeepCoin>>,
    escrow: Result<Vec<BeepCoin>, StdError>,
    withdrawn: IntentWithdrawal,
    env2: Env,
    info2: MessageInfo,
    escrow2: Result<Vec<BeepCoin>, StdError>,
    res: Result<IntentWithdrawal, StdError>,
)
    requires
        escrow_load(store, info.sender@, intent_id@, escrow),
        withdraw_outcome(env, info, intent_id, Ok(intent), escrow, Ok(withdrawn)),
        escrow_load(
            store.remove((withdrawn.released_escrow.0@, withdrawn.released_escrow.1@)),
            info2.sender@,
            intent_id@,
            escrow2,
        ),
        withdraw_outcome(env2, info2, intent_id, Ok(withdrawn.intent), escrow2, res),
    ensures
        res is Err,
{
}

/// When the balance answer already decides a token payment (the query failed or the
/// balance is short), the allowance answer changes neither the verdict nor the
/// error: the allowance need not be asked for.
pub proof fn law_allowance_unused_when_balance_decides(
    funds: Seq<Coin>,
    token: Seq<char>,
    amount: u128,
    first: Cw20Standing,
    second: Cw20Standing,
    e: StdError,
)
    requires
        first.balance == second.balance,
        !allowance_consulted(first.balance, amount),
    ensures
        payment_verdict(funds, token, amount, false, first) == payment_verdict(
            funds,
            token,
            amount,
            false,
            second,
        ),
        verdict_error(e, payment_verdict(funds, token, amount, false, first), amount, first)
            == verdict_error(e, payment_verdict(funds, token, amount, false, second), amount, second),
{
}

/// `m` moves `amount` of `token` from the escrow to `to`: by a bank send for a native
/// coin, by a token-contract transfer otherwise.
pub open spec fn pays(m: TransferMsg, token: String, is_native: bool, amount: u128, to: String) -> bool {
    if is_native {
        m == TransferMsg::BankSend { to_address: to, denom: token, amount: amount }
    } else {
        m == TransferMsg::Cw20Transfer { contract_addr: token, recipient: to, amount: amount }
    }
}

/// A successful fill pays the executor each input in full and in order, then the
/// tip; then pulls exactly the token-contract outputs, in order and in full, from
/// the executor into the escrow; and ends with one payment per expected output, in
/// order and in full, to the output's target address when it names one and to the
/// creator otherwise, for native coins and token contracts alike.
pub proof fn law_fill_payments(
    env: Env,
    info: MessageInfo,
    intent: Intent,
    intent_id: String,
    intent_type: IntentType,
    standings: Seq<Cw20Standing>,
    filled: IntentFill,
)
    requires
        fill_outcome(env, info, Ok(intent), intent_id, intent_type, standings, Ok(filled)),
    ensures
        ({
            let msgs = filled.response.messages@;
            let outs = match intent_type {
                IntentType::Swap { output_tokens } => output_tokens@,
            };
            let n = intent.input_tokens@.len();
            &&& msgs.len() >= n + 1 + outs.len()
            &&& forall|k: int|
                0 <= k < n ==> pays(
                    #[trigger] msgs[k],
                    intent.input_tokens@[k].token,
                    intent.input_tokens@[k].is_native,
                    intent.input_tokens@[k].amount,
                    info.sender,
                )
            &&& pays(msgs[n as int], intent.tip.token, intent.tip.is_native, intent.tip.amount, info.sender)
            &&& msgs.subrange(n as int + 1, msgs.len() - outs.len() as int) == outs.map_values(
                |e: ExpectedToken| BeepCoin { token: e.token, amount: e.amount, is_native: e.is_native },
            ).filter(|c: BeepCoin| !c.is_native).map_values(
                |c: BeepCoin| pulled(c, info.sender, env.contract_address),
            )
            &&& forall|k: int|
                0 <= k < outs.len() ==> pays(
                    #[trigger] msgs[msgs.len() - outs.len() + k],
                    outs[k].token,
                    outs[k].is_native,
                    outs[k].amount,
                    match outs[k].target_address {
                        Some(a) => a,
                        None => intent.creator,
                    },
                )
        }),
{
    let msgs = filled.response.messages@;
    let outs = expected_outputs(intent_type);
    let n = intent.input_tokens@.len();
    let coins = outs.map_values(
        |e: ExpectedToken| BeepCoin { token: e.token, amount: e.amount, is_native: e.is_native },
    );
    assert(coins == output_coins(intent_type));
    lemma_pulls_are_filtered(coins, info.sender, env.contract_address);
    assert forall|k: int| 0 <= k < outs.len() implies pays(
        #[trigger] msgs[msgs.len() - outs.len() + k],
        outs[k].token,
        outs[k].is_native,
        outs[k].amount,
        match outs[k].target_address {
            Some(a) => a,
            None => intent.creator,
        },
    ) by {}
    assert forall|k: int| 0 <= k < n implies pays(
        #[trigger] msgs[k],
        intent.input_tokens@[k].token,
        intent.input_tokens@[k].is_native,
        intent.input_tokens@[k].amount,
        info.sender,
    ) by {}
}

/// The pull of `coin` from `owner` to `recipient` through its token contract.
pub open spec fn pulled(coin: BeepCoin, owner: String, recipient: String) -> TransferMsg {
    TransferMsg::Cw20TransferFrom {
        contract_addr: coin.token,
        owner: owner,
        recipient: recipient,
        amount: coin.amount,
    }
}

proof fn lemma_pulls_are_filtered(coins: Seq<BeepCoin>, owner: String, recipient: String)
    ensures
        cw20_pulls(coins, owner, recipient) == coins.filter(|c: BeepCoin| !c.is_native).map_values(
            |c: BeepCoin| pulled(c, owner, recipient),
        ),
    decreases coins.len(),
{
    reveal_with_fuel(Seq::<BeepCoin>::filter, 1);
    let p = |c: BeepCoin| !c.is_native;
    if coins.len() > 0 {
        lemma_pulls_are_filtered(coins.drop_last(), owner, recipient);
        let f = coins.drop_last().filter(p);
        if p(coins.last()) {
            assert(f.push(coins.last()).map_values(|c: BeepCoin| pulled(c, owner, recipient))
                == f.map_values(|c: BeepCoin| pulled(c, owner, recipient)).push(
                pulled(coins.last(), owner, recipient),
            ));
        }
    } else {
        assert(coins.filter(p).len() == 0);
    }
}

/// A created intent is active and unfilled, made by the sender at the current
/// height; a requested timeout counts from that height whatever the default, and
/// with none requested the default does; the nonce advances by one from the stored
/// one (or zero); the escrow and the intent hold the inputs and tip as given; the
/// answer pulls exactly the token-contract inputs, then the tip if it is one, from
/// the sender into the escrow.  The height is taken to fit its type, as creation
/// aborts otherwise.
pub proof fn law_create_intent_terms(
    config: Config,
    nonce: Option<u128>,
    env: Env,
    info: MessageInfo,
    intent_type: IntentType,
    input_tokens: Vec<BeepCoin>,
    timeout: Option<u64>,
    tip: BeepCoin,
    created: IntentCreation,
)
    requires
        create_outcome(
            Ok(config),
            nonce,
            env,
            info,
            intent_type,
            input_tokens,
            timeout,
            tip,
            Ok(created),
        ),
        env.block_height + match timeout {
            Some(t) => t,
            None => config.default_timeout_height,
        } <= u64::MAX,
    ensures
        timeout matches Some(t) ==> created.intent.timeout == env.block_height + t,
        timeout is None ==> created.intent.timeout == env.block_height
            + config.default_timeout_height,
        created.intent.status == IntentStatus::Active,
        created.intent.executor is None,
        created.intent.creator == info.sender,
        created.intent.created_at == env.block_height,
        created.intent.intent_type == intent_type,
        created.intent.id@.len() == 46,
        created.nonce == match nonce {
            Some(n) => n,
            None => 0,
        } + 1,
        created.escrow@ == input_tokens@,
        created.intent.input_tokens == input_tokens,
        created.intent.tip == tip,
        created.response.messages@ == input_tokens@.push(tip).filter(
            |c: BeepCoin| !c.is_native,
        ).map_values(|c: BeepCoin| pulled(c, info.sender, env.contract_address)),
{
    let p = |c: BeepCoin| !c.is_native;
    lemma_pulls_are_filtered(input_tokens@, info.sender, env.contract_address);
    lemma_pulls_are_filtered(seq![tip], info.sender, env.contract_address);
    lemma_pulls_are_filtered(input_tokens@.push(tip), info.sender, env.contract_address);
    assert(input_tokens@.push(tip) == input_tokens@ + seq![tip]);
    assert(input_tokens@.push(tip).drop_last() == input_tokens@);
    reveal_with_fuel(cw20_pulls, 2);
    assert(cw20_pulls(input_tokens@.push(tip), info.sender, env.contract_address) == cw20_pulls(
        input_tokens@,
        info.sender,
        env.contract_address,
    ) + cw20_pulls(seq![tip], info.sender, env.contract_address));
}

/// Adding by the admin keeps the listed strings first and in order, afterwards lists
/// every requested text, and appends only requested texts that were not listed, none
/// of them twice; the rest of the configuration is kept.
pub proof fn law_add_tokens_appends(
    old: Config,
    info: MessageInfo,
    tokens: Seq<String>,
    nanos: u64,
    new: Config,
    response: Response,
)
    requires
        admin_change_result(
            Ok(old),
            info,
            Ok((new, response)),
            "execute_add_supported_tokens"@,
            nanos,
            |c: Config, n: Config| tokens_added(c, n, tokens),
        ),
    ensures
        ({
            let o = old.supported_tokens@;
            let l = new.supported_tokens@;
            &&& o.len() <= l.len()
            &&& l.subrange(0, o.len() as int) == o
            &&& forall|j: int| 0 <= j < tokens.len() ==> exists|k: int|
                0 <= k < l.len() && #[trigger] l[k]@ == #[trigger] tokens[j]@
            &&& forall|k: int|
                o.len() <= k < l.len() ==> (exists|j: int|
                    0 <= j < tokens.len() && #[trigger] tokens[j] == #[trigger] l[k]) && forall|
                    i: int,
                |
                    0 <= i < k ==> #[trigger] l[i]@ != l[k]@
        }),
        new.admin == old.admin,
        new.default_timeout_height == old.default_timeout_height,
        new.supported_protocols == old.supported_protocols,
{
    lemma_added_appends(old.supported_tokens@, tokens);
}

proof fn lemma_added_appends(list: Seq<String>, items: Seq<String>)
    ensures
        ({
            let l = added_all(list, items);
            &&& list.len() <= l.len()
            &&& l.subrange(0, list.len() as int) == list
            &&& forall|j: int| 0 <= j < items.len() ==> exists|k: int|
                0 <= k < l.len() && #[trigger] l[k]@ == #[trigger] items[j]@
            &&& forall|k: int|
                list.len() <= k < l.len() ==> (exists|j: int|
                    0 <= j < items.len() && #[trigger] items[j] == #[trigger] l[k]) && forall|
                    i: int,
                |
                    0 <= i < k ==> #[trigger] l[i]@ != l[k]@
        }),
    decreases items.len(),
{
    lemma_added_all_extends(list, items);
    let l = added_all(list, items);
    assert forall|j: int| 0 <= j < items.len() implies exists|k: int|
        0 <= k < l.len() && #[trigger] l[k]@ == #[trigger] items[j]@ by {
        assert(texts_contain(l, items[j]@));
    }
    if items.len() > 0 {
        let init = items.drop_last();
        lemma_added_appends(list, init);
        let prev = added_all(list, init);
        let x = items.last();
        assert forall|k: int| list.len() <= k < l.len() implies (exists|j: int|
            0 <= j < items.len() && #[trigger] items[j] == #[trigger] l[k]) && forall|i: int|
            0 <= i < k ==> #[trigger] l[i]@ != l[k]@ by {
            if k < prev.len() {
                assert(l[k] == prev[k]);
                let j = choose|j: int| 0 <= j < init.len() && #[trigger] init[j] == prev[k];
                assert(items[j] == init[j]);
                assert forall|i: int| 0 <= i < k implies #[trigger] l[i]@ != l[k]@ by {
                    assert(l[i] == prev[i]);
                }
            } else {
                assert(l[k] == x);
                assert(items[items.len() - 1] == x);
                assert forall|i: int| 0 <= i < k implies #[trigger] l[i]@ != l[k]@ by {
                    assert(l[i] == prev[i]);
                }
            }
        }
    }
}

/// A successful withdrawal pays the sender back every escrowed coin, in order and for
/// its full amount, and nothing else.
pub proof fn law_withdraw_refunds_escrow(
    env: Env,
    info: MessageInfo,
    intent_id: String,
    intent: Intent,
    escrow: Vec<BeepCoin>,
    withdrawn: IntentWithdrawal,
)
    requires
        withdraw_outcome(env, info, intent_id, Ok(intent), Ok(escrow), Ok(withdrawn)),
    ensures
        withdrawn.response.messages@.len() == escrow@.len(),
        forall|k: int|
            0 <= k < escrow@.len() ==> pays(
                #[trigger] withdrawn.response.messages@[k],
                escrow@[k].token,
                escrow@[k].is_native,
                escrow@[k].amount,
                info.sender,
            ),
{
}

proof fn lemma_after_is_filtered(entries: Seq<(String, Intent)>, start: Seq<u8>)
    ensures
        intents_after(entries, start) == entries.filter(
            |e: (String, Intent)| bytes_before(start, encode_utf8(e.0@)),
        ).map_values(|e: (String, Intent)| e.1),
    decreases entries.len(),
{
    reveal_with_fuel(Seq::<(String, Intent)>::filter, 1);
    let p = |e: (String, Intent)| bytes_before(start, encode_utf8(e.0@));
    if entries.len() > 0 {
        lemma_after_is_filtered(entries.drop_last(), start);
        let f = entries.drop_last().filter(p);
        if p(entries.last()) {
            assert(f.push(entries.last()).map_values(|e: (String, Intent)| e.1) == f.map_values(
                |e: (String, Intent)| e.1,
            ).push(entries.last().1));
        }
    } else {
        assert(entries.filter(p).len() == 0);
    }
}

/// A listing page is complete and in storage order: it is the intents of the
/// entries whose key comes after the start key (the given one, or the empty key),
/// whatever their status, cut to the limit (the given one, or ten).
pub proof fn law_page_complete(
    entries: Seq<(String, Intent)>,
    start_after: Option<String>,
    limit: Option<u32>,
    res: IntentsResponse,
)
    requires
        list_outcome(entries, start_after, limit, res),
    ensures
        ({
            let start = match start_after {
                Some(s) => s@,
                None => Seq::<char>::empty(),
            };
            let size: int = match limit {
                Some(l) => l as int,
                None => 10,
            };
            let after = entries.filter(
                |e: (String, Intent)| bytes_before(encode_utf8(start), encode_utf8(e.0@)),
            ).map_values(|e: (String, Intent)| e.1);
            res.intents@ == if after.len() <= size {
                after
            } else {
                after.take(size)
            }
        }),
{
    let start = match start_after {
        Some(s) => s@,
        None => Seq::<char>::empty(),
    };
    lemma_after_is_filtered(entries, encode_utf8(start));
}

proof fn lemma_retained_is_filtered(list: Seq<String>, removed: Seq<String>)
    ensures
        retained(list, removed) == list.filter(
            |s: String| forall|j: int| 0 <= j < removed.len() ==> #[trigger] removed[j]@ != s@,
        ),
    decreases list.len(),
{
    reveal_with_fuel(Seq::<String>::filter, 1);
    let p = |s: String| forall|j: int| 0 <= j < removed.len() ==> #[trigger] removed[j]@ != s@;
    if list.len() > 0 {
        lemma_retained_is_filtered(list.drop_last(), removed);
        assert(texts_contain(removed, list.last()@) <==> !p(list.last()));
    } else {
        assert(list.filter(p).len() == 0);
    }
}

/// A removal by the admin keeps, in order, exactly the listed strings whose text is
/// not requested for removal: none of the requested texts stays listed, requested
/// texts that are not listed are ignored, and the rest of the configuration is kept.
pub proof fn law_remove_tokens_filters(
    old: Config,
    info: MessageInfo,
    tokens: Seq<String>,
    nanos: u64,
    new: Config,
    response: Response,
)
    requires
        admin_change_result(
            Ok(old),
            info,
            Ok((new, response)),
            "execute_remove_supported_tokens"@,
            nanos,
            |c: Config, n: Config| tokens_removed(c, n, tokens),
        ),
    ensures
        new.supported_tokens@ == old.supported_tokens@.filter(
            |s: String| forall|j: int| 0 <= j < tokens.len() ==> #[trigger] tokens[j]@ != s@,
        ),
        forall|k: int, j: int|
            0 <= k < new.supported_tokens@.len() && 0 <= j < tokens.len()
                ==> #[trigger] new.supported_tokens@[k]@ != #[trigger] tokens[j]@,
        new.admin == old.admin,
        new.default_timeout_height == old.default_timeout_height,
        new.supported_protocols == old.supported_protocols,
{
    lemma_retained_is_filtered(old.supported_tokens@, tokens);
    let p = |s: String| forall|j: int| 0 <= j < tokens.len() ==> #[trigger] tokens[j]@ != s@;
    assert forall|k: int, j: int|
        0 <= k < new.supported_tokens@.len() && 0 <= j < tokens.len()
            implies #[trigger] new.supported_tokens@[k]@ != #[trigger] tokens[j]@ by {
        old.supported_tokens@.lemma_filter_pred(p, k);
    }
}

/// A removal of protocols by the admin keeps, in order, exactly the listed protocols
/// whose text is not requested for removal, and the rest of the configuration.
pub proof fn law_remove_protocols_filters(
    old: Config,
    info: MessageInfo,
    protocols: Seq<String>,
    nanos: u64,
    new: Config,
    response: Response,
)
    requires
        admin_change_result(
            Ok(old),
            info,
            Ok((new, response)),
            "execute_remove_supported_protocols"@,
            nanos,
            |c: Config, n: Config| protocols_removed(c, n, protocols),
        ),
    ensures
        new.supported_protocols@ == old.supported_protocols@.filter(
            |s: String| forall|j: int| 0 <= j < protocols.len() ==> #[trigger] protocols[j]@ != s@,
        ),
        forall|k: int, j: int|
            0 <= k < new.supported_protocols@.len() && 0 <= j < protocols.len()
                ==> #[trigger] new.supported_protocols@[k]@ != #[trigger] protocols[j]@,
        new.admin == old.admin,
        new.default_timeout_height == old.default_timeout_height,
        new.supported_tokens == old.supported_tokens,
{
    lemma_retained_is_filtered(old.supported_protocols@, protocols);
    let p = |s: String| forall|j: int| 0 <= j < protocols.len() ==> #[trigger] protocols[j]@ != s@;
    assert forall|k: int, j: int|
        0 <= k < new.supported_protocols@.len() && 0 <= j < protocols.len()
            implies #[trigger] new.supported_protocols@[k]@ != #[trigger] protocols[j]@ by {
        old.supported_protocols@.lemma_filter_pred(p, k);
    }
}

} // verus!
