use vstd::prelude::*;
use vstd::string::*;

use crate::payment::{list_contains, texts_contain};
use crate::text::{decimal, decimal_string, timestamp_string, timestamp_text};
use crate::types::{
    attr_is, is_generic_err, Attribute, Config, Env, InstantiateMsg, MessageInfo, Response,
    StdError,
};

verus! {

/// The attributes, in order, have the given keys and values.
pub open spec fn attrs_are(attrs: Seq<Attribute>, expected: Seq<(Seq<char>, Seq<char>)>) -> bool {
    &&& attrs.len() == expected.len()
    &&& forall|i: int|
        0 <= i < attrs.len() ==> attr_is(#[trigger] attrs[i], expected[i].0, expected[i].1)
}

/// An attribute with the given key and value.
pub fn attribute(key: &str, value: String) -> (a: Attribute)
    ensures
        a.key@ == key@,
        a.value == value,
{
    Attribute { key: String::from_str(key), value }
}

/// The attributes of a successful configuration change.
pub open spec fn success_attrs(action: Seq<char>, nanos: u64) -> Seq<(Seq<char>, Seq<char>)> {
    seq![("action"@, action), ("status"@, "success"@), ("timestamp"@, timestamp_text(nanos))]
}

/// A response with no transfers and the attributes of a successful change.
fn success_response(action: &str, env: &Env) -> (r: Response)
    ensures
        r.messages@.len() == 0,
        attrs_are(r.attributes@, success_attrs(action@, env.block_time_nanos)),
{
    let mut attributes: Vec<Attribute> = Vec::new();
    attributes.push(attribute("action", String::from_str(action)));
    attributes.push(attribute("status", String::from_str("success")));
    attributes.push(attribute("timestamp", timestamp_string(env.block_time_nanos)));
    Response { messages: Vec::new(), attributes }
}

/// The record of which code and version the escrow runs, stored at instantiation.
#[derive(Debug, Clone, PartialEq, Eq)]
pub struct ContractVersion {
    pub contract: String,
    pub version: String,
}

/// The name and version recorded at instantiation (the version is the package's).
pub fn contract_version() -> (r: ContractVersion)
    ensures
        r.contract@ == "crates.io:mono-chain-beep"@,
        r.version@ == "0.1.0"@,
{
    ContractVersion {
        contract: String::from_str("crates.io:mono-chain-beep"),
        version: String::from_str("0.1.0"),
    }
}

/// The configuration that an instantiation sets up.
pub open spec fn initial_config(sender: String, msg: InstantiateMsg) -> Config {
    Config {
        admin: sender,
        supported_tokens: msg.supported_tokens,
        default_timeout_height: msg.default_timeout_height,
        supported_protocols: msg.supported_protocols,
    }
}

/// Sets the escrow up: the sender becomes the admin, and the supported tokens and
/// protocols and the default timeout come from the message.
pub fn instantiate(env: &Env, info: &MessageInfo, msg: InstantiateMsg) -> (res: (Config, Response))
    ensures
        res.0 == initial_config(info.sender, msg),
        res.1.messages@.len() == 0,
        attrs_are(
            res.1.attributes@,
            seq![
                ("action"@, "instantiate"@),
                ("admin"@, info.sender@),
                ("default_timeout_height"@, decimal(msg.default_timeout_height as nat)),
                ("timestamp"@, timestamp_text(env.block_time_nanos)),
            ],
        ),
{
    let mut attributes: Vec<Attribute> = Vec::new();
    attributes.push(attribute("action", String::from_str("instantiate")));
    attributes.push(attribute("admin", info.sender.clone()));
    attributes.push(
        attribute("default_timeout_height", decimal_string(msg.default_timeout_height as u128)),
    );
    attributes.push(attribute("timestamp", timestamp_string(env.block_time_nanos)));
    let config = Config {
        admin: info.sender.clone(),
        supported_tokens: msg.supported_tokens,
        default_timeout_height: msg.default_timeout_height,
        supported_protocols: msg.supported_protocols,
    };
    (config, Response { messages: Vec::new(), attributes })
}

/// `list` with `item` appended unless a string of the same text is already there.
pub open spec fn with_added(list: Seq<String>, item: String) -> Seq<String> {
    if texts_contain(list, item@) {
        list
    } else {
        list.push(item)
    }
}

/// `list` with each of `items` added in turn, skipping texts already present.
pub open spec fn added_all(list: Seq<String>, items: Seq<String>) -> Seq<String>
    decreases items.len(),
{
    if items.len() == 0 {
        list
    } else {
        with_added(added_all(list, items.drop_last()), items.last())
    }
}

/// The strings of `list`, in order, whose text is not among `removed`.
pub open spec fn retained(list: Seq<String>, removed: Seq<String>) -> Seq<String>
    decreases list.len(),
{
    if list.len() == 0 {
        list
    } else {
        let rest = retained(list.drop_last(), removed);
        if texts_contain(removed, list.last()@) {
            rest
        } else {
            rest.push(list.last())
        }
    }
}

/// Adds each of `items` to `list` unless its text is already there.
pub fn add_missing(list: &mut Vec<String>, items: &Vec<String>)
    ensures
        final(list)@ == added_all(old(list)@, items@),
{
    let ghost start = list@;
    let mut i: usize = 0;
    while i < items.len()
        invariant
            i <= items@.len(),
            list@ == added_all(start, items@.take(i as int)),
        decreases items.len() - i,
    {
        assert(items@.take(i + 1).drop_last() == items@.take(i as int));
        assert(items@.take(i + 1).last() == items@[i as int]);
        if !list_contains(list, &items[i]) {
            list.push(items[i].clone());
        }
        i = i + 1;
    }
    assert(items@.take(items.len() as int) == items@);
}

/// The strings of `list`, in order, whose text is not among `removed`.
pub fn retain_absent(list: &Vec<String>, removed: &Vec<String>) -> (r: Vec<String>)
    ensures
        r@ == retained(list@, removed@),
{
    let mut r: Vec<String> = Vec::new();
    let mut i: usize = 0;
    while i < list.len()
        invariant
            i <= list@.len(),
            r@ == retained(list@.take(i as int), removed@),
        decreases list.len() - i,
    {
        assert(list@.take(i + 1).drop_last() == list@.take(i as int));
        assert(list@.take(i + 1).last() == list@[i as int]);
        if !list_contains(removed, &list[i]) {
            r.push(list[i].clone());
        }
        i = i + 1;
    }
    assert(list@.take(list.len() as int) == list@);
    r
}

/// The answer to a configuration change: the stored configuration failed to load,
/// the sender is not the admin, or the change as `changed` gives it.
pub open spec fn admin_change_result(
    config: Result<Config, StdError>,
    info: MessageInfo,
    res: Result<(Config, Response), StdError>,
    action: Seq<char>,
    nanos: u64,
    changed: spec_fn(Config, Config) -> bool,
) -> bool {
    match config {
        Err(e) => res == Err::<(Config, Response), StdError>(e),
        Ok(c) => if info.sender@ != c.admin@ {
            res matches Err(e) && is_generic_err(e, "Unauthorized"@)
        } else {
            res matches Ok((n, r)) && changed(c, n) && r.messages@.len() == 0 && attrs_are(
                r.attributes@,
                success_attrs(action, nanos),
            )
        },
    }
}

fn unauthorized() -> (e: StdError)
    ensures
        is_generic_err(e, "Unauthorized"@),
{
    StdError::GenericErr { msg: String::from_str("Unauthorized") }
}

/// Hands the admin role to `new_admin`; only the admin may.
pub fn execute_update_admin(
    config: Result<Config, StdError>,
    env: &Env,
    info: &MessageInfo,
    new_admin: String,
) -> (res: Result<(Config, Response), StdError>)
    ensures
        match config {
            Err(e) => res == Err::<(Config, Response), StdError>(e),
            Ok(c) => if info.sender@ != c.admin@ {
                res matches Err(e) && is_generic_err(e, "Unauthorized"@)
            } else {
                res matches Ok((n, r)) && n == (Config { admin: new_admin, ..c })
                    && r.messages@.len() == 0 && attrs_are(
                    r.attributes@,
                    seq![
                        ("action"@, "execute_update_admin"@),
                        ("old_admin"@, info.sender@),
                        ("new_admin"@, new_admin@),
                        ("timestamp"@, timestamp_text(env.block_time_nanos)),
                    ],
                )
            },
        },
{
    let mut config = match config {
        Err(e) => {
            return Err(e);
        },
        Ok(c) => c,
    };
    if info.sender != config.admin {
        return Err(unauthorized());
    }
    let mut attributes: Vec<Attribute> = Vec::new();
    attributes.push(attribute("action", String::from_str("execute_update_admin")));
    attributes.push(attribute("old_admin", info.sender.clone()));
    attributes.push(attribute("new_admin", new_admin.clone()));
    attributes.push(attribute("timestamp", timestamp_string(env.block_time_nanos)));
    config.admin = new_admin;
    Ok((config, Response { messages: Vec::new(), attributes }))
}

/// The configuration after supported tokens were added.
pub open spec fn tokens_added(old: Config, new: Config, tokens: Seq<String>) -> bool {
    &&& new.supported_tokens@ == added_all(old.supported_tokens@, tokens)
    &&& new.admin == old.admin
    &&& new.default_timeout_height == old.default_timeout_height
    &&& new.supported_protocols == old.supported_protocols
}

/// The configuration after supported tokens were removed.
pub open spec fn tokens_removed(old: Config, new: Config, tokens: Seq<String>) -> bool {
    &&& new.supported_tokens@ == retained(old.supported_tokens@, tokens)
    &&& new.admin == old.admin
    &&& new.default_timeout_height == old.default_timeout_height
    &&& new.supported_protocols == old.supported_protocols
}

/// The configuration after supported protocols were added.
pub open spec fn protocols_added(old: Config, new: Config, protocols: Seq<String>) -> bool {
    &&& new.supported_protocols@ == added_all(old.supported_protocols@, protocols)
    &&& new.admin == old.admin
    &&& new.default_timeout_height == old.default_timeout_height
    &&& new.supported_tokens == old.supported_tokens
}

/// The configuration after supported protocols were removed.
pub open spec fn protocols_removed(old: Config, new: Config, protocols: Seq<String>) -> bool {
    &&& new.supported_protocols@ == retained(old.supported_protocols@, protocols)
    &&& new.admin == old.admin
    &&& new.default_timeout_height == old.default_timeout_height
    &&& new.supported_tokens == old.supported_tokens
}

/// Adds supported tokens, skipping those already supported; only the admin may.
pub fn execute_add_supported_tokens(
    config: Result<Config, StdError>,
    env: &Env,
    info: &MessageInfo,
    tokens: Vec<String>,
) -> (res: Result<(Config, Response), StdError>)
    ensures
        admin_change_result(
            config,
            *info,
            res,
            "execute_add_supported_tokens"@,
            env.block_time_nanos,
            |c: Config, n: Config| tokens_added(c, n, tokens@),
        ),
{
    let mut config = match config {
        Err(e) => {
            return Err(e);
        },
        Ok(c) => c,
    };
    if info.sender != config.admin {
        return Err(unauthorized());
    }
    add_missing(&mut config.supported_tokens, &tokens);
    Ok((config, success_response("execute_add_supported_tokens", env)))
}

/// Removes supported tokens; tokens that are not supported are ignored; only the
/// admin may.
pub fn execute_remove_supported_tokens(
    config: Result<Config, StdError>,
    env: &Env,
    info: &MessageInfo,
    tokens: Vec<String>,
) -> (res: Result<(Config, Response), StdError>)
    ensures
        admin_change_result(
            config,
            *info,
            res,
            "execute_remove_supported_tokens"@,
            env.block_time_nanos,
            |c: Config, n: Config| tokens_removed(c, n, tokens@),
        ),
{
    let mut config = match config {
        Err(e) => {
            return Err(e);
        },
        Ok(c) => c,
    };
    if info.sender != config.admin {
        return Err(unauthorized());
    }
    config.supported_tokens = retain_absent(&config.supported_tokens, &tokens);
    Ok((config, success_response("execute_remove_supported_tokens", env)))
}

/// Adds supported protocols, skipping those already supported; only the admin may.
pub fn execute_add_supported_protocols(
    config: Result<Config, StdError>,
    env: &Env,
    info: &MessageInfo,
    protocols: Vec<String>,
) -> (res: Result<(Config, Response), StdError>)
    ensures
        admin_change_result(
            config,
            *info,
            res,
            "execute_add_supported_protocols"@,
            env.block_time_nanos,
            |c: Config, n: Config| protocols_added(c, n, protocols@),
        ),
{
    let mut config = match config {
        Err(e) => {
            return Err(e);
        },
        Ok(c) => c,
    };
    if info.sender != config.admin {
        return Err(unauthorized());
    }
    add_missing(&mut config.supported_protocols, &protocols);
    Ok((config, success_response("execute_add_supported_protocols", env)))
}

/// Removes supported protocols; protocols that are not supported are ignored; only
/// the admin may.
pub fn execute_remove_supported_protocols(
    config: Result<Config, StdError>,
    env: &Env,
    info: &MessageInfo,
    protocols: Vec<String>,
) -> (res: Result<(Config, Response), StdError>)
    ensures
        admin_change_result(
            config,
            *info,
            res,
            "execute_remove_supported_protocols"@,
            env.block_time_nanos,
            |c: Config, n: Config| protocols_removed(c, n, protocols@),
        ),
{
    let mut config = match config {
        Err(e) => {
            return Err(e);
        },
        Ok(c) => c,
    };
    if info.sender != config.admin {
        return Err(unauthorized());
    }
    config.supported_protocols = retain_absent(&config.supported_protocols, &protocols);
    Ok((config, success_response("execute_remove_supported_protocols", env)))
}

/// Sets the timeout, in blocks, of intents created without one; only the admin may.
pub fn execute_update_default_timeout_height(
    config: Result<Config, StdError>,
    env: &Env,
    info: &MessageInfo,
    default_timeout_height: u64,
) -> (res: Result<(Config, Response), StdError>)
    ensures
        admin_change_result(
            config,
            *info,
            res,
            "execute_update_default_timeout_height"@,
            env.block_time_nanos,
            |c: Config, n: Config| n == (Config { default_timeout_height, ..c }),
        ),
{
    let mut config = match config {
        Err(e) => {
            return Err(e);
        },
        Ok(c) => c,
    };
    if info.sender != config.admin {
        return Err(unauthorized());
    }
    config.default_timeout_height = default_timeout_height;
    Ok((config, success_response("execute_update_default_timeout_height", env)))
}

} // verus!
