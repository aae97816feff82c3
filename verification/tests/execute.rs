use mono_chain_beep::admin::{
    execute_add_supported_protocols, execute_add_supported_tokens,
    execute_remove_supported_protocols, execute_remove_supported_tokens, execute_update_admin,
    execute_update_default_timeout_height, instantiate,
};
use mono_chain_beep::intents::{
    execute_create_intent, execute_fill_intent, execute_withdraw_intent_fund, validate_filling,
};
use mono_chain_beep::payment::{add_cw20_transfer_msg, add_native_transfer_msg, validate_intent_type};
use mono_chain_beep::types::{
    BeepCoin, Coin, Config, Cw20Standing, Env, ExpectedToken, InstantiateMsg, Intent,
    IntentStatus, IntentType, MessageInfo, StdError, TransferMsg,
};

fn mock_env() -> Env {
    let env = cosmwasm_std::testing::mock_env();
    Env {
        block_height: env.block.height,
        block_time_nanos: env.block.time.nanos(),
        contract_address: env.contract.address.to_string(),
    }
}

fn message_info(sender: &str, funds: &[(u128, &str)]) -> MessageInfo {
    MessageInfo {
        sender: sender.to_string(),
        funds: funds
            .iter()
            .map(|(amount, denom)| Coin { denom: denom.to_string(), amount: *amount })
            .collect(),
    }
}

fn not_found(kind: &str) -> StdError {
    StdError::NotFound { kind: kind.to_string() }
}

fn generic(msg: &str) -> StdError {
    StdError::GenericErr { msg: msg.to_string() }
}

/// What a token contract answers for a native coin: never consulted.
fn unused_standing() -> Cw20Standing {
    Cw20Standing { balance: Ok(0), allowance: Ok(0) }
}

/// What the token contract answers when the sender holds and allows 1000.
fn cw20_standing_1000() -> Cw20Standing {
    Cw20Standing { balance: Ok(1000), allowance: Ok(1000) }
}

fn admin_config() -> Config {
    Config {
        admin: "admin".to_string(),
        supported_tokens: vec!["token1".to_string(), "token2".to_string()],
        default_timeout_height: 120,
        supported_protocols: vec!["protocol1".to_string(), "protocol2".to_string()],
    }
}

fn native_intent(id: &str, status: IntentStatus, timeout: u64) -> Intent {
    let env = mock_env();
    Intent {
        id: id.to_string(),
        creator: "creator".to_string(),
        input_tokens: vec![BeepCoin { token: "token".to_string(), amount: 1000, is_native: true }],
        intent_type: IntentType::Swap {
            output_tokens: vec![ExpectedToken {
                token: "token".to_string(),
                is_native: true,
                amount: 1000,
                target_address: None,
            }],
        },
        executor: None,
        status,
        created_at: env.block_height,
        timeout,
        tip: BeepCoin { token: "token".to_string(), amount: 10, is_native: true },
    }
}

fn native_swap(amount: u128) -> IntentType {
    IntentType::Swap {
        output_tokens: vec![ExpectedToken {
            token: "token".to_string(),
            is_native: true,
            amount,
            target_address: None,
        }],
    }
}

#[test]
fn test_instantiate() {
    let env = mock_env();
    let info = message_info("creator", &[]);
    let msg = InstantiateMsg {
        supported_tokens: vec!["token1".to_string(), "token2".to_string()],
        default_timeout_height: 20,
        supported_protocols: vec!["protocol1".to_string(), "protocol2".to_string()],
    };

    let (config, res) = instantiate(&env, &info, msg.clone());

    assert_eq!(res.attributes.len(), 4);
    assert_eq!(res.attributes[0].key, "action");
    assert_eq!(res.attributes[0].value, "instantiate");
    assert_eq!(res.attributes[1].key, "admin");
    assert_eq!(res.attributes[1].value, "creator");
    assert_eq!(res.attributes[2].key, "default_timeout_height");
    assert_eq!(res.attributes[2].value, "20");

    assert_eq!(config.admin, "creator");
    assert_eq!(config.supported_tokens, vec!["token1".to_string(), "token2".to_string()]);
    assert_eq!(config.default_timeout_height, 20);
    assert_eq!(
        config.supported_protocols,
        vec!["protocol1".to_string(), "protocol2".to_string()]
    );
}

#[test]
fn test_validate_intent_type_with_supported_tokens() {
    let config = admin_config();
    let intent_type = IntentType::Swap {
        output_tokens: vec![
            ExpectedToken {
                token: "token1".to_string(),
                is_native: true,
                amount: 100,
                target_address: None,
            },
            ExpectedToken {
                token: "token2".to_string(),
                is_native: true,
                amount: 200,
                target_address: None,
            },
        ],
    };

    let result = validate_intent_type(&intent_type, &config);
    assert!(result.is_ok());
}

#[test]
fn test_validate_intent_type_with_unsupported_tokens() {
    let config = admin_config();
    let intent_type = IntentType::Swap {
        output_tokens: vec![
            ExpectedToken {
                token: "token1".to_string(),
                is_native: true,
                amount: 100,
                target_address: None,
            },
            ExpectedToken {
                token: "token3".to_string(),
                is_native: true,
                amount: 200,
                target_address: None,
            },
        ],
    };

    let result = validate_intent_type(&intent_type, &config);
    assert!(result.is_err());
    assert_eq!(
        result.unwrap_err(),
        generic("Unsupported tokens used. Supplied token: \"token3\", Supported tokens: [\"token1\", \"token2\"]")
    );
}

#[test]
fn test_execute_create_intent() {
    let env = mock_env();
    let info = message_info("creator", &[(1000, "token")]);
    let config = Config {
        admin: info.sender.clone(),
        supported_tokens: vec!["token".to_string()],
        default_timeout_height: 20,
        supported_protocols: vec!["protocol".to_string()],
    };
    let intent_type = native_swap(100);
    let input_tokens = vec![BeepCoin { token: "token".to_string(), amount: 1000, is_native: true }];
    let timeout = Some(2);
    let tip = BeepCoin { token: "token".to_string(), amount: 10, is_native: true };

    let created = execute_create_intent(
        Ok(config),
        Some(0),
        &env,
        &info,
        intent_type.clone(),
        input_tokens.clone(),
        timeout,
        tip.clone(),
        &vec![unused_standing()],
        unused_standing(),
    )
    .unwrap();
    let res = &created.response;

    assert_eq!(res.attributes.len(), 4);
    assert_eq!(res.attributes[0].key, "action");
    assert_eq!(res.attributes[0].value, "create_intent");
    assert_eq!(res.attributes[1].key, "intent_id");
    assert_eq!(res.attributes[2].key, "status");
    assert_eq!(res.attributes[2].value, "active");

    let intent_id = res.attributes[1].value.clone();
    let saved_intent = &created.intent;
    assert_eq!(saved_intent.id, intent_id);
    assert_eq!(saved_intent.creator, info.sender);
    assert_eq!(saved_intent.input_tokens, input_tokens);
    assert_eq!(saved_intent.intent_type, intent_type);
    assert_eq!(saved_intent.status, IntentStatus::Active);
    assert_eq!(saved_intent.created_at, env.block_height);
    assert_eq!(saved_intent.timeout, env.block_height + 2);
    assert_eq!(saved_intent.tip, tip);

    assert_eq!(created.nonce, 1);
}

#[test]
fn test_execute_create_intent_with_cw20_tokens() {
    let env = mock_env();
    let info = message_info("creator", &[]);
    let config = Config {
        admin: info.sender.clone(),
        supported_tokens: vec!["cw20_token".to_string()],
        default_timeout_height: 20,
        supported_protocols: vec!["protocol".to_string()],
    };
    let intent_type = IntentType::Swap {
        output_tokens: vec![ExpectedToken {
            token: "cw20_token".to_string(),
            is_native: false,
            amount: 100,
            target_address: None,
        }],
    };
    let input_tokens =
        vec![BeepCoin { token: "cw20_token".to_string(), amount: 1000, is_native: false }];
    let timeout = Some(2);
    let tip = BeepCoin { token: "cw20_token".to_string(), amount: 10, is_native: false };

    let created = execute_create_intent(
        Ok(config),
        Some(0),
        &env,
        &info,
        intent_type.clone(),
        input_tokens.clone(),
        timeout,
        tip.clone(),
        &vec![cw20_standing_1000()],
        cw20_standing_1000(),
    )
    .unwrap();
    let res = &created.response;

    assert_eq!(res.attributes.len(), 4);
    assert_eq!(res.attributes[0].key, "action");
    assert_eq!(res.attributes[0].value, "create_intent");
    assert_eq!(res.attributes[1].key, "intent_id");
    assert_eq!(res.attributes[2].key, "status");
    assert_eq!(res.attributes[2].value, "active");

    let intent_id = res.attributes[1].value.clone();
    let saved_intent = &created.intent;
    assert_eq!(saved_intent.id, intent_id);
    assert_eq!(saved_intent.creator, info.sender);
    assert_eq!(saved_intent.input_tokens, input_tokens);
    assert_eq!(saved_intent.intent_type, intent_type);
    assert_eq!(saved_intent.status, IntentStatus::Active);
    assert_eq!(saved_intent.created_at, env.block_height);
    assert_eq!(saved_intent.timeout, env.block_height + 2);
    assert_eq!(saved_intent.tip, tip);

    assert_eq!(created.nonce, 1);
}

#[test]
fn test_validate_filling_with_native_tokens() {
    let env = mock_env();
    let info = message_info("executor", &[(1000, "token")]);
    let intent = native_intent("intent1", IntentStatus::Active, env.block_height + 120);
    let escrow = intent.input_tokens.clone();

    let msgs = validate_filling(
        &env,
        &info,
        &intent,
        &escrow,
        &native_swap(1000),
        &vec![unused_standing()],
    )
    .unwrap();

    assert!(msgs.is_empty());

    assert_eq!(
        escrow,
        vec![BeepCoin { token: "token".to_string(), amount: 1000, is_native: true }]
    );
}

#[test]
fn test_validate_filling_with_insufficient_native_tokens() {
    let env = mock_env();
    let info = message_info("executor", &[(500, "token")]);
    let intent = native_intent("intent1", IntentStatus::Active, env.block_height + 120);
    let escrow = vec![
        BeepCoin { token: "token".to_string(), amount: 10, is_native: true },
        BeepCoin { token: "token".to_string(), amount: 1000, is_native: true },
    ];

    let result = validate_filling(
        &env,
        &info,
        &intent,
        &escrow,
        &native_swap(1000),
        &vec![unused_standing()],
    );

    assert!(result.is_err());
    assert_eq!(
        result.unwrap_err(),
        generic("Insufficient native token sent. Required: 1000, Sent: 500")
    );
}

#[test]
fn test_add_cw20_transfer_msg() {
    let token_address = "token_address".to_string();
    let recipient = "recipient".to_string();
    let amount = 1000;

    let msg = add_cw20_transfer_msg(&token_address, &recipient, amount);

    let expected_msg = TransferMsg::Cw20Transfer {
        contract_addr: token_address.clone(),
        recipient: recipient.clone(),
        amount,
    };
    assert_eq!(msg, expected_msg);
}

#[test]
fn test_add_native_transfer_msg() {
    let denom = "token".to_string();
    let recipient = "recipient".to_string();
    let amount = 1000;

    let msg = add_native_transfer_msg(&denom, &recipient, amount);

    let expected_msg =
        TransferMsg::BankSend { to_address: recipient.clone(), denom: denom.clone(), amount };
    assert_eq!(msg, expected_msg);
}

#[test]
fn test_execute_fill_intent_with_native_tokens() {
    let env = mock_env();
    let info = message_info("executor", &[(1000, "token")]);
    let intent = native_intent("intent1", IntentStatus::Active, env.block_height + 120);
    let executor_escrow =
        vec![BeepCoin { token: "token".to_string(), is_native: true, amount: 1000 }];

    let filled = execute_fill_intent(
        &env,
        &info,
        Ok(intent),
        Ok(executor_escrow),
        "intent1".to_string(),
        native_swap(1000),
        &vec![unused_standing()],
    )
    .unwrap();
    let res = &filled.response;

    assert_eq!(res.attributes.len(), 4);
    assert_eq!(res.attributes[0].key, "action");
    assert_eq!(res.attributes[0].value, "fill_intent");
    assert_eq!(res.attributes[1].key, "intent_id");
    assert_eq!(res.attributes[1].value, "intent1");
    assert_eq!(res.attributes[2].key, "executor");
    assert_eq!(res.attributes[2].value, "executor");

    assert_eq!(filled.intent.status, IntentStatus::Completed);
    assert_eq!(filled.intent.executor, Some("executor".to_string()));

    assert_eq!(res.messages.len(), 3);
    assert_eq!(
        res.messages[0],
        TransferMsg::BankSend {
            to_address: "executor".to_string(),
            denom: "token".to_string(),
            amount: 1000,
        }
    );
    assert_eq!(
        res.messages[1],
        TransferMsg::BankSend {
            to_address: "executor".to_string(),
            denom: "token".to_string(),
            amount: 10,
        }
    );
    assert_eq!(
        res.messages[2],
        TransferMsg::BankSend {
            to_address: "creator".to_string(),
            denom: "token".to_string(),
            amount: 1000,
        }
    );
}

#[test]
fn test_execute_fill_intent_with_cw20_tokens() {
    let env = mock_env();
    let info = message_info("executor", &[]);
    let intent = Intent {
        id: "intent2".to_string(),
        creator: "creator".to_string(),
        input_tokens: vec![BeepCoin {
            token: "cw20_token".to_string(),
            amount: 1000,
            is_native: false,
        }],
        intent_type: IntentType::Swap {
            output_tokens: vec![ExpectedToken {
                token: "cw20_token".to_string(),
                is_native: false,
                amount: 1000,
                target_address: None,
            }],
        },
        executor: None,
        status: IntentStatus::Active,
        created_at: env.block_height,
        timeout: env.block_height + 20,
        tip: BeepCoin { token: "cw20_token".to_string(), amount: 10, is_native: false },
    };
    let executor_escrow =
        vec![BeepCoin { token: "cw20_token".to_string(), is_native: false, amount: 1000 }];

    let filled = execute_fill_intent(
        &env,
        &info,
        Ok(intent),
        Ok(executor_escrow),
        "intent2".to_string(),
        IntentType::Swap {
            output_tokens: vec![ExpectedToken {
                token: "cw20_token".to_string(),
                is_native: false,
                amount: 1000,
                target_address: None,
            }],
        },
        &vec![cw20_standing_1000()],
    )
    .unwrap();
    let res = &filled.response;

    assert_eq!(res.attributes.len(), 4);
    assert_eq!(res.attributes[0].key, "action");
    assert_eq!(res.attributes[0].value, "fill_intent");
    assert_eq!(res.attributes[1].key, "intent_id");
    assert_eq!(res.attributes[1].value, "intent2");
    assert_eq!(res.attributes[2].key, "executor");
    assert_eq!(res.attributes[2].value, "executor");

    assert_eq!(filled.intent.status, IntentStatus::Completed);
    assert_eq!(filled.intent.executor, Some("executor".to_string()));

    assert_eq!(res.messages.len(), 4);
    assert_eq!(
        res.messages[0],
        TransferMsg::Cw20Transfer {
            contract_addr: "cw20_token".to_string(),
            recipient: "executor".to_string(),
            amount: 1000,
        }
    );
    assert_eq!(
        res.messages[1],
        TransferMsg::Cw20Transfer {
            contract_addr: "cw20_token".to_string(),
            recipient: "executor".to_string(),
            amount: 10,
        }
    );
    assert_eq!(
        res.messages[2],
        TransferMsg::Cw20TransferFrom {
            contract_addr: "cw20_token".to_string(),
            owner: "executor".to_string(),
            recipient: env.contract_address.clone(),
            amount: 1000,
        }
    );
    assert_eq!(
        res.messages[3],
        TransferMsg::Cw20Transfer {
            contract_addr: "cw20_token".to_string(),
            recipient: "creator".to_string(),
            amount: 1000,
        }
    );
}

#[test]
fn test_execute_fill_intent_with_inactive_intent() {
    let env = mock_env();
    let info = message_info("executor", &[(1000, "token")]);
    let intent = native_intent("intent3", IntentStatus::Expired, env.block_height + 120);

    let result = execute_fill_intent(
        &env,
        &info,
        Ok(intent),
        Err(not_found("escrow")),
        "intent3".to_string(),
        native_swap(1000),
        &vec![unused_standing()],
    );

    assert!(result.is_err());
    assert_eq!(result.err().unwrap(), generic("Intent is not active"));
}

#[test]
fn test_execute_withdraw_intent_fund_before_timeout() {
    let env = mock_env();
    let info = message_info("creator", &[(1000, "token")]);
    let intent = native_intent("intent1", IntentStatus::Active, env.block_height + 120);

    let result = execute_withdraw_intent_fund(
        &env,
        &info,
        "intent1".to_string(),
        Ok(intent),
        Err(not_found("escrow")),
    );

    assert!(result.is_err());
    assert_eq!(result.err().unwrap(), generic("Intent has not expired"));
}

#[test]
fn test_execute_withdraw_intent_fund_unauthorized() {
    let env = mock_env();
    let info = message_info("not_creator", &[(1000, "token")]);
    let intent = native_intent("intent1", IntentStatus::Active, env.block_height - 1);

    let result = execute_withdraw_intent_fund(
        &env,
        &info,
        "intent1".to_string(),
        Ok(intent),
        Err(not_found("escrow")),
    );

    assert!(result.is_err());
    assert_eq!(result.err().unwrap(), generic("Unauthorized"));
}

#[test]
fn test_execute_withdraw_intent_fund_success() {
    let env = mock_env();
    let info = message_info("creator", &[(1000, "token")]);
    let intent = native_intent("intent1", IntentStatus::Active, env.block_height - 1);
    let escrow = intent.input_tokens.clone();

    let withdrawn = execute_withdraw_intent_fund(
        &env,
        &info,
        "intent1".to_string(),
        Ok(intent),
        Ok(escrow),
    )
    .unwrap();
    let res = &withdrawn.response;

    assert_eq!(res.attributes.len(), 2);
    assert_eq!(res.attributes[0].key, "action");
    assert_eq!(res.attributes[0].value, "withdraw_intent_fund");

    assert_eq!(withdrawn.intent.status, IntentStatus::Expired);

    assert_eq!(res.messages.len(), 1);
    assert_eq!(
        res.messages[0],
        TransferMsg::BankSend {
            to_address: "creator".to_string(),
            denom: "token".to_string(),
            amount: 1000,
        }
    );

    assert_eq!(
        withdrawn.released_escrow,
        ("creator".to_string(), "intent1".to_string())
    );
}

#[test]
fn test_execute_update_admin_unauthorized() {
    let env = mock_env();
    let info = message_info("not_admin", &[]);

    let result = execute_update_admin(Ok(admin_config()), &env, &info, "new_admin".to_string());

    assert!(result.is_err());
    assert_eq!(result.unwrap_err(), generic("Unauthorized"));
}

#[test]
fn test_execute_update_admin_success() {
    let env = mock_env();
    let info = message_info("admin", &[]);

    let (updated_config, res) =
        execute_update_admin(Ok(admin_config()), &env, &info, "new_admin".to_string()).unwrap();

    assert_eq!(res.attributes.len(), 4);
    assert_eq!(res.attributes[0].key, "action");
    assert_eq!(res.attributes[0].value, "execute_update_admin");
    assert_eq!(res.attributes[1].key, "old_admin");
    assert_eq!(res.attributes[1].value, "admin");
    assert_eq!(res.attributes[2].key, "new_admin");
    assert_eq!(res.attributes[2].value, "new_admin");

    assert_eq!(updated_config.admin, "new_admin");
}

#[test]
fn test_execute_add_supported_tokens_unauthorized() {
    let env = mock_env();
    let info = message_info("not_admin", &[]);

    let result =
        execute_add_supported_tokens(Ok(admin_config()), &env, &info, vec!["token3".to_string()]);

    assert!(result.is_err());
    assert_eq!(result.unwrap_err(), generic("Unauthorized"));
}

#[test]
fn test_execute_add_supported_tokens_success() {
    let env = mock_env();
    let info = message_info("admin", &[]);

    let (updated_config, res) = execute_add_supported_tokens(
        Ok(admin_config()),
        &env,
        &info,
        vec!["token3".to_string(), "token4".to_string()],
    )
    .unwrap();

    assert_eq!(res.attributes.len(), 3);
    assert_eq!(res.attributes[0].key, "action");
    assert_eq!(res.attributes[0].value, "execute_add_supported_tokens");
    assert_eq!(res.attributes[1].key, "status");
    assert_eq!(res.attributes[1].value, "success");

    assert_eq!(
        updated_config.supported_tokens,
        vec![
            "token1".to_string(),
            "token2".to_string(),
            "token3".to_string(),
            "token4".to_string()
        ]
    );
}

#[test]
fn test_execute_add_supported_tokens_duplicates() {
    let env = mock_env();
    let info = message_info("admin", &[]);

    let (updated_config, res) = execute_add_supported_tokens(
        Ok(admin_config()),
        &env,
        &info,
        vec!["token2".to_string(), "token3".to_string()],
    )
    .unwrap();

    assert_eq!(res.attributes.len(), 3);
    assert_eq!(res.attributes[0].key, "action");
    assert_eq!(res.attributes[0].value, "execute_add_supported_tokens");
    assert_eq!(res.attributes[1].key, "status");
    assert_eq!(res.attributes[1].value, "success");

    assert_eq!(
        updated_config.supported_tokens,
        vec!["token1".to_string(), "token2".to_string(), "token3".to_string()]
    );
}

fn three_token_config() -> Config {
    Config {
        supported_tokens: vec!["token1".to_string(), "token2".to_string(), "token3".to_string()],
        ..admin_config()
    }
}

#[test]
fn test_execute_remove_supported_tokens_unauthorized() {
    let env = mock_env();
    let info = message_info("not_admin", &[]);

    let result = execute_remove_supported_tokens(
        Ok(three_token_config()),
        &env,
        &info,
        vec!["token2".to_string()],
    );

    assert!(result.is_err());
    assert_eq!(result.unwrap_err(), generic("Unauthorized"));
}

#[test]
fn test_execute_remove_supported_tokens_success() {
    let env = mock_env();
    let info = message_info("admin", &[]);

    let (updated_config, res) = execute_remove_supported_tokens(
        Ok(three_token_config()),
        &env,
        &info,
        vec!["token2".to_string(), "token3".to_string()],
    )
    .unwrap();

    assert_eq!(res.attributes.len(), 3);
    assert_eq!(res.attributes[0].key, "action");
    assert_eq!(res.attributes[0].value, "execute_remove_supported_tokens");
    assert_eq!(res.attributes[1].key, "status");
    assert_eq!(res.attributes[1].value, "success");

    assert_eq!(updated_config.supported_tokens, vec!["token1".to_string()]);
}

#[test]
fn test_execute_remove_supported_tokens_not_present() {
    let env = mock_env();
    let info = message_info("admin", &[]);

    let (updated_config, res) = execute_remove_supported_tokens(
        Ok(admin_config()),
        &env,
        &info,
        vec!["token3".to_string()],
    )
    .unwrap();

    assert_eq!(res.attributes.len(), 3);
    assert_eq!(res.attributes[0].key, "action");
    assert_eq!(res.attributes[0].value, "execute_remove_supported_tokens");
    assert_eq!(res.attributes[1].key, "status");
    assert_eq!(res.attributes[1].value, "success");

    assert_eq!(
        updated_config.supported_tokens,
        vec!["token1".to_string(), "token2".to_string()]
    );
}

#[test]
fn test_execute_add_supported_protocols_unauthorized() {
    let env = mock_env();
    let info = message_info("not_admin", &[]);

    let result = execute_add_supported_protocols(
        Ok(admin_config()),
        &env,
        &info,
        vec!["protocol3".to_string()],
    );

    assert!(result.is_err());
    assert_eq!(result.unwrap_err(), generic("Unauthorized"));
}

#[test]
fn test_execute_add_supported_protocols_success() {
    let env = mock_env();
    let info = message_info("admin", &[]);

    let (updated_config, res) = execute_add_supported_protocols(
        Ok(admin_config()),
        &env,
        &info,
        vec!["protocol3".to_string(), "protocol4".to_string()],
    )
    .unwrap();

    assert_eq!(res.attributes.len(), 3);
    assert_eq!(res.attributes[0].key, "action");
    assert_eq!(res.attributes[0].value, "execute_add_supported_protocols");
    assert_eq!(res.attributes[1].key, "status");
    assert_eq!(res.attributes[1].value, "success");

    assert_eq!(
        updated_config.supported_protocols,
        vec![
            "protocol1".to_string(),
            "protocol2".to_string(),
            "protocol3".to_string(),
            "protocol4".to_string()
        ]
    );
}

#[test]
fn test_execute_add_supported_protocols_duplicates() {
    let env = mock_env();
    let info = message_info("admin", &[]);

    let (updated_config, res) = execute_add_supported_protocols(
        Ok(admin_config()),
        &env,
        &info,
        vec!["protocol2".to_string(), "protocol3".to_string()],
    )
    .unwrap();

    assert_eq!(res.attributes.len(), 3);
    assert_eq!(res.attributes[0].key, "action");
    assert_eq!(res.attributes[0].value, "execute_add_supported_protocols");
    assert_eq!(res.attributes[1].key, "status");
    assert_eq!(res.attributes[1].value, "success");

    assert_eq!(
        updated_config.supported_protocols,
        vec!["protocol1".to_string(), "protocol2".to_string(), "protocol3".to_string()]
    );
}

fn three_protocol_config() -> Config {
    Config {
        supported_protocols: vec![
            "protocol1".to_string(),
            "protocol2".to_string(),
            "protocol3".to_string(),
        ],
        ..admin_config()
    }
}

#[test]
fn test_execute_remove_supported_protocols_unauthorized() {
    let env = mock_env();
    let info = message_info("not_admin", &[]);

    let result = execute_remove_supported_protocols(
        Ok(three_protocol_config()),
        &env,
        &info,
        vec!["protocol2".to_string()],
    );

    assert!(result.is_err());
    assert_eq!(result.unwrap_err(), generic("Unauthorized"));
}

#[test]
fn test_execute_remove_supported_protocols_success() {
    let env = mock_env();
    let info = message_info("admin", &[]);

    let (updated_config, res) = execute_remove_supported_protocols(
        Ok(three_protocol_config()),
        &env,
        &info,
        vec!["protocol2".to_string(), "protocol3".to_string()],
    )
    .unwrap();

    assert_eq!(res.attributes.len(), 3);
    assert_eq!(res.attributes[0].key, "action");
    assert_eq!(res.attributes[0].value, "execute_remove_supported_protocols");
    assert_eq!(res.attributes[1].key, "status");
    assert_eq!(res.attributes[1].value, "success");

    assert_eq!(updated_config.supported_protocols, vec!["protocol1".to_string()]);
}

#[test]
fn test_execute_remove_supported_protocols_not_present() {
    let env = mock_env();
    let info = message_info("admin", &[]);

    let (updated_config, res) = execute_remove_supported_protocols(
        Ok(admin_config()),
        &env,
        &info,
        vec!["protocol3".to_string()],
    )
    .unwrap();

    assert_eq!(res.attributes.len(), 3);
    assert_eq!(res.attributes[0].key, "action");
    assert_eq!(res.attributes[0].value, "execute_remove_supported_protocols");
    assert_eq!(res.attributes[1].key, "status");
    assert_eq!(res.attributes[1].value, "success");

    assert_eq!(
        updated_config.supported_protocols,
        vec!["protocol1".to_string(), "protocol2".to_string()]
    );
}

#[test]
fn test_execute_update_default_timeout_height_unauthorized() {
    let env = mock_env();
    let info = message_info("not_admin", &[]);

    let result = execute_update_default_timeout_height(Ok(admin_config()), &env, &info, 300);

    assert!(result.is_err());
    assert_eq!(result.unwrap_err(), generic("Unauthorized"));
}

#[test]
fn test_execute_update_default_timeout_height_success() {
    let env = mock_env();
    let info = message_info("admin", &[]);

    let (updated_config, res) =
        execute_update_default_timeout_height(Ok(admin_config()), &env, &info, 300).unwrap();

    assert_eq!(res.attributes.len(), 3);
    assert_eq!(res.attributes[0].key, "action");
    assert_eq!(res.attributes[0].value, "execute_update_default_timeout_height");
    assert_eq!(res.attributes[1].key, "status");
    assert_eq!(res.attributes[1].value, "success");

    assert_eq!(updated_config.default_timeout_height, 300);
}
