//! The first-caller minter, entry point by entry point.
use cosmwasm_std::StdError;
use merger_contracts::error::ContractError;
use merger_contracts::host::{
    Addr, Attribute, ContractInfo, Env, Event, MessageInfo, Reply, ReplyOn, Response, SubMsg,
    SubMsgResponse, SubMsgResult, WasmMsg,
};
use merger_contracts::xion_minter::contract::{
    address_to_validate, execute, handle_instantiate_token_reply, instantiate, instantiate_with,
    mint_tokens, mint_with, query, reply, INSTANTIATE_TOKEN_REPLY_ID,
};
use merger_contracts::xion_minter::msg::{ConfigResponse, ExecuteMsg, InstantiateMsg, QueryMsg};
use merger_contracts::xion_minter::state::Config;

fn env() -> Env {
    Env {
        contract: ContractInfo {
            address: Addr::unchecked("minter_contract"),
        },
    }
}

fn from(sender: &str) -> MessageInfo {
    MessageInfo {
        sender: Addr::unchecked(sender),
    }
}

fn attribute(key: &str, value: &str) -> Attribute {
    Attribute {
        key: key.to_string(),
        value: value.to_string(),
    }
}

fn event(ty: &str, attributes: Vec<Attribute>) -> Event {
    Event {
        ty: ty.to_string(),
        attributes,
    }
}

fn delivery(id: u64, events: Vec<Event>) -> Reply {
    Reply {
        id,
        result: SubMsgResult::Success(SubMsgResponse { events }),
    }
}

fn creation_of(address: &str) -> Reply {
    delivery(
        INSTANTIATE_TOKEN_REPLY_ID,
        vec![
            event("wasm", vec![attribute("_contract_address", "elsewhere")]),
            event(
                "instantiate",
                vec![
                    attribute("code_id", "1"),
                    attribute("_contract_address", address),
                ],
            ),
        ],
    )
}

fn unbound() -> Config {
    Config {
        token_contract: None,
        minter: None,
    }
}

fn bound() -> Config {
    Config {
        token_contract: Some(Addr::unchecked("token")),
        minter: None,
    }
}

fn rejected() -> StdError {
    StdError::generic_err("invalid address")
}

fn mint_message(token: &str, json: &str) -> SubMsg {
    SubMsg {
        id: 0,
        msg: WasmMsg::Execute {
            contract_addr: token.to_string(),
            msg: json.as_bytes().to_vec(),
            funds: vec![],
        },
        reply_on: ReplyOn::Never,
    }
}

#[test]
fn instantiate_asks_for_the_token_and_starts_empty() {
    let msg = InstantiateMsg {
        token_name: "Merger Token".to_string(),
        token_symbol: "MTKN".to_string(),
        token_decimals: 6,
        cw20_code_id: 42,
    };
    let (config, response) = instantiate(env(), from("creator"), msg).unwrap();
    assert_eq!(config, unbound());
    assert_eq!(response.messages.len(), 1);
    let sub = &response.messages[0];
    assert_eq!(sub.id, 1);
    assert_eq!(sub.reply_on, ReplyOn::Success);
    match &sub.msg {
        WasmMsg::Instantiate {
            admin,
            code_id,
            msg,
            funds,
            label,
        } => {
            assert_eq!(admin, &None);
            assert_eq!(*code_id, 42);
            assert_eq!(
                String::from_utf8(msg.clone()).unwrap(),
                "{\"name\":\"Merger Token\",\"symbol\":\"MTKN\",\"decimals\":6,\
                 \"initial_balances\":[],\
                 \"mint\":{\"minter\":\"minter_contract\",\"cap\":null},\
                 \"marketing\":null}"
            );
            assert!(funds.is_empty());
            assert_eq!(label, "merger token creation");
        }
        other => panic!("no creation: {:?}", other),
    }
    assert_eq!(
        response.attributes,
        vec![
            attribute("action", "instantiate"),
            attribute("minter", "creator"),
        ]
    );
}

#[test]
fn instantiate_hands_any_decimals_on() {
    let msg = InstantiateMsg {
        token_name: "T".to_string(),
        token_symbol: "T".to_string(),
        token_decimals: 255,
        cw20_code_id: 0,
    };
    let (_, response) = instantiate(env(), from("creator"), msg).unwrap();
    match &response.messages[0].msg {
        WasmMsg::Instantiate { msg, .. } => {
            assert!(String::from_utf8(msg.clone())
                .unwrap()
                .contains("\"decimals\":255"));
        }
        other => panic!("no creation: {:?}", other),
    }
}

#[test]
fn reply_binds_the_reported_address() {
    let mut config = unbound();
    let response = reply(&mut config, env(), creation_of("token1"), Ok(())).unwrap();
    assert_eq!(config.token_contract, Some(Addr::unchecked("token1")));
    assert_eq!(config.minter, None);
    assert!(response.messages.is_empty());
    assert_eq!(
        response.attributes,
        vec![
            attribute("method", "handle_cw20_instantiate_reply"),
            attribute("cw20_contract_addr", "token1"),
        ]
    );
}

#[test]
fn reply_under_another_id_changes_nothing() {
    let mut config = unbound();
    let mut other = creation_of("token1");
    other.id = 2;
    let response = reply(&mut config, env(), other, Ok(())).unwrap();
    assert_eq!(config, unbound());
    assert_eq!(response, Response::new());

    let failed = Reply {
        id: 7,
        result: SubMsgResult::Failure("out of gas".to_string()),
    };
    let response = reply(&mut config, env(), failed, Err(rejected())).unwrap();
    assert_eq!(config, unbound());
    assert_eq!(response, Response::new());
}

#[test]
fn reply_of_a_failed_creation_is_refused() {
    let mut config = unbound();
    let failed = Reply {
        id: INSTANTIATE_TOKEN_REPLY_ID,
        result: SubMsgResult::Failure("out of gas".to_string()),
    };
    assert_eq!(
        reply(&mut config, env(), failed, Ok(())),
        Err(ContractError::MissingResourceAddress)
    );
    assert_eq!(config, unbound());
}

#[test]
fn reply_without_an_address_is_refused() {
    let mut config = unbound();
    let no_events = delivery(INSTANTIATE_TOKEN_REPLY_ID, vec![]);
    assert_eq!(
        reply(&mut config, env(), no_events, Ok(())),
        Err(ContractError::MissingResourceAddress)
    );
    let other_events = delivery(
        INSTANTIATE_TOKEN_REPLY_ID,
        vec![event("wasm", vec![attribute("_contract_address", "token1")])],
    );
    assert_eq!(
        reply(&mut config, env(), other_events, Ok(())),
        Err(ContractError::MissingResourceAddress)
    );
    let no_attribute = delivery(
        INSTANTIATE_TOKEN_REPLY_ID,
        vec![event("instantiate", vec![attribute("code_id", "1")])],
    );
    assert_eq!(
        reply(&mut config, env(), no_attribute, Ok(())),
        Err(ContractError::MissingResourceAddress)
    );
    assert_eq!(config, unbound());
}

#[test]
fn reply_reads_the_first_instantiate_event_only() {
    let mut config = unbound();
    let second_has_it = delivery(
        INSTANTIATE_TOKEN_REPLY_ID,
        vec![
            event("instantiate", vec![attribute("code_id", "1")]),
            event("instantiate", vec![attribute("_contract_address", "late")]),
        ],
    );
    assert_eq!(
        reply(&mut config, env(), second_has_it, Ok(())),
        Err(ContractError::MissingResourceAddress)
    );
    let two_addresses = delivery(
        INSTANTIATE_TOKEN_REPLY_ID,
        vec![event(
            "instantiate",
            vec![
                attribute("_contract_address", "first"),
                attribute("_contract_address", "second"),
            ],
        )],
    );
    reply(&mut config, env(), two_addresses, Ok(())).unwrap();
    assert_eq!(config.token_contract, Some(Addr::unchecked("first")));
}

#[test]
fn reply_with_a_rejected_address_is_refused() {
    let mut config = unbound();
    assert_eq!(
        reply(&mut config, env(), creation_of("token1"), Err(rejected())),
        Err(ContractError::Std(rejected()))
    );
    assert_eq!(config, unbound());
}

#[test]
fn failed_delivery_does_not_block_a_later_one() {
    // Set up, then an outcome without an instantiate event.
    let msg = InstantiateMsg {
        token_name: "Merger Token".to_string(),
        token_symbol: "MTKN".to_string(),
        token_decimals: 6,
        cw20_code_id: 1,
    };
    let (mut config, _) = instantiate(env(), from("creator"), msg).unwrap();
    let without_event = delivery(
        INSTANTIATE_TOKEN_REPLY_ID,
        vec![event("wasm", vec![attribute("action", "none")])],
    );
    assert_eq!(
        reply(&mut config, env(), without_event, Ok(())),
        Err(ContractError::MissingResourceAddress)
    );
    assert_eq!(config.token_contract, None);
    // Mints fail meanwhile.
    assert_eq!(
        mint_tokens(&mut config, env(), from("alice"), 5, None, Ok(())),
        Err(ContractError::NoChildResource)
    );
    // A later, well-formed outcome under the same id binds.
    reply(&mut config, env(), creation_of("token1"), Ok(())).unwrap();
    assert_eq!(config.token_contract, Some(Addr::unchecked("token1")));
}

#[test]
fn bound_token_is_never_replaced() {
    let mut config = unbound();
    reply(&mut config, env(), creation_of("token1"), Ok(())).unwrap();
    let response = reply(&mut config, env(), creation_of("token2"), Ok(())).unwrap();
    assert_eq!(config.token_contract, Some(Addr::unchecked("token1")));
    assert_eq!(
        response.attributes,
        vec![
            attribute("method", "handle_cw20_instantiate_reply"),
            attribute("cw20_contract_addr", "token1"),
        ]
    );
    // Nor is it cleared by an outcome that is refused.
    let failed = Reply {
        id: INSTANTIATE_TOKEN_REPLY_ID,
        result: SubMsgResult::Failure("late".to_string()),
    };
    assert!(handle_instantiate_token_reply(&mut config, failed, Ok(())).is_err());
    assert_eq!(config.token_contract, Some(Addr::unchecked("token1")));
    // Nor by mints.
    mint_tokens(&mut config, env(), from("alice"), 5, None, Ok(())).unwrap();
    assert_eq!(config.token_contract, Some(Addr::unchecked("token1")));
}

#[test]
fn mint_before_binding_fails_for_everyone() {
    for (sender, amount) in [("alice", 5u128), ("bob", 0), ("minter_contract", 1)] {
        let mut config = unbound();
        assert_eq!(
            mint_tokens(&mut config, env(), from(sender), amount, None, Ok(())),
            Err(ContractError::NoChildResource)
        );
        assert_eq!(config, unbound());
    }
    // The same with a minter in the record.
    let mut config = Config {
        token_contract: None,
        minter: Some(Addr::unchecked("alice")),
    };
    assert_eq!(
        mint_tokens(&mut config, env(), from("bob"), 5, None, Err(rejected())),
        Err(ContractError::NoChildResource)
    );
}

#[test]
fn first_account_to_mint_becomes_the_minter() {
    let mut config = bound();
    let response = mint_tokens(
        &mut config,
        env(),
        from("alice"),
        1000,
        Some("recipient1".to_string()),
        Ok(()),
    )
    .unwrap();
    assert_eq!(config.minter, Some(Addr::unchecked("alice")));
    assert_eq!(
        response.messages,
        vec![mint_message(
            "token",
            "{\"mint\":{\"recipient\":\"recipient1\",\"amount\":\"1000\"}}"
        )]
    );
    assert_eq!(
        response.attributes,
        vec![
            attribute("action", "mint_tokens"),
            attribute("sender", "alice"),
            attribute("final_recipient", "recipient1"),
            attribute("amount", "1000"),
        ]
    );

    // Another account is refused, whatever it asks for.
    assert_eq!(
        mint_tokens(&mut config, env(), from("bob"), 1000, None, Ok(())),
        Err(ContractError::Unauthorized)
    );
    assert_eq!(
        mint_tokens(&mut config, env(), from("bob"), 0, None, Ok(())),
        Err(ContractError::Unauthorized)
    );
    assert_eq!(config.minter, Some(Addr::unchecked("alice")));

    // The minter mints again, and again.
    for _ in 0..3 {
        mint_tokens(&mut config, env(), from("alice"), 1, None, Ok(())).unwrap();
        assert_eq!(config.minter, Some(Addr::unchecked("alice")));
    }
}

#[test]
fn mint_goes_to_the_caller_where_no_recipient_is_named() {
    let mut config = bound();
    let response = mint_tokens(&mut config, env(), from("alice"), 7, None, Ok(())).unwrap();
    assert_eq!(
        response.messages,
        vec![mint_message(
            "token",
            "{\"mint\":{\"recipient\":\"alice\",\"amount\":\"7\"}}"
        )]
    );
    assert_eq!(response.attributes[2], attribute("final_recipient", "alice"));
    assert_eq!(address_to_validate(&from("alice"), &ExecuteMsg::Mint { amount: 7, recipient: None }), "alice");
    assert_eq!(
        address_to_validate(
            &from("alice"),
            &ExecuteMsg::Mint {
                amount: 7,
                recipient: Some("carol".to_string())
            }
        ),
        "carol"
    );
}

#[test]
fn mint_of_the_largest_amount_is_written_in_full() {
    let mut config = bound();
    let response =
        mint_tokens(&mut config, env(), from("alice"), u128::MAX, None, Ok(())).unwrap();
    assert_eq!(
        response.attributes[3],
        attribute("amount", "340282366920938463463374607431768211455")
    );
    assert_eq!(
        response.messages,
        vec![mint_message(
            "token",
            "{\"mint\":{\"recipient\":\"alice\",\
             \"amount\":\"340282366920938463463374607431768211455\"}}"
        )]
    );
}

#[test]
fn mint_of_zero_is_refused_and_claims_nothing() {
    // Before there is a minter.
    let mut config = bound();
    assert_eq!(
        mint_tokens(&mut config, env(), from("alice"), 0, None, Ok(())),
        Err(ContractError::InvalidAmount)
    );
    assert_eq!(config, bound());
    // For the minter.
    mint_tokens(&mut config, env(), from("alice"), 1, None, Ok(())).unwrap();
    assert_eq!(
        mint_tokens(&mut config, env(), from("alice"), 0, None, Ok(())),
        Err(ContractError::InvalidAmount)
    );
    // Whatever the host says of the recipient.
    assert_eq!(
        mint_tokens(&mut config, env(), from("alice"), 0, None, Err(rejected())),
        Err(ContractError::InvalidAmount)
    );
}

#[test]
fn mint_to_a_rejected_recipient_is_refused_and_claims_nothing() {
    let mut config = bound();
    assert_eq!(
        mint_tokens(
            &mut config,
            env(),
            from("alice"),
            5,
            Some("Bad Address".to_string()),
            Err(rejected())
        ),
        Err(ContractError::Std(rejected()))
    );
    assert_eq!(config, bound());
    // The next caller can still become the minter.
    mint_tokens(&mut config, env(), from("bob"), 5, None, Ok(())).unwrap();
    assert_eq!(config.minter, Some(Addr::unchecked("bob")));
}

#[test]
fn execute_mints() {
    let mut config = bound();
    let msg = ExecuteMsg::Mint {
        amount: 3,
        recipient: Some("carol".to_string()),
    };
    let response = execute(&mut config, env(), from("alice"), msg, Ok(())).unwrap();
    assert_eq!(
        response.messages,
        vec![mint_message(
            "token",
            "{\"mint\":{\"recipient\":\"carol\",\"amount\":\"3\"}}"
        )]
    );
    assert_eq!(config.minter, Some(Addr::unchecked("alice")));
    let msg = ExecuteMsg::Mint {
        amount: 3,
        recipient: None,
    };
    assert_eq!(
        execute(&mut config, env(), from("bob"), msg, Ok(())),
        Err(ContractError::Unauthorized)
    );
}

#[test]
fn query_shows_the_record() {
    assert_eq!(
        query(&unbound(), env(), QueryMsg::GetConfig {}),
        ConfigResponse {
            minter: None,
            token_contract: None
        }
    );
    let config = Config {
        token_contract: Some(Addr::unchecked("token")),
        minter: Some(Addr::unchecked("alice")),
    };
    assert_eq!(
        query(&config, env(), QueryMsg::GetConfig {}),
        ConfigResponse {
            minter: Some("alice".to_string()),
            token_contract: Some("token".to_string())
        }
    );
}

#[test]
fn token_contract_is_absent_until_bound_and_present_after() {
    let mut config = unbound();
    // Calls that bind nothing.
    let _ = mint_tokens(&mut config, env(), from("alice"), 5, None, Ok(()));
    let _ = reply(&mut config, env(), creation_of("rejected"), Err(rejected()));
    let _ = reply(&mut config, env(), delivery(1, vec![]), Ok(()));
    let mut other = creation_of("other");
    other.id = 9;
    let _ = reply(&mut config, env(), other, Ok(()));
    assert_eq!(config.token_contract, None);
    // The first delivery that binds.
    reply(&mut config, env(), creation_of("token1"), Ok(())).unwrap();
    // Whatever follows.
    let _ = mint_tokens(&mut config, env(), from("alice"), 5, None, Ok(()));
    let _ = mint_tokens(&mut config, env(), from("bob"), 0, None, Ok(()));
    let _ = reply(&mut config, env(), creation_of("token2"), Ok(()));
    let _ = reply(&mut config, env(), delivery(1, vec![]), Ok(()));
    assert_eq!(config.token_contract, Some(Addr::unchecked("token1")));
}

fn not_written() -> StdError {
    StdError::generic_err("cannot be written")
}

#[test]
fn instantiate_without_a_creation_message_fails() {
    let msg = || InstantiateMsg {
        token_name: "Merger Token".to_string(),
        token_symbol: "MTKN".to_string(),
        token_decimals: 6,
        cw20_code_id: 42,
    };
    assert_eq!(
        instantiate_with(from("creator"), msg(), Err(not_written())),
        Err(ContractError::Std(not_written()))
    );
    let (config, response) =
        instantiate_with(from("creator"), msg(), Ok(b"creation".to_vec())).unwrap();
    assert_eq!(config, unbound());
    assert_eq!(
        response.messages,
        vec![SubMsg {
            id: 1,
            msg: WasmMsg::Instantiate {
                admin: None,
                code_id: 42,
                msg: b"creation".to_vec(),
                funds: vec![],
                label: "merger token creation".to_string(),
            },
            reply_on: ReplyOn::Success,
        }]
    );
}

#[test]
fn mint_tests_are_made_in_order() {
    let alice = || from("alice");
    // No token: nothing else is looked at.
    let mut config = Config {
        token_contract: None,
        minter: Some(Addr::unchecked("bob")),
    };
    assert_eq!(
        mint_with(
            &mut config,
            alice(),
            0,
            "x".to_string(),
            Err(rejected()),
            Err(not_written())
        ),
        Err(ContractError::NoChildResource)
    );
    // Another minter: the amount is not looked at.
    let mut config = Config {
        token_contract: Some(Addr::unchecked("token")),
        minter: Some(Addr::unchecked("bob")),
    };
    assert_eq!(
        mint_with(
            &mut config,
            alice(),
            0,
            "x".to_string(),
            Err(rejected()),
            Err(not_written())
        ),
        Err(ContractError::Unauthorized)
    );
    // Zero: the host's verdict is not looked at.
    let mut config = bound();
    assert_eq!(
        mint_with(
            &mut config,
            alice(),
            0,
            "x".to_string(),
            Err(rejected()),
            Err(not_written())
        ),
        Err(ContractError::InvalidAmount)
    );
    // A rejected recipient: the message is not looked at.
    assert_eq!(
        mint_with(
            &mut config,
            alice(),
            1,
            "x".to_string(),
            Err(rejected()),
            Err(not_written())
        ),
        Err(ContractError::Std(rejected()))
    );
    // No message.
    assert_eq!(
        mint_with(
            &mut config,
            alice(),
            1,
            "x".to_string(),
            Ok(()),
            Err(not_written())
        ),
        Err(ContractError::Std(not_written()))
    );
    // None of the refused mints has made alice the minter.
    assert_eq!(config, bound());
    let response = mint_with(
        &mut config,
        alice(),
        1,
        "x".to_string(),
        Ok(()),
        Ok(b"mint".to_vec()),
    )
    .unwrap();
    assert_eq!(config.minter, Some(Addr::unchecked("alice")));
    assert_eq!(response.messages, vec![mint_message("token", "mint")]);
    assert_eq!(
        response.attributes,
        vec![
            attribute("action", "mint_tokens"),
            attribute("sender", "alice"),
            attribute("final_recipient", "x"),
            attribute("amount", "1"),
        ]
    );
}
