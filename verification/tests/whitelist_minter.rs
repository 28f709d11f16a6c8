//! The minter with an admin and an access list, entry point by entry point.
use cosmwasm_std::StdError;
use merger_contracts::error::ContractError;
use merger_contracts::host::{
    Addr, Attribute, ContractInfo, Env, Event, MessageInfo, Reply, ReplyOn, Response, SubMsg,
    SubMsgResponse, SubMsgResult, WasmMsg,
};
use merger_contracts::whitelist_minter::contract::{
    add_to_whitelist, address_to_validate, execute, handle_instantiate_token_reply, instantiate,
    instantiate_with, mint_tokens, mint_with, query, remove_from_whitelist, reply,
    INSTANTIATE_TOKEN_REPLY_ID,
};
use merger_contracts::whitelist_minter::msg::{
    ConfigResponse, ExecuteMsg, InstantiateMsg, QueryMsg, QueryResponse,
};
use merger_contracts::whitelist_minter::state::{Config, Whitelist};

fn env() -> Env {
    Env {
        contract: ContractInfo {
            address: Addr::unchecked("minter_contract"),
        },
    }
}

fn from(sender: &str) -> MessageInfo {
    MessageInfo {
        sender: Addr::unchecked(sender),
    }
}

fn attribute(key: &str, value: &str) -> Attribute {
    Attribute {
        key: key.to_string(),
        value: value.to_string(),
    }
}

fn creation_of(address: &str) -> Reply {
    Reply {
        id: INSTANTIATE_TOKEN_REPLY_ID,
        result: SubMsgResult::Success(SubMsgResponse {
            events: vec![Event {
                ty: "instantiate".to_string(),
                attributes: vec![attribute("_contract_address", address)],
            }],
        }),
    }
}

fn unbound() -> Config {
    Config {
        admin: Addr::unchecked("admin"),
        token_contract: None,
    }
}

fn bound() -> Config {
    Config {
        admin: Addr::unchecked("admin"),
        token_contract: Some(Addr::unchecked("token")),
    }
}

fn rejected() -> StdError {
    StdError::generic_err("invalid address")
}

fn mint_message(token: &str, json: &str) -> SubMsg {
    SubMsg {
        id: 0,
        msg: WasmMsg::Execute {
            contract_addr: token.to_string(),
            msg: json.as_bytes().to_vec(),
            funds: vec![],
        },
        reply_on: ReplyOn::Never,
    }
}

fn init_msg() -> InstantiateMsg {
    InstantiateMsg {
        admin: "admin".to_string(),
        token_name: "Factory Token".to_string(),
        token_symbol: "FTKN".to_string(),
        token_decimals: 18,
        token_code_id: 7,
    }
}

#[test]
fn instantiate_sets_the_admin_and_asks_for_the_token() {
    let (config, response) = instantiate(env(), from("creator"), init_msg(), Ok(())).unwrap();
    assert_eq!(config, unbound());
    assert_eq!(response.messages.len(), 1);
    let sub = &response.messages[0];
    assert_eq!(sub.id, 1);
    assert_eq!(sub.reply_on, ReplyOn::Success);
    match &sub.msg {
        WasmMsg::Instantiate {
            admin,
            code_id,
            msg,
            funds,
            label,
        } => {
            assert_eq!(admin, &Some("admin".to_string()));
            assert_eq!(*code_id, 7);
            assert_eq!(
                String::from_utf8(msg.clone()).unwrap(),
                "{\"name\":\"Factory Token\",\"symbol\":\"FTKN\",\"decimals\":18,\
                 \"initial_balances\":[],\
                 \"mint\":{\"minter\":\"minter_contract\",\"cap\":null},\
                 \"marketing\":null}"
            );
            assert!(funds.is_empty());
            assert_eq!(label, "factory token creation");
        }
        other => panic!("no creation: {:?}", other),
    }
    assert_eq!(
        response.attributes,
        vec![
            attribute("action", "instantiate"),
            attribute("admin", "admin"),
        ]
    );
}

#[test]
fn instantiate_with_a_rejected_admin_is_refused() {
    assert_eq!(
        instantiate(env(), from("creator"), init_msg(), Err(rejected())),
        Err(ContractError::Std(rejected()))
    );
}

#[test]
fn reply_binds_once() {
    let mut config = unbound();
    let mut other = creation_of("token1");
    other.id = 5;
    assert_eq!(
        reply(&mut config, env(), other, Ok(())),
        Ok(Response::new())
    );
    assert_eq!(config, unbound());
    let failed = Reply {
        id: INSTANTIATE_TOKEN_REPLY_ID,
        result: SubMsgResult::Failure("failed".to_string()),
    };
    assert_eq!(
        reply(&mut config, env(), failed, Ok(())),
        Err(ContractError::MissingResourceAddress)
    );
    assert_eq!(
        handle_instantiate_token_reply(&mut config, creation_of("token1"), Err(rejected())),
        Err(ContractError::Std(rejected()))
    );
    assert_eq!(config, unbound());
    let response = reply(&mut config, env(), creation_of("token1"), Ok(())).unwrap();
    assert_eq!(
        response.attributes,
        vec![
            attribute("method", "handle_cw20_instantiate_reply"),
            attribute("cw20_contract_addr", "token1"),
        ]
    );
    reply(&mut config, env(), creation_of("token2"), Ok(())).unwrap();
    assert_eq!(config.token_contract, Some(Addr::unchecked("token1")));
    assert_eq!(config.admin, Addr::unchecked("admin"));
}

#[test]
fn mint_before_binding_fails_for_everyone_on_the_list_or_not() {
    let mut whitelist = Whitelist::new();
    whitelist.insert(Addr::unchecked("alice"));
    for sender in ["admin", "alice", "bob"] {
        assert_eq!(
            mint_tokens(&unbound(), &whitelist, env(), from(sender), 5, None, Ok(())),
            Err(ContractError::NoChildResource)
        );
    }
}

#[test]
fn admin_mints_any_amount() {
    let whitelist = Whitelist::new();
    let response = mint_tokens(
        &bound(),
        &whitelist,
        env(),
        from("admin"),
        1000,
        Some("recipient1".to_string()),
        Ok(()),
    )
    .unwrap();
    assert_eq!(
        response.messages,
        vec![mint_message(
            "token",
            "{\"mint\":{\"recipient\":\"recipient1\",\"amount\":\"1000\"}}"
        )]
    );
    assert_eq!(
        response.attributes,
        vec![
            attribute("action", "mint_tokens"),
            attribute("sender", "admin"),
            attribute("final_recipient", "recipient1"),
            attribute("amount", "1000"),
        ]
    );
    // Zero is handed on as it is.
    let response =
        mint_tokens(&bound(), &whitelist, env(), from("admin"), 0, None, Ok(())).unwrap();
    assert_eq!(
        response.messages,
        vec![mint_message(
            "token",
            "{\"mint\":{\"recipient\":\"admin\",\"amount\":\"0\"}}"
        )]
    );
}

#[test]
fn stranger_does_not_mint() {
    let mut whitelist = Whitelist::new();
    whitelist.insert(Addr::unchecked("alice"));
    assert_eq!(
        mint_tokens(&bound(), &whitelist, env(), from("bob"), 5, None, Ok(())),
        Err(ContractError::Unauthorized)
    );
    // Not even where the host rejects the recipient: the caller is tested
    // first.
    assert_eq!(
        mint_tokens(
            &bound(),
            &whitelist,
            env(),
            from("bob"),
            5,
            None,
            Err(rejected())
        ),
        Err(ContractError::Unauthorized)
    );
}

#[test]
fn listed_account_mints_until_it_is_taken_off() {
    let config = bound();
    let mut whitelist = Whitelist::new();
    assert_eq!(
        mint_tokens(&config, &whitelist, env(), from("alice"), 5, None, Ok(())),
        Err(ContractError::Unauthorized)
    );

    let response = add_to_whitelist(
        &config,
        &mut whitelist,
        env(),
        from("admin"),
        "alice".to_string(),
        Ok(()),
    )
    .unwrap();
    assert_eq!(
        response,
        Response {
            messages: vec![],
            attributes: vec![
                attribute("action", "add_to_whitelist"),
                attribute("whitelist_addr", "alice"),
            ],
        }
    );
    let response =
        mint_tokens(&config, &whitelist, env(), from("alice"), 5, None, Ok(())).unwrap();
    assert_eq!(
        response.messages,
        vec![mint_message(
            "token",
            "{\"mint\":{\"recipient\":\"alice\",\"amount\":\"5\"}}"
        )]
    );

    let response = remove_from_whitelist(
        &config,
        &mut whitelist,
        env(),
        from("admin"),
        "alice".to_string(),
        Ok(()),
    )
    .unwrap();
    assert_eq!(
        response,
        Response {
            messages: vec![],
            attributes: vec![
                attribute("action", "remove_from_whitelist"),
                attribute("whitelist_addr", "alice"),
            ],
        }
    );
    assert_eq!(
        mint_tokens(&config, &whitelist, env(), from("alice"), 5, None, Ok(())),
        Err(ContractError::Unauthorized)
    );
}

#[test]
fn admin_mints_even_when_taken_off_the_list() {
    let config = bound();
    let mut whitelist = Whitelist::new();
    remove_from_whitelist(
        &config,
        &mut whitelist,
        env(),
        from("admin"),
        "admin".to_string(),
        Ok(()),
    )
    .unwrap();
    assert!(mint_tokens(&config, &whitelist, env(), from("admin"), 5, None, Ok(())).is_ok());
}

#[test]
fn only_the_admin_changes_the_list() {
    let config = bound();
    let mut whitelist = Whitelist::new();
    whitelist.insert(Addr::unchecked("alice"));
    assert_eq!(
        add_to_whitelist(
            &config,
            &mut whitelist,
            env(),
            from("alice"),
            "bob".to_string(),
            Ok(())
        ),
        Err(ContractError::Unauthorized)
    );
    assert!(!whitelist.contains(&Addr::unchecked("bob")));
    assert_eq!(
        remove_from_whitelist(
            &config,
            &mut whitelist,
            env(),
            from("bob"),
            "alice".to_string(),
            Ok(())
        ),
        Err(ContractError::Unauthorized)
    );
    assert!(whitelist.contains(&Addr::unchecked("alice")));
    // A rejected address changes nothing either.
    assert_eq!(
        add_to_whitelist(
            &config,
            &mut whitelist,
            env(),
            from("admin"),
            "Bad".to_string(),
            Err(rejected())
        ),
        Err(ContractError::Std(rejected()))
    );
    assert!(!whitelist.contains(&Addr::unchecked("Bad")));
    assert_eq!(
        remove_from_whitelist(
            &config,
            &mut whitelist,
            env(),
            from("admin"),
            "alice".to_string(),
            Err(rejected())
        ),
        Err(ContractError::Std(rejected()))
    );
    assert!(whitelist.contains(&Addr::unchecked("alice")));
}

#[test]
fn adding_twice_and_removing_the_absent_succeed() {
    let config = bound();
    let mut whitelist = Whitelist::new();
    for _ in 0..2 {
        add_to_whitelist(
            &config,
            &mut whitelist,
            env(),
            from("admin"),
            "alice".to_string(),
            Ok(()),
        )
        .unwrap();
        assert!(whitelist.contains(&Addr::unchecked("alice")));
    }
    // One removal takes the account off, however often it was added.
    for _ in 0..2 {
        remove_from_whitelist(
            &config,
            &mut whitelist,
            env(),
            from("admin"),
            "alice".to_string(),
            Ok(()),
        )
        .unwrap();
        assert!(!whitelist.contains(&Addr::unchecked("alice")));
    }
    remove_from_whitelist(
        &config,
        &mut whitelist,
        env(),
        from("admin"),
        "never_listed".to_string(),
        Ok(()),
    )
    .unwrap();
}

#[test]
fn access_list_holds_accounts_apart() {
    let mut whitelist = Whitelist::new();
    assert!(!whitelist.contains(&Addr::unchecked("alice")));
    whitelist.insert(Addr::unchecked("alice"));
    whitelist.insert(Addr::unchecked("bob"));
    whitelist.insert(Addr::unchecked("carol"));
    whitelist.remove(&Addr::unchecked("bob"));
    assert!(whitelist.contains(&Addr::unchecked("alice")));
    assert!(!whitelist.contains(&Addr::unchecked("bob")));
    assert!(whitelist.contains(&Addr::unchecked("carol")));
    assert!(!whitelist.contains(&Addr::unchecked("Alice")));
}

#[test]
fn execute_runs_each_kind_of_message() {
    let config = bound();
    let mut whitelist = Whitelist::new();
    let add = ExecuteMsg::AddToWhiteList {
        address: "alice".to_string(),
    };
    assert_eq!(address_to_validate(&from("admin"), &add), "alice");
    execute(&config, &mut whitelist, env(), from("admin"), add, Ok(())).unwrap();
    assert!(whitelist.contains(&Addr::unchecked("alice")));

    let mint = ExecuteMsg::Mint {
        amount: 9,
        recipient: None,
    };
    assert_eq!(address_to_validate(&from("alice"), &mint), "alice");
    let response =
        execute(&config, &mut whitelist, env(), from("alice"), mint, Ok(())).unwrap();
    assert_eq!(
        response.messages,
        vec![mint_message(
            "token",
            "{\"mint\":{\"recipient\":\"alice\",\"amount\":\"9\"}}"
        )]
    );

    let remove = ExecuteMsg::RemoveFromWhiteList {
        address: "alice".to_string(),
    };
    assert_eq!(address_to_validate(&from("admin"), &remove), "alice");
    execute(&config, &mut whitelist, env(), from("admin"), remove, Ok(())).unwrap();
    assert!(!whitelist.contains(&Addr::unchecked("alice")));

    let mint = ExecuteMsg::Mint {
        amount: 9,
        recipient: Some("carol".to_string()),
    };
    assert_eq!(address_to_validate(&from("alice"), &mint), "carol");
    assert_eq!(
        execute(&config, &mut whitelist, env(), from("alice"), mint, Ok(())),
        Err(ContractError::Unauthorized)
    );
}

#[test]
fn query_shows_the_record_and_the_list() {
    let mut whitelist = Whitelist::new();
    whitelist.insert(Addr::unchecked("alice"));
    assert_eq!(
        query(
            &bound(),
            &whitelist,
            env(),
            QueryMsg::GetConfig {},
            Err(rejected())
        ),
        Ok(QueryResponse::Config(ConfigResponse {
            admin: "admin".to_string(),
            token_contract: Some("token".to_string()),
        }))
    );
    assert_eq!(
        query(
            &unbound(),
            &whitelist,
            env(),
            QueryMsg::IsWhitelisted {
                address: "alice".to_string()
            },
            Ok(())
        ),
        Ok(QueryResponse::IsWhitelisted(true))
    );
    assert_eq!(
        query(
            &unbound(),
            &whitelist,
            env(),
            QueryMsg::IsWhitelisted {
                address: "bob".to_string()
            },
            Ok(())
        ),
        Ok(QueryResponse::IsWhitelisted(false))
    );
    assert_eq!(
        query(
            &unbound(),
            &whitelist,
            env(),
            QueryMsg::IsWhitelisted {
                address: "alice".to_string()
            },
            Err(rejected())
        ),
        Err(rejected())
    );
}

fn not_written() -> StdError {
    StdError::generic_err("cannot be written")
}

#[test]
fn instantiate_tests_the_admin_before_the_message() {
    assert_eq!(
        instantiate_with(
            from("creator"),
            init_msg(),
            Err(rejected()),
            Err(not_written())
        ),
        Err(ContractError::Std(rejected()))
    );
    assert_eq!(
        instantiate_with(from("creator"), init_msg(), Ok(()), Err(not_written())),
        Err(ContractError::Std(not_written()))
    );
    let (config, response) =
        instantiate_with(from("creator"), init_msg(), Ok(()), Ok(b"creation".to_vec())).unwrap();
    assert_eq!(config, unbound());
    assert_eq!(
        response.messages,
        vec![SubMsg {
            id: 1,
            msg: WasmMsg::Instantiate {
                admin: Some("admin".to_string()),
                code_id: 7,
                msg: b"creation".to_vec(),
                funds: vec![],
                label: "factory token creation".to_string(),
            },
            reply_on: ReplyOn::Success,
        }]
    );
}

#[test]
fn listed_mint_tests_are_made_in_order() {
    let whitelist = Whitelist::new();
    assert_eq!(
        mint_with(
            &unbound(),
            &whitelist,
            from("bob"),
            1,
            "x".to_string(),
            Err(rejected()),
            Err(not_written())
        ),
        Err(ContractError::NoChildResource)
    );
    assert_eq!(
        mint_with(
            &bound(),
            &whitelist,
            from("bob"),
            1,
            "x".to_string(),
            Err(rejected()),
            Err(not_written())
        ),
        Err(ContractError::Unauthorized)
    );
    assert_eq!(
        mint_with(
            &bound(),
            &whitelist,
            from("admin"),
            1,
            "x".to_string(),
            Err(rejected()),
            Err(not_written())
        ),
        Err(ContractError::Std(rejected()))
    );
    assert_eq!(
        mint_with(
            &bound(),
            &whitelist,
            from("admin"),
            1,
            "x".to_string(),
            Ok(()),
            Err(not_written())
        ),
        Err(ContractError::Std(not_written()))
    );
    let response = mint_with(
        &bound(),
        &whitelist,
        from("admin"),
        1,
        "x".to_string(),
        Ok(()),
        Ok(b"mint".to_vec()),
    )
    .unwrap();
    assert_eq!(response.messages, vec![mint_message("token", "mint")]);
}
