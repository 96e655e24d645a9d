use token_controller::error::{ContractError, PaymentIssue};
use token_controller::payment::CoinVal;
use token_controller::response::{AttrValue, RegistryMsg, SubMsg, TokenResponse};
use token_controller::token::{
    commit_full_denom, execute, instantiate, migrate, query, reply, ExecuteMsg, QueryMsg,
    TokenState, CREATE_DENOM_REPLY_ID,
};

fn created_state() -> TokenState {
    let (state, _) = instantiate(Some("core".to_string()), "sub".to_string()).unwrap();
    state
}

fn coin(denom: &str, amount: u128) -> CoinVal {
    CoinVal::new(denom.to_string(), amount)
}

#[test]
fn instantiate_rejects_missing_address() {
    let r = instantiate(None, "sub".to_string());
    assert_eq!(r.unwrap_err(), ContractError::InvalidAddress);
}

#[test]
fn instantiate_rejects_empty_address() {
    let r = instantiate(Some(String::new()), "sub".to_string());
    assert_eq!(r.unwrap_err(), ContractError::InvalidAddress);
}

#[test]
fn instantiate_stores_authority_and_provisional_denom() {
    let (state, response) = instantiate(Some("core".to_string()), "sub".to_string()).unwrap();
    assert_eq!(state.core_address, "core");
    assert_eq!(state.denom, "sub");
    assert_eq!(response.kind, "instantiate");
    assert_eq!(response.messages, vec![]);
    assert_eq!(
        response.submessages,
        vec![SubMsg {
            msg: RegistryMsg::CreateDenom { subdenom: "sub".to_string() },
            reply_id: CREATE_DENOM_REPLY_ID,
        }]
    );
    assert_eq!(response.attributes.len(), 2);
    assert_eq!(response.attributes[0].key, "core_address");
    assert_eq!(response.attributes[0].value, AttrValue::Str("core".to_string()));
    assert_eq!(response.attributes[1].key, "subdenom");
    assert_eq!(response.attributes[1].value, AttrValue::Str("sub".to_string()));
}

#[test]
fn mint_fails_for_non_authority() {
    let state = created_state();
    let r = execute(
        &state,
        &"intruder".to_string(),
        &vec![],
        ExecuteMsg::Mint { amount: 10, receiver: "r".to_string() },
    );
    assert_eq!(r.unwrap_err(), ContractError::Unauthorized);
}

#[test]
fn burn_fails_for_non_authority() {
    let state = created_state();
    let r = execute(
        &state,
        &"intruder".to_string(),
        &vec![coin("sub", 5)],
        ExecuteMsg::Burn {},
    );
    assert_eq!(r.unwrap_err(), ContractError::Unauthorized);
}

#[test]
fn mint_of_zero_fails() {
    let state = created_state();
    let r = execute(
        &state,
        &"core".to_string(),
        &vec![],
        ExecuteMsg::Mint { amount: 0, receiver: "anyone".to_string() },
    );
    assert_eq!(r.unwrap_err(), ContractError::NothingToMint);
}

#[test]
fn mint_emits_single_mint_instruction() {
    let state = created_state();
    let response = execute(
        &state,
        &"core".to_string(),
        &vec![],
        ExecuteMsg::Mint { amount: 100, receiver: "receiver".to_string() },
    )
    .unwrap();
    assert_eq!(response.kind, "execute-mint");
    assert_eq!(
        response.messages,
        vec![RegistryMsg::MintTokens {
            denom: "sub".to_string(),
            amount: 100,
            receiver: "receiver".to_string(),
        }]
    );
    assert_eq!(response.submessages, vec![]);
    assert_eq!(response.attributes.len(), 2);
    assert_eq!(response.attributes[0].key, "amount");
    assert_eq!(
        response.attributes[0].value,
        AttrValue::Coin { amount: 100, denom: "sub".to_string() }
    );
    assert_eq!(response.attributes[1].key, "receiver");
    assert_eq!(response.attributes[1].value, AttrValue::Str("receiver".to_string()));
}

#[test]
fn burn_fails_without_funds() {
    let state = created_state();
    let r = execute(&state, &"core".to_string(), &vec![], ExecuteMsg::Burn {});
    assert_eq!(
        r.unwrap_err(),
        ContractError::InvalidPayment(PaymentIssue::NoFunds)
    );
}

#[test]
fn burn_fails_on_zero_amount() {
    let state = created_state();
    let r = execute(
        &state,
        &"core".to_string(),
        &vec![coin("sub", 0)],
        ExecuteMsg::Burn {},
    );
    assert_eq!(
        r.unwrap_err(),
        ContractError::InvalidPayment(PaymentIssue::NoFunds)
    );
}

#[test]
fn burn_fails_on_wrong_denomination() {
    let state = created_state();
    let r = execute(
        &state,
        &"core".to_string(),
        &vec![coin("other", 5)],
        ExecuteMsg::Burn {},
    );
    assert_eq!(
        r.unwrap_err(),
        ContractError::InvalidPayment(PaymentIssue::WrongDenom)
    );
}

#[test]
fn burn_fails_on_multiple_coins() {
    let state = created_state();
    let r = execute(
        &state,
        &"core".to_string(),
        &vec![coin("sub", 5), coin("other", 5)],
        ExecuteMsg::Burn {},
    );
    assert_eq!(
        r.unwrap_err(),
        ContractError::InvalidPayment(PaymentIssue::MultipleDenoms)
    );
}

#[test]
fn burn_emits_single_burn_instruction() {
    let state = created_state();
    let response = execute(
        &state,
        &"core".to_string(),
        &vec![coin("sub", 25)],
        ExecuteMsg::Burn {},
    )
    .unwrap();
    assert_eq!(response.kind, "execute-burn");
    assert_eq!(
        response.messages,
        vec![RegistryMsg::BurnTokens { denom: "sub".to_string(), amount: 25 }]
    );
    assert_eq!(response.submessages, vec![]);
    assert_eq!(response.attributes.len(), 1);
    assert_eq!(response.attributes[0].key, "amount");
    assert_eq!(
        response.attributes[0].value,
        AttrValue::Coin { amount: 25, denom: "sub".to_string() }
    );
}

#[test]
fn unknown_reply_id_is_rejected() {
    let state = created_state();
    let r = reply(&state, 7);
    assert_eq!(r.unwrap_err(), ContractError::UnknownReplyId(7));
    let r = reply(&state, 0);
    assert_eq!(r.unwrap_err(), ContractError::UnknownReplyId(0));
}

#[test]
fn provisioning_callback_commits_canonical_denom() {
    let (mut state, _) = instantiate(Some("core".to_string()), "sub".to_string()).unwrap();
    let action = reply(&state, CREATE_DENOM_REPLY_ID).unwrap();
    assert_eq!(action.subdenom, "sub");
    let response = commit_full_denom(&mut state, "factory/contract/sub".to_string());
    assert_eq!(response.kind, "reply-create-denom");
    assert_eq!(response.messages, vec![]);
    assert_eq!(response.submessages, vec![]);
    assert_eq!(response.attributes.len(), 1);
    assert_eq!(response.attributes[0].key, "denom");
    assert_eq!(
        response.attributes[0].value,
        AttrValue::Str("factory/contract/sub".to_string())
    );
    let config = query(&state, QueryMsg::Config {});
    assert_eq!(config.denom, "factory/contract/sub");
    assert_ne!(config.denom, "sub");
    assert_eq!(config.core_address, "core");
}

#[test]
fn config_query_is_idempotent() {
    let state = created_state();
    let first = query(&state, QueryMsg::Config {});
    let second = query(&state, QueryMsg::Config {});
    assert_eq!(first, second);
}

#[test]
fn migrate_changes_nothing() {
    let response: TokenResponse = migrate();
    assert_eq!(response.kind, "");
    assert_eq!(response.attributes, vec![]);
    assert_eq!(response.messages, vec![]);
    assert_eq!(response.submessages, vec![]);
}
