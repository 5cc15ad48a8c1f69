use heb_bonds::host::{Attribute, Coin, Env, MessageInfo, Response, StdError};
use heb_bonds::rcl_line::contract::{
    execute, instantiate, query, try_borrow, try_repay, try_update_trust,
};
use heb_bonds::rcl_line::msg::{ExecuteMsg, GetUserResponse, InstantiateMsg, QueryMsg};
use heb_bonds::rcl_line::state::{Borrower, CreditLine, RclUser};

fn env() -> Env {
    Env { block_time: 1_700_000_000 }
}

fn caller(who: &str) -> MessageInfo {
    MessageInfo { sender: who.to_string(), funds: vec![] }
}

fn coin(amount: u128) -> Coin {
    Coin { denom: "uusdc".to_string(), amount }
}

fn attribute(key: &str, value: &str) -> Attribute {
    Attribute { key: key.to_string(), value: value.to_string() }
}

fn user_of(line: &CreditLine, who: &str) -> Option<RclUser> {
    line.load(&who.to_string())
}

#[test]
fn credit_line_instantiate() {
    let (line, response) = instantiate(&env(), &caller("deployer"), InstantiateMsg {});
    assert!(line.users().is_empty());
    assert_eq!(
        response,
        Response { messages: vec![], attributes: vec![attribute("creator", "deployer")] }
    );
}

#[test]
fn credit_line_borrow_adds_to_the_debt() {
    let mut line = CreditLine::new();
    let response = try_borrow(&mut line, &env(), &caller("ann"), coin(250)).unwrap();
    assert_eq!(
        response,
        Response {
            messages: vec![],
            attributes: vec![attribute("action", "borrow"), attribute("amount", "250")],
        }
    );
    assert_eq!(user_of(&line, "ann"), Some(RclUser { trust_score: 80, debt: 250 }));
    try_borrow(&mut line, &env(), &caller("ann"), coin(50)).unwrap();
    assert_eq!(user_of(&line, "ann"), Some(RclUser { trust_score: 80, debt: 300 }));
    assert_eq!(user_of(&line, "ben"), None);
}

#[test]
fn credit_line_borrow_needs_trust() {
    let mut line = CreditLine::new();
    try_update_trust(&mut line, &caller("ann"), 59).unwrap();
    let before = line.users().clone();
    assert_eq!(
        try_borrow(&mut line, &env(), &caller("ann"), coin(1)),
        Err(StdError::GenericErr { msg: "Low trust score".to_string() })
    );
    assert_eq!(line.users(), &before);
    try_update_trust(&mut line, &caller("ann"), 60).unwrap();
    assert!(try_borrow(&mut line, &env(), &caller("ann"), coin(1)).is_ok());
    assert_eq!(user_of(&line, "ann"), Some(RclUser { trust_score: 60, debt: 1 }));
}

#[test]
fn credit_line_borrow_refuses_a_debt_beyond_128_bits() {
    let mut line = CreditLine::new();
    try_borrow(&mut line, &env(), &caller("ann"), coin(u128::MAX)).unwrap();
    assert_eq!(
        try_borrow(&mut line, &env(), &caller("ann"), coin(1)),
        Err(StdError::GenericErr { msg: "arithmetic overflow".to_string() })
    );
    assert_eq!(user_of(&line, "ann"), Some(RclUser { trust_score: 80, debt: u128::MAX }));
}

#[test]
fn credit_line_repay_lowers_the_debt() {
    let mut line = CreditLine::new();
    assert_eq!(
        try_repay(&mut line, &env(), &caller("ann"), coin(1)),
        Err(StdError::GenericErr { msg: "No debt record".to_string() })
    );
    try_borrow(&mut line, &env(), &caller("ann"), coin(300)).unwrap();
    let response = try_repay(&mut line, &env(), &caller("ann"), coin(100)).unwrap();
    assert_eq!(
        response.attributes,
        vec![attribute("action", "repay"), attribute("remaining_debt", "200")]
    );
    assert_eq!(user_of(&line, "ann"), Some(RclUser { trust_score: 80, debt: 200 }));
    let response = try_repay(&mut line, &env(), &caller("ann"), coin(201)).unwrap();
    assert_eq!(response.attributes[1], attribute("remaining_debt", "0"));
    assert_eq!(user_of(&line, "ann"), Some(RclUser { trust_score: 80, debt: 0 }));
}

#[test]
fn credit_line_update_trust() {
    let mut line = CreditLine::new();
    let response = try_update_trust(&mut line, &caller("ann"), 255).unwrap();
    assert_eq!(
        response.attributes,
        vec![attribute("action", "update_trust"), attribute("new_score", "255")]
    );
    assert_eq!(user_of(&line, "ann"), Some(RclUser { trust_score: 255, debt: 0 }));
    try_borrow(&mut line, &env(), &caller("ann"), coin(5)).unwrap();
    try_update_trust(&mut line, &caller("ann"), 0).unwrap();
    assert_eq!(user_of(&line, "ann"), Some(RclUser { trust_score: 0, debt: 5 }));
}

#[test]
fn credit_line_execute_and_query() {
    let mut line = CreditLine::new();
    execute(&mut line, &env(), &caller("ann"), ExecuteMsg::Borrow { amount: coin(9) }).unwrap();
    execute(&mut line, &env(), &caller("ben"), ExecuteMsg::UpdateTrust { score: 70 }).unwrap();
    execute(&mut line, &env(), &caller("ann"), ExecuteMsg::Repay { amount: coin(4) }).unwrap();
    assert_eq!(
        query(&line, &env(), QueryMsg::GetUser { address: "ann".to_string() }),
        Ok(GetUserResponse { trust_score: 80, debt: 5 })
    );
    assert_eq!(
        query(&line, &env(), QueryMsg::GetUser { address: "ben".to_string() }),
        Ok(GetUserResponse { trust_score: 70, debt: 0 })
    );
    assert_eq!(
        query(&line, &env(), QueryMsg::GetUser { address: "cat".to_string() }),
        Err(StdError::NotFound { kind: "RclUser".to_string() })
    );
    let order: Vec<&str> = line.users().iter().map(|b| b.address.as_str()).collect();
    assert_eq!(order, vec!["ann", "ben"]);
}

#[test]
fn credit_line_from_parts() {
    let record = |who: &str, debt: u128| Borrower {
        address: who.to_string(),
        user: RclUser { trust_score: 80, debt },
    };
    let line = CreditLine::from_parts(vec![record("ann", 1), record("ben", 2)]).unwrap();
    assert_eq!(user_of(&line, "ben"), Some(RclUser { trust_score: 80, debt: 2 }));
    assert!(CreditLine::from_parts(vec![record("ann", 1), record("ann", 2)]).is_none());
}

#[test]
fn std_error_texts() {
    assert_eq!(StdError::generic_err("Low trust score").message(), "Generic error: Low trust score");
    assert_eq!(StdError::not_found("RclUser").message(), "RclUser not found");
    assert_eq!(
        StdError::generic_err("x").message(),
        cosmwasm_std::StdError::generic_err("x").to_string()
    );
    assert_eq!(
        StdError::not_found("RclUser").message(),
        cosmwasm_std::StdError::not_found("RclUser").to_string()
    );
}
