use heb_bonds::bond_factory::contract::{
    execute, execute_create_series, execute_update_config, instantiate, only_admin, query,
    query_config, query_series_list, reply, validate_terms, REPLY_ID_CREATE_SERIES,
};
use heb_bonds::bond_factory::error::ContractError;
use heb_bonds::bond_factory::msg::{
    ConfigResponse, Event, ExecuteMsg, InstantiateMsg, QueryMsg, QueryResponse, Reply, Response,
    SeriesListResponse, SeriesRequest,
};
use heb_bonds::bond_factory::state::{Config, Factory};
use heb_bonds::heb_types::{BandPriceConfig, ImpactConfig, ImpactMode, SeriesTerms};
use heb_bonds::host::{Attribute, Env, MessageInfo, StdError};

fn terms(principal_denom: &str, initial_ratio: u32) -> SeriesTerms {
    SeriesTerms {
        borrower: "borrower".to_string(),
        collateral_denom: "uregen".to_string(),
        principal_denom: principal_denom.to_string(),
        principal_cap: "100000000".to_string(),
        maturity_ts: 2_000_000_000,
        base_rate_apr_bps: 1000,
        penalty_rate_apr_bps: 1500,
        coupon_period_seconds: Some(86_400),
        initial_collateral_ratio_bps: initial_ratio,
        liquidation_ratio_bps: 12_000,
        liquidation_bonus_bps: 500,
        oracle: BandPriceConfig {
            band_ibc_channel: "channel-1".to_string(),
            regen_price_script_id: 7,
            max_price_age_seconds: 600,
        },
        impact: ImpactConfig {
            mode: ImpactMode::BandOracleScript,
            batch_ids: vec![],
            band_impact_script_id: Some(9),
            checkpoints: vec![],
        },
    }
}

fn instantiate_msg() -> InstantiateMsg {
    InstantiateMsg {
        admin: "admin".to_string(),
        allowed_principal_denoms: vec!["uusdc".to_string(), "ueure".to_string()],
        min_initial_collateral_ratio_bps: 15_000,
        protocol_fee_bps: 50,
        fee_recipient: "treasury".to_string(),
        bond_series_code_id: 11,
    }
}

fn env() -> Env {
    Env { block_time: 1_700_000_000 }
}

fn caller(who: &str) -> MessageInfo {
    MessageInfo { sender: who.to_string(), funds: vec![] }
}

fn attribute(key: &str, value: &str) -> Attribute {
    Attribute { key: key.to_string(), value: value.to_string() }
}

fn factory() -> Factory {
    instantiate(&env(), &caller("deployer"), instantiate_msg()).unwrap().0
}

fn created(address: &str) -> Reply {
    Reply {
        id: REPLY_ID_CREATE_SERIES,
        result: Ok(vec![
            Event { ty: "message".to_string(), attributes: vec![attribute("module", "wasm")] },
            Event {
                ty: "instantiate".to_string(),
                attributes: vec![
                    attribute("code_id", "11"),
                    attribute("_contract_address", address),
                    attribute("_contract_address", "second"),
                ],
            },
            Event {
                ty: "wasm".to_string(),
                attributes: vec![attribute("_contract_address", "third")],
            },
        ]),
    }
}

fn with_series(n: usize) -> Factory {
    let mut f = factory();
    for i in 1..=n {
        reply(&mut f, &env(), created(&format!("series{}", i))).unwrap();
    }
    f
}

#[test]
fn factory_instantiate_needs_an_admin() {
    let (f, response) = instantiate(&env(), &caller("deployer"), instantiate_msg()).unwrap();
    assert_eq!(
        f.config,
        Config {
            admin: "admin".to_string(),
            allowed_principal_denoms: vec!["uusdc".to_string(), "ueure".to_string()],
            min_initial_collateral_ratio_bps: 15_000,
            protocol_fee_bps: 50,
            fee_recipient: "treasury".to_string(),
            bond_series_code_id: 11,
        }
    );
    assert!(f.series.is_empty());
    assert_eq!(
        response,
        Response {
            requests: vec![],
            attributes: vec![attribute("action", "instantiate"), attribute("sender", "deployer")],
        }
    );
    let mut m = instantiate_msg();
    m.admin = String::new();
    assert_eq!(
        instantiate(&env(), &caller("deployer"), m),
        Err(ContractError::InvalidConfig("admin required".to_string()))
    );
}

#[test]
fn factory_validate_terms() {
    let f = factory();
    assert_eq!(validate_terms(&f.config, &terms("uusdc", 15_000)), Ok(()));
    assert_eq!(validate_terms(&f.config, &terms("ueure", 20_000)), Ok(()));
    assert_eq!(
        validate_terms(&f.config, &terms("uatom", 20_000)),
        Err(ContractError::DenomNotAllowed)
    );
    assert_eq!(
        validate_terms(&f.config, &terms("uatom", 1)),
        Err(ContractError::DenomNotAllowed)
    );
    assert_eq!(
        validate_terms(&f.config, &terms("uusdc", 14_999)),
        Err(ContractError::InvalidConfig("initial collateral ratio below minimum".to_string()))
    );
    assert_eq!(only_admin(&f.config, &caller("admin")), Ok(()));
    assert_eq!(only_admin(&f.config, &caller("borrower")), Err(ContractError::Unauthorized));
}

#[test]
fn factory_create_series_hands_out_a_request() {
    let mut f = factory();
    let before = f.clone();
    for who in ["admin", "borrower"] {
        let response =
            execute_create_series(&mut f, &env(), &caller(who), terms("uusdc", 15_000)).unwrap();
        assert_eq!(
            response,
            Response {
                requests: vec![SeriesRequest {
                    reply_id: 1,
                    admin: Some("admin".to_string()),
                    code_id: 11,
                    msg: heb_bonds::bond_series::msg::InstantiateMsg {
                        terms: terms("uusdc", 15_000),
                        admin: "admin".to_string(),
                        protocol_fee_bps: 50,
                        fee_recipient: "treasury".to_string(),
                    },
                    label: "heb-bond-series".to_string(),
                }],
                attributes: vec![attribute("action", "create_series")],
            }
        );
        assert_eq!(f, before);
    }
    assert_eq!(
        execute_create_series(&mut f, &env(), &caller("stranger"), terms("uusdc", 15_000)),
        Err(ContractError::Unauthorized)
    );
    assert_eq!(
        execute_create_series(&mut f, &env(), &caller("stranger"), terms("uatom", 15_000)),
        Err(ContractError::Unauthorized)
    );
    assert_eq!(
        execute_create_series(&mut f, &env(), &caller("admin"), terms("uatom", 15_000)),
        Err(ContractError::DenomNotAllowed)
    );
    assert_eq!(f, before);
}

#[test]
fn factory_update_config_replaces_what_is_given() {
    let mut f = factory();
    let before = f.clone();
    assert_eq!(
        execute_update_config(&mut f, &caller("borrower"), Some("me".to_string()), None, None, None, None, None),
        Err(ContractError::Unauthorized)
    );
    assert_eq!(f, before);
    let response =
        execute_update_config(&mut f, &caller("admin"), None, None, Some(1), None, None, Some(12))
            .unwrap();
    assert_eq!(
        response,
        Response { requests: vec![], attributes: vec![attribute("action", "update_config")] }
    );
    let mut expected = before.clone();
    expected.config.min_initial_collateral_ratio_bps = 1;
    expected.config.bond_series_code_id = 12;
    assert_eq!(f, expected);
    execute(
        &mut f,
        &env(),
        &caller("admin"),
        ExecuteMsg::UpdateConfig {
            admin: Some("next".to_string()),
            allowed_principal_denoms: Some(vec!["uatom".to_string()]),
            min_initial_collateral_ratio_bps: None,
            protocol_fee_bps: Some(7),
            fee_recipient: Some("vault".to_string()),
            bond_series_code_id: None,
        },
    )
    .unwrap();
    assert_eq!(
        f.config,
        Config {
            admin: "next".to_string(),
            allowed_principal_denoms: vec!["uatom".to_string()],
            min_initial_collateral_ratio_bps: 1,
            protocol_fee_bps: 7,
            fee_recipient: "vault".to_string(),
            bond_series_code_id: 12,
        }
    );
    assert_eq!(
        execute(&mut f, &env(), &caller("admin"), ExecuteMsg::CreateSeries { terms: terms("uatom", 1) }),
        Err(ContractError::Unauthorized)
    );
    assert!(execute(
        &mut f,
        &env(),
        &caller("next"),
        ExecuteMsg::CreateSeries { terms: terms("uatom", 1) }
    )
    .is_ok());
}

#[test]
fn factory_reply_records_the_new_series() {
    let mut f = factory();
    let response = reply(&mut f, &env(), created("series-a")).unwrap();
    assert_eq!(
        response,
        Response {
            requests: vec![],
            attributes: vec![
                attribute("action", "series_created"),
                attribute("series_id", "1"),
                attribute("address", "series-a"),
            ],
        }
    );
    assert_eq!(f.series, vec!["series-a".to_string()]);
    let response = reply(&mut f, &env(), created("series-b")).unwrap();
    assert_eq!(response.attributes[1], attribute("series_id", "2"));
    assert_eq!(f.series, vec!["series-a".to_string(), "series-b".to_string()]);
}

#[test]
fn factory_reply_refusals() {
    let mut f = with_series(1);
    let before = f.clone();
    let mut unknown = created("x");
    unknown.id = 2;
    assert_eq!(
        reply(&mut f, &env(), unknown),
        Err(ContractError::InvalidConfig("unknown reply id".to_string()))
    );
    assert_eq!(
        reply(&mut f, &env(), Reply { id: 1, result: Err("out of gas".to_string()) }),
        Err(ContractError::Std(StdError::GenericErr { msg: "out of gas".to_string() }))
    );
    assert_eq!(
        reply(&mut f, &env(), Reply { id: 1, result: Ok(vec![]) }),
        Err(ContractError::InvalidConfig("missing contract address in reply".to_string()))
    );
    let other = Reply {
        id: 1,
        result: Ok(vec![Event {
            ty: "wasm".to_string(),
            attributes: vec![attribute("contract_address", "x")],
        }]),
    };
    assert_eq!(
        reply(&mut f, &env(), other),
        Err(ContractError::InvalidConfig("missing contract address in reply".to_string()))
    );
    assert_eq!(f, before);
}

#[test]
fn factory_query_config() {
    let f = factory();
    let expected = ConfigResponse {
        admin: "admin".to_string(),
        allowed_principal_denoms: vec!["uusdc".to_string(), "ueure".to_string()],
        min_initial_collateral_ratio_bps: 15_000,
        protocol_fee_bps: 50,
        fee_recipient: "treasury".to_string(),
        bond_series_code_id: 11,
    };
    assert_eq!(query_config(&f), expected);
    assert_eq!(query(&f, &env(), QueryMsg::Config {}), QueryResponse::Config(expected));
}

fn names(range: std::ops::RangeInclusive<usize>) -> Vec<String> {
    range.map(|i| format!("series{}", i)).collect()
}

#[test]
fn factory_series_list_pages() {
    let f = with_series(260);
    // a listing holds the ids above the id it starts behind
    assert_eq!(query_series_list(&f, None, None).series, names(1..=50));
    assert_eq!(query_series_list(&f, None, Some(3)).series, names(1..=3));
    assert_eq!(query_series_list(&f, Some("0".to_string()), Some(3)).series, names(1..=3));
    assert_eq!(query_series_list(&f, Some("3".to_string()), Some(3)).series, names(4..=6));
    assert_eq!(query_series_list(&f, Some("10".to_string()), Some(2)).series, names(11..=12));
    assert_eq!(query_series_list(&f, Some("+10".to_string()), Some(0)).series, names(1..=0));
    assert_eq!(query_series_list(&f, None, Some(200)).series, names(1..=200));
    assert_eq!(query_series_list(&f, None, Some(1000)).series, names(1..=200));
    assert_eq!(query_series_list(&f, Some("250".to_string()), None).series, names(251..=260));
    assert_eq!(query_series_list(&f, Some("258".to_string()), None).series, names(259..=260));
    assert_eq!(query_series_list(&f, Some("259".to_string()), None).series, names(260..=260));
    assert_eq!(query_series_list(&f, Some("260".to_string()), None).series, names(1..=0));
    assert_eq!(query_series_list(&f, Some("5000".to_string()), None).series, names(1..=0));
    // a start that is no number that fits in 64 bits counts as zero
    for start in ["", "x", "-1", "18446744073709551616", "340282366920938463463374607431768211456"] {
        assert_eq!(query_series_list(&f, Some(start.to_string()), Some(2)).series, names(1..=2));
    }
    assert_eq!(
        query_series_list(&f, Some("18446744073709551615".to_string()), Some(2)).series,
        names(1..=0)
    );
    assert_eq!(
        query(&f, &env(), QueryMsg::SeriesList { start_after: Some("1".to_string()), limit: Some(1) }),
        QueryResponse::SeriesList(SeriesListResponse { series: names(2..=2) })
    );
}

#[test]
fn factory_series_list_pages_cover_every_series_once() {
    let f = with_series(123);
    let mut seen: Vec<String> = Vec::new();
    let mut start: Option<String> = None;
    loop {
        let page = query_series_list(&f, start.clone(), Some(10)).series;
        if page.is_empty() {
            break;
        }
        seen.extend(page);
        start = Some(seen.len().to_string());
    }
    assert_eq!(seen, names(1..=123));
}

#[test]
fn factory_series_list_of_a_short_list() {
    assert_eq!(query_series_list(&with_series(0), None, None).series, names(1..=0));
    assert_eq!(query_series_list(&with_series(1), None, None).series, names(1..=1));
    assert_eq!(query_series_list(&with_series(2), None, None).series, names(1..=2));
    assert_eq!(query_series_list(&with_series(2), Some("1".to_string()), None).series, names(2..=2));
}

#[test]
fn factory_error_texts() {
    assert_eq!(ContractError::Unauthorized.message(), "Unauthorized");
    assert_eq!(ContractError::DenomNotAllowed.message(), "Principal denom not allowed");
    assert_eq!(
        ContractError::InvalidConfig("admin required".to_string()).message(),
        "Invalid config: admin required"
    );
    assert_eq!(
        ContractError::Std(StdError::GenericErr { msg: "x".to_string() }).message(),
        "Generic error: x"
    );
}
