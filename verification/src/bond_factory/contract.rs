//! Creating series and listing them.
//!
//! A series is created in two calls. `execute_create_series` checks the
//! terms and hands the host a request; once the host has carried it out, it
//! calls `reply` with the outcome, which records the address of the new
//! series under the next id.

use vstd::prelude::*;
use crate::heb_types::copy_texts;
use crate::heb_types::SeriesTerms;
use crate::heb_types::SeriesTermsView;
use crate::host::attr;
use crate::host::Attribute;
use crate::host::AttributeView;
use crate::host::Env;
use crate::host::MessageInfo;
use crate::host::MessageInfoView;
use crate::host::StdError;
use crate::host::StdErrorView;
use crate::bond_factory::error::ContractError;
use crate::bond_factory::error::ContractErrorView;
use crate::bond_factory::msg::ConfigResponse;
use crate::bond_factory::msg::Event;
use crate::bond_factory::msg::ExecuteMsg;
use crate::bond_factory::msg::InstantiateMsg;
use crate::bond_factory::msg::QueryMsg;
use crate::bond_factory::msg::QueryResponse;
use crate::bond_factory::msg::Reply;
use crate::bond_factory::msg::Response;
use crate::bond_factory::msg::ResponseView;
use crate::bond_factory::msg::SeriesListResponse;
use crate::bond_factory::msg::SeriesRequest;
use crate::bond_factory::msg::SeriesRequestView;
use crate::bond_factory::state::texts_view;
use crate::bond_factory::state::Config;
use crate::bond_factory::state::ConfigView;
use crate::bond_factory::state::Factory;
use crate::bond_factory::state::FactoryView;
use crate::bond_series::math::decimal;
use crate::bond_series::math::lemma_parse_decimal_bounded;
use crate::bond_series::math::parse_decimal;
use crate::bond_series::math::parse_u128;
use crate::bond_series::math::to_string_u128;
use crate::bond_series::msg::InstantiateMsgView;

verus! {

/// By which the answer to a request to create a series is told apart.
pub const REPLY_ID_CREATE_SERIES: u64 = 1;

/// The most series that one listing holds.
pub const MAX_LIST_LIMIT: u32 = 200;

/// The number of series that a listing holds where none is asked for.
pub const DEFAULT_LIST_LIMIT: u32 = 50;

/// How a call ends: the factory after it and the response, or the failure.
pub type Outcome = Result<(FactoryView, ResponseView), ContractErrorView>;

/// Whether a call returned `expected`, leaving the factory as `expected`
/// says, or untouched where it failed.
pub open spec fn ends_as(
    r: Result<Response, ContractError>,
    before: FactoryView,
    after: FactoryView,
    expected: Outcome,
) -> bool {
    match expected {
        Ok((next, response)) => r is Ok && r->Ok_0@ == response && after == next,
        Err(e) => r is Err && r->Err_0@ == e && after == before,
    }
}

/// A response of attributes alone.
pub open spec fn noted(attributes: Seq<AttributeView>) -> ResponseView {
    ResponseView { requests: Seq::empty(), attributes }
}

/// What `instantiate` does: a factory with an admin and no series.
pub open spec fn instantiate_spec(info: MessageInfoView, msg: ConfigView) -> Outcome {
    if msg.admin.len() == 0 {
        Err(ContractErrorView::InvalidConfig("admin required"@))
    } else {
        Ok(
            (
                FactoryView { config: msg, series: Seq::empty() },
                noted(seq![attr("action"@, "instantiate"@), attr("sender"@, info.sender)]),
            ),
        )
    }
}

fn note(response: &mut Response, key: &str, value: String)
    ensures
        final(response)@.requests == old(response)@.requests,
        final(response)@.attributes == old(response)@.attributes.push(attr(key@, value@)),
{
    response.attributes.push(Attribute { key: String::from_str(key), value });
}

fn action(name: &str) -> (r: Response)
    ensures
        r@ == noted(seq![attr("action"@, name@)]),
{
    let mut r = Response { requests: Vec::new(), attributes: Vec::new() };
    note(&mut r, "action", String::from_str(name));
    assert(r@.attributes == seq![attr("action"@, name@)]);
    assert(r@.requests == Seq::<SeriesRequestView>::empty());
    r
}

/// Creates the factory.
pub fn instantiate(_env: &Env, info: &MessageInfo, msg: InstantiateMsg) -> (r: Result<
    (Factory, Response),
    ContractError,
>)
    ensures
        match instantiate_spec(info@, msg@) {
            Ok((v, response)) => r is Ok && r->Ok_0.0@ == v && r->Ok_0.1@ == response,
            Err(e) => r is Err && r->Err_0@ == e,
        },
{
    if msg.admin.as_str().is_empty() {
        return Err(ContractError::InvalidConfig(String::from_str("admin required")));
    }
    let config = Config {
        admin: msg.admin,
        allowed_principal_denoms: msg.allowed_principal_denoms,
        min_initial_collateral_ratio_bps: msg.min_initial_collateral_ratio_bps,
        protocol_fee_bps: msg.protocol_fee_bps,
        fee_recipient: msg.fee_recipient,
        bond_series_code_id: msg.bond_series_code_id,
    };
    let factory = Factory { config, series: Vec::new() };
    assert(factory@.series == Seq::<Seq<char>>::empty());
    let mut response = action("instantiate");
    note(&mut response, "sender", info.sender.clone());
    assert(response@.attributes == seq![
        attr("action"@, "instantiate"@),
        attr("sender"@, info@.sender),
    ]);
    Ok((factory, response))
}

/// Fails with `Unauthorized` where the caller is not the admin.
pub fn only_admin(cfg: &Config, info: &MessageInfo) -> (r: Result<(), ContractError>)
    ensures
        info@.sender != cfg@.admin ==> r == Err::<(), ContractError>(ContractError::Unauthorized),
        info@.sender == cfg@.admin ==> r == Ok::<(), ContractError>(()),
{
    if info.sender != cfg.admin {
        return Err(ContractError::Unauthorized);
    }
    Ok(())
}

/// Whether terms may be used for a new series, and why not.
pub open spec fn validate_terms_spec(cfg: ConfigView, terms: SeriesTermsView) -> Result<
    (),
    ContractErrorView,
> {
    if !cfg.allowed_principal_denoms.contains(terms.principal_denom) {
        Err(ContractErrorView::DenomNotAllowed)
    } else if terms.initial_collateral_ratio_bps < cfg.min_initial_collateral_ratio_bps {
        Err(ContractErrorView::InvalidConfig("initial collateral ratio below minimum"@))
    } else {
        Ok(())
    }
}

fn contains_text(texts: &Vec<String>, text: &String) -> (r: bool)
    ensures
        r == texts_view(texts@).contains(text@),
{
    let ghost views = texts_view(texts@);
    let mut i: usize = 0;
    while i < texts.len()
        invariant
            i <= texts.len(),
            views == texts_view(texts@),
            forall|j: int| 0 <= j < i ==> views[j] != text@,
        decreases texts.len() - i,
    {
        if texts[i] == *text {
            assert(views[i as int] == text@);
            return true;
        }
        i = i + 1;
    }
    false
}

/// Checks terms against the configuration: the principal asset must be
/// allowed, and the initial collateral ratio no less than the least one.
pub fn validate_terms(cfg: &Config, terms: &SeriesTerms) -> (r: Result<(), ContractError>)
    ensures
        match validate_terms_spec(cfg@, terms@) {
            Ok(_) => r is Ok,
            Err(e) => r is Err && r->Err_0@ == e,
        },
{
    if !contains_text(&cfg.allowed_principal_denoms, &terms.principal_denom) {
        return Err(ContractError::DenomNotAllowed);
    }
    if terms.initial_collateral_ratio_bps < cfg.min_initial_collateral_ratio_bps {
        return Err(
            ContractError::InvalidConfig(
                String::from_str("initial collateral ratio below minimum"),
            ),
        );
    }
    Ok(())
}

/// The changes that `UpdateConfig` asks for, as values.
pub struct ConfigUpdateView {
    pub admin: Option<Seq<char>>,
    pub allowed_principal_denoms: Option<Seq<Seq<char>>>,
    pub min_initial_collateral_ratio_bps: Option<u32>,
    pub protocol_fee_bps: Option<u32>,
    pub fee_recipient: Option<Seq<char>>,
    pub bond_series_code_id: Option<u64>,
}

/// A configuration with the settings that are given replaced.
pub open spec fn updated_config(cfg: ConfigView, update: ConfigUpdateView) -> ConfigView {
    ConfigView {
        admin: match update.admin {
            Some(a) => a,
            None => cfg.admin,
        },
        allowed_principal_denoms: match update.allowed_principal_denoms {
            Some(d) => d,
            None => cfg.allowed_principal_denoms,
        },
        min_initial_collateral_ratio_bps: match update.min_initial_collateral_ratio_bps {
            Some(m) => m,
            None => cfg.min_initial_collateral_ratio_bps,
        },
        protocol_fee_bps: match update.protocol_fee_bps {
            Some(p) => p,
            None => cfg.protocol_fee_bps,
        },
        fee_recipient: match update.fee_recipient {
            Some(f) => f,
            None => cfg.fee_recipient,
        },
        bond_series_code_id: match update.bond_series_code_id {
            Some(c) => c,
            None => cfg.bond_series_code_id,
        },
    }
}

/// What `execute_update_config` does: the admin replaces the settings that
/// are given.
pub open spec fn update_config_spec(
    v: FactoryView,
    info: MessageInfoView,
    update: ConfigUpdateView,
) -> Outcome {
    if info.sender != v.config.admin {
        Err(ContractErrorView::Unauthorized)
    } else {
        Ok(
            (
                FactoryView { config: updated_config(v.config, update), ..v },
                noted(seq![attr("action"@, "update_config"@)]),
            ),
        )
    }
}

/// The changes that a call of `execute_update_config` asks for.
pub open spec fn update_of(
    admin: Option<String>,
    allowed_principal_denoms: Option<Vec<String>>,
    min_initial_collateral_ratio_bps: Option<u32>,
    protocol_fee_bps: Option<u32>,
    fee_recipient: Option<String>,
    bond_series_code_id: Option<u64>,
) -> ConfigUpdateView {
    ConfigUpdateView {
        admin: match admin {
            Some(a) => Some(a@),
            None => None,
        },
        allowed_principal_denoms: match allowed_principal_denoms {
            Some(d) => Some(texts_view(d@)),
            None => None,
        },
        min_initial_collateral_ratio_bps,
        protocol_fee_bps,
        fee_recipient: match fee_recipient {
            Some(f) => Some(f@),
            None => None,
        },
        bond_series_code_id,
    }
}

/// Replaces the settings that are given.
pub fn execute_update_config(
    factory: &mut Factory,
    info: &MessageInfo,
    admin: Option<String>,
    allowed_principal_denoms: Option<Vec<String>>,
    min_initial_collateral_ratio_bps: Option<u32>,
    protocol_fee_bps: Option<u32>,
    fee_recipient: Option<String>,
    bond_series_code_id: Option<u64>,
) -> (r: Result<Response, ContractError>)
    ensures
        ends_as(
            r,
            old(factory)@,
            final(factory)@,
            update_config_spec(
                old(factory)@,
                info@,
                update_of(
                    admin,
                    allowed_principal_denoms,
                    min_initial_collateral_ratio_bps,
                    protocol_fee_bps,
                    fee_recipient,
                    bond_series_code_id,
                ),
            ),
        ),
{
    only_admin(&factory.config, info)?;
    if let Some(a) = admin {
        factory.config.admin = a;
    }
    if let Some(d) = allowed_principal_denoms {
        factory.config.allowed_principal_denoms = d;
    }
    if let Some(m) = min_initial_collateral_ratio_bps {
        factory.config.min_initial_collateral_ratio_bps = m;
    }
    if let Some(p) = protocol_fee_bps {
        factory.config.protocol_fee_bps = p;
    }
    if let Some(f) = fee_recipient {
        factory.config.fee_recipient = f;
    }
    if let Some(c) = bond_series_code_id {
        factory.config.bond_series_code_id = c;
    }
    Ok(action("update_config"))
}

/// The request that creates a series with `terms`: the factory's admin
/// becomes the admin of the series, which takes the factory's fee settings.
pub open spec fn series_request(cfg: ConfigView, terms: SeriesTermsView) -> SeriesRequestView {
    SeriesRequestView {
        reply_id: REPLY_ID_CREATE_SERIES,
        admin: Some(cfg.admin),
        code_id: cfg.bond_series_code_id,
        msg: InstantiateMsgView {
            terms,
            admin: cfg.admin,
            protocol_fee_bps: cfg.protocol_fee_bps,
            fee_recipient: cfg.fee_recipient,
        },
        label: "heb-bond-series"@,
    }
}

/// What `execute_create_series` does: the admin, or the borrower of the
/// terms, asks for a series with terms that pass `validate_terms`. The
/// factory itself does not change until the host replies.
pub open spec fn create_series_spec(
    v: FactoryView,
    info: MessageInfoView,
    terms: SeriesTermsView,
) -> Outcome {
    if info.sender != v.config.admin && info.sender != terms.borrower {
        Err(ContractErrorView::Unauthorized)
    } else {
        match validate_terms_spec(v.config, terms) {
            Err(e) => Err(e),
            Ok(_) => Ok(
                (
                    v,
                    ResponseView {
                        requests: seq![series_request(v.config, terms)],
                        attributes: seq![attr("action"@, "create_series"@)],
                    },
                ),
            ),
        }
    }
}

/// Asks the host to create a series.
pub fn execute_create_series(
    factory: &mut Factory,
    _env: &Env,
    info: &MessageInfo,
    terms: SeriesTerms,
) -> (r: Result<Response, ContractError>)
    ensures
        ends_as(
            r,
            old(factory)@,
            final(factory)@,
            create_series_spec(old(factory)@, info@, terms@),
        ),
{
    if info.sender != factory.config.admin && info.sender != terms.borrower {
        return Err(ContractError::Unauthorized);
    }
    validate_terms(&factory.config, &terms)?;
    let request = SeriesRequest {
        reply_id: REPLY_ID_CREATE_SERIES,
        admin: Some(factory.config.admin.clone()),
        code_id: factory.config.bond_series_code_id,
        msg: crate::bond_series::msg::InstantiateMsg {
            terms,
            admin: factory.config.admin.clone(),
            protocol_fee_bps: factory.config.protocol_fee_bps,
            fee_recipient: factory.config.fee_recipient.clone(),
        },
        label: String::from_str("heb-bond-series"),
    };
    let mut response = action("create_series");
    let ghost expected = request@;
    response.requests.push(request);
    assert(response@.requests == seq![expected]);
    Ok(response)
}

/// What `execute` does: what the call named by `msg` does.
pub open spec fn execute_spec(v: FactoryView, info: MessageInfoView, msg: ExecuteMsg) -> Outcome {
    match msg {
        ExecuteMsg::CreateSeries { terms } => create_series_spec(v, info, terms@),
        ExecuteMsg::UpdateConfig {
            admin,
            allowed_principal_denoms,
            min_initial_collateral_ratio_bps,
            protocol_fee_bps,
            fee_recipient,
            bond_series_code_id,
        } => update_config_spec(
            v,
            info,
            update_of(
                admin,
                allowed_principal_denoms,
                min_initial_collateral_ratio_bps,
                protocol_fee_bps,
                fee_recipient,
                bond_series_code_id,
            ),
        ),
    }
}

/// Makes the call that `msg` names.
pub fn execute(factory: &mut Factory, env: &Env, info: &MessageInfo, msg: ExecuteMsg) -> (r:
    Result<Response, ContractError>)
    ensures
        ends_as(r, old(factory)@, final(factory)@, execute_spec(old(factory)@, info@, msg)),
{
    match msg {
        ExecuteMsg::CreateSeries { terms } => execute_create_series(factory, env, info, terms),
        ExecuteMsg::UpdateConfig {
            admin,
            allowed_principal_denoms,
            min_initial_collateral_ratio_bps,
            protocol_fee_bps,
            fee_recipient,
            bond_series_code_id,
        } => execute_update_config(
            factory,
            info,
            admin,
            allowed_principal_denoms,
            min_initial_collateral_ratio_bps,
            protocol_fee_bps,
            fee_recipient,
            bond_series_code_id,
        ),
    }
}

/// The value of the first attribute with the key `key`, if there is one.
pub open spec fn first_value(attributes: Seq<AttributeView>, key: Seq<char>) -> Option<Seq<char>>
    decreases attributes.len(),
{
    if attributes.len() == 0 {
        None
    } else if attributes[0].key == key {
        Some(attributes[0].value)
    } else {
        first_value(attributes.drop_first(), key)
    }
}

/// The attributes of an event, as values.
pub open spec fn event_attributes(event: Event) -> Seq<AttributeView> {
    event.attributes@.map_values(|a: Attribute| a@)
}

/// The value of the first attribute with the key `key` in the first event
/// that has one.
pub open spec fn first_value_in(events: Seq<Event>, key: Seq<char>) -> Option<Seq<char>>
    decreases events.len(),
{
    if events.len() == 0 {
        None
    } else {
        match first_value(event_attributes(events[0]), key) {
            Some(v) => Some(v),
            None => first_value_in(events.drop_first(), key),
        }
    }
}

/// What `reply` does: the answer to a request to create a series, if the
/// request succeeded and its events name the address of the new series,
/// records that address under the next id.
pub open spec fn reply_spec(v: FactoryView, msg: Reply) -> Outcome {
    if msg.id != REPLY_ID_CREATE_SERIES {
        Err(ContractErrorView::InvalidConfig("unknown reply id"@))
    } else {
        match msg.result {
            Err(e) => Err(ContractErrorView::Std(StdErrorView::GenericErr { msg: e@ })),
            Ok(events) => match first_value_in(events@, "_contract_address"@) {
                None => Err(
                    ContractErrorView::InvalidConfig("missing contract address in reply"@),
                ),
                Some(address) => Ok(
                    (
                        FactoryView { series: v.series.push(address), ..v },
                        noted(
                            seq![
                                attr("action"@, "series_created"@),
                                attr("series_id"@, decimal(v.series.len() + 1)),
                                attr("address"@, address),
                            ],
                        ),
                    ),
                ),
            },
        }
    }
}

fn find_value(attributes: &Vec<Attribute>, key: &str) -> (r: Option<String>)
    ensures
        match first_value(attributes@.map_values(|a: Attribute| a@), key@) {
            Some(v) => r is Some && r->Some_0@ == v,
            None => r is None,
        },
{
    let ghost views = attributes@.map_values(|a: Attribute| a@);
    let wanted = String::from_str(key);
    let mut i: usize = 0;
    assert(views.skip(0) == views);
    while i < attributes.len()
        invariant
            i <= attributes.len(),
            wanted@ == key@,
            views == attributes@.map_values(|a: Attribute| a@),
            first_value(views, key@) == first_value(views.skip(i as int), key@),
        decreases attributes.len() - i,
    {
        assert(views.skip(i as int).drop_first() == views.skip(i + 1));
        if attributes[i].key == wanted {
            return Some(attributes[i].value.clone());
        }
        i = i + 1;
    }
    None
}

fn find_value_in(events: &Vec<Event>, key: &str) -> (r: Option<String>)
    ensures
        match first_value_in(events@, key@) {
            Some(v) => r is Some && r->Some_0@ == v,
            None => r is None,
        },
{
    let mut i: usize = 0;
    assert(events@.skip(0) == events@);
    while i < events.len()
        invariant
            i <= events.len(),
            first_value_in(events@, key@) == first_value_in(events@.skip(i as int), key@),
        decreases events.len() - i,
    {
        assert(events@.skip(i as int).drop_first() == events@.skip(i + 1));
        match find_value(&events[i].attributes, key) {
            Some(v) => {
                return Some(v);
            },
            None => {},
        }
        i = i + 1;
    }
    None
}

/// Takes the host's answer to a request to create a series.
pub fn reply(factory: &mut Factory, _env: &Env, msg: Reply) -> (r: Result<Response, ContractError>)
    ensures
        ends_as(r, old(factory)@, final(factory)@, reply_spec(old(factory)@, msg)),
{
    if msg.id != REPLY_ID_CREATE_SERIES {
        return Err(ContractError::InvalidConfig(String::from_str("unknown reply id")));
    }
    let events = match msg.result {
        Ok(events) => events,
        Err(e) => {
            return Err(ContractError::Std(StdError::GenericErr { msg: e }));
        },
    };
    let address = match find_value_in(&events, "_contract_address") {
        Some(a) => a,
        None => {
            return Err(
                ContractError::InvalidConfig(String::from_str("missing contract address in reply")),
            );
        },
    };
    let count = factory.series.len() as u128 + 1;
    factory.series.push(address.clone());
    assert(factory@.series == old(factory)@.series.push(address@));
    let mut response = action("series_created");
    note(&mut response, "series_id", to_string_u128(count));
    note(&mut response, "address", address);
    assert(response@.attributes == seq![
        attr("action"@, "series_created"@),
        attr("series_id"@, decimal((old(factory)@.series.len() + 1) as nat)),
        attr("address"@, address@),
    ]);
    Ok(response)
}

/// Answers with the configuration.
pub fn query_config(factory: &Factory) -> (r: ConfigResponse)
    ensures
        r@ == factory@.config,
{
    ConfigResponse {
        admin: factory.config.admin.clone(),
        allowed_principal_denoms: copy_texts(&factory.config.allowed_principal_denoms),
        min_initial_collateral_ratio_bps: factory.config.min_initial_collateral_ratio_bps,
        protocol_fee_bps: factory.config.protocol_fee_bps,
        fee_recipient: factory.config.fee_recipient.clone(),
        bond_series_code_id: factory.config.bond_series_code_id,
    }
}

/// The id that a listing starts behind: the number that `start_after`
/// denotes where it denotes one that fits in 64 bits, else zero.
pub open spec fn start_id(start_after: Option<Seq<char>>) -> nat {
    match start_after {
        None => 0,
        Some(text) => match parse_decimal(text) {
            Ok(n) => if n <= u64::MAX {
                n
            } else {
                0
            },
            Err(_) => 0,
        },
    }
}

/// The number of series that a listing holds at most.
pub open spec fn list_limit(limit: Option<u32>) -> nat {
    match limit {
        None => DEFAULT_LIST_LIMIT as nat,
        Some(l) => if l <= MAX_LIST_LIMIT {
            l as nat
        } else {
            MAX_LIST_LIMIT as nat
        },
    }
}

/// What a listing holds: the series whose id is above the starting id, by
/// ascending id, up to the limit. Without a starting id the listing begins
/// with the first series; the next page starts after the id of the last
/// series of this one.
pub open spec fn series_page(
    series: Seq<Seq<char>>,
    start_after: Option<Seq<char>>,
    limit: Option<u32>,
) -> Seq<Seq<char>> {
    let from = start_id(start_after);
    if from >= series.len() {
        Seq::empty()
    } else if from + list_limit(limit) >= series.len() {
        series.subrange(from as int, series.len() as int)
    } else {
        series.subrange(from as int, (from + list_limit(limit)) as int)
    }
}

/// Answers with a page of the series that were created.
pub fn query_series_list(factory: &Factory, start_after: Option<String>, limit: Option<u32>) -> (r:
    SeriesListResponse)
    ensures
        texts_view(r.series@) == series_page(
            factory@.series,
            match start_after {
                Some(s) => Some(s@),
                None => None,
            },
            limit,
        ),
{
    let lim: usize = match limit {
        None => DEFAULT_LIST_LIMIT as usize,
        Some(l) => if l <= MAX_LIST_LIMIT {
            l as usize
        } else {
            MAX_LIST_LIMIT as usize
        },
    };
    let start: u64 = match &start_after {
        None => 0,
        Some(text) => match parse_u128(text.as_str()) {
            Ok(n) => if n <= u64::MAX as u128 {
                n as u64
            } else {
                0
            },
            Err(_) => 0,
        },
    };
    proof {
        if start_after is Some {
            lemma_parse_decimal_bounded(start_after->Some_0@);
        }
    }
    let ghost page = series_page(
        factory@.series,
        match start_after {
            Some(s) => Some(s@),
            None => None,
        },
        limit,
    );
    let n = factory.series.len();
    let mut out: Vec<String> = Vec::new();
    if start >= n as u64 {
        assert(texts_view(out@) == page);
        return SeriesListResponse { series: out };
    }
    let from: usize = start as usize;
    let end: usize = if lim >= n - from {
        n
    } else {
        from + lim
    };
    let mut i: usize = from;
    while i < end
        invariant
            from <= i <= end <= n,
            n == factory.series.len(),
            out@.len() == i - from,
            forall|j: int| 0 <= j < out@.len() ==> out@[j]@ == factory.series@[from + j]@,
        decreases end - i,
    {
        out.push(factory.series[i].clone());
        i = i + 1;
    }
    assert(texts_view(out@) =~= page);
    SeriesListResponse { series: out }
}

/// Whether `r` answers the query `msg` on the factory `v`.
pub open spec fn answers(r: QueryResponse, v: FactoryView, msg: QueryMsg) -> bool {
    match msg {
        QueryMsg::Config {  } => r matches QueryResponse::Config(a) && a@ == v.config,
        QueryMsg::SeriesList { start_after, limit } => r matches QueryResponse::SeriesList(a)
            && texts_view(a.series@) == series_page(
            v.series,
            match start_after {
                Some(s) => Some(s@),
                None => None,
            },
            limit,
        ),
    }
}

/// Answers a query.
pub fn query(factory: &Factory, _env: &Env, msg: QueryMsg) -> (r: QueryResponse)
    ensures
        answers(r, factory@, msg),
{
    match msg {
        QueryMsg::Config {  } => QueryResponse::Config(query_config(factory)),
        QueryMsg::SeriesList { start_after, limit } => QueryResponse::SeriesList(
            query_series_list(factory, start_after, limit),
        ),
    }
}

} // verus!
