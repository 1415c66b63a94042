use ft_legacy::contract::{
    burn, derive_denom, execute, freeze, globally_freeze, globally_unfreeze, instantiate, issue, mint,
    set_frozen, set_whitelisted_limit, unfreeze,
};
use ft_legacy::effect::{Attribute, Coin, Effect, Response};
use ft_legacy::error::ContractError;
use ft_legacy::msg::{ExecuteMsg, InstantiateMsg};
use ft_legacy::state::State;
use ft_legacy::text::decimal_string;

fn s(text: &str) -> String {
    text.to_string()
}

fn attr(key: &str, value: &str) -> Attribute {
    Attribute { key: s(key), value: s(value) }
}

fn issue_msg() -> InstantiateMsg {
    InstantiateMsg {
        symbol: s("ABC"),
        subunit: s("uabc"),
        precision: 6,
        initial_amount: 5000,
        description: Some(s("a token")),
        features: Some(vec![0, 1, 2, 3]),
        burn_rate: Some(s("0.1")),
        send_commission_rate: None,
        uri: Some(s("https://example.org")),
        uri_hash: None,
    }
}

fn issued() -> State {
    let mut state = State::new();
    instantiate(&mut state, &s("contractX"), &s("alice"), issue_msg());
    state
}

fn coin(amount: u128) -> Coin {
    Coin { amount, denom: s("uabc-contractx") }
}

#[test]
fn new_state_records_nothing() {
    let state = State::new();
    assert_eq!(state.owner, None);
    assert_eq!(state.denom, None);
}

#[test]
fn denom_is_subunit_hyphen_address_in_lower_case() {
    assert_eq!(derive_denom(&s("uabc"), &s("contractX")), "uabc-contractx");
    assert_eq!(derive_denom(&s("UAbc"), &s("CORE1QXY")), "uabc-core1qxy");
    assert_eq!(derive_denom(&s(""), &s("")), "-");
}

#[test]
fn instantiate_records_controller_and_denom() {
    let state = issued();
    assert_eq!(state.owner, Some(s("alice")));
    assert_eq!(state.denom, Some(s("uabc-contractx")));
}

#[test]
fn instantiate_answers_with_the_issue() {
    let mut state = State::new();
    let response = instantiate(&mut state, &s("contractX"), &s("alice"), issue_msg());
    assert_eq!(response.attributes, vec![attr("owner", "alice"), attr("denom", "uabc-contractx")]);
    assert_eq!(
        response.messages,
        vec![Effect::Issue {
            symbol: s("ABC"),
            subunit: s("uabc"),
            precision: 6,
            initial_amount: 5000,
            description: Some(s("a token")),
            features: Some(vec![0, 1, 2, 3]),
            burn_rate: Some(s("0.1")),
            send_commission_rate: None,
            uri: Some(s("https://example.org")),
            uri_hash: None,
        }]
    );
}

#[test]
fn issue_takes_the_denom_as_given() {
    let mut state = State::new();
    let response = issue(&mut state, &s("bob"), issue_msg(), s("Given-Denom"));
    assert_eq!(state.owner, Some(s("bob")));
    assert_eq!(state.denom, Some(s("Given-Denom")));
    assert_eq!(response.attributes, vec![attr("owner", "bob"), attr("denom", "Given-Denom")]);
    assert_eq!(response.messages.len(), 1);
}

#[test]
fn mint_by_the_controller_yields_one_mint() {
    let state = issued();
    let response = execute(&state, &s("alice"), ExecuteMsg::Mint { amount: 1000, recipient: None }).unwrap();
    assert_eq!(response.messages, vec![Effect::Mint { coin: coin(1000), recipient: None }]);
    assert_eq!(
        response.attributes,
        vec![attr("method", "mint"), attr("denom", "uabc-contractx"), attr("amount", "1000")]
    );
}

#[test]
fn mint_by_a_stranger_is_unauthorized() {
    let state = issued();
    let r = execute(&state, &s("mallory"), ExecuteMsg::Mint { amount: 1000, recipient: None });
    assert_eq!(r, Err(ContractError::Unauthorized));
}

#[test]
fn mint_names_the_recipient() {
    let state = issued();
    let response = mint(&state, &s("alice"), 7, Some(s("carol"))).unwrap();
    assert_eq!(response.messages, vec![Effect::Mint { coin: coin(7), recipient: Some(s("carol")) }]);
}

#[test]
fn burn_yields_one_burn() {
    let state = issued();
    let response = burn(&state, &s("alice"), 42).unwrap();
    assert_eq!(response.messages, vec![Effect::Burn { coin: coin(42) }]);
    assert_eq!(
        response.attributes,
        vec![attr("method", "burn"), attr("denom", "uabc-contractx"), attr("amount", "42")]
    );
}

#[test]
fn freeze_yields_one_freeze() {
    let state = issued();
    let response = freeze(&state, &s("alice"), s("carol"), 9).unwrap();
    assert_eq!(response.messages, vec![Effect::Freeze { account: s("carol"), coin: coin(9) }]);
    assert_eq!(
        response.attributes,
        vec![attr("method", "freeze"), attr("denom", "uabc-contractx"), attr("amount", "9")]
    );
}

#[test]
fn unfreeze_yields_one_unfreeze() {
    let state = issued();
    let response = unfreeze(&state, &s("alice"), s("carol"), 10).unwrap();
    assert_eq!(response.messages, vec![Effect::Unfreeze { account: s("carol"), coin: coin(10) }]);
    assert_eq!(
        response.attributes,
        vec![attr("method", "unfreeze"), attr("denom", "uabc-contractx"), attr("amount", "10")]
    );
}

#[test]
fn set_frozen_yields_one_set_frozen() {
    let state = issued();
    let response = set_frozen(&state, &s("alice"), s("carol"), 0).unwrap();
    assert_eq!(response.messages, vec![Effect::SetFrozen { account: s("carol"), coin: coin(0) }]);
    assert_eq!(
        response.attributes,
        vec![attr("method", "set_frozen"), attr("denom", "uabc-contractx"), attr("amount", "0")]
    );
}

#[test]
fn globally_freeze_has_no_amount() {
    let state = issued();
    let response = globally_freeze(&state, &s("alice")).unwrap();
    assert_eq!(response.messages, vec![Effect::GloballyFreeze { denom: s("uabc-contractx") }]);
    assert_eq!(response.attributes, vec![attr("method", "globally_freeze"), attr("denom", "uabc-contractx")]);
}

#[test]
fn globally_unfreeze_has_no_amount() {
    let state = issued();
    let response = globally_unfreeze(&state, &s("alice")).unwrap();
    assert_eq!(response.messages, vec![Effect::GloballyUnfreeze { denom: s("uabc-contractx") }]);
    assert_eq!(
        response.attributes,
        vec![attr("method", "globally_unfreeze"), attr("denom", "uabc-contractx")]
    );
}

#[test]
fn set_whitelisted_limit_yields_one_limit() {
    let state = issued();
    let response = set_whitelisted_limit(&state, &s("alice"), s("dave"), u128::MAX).unwrap();
    assert_eq!(
        response.messages,
        vec![Effect::SetWhitelistedLimit { account: s("dave"), coin: coin(u128::MAX) }]
    );
    assert_eq!(
        response.attributes,
        vec![
            attr("method", "set_whitelisted_limit"),
            attr("denom", "uabc-contractx"),
            attr("amount", "340282366920938463463374607431768211455"),
        ]
    );
}

#[test]
fn execute_routes_every_command() {
    let state = issued();
    let alice = s("alice");
    let commands = vec![
        (ExecuteMsg::Mint { amount: 1, recipient: None }, "mint"),
        (ExecuteMsg::Burn { amount: 1 }, "burn"),
        (ExecuteMsg::Freeze { account: s("a"), amount: 1 }, "freeze"),
        (ExecuteMsg::Unfreeze { account: s("a"), amount: 1 }, "unfreeze"),
        (ExecuteMsg::SetFrozen { account: s("a"), amount: 1 }, "set_frozen"),
        (ExecuteMsg::GloballyFreeze {}, "globally_freeze"),
        (ExecuteMsg::GloballyUnfreeze {}, "globally_unfreeze"),
        (ExecuteMsg::SetWhitelistedLimit { account: s("a"), amount: 1 }, "set_whitelisted_limit"),
    ];
    for (command, method) in commands {
        let response = execute(&state, &alice, command).unwrap();
        assert_eq!(response.attributes[0], attr("method", method));
        assert_eq!(response.attributes[1], attr("denom", "uabc-contractx"));
        assert_eq!(response.messages.len(), 1);
    }
}

#[test]
fn every_command_of_a_stranger_is_unauthorized() {
    let state = issued();
    let eve = s("eve");
    assert_eq!(mint(&state, &eve, 1, None), Err(ContractError::Unauthorized));
    assert_eq!(burn(&state, &eve, 1), Err(ContractError::Unauthorized));
    assert_eq!(freeze(&state, &eve, s("a"), 1), Err(ContractError::Unauthorized));
    assert_eq!(unfreeze(&state, &eve, s("a"), 1), Err(ContractError::Unauthorized));
    assert_eq!(set_frozen(&state, &eve, s("a"), 1), Err(ContractError::Unauthorized));
    assert_eq!(globally_freeze(&state, &eve), Err(ContractError::Unauthorized));
    assert_eq!(globally_unfreeze(&state, &eve), Err(ContractError::Unauthorized));
    assert_eq!(set_whitelisted_limit(&state, &eve, s("a"), 1), Err(ContractError::Unauthorized));
}

#[test]
fn the_controller_is_matched_letter_for_letter() {
    let state = issued();
    assert_eq!(burn(&state, &s("Alice"), 1), Err(ContractError::Unauthorized));
    assert_eq!(burn(&state, &s("alice "), 1), Err(ContractError::Unauthorized));
    assert_eq!(burn(&state, &s(""), 1), Err(ContractError::Unauthorized));
}

#[test]
fn a_command_before_the_issue_finds_nothing() {
    let state = State::new();
    assert_eq!(burn(&state, &s("alice"), 1), Err(ContractError::NotFound));
}

#[test]
fn a_controller_without_denom_finds_nothing() {
    let mut state = State::new();
    state.initialize_owner(&s("alice"));
    assert_eq!(state.assert_owner(&s("alice")), Ok(()));
    assert_eq!(state.load_denom(), Err(ContractError::NotFound));
    assert_eq!(burn(&state, &s("alice"), 1), Err(ContractError::NotFound));
    assert_eq!(burn(&state, &s("bob"), 1), Err(ContractError::Unauthorized));
}

#[test]
fn the_store_returns_what_was_saved() {
    let mut state = State::new();
    state.save_denom(s("uabc-contractx"));
    assert_eq!(state.load_denom(), Ok(s("uabc-contractx")));
    assert_eq!(state.assert_owner(&s("alice")), Err(ContractError::NotFound));
}

#[test]
fn commands_leave_the_state_as_it_is() {
    let state = issued();
    let before = state.clone();
    let _ = execute(&state, &s("alice"), ExecuteMsg::Burn { amount: 3 });
    let _ = execute(&state, &s("eve"), ExecuteMsg::Burn { amount: 3 });
    assert_eq!(state, before);
    assert_eq!(state.denom, Some(s("uabc-contractx")));
}

#[test]
fn amounts_are_written_in_decimal() {
    let state = issued();
    let alice = s("alice");
    for (amount, written) in [(0u128, "0"), (9, "9"), (10, "10"), (1000, "1000"), (1u128 << 64, "18446744073709551616")] {
        let response = burn(&state, &alice, amount).unwrap();
        assert_eq!(response.attributes[2], attr("amount", written));
    }
}

#[test]
fn responses_are_built_in_order() {
    let response = Response::new()
        .add_attribute("a", s("1"))
        .add_attribute("b", s("2"))
        .add_message(Effect::GloballyFreeze { denom: s("d") });
    assert_eq!(response.attributes, vec![attr("a", "1"), attr("b", "2")]);
    assert_eq!(response.messages, vec![Effect::GloballyFreeze { denom: s("d") }]);
}

#[test]
fn errors_have_words() {
    assert_eq!(ContractError::Unauthorized.message(), "caller is not the contract's current owner");
    assert_eq!(ContractError::NotFound.message(), "contract is not initialized");
}

#[test]
fn end_to_end() {
    let mut state = State::new();
    let msg = InstantiateMsg {
        symbol: s("ABC"),
        subunit: s("uabc"),
        precision: 6,
        initial_amount: 0,
        description: None,
        features: None,
        burn_rate: None,
        send_commission_rate: None,
        uri: None,
        uri_hash: None,
    };
    let response = instantiate(&mut state, &s("contractX"), &s("owner"), msg);
    assert_eq!(response.attributes[1], attr("denom", "uabc-contractx"));
    let minted = execute(&state, &s("owner"), ExecuteMsg::Mint { amount: 1000, recipient: None }).unwrap();
    assert_eq!(
        minted.messages,
        vec![Effect::Mint { coin: Coin { amount: 1000, denom: s("uabc-contractx") }, recipient: None }]
    );
    let refused = execute(&state, &s("someone"), ExecuteMsg::Mint { amount: 1000, recipient: None });
    assert_eq!(refused, Err(ContractError::Unauthorized));
}

#[test]
fn decimal_string_has_no_leading_zeros() {
    assert_eq!(decimal_string(0), "0");
    assert_eq!(decimal_string(7), "7");
    assert_eq!(decimal_string(10), "10");
    assert_eq!(decimal_string(1234567890), "1234567890");
    assert_eq!(decimal_string(100000000000000000000), "100000000000000000000");
    assert_eq!(decimal_string(u128::MAX), "340282366920938463463374607431768211455");
}

#[test]
fn decimal_string_agrees_with_display() {
    let mut n: u128 = 1;
    for _ in 0..127 {
        assert_eq!(decimal_string(n), n.to_string());
        assert_eq!(decimal_string(n - 1), (n - 1).to_string());
        n *= 2;
    }
}

#[test]
fn denom_lower_cases_beyond_ascii() {
    assert_eq!(derive_denom(&s("\u{c4}BC"), &s("\u{d6}X")), "\u{e4}bc-\u{f6}x");
}
