//! The dispatcher for the issue of the token and for the commands that
//! change it. Every command passes the owner check first, reads the recorded
//! denomination, and answers with one effect for the host ledger.

use vstd::prelude::*;
use crate::effect::{coin, numbers, text, CoinView, Effect, EffectView, Response, ResponseView};
use crate::error::ContractError;
use crate::msg::{ExecuteMsg, InstantiateMsg};
use crate::state::State;
use crate::text::{decimal, decimal_string, lowercase, to_lowercase};

verus! {

/// The denomination of a token: its subunit, a hyphen and the address of
/// the contract that issues it, lower-cased as a whole.
pub open spec fn denom_of(subunit: Seq<char>, address: Seq<char>) -> Seq<char> {
    lowercase(subunit + seq!['-'] + address)
}

/// The effect that issues the token described by `msg`.
pub open spec fn issue_effect(msg: InstantiateMsg) -> EffectView {
    EffectView::Issue {
        symbol: msg.symbol@,
        subunit: msg.subunit@,
        precision: msg.precision,
        initial_amount: msg.initial_amount as nat,
        description: text(msg.description),
        features: numbers(msg.features),
        burn_rate: text(msg.burn_rate),
        send_commission_rate: text(msg.send_commission_rate),
        uri: text(msg.uri),
        uri_hash: text(msg.uri_hash),
    }
}

/// The response to the issue of a token by `sender` under `denom`.
pub open spec fn issue_response(sender: Seq<char>, denom: Seq<char>, msg: InstantiateMsg) -> ResponseView {
    ResponseView {
        attributes: seq![("owner"@, sender), ("denom"@, denom)],
        messages: seq![issue_effect(msg)],
    }
}

/// The name under which a command is reported.
pub open spec fn method_of(msg: ExecuteMsg) -> Seq<char> {
    match msg {
        ExecuteMsg::Mint { .. } => "mint"@,
        ExecuteMsg::Burn { .. } => "burn"@,
        ExecuteMsg::Freeze { .. } => "freeze"@,
        ExecuteMsg::Unfreeze { .. } => "unfreeze"@,
        ExecuteMsg::SetFrozen { .. } => "set_frozen"@,
        ExecuteMsg::GloballyFreeze {  } => "globally_freeze"@,
        ExecuteMsg::GloballyUnfreeze {  } => "globally_unfreeze"@,
        ExecuteMsg::SetWhitelistedLimit { .. } => "set_whitelisted_limit"@,
    }
}

/// The amount that a command carries, if it carries one.
pub open spec fn amount_of(msg: ExecuteMsg) -> Option<nat> {
    match msg {
        ExecuteMsg::Mint { amount, .. } => Some(amount as nat),
        ExecuteMsg::Burn { amount } => Some(amount as nat),
        ExecuteMsg::Freeze { amount, .. } => Some(amount as nat),
        ExecuteMsg::Unfreeze { amount, .. } => Some(amount as nat),
        ExecuteMsg::SetFrozen { amount, .. } => Some(amount as nat),
        ExecuteMsg::GloballyFreeze {  } => None,
        ExecuteMsg::GloballyUnfreeze {  } => None,
        ExecuteMsg::SetWhitelistedLimit { amount, .. } => Some(amount as nat),
    }
}

/// The one effect of a command on the token `denom`.
pub open spec fn effect_of(denom: Seq<char>, msg: ExecuteMsg) -> EffectView {
    match msg {
        ExecuteMsg::Mint { amount, recipient } => EffectView::Mint {
            coin: CoinView { amount: amount as nat, denom },
            recipient: text(recipient),
        },
        ExecuteMsg::Burn { amount } => EffectView::Burn { coin: CoinView { amount: amount as nat, denom } },
        ExecuteMsg::Freeze { account, amount } => EffectView::Freeze {
            account: account@,
            coin: CoinView { amount: amount as nat, denom },
        },
        ExecuteMsg::Unfreeze { account, amount } => EffectView::Unfreeze {
            account: account@,
            coin: CoinView { amount: amount as nat, denom },
        },
        ExecuteMsg::SetFrozen { account, amount } => EffectView::SetFrozen {
            account: account@,
            coin: CoinView { amount: amount as nat, denom },
        },
        ExecuteMsg::GloballyFreeze {  } => EffectView::GloballyFreeze { denom },
        ExecuteMsg::GloballyUnfreeze {  } => EffectView::GloballyUnfreeze { denom },
        ExecuteMsg::SetWhitelistedLimit { account, amount } => EffectView::SetWhitelistedLimit {
            account: account@,
            coin: CoinView { amount: amount as nat, denom },
        },
    }
}

/// The attributes of the response to a command: the method, the
/// denomination, and the amount in decimal where the command has one.
pub open spec fn attributes_of(denom: Seq<char>, msg: ExecuteMsg) -> Seq<(Seq<char>, Seq<char>)> {
    let head = seq![("method"@, method_of(msg)), ("denom"@, denom)];
    match amount_of(msg) {
        Some(amount) => head.push(("amount"@, decimal(amount))),
        None => head,
    }
}

/// The denomination that a call by `caller` may act on: the refusal of the
/// owner check comes first, the missing denomination second.
pub open spec fn granted(state: State, caller: Seq<char>) -> Result<Seq<char>, ContractError> {
    match state.refusal(caller) {
        Some(e) => Err(e),
        None => match state.denomination() {
            Some(d) => Ok(d),
            None => Err(ContractError::NotFound),
        },
    }
}

/// What a command by `caller` comes to in `state`.
pub open spec fn outcome(state: State, caller: Seq<char>, msg: ExecuteMsg) -> Result<ResponseView, ContractError> {
    match granted(state, caller) {
        Err(e) => Err(e),
        Ok(denom) => Ok(
            ResponseView { attributes: attributes_of(denom, msg), messages: seq![effect_of(denom, msg)] },
        ),
    }
}

/// Whether `r` is what `expected` says, the response taken by its view.
pub open spec fn answers(r: Result<Response, ContractError>, expected: Result<ResponseView, ContractError>) -> bool {
    match r {
        Ok(response) => expected == Ok::<ResponseView, ContractError>(response@),
        Err(e) => expected == Err::<ResponseView, ContractError>(e),
    }
}

/// The denomination of the token with this subunit, issued by the contract
/// at this address.
pub fn derive_denom(subunit: &String, address: &String) -> (denom: String)
    ensures
        denom@ == denom_of(subunit@, address@),
{
    let mut joined = subunit.clone();
    joined.append("-");
    joined.append(address.as_str());
    proof {
        reveal_strlit("-");
        assert("-"@ =~= seq!['-']);
    }
    to_lowercase(joined.as_str())
}

/// Issues the token under a denomination that is already derived: records
/// the sender as controller and the denomination, and answers with the one
/// effect that issues the token.
pub fn issue(state: &mut State, sender: &String, msg: InstantiateMsg, denom: String) -> (r: Response)
    ensures
        final(state).controller() == Some(sender@),
        final(state).denomination() == Some(denom@),
        r@ == issue_response(sender@, denom@, msg),
{
    state.initialize_owner(sender);
    let effect = Effect::Issue {
        symbol: msg.symbol,
        subunit: msg.subunit,
        precision: msg.precision,
        initial_amount: msg.initial_amount,
        description: msg.description,
        features: msg.features,
        burn_rate: msg.burn_rate,
        send_commission_rate: msg.send_commission_rate,
        uri: msg.uri,
        uri_hash: msg.uri_hash,
    };
    state.save_denom(denom.clone());
    let r = Response::new().add_attribute("owner", sender.clone()).add_attribute("denom", denom).add_message(
        effect,
    );
    assert(r@.attributes =~= issue_response(sender@, denom@, msg).attributes);
    assert(r@.messages =~= issue_response(sender@, denom@, msg).messages);
    r
}

/// Issues the token: the denomination is derived from the subunit and the
/// contract's own address, the sender becomes the controller.
pub fn instantiate(state: &mut State, contract: &String, sender: &String, msg: InstantiateMsg) -> (r: Response)
    ensures
        final(state).controller() == Some(sender@),
        final(state).denomination() == Some(denom_of(msg.subunit@, contract@)),
        r@ == issue_response(sender@, denom_of(msg.subunit@, contract@), msg),
{
    let denom = derive_denom(&msg.subunit, contract);
    issue(state, sender, msg, denom)
}

/// The response to a command that carries an amount.
fn respond_with_amount(method: &str, denom: String, amount: u128, effect: Effect) -> (r: Response)
    ensures
        r@.attributes == seq![("method"@, method@), ("denom"@, denom@)].push(("amount"@, decimal(amount as nat))),
        r@.messages == seq![effect@],
{
    let r = Response::new().add_attribute("method", String::from_str(method)).add_attribute(
        "denom",
        denom,
    ).add_attribute("amount", decimal_string(amount)).add_message(effect);
    assert(r@.attributes =~= seq![("method"@, method@), ("denom"@, denom@)].push(
        ("amount"@, decimal(amount as nat)),
    ));
    assert(r@.messages =~= seq![effect@]);
    r
}

/// The response to a command without an amount.
fn respond(method: &str, denom: String, effect: Effect) -> (r: Response)
    ensures
        r@.attributes == seq![("method"@, method@), ("denom"@, denom@)],
        r@.messages == seq![effect@],
{
    let r = Response::new().add_attribute("method", String::from_str(method)).add_attribute(
        "denom",
        denom,
    ).add_message(effect);
    assert(r@.attributes =~= seq![("method"@, method@), ("denom"@, denom@)]);
    assert(r@.messages =~= seq![effect@]);
    r
}

/// Passes the owner check and loads the denomination.
fn grant(state: &State, caller: &String) -> (r: Result<String, ContractError>)
    ensures
        match r {
            Ok(d) => granted(*state, caller@) == Ok::<Seq<char>, ContractError>(d@),
            Err(e) => granted(*state, caller@) == Err::<Seq<char>, ContractError>(e),
        },
{
    match state.assert_owner(caller) {
        Err(e) => Err(e),
        Ok(_) => state.load_denom(),
    }
}

/// Mints `amount` of the token, to `recipient` or to the contract itself.
pub fn mint(state: &State, caller: &String, amount: u128, recipient: Option<String>) -> (r: Result<
    Response,
    ContractError,
>)
    ensures
        answers(r, outcome(*state, caller@, (ExecuteMsg::Mint { amount, recipient }))),
{
    match grant(state, caller) {
        Err(e) => Err(e),
        Ok(denom) => {
            let effect = Effect::Mint { coin: coin(amount, denom.clone()), recipient };
            Ok(respond_with_amount("mint", denom, amount, effect))
        },
    }
}

/// Burns `amount` of the token.
pub fn burn(state: &State, caller: &String, amount: u128) -> (r: Result<Response, ContractError>)
    ensures
        answers(r, outcome(*state, caller@, (ExecuteMsg::Burn { amount }))),
{
    match grant(state, caller) {
        Err(e) => Err(e),
        Ok(denom) => {
            let effect = Effect::Burn { coin: coin(amount, denom.clone()) };
            Ok(respond_with_amount("burn", denom, amount, effect))
        },
    }
}

/// Freezes `amount` more of the token on `account`.
pub fn freeze(state: &State, caller: &String, account: String, amount: u128) -> (r: Result<
    Response,
    ContractError,
>)
    ensures
        answers(r, outcome(*state, caller@, (ExecuteMsg::Freeze { account, amount }))),
{
    match grant(state, caller) {
        Err(e) => Err(e),
        Ok(denom) => {
            let effect = Effect::Freeze { account, coin: coin(amount, denom.clone()) };
            Ok(respond_with_amount("freeze", denom, amount, effect))
        },
    }
}

/// Releases `amount` of what is frozen on `account`.
pub fn unfreeze(state: &State, caller: &String, account: String, amount: u128) -> (r: Result<
    Response,
    ContractError,
>)
    ensures
        answers(r, outcome(*state, caller@, (ExecuteMsg::Unfreeze { account, amount }))),
{
    match grant(state, caller) {
        Err(e) => Err(e),
        Ok(denom) => {
            let effect = Effect::Unfreeze { account, coin: coin(amount, denom.clone()) };
            Ok(respond_with_amount("unfreeze", denom, amount, effect))
        },
    }
}

/// Sets what is frozen on `account` to `amount`.
pub fn set_frozen(state: &State, caller: &String, account: String, amount: u128) -> (r: Result<
    Response,
    ContractError,
>)
    ensures
        answers(r, outcome(*state, caller@, (ExecuteMsg::SetFrozen { account, amount }))),
{
    match grant(state, caller) {
        Err(e) => Err(e),
        Ok(denom) => {
            let effect = Effect::SetFrozen { account, coin: coin(amount, denom.clone()) };
            Ok(respond_with_amount("set_frozen", denom, amount, effect))
        },
    }
}

/// Freezes the token on every account.
pub fn globally_freeze(state: &State, caller: &String) -> (r: Result<Response, ContractError>)
    ensures
        answers(r, outcome(*state, caller@, (ExecuteMsg::GloballyFreeze {  }))),
{
    match grant(state, caller) {
        Err(e) => Err(e),
        Ok(denom) => {
            let effect = Effect::GloballyFreeze { denom: denom.clone() };
            Ok(respond("globally_freeze", denom, effect))
        },
    }
}

/// Lifts the freeze of the token on every account.
pub fn globally_unfreeze(state: &State, caller: &String) -> (r: Result<Response, ContractError>)
    ensures
        answers(r, outcome(*state, caller@, (ExecuteMsg::GloballyUnfreeze {  }))),
{
    match grant(state, caller) {
        Err(e) => Err(e),
        Ok(denom) => {
            let effect = Effect::GloballyUnfreeze { denom: denom.clone() };
            Ok(respond("globally_unfreeze", denom, effect))
        },
    }
}

/// Sets the limit up to which `account` may hold the token.
pub fn set_whitelisted_limit(state: &State, caller: &String, account: String, amount: u128) -> (r: Result<
    Response,
    ContractError,
>)
    ensures
        answers(r, outcome(*state, caller@, (ExecuteMsg::SetWhitelistedLimit { account, amount }))),
{
    match grant(state, caller) {
        Err(e) => Err(e),
        Ok(denom) => {
            let effect = Effect::SetWhitelistedLimit { account, coin: coin(amount, denom.clone()) };
            Ok(respond_with_amount("set_whitelisted_limit", denom, amount, effect))
        },
    }
}

/// Routes a command to its operation.
pub fn execute(state: &State, caller: &String, msg: ExecuteMsg) -> (r: Result<Response, ContractError>)
    ensures
        answers(r, outcome(*state, caller@, msg)),
{
    match msg {
        ExecuteMsg::Mint { amount, recipient } => mint(state, caller, amount, recipient),
        ExecuteMsg::Burn { amount } => burn(state, caller, amount),
        ExecuteMsg::Freeze { account, amount } => freeze(state, caller, account, amount),
        ExecuteMsg::Unfreeze { account, amount } => unfreeze(state, caller, account, amount),
        ExecuteMsg::SetFrozen { account, amount } => set_frozen(state, caller, account, amount),
        ExecuteMsg::GloballyFreeze {  } => globally_freeze(state, caller),
        ExecuteMsg::GloballyUnfreeze {  } => globally_unfreeze(state, caller),
        ExecuteMsg::SetWhitelistedLimit { account, amount } => set_whitelisted_limit(
            state,
            caller,
            account,
            amount,
        ),
    }
}

/// A caller other than the recorded controller is refused as unauthorized,
/// whatever the command, and so no effect comes out.
pub proof fn stranger_is_refused(state: State, caller: Seq<char>, msg: ExecuteMsg)
    requires
        state.controller() is Some,
        state.controller() != Some(caller),
    ensures
        outcome(state, caller, msg) == Err::<ResponseView, ContractError>(ContractError::Unauthorized),
{
}

/// A command of the controller, once the denomination is recorded, succeeds
/// with exactly one effect, and that effect is about the recorded
/// denomination.
pub proof fn controller_gets_one_effect(state: State, caller: Seq<char>, msg: ExecuteMsg)
    requires
        state.controller() == Some(caller),
        state.denomination() is Some,
    ensures
        outcome(state, caller, msg) is Ok,
        outcome(state, caller, msg)->Ok_0.messages.len() == 1,
        outcome(state, caller, msg)->Ok_0.messages[0].denom() == state.denomination(),
{
}

/// A command succeeds only for the controller, and fails without a response
/// for everyone else: the two cases leave nothing over.
pub proof fn owner_check_decides(state: State, caller: Seq<char>, msg: ExecuteMsg)
    ensures
        outcome(state, caller, msg) is Ok <==> (state.controller() == Some(caller)
            && state.denomination() is Some),
{
}

} // verus!
