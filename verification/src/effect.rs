//! What a command hands to the host ledger: one effect message, and the
//! attributes that describe the call.

use vstd::prelude::*;

verus! {

/// The view of an optional text.
pub open spec fn text(o: Option<String>) -> Option<Seq<char>> {
    match o {
        Some(s) => Some(s@),
        None => None,
    }
}

/// The view of an optional list of feature numbers.
pub open spec fn numbers(o: Option<Vec<u32>>) -> Option<Seq<u32>> {
    match o {
        Some(v) => Some(v@),
        None => None,
    }
}

/// An amount of one denomination.
#[derive(Clone, Debug, PartialEq, Eq)]
pub struct Coin {
    pub amount: u128,
    pub denom: String,
}

/// The mathematical value of a [`Coin`].
pub struct CoinView {
    pub amount: nat,
    pub denom: Seq<char>,
}

impl View for Coin {
    type V = CoinView;

    open spec fn view(&self) -> CoinView {
        CoinView { amount: self.amount as nat, denom: self.denom@ }
    }
}

/// Calls `cosmwasm_std::coin` and reads the two fields of what it made.
/// Trusted: the coin holds the amount and the denomination that were given.
#[verifier::external_body]
pub(crate) fn coin(amount: u128, denom: String) -> (c: Coin)
    ensures
        c.amount == amount,
        c.denom@ == denom@,
{
    let made = cosmwasm_std::coin(amount, denom);
    Coin { amount: made.amount.u128(), denom: made.denom }
}

/// An effect message for the host ledger's token subsystem.
#[derive(Clone, Debug, PartialEq, Eq)]
pub enum Effect {
    Issue {
        symbol: String,
        subunit: String,
        precision: u32,
        initial_amount: u128,
        description: Option<String>,
        features: Option<Vec<u32>>,
        burn_rate: Option<String>,
        send_commission_rate: Option<String>,
        uri: Option<String>,
        uri_hash: Option<String>,
    },
    Mint { coin: Coin, recipient: Option<String> },
    Burn { coin: Coin },
    Freeze { account: String, coin: Coin },
    Unfreeze { account: String, coin: Coin },
    SetFrozen { account: String, coin: Coin },
    GloballyFreeze { denom: String },
    GloballyUnfreeze { denom: String },
    SetWhitelistedLimit { account: String, coin: Coin },
}

/// The mathematical value of an [`Effect`].
pub enum EffectView {
    Issue {
        symbol: Seq<char>,
        subunit: Seq<char>,
        precision: u32,
        initial_amount: nat,
        description: Option<Seq<char>>,
        features: Option<Seq<u32>>,
        burn_rate: Option<Seq<char>>,
        send_commission_rate: Option<Seq<char>>,
        uri: Option<Seq<char>>,
        uri_hash: Option<Seq<char>>,
    },
    Mint { coin: CoinView, recipient: Option<Seq<char>> },
    Burn { coin: CoinView },
    Freeze { account: Seq<char>, coin: CoinView },
    Unfreeze { account: Seq<char>, coin: CoinView },
    SetFrozen { account: Seq<char>, coin: CoinView },
    GloballyFreeze { denom: Seq<char> },
    GloballyUnfreeze { denom: Seq<char> },
    SetWhitelistedLimit { account: Seq<char>, coin: CoinView },
}

impl View for Effect {
    type V = EffectView;

    open spec fn view(&self) -> EffectView {
        match *self {
            Effect::Issue {
                symbol,
                subunit,
                precision,
                initial_amount,
                description,
                features,
                burn_rate,
                send_commission_rate,
                uri,
                uri_hash,
            } => EffectView::Issue {
                symbol: symbol@,
                subunit: subunit@,
                precision,
                initial_amount: initial_amount as nat,
                description: text(description),
                features: numbers(features),
                burn_rate: text(burn_rate),
                send_commission_rate: text(send_commission_rate),
                uri: text(uri),
                uri_hash: text(uri_hash),
            },
            Effect::Mint { coin, recipient } => EffectView::Mint {
                coin: coin@,
                recipient: text(recipient),
            },
            Effect::Burn { coin } => EffectView::Burn { coin: coin@ },
            Effect::Freeze { account, coin } => EffectView::Freeze { account: account@, coin: coin@ },
            Effect::Unfreeze { account, coin } => EffectView::Unfreeze {
                account: account@,
                coin: coin@,
            },
            Effect::SetFrozen { account, coin } => EffectView::SetFrozen {
                account: account@,
                coin: coin@,
            },
            Effect::GloballyFreeze { denom } => EffectView::GloballyFreeze { denom: denom@ },
            Effect::GloballyUnfreeze { denom } => EffectView::GloballyUnfreeze { denom: denom@ },
            Effect::SetWhitelistedLimit { account, coin } => EffectView::SetWhitelistedLimit {
                account: account@,
                coin: coin@,
            },
        }
    }
}

impl EffectView {
    /// The denomination that the effect is about, where it names one: every
    /// effect but the issue, which names the subunit instead.
    pub open spec fn denom(self) -> Option<Seq<char>> {
        match self {
            EffectView::Issue { .. } => None,
            EffectView::Mint { coin, .. } => Some(coin.denom),
            EffectView::Burn { coin } => Some(coin.denom),
            EffectView::Freeze { coin, .. } => Some(coin.denom),
            EffectView::Unfreeze { coin, .. } => Some(coin.denom),
            EffectView::SetFrozen { coin, .. } => Some(coin.denom),
            EffectView::GloballyFreeze { denom } => Some(denom),
            EffectView::GloballyUnfreeze { denom } => Some(denom),
            EffectView::SetWhitelistedLimit { coin, .. } => Some(coin.denom),
        }
    }
}

/// One human-readable attribute of a response.
#[derive(Clone, Debug, PartialEq, Eq)]
pub struct Attribute {
    pub key: String,
    pub value: String,
}

impl View for Attribute {
    type V = (Seq<char>, Seq<char>);

    open spec fn view(&self) -> (Seq<char>, Seq<char>) {
        (self.key@, self.value@)
    }
}

/// What a command returns: attributes, and the effects for the host ledger.
#[derive(Clone, Debug, PartialEq, Eq)]
pub struct Response {
    pub attributes: Vec<Attribute>,
    pub messages: Vec<Effect>,
}

/// The mathematical value of a [`Response`].
pub struct ResponseView {
    pub attributes: Seq<(Seq<char>, Seq<char>)>,
    pub messages: Seq<EffectView>,
}

impl View for Response {
    type V = ResponseView;

    open spec fn view(&self) -> ResponseView {
        ResponseView {
            attributes: self.attributes@.map_values(|a: Attribute| a@),
            messages: self.messages@.map_values(|m: Effect| m@),
        }
    }
}

impl Response {
    /// A response without attributes or effects.
    pub fn new() -> (r: Response)
        ensures
            r@.attributes == Seq::<(Seq<char>, Seq<char>)>::empty(),
            r@.messages == Seq::<EffectView>::empty(),
    {
        let r = Response { attributes: Vec::new(), messages: Vec::new() };
        assert(r@.attributes =~= Seq::<(Seq<char>, Seq<char>)>::empty());
        assert(r@.messages =~= Seq::<EffectView>::empty());
        r
    }

    /// The response with one more attribute at the end.
    pub fn add_attribute(self, key: &str, value: String) -> (r: Response)
        ensures
            r@.attributes == self@.attributes.push((key@, value@)),
            r@.messages == self@.messages,
    {
        let mut r = self;
        r.attributes.push(Attribute { key: String::from_str(key), value });
        assert(r@.attributes =~= self@.attributes.push((key@, value@)));
        r
    }

    /// The response with one more effect at the end.
    pub fn add_message(self, effect: Effect) -> (r: Response)
        ensures
            r@.attributes == self@.attributes,
            r@.messages == self@.messages.push(effect@),
    {
        let mut r = self;
        r.messages.push(effect);
        assert(r@.messages =~= self@.messages.push(effect@));
        r
    }
}

} // verus!
