//! The read path: the outbound query that a request opens with, and the
//! gathering of paged answers into one complete answer.

use vstd::prelude::*;
use crate::contract::denom_of;
use crate::error::ContractError;
use crate::msg::QueryMsg;
use crate::state::State;

verus! {

/// Where a page of a listing starts; every field but the key stays unset.
#[derive(Clone, Debug, PartialEq, Eq)]
pub struct PageRequest {
    pub key: Option<String>,
    pub offset: Option<u64>,
    pub limit: Option<u64>,
    pub count_total: Option<bool>,
    pub reverse: Option<bool>,
}

/// What the host ledger says of a page: the key of the next one, absent at
/// the end of the data, and the total count where it gives one.
#[derive(Clone, Debug, PartialEq, Eq)]
pub struct PageResponse {
    pub next_key: Option<String>,
    pub total: Option<u64>,
}

/// An outbound query to the host ledger's token subsystem.
#[derive(Clone, Debug, PartialEq, Eq)]
pub enum Query {
    Params {  },
    Tokens { pagination: Option<PageRequest>, issuer: String },
    Token { denom: String },
    Balance { account: String, denom: String },
    FrozenBalances { pagination: Option<PageRequest>, account: String },
    FrozenBalance { account: String, denom: String },
    WhitelistedBalances { pagination: Option<PageRequest>, account: String },
    WhitelistedBalance { account: String, denom: String },
}

/// The mathematical value of a [`PageRequest`].
pub struct PageRequestView {
    pub key: Option<Seq<char>>,
    pub offset: Option<u64>,
    pub limit: Option<u64>,
    pub count_total: Option<bool>,
    pub reverse: Option<bool>,
}

impl View for PageRequest {
    type V = PageRequestView;

    open spec fn view(&self) -> PageRequestView {
        PageRequestView {
            key: match self.key {
                Some(k) => Some(k@),
                None => None,
            },
            offset: self.offset,
            limit: self.limit,
            count_total: self.count_total,
            reverse: self.reverse,
        }
    }
}

/// The mathematical value of a [`Query`]: its kind, the account or issuer
/// that it is scoped to, the denomination, and the page asked for.
pub struct QueryView {
    pub kind: QueryKind,
    pub scope: Option<Seq<char>>,
    pub denom: Option<Seq<char>>,
    pub page: Option<PageRequestView>,
}

/// The kinds of outbound query.
#[derive(Clone, Copy, Debug, PartialEq, Eq, Structural)]
pub enum QueryKind {
    Params,
    Tokens,
    Token,
    Balance,
    FrozenBalances,
    FrozenBalance,
    WhitelistedBalances,
    WhitelistedBalance,
}

/// The view of an optional page request.
pub open spec fn page_of(pagination: Option<PageRequest>) -> Option<PageRequestView> {
    match pagination {
        Some(p) => Some(p@),
        None => None,
    }
}

impl View for Query {
    type V = QueryView;

    open spec fn view(&self) -> QueryView {
        match *self {
            Query::Params {  } => QueryView { kind: QueryKind::Params, scope: None, denom: None, page: None },
            Query::Tokens { pagination, issuer } => QueryView {
                kind: QueryKind::Tokens,
                scope: Some(issuer@),
                denom: None,
                page: page_of(pagination),
            },
            Query::Token { denom } => QueryView {
                kind: QueryKind::Token,
                scope: None,
                denom: Some(denom@),
                page: None,
            },
            Query::Balance { account, denom } => QueryView {
                kind: QueryKind::Balance,
                scope: Some(account@),
                denom: Some(denom@),
                page: None,
            },
            Query::FrozenBalances { pagination, account } => QueryView {
                kind: QueryKind::FrozenBalances,
                scope: Some(account@),
                denom: None,
                page: page_of(pagination),
            },
            Query::FrozenBalance { account, denom } => QueryView {
                kind: QueryKind::FrozenBalance,
                scope: Some(account@),
                denom: Some(denom@),
                page: None,
            },
            Query::WhitelistedBalances { pagination, account } => QueryView {
                kind: QueryKind::WhitelistedBalances,
                scope: Some(account@),
                denom: None,
                page: page_of(pagination),
            },
            Query::WhitelistedBalance { account, denom } => QueryView {
                kind: QueryKind::WhitelistedBalance,
                scope: Some(account@),
                denom: Some(denom@),
                page: None,
            },
        }
    }
}

/// The outbound query that a request opens with. A request about the token
/// itself needs the recorded denomination; a listing starts at its first
/// page; the parameters need nothing.
pub open spec fn opening(state: State, msg: QueryMsg) -> Result<QueryView, ContractError> {
    match msg {
        QueryMsg::Params {  } => Ok(
            QueryView { kind: QueryKind::Params, scope: None, denom: None, page: None },
        ),
        QueryMsg::Tokens { issuer } => Ok(
            QueryView { kind: QueryKind::Tokens, scope: Some(issuer@), denom: None, page: None },
        ),
        QueryMsg::FrozenBalances { account } => Ok(
            QueryView { kind: QueryKind::FrozenBalances, scope: Some(account@), denom: None, page: None },
        ),
        QueryMsg::WhitelistedBalances { account } => Ok(
            QueryView {
                kind: QueryKind::WhitelistedBalances,
                scope: Some(account@),
                denom: None,
                page: None,
            },
        ),
        QueryMsg::Token {  } => match state.denomination() {
            None => Err(ContractError::NotFound),
            Some(d) => Ok(QueryView { kind: QueryKind::Token, scope: None, denom: Some(d), page: None }),
        },
        QueryMsg::Balance { account } => match state.denomination() {
            None => Err(ContractError::NotFound),
            Some(d) => Ok(
                QueryView { kind: QueryKind::Balance, scope: Some(account@), denom: Some(d), page: None },
            ),
        },
        QueryMsg::FrozenBalance { account } => match state.denomination() {
            None => Err(ContractError::NotFound),
            Some(d) => Ok(
                QueryView {
                    kind: QueryKind::FrozenBalance,
                    scope: Some(account@),
                    denom: Some(d),
                    page: None,
                },
            ),
        },
        QueryMsg::WhitelistedBalance { account } => match state.denomination() {
            None => Err(ContractError::NotFound),
            Some(d) => Ok(
                QueryView {
                    kind: QueryKind::WhitelistedBalance,
                    scope: Some(account@),
                    denom: Some(d),
                    page: None,
                },
            ),
        },
    }
}

/// Whether `r` is what `expected` says, the query taken by its view.
pub open spec fn opens_with(r: Result<Query, ContractError>, expected: Result<QueryView, ContractError>) -> bool {
    match r {
        Ok(q) => expected == Ok::<QueryView, ContractError>(q@),
        Err(e) => expected == Err::<QueryView, ContractError>(e),
    }
}

/// The query for the parameters of the token subsystem.
pub fn query_params() -> (q: Query)
    ensures
        q == (Query::Params {  }),
{
    Query::Params {  }
}

/// The query for the token under the recorded denomination.
pub fn query_token(state: &State) -> (r: Result<Query, ContractError>)
    ensures
        opens_with(r, opening(*state, (QueryMsg::Token {  }))),
{
    match state.load_denom() {
        Err(e) => Err(e),
        Ok(denom) => Ok(Query::Token { denom }),
    }
}

/// The query for what `account` holds of the token.
pub fn query_balance(state: &State, account: String) -> (r: Result<Query, ContractError>)
    ensures
        opens_with(r, opening(*state, (QueryMsg::Balance { account }))),
{
    match state.load_denom() {
        Err(e) => Err(e),
        Ok(denom) => Ok(Query::Balance { account, denom }),
    }
}

/// The query for what is frozen of the token on `account`.
pub fn query_frozen_balance(state: &State, account: String) -> (r: Result<Query, ContractError>)
    ensures
        opens_with(r, opening(*state, (QueryMsg::FrozenBalance { account }))),
{
    match state.load_denom() {
        Err(e) => Err(e),
        Ok(denom) => Ok(Query::FrozenBalance { account, denom }),
    }
}

/// The query for the limit of the token on `account`.
pub fn query_whitelisted_balance(state: &State, account: String) -> (r: Result<Query, ContractError>)
    ensures
        opens_with(r, opening(*state, (QueryMsg::WhitelistedBalance { account }))),
{
    match state.load_denom() {
        Err(e) => Err(e),
        Ok(denom) => Ok(Query::WhitelistedBalance { account, denom }),
    }
}

/// Routes a request to the query that it opens with. The answer to a
/// single query is handed on as it comes; a listing goes on page by page.
pub fn query(state: &State, msg: QueryMsg) -> (r: Result<Query, ContractError>)
    ensures
        opens_with(r, opening(*state, msg)),
{
    match msg {
        QueryMsg::Params {  } => Ok(query_params()),
        QueryMsg::Token {  } => query_token(state),
        QueryMsg::Tokens { issuer } => Ok(Query::Tokens { pagination: None, issuer }),
        QueryMsg::Balance { account } => query_balance(state, account),
        QueryMsg::FrozenBalance { account } => query_frozen_balance(state, account),
        QueryMsg::FrozenBalances { account } => Ok(Query::FrozenBalances { pagination: None, account }),
        QueryMsg::WhitelistedBalance { account } => query_whitelisted_balance(state, account),
        QueryMsg::WhitelistedBalances { account } => Ok(
            Query::WhitelistedBalances { pagination: None, account },
        ),
    }
}

/// The same request on the same state opens with the same query: two
/// answers of the dispatcher never differ.
pub proof fn same_request_same_query(
    state: State,
    msg: QueryMsg,
    first: Result<Query, ContractError>,
    second: Result<Query, ContractError>,
)
    requires
        opens_with(first, opening(state, msg)),
        opens_with(second, opening(state, msg)),
    ensures
        first is Ok <==> second is Ok,
        first is Ok ==> first->Ok_0@ == second->Ok_0@,
        first is Err ==> first->Err_0 == second->Err_0,
{
}

/// Right after the issue, the query for the token names the denomination
/// that the issue derived from the subunit and the contract's address.
pub proof fn token_query_after_issue(state: State, subunit: Seq<char>, contract: Seq<char>)
    requires
        state.denomination() == Some(denom_of(subunit, contract)),
    ensures
        opening(state, (QueryMsg::Token {  })) == Ok::<QueryView, ContractError>(
            QueryView {
                kind: QueryKind::Token,
                scope: None,
                denom: Some(denom_of(subunit, contract)),
                page: None,
            },
        ),
{
}

} // verus!
