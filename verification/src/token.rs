//! The issuance controller.
//!
//! The controller stores a single authority address and a single managed
//! denomination. Creation emits one correlated provisioning request to the
//! registry; the callback that confirms it commits the canonical
//! denomination name. Mint and burn are gated by the authority and emit
//! fire-and-forget registry instructions; the registry, not the controller,
//! is the source of truth for supply.

use vstd::prelude::*;

use crate::error::ContractError;
use crate::payment::{coins_view, must_pay, spec_payment, CoinVal, CoinView};
use crate::response::{
    AttrValue, AttrValueView, AttrView, Attribute, MsgView, RegistryMsg, ResponseView, SubMsg,
    SubMsgView, TokenResponse,
};

verus! {

/// The fixed correlation id reserved for the denomination-creation request.
/// It is the only id this controller ever attaches to an outbound
/// instruction, because only one denomination is created per lifetime.
pub const CREATE_DENOM_REPLY_ID: u64 = 1;

/// The persistent record of the controller: the one authorized caller and
/// the managed denomination (provisional until the provisioning callback
/// commits the canonical name).
#[derive(Debug, Clone)]
pub struct TokenState {
    pub core_address: String,
    pub denom: String,
}

/// The mathematical value of a [`TokenState`].
#[verifier::ext_equal]
pub struct StateView {
    pub core_address: Seq<char>,
    pub denom: Seq<char>,
}

impl View for TokenState {
    type V = StateView;

    open spec fn view(&self) -> StateView {
        StateView { core_address: self.core_address@, denom: self.denom@ }
    }
}

/// Well-formedness of the controller record: the authority is never empty.
/// Creation establishes it and the provisioning callback preserves it.
pub open spec fn wf_state(state: StateView) -> bool {
    state.core_address.len() > 0
}

/// What the configuration query reports.
#[derive(Debug, Clone, PartialEq)]
pub struct ConfigResponse {
    pub core_address: String,
    pub denom: String,
}

/// The mathematical value of a [`ConfigResponse`].
#[verifier::ext_equal]
pub struct ConfigView {
    pub core_address: Seq<char>,
    pub denom: Seq<char>,
}

impl View for ConfigResponse {
    type V = ConfigView;

    open spec fn view(&self) -> ConfigView {
        ConfigView { core_address: self.core_address@, denom: self.denom@ }
    }
}

/// A mutating operation, as received from a caller. The funds backing a
/// burn travel beside the message, attached to the call itself.
#[derive(Debug, Clone)]
pub enum ExecuteMsg {
    Mint { amount: u128, receiver: String },
    Burn {},
}

/// The mathematical value of an [`ExecuteMsg`].
#[verifier::ext_equal]
pub enum ExecMsgView {
    Mint { amount: u128, receiver: Seq<char> },
    Burn,
}

impl View for ExecuteMsg {
    type V = ExecMsgView;

    open spec fn view(&self) -> ExecMsgView {
        match self {
            ExecuteMsg::Mint { amount, receiver } => (ExecMsgView::Mint {
                amount: *amount,
                receiver: receiver@,
            }),
            ExecuteMsg::Burn {} => ExecMsgView::Burn,
        }
    }
}

/// A read-only query.
#[derive(Debug, Clone)]
pub enum QueryMsg {
    Config {},
}

// ---------------------------------------------------------------------------
// The specified outcomes of each operation.
// ---------------------------------------------------------------------------

/// The record persisted by creation.
pub open spec fn spec_instantiate_state(core: Seq<char>, subdenom: Seq<char>) -> StateView {
    StateView { core_address: core, denom: subdenom }
}

/// The effects of creation: the observability attributes and exactly one
/// correlated provisioning request, under the reserved id, asking for a
/// callback only on success.
pub open spec fn spec_instantiate_response(core: Seq<char>, subdenom: Seq<char>) -> ResponseView {
    ResponseView {
        kind: "instantiate"@,
        attributes: seq![
            AttrView { key: "core_address"@, value: AttrValueView::Str(core) },
            AttrView { key: "subdenom"@, value: AttrValueView::Str(subdenom) },
        ],
        messages: seq![],
        submessages: seq![
            SubMsgView {
                msg: MsgView::CreateDenom { subdenom },
                reply_id: CREATE_DENOM_REPLY_ID,
            },
        ],
    }
}

/// The effects of a successful mint: one mint instruction to the registry.
pub open spec fn spec_mint_response(denom: Seq<char>, amount: u128, receiver: Seq<char>) -> ResponseView {
    ResponseView {
        kind: "execute-mint"@,
        attributes: seq![
            AttrView { key: "amount"@, value: AttrValueView::Coin { amount, denom } },
            AttrView { key: "receiver"@, value: AttrValueView::Str(receiver) },
        ],
        messages: seq![MsgView::MintTokens { denom, amount, receiver }],
        submessages: seq![],
    }
}

/// The effects of a successful burn: one burn instruction to the registry,
/// consuming the attached funds.
pub open spec fn spec_burn_response(denom: Seq<char>, amount: u128) -> ResponseView {
    ResponseView {
        kind: "execute-burn"@,
        attributes: seq![
            AttrView { key: "amount"@, value: AttrValueView::Coin { amount, denom } },
        ],
        messages: seq![MsgView::BurnTokens { denom, amount }],
        submessages: seq![],
    }
}

/// The outcome of a mint request from the authority.
pub open spec fn spec_mint(state: StateView, amount: u128, receiver: Seq<char>) -> Result<
    ResponseView,
    ContractError,
> {
    if amount == 0 {
        Err(ContractError::NothingToMint)
    } else {
        Ok(spec_mint_response(state.denom, amount, receiver))
    }
}

/// The outcome of a burn request from the authority, given the attached funds.
pub open spec fn spec_burn(state: StateView, funds: Seq<CoinView>) -> Result<
    ResponseView,
    ContractError,
> {
    match spec_payment(funds, state.denom) {
        Ok(amount) => Ok(spec_burn_response(state.denom, amount)),
        Err(issue) => Err(ContractError::InvalidPayment(issue)),
    }
}

/// The outcome of any mutating operation: the authority check first, then
/// the operation itself. A failure emits no registry instruction because it
/// returns no response at all.
pub open spec fn spec_execute(
    state: StateView,
    sender: Seq<char>,
    funds: Seq<CoinView>,
    msg: ExecMsgView,
) -> Result<ResponseView, ContractError> {
    if sender != state.core_address {
        Err(ContractError::Unauthorized)
    } else {
        match msg {
            ExecMsgView::Mint { amount, receiver } => spec_mint(state, amount, receiver),
            ExecMsgView::Burn => spec_burn(state, funds),
        }
    }
}

/// What the configuration query reports of a given record.
pub open spec fn spec_config(state: StateView) -> ConfigView {
    ConfigView { core_address: state.core_address, denom: state.denom }
}

/// The record after a successful provisioning callback committed the
/// canonical denomination name.
pub open spec fn spec_commit(state: StateView, full_denom: Seq<char>) -> StateView {
    StateView { core_address: state.core_address, denom: full_denom }
}

/// The effects of a committed provisioning callback.
pub open spec fn spec_commit_response(full_denom: Seq<char>) -> ResponseView {
    ResponseView {
        kind: "reply-create-denom"@,
        attributes: seq![
            AttrView { key: "denom"@, value: AttrValueView::Str(full_denom) },
        ],
        messages: seq![],
        submessages: seq![],
    }
}

/// An executable result matches a specified outcome when both fail with the
/// same error or both succeed with the same response value.
pub open spec fn resp_matches(
    r: Result<TokenResponse, ContractError>,
    outcome: Result<ResponseView, ContractError>,
) -> bool {
    match r {
        Ok(resp) => outcome matches Ok(v) && resp@ =~~= v,
        Err(e) => outcome == Err::<ResponseView, ContractError>(e),
    }
}

// ---------------------------------------------------------------------------
// Observability helpers.
// ---------------------------------------------------------------------------

/// Builds a plain string attribute.
fn attr(key: &str, value: String) -> (a: Attribute)
    ensures
        a@ == (AttrView { key: key@, value: AttrValueView::Str(value@) }),
{
    Attribute { key: key.to_owned(), value: AttrValue::Str(value) }
}

/// Builds a coin attribute, keeping the amount a number until the runtime
/// renders it.
fn attr_coin(key: &str, amount: u128, denom: String) -> (a: Attribute)
    ensures
        a@ == (AttrView { key: key@, value: AttrValueView::Coin { amount, denom: denom@ } }),
{
    Attribute { key: key.to_owned(), value: AttrValue::Coin { amount, denom } }
}

// ---------------------------------------------------------------------------
// The operations.
// ---------------------------------------------------------------------------

/// Creates the controller.
///
/// The surrounding runtime validates the authority address against its own
/// addressing rules and passes the normalized form, or `None` where
/// validation failed; a missing or empty authority fails with
/// `InvalidAddress` and nothing is persisted. Otherwise the returned record
/// stores the authority and the provisional denomination, and the response
/// carries exactly one provisioning request under the reserved correlation
/// id. A provisioning failure is fatal to the whole creation transaction, so
/// the request asks for a callback only on success.
pub fn instantiate(validated_core_address: Option<String>, subdenom: String) -> (r: Result<
    (TokenState, TokenResponse),
    ContractError,
>)
    ensures
        match validated_core_address {
            Option::None => r == Err::<(TokenState, TokenResponse), ContractError>(
                ContractError::InvalidAddress,
            ),
            Option::Some(core) => {
                if core@.len() == 0 {
                    r == Err::<(TokenState, TokenResponse), ContractError>(
                        ContractError::InvalidAddress,
                    )
                } else {
                    &&& r matches Ok(p)
                    &&& p.0@ == spec_instantiate_state(core@, subdenom@)
                    &&& wf_state(p.0@)
                    &&& p.1@ =~~= spec_instantiate_response(core@, subdenom@)
                }
            },
        },
{
    let core = match validated_core_address {
        Option::None => {
            return Err(ContractError::InvalidAddress);
        },
        Option::Some(core) => core,
    };
    if core.as_str().is_empty() {
        return Err(ContractError::InvalidAddress);
    }
    let mut attributes: Vec<Attribute> = Vec::new();
    attributes.push(attr("core_address", core.clone()));
    attributes.push(attr("subdenom", subdenom.clone()));
    let mut submessages: Vec<SubMsg> = Vec::new();
    submessages.push(
        SubMsg {
            msg: RegistryMsg::CreateDenom { subdenom: subdenom.clone() },
            reply_id: CREATE_DENOM_REPLY_ID,
        },
    );
    let state = TokenState { core_address: core, denom: subdenom };
    let response = TokenResponse {
        kind: "instantiate".to_owned(),
        attributes,
        messages: Vec::new(),
        submessages,
    };
    Ok((state, response))
}

/// Applies a mutating operation on behalf of `sender`.
///
/// Both mint and burn are gated identically here: a sender other than the
/// stored authority fails with `Unauthorized` before any operation is
/// examined, and no registry instruction is emitted.
pub fn execute(
    state: &TokenState,
    sender: &String,
    funds: &Vec<CoinVal>,
    msg: ExecuteMsg,
) -> (r: Result<TokenResponse, ContractError>)
    ensures
        resp_matches(r, spec_execute(state@, sender@, coins_view(funds@), msg@)),
{
    if !sender.eq(&state.core_address) {
        return Err(ContractError::Unauthorized);
    }
    match msg {
        ExecuteMsg::Mint { amount, receiver } => mint(state, amount, receiver),
        ExecuteMsg::Burn {} => burn(state, funds),
    }
}

/// Emits a mint instruction for the managed denomination.
///
/// A zero amount fails with `NothingToMint`; otherwise the single returned
/// instruction mints `amount` of the managed denomination to `receiver`.
/// No local balance is kept.
fn mint(state: &TokenState, amount: u128, receiver: String) -> (r: Result<
    TokenResponse,
    ContractError,
>)
    ensures
        resp_matches(r, spec_mint(state@, amount, receiver@)),
{
    if amount == 0 {
        return Err(ContractError::NothingToMint);
    }
    let mut attributes: Vec<Attribute> = Vec::new();
    attributes.push(attr_coin("amount", amount, state.denom.clone()));
    attributes.push(attr("receiver", receiver.clone()));
    let mut messages: Vec<RegistryMsg> = Vec::new();
    messages.push(
        RegistryMsg::MintTokens { denom: state.denom.clone(), amount, receiver },
    );
    Ok(
        TokenResponse {
            kind: "execute-mint".to_owned(),
            attributes,
            messages,
            submessages: Vec::new(),
        },
    )
}

/// Emits a burn instruction for the funds attached to the call.
///
/// The attached funds must be exactly one coin of the managed denomination
/// with a positive amount; any other payment fails with `InvalidPayment`
/// carrying the reason.
fn burn(state: &TokenState, funds: &Vec<CoinVal>) -> (r: Result<TokenResponse, ContractError>)
    ensures
        resp_matches(r, spec_burn(state@, coins_view(funds@))),
{
    let amount = match must_pay(funds, state.denom.as_str()) {
        Ok(amount) => amount,
        Err(issue) => {
            return Err(ContractError::InvalidPayment(issue));
        },
    };
    let mut attributes: Vec<Attribute> = Vec::new();
    attributes.push(attr_coin("amount", amount, state.denom.clone()));
    let mut messages: Vec<RegistryMsg> = Vec::new();
    messages.push(RegistryMsg::BurnTokens { denom: state.denom.clone(), amount });
    Ok(
        TokenResponse {
            kind: "execute-burn".to_owned(),
            attributes,
            messages,
            submessages: Vec::new(),
        },
    )
}

/// Answers a read-only query. Reading mutates nothing, so repeated queries
/// of the same record return the same configuration.
pub fn query(state: &TokenState, msg: QueryMsg) -> (r: ConfigResponse)
    ensures
        r@ == spec_config(state@),
{
    match msg {
        QueryMsg::Config {} => ConfigResponse {
            core_address: state.core_address.clone(),
            denom: state.denom.clone(),
        },
    }
}

/// An upgrade is a no-op: no state changes and no instruction is emitted.
pub fn migrate() -> (r: TokenResponse)
    ensures
        r@ =~~= (ResponseView {
            kind: Seq::<char>::empty(),
            attributes: seq![],
            messages: seq![],
            submessages: seq![],
        }),
{
    TokenResponse {
        kind: String::new(),
        attributes: Vec::new(),
        messages: Vec::new(),
        submessages: Vec::new(),
    }
}

/// The one outside action a recognized provisioning callback requires: ask
/// the registry for the canonical (full) name of `subdenom` as owned by
/// this controller.
#[derive(Debug, Clone)]
pub struct ResolveFullDenom {
    pub subdenom: String,
}

/// Dispatches a provisioning callback by its correlation id.
///
/// Only the reserved denomination-creation id is recognized; it yields the
/// resolution request for the stored subdenomination, and
/// [`commit_full_denom`] applies the resolved name. Any other id fails with
/// `UnknownReplyId` carrying that id, whatever the state: this controller
/// issues no other correlated request, so such a callback indicates a
/// defect in the environment.
pub fn reply(state: &TokenState, id: u64) -> (r: Result<ResolveFullDenom, ContractError>)
    ensures
        id == CREATE_DENOM_REPLY_ID ==> (r matches Ok(a) && a.subdenom@ == state.denom@),
        id != CREATE_DENOM_REPLY_ID ==> r == Err::<ResolveFullDenom, ContractError>(
            ContractError::UnknownReplyId(id),
        ),
{
    if id == CREATE_DENOM_REPLY_ID {
        Ok(ResolveFullDenom { subdenom: state.denom.clone() })
    } else {
        Err(ContractError::UnknownReplyId(id))
    }
}

/// Commits the canonical denomination name resolved by the registry,
/// overwriting the provisional value. This is the one mutation of the
/// managed denomination in the controller's lifetime; the authority is
/// untouched, so a well-formed record stays well formed.
pub fn commit_full_denom(state: &mut TokenState, full_denom: String) -> (r: TokenResponse)
    ensures
        final(state)@ == spec_commit(old(state)@, full_denom@),
        wf_state(old(state)@) ==> wf_state(final(state)@),
        r@ =~~= spec_commit_response(full_denom@),
{
    let mut attributes: Vec<Attribute> = Vec::new();
    attributes.push(attr("denom", full_denom.clone()));
    state.denom = full_denom;
    TokenResponse {
        kind: "reply-create-denom".to_owned(),
        attributes,
        messages: Vec::new(),
        submessages: Vec::new(),
    }
}

// ---------------------------------------------------------------------------
// Laws.
// ---------------------------------------------------------------------------

/// Law: a caller other than the stored authority can neither mint nor burn;
/// the operation fails with `Unauthorized`, and since a failed operation
/// returns no response, no registry instruction is emitted.
pub proof fn law_unauthorized_rejected(
    state: StateView,
    sender: Seq<char>,
    funds: Seq<CoinView>,
    msg: ExecMsgView,
)
    requires
        sender != state.core_address,
    ensures
        spec_execute(state, sender, funds, msg) == Err::<ResponseView, ContractError>(
            ContractError::Unauthorized,
        ),
{
}

/// Law: a mint of a zero amount fails with `NothingToMint`, for every
/// receiver.
pub proof fn law_zero_mint_rejected(state: StateView, funds: Seq<CoinView>, receiver: Seq<char>)
    ensures
        spec_execute(
            state,
            state.core_address,
            funds,
            ExecMsgView::Mint { amount: 0, receiver },
        ) == Err::<ResponseView, ContractError>(ContractError::NothingToMint),
{
}

/// Law: a burn whose attached funds are absent, of zero amount, split over
/// several coins, or of another denomination fails with `InvalidPayment`.
pub proof fn law_burn_bad_payment_rejected(state: StateView, funds: Seq<CoinView>)
    requires
        funds.len() == 0 || funds.len() > 1 || funds[0].amount == 0 || funds[0].denom
            != state.denom,
    ensures
        spec_execute(state, state.core_address, funds, ExecMsgView::Burn) matches Err(e)
            && e matches ContractError::InvalidPayment(_),
{
}

/// Law: after creation with subdenomination `sub`, a successful
/// provisioning callback that resolves the canonical name `full` leaves a
/// configuration that reports `full`, not `sub`.
pub proof fn law_canonical_denom_committed(core: Seq<char>, sub: Seq<char>, full: Seq<char>)
    ensures
        spec_config(spec_commit(spec_instantiate_state(core, sub), full)) == (ConfigView {
            core_address: core,
            denom: full,
        }),
{
}

/// Law: the configuration query is a pure function of the record, so two
/// reads with no intervening mutation return identical results.
pub proof fn law_config_idempotent(state: StateView, first: ConfigView, second: ConfigView)
    requires
        first == spec_config(state),
        second == spec_config(state),
    ensures
        first == second,
{
}

} // verus!
