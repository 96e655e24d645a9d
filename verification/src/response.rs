//! The outbound effects of a controller operation.
//!
//! Every successful operation returns a [`TokenResponse`]: an event kind and
//! attributes for observability, fire-and-forget instructions to the
//! token-supply registry, and at most one correlated instruction that asks
//! for a callback on success. The surrounding runtime renders these into its
//! own message types and dispatches them; nothing here performs I/O.

use vstd::prelude::*;

verus! {

/// An instruction to the external token-supply registry.
#[derive(Debug, Clone, PartialEq)]
pub enum RegistryMsg {
    /// Provision a new denomination derived from `subdenom`.
    CreateDenom { subdenom: String },
    /// Mint `amount` of `denom` to `receiver`.
    MintTokens { denom: String, amount: u128, receiver: String },
    /// Burn `amount` of `denom` out of the funds attached to the call.
    BurnTokens { denom: String, amount: u128 },
}

/// The mathematical value of a [`RegistryMsg`].
#[verifier::ext_equal]
pub enum MsgView {
    CreateDenom { subdenom: Seq<char> },
    MintTokens { denom: Seq<char>, amount: u128, receiver: Seq<char> },
    BurnTokens { denom: Seq<char>, amount: u128 },
}

impl View for RegistryMsg {
    type V = MsgView;

    open spec fn view(&self) -> MsgView {
        match self {
            RegistryMsg::CreateDenom { subdenom } => (MsgView::CreateDenom { subdenom: subdenom@ }),
            RegistryMsg::MintTokens { denom, amount, receiver } => (MsgView::MintTokens {
                denom: denom@,
                amount: *amount,
                receiver: receiver@,
            }),
            RegistryMsg::BurnTokens { denom, amount } => (MsgView::BurnTokens {
                denom: denom@,
                amount: *amount,
            }),
        }
    }
}

/// A registry instruction that requests a callback on success, tagged with
/// the correlation id under which the callback will arrive.
#[derive(Debug, Clone, PartialEq)]
pub struct SubMsg {
    pub msg: RegistryMsg,
    pub reply_id: u64,
}

/// The mathematical value of a [`SubMsg`].
#[verifier::ext_equal]
pub struct SubMsgView {
    pub msg: MsgView,
    pub reply_id: u64,
}

impl View for SubMsg {
    type V = SubMsgView;

    open spec fn view(&self) -> SubMsgView {
        SubMsgView { msg: self.msg@, reply_id: self.reply_id }
    }
}

/// The value of an observability attribute: either a plain string or a coin,
/// kept structured so that an amount stays a number until the runtime
/// renders it.
#[derive(Debug, Clone, PartialEq)]
pub enum AttrValue {
    Str(String),
    Coin { amount: u128, denom: String },
}

/// The mathematical value of an [`AttrValue`].
#[verifier::ext_equal]
pub enum AttrValueView {
    Str(Seq<char>),
    Coin { amount: u128, denom: Seq<char> },
}

impl View for AttrValue {
    type V = AttrValueView;

    open spec fn view(&self) -> AttrValueView {
        match self {
            AttrValue::Str(s) => AttrValueView::Str(s@),
            AttrValue::Coin { amount, denom } => (AttrValueView::Coin {
                amount: *amount,
                denom: denom@,
            }),
        }
    }
}

/// One observability attribute.
#[derive(Debug, Clone, PartialEq)]
pub struct Attribute {
    pub key: String,
    pub value: AttrValue,
}

/// The mathematical value of an [`Attribute`].
#[verifier::ext_equal]
pub struct AttrView {
    pub key: Seq<char>,
    pub value: AttrValueView,
}

impl View for Attribute {
    type V = AttrView;

    open spec fn view(&self) -> AttrView {
        AttrView { key: self.key@, value: self.value@ }
    }
}

/// Everything a successful controller operation hands back to the runtime.
#[derive(Debug, Clone, PartialEq)]
pub struct TokenResponse {
    /// The label of the event under which the attributes are reported.
    pub kind: String,
    pub attributes: Vec<Attribute>,
    /// Fire-and-forget registry instructions.
    pub messages: Vec<RegistryMsg>,
    /// Registry instructions that request a callback on success.
    pub submessages: Vec<SubMsg>,
}

/// The mathematical value of a [`TokenResponse`].
#[verifier::ext_equal]
pub struct ResponseView {
    pub kind: Seq<char>,
    pub attributes: Seq<AttrView>,
    pub messages: Seq<MsgView>,
    pub submessages: Seq<SubMsgView>,
}

impl View for TokenResponse {
    type V = ResponseView;

    open spec fn view(&self) -> ResponseView {
        ResponseView {
            kind: self.kind@,
            attributes: self.attributes@.map_values(|a: Attribute| a@),
            messages: self.messages@.map_values(|m: RegistryMsg| m@),
            submessages: self.submessages@.map_values(|s: SubMsg| s@),
        }
    }
}

} // verus!
