//! Data types carried by blink action requests and responses.
//!
//! Monetary fields hold integers: fiat amounts are minor units (cents)
//! and native-token amounts are base units (lamports).

use vstd::prelude::*;

verus! {

/// Whether a descriptor offers an action or reports a completed one.
pub enum BlinkActionType {
    Action,
    Completed,
}

impl Default for BlinkActionType {
    fn default() -> (r: Self)
        ensures
            r is Action,
    {
        Self::Action
    }
}

/// One choice of a select-style action parameter.
pub struct ActionParameterOption {
    pub label: String,
    pub value: String,
}

/// One input field of a linked action's parameter schema.
pub struct ActionParameter {
    pub parameter_type: String,
    pub name: String,
    pub label: String,
    pub required: bool,
    pub options: Vec<ActionParameterOption>,
    /// Least accepted value, in native-token base units.
    pub min: Option<u64>,
}

impl Default for ActionParameter {
    fn default() -> (r: Self)
        ensures
            r.parameter_type@ == Seq::<char>::empty(),
            r.name@ == Seq::<char>::empty(),
            r.label@ == Seq::<char>::empty(),
            r.required == false,
            r.options@ == Seq::<ActionParameterOption>::empty(),
            r.min is None,
    {
        Self {
            parameter_type: String::new(),
            name: String::new(),
            label: String::new(),
            required: false,
            options: Vec::new(),
            min: None,
        }
    }
}

/// A purchasable action offered by a descriptor.
pub struct LinkedAction {
    pub label: String,
    pub href: String,
    pub parameters: Vec<ActionParameter>,
}

/// The ordered list of actions a descriptor offers.
pub struct LinkActions {
    pub actions: Vec<LinkedAction>,
}

impl LinkActions {
    pub fn is_empty(&self) -> (r: bool)
        ensures
            r == (self.actions@.len() == 0),
    {
        self.actions.len() == 0
    }

    /// An empty action list.
    pub fn none() -> (r: Self)
        ensures
            r.actions@.len() == 0,
    {
        Self { actions: Vec::new() }
    }
}

impl From<Vec<LinkedAction>> for LinkActions {
    fn from(actions: Vec<LinkedAction>) -> (r: Self) {
        Self { actions }
    }
}

impl vstd::std_specs::convert::FromSpecImpl<Vec<LinkedAction>> for LinkActions {
    open spec fn obeys_from_spec() -> bool {
        true
    }

    open spec fn from_spec(actions: Vec<LinkedAction>) -> Self {
        LinkActions { actions }
    }
}

/// A structured error payload attached to a descriptor.
pub struct ActionError {
    pub message: String,
}

impl From<String> for ActionError {
    fn from(message: String) -> (r: Self) {
        Self { message }
    }
}

impl vstd::std_specs::convert::FromSpecImpl<String> for ActionError {
    open spec fn obeys_from_spec() -> bool {
        true
    }

    open spec fn from_spec(message: String) -> Self {
        ActionError { message }
    }
}

/// Response of the discovery operation: everything a storefront needs to
/// render the entity and its available actions.
pub struct ActionGetResponse {
    pub blockchain_id: String,
    pub action_type: BlinkActionType,
    pub icon: String,
    pub title: String,
    pub description: String,
    pub label: String,
    pub disabled: bool,
    pub links: LinkActions,
    pub error: Option<ActionError>,
}

/// Request body of the purchase-initiation and confirmation operations.
pub struct ActionPostRequest<T> {
    pub account: String,
    pub signature: Option<String>,
    pub data: T,
}

/// Response of the purchase-initiation operation: the unsigned
/// transaction, text-encoded, plus an optional follow-up link.
pub struct ActionPostResponse {
    pub blockchain_id: String,
    pub transaction: String,
    pub message: Option<String>,
    pub links: Option<ActionPostLinks>,
}

/// Follow-up links of a purchase-initiation response.
pub struct ActionPostLinks {
    pub next: NextAction,
}

/// The operation a client should call next.
pub enum NextAction {
    Post { href: String },
}

/// Buyer-supplied parameters of a merchandise purchase.
pub struct MerchItemBlinkData {
    pub size: Option<String>,
    pub email: String,
    pub address: String,
}

/// Buyer-supplied parameters of an NFT action; the price is in
/// native-token base units.
pub struct NftActionBlinkData {
    pub price: Option<u64>,
}

impl Default for NftActionBlinkData {
    fn default() -> (r: Self)
        ensures
            r.price is None,
    {
        Self { price: None }
    }
}

} // verus!
