//! The intent/entity extraction service's answer to one message.
use vstd::prelude::*;

verus! {

#[derive(Default, Debug, Clone, PartialEq)]
pub struct WitMessageResponse {
    pub text: String,
    pub intents: Vec<Intent>,
    pub entities: Entities,
    pub traits: Traits,
}

#[derive(Default, Debug, Clone, PartialEq)]
pub struct Intent {
    pub name: String,
}

#[derive(Default, Debug, Clone, PartialEq)]
pub struct Entities {
    pub destination: Vec<AccountEntity>,
    pub origin: Vec<AccountEntity>,
    pub amount_of_money: Vec<WitAmountOfMoney>,
    pub withdraw: Option<Vec<ActionEntity>>,
    pub deposit: Option<Vec<ActionEntity>>,
    pub transfer: Option<Vec<ActionEntity>>,
    pub deed: Option<Vec<Deed>>,
}

#[derive(Default, Debug, Clone, PartialEq)]
pub struct AccountEntity {
    pub role: String,
    pub value: String,
}

/// An amount of money found in the message; `value` is the number as decimal text.
#[derive(Default, Debug, Clone, PartialEq)]
pub struct WitAmountOfMoney {
    pub role: String,
    pub unit: String,
    pub value: String,
}

#[derive(Default, Debug, Clone, PartialEq)]
pub struct ActionEntity {
    pub role: String,
}

#[derive(Default, Debug, Clone, PartialEq)]
pub struct Deed {
    pub role: String,
    pub value: String,
}

#[derive(Default, Debug, Clone, PartialEq)]
pub struct Traits {
    pub flow: Vec<Flow>,
}

#[derive(Default, Debug, Clone, PartialEq)]
pub struct Flow {
    pub value: String,
}

} // verus!
