//! Inbound chat updates, the per-user record and the ledger's transaction records.
use vstd::prelude::*;
use crate::text::{int_text, i32_text};

verus! {

/// A chat user or bot.
#[derive(Debug)]
pub struct User {
    pub id: i32,
    pub is_bot: bool,
    pub first_name: String,
    pub last_name: Option<String>,
    pub username: Option<String>,
}

/// A chat.
#[derive(Debug)]
pub struct Chat {
    pub id: i32,
    pub chat_type: String,
    pub username: Option<String>,
    pub first_name: Option<String>,
    pub last_name: Option<String>,
}

/// A chat message.
#[derive(Debug)]
pub struct Message {
    pub message_id: i32,
    pub date: i64,
    pub text: Option<String>,
    pub chat: Chat,
    pub from: Option<User>,
}

/// One inbound event.
#[derive(Debug)]
pub struct Update {
    pub update_id: i32,
    pub message: Option<Message>,
}

/// Who sent the message being handled, and in which chat.
#[derive(Clone, Copy, Debug, Default, PartialEq, Eq, Structural)]
pub struct State {
    pub from_id: i32,
    pub chat_id: i32,
}

pub open spec fn user_id_text(from_id: int) -> Seq<char> {
    "telegram-user-"@ + int_text(from_id)
}

impl State {
    /// The store key of the sender, `telegram-user-<id>`.
    pub fn user_id(&self) -> (r: String)
        ensures
            r@ == user_id_text(self.from_id as int),
    {
        let digits = i32_text(self.from_id);
        "telegram-user-".to_string().concat(digits.as_str())
    }
}

pub open spec fn state_awaiting_url() -> Seq<char> {
    "upload-url"@
}

pub open spec fn state_awaiting_token() -> Seq<char> {
    "upload-pat"@
}

pub open spec fn state_ready() -> Seq<char> {
    "ready"@
}

pub proof fn lemma_state_names_distinct()
    ensures
        state_awaiting_url() != state_awaiting_token(),
        state_awaiting_url() != state_ready(),
        state_awaiting_token() != state_ready(),
{
    reveal_strlit("upload-url");
    reveal_strlit("upload-pat");
    reveal_strlit("ready");
    assert(state_awaiting_url()[7] != state_awaiting_token()[7]);
    assert(state_awaiting_url().len() != state_ready().len());
    assert(state_awaiting_token().len() != state_ready().len());
}

/// What is stored of one user: the onboarding step reached (`upload-url`,
/// `upload-pat` or `ready`), the ledger's base URL and access token.
#[derive(Debug, Clone, Default)]
pub struct UserClue {
    pub id: i32,
    pub state: String,
    pub firefly_url: String,
    pub firefly_pat: String,
}

pub struct RecordView {
    pub id: int,
    pub state: Seq<char>,
    pub url: Seq<char>,
    pub pat: Seq<char>,
}

impl View for UserClue {
    type V = RecordView;

    open spec fn view(&self) -> RecordView {
        RecordView {
            id: self.id as int,
            state: self.state@,
            url: self.firefly_url@,
            pat: self.firefly_pat@,
        }
    }
}

/// The record made for a user who starts onboarding.
pub open spec fn fresh_record(id: int) -> RecordView {
    RecordView { id, state: state_awaiting_url(), url: Seq::empty(), pat: Seq::empty() }
}

impl UserClue {
    pub fn new(id: i32) -> (r: UserClue)
        ensures
            r@ == fresh_record(id as int),
    {
        UserClue {
            id,
            state: "upload-url".to_string(),
            firefly_url: String::new(),
            firefly_pat: String::new(),
        }
    }

    pub fn is_ready(&self) -> (r: bool)
        ensures
            r == (self.state@ == state_ready()),
    {
        self.state == "ready".to_string()
    }
}

/// One transaction as the ledger takes it.
#[derive(Debug)]
pub struct Transaction {
    pub transact_type: String,
    pub description: String,
    pub date: String,
    pub amount: String,
    pub source_name: String,
    pub destination_name: String,
}

pub struct TransactionView {
    pub kind: Seq<char>,
    pub description: Seq<char>,
    pub date: Seq<char>,
    pub amount: Seq<char>,
    pub source: Seq<char>,
    pub destination: Seq<char>,
}

impl View for Transaction {
    type V = TransactionView;

    open spec fn view(&self) -> TransactionView {
        TransactionView {
            kind: self.transact_type@,
            description: self.description@,
            date: self.date@,
            amount: self.amount@,
            source: self.source_name@,
            destination: self.destination_name@,
        }
    }
}

/// The body of a ledger create call: the transactions to record.
#[derive(Debug)]
pub struct TransactPayload {
    pub transactions: Vec<Transaction>,
}

impl View for TransactPayload {
    type V = Seq<TransactionView>;

    open spec fn view(&self) -> Seq<TransactionView> {
        self.transactions@.map_values(|t: Transaction| t@)
    }
}

} // verus!
