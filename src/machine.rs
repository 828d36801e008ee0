//! The conversation state machine. For each message it decides what to store,
//! what to send to the ledger and what to reply; the caller carries it out.
use vstd::prelude::*;
use vstd::utf8::encode_utf8;
use crate::text::{trimmed, trim};
use crate::telegram::{
    Update, State, UserClue, RecordView, Transaction, TransactionView, TransactPayload,
    user_id_text, fresh_record, state_awaiting_url, state_awaiting_token, state_ready,
};
use crate::parse::{ParseError, Strategy, candidate_view};

verus! {

/// A chat message to send.
pub struct Reply {
    pub chat_id: i32,
    pub text: String,
    /// Whether the text is sent as Markdown.
    pub markdown: bool,
}

pub struct ReplyView {
    pub chat_id: int,
    pub text: Seq<char>,
    pub markdown: bool,
}

impl View for Reply {
    type V = ReplyView;

    open spec fn view(&self) -> ReplyView {
        ReplyView { chat_id: self.chat_id as int, text: self.text@, markdown: self.markdown }
    }
}

/// An authenticated create call to the ledger.
pub struct LedgerRequest {
    pub endpoint: String,
    pub token: String,
    pub payload: TransactPayload,
}

pub struct LedgerView {
    pub endpoint: Seq<char>,
    pub token: Seq<char>,
    pub transactions: Seq<TransactionView>,
}

impl View for LedgerRequest {
    type V = LedgerView;

    open spec fn view(&self) -> LedgerView {
        LedgerView { endpoint: self.endpoint@, token: self.token@, transactions: self.payload@ }
    }
}

/// What to do for one message, in order: store or delete the sender's record,
/// call the ledger, reply.
pub enum Plan {
    /// Reply only.
    Reply(Reply),
    /// Store the record under the sender's key, then reply.
    Save(UserClue, Reply),
    /// Delete the sender's record, then reply.
    Remove(Reply),
    /// The sender is set up: run the parser on the text, then call `conclude`.
    Interpret(UserClue, String),
    /// Create the transaction in the ledger, then reply.
    Dispatch(LedgerRequest, Reply),
}

pub enum PlanView {
    Reply(ReplyView),
    Save(RecordView, ReplyView),
    Remove(ReplyView),
    Interpret(RecordView, Seq<char>),
    Dispatch(LedgerView, ReplyView),
}

impl View for Plan {
    type V = PlanView;

    open spec fn view(&self) -> PlanView {
        match self {
            Plan::Reply(r) => PlanView::Reply(r@),
            Plan::Save(c, r) => PlanView::Save(c@, r@),
            Plan::Remove(r) => PlanView::Remove(r@),
            Plan::Interpret(c, t) => PlanView::Interpret(c@, t@),
            Plan::Dispatch(l, r) => PlanView::Dispatch(l@, r@),
        }
    }
}

/// A stored record that cannot be acted on.
#[derive(Clone, Copy, Debug, PartialEq, Eq, Structural)]
pub enum StateError {
    /// The onboarding step is none of the known ones.
    UnknownState,
    /// The record is marked ready but lacks the ledger URL or token.
    IncompleteRecord,
}

/// An update that carries nothing to act on.
#[derive(Clone, Copy, Debug, PartialEq, Eq, Structural)]
pub enum UpdateError {
    NoMessage,
    NoText,
    NoSender,
}

#[derive(Clone, Copy, Debug, PartialEq, Eq, Structural)]
pub enum Stage {
    AwaitingUrl,
    AwaitingToken,
    Ready,
}

/// The onboarding step of a record. A ready one must hold a URL and a token;
/// one that awaits the token without a URL is back at the URL step.
pub open spec fn stage_of(r: RecordView) -> Option<Stage> {
    if r.state == state_ready() {
        if r.url.len() > 0 && r.pat.len() > 0 { Some(Stage::Ready) } else { None }
    } else if r.state == state_awaiting_url() {
        Some(Stage::AwaitingUrl)
    } else if r.state == state_awaiting_token() {
        if r.url.len() > 0 { Some(Stage::AwaitingToken) } else { Some(Stage::AwaitingUrl) }
    } else {
        None
    }
}

pub open spec fn stage_error(r: RecordView) -> StateError {
    if r.state == state_ready() { StateError::IncompleteRecord } else { StateError::UnknownState }
}

pub open spec fn cmd_start() -> Seq<char> { "/start"@ }
pub open spec fn cmd_reset() -> Seq<char> { "/reset"@ }
pub open spec fn cmd_help() -> Seq<char> { "/help"@ }
pub open spec fn cmd_test() -> Seq<char> { "/test"@ }

pub open spec fn is_command(t: Seq<char>) -> bool {
    t == cmd_start() || t == cmd_reset() || t == cmd_help() || t == cmd_test()
}

pub open spec fn start_prompt() -> Seq<char> { "Type /start to initiate the setup process."@ }
pub open spec fn reset_hint() -> Seq<char> { "Type /reset to reset your account."@ }
pub open spec fn reset_done() -> Seq<char> { "Reset complete."@ }
pub open spec fn ack() -> Seq<char> { "Message Ack"@ }
pub open spec fn url_prompt() -> Seq<char> {
    "Please enter your *Firefly III* server's URL (e.g. https://my-firefly-iii.com).\n\nIt must start with HTTP/s protocol scheme."@
}
pub open spec fn url_saved_head() -> Seq<char> {
    "Your *Firefly III* URL's been saved!\n\nNow please enter your firefly *Personal Access Token* (PAT), you can generate it from PAT section here - "@
}
pub open spec fn profile_path() -> Seq<char> { "/profile"@ }
pub open spec fn token_prompt() -> Seq<char> {
    "Please enter your firefly *Personal Access Token* (PAT)."@
}
pub open spec fn setup_done() -> Seq<char> {
    "Setup complete. You can now use the telegram bot to store your transaction."@
}
pub open spec fn created() -> Seq<char> { "Transaction created."@ }
pub open spec fn guidance() -> Seq<char> {
    "Type /help to check the proper way of creating a transaction."@
}
pub open spec fn transactions_path() -> Seq<char> { "/public/api/v1/transactions"@ }

pub open spec fn usage(strategy: Strategy) -> Seq<char> {
    match strategy {
        Strategy::Delimited =>
            "Send a message in the following format\n`amount, description, source account, destination account`"@,
        Strategy::Nlu => "Send a message in the following format\n`The deed. And the transaction.`"@,
    }
}

pub open spec fn url_saved(url: Seq<char>) -> Seq<char> {
    url_saved_head() + url + profile_path()
}

pub open spec fn plain(chat: int, text: Seq<char>) -> ReplyView {
    ReplyView { chat_id: chat, text, markdown: false }
}

pub open spec fn marked(chat: int, text: Seq<char>) -> ReplyView {
    ReplyView { chat_id: chat, text, markdown: true }
}

/// The URL step, with the message already trimmed: the text replaces the
/// stored URL and the token is asked for. A record left without a URL comes
/// back to this step (see `stage_of`) and is never made ready.
pub open spec fn url_step_spec(chat: int, r: RecordView, url: Seq<char>) -> PlanView {
    PlanView::Save(
        RecordView { id: r.id, state: state_awaiting_token(), url, pat: r.pat },
        marked(chat, url_saved(url)),
    )
}

/// The token step, with the message already trimmed: a non-empty token makes
/// the record ready. An empty token is asked for again, and a record without
/// a URL is never made ready: the URL is asked for.
pub open spec fn token_step_spec(chat: int, r: RecordView, pat: Seq<char>) -> PlanView {
    if pat.len() == 0 {
        PlanView::Reply(marked(chat, token_prompt()))
    } else if r.url.len() == 0 {
        PlanView::Reply(marked(chat, url_prompt()))
    } else {
        PlanView::Save(
            RecordView { id: r.id, state: state_ready(), url: r.url, pat },
            plain(chat, setup_done()),
        )
    }
}

/// Free text from a user who has a record.
pub open spec fn free_text_spec(chat: int, text: Seq<char>, r: RecordView) -> Result<PlanView, StateError> {
    match stage_of(r) {
        None => Err(stage_error(r)),
        Some(Stage::AwaitingUrl) => Ok(url_step_spec(chat, r, trimmed(text))),
        Some(Stage::AwaitingToken) => Ok(token_step_spec(chat, r, trimmed(text))),
        Some(Stage::Ready) => Ok(PlanView::Interpret(r, text)),
    }
}

/// What a message `text` from the sender in `state`, whose stored record is
/// `record`, leads to. Commands match exactly and come first.
pub open spec fn decide_spec(
    state: State,
    strategy: Strategy,
    text: Seq<char>,
    record: Option<RecordView>,
) -> Result<PlanView, StateError> {
    let chat = state.chat_id as int;
    if text == cmd_start() {
        match record {
            Some(_) => Ok(PlanView::Reply(plain(chat, reset_hint()))),
            None => Ok(PlanView::Save(fresh_record(state.from_id as int), marked(chat, url_prompt()))),
        }
    } else if text == cmd_reset() {
        Ok(PlanView::Remove(plain(chat, reset_done())))
    } else if text == cmd_help() {
        match record {
            None => Ok(PlanView::Reply(plain(chat, start_prompt()))),
            Some(_) => Ok(PlanView::Reply(marked(chat, usage(strategy)))),
        }
    } else if text == cmd_test() {
        Ok(PlanView::Reply(plain(chat, ack())))
    } else {
        match record {
            None => Ok(PlanView::Reply(plain(chat, start_prompt()))),
            Some(r) => free_text_spec(chat, text, r),
        }
    }
}

/// What follows the parser's outcome for a ready user: one ledger call and a
/// confirmation, or guidance and no ledger call.
pub open spec fn conclude_spec(
    state: State,
    record: RecordView,
    parsed: Result<TransactionView, ParseError>,
) -> PlanView {
    let chat = state.chat_id as int;
    match parsed {
        Ok(t) => PlanView::Dispatch(
            LedgerView {
                endpoint: record.url + transactions_path(),
                token: record.pat,
                transactions: seq![t],
            },
            plain(chat, created()),
        ),
        Err(_) => PlanView::Reply(plain(chat, guidance())),
    }
}

pub open spec fn option_record_view(r: Option<UserClue>) -> Option<RecordView> {
    match r {
        Some(c) => Some(c@),
        None => None,
    }
}

pub open spec fn plan_result_view(r: Result<Plan, StateError>) -> Result<PlanView, StateError> {
    match r {
        Ok(p) => Ok(p@),
        Err(e) => Err(e),
    }
}

/// The sender, the chat and the text an update carries, or what it lacks.
pub open spec fn update_spec(u: Update) -> Result<(State, Seq<char>), UpdateError> {
    match u.message {
        None => Err(UpdateError::NoMessage),
        Some(m) => match m.text {
            None => Err(UpdateError::NoText),
            Some(t) => match m.from {
                None => Err(UpdateError::NoSender),
                Some(user) => Ok((State { from_id: user.id, chat_id: m.chat.id }, t@)),
            },
        },
    }
}

/// The request-scoped context: who is being answered, and the parsing strategy
/// the deployment runs with.
pub struct TelegramContext {
    pub state: State,
    pub strategy: Strategy,
}

fn text_reply(chat_id: i32, text: &str, markdown: bool) -> (r: Reply)
    ensures
        r@ == (ReplyView { chat_id: chat_id as int, text: text@, markdown }),
{
    Reply { chat_id, text: text.to_string(), markdown }
}

impl TelegramContext {
    pub fn new(strategy: Strategy) -> (r: TelegramContext)
        ensures
            r.state == (State { from_id: 0, chat_id: 0 }),
            r.strategy == strategy,
    {
        TelegramContext { state: State { from_id: 0, chat_id: 0 }, strategy }
    }

    pub fn set_state(&mut self, new_state: State)
        ensures
            final(self).state == new_state,
            final(self).strategy == old(self).strategy,
    {
        self.state = new_state;
    }

    /// The sender's store key, as bytes.
    pub fn get_user_id(&self) -> (r: Vec<u8>)
        ensures
            r@ == encode_utf8(user_id_text(self.state.from_id as int)),
    {
        let id = self.state.user_id();
        id.as_str().as_bytes_vec()
    }

    /// Takes in an update: remembers its sender and chat and hands back its text.
    pub fn process_message(&mut self, update: &Update) -> (r: Result<String, UpdateError>)
        ensures
            final(self).strategy == old(self).strategy,
            match update_spec(*update) {
                Ok((s, t)) => r == Ok::<String, UpdateError>(r->Ok_0) && r->Ok_0@ == t
                    && final(self).state == s,
                Err(e) => r == Err::<String, UpdateError>(e) && final(self).state == old(self).state,
            },
    {
        let message = match &update.message {
            Some(m) => m,
            None => return Err(UpdateError::NoMessage),
        };
        let text = match &message.text {
            Some(t) => t.clone(),
            None => return Err(UpdateError::NoText),
        };
        let from_id = match &message.from {
            Some(user) => user.id,
            None => return Err(UpdateError::NoSender),
        };
        self.set_state(State { from_id, chat_id: message.chat.id });
        Ok(text)
    }

    /// Decides what a message with text `text` leads to, given the sender's
    /// stored record.
    pub fn decide(&self, text: &str, record: Option<UserClue>) -> (r: Result<Plan, StateError>)
        ensures
            plan_result_view(r) == decide_spec(self.state, self.strategy, text@, option_record_view(record)),
    {
        let chat = self.state.chat_id;
        let t = text.to_string();
        if t == "/start".to_string() {
            match record {
                Some(_) => Ok(Plan::Reply(text_reply(chat, "Type /reset to reset your account.", false))),
                None => Ok(Plan::Save(
                    UserClue::new(self.state.from_id),
                    text_reply(chat, "Please enter your *Firefly III* server's URL (e.g. https://my-firefly-iii.com).\n\nIt must start with HTTP/s protocol scheme.", true),
                )),
            }
        } else if t == "/reset".to_string() {
            Ok(Plan::Remove(text_reply(chat, "Reset complete.", false)))
        } else if t == "/help".to_string() {
            match record {
                None => Ok(Plan::Reply(text_reply(chat, "Type /start to initiate the setup process.", false))),
                Some(_) => {
                    let usage_text = match self.strategy {
                        Strategy::Delimited =>
                            "Send a message in the following format\n`amount, description, source account, destination account`",
                        Strategy::Nlu => "Send a message in the following format\n`The deed. And the transaction.`",
                    };
                    Ok(Plan::Reply(text_reply(chat, usage_text, true)))
                },
            }
        } else if t == "/test".to_string() {
            Ok(Plan::Reply(text_reply(chat, "Message Ack", false)))
        } else {
            match record {
                None => Ok(Plan::Reply(text_reply(chat, "Type /start to initiate the setup process.", false))),
                Some(r) => self.free_text(t, r),
            }
        }
    }

    fn free_text(&self, text: String, r: UserClue) -> (p: Result<Plan, StateError>)
        ensures
            plan_result_view(p) == free_text_spec(self.state.chat_id as int, text@, r@),
    {
        let chat = self.state.chat_id;
        match stage(&r) {
            None => {
                if r.is_ready() {
                    Err(StateError::IncompleteRecord)
                } else {
                    Err(StateError::UnknownState)
                }
            },
            Some(Stage::AwaitingUrl) => Ok(self.save_url(r, trim(text.as_str()))),
            Some(Stage::AwaitingToken) => Ok(self.save_token(r, trim(text.as_str()))),
            Some(Stage::Ready) => Ok(Plan::Interpret(r, text)),
        }
    }

    /// The URL step for a trimmed message `url`.
    pub fn save_url(&self, r: UserClue, url: String) -> (p: Plan)
        ensures
            p@ == url_step_spec(self.state.chat_id as int, r@, url@),
    {
        let chat = self.state.chat_id;
        let message = "Your *Firefly III* URL's been saved!\n\nNow please enter your firefly *Personal Access Token* (PAT), you can generate it from PAT section here - "
            .to_string().concat(url.as_str()).concat("/profile");
        let saved = UserClue {
            id: r.id,
            state: "upload-pat".to_string(),
            firefly_url: url,
            firefly_pat: r.firefly_pat,
        };
        Plan::Save(saved, Reply { chat_id: chat, text: message, markdown: true })
    }

    /// The token step for a trimmed message `pat`.
    pub fn save_token(&self, r: UserClue, pat: String) -> (p: Plan)
        ensures
            p@ == token_step_spec(self.state.chat_id as int, r@, pat@),
    {
        let chat = self.state.chat_id;
        if pat.as_str().is_empty() {
            Plan::Reply(text_reply(chat, "Please enter your firefly *Personal Access Token* (PAT).", true))
        } else if r.firefly_url.as_str().is_empty() {
            Plan::Reply(text_reply(chat, "Please enter your *Firefly III* server's URL (e.g. https://my-firefly-iii.com).\n\nIt must start with HTTP/s protocol scheme.", true))
        } else {
            let saved = UserClue {
                id: r.id,
                state: "ready".to_string(),
                firefly_url: r.firefly_url,
                firefly_pat: pat,
            };
            Plan::Save(saved, text_reply(chat, "Setup complete. You can now use the telegram bot to store your transaction.", false))
        }
    }

    /// Decides what follows the parser's outcome `parsed` for the ready user
    /// whose record is `record`.
    pub fn conclude(&self, record: &UserClue, parsed: Result<Transaction, ParseError>) -> (r: Plan)
        ensures
            r@ == conclude_spec(self.state, record@, candidate_view(parsed)),
    {
        let chat = self.state.chat_id;
        match parsed {
            Ok(t) => {
                let ghost tv = t@;
                let endpoint = record.firefly_url.clone().concat("/public/api/v1/transactions");
                let payload = TransactPayload { transactions: vec![t] };
                proof {
                    assert(payload@ =~= seq![tv]);
                }
                let request = LedgerRequest { endpoint, token: record.firefly_pat.clone(), payload };
                Plan::Dispatch(request, text_reply(chat, "Transaction created.", false))
            },
            Err(_) => Plan::Reply(text_reply(chat, "Type /help to check the proper way of creating a transaction.", false)),
        }
    }
}

/// The onboarding step of a stored record.
pub fn stage(r: &UserClue) -> (s: Option<Stage>)
    ensures
        s == stage_of(r@),
{
    if r.is_ready() {
        if !r.firefly_url.as_str().is_empty() && !r.firefly_pat.as_str().is_empty() {
            Some(Stage::Ready)
        } else {
            None
        }
    } else if r.state == "upload-url".to_string() {
        Some(Stage::AwaitingUrl)
    } else if r.state == "upload-pat".to_string() {
        if r.firefly_url.as_str().is_empty() { Some(Stage::AwaitingUrl) } else { Some(Stage::AwaitingToken) }
    } else {
        None
    }
}

pub open spec fn report_prefix() -> Seq<char> { "Firefly Bot Error: "@ }

/// The text sent to the operator chat when handling an update failed.
pub fn operator_report(error_message: &str) -> (r: String)
    ensures
        r@ == report_prefix() + error_message@,
{
    "Firefly Bot Error: ".to_string().concat(error_message)
}

} // verus!
