//! Properties of the state machine and the parsers, proved over the models
//! their contracts are stated in.
use vstd::prelude::*;
use crate::text::{split_commas, trimmed};
use crate::telegram::{State, RecordView, TransactionView, state_awaiting_token, state_ready, lemma_state_names_distinct};
use crate::parse::{ParseError, ParserInput, Strategy, delimited_spec, nlu_spec, parse_spec, fields_complete,
    deed_text, withdrawal};
use crate::wit::WitMessageResponse;
use crate::machine::{
    PlanView, StateError, Stage, LedgerView, stage_of, is_command, decide_spec, conclude_spec, plain, marked,
    start_prompt, url_saved, created, guidance, transactions_path, cmd_start, cmd_reset, cmd_help, cmd_test,
};

verus! {

/// The stored record after a plan has been carried out.
pub open spec fn record_after(plan: Result<PlanView, StateError>, record: Option<RecordView>) -> Option<RecordView> {
    match plan {
        Ok(PlanView::Save(r, _)) => Some(r),
        Ok(PlanView::Remove(_)) => None,
        _ => record,
    }
}

/// A record as onboarding leaves it: a known step; a ready one holds a URL and a token.
pub open spec fn record_wf(r: RecordView) -> bool {
    stage_of(r) is Some
}

/// The four commands are different texts.
pub proof fn lemma_commands_distinct()
    ensures
        cmd_start() != cmd_reset(),
        cmd_start() != cmd_help(),
        cmd_start() != cmd_test(),
        cmd_reset() != cmd_help(),
        cmd_reset() != cmd_test(),
        cmd_help() != cmd_test(),
{
    reveal_strlit("/start");
    reveal_strlit("/reset");
    reveal_strlit("/help");
    reveal_strlit("/test");
    assert(cmd_start()[1] != cmd_reset()[1]);
    assert(cmd_start().len() != cmd_help().len());
    assert(cmd_start().len() != cmd_test().len());
    assert(cmd_reset().len() != cmd_help().len());
    assert(cmd_reset().len() != cmd_test().len());
    assert(cmd_help()[1] != cmd_test()[1]);
}

/// A user without a record who sends anything but a command is told to type
/// `/start`, and nothing is stored or deleted.
pub proof fn lemma_no_record_free_text(state: State, strategy: Strategy, text: Seq<char>)
    requires
        !is_command(text),
    ensures
        decide_spec(state, strategy, text, None)
            == Ok::<PlanView, StateError>(PlanView::Reply(plain(state.chat_id as int, start_prompt()))),
        record_after(decide_spec(state, strategy, text, None), None) is None,
{
}

/// `/start` then `/reset` leaves the user without a record, whatever was stored
/// before, and `/help` then answers with the setup instructions.
pub proof fn lemma_start_reset_help(state: State, strategy: Strategy, record: Option<RecordView>)
    ensures
        ({
            let after_start = record_after(decide_spec(state, strategy, cmd_start(), record), record);
            let after_reset = record_after(decide_spec(state, strategy, cmd_reset(), after_start), after_start);
            &&& after_start is Some
            &&& after_reset is None
            &&& decide_spec(state, strategy, cmd_help(), after_reset)
                == Ok::<PlanView, StateError>(PlanView::Reply(plain(state.chat_id as int, start_prompt())))
        }),
{
    lemma_commands_distinct();
}

/// A text with fewer than four comma-separated fields is malformed.
pub proof fn lemma_delimited_too_few_fields(text: Seq<char>, date: Seq<char>)
    requires
        split_commas(text).len() < 4,
    ensures
        delimited_spec(text, date) == Err::<TransactionView, ParseError>(ParseError::MalformedInput),
{
}

/// An answer with no intent gives `NoIntentDetected`; one with an intent but no
/// amount of money gives `MissingAmount`.
pub proof fn lemma_nlu_first_checks(r: WitMessageResponse, date: Seq<char>)
    ensures
        r.intents@.len() == 0 ==> nlu_spec(r, date)
            == Err::<TransactionView, ParseError>(ParseError::NoIntentDetected),
        r.intents@.len() > 0 && r.entities.amount_of_money@.len() == 0 ==> nlu_spec(r, date)
            == Err::<TransactionView, ParseError>(ParseError::MissingAmount),
{
}

/// A URL sent while the URL is awaited replaces whatever URL was stored and
/// moves the user on to the token step.
pub proof fn lemma_url_overwrites(state: State, strategy: Strategy, r: RecordView, text: Seq<char>)
    requires
        stage_of(r) == Some(Stage::AwaitingUrl),
        !is_command(text),
    ensures
        ({
            let saved = RecordView { id: r.id, state: state_awaiting_token(), url: trimmed(text), pat: r.pat };
            &&& decide_spec(state, strategy, text, Some(r)) == Ok::<PlanView, StateError>(
                PlanView::Save(saved, marked(state.chat_id as int, url_saved(trimmed(text)))))
            &&& saved.state == state_awaiting_token()
            &&& trimmed(text).len() > 0 ==> stage_of(saved) == Some(Stage::AwaitingToken)
        }),
{
    lemma_state_names_distinct();
}

/// While the URL is awaited, the plan for a message does not depend on the URL
/// stored before.
pub proof fn lemma_url_step_ignores_prior_url(
    state: State,
    strategy: Strategy,
    r1: RecordView,
    r2: RecordView,
    text: Seq<char>,
)
    requires
        stage_of(r1) == Some(Stage::AwaitingUrl),
        stage_of(r2) == Some(Stage::AwaitingUrl),
        r1.id == r2.id,
        r1.state == r2.state,
        r1.pat == r2.pat,
    ensures
        decide_spec(state, strategy, text, Some(r1)) == decide_spec(state, strategy, text, Some(r2)),
{
}

/// Every transaction a parser accepts is complete and carries the date it was
/// given.
pub proof fn lemma_candidate_complete(input: ParserInput, date: Seq<char>)
    ensures
        parse_spec(input, date) matches Ok(t) ==> fields_complete(t) && t.date == date,
{
}

/// A ready user's free text goes to the parser; a parsed transaction makes one
/// ledger request holding exactly that transaction and one confirmation, and a
/// parse failure makes no ledger request and a guidance reply.
pub proof fn lemma_ready_dispatch(
    state: State,
    strategy: Strategy,
    r: RecordView,
    text: Seq<char>,
    parsed: Result<TransactionView, ParseError>,
)
    requires
        stage_of(r) == Some(Stage::Ready),
        !is_command(text),
    ensures
        decide_spec(state, strategy, text, Some(r)) == Ok::<PlanView, StateError>(PlanView::Interpret(r, text)),
        parsed is Ok ==> conclude_spec(state, r, parsed) == PlanView::Dispatch(
            LedgerView { endpoint: r.url + transactions_path(), token: r.pat, transactions: seq![parsed->Ok_0] },
            plain(state.chat_id as int, created()),
        ),
        parsed is Err ==> conclude_spec(state, r, parsed) == PlanView::Reply(plain(state.chat_id as int, guidance())),
{
}

/// A ready user whose message the extraction service reads with an intent, an
/// amount, both accounts and a flow, whose first values make a complete
/// transaction, gets exactly one ledger request, holding the transaction made
/// of those first values, and one confirmation.
pub proof fn lemma_nlu_message_dispatch(
    state: State,
    strategy: Strategy,
    r: RecordView,
    text: Seq<char>,
    w: WitMessageResponse,
    date: Seq<char>,
)
    requires
        stage_of(r) == Some(Stage::Ready),
        !is_command(text),
        w.intents@.len() > 0,
        w.entities.amount_of_money@.len() > 0,
        w.entities.origin@.len() > 0,
        w.entities.destination@.len() > 0,
        w.traits.flow@.len() > 0,
        fields_complete(TransactionView {
            kind: w.traits.flow@[0].value@,
            description: deed_text(w),
            date,
            amount: w.entities.amount_of_money@[0].value@,
            source: w.entities.origin@[0].value@,
            destination: w.entities.destination@[0].value@,
        }),
    ensures
        decide_spec(state, strategy, text, Some(r)) == Ok::<PlanView, StateError>(PlanView::Interpret(r, text)),
        conclude_spec(state, r, nlu_spec(w, date)) == PlanView::Dispatch(
            LedgerView {
                endpoint: r.url + transactions_path(),
                token: r.pat,
                transactions: seq![TransactionView {
                    kind: w.traits.flow@[0].value@,
                    description: deed_text(w),
                    date,
                    amount: w.entities.amount_of_money@[0].value@,
                    source: w.entities.origin@[0].value@,
                    destination: w.entities.destination@[0].value@,
                }],
            },
            plain(state.chat_id as int, created()),
        ),
{
}

/// A ready user who sends four comma-separated fields that trim to a complete
/// withdrawal gets exactly one ledger request, holding that withdrawal, and one
/// confirmation.
pub proof fn lemma_delimited_message_dispatch(
    state: State,
    strategy: Strategy,
    r: RecordView,
    text: Seq<char>,
    date: Seq<char>,
)
    requires
        stage_of(r) == Some(Stage::Ready),
        !is_command(text),
        split_commas(text).len() >= 4,
        fields_complete(TransactionView {
            kind: withdrawal(),
            description: trimmed(split_commas(text)[1]),
            date,
            amount: trimmed(split_commas(text)[0]),
            source: trimmed(split_commas(text)[2]),
            destination: trimmed(split_commas(text)[3]),
        }),
    ensures
        decide_spec(state, strategy, text, Some(r)) == Ok::<PlanView, StateError>(PlanView::Interpret(r, text)),
        conclude_spec(state, r, delimited_spec(text, date)) == PlanView::Dispatch(
            LedgerView {
                endpoint: r.url + transactions_path(),
                token: r.pat,
                transactions: seq![TransactionView {
                    kind: withdrawal(),
                    description: trimmed(split_commas(text)[1]),
                    date,
                    amount: trimmed(split_commas(text)[0]),
                    source: trimmed(split_commas(text)[2]),
                    destination: trimmed(split_commas(text)[3]),
                }],
            },
            plain(state.chat_id as int, created()),
        ),
{
}

/// Every record the machine writes to the store is well formed, whatever
/// record it read: in particular a ready record always holds a URL and a token.
pub proof fn lemma_saved_record_wf(state: State, strategy: Strategy, text: Seq<char>, record: Option<RecordView>)
    ensures
        decide_spec(state, strategy, text, record) matches Ok(PlanView::Save(r, _)) ==> record_wf(r),
        decide_spec(state, strategy, text, record) matches Ok(PlanView::Save(r, _)) ==> (
            r.state == state_ready() ==> r.url.len() > 0 && r.pat.len() > 0),
{
    lemma_state_names_distinct();
}

} // verus!
