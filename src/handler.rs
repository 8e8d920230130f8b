//! The decisions of one sentiment request. Handling runs in two steps around
//! the classifier call, which the caller makes: `begin` reads the query and
//! either names the text to classify or answers at once; `finish` turns the
//! classifier's outcome into the reply. A reply also says whether the
//! endpoint's success counter moves.
use vstd::prelude::*;
use vstd::string::StringExecFns;
use crate::query::{error_message, parse_text_query, query_outcome, text_field, QueryError};
use crate::sentiment::{format_sentiments, label, lemma_single_result_body, response_text, SentimentResult};

verus! {

/// Status of a reply that carries sentiments.
pub const STATUS_OK: u16 = 200;

/// Status of a reply to a malformed query.
pub const STATUS_BAD_REQUEST: u16 = 400;

/// Status of a reply when the classifier failed.
pub const STATUS_SERVER_ERROR: u16 = 500;

/// The classifier gave no answer (it could not be built, or its call failed).
#[derive(Clone, Copy, Debug, PartialEq, Eq, Structural)]
pub struct ClassifyFailure;

/// A plain-text reply, and whether it counts as a correct request.
#[derive(Clone, Debug)]
pub struct Reply {
    pub status: u16,
    pub body: String,
    pub counted: bool,
}

/// A reply as the contracts speak of it: its body as a character sequence.
pub struct ReplyView {
    pub status: u16,
    pub body: Seq<char>,
    pub counted: bool,
}

impl View for Reply {
    type V = ReplyView;

    open spec fn view(&self) -> ReplyView {
        ReplyView { status: self.status, body: self.body@, counted: self.counted }
    }
}

/// What `begin` decides.
#[derive(Clone, Debug)]
pub enum Step {
    /// Classify this text, then call `finish` with the outcome.
    Classify(String),
    /// Answer with this reply; there is nothing to classify.
    Respond(Reply),
}

/// The reply to a malformed query: a client error, not counted.
pub open spec fn query_error_reply(e: QueryError) -> ReplyView {
    ReplyView { status: STATUS_BAD_REQUEST, body: error_message(e), counted: false }
}

/// The reply when the classifier answered: one line per result, counted.
pub open spec fn success_reply(results: Seq<SentimentResult>) -> ReplyView {
    ReplyView { status: STATUS_OK, body: response_text(results), counted: true }
}

/// The reply when the classifier failed: a fixed message, not counted.
pub open spec fn failure_reply() -> ReplyView {
    ReplyView { status: STATUS_SERVER_ERROR, body: "Operation Error!"@, counted: false }
}

/// The reply for a classifier outcome.
pub open spec fn reply_for(outcome: Result<Seq<SentimentResult>, ClassifyFailure>) -> ReplyView {
    match outcome {
        Ok(results) => success_reply(results),
        Err(_) => failure_reply(),
    }
}

/// The path whose correct requests the success counter tallies.
pub fn sentiment_endpoint() -> (r: &'static str)
    ensures
        r@ == "/sentiment"@,
{
    proof {
        reveal_strlit("/sentiment");
    }
    "/sentiment"
}

/// First step of a request: read the query's pairs. A well-formed query
/// yields its text to classify; a malformed one yields the client-error
/// reply, which is not counted.
pub fn begin(pairs: &Vec<(String, String)>) -> (r: Step)
    ensures
        query_outcome(pairs@) is Ok ==> (r is Classify && r->Classify_0@ == query_outcome(
            pairs@,
        )->Ok_0),
        query_outcome(pairs@) is Err ==> (r is Respond && r->Respond_0@ == query_error_reply(
            query_outcome(pairs@)->Err_0,
        )),
{
    match parse_text_query(pairs) {
        Ok(q) => Step::Classify(q.text),
        Err(e) => Step::Respond(Reply { status: STATUS_BAD_REQUEST, body: e.message(), counted: false }),
    }
}

/// Second step: the reply for what the classifier returned.
pub fn finish(outcome: &Result<Vec<SentimentResult>, ClassifyFailure>) -> (r: Reply)
    ensures
        outcome is Ok ==> r@ == success_reply(outcome->Ok_0@),
        outcome is Err ==> r@ == failure_reply(),
{
    match outcome {
        Ok(results) => Reply { status: STATUS_OK, body: format_sentiments(results), counted: true },
        Err(_) => {
            proof {
                reveal_strlit("Operation Error!");
            }
            Reply { status: STATUS_SERVER_ERROR, body: String::from_str("Operation Error!"), counted: false }
        },
    }
}

/// How far the success counter moves over a run of replies, from `start`:
/// one step for each counted reply.
pub open spec fn counter_after(start: nat, replies: Seq<ReplyView>) -> nat
    decreases replies.len(),
{
    if replies.len() == 0 {
        start
    } else {
        let before = counter_after(start, replies.drop_last());
        if replies.last().counted {
            before + 1
        } else {
            before
        }
    }
}

/// The number of outcomes in which the classifier answered.
pub open spec fn success_count(outcomes: Seq<Result<Seq<SentimentResult>, ClassifyFailure>>) -> nat
    decreases outcomes.len(),
{
    if outcomes.len() == 0 {
        0
    } else {
        success_count(outcomes.drop_last()) + if outcomes.last() is Ok {
            1nat
        } else {
            0nat
        }
    }
}

/// For any single result, the reply is a counted success whose body is
/// `Sentiment: ` followed by the result's label and a newline.
pub proof fn lemma_single_result_reply(r: SentimentResult)
    ensures
        reply_for(Ok(seq![r])) == (ReplyView {
            status: STATUS_OK,
            body: "Sentiment: "@ + label(r.polarity) + "\n"@,
            counted: true,
        }),
{
    lemma_single_result_body(r);
}

/// A query without a `text` pair is answered with the missing-field message
/// and leaves the counter where it was.
pub proof fn lemma_missing_text_not_counted(pairs: Seq<(String, String)>)
    requires
        forall|i: int| 0 <= i < pairs.len() ==> pairs[i].0@ != text_field(),
    ensures
        query_outcome(pairs) == Err::<Seq<char>, QueryError>(QueryError::MissingText),
        query_error_reply(QueryError::MissingText).body
            == "Query deserialize error: missing field `text`"@,
        !query_error_reply(QueryError::MissingText).counted,
    decreases pairs.len(),
{
    if pairs.len() > 0 {
        let rest = pairs.drop_last();
        assert forall|i: int| 0 <= i < rest.len() implies rest[i].0@ != text_field() by {
            assert(rest[i] == pairs[i]);
        }
        lemma_missing_text_not_counted(rest);
        assert(pairs.last() == pairs[pairs.len() - 1]);
    }
}

/// Over any run of classifier outcomes, the counter rises by exactly the
/// number of outcomes in which the classifier answered: once per success,
/// never for a failure.
pub proof fn lemma_counter_tracks_successes(
    start: nat,
    outcomes: Seq<Result<Seq<SentimentResult>, ClassifyFailure>>,
)
    ensures
        counter_after(start, outcomes.map_values(|o| reply_for(o))) == start + success_count(
            outcomes,
        ),
    decreases outcomes.len(),
{
    let replies = outcomes.map_values(|o| reply_for(o));
    if outcomes.len() > 0 {
        let rest = outcomes.drop_last();
        assert(replies.drop_last() =~= rest.map_values(|o| reply_for(o)));
        lemma_counter_tracks_successes(start, rest);
        assert(replies.last() == reply_for(outcomes.last()));
    }
}

} // verus!
