//! Sentiment labels as a classifier hands them back, and the plain-text
//! body that reports them.
use vstd::prelude::*;
use vstd::string::StringExecFns;

verus! {

/// The polarity of a piece of text, from the closed set the classifier uses.
#[derive(Clone, Copy, Debug, PartialEq, Eq, Structural)]
pub enum Polarity {
    Positive,
    Negative,
}

/// One classification: the polarity the classifier found for one input.
#[derive(Clone, Copy, Debug, PartialEq, Eq, Structural)]
pub struct SentimentResult {
    pub polarity: Polarity,
}

/// The capitalised name of a polarity, as it stands in a reply.
pub open spec fn label(p: Polarity) -> Seq<char> {
    match p {
        Polarity::Positive => "Positive"@,
        Polarity::Negative => "Negative"@,
    }
}

/// The line that reports one result: `Sentiment: <Label>` and a newline.
pub open spec fn result_line(r: SentimentResult) -> Seq<char> {
    "Sentiment: "@ + label(r.polarity) + "\n"@
}

/// The reply body for a list of results: one line each, in order.
pub open spec fn response_text(results: Seq<SentimentResult>) -> Seq<char>
    decreases results.len(),
{
    if results.len() == 0 {
        Seq::empty()
    } else {
        response_text(results.drop_last()) + result_line(results.last())
    }
}

impl Polarity {
    /// The capitalised name of this polarity.
    pub fn label(&self) -> (r: &'static str)
        ensures
            r@ == label(*self),
    {
        proof {
            reveal_strlit("Positive");
            reveal_strlit("Negative");
        }
        match self {
            Polarity::Positive => "Positive",
            Polarity::Negative => "Negative",
        }
    }
}

impl SentimentResult {
    /// The reply line for this result.
    pub fn line(&self) -> (r: String)
        ensures
            r@ == result_line(*self),
    {
        proof {
            reveal_strlit("Sentiment: ");
            reveal_strlit("\n");
        }
        let mut s = String::from_str("Sentiment: ");
        s.append(self.polarity.label());
        s.append("\n");
        s
    }
}

/// The reply body for `results`: `Sentiment: <Label>\n` for each, concatenated
/// in the order given.
pub fn format_sentiments(results: &Vec<SentimentResult>) -> (r: String)
    ensures
        r@ == response_text(results@),
{
    let mut body = String::new();
    let mut i: usize = 0;
    while i < results.len()
        invariant
            i <= results@.len(),
            body@ == response_text(results@.subrange(0, i as int)),
        decreases results@.len() - i,
    {
        let line = results[i].line();
        body.append(line.as_str());
        proof {
            let next = results@.subrange(0, i + 1);
            assert(next.drop_last() =~= results@.subrange(0, i as int));
        }
        i = i + 1;
    }
    proof {
        assert(results@.subrange(0, results@.len() as int) =~= results@);
    }
    body
}

/// A reply for a single result is exactly that result's line.
pub proof fn lemma_single_result_body(r: SentimentResult)
    ensures
        response_text(seq![r]) == "Sentiment: "@ + label(r.polarity) + "\n"@,
{
    assert(seq![r].drop_last() =~= Seq::<SentimentResult>::empty());
    assert(response_text(Seq::<SentimentResult>::empty()) == Seq::<char>::empty());
    assert(Seq::<char>::empty() + result_line(r) =~= result_line(r));
}

} // verus!
