//! The query of a sentiment request: one required field, `text`, read from
//! the decoded key/value pairs of the request's query string.
use vstd::prelude::*;
use vstd::string::StringExecFns;

verus! {

/// A well-formed sentiment query. The text may be empty.
#[derive(Clone, Debug)]
pub struct TextQuery {
    pub text: String,
}

/// Why a query string does not make a `TextQuery`.
#[derive(Clone, Copy, Debug, PartialEq, Eq, Structural)]
pub enum QueryError {
    /// No pair has the key `text`.
    MissingText,
    /// More than one pair has the key `text`.
    DuplicateText,
}

/// The name of the query's one field.
pub open spec fn text_field() -> Seq<char> {
    "text"@
}

/// The values of the pairs whose key is `text`, in the order they came.
pub open spec fn text_values(pairs: Seq<(String, String)>) -> Seq<Seq<char>>
    decreases pairs.len(),
{
    if pairs.len() == 0 {
        Seq::empty()
    } else {
        let rest = text_values(pairs.drop_last());
        if pairs.last().0@ == text_field() {
            rest.push(pairs.last().1@)
        } else {
            rest
        }
    }
}

/// What a query string's pairs make: the text when exactly one pair names
/// it, and otherwise the error. Pairs under other keys are ignored.
pub open spec fn query_outcome(pairs: Seq<(String, String)>) -> Result<Seq<char>, QueryError> {
    let values = text_values(pairs);
    if values.len() == 0 {
        Err(QueryError::MissingText)
    } else if values.len() == 1 {
        Ok(values[0])
    } else {
        Err(QueryError::DuplicateText)
    }
}

/// The body of the client-error reply for a query error.
pub open spec fn error_message(e: QueryError) -> Seq<char> {
    match e {
        QueryError::MissingText => "Query deserialize error: missing field `text`"@,
        QueryError::DuplicateText => "Query deserialize error: duplicate field `text`"@,
    }
}

impl QueryError {
    /// The text that reports this error to the client.
    pub fn message(&self) -> (r: String)
        ensures
            r@ == error_message(*self),
    {
        proof {
            reveal_strlit("Query deserialize error: missing field `text`");
            reveal_strlit("Query deserialize error: duplicate field `text`");
        }
        match self {
            QueryError::MissingText => String::from_str(
                "Query deserialize error: missing field `text`",
            ),
            QueryError::DuplicateText => String::from_str(
                "Query deserialize error: duplicate field `text`",
            ),
        }
    }
}

/// Reads the `text` field from the decoded pairs of a query string.
pub fn parse_text_query(pairs: &Vec<(String, String)>) -> (r: Result<TextQuery, QueryError>)
    ensures
        r is Ok <==> query_outcome(pairs@) is Ok,
        r is Ok ==> query_outcome(pairs@) == Ok::<Seq<char>, QueryError>(r->Ok_0.text@),
        r is Err ==> query_outcome(pairs@) == Err::<Seq<char>, QueryError>(r->Err_0),
{
    proof {
        reveal_strlit("text");
    }
    let key = String::from_str("text");
    let mut found: Option<usize> = None;
    let mut repeated = false;
    let mut i: usize = 0;
    while i < pairs.len()
        invariant
            i <= pairs@.len(),
            key@ == text_field(),
            repeated <==> text_values(pairs@.subrange(0, i as int)).len() >= 2,
            found is None <==> text_values(pairs@.subrange(0, i as int)).len() == 0,
            found is Some ==> found->0 < i && text_values(pairs@.subrange(0, i as int))[0]
                == pairs@[found->0 as int].1@,
        decreases pairs@.len() - i,
    {
        proof {
            let next = pairs@.subrange(0, i + 1);
            assert(next.drop_last() =~= pairs@.subrange(0, i as int));
            assert(next.last() == pairs@[i as int]);
        }
        if pairs[i].0 == key {
            if found.is_some() {
                repeated = true;
            } else {
                found = Some(i);
            }
        }
        i = i + 1;
    }
    proof {
        assert(pairs@.subrange(0, pairs@.len() as int) =~= pairs@);
    }
    if repeated {
        Err(QueryError::DuplicateText)
    } else {
        match found {
            None => Err(QueryError::MissingText),
            Some(at) => Ok(TextQuery { text: pairs[at].1.clone() }),
        }
    }
}

} // verus!
