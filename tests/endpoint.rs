use sentiment_service::handler::{
    begin, finish, sentiment_endpoint, ClassifyFailure, Reply, Step, STATUS_BAD_REQUEST, STATUS_OK,
    STATUS_SERVER_ERROR,
};
use sentiment_service::query::{parse_text_query, QueryError};
use sentiment_service::sentiment::{format_sentiments, Polarity, SentimentResult};

fn pairs(items: &[(&str, &str)]) -> Vec<(String, String)> {
    items.iter().map(|(k, v)| (k.to_string(), v.to_string())).collect()
}

fn classified(p: Polarity) -> Result<Vec<SentimentResult>, ClassifyFailure> {
    Ok(vec![SentimentResult { polarity: p }])
}

fn text_to_classify(step: Step) -> String {
    match step {
        Step::Classify(text) => text,
        Step::Respond(reply) => panic!("unexpected reply: {:?}", reply),
    }
}

fn immediate_reply(step: Step) -> Reply {
    match step {
        Step::Classify(text) => panic!("unexpected classification of {:?}", text),
        Step::Respond(reply) => reply,
    }
}

#[test]
fn test1() {
    let text = text_to_classify(begin(&pairs(&[("text", "I am sad.")])));
    assert_eq!(text, "I am sad.");
    let reply = finish(&classified(Polarity::Negative));
    assert_eq!(reply.body, "Sentiment: Negative\n");
}

#[test]
fn test2() {
    let text = text_to_classify(begin(&pairs(&[("text", "")])));
    assert_eq!(text, "");
    let reply = finish(&classified(Polarity::Positive));
    assert_eq!(reply.body, "Sentiment: Positive\n");
}

#[test]
fn test3() {
    let reply = immediate_reply(begin(&pairs(&[])));
    assert_eq!(reply.body, "Query deserialize error: missing field `text`");
}

#[test]
fn success_reply_is_ok_and_counted() {
    let reply = finish(&classified(Polarity::Negative));
    assert_eq!(reply.status, STATUS_OK);
    assert_eq!(reply.status, 200);
    assert!(reply.counted);
}

#[test]
fn missing_text_is_bad_request_and_not_counted() {
    let reply = immediate_reply(begin(&pairs(&[("query", "I am sad.")])));
    assert_eq!(reply.status, STATUS_BAD_REQUEST);
    assert_eq!(reply.status, 400);
    assert_eq!(reply.body, "Query deserialize error: missing field `text`");
    assert!(!reply.counted);
}

#[test]
fn repeated_text_is_rejected() {
    let reply = immediate_reply(begin(&pairs(&[("text", "a"), ("text", "b")])));
    assert_eq!(reply.status, STATUS_BAD_REQUEST);
    assert_eq!(reply.body, "Query deserialize error: duplicate field `text`");
    assert!(!reply.counted);
}

#[test]
fn other_keys_are_ignored() {
    let text = text_to_classify(begin(&pairs(&[("lang", "en"), ("text", "fine"), ("x", "")])));
    assert_eq!(text, "fine");
}

#[test]
fn key_match_is_exact() {
    let q = parse_text_query(&pairs(&[("Text", "a"), ("text ", "b")]));
    assert!(matches!(q, Err(QueryError::MissingText)));
}

#[test]
fn classifier_failure_is_server_error() {
    let reply = finish(&Err(ClassifyFailure));
    assert_eq!(reply.status, STATUS_SERVER_ERROR);
    assert_eq!(reply.status, 500);
    assert_eq!(reply.body, "Operation Error!");
    assert!(!reply.counted);
}

#[test]
fn several_results_give_one_line_each_in_order() {
    let results = vec![
        SentimentResult { polarity: Polarity::Positive },
        SentimentResult { polarity: Polarity::Negative },
        SentimentResult { polarity: Polarity::Negative },
    ];
    let reply = finish(&Ok(results));
    assert_eq!(
        reply.body,
        "Sentiment: Positive\nSentiment: Negative\nSentiment: Negative\n"
    );
}

#[test]
fn no_results_give_an_empty_body() {
    assert_eq!(format_sentiments(&Vec::new()), "");
    let reply = finish(&Ok(Vec::new()));
    assert_eq!(reply.body, "");
    assert!(reply.counted);
}

#[test]
fn labels_are_capitalised_names() {
    assert_eq!(Polarity::Positive.label(), "Positive");
    assert_eq!(Polarity::Negative.label(), "Negative");
    assert_eq!(SentimentResult { polarity: Polarity::Negative }.line(), "Sentiment: Negative\n");
}

#[test]
fn counter_moves_once_per_success() {
    let outcomes = vec![
        classified(Polarity::Positive),
        Err(ClassifyFailure),
        classified(Polarity::Negative),
        classified(Polarity::Positive),
    ];
    let mut counter: u64 = 0;
    for outcome in &outcomes {
        if finish(outcome).counted {
            counter += 1;
        }
    }
    let query_error = immediate_reply(begin(&pairs(&[])));
    if query_error.counted {
        counter += 1;
    }
    assert_eq!(counter, 3);
}

#[test]
fn counter_label_is_the_sentiment_path() {
    assert_eq!(sentiment_endpoint(), "/sentiment");
}

#[test]
fn error_messages() {
    assert_eq!(
        QueryError::MissingText.message(),
        "Query deserialize error: missing field `text`"
    );
    assert_eq!(
        QueryError::DuplicateText.message(),
        "Query deserialize error: duplicate field `text`"
    );
}
