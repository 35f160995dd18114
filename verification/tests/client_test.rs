use std::collections::HashMap;

use typesafe::{
    Answer, AnswerMap, ApiError, ChoiceAnswer, Client, Environment, Error, HttpMethod, NoulAnswer,
    NoulCriteria, Question, ScoreAnswer, SystemOneOptions, SystemOneResponse, Usage,
};

const BASE_URL: &str = "http://127.0.0.1:4010";

fn no_env() -> Environment {
    Environment { api_key: None, base_url: None, default_model: None }
}

fn build_client(base_url: &str) -> Client {
    Client::builder()
        .api_key("test-key")
        .base_url(base_url)
        .build(no_env())
        .expect("client should build")
}

fn sample_questions() -> HashMap<String, Question> {
    HashMap::from([
        (
            "category".into(),
            Question::choice(
                "categorize",
                HashMap::from([("billing".into(), "b".into()), ("technical".into(), "t".into())]),
            ),
        ),
        (
            "urgency".into(),
            Question::score("rate", vec!["Can wait".into(), "Needs attention".into()]),
        ),
        ("is_dupe".into(), Question::noul("dupe?", Some(NoulCriteria::new("y", "n")))),
    ])
}

/// The decoded form of the SystemOne fixture response.
fn fixture_response() -> SystemOneResponse<f64> {
    SystemOneResponse {
        model: "jev-latest".into(),
        usage: Usage { input_tokens: 120, output_tokens: 12 },
        answers: answer_map(vec![
            (
                "category".into(),
                Answer::Choice(ChoiceAnswer {
                    choice: "billing".into(),
                    confidence: 0.9,
                    probabilities: HashMap::from([
                        ("billing".into(), 0.8),
                        ("technical".into(), 0.1),
                    ]),
                }),
            ),
            (
                "urgency".into(),
                Answer::Score(ScoreAnswer {
                    score: 1.7,
                    confidence: 0.9,
                    legend: HashMap::from([("0".into(), "Can wait".into())]),
                    probabilities: HashMap::from([("0".into(), 0.1), ("1".into(), 0.9)]),
                }),
            ),
            ("is_dupe".into(), Answer::Noul(NoulAnswer { noul: 0.98 })),
        ]),
    }
}

fn answer_map(entries: Vec<(String, Answer<f64>)>) -> AnswerMap<f64> {
    let mut m = AnswerMap::new();
    for (k, a) in entries {
        m.insert(k, a);
    }
    m
}

fn find<'a, T>(entries: &[(&'a str, &'a T)], name: &str) -> Option<&'a T> {
    entries.iter().find(|(k, _)| *k == name).map(|(_, v)| *v)
}

#[test]
fn test_system_one() {
    let client = build_client(BASE_URL);
    let (call, body) =
        client.system_one_request("I was charged twice.", sample_questions(), None);
    assert_eq!(call.method, HttpMethod::Post);
    assert_eq!(call.url, format!("{BASE_URL}/v1/systemone"));
    assert_eq!(call.bearer_token, "test-key");
    assert_eq!(body.state, "I was charged twice.");
    assert_eq!(body.model, "jev-latest");
    assert_eq!(body.questions.len(), 3);

    let resp = fixture_response();
    assert_eq!(resp.model, "jev-latest");
    assert_eq!(resp.usage.input_tokens, 120);
    assert_eq!(resp.usage.output_tokens, 12);

    // Choice answer
    let choices = resp.choices();
    let cat = find(&choices, "category").expect("should have category");
    assert_eq!(cat.choice, "billing");
    assert!((cat.confidence - 0.9).abs() < f64::EPSILON);
    assert!((cat.probabilities["billing"] - 0.8).abs() < f64::EPSILON);

    // Score answer
    let scores = resp.scores();
    let urg = find(&scores, "urgency").expect("should have urgency");
    assert!((urg.score - 1.7).abs() < f64::EPSILON);
    assert_eq!(urg.legend.get("0").map(|s| s.as_str()), Some("Can wait"));

    // Noul answer
    let nouls = resp.nouls();
    let dupe = find(&nouls, "is_dupe").expect("should have is_dupe");
    assert!((dupe.noul - 0.98).abs() < f64::EPSILON);
}

#[test]
fn test_system_one_model_override() {
    let client = build_client(BASE_URL);
    let (call, body) =
        client.system_one_request("s", HashMap::new(), Some(SystemOneOptions::with_model("jev-2")));
    assert_eq!(call.url, format!("{BASE_URL}/v1/systemone"));
    assert_eq!(body.model, "jev-2");
}

#[test]
fn test_list_models() {
    let client = build_client(BASE_URL);
    let call = client.list_models_request();
    assert_eq!(call.method, HttpMethod::Get);
    assert_eq!(call.url, format!("{BASE_URL}/v1/models"));
    assert_eq!(call.bearer_token, "test-key");
}

#[test]
fn test_validation_error() {
    let body = r#"{"detail":[{"loc":["body","state"],"msg":"field required","type":"missing"}]}"#;
    assert!(!ApiError::is_success(422));
    let err = ApiError::from_response(422, body.to_string());

    match &err {
        Error::Api { status, detail, body: _ } => {
            assert_eq!(*status, 422);
            assert!(detail.is_some(), "should have detail");
        }
        other => panic!("expected Error::Api, got: {:?}", other),
    }

    // Error display should mention HTTP 422
    let msg = err.message();
    assert!(msg.contains("422"), "error message should contain 422: {msg}");
}

#[test]
fn test_missing_api_key() {
    // No TYPESAFE_API_KEY in the environment.
    let result = Client::builder().build(no_env());

    match result {
        Err(Error::MissingApiKey) => {} // expected
        other => panic!("expected MissingApiKey, got: {:?}", other),
    }
}

#[test]
fn test_question_constructors() {
    // Each constructor makes the variant that carries its `type` discriminator.
    let q = Question::choice("Categorize", HashMap::from([("a".into(), "A".into())]));
    match &q {
        Question::Choice { instructions, criteria } => {
            assert_eq!(instructions.as_deref(), Some("Categorize"));
            assert_eq!(criteria["a"], "A");
        }
        other => panic!("expected a choice question, got: {:?}", other),
    }

    let q = Question::score("Rate", vec!["Low".into(), "High".into()]);
    match &q {
        Question::Score { instructions, criteria } => {
            assert_eq!(instructions.as_deref(), Some("Rate"));
            assert_eq!(criteria[0], "Low");
        }
        other => panic!("expected a score question, got: {:?}", other),
    }

    let q = Question::noul("Is spam?", Some(NoulCriteria::new("Spam", "Not spam")));
    match &q {
        Question::Noul { instructions, criteria: Some(c) } => {
            assert_eq!(instructions.as_deref(), Some("Is spam?"));
            assert_eq!(c.when_true, "Spam");
            assert_eq!(c.when_false, "Not spam");
        }
        other => panic!("expected a noul question with criteria, got: {:?}", other),
    }
}
