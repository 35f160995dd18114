use std::collections::HashMap;

use typesafe::{
    Answer, AnswerMap, ApiError, ChoiceAnswer, Client, Environment, Error, NoulAnswer, ScoreAnswer,
    SystemOneOptions, SystemOneResponse, Usage,
};

fn env(api_key: Option<&str>, base_url: Option<&str>, model: Option<&str>) -> Environment {
    Environment {
        api_key: api_key.map(String::from),
        base_url: base_url.map(String::from),
        default_model: model.map(String::from),
    }
}

fn answer_map(entries: Vec<(String, Answer<f64>)>) -> AnswerMap<f64> {
    let mut m = AnswerMap::new();
    for (k, a) in entries {
        m.insert(k, a);
    }
    m
}

fn base_url_of(c: &Client) -> String {
    c.list_models_request().url.trim_end_matches("/v1/models").to_string()
}

fn model_of(c: &Client) -> String {
    c.system_one_request("", HashMap::new(), None).1.model
}

fn key_of(c: &Client) -> String {
    c.list_models_request().bearer_token
}

#[test]
fn explicit_settings_win_over_environment() {
    let c = Client::builder()
        .api_key("explicit-key")
        .base_url("http://explicit")
        .model("explicit-model")
        .build(env(Some("env-key"), Some("http://env"), Some("env-model")))
        .expect("builds");
    assert_eq!(key_of(&c), "explicit-key");
    assert_eq!(base_url_of(&c), "http://explicit");
    assert_eq!(model_of(&c), "explicit-model");
}

#[test]
fn environment_fills_missing_settings() {
    let c = Client::from_env(env(Some("env-key"), Some("http://env"), Some("env-model")))
        .expect("builds");
    assert_eq!(key_of(&c), "env-key");
    assert_eq!(base_url_of(&c), "http://env");
    assert_eq!(model_of(&c), "env-model");
}

#[test]
fn defaults_apply_when_nothing_is_set() {
    let c = Client::builder().api_key("k").build(env(None, None, None)).expect("builds");
    assert_eq!(base_url_of(&c), "https://api.typesafe.ai");
    assert_eq!(model_of(&c), "jev-latest");
}

#[test]
fn empty_environment_values_are_ignored() {
    let c = Client::builder().api_key("k").build(env(None, Some(""), Some(""))).expect("builds");
    assert_eq!(base_url_of(&c), "https://api.typesafe.ai");
    assert_eq!(model_of(&c), "jev-latest");
    assert!(matches!(Client::from_env(env(Some(""), None, None)), Err(Error::MissingApiKey)));
}

#[test]
fn empty_explicit_base_url_is_kept() {
    let c = Client::builder().api_key("k").base_url("").build(env(None, Some("http://env"), None));
    let c = c.expect("builds");
    assert_eq!(c.list_models_request().url, "/v1/models");
}

#[test]
fn empty_explicit_key_fails_even_with_environment_key() {
    let r = Client::builder().api_key("").build(env(Some("env-key"), None, None));
    assert!(matches!(r, Err(Error::MissingApiKey)));
}

#[test]
fn later_setter_call_wins() {
    let c = Client::builder()
        .api_key("first")
        .api_key("second")
        .model("m1")
        .model("m2")
        .build(env(None, None, None))
        .expect("builds");
    assert_eq!(key_of(&c), "second");
    assert_eq!(model_of(&c), "m2");
}

#[test]
fn options_without_model_keep_client_model() {
    let c = Client::builder().api_key("k").model("mine").build(env(None, None, None)).unwrap();
    let (_, body) = c.system_one_request("s", HashMap::new(), Some(SystemOneOptions::default()));
    assert_eq!(body.model, "mine");
}

#[test]
fn status_classes() {
    assert!(ApiError::is_success(200));
    assert!(ApiError::is_success(204));
    assert!(ApiError::is_success(299));
    assert!(!ApiError::is_success(199));
    assert!(!ApiError::is_success(300));
    assert!(!ApiError::is_success(404));
    assert!(!ApiError::is_success(500));
}

#[test]
fn detail_is_the_compact_json_of_the_member() {
    let body = r#"{ "detail" : [ {"loc": ["body", "state"], "msg": "field required", "type": "missing"} ] }"#;
    match ApiError::from_response(422, body.to_string()) {
        Error::Api { status, detail, body: b } => {
            assert_eq!(status, 422);
            assert_eq!(
                detail.as_deref(),
                Some(r#"[{"loc":["body","state"],"msg":"field required","type":"missing"}]"#)
            );
            assert_eq!(b, body);
        }
        other => panic!("unexpected {:?}", other),
    }
}

#[test]
fn no_detail_without_a_json_object_member() {
    for body in ["not json", r#"{"error":"x"}"#, r#"["detail"]"#, ""] {
        match ApiError::from_response(500, body.to_string()) {
            Error::Api { detail, .. } => assert_eq!(detail, None, "body {body:?}"),
            other => panic!("unexpected {:?}", other),
        }
    }
}

#[test]
fn api_error_messages() {
    let with_detail = ApiError::from_response(422, r#"{"detail":"bad"}"#.to_string());
    assert_eq!(with_detail.message(), r#"typesafe: HTTP 422: "bad""#);
    let without = ApiError::from_response(503, "unavailable".to_string());
    assert_eq!(without.message(), "typesafe: HTTP 503: unavailable");
    assert_eq!(
        ApiError::fmt_error(&0, &None, "b"),
        "typesafe: HTTP 0: b"
    );
    assert_eq!(
        ApiError::fmt_error(&65535, &Some("d".to_string()), "b"),
        "typesafe: HTTP 65535: d"
    );
    assert_eq!(ApiError::fmt_error(&10, &None, ""), "typesafe: HTTP 10: ");
    assert_eq!(
        Error::MissingApiKey.message(),
        "typesafe: missing API key (set TYPESAFE_API_KEY or use .api_key())"
    );
}

#[test]
fn answer_accessors_pick_one_kind() {
    let c: Answer<f64> = Answer::Choice(ChoiceAnswer {
        choice: "x".into(),
        confidence: 0.5,
        probabilities: HashMap::new(),
    });
    assert!(c.as_choice().is_some() && c.as_score().is_none() && c.as_noul().is_none());
    let s: Answer<f64> = Answer::Score(ScoreAnswer {
        score: 2.0,
        confidence: 0.5,
        legend: HashMap::new(),
        probabilities: HashMap::new(),
    });
    assert!(s.as_choice().is_none() && s.as_score().is_some() && s.as_noul().is_none());
    let n: Answer<f64> = Answer::Noul(NoulAnswer { noul: 0.25 });
    assert!(n.as_choice().is_none() && n.as_score().is_none());
    assert_eq!(n.as_noul().map(|a| a.noul), Some(0.25));
}

#[test]
fn kinds_partition_answers_in_order() {
    let resp: SystemOneResponse<f64> = SystemOneResponse {
        model: "m".into(),
        usage: Usage { input_tokens: 0, output_tokens: 0 },
        answers: answer_map(vec![
            ("n1".into(), Answer::Noul(NoulAnswer { noul: 0.1 })),
            (
                "c1".into(),
                Answer::Choice(ChoiceAnswer {
                    choice: "a".into(),
                    confidence: 1.0,
                    probabilities: HashMap::new(),
                }),
            ),
            ("n2".into(), Answer::Noul(NoulAnswer { noul: 0.2 })),
        ]),
    };
    let c = resp.choices();
    let s = resp.scores();
    let n = resp.nouls();
    assert_eq!(c.len() + s.len() + n.len(), resp.answers.len());
    assert_eq!(c.iter().map(|p| p.0).collect::<Vec<_>>(), vec!["c1"]);
    assert!(s.is_empty());
    assert_eq!(n.iter().map(|p| p.0).collect::<Vec<_>>(), vec!["n1", "n2"]);
    assert_eq!(n[1].1.noul, 0.2);
}

#[test]
fn transport_error_message_carries_reqwest_text() {
    let e = reqwest::Client::new().get("not a url").build().expect_err("invalid url");
    let expected = format!("typesafe: {e}");
    assert!(expected.len() > "typesafe: ".len());
    assert_eq!(Error::Http(e).message(), expected);
}

#[test]
fn kinds_name_every_question_once() {
    let resp: SystemOneResponse<f64> = SystemOneResponse {
        model: "m".into(),
        usage: Usage { input_tokens: 0, output_tokens: 0 },
        answers: answer_map(vec![
            ("a".into(), Answer::Noul(NoulAnswer { noul: 0.1 })),
            (
                "b".into(),
                Answer::Score(ScoreAnswer {
                    score: 1.0,
                    confidence: 1.0,
                    legend: HashMap::new(),
                    probabilities: HashMap::new(),
                }),
            ),
            (
                "c".into(),
                Answer::Choice(ChoiceAnswer {
                    choice: "x".into(),
                    confidence: 1.0,
                    probabilities: HashMap::new(),
                }),
            ),
        ]),
    };
    let mut names: Vec<&str> = resp.choices().iter().map(|p| p.0).collect();
    names.extend(resp.scores().iter().map(|p| p.0));
    names.extend(resp.nouls().iter().map(|p| p.0));
    names.sort();
    assert_eq!(names, vec!["a", "b", "c"]);
}

#[test]
fn answer_map_keeps_one_answer_per_name() {
    let mut m: AnswerMap<f64> = AnswerMap::new();
    assert!(m.insert("a".into(), Answer::Noul(NoulAnswer { noul: 0.1 })).is_none());
    assert!(m.insert("b".into(), Answer::Noul(NoulAnswer { noul: 0.2 })).is_none());
    let prev = m.insert("a".into(), Answer::Noul(NoulAnswer { noul: 0.3 }));
    assert_eq!(prev.and_then(|p| p.as_noul().map(|n| n.noul)), Some(0.1));
    assert_eq!(m.len(), 2);
    let names: Vec<&str> = m.as_slice().iter().map(|e| e.0.as_str()).collect();
    assert_eq!(names, vec!["a", "b"]);
    assert_eq!(m.get("a").and_then(|a| a.as_noul()).map(|n| n.noul), Some(0.3));
    assert!(m.get("c").is_none());
    let copy = m.clone();
    assert_eq!(copy.len(), 2);
    assert_eq!(copy.get("b").and_then(|a| a.as_noul()).map(|n| n.noul), Some(0.2));
}

#[test]
fn transport_error_converts_into_http() {
    let e = reqwest::Client::new().get("not a url").build().expect_err("invalid url");
    let text = e.to_string();
    let err: Error = e.into();
    match &err {
        Error::Http(inner) => assert_eq!(inner.to_string(), text),
        other => panic!("unexpected {:?}", other),
    }
}
