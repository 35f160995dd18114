use std::collections::HashMap;
use vstd::prelude::*;
use vstd::string::StringExecFns;
use reqwest::Client as HttpClient;
use reqwest::Error as TransportError;

use crate::answer::{names_distinct, Answer, AnswerMap, ChoiceAnswer, NoulAnswer, ScoreAnswer};
use crate::error::{Error, Result};
use crate::question::Question;

verus! {

/// The base URL of the API where no other is configured.
pub const DEFAULT_BASE_URL: &'static str = "https://api.typesafe.ai";

/// The model where no other is configured.
pub const DEFAULT_MODEL: &'static str = "jev-latest";

#[verifier::external_type_specification]
#[verifier::external_body]
pub struct ExHttpClient(HttpClient);

/// `Clone` of `reqwest::Client`, which the derived `Clone` of [`Client`]
/// calls. Nothing is stated of the copy.
pub assume_specification[ <HttpClient as std::clone::Clone>::clone ](c: &HttpClient) -> HttpClient;

/// A new `reqwest::Client` with reqwest's default configuration, from
/// `reqwest::Client::builder().build()`. Where reqwest cannot set up a TLS
/// backend or load the system resolver configuration, this reports the error
/// (where `reqwest::Client::default` would panic). Nothing is stated of the
/// result: whether it succeeds depends on the machine, not on any argument,
/// and the client it gives is opaque.
#[verifier::external_body]
fn default_http_client() -> std::result::Result<HttpClient, TransportError> {
    HttpClient::builder().build()
}

// ── Configuration ──────────────────────────────────────────────────────

/// The three settings of a client, each of which may be missing: as a
/// builder holds them, or as the environment variables `TYPESAFE_API_KEY`,
/// `TYPESAFE_BASE_URL` and `TYPESAFE_DEFAULT_MODEL` give them.
pub struct Settings {
    pub api_key: Option<Seq<char>>,
    pub base_url: Option<Seq<char>>,
    pub model: Option<Seq<char>>,
}

/// The configuration of a built client.
pub struct ClientConfig {
    pub api_key: Seq<char>,
    pub base_url: Seq<char>,
    pub model: Seq<char>,
}

/// No setting given.
pub open spec fn unset() -> Settings {
    Settings { api_key: None, base_url: None, model: None }
}

/// `v` where it is present and not empty.
pub open spec fn nonempty(v: Option<Seq<char>>) -> Option<Seq<char>> {
    match v {
        Some(s) => if s.len() > 0 {
            Some(s)
        } else {
            None
        },
        None => None,
    }
}

/// The API key of a client: the explicit key where one was given, else the
/// environment's; and none where that one is empty.
pub open spec fn resolve_api_key(explicit: Option<Seq<char>>, env: Option<Seq<char>>) -> Option<Seq<char>> {
    nonempty(
        match explicit {
            Some(k) => Some(k),
            None => env,
        },
    )
}

/// A setting of a client other than the key: the explicit value where one was
/// given, even an empty one; else the environment's value where it is not
/// empty; else the default.
pub open spec fn resolve_setting(explicit: Option<Seq<char>>, env: Option<Seq<char>>, default: Seq<char>) -> Seq<char> {
    match explicit {
        Some(v) => v,
        None => match nonempty(env) {
            Some(v) => v,
            None => default,
        },
    }
}

/// The configuration that explicit settings and the environment give a client;
/// `None` where no API key results.
pub open spec fn resolve(explicit: Settings, env: Settings) -> Option<ClientConfig> {
    match resolve_api_key(explicit.api_key, env.api_key) {
        Some(k) => Some(
            ClientConfig {
                api_key: k,
                base_url: resolve_setting(explicit.base_url, env.base_url, DEFAULT_BASE_URL@),
                model: resolve_setting(explicit.model, env.model, DEFAULT_MODEL@),
            },
        ),
        None => None,
    }
}

/// The values of the environment variables `TYPESAFE_API_KEY`,
/// `TYPESAFE_BASE_URL` and `TYPESAFE_DEFAULT_MODEL`: `None` where a variable
/// is not set (or does not hold Unicode).
#[derive(Debug, Clone)]
pub struct Environment {
    pub api_key: Option<String>,
    pub base_url: Option<String>,
    pub default_model: Option<String>,
}

impl View for Environment {
    type V = Settings;

    open spec fn view(&self) -> Settings {
        Settings {
            api_key: self.api_key.deep_view(),
            base_url: self.base_url.deep_view(),
            model: self.default_model.deep_view(),
        }
    }
}

// ── Client ─────────────────────────────────────────────────────────────

/// A client for the TypeSafe AI API.
///
/// Create one via [`ClientBuilder`], or with [`Client::from_env`] from the
/// environment variables alone.
#[derive(Debug, Clone)]
pub struct Client {
    api_key: String,
    base_url: String,
    model: String,
    http: HttpClient,
}

/// Builder for constructing a [`Client`] with custom configuration.
///
/// Environment variables (`TYPESAFE_API_KEY`, `TYPESAFE_BASE_URL`,
/// `TYPESAFE_DEFAULT_MODEL`) are used as defaults; explicit builder
/// calls override them.
#[derive(Debug)]
pub struct ClientBuilder {
    api_key: Option<String>,
    base_url: Option<String>,
    model: Option<String>,
    http: Option<HttpClient>,
}

impl ClientBuilder {
    /// The settings given so far.
    pub closed spec fn settings(&self) -> Settings {
        Settings {
            api_key: self.api_key.deep_view(),
            base_url: self.base_url.deep_view(),
            model: self.model.deep_view(),
        }
    }

    /// The HTTP client given so far.
    pub closed spec fn spec_http(&self) -> Option<HttpClient> {
        self.http
    }
}

impl Default for ClientBuilder {
    fn default() -> (b: Self)
        ensures
            b.settings() == unset(),
            b.spec_http() is None,
    {
        ClientBuilder { api_key: None, base_url: None, model: None, http: None }
    }
}

impl Client {
    /// The configuration of this client.
    pub closed spec fn config(&self) -> ClientConfig {
        ClientConfig { api_key: self.api_key@, base_url: self.base_url@, model: self.model@ }
    }

    /// The HTTP client that this client sends requests with.
    pub closed spec fn spec_http(&self) -> HttpClient {
        self.http
    }

    /// Returns a new [`ClientBuilder`].
    pub fn builder() -> (b: ClientBuilder)
        ensures
            b.settings() == unset(),
            b.spec_http() is None,
    {
        ClientBuilder::default()
    }

    /// Shorthand: build a client from the environment variables alone.
    ///
    /// Equivalent to `Client::builder().build(env)`.
    pub fn from_env(env: Environment) -> (r: Result<Client>)
        ensures
            build_outcome(unset(), None, env@, r),
    {
        Client::builder().build(env)
    }

    /// The HTTP client that this client sends requests with.
    pub fn http(&self) -> (h: &HttpClient)
        ensures
            *h == self.spec_http(),
    {
        &self.http
    }
}

/// What building a client from the explicit settings `explicit`, the HTTP
/// client `http` (where one was given) and the environment settings `env` may
/// give back as `r`: the resolved configuration, with the given HTTP client
/// kept; or `MissingApiKey` exactly where no key resolves; or, where a key
/// resolves but no HTTP client was given, the `Http` error of setting one up.
pub open spec fn build_outcome(explicit: Settings, http: Option<HttpClient>, env: Settings, r: Result<Client>) -> bool {
    match r {
        Ok(c) => {
            &&& resolve(explicit, env) == Some(c.config())
            &&& http matches Some(h) ==> c.spec_http() == h
        },
        Err(e) => {
            ||| resolve(explicit, env) is None && e is MissingApiKey
            ||| resolve(explicit, env) is Some && http is None && e is Http
        },
    }
}

/// `Client::from_env(env)` and `Client::builder().build(env)` agree: both
/// fail with `MissingApiKey` or neither does, and where both succeed the
/// clients have the same API key, base URL and model. (Either may also fail
/// with `Http` where setting up reqwest's default client fails on the
/// machine, which is not a function of `env`.)
pub proof fn lemma_from_env_agrees_with_build(env: Settings, from_env: Result<Client>, built: Result<Client>)
    requires
        build_outcome(unset(), None, env, from_env),
        build_outcome(unset(), None, env, built),
    ensures
        from_env matches Err(Error::MissingApiKey) <==> built matches Err(Error::MissingApiKey),
        (from_env matches Ok(a) && built matches Ok(b)) ==> from_env->Ok_0.config()
            == built->Ok_0.config(),
        from_env matches Err(Error::Http(_)) ==> !(built matches Err(Error::MissingApiKey)),
{
}

impl ClientBuilder {
    /// Sets the API key, overriding `TYPESAFE_API_KEY`.
    pub fn api_key(self, key: &str) -> (b: Self)
        ensures
            b.settings() == (Settings { api_key: Some(key@), ..self.settings() }),
            b.spec_http() == self.spec_http(),
    {
        ClientBuilder { api_key: Some(key.to_owned()), ..self }
    }

    /// Sets the base URL, overriding `TYPESAFE_BASE_URL`.
    pub fn base_url(self, url: &str) -> (b: Self)
        ensures
            b.settings() == (Settings { base_url: Some(url@), ..self.settings() }),
            b.spec_http() == self.spec_http(),
    {
        ClientBuilder { base_url: Some(url.to_owned()), ..self }
    }

    /// Sets the default model, overriding `TYPESAFE_DEFAULT_MODEL`.
    pub fn model(self, model: &str) -> (b: Self)
        ensures
            b.settings() == (Settings { model: Some(model@), ..self.settings() }),
            b.spec_http() == self.spec_http(),
    {
        ClientBuilder { model: Some(model.to_owned()), ..self }
    }

    /// Sets the underlying [`reqwest::Client`].
    pub fn http_client(self, client: HttpClient) -> (b: Self)
        ensures
            b.settings() == self.settings(),
            b.spec_http() == Some(client),
    {
        ClientBuilder { http: Some(client), ..self }
    }

    /// Builds the [`Client`], with the environment variables `env` as fallbacks.
    ///
    /// Returns [`Error::MissingApiKey`] if no API key is available, and
    /// [`Error::Http`] if no HTTP client was given and reqwest cannot set one
    /// up on this machine.
    pub fn build(self, env: Environment) -> (r: Result<Client>)
        ensures
            build_outcome(self.settings(), self.spec_http(), env@, r),
    {
        let key = match self.api_key {
            Some(k) => Some(k),
            None => env.api_key,
        };
        let api_key = match key {
            Some(k) => if k.as_str().is_empty() {
                return Err(Error::MissingApiKey);
            } else {
                k
            },
            None => {
                return Err(Error::MissingApiKey);
            },
        };
        let base_url = match self.base_url {
            Some(u) => u,
            None => match env.base_url {
                Some(u) => if u.as_str().is_empty() {
                    DEFAULT_BASE_URL.to_owned()
                } else {
                    u
                },
                None => DEFAULT_BASE_URL.to_owned(),
            },
        };
        let model = match self.model {
            Some(m) => m,
            None => match env.default_model {
                Some(m) => if m.as_str().is_empty() {
                    DEFAULT_MODEL.to_owned()
                } else {
                    m
                },
                None => DEFAULT_MODEL.to_owned(),
            },
        };
        let http = match self.http {
            Some(h) => h,
            None => match default_http_client() {
                Ok(h) => h,
                Err(e) => {
                    return Err(Error::Http(e));
                },
            },
        };
        Ok(Client { api_key, base_url, model, http })
    }
}

// ── Token usage ────────────────────────────────────────────────────────

/// Token usage for the request.
#[derive(Debug, Clone)]
pub struct Usage {
    /// Number of billable input tokens.
    pub input_tokens: u32,
    /// Number of output tokens (currently free of charge).
    pub output_tokens: u32,
}

// ── SystemOne response ─────────────────────────────────────────────────

/// The result of a SystemOne call.
///
/// `answers` holds each answer under the name of its question, in the order in
/// which their names were first inserted; no question name occurs twice.
#[derive(Debug, Clone)]
pub struct SystemOneResponse<N> {
    /// Name of the model that answered the questions.
    pub model: String,
    /// Token usage for this evaluation.
    pub usage: Usage,
    /// Answers keyed by question name.
    pub answers: AnswerMap<N>,
}

/// The answers among `entries` that `pick` selects, each as `pick` gives it
/// back, in order, with their question names.
pub open spec fn picked_entries<N, X>(
    entries: Seq<(String, Answer<N>)>,
    pick: spec_fn(Answer<N>) -> Option<X>,
) -> Seq<(Seq<char>, X)>
    decreases entries.len(),
{
    if entries.len() == 0 {
        Seq::empty()
    } else {
        let rest = picked_entries(entries.drop_last(), pick);
        match pick(entries.last().1) {
            Some(x) => rest.push((entries.last().0@, x)),
            None => rest,
        }
    }
}

/// The choice answer that `a` is, if it is one.
pub open spec fn choice_of<N>(a: Answer<N>) -> Option<ChoiceAnswer<N>> {
    match a {
        Answer::Choice(c) => Some(c),
        _ => None,
    }
}

/// The score answer that `a` is, if it is one.
pub open spec fn score_of<N>(a: Answer<N>) -> Option<ScoreAnswer<N>> {
    match a {
        Answer::Score(s) => Some(s),
        _ => None,
    }
}

/// The noul answer that `a` is, if it is one.
pub open spec fn noul_of<N>(a: Answer<N>) -> Option<NoulAnswer<N>> {
    match a {
        Answer::Noul(n) => Some(n),
        _ => None,
    }
}

/// The choice-typed answers among `entries`, in order, with their question names.
pub open spec fn choice_entries<N>(entries: Seq<(String, Answer<N>)>) -> Seq<(Seq<char>, ChoiceAnswer<N>)> {
    picked_entries(entries, |a: Answer<N>| choice_of(a))
}

/// The score-typed answers among `entries`, in order, with their question names.
pub open spec fn score_entries<N>(entries: Seq<(String, Answer<N>)>) -> Seq<(Seq<char>, ScoreAnswer<N>)> {
    picked_entries(entries, |a: Answer<N>| score_of(a))
}

/// The noul-typed answers among `entries`, in order, with their question names.
pub open spec fn noul_entries<N>(entries: Seq<(String, Answer<N>)>) -> Seq<(Seq<char>, NoulAnswer<N>)> {
    picked_entries(entries, |a: Answer<N>| noul_of(a))
}

impl<N> SystemOneResponse<N> {
    /// Returns only the choice-typed answers.
    pub fn choices(&self) -> (r: Vec<(&str, &ChoiceAnswer<N>)>)
        ensures
            r@.map_values(|p: (&str, &ChoiceAnswer<N>)| (p.0@, *p.1)) == choice_entries(self.answers.entries()),
            names_distinct(self.answers.entries()),
    {
        let mut r: Vec<(&str, &ChoiceAnswer<N>)> = Vec::new();
        let mut i: usize = 0;
        let entries = self.answers.as_slice();
        while i < entries.len()
            invariant
                entries@ == self.answers.entries(),
                i <= entries@.len(),
                r@.map_values(|p: (&str, &ChoiceAnswer<N>)| (p.0@, *p.1))
                    == choice_entries(entries@.take(i as int)),
            decreases entries@.len() - i,
        {
            let entry = &entries[i];
            assert(entries@.take(i + 1).drop_last() =~= entries@.take(i as int));
            match entry.1.as_choice() {
                Some(c) => {
                    r.push((entry.0.as_str(), c));
                },
                None => {},
            }
            i += 1;
        }
        assert(entries@.take(i as int) =~= entries@);
        r
    }
}


impl<N> SystemOneResponse<N> {
    /// Returns only the score-typed answers.
    pub fn scores(&self) -> (r: Vec<(&str, &ScoreAnswer<N>)>)
        ensures
            r@.map_values(|p: (&str, &ScoreAnswer<N>)| (p.0@, *p.1)) == score_entries(self.answers.entries()),
            names_distinct(self.answers.entries()),
    {
        let mut r: Vec<(&str, &ScoreAnswer<N>)> = Vec::new();
        let mut i: usize = 0;
        let entries = self.answers.as_slice();
        while i < entries.len()
            invariant
                entries@ == self.answers.entries(),
                i <= entries@.len(),
                r@.map_values(|p: (&str, &ScoreAnswer<N>)| (p.0@, *p.1))
                    == score_entries(entries@.take(i as int)),
            decreases entries@.len() - i,
        {
            let entry = &entries[i];
            assert(entries@.take(i + 1).drop_last() =~= entries@.take(i as int));
            match entry.1.as_score() {
                Some(a) => {
                    r.push((entry.0.as_str(), a));
                },
                None => {},
            }
            i += 1;
        }
        assert(entries@.take(i as int) =~= entries@);
        r
    }

    /// Returns only the noul-typed answers.
    pub fn nouls(&self) -> (r: Vec<(&str, &NoulAnswer<N>)>)
        ensures
            r@.map_values(|p: (&str, &NoulAnswer<N>)| (p.0@, *p.1)) == noul_entries(self.answers.entries()),
            names_distinct(self.answers.entries()),
    {
        let mut r: Vec<(&str, &NoulAnswer<N>)> = Vec::new();
        let mut i: usize = 0;
        let entries = self.answers.as_slice();
        while i < entries.len()
            invariant
                entries@ == self.answers.entries(),
                i <= entries@.len(),
                r@.map_values(|p: (&str, &NoulAnswer<N>)| (p.0@, *p.1))
                    == noul_entries(entries@.take(i as int)),
            decreases entries@.len() - i,
        {
            let entry = &entries[i];
            assert(entries@.take(i + 1).drop_last() =~= entries@.take(i as int));
            match entry.1.as_noul() {
                Some(a) => {
                    r.push((entry.0.as_str(), a));
                },
                None => {},
            }
            i += 1;
        }
        assert(entries@.take(i as int) =~= entries@);
        r
    }
}

// ── SystemOne and model requests ───────────────────────────────────────

/// Options for a single SystemOne call.
#[derive(Debug)]
pub struct SystemOneOptions {
    /// Override the client's default model for this call.
    pub model: Option<String>,
}

impl Default for SystemOneOptions {
    fn default() -> (o: Self)
        ensures
            o.model is None,
    {
        SystemOneOptions { model: None }
    }
}

impl SystemOneOptions {
    /// Create options with a per-call model override.
    pub fn with_model(model: &str) -> (o: Self)
        ensures
            o.model.deep_view() == Some(model@),
    {
        SystemOneOptions { model: Some(model.to_owned()) }
    }
}

/// Request body for `POST /v1/systemone`.
#[derive(Debug)]
pub struct SystemOneRequestBody {
    /// The content that the questions are about.
    pub state: String,
    /// The model that is to answer.
    pub model: String,
    /// The questions, keyed by name.
    pub questions: HashMap<String, Question>,
}

/// The HTTP method of a request.
#[derive(Debug, Clone, Copy, PartialEq, Eq)]
pub enum HttpMethod {
    Get,
    Post,
}

/// Where and how a request is sent: the method, the full URL, and the
/// bearer token that authorizes it.
#[derive(Debug)]
pub struct ApiCall {
    pub method: HttpMethod,
    pub url: String,
    pub bearer_token: String,
}

/// The model of a SystemOne call: the per-call override where the options
/// give one, else the client's model.
pub open spec fn call_model(opts: Option<SystemOneOptions>, client_model: Seq<char>) -> Seq<char> {
    match opts {
        Some(o) => match o.model {
            Some(m) => m@,
            None => client_model,
        },
        None => client_model,
    }
}

/// A per-call model always wins: options that carry a model `m` give `m`,
/// whatever the client's own model is (so two clients with different models
/// send the same model for such options); options without a model, or no
/// options, give the client's model.
pub proof fn lemma_call_model_override(
    opts: Option<SystemOneOptions>,
    client_model: Seq<char>,
    other_model: Seq<char>,
)
    ensures
        (opts is Some && opts->0.model is Some) ==> call_model(opts, client_model)
            == opts->0.model->0@,
        (opts is Some && opts->0.model is Some) ==> call_model(opts, client_model) == call_model(
            opts,
            other_model,
        ),
        (opts is None || opts->0.model is None) ==> call_model(opts, client_model) == client_model,
{
}

impl Client {
    /// The request that asks `questions` about `state` via `POST /v1/systemone`.
    pub fn system_one_request(
        &self,
        state: &str,
        questions: HashMap<String, Question>,
        opts: Option<SystemOneOptions>,
    ) -> (r: (ApiCall, SystemOneRequestBody))
        ensures
            r.0.method == HttpMethod::Post,
            r.0.url@ == self.config().base_url + "/v1/systemone"@,
            r.0.bearer_token@ == self.config().api_key,
            r.1.state@ == state@,
            r.1.model@ == call_model(opts, self.config().model),
            (opts is Some && opts->0.model is Some) ==> r.1.model@ == opts->0.model->0@,
            (opts is None || opts->0.model is None) ==> r.1.model@ == self.config().model,
            r.1.questions == questions,
    {
        let model = match opts {
            Some(o) => match o.model {
                Some(m) => m,
                None => self.model.clone(),
            },
            None => self.model.clone(),
        };
        let body = SystemOneRequestBody { state: state.to_owned(), model, questions };
        let url = self.base_url.clone().concat("/v1/systemone");
        (ApiCall { method: HttpMethod::Post, url, bearer_token: self.api_key.clone() }, body)
    }

    /// The request that lists the available models via `GET /v1/models`.
    pub fn list_models_request(&self) -> (r: ApiCall)
        ensures
            r.method == HttpMethod::Get,
            r.url@ == self.config().base_url + "/v1/models"@,
            r.bearer_token@ == self.config().api_key,
    {
        let url = self.base_url.clone().concat("/v1/models");
        ApiCall { method: HttpMethod::Get, url, bearer_token: self.api_key.clone() }
    }
}

// ── Laws of the configuration ──────────────────────────────────────────

/// A setting given to the builder wins over the environment and the default:
/// an explicit base URL or model is used as given, and an explicit API key is
/// used where it is not empty.
pub proof fn lemma_explicit_settings_win(explicit: Settings, env: Settings)
    requires
        resolve(explicit, env) is Some,
    ensures
        explicit.api_key matches Some(k) ==> resolve(explicit, env)->0.api_key == k,
        explicit.base_url matches Some(u) ==> resolve(explicit, env)->0.base_url == u,
        explicit.model matches Some(m) ==> resolve(explicit, env)->0.model == m,
{
}

/// Where the builder was not given a setting, a non-empty environment
/// variable supplies it.
pub proof fn lemma_environment_fallback(explicit: Settings, env: Settings)
    requires
        resolve(explicit, env) is Some,
    ensures
        explicit.api_key is None && env.api_key is Some ==> resolve(explicit, env)->0.api_key
            == env.api_key->0,
        explicit.base_url is None && nonempty(env.base_url) is Some ==> resolve(explicit, env)->0.base_url
            == env.base_url->0,
        explicit.model is None && nonempty(env.model) is Some ==> resolve(explicit, env)->0.model
            == env.model->0,
{
}

/// Where neither the builder nor the environment gives a base URL or model
/// (an empty environment variable counts as none), the default is used:
/// `https://api.typesafe.ai` and `jev-latest`.
pub proof fn lemma_defaults(explicit: Settings, env: Settings)
    requires
        resolve(explicit, env) is Some,
    ensures
        explicit.base_url is None && nonempty(env.base_url) is None ==> resolve(explicit, env)->0.base_url
            == DEFAULT_BASE_URL@,
        explicit.model is None && nonempty(env.model) is None ==> resolve(explicit, env)->0.model
            == DEFAULT_MODEL@,
{
}

/// Building fails exactly when no non-empty API key is available: the key
/// given to the builder where there is one (so an empty one fails, whatever
/// the environment holds), else the environment's. A built client's key is
/// never empty.
pub proof fn lemma_missing_api_key(explicit: Settings, env: Settings)
    ensures
        resolve(explicit, env) is None <==> match explicit.api_key {
            Some(k) => k.len() == 0,
            None => env.api_key is None || env.api_key->0.len() == 0,
        },
        resolve(explicit, env) matches Some(c) ==> c.api_key.len() > 0,
{
}

proof fn lemma_entries_partition<N>(entries: Seq<(String, Answer<N>)>)
    ensures
        choice_entries(entries).len() + score_entries(entries).len() + noul_entries(entries).len()
            == entries.len(),
    decreases entries.len(),
{
    if entries.len() > 0 {
        lemma_entries_partition(entries.drop_last());
    }
}

/// Each answer of a response is returned by exactly one of `choices`, `scores`
/// and `nouls`: together they return as many entries as the response holds.
pub proof fn lemma_answer_kinds_partition<N>(resp: SystemOneResponse<N>)
    ensures
        choice_entries(resp.answers.entries()).len() + score_entries(resp.answers.entries()).len() + noul_entries(
            resp.answers.entries(),
        ).len() == resp.answers.entries().len(),
{
    lemma_entries_partition(resp.answers.entries());
}

/// Whether `entries` answers the question `name` with the answer `a`.
pub open spec fn answers_with<N>(entries: Seq<(String, Answer<N>)>, name: Seq<char>, a: Answer<N>) -> bool {
    exists|i: int| #![trigger entries[i]] 0 <= i < entries.len() && entries[i].0@ == name && entries[i].1 == a
}

/// Whether `entries` holds an entry named `name` that `pick` selects as `x`.
pub open spec fn picks<N, X>(
    entries: Seq<(String, Answer<N>)>,
    pick: spec_fn(Answer<N>) -> Option<X>,
    name: Seq<char>,
    x: X,
) -> bool {
    exists|i: int| #![trigger entries[i]] 0 <= i < entries.len() && entries[i].0@ == name && pick(entries[i].1) == Some(x)
}

proof fn lemma_picked_membership<N, X>(
    entries: Seq<(String, Answer<N>)>,
    pick: spec_fn(Answer<N>) -> Option<X>,
    name: Seq<char>,
    x: X,
)
    ensures
        picked_entries(entries, pick).contains((name, x)) <==> picks(entries, pick, name, x),
    decreases entries.len(),
{
    if entries.len() > 0 {
        let prefix = entries.drop_last();
        let last = entries.len() - 1;
        lemma_picked_membership(prefix, pick, name, x);
        let r = picked_entries(entries, pick);
        let rest = picked_entries(prefix, pick);
        assert(entries[last] == entries.last());
        if r.contains((name, x)) {
            let j = choose|j: int| 0 <= j < r.len() && r[j] == (name, x);
            if j < rest.len() {
                assert(rest[j] == r[j]);
                assert(rest.contains((name, x)));
                let i = choose|i: int| #![trigger prefix[i]] 0 <= i < prefix.len() && prefix[i].0@ == name && pick(prefix[i].1) == Some(x);
                assert(prefix[i] == entries[i]);
            }
        }
        if picks(entries, pick, name, x) {
            let i = choose|i: int| #![trigger entries[i]] 0 <= i < entries.len() && entries[i].0@ == name && pick(entries[i].1) == Some(x);
            if i < last {
                assert(prefix[i] == entries[i]);
                assert(picks(prefix, pick, name, x));
                let j = choose|j: int| 0 <= j < rest.len() && rest[j] == (name, x);
                assert(r[j] == rest[j]);
            } else {
                assert(r[r.len() - 1] == (name, x));
            }
        }
    }
}

/// `choices` returns the pair `(name, c)` exactly when the response answers
/// the question `name` with the choice answer `c`; likewise `scores` for
/// score answers and `nouls` for noul answers.
pub proof fn lemma_answer_kinds_lookup<N>(
    resp: SystemOneResponse<N>,
    name: Seq<char>,
    c: ChoiceAnswer<N>,
    s: ScoreAnswer<N>,
    n: NoulAnswer<N>,
)
    ensures
        choice_entries(resp.answers.entries()).contains((name, c)) <==> answers_with(resp.answers.entries(), name, Answer::Choice(c)),
        score_entries(resp.answers.entries()).contains((name, s)) <==> answers_with(resp.answers.entries(), name, Answer::Score(s)),
        noul_entries(resp.answers.entries()).contains((name, n)) <==> answers_with(resp.answers.entries(), name, Answer::Noul(n)),
{
    let e = resp.answers.entries();
    lemma_picked_membership(e, |a: Answer<N>| choice_of(a), name, c);
    lemma_picked_membership(e, |a: Answer<N>| score_of(a), name, s);
    lemma_picked_membership(e, |a: Answer<N>| noul_of(a), name, n);
    if answers_with(e, name, Answer::Choice(c)) {
        let i = choose|i: int| #![trigger e[i]] 0 <= i < e.len() && e[i].0@ == name && e[i].1 == Answer::Choice(c);
        assert(picks(e, |a: Answer<N>| choice_of(a), name, c));
    }
    if answers_with(e, name, Answer::Score(s)) {
        let i = choose|i: int| #![trigger e[i]] 0 <= i < e.len() && e[i].0@ == name && e[i].1 == Answer::Score(s);
        assert(picks(e, |a: Answer<N>| score_of(a), name, s));
    }
    if answers_with(e, name, Answer::Noul(n)) {
        let i = choose|i: int| #![trigger e[i]] 0 <= i < e.len() && e[i].0@ == name && e[i].1 == Answer::Noul(n);
        assert(picks(e, |a: Answer<N>| noul_of(a), name, n));
    }
}

/// The question names of `entries`.
pub open spec fn answer_names<N>(entries: Seq<(String, Answer<N>)>) -> Set<Seq<char>> {
    Set::new(|name: Seq<char>| exists|i: int| #![trigger entries[i]] 0 <= i < entries.len() && entries[i].0@ == name)
}

/// The names in a list of named entries.
pub open spec fn entry_names<X>(entries: Seq<(Seq<char>, X)>) -> Set<Seq<char>> {
    Set::new(|name: Seq<char>| exists|j: int| #![trigger entries[j]] 0 <= j < entries.len() && entries[j].0 == name)
}

proof fn lemma_picked_names<N, X>(
    entries: Seq<(String, Answer<N>)>,
    pick: spec_fn(Answer<N>) -> Option<X>,
    name: Seq<char>,
)
    ensures
        entry_names(picked_entries(entries, pick)).contains(name) <==> exists|i: int|
            #![trigger entries[i]]
            0 <= i < entries.len() && entries[i].0@ == name && pick(entries[i].1) is Some,
{
    let r = picked_entries(entries, pick);
    if entry_names(r).contains(name) {
        let j = choose|j: int| #![trigger r[j]] 0 <= j < r.len() && r[j].0 == name;
        let x = r[j].1;
        assert(r[j] == (name, x));
        assert(r.contains((name, x)));
        lemma_picked_membership(entries, pick, name, x);
        let i = choose|i: int| #![trigger entries[i]] 0 <= i < entries.len() && entries[i].0@ == name && pick(entries[i].1) == Some(x);
    }
    if exists|i: int| #![trigger entries[i]] 0 <= i < entries.len() && entries[i].0@ == name && pick(entries[i].1) is Some {
        let i = choose|i: int| #![trigger entries[i]] 0 <= i < entries.len() && entries[i].0@ == name && pick(entries[i].1) is Some;
        let x = pick(entries[i].1)->0;
        assert(picks(entries, pick, name, x));
        lemma_picked_membership(entries, pick, name, x);
        let j = choose|j: int| 0 <= j < r.len() && r[j] == (name, x);
        assert(r[j].0 == name);
    }
}

/// Together, `choices`, `scores` and `nouls` name every question that the
/// response answers, and no other; and where the response names each question
/// once, as a decoded response does, no name is returned by two of them.
pub proof fn lemma_answer_kinds_split_names<N>(resp: SystemOneResponse<N>)
    ensures
        entry_names(choice_entries(resp.answers.entries())) + entry_names(score_entries(resp.answers.entries()))
            + entry_names(noul_entries(resp.answers.entries())) == answer_names(resp.answers.entries()),
        names_distinct(resp.answers.entries()) ==> {
            &&& entry_names(choice_entries(resp.answers.entries())).disjoint(entry_names(score_entries(resp.answers.entries())))
            &&& entry_names(choice_entries(resp.answers.entries())).disjoint(entry_names(noul_entries(resp.answers.entries())))
            &&& entry_names(score_entries(resp.answers.entries())).disjoint(entry_names(noul_entries(resp.answers.entries())))
        },
{
    let e = resp.answers.entries();
    let cn = entry_names(choice_entries(e));
    let sn = entry_names(score_entries(e));
    let nn = entry_names(noul_entries(e));
    assert forall|name: Seq<char>| (cn + sn + nn).contains(name) <==> #[trigger] answer_names(e).contains(name) by {
        lemma_picked_names(e, |a: Answer<N>| choice_of(a), name);
        lemma_picked_names(e, |a: Answer<N>| score_of(a), name);
        lemma_picked_names(e, |a: Answer<N>| noul_of(a), name);
        if answer_names(e).contains(name) {
            let i = choose|i: int| #![trigger e[i]] 0 <= i < e.len() && e[i].0@ == name;
            match e[i].1 {
                Answer::Choice(_) => assert(cn.contains(name)),
                Answer::Score(_) => assert(sn.contains(name)),
                Answer::Noul(_) => assert(nn.contains(name)),
            }
        }
    }
    assert(cn + sn + nn =~= answer_names(e));
    if names_distinct(e) {
        assert forall|name: Seq<char>| !(cn.contains(name) && sn.contains(name)) by {
            lemma_picked_names(e, |a: Answer<N>| choice_of(a), name);
            lemma_picked_names(e, |a: Answer<N>| score_of(a), name);
            if cn.contains(name) && sn.contains(name) {
                let i = choose|i: int| #![trigger e[i]] 0 <= i < e.len() && e[i].0@ == name && choice_of(e[i].1) is Some;
                let k = choose|k: int| #![trigger e[k]] 0 <= k < e.len() && e[k].0@ == name && score_of(e[k].1) is Some;
                assert(i == k);
            }
        }
        assert forall|name: Seq<char>| !(cn.contains(name) && nn.contains(name)) by {
            lemma_picked_names(e, |a: Answer<N>| choice_of(a), name);
            lemma_picked_names(e, |a: Answer<N>| noul_of(a), name);
            if cn.contains(name) && nn.contains(name) {
                let i = choose|i: int| #![trigger e[i]] 0 <= i < e.len() && e[i].0@ == name && choice_of(e[i].1) is Some;
                let k = choose|k: int| #![trigger e[k]] 0 <= k < e.len() && e[k].0@ == name && noul_of(e[k].1) is Some;
                assert(i == k);
            }
        }
        assert forall|name: Seq<char>| !(sn.contains(name) && nn.contains(name)) by {
            lemma_picked_names(e, |a: Answer<N>| score_of(a), name);
            lemma_picked_names(e, |a: Answer<N>| noul_of(a), name);
            if sn.contains(name) && nn.contains(name) {
                let i = choose|i: int| #![trigger e[i]] 0 <= i < e.len() && e[i].0@ == name && score_of(e[i].1) is Some;
                let k = choose|k: int| #![trigger e[k]] 0 <= k < e.len() && e[k].0@ == name && noul_of(e[k].1) is Some;
                assert(i == k);
            }
        }
    }
}

} // verus!
