use vstd::prelude::*;
use vstd::string::StringExecFns;
use reqwest::Error as TransportError;

use crate::json_text::{canonical_json, json_string_pair, lemma_string_pair_canonical, member_object, plain_text};

verus! {

#[verifier::external_type_specification]
#[verifier::external_body]
pub struct ExTransportError(TransportError);

/// Errors returned by the TypeSafe SDK.
#[derive(Debug)]
pub enum Error {
    /// No API key was provided via builder or environment variable.
    MissingApiKey,
    /// The API returned a non-2xx HTTP response.
    Api {
        /// The HTTP status code.
        status: u16,
        /// The compact JSON text of the `detail` member of the response body,
        /// where the body is a JSON object that has one.
        detail: Option<String>,
        /// The response body.
        body: String,
    },
    /// An HTTP transport error from reqwest.
    Http(TransportError),
}

/// A specialized `Result` type for TypeSafe operations.
pub type Result<T> = std::result::Result<T, Error>;

/// The characters of the decimal digits, `'0'` to `'9'`.
pub open spec fn digit_chars() -> Seq<char> {
    seq!['0', '1', '2', '3', '4', '5', '6', '7', '8', '9']
}

/// The decimal representation of `n`, without leading zeros.
pub open spec fn decimal(n: nat) -> Seq<char>
    decreases n,
{
    if n < 10 {
        seq![digit_chars()[n as int]]
    } else {
        decimal(n / 10).push(digit_chars()[(n % 10) as int])
    }
}

/// The number that a sequence of decimal digits denotes.
pub open spec fn decimal_value(digits: Seq<char>) -> nat
    decreases digits.len(),
{
    if digits.len() == 0 {
        0
    } else {
        decimal_value(digits.drop_last()) * 10 + digit_chars().index_of(digits.last()) as nat
    }
}

proof fn lemma_digit_index(k: int)
    requires
        0 <= k < 10,
    ensures
        digit_chars().index_of(digit_chars()[k]) == k,
{
    let d = digit_chars();
    assert(d[0] == '0' && d[1] == '1' && d[2] == '2' && d[3] == '3' && d[4] == '4');
    assert(d[5] == '5' && d[6] == '6' && d[7] == '7' && d[8] == '8' && d[9] == '9');
    assert(0 <= k < d.len() && d[k] == d[k]);
    let i = d.index_of(d[k]);
    assert(0 <= i < d.len() && d[i] == d[k]);
}

/// `decimal` writes numbers faithfully: its digits denote `n`, and only zero
/// is written with a leading `0`.
pub proof fn lemma_decimal_denotes(n: nat)
    ensures
        decimal_value(decimal(n)) == n,
        decimal(n).len() > 0,
        decimal(n)[0] == '0' ==> n == 0,
    decreases n,
{
    if n < 10 {
        lemma_digit_index(n as int);
        assert(decimal(n).drop_last() =~= Seq::<char>::empty());
        assert(decimal_value(Seq::<char>::empty()) == 0);
        assert(decimal(n).last() == digit_chars()[n as int]);
        assert(digit_chars()[0] == '0' && digit_chars()[1] != '0' && digit_chars()[2] != '0');
        assert(digit_chars()[3] != '0' && digit_chars()[4] != '0' && digit_chars()[5] != '0');
        assert(digit_chars()[6] != '0' && digit_chars()[7] != '0' && digit_chars()[8] != '0');
        assert(digit_chars()[9] != '0');
    } else {
        lemma_decimal_denotes(n / 10);
        lemma_digit_index((n % 10) as int);
        assert(decimal(n).drop_last() =~= decimal(n / 10));
        assert(decimal(n).last() == digit_chars()[(n % 10) as int]);
        assert(decimal_value(decimal(n)) == decimal_value(decimal(n / 10)) * 10 + n % 10);
        assert((n / 10) * 10 + n % 10 == n);
        assert(decimal(n)[0] == decimal(n / 10)[0]);
    }
}

/// The message of an [`Error::Api`]: the status code, then the error detail
/// where the response had one, else the whole response body.
pub open spec fn api_error_message(status: u16, detail: Option<Seq<char>>, body: Seq<char>) -> Seq<char> {
    "typesafe: HTTP "@ + decimal(status as nat) + ": "@ + match detail {
        Some(d) => d,
        None => body,
    }
}

/// The compact JSON text of the member `key` of the JSON object written in
/// `text`; `None` where `text` is not JSON, or not an object with that member.
pub uninterp spec fn json_member(text: Seq<char>, key: Seq<char>) -> Option<Seq<char>>;

/// What the detail of the error for a response body `body` is: the `detail`
/// member of the body as [`json_member`] names it; and where the body is
/// `{"detail":v}` with a canonical value text `v`, exactly `v`.
pub open spec fn detail_fits(body: Seq<char>, detail: Option<Seq<char>>) -> bool {
    &&& detail == json_member(body, "detail"@)
    &&& forall|v: Seq<char>|
        #![trigger member_object("detail"@, v)]
        body == member_object("detail"@, v) && canonical_json(v) ==> detail == Some(v)
}

/// The detail of a refused request keeps the whole `detail` member: for a
/// body `{"detail":["a","b"]}`, whatever the plain strings `a` and `b`, the
/// detail is the array with both strings, `["a","b"]`, not a part of it.
pub proof fn lemma_detail_keeps_every_element(a: Seq<char>, b: Seq<char>, detail: Option<Seq<char>>)
    requires
        plain_text(a),
        plain_text(b),
        detail_fits(member_object("detail"@, json_string_pair(a, b)), detail),
    ensures
        detail == Some(json_string_pair(a, b)),
        detail->0.len() == a.len() + b.len() + 7,
{
    lemma_string_pair_canonical(a, b);
}

/// Parses `text` with `serde_json::from_str` into a `serde_json::Value`, takes
/// its member `key` with `Value::get`, and writes that member back as compact
/// JSON text with `Value`'s `Display`. The contract claims that the result is
/// the named function [`json_member`] of the two arguments, and that where
/// `text` is `{"key":v}` with a plain key and a canonical value text `v`, the
/// result is `v` itself: serde_json keeps the whole member (every element of
/// an array, every member of an object, with its keys already in the order of
/// serde_json's `BTreeMap`) and its compact writer adds no whitespace and
/// escapes none of the characters that canonical text may hold.
#[verifier::external_body]
fn json_member_text(text: &str, key: &str) -> (r: Option<String>)
    ensures
        r.deep_view() == json_member(text@, key@),
        forall|v: Seq<char>|
            #![trigger member_object(key@, v)]
            text@ == member_object(key@, v) && plain_text(key@) && canonical_json(v) ==> r.deep_view()
                == Some(v),
{
    match serde_json::from_str::<serde_json::Value>(text) {
        Ok(v) => v.get(key).map(|m| m.to_string()),
        Err(_) => None,
    }
}

/// The text that the `Display` implementation of a reqwest transport error
/// writes for `e`.
pub uninterp spec fn transport_text(e: TransportError) -> Seq<char>;

/// The text of a reqwest transport error, from its `Display` implementation.
/// The contract claims only that the text is the named function
/// [`transport_text`] of the error.
#[verifier::external_body]
fn transport_error_text(e: &TransportError) -> (s: String)
    ensures
        s@ == transport_text(*e),
{
    e.to_string()
}

fn digit_str(d: u16) -> (s: &'static str)
    requires
        d < 10,
    ensures
        s@ == seq![digit_chars()[d as int]],
{
    if d == 0 {
        proof { reveal_strlit("0"); }
        "0"
    } else if d == 1 {
        proof { reveal_strlit("1"); }
        "1"
    } else if d == 2 {
        proof { reveal_strlit("2"); }
        "2"
    } else if d == 3 {
        proof { reveal_strlit("3"); }
        "3"
    } else if d == 4 {
        proof { reveal_strlit("4"); }
        "4"
    } else if d == 5 {
        proof { reveal_strlit("5"); }
        "5"
    } else if d == 6 {
        proof { reveal_strlit("6"); }
        "6"
    } else if d == 7 {
        proof { reveal_strlit("7"); }
        "7"
    } else if d == 8 {
        proof { reveal_strlit("8"); }
        "8"
    } else {
        proof { reveal_strlit("9"); }
        "9"
    }
}

/// Appends the decimal representation of `n` to `out`.
fn push_decimal(out: &mut String, n: u16)
    ensures
        final(out)@ == old(out)@ + decimal(n as nat),
    decreases n,
{
    if n >= 10 {
        push_decimal(out, n / 10);
    }
    out.append(digit_str(n % 10));
    proof {
        if n < 10 {
            assert(decimal(n as nat) =~= seq![digit_chars()[n as int]]);
        } else {
            assert(decimal(n as nat) =~= decimal((n / 10) as nat).push(
                digit_chars()[(n % 10) as int],
            ));
        }
    }
}

/// Helper for formatting API errors.
pub struct ApiError;

impl ApiError {
    /// The message of an API error: `typesafe: HTTP <status>: ` followed by
    /// the detail where there is one, else the body.
    pub fn fmt_error(status: &u16, detail: &Option<String>, body: &str) -> (s: String)
        ensures
            s@ == api_error_message(*status, detail.deep_view(), body@),
    {
        let mut s = "typesafe: HTTP ".to_owned();
        push_decimal(&mut s, *status);
        s.append(": ");
        match detail {
            Some(d) => s.append(d.as_str()),
            None => s.append(body),
        }
        s
    }

    /// The error for a response with the non-success `status` and the body
    /// text `body`: its detail is the `detail` member of the body, where the
    /// body is a JSON object that has one.
    pub fn from_response(status: u16, body: String) -> (e: Error)
        ensures
            e matches Error::Api { status: s, detail: d, body: b } && s == status && b == body
                && d.deep_view() == json_member(body@, "detail"@),
            detail_fits(body@, e->Api_detail.deep_view()),
    {
        proof {
            reveal_strlit("detail");
            assert(plain_text("detail"@));
        }
        let detail = json_member_text(body.as_str(), "detail");
        Error::Api { status, detail, body }
    }

    /// Whether `status` is a success status (`200` to `299`).
    pub fn is_success(status: u16) -> (b: bool)
        ensures
            b == (200 <= status < 300),
    {
        200 <= status && status < 300
    }
}

impl From<TransportError> for Error {
    fn from(e: TransportError) -> (r: Self)
        ensures
            r == Error::Http(e),
    {
        Error::Http(e)
    }
}

impl vstd::std_specs::convert::FromSpecImpl<TransportError> for Error {
    open spec fn obeys_from_spec() -> bool {
        true
    }

    open spec fn from_spec(v: TransportError) -> Self {
        Error::Http(v)
    }
}

impl Error {
    /// The text of this error, as its `Display` writes it.
    pub fn message(&self) -> (s: String)
        ensures
            match self {
                Error::MissingApiKey => s@
                    == "typesafe: missing API key (set TYPESAFE_API_KEY or use .api_key())"@,
                Error::Api { status, detail, body } => s@ == api_error_message(
                    *status,
                    detail.deep_view(),
                    body@,
                ),
                Error::Http(e) => s@ == "typesafe: "@ + transport_text(*e),
            },
    {
        match self {
            Error::MissingApiKey => "typesafe: missing API key (set TYPESAFE_API_KEY or use .api_key())".to_owned(),
            Error::Api { status, detail, body } => ApiError::fmt_error(status, detail, body.as_str()),
            Error::Http(e) => {
                let t = transport_error_text(e);
                "typesafe: ".to_owned().concat(t.as_str())
            },
        }
    }
}

} // verus!
