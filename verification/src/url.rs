//! Web addresses, as the `url` crate reads and writes them.

use crate::json::{Json, JsonValue};
use crate::model::opt_view;
use crate::wire::Wire;
use vstd::prelude::*;

verus! {

/// What the `url` crate reads from `input`: the text that it writes for the
/// absolute URL that it found, or what it says of an input that is none.
pub uninterp spec fn url_read(input: Seq<char>) -> Result<Seq<char>, Seq<char>>;

/// The text that the `url` crate writes for the absolute URL that it reads
/// from `input`; `None` where it reads none.
pub open spec fn url_text(input: Seq<char>) -> Option<Seq<char>> {
    match url_read(input) {
        Ok(text) => Some(text),
        Err(_) => None,
    }
}

/// The text of the URL that the `url` crate reads from `input` when it
/// resolves it against the URL with the text `base`; `None` where it reads
/// none, or where `base` is no URL.
pub uninterp spec fn url_joined(base: Seq<char>, input: Seq<char>) -> Option<Seq<char>>;

/// `Url::parse` of `url`, followed by the conversion of the URL into its
/// text; where it refuses, the error that it gives, in words.
#[verifier::external_body]
fn read_url(input: &str) -> (r: Result<String, String>)
    ensures
        match r {
            Ok(text) => url_read(input@) == Ok::<Seq<char>, Seq<char>>(text@),
            Err(refusal) => url_read(input@) == Err::<Seq<char>, Seq<char>>(refusal@),
        },
{
    url::Url::parse(input).map(String::from).map_err(|e| e.to_string())
}

/// `Url::join` of `url`, on the URL that `Url::parse` reads from `base`,
/// followed by the conversion of the result into its text.
#[verifier::external_body]
fn join_url(base: &str, input: &str) -> (r: Option<String>)
    ensures
        crate::text::opt_text(r) == url_joined(base@, input@),
{
    url::Url::parse(base).ok().and_then(|b| b.join(input).ok()).map(String::from)
}

/// The text of the URL with the text `url` once a pair of a name and a value
/// was added to its query, as the `url` crate writes it; `None` where `url`
/// is no URL.
pub uninterp spec fn url_with_pair(url: Seq<char>, name: Seq<char>, value: Seq<char>) -> Option<
    Seq<char>,
>;

/// Whether a URL, given as the `url` crate writes it, stays within the
/// length that the crate can hold when one more pair is added to its query,
/// whatever the pair's characters: each byte of the name and of the value
/// takes three bytes at most, and `?` or `&` and `=` one each.
pub open spec fn pair_fits(url: Seq<char>, name: Seq<char>, value: Seq<char>) -> bool {
    vstd::utf8::encode_utf8(url).len() + 3 * vstd::utf8::encode_utf8(name).len() + 3
        * vstd::utf8::encode_utf8(value).len() + 3 <= u32::MAX
}

/// `Url::query_pairs_mut` of `url` with one `append_pair`, on the URL that
/// `Url::parse` reads from `url`, followed by the conversion of the result
/// into its text. The `url` crate counts the bytes of a URL, as it writes
/// it, in a `u32` and panics where the count does not fit. So `url` has to
/// be the text that the crate writes for it, and the lengths are bounded.
#[verifier::external_body]
fn add_pair(url: &str, name: &str, value: &str) -> (r: Option<String>)
    requires
        url_text(url@) == Some(url@),
        pair_fits(url@, name@, value@),
    ensures
        crate::text::opt_text(r) == url_with_pair(url@, name@, value@),
{
    url::Url::parse(url).ok().map(
        |mut u| {
            u.query_pairs_mut().append_pair(name, value);
            String::from(u)
        },
    )
}

/// Whether a URL with one more pair in its query stays within the length
/// that the `url` crate can hold.
fn fits(url: &str, name: &str, value: &str) -> (r: bool)
    ensures
        r == pair_fits(url@, name@, value@),
{
    let a: u128 = url.as_bytes().len() as u128;
    let b: u128 = name.as_bytes().len() as u128;
    let c: u128 = value.as_bytes().len() as u128;
    a + 3 * b + 3 * c + 3 <= 0xffff_ffff
}

/// The text of a URL with one more pair of a name and a value in its query:
/// what the `url` crate writes for it, where the pair fits and the text is
/// read as itself.
pub open spec fn with_pair(url: Seq<char>, name: Seq<char>, value: Seq<char>) -> Option<
    Seq<char>,
> {
    if pair_fits(url, name, value) {
        match url_with_pair(url, name, value) {
            Some(text) => if url_text(text) == Some(text) {
                Some(text)
            } else {
                None
            },
            None => None,
        }
    } else {
        None
    }
}

/// Whether `input` is read as a URL whose text is read as itself.
pub open spec fn is_url(input: Seq<char>) -> bool {
    url_text(input) matches Some(text) && url_text(text) == Some(text)
}

/// The text of the URL that `input` is read as, where that text is read as
/// itself; else what is wrong with the input, in words.
pub open spec fn stable_url(input: Seq<char>) -> Result<Seq<char>, Seq<char>> {
    match url_read(input) {
        Err(refusal) => Err(refusal),
        Ok(text) => match url_read(text) {
            Err(refusal) => Err(refusal),
            Ok(again) => if again == text {
                Ok(text)
            } else {
                Err("the URL is not read back from its own text"@)
            },
        },
    }
}

/// An absolute URL, held as the text that the `url` crate writes for it.
#[derive(Debug, PartialEq)]
pub struct WebUrl {
    text: String,
}

impl View for WebUrl {
    type V = Seq<char>;

    closed spec fn view(&self) -> Seq<char> {
        self.text@
    }
}

impl Clone for WebUrl {
    fn clone(&self) -> (r: WebUrl)
        ensures
            r@ == self@,
    {
        proof {
            use_type_invariant(self);
        }
        WebUrl { text: self.text.clone() }
    }
}

impl WebUrl {
    #[verifier::type_invariant]
    spec fn reads_as_itself(self) -> bool {
        url_text(self.text@) == Some(self.text@)
    }

    /// Reads an absolute URL. The error says in words why the input is
    /// none.
    pub fn parse(input: &str) -> (r: Result<WebUrl, String>)
        ensures
            match r {
                Ok(url) => is_url(input@) && stable_url(input@) == Ok::<Seq<char>, Seq<char>>(url@),
                Err(refusal) => !is_url(input@) && stable_url(input@) == Err::<
                    Seq<char>,
                    Seq<char>,
                >(refusal@),
            },
    {
        match read_url(input) {
            Err(refusal) => Err(refusal),
            Ok(text) => match read_url(text.as_str()) {
                Ok(again) => if again == text {
                    Ok(WebUrl { text })
                } else {
                    Err("the URL is not read back from its own text".to_owned())
                },
                Err(refusal) => Err(refusal),
            },
        }
    }

    /// The text of the URL.
    pub fn as_str(&self) -> (r: &str)
        ensures
            r@ == self@,
            url_text(self@) == Some(self@),
    {
        proof {
            use_type_invariant(self);
        }
        self.text.as_str()
    }

    /// The URL with one more pair of a name and a value in its query;
    /// `None` where the pair is too long to fit, or where the result is not
    /// read back from its own text.
    pub fn with_query(&self, name: &str, value: &str) -> (r: Option<WebUrl>)
        ensures
            opt_view(r) == with_pair(self@, name@, value@),
            r matches Some(url) ==> url_text(url@) == Some(url@),
    {
        proof {
            use_type_invariant(self);
        }
        if !fits(self.text.as_str(), name, value) {
            return None;
        }
        match add_pair(self.text.as_str(), name, value) {
            None => None,
            Some(text) => match read_url(text.as_str()) {
                Ok(again) => if again == text {
                    Some(WebUrl { text })
                } else {
                    None
                },
                Err(_) => None,
            },
        }
    }

    /// The URL that `input` names when it is resolved against this one.
    pub fn join(&self, input: &str) -> (r: Option<WebUrl>)
        ensures
            match r {
                Some(url) => url_joined(self@, input@) == Some(url@) && url_text(url@) == Some(
                    url@,
                ),
                None => !(url_joined(self@, input@) matches Some(text) && url_text(text) == Some(
                    text,
                )),
            },
    {
        match join_url(self.text.as_str(), input) {
            None => None,
            Some(text) => match read_url(text.as_str()) {
                Ok(again) => if again == text {
                    Some(WebUrl { text })
                } else {
                    None
                },
                Err(_) => None,
            },
        }
    }
}

impl Wire for WebUrl {
    open spec fn encode(v: Seq<char>) -> JsonValue {
        JsonValue::String(v)
    }

    open spec fn decode(j: JsonValue) -> Option<Seq<char>> {
        match j {
            JsonValue::String(s) => if is_url(s) {
                url_text(s)
            } else {
                None
            },
            _ => None,
        }
    }

    /// A URL survives where its text is read as itself, which holds of
    /// every [`WebUrl`].
    open spec fn survives(v: Seq<char>) -> bool {
        url_text(v) == Some(v)
    }

    fn to_json(&self) -> (j: Json) {
        Json::string(self.as_str())
    }

    fn from_json(j: &Json) -> (r: Option<WebUrl>) {
        match j.as_str() {
            Some(s) => match WebUrl::parse(s) {
                Ok(url) => Some(url),
                Err(_) => None,
            },
            None => None,
        }
    }

    proof fn lemma_round_trip(v: Seq<char>) {
    }
}

} // verus!
