//! Asking the registry for the latest published version of a package.
//!
//! The request itself is made by the caller. This module says where to
//! ask, how the client names itself, and what the answer means.

use crate::dep::{option_text, DepKrate};
use crate::text::{has_zero_run, zero_run_longer_than};
use vstd::prelude::*;
use vstd::string::StringExecFns;

verus! {

/// Why the registry gave no version.
#[derive(Debug, Clone, Copy, PartialEq, Eq, Structural)]
pub enum RegistryError {
    /// The request did not go through.
    Network,
    /// The answer is no well-formed document.
    Malformed,
    /// The answer holds no version where one is expected.
    MissingVersion,
}

/// The longest run of zero digits that an answer may hold and still be
/// read.
///
/// The parser of the `json` crate counts the digits that it takes from a
/// fraction in a signed exponent of 16 bits: the zeros in front, and then
/// no more than twenty digits, after which the mantissa is full. With no
/// more zeros in a row than this, the count stays within the 32768 that
/// the exponent can hold.
pub const ZERO_RUN_LIMIT: usize = 32_748;

/// Whether an answer can be handed to the parser: it holds no run of zero
/// digits longer than [`ZERO_RUN_LIMIT`].
pub open spec fn readable(body: Seq<char>) -> bool {
    !has_zero_run(body, ZERO_RUN_LIMIT as nat)
}

/// The error of the `json` crate's parser.
#[verifier::external_type_specification]
#[verifier::external_body]
pub struct ExJsonError(json::Error);

/// Whether `json::parse` accepts `body` as a document.
pub uninterp spec fn json_accepts(body: Seq<char>) -> bool;

/// The string that the document read from `body` holds under the key
/// `field` of element `index` of the array under the key `list`; `None`
/// where it holds no string there.
pub uninterp spec fn json_text(
    body: Seq<char>,
    list: Seq<char>,
    index: usize,
    field: Seq<char>,
) -> Option<Seq<char>>;

/// Parses `body` with `json::parse`, then indexes the document by `list`,
/// by `index` and by `field`, and reads what stands there with
/// `JsonValue::as_str`.
///
/// Trusted: the call fails exactly when the parser rejects `body`, with the
/// parser's error; otherwise it returns the string found at that place, or
/// `None` where there is none, and both depend on the arguments alone.
/// Indexing a value that has no such member gives the null value, which
/// is no string.
///
/// A body that is not [`readable`] is left out: on a fraction with that
/// many zeros the parser's exponent overflows, and where overflow is
/// checked the call does not return.
#[verifier::external_body]
fn text_in_list(body: &str, list: &str, index: usize, field: &str) -> (found: Result<
    Option<String>,
    json::Error,
>)
    requires
        readable(body@),
    ensures
        found is Ok <==> json_accepts(body@),
        found is Ok ==> option_text(found.unwrap()) == json_text(body@, list@, index, field@),
{
    let document = json::parse(body)?;
    Ok(document[list][index][field].as_str().map(|text| text.to_string()))
}

/// What a lookup gave, as a mathematical value.
pub open spec fn answer_view(answer: Result<String, RegistryError>) -> Result<
    Seq<char>,
    RegistryError,
> {
    match answer {
        Ok(version) => Ok(version@),
        Err(e) => Err(e),
    }
}

/// The version that a lookup in the document gave: the text found, or the
/// reason why there is none.
pub open spec fn version_of(found: Result<Option<String>, json::Error>) -> Result<
    Seq<char>,
    RegistryError,
> {
    match found {
        Ok(Some(version)) => Ok(version@),
        Ok(None) => Err(RegistryError::MissingVersion),
        Err(_) => Err(RegistryError::Malformed),
    }
}

/// Turns what was found in the registry's document into the latest
/// version, or into the reason why there is none.
pub fn version_from(found: Result<Option<String>, json::Error>) -> (answer: Result<
    String,
    RegistryError,
>)
    ensures
        answer_view(answer) == version_of(found),
{
    match found {
        Ok(Some(version)) => Ok(version),
        Ok(None) => Err(RegistryError::MissingVersion),
        Err(_) => Err(RegistryError::Malformed),
    }
}

/// The latest version in the registry's answer `body`: the `num` of the
/// first entry under `versions`, which the registry lists newest first.
///
/// An answer that is not [`readable`] counts as malformed, like one that
/// the parser rejects.
pub open spec fn latest_in(body: Seq<char>) -> Result<Seq<char>, RegistryError> {
    if !readable(body) || !json_accepts(body) {
        Err(RegistryError::Malformed)
    } else {
        match json_text(body, "versions"@, 0, "num"@) {
            Some(version) => Ok(version),
            None => Err(RegistryError::MissingVersion),
        }
    }
}

/// The outcome of a lookup whose request gave `response`: `None` stands
/// for a request that did not go through.
pub open spec fn looked_up(response: Option<Seq<char>>) -> Result<Seq<char>, RegistryError> {
    match response {
        Some(body) => latest_in(body),
        None => Err(RegistryError::Network),
    }
}

/// Reads the latest version out of the registry's answer.
pub fn latest_version(body: &str) -> (answer: Result<String, RegistryError>)
    ensures
        answer_view(answer) == latest_in(body@),
{
    if zero_run_longer_than(body, ZERO_RUN_LIMIT) {
        return Err(RegistryError::Malformed);
    }
    version_from(text_in_list(body, "versions", 0, "num"))
}

/// The view of an optional string slice.
pub open spec fn response_view(response: Option<&str>) -> Option<Seq<char>> {
    match response {
        Some(body) => Some(body@),
        None => None,
    }
}

impl DepKrate {
    /// The latest published version of this dependency, given what the
    /// request to [`versions_url`] brought: the body of the answer, or
    /// `None` when the request failed.
    pub fn get_latest_version(&self, response: Option<&str>) -> (answer: Result<
        String,
        RegistryError,
    >)
        ensures
            answer_view(answer) == looked_up(response_view(response)),
    {
        match response {
            Some(body) => latest_version(body),
            None => Err(RegistryError::Network),
        }
    }

    /// Where to ask for this dependency's versions.
    pub fn versions_url(&self) -> (url: String)
        ensures
            url@ == versions_url_text(self@.name),
    {
        versions_url(self.name())
    }
}

/// The address of the registry's version list for the package `name`.
pub open spec fn versions_url_text(name: Seq<char>) -> Seq<char> {
    "https://crates.io/api/v1/crates/"@ + name + "/versions"@
}

/// The address of the registry's version list for the package `name`.
pub fn versions_url(name: &str) -> (url: String)
    ensures
        url@ == versions_url_text(name@),
{
    let mut url = String::from_str("https://crates.io/api/v1/crates/");
    url.append(name);
    url.append("/versions");
    url
}

/// How the client names itself to the registry: the tool's name, a slash,
/// its version and, in round brackets, its home page.
pub open spec fn user_agent_text(tool: Seq<char>, version: Seq<char>, homepage: Seq<char>) -> Seq<
    char,
> {
    tool + "/"@ + version + " ("@ + homepage + ")"@
}

/// The client identifier sent with each request.
pub fn user_agent(tool: &str, version: &str, homepage: &str) -> (agent: String)
    ensures
        agent@ == user_agent_text(tool@, version@, homepage@),
{
    let mut agent = String::from_str(tool);
    agent.append("/");
    agent.append(version);
    agent.append(" (");
    agent.append(homepage);
    agent.append(")");
    agent
}

} // verus!
