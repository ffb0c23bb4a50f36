use crate::json::{
    as_bool, distinct_keys, get, integer, is_null, json_parse, json_text, json_tree, member,
    object, object_of, pairs_of, parse, string, text_of, Json,
};
use vstd::prelude::*;

verus! {

/// `reqwest::Url`, which is the `Url` of the `url` crate, carried through
/// as it is: nothing is known of a URL but what `url_text` says it holds.
#[verifier::external_type_specification]
#[verifier::external_body]
pub struct ExUrl(reqwest::Url);

/// What a `reqwest::Url` holds: its serialization.
pub uninterp spec fn url_text(url: reqwest::Url) -> Seq<char>;

/// What `reqwest::Url::parse` makes of a text: the serialization of the
/// URL, or `None` where it reports an error.
pub uninterp spec fn url_parse(text: Seq<char>) -> Option<Seq<char>>;

/// The serialization of a URL after one segment was added to its path, or
/// `None` where the URL cannot be a base and so has no path segments.
pub uninterp spec fn url_push(url: Seq<char>, segment: Seq<char>) -> Option<Seq<char>>;

/// The longest URL and the longest segment, in characters, that the
/// library hands to the `url` crate for a change. That crate counts the
/// bytes of a URL in 32 bits; a character takes up to four bytes, and up
/// to three times as many once it is escaped.
pub const URL_LIMIT: usize = 0x0100_0000;

/// `reqwest::Url::parse`. It reads `text` as an absolute URL; the outcome
/// depends on the text alone. An error becomes `None`.
#[verifier::external_body]
fn parse_url(text: &str) -> (r: Option<reqwest::Url>)
    ensures
        r matches Some(url) ==> url_parse(text@) == Some(url_text(url)),
        r is None ==> url_parse(text@) is None,
{
    reqwest::Url::parse(text).ok()
}

/// `reqwest::Url::as_str`: the serialization of the URL.
#[verifier::external_body]
fn serialization(url: &reqwest::Url) -> (r: String)
    ensures
        r@ == url_text(*url),
{
    url.as_str().to_owned()
}

/// `reqwest::Url::path_segments_mut` and `push` on what it gives: adds
/// `segment` at the end of the path. Returns `false`, and leaves the URL as
/// it is, where the URL cannot be a base. The bounds keep every position
/// in the URL within the 32 bits that the `url` crate counts in.
#[verifier::external_body]
fn push_segment(url: &mut reqwest::Url, segment: &str) -> (r: bool)
    requires
        url_text(*old(url)).len() <= URL_LIMIT,
        segment@.len() <= URL_LIMIT,
    ensures
        r == url_push(url_text(*old(url)), segment@) is Some,
        r ==> Some(url_text(*final(url))) == url_push(url_text(*old(url)), segment@),
        !r ==> url_text(*final(url)) == url_text(*old(url)),
{
    match url.path_segments_mut() {
        Ok(mut segments) => {
            segments.push(segment);
            true
        },
        Err(()) => false,
    }
}

/// `time::OffsetDateTime::now_utc` and `year` of what it gives: the
/// current year in UTC, as the system clock has it. Nothing is promised of
/// it. (The clock must stand within the years that the `time` crate can
/// hold, up to 9999.)
#[verifier::external_body]
fn current_year() -> i32 {
    time::OffsetDateTime::now_utc().year()
}

/// The last segment of the address that membership is asked at.
pub open spec fn endpoint_segment() -> Seq<char> {
    "confirm_membership.json"@
}

/// The address that membership is asked at: the registry's base address
/// with one more segment at the end of its path. `None` where the base is
/// no URL, cannot be a base, or is longer than `URL_LIMIT`.
pub open spec fn endpoint_text(base: Seq<char>) -> Option<Seq<char>> {
    match url_parse(base) {
        None => None,
        Some(url) => if url.len() > URL_LIMIT {
            None
        } else {
            url_push(url, endpoint_segment())
        },
    }
}

/// Builds the address that membership is asked at from the registry's base
/// address.
pub fn endpoint(base: &str) -> (r: Option<String>)
    ensures
        r is Some == endpoint_text(base@) is Some,
        r matches Some(address) ==> Some(address@) == endpoint_text(base@),
{
    match parse_url(base) {
        None => None,
        Some(mut url) => {
            let before = serialization(&url);
            if before.as_str().unicode_len() > URL_LIMIT {
                return None;
            }
            proof {
                reveal_strlit("confirm_membership.json");
            }
            if push_segment(&mut url, "confirm_membership.json") {
                Some(serialization(&url))
            } else {
                None
            }
        },
    }
}

/// The question put to the registry, as a document: whether `email`
/// belongs to a member of the association in the year `year`.
pub open spec fn request_tree(
    association: Seq<char>,
    api_key: Seq<char>,
    year: i32,
    email: Seq<char>,
) -> Json {
    Json::Object(
        object_of(
            seq![
                (
                    "request"@,
                    Json::Object(
                        object_of(
                            seq![
                                ("action"@, Json::Text("confirm_membership"@)),
                                ("association_number"@, Json::Text(association)),
                                ("api_key"@, Json::Text(api_key)),
                                ("year_id"@, Json::Integer(year as int)),
                                ("email"@, Json::Text(email)),
                            ],
                        ),
                    ),
                ),
            ],
        ),
    )
}

/// Writes the question put to the registry: the body of the request.
pub fn request_body(association: &str, api_key: &str, year: i32, email: &str) -> (r: String)
    ensures
        r@ == json_text(request_tree(association@, api_key@, year, email@)),
{
    let mut inner: Vec<(String, serde_json::Value)> = Vec::new();
    inner.push((String::from_str("action"), string(String::from_str("confirm_membership"))));
    inner.push((String::from_str("association_number"), string(String::from_str(association))));
    inner.push((String::from_str("api_key"), string(String::from_str(api_key))));
    inner.push((String::from_str("year_id"), integer(year)));
    inner.push((String::from_str("email"), string(String::from_str(email))));
    assert(pairs_of(inner@) =~= seq![
        ("action"@, Json::Text("confirm_membership"@)),
        ("association_number"@, Json::Text(association@)),
        ("api_key"@, Json::Text(api_key@)),
        ("year_id"@, Json::Integer(year as int)),
        ("email"@, Json::Text(email@)),
    ]);
    assert(distinct_keys(pairs_of(inner@))) by {
        reveal_strlit("action");
        reveal_strlit("association_number");
        reveal_strlit("api_key");
        reveal_strlit("year_id");
        reveal_strlit("email");
        let keys = pairs_of(inner@);
        assert(keys[0].0.len() == 6);
        assert(keys[1].0.len() == 18);
        assert(keys[2].0.len() == 7 && keys[2].0[0] == 'a');
        assert(keys[3].0.len() == 7 && keys[3].0[0] == 'y');
        assert(keys[4].0.len() == 5);
    }
    let request = object(inner);
    let mut outer: Vec<(String, serde_json::Value)> = Vec::new();
    outer.push((String::from_str("request"), request));
    assert(pairs_of(outer@) =~= seq![("request"@, json_tree(request))]);
    let document = object(outer);
    text_of(&document)
}

/// Whether an answer of the registry confirms membership: it reports no
/// error, and says in so many words that a member was found.
pub open spec fn confirms(answer: Option<Json>) -> bool {
    match answer {
        None => false,
        Some(document) => {
            let response = member(document, "response"@);
            &&& member(member(response, "request_result"@), "error"@) is Null
            &&& member(response, "member_found"@) == Json::Bool(true)
        },
    }
}

/// Decides membership from the two things that the registry's answer
/// holds: whether it is free of an error, and what it says of the member.
/// Only an answer without error that says `true` confirms.
pub fn membership_confirmed(error_free: bool, member_found: Option<bool>) -> (r: bool)
    ensures
        r == (error_free && member_found == Some(true)),
{
    if !error_free {
        return false;
    }
    match member_found {
        Some(found) => found,
        None => false,
    }
}

/// Reads the registry's answer and decides membership. An answer that is
/// no JSON document, one that reports an error and one that does not say
/// whether a member was found are all taken alike: membership is not
/// confirmed.
pub fn verify_membership(answer: &str) -> (r: bool)
    ensures
        r == confirms(json_parse(answer@)),
{
    match parse(answer) {
        None => false,
        Some(document) => {
            let response = get(&document, "response");
            let error = get(get(response, "request_result"), "error");
            let found = get(response, "member_found");
            membership_confirmed(is_null(error), as_bool(found))
        },
    }
}

/// One question for the registry, ready to be sent: where to, and what.
#[derive(Clone, Debug)]
pub struct OracleRequest {
    pub address: String,
    pub body: String,
}

/// Writes the question whether `email` belongs to a member in the year
/// `year`. `None` where `base` gives no address (see `endpoint_text`).
pub fn membership_request_in(
    base: &str,
    association: &str,
    api_key: &str,
    year: i32,
    email: &str,
) -> (r: Option<OracleRequest>)
    ensures
        r is Some == endpoint_text(base@) is Some,
        r matches Some(request) ==> Some(request.address@) == endpoint_text(base@)
            && request.body@ == json_text(request_tree(association@, api_key@, year, email@)),
{
    match endpoint(base) {
        None => None,
        Some(address) => Some(
            OracleRequest { address, body: request_body(association, api_key, year, email) },
        ),
    }
}

/// Writes the question whether `email` belongs to a member in the current
/// year, as the system clock has it.
pub fn membership_request(
    base: &str,
    association: &str,
    api_key: &str,
    email: &str,
) -> (r: Option<OracleRequest>)
    ensures
        r is Some == endpoint_text(base@) is Some,
        r matches Some(request) ==> Some(request.address@) == endpoint_text(base@)
            && exists|year: i32|
            request.body@ == json_text(
                #[trigger] request_tree(association@, api_key@, year, email@),
            ),
{
    let year: i32 = current_year();
    membership_request_in(base, association, api_key, year, email)
}

} // verus!
