//! Addresses and headers of the catalog service, and how its answers read.
use vstd::prelude::*;
use vstd::string::StringExecFns;
use crate::download::{BASE_URL, base_url};

verus! {

/// The course search address for an encoded query string.
pub fn courses_url(query_string: &str) -> (r: String)
    ensures
        r@ == base_url() + "/courses2?"@ + query_string@,
{
    let mut url = String::from_str(BASE_URL);
    url.append("/courses2?");
    url.append(query_string);
    url
}

/// The address of the medium-size thumbnail of a course.
pub fn thumbnail_url(id: &str) -> (r: String)
    ensures
        r@ == base_url() + "/courses2/thumbnail/"@ + id@ + "?size=m"@,
{
    let mut url = String::from_str(BASE_URL);
    url.append("/courses2/thumbnail/");
    url.append(id);
    url.append("?size=m");
    url
}

/// The address a vote on a course is sent to.
pub fn vote_url(id: &str) -> (r: String)
    ensures
        r@ == base_url() + "/courses2/vote/"@ + id@,
{
    let mut url = String::from_str(BASE_URL);
    url.append("/courses2/vote/");
    url.append(id);
    url
}

/// The address uploads are sent to.
pub fn upload_url() -> (r: String)
    ensures
        r@ == base_url() + "/courses2"@,
{
    let mut url = String::from_str(BASE_URL);
    url.append("/courses2");
    url
}

/// The address of a course, for deleting it.
pub fn course_url(id: &str) -> (r: String)
    ensures
        r@ == base_url() + "/courses2/"@ + id@,
{
    let mut url = String::from_str(BASE_URL);
    url.append("/courses2/");
    url.append(id);
    url
}

/// The address that checks an API key.
pub fn login_url() -> (r: String)
    ensures
        r@ == base_url() + "/login"@,
{
    let mut url = String::from_str(BASE_URL);
    url.append("/login");
    url
}

/// The value of the `Authorization` header for an API key.
pub fn auth_header(apikey: &str) -> (r: String)
    ensures
        r@ == "APIKEY "@ + apikey@,
{
    let mut h = String::from_str("APIKEY ");
    h.append(apikey);
    h
}

/// What a sign-in answer means: a success status accepts the key.
pub fn sign_in_outcome(success: bool) -> (r: Result<(), String>)
    ensures
        r is Ok <==> success,
        !success ==> (r matches Err(e) && e@ == "Could not sign in! Your API key seems to be wrong."@),
{
    if success {
        Ok(())
    } else {
        Err(String::from_str("Could not sign in! Your API key seems to be wrong."))
    }
}

/// What the answer to a vote or a delete means: a success status carries it
/// out; otherwise the refusal names the status.
pub fn request_outcome(success: bool, what: &str, status: &str) -> (r: Result<(), String>)
    ensures
        r is Ok <==> success,
        !success ==> (r matches Err(e) && e@ == what@ + " was refused ("@ + status@ + ")."@),
{
    if success {
        Ok(())
    } else {
        let mut e = String::from_str(what);
        e.append(" was refused (");
        e.append(status);
        e.append(").");
        Err(e)
    }
}

} // verus!
