//! The trusted transport binding.

use vstd::prelude::*;

verus! {

/// Relies on `reqwest::blocking`: issues one HTTP GET with a fresh client
/// and hands back the numeric status code and the body text, or the
/// transport failure's message. Nothing is promised of the outcome: the
/// response depends on the network and the server.
#[verifier::external_body]
pub(crate) fn http_get(url: &str) -> (r: Result<(u16, String), String>)
{
    let response = match reqwest::blocking::Client::new().get(url).send() {
        Ok(response) => response,
        Err(cause) => {
            return Err(cause.to_string());
        },
    };
    let status = response.status().as_u16();
    match response.text() {
        Ok(body) => Ok((status, body)),
        Err(cause) => Err(cause.to_string()),
    }
}

} // verus!
