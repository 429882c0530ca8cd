//! The connection settings and what a request is built from.

use crate::types::HomeAssistantConnection;
use crate::types::Token;
use vstd::prelude::*;
use vstd::string::StringExecFns;

verus! {

/// How many times a new connection retries a failed request.
pub const DEFAULT_RETRIES: i32 = 30;

/// What the status code of a response says about the request.
#[derive(Clone, Copy, Debug, PartialEq, Eq, Structural)]
pub enum ResponseClass {
    /// The request was carried out.
    Success,
    /// The hub did not accept the token. Trying again does not help.
    Unauthorized,
    /// Any other outcome; the request failed.
    Failure,
}

/// The class of the status code `status`: 200 to 299 is a success, 401 is a
/// refused token, everything else a failure.
pub open spec fn response_class(status: u16) -> ResponseClass {
    if 200 <= status <= 299 {
        ResponseClass::Success
    } else if status == 401 {
        ResponseClass::Unauthorized
    } else {
        ResponseClass::Failure
    }
}

/// Classifies the status code of a response.
pub fn classify_status(status: u16) -> (class: ResponseClass)
    ensures
        class == response_class(status),
{
    if 200 <= status && status <= 299 {
        ResponseClass::Success
    } else if status == 401 {
        ResponseClass::Unauthorized
    } else {
        ResponseClass::Failure
    }
}

impl HomeAssistantConnection {
    /// The text sent as bearer token: the long-lived token, or `no` where
    /// none was set.
    pub open spec fn token_text(&self) -> Seq<char> {
        match self.token {
            Token::LongLivedToken(text) => text@,
            Token::Missing => "no"@,
        }
    }

    /// A connection to `url` without a token.
    pub fn new(url: String, client_id: String) -> (connection: Self)
        ensures
            connection.url == url,
            connection.client_id == client_id,
            connection.token == Token::Missing,
            connection.retries == DEFAULT_RETRIES,
    {
        HomeAssistantConnection { url, token: Token::Missing, client_id, retries: DEFAULT_RETRIES }
    }

    /// Sets the long-lived token, replacing any earlier one.
    pub fn set_long_live_token(&mut self, token: String)
        ensures
            final(self).token == Token::LongLivedToken(token),
            final(self).url == old(self).url,
            final(self).client_id == old(self).client_id,
            final(self).retries == old(self).retries,
    {
        self.token = Token::LongLivedToken(token);
    }

    /// The text to send as bearer token.
    pub fn get_token(&self) -> (text: &str)
        ensures
            text@ == self.token_text(),
    {
        match &self.token {
            Token::LongLivedToken(text) => text.as_str(),
            Token::Missing => "no",
        }
    }

    /// The address of the REST end point `end_point`, such as `/states`.
    pub fn api_url(&self, end_point: &str) -> (address: String)
        ensures
            address@ == self.url@ + "/api"@ + end_point@,
    {
        let mut address = self.url.clone();
        address.append("/api");
        address.append(end_point);
        address
    }
}

} // verus!
