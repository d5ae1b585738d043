//! OAuth2 settings and the authorization URL.

use vstd::prelude::*;
use crate::text::{owned, push_str};

verus! {

/// The OAuth2 settings of the ClickUp app.
#[derive(Debug, Clone)]
pub struct OAuth2Config {
    /// Client id that ClickUp gave.
    pub client_id: String,
    /// Client secret that ClickUp gave.
    pub client_secret: String,
    /// Callback URL registered with ClickUp.
    pub redirect_uri: String,
    /// Name of the secret that holds the token.
    pub token_secret_name: String,
}

/// Whether `urlencoding` leaves a byte as it is: ASCII letters, digits, `-`, `.`, `_`, `~`.
pub open spec fn url_safe(b: u8) -> bool {
    (48 <= b <= 57) || (65 <= b <= 90) || (97 <= b <= 122) || b == 45 || b == 46 || b == 95
        || b == 126
}

/// The uppercase hexadecimal digit for `d < 16`.
pub open spec fn hex_upper(d: u8) -> char {
    if d < 10 {
        (d + 48) as char
    } else {
        (d + 55) as char
    }
}

/// Bytes percent-encoded as `urlencoding::encode` does: safe bytes kept, every other byte
/// written `%XY` in uppercase hexadecimal.
pub open spec fn percent_encoded(bytes: Seq<u8>) -> Seq<char>
    decreases bytes.len(),
{
    if bytes.len() == 0 {
        Seq::empty()
    } else {
        let b = bytes.last();
        let piece = if url_safe(b) {
            seq![b as char]
        } else {
            seq!['%', hex_upper(b / 16), hex_upper(b % 16)]
        };
        percent_encoded(bytes.drop_last()) + piece
    }
}

/// The string percent-encoded as a URL component.
pub open spec fn url_encoded(s: Seq<char>) -> Seq<char> {
    percent_encoded(vstd::utf8::encode_utf8(s))
}

/// Percent-encodes the UTF-8 bytes of `s` with `urlencoding::encode`: every byte but ASCII
/// letters, digits, `-`, `.`, `_` and `~` becomes `%` and two uppercase hex digits.
#[verifier::external_body]
pub(crate) fn url_encode(s: &str) -> (r: String)
    ensures
        r@ == url_encoded(s@),
{
    urlencoding::encode(s).into_owned()
}

/// The URL where a user authorizes the app.
pub open spec fn authorization_url_of(c: OAuth2Config) -> Seq<char> {
    "https://app.clickup.com/api?client_id="@ + c.client_id@ + "&redirect_uri="@ + url_encoded(
        c.redirect_uri@,
    )
}

impl OAuth2Config {
    /// The URL where a user authorizes the app: the client id and the percent-encoded
    /// redirect URI.
    pub fn authorization_url(&self) -> (r: String)
        ensures
            r@ == authorization_url_of(*self),
    {
        let mut url = owned("https://app.clickup.com/api?client_id=");
        push_str(&mut url, self.client_id.as_str());
        push_str(&mut url, "&redirect_uri=");
        let enc = url_encode(self.redirect_uri.as_str());
        push_str(&mut url, enc.as_str());
        url
    }
}

} // verus!
