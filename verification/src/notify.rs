//! Outbound notification building: the URL templated with the account id,
//! the Basic credential header, and the three form fields. The surrounding
//! binary performs the actual HTTPS POST; everything it sends is assembled
//! and specified here.

use vstd::prelude::*;
use vstd::string::{StrSliceExecFns, StringSliceAdditionalSpecFns};
use vstd::utf8::{is_ascii_chars, is_ascii_chars_encode_utf8};
use crate::config::{Config, MAX_CREDENTIAL_BYTES};

verus! {

/// The Base64 form (standard alphabet, padded) of a byte sequence, as
/// produced by the base64 library.
pub uninterp spec fn b64_of(s: Seq<u8>) -> Seq<u8>;

/// Relies on base64's `Engine::encode` with the `STANDARD` engine: the
/// encoding is a function of the input bytes alone, and the encoded form
/// of `n` bytes is `4 * ceil(n / 3)` bytes. The length precondition keeps
/// the input below the engine's output-size overflow.
#[verifier::external_body]
fn b64_encode(input: &Vec<u8>) -> (r: Vec<u8>)
    requires
        input@.len() <= MAX_CREDENTIAL_BYTES,
    ensures
        r@ == b64_of(input@),
        r@.len() == 4 * ((input@.len() + 2) / 3),
{
    base64::Engine::encode(&base64::prelude::BASE64_STANDARD, input.as_slice()).into_bytes()
}

/// The fixed endpoint path before the account id.
pub open spec fn url_prefix() -> Seq<u8> {
    ("https://api.twilio.com/2010-04-01/Accounts/").spec_bytes()
}

/// The fixed endpoint path after the account id.
pub open spec fn url_suffix() -> Seq<u8> {
    ("/Messages.json").spec_bytes()
}

/// The outbound URL: the fixed endpoint templated with the account id.
pub open spec fn spec_url(account: Seq<u8>) -> Seq<u8> {
    url_prefix() + account + url_suffix()
}

/// The Authorization header value: the Basic scheme over the colon-joined
/// credential pair.
pub open spec fn spec_auth(key: Seq<u8>, secret: Seq<u8>) -> Seq<u8> {
    ("Basic ").spec_bytes() + b64_of(key + (":").spec_bytes() + secret)
}

/// One outbound request, ready for the transport: where to post, how to
/// authenticate, and the three form fields.
pub struct NotificationRequest {
    /// The endpoint URL, with the account id in its path.
    pub url: Vec<u8>,
    /// The Authorization header value.
    pub auth: Vec<u8>,
    /// Destination number (the `To` form field).
    pub to: Vec<u8>,
    /// Origin number (the `From` form field).
    pub from: Vec<u8>,
    /// Message text (the `Body` form field).
    pub body: Vec<u8>,
}

/// Appends `src` to `dst`.
fn append_bytes(dst: &mut Vec<u8>, src: &Vec<u8>)
    ensures
        final(dst)@ == old(dst)@ + src@,
{
    let mut i: usize = 0;
    while i < src.len()
        invariant
            i <= src@.len(),
            dst@ == old(dst)@ + src@.take(i as int),
        decreases src@.len() - i,
    {
        dst.push(src[i]);
        proof {
            assert(old(dst)@ + src@.take(i + 1) =~= (old(dst)@ + src@.take(i as int)).push(
                src@[i as int],
            ));
        }
        i = i + 1;
    }
    proof {
        assert(old(dst)@ + src@.take(src@.len() as int) =~= old(dst)@ + src@);
    }
}

/// Appends the bytes of a literal to `dst`.
fn push_str_bytes(dst: &mut Vec<u8>, s: &str)
    ensures
        final(dst)@ == old(dst)@ + s.spec_bytes(),
{
    let b = s.as_bytes_vec();
    append_bytes(dst, &b);
}

/// Builds the outbound request from the configuration and the message
/// body: the account-templated URL, the Basic credential header over
/// `key:secret`, and the destination, origin, and body fields.
pub fn build_notification(config: &Config, body: Vec<u8>) -> (r: NotificationRequest)
    requires
        config.wf(),
    ensures
        r.url@ == spec_url(config.account@),
        r.auth@ == spec_auth(config.key@, config.secret@),
        r.to@ == config.to@,
        r.from@ == config.from@,
        r.body@ == body@,
{
    let mut url: Vec<u8> = Vec::new();
    push_str_bytes(&mut url, "https://api.twilio.com/2010-04-01/Accounts/");
    append_bytes(&mut url, &config.account);
    push_str_bytes(&mut url, "/Messages.json");
    proof {
        assert(url@ =~= spec_url(config.account@));
    }

    let mut cred: Vec<u8> = Vec::new();
    append_bytes(&mut cred, &config.key);
    push_str_bytes(&mut cred, ":");
    append_bytes(&mut cred, &config.secret);
    proof {
        assert(cred@ =~= config.key@ + (":").spec_bytes() + config.secret@);
        assert((":").spec_bytes().len() == 1) by {
            reveal_strlit(":");
            assert(is_ascii_chars((":")@));
            is_ascii_chars_encode_utf8((":")@);
        }
    }
    let enc = b64_encode(&cred);
    let mut auth: Vec<u8> = Vec::new();
    push_str_bytes(&mut auth, "Basic ");
    append_bytes(&mut auth, &enc);
    proof {
        assert(auth@ =~= spec_auth(config.key@, config.secret@));
    }

    let to = crate::extract::copy_bytes(&config.to);
    let from = crate::extract::copy_bytes(&config.from);
    NotificationRequest { url, auth, to, from, body }
}

} // verus!
