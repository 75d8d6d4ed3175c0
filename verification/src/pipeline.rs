//! The per-connection pipeline: capped input bytes in, an outbound
//! notification request (or the failing stage's error) out. Extraction,
//! authorization and request building happen here, in order; any failure
//! short-circuits the remaining stages.

use vstd::prelude::*;
use crate::config::Config;
use crate::error::RelayError;
use crate::extract::{extract_message, spec_extract, BODY_PREVIEW_LIMIT};
use crate::notify::{build_notification, spec_auth, spec_url, NotificationRequest};
use crate::validate::{authorized, entries_view, is_authorized};

verus! {

/// What the pipeline yields for given allow-list entries and input bytes:
/// the sender representation and forwarded body on success, otherwise the
/// error of the first failing stage. An unauthorized sender aborts the
/// pipeline before any request is built.
pub open spec fn spec_pipeline(allow: Seq<Seq<u8>>, input: Seq<u8>) -> Result<
    (Seq<u8>, Seq<u8>),
    RelayError,
> {
    match spec_extract(input) {
        Result::Err(e) => Result::Err(e),
        Result::Ok((snd, prev)) => if authorized(allow, snd) {
            Result::Ok((snd, prev))
        } else {
            Result::Err(RelayError::UnauthorizedSenderError)
        },
    }
}

/// Runs extraction, authorization and request building on the bytes of one
/// connection. On success the returned request carries the configured URL,
/// credential header, destination and origin, and the extracted body
/// preview; on failure the first failing stage's error is returned and no
/// request is built.
pub fn handle_message(config: &Config, input: Vec<u8>) -> (r: Result<
    NotificationRequest,
    RelayError,
>)
    requires
        config.wf(),
    ensures
        (r is Ok) == (spec_pipeline(entries_view(config.valid_emails@), input@) is Ok),
        r matches Ok(req) ==> spec_pipeline(entries_view(config.valid_emails@), input@)
            matches Ok(p) && {
            &&& req.url@ == spec_url(config.account@)
            &&& req.auth@ == spec_auth(config.key@, config.secret@)
            &&& req.to@ == config.to@
            &&& req.from@ == config.from@
            &&& req.body@ == p.1
            &&& req.body@.len() <= BODY_PREVIEW_LIMIT
        },
        r matches Err(e) ==> spec_pipeline(entries_view(config.valid_emails@), input@)
            matches Err(e2) && e == e2,
{
    match extract_message(input) {
        Err(e) => Err(e),
        Ok(msg) => {
            if !is_authorized(&msg.sender, &config.valid_emails) {
                Err(RelayError::UnauthorizedSenderError)
            } else {
                Ok(build_notification(config, msg.preview))
            }
        },
    }
}

} // verus!
