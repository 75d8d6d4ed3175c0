//! The process configuration: account identifier, API credentials, the two
//! phone numbers, and the sender allow-list. It is loaded once at startup
//! from a flat ordered text source (one value per line, allow-list entries
//! last) and is read-only afterwards.

use vstd::prelude::*;

verus! {

/// Upper bound on the combined size of the two credential fields, so that
/// building the Basic credential pair can never overflow a length
/// computation on any supported machine.
pub const MAX_CREDENTIAL_BYTES: usize = 0x1000_0000;

/// The immutable process configuration. All values are byte strings; the
/// surrounding binary decodes and encodes text at the transport edges.
pub struct Config {
    /// Account identifier, interpolated into the outbound URL path.
    pub account: Vec<u8>,
    /// API key: the user half of the Basic credential pair.
    pub key: Vec<u8>,
    /// API secret: the password half of the Basic credential pair.
    pub secret: Vec<u8>,
    /// Origin number of the outbound message.
    pub from: Vec<u8>,
    /// Destination number of the outbound message.
    pub to: Vec<u8>,
    /// Allow-list entries; a sender is authorized when one of these occurs
    /// as a substring of the sender representation.
    pub valid_emails: Vec<Vec<u8>>,
}

impl Config {
    /// The credential fields are small enough that `key:secret` can be
    /// formed and encoded without overflowing a length.
    pub open spec fn wf(&self) -> bool {
        self.key@.len() + self.secret@.len() + 1 <= MAX_CREDENTIAL_BYTES
    }

    /// Runtime check of `wf`, for the startup path.
    pub fn is_wf(&self) -> (r: bool)
        ensures
            r == self.wf(),
    {
        let kl = self.key.len();
        let sl = self.secret.len();
        if kl > MAX_CREDENTIAL_BYTES || sl > MAX_CREDENTIAL_BYTES {
            return false;
        }
        kl + sl + 1 <= MAX_CREDENTIAL_BYTES
    }
}

/// Builds the configuration from the lines of the configuration source, in
/// their fixed order: account id, API key, API secret, origin number,
/// destination number, then zero or more allow-list entries. Returns `None`
/// exactly when the five-line prefix is incomplete — a fatal startup
/// condition for the caller.
pub fn parse_config(lines: Vec<Vec<u8>>) -> (r: Option<Config>)
    ensures
        (r is Some) == (lines@.len() >= 5),
        r matches Some(c) ==> {
            &&& c.account@ == lines@[0]@
            &&& c.key@ == lines@[1]@
            &&& c.secret@ == lines@[2]@
            &&& c.from@ == lines@[3]@
            &&& c.to@ == lines@[4]@
            &&& c.valid_emails@ == lines@.skip(5)
        },
{
    let ghost orig = lines@;
    let mut rest = lines;
    if rest.len() < 5 {
        return None;
    }
    let account = rest.remove(0);
    let key = rest.remove(0);
    let secret = rest.remove(0);
    let from = rest.remove(0);
    let to = rest.remove(0);
    proof {
        assert(rest@ =~= orig.skip(5));
    }
    Some(Config { account, key, secret, from, to, valid_emails: rest })
}

} // verus!
