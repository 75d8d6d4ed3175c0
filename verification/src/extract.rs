//! Message extraction: caps the inbound bytes, parses them into a structured
//! message, picks the sender representation and a bounded body preview.
//!
//! The message grammar itself is the parsing library's concern; its results
//! are named by uninterpreted spec functions of the input bytes, and all
//! decisions taken on those results are verified here.

use vstd::prelude::*;
use vstd::string::{StrSliceExecFns, StringSliceAdditionalSpecFns};
use crate::error::RelayError;

verus! {

/// At most this many bytes of one connection are ever considered.
pub const MAX_READ: usize = 100000;

/// Read inactivity bound, in seconds, for capturing the inbound bytes.
pub const READ_TIMEOUT_SECS: u64 = 20;

/// Upper bound on the body preview, in bytes.
pub const BODY_PREVIEW_LIMIT: usize = 1000;

/// Whether the mail parsing library accepts these bytes as a message.
pub uninterp spec fn mail_parses(input: Seq<u8>) -> bool;

/// The From addresses the mail parsing library extracts from these bytes:
/// `None` when the message carries no From header, otherwise one entry per
/// listed address, itself `None` for an entry without an address part.
pub uninterp spec fn mail_senders(input: Seq<u8>) -> Option<Seq<Option<Seq<u8>>>>;

/// The decoded body preview of at most `limit` bytes the mail parsing
/// library yields for these bytes, or `None` when no textual body can be
/// decoded.
pub uninterp spec fn mail_preview(input: Seq<u8>, limit: int) -> Option<Seq<u8>>;

/// The view of an address list: each entry as an optional byte sequence.
pub open spec fn senders_view(v: Seq<Option<Vec<u8>>>) -> Seq<Option<Seq<u8>>> {
    v.map_values(
        |o: Option<Vec<u8>>|
            match o {
                Option::Some(x) => Option::Some(x@),
                Option::None => Option::<Seq<u8>>::None,
            },
    )
}

/// Relies on mail_parser: `MessageParser::parse` decides whether the bytes
/// form a message, `Message::from` and `Address::iter` list the From
/// addresses, and `Message::body_preview` yields at most `preview_len`
/// bytes of decoded body text. Each of these results is a function of the
/// arguments alone.
#[verifier::external_body]
fn parse_mail(input: &Vec<u8>, preview_len: usize) -> (r: Option<
    (Option<Vec<Option<Vec<u8>>>>, Option<Vec<u8>>),
>)
    ensures
        (r is Some) == mail_parses(input@),
        r matches Some(t) ==> {
            &&& (t.0 is Some) == (mail_senders(input@) is Some)
            &&& t.0 matches Some(v) ==> senders_view(v@) == mail_senders(input@)->Some_0
            &&& (t.1 is Some) == (mail_preview(input@, preview_len as int) is Some)
            &&& t.1 matches Some(p) ==> p@ == mail_preview(input@, preview_len as int)->Some_0
            &&& t.1 matches Some(p) ==> p@.len() <= preview_len
        },
{
    let m = mail_parser::MessageParser::default().parse(input.as_slice())?;
    let senders = m.from().map(|a| {
        a.iter().map(|x| x.address.as_ref().map(|s| s.as_bytes().to_vec())).collect()
    });
    let preview = m.body_preview(preview_len).map(|c| c.into_owned().into_bytes());
    Some((senders, preview))
}

/// One extracted message: the sender representation and the body preview.
pub struct InboundMessage {
    /// The first address part of the From header, as bytes.
    pub sender: Vec<u8>,
    /// At most `BODY_PREVIEW_LIMIT` bytes of decoded body, or the fixed
    /// placeholder when the body cannot be decoded.
    pub preview: Vec<u8>,
}

/// The input bytes, capped at `MAX_READ`.
pub open spec fn capped(b: Seq<u8>) -> Seq<u8> {
    if b.len() <= MAX_READ {
        b
    } else {
        b.take(MAX_READ as int)
    }
}

/// The first present entry of an address list, if any.
pub open spec fn first_some(ss: Seq<Option<Seq<u8>>>) -> Option<Seq<u8>>
    decreases ss.len(),
{
    if ss.len() == 0 {
        Option::None
    } else if ss[0] is Some {
        ss[0]
    } else {
        first_some(ss.drop_first())
    }
}

/// The fixed placeholder substituted for an undecodable body.
pub open spec fn placeholder() -> Seq<u8> {
    ("error: failed to parse body").spec_bytes()
}

/// A preview, capped at `BODY_PREVIEW_LIMIT` bytes.
pub open spec fn cap_preview(p: Seq<u8>) -> Seq<u8> {
    if p.len() <= BODY_PREVIEW_LIMIT {
        p
    } else {
        p.take(BODY_PREVIEW_LIMIT as int)
    }
}

/// The preview carried forward: the decoded body when there is one, the
/// placeholder otherwise, capped either way.
pub open spec fn preview_or_placeholder(c: Seq<u8>) -> Seq<u8> {
    match mail_preview(c, BODY_PREVIEW_LIMIT as int) {
        Option::Some(p) => cap_preview(p),
        Option::None => cap_preview(placeholder()),
    }
}

/// What extraction yields on given input bytes: the sender representation
/// and preview on success, the failing stage's error otherwise. Only the
/// first `MAX_READ` bytes of the input enter the outcome.
pub open spec fn spec_extract(input: Seq<u8>) -> Result<(Seq<u8>, Seq<u8>), RelayError> {
    let c = capped(input);
    if !mail_parses(c) {
        Result::Err(RelayError::ParseError)
    } else {
        match mail_senders(c) {
            Option::None => Result::Err(RelayError::NoSenderError),
            Option::Some(ss) => match first_some(ss) {
                Option::None => Result::Err(RelayError::NoSenderError),
                Option::Some(snd) => Result::Ok((snd, preview_or_placeholder(c))),
            },
        }
    }
}

/// Byte-for-byte copy.
pub(crate) fn copy_bytes(v: &Vec<u8>) -> (r: Vec<u8>)
    ensures
        r@ == v@,
{
    let mut out: Vec<u8> = Vec::new();
    let mut i: usize = 0;
    while i < v.len()
        invariant
            i <= v@.len(),
            out@ == v@.take(i as int),
        decreases v@.len() - i,
    {
        out.push(v[i]);
        proof {
            assert(out@ =~= v@.take(i + 1));
        }
        i = i + 1;
    }
    proof {
        assert(out@ =~= v@);
    }
    out
}

/// The input bytes, capped at `MAX_READ`.
pub fn cap_input(input: Vec<u8>) -> (r: Vec<u8>)
    ensures
        r@ == capped(input@),
{
    let ghost orig = input@;
    let mut v = input;
    if v.len() > MAX_READ {
        v.truncate(MAX_READ);
        proof {
            assert(v@ =~= capped(orig));
        }
    }
    v
}

/// Picks the first present entry of an address list.
fn first_some_addr(senders: &Vec<Option<Vec<u8>>>) -> (r: Option<Vec<u8>>)
    ensures
        (r is Some) == (first_some(senders_view(senders@)) is Some),
        r matches Some(v) ==> first_some(senders_view(senders@)) matches Some(s) && v@ == s,
{
    let ghost sv = senders_view(senders@);
    proof {
        assert(sv.skip(0) =~= sv);
    }
    let mut i: usize = 0;
    while i < senders.len()
        invariant
            i <= senders@.len(),
            sv == senders_view(senders@),
            sv.len() == senders@.len(),
            first_some(sv) == first_some(sv.skip(i as int)),
        decreases senders@.len() - i,
    {
        let cur: &Option<Vec<u8>> = &senders[i];
        proof {
            assert(sv.skip(i as int)[0] == sv[i as int]);
        }
        if cur.is_some() {
            let v = cur.as_ref().unwrap();
            return Some(copy_bytes(v));
        }
        proof {
            assert(sv.skip(i as int).drop_first() =~= sv.skip(i + 1));
        }
        i = i + 1;
    }
    proof {
        assert(sv.skip(i as int) =~= Seq::empty());
    }
    None
}

/// The fixed placeholder substituted for an undecodable body.
fn placeholder_vec() -> (r: Vec<u8>)
    ensures
        r@ == placeholder(),
{
    let s = "error: failed to parse body";
    s.as_bytes_vec()
}

/// A preview, capped at `BODY_PREVIEW_LIMIT` bytes.
fn cap_preview_exec(p: Vec<u8>) -> (r: Vec<u8>)
    ensures
        r@ == cap_preview(p@),
{
    let ghost orig = p@;
    let mut v = p;
    if v.len() > BODY_PREVIEW_LIMIT {
        v.truncate(BODY_PREVIEW_LIMIT);
        proof {
            assert(v@ =~= cap_preview(orig));
        }
    }
    v
}

/// Extracts a message from capped input bytes: parses them, picks the
/// sender representation, and produces the capped body preview (or the
/// placeholder when the body cannot be decoded). Fails with `ParseError`
/// when the bytes form no message and with `NoSenderError` when no sender
/// address is present.
pub fn extract_message(input: Vec<u8>) -> (r: Result<InboundMessage, RelayError>)
    ensures
        (r is Ok) == (spec_extract(input@) is Ok),
        r matches Ok(m) ==> spec_extract(input@) matches Ok(p) && m.sender@ == p.0
            && m.preview@ == p.1,
        r matches Err(e) ==> spec_extract(input@) matches Err(e2) && e == e2,
        r matches Ok(m) ==> m.preview@.len() <= BODY_PREVIEW_LIMIT,
{
    let ghost orig = input@;
    let data = cap_input(input);
    match parse_mail(&data, BODY_PREVIEW_LIMIT) {
        None => Err(RelayError::ParseError),
        Some(t) => {
            let (senders_opt, preview_opt) = t;
            match senders_opt {
                None => Err(RelayError::NoSenderError),
                Some(senders) => {
                    match first_some_addr(&senders) {
                        None => Err(RelayError::NoSenderError),
                        Some(sender) => {
                            let raw = match preview_opt {
                                Some(p) => p,
                                None => placeholder_vec(),
                            };
                            let preview = cap_preview_exec(raw);
                            Ok(InboundMessage { sender, preview })
                        },
                    }
                },
            }
        },
    }
}

/// Only the first `MAX_READ` bytes of the input determine the extraction
/// outcome: two inputs that agree on that prefix extract identically, so
/// bytes beyond the cap are never considered.
pub proof fn lemma_extraction_reads_prefix_only(b1: Seq<u8>, b2: Seq<u8>)
    requires
        b1.len() >= MAX_READ,
        b2.len() >= MAX_READ,
        b1.take(MAX_READ as int) == b2.take(MAX_READ as int),
    ensures
        spec_extract(b1) == spec_extract(b2),
{
    if b1.len() == MAX_READ {
        assert(capped(b1) =~= b1.take(MAX_READ as int));
    }
    if b2.len() == MAX_READ {
        assert(capped(b2) =~= b2.take(MAX_READ as int));
    }
}

} // verus!
