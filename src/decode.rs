//! Decoding of the records of the CTFtime events API into canonical events.
//!
//! A record arrives with its fields already split out as plain values (text
//! where the API sends text); this module checks and converts them.

use crate::event::{CtfEvent, CtfFormat, CtfRestrictions, CtfTeam};
use crate::text::same_text;
use crate::time::{rfc3339_fields, Timestamp};
use vstd::prelude::*;

verus! {

/// One record of the events API, field by field as it was sent.
#[derive(Debug)]
pub struct RawEvent {
    pub title: String,
    pub ctftime_url: String,
    pub id: usize,
    /// Start, in RFC 3339.
    pub start: String,
    /// End, in RFC 3339.
    pub finish: String,
    /// `None` where the API sent `null`.
    pub logo: Option<String>,
    pub url: Option<String>,
    /// One of "Jeopardy", "Attack-Defense", "Hack quest" or "".
    pub format: String,
    pub public_votable: bool,
    pub weight: serde_json::Number,
    pub live_feed: Option<String>,
    /// One of "Open", "Prequalified", "Academic", "Invited", "High-school".
    pub restrictions: String,
    pub location: Option<String>,
    pub onsite: bool,
    pub organizers: Vec<CtfTeam>,
    pub ctf_id: usize,
    pub participants: usize,
}

/// Why a record does not make an event.
#[derive(Clone, Copy, Debug, PartialEq, Eq, Structural)]
pub enum DecodeError {
    /// The start is not an RFC 3339 date and time.
    BadStart,
    /// The end is not an RFC 3339 date and time.
    BadFinish,
    /// The format is none of the known names.
    UnknownFormat,
    /// The restrictions are none of the known names.
    UnknownRestrictions,
}

/// The format named by the API's text, if it is a known one; the empty text
/// names `Unknown`.
pub open spec fn api_format(s: Seq<char>) -> Option<CtfFormat> {
    if s == "Jeopardy"@ {
        Some(CtfFormat::Jeopardy)
    } else if s == "Attack-Defense"@ {
        Some(CtfFormat::AttackDefense)
    } else if s == "Hack quest"@ {
        Some(CtfFormat::HackQuest)
    } else if s == ""@ {
        Some(CtfFormat::Unknown)
    } else {
        None
    }
}

/// The restrictions named by the API's text, if it is a known one.
pub open spec fn api_restrictions(s: Seq<char>) -> Option<CtfRestrictions> {
    if s == "Open"@ {
        Some(CtfRestrictions::Open)
    } else if s == "Prequalified"@ {
        Some(CtfRestrictions::Prequalified)
    } else if s == "Academic"@ {
        Some(CtfRestrictions::Academic)
    } else if s == "Invited"@ {
        Some(CtfRestrictions::Invited)
    } else if s == "High-school"@ {
        Some(CtfRestrictions::HighSchool)
    } else {
        None
    }
}

/// An instant read from RFC 3339 text.
pub open spec fn rfc3339_timestamp(s: Seq<char>) -> Option<Timestamp> {
    match rfc3339_fields(s) {
        Some((secs, offset)) => Some(Timestamp { secs, offset }),
        None => None,
    }
}

/// An optional text with the empty text taken as absent.
pub open spec fn empty_as_none(value: Option<String>) -> Option<String> {
    match value {
        Some(s) => if s@.len() == 0 {
            None
        } else {
            Some(s)
        },
        None => None,
    }
}

/// The first field of `raw`, in the order the API sends them, that does not
/// decode.
pub open spec fn decode_error(raw: RawEvent) -> Option<DecodeError> {
    if rfc3339_timestamp(raw.start@) is None {
        Some(DecodeError::BadStart)
    } else if rfc3339_timestamp(raw.finish@) is None {
        Some(DecodeError::BadFinish)
    } else if api_format(raw.format@) is None {
        Some(DecodeError::UnknownFormat)
    } else if api_restrictions(raw.restrictions@) is None {
        Some(DecodeError::UnknownRestrictions)
    } else {
        None
    }
}

/// Whether `e` is the event that `raw` describes, given that it decodes.
pub open spec fn is_decoded(e: CtfEvent, raw: RawEvent) -> bool {
    &&& e.title == raw.title
    &&& e.ctftime_url == raw.ctftime_url
    &&& e.id == raw.id
    &&& Some(e.start_date) == rfc3339_timestamp(raw.start@)
    &&& Some(e.finish_date) == rfc3339_timestamp(raw.finish@)
    &&& e.logo_url == empty_as_none(raw.logo)
    &&& e.url == empty_as_none(raw.url)
    &&& Some(e.format) == api_format(raw.format@)
    &&& e.public_votable == raw.public_votable
    &&& e.weight == raw.weight
    &&& e.live_feed == empty_as_none(raw.live_feed)
    &&& Some(e.restrictions) == api_restrictions(raw.restrictions@)
    &&& e.location == empty_as_none(raw.location)
    &&& e.onsite == raw.onsite
    &&& e.organizers == raw.organizers
    &&& e.ctf_id == raw.ctf_id
    &&& e.participants == raw.participants
}

/// Whether the record at `i` is the first of `raws` that does not decode,
/// failing with `err`.
pub open spec fn first_failure(raws: Seq<RawEvent>, i: int, err: DecodeError) -> bool {
    &&& 0 <= i < raws.len()
    &&& decode_error(raws[i]) == Some(err)
    &&& forall|j: int| 0 <= j < i ==> decode_error(#[trigger] raws[j]) is None
}

/// Takes the empty text as absent.
pub fn string_empty_as_none(value: Option<String>) -> (r: Option<String>)
    ensures
        r == empty_as_none(value),
{
    match value {
        Some(s) => if s.as_str().is_empty() {
            None
        } else {
            Some(s)
        },
        None => None,
    }
}

impl CtfFormat {
    /// The format named by the API's text; `None` for an unknown name.
    pub fn from_api(s: &str) -> (r: Option<CtfFormat>)
        ensures
            r == api_format(s@),
    {
        if same_text(s, "Jeopardy") {
            Some(CtfFormat::Jeopardy)
        } else if same_text(s, "Attack-Defense") {
            Some(CtfFormat::AttackDefense)
        } else if same_text(s, "Hack quest") {
            Some(CtfFormat::HackQuest)
        } else if same_text(s, "") {
            Some(CtfFormat::Unknown)
        } else {
            None
        }
    }
}

impl CtfRestrictions {
    /// The restrictions named by the API's text; `None` for an unknown name.
    pub fn from_api(s: &str) -> (r: Option<CtfRestrictions>)
        ensures
            r == api_restrictions(s@),
    {
        if same_text(s, "Open") {
            Some(CtfRestrictions::Open)
        } else if same_text(s, "Prequalified") {
            Some(CtfRestrictions::Prequalified)
        } else if same_text(s, "Academic") {
            Some(CtfRestrictions::Academic)
        } else if same_text(s, "Invited") {
            Some(CtfRestrictions::Invited)
        } else if same_text(s, "High-school") {
            Some(CtfRestrictions::HighSchool)
        } else {
            None
        }
    }
}

impl CtfEvent {
    /// The event that an API record describes, or the first of its fields
    /// that does not decode.
    pub fn from_raw(raw: RawEvent) -> (r: Result<CtfEvent, DecodeError>)
        ensures
            match r {
                Ok(e) => decode_error(raw) is None && is_decoded(e, raw),
                Err(err) => decode_error(raw) == Some(err),
            },
    {
        let start_date = match Timestamp::parse_rfc3339(raw.start.as_str()) {
            Some(t) => t,
            None => {
                return Err(DecodeError::BadStart);
            },
        };
        let finish_date = match Timestamp::parse_rfc3339(raw.finish.as_str()) {
            Some(t) => t,
            None => {
                return Err(DecodeError::BadFinish);
            },
        };
        let format = match CtfFormat::from_api(raw.format.as_str()) {
            Some(f) => f,
            None => {
                return Err(DecodeError::UnknownFormat);
            },
        };
        let restrictions = match CtfRestrictions::from_api(raw.restrictions.as_str()) {
            Some(x) => x,
            None => {
                return Err(DecodeError::UnknownRestrictions);
            },
        };
        Ok(
            CtfEvent {
                title: raw.title,
                ctftime_url: raw.ctftime_url,
                id: raw.id,
                start_date,
                finish_date,
                logo_url: string_empty_as_none(raw.logo),
                url: string_empty_as_none(raw.url),
                format,
                public_votable: raw.public_votable,
                weight: raw.weight,
                live_feed: string_empty_as_none(raw.live_feed),
                restrictions,
                location: string_empty_as_none(raw.location),
                onsite: raw.onsite,
                organizers: raw.organizers,
                ctf_id: raw.ctf_id,
                participants: raw.participants,
            },
        )
    }
}

/// Decodes every record, in order, stopping at the first that does not
/// decode.
pub fn decode_events(raws: Vec<RawEvent>) -> (r: Result<Vec<CtfEvent>, DecodeError>)
    ensures
        r is Ok ==> r->Ok_0@.len() == raws@.len(),
        r is Ok ==> forall|i: int|
            0 <= i < raws@.len() ==> decode_error(#[trigger] raws@[i]) is None && is_decoded(
                r->Ok_0@[i],
                raws@[i],
            ),
        r is Err ==> exists|i: int| first_failure(raws@, i, r->Err_0),
{
    let ghost all = raws@;
    let mut rest = raws;
    let mut events: Vec<CtfEvent> = Vec::new();
    while rest.len() > 0
        invariant
            all == raws@,
            events@.len() + rest@.len() == all.len(),
            rest@ == all.subrange(events@.len() as int, all.len() as int),
            forall|i: int|
                0 <= i < events@.len() ==> decode_error(#[trigger] all[i]) is None && is_decoded(
                    events@[i],
                    all[i],
                ),
        decreases rest@.len(),
    {
        let ghost k = events@.len() as int;
        let raw = rest.remove(0);
        assert(raw == all[k]);
        match CtfEvent::from_raw(raw) {
            Ok(e) => {
                events.push(e);
                assert(rest@ =~= all.subrange(events@.len() as int, all.len() as int));
            },
            Err(err) => {
                let res: Result<Vec<CtfEvent>, DecodeError> = Err(err);
                assert(first_failure(raws@, k, res->Err_0));
                return res;
            },
        }
    }
    Ok(events)
}

} // verus!
