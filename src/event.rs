//! The canonical event, the policy that decides which events to announce, and
//! the rendering of an event's length.

use crate::text::{decimal, decimal_of, join, join_with, views_of};
use crate::time::{now_unix_seconds, whole_days, Timestamp};
use vstd::prelude::*;

verus! {

/// A number as JSON wrote it, carried through unread.
#[verifier::external_type_specification]
#[verifier::external_body]
pub struct ExJsonNumber(serde_json::Number);

/// The CTFtime site, base of every team and logo link.
pub const BASE_URL: &'static str = "https://ctftime.org";

/// Run configuration, read once at start and handed to every decision.
#[derive(Debug)]
pub struct Config {
    /// Incoming-webhook endpoint the announcement is posted to.
    pub webhook_url: String,
    /// How many whole days ahead an online event is announced.
    pub days_into_future: i64,
    /// Border color of Jeopardy and all non Attack-Defense events.
    pub color_jeopardy: String,
    /// Border color of Attack-Defense events.
    pub color_attack_defense: String,
    /// Icon the announcement is posted with.
    pub bot_icon: Option<String>,
    /// Series (`ctf_id`) that are always announced.
    pub always_show_ctfs: Vec<usize>,
    /// Channel to post in instead of the webhook's own.
    pub mattermost_channel: Option<String>,
}

/// Who may take part in an event.
#[derive(Clone, Copy, Debug, PartialEq, Eq, Structural)]
pub enum CtfRestrictions {
    Open,
    Prequalified,
    Academic,
    Invited,
    HighSchool,
}

/// What type of CTF, e.g. `AttackDefense`.
#[derive(Clone, Copy, Debug, PartialEq, Eq, Structural)]
pub enum CtfFormat {
    Jeopardy,
    AttackDefense,
    HackQuest,
    Unknown,
}

impl CtfFormat {
    /// The name shown for the format.
    pub open spec fn display_name(self) -> Seq<char> {
        match self {
            CtfFormat::Jeopardy => "Jeopardy"@,
            CtfFormat::AttackDefense => "Attack-Defense"@,
            CtfFormat::HackQuest => "Hack-Quest"@,
            CtfFormat::Unknown => "Unknown"@,
        }
    }

    /// The name shown for the format.
    pub fn to_string(&self) -> (r: &'static str)
        ensures
            r@ == self.display_name(),
    {
        match *self {
            CtfFormat::Jeopardy => "Jeopardy",
            CtfFormat::AttackDefense => "Attack-Defense",
            CtfFormat::HackQuest => "Hack-Quest",
            CtfFormat::Unknown => "Unknown",
        }
    }
}

/// A team on CTFtime.
#[derive(Clone, Debug)]
pub struct CtfTeam {
    pub id: usize,
    pub name: String,
}

/// A team as a markdown link to its CTFtime profile.
pub open spec fn team_link(t: CtfTeam) -> Seq<char> {
    "["@ + t.name@ + "]("@ + BASE_URL@ + "/team/"@ + decimal_of(t.id as nat) + ")"@
}

impl CtfTeam {
    /// The team as a markdown link to its CTFtime profile.
    pub fn to_string(&self) -> (r: String)
        ensures
            r@ == team_link(*self),
    {
        let mut r = String::from_str("[");
        r.append(self.name.as_str());
        r.append("](");
        r.append(BASE_URL);
        r.append("/team/");
        let id = decimal(self.id as u128);
        r.append(id.as_str());
        r.append(")");
        r
    }
}

/// One scheduled instance of a competition.
#[derive(Debug)]
pub struct CtfEvent {
    /// Title of this instance, e.g. "FAUST CTF 2017".
    pub title: String,
    /// The event's page on CTFtime.
    pub ctftime_url: String,
    /// Identifier of this instance.
    pub id: usize,
    /// Start.
    pub start_date: Timestamp,
    /// End.
    pub finish_date: Timestamp,
    /// URL of the logo.
    pub logo_url: Option<String>,
    /// The event's own page.
    pub url: Option<String>,
    /// Style of the competition.
    pub format: CtfFormat,
    /// Whether the public may vote on the final weight.
    pub public_votable: bool,
    /// Ranking weight of the event.
    pub weight: serde_json::Number,
    /// Link to a live feed.
    pub live_feed: Option<String>,
    /// Who may take part.
    pub restrictions: CtfRestrictions,
    /// Where an onsite event takes place.
    pub location: Option<String>,
    /// Whether the event needs physical presence.
    pub onsite: bool,
    /// Organizing teams, in the order the event lists them.
    pub organizers: Vec<CtfTeam>,
    /// Identifier of the series this instance belongs to.
    pub ctf_id: usize,
    /// Number of teams that want to take part.
    pub participants: usize,
}

/// One unit of a rendered duration, present only when the count is positive.
pub open spec fn unit_part(n: int, unit: Seq<char>) -> Seq<Seq<char>> {
    if n > 0 {
        seq![decimal_of(n as nat) + unit]
    } else {
        Seq::empty()
    }
}

/// The (days, hours, minutes, seconds) shown for `d > 0` seconds: days only
/// past 48 whole hours, then each unit greedily from what the larger units
/// left.
pub open spec fn duration_units(d: int) -> (int, int, int, int) {
    let days = if d / 3600 > 48 {
        d / 86400
    } else {
        0
    };
    let after_days = d - days * 86400;
    let hours = after_days / 3600;
    let after_hours = after_days - hours * 3600;
    let minutes = after_hours / 60;
    let seconds = after_hours - minutes * 60;
    (days, hours, minutes, seconds)
}

/// The rendered units of `d` seconds, largest first, zero units left out.
pub open spec fn duration_parts(d: int) -> Seq<Seq<char>> {
    if d <= 0 {
        Seq::empty()
    } else {
        let (days, hours, minutes, seconds) = duration_units(d);
        unit_part(days, " days"@) + unit_part(hours, " hours"@) + unit_part(minutes, " minutes"@)
            + unit_part(seconds, " seconds"@)
    }
}

/// The rendering of a duration of `d` seconds, e.g. "2 days 3 hours".
pub open spec fn duration_text(d: int) -> Seq<char> {
    join_with(duration_parts(d), " "@)
}

fn push_unit(parts: &mut Vec<String>, n: u128, unit: &str)
    ensures
        views_of(final(parts)@) == views_of(old(parts)@) + unit_part(n as int, unit@),
{
    if n > 0 {
        let mut s = decimal(n);
        s.append(unit);
        parts.push(s);
        assert(views_of(final(parts)@) =~= views_of(old(parts)@) + unit_part(n as int, unit@));
    } else {
        assert(views_of(final(parts)@) =~= views_of(old(parts)@) + unit_part(n as int, unit@));
    }
}

/// Renders a duration of `d` seconds with the largest units first: days
/// only past 48 hours, then hours, minutes and seconds, leaving out zero
/// units. A duration that is not positive renders empty.
pub fn format_duration(d: i128) -> (r: String)
    ensures
        r@ == duration_text(d as int),
{
    let mut parts: Vec<String> = Vec::new();
    if d > 0 {
        let total = d as u128;
        let days: u128 = if total / 3600 > 48 {
            total / 86400
        } else {
            0
        };
        let after_days = total - days * 86400;
        let hours = after_days / 3600;
        let after_hours = after_days - hours * 3600;
        let minutes = after_hours / 60;
        let seconds = after_hours - minutes * 60;
        push_unit(&mut parts, days, " days");
        push_unit(&mut parts, hours, " hours");
        push_unit(&mut parts, minutes, " minutes");
        push_unit(&mut parts, seconds, " seconds");
        assert(views_of(parts@) =~= duration_parts(d as int));
    } else {
        assert(views_of(parts@) =~= duration_parts(d as int));
    }
    join(&parts, " ")
}

/// Whether `v` holds `x`.
fn holds(v: &Vec<usize>, x: usize) -> (r: bool)
    ensures
        r == v@.contains(x),
{
    let mut i: usize = 0;
    while i < v.len()
        invariant
            0 <= i <= v.len(),
            forall|j: int| 0 <= j < i ==> v@[j] != x,
        decreases v.len() - i,
    {
        if v[i] == x {
            assert(v@[i as int] == x);
            return true;
        }
        i += 1;
    }
    false
}

impl CtfEvent {
    /// Whether the event is announced when the time is `now` (seconds since
    /// the epoch): always for a series listed in `always_show_ctfs`; else
    /// only an open or academic event that is not onsite and starts within
    /// `days_into_future` whole days (truncated toward zero), or has started.
    pub open spec fn shown_at(self, config: Config, now: int) -> bool {
        if config.always_show_ctfs@.contains(self.ctf_id) {
            true
        } else if self.restrictions != CtfRestrictions::Open && self.restrictions
            != CtfRestrictions::Academic {
            false
        } else {
            !self.onsite && whole_days(self.start_date.secs - now) <= config.days_into_future
        }
    }

    /// Whether the event is announced when the time is `now`.
    pub fn should_print_event_at(&self, config: &Config, now: &Timestamp) -> (r: bool)
        ensures
            r == self.shown_at(*config, now.secs as int),
    {
        if holds(&config.always_show_ctfs, self.ctf_id) {
            return true;
        }
        if self.restrictions != CtfRestrictions::Open && self.restrictions
            != CtfRestrictions::Academic {
            return false;
        }
        let days_into_future = self.start_date.days_since(now);
        !self.onsite && days_into_future <= config.days_into_future as i128
    }

    /// Whether the event is announced now.
    ///
    /// Reasons to leave it out are that it is too far in the future or that
    /// it cannot be played online.
    pub fn should_print_event(&self, config: &Config) -> (r: bool)
        ensures
            exists|now: i64| r == self.shown_at(*config, now as int),
            config.always_show_ctfs@.contains(self.ctf_id) ==> r,
            !config.always_show_ctfs@.contains(self.ctf_id) && self.restrictions
                != CtfRestrictions::Open && self.restrictions != CtfRestrictions::Academic ==> !r,
            !config.always_show_ctfs@.contains(self.ctf_id) && self.onsite ==> !r,
    {
        let now = Timestamp { secs: now_unix_seconds(), offset: 0 };
        self.should_print_event_at(config, &now)
    }
}

/// A duration that is not positive renders as the empty text.
pub proof fn lemma_empty_duration(d: int)
    requires
        d <= 0,
    ensures
        duration_text(d) == Seq::<char>::empty(),
{
}

/// A positive duration shows days exactly when it is longer than 48 whole
/// hours, and then they come first; otherwise it is rendered from hours,
/// minutes and seconds alone. Its units always add up to the whole duration.
pub proof fn lemma_duration_units(d: int)
    requires
        d > 0,
    ensures
        duration_units(d).0 > 0 <==> d / 3600 > 48,
        d / 3600 > 48 ==> duration_parts(d) == seq![decimal_of((d / 86400) as nat) + " days"@]
            + unit_part(duration_units(d).1, " hours"@) + unit_part(duration_units(d).2, " minutes"@)
            + unit_part(duration_units(d).3, " seconds"@),
        d / 3600 <= 48 ==> duration_parts(d) == unit_part(d / 3600, " hours"@) + unit_part(
            (d % 3600) / 60,
            " minutes"@,
        ) + unit_part(d % 60, " seconds"@),
        duration_units(d).0 * 86400 + duration_units(d).1 * 3600 + duration_units(d).2 * 60
            + duration_units(d).3 == d,
        0 <= duration_units(d).1 && 0 <= duration_units(d).2 < 60 && 0 <= duration_units(d).3 < 60,
        duration_units(d).0 > 0 ==> duration_units(d).1 < 24,
        duration_parts(d).len() > 0 && duration_parts(d)[0] == (if d / 3600 > 48 {
            decimal_of((d / 86400) as nat) + " days"@
        } else if d / 3600 > 0 {
            decimal_of((d / 3600) as nat) + " hours"@
        } else if d / 60 > 0 {
            decimal_of((d / 60) as nat) + " minutes"@
        } else {
            decimal_of(d as nat) + " seconds"@
        }),
{
}

/// Showing days is monotonic: a duration at least as long as one that shows
/// days shows days too.
pub proof fn lemma_days_monotonic(d1: int, d2: int)
    requires
        0 < d1 <= d2,
        duration_units(d1).0 > 0,
    ensures
        duration_units(d2).0 > 0,
{
    vstd::arithmetic::div_mod::lemma_div_is_ordered(d1, d2, 3600);
    vstd::arithmetic::div_mod::lemma_div_is_ordered(d1, d2, 86400);
}

/// An event of a series listed as always shown is announced, whatever else
/// holds of it.
pub proof fn lemma_always_shown(e: CtfEvent, config: Config, now: int)
    requires
        config.always_show_ctfs@.contains(e.ctf_id),
    ensures
        e.shown_at(config, now),
{
}

/// An event that is neither open nor academic is not announced, unless its
/// series is listed as always shown.
pub proof fn lemma_restricted_hidden(e: CtfEvent, config: Config, now: int)
    requires
        !config.always_show_ctfs@.contains(e.ctf_id),
        e.restrictions != CtfRestrictions::Open,
        e.restrictions != CtfRestrictions::Academic,
    ensures
        !e.shown_at(config, now),
{
}

/// An onsite event is not announced, unless its series is listed as always
/// shown.
pub proof fn lemma_onsite_hidden(e: CtfEvent, config: Config, now: int)
    requires
        !config.always_show_ctfs@.contains(e.ctf_id),
        e.onsite,
    ensures
        !e.shown_at(config, now),
{
}

/// An open online event starting exactly `days_into_future` whole days from
/// now is announced; one starting a day later is not.
pub proof fn lemma_lookahead_boundary(e: CtfEvent, config: Config, now: int)
    requires
        !config.always_show_ctfs@.contains(e.ctf_id),
        e.restrictions == CtfRestrictions::Open,
        !e.onsite,
    ensures
        e.start_date.secs == now + config.days_into_future * 86400 ==> e.shown_at(config, now),
        e.start_date.secs == now + (config.days_into_future + 1) * 86400 ==> !e.shown_at(
            config,
            now,
        ),
{
    let n = config.days_into_future as int;
    lemma_whole_days_of_multiple(n);
    lemma_whole_days_of_multiple(n + 1);
}

proof fn lemma_whole_days_of_multiple(n: int)
    ensures
        whole_days(n * 86400) == n,
{
    if n >= 0 {
        vstd::arithmetic::div_mod::lemma_div_by_multiple(n, 86400);
    } else {
        vstd::arithmetic::div_mod::lemma_div_by_multiple(-n, 86400);
        assert(-(n * 86400) == (-n) * 86400) by (nonlinear_arith);
    }
}

} // verus!
