//! The webhook attachments that announce events, and the message that
//! carries them.

use crate::event::{
    duration_text, format_duration, team_link, Config, CtfEvent, CtfFormat, CtfRestrictions, CtfTeam,
};
use crate::mattermost_hook_api::{Attachment, Message};
use crate::text::{join, join_with, trim, trimmed, views_of};
use crate::time::{local_date_text, local_naive_text, now_unix_seconds, Timestamp};
use vstd::prelude::*;

verus! {

/// The organizers as markdown links, in their order, separated by ", ".
pub open spec fn organizers_text(teams: Seq<CtfTeam>) -> Seq<char> {
    join_with(teams.map_values(|t: CtfTeam| team_link(t)), ", "@)
}

/// Whether `a` announces `e` under `config`, with `date` and `naive` as the
/// texts of the start in the reader's time zone (with weekday, and plain).
pub open spec fn is_attachment_of(
    a: Attachment,
    e: CtfEvent,
    config: Config,
    date: Seq<char>,
    naive: Seq<char>,
) -> bool {
    &&& a.fallback@ == e.fallback_text(naive)
    &&& a.title is Some && a.title.unwrap()@ == e.title_line()
    &&& a.text is Some && a.text.unwrap()@ == trimmed(e.body_text(date))
    &&& a.color is Some && a.color.unwrap()@ == e.color_in(config)
    &&& (match e.logo_url {
        Some(l) => a.thumb_url is Some && a.thumb_url.unwrap()@ == l@,
        None => a.thumb_url is None,
    })
    &&& a.pretext is None
    &&& a.author_name is None
    &&& a.author_link is None
    &&& a.author_icon is None
    &&& a.title_link is None
    &&& a.fields@.len() == 0
    &&& a.image_url is None
    &&& a.footer is None
    &&& a.footer_icon is None
    &&& a.actions@.len() == 0
}

impl CtfEvent {
    /// The event's own page if it has one, else its CTFtime page.
    pub open spec fn link(self) -> Seq<char> {
        match self.url {
            Some(u) => u@,
            None => self.ctftime_url@,
        }
    }

    /// Title and format, as in "FAUST CTF 2017 — Attack-Defense".
    pub open spec fn title_line(self) -> Seq<char> {
        self.title@ + " — "@ + self.format.display_name()
    }

    /// The event's length, rendered.
    pub open spec fn length_text(self) -> Seq<char> {
        duration_text(self.finish_date.secs - self.start_date.secs)
    }

    /// Markdown body before trimming: date and length, organizers, link, then
    /// the location of an onsite event and a note on prequalification.
    pub open spec fn body_text(self, date: Seq<char>) -> Seq<char> {
        "**Date:** "@ + date + " for "@ + self.length_text() + "\n**Organizers:** "@
            + organizers_text(self.organizers@) + "\n["@ + self.link() + "]("@ + self.link()
            + ")\n\n"@ + (if self.onsite && self.location is Some {
            "**Location:** "@ + self.location.unwrap()@ + "\n"@
        } else {
            Seq::empty()
        }) + (if self.restrictions == CtfRestrictions::Prequalified {
            "Prequalified teams only\n"@
        } else {
            Seq::empty()
        })
    }

    /// Plain-text summary: title, start and length, link.
    pub open spec fn fallback_text(self, naive: Seq<char>) -> Seq<char> {
        self.title_line() + "\nDate: "@ + naive + " for "@ + self.length_text() + "\n"@
            + self.link()
    }

    /// The Attack-Defense color for Attack-Defense events, else the Jeopardy
    /// color.
    pub open spec fn color_in(self, config: Config) -> Seq<char> {
        if self.format == CtfFormat::AttackDefense {
            config.color_attack_defense@
        } else {
            config.color_jeopardy@
        }
    }

    fn organizers_line(&self) -> (r: String)
        ensures
            r@ == organizers_text(self.organizers@),
    {
        let ghost links = self.organizers@.map_values(|t: CtfTeam| team_link(t));
        let mut parts: Vec<String> = Vec::new();
        let mut i: usize = 0;
        while i < self.organizers.len()
            invariant
                0 <= i <= self.organizers.len(),
                links == self.organizers@.map_values(|t: CtfTeam| team_link(t)),
                parts@.len() == i,
                views_of(parts@) =~= links.take(i as int),
            decreases self.organizers.len() - i,
        {
            let s = self.organizers[i].to_string();
            assert(s@ == links[i as int]);
            let ghost before = parts@;
            parts.push(s);
            assert forall|j: int| 0 <= j < i + 1 implies views_of(parts@)[j] == links.take(
                i + 1,
            )[j] by {
                if j < i {
                    assert(parts@[j] == before[j]);
                    assert(views_of(before)[j] == links.take(i as int)[j]);
                }
            }
            assert(views_of(parts@) =~= links.take(i + 1));
            i += 1;
        }
        assert(links.take(self.organizers.len() as int) =~= links);
        join(&parts, ", ")
    }

    /// The attachment announcing the event, with `date` and `naive` as the
    /// texts of the start in the reader's time zone.
    pub fn attachment_with_dates(&self, config: &Config, date: &str, naive: &str) -> (r:
        Attachment)
        ensures
            is_attachment_of(r, *self, *config, date@, naive@),
    {
        let duration = format_duration(
            self.finish_date.seconds_since(&self.start_date),
        );
        let mut title = self.title.clone();
        title.append(" — ");
        title.append(self.format.to_string());
        let organizers = self.organizers_line();
        let url = match &self.url {
            Some(u) => u.as_str(),
            None => self.ctftime_url.as_str(),
        };

        let mut text = String::from_str("**Date:** ");
        text.append(date);
        text.append(" for ");
        text.append(duration.as_str());
        text.append("\n**Organizers:** ");
        text.append(organizers.as_str());
        text.append("\n[");
        text.append(url);
        text.append("](");
        text.append(url);
        text.append(")\n\n");
        if self.onsite {
            match &self.location {
                Some(location) => {
                    text.append("**Location:** ");
                    text.append(location.as_str());
                    text.append("\n");
                },
                None => {},
            }
        }
        if self.restrictions == CtfRestrictions::Prequalified {
            text.append("Prequalified teams only\n");
        }
        assert(text@ =~= self.body_text(date@));

        let mut fallback = title.clone();
        fallback.append("\nDate: ");
        fallback.append(naive);
        fallback.append(" for ");
        fallback.append(duration.as_str());
        fallback.append("\n");
        fallback.append(url);
        assert(fallback@ =~= self.fallback_text(naive@));

        let color = if self.format == CtfFormat::AttackDefense {
            config.color_attack_defense.clone()
        } else {
            config.color_jeopardy.clone()
        };
        let thumb_url = match &self.logo_url {
            Some(l) => Some(l.clone()),
            None => None,
        };
        let mut r = Attachment::default();
        r.fallback = fallback;
        r.title = Some(title);
        r.text = Some(trim(text.as_str()));
        r.color = Some(color);
        r.thumb_url = thumb_url;
        r
    }

    /// The attachment announcing the event, with its start in the machine's
    /// time zone.
    pub fn to_slack(&self, config: &Config) -> (r: Attachment)
        ensures
            exists|date: Seq<char>, naive: Seq<char>| is_attachment_of(r, *self, *config, date, naive),
    {
        let date = local_date_text(self.start_date.secs);
        let naive = local_naive_text(self.start_date.secs);
        let r = self.attachment_with_dates(config, date.as_str(), naive.as_str());
        assert(is_attachment_of(r, *self, *config, date@, naive@));
        r
    }
}

/// Whether `a` announces `e` under `config`, whatever the texts of the start.
pub open spec fn attaches(a: Attachment, e: CtfEvent, config: Config) -> bool {
    exists|date: Seq<char>, naive: Seq<char>| is_attachment_of(a, e, config, date, naive)
}

/// The events of `events` that are announced at `now`, in their order.
pub open spec fn shown_events(events: Seq<CtfEvent>, config: Config, now: int) -> Seq<CtfEvent>
    decreases events.len(),
{
    if events.len() == 0 {
        Seq::empty()
    } else {
        let before = shown_events(events.drop_last(), config, now);
        if events.last().shown_at(config, now) {
            before.push(events.last())
        } else {
            before
        }
    }
}

/// Whether `m` is the announcement of `shown`: one attachment per event, in
/// order, under a fixed user name and heading, with the configured channel
/// and icon.
pub open spec fn is_announcement_of(m: Message, shown: Seq<CtfEvent>, config: Config) -> bool {
    &&& m.attachments@.len() == shown.len()
    &&& forall|k: int|
        0 <= k < shown.len() ==> #[trigger] attaches(m.attachments@[k], shown[k], config)
    &&& m.username is Some && m.username.unwrap()@ == "Upcoming CTFs"@
    &&& m.text is Some && m.text.unwrap()@ == "[Upcoming CTFs](https://ctftime.org/event/list/upcoming)"@
    &&& m.channel == config.mattermost_channel
    &&& m.icon_url == config.bot_icon
    &&& m.icon_emoji is None
    &&& m.post_type is None
    &&& m.props is None
}

/// Whether `r` is what is posted for `events` at `now`: nothing when no event
/// is announced, else the announcement of those that are.
pub open spec fn is_outcome_at(r: Option<Message>, events: Seq<CtfEvent>, config: Config, now: int) -> bool {
    let shown = shown_events(events, config, now);
    &&& r is None <==> shown.len() == 0
    &&& r is Some ==> is_announcement_of(r.unwrap(), shown, config)
}

fn copy_text(s: &Option<String>) -> (r: Option<String>)
    ensures
        r == *s,
{
    match s {
        Some(t) => Some(t.clone()),
        None => None,
    }
}

/// The message announcing those of `events` that are shown at `now`, or
/// `None` when none is: then nothing is to be posted.
pub fn announcement_at(events: &Vec<CtfEvent>, config: &Config, now: &Timestamp) -> (r: Option<
    Message,
>)
    ensures
        is_outcome_at(r, events@, *config, now.secs as int),
{
    let ghost t = now.secs as int;
    let mut attachments: Vec<Attachment> = Vec::new();
    let mut i: usize = 0;
    while i < events.len()
        invariant
            0 <= i <= events.len(),
            t == now.secs as int,
            attachments@.len() == shown_events(events@.take(i as int), *config, t).len(),
            forall|k: int|
                0 <= k < attachments@.len() ==> #[trigger] attaches(
                    attachments@[k],
                    shown_events(events@.take(i as int), *config, t)[k],
                    *config,
                ),
        decreases events.len() - i,
    {
        let ghost before = shown_events(events@.take(i as int), *config, t);
        assert(events@.take(i + 1).drop_last() =~= events@.take(i as int));
        assert(events@.take(i + 1).last() == events@[i as int]);
        if events[i].should_print_event_at(config, now) {
            let a = events[i].to_slack(config);
            let ghost old_atts = attachments@;
            attachments.push(a);
            assert forall|k: int| 0 <= k < attachments@.len() implies #[trigger] attaches(
                attachments@[k],
                shown_events(events@.take(i + 1), *config, t)[k],
                *config,
            ) by {
                if k < old_atts.len() {
                    assert(attachments@[k] == old_atts[k]);
                    assert(attaches(old_atts[k], before[k], *config));
                }
            }
        }
        i += 1;
    }
    assert(events@.take(events.len() as int) =~= events@);
    if attachments.len() == 0 {
        return None;
    }
    let m = Message {
        text: Some(String::from_str("[Upcoming CTFs](https://ctftime.org/event/list/upcoming)")),
        channel: copy_text(&config.mattermost_channel),
        username: Some(String::from_str("Upcoming CTFs")),
        icon_url: copy_text(&config.bot_icon),
        icon_emoji: None,
        attachments,
        post_type: None,
        props: None,
    };
    Some(m)
}

/// The message announcing those of `events` that are shown now, or `None`
/// when none is. The time is read once, so every event is judged at the same
/// instant.
pub fn announcement(events: &Vec<CtfEvent>, config: &Config) -> (r: Option<Message>)
    ensures
        exists|now: i64| is_outcome_at(r, events@, *config, now as int),
{
    let now = Timestamp { secs: now_unix_seconds(), offset: 0 };
    announcement_at(events, config, &now)
}

/// Synthesis is deterministic: two attachments of the same event, under the
/// same configuration and with the same start texts, hold the same text in
/// every field.
pub proof fn lemma_synthesis_deterministic(
    a1: Attachment,
    a2: Attachment,
    e: CtfEvent,
    config: Config,
    date: Seq<char>,
    naive: Seq<char>,
)
    requires
        is_attachment_of(a1, e, config, date, naive),
        is_attachment_of(a2, e, config, date, naive),
    ensures
        a1.title is Some && a2.title is Some && a1.text is Some && a2.text is Some,
        a1.color is Some && a2.color is Some,
        a1.fallback@ == a2.fallback@,
        a1.title.unwrap()@ == a2.title.unwrap()@,
        a1.text.unwrap()@ == a2.text.unwrap()@,
        a1.color.unwrap()@ == a2.color.unwrap()@,
        a1.thumb_url is Some <==> a2.thumb_url is Some,
        a1.thumb_url is Some ==> a1.thumb_url.unwrap()@ == a2.thumb_url.unwrap()@,
{
}

/// An Attack-Defense event is announced in the Attack-Defense color, any
/// other in the Jeopardy color.
pub proof fn lemma_color_by_format(
    a: Attachment,
    e: CtfEvent,
    config: Config,
    date: Seq<char>,
    naive: Seq<char>,
)
    requires
        is_attachment_of(a, e, config, date, naive),
    ensures
        e.format == CtfFormat::AttackDefense ==> a.color.unwrap()@ == config.color_attack_defense@,
        e.format != CtfFormat::AttackDefense ==> a.color.unwrap()@ == config.color_jeopardy@,
{
}

} // verus!
