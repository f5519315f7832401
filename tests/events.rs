use ctftimebot::announce::announcement_at;
use ctftimebot::text::{decimal, join, same_text};
use ctftimebot::{
    decode_events, format_duration, string_empty_as_none, Config, CtfEvent, CtfFormat,
    CtfRestrictions, CtfTeam, DecodeError, RawEvent, Timestamp,
};

fn raw(title: &str, start: &str, finish: &str, format: &str, restrictions: &str) -> RawEvent {
    RawEvent {
        title: title.to_string(),
        ctftime_url: "https://ctftime.org/event/426/".to_string(),
        id: 426,
        start: start.to_string(),
        finish: finish.to_string(),
        logo: Some("https://ctftime.org/media/events/2016_ctftime.png".to_string()),
        url: Some("https://www.grehack.fr/".to_string()),
        format: format.to_string(),
        public_votable: false,
        weight: serde_json::Number::from_f64(0.0).unwrap(),
        live_feed: Some("".to_string()),
        restrictions: restrictions.to_string(),
        location: Some("Grenoble, France".to_string()),
        onsite: true,
        organizers: vec![CtfTeam { id: 1, name: "GreHack".to_string() }],
        ctf_id: 42,
        participants: 20,
    }
}

fn config() -> Config {
    Config {
        webhook_url: "https://example.org/hook".to_string(),
        days_into_future: 21,
        color_jeopardy: "#0099e1".to_string(),
        color_attack_defense: "#da5422".to_string(),
        bot_icon: None,
        always_show_ctfs: vec![7, 99],
        mattermost_channel: None,
    }
}

fn event_at(start_secs: i64, length: i64) -> CtfEvent {
    CtfEvent {
        title: "FAUST CTF 2017".to_string(),
        ctftime_url: "https://ctftime.org/event/440/".to_string(),
        id: 440,
        start_date: Timestamp { secs: start_secs, offset: 0 },
        finish_date: Timestamp { secs: start_secs + length, offset: 0 },
        logo_url: None,
        url: None,
        format: CtfFormat::Jeopardy,
        public_votable: true,
        weight: serde_json::Number::from(25u64),
        live_feed: None,
        restrictions: CtfRestrictions::Open,
        location: None,
        onsite: false,
        organizers: vec![],
        ctf_id: 1,
        participants: 3,
    }
}

const NOW: i64 = 1_500_000_000;
const DAY: i64 = 86400;

fn now() -> Timestamp {
    Timestamp { secs: NOW, offset: 0 }
}

#[test]
fn decodes_fixture_records() {
    let raws = vec![
        raw("FAUST CTF 2017", "2017-05-26T14:00:00+00:00", "2017-05-26T22:00:00+00:00", "Attack-Defense", "Open"),
        raw("Hack.lu CTF 2017", "2017-10-17T10:00:00+00:00", "2017-10-19T10:00:00+00:00", "Jeopardy", "Academic"),
        raw("GreHack CTF 2017", "2017-11-24T19:00:00+00:00", "2017-11-25T07:00:00+00:00", "Jeopardy", "Open"),
    ];
    let res = decode_events(raws).unwrap();
    assert_eq!(res.len(), 3);

    let event = res.iter().last().unwrap();
    assert_eq!(event.onsite, true);
    assert_eq!(event.weight.as_f64(), Some(0.0));
    assert_eq!(event.title, "GreHack CTF 2017");
    assert_eq!(event.url, Some("https://www.grehack.fr/".to_string()));
    assert_eq!(event.restrictions, CtfRestrictions::Open);
    assert_eq!(event.format, CtfFormat::Jeopardy);
    assert_eq!(event.participants, 20);
    assert_eq!(event.ctftime_url, "https://ctftime.org/event/426/");
    assert_eq!(event.location, Some("Grenoble, France".to_string()));
    assert_eq!(event.live_feed, None);
    assert_eq!(event.public_votable, false);
    assert_eq!(event.logo_url, Some("https://ctftime.org/media/events/2016_ctftime.png".to_string()));
    assert_eq!(event.id, 426);
    assert_eq!(event.ctf_id, 42);
    assert_eq!(event.start_date, Timestamp { secs: 1511550000, offset: 0 });
    assert_eq!(event.finish_date.secs - event.start_date.secs, 12 * 3600);
    assert_eq!(res[0].format, CtfFormat::AttackDefense);
    assert_eq!(res[1].restrictions, CtfRestrictions::Academic);
}

#[test]
fn decode_stops_at_first_bad_record() {
    let ok = raw("A", "2017-05-26T14:00:00+00:00", "2017-05-26T22:00:00+00:00", "", "High-school");
    let bad_format = raw("B", "2017-05-26T14:00:00+00:00", "2017-05-26T22:00:00+00:00", "Quiz", "Open");
    let bad_restr = raw("C", "2017-05-26T14:00:00+00:00", "2017-05-26T22:00:00+00:00", "Hack quest", "Nobody");
    assert_eq!(decode_events(vec![ok, bad_format, bad_restr]).unwrap_err(), DecodeError::UnknownFormat);
}

#[test]
fn decode_errors_name_the_field() {
    let bad_start = raw("A", "yesterday", "2017-05-26T22:00:00+00:00", "Jeopardy", "Open");
    assert_eq!(CtfEvent::from_raw(bad_start).unwrap_err(), DecodeError::BadStart);
    let bad_finish = raw("A", "2017-05-26T14:00:00+00:00", "20170526T220000", "Jeopardy", "Open");
    assert_eq!(CtfEvent::from_raw(bad_finish).unwrap_err(), DecodeError::BadFinish);
    let bad_format = raw("A", "2017-05-26T14:00:00+00:00", "2017-05-26T22:00:00+00:00", "jeopardy", "Open");
    assert_eq!(CtfEvent::from_raw(bad_format).unwrap_err(), DecodeError::UnknownFormat);
    let bad_restr = raw("A", "2017-05-26T14:00:00+00:00", "2017-05-26T22:00:00+00:00", "Jeopardy", "HighSchool");
    assert_eq!(CtfEvent::from_raw(bad_restr).unwrap_err(), DecodeError::UnknownRestrictions);
}

#[test]
fn decode_of_empty_feed_is_empty() {
    assert_eq!(decode_events(vec![]).unwrap().len(), 0);
}

#[test]
fn format_and_restriction_literals() {
    assert_eq!(CtfFormat::from_api("Jeopardy"), Some(CtfFormat::Jeopardy));
    assert_eq!(CtfFormat::from_api("Attack-Defense"), Some(CtfFormat::AttackDefense));
    assert_eq!(CtfFormat::from_api("Hack quest"), Some(CtfFormat::HackQuest));
    assert_eq!(CtfFormat::from_api(""), Some(CtfFormat::Unknown));
    assert_eq!(CtfFormat::from_api("Hack-Quest"), None);
    assert_eq!(CtfRestrictions::from_api("Open"), Some(CtfRestrictions::Open));
    assert_eq!(CtfRestrictions::from_api("Prequalified"), Some(CtfRestrictions::Prequalified));
    assert_eq!(CtfRestrictions::from_api("Academic"), Some(CtfRestrictions::Academic));
    assert_eq!(CtfRestrictions::from_api("Invited"), Some(CtfRestrictions::Invited));
    assert_eq!(CtfRestrictions::from_api("High-school"), Some(CtfRestrictions::HighSchool));
    assert_eq!(CtfRestrictions::from_api("open"), None);
    assert_eq!(CtfFormat::AttackDefense.to_string(), "Attack-Defense");
    assert_eq!(CtfFormat::HackQuest.to_string(), "Hack-Quest");
    assert_eq!(CtfFormat::Unknown.to_string(), "Unknown");
}

#[test]
fn empty_text_is_absent() {
    assert_eq!(string_empty_as_none(Some("".to_string())), None);
    assert_eq!(string_empty_as_none(None), None);
    assert_eq!(string_empty_as_none(Some(" ".to_string())), Some(" ".to_string()));
}

#[test]
fn rfc3339_keeps_offset_and_instant() {
    let t = Timestamp::parse_rfc3339("2017-11-24T19:00:00+01:00").unwrap();
    assert_eq!(t, Timestamp { secs: 1511546400, offset: 3600 });
    assert_eq!(Timestamp::parse_rfc3339("2017-11-24 19:00"), None);
    let later = Timestamp { secs: 1511546400 + 2 * DAY - 1, offset: 0 };
    assert_eq!(later.days_since(&t), 1);
    assert_eq!(t.days_since(&later), -1);
    assert_eq!(later.seconds_since(&t), 2 * DAY as i128 - 1);
}

#[test]
fn durations_render_greedily() {
    assert_eq!(format_duration(0), "");
    assert_eq!(format_duration(-3600), "");
    assert_eq!(format_duration(48 * 3600), "48 hours");
    assert_eq!(format_duration(49 * 3600), "2 days 1 hours");
    assert_eq!(format_duration(30 * 3600 + 61), "30 hours 1 minutes 1 seconds");
    assert_eq!(format_duration(3 * 86400 + 4 * 3600 + 5 * 60 + 6), "3 days 4 hours 5 minutes 6 seconds");
    assert_eq!(format_duration(59), "59 seconds");
    assert_eq!(format_duration(120), "2 minutes");
}

#[test]
fn always_shown_series_ignores_other_rules() {
    let mut e = event_at(NOW + 400 * DAY, 3600);
    e.ctf_id = 99;
    e.onsite = true;
    e.restrictions = CtfRestrictions::Invited;
    assert!(e.should_print_event_at(&config(), &now()));
    assert!(e.should_print_event(&config()));
}

#[test]
fn restricted_events_are_hidden() {
    for r in [CtfRestrictions::Prequalified, CtfRestrictions::Invited, CtfRestrictions::HighSchool] {
        let mut e = event_at(NOW + DAY, 3600);
        e.restrictions = r;
        assert!(!e.should_print_event_at(&config(), &now()));
        assert!(!e.should_print_event(&config()));
    }
    let mut e = event_at(NOW + DAY, 3600);
    e.restrictions = CtfRestrictions::Academic;
    assert!(e.should_print_event_at(&config(), &now()));
}

#[test]
fn lookahead_boundary_is_inclusive() {
    assert!(event_at(NOW + 21 * DAY, 3600).should_print_event_at(&config(), &now()));
    assert!(event_at(NOW + 22 * DAY - 1, 3600).should_print_event_at(&config(), &now()));
    assert!(!event_at(NOW + 22 * DAY, 3600).should_print_event_at(&config(), &now()));
}

#[test]
fn started_online_events_still_pass() {
    assert!(event_at(NOW - 3 * DAY, 10 * DAY).should_print_event_at(&config(), &now()));
}

#[test]
fn onsite_open_event_in_window_is_hidden() {
    let mut e = event_at(NOW + 2 * DAY, 3600);
    e.onsite = true;
    e.location = Some("Grenoble, France".to_string());
    assert!(!e.should_print_event_at(&config(), &now()));
}

#[test]
fn attack_defense_uses_its_color() {
    let mut e = event_at(NOW, 8 * 3600);
    e.format = CtfFormat::AttackDefense;
    let a = e.attachment_with_dates(&config(), "Friday, 2017-05-26 16:00", "2017-05-26 16:00:00");
    assert_eq!(a.color, Some("#da5422".to_string()));
    assert_eq!(a.title, Some("FAUST CTF 2017 — Attack-Defense".to_string()));
    let b = e.to_slack(&config());
    assert_eq!(b.color, Some("#da5422".to_string()));
    e.format = CtfFormat::HackQuest;
    assert_eq!(e.to_slack(&config()).color, Some("#0099e1".to_string()));
}

#[test]
fn attachment_text_is_exact() {
    let mut e = event_at(NOW, 49 * 3600);
    e.organizers = vec![
        CtfTeam { id: 555, name: "saarsec".to_string() },
        CtfTeam { id: 1, name: "FAUST".to_string() },
    ];
    e.url = Some("https://2017.faustctf.net".to_string());
    e.logo_url = Some("https://ctftime.org/media/events/faust.png".to_string());
    e.onsite = true;
    e.location = Some("Erlangen ".to_string());
    let a = e.attachment_with_dates(&config(), "Friday, 2017-05-26 16:00", "2017-05-26 16:00:00");
    assert_eq!(
        a.text.as_deref(),
        Some(
            "**Date:** Friday, 2017-05-26 16:00 for 2 days 1 hours\n\
             **Organizers:** [saarsec](https://ctftime.org/team/555), [FAUST](https://ctftime.org/team/1)\n\
             [https://2017.faustctf.net](https://2017.faustctf.net)\n\n\
             **Location:** Erlangen"
        )
    );
    assert_eq!(
        a.fallback,
        "FAUST CTF 2017 — Jeopardy\nDate: 2017-05-26 16:00:00 for 2 days 1 hours\nhttps://2017.faustctf.net"
    );
    assert_eq!(a.thumb_url, Some("https://ctftime.org/media/events/faust.png".to_string()));
    assert_eq!(a.color, Some("#0099e1".to_string()));
    assert!(a.title_link.is_none());
    assert!(a.fields.is_empty());
}

#[test]
fn attachment_notes_prequalification_and_falls_back_to_ctftime_link() {
    let mut e = event_at(NOW, 3600);
    e.restrictions = CtfRestrictions::Prequalified;
    e.location = Some("Nowhere".to_string());
    let a = e.attachment_with_dates(&config(), "D", "N");
    assert_eq!(
        a.text.as_deref(),
        Some(
            "**Date:** D for 1 hours\n**Organizers:** \n\
             [https://ctftime.org/event/440/](https://ctftime.org/event/440/)\n\n\
             Prequalified teams only"
        )
    );
    assert_eq!(a.fallback, "FAUST CTF 2017 — Jeopardy\nDate: N for 1 hours\nhttps://ctftime.org/event/440/");
    assert!(a.thumb_url.is_none());
}

#[test]
fn synthesis_is_deterministic() {
    let e = event_at(NOW, 3 * 3600);
    let a = e.to_slack(&config());
    let b = e.to_slack(&config());
    assert_eq!(a.text, b.text);
    assert_eq!(a.fallback, b.fallback);
    assert_eq!(a.title, b.title);
    assert_eq!(a.color, b.color);
    assert!(!a.text.as_deref().unwrap().ends_with('\n'));
}

#[test]
fn team_links_to_profile() {
    let t = CtfTeam { id: 1234, name: "dcua".to_string() };
    assert_eq!(t.to_string(), "[dcua](https://ctftime.org/team/1234)");
}

#[test]
fn text_helpers() {
    assert_eq!(decimal(0), "0");
    assert_eq!(decimal(1_000_007), "1000007");
    assert_eq!(join(&vec!["a".to_string(), "b".to_string(), "c".to_string()], ", "), "a, b, c");
    assert_eq!(join(&vec![], ", "), "");
    assert!(same_text("Open", "Open"));
    assert!(!same_text("Open", "Ope"));
    assert!(!same_text("Open", "open"));
}

#[test]
fn no_announcement_when_nothing_is_shown() {
    let mut far = event_at(NOW + 40 * DAY, 3600);
    far.title = "Far".to_string();
    let events = vec![far];
    assert!(announcement_at(&events, &config(), &now()).is_none());
    assert!(announcement_at(&vec![], &config(), &now()).is_none());
}

#[test]
fn announcement_keeps_order_and_overrides() {
    let mut first = event_at(NOW + DAY, 3600);
    first.title = "First".to_string();
    let mut hidden = event_at(NOW + DAY, 3600);
    hidden.onsite = true;
    let mut second = event_at(NOW + 2 * DAY, 3600);
    second.title = "Second".to_string();
    let mut c = config();
    c.mattermost_channel = Some("ctf".to_string());
    c.bot_icon = Some("https://example.org/icon.png".to_string());
    let m = announcement_at(&vec![first, hidden, second], &c, &now()).unwrap();
    assert_eq!(m.attachments.len(), 2);
    assert_eq!(m.attachments[0].title, Some("First — Jeopardy".to_string()));
    assert_eq!(m.attachments[1].title, Some("Second — Jeopardy".to_string()));
    assert_eq!(m.username, Some("Upcoming CTFs".to_string()));
    assert_eq!(m.text, Some("[Upcoming CTFs](https://ctftime.org/event/list/upcoming)".to_string()));
    assert_eq!(m.channel, Some("ctf".to_string()));
    assert_eq!(m.icon_url, Some("https://example.org/icon.png".to_string()));
    assert!(m.props.is_none());
}

#[test]
fn relaxed_rfc3339_is_read() {
    let t = Timestamp::parse_rfc3339("2017-11-24 19:00:00Z").unwrap();
    assert_eq!(t, Timestamp { secs: 1511550000, offset: 0 });
}

#[test]
fn to_slack_returns_at_end_of_range() {
    let last = Timestamp::parse_rfc3339("+262142-12-31T23:59:59Z").unwrap();
    let e = event_at(last.secs, 0);
    let a = e.to_slack(&config());
    assert_eq!(a.title, Some("FAUST CTF 2017 — Jeopardy".to_string()));
    let far = event_at(i64::MAX, 0);
    let b = far.to_slack(&config());
    assert!(b.fallback.starts_with("FAUST CTF 2017 — Jeopardy\nDate: "));
}
