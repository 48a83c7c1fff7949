//! Fixtures: what a fixture card on the matches page holds, the fixture made of it,
//! and the calendar of stored fixtures.
use icalendar::{Component, Event, EventLike};
use vstd::prelude::*;

use crate::constants::BASE_URL;
use crate::html::{select_attr, select_inner_html, select_outer_html, selected_attr, selected_inner_html, selected_outer_html};
use crate::models::fixture::{Fixture, FixtureDTO, FixtureDTOView, FixtureView};
use crate::text::{decimal, decimal_text, parse_i64, decimal_i64};
use crate::time::{spec_from_millis, timestamp_from_millis, utc_millis_in_range, utc_now, utc_timestamp_exists, Timestamp};

verus! {

/// What the markup of one fixture card holds, query by query.
pub struct FixtureCard {
    /// The card says that no match is scheduled (`div.matchInfoEmpty`).
    pub empty: bool,
    /// Inner markup of each `div.matchEventName`.
    pub names: Vec<String>,
    /// Inner markup of each `div.matchTeamName`.
    pub teams: Vec<String>,
    /// Inner markup of each `div.matchTime`.
    pub times: Vec<String>,
    /// The `data-unix` attribute of each `div.matchTime`.
    pub time_stamps: Vec<Option<String>>,
    /// How many `i.faded` stars the first `div.matchRating` holds, if there is one.
    pub faded_stars: Option<usize>,
    /// Inner markup of each `div.matchMeta`.
    pub metas: Vec<String>,
    /// The `href` attribute of each `a.match`.
    pub links: Vec<Option<String>>,
    /// The `href` attribute of each `a.matchAnalytics`.
    pub analytics: Vec<Option<String>>,
}

pub struct FixtureCardView {
    pub empty: bool,
    pub names: Seq<Seq<char>>,
    pub teams: Seq<Seq<char>>,
    pub times: Seq<Seq<char>>,
    pub time_stamps: Seq<Option<Seq<char>>>,
    pub faded_stars: Option<nat>,
    pub metas: Seq<Seq<char>>,
    pub links: Seq<Option<Seq<char>>>,
    pub analytics: Seq<Option<Seq<char>>>,
}

impl View for FixtureCard {
    type V = FixtureCardView;

    open spec fn view(&self) -> FixtureCardView {
        FixtureCardView {
            empty: self.empty,
            names: self.names.deep_view(),
            teams: self.teams.deep_view(),
            times: self.times.deep_view(),
            time_stamps: self.time_stamps.deep_view(),
            faded_stars: match self.faded_stars {
                Some(n) => Some(n as nat),
                None => None,
            },
            metas: self.metas.deep_view(),
            links: self.links.deep_view(),
            analytics: self.analytics.deep_view(),
        }
    }
}

/// What the fixture card with markup `html` holds.
pub open spec fn card_of(html: Seq<char>) -> FixtureCardView {
    let ratings = selected_outer_html(html, "div.matchRating"@);
    FixtureCardView {
        empty: selected_outer_html(html, "div.matchInfoEmpty"@).len() > 0,
        names: selected_inner_html(html, "div.matchEventName"@),
        teams: selected_inner_html(html, "div.matchTeamName"@),
        times: selected_inner_html(html, "div.matchTime"@),
        time_stamps: selected_attr(html, "div.matchTime"@, "data-unix"@),
        faded_stars: if ratings.len() > 0 {
            Some(selected_outer_html(ratings[0], "i.faded"@).len())
        } else {
            None
        },
        metas: selected_inner_html(html, "div.matchMeta"@),
        links: selected_attr(html, "a.match"@, "href"@),
        analytics: selected_attr(html, "a.matchAnalytics"@, "href"@),
    }
}

/// The team name numbered `k` (from zero) of a card, or "TBD" when the card names fewer
/// than `k + 1` teams.
pub open spec fn team_or_tbd(teams: Seq<Seq<char>>, k: int) -> Seq<char> {
    if teams.len() > k {
        teams[k]
    } else {
        "TBD"@
    }
}

impl FixtureCardView {
    /// The match is running now: its time reads "LIVE".
    pub open spec fn is_live(self) -> bool {
        self.times.len() > 0 && self.times[0] == "LIVE"@
    }

    /// The start time the card gives, in milliseconds since the epoch.
    pub open spec fn start_millis(self) -> Option<i64> {
        if self.time_stamps.len() > 0 && self.time_stamps[0] is Some {
            decimal_i64(self.time_stamps[0]->0)
        } else {
            None
        }
    }

    /// The card lacks something that a fixture cannot be made without: an event name,
    /// a time, a readable start time unless it is live, a rating of at most five faded
    /// stars, or (once a meta entry is there) the match link or the analytics link.
    pub open spec fn is_malformed(self) -> bool {
        !self.empty && (
            self.names.len() == 0
            || self.times.len() == 0
            || (!self.is_live() && (self.start_millis() is None || !utc_millis_in_range(self.start_millis()->0)))
            || self.faded_stars is None
            || self.faded_stars->0 > 5
            || (self.metas.len() > 0 && (self.links.len() == 0 || self.links[0] is None
                || (self.analytics.len() > 0 && self.analytics[0] is None)))
        )
    }
}

/// The fixture a well-formed card describes, with `now` as the start of a live match:
/// none for an empty card or one without meta or analytics entries.
pub open spec fn fixture_of(card: FixtureCardView, now: Timestamp) -> Option<FixtureDTOView> {
    if card.empty || card.metas.len() == 0 || card.analytics.len() == 0 {
        None
    } else {
        Some(FixtureDTOView {
            id: None,
            name: Some(card.names[0]),
            link: Some(card.links[0]->0),
            team1: Some(team_or_tbd(card.teams, 0)),
            team2: Some(team_or_tbd(card.teams, 1)),
            start_time: Some(if card.is_live() { now } else { spec_from_millis(card.start_millis()->0) }),
            rating: Some((5 - card.faded_stars->0) as i32),
            meta: Some(card.metas[0]),
            analytics: Some(card.analytics[0]->0),
            top_tier: Some(false),
            hash: None,
            created_at: None,
            updated_at: None,
        })
    }
}

fn clone_first_attr(v: &Vec<Option<String>>) -> (r: String)
    requires
        v.len() > 0,
        v[0] is Some,
    ensures
        r@ == v.deep_view()[0]->0,
{
    match &v[0] {
        Some(s) => s.clone(),
        None => String::new(),
    }
}

impl FixtureCard {
    /// Reads what the fixture card with markup `card_html` holds.
    pub fn read(card_html: &str) -> (r: FixtureCard)
        ensures
            r@ == card_of(card_html@),
    {
        let empty_markers = select_outer_html(card_html, "div.matchInfoEmpty");
        let ratings = select_outer_html(card_html, "div.matchRating");
        let faded_stars = if ratings.len() > 0 {
            Some(select_outer_html(ratings[0].as_str(), "i.faded").len())
        } else {
            None
        };
        let r = FixtureCard {
            empty: empty_markers.len() > 0,
            names: select_inner_html(card_html, "div.matchEventName"),
            teams: select_inner_html(card_html, "div.matchTeamName"),
            times: select_inner_html(card_html, "div.matchTime"),
            time_stamps: select_attr(card_html, "div.matchTime", "data-unix"),
            faded_stars: faded_stars,
            metas: select_inner_html(card_html, "div.matchMeta"),
            links: select_attr(card_html, "a.match", "href"),
            analytics: select_attr(card_html, "a.matchAnalytics", "href"),
        };
        assert(r@.faded_stars == card_of(card_html@).faded_stars);
        assert(r@.empty == card_of(card_html@).empty);
        r
    }

    /// Whether the match is running now.
    pub fn is_live(&self) -> (r: bool)
        ensures
            r == self@.is_live(),
    {
        if self.times.len() == 0 {
            return false;
        }
        let live = String::from_str("LIVE");
        self.times[0] == live
    }

    /// Whether the card lacks something that a fixture cannot be made without.
    pub fn is_malformed(&self) -> (r: bool)
        ensures
            r == self@.is_malformed(),
    {
        if self.empty {
            return false;
        }
        if self.names.len() == 0 || self.times.len() == 0 {
            return true;
        }
        if !self.is_live() {
            if self.time_stamps.len() == 0 {
                return true;
            }
            match &self.time_stamps[0] {
                None => {
                    return true;
                },
                Some(stamp) => match parse_i64(stamp.as_str()) {
                    None => {
                        return true;
                    },
                    Some(millis) => {
                        if timestamp_from_millis(millis).is_none() {
                            return true;
                        }
                    },
                },
            }
        }
        match self.faded_stars {
            None => {
                return true;
            },
            Some(faded) => {
                if faded > 5 {
                    return true;
                }
            },
        }
        if self.metas.len() > 0 {
            if self.links.len() == 0 || self.links[0].is_none() {
                return true;
            }
            if self.analytics.len() > 0 && self.analytics[0].is_none() {
                return true;
            }
        }
        false
    }
}

/// Makes the fixture that a well-formed card describes; `now` is the start of a live match.
pub fn assemble_fixture(card: &FixtureCard, now: Timestamp) -> (r: Option<FixtureDTO>)
    requires
        !card@.is_malformed(),
    ensures
        r.deep_view() == fixture_of(card@, now),
{
    if card.empty {
        return None;
    }
    let name = card.names[0].clone();
    let team1 = if card.teams.len() > 0 { card.teams[0].clone() } else { String::from_str("TBD") };
    let team2 = if card.teams.len() > 1 { card.teams[1].clone() } else { String::from_str("TBD") };
    let start_time = if card.is_live() {
        now
    } else {
        let stamp = card.time_stamps[0].as_ref().unwrap();
        let millis = parse_i64(stamp.as_str()).unwrap();
        timestamp_from_millis(millis).unwrap()
    };
    let faded = card.faded_stars.unwrap();
    let rating = (5 - faded) as i32;
    if card.metas.len() == 0 {
        return None;
    }
    let meta = card.metas[0].clone();
    let link = clone_first_attr(&card.links);
    if card.analytics.len() == 0 {
        return None;
    }
    let analytics = clone_first_attr(&card.analytics);
    let r = FixtureDTO {
        id: None,
        name: Some(name),
        link: Some(link),
        team1: Some(team1),
        team2: Some(team2),
        start_time: Some(start_time),
        rating: Some(rating),
        meta: Some(meta),
        analytics: Some(analytics),
        top_tier: Some(false),
        hash: None,
        created_at: None,
        updated_at: None,
    };
    assert(r.deep_view() == fixture_of(card@, now).unwrap());
    Some(r)
}

/// Makes the fixture that the card with markup `card_html` describes; a live match
/// starts at the time of the call.
pub fn build_fixture(card_html: &str) -> (r: Option<FixtureDTO>)
    requires
        !card_of(card_html@).is_malformed(),
    ensures
        exists|now: Timestamp| r.deep_view() == #[trigger] fixture_of(card_of(card_html@), now),
{
    let card = FixtureCard::read(card_html);
    let now = if card.is_live() { utc_now() } else { Timestamp { secs: 0, nanos: 0 } };
    assemble_fixture(&card, now)
}

/// Makes the fixture that the card with markup `card_html` describes, when the card is
/// well-formed (the outer option is absent otherwise); a live match starts at the time of
/// the call.
pub fn try_build_fixture(card_html: &str) -> (r: Option<Option<FixtureDTO>>)
    ensures
        r is None <==> card_of(card_html@).is_malformed(),
        r matches Some(f) ==> exists|now: Timestamp| f.deep_view() == #[trigger] fixture_of(card_of(card_html@), now),
{
    let card = FixtureCard::read(card_html);
    if card.is_malformed() {
        None
    } else {
        Some(build_fixture(card_html))
    }
}

/// The cards of a matches page: the upcoming matches.
pub open spec fn page_cards(page: Seq<char>) -> Seq<FixtureCardView> {
    selected_outer_html(page, "div.upcomingMatch"@).map_values(|h: Seq<char>| card_of(h))
}

/// The fixtures that `cards` describe, in order, skipping those that describe none;
/// `times[i]` is the start of card `i` if it is live.
pub open spec fn fixtures_of(cards: Seq<FixtureCardView>, times: Seq<Timestamp>) -> Seq<FixtureDTOView>
    decreases cards.len(),
{
    if cards.len() == 0 {
        Seq::empty()
    } else {
        let earlier = fixtures_of(cards.drop_last(), times.drop_last());
        match fixture_of(cards.last(), times.last()) {
            Some(f) => earlier.push(f),
            None => earlier,
        }
    }
}

/// The fixtures of a matches page, one per upcoming match that describes one; none
/// at all when some card is malformed.
pub fn fixtures_from_page(page_html: &str) -> (r: Option<Vec<FixtureDTO>>)
    ensures
        r is None <==> exists|i: int| 0 <= i < page_cards(page_html@).len() && #[trigger] page_cards(page_html@)[i].is_malformed(),
        r matches Some(v) ==> exists|times: Seq<Timestamp>|
            times.len() == page_cards(page_html@).len() && v.deep_view() == #[trigger] fixtures_of(page_cards(page_html@), times),
{
    let cards = select_outer_html(page_html, "div.upcomingMatch");
    let ghost all = page_cards(page_html@);
    let mut out: Vec<FixtureDTO> = Vec::new();
    let ghost mut times: Seq<Timestamp> = Seq::empty();
    for i in 0..cards.len()
        invariant
            all == page_cards(page_html@),
            all.len() == cards.len(),
            forall|k: int| 0 <= k < all.len() ==> all[k] == card_of(#[trigger] cards[k]@),
            times.len() == i,
            forall|k: int| 0 <= k < i ==> !(#[trigger] all[k]).is_malformed(),
            out.deep_view() == fixtures_of(all.take(i as int), times),
    {
        let card = FixtureCard::read(cards[i].as_str());
        if card.is_malformed() {
            assert(all[i as int].is_malformed());
            return None;
        }
        let now = if card.is_live() { utc_now() } else { Timestamp { secs: 0, nanos: 0 } };
        let made = assemble_fixture(&card, now);
        proof {
            let next = times.push(now);
            assert(all.take(i + 1).drop_last() =~= all.take(i as int));
            assert(next.drop_last() =~= times);
            times = next;
        }
        match made {
            Some(f) => {
                out.push(f);
            },
            None => {},
        }
        assert(out.deep_view() =~= fixtures_of(all.take(i + 1), times));
    }
    assert(all.take(cards.len() as int) =~= all);
    Some(out)
}

/// How a rating of `rating` out of five is drawn: five stars, the first `rating` of them filled.
pub open spec fn stars(rating: i32) -> Seq<char> {
    Seq::new(5, |k: int| if k >= rating { '\u{2606}' } else { '\u{2605}' })
}

/// Draws a rating as five stars.
pub fn rating_stars(rating: i32) -> (r: String)
    ensures
        r@ == stars(rating),
{
    proof {
        reveal_strlit("\u{2606}");
        reveal_strlit("\u{2605}");
        assert("\u{2606}"@ =~= seq!['\u{2606}']);
        assert("\u{2605}"@ =~= seq!['\u{2605}']);
    }
    let mut out = String::new();
    let mut cnt: i32 = 0;
    while cnt < 5
        invariant
            0 <= cnt <= 5,
            "\u{2606}"@ == seq!['\u{2606}'],
            "\u{2605}"@ == seq!['\u{2605}'],
            out@ == stars(rating).take(cnt as int),
        decreases 5 - cnt,
    {
        if cnt >= rating {
            out.append("\u{2606}");
        } else {
            out.append("\u{2605}");
        }
        assert(stars(rating).take(cnt + 1) =~= stars(rating).take(cnt as int).push(stars(rating)[cnt as int]));
        cnt = cnt + 1;
    }
    assert(stars(rating).take(5) =~= stars(rating));
    out
}

/// An entry of the fixtures calendar.
pub struct CalendarEvent {
    pub uid: String,
    pub summary: String,
    pub description: String,
    pub starts: Timestamp,
    pub ends: Timestamp,
}

pub struct CalendarEventView {
    pub uid: Seq<char>,
    pub summary: Seq<char>,
    pub description: Seq<char>,
    pub starts: Timestamp,
    pub ends: Timestamp,
}

impl View for CalendarEvent {
    type V = CalendarEventView;

    open spec fn view(&self) -> CalendarEventView {
        CalendarEventView {
            uid: self.uid@,
            summary: self.summary@,
            description: self.description@,
            starts: self.starts,
            ends: self.ends,
        }
    }
}

impl DeepView for CalendarEvent {
    type V = CalendarEventView;

    open spec fn deep_view(&self) -> CalendarEventView {
        self@
    }
}

/// How long a match is booked in the calendar, in seconds.
pub open spec fn match_duration() -> int {
    7200
}

/// The calendar entry of a stored fixture: identified by its hash, titled
/// "<event> - <team1> vs. <team2> (<meta>)", described by its rating, match link and
/// analytics link, lasting two hours from its start.
pub open spec fn event_of(f: FixtureView) -> CalendarEventView {
    CalendarEventView {
        uid: f.hash,
        summary: f.name + " - "@ + f.team1 + " vs. "@ + f.team2 + " ("@ + f.meta + ")"@,
        description: "rating: "@ + stars(f.rating) + " ("@ + decimal(f.rating as int) + "/5)\nlink: "@
            + BASE_URL@ + f.link + "\nanalytics: "@ + f.analytics + "\n"@,
        starts: f.start_time,
        ends: end_of_match(f.start_time),
    }
}

/// The end of a match that starts at `start`: two hours later, as chrono adds them to a
/// date-time. A start within a leap second (nanoseconds of a second or more) leaves the leap
/// second, so the end keeps only the nanoseconds past it.
pub open spec fn end_of_match(start: Timestamp) -> Timestamp {
    Timestamp {
        secs: (start.secs + match_duration()) as i64,
        nanos: if start.nanos >= 1_000_000_000 { (start.nanos - 1_000_000_000) as u32 } else { start.nanos },
    }
}

/// Makes the calendar entry of a stored fixture.
pub fn fixture_event(fix: &Fixture) -> (r: CalendarEvent)
    requires
        fix.start_time.secs + match_duration() <= i64::MAX,
    ensures
        r@ == event_of(fix@),
{
    let mut summary = fix.name.clone();
    summary.append(" - ");
    summary.append(fix.team1.as_str());
    summary.append(" vs. ");
    summary.append(fix.team2.as_str());
    summary.append(" (");
    summary.append(fix.meta.as_str());
    summary.append(")");
    let mut description = String::from_str("rating: ");
    let rating_text = rating_stars(fix.rating);
    description.append(rating_text.as_str());
    description.append(" (");
    let rating_number = decimal_text(fix.rating);
    description.append(rating_number.as_str());
    description.append("/5)\nlink: ");
    description.append(BASE_URL);
    description.append(fix.link.as_str());
    description.append("\nanalytics: ");
    description.append(fix.analytics.as_str());
    description.append("\n");
    CalendarEvent {
        uid: fix.hash.clone(),
        summary: summary,
        description: description,
        starts: fix.start_time,
        ends: Timestamp {
            secs: fix.start_time.secs + 7200,
            nanos: if fix.start_time.nanos >= 1_000_000_000 {
                fix.start_time.nanos - 1_000_000_000
            } else {
                fix.start_time.nanos
            },
        },
    }
}

/// The calendar entries of the stored fixtures, in order.
pub open spec fn calendar_events(fixtures: Seq<FixtureView>) -> Seq<CalendarEventView> {
    fixtures.map_values(|f: FixtureView| event_of(f))
}

/// Makes the calendar entries of the stored fixtures, in order.
pub fn fixture_events(fixtures: &Vec<Fixture>) -> (r: Vec<CalendarEvent>)
    requires
        forall|i: int| 0 <= i < fixtures.len() ==> #[trigger] fixtures[i].start_time.secs + match_duration() <= i64::MAX,
    ensures
        r.deep_view() == calendar_events(fixtures.deep_view()),
{
    let mut out: Vec<CalendarEvent> = Vec::new();
    for i in 0..fixtures.len()
        invariant
            forall|k: int| 0 <= k < fixtures.len() ==> #[trigger] fixtures[k].start_time.secs + match_duration() <= i64::MAX,
            out.deep_view() =~= fixtures.deep_view().take(i as int).map_values(|f: FixtureView| event_of(f)),
    {
        out.push(fixture_event(&fixtures[i]));
        assert(fixtures.deep_view().take(i + 1).map_values(|f: FixtureView| event_of(f))
            =~= fixtures.deep_view().take(i as int).map_values(|f: FixtureView| event_of(f)).push(event_of(fixtures[i as int]@)));
    }
    assert(fixtures.deep_view().take(fixtures.len() as int) =~= fixtures.deep_view());
    out
}

/// All start and end times of `events` are date-times that chrono has.
pub open spec fn times_exist(events: Seq<CalendarEventView>) -> bool {
    forall|i: int| 0 <= i < events.len() ==>
        utc_timestamp_exists((#[trigger] events[i]).starts.secs, events[i].starts.nanos)
        && utc_timestamp_exists(events[i].ends.secs, events[i].ends.nanos)
}

/// The iCalendar text that icalendar writes for `events`, in order, when the entry `i`
/// is stamped (its `DTSTAMP`) with the time `stamps[i]`.
pub uninterp spec fn ics_text(events: Seq<CalendarEventView>, stamps: Seq<Timestamp>) -> Seq<char>;

/// Calls icalendar's `Calendar::new`, `Event::new` with `uid`, `summary`, `description`,
/// `starts`, `ends` and `done`, `Calendar::push` and the calendar's `Display`, with chrono's
/// `DateTime::from_timestamp` for the times. Claimed: there is a text exactly when chrono has
/// every time, and it is then the calendar of exactly these entries (named above), each
/// stamped with some reading of the clock: icalendar writes `Utc::now()` as the `DTSTAMP` of
/// an entry that has none. Which readings is left open.
#[verifier::external_body]
fn render_calendar(events: &Vec<CalendarEvent>) -> (r: Option<String>)
    ensures
        r is Some <==> times_exist(events.deep_view()),
        r matches Some(text) ==> exists|stamps: Seq<Timestamp>|
            stamps.len() == events.len() && text@ == #[trigger] ics_text(events.deep_view(), stamps),
{
    let mut calendar = icalendar::Calendar::new();
    for e in events.iter() {
        let starts = chrono::DateTime::from_timestamp(e.starts.secs, e.starts.nanos)?.naive_utc();
        let ends = chrono::DateTime::from_timestamp(e.ends.secs, e.ends.nanos)?.naive_utc();
        calendar.push(Event::new().uid(&e.uid).summary(&e.summary).description(&e.description).starts(starts).ends(ends).done());
    }
    Some(calendar.to_string())
}

/// The iCalendar text of the stored fixtures, one entry each and in order (see
/// `fixture_events`), each stamped with a reading of the clock; none when a fixture starts
/// too late for its end to be written or a time is not a date-time.
pub fn fixture_calendar(fixtures: &Vec<Fixture>) -> (r: Option<String>)
    ensures
        r is Some <==> (forall|i: int| 0 <= i < fixtures.len() ==> #[trigger] fixtures[i].start_time.secs + match_duration() <= i64::MAX)
            && times_exist(calendar_events(fixtures.deep_view())),
        r matches Some(text) ==> exists|stamps: Seq<Timestamp>|
            stamps.len() == fixtures.len()
            && text@ == #[trigger] ics_text(calendar_events(fixtures.deep_view()), stamps),
{
    for i in 0..fixtures.len()
        invariant
            forall|k: int| 0 <= k < i ==> #[trigger] fixtures[k].start_time.secs + match_duration() <= i64::MAX,
    {
        if fixtures[i].start_time.secs > i64::MAX - 7200 {
            return None;
        }
    }
    let events = fixture_events(fixtures);
    let r = render_calendar(&events);
    proof {
        if r is Some {
            let stamps = choose|stamps: Seq<Timestamp>|
                stamps.len() == events.len() && r->0@ == #[trigger] ics_text(events.deep_view(), stamps);
            assert(events.deep_view() == calendar_events(fixtures.deep_view()));
            assert(events.deep_view().len() == events.len());
            assert(fixtures.deep_view().len() == fixtures.len());
            assert(stamps.len() == fixtures.len()
                && r->0@ == ics_text(calendar_events(fixtures.deep_view()), stamps));
        }
    }
    r
}

/// A fixture made of a card is rated from zero to five stars, is not marked top tier, and
/// has neither id nor hash yet.
pub proof fn lemma_card_fixture(card: FixtureCardView, now: Timestamp)
    requires
        !card.is_malformed(),
        fixture_of(card, now) is Some,
    ensures
        ({
            let f = fixture_of(card, now)->0;
            &&& 0 <= f.rating->0 <= 5
            &&& f.top_tier == Some(false)
            &&& f.id is None
            &&& f.hash is None
        }),
{
}

/// A matches page yields at most one fixture per card, each rated from zero to five stars
/// and not marked top tier.
pub proof fn lemma_page_fixtures(cards: Seq<FixtureCardView>, times: Seq<Timestamp>)
    requires
        times.len() == cards.len(),
        forall|i: int| 0 <= i < cards.len() ==> !(#[trigger] cards[i]).is_malformed(),
    ensures
        fixtures_of(cards, times).len() <= cards.len(),
        forall|i: int| 0 <= i < fixtures_of(cards, times).len() ==> {
            let f = #[trigger] fixtures_of(cards, times)[i];
            &&& f.rating matches Some(r) && 0 <= r <= 5
            &&& f.top_tier == Some(false)
        },
    decreases cards.len(),
{
    if cards.len() > 0 {
        let earlier = cards.drop_last();
        assert forall|i: int| 0 <= i < earlier.len() implies !(#[trigger] earlier[i]).is_malformed() by {
            assert(earlier[i] == cards[i]);
        }
        lemma_page_fixtures(earlier, times.drop_last());
        assert(!cards[cards.len() - 1].is_malformed());
        if fixture_of(cards.last(), times.last()) is Some {
            lemma_card_fixture(cards.last(), times.last());
        }
    }
}

/// Only a live match takes its start from the time of reading; any other fixture is the
/// same whenever it is read.
pub proof fn lemma_start_time_only_when_live(card: FixtureCardView, t1: Timestamp, t2: Timestamp)
    ensures
        !card.is_live() ==> fixture_of(card, t1) == fixture_of(card, t2),
        card.is_live() && fixture_of(card, t1) is Some ==> (fixture_of(card, t1)->0).start_time == Some(t1),
{
}

/// A rating is drawn as five stars, of which those before position `rating` are filled.
pub proof fn lemma_stars(rating: i32)
    ensures
        stars(rating).len() == 5,
        forall|k: int| 0 <= k < 5 ==> (#[trigger] stars(rating)[k] == '\u{2605}' <==> k < rating),
{
}

/// A calendar entry lasts two hours from the fixture's start (a start within a leap second
/// ends past it) and carries the fixture's hash.
pub proof fn lemma_event_span(f: FixtureView)
    requires
        f.start_time.secs + match_duration() <= i64::MAX,
    ensures
        event_of(f).ends.secs == event_of(f).starts.secs + 7200,
        f.start_time.nanos < 1_000_000_000 ==> event_of(f).ends.nanos == event_of(f).starts.nanos,
        f.start_time.nanos >= 1_000_000_000 ==> event_of(f).ends.nanos == event_of(f).starts.nanos - 1_000_000_000,
        event_of(f).starts == f.start_time,
        event_of(f).uid == f.hash,
{
}

} // verus!
