//! From story records to what the cards show: the link's host and the age in words.

use vstd::prelude::*;
use vstd::string::*;
use crate::decimal::{decimal, push_decimal};
use crate::application::Event;
use crate::network::{successes, FetchError, Item};
use crate::story_object::{card_views, StoryData, StoryDataView};

verus! {

/// The earliest second, counted from 1970-01-01T00:00:00Z, that chrono's
/// calendar holds: the start of the year -262143.
pub const MIN_TIMESTAMP: i64 = -8_334_601_228_800;

/// The latest second that chrono's calendar holds: the end of the year 262142.
pub const MAX_TIMESTAMP: i64 = 8_210_266_876_799;

pub const SECONDS_PER_HOUR: u64 = 3_600;

pub const SECONDS_PER_DAY: u64 = 86_400;

pub const DAYS_PER_WEEK: u64 = 7;

/// A month is told as four weeks.
pub const WEEKS_PER_MONTH: u64 = 4;

/// A year is told as fifty-two weeks.
pub const WEEKS_PER_YEAR: u64 = 52;

/// The host that the `url` crate finds in a text: what `Url::host_str` gives for
/// the result of `Url::parse`, and `None` where the text does not parse as an
/// absolute URL or the URL has no host.
pub uninterp spec fn url_host(text: Seq<char>) -> Option<Seq<char>>;

/// Calls `url::Url::parse` on `text` and `Url::host_str` on what it returns.
/// Not proved: that the outcome is the one named [`url_host`], which claims only
/// that equal texts give equal outcomes.
#[verifier::external_body]
fn parse_host(text: &str) -> (host: Option<String>)
    ensures
        match host {
            Some(h) => url_host(text@) == Some(h@),
            None => url_host(text@).is_none(),
        },
{
    match url::Url::parse(text) {
        Ok(parsed) => match parsed.host_str() {
            Some(h) => Some(h.to_string()),
            None => None,
        },
        Err(_) => None,
    }
}

/// Whether `chrono::DateTime::from_timestamp(secs, 0)` gives a date. Not proved:
/// that chrono accepts exactly the seconds from [`MIN_TIMESTAMP`] to
/// [`MAX_TIMESTAMP`], the first second of its earliest day `NaiveDate::MIN` and
/// the last of its latest day `NaiveDate::MAX`.
#[verifier::external_body]
fn timestamp_in_range(secs: i64) -> (valid: bool)
    ensures
        valid == (MIN_TIMESTAMP <= secs <= MAX_TIMESTAMP),
{
    chrono::DateTime::from_timestamp(secs, 0).is_some()
}

/// The clock: `chrono::Utc::now`, as whole seconds since 1970. Nothing is claimed
/// of the value. chrono panics where the system clock stands before 1970.
#[verifier::external_body]
fn current_timestamp() -> (now: i64) {
    chrono::Utc::now().timestamp()
}

/// The host shown for a link: the host found in it, or nothing.
pub open spec fn host_text(url: Option<String>) -> Seq<char> {
    match url {
        Some(link) => match url_host(link@) {
            Some(host) => host,
            None => Seq::empty(),
        },
        None => Seq::empty(),
    }
}

/// The seconds from `then` to `now`, zero where `then` is not in the past.
pub open spec fn elapsed(now: i64, then: i64) -> nat {
    if now > then {
        (now - then) as nat
    } else {
        0
    }
}

/// `n / d` rounded to the nearest whole number, a half rounded up.
pub open spec fn rounded_quotient(n: nat, d: nat) -> nat
    recommends
        d > 0,
{
    (2 * n + d) / (2 * d)
}

/// An age of `secs` seconds in words. Hours, days and weeks are cut off; months
/// are weeks over four and years are weeks over fifty-two, both rounded.
pub open spec fn age_text(secs: nat) -> Seq<char> {
    let hours = secs / (SECONDS_PER_HOUR as nat);
    let days = secs / (SECONDS_PER_DAY as nat);
    let weeks = days / (DAYS_PER_WEEK as nat);
    if days < 1 {
        decimal(hours) + " hours ago"@
    } else if weeks < 1 {
        decimal(days) + " days ago"@
    } else if weeks < WEEKS_PER_MONTH {
        decimal(weeks) + " weeks ago"@
    } else if weeks < WEEKS_PER_YEAR {
        decimal(rounded_quotient(weeks, WEEKS_PER_MONTH as nat)) + " months ago"@
    } else {
        decimal(rounded_quotient(weeks, WEEKS_PER_YEAR as nat)) + " years ago"@
    }
}

/// The age shown for a creation time: a missing time counts as second zero, and
/// a time outside the calendar gives no text.
pub open spec fn age_of(time: Option<i64>, now: i64) -> Seq<char> {
    let then = match time {
        Some(t) => t,
        None => 0i64,
    };
    if MIN_TIMESTAMP <= then <= MAX_TIMESTAMP {
        age_text(elapsed(now, then))
    } else {
        Seq::empty()
    }
}

/// What a card shows of `item` at the second `now`.
pub open spec fn display_of(item: Item, now: i64) -> StoryDataView {
    StoryDataView {
        title: match item.title {
            Some(t) => t@,
            None => Seq::empty(),
        },
        host: host_text(item.url),
        score_count: match item.score {
            Some(s) => s as nat,
            None => 0,
        },
        comments_count: match item.descendants {
            Some(d) => d as nat,
            None => 0,
        },
        author: match item.by {
            Some(a) => a@,
            None => Seq::empty(),
        },
        age: age_of(item.time, now),
    }
}

/// What the cards show of a batch of records: one card each, in the same order.
pub open spec fn displays(items: Seq<Item>, now: i64) -> Seq<StoryDataView> {
    Seq::new(items.len(), |i: int| display_of(items[i], now))
}

/// The quotient that [`rounded_quotient`] gives is the whole number nearest to
/// `n / d`: the exact quotient lies at most a half below it and less than a half
/// above it.
pub proof fn lemma_rounded_quotient_nearest(n: nat, d: nat)
    requires
        d > 0,
    ensures
        2 * d * rounded_quotient(n, d) <= 2 * n + d,
        2 * n + d < 2 * d * (rounded_quotient(n, d) + 1),
{
    let q = rounded_quotient(n, d);
    vstd::arithmetic::div_mod::lemma_fundamental_div_mod((2 * n + d) as int, (2 * d) as int);
    vstd::arithmetic::div_mod::lemma_mod_bound((2 * n + d) as int, (2 * d) as int);
    assert(2 * d * (q + 1) == 2 * d * q + 2 * d) by (nonlinear_arith);
}

/// Rounds `n / d` to the nearest whole number, a half up.
fn round_div(n: u64, d: u64) -> (q: u64)
    requires
        0 < d <= WEEKS_PER_YEAR,
        n <= u64::MAX / 4,
    ensures
        q == rounded_quotient(n as nat, d as nat),
{
    (2 * n + d) / (2 * d)
}

/// The seconds from `then` to `now`, zero where `then` lies in the future.
pub fn elapsed_seconds(now: i64, then: i64) -> (secs: u64)
    ensures
        secs == elapsed(now, then),
{
    if now > then {
        let wide: i128 = now as i128 - then as i128;
        wide as u64
    } else {
        0
    }
}

/// Puts an age of `secs` seconds into words.
pub fn humanize_age(secs: u64) -> (text: String)
    ensures
        text@ == age_text(secs as nat),
{
    let hours: u64 = secs / SECONDS_PER_HOUR;
    let days: u64 = secs / SECONDS_PER_DAY;
    let weeks: u64 = days / DAYS_PER_WEEK;
    let mut text = String::new();
    if days < 1 {
        push_decimal(&mut text, hours);
        text.append(" hours ago");
    } else if weeks < 1 {
        push_decimal(&mut text, days);
        text.append(" days ago");
    } else if weeks < WEEKS_PER_MONTH {
        push_decimal(&mut text, weeks);
        text.append(" weeks ago");
    } else if weeks < WEEKS_PER_YEAR {
        push_decimal(&mut text, round_div(weeks, WEEKS_PER_MONTH));
        text.append(" months ago");
    } else {
        push_decimal(&mut text, round_div(weeks, WEEKS_PER_YEAR));
        text.append(" years ago");
    }
    text
}

/// The age shown for a creation time, at the second `now`.
pub fn story_age(time: Option<i64>, now: i64) -> (text: String)
    ensures
        text@ == age_of(time, now),
{
    let then: i64 = match time {
        Some(t) => t,
        None => 0,
    };
    if timestamp_in_range(then) {
        humanize_age(elapsed_seconds(now, then))
    } else {
        String::new()
    }
}

/// The host to show, given what the parser found.
pub fn host_or_empty(found: Option<String>) -> (host: String)
    ensures
        host@ == match found {
            Some(h) => h@,
            None => Seq::empty(),
        },
{
    match found {
        Some(h) => h,
        None => String::new(),
    }
}

/// The host shown for a story's link.
pub fn display_host(url: &Option<String>) -> (host: String)
    ensures
        host@ == host_text(*url),
{
    match url {
        Some(link) => host_or_empty(parse_host(link.as_str())),
        None => String::new(),
    }
}

/// Turns one record into what its card shows, at the second `now`.
pub fn story_card_data(item: Item, now: i64) -> (card: StoryData)
    ensures
        card@ == display_of(item, now),
{
    let host = display_host(&item.url);
    let age = story_age(item.time, now);
    let title = match item.title {
        Some(t) => t,
        None => String::new(),
    };
    let author = match item.by {
        Some(a) => a,
        None => String::new(),
    };
    let score_count: u32 = match item.score {
        Some(s) => s,
        None => 0,
    };
    let comments_count: u32 = match item.descendants {
        Some(d) => d,
        None => 0,
    };
    StoryData { title, host, score_count, comments_count, author, age }
}

/// Turns a batch of records into cards, at the second `now`: one card for each
/// record, in the order of the records.
pub fn stories_to_card_data_at(story_items: Vec<Item>, now: i64) -> (cards: Vec<StoryData>)
    ensures
        cards@.len() == story_items@.len(),
        forall|i: int| 0 <= i < cards@.len() ==> (#[trigger] cards@[i])@ == display_of(story_items@[i], now),
        card_views(cards@) == displays(story_items@, now),
{
    let mut cards: Vec<StoryData> = Vec::new();
    let ghost all = story_items@;
    for item in it: story_items
        invariant
            it.seq() == all,
            cards@.len() == it.index(),
            forall|i: int| 0 <= i < cards@.len() ==> (#[trigger] cards@[i])@ == display_of(all[i], now),
    {
        let card = story_card_data(item, now);
        cards.push(card);
    }
    cards
}

/// Turns a batch of records into cards as of the present moment, read from the
/// clock once for the whole batch.
pub fn stories_to_card_data_transform(story_items: Vec<Item>) -> (cards: Vec<StoryData>)
    ensures
        exists|now: i64| card_views(cards@) == displays(story_items@, now),
{
    let now: i64 = current_timestamp();
    stories_to_card_data_at(story_items, now)
}

/// Whether `event` is what a finished fetch means for the feed at the second
/// `now`. A failed fetch stays the failure it is; a fetch that brought no story
/// at all is a failure of its own, never an empty batch; anything else is the
/// batch of its cards.
pub open spec fn cycle_result(
    stories_result: Result<Vec<Item>, FetchError>,
    now: i64,
    event: Result<Event, FetchError>,
) -> bool {
    match stories_result {
        Err(error) => event == Err::<Event, FetchError>(error),
        Ok(items) => if items@.len() == 0 {
            event == Err::<Event, FetchError>(FetchError::NoStories)
        } else {
            match event {
                Ok(Event::SentStoryData(cards)) => card_views(cards@) == displays(items@, now),
                _ => false,
            }
        },
    }
}

/// Decides what a finished fetch hands to the feed, at the second `now`.
pub fn cards_event_at(stories_result: Result<Vec<Item>, FetchError>, now: i64) -> (event: Result<
    Event,
    FetchError,
>)
    ensures
        cycle_result(stories_result, now, event),
{
    match stories_result {
        Ok(items) => {
            if items.len() == 0 {
                Err(FetchError::NoStories)
            } else {
                Ok(Event::SentStoryData(stories_to_card_data_at(items, now)))
            }
        },
        Err(error) => Err(error),
    }
}

/// Decides what a finished fetch hands to the feed at the present moment, read
/// from the clock once.
pub fn cards_event(stories_result: Result<Vec<Item>, FetchError>) -> (event: Result<
    Event,
    FetchError,
>)
    ensures
        exists|now: i64| cycle_result(stories_result, now, event),
{
    let now: i64 = current_timestamp();
    let event = cards_event_at(stories_result, now);
    event
}

/// Where every detail request failed, the feed is handed the failure
/// [`FetchError::NoStories`] and no batch.
pub proof fn lemma_all_failed_no_batch(
    responses: Seq<Option<Item>>,
    stories: Vec<Item>,
    now: i64,
    event: Result<Event, FetchError>,
)
    requires
        forall|i: int| 0 <= i < responses.len() ==> responses[i] is None,
        stories@ == successes(responses),
        cycle_result(Ok(stories), now, event),
    ensures
        event == Err::<Event, FetchError>(FetchError::NoStories),
{
    crate::network::lemma_all_failed(responses);
}

/// Where at least one detail request brought a record, the feed is handed a
/// batch with one card for each record that came back.
pub proof fn lemma_some_succeeded_batch(
    responses: Seq<Option<Item>>,
    stories: Vec<Item>,
    now: i64,
    event: Result<Event, FetchError>,
)
    requires
        exists|i: int| 0 <= i < responses.len() && responses[i] is Some,
        stories@ == successes(responses),
        cycle_result(Ok(stories), now, event),
    ensures
        event is Ok,
        event->Ok_0 is SentStoryData,
        event->Ok_0->SentStoryData_0@.len() + crate::network::failures(responses) == responses.len(),
{
    crate::network::lemma_successes_and_failures(responses);
    crate::network::lemma_success_kept(
        responses,
        choose|i: int| 0 <= i < responses.len() && responses[i] is Some,
    );
    assert(card_views(event->Ok_0->SentStoryData_0@).len() == displays(stories@, now).len());
}

/// A record without a link shows no host.
pub proof fn lemma_no_link_no_host(item: Item, now: i64)
    requires
        item.url is None,
    ensures
        display_of(item, now).host == Seq::<char>::empty(),
{
}

/// A record whose link does not parse, or parses to an address without a host,
/// shows no host.
pub proof fn lemma_unparsable_link_no_host(item: Item, now: i64)
    requires
        item.url is Some,
        url_host(item.url->Some_0@) is None,
    ensures
        display_of(item, now).host == Seq::<char>::empty(),
{
}

/// A record whose link has a host shows exactly that host.
pub proof fn lemma_link_host_shown(item: Item, now: i64, host: Seq<char>)
    requires
        item.url is Some,
        url_host(item.url->Some_0@) == Some(host),
    ensures
        display_of(item, now).host == host,
{
}

/// A batch gives one card for each record, in the order of the records.
pub proof fn lemma_one_card_each(items: Seq<Item>, now: i64)
    ensures
        displays(items, now).len() == items.len(),
        forall|i: int| 0 <= i < items.len() ==> displays(items, now)[i] == display_of(items[i], now),
{
}

/// Which unit an age is told in, by its length in seconds: hours below a day,
/// days below a week, weeks below four weeks, months below fifty-two weeks,
/// years from there on.
pub proof fn lemma_age_units(secs: nat)
    ensures
        secs < 86_400 ==> age_text(secs) == decimal(secs / 3_600) + " hours ago"@,
        86_400 <= secs < 604_800 ==> age_text(secs) == decimal(secs / 86_400) + " days ago"@,
        604_800 <= secs < 2_419_200 ==> age_text(secs) == decimal(secs / 604_800) + " weeks ago"@,
        2_419_200 <= secs < 31_449_600 ==> age_text(secs) == decimal(
            rounded_quotient(secs / 604_800, 4),
        ) + " months ago"@,
        31_449_600 <= secs ==> age_text(secs) == decimal(rounded_quotient(secs / 604_800, 52))
            + " years ago"@,
{
    assert(secs / 86_400 / 7 == secs / 604_800) by {
        vstd::arithmetic::div_mod::lemma_div_denominator(secs as int, 86_400, 7);
    }
}

/// A creation time that is not in the past counts as no time gone by.
pub proof fn lemma_future_time_clamped(now: i64, then: i64)
    requires
        now <= then,
        MIN_TIMESTAMP <= then <= MAX_TIMESTAMP,
    ensures
        age_of(Some(then), now) == decimal(0) + " hours ago"@,
{
}

/// A missing creation time is taken for the start of 1970.
pub proof fn lemma_missing_time_is_epoch(now: i64)
    ensures
        age_of(None, now) == age_of(Some(0i64), now),
{
}

} // verus!
