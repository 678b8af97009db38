//! One weather lookup as a state machine.
//!
//! A lookup is a [`Session`]. The caller feeds [`get_weather`] one [`Event`] at
//! a time and does what the [`Action`] that comes back says: it performs the
//! request and reports its outcome as the next event, or it hands the final
//! result on. A fresh cached value ends the lookup at once; otherwise the
//! caller is placed first and the weather for that place is fetched second.
//! The first failure ends the lookup, and only a fetched weather is written to
//! the cache.

use vstd::prelude::*;
use crate::cache::{read_at, written, Captured, WeatherCache};
use crate::model::{GeoResult, NormalizedWeather, WeatherData, WeatherIpResponse, WeatherReport,
    WeatherResponse};
use crate::text::{join, result_view};
use crate::transport::{ApiError, TransportError};
use crate::upstream::{location_address, location_meaning, location_url, resolve_location,
    resolve_weather, weather_address, weather_meaning, weather_url, Stage};

verus! {

/// Name of the environment variable that configures the credential.
pub const API_KEY_VARIABLE: &'static str = "AMAP_API_KEY";

/// The credential used when none is configured. A credential that ships with
/// the code is shared by every installation; deployments should configure
/// their own.
pub open spec fn default_api_key() -> Seq<char> {
    "0a6aa5058bc030028221b8d5cbb94125"@
}

/// The credential to call the services with: the configured one, or the
/// built-in default where none is configured.
pub fn api_key(configured: Option<String>) -> (key: String)
    ensures
        key@ == match configured {
            Some(given) => given@,
            None => default_api_key(),
        },
{
    match configured {
        Some(given) => given,
        None => "0a6aa5058bc030028221b8d5cbb94125".to_owned(),
    }
}

/// How far a lookup has come.
#[derive(Clone, Copy, Debug, PartialEq, Eq, Structural)]
pub enum Phase {
    /// Nothing was asked yet.
    Idle,
    /// The location request is out.
    Locating,
    /// The weather request is out.
    Observing,
    /// The result was handed over.
    Finished,
}

/// Model of [`Session`].
pub struct SessionView {
    pub key: Seq<char>,
    pub phase: Phase,
}

/// Model of [`Event`].
pub enum EventView {
    Started { now: nat },
    Located(Result<GeoResult, TransportError>),
    Observed { reply: Result<WeatherReport, TransportError>, now: nat },
}

/// Model of [`Action`].
pub enum ActionView {
    Fetch { stage: Stage, url: Seq<char> },
    Finish(Result<NormalizedWeather, Seq<char>>),
    Ignore,
}

/// What one event does: the cache and the session after it, and what the
/// caller is to do next.
pub struct Transition {
    pub cache: Option<Captured>,
    pub session: SessionView,
    pub action: ActionView,
}

impl SessionView {
    /// The same lookup in another phase.
    pub open spec fn at(self, phase: Phase) -> SessionView {
        SessionView { key: self.key, phase }
    }
}

/// The transition function. An event that the phase does not wait for changes
/// nothing and is answered by [`ActionView::Ignore`].
pub open spec fn step(cache: Option<Captured>, session: SessionView, event: EventView)
    -> Transition {
    match (session.phase, event) {
        (Phase::Idle, EventView::Started { now }) => match read_at(cache, now as int) {
            Some(value) => Transition {
                cache,
                session: session.at(Phase::Finished),
                action: ActionView::Finish(Ok(value)),
            },
            None => Transition {
                cache,
                session: session.at(Phase::Locating),
                action: ActionView::Fetch {
                    stage: Stage::Location,
                    url: location_address(session.key),
                },
            },
        },
        (Phase::Locating, EventView::Located(reply)) => match location_meaning(reply) {
            Ok(geo) => Transition {
                cache,
                session: session.at(Phase::Observing),
                action: ActionView::Fetch {
                    stage: Stage::Weather,
                    url: weather_address(geo.adcode.unwrap(), session.key),
                },
            },
            Err(failure) => Transition {
                cache,
                session: session.at(Phase::Finished),
                action: ActionView::Finish(Err(failure.message(Stage::Location))),
            },
        },
        (Phase::Observing, EventView::Observed { reply, now }) => match weather_meaning(reply) {
            Ok(value) => Transition {
                cache: written(value, now),
                session: session.at(Phase::Finished),
                action: ActionView::Finish(Ok(value)),
            },
            Err(failure) => Transition {
                cache,
                session: session.at(Phase::Finished),
                action: ActionView::Finish(Err(failure.message(Stage::Weather))),
            },
        },
        _ => Transition { cache, session, action: ActionView::Ignore },
    }
}

/// One lookup in progress.
#[derive(Debug, PartialEq, Eq)]
pub struct Session {
    key: String,
    phase: Phase,
}

impl View for Session {
    type V = SessionView;

    closed spec fn view(&self) -> SessionView {
        SessionView { key: self.key@, phase: self.phase }
    }
}

impl Session {
    /// A lookup that has not started, to be made with the credential `key`.
    pub fn new(key: String) -> (session: Session)
        ensures
            session@ == (SessionView { key: key@, phase: Phase::Idle }),
    {
        Session { key, phase: Phase::Idle }
    }

    /// How far the lookup has come.
    pub fn phase(&self) -> (phase: Phase)
        ensures
            phase == self@.phase,
    {
        self.phase
    }
}

/// What happened since the last action.
#[derive(Debug, PartialEq, Eq)]
pub enum Event {
    /// The lookup is to begin; `now` is the clock reading.
    Started { now: u64 },
    /// The location request came to this.
    Located(Result<WeatherIpResponse, ApiError>),
    /// The weather request came to this; `now` is the clock reading.
    Observed { reply: Result<WeatherResponse, ApiError>, now: u64 },
}

impl View for Event {
    type V = EventView;

    open spec fn view(&self) -> EventView {
        match self {
            Event::Started { now } => EventView::Started { now: *now as nat },
            Event::Located(reply) => EventView::Located(result_view(*reply)),
            Event::Observed { reply, now } => EventView::Observed {
                reply: result_view(*reply),
                now: *now as nat,
            },
        }
    }
}

/// What the caller is to do next.
#[derive(Debug, PartialEq, Eq)]
pub enum Action {
    /// GET `url` once, decode the body as the reply of `stage`, and report the
    /// outcome: [`Event::Located`] for the location, [`Event::Observed`] for
    /// the weather.
    Fetch { stage: Stage, url: String },
    /// The lookup is over; this is its result.
    Finish(Result<WeatherData, String>),
    /// The event did not belong to the phase the lookup is in. Nothing changed.
    Ignore,
}

impl View for Action {
    type V = ActionView;

    open spec fn view(&self) -> ActionView {
        match self {
            Action::Fetch { stage, url } => ActionView::Fetch { stage: *stage, url: url@ },
            Action::Finish(result) => ActionView::Finish(result_view(*result)),
            Action::Ignore => ActionView::Ignore,
        }
    }
}

/// Advances a lookup by one event. The cache is read when the lookup starts
/// and written when the weather has been fetched; it is touched at no other
/// time.
pub fn get_weather(cache: &mut WeatherCache, session: Session, event: Event) -> (next: (
    Session,
    Action,
))
    ensures
        final(cache)@ == step(old(cache)@, session@, event@).cache,
        next.0@ == step(old(cache)@, session@, event@).session,
        next.1@ == step(old(cache)@, session@, event@).action,
{
    match (session.phase, event) {
        (Phase::Idle, Event::Started { now }) => {
            match cache.read(now) {
                Some(value) => (
                    Session { key: session.key, phase: Phase::Finished },
                    Action::Finish(Ok(value)),
                ),
                None => {
                    let url = location_url(session.key.as_str());
                    (
                        Session { key: session.key, phase: Phase::Locating },
                        Action::Fetch { stage: Stage::Location, url },
                    )
                },
            }
        },
        (Phase::Locating, Event::Located(reply)) => {
            match resolve_location(reply) {
                Ok(geo) => {
                    let adcode = geo.adcode.unwrap();
                    let url = weather_url(adcode.as_str(), session.key.as_str());
                    (
                        Session { key: session.key, phase: Phase::Observing },
                        Action::Fetch { stage: Stage::Weather, url },
                    )
                },
                Err(error) => (
                    Session { key: session.key, phase: Phase::Finished },
                    Action::Finish(Err(error.message(Stage::Location))),
                ),
            }
        },
        (Phase::Observing, Event::Observed { reply, now }) => {
            match resolve_weather(reply) {
                Ok(value) => {
                    cache.write(value.clone(), now);
                    (
                        Session { key: session.key, phase: Phase::Finished },
                        Action::Finish(Ok(value)),
                    )
                },
                Err(error) => (
                    Session { key: session.key, phase: Phase::Finished },
                    Action::Finish(Err(error.message(Stage::Weather))),
                ),
            }
        },
        (_, _) => (session, Action::Ignore),
    }
}

/// What a sequence of events comes to: the cache and the session after the
/// last of them, and the actions they were answered with, in order.
pub struct Trace {
    pub cache: Option<Captured>,
    pub session: SessionView,
    pub actions: Seq<ActionView>,
}

/// Feeds `events` to the transition function one after the other.
pub open spec fn run(cache: Option<Captured>, session: SessionView, events: Seq<EventView>)
    -> Trace
    decreases events.len(),
{
    if events.len() == 0 {
        Trace { cache, session, actions: Seq::empty() }
    } else {
        let first = step(cache, session, events[0]);
        let rest = run(first.cache, first.session, events.drop_first());
        Trace {
            cache: rest.cache,
            session: rest.session,
            actions: seq![first.action] + rest.actions,
        }
    }
}

/// Every event is answered by exactly one action.
pub proof fn lemma_run_answers_each_event(
    cache: Option<Captured>,
    session: SessionView,
    events: Seq<EventView>,
)
    ensures
        run(cache, session, events).actions.len() == events.len(),
    decreases events.len(),
{
    if events.len() > 0 {
        let first = step(cache, session, events[0]);
        lemma_run_answers_each_event(first.cache, first.session, events.drop_first());
    }
}

/// A step that ends the lookup in failure leaves the cache as it was, so a
/// read gives after it what it gave before.
pub proof fn lemma_failed_step_keeps_cache(
    cache: Option<Captured>,
    session: SessionView,
    event: EventView,
    now: int,
)
    requires
        step(cache, session, event).action matches ActionView::Finish(Err(_)),
    ensures
        step(cache, session, event).cache == cache,
        read_at(step(cache, session, event).cache, now) == read_at(cache, now),
{
}

/// The cache changes in one way only: the weather request succeeded, and the
/// weather it gave is what the lookup ends with and what the cache then holds.
pub proof fn lemma_cache_changes_only_on_fetched_weather(
    cache: Option<Captured>,
    session: SessionView,
    event: EventView,
)
    requires
        step(cache, session, event).cache != cache,
    ensures
        session.phase == Phase::Observing,
        event matches EventView::Observed { reply, now } && (weather_meaning(reply) matches Ok(
            value,
        ) && step(cache, session, event).cache == written(value, now) && step(
            cache,
            session,
            event,
        ).action == ActionView::Finish(Ok(value))),
{
}

/// Whatever the events, as long as none of them is answered by a successful
/// end of the lookup, the cache stays as it was, so a read gives after them
/// what it gave before.
pub proof fn lemma_failed_lookup_keeps_cache(
    cache: Option<Captured>,
    session: SessionView,
    events: Seq<EventView>,
    now: int,
)
    requires
        forall|i: int|
            0 <= i < events.len() ==> !(#[trigger] run(cache, session, events).actions[i]
                matches ActionView::Finish(Ok(_))),
    ensures
        run(cache, session, events).cache == cache,
        read_at(run(cache, session, events).cache, now) == read_at(cache, now),
    decreases events.len(),
{
    if events.len() > 0 {
        let first = step(cache, session, events[0]);
        let rest = events.drop_first();
        let whole = run(cache, session, events);
        lemma_run_answers_each_event(first.cache, first.session, rest);
        assert(whole.actions[0] == first.action);
        assert(first.cache == cache);
        assert forall|i: int| 0 <= i < rest.len() implies !(#[trigger] run(
            first.cache,
            first.session,
            rest,
        ).actions[i] matches ActionView::Finish(Ok(_))) by {
            assert(whole.actions[i + 1] == run(first.cache, first.session, rest).actions[i]);
        }
        lemma_failed_lookup_keeps_cache(first.cache, first.session, rest, now);
    }
}

/// A finished lookup ignores every event: nothing changes and nothing is asked
/// for.
pub proof fn lemma_finished_ignores_events(
    cache: Option<Captured>,
    session: SessionView,
    events: Seq<EventView>,
)
    requires
        session.phase == Phase::Finished,
    ensures
        run(cache, session, events).cache == cache,
        run(cache, session, events).session == session,
        run(cache, session, events).actions.len() == events.len(),
        forall|i: int|
            0 <= i < events.len() ==> #[trigger] run(cache, session, events).actions[i]
                == ActionView::Ignore,
    decreases events.len(),
{
    if events.len() > 0 {
        let rest = events.drop_first();
        lemma_finished_ignores_events(cache, session, rest);
        assert forall|i: int| 0 <= i < events.len() implies #[trigger] run(
            cache,
            session,
            events,
        ).actions[i] == ActionView::Ignore by {
            if i > 0 {
                assert(run(cache, session, events).actions[i] == run(cache, session, rest).actions[i
                    - 1]);
            }
        }
    }
}

/// A lookup that starts on a fresh cache ends at once with the cached value:
/// the cache stays as it was and no request is asked for, then or later.
pub proof fn lemma_fresh_cache_ends_lookup(
    cache: Option<Captured>,
    session: SessionView,
    now: nat,
    later: Seq<EventView>,
)
    requires
        session.phase == Phase::Idle,
        read_at(cache, now as int) is Some,
    ensures
        ({
            let hit = step(cache, session, EventView::Started { now });
            &&& hit.action == ActionView::Finish(Ok(read_at(cache, now as int)->0))
            &&& hit.cache == cache
            &&& run(hit.cache, hit.session, later).actions.len() == later.len()
            &&& forall|i: int|
                0 <= i < later.len() ==> #[trigger] run(hit.cache, hit.session, later).actions[i]
                    == ActionView::Ignore
        }),
{
    let hit = step(cache, session, EventView::Started { now });
    lemma_finished_ignores_events(hit.cache, hit.session, later);
}

/// The weather is asked for in one situation only: the lookup was waiting for
/// the location, and the location reply passed validation.
pub proof fn lemma_weather_fetched_only_after_location(
    cache: Option<Captured>,
    session: SessionView,
    event: EventView,
)
    requires
        step(cache, session, event).action matches ActionView::Fetch { stage: Stage::Weather, .. },
    ensures
        session.phase == Phase::Locating,
        event matches EventView::Located(reply) && location_meaning(reply) is Ok,
{
}

/// If the location step fails, the lookup ends there with that failure, and no
/// event after it makes the lookup ask for the weather, or for anything.
pub proof fn lemma_failed_location_ends_lookup(
    cache: Option<Captured>,
    session: SessionView,
    reply: Result<GeoResult, TransportError>,
    later: Seq<EventView>,
)
    requires
        session.phase == Phase::Locating,
        location_meaning(reply) is Err,
    ensures
        ({
            let failed = step(cache, session, EventView::Located(reply));
            &&& failed.action == ActionView::Finish(
                Err(location_meaning(reply)->Err_0.message(Stage::Location)),
            )
            &&& failed.cache == cache
            &&& run(failed.cache, failed.session, later).actions.len() == later.len()
            &&& forall|i: int|
                0 <= i < later.len() ==> #[trigger] run(
                    failed.cache,
                    failed.session,
                    later,
                ).actions[i] == ActionView::Ignore
        }),
{
    let failed = step(cache, session, EventView::Located(reply));
    lemma_finished_ignores_events(failed.cache, failed.session, later);
}

/// The result of a lookup as one line of text.
pub open spec fn weather_text(outcome: Result<NormalizedWeather, Seq<char>>) -> Seq<char> {
    match outcome {
        Ok(weather) => weather.province + " "@ + weather.city + " "@ + weather.weather + " "@
            + weather.temperature + "℃"@,
        Err(message) => "weather fetch failed: "@ + message,
    }
}

/// Puts the result of a lookup into one line: province, city, weather and
/// temperature in degrees Celsius, or the failure behind a fixed prefix. Every
/// result has a line.
pub fn get_weather_text(outcome: &Result<WeatherData, String>) -> (text: String)
    ensures
        text@ == weather_text(result_view(*outcome)),
{
    match outcome {
        Ok(data) => {
            let province = join(data.province.as_str(), " ");
            let city = join(province.as_str(), data.city.as_str());
            let spaced = join(city.as_str(), " ");
            let weather = join(spaced.as_str(), data.weather.as_str());
            let again = join(weather.as_str(), " ");
            let temperature = join(again.as_str(), data.temperature.as_str());
            join(temperature.as_str(), "℃")
        },
        Err(message) => join("weather fetch failed: ", message.as_str()),
    }
}

} // verus!
