//! The run as a whole: which pilots to resolve, when to write the cache,
//! whose flights to fetch, and when to publish.
//!
//! The run itself sends nothing and writes nothing. It names the next thing
//! to do as an [`Action`]; whoever drives it does that and reports what
//! came of it as an [`Event`].

use crate::cache::{has_name, names_distinct, with_entry, Entries, PilotIdCache};
use crate::pilot::{error_message, flight_views, Flight, FlightView, PilotError, PilotErrorView};
use vstd::prelude::*;

verus! {

/// What a run is configured with.
#[derive(Clone, Debug, PartialEq, Eq)]
pub struct Config {
    /// The API key, handed to the site as it is.
    pub key: String,
    /// The link of the feed's channel.
    pub url: String,
    /// The usernames of the pilots.
    pub users: Vec<String>,
}

/// A `Config` with its texts as character sequences.
pub struct ConfigView {
    pub key: Seq<char>,
    pub url: Seq<char>,
    pub users: Seq<Seq<char>>,
}

impl View for Config {
    type V = ConfigView;

    open spec fn view(&self) -> ConfigView {
        ConfigView {
            key: self.key@,
            url: self.url@,
            users: Seq::new(self.users@.len(), |i: int| self.users@[i]@),
        }
    }
}

/// How far a run has come.
#[derive(Clone, Copy, Debug, PartialEq, Eq)]
pub enum Phase {
    /// Pilot ids are being resolved for the users the cache does not know.
    Resolving,
    /// The cache has grown and waits to be written.
    Saving,
    /// Flights are being fetched for every pilot in the cache.
    Fetching,
    /// The flights are all there and wait to be rendered.
    Publishing,
    /// Nothing is left to do.
    Finished,
}

/// What the driver of a run is to do next.
#[derive(Clone, Debug, PartialEq, Eq)]
pub enum Action {
    /// Resolve the pilot id of this user; report `Event::Resolved`.
    Resolve { user: String },
    /// Write the cache; report `Event::Saved`.
    SaveCache,
    /// Fetch the flights of this pilot; report `Event::Fetched`.
    Fetch { user: String, pilot_id: u64 },
    /// Render the flights and print the feed; report `Event::Published`.
    Publish,
    /// Stop: the run is over.
    Stop,
}

/// An `Action` with its texts as character sequences.
pub enum ActionView {
    Resolve { user: Seq<char> },
    SaveCache,
    Fetch { user: Seq<char>, pilot_id: u64 },
    Publish,
    Stop,
}

impl View for Action {
    type V = ActionView;

    open spec fn view(&self) -> ActionView {
        match *self {
            Action::Resolve { user } => ActionView::Resolve { user: user@ },
            Action::SaveCache => ActionView::SaveCache,
            Action::Fetch { user, pilot_id } => ActionView::Fetch { user: user@, pilot_id },
            Action::Publish => ActionView::Publish,
            Action::Stop => ActionView::Stop,
        }
    }
}

/// What came of an action.
#[derive(Debug, PartialEq)]
pub enum Event {
    /// The pilot id of the user asked for, or why there is none.
    Resolved(Result<u64, PilotError>),
    /// The cache was written.
    Saved,
    /// The flights of the pilot asked for, or why there are none.
    Fetched(Result<Vec<Flight>, PilotError>),
    /// The feed was printed.
    Published,
}

/// An `Event` with its contents as views.
pub enum EventView {
    Resolved(Result<u64, PilotErrorView>),
    Saved,
    Fetched(Result<Seq<FlightView>, PilotErrorView>),
    Published,
}

impl View for Event {
    type V = EventView;

    open spec fn view(&self) -> EventView {
        match *self {
            Event::Resolved(Ok(id)) => EventView::Resolved(Ok(id)),
            Event::Resolved(Err(error)) => EventView::Resolved(Err(error@)),
            Event::Saved => EventView::Saved,
            Event::Fetched(Ok(flights)) => EventView::Fetched(Ok(flight_views(flights@))),
            Event::Fetched(Err(error)) => EventView::Fetched(Err(error@)),
            Event::Published => EventView::Published,
        }
    }
}

/// The state of a run.
pub struct RunView {
    pub config: ConfigView,
    /// The cache's entries, oldest first.
    pub cache: Entries,
    /// Whether the cache has grown since the run began.
    pub cache_updated: bool,
    /// The flights fetched so far.
    pub flights: Seq<FlightView>,
    pub phase: Phase,
    /// While resolving, the index of the user in question; while fetching,
    /// that of the cache entry in question.
    pub cursor: int,
}

/// The index of the first user from `from` on whom the cache does not
/// know; the number of users where it knows them all.
pub open spec fn first_unknown(users: Seq<Seq<char>>, cache: Entries, from: int) -> int
    decreases users.len() - from,
{
    if from < 0 || from >= users.len() {
        users.len() as int
    } else if !has_name(cache, users[from]) {
        from
    } else {
        first_unknown(users, cache, from + 1)
    }
}

/// A run that is fetching, moved on to publishing if no entry is left.
pub open spec fn settled_fetching(run: RunView) -> RunView {
    if 0 <= run.cursor < run.cache.len() {
        run
    } else {
        RunView { phase: Phase::Publishing, cursor: 0, ..run }
    }
}

/// A run moved on to the next point at which something is to be done:
/// users whom the cache knows are passed over; when no user is left the
/// cache is written if it has grown, and only then; with no pilot to fetch
/// for, the feed is published.
pub open spec fn settled(run: RunView) -> RunView {
    match run.phase {
        Phase::Resolving => {
            let user = first_unknown(run.config.users, run.cache, run.cursor);
            if user < run.config.users.len() {
                RunView { cursor: user, ..run }
            } else if run.cache_updated {
                RunView { phase: Phase::Saving, cursor: 0, ..run }
            } else {
                settled_fetching(RunView { phase: Phase::Fetching, cursor: 0, ..run })
            }
        },
        Phase::Fetching => settled_fetching(run),
        _ => run,
    }
}

/// A run at its start.
pub open spec fn started(config: ConfigView, cache: Entries) -> RunView {
    settled(
        RunView {
            config,
            cache,
            cache_updated: false,
            flights: Seq::empty(),
            phase: Phase::Resolving,
            cursor: 0,
        },
    )
}

/// Whether a run stands at a point at which something is to be done, with
/// a cache that names no user twice.
pub open spec fn ready(run: RunView) -> bool {
    &&& names_distinct(run.cache)
    &&& match run.phase {
        Phase::Resolving => 0 <= run.cursor < run.config.users.len() && !has_name(
            run.cache,
            run.config.users[run.cursor],
        ),
        Phase::Saving => run.cache_updated,
        Phase::Fetching => 0 <= run.cursor < run.cache.len(),
        _ => true,
    }
}

/// What a run waits for.
pub open spec fn pending_of(run: RunView) -> ActionView {
    match run.phase {
        Phase::Resolving => ActionView::Resolve { user: run.config.users[run.cursor] },
        Phase::Saving => ActionView::SaveCache,
        Phase::Fetching => ActionView::Fetch {
            user: run.cache[run.cursor].0,
            pilot_id: run.cache[run.cursor].1,
        },
        Phase::Publishing => ActionView::Publish,
        Phase::Finished => ActionView::Stop,
    }
}

/// The run after an event. An event that does not answer what the run
/// waits for changes nothing. A failure to resolve or to fetch costs that
/// one pilot and no more.
pub open spec fn next(run: RunView, event: EventView) -> RunView {
    match (run.phase, event) {
        (Phase::Resolving, EventView::Resolved(Ok(id))) => settled(
            RunView {
                cache: with_entry(run.cache, run.config.users[run.cursor], id),
                cache_updated: true,
                cursor: run.cursor + 1,
                ..run
            },
        ),
        (Phase::Resolving, EventView::Resolved(Err(_))) => settled(
            RunView { cursor: run.cursor + 1, ..run },
        ),
        (Phase::Saving, EventView::Saved) => settled(
            RunView { phase: Phase::Fetching, cursor: 0, ..run },
        ),
        (Phase::Fetching, EventView::Fetched(Ok(flights))) => settled(
            RunView { flights: run.flights + flights, cursor: run.cursor + 1, ..run },
        ),
        (Phase::Fetching, EventView::Fetched(Err(_))) => settled(
            RunView { cursor: run.cursor + 1, ..run },
        ),
        (Phase::Publishing, EventView::Published) => RunView { phase: Phase::Finished, ..run },
        _ => run,
    }
}

/// The diagnostic that an event calls for: one line that names the user
/// and the error, for a pilot who could not be resolved or fetched.
pub open spec fn diagnostic_of(run: RunView, event: EventView) -> Option<Seq<char>> {
    match (run.phase, event) {
        (Phase::Resolving, EventView::Resolved(Err(error))) => Some(
            "Error fetching pilot ID for '"@ + run.config.users[run.cursor] + "': "@
                + error_message(error),
        ),
        (Phase::Fetching, EventView::Fetched(Err(error))) => Some(
            "Error fetching flights for user '"@ + run.cache[run.cursor].0 + "': "@
                + error_message(error),
        ),
        _ => None,
    }
}

/// The run after a series of events.
pub open spec fn run_after(run: RunView, events: Seq<EventView>) -> RunView
    decreases events.len(),
{
    if events.len() == 0 {
        run
    } else {
        next(run_after(run, events.drop_last()), events.last())
    }
}

/// Whether an event reports a pilot id that was resolved.
pub open spec fn resolves(event: EventView) -> bool {
    event matches EventView::Resolved(Ok(_))
}

/// Where `first_unknown` stops.
pub proof fn first_unknown_is_first(users: Seq<Seq<char>>, cache: Entries, from: int)
    requires
        0 <= from <= users.len(),
    ensures
        from <= first_unknown(users, cache, from) <= users.len(),
        forall|k: int|
            from <= k < first_unknown(users, cache, from) ==> has_name(cache, #[trigger] users[k]),
        first_unknown(users, cache, from) < users.len() ==> !has_name(
            cache,
            users[first_unknown(users, cache, from)],
        ),
    decreases users.len() - from,
{
    if from < users.len() && has_name(cache, users[from]) {
        first_unknown_is_first(users, cache, from + 1);
    }
}

/// A run that is settled stands ready, if its cache names no user twice
/// and it does not wait to write a cache that has not grown.
pub proof fn settled_is_ready(run: RunView)
    requires
        names_distinct(run.cache),
        run.phase is Saving ==> run.cache_updated,
        run.phase is Resolving ==> 0 <= run.cursor <= run.config.users.len(),
    ensures
        ready(settled(run)),
{
    if run.phase is Resolving {
        first_unknown_is_first(run.config.users, run.cache, run.cursor);
    }
}

/// Every event leaves a ready run ready.
pub proof fn next_keeps_ready(run: RunView, event: EventView)
    requires
        ready(run),
    ensures
        ready(next(run, event)),
{
    match (run.phase, event) {
        (Phase::Resolving, EventView::Resolved(Ok(id))) => {
            crate::cache::with_entry_keeps_names_distinct(
                run.cache,
                run.config.users[run.cursor],
                id,
            );
            settled_is_ready(
                RunView {
                    cache: with_entry(run.cache, run.config.users[run.cursor], id),
                    cache_updated: true,
                    cursor: run.cursor + 1,
                    ..run
                },
            );
        },
        (Phase::Resolving, EventView::Resolved(Err(_))) => {
            settled_is_ready(RunView { cursor: run.cursor + 1, ..run });
        },
        (Phase::Saving, EventView::Saved) => {
            settled_is_ready(RunView { phase: Phase::Fetching, cursor: 0, ..run });
        },
        (Phase::Fetching, EventView::Fetched(Ok(flights))) => {
            settled_is_ready(
                RunView { flights: run.flights + flights, cursor: run.cursor + 1, ..run },
            );
        },
        (Phase::Fetching, EventView::Fetched(Err(_))) => {
            settled_is_ready(RunView { cursor: run.cursor + 1, ..run });
        },
        _ => {},
    }
}

/// A run that begins with a cache that names no user twice stands ready
/// after every series of events.
pub proof fn run_stays_ready(config: ConfigView, cache: Entries, events: Seq<EventView>)
    requires
        names_distinct(cache),
    ensures
        ready(run_after(started(config, cache), events)),
    decreases events.len(),
{
    if events.len() == 0 {
        settled_is_ready(
            RunView {
                config,
                cache,
                cache_updated: false,
                flights: Seq::empty(),
                phase: Phase::Resolving,
                cursor: 0,
            },
        );
    } else {
        run_stays_ready(config, cache, events.drop_last());
        next_keeps_ready(run_after(started(config, cache), events.drop_last()), events.last());
    }
}

/// The cache is written only after a pilot id was resolved: in a run in
/// which no event reports a resolved id, the cache stays as it was at the
/// start, and the run never waits for it to be written.
pub proof fn cache_is_written_only_after_resolution(
    config: ConfigView,
    cache: Entries,
    events: Seq<EventView>,
)
    requires
        forall|i: int| 0 <= i < events.len() ==> !resolves(#[trigger] events[i]),
    ensures
        run_after(started(config, cache), events).cache == cache,
        !run_after(started(config, cache), events).cache_updated,
        !(pending_of(run_after(started(config, cache), events)) is SaveCache),
        !(run_after(started(config, cache), events).phase is Saving),
    decreases events.len(),
{
    if events.len() > 0 {
        cache_is_written_only_after_resolution(config, cache, events.drop_last());
    }
}

/// No pilot id is resolved for a user whom the cache knows: where the
/// cache holds every configured user at the start, the run never waits for
/// a pilot id to be resolved, whatever happens.
pub proof fn known_users_are_not_resolved(
    config: ConfigView,
    cache: Entries,
    events: Seq<EventView>,
)
    requires
        forall|i: int| 0 <= i < config.users.len() ==> has_name(cache, #[trigger] config.users[i]),
    ensures
        !(pending_of(run_after(started(config, cache), events)) is Resolve),
        !(run_after(started(config, cache), events).phase is Resolving),
    decreases events.len(),
{
    if events.len() == 0 {
        first_unknown_is_first(config.users, cache, 0);
    } else {
        known_users_are_not_resolved(config, cache, events.drop_last());
    }
}

/// The user whose pilot id a run waits for is one whom the cache does not
/// know.
pub proof fn resolved_users_are_unknown(run: RunView)
    requires
        ready(run),
        pending_of(run) is Resolve,
    ensures
        !has_name(run.cache, pending_of(run)->Resolve_user),
{
}

/// A run in progress.
#[derive(Debug)]
pub struct Run {
    config: Config,
    cache: PilotIdCache,
    cache_updated: bool,
    flights: Vec<Flight>,
    phase: Phase,
    cursor: usize,
}

impl View for Run {
    type V = RunView;

    closed spec fn view(&self) -> RunView {
        RunView {
            config: self.config@,
            cache: self.cache.entries(),
            cache_updated: self.cache_updated,
            flights: flight_views(self.flights@),
            phase: self.phase,
            cursor: self.cursor as int,
        }
    }
}

fn diagnostic(what: &str, user: &str, error: &PilotError) -> (line: String)
    ensures
        line@ == what@ + user@ + "': "@ + error_message(error@),
{
    let mut line = String::from_str(what);
    line.append(user);
    line.append("': ");
    line.append(error.message().as_str());
    line
}

impl Run {
    /// Whether the run stands at a point at which something is to be done.
    pub open spec fn well_formed(&self) -> bool {
        ready(self@)
    }

    /// Begins a run with what was configured and with the cache as it was
    /// read.
    pub fn new(config: Config, cache: PilotIdCache) -> (run: Run)
        requires
            cache.well_formed(),
        ensures
            run.well_formed(),
            run@ == started(config@, cache.entries()),
    {
        let mut run = Run {
            config,
            cache,
            cache_updated: false,
            flights: Vec::new(),
            phase: Phase::Resolving,
            cursor: 0,
        };
        assert(run@.flights =~= Seq::empty());
        run.settle();
        run
    }

    fn settle(&mut self)
        requires
            names_distinct(old(self)@.cache),
            old(self)@.phase is Saving ==> old(self)@.cache_updated,
            old(self)@.phase is Resolving ==> old(self)@.cursor <= old(self)@.config.users.len(),
        ensures
            final(self)@ == settled(old(self)@),
            ready(final(self)@),
    {
        proof {
            settled_is_ready(self@);
        }
        match self.phase {
            Phase::Resolving => {
                let ghost users = self@.config.users;
                let ghost cache = self@.cache;
                let mut user = self.cursor;
                while user < self.config.users.len() && self.cache.contains(
                    self.config.users[user].as_str(),
                )
                    invariant
                        user <= self.config.users@.len(),
                        users == self@.config.users,
                        cache == self@.cache,
                        first_unknown(users, cache, user as int) == first_unknown(
                            users,
                            cache,
                            self.cursor as int,
                        ),
                    decreases self.config.users@.len() - user,
                {
                    user += 1;
                }
                if user < self.config.users.len() {
                    self.cursor = user;
                } else if self.cache_updated {
                    self.phase = Phase::Saving;
                    self.cursor = 0;
                } else if self.cache.len() > 0 {
                    self.phase = Phase::Fetching;
                    self.cursor = 0;
                } else {
                    self.phase = Phase::Publishing;
                    self.cursor = 0;
                }
            },
            Phase::Fetching => {
                if self.cursor >= self.cache.len() {
                    self.phase = Phase::Publishing;
                    self.cursor = 0;
                }
            },
            _ => {},
        }
    }

    /// What the run waits for.
    pub fn pending(&self) -> (action: Action)
        requires
            self.well_formed(),
        ensures
            action@ == pending_of(self@),
    {
        match self.phase {
            Phase::Resolving => Action::Resolve { user: self.config.users[self.cursor].clone() },
            Phase::Saving => Action::SaveCache,
            Phase::Fetching => {
                let (user, pilot_id) = self.cache.entry(self.cursor);
                Action::Fetch { user: String::from_str(user), pilot_id }
            },
            Phase::Publishing => Action::Publish,
            Phase::Finished => Action::Stop,
        }
    }

    /// Takes in what came of the pending action and moves on. Returns the
    /// diagnostic to log, if the event calls for one.
    pub fn step(&mut self, event: Event) -> (diagnostic: Option<String>)
        requires
            old(self).well_formed(),
        ensures
            final(self).well_formed(),
            final(self)@ == next(old(self)@, event@),
            match diagnostic {
                Some(line) => diagnostic_of(old(self)@, event@) == Some(line@),
                None => diagnostic_of(old(self)@, event@) is None,
            },
    {
        proof {
            next_keeps_ready(self@, event@);
        }
        proof {
            assert(self.config.users.len() == self.config.users@.len());
            self.cache.entries_fit();
        }
        match self.phase {
            Phase::Resolving => match event {
                Event::Resolved(Ok(id)) => {
                    let user = self.config.users[self.cursor].clone();
                    self.cache.insert(user, id);
                    self.cache_updated = true;
                    self.cursor += 1;
                    self.settle();
                    None
                },
                Event::Resolved(Err(error)) => {
                    let line = diagnostic(
                        "Error fetching pilot ID for '",
                        self.config.users[self.cursor].as_str(),
                        &error,
                    );
                    self.cursor += 1;
                    self.settle();
                    Some(line)
                },
                _ => None,
            },
            Phase::Saving => match event {
                Event::Saved => {
                    self.phase = Phase::Fetching;
                    self.cursor = 0;
                    self.settle();
                    None
                },
                _ => None,
            },
            Phase::Fetching => match event {
                Event::Fetched(Ok(mut flights)) => {
                    let ghost before = self.flights@;
                    let ghost added = flights@;
                    self.flights.append(&mut flights);
                    assert(flight_views(before + added) =~= flight_views(before) + flight_views(
                        added,
                    ));
                    self.cursor += 1;
                    self.settle();
                    None
                },
                Event::Fetched(Err(error)) => {
                    let line = diagnostic(
                        "Error fetching flights for user '",
                        self.cache.entry(self.cursor).0,
                        &error,
                    );
                    self.cursor += 1;
                    self.settle();
                    Some(line)
                },
                _ => None,
            },
            Phase::Publishing => match event {
                Event::Published => {
                    self.phase = Phase::Finished;
                    None
                },
                _ => None,
            },
            Phase::Finished => None,
        }
    }

    /// What the run was configured with.
    pub fn config(&self) -> (config: &Config)
        ensures
            config@ == self@.config,
    {
        &self.config
    }

    /// The cache as it stands.
    pub fn cache(&self) -> (cache: &PilotIdCache)
        requires
            self.well_formed(),
        ensures
            cache.well_formed(),
            cache.entries() == self@.cache,
    {
        &self.cache
    }

    /// Whether the cache has grown since the run began.
    pub fn cache_updated(&self) -> (updated: bool)
        ensures
            updated == self@.cache_updated,
    {
        self.cache_updated
    }

    /// The flights fetched so far, in the order in which they came.
    pub fn flights(&self) -> (flights: &Vec<Flight>)
        ensures
            flight_views(flights@) == self@.flights,
    {
        &self.flights
    }
}

} // verus!
