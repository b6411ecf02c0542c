use serde_json::Number;
use xcontest_feed::cache::PilotIdCache;
use xcontest_feed::flight_rss::render;
use xcontest_feed::pilot::{flights_from_text, Flight, PilotError, Route};
use xcontest_feed::pipeline::{Action, Config, Event, Run};

fn config(users: &[&str]) -> Config {
    Config {
        key: "K".to_string(),
        url: "https://example.org".to_string(),
        users: users.iter().map(|u| u.to_string()).collect(),
    }
}

fn flight(id: u64, start_time: &str) -> Flight {
    Flight {
        id,
        duration: "PT1H30M".to_string(),
        start_time: start_time.to_string(),
        url: format!("https://x/{}", id),
        by: "Alice".to_string(),
        route: Route {
            route_type: "FAI".to_string(),
            distance: Number::from_f64(45.678).unwrap(),
            points: Number::from_f64(61.23).unwrap(),
        },
    }
}

fn cache_of(entries: &[(&str, u64)]) -> PilotIdCache {
    let mut cache = PilotIdCache::new();
    for (name, id) in entries {
        cache.insert(name.to_string(), *id);
    }
    cache
}

struct Outcome {
    actions: Vec<Action>,
    diagnostics: Vec<String>,
    written: Vec<String>,
    feed: Option<String>,
    run: Run,
}

fn drive(
    config: Config,
    cache: PilotIdCache,
    resolve: &dyn Fn(&str) -> Result<u64, PilotError>,
    fetch: &dyn Fn(u64) -> Result<Vec<Flight>, PilotError>,
) -> Outcome {
    let mut run = Run::new(config, cache);
    let mut actions = vec![];
    let mut diagnostics = vec![];
    let mut written = vec![];
    let mut feed = None;
    loop {
        let action = run.pending();
        actions.push(action.clone());
        let event = match action {
            Action::Resolve { user } => Event::Resolved(resolve(&user)),
            Action::SaveCache => {
                written.push(run.cache().to_yaml().unwrap());
                Event::Saved
            }
            Action::Fetch { pilot_id, .. } => Event::Fetched(fetch(pilot_id)),
            Action::Publish => {
                feed = Some(render(run.flights(), &run.config().url, "now"));
                Event::Published
            }
            Action::Stop => break,
        };
        if let Some(line) = run.step(event) {
            diagnostics.push(line);
        }
    }
    Outcome { actions, diagnostics, written, feed, run }
}

fn never_resolve(user: &str) -> Result<u64, PilotError> {
    panic!("the resolver was asked for {}", user)
}

fn no_flights(_: u64) -> Result<Vec<Flight>, PilotError> {
    Ok(vec![])
}

fn items(feed: &str) -> Vec<rss::Item> {
    rss::Channel::read_from(feed.as_bytes()).unwrap().into_items()
}

#[test]
fn empty_pilot_list() {
    let outcome = drive(config(&[]), PilotIdCache::new(), &never_resolve, &no_flights);
    assert_eq!(outcome.actions, vec![Action::Publish, Action::Stop]);
    assert!(outcome.written.is_empty());
    assert!(outcome.diagnostics.is_empty());
    assert!(!outcome.run.cache_updated());
    let channel = rss::Channel::read_from(outcome.feed.unwrap().as_bytes()).unwrap();
    assert_eq!(channel.title(), "XContest Flight Feed");
    assert_eq!(channel.link(), "https://example.org");
    assert_eq!(channel.description(), "Recent flights");
    assert!(channel.pub_date().is_some());
    assert!(channel.items().is_empty());
}

#[test]
fn one_user_cache_miss_one_flight() {
    let outcome = drive(
        config(&["alice"]),
        PilotIdCache::new(),
        &|user| {
            assert_eq!(user, "alice");
            Ok(42)
        },
        &|id| {
            assert_eq!(id, 42);
            Ok(vec![flight(1001, "2025-03-14T10:00:00Z")])
        },
    );
    assert_eq!(
        outcome.actions,
        vec![
            Action::Resolve { user: "alice".to_string() },
            Action::SaveCache,
            Action::Fetch { user: "alice".to_string(), pilot_id: 42 },
            Action::Publish,
            Action::Stop,
        ]
    );
    assert_eq!(outcome.written, vec!["alice: 42\n".to_string()]);
    assert!(outcome.run.cache_updated());
    let items = items(&outcome.feed.unwrap());
    assert_eq!(items.len(), 1);
    assert_eq!(items[0].title(), Some("Alice: 2025-03-14 - FAI 45.7km (61.2 pts)"));
    assert_eq!(items[0].link(), Some("https://x/1001"));
    assert!(items[0].description().unwrap().contains("Flight duration: 1h 30m"));
    assert_eq!(items[0].pub_date(), Some("2025-03-14"));
    assert_eq!(items[0].guid().unwrap().value(), "1001");
}

#[test]
fn two_users_mixed_success() {
    let outcome = drive(
        config(&["alice", "bob"]),
        PilotIdCache::new(),
        &|user| if user == "alice" { Ok(42) } else { Err(PilotError::UsernameNotFound) },
        &|id| {
            assert_eq!(id, 42);
            Ok(vec![flight(1, "2025-04-30T18:00:00Z"), flight(2, "2025-05-01T08:00:00Z")])
        },
    );
    assert_eq!(
        outcome.diagnostics,
        vec!["Error fetching pilot ID for 'bob': Username not found in page".to_string()]
    );
    assert_eq!(outcome.written, vec!["alice: 42\n".to_string()]);
    assert_eq!(outcome.run.cache().len(), 1);
    assert_eq!(outcome.run.cache().get("alice"), Some(42));
    assert_eq!(outcome.run.cache().get("bob"), None);
    let items = items(&outcome.feed.unwrap());
    assert_eq!(items.len(), 2);
    assert_eq!(items[0].pub_date(), Some("2025-05-01"));
    assert_eq!(items[1].pub_date(), Some("2025-04-30"));
}

#[test]
fn cache_hit() {
    let outcome = drive(
        config(&["alice"]),
        cache_of(&[("alice", 42)]),
        &never_resolve,
        &|id| {
            assert_eq!(id, 42);
            Ok(vec![])
        },
    );
    assert_eq!(
        outcome.actions,
        vec![
            Action::Fetch { user: "alice".to_string(), pilot_id: 42 },
            Action::Publish,
            Action::Stop,
        ]
    );
    assert!(outcome.written.is_empty());
    assert!(!outcome.run.cache_updated());
}

#[test]
fn duration_unparseable() {
    let mut odd = flight(9, "2025-03-14T10:00:00Z");
    odd.duration = "not-a-duration".to_string();
    let outcome = drive(
        config(&["alice"]),
        cache_of(&[("alice", 42)]),
        &never_resolve,
        &move |_| Ok(vec![odd.clone()]),
    );
    assert!(outcome.diagnostics.is_empty());
    let items = items(&outcome.feed.unwrap());
    assert_eq!(items.len(), 1);
    assert!(items[0].description().unwrap().contains("Flight duration: 0s\n"));
}

#[test]
fn missing_route() {
    let outcome = drive(
        config(&["alice", "bob"]),
        cache_of(&[("alice", 42), ("bob", 7)]),
        &never_resolve,
        &|id| {
            if id == 42 {
                flights_from_text("{\"items\":[{\"id\":1,\"league\":{}}]}")
            } else {
                Ok(vec![flight(70, "2025-02-02T10:00:00Z")])
            }
        },
    );
    assert_eq!(
        outcome.diagnostics,
        vec!["Error fetching flights for user 'alice': Missing expected field in response".to_string()]
    );
    let items = items(&outcome.feed.unwrap());
    assert_eq!(items.len(), 1);
    assert_eq!(items[0].guid().unwrap().value(), "70");
}

#[test]
fn flights_are_fetched_for_every_pilot_in_the_cache() {
    let outcome = drive(
        config(&["alice"]),
        cache_of(&[("zoe", 1), ("alice", 42)]),
        &never_resolve,
        &|id| Ok(vec![flight(id, "2025-01-01T00:00:00Z")]),
    );
    assert_eq!(
        outcome.actions,
        vec![
            Action::Fetch { user: "zoe".to_string(), pilot_id: 1 },
            Action::Fetch { user: "alice".to_string(), pilot_id: 42 },
            Action::Publish,
            Action::Stop,
        ]
    );
    let ids: Vec<u64> = outcome.run.flights().iter().map(|f| f.id).collect();
    assert_eq!(ids, vec![1, 42]);
}

#[test]
fn user_listed_twice_is_resolved_once() {
    let outcome = drive(
        config(&["alice", "alice"]),
        PilotIdCache::new(),
        &|_| Ok(42),
        &no_flights,
    );
    assert_eq!(
        outcome.actions,
        vec![
            Action::Resolve { user: "alice".to_string() },
            Action::SaveCache,
            Action::Fetch { user: "alice".to_string(), pilot_id: 42 },
            Action::Publish,
            Action::Stop,
        ]
    );
}

#[test]
fn failed_resolution_leaves_the_cache_unwritten() {
    let outcome = drive(
        config(&["alice", "bob"]),
        PilotIdCache::new(),
        &|_| Err(PilotError::Network("HTTP status 500".to_string())),
        &no_flights,
    );
    assert_eq!(
        outcome.actions,
        vec![
            Action::Resolve { user: "alice".to_string() },
            Action::Resolve { user: "bob".to_string() },
            Action::Publish,
            Action::Stop,
        ]
    );
    assert_eq!(
        outcome.diagnostics,
        vec![
            "Error fetching pilot ID for 'alice': Network error: HTTP status 500".to_string(),
            "Error fetching pilot ID for 'bob': Network error: HTTP status 500".to_string(),
        ]
    );
    assert!(outcome.written.is_empty());
    assert_eq!(outcome.run.cache().len(), 0);
}

#[test]
fn event_that_answers_nothing_changes_nothing() {
    let mut run = Run::new(config(&["alice"]), PilotIdCache::new());
    assert_eq!(run.step(Event::Saved), None);
    assert_eq!(run.step(Event::Fetched(Ok(vec![flight(1, "2025-01-01")]))), None);
    assert_eq!(run.step(Event::Published), None);
    assert_eq!(run.pending(), Action::Resolve { user: "alice".to_string() });
    assert!(run.flights().is_empty());
    assert_eq!(run.cache().len(), 0);
}

#[test]
fn finished_run_stays_finished() {
    let mut run = Run::new(config(&[]), PilotIdCache::new());
    assert_eq!(run.pending(), Action::Publish);
    assert_eq!(run.step(Event::Published), None);
    assert_eq!(run.pending(), Action::Stop);
    assert_eq!(run.step(Event::Resolved(Ok(1))), None);
    assert_eq!(run.step(Event::Published), None);
    assert_eq!(run.pending(), Action::Stop);
}
