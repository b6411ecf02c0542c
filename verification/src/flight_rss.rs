//! The RSS 2.0 feed: one item per flight, the most recent flight first.

use crate::duration::{pretty_duration, pretty_duration_text};
use crate::json::{format_one_decimal, json_pointer, one_decimal};
use crate::pilot::{flight_in, flight_views, Flight, FlightView};
use crate::text::{
    bytes_before, bytes_before_irreflexive, bytes_before_total, bytes_before_transitive, bytes_lt,
    date_of, date_part, decimal_text, u64_to_decimal,
};
use serde_json::Value;
use vstd::prelude::*;
use vstd::utf8::encode_utf8;

verus! {

/// One `<item>` of the feed.
#[derive(Clone, Debug, PartialEq, Eq)]
pub struct FeedItem {
    pub title: String,
    pub link: String,
    pub description: String,
    pub pub_date: String,
    pub guid: String,
}

/// A `FeedItem` with its texts as character sequences.
pub struct FeedItemView {
    pub title: Seq<char>,
    pub link: Seq<char>,
    pub description: Seq<char>,
    pub pub_date: Seq<char>,
    pub guid: Seq<char>,
}

impl View for FeedItem {
    type V = FeedItemView;

    open spec fn view(&self) -> FeedItemView {
        FeedItemView {
            title: self.title@,
            link: self.link@,
            description: self.description@,
            pub_date: self.pub_date@,
            guid: self.guid@,
        }
    }
}

/// The views of a list of items, in order.
pub open spec fn item_views(items: Seq<FeedItem>) -> Seq<FeedItemView> {
    Seq::new(items.len(), |i: int| items[i]@)
}

/// The title of a flight's item.
pub open spec fn item_title(flight: FlightView) -> Seq<char> {
    flight.by + ": "@ + date_part(flight.start_time) + " - "@ + flight.route.route_type + " "@
        + one_decimal(flight.route.distance) + "km ("@ + one_decimal(flight.route.points)
        + " pts)"@
}

/// The description of a flight's item: three lines.
pub open spec fn item_description(flight: FlightView) -> Seq<char> {
    flight.by + " flew a "@ + flight.route.route_type + " of "@ + one_decimal(
        flight.route.distance,
    ) + "km scoring "@ + one_decimal(flight.route.points) + " points.\nFlight duration: "@
        + pretty_duration_text(flight.duration) + "\nURL: "@ + flight.url
}

/// The item that stands for a flight. Its publication date is the bare
/// date of the start, and its guid the flight's id in decimal.
pub open spec fn item_of(flight: FlightView) -> FeedItemView {
    FeedItemView {
        title: item_title(flight),
        link: flight.url,
        description: item_description(flight),
        pub_date: date_part(flight.start_time),
        guid: decimal_text(flight.id as nat),
    }
}

/// A record without its optional texts gives an item with empty texts in
/// their places: no pilot before the colon and before `flew`, no date, no
/// link, the duration of an empty text, and nothing after `URL:`.
pub proof fn missing_texts_render_empty(record: Value)
    requires
        flight_in(record) is Some,
        json_pointer(record, "/stats/duration"@) is None,
        json_pointer(record, "/pilot/name"@) is None,
        json_pointer(record, "/pointStart/time"@) is None,
        json_pointer(record, "/league/flight/link"@) is None,
    ensures
        ({
            let flight = flight_in(record)->Some_0;
            let item = item_of(flight);
            &&& flight.duration == Seq::<char>::empty()
            &&& flight.by == Seq::<char>::empty()
            &&& flight.start_time == Seq::<char>::empty()
            &&& flight.url == Seq::<char>::empty()
            &&& item.link == Seq::<char>::empty()
            &&& item.pub_date == Seq::<char>::empty()
            &&& item.title == ": "@ + " - "@ + flight.route.route_type + " "@ + one_decimal(
                flight.route.distance,
            ) + "km ("@ + one_decimal(flight.route.points) + " pts)"@
            &&& item.description == " flew a "@ + flight.route.route_type + " of "@ + one_decimal(
                flight.route.distance,
            ) + "km scoring "@ + one_decimal(flight.route.points)
                + " points.\nFlight duration: "@ + pretty_duration_text(Seq::<char>::empty())
                + "\nURL: "@
        }),
{
}

/// Builds the item that stands for a flight.
pub fn feed_item(flight: &Flight) -> (item: FeedItem)
    ensures
        item@ == item_of(flight@),
{
    let date = date_of(flight.start_time.as_str());
    let distance = format_one_decimal(&flight.route.distance);
    let points = format_one_decimal(&flight.route.points);

    let mut title = flight.by.clone();
    title.append(": ");
    title.append(date);
    title.append(" - ");
    title.append(flight.route.route_type.as_str());
    title.append(" ");
    title.append(distance.as_str());
    title.append("km (");
    title.append(points.as_str());
    title.append(" pts)");

    let mut description = flight.by.clone();
    description.append(" flew a ");
    description.append(flight.route.route_type.as_str());
    description.append(" of ");
    description.append(distance.as_str());
    description.append("km scoring ");
    description.append(points.as_str());
    description.append(" points.\nFlight duration: ");
    description.append(pretty_duration(flight.duration.as_str()).as_str());
    description.append("\nURL: ");
    description.append(flight.url.as_str());

    FeedItem {
        title,
        link: flight.url.clone(),
        description,
        pub_date: String::from_str(date),
        guid: u64_to_decimal(flight.id),
    }
}

/// The bytes of a flight's start time, by which flights are ordered.
pub open spec fn start_bytes(flight: FlightView) -> Seq<u8> {
    encode_utf8(flight.start_time)
}

/// Whether the flight at index `i` is shown before the one at index `j`:
/// its start time is the later one in byte order, or the two start times
/// are the same and it came later in the list.
pub open spec fn shown_before(flights: Seq<FlightView>, i: int, j: int) -> bool {
    bytes_before(start_bytes(flights[j]), start_bytes(flights[i])) || (start_bytes(flights[i])
        == start_bytes(flights[j]) && i > j)
}

/// Whether `order` lists the indices of `flights` as the feed shows them:
/// every position holds an index, and what stands earlier is shown before
/// what stands later.
pub open spec fn is_feed_order(flights: Seq<FlightView>, order: Seq<int>) -> bool {
    &&& order.len() == flights.len()
    &&& forall|k: int| 0 <= k < order.len() ==> 0 <= #[trigger] order[k] < flights.len()
    &&& forall|k: int, l: int|
        0 <= k < l < order.len() ==> shown_before(flights, #[trigger] order[k], #[trigger] order[l])
}

/// Of two different flights exactly one is shown before the other.
pub proof fn shown_before_total(flights: Seq<FlightView>, i: int, j: int)
    requires
        i != j,
    ensures
        shown_before(flights, i, j) <==> !shown_before(flights, j, i),
{
    bytes_before_total(start_bytes(flights[i]), start_bytes(flights[j]));
}

/// Being shown before is transitive.
pub proof fn shown_before_transitive(flights: Seq<FlightView>, i: int, j: int, k: int)
    requires
        shown_before(flights, i, j),
        shown_before(flights, j, k),
    ensures
        shown_before(flights, i, k),
{
    let a = start_bytes(flights[i]);
    let b = start_bytes(flights[j]);
    let c = start_bytes(flights[k]);
    if bytes_before(b, a) && bytes_before(c, b) {
        bytes_before_transitive(c, b, a);
    }
}

/// No flight is shown before itself.
pub proof fn shown_before_irreflexive(flights: Seq<FlightView>, i: int)
    ensures
        !shown_before(flights, i, i),
{
    bytes_before_irreflexive(start_bytes(flights[i]));
}

fn shows_first(flights: &[Flight], i: usize, j: usize) -> (r: bool)
    requires
        i < flights@.len(),
        j < flights@.len(),
    ensures
        r == shown_before(flight_views(flights@), i as int, j as int),
{
    let a = flights[i].start_time.as_str().as_bytes();
    let b = flights[j].start_time.as_str().as_bytes();
    proof {
        bytes_before_total(a@, b@);
    }
    if bytes_lt(b, a) {
        true
    } else if bytes_lt(a, b) {
        false
    } else {
        i > j
    }
}

/// The indices of a list of `usize` as mathematical integers.
pub open spec fn indices(order: Seq<usize>) -> Seq<int> {
    Seq::new(order.len(), |k: int| order[k] as int)
}

/// Orders the flights for the feed: by start time, latest first; flights
/// with the same start time in the reverse of the order given. The result
/// lists indices into `flights`.
pub fn feed_order(flights: &[Flight]) -> (order: Vec<usize>)
    ensures
        is_feed_order(flight_views(flights@), indices(order@)),
{
    let ghost views = flight_views(flights@);
    let n = flights.len();
    let mut order: Vec<usize> = Vec::new();
    let mut i: usize = 0;
    while i < n
        invariant
            i <= n,
            n == flights@.len(),
            views == flight_views(flights@),
            order@.len() == i,
            forall|k: int| 0 <= k < i ==> (#[trigger] order@[k]) < i,
            forall|k: int, l: int|
                0 <= k < l < i ==> shown_before(
                    views,
                    (#[trigger] order@[k]) as int,
                    (#[trigger] order@[l]) as int,
                ),
        decreases n - i,
    {
        let mut p: usize = 0;
        while p < order.len() && shows_first(flights, order[p], i)
            invariant
                p <= order@.len(),
                order@.len() == i,
                i < n,
                n == flights@.len(),
                views == flight_views(flights@),
                forall|k: int| 0 <= k < i ==> (#[trigger] order@[k]) < i,
                forall|k: int|
                    0 <= k < p ==> shown_before(views, (#[trigger] order@[k]) as int, i as int),
            decreases order@.len() - p,
        {
            p += 1;
        }
        let ghost before = order@;
        order.insert(p, i);
        proof {
            assert forall|k: int, l: int| 0 <= k < l < i + 1 implies shown_before(
                views,
                (#[trigger] order@[k]) as int,
                (#[trigger] order@[l]) as int,
            ) by {
                if l > p {
                    // `i` stands at `p`, before what was at `p` and after.
                    shown_before_total(views, before[p as int] as int, i as int);
                    if l - 1 > p {
                        shown_before_transitive(
                            views,
                            i as int,
                            before[p as int] as int,
                            before[l - 1] as int,
                        );
                    }
                }
            }
        }
        i += 1;
    }
    order
}

/// An order of the feed names no flight twice.
pub proof fn feed_order_names_once(flights: Seq<FlightView>, order: Seq<int>, k: int, l: int)
    requires
        is_feed_order(flights, order),
        0 <= k < order.len(),
        0 <= l < order.len(),
        k != l,
    ensures
        order[k] != order[l],
{
    shown_before_irreflexive(flights, order[k]);
}

/// An order of the feed names every flight.
pub proof fn feed_order_names_all(flights: Seq<FlightView>, order: Seq<int>, i: int)
    requires
        is_feed_order(flights, order),
        0 <= i < flights.len(),
    ensures
        exists|k: int| 0 <= k < order.len() && order[k] == i,
{
    broadcast use vstd::seq_lib::group_seq_properties;

    assert(order.no_duplicates()) by {
        assert forall|k: int, l: int| 0 <= k < order.len() && 0 <= l < order.len() && k != l
            implies order[k] != order[l] by {
            feed_order_names_once(flights, order, k, l);
        }
    }
    order.unique_seq_to_set();
    let named = order.to_set();
    let all = vstd::set_lib::set_int_range(0, flights.len() as int);
    vstd::set_lib::lemma_int_range(0, flights.len() as int);
    assert(named.subset_of(all));
    vstd::set_lib::lemma_subset_equality(named, all);
    assert(all.contains(i));
}

proof fn feed_orders_agree_at(flights: Seq<FlightView>, a: Seq<int>, b: Seq<int>, k: int)
    requires
        is_feed_order(flights, a),
        is_feed_order(flights, b),
        0 <= k < flights.len(),
    ensures
        a[k] == b[k],
    decreases k,
{
    assert forall|j: int| 0 <= j < k implies a[j] == b[j] by {
        feed_orders_agree_at(flights, a, b, j);
    }
    feed_order_names_all(flights, b, a[k]);
    let in_b = choose|m: int| 0 <= m < b.len() && b[m] == a[k];
    feed_order_names_all(flights, a, b[k]);
    let in_a = choose|m: int| 0 <= m < a.len() && a[m] == b[k];
    if in_b < k {
        feed_order_names_once(flights, a, in_b, k);
    } else if in_a < k {
        feed_order_names_once(flights, b, in_a, k);
    } else if in_b > k && in_a > k {
        shown_before_irreflexive(flights, a[k]);
        if a[k] != b[k] {
            shown_before_total(flights, a[k], b[k]);
        }
    }
}

/// The flights have one order in the feed and no other.
pub proof fn feed_order_unique(flights: Seq<FlightView>, a: Seq<int>, b: Seq<int>)
    requires
        is_feed_order(flights, a),
        is_feed_order(flights, b),
    ensures
        a == b,
{
    assert forall|k: int| 0 <= k < a.len() implies a[k] == b[k] by {
        feed_orders_agree_at(flights, a, b, k);
    }
}

/// The order in which the feed shows a list of flights.
pub open spec fn feed_order_of(flights: Seq<FlightView>) -> Seq<int> {
    choose|order: Seq<int>| is_feed_order(flights, order)
}

spec fn shown_ahead(flights: Seq<FlightView>, order: Seq<int>, i: int, from: int) -> int
    decreases order.len() - from,
{
    if 0 <= from < order.len() && shown_before(flights, order[from], i) {
        shown_ahead(flights, order, i, from + 1)
    } else {
        from
    }
}

proof fn shown_ahead_splits(flights: Seq<FlightView>, order: Seq<int>, i: int, from: int)
    requires
        0 <= from <= order.len(),
    ensures
        from <= shown_ahead(flights, order, i, from) <= order.len(),
        forall|k: int|
            from <= k < shown_ahead(flights, order, i, from) ==> shown_before(
                flights,
                #[trigger] order[k],
                i,
            ),
        shown_ahead(flights, order, i, from) < order.len() ==> !shown_before(
            flights,
            order[shown_ahead(flights, order, i, from)],
            i,
        ),
    decreases order.len() - from,
{
    if from < order.len() && shown_before(flights, order[from], i) {
        shown_ahead_splits(flights, order, i, from + 1);
    }
}

/// Every list of flights has an order in the feed.
pub proof fn feed_order_exists(flights: Seq<FlightView>)
    ensures
        is_feed_order(flights, feed_order_of(flights)),
    decreases flights.len(),
{
    if flights.len() == 0 {
        assert(is_feed_order(flights, Seq::<int>::empty()));
    } else {
        let rest = flights.drop_last();
        let last = flights.len() - 1;
        feed_order_exists(rest);
        let before = feed_order_of(rest);
        let p = shown_ahead(flights, before, last, 0);
        shown_ahead_splits(flights, before, last, 0);
        let order = before.insert(p, last);
        assert forall|k: int, l: int| 0 <= k < l < order.len() implies shown_before(
            flights,
            #[trigger] order[k],
            #[trigger] order[l],
        ) by {
            if l > p {
                // `last` stands at `p`, before what was at `p` and after.
                shown_before_total(flights, before[p], last);
                if l - 1 > p {
                    shown_before_transitive(flights, last, before[p], before[l - 1]);
                }
            }
        }
        assert(is_feed_order(flights, order));
    }
}

/// The items of the feed, in the order shown.
pub open spec fn feed_items_of(flights: Seq<FlightView>) -> Seq<FeedItemView> {
    Seq::new(flights.len(), |k: int| item_of(flights[feed_order_of(flights)[k]]))
}

/// The items of the feed stand in non-increasing order of the start times
/// of their flights.
pub proof fn feed_is_newest_first(flights: Seq<FlightView>, k: int, l: int)
    requires
        0 <= k <= l < flights.len(),
    ensures
        !bytes_before(
            start_bytes(flights[feed_order_of(flights)[k]]),
            start_bytes(flights[feed_order_of(flights)[l]]),
        ),
{
    feed_order_exists(flights);
    let order = feed_order_of(flights);
    if k == l {
        bytes_before_irreflexive(start_bytes(flights[order[k]]));
    } else {
        bytes_before_total(start_bytes(flights[order[k]]), start_bytes(flights[order[l]]));
    }
}

/// Every flight has exactly one item in the feed, and the guid of that item
/// is the decimal form of the flight's id.
pub proof fn feed_has_one_item_per_flight(flights: Seq<FlightView>, i: int)
    requires
        0 <= i < flights.len(),
    ensures
        feed_items_of(flights).len() == flights.len(),
        exists|k: int|
            0 <= k < flights.len() && feed_order_of(flights)[k] == i && (#[trigger] feed_items_of(
                flights,
            )[k]).guid == decimal_text(flights[i].id as nat),
        forall|k: int, l: int|
            0 <= k < flights.len() && 0 <= l < flights.len() && feed_order_of(flights)[k] == i
                && feed_order_of(flights)[l] == i ==> k == l,
{
    feed_order_exists(flights);
    let order = feed_order_of(flights);
    feed_order_names_all(flights, order, i);
    let at = choose|k: int| 0 <= k < order.len() && order[k] == i;
    assert(feed_items_of(flights)[at].guid == decimal_text(flights[i].id as nat));
    assert forall|k: int, l: int|
        0 <= k < flights.len() && 0 <= l < flights.len() && order[k] == i && order[l]
            == i implies k == l by {
        if k != l {
            feed_order_names_once(flights, order, k, l);
        }
    }
}

/// Builds the items of the feed, in the order shown.
pub fn feed_items(flights: &[Flight]) -> (items: Vec<FeedItem>)
    ensures
        item_views(items@) == feed_items_of(flight_views(flights@)),
{
    let ghost views = flight_views(flights@);
    let order = feed_order(flights);
    proof {
        feed_order_exists(views);
        feed_order_unique(views, indices(order@), feed_order_of(views));
    }
    let mut items: Vec<FeedItem> = Vec::new();
    let mut k: usize = 0;
    while k < order.len()
        invariant
            k <= order@.len(),
            order@.len() == flights@.len(),
            views == flight_views(flights@),
            indices(order@) == feed_order_of(views),
            is_feed_order(views, indices(order@)),
            items@.len() == k,
            forall|j: int|
                0 <= j < k ==> (#[trigger] items@[j])@ == item_of(views[feed_order_of(views)[j]]),
        decreases order@.len() - k,
    {
        let at = order[k];
        assert(indices(order@)[k as int] == at as int);
        items.push(feed_item(&flights[at]));
        k += 1;
    }
    items
}

/// The RSS 2.0 document that the `rss` crate writes for a channel with the
/// given title, link, description and publication date, and with the given
/// items, each with its title, link, description, publication date and
/// guid: built with `ChannelBuilder`, `ItemBuilder` and `GuidBuilder`, and
/// written out by `Channel::to_string`.
pub uninterp spec fn rss_xml(
    title: Seq<char>,
    link: Seq<char>,
    description: Seq<char>,
    pub_date: Seq<char>,
    items: Seq<FeedItemView>,
) -> Seq<char>;

/// Builds an `rss::Channel` out of the given texts and items with the
/// crate's builders and calls `Channel::to_string` on it. The contract
/// claims that the document depends on these values alone.
#[verifier::external_body]
fn channel_xml(
    title: &str,
    link: &str,
    description: &str,
    pub_date: &str,
    items: &Vec<FeedItem>,
) -> (xml: String)
    ensures
        xml@ == rss_xml(title@, link@, description@, pub_date@, item_views(items@)),
{
    let entries: Vec<rss::Item> = items.iter().map(|item| {
        let guid = rss::GuidBuilder::default().value(item.guid.clone()).build();
        rss::ItemBuilder::default()
            .title(Some(item.title.clone()))
            .link(Some(item.link.clone()))
            .description(Some(item.description.clone()))
            .pub_date(Some(item.pub_date.clone()))
            .guid(Some(guid))
            .build()
    }).collect();
    rss::ChannelBuilder::default().title(title).link(link).pub_date(pub_date.to_string())
        .description(description).items(entries).build().to_string()
}

/// Calls `chrono::Utc::now` and `DateTime::to_rfc2822`: the current time.
/// Nothing is claimed of the text.
#[verifier::external_body]
fn utc_now_rfc2822() -> String {
    chrono::Utc::now().to_rfc2822()
}

/// The feed as a document: the channel `XContest Flight Feed`, described as
/// `Recent flights`, with the given link and publication date, and one item
/// per flight, the most recent first.
pub open spec fn feed_xml(
    flights: Seq<FlightView>,
    channel_link: Seq<char>,
    pub_date: Seq<char>,
) -> Seq<char> {
    rss_xml(
        "XContest Flight Feed"@,
        channel_link,
        "Recent flights"@,
        pub_date,
        feed_items_of(flights),
    )
}

/// Renders the feed with a given publication date.
pub fn render(flights: &[Flight], channel_link: &str, pub_date: &str) -> (xml: String)
    ensures
        xml@ == feed_xml(flight_views(flights@), channel_link@, pub_date@),
{
    let items = feed_items(flights);
    channel_xml("XContest Flight Feed", channel_link, "Recent flights", pub_date, &items)
}

/// Renders the feed, dated with the current UTC time in RFC 2822 form.
pub fn generate_rss(flights: &[Flight], site_url: &str) -> (xml: String)
    ensures
        exists|pub_date: Seq<char>| xml@ == feed_xml(flight_views(flights@), site_url@, pub_date),
{
    let now = utc_now_rfc2822();
    render(flights, site_url, now.as_str())
}

} // verus!
