//! The counters that the server keeps with `prometheus`, and the page that shows them.

use vstd::prelude::*;
use vstd::utf8::{encode_utf8, valid_utf8};

use crate::error::{STATUS_INTERNAL_SERVER_ERROR, STATUS_OK};
use crate::hash::{
    fnv1a, lemma_hash_of_creator_events_total, lemma_hash_of_http_requests_total,
    lemma_hash_of_payment_events_total, lemma_hash_of_sponsor_spend_cents_total,
};
use crate::text::{decimal, decimal_text};

verus! {

/// `prometheus::proto::MetricFamily`, carried through without a look at its fields.
#[verifier::external_type_specification]
#[verifier::external_body]
pub struct ExMetricFamily(prometheus::proto::MetricFamily);

/// `prometheus::Error`, carried through without a look at its fields.
#[verifier::external_type_specification]
#[verifier::external_body]
pub struct ExPrometheusError(prometheus::Error);

/// A `prometheus::IntCounterVec`: counters of one name that differ in the values of their labels.
#[verifier::external_body]
#[derive(Debug)]
pub struct CounterFamily {
    inner: prometheus::IntCounterVec,
}

/// A `prometheus::IntCounter`.
#[verifier::external_body]
#[derive(Debug)]
pub struct Counter {
    inner: prometheus::IntCounter,
}

/// A `prometheus::Registry`, with the counters that were registered in it.
#[verifier::external_body]
#[derive(Debug)]
pub struct Board {
    registry: prometheus::Registry,
    families: Vec<CounterFamily>,
    counters: Vec<Counter>,
}

/// One counter of a family.
pub struct SeriesData {
    pub label_values: Seq<Seq<char>>,
    pub count: u64,
}

/// What a counter family holds. Its counters are kept under keys that are made of their label
/// values.
pub struct FamilyData {
    pub name: Seq<char>,
    pub help: Seq<char>,
    pub labels: Seq<Seq<char>>,
    pub series: Map<u64, SeriesData>,
}

/// What a counter holds.
pub struct CounterData {
    pub name: Seq<char>,
    pub help: Seq<char>,
    pub value: u64,
}

/// What a board holds.
pub struct BoardData {
    pub families: Seq<FamilyData>,
    pub counters: Seq<CounterData>,
}

impl BoardData {
    /// The names of the collectors on the board.
    pub open spec fn names(self) -> Set<Seq<char>> {
        self.families.map_values(|family: FamilyData| family.name).to_set()
            + self.counters.map_values(|counter: CounterData| counter.name).to_set()
    }
}

/// What a counter family holds.
pub uninterp spec fn family_data(family: CounterFamily) -> FamilyData;

/// What a counter holds.
pub uninterp spec fn counter_data(counter: Counter) -> CounterData;

/// What a board holds.
pub uninterp spec fn board_data(board: Board) -> BoardData;

/// The key under which a family keeps the counter whose label values, one after the other, make
/// up a text.
pub open spec fn series_key(label_values: Seq<char>) -> u64 {
    fnv1a(encode_utf8(label_values))
}

/// The identifier that a registry gives to a collector by its name: the hash of the name, with a
/// separator behind it.
pub open spec fn collector_id(name: Seq<char>) -> u64 {
    fnv1a(encode_utf8(name).push(0xff))
}

/// The metric families that a registry gathers of its collectors.
pub uninterp spec fn gathered(data: BoardData) -> Seq<prometheus::proto::MetricFamily>;

/// Whether the text encoder accepts a list of metric families, and what it writes of them.
pub uninterp spec fn encoded_text(families: Seq<prometheus::proto::MetricFamily>) -> (
    bool,
    Seq<u8>,
);

/// Whether `c` may stand in a name, at its start or after.
pub open spec fn is_name_char(c: char) -> bool {
    'a' <= c <= 'z' || 'A' <= c <= 'Z' || c == '_'
}

/// Whether `name` can be the name of a label.
pub open spec fn valid_label_name(name: Seq<char>) -> bool {
    &&& name.len() > 0
    &&& is_name_char(name[0])
    &&& forall|i: int|
        0 <= i < name.len() ==> is_name_char(#[trigger] name[i]) || '0' <= name[i] <= '9'
}

/// Whether `name` can be the name of a metric: as that of a label, but colons are allowed.
pub open spec fn valid_metric_name(name: Seq<char>) -> bool {
    &&& name.len() > 0
    &&& is_name_char(name[0]) || name[0] == ':'
    &&& forall|i: int|
        0 <= i < name.len() ==> is_name_char(#[trigger] name[i]) || '0' <= name[i] <= '9' || name[i]
            == ':'
}

/// The characters of each text of a list.
pub open spec fn str_texts(list: Seq<&str>) -> Seq<Seq<char>> {
    list.map_values(|s: &str| s@)
}

/// `a` and `b` added up as 64-bit counters do.
pub open spec fn counted(a: u64, b: u64) -> u64 {
    if a + b > u64::MAX {
        (a + b - u64::MAX - 1) as u64
    } else {
        (a + b) as u64
    }
}

/// The counters of a family after one more count of some label values: of the counter under their
/// key, or else of a new one.
pub open spec fn with_count(
    series: Map<u64, SeriesData>,
    label_values: Seq<Seq<char>>,
) -> Map<u64, SeriesData> {
    let key = series_key(label_values.flatten());
    series.insert(
        key,
        if series.contains_key(key) {
            SeriesData { count: counted(series[key].count, 1), ..series[key] }
        } else {
            SeriesData { label_values, count: 1 }
        },
    )
}

/// Makes a counter family with `prometheus::IntCounterVec::new`. It takes a help text that is not
/// empty, a metric name, and label names that differ; nothing is counted yet.
#[verifier::external_body]
fn new_family(name: &str, help: &str, labels: &Vec<&str>) -> (r: Result<
    CounterFamily,
    prometheus::Error,
>)
    ensures
        r is Ok <==> {
            &&& help@.len() > 0
            &&& valid_metric_name(name@)
            &&& forall|i: int|
                0 <= i < labels@.len() ==> valid_label_name(#[trigger] str_texts(labels@)[i])
            &&& str_texts(labels@).no_duplicates()
        },
        r matches Ok(family) ==> family_data(family) == (FamilyData {
            name: name@,
            help: help@,
            labels: str_texts(labels@),
            series: Map::empty(),
        }),
{
    prometheus::IntCounterVec::new(prometheus::Opts::new(name, help), labels).map(
        |inner| CounterFamily { inner },
    )
}

/// Makes a counter with `prometheus::IntCounter::new`, which takes a metric name and a help text
/// that is not empty, and counts from zero.
#[verifier::external_body]
fn new_counter(name: &str, help: &str) -> (r: Result<Counter, prometheus::Error>)
    ensures
        r is Ok == (help@.len() != 0 && valid_metric_name(name@)),
        r matches Ok(counter) ==> counter_data(counter) == (CounterData {
            name: name@,
            help: help@,
            value: 0,
        }),
{
    prometheus::IntCounter::new(name, help).map(|inner| Counter { inner })
}

/// Makes a registry with `prometheus::Registry::new`; nothing is registered in it yet.
#[verifier::external_body]
fn new_board() -> (r: Board)
    ensures
        board_data(r) == (BoardData { families: Seq::empty(), counters: Seq::empty() }),
{
    Board { registry: prometheus::Registry::new(), families: Vec::new(), counters: Vec::new() }
}

/// Registers a counter family with `prometheus::Registry::register`. A name that is new to the
/// registry is refused only where another collector has taken its identifier.
#[verifier::external_body]
fn register_family(board: &mut Board, family: CounterFamily) -> (r: Result<(), prometheus::Error>)
    ensures
        !board_data(*old(board)).names().contains(family_data(family).name) ==> (r is Ok
            <==> forall|name: Seq<char>| #[trigger]
            board_data(*old(board)).names().contains(name) ==> collector_id(name) != collector_id(
                family_data(family).name,
            )),
        board_data(*final(board)) == match r {
            Ok(_) => BoardData {
                families: board_data(*old(board)).families.push(family_data(family)),
                ..board_data(*old(board))
            },
            Err(_) => board_data(*old(board)),
        },
{
    board.registry.register(Box::new(family.inner.clone()))?;
    board.families.push(family);
    Ok(())
}

/// Registers a counter with `prometheus::Registry::register`, on the same terms as a family.
#[verifier::external_body]
fn register_counter(board: &mut Board, counter: Counter) -> (r: Result<(), prometheus::Error>)
    ensures
        !board_data(*old(board)).names().contains(counter_data(counter).name) ==> (r is Ok
            <==> forall|name: Seq<char>| #[trigger]
            board_data(*old(board)).names().contains(name) ==> collector_id(name) != collector_id(
                counter_data(counter).name,
            )),
        board_data(*final(board)) == match r {
            Ok(_) => BoardData {
                counters: board_data(*old(board)).counters.push(counter_data(counter)),
                ..board_data(*old(board))
            },
            Err(_) => board_data(*old(board)),
        },
{
    board.registry.register(Box::new(counter.inner.clone()))?;
    board.counters.push(counter);
    Ok(())
}

/// Counts one more of a family with `prometheus::IntCounterVec::with_label_values`, which finds or
/// makes the counter by a hash of the label values written one after the other, and `inc`.
#[verifier::external_body]
fn count_series(board: &mut Board, index: usize, values: &Vec<&str>)
    requires
        index < board_data(*old(board)).families.len(),
        values@.len() == board_data(*old(board)).families[index as int].labels.len(),
    ensures
        board_data(*final(board)) == (BoardData {
            families: board_data(*old(board)).families.update(
                index as int,
                FamilyData {
                    series: with_count(
                        board_data(*old(board)).families[index as int].series,
                        str_texts(values@),
                    ),
                    ..board_data(*old(board)).families[index as int]
                },
            ),
            ..board_data(*old(board))
        }),
{
    board.families[index].inner.with_label_values(values).inc()
}

/// Adds to a counter with `prometheus::IntCounter::inc_by`.
#[verifier::external_body]
fn add_to_counter(board: &mut Board, index: usize, amount: u64)
    requires
        index < board_data(*old(board)).counters.len(),
    ensures
        board_data(*final(board)) == (BoardData {
            counters: board_data(*old(board)).counters.update(
                index as int,
                CounterData {
                    value: counted(board_data(*old(board)).counters[index as int].value, amount),
                    ..board_data(*old(board)).counters[index as int]
                },
            ),
            ..board_data(*old(board))
        }),
{
    board.counters[index].inner.inc_by(amount)
}

/// Collects the metric families of a registry with `prometheus::Registry::gather`, which drops
/// families without counters and sorts the others by name, and their counters by label values. What
/// it gives depends on the registered counters alone.
#[verifier::external_body]
fn gather(board: &Board) -> (r: Vec<prometheus::proto::MetricFamily>)
    ensures
        r@ == gathered(board_data(*board)),
{
    board.registry.gather()
}

/// Writes metric families that a registry gathered behind a buffer with
/// `prometheus::TextEncoder::encode`. What it writes, and whether it accepts them all, depends on
/// the families alone; it is UTF-8 in any case. A registry gathers counters only: the encoder
/// panics on a family without a type.
#[verifier::external_body]
fn encode_families(
    families: &Vec<prometheus::proto::MetricFamily>,
    buffer: &mut Vec<u8>,
) -> (r: Result<(), prometheus::Error>)
    requires
        exists|data: BoardData| families@ == #[trigger] gathered(data),
    ensures
        r is Ok == encoded_text(families@).0,
        final(buffer)@ == old(buffer)@ + encoded_text(families@).1,
        valid_utf8(old(buffer)@) ==> valid_utf8(final(buffer)@),
{
    prometheus::Encoder::encode(&prometheus::TextEncoder::new(), families, buffer)
}

/// The content type of the page, by `prometheus::TextEncoder::format_type`.
#[verifier::external_body]
fn text_content_type() -> (r: String)
    ensures
        r@ == "text/plain; version=0.0.4"@,
{
    prometheus::Encoder::format_type(&prometheus::TextEncoder::new()).to_string()
}

/// Turns bytes into text with `String::from_utf8_lossy`, which leaves valid UTF-8 as it is.
#[verifier::external_body]
fn lossy_text(bytes: &Vec<u8>) -> (r: String)
    requires
        valid_utf8(bytes@),
    ensures
        encode_utf8(r@) == bytes@,
{
    String::from_utf8_lossy(bytes).to_string()
}

/// The counters of the server.
#[derive(Debug)]
pub struct Metrics {
    board: Board,
}

/// The counts of a `Metrics`.
pub struct MetricsView {
    pub http_requests: Map<u64, SeriesData>,
    pub payment_events: Map<u64, SeriesData>,
    pub creator_events: Map<u64, SeriesData>,
    pub sponsor_spend_cents: u64,
}

impl View for Metrics {
    type V = MetricsView;

    closed spec fn view(&self) -> MetricsView {
        let data = board_data(self.board);
        MetricsView {
            http_requests: data.families[0].series,
            payment_events: data.families[1].series,
            creator_events: data.families[2].series,
            sponsor_spend_cents: data.counters[0].value,
        }
    }
}

/// The counters of requests, by endpoint and status.
pub open spec fn http_family(series: Map<u64, SeriesData>) -> FamilyData {
    FamilyData {
        name: "http_requests_total"@,
        help: "Total HTTP requests"@,
        labels: seq!["endpoint"@, "status"@],
        series,
    }
}

/// The counters of payments, by mode and status.
pub open spec fn payment_family(series: Map<u64, SeriesData>) -> FamilyData {
    FamilyData {
        name: "payment_events_total"@,
        help: "Payment events"@,
        labels: seq!["mode"@, "status"@],
        series,
    }
}

/// The counters of creator events, by skill, platform and type.
pub open spec fn creator_family(series: Map<u64, SeriesData>) -> FamilyData {
    FamilyData {
        name: "creator_events_total"@,
        help: "Creator skill metric events"@,
        labels: seq!["skill"@, "platform"@, "event_type"@],
        series,
    }
}

/// The counter of what sponsors have spent.
pub open spec fn spend_counter(value: u64) -> CounterData {
    CounterData {
        name: "sponsor_spend_cents_total"@,
        help: "Total sponsored spend in cents"@,
        value,
    }
}

impl MetricsView {
    /// The counts before anything happened.
    pub open spec fn zero() -> MetricsView {
        MetricsView {
            http_requests: Map::empty(),
            payment_events: Map::empty(),
            creator_events: Map::empty(),
            sponsor_spend_cents: 0,
        }
    }

    /// The board that the counts stand on.
    pub open spec fn board(self) -> BoardData {
        BoardData {
            families: seq![
                http_family(self.http_requests),
                payment_family(self.payment_events),
                creator_family(self.creator_events),
            ],
            counters: seq![spend_counter(self.sponsor_spend_cents)],
        }
    }

    /// The counts after a request to an endpoint was answered with a status.
    pub open spec fn with_request(self, endpoint: Seq<char>, status: u16) -> MetricsView {
        MetricsView {
            http_requests: with_count(
                self.http_requests,
                seq![endpoint, decimal(status as nat)],
            ),
            ..self
        }
    }

    /// The counts after a payment.
    pub open spec fn with_payment(self, mode: Seq<char>, status: Seq<char>) -> MetricsView {
        MetricsView {
            payment_events: with_count(self.payment_events, seq![mode, status]),
            ..self
        }
    }

    /// The counts after a creator event.
    pub open spec fn with_creator_event(
        self,
        skill: Seq<char>,
        platform: Seq<char>,
        event_type: Seq<char>,
    ) -> MetricsView {
        MetricsView {
            creator_events: with_count(self.creator_events, seq![skill, platform, event_type]),
            ..self
        }
    }

    /// The counts after a sponsor spent an amount.
    pub open spec fn with_spend(self, cents: u64) -> MetricsView {
        MetricsView { sponsor_spend_cents: counted(self.sponsor_spend_cents, cents), ..self }
    }
}

/// The page that shows the counters.
#[derive(Debug)]
pub struct MetricsPage {
    pub status: u16,
    pub content_type: String,
    pub body: String,
}

/// Whether a page shows what an encoder made of some metric families.
pub open spec fn shows_families(page: MetricsPage, encoded: (bool, Seq<u8>)) -> bool {
    &&& page.status == if encoded.0 {
        STATUS_OK
    } else {
        STATUS_INTERNAL_SERVER_ERROR
    }
    &&& page.content_type@ == "text/plain; version=0.0.4"@
    &&& encode_utf8(page.body@) == encoded.1
}

/// The page for what an encoder wrote, and for whether it came to the end.
pub fn metrics_page(complete: bool, buffer: &Vec<u8>) -> (r: MetricsPage)
    requires
        valid_utf8(buffer@),
    ensures
        shows_families(r, (complete, buffer@)),
{
    MetricsPage {
        status: if complete {
            STATUS_OK
        } else {
            STATUS_INTERNAL_SERVER_ERROR
        },
        content_type: text_content_type(),
        body: lossy_text(buffer),
    }
}

/// The names of the four collectors.
pub open spec fn collector_names() -> Seq<Seq<char>> {
    seq![
        "http_requests_total"@,
        "payment_events_total"@,
        "creator_events_total"@,
        "sponsor_spend_cents_total"@,
    ]
}

/// The registry tells the four collectors apart.
proof fn lemma_collector_ids_differ()
    ensures
        collector_ids().no_duplicates(),
{
    lemma_hash_of_http_requests_total();
    lemma_hash_of_payment_events_total();
    lemma_hash_of_creator_events_total();
    lemma_hash_of_sponsor_spend_cents_total();
    let names = collector_names();
    let ids = collector_ids();
    assert(ids[0] == collector_id(names[0]));
    assert(ids[1] == collector_id(names[1]));
    assert(ids[2] == collector_id(names[2]));
    assert(ids[3] == collector_id(names[3]));
}

/// A counter family with a metric name, a help text and one label of each name.
fn make_family(name: &str, help: &str, labels: &Vec<&str>) -> (r: CounterFamily)
    requires
        help@.len() > 0,
        valid_metric_name(name@),
        forall|i: int|
            0 <= i < labels@.len() ==> valid_label_name(#[trigger] str_texts(labels@)[i]),
        str_texts(labels@).no_duplicates(),
    ensures
        family_data(r) == (FamilyData {
            name: name@,
            help: help@,
            labels: str_texts(labels@),
            series: Map::empty(),
        }),
{
    match new_family(name, help, labels) {
        Ok(family) => family,
        Err(_) => vstd::pervasive::unreached(),
    }
}

/// The counters of requests.
fn new_http_family() -> (r: CounterFamily)
    ensures
        family_data(r) == http_family(Map::empty()),
{
    proof {
        reveal_strlit("http_requests_total");
        reveal_strlit("Total HTTP requests");
        reveal_strlit("endpoint");
        reveal_strlit("status");
    }
    let labels: Vec<&str> = vec!["endpoint", "status"];
    proof {
        assert(str_texts(labels@) =~= seq!["endpoint"@, "status"@]);
        assert("endpoint"@[0] != "status"@[0]);
    }
    make_family("http_requests_total", "Total HTTP requests", &labels)
}

/// The counters of payments.
fn new_payment_family() -> (r: CounterFamily)
    ensures
        family_data(r) == payment_family(Map::empty()),
{
    proof {
        reveal_strlit("payment_events_total");
        reveal_strlit("Payment events");
        reveal_strlit("mode");
        reveal_strlit("status");
    }
    let labels: Vec<&str> = vec!["mode", "status"];
    proof {
        assert(str_texts(labels@) =~= seq!["mode"@, "status"@]);
        assert("mode"@[0] != "status"@[0]);
    }
    make_family("payment_events_total", "Payment events", &labels)
}

/// The counters of creator events.
fn new_creator_family() -> (r: CounterFamily)
    ensures
        family_data(r) == creator_family(Map::empty()),
{
    proof {
        reveal_strlit("creator_events_total");
        reveal_strlit("Creator skill metric events");
        reveal_strlit("skill");
        reveal_strlit("platform");
        reveal_strlit("event_type");
    }
    let labels: Vec<&str> = vec!["skill", "platform", "event_type"];
    proof {
        assert(str_texts(labels@) =~= seq!["skill"@, "platform"@, "event_type"@]);
        assert("skill"@[0] != "platform"@[0]);
        assert("skill"@[0] != "event_type"@[0]);
        assert("platform"@[0] != "event_type"@[0]);
    }
    make_family("creator_events_total", "Creator skill metric events", &labels)
}

/// The counter of what sponsors have spent.
fn new_spend_counter() -> (r: Counter)
    ensures
        counter_data(r) == spend_counter(0),
{
    proof {
        reveal_strlit("sponsor_spend_cents_total");
        reveal_strlit("Total sponsored spend in cents");
    }
    match new_counter("sponsor_spend_cents_total", "Total sponsored spend in cents") {
        Ok(counter) => counter,
        Err(_) => vstd::pervasive::unreached(),
    }
}

/// The identifiers of the four collectors.
pub open spec fn collector_ids() -> Seq<u64> {
    collector_names().map_values(|name: Seq<char>| collector_id(name))
}

/// The names on a board with the first of the four collectors.
proof fn lemma_names_on_board(data: BoardData, count: int)
    requires
        0 <= count <= 4,
        data.families.len() == if count < 3 {
            count
        } else {
            3
        },
        data.counters.len() == if count < 4 {
            0int
        } else {
            1
        },
        forall|i: int|
            0 <= i < data.families.len() ==> (#[trigger] data.families[i]).name
                == collector_names()[i],
        forall|i: int|
            0 <= i < data.counters.len() ==> (#[trigger] data.counters[i]).name
                == collector_names()[i + 3],
    ensures
        forall|name: Seq<char>| #[trigger]
            data.names().contains(name) <==> collector_names().take(count).contains(name),
{
    let families = data.families.map_values(|family: FamilyData| family.name);
    let counters = data.counters.map_values(|counter: CounterData| counter.name);
    let names = collector_names().take(count);
    assert(names =~= families + counters);
    assert forall|name: Seq<char>| #[trigger] data.names().contains(name) implies names.contains(
        name,
    ) by {
        if families.contains(name) {
            let i = choose|i: int| 0 <= i < families.len() && families[i] == name;
            assert(names[i] == name);
        } else {
            let i = choose|i: int| 0 <= i < counters.len() && counters[i] == name;
            assert(names[families.len() + i] == name);
        }
    }
    assert forall|name: Seq<char>| names.contains(name) implies #[trigger] data.names().contains(
        name,
    ) by {
        let i = choose|i: int| 0 <= i < names.len() && names[i] == name;
        if i < families.len() {
            assert(families[i] == name);
            assert(families.contains(name));
        } else {
            assert(counters[i - families.len()] == name);
            assert(counters.contains(name));
        }
    }
}

/// One more of the four collectors can be registered behind the first ones.
proof fn lemma_next_collector(data: BoardData, count: int)
    requires
        0 <= count < 4,
        forall|name: Seq<char>| #[trigger]
            data.names().contains(name) <==> collector_names().take(count).contains(name),
    ensures
        forall|name: Seq<char>| #[trigger]
            data.names().contains(name) ==> collector_id(name) != collector_id(
                collector_names()[count],
            ),
        !data.names().contains(collector_names()[count]),
{
    let first = collector_names().take(count);
    lemma_collector_ids_differ();
    assert forall|name: Seq<char>| #[trigger] data.names().contains(name) implies collector_id(name)
        != collector_id(collector_names()[count]) by {
        let i = choose|i: int| 0 <= i < first.len() && first[i] == name;
        assert(collector_ids()[i] != collector_ids()[count]);
    }
}

impl Metrics {
    /// The collectors that are registered.
    pub closed spec fn registered(self) -> BoardData {
        board_data(self.board)
    }

    /// Whether the four collectors are registered, with the counts that the view shows.
    pub open spec fn well_formed(self) -> bool {
        self.registered() == self@.board()
    }

    /// Makes the counters and registers them; nothing is counted yet.
    pub fn new() -> (r: Metrics)
        ensures
            r.well_formed(),
            r@ == MetricsView::zero(),
    {
        let mut board: Board = new_board();
        proof {
            lemma_names_on_board(board_data(board), 0);
            lemma_next_collector(board_data(board), 0);
        }
        if register_family(&mut board, new_http_family()).is_err() {
            vstd::pervasive::unreached::<()>();
        }
        proof {
            lemma_names_on_board(board_data(board), 1);
            lemma_next_collector(board_data(board), 1);
        }
        if register_family(&mut board, new_payment_family()).is_err() {
            vstd::pervasive::unreached::<()>();
        }
        proof {
            lemma_names_on_board(board_data(board), 2);
            lemma_next_collector(board_data(board), 2);
        }
        if register_family(&mut board, new_creator_family()).is_err() {
            vstd::pervasive::unreached::<()>();
        }
        proof {
            lemma_names_on_board(board_data(board), 3);
            lemma_next_collector(board_data(board), 3);
        }
        if register_counter(&mut board, new_spend_counter()).is_err() {
            vstd::pervasive::unreached::<()>();
        }
        let metrics = Metrics { board };
        proof {
            assert(board_data(board).families =~= metrics@.board().families);
            assert(board_data(board).counters =~= metrics@.board().counters);
        }
        metrics
    }

    /// Counts a request to an endpoint that was answered with a status.
    pub fn mark_request(&mut self, endpoint: &str, status: u16)
        requires
            old(self).well_formed(),
        ensures
            final(self).well_formed(),
            final(self)@ == old(self)@.with_request(endpoint@, status),
    {
        let status_text: String = decimal_text(status as u64);
        let values: Vec<&str> = vec![endpoint, status_text.as_str()];
        assert(str_texts(values@) =~= seq![endpoint@, decimal(status as nat)]);
        count_series(&mut self.board, 0, &values);
        proof {
            let after = old(self)@.with_request(endpoint@, status);
            assert(board_data(self.board).families =~= after.board().families);
            assert(board_data(self.board).counters =~= after.board().counters);
        }
    }

    /// Counts a payment by its mode and its status.
    pub fn mark_payment(&mut self, mode: &str, status: &str)
        requires
            old(self).well_formed(),
        ensures
            final(self).well_formed(),
            final(self)@ == old(self)@.with_payment(mode@, status@),
    {
        let values: Vec<&str> = vec![mode, status];
        assert(str_texts(values@) =~= seq![mode@, status@]);
        count_series(&mut self.board, 1, &values);
        proof {
            let after = old(self)@.with_payment(mode@, status@);
            assert(board_data(self.board).families =~= after.board().families);
            assert(board_data(self.board).counters =~= after.board().counters);
        }
    }

    /// Counts a creator event by its skill, its platform and its type.
    pub fn mark_creator_event(&mut self, skill: &str, platform: &str, event_type: &str)
        requires
            old(self).well_formed(),
        ensures
            final(self).well_formed(),
            final(self)@ == old(self)@.with_creator_event(skill@, platform@, event_type@),
    {
        let values: Vec<&str> = vec![skill, platform, event_type];
        assert(str_texts(values@) =~= seq![skill@, platform@, event_type@]);
        count_series(&mut self.board, 2, &values);
        proof {
            let after = old(self)@.with_creator_event(skill@, platform@, event_type@);
            assert(board_data(self.board).families =~= after.board().families);
            assert(board_data(self.board).counters =~= after.board().counters);
        }
    }

    /// Adds to what sponsors have spent.
    pub fn add_sponsor_spend(&mut self, cents: u64)
        requires
            old(self).well_formed(),
        ensures
            final(self).well_formed(),
            final(self)@ == old(self)@.with_spend(cents),
    {
        add_to_counter(&mut self.board, 0, cents);
        proof {
            let after = old(self)@.with_spend(cents);
            assert(board_data(self.board).families =~= after.board().families);
            assert(board_data(self.board).counters =~= after.board().counters);
        }
    }

    /// The page that shows the counters, which is then counted as a request of its own.
    pub fn prometheus_metrics(&mut self) -> (r: MetricsPage)
        requires
            old(self).well_formed(),
        ensures
            final(self).well_formed(),
            final(self)@ == old(self)@.with_request("/metrics"@, r.status),
            shows_families(r, encoded_text(gathered(old(self)@.board()))),
    {
        let families: Vec<prometheus::proto::MetricFamily> = gather(&self.board);
        let mut buffer: Vec<u8> = Vec::new();
        let complete: bool = encode_families(&families, &mut buffer).is_ok();
        assert(buffer@ =~= encoded_text(families@).1);
        let page: MetricsPage = metrics_page(complete, &buffer);
        self.mark_request("/metrics", page.status);
        page
    }
}

} // verus!
