//! The time-series store as the dashboard sees it: three fixed queries, the
//! request that carries one, and what came back for it.

use crate::state::AppState;
use crate::status::StatusCode;
use vstd::prelude::*;

verus! {

/// Where the store listens.
pub const STORE_URL: &'static str = "http://localhost:8123/";

/// Average CO2 per 10-second window over the trailing 3 hours, newest first.
pub const CO2_VALUES_QUERY: &'static str = "
    SELECT
        toStartOfInterval(parseDateTime64BestEffort(SpanAttributes['timestamp']), toIntervalMillisecond(10000)) as time,
        avg(JSONExtractFloat(SpanAttributes['payload'], 'co2')) as co2_ppm
    FROM
        events.otel_traces
    WHERE
        JSONHas(SpanAttributes['payload'], 'co2')
        AND SpanName = 'data'
        AND (
            Timestamp >= now() - INTERVAL 3 HOUR
        )
    GROUP BY
        time
    ORDER BY
        time DESC;
    ";

/// Average CO2 over the trailing 2 minutes.
pub const CO2_LATEST_QUERY: &'static str = "
    SELECT
        avg(JSONExtractFloat(SpanAttributes['payload'], 'co2')) as avg_co2
    FROM
        events.otel_traces
    WHERE
        JSONHas(SpanAttributes['payload'], 'co2')
        AND SpanName = 'data'
        AND Timestamp >= now() - INTERVAL 2 MINUTE
    ";

/// Average humidity of the laundry-room bucket over the trailing 2 hours.
pub const HUM_LATEST_QUERY: &'static str = "
    SELECT
        avg(JSONExtractFloat(SpanAttributes['payload'], 'humidity')) as humidity 
    FROM
        events.otel_traces
    WHERE
        JSONHas(SpanAttributes['payload'], 'humidity')
        AND SpanName = 'data'
        AND SpanAttributes['bucket'] = 'humidity-laundry-room'
        AND Timestamp >= now() - INTERVAL 2 HOUR 
    ";

/// One of the three reads behind the dashboard.
#[derive(Clone, Copy, Debug, PartialEq, Eq, Structural)]
pub enum Query {
    Co2Values,
    Co2Latest,
    HumLatest,
}

impl Query {
    /// The query text sent to the store.
    pub open spec fn text(self) -> Seq<char> {
        match self {
            Query::Co2Values => CO2_VALUES_QUERY@,
            Query::Co2Latest => CO2_LATEST_QUERY@,
            Query::HumLatest => HUM_LATEST_QUERY@,
        }
    }

    /// The query text sent to the store.
    pub fn sql(self) -> (text: &'static str)
        ensures
            text@ == self.text(),
    {
        match self {
            Query::Co2Values => CO2_VALUES_QUERY,
            Query::Co2Latest => CO2_LATEST_QUERY,
            Query::HumLatest => HUM_LATEST_QUERY,
        }
    }
}

/// Header that asks the store for a JSON result set.
pub const FORMAT_HEADER: &'static str = "X-ClickHouse-Format";

/// The result format asked for.
pub const JSON_FORMAT: &'static str = "JSON";

/// Header that names the user.
pub const USER_HEADER: &'static str = "X-ClickHouse-User";

/// Header that carries the user's key.
pub const KEY_HEADER: &'static str = "X-ClickHouse-Key";

/// One query on its way to the store: a POST of the query text to `url`
/// under the given headers.
#[derive(Debug)]
pub struct StoreRequest {
    pub url: String,
    pub body: String,
    pub headers: Vec<(String, String)>,
}

/// The headers every query travels under, for the given credentials.
pub open spec fn store_headers(user: Seq<char>, password: Seq<char>) -> Seq<(Seq<char>, Seq<char>)> {
    seq![
        (FORMAT_HEADER@, JSON_FORMAT@),
        (USER_HEADER@, user),
        (KEY_HEADER@, password),
    ]
}

impl StoreRequest {
    /// The header lines of the request as texts.
    pub open spec fn header_lines(self) -> Seq<(Seq<char>, Seq<char>)> {
        Seq::new(self.headers@.len(), |i: int| (self.headers@[i].0@, self.headers@[i].1@))
    }

    /// The request that carries `query` to the store with the configured
    /// credentials.
    pub fn new(query: Query, state: &AppState) -> (request: StoreRequest)
        ensures
            request.url@ == STORE_URL@,
            request.body@ == query.text(),
            request.header_lines() == store_headers(state.store_user@, state.store_password@),
    {
        let mut headers: Vec<(String, String)> = Vec::new();
        headers.push((FORMAT_HEADER.to_owned(), JSON_FORMAT.to_owned()));
        headers.push((USER_HEADER.to_owned(), state.store_user.clone()));
        headers.push((KEY_HEADER.to_owned(), state.store_password.clone()));
        let request = StoreRequest {
            url: STORE_URL.to_owned(),
            body: query.sql().to_owned(),
            headers,
        };
        assert(request.header_lines() =~= store_headers(
            state.store_user@,
            state.store_password@,
        ));
        request
    }
}

/// What the store sent back for one query.
#[derive(Debug)]
pub struct StoreReply {
    pub status: StatusCode,
    pub body: Vec<u8>,
}

/// How sending one query ended: with the store's reply, or with the reason
/// the store could not be reached.
pub type QueryOutcome = Result<StoreReply, String>;

} // verus!
