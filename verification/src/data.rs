//! The generic data route: one authenticated measurement in, one `data` span
//! out.

use crate::auth::authorize;
use crate::auth::grants;
use crate::auth::text_bytes;
use crate::clock::current_instant;
use crate::error::AppError;
use crate::error::AuthFault;
use crate::error::InputFault;
use crate::error::SerializationFault;
use crate::headers::is_text;
use crate::headers::lookup;
use crate::headers::reads_as_text;
use crate::headers::Field;
use crate::headers::Headers;
use crate::json::json_text;
use crate::json::write_json;
use crate::span::data_span;
use crate::span::SpanName;
use crate::span::SpanSink;
use crate::span::SpanView;
use crate::state::AppState;
use crate::status::StatusCode;
use serde_json::Value;
use vstd::prelude::*;

verus! {

/// The header a caller of the generic route presents its secret in.
pub const EMITTER: &'static str = "emitter";

/// A generic measurement: the stream it belongs to, when it was taken if the
/// sender said so, and whatever the sensor reported.
#[derive(Debug)]
pub struct Data {
    timestamp: Option<String>,
    bucket: String,
    payload: Value,
}

impl Data {
    /// Every measurement names its bucket.
    #[verifier::type_invariant]
    pub closed spec fn well_formed(self) -> bool {
        self.bucket@.len() > 0
    }

    /// The timestamp the sender gave, if any.
    pub closed spec fn timestamp_text(self) -> Option<Seq<char>> {
        match self.timestamp {
            Some(text) => Some(text@),
            None => None,
        }
    }

    /// The bucket the measurement belongs to.
    pub closed spec fn bucket_text(self) -> Seq<char> {
        self.bucket@
    }

    /// What the sensor reported.
    pub closed spec fn payload_value(self) -> Value {
        self.payload
    }

    /// Builds a measurement. One without a bucket name is refused.
    pub fn new(timestamp: Option<String>, bucket: String, payload: Value) -> (made: Result<
        Data,
        InputFault,
    >)
        ensures
            bucket@.len() == 0 ==> made == Err::<Data, InputFault>(InputFault::EmptyBucket),
            bucket@.len() > 0 ==> made is Ok,
            made matches Ok(data) ==> {
                &&& data.well_formed()
                &&& data.bucket_text() == bucket@
                &&& data.payload_value() == payload
                &&& data.timestamp_text() == match timestamp {
                    Some(text) => Some(text@),
                    None => None,
                }
            },
    {
        if bucket.as_str().is_empty() {
            Err(InputFault::EmptyBucket)
        } else {
            Ok(Data { timestamp, bucket, payload })
        }
    }

    /// The timestamp the sender gave, if any.
    pub fn timestamp(&self) -> (timestamp: Option<&str>)
        ensures
            match timestamp {
                Some(text) => self.timestamp_text() == Some(text@),
                None => self.timestamp_text() is None,
            },
    {
        match &self.timestamp {
            Some(text) => Some(text.as_str()),
            None => None,
        }
    }

    /// The bucket the measurement belongs to; never empty.
    pub fn bucket(&self) -> (bucket: &str)
        ensures
            bucket@ == self.bucket_text(),
            bucket@.len() > 0,
    {
        proof {
            use_type_invariant(self);
        }
        self.bucket.as_str()
    }

    /// What the sensor reported.
    pub fn payload(&self) -> (payload: &Value)
        ensures
            *payload == self.payload_value(),
    {
        &self.payload
    }
}

/// Why a request to the generic route is turned away before anything is
/// emitted, or `None` for one that is let in.
///
/// The token header is looked at first: without one the caller is refused
/// outright, and one that does not read as text is malformed. Then the body
/// must have decoded. Only then is the secret compared.
pub open spec fn rejection(
    headers: Seq<Field>,
    expected: Seq<char>,
    request: Result<Data, InputFault>,
) -> Option<AppError> {
    match lookup(headers, EMITTER@, 0) {
        None => Some(AppError::AuthorizationFailure(AuthFault::MissingToken)),
        Some(token) => if !is_text(token) {
            Some(AppError::MalformedInput(InputFault::TokenNotText))
        } else {
            match request {
                Err(fault) => Some(AppError::MalformedInput(fault)),
                Ok(_) => if grants(token, expected) {
                    None
                } else {
                    Some(AppError::AuthorizationFailure(AuthFault::WrongToken))
                },
            }
        },
    }
}

/// The instant a measurement is recorded under: the one its sender gave,
/// else the reading of the clock; `None` where neither is to be had.
pub open spec fn recorded_at(data: Data, reading: Result<String, jiff::Error>) -> Option<Seq<char>> {
    match data.timestamp_text() {
        Some(text) => Some(text),
        None => match reading {
            Ok(instant) => Some(instant@),
            Err(_) => None,
        },
    }
}

/// Decides whether a request to the generic route is let in, and hands back
/// the measurement of one that is.
pub fn admit_measurement(headers: &Headers, state: &AppState, request: Result<Data, InputFault>) -> (admitted:
    Result<Data, AppError>)
    ensures
        match rejection(headers@, state.embedded_token@, request) {
            Some(error) => admitted == Err::<Data, AppError>(error),
            None => admitted == Ok::<Data, AppError>(request->Ok_0),
        },
{
    let token = match headers.get(EMITTER) {
        Some(token) => token,
        None => return Err(AppError::AuthorizationFailure(AuthFault::MissingToken)),
    };
    if !reads_as_text(token) {
        return Err(AppError::MalformedInput(InputFault::TokenNotText));
    }
    let data = match request {
        Ok(data) => data,
        Err(fault) => return Err(AppError::MalformedInput(fault)),
    };
    if !authorize(token, state.embedded_token.as_str()) {
        return Err(AppError::AuthorizationFailure(AuthFault::WrongToken));
    }
    Ok(data)
}

/// What recording an admitted measurement comes to, given the clock reading:
/// the response, and the sink after it against the sink before.
///
/// With an instant to record it under and a payload that can be written, the
/// answer is `200` and exactly one span is added, bearing the bucket, that
/// instant and the payload's text. Otherwise the failure is reported and the
/// sink is as it was.
pub open spec fn recorded(
    data: Data,
    reading: Result<String, jiff::Error>,
    before: Seq<SpanView>,
    after: Seq<SpanView>,
    response: Result<StatusCode, AppError>,
) -> bool {
    match (recorded_at(data, reading), json_text(data.payload_value())) {
        (Some(instant), Some(payload)) => {
            &&& response == Ok::<StatusCode, AppError>(StatusCode(200))
            &&& after == before.push(data_span(data.bucket_text(), instant, payload))
        },
        (Some(_), None) => {
            &&& response matches Err(AppError::SerializationFailure(SerializationFault::Payload(_)))
            &&& after == before
        },
        (None, _) => {
            &&& response == Err::<StatusCode, AppError>(
                AppError::SerializationFailure(SerializationFault::Timestamp(reading->Err_0)),
            )
            &&& after == before
        },
    }
}

/// What a request to the generic route comes to, given the clock reading.
///
/// A request that `rejection` turns away is answered with that error and
/// emits nothing. One that is let in is recorded as `recorded` says.
pub open spec fn uploaded(
    headers: Seq<Field>,
    expected: Seq<char>,
    request: Result<Data, InputFault>,
    reading: Result<String, jiff::Error>,
    before: Seq<SpanView>,
    after: Seq<SpanView>,
    response: Result<StatusCode, AppError>,
) -> bool {
    match rejection(headers, expected, request) {
        Some(error) => response == Err::<StatusCode, AppError>(error) && after == before,
        None => recorded(request->Ok_0, reading, before, after, response),
    }
}

/// Turns an admitted measurement into its span, given what reading the clock
/// came to. The reading only matters for a measurement without a timestamp
/// of its own.
pub fn record_measurement(data: Data, reading: Result<String, jiff::Error>, sink: &mut SpanSink) -> (response:
    Result<StatusCode, AppError>)
    ensures
        recorded(data, reading, old(sink)@, final(sink)@, response),
{
    let Data { timestamp, bucket, payload } = data;
    let timestamp = match timestamp {
        Some(text) => text,
        None => match reading {
            Ok(instant) => instant,
            Err(cause) => return Err(AppError::from(cause)),
        },
    };
    let serialized = write_json(&payload);
    match sink.emit(SpanName::Data, bucket.as_str(), Some(timestamp), serialized) {
        Ok(()) => Ok(StatusCode::ok()),
        Err(error) => Err(error),
    }
}

/// The generic data route with the clock reading given by the caller.
pub fn upload_data_at(
    headers: &Headers,
    state: &AppState,
    request: Result<Data, InputFault>,
    reading: Result<String, jiff::Error>,
    sink: &mut SpanSink,
) -> (response: Result<StatusCode, AppError>)
    ensures
        uploaded(
            headers@,
            state.embedded_token@,
            request,
            reading,
            old(sink)@,
            final(sink)@,
            response,
        ),
{
    match admit_measurement(headers, state, request) {
        Ok(data) => record_measurement(data, reading, sink),
        Err(error) => Err(error),
    }
}

/// The generic data route.
///
/// Reads the clock, then answers as `upload_data_at` does for that reading.
/// Whatever the clock says, a request that `rejection` turns away gets that
/// error, and a measurement that brings its own timestamp is recorded under
/// it.
pub fn upload_data(
    headers: &Headers,
    state: &AppState,
    request: Result<Data, InputFault>,
    sink: &mut SpanSink,
) -> (response: Result<StatusCode, AppError>)
    ensures
        exists|reading: Result<String, jiff::Error>|
            uploaded(
                headers@,
                state.embedded_token@,
                request,
                reading,
                old(sink)@,
                final(sink)@,
                response,
            ),
{
    let reading = current_instant();
    upload_data_at(headers, state, request, reading, sink)
}

/// A valid measurement presented with the right secret is answered `200`
/// and adds exactly one span, which bears its bucket, its payload as JSON
/// text, and its timestamp: the sender's, or the clock's for want of one.
///
/// Valid means here: the secret travels as header text, the body decoded,
/// the payload can be written, and there is an instant to record it under.
pub proof fn lemma_valid_measurement_is_recorded(
    headers: Seq<Field>,
    expected: Seq<char>,
    request: Result<Data, InputFault>,
    reading: Result<String, jiff::Error>,
    before: Seq<SpanView>,
    after: Seq<SpanView>,
    response: Result<StatusCode, AppError>,
)
    requires
        uploaded(headers, expected, request, reading, before, after, response),
        lookup(headers, EMITTER@, 0) == Some(text_bytes(expected)),
        is_text(text_bytes(expected)),
        request is Ok,
        recorded_at(request->Ok_0, reading) is Some,
        json_text(request->Ok_0.payload_value()) is Some,
    ensures
        response == Ok::<StatusCode, AppError>(StatusCode(200)),
        after.len() == before.len() + 1,
        after.take(before.len() as int) == before,
        after.last().name == SpanName::Data,
        after.last().bucket == request->Ok_0.bucket_text(),
        after.last().body == json_text(request->Ok_0.payload_value())->0,
        after.last().timestamp == recorded_at(request->Ok_0, reading),
        request->Ok_0.timestamp_text() is Some ==> after.last().timestamp
            == request->Ok_0.timestamp_text(),
        request->Ok_0.timestamp_text() is None ==> after.last().timestamp == Some(
            reading->Ok_0@,
        ),
{
    assert(after.take(before.len() as int) =~= before);
}

/// A request whose secret is missing or wrong emits no span and is refused.
/// It is answered `401` when the secret is missing, and when a wrong one
/// arrived as header text beside a body that decoded; a secret that is not
/// header text, and a wrong one beside a body that did not decode, are
/// answered `400`.
pub proof fn lemma_unauthorized_measurement_emits_nothing(
    headers: Seq<Field>,
    expected: Seq<char>,
    request: Result<Data, InputFault>,
    reading: Result<String, jiff::Error>,
    before: Seq<SpanView>,
    after: Seq<SpanView>,
    response: Result<StatusCode, AppError>,
)
    requires
        uploaded(headers, expected, request, reading, before, after, response),
        lookup(headers, EMITTER@, 0) matches Some(token) ==> !grants(token, expected),
    ensures
        after == before,
        response is Err,
        lookup(headers, EMITTER@, 0) is None ==> response == Err::<StatusCode, AppError>(
            AppError::AuthorizationFailure(AuthFault::MissingToken),
        ) && response->Err_0.status() == StatusCode(401),
        lookup(headers, EMITTER@, 0) matches Some(token) && is_text(token) && request is Ok
            ==> response == Err::<StatusCode, AppError>(
            AppError::AuthorizationFailure(AuthFault::WrongToken),
        ) && response->Err_0.status() == StatusCode(401),
        lookup(headers, EMITTER@, 0) matches Some(token) && !(is_text(token) && request is Ok)
            ==> response->Err_0.status() == StatusCode(400),
{
}

/// A body that did not decode, a bucket-less one included, emits no span,
/// and is answered `400` whatever secret came with it, as long as one came.
pub proof fn lemma_malformed_measurement_emits_nothing(
    headers: Seq<Field>,
    expected: Seq<char>,
    request: Result<Data, InputFault>,
    reading: Result<String, jiff::Error>,
    before: Seq<SpanView>,
    after: Seq<SpanView>,
    response: Result<StatusCode, AppError>,
)
    requires
        uploaded(headers, expected, request, reading, before, after, response),
        request is Err,
    ensures
        after == before,
        response is Err,
        lookup(headers, EMITTER@, 0) is Some ==> response->Err_0.status() == StatusCode(400),
{
}

/// Nothing is deduplicated: the same request submitted twice, and accepted
/// the first time, adds two spans, one per submission, as long as the second
/// submission too has an instant to be recorded under. The two spans agree
/// in bucket and payload, and in timestamp where the sender gave one.
pub proof fn lemma_resubmission_adds_a_second_span(
    headers: Seq<Field>,
    expected: Seq<char>,
    request: Result<Data, InputFault>,
    first_reading: Result<String, jiff::Error>,
    second_reading: Result<String, jiff::Error>,
    before: Seq<SpanView>,
    between: Seq<SpanView>,
    after: Seq<SpanView>,
    first: Result<StatusCode, AppError>,
    second: Result<StatusCode, AppError>,
)
    requires
        uploaded(headers, expected, request, first_reading, before, between, first),
        uploaded(headers, expected, request, second_reading, between, after, second),
        first is Ok,
        recorded_at(request->Ok_0, second_reading) is Some,
    ensures
        second == first,
        after.len() == before.len() + 2,
        after.take(before.len() as int) == before,
        after[before.len() as int].bucket == after[before.len() as int + 1].bucket,
        after[before.len() as int].body == after[before.len() as int + 1].body,
        after[before.len() as int].timestamp == recorded_at(request->Ok_0, first_reading),
        after[before.len() as int + 1].timestamp == recorded_at(request->Ok_0, second_reading),
        request->Ok_0.timestamp_text() is Some ==> after[before.len() as int] == after[before.len() as int
            + 1],
{
    assert(after.take(before.len() as int) =~= before);
}

} // verus!
