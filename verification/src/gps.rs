//! The GPS batch route: an authenticated batch of locations in, one
//! `gps-location` span per location out, in the order given.

use crate::auth::authorize;
use crate::auth::lemma_grants_text;
use crate::error::AppError;
use crate::error::AuthFault;
use crate::error::InputFault;
use crate::error::SerializationFault;
use crate::json::json_text;
use crate::json::write_json;
use crate::span::gps_span;
use crate::span::SpanName;
use crate::span::SpanSink;
use crate::span::SpanView;
use crate::state::AppState;
use crate::status::StatusCode;
use serde_json::Value;
use vstd::prelude::*;

verus! {

/// What a successful upload is answered with.
pub const UPLOADED: &'static str = "ok";

/// The body of the answer to a GPS upload.
#[derive(Debug)]
pub struct GPSUploadResponse {
    pub result: String,
}

/// One GPS point: a feature with its type, a geometry of type and
/// longitude/latitude, and free-form properties. The route only ever writes
/// a point out again, so it is kept as the JSON value it was decoded into.
#[derive(Debug)]
pub struct GPSLocation {
    pub feature: Value,
}

/// A batch of GPS points, in the order they were sent. It may be empty.
#[derive(Debug)]
pub struct GPSData {
    pub locations: Vec<GPSLocation>,
}

/// Index of the first location at or after `from` that cannot be written as
/// JSON; the number of locations where every one from there on can.
pub open spec fn first_unwritable(locations: Seq<GPSLocation>, from: int) -> int
    decreases locations.len() - from,
{
    if from < 0 || from >= locations.len() {
        locations.len() as int
    } else if json_text(locations[from].feature) is None {
        from
    } else {
        first_unwritable(locations, from + 1)
    }
}

/// The spans of the first `count` locations of a batch, in batch order, each
/// tagged with `bucket`.
pub open spec fn location_spans(bucket: Seq<char>, locations: Seq<GPSLocation>, count: int) -> Seq<
    SpanView,
> {
    Seq::new(count as nat, |i: int| gps_span(bucket, json_text(locations[i].feature)->0))
}

/// What a request to the GPS route comes to: the response, and the sink
/// after it against the sink before.
///
/// The secret is compared first; a wrong one is refused with nothing
/// emitted. Then the body must have decoded. Then the locations are emitted
/// one by one, in order, up to the first that cannot be written: spans
/// emitted before that one stay emitted, and the failure is reported. With
/// no such location the answer is `ok`.
pub open spec fn batch_uploaded(
    expected: Seq<char>,
    bucket: Seq<char>,
    token: Seq<char>,
    payload: Result<GPSData, InputFault>,
    before: Seq<SpanView>,
    after: Seq<SpanView>,
    response: Result<GPSUploadResponse, AppError>,
) -> bool {
    if token != expected {
        response == Err::<GPSUploadResponse, AppError>(
            AppError::AuthorizationFailure(AuthFault::WrongToken),
        ) && after == before
    } else {
        match payload {
            Err(fault) => response == Err::<GPSUploadResponse, AppError>(
                AppError::MalformedInput(fault),
            ) && after == before,
            Ok(batch) => {
                let emitted = first_unwritable(batch.locations@, 0);
                &&& after == before + location_spans(bucket, batch.locations@, emitted)
                &&& if emitted == batch.locations@.len() {
                    response matches Ok(answer) && answer.result@ == UPLOADED@
                } else {
                    response matches Err(
                        AppError::SerializationFailure(SerializationFault::Payload(_)),
                    )
                }
            },
        }
    }
}

/// Where the first unwritable location lies, relative to the batch.
pub proof fn lemma_first_unwritable(locations: Seq<GPSLocation>, from: int)
    requires
        0 <= from <= locations.len(),
    ensures
        from <= first_unwritable(locations, from) <= locations.len(),
        forall|i: int|
            from <= i < first_unwritable(locations, from) ==> json_text(
                #[trigger] locations[i].feature,
            ) is Some,
        first_unwritable(locations, from) < locations.len() ==> json_text(
            locations[first_unwritable(locations, from)].feature,
        ) is None,
    decreases locations.len() - from,
{
    if from < locations.len() && json_text(locations[from].feature) is Some {
        lemma_first_unwritable(locations, from + 1);
    }
}

/// The GPS batch route.
pub fn upload_gps_data(
    state: &AppState,
    bucket: &str,
    token: &str,
    payload: Result<GPSData, InputFault>,
    sink: &mut SpanSink,
) -> (response: Result<GPSUploadResponse, AppError>)
    ensures
        batch_uploaded(
            state.gps_token@,
            bucket@,
            token@,
            payload,
            old(sink)@,
            final(sink)@,
            response,
        ),
{
    proof {
        lemma_grants_text(token@, state.gps_token@);
    }
    if !authorize(token.as_bytes(), state.gps_token.as_str()) {
        return Err(AppError::AuthorizationFailure(AuthFault::WrongToken));
    }
    let batch = match payload {
        Ok(batch) => batch,
        Err(fault) => return Err(AppError::MalformedInput(fault)),
    };
    let ghost before = sink@;
    let ghost locations = batch.locations@;
    assert(sink@ =~= before + location_spans(bucket@, locations, 0));
    let mut at: usize = 0;
    while at < batch.locations.len()
        invariant
            token@ == state.gps_token@,
            payload == Ok::<GPSData, InputFault>(batch),
            before == old(sink)@,
            locations == batch.locations@,
            at <= locations.len(),
            first_unwritable(locations, 0) == first_unwritable(locations, at as int),
            sink@ == before + location_spans(bucket@, locations, at as int),
        decreases locations.len() - at,
    {
        let serialized = write_json(&batch.locations[at].feature);
        match sink.emit(SpanName::GpsLocation, bucket, None, serialized) {
            Ok(()) => {},
            Err(error) => {
                return Err(error);
            },
        }
        assert(sink@ =~= before + location_spans(bucket@, locations, at as int + 1));
        at += 1;
    }
    Ok(GPSUploadResponse { result: UPLOADED.to_owned() })
}

/// A request with a wrong secret emits no span and is answered `401`,
/// whatever its body.
pub proof fn lemma_wrong_token_emits_nothing(
    expected: Seq<char>,
    bucket: Seq<char>,
    token: Seq<char>,
    payload: Result<GPSData, InputFault>,
    before: Seq<SpanView>,
    after: Seq<SpanView>,
    response: Result<GPSUploadResponse, AppError>,
)
    requires
        batch_uploaded(expected, bucket, token, payload, before, after, response),
        token != expected,
    ensures
        after == before,
        response == Err::<GPSUploadResponse, AppError>(
            AppError::AuthorizationFailure(AuthFault::WrongToken),
        ),
        response->Err_0.status() == StatusCode(401),
{
}

/// An authorized batch of N locations that can all be written adds exactly
/// N spans: the i-th added span is that of the i-th location, and every one
/// is tagged with the bucket of the request. The answer is `ok`.
pub proof fn lemma_batch_emits_one_span_per_location(
    expected: Seq<char>,
    bucket: Seq<char>,
    token: Seq<char>,
    batch: GPSData,
    before: Seq<SpanView>,
    after: Seq<SpanView>,
    response: Result<GPSUploadResponse, AppError>,
)
    requires
        batch_uploaded(
            expected,
            bucket,
            token,
            Ok::<GPSData, InputFault>(batch),
            before,
            after,
            response,
        ),
        token == expected,
        forall|i: int|
            0 <= i < batch.locations@.len() ==> json_text(
                #[trigger] batch.locations@[i].feature,
            ) is Some,
    ensures
        response matches Ok(answer) && answer.result@ == UPLOADED@,
        after.len() == before.len() + batch.locations@.len(),
        after.take(before.len() as int) == before,
        forall|i: int|
            0 <= i < batch.locations@.len() ==> #[trigger] after[before.len() + i] == gps_span(
                bucket,
                json_text(batch.locations@[i].feature)->0,
            ),
{
    lemma_first_unwritable(batch.locations@, 0);
    assert(after.take(before.len() as int) =~= before);
}

/// An authorized batch stops at its first location that cannot be written:
/// the locations before it have their spans, in order and under the bucket
/// of the request, no later one has, and the failure is reported as a `500`.
pub proof fn lemma_batch_stops_at_first_failure(
    expected: Seq<char>,
    bucket: Seq<char>,
    token: Seq<char>,
    batch: GPSData,
    failed: int,
    before: Seq<SpanView>,
    after: Seq<SpanView>,
    response: Result<GPSUploadResponse, AppError>,
)
    requires
        batch_uploaded(
            expected,
            bucket,
            token,
            Ok::<GPSData, InputFault>(batch),
            before,
            after,
            response,
        ),
        token == expected,
        0 <= failed < batch.locations@.len(),
        json_text(batch.locations@[failed].feature) is None,
        forall|i: int|
            0 <= i < failed ==> json_text(#[trigger] batch.locations@[i].feature) is Some,
    ensures
        response matches Err(error) && error.status() == StatusCode(500),
        after.len() == before.len() + failed,
        after.take(before.len() as int) == before,
        forall|i: int|
            0 <= i < failed ==> #[trigger] after[before.len() + i] == gps_span(
                bucket,
                json_text(batch.locations@[i].feature)->0,
            ),
{
    lemma_first_unwritable(batch.locations@, 0);
    let emitted = first_unwritable(batch.locations@, 0);
    if emitted < failed {
        assert(json_text(batch.locations@[emitted].feature) is Some);
    }
    if emitted > failed {
        assert(json_text(batch.locations@[failed].feature) is Some);
    }
    assert(after.take(before.len() as int) =~= before);
}

/// An authorized empty batch is answered `ok` and emits no span.
pub proof fn lemma_empty_batch_emits_nothing(
    expected: Seq<char>,
    bucket: Seq<char>,
    token: Seq<char>,
    batch: GPSData,
    before: Seq<SpanView>,
    after: Seq<SpanView>,
    response: Result<GPSUploadResponse, AppError>,
)
    requires
        batch_uploaded(
            expected,
            bucket,
            token,
            Ok::<GPSData, InputFault>(batch),
            before,
            after,
            response,
        ),
        token == expected,
        batch.locations@.len() == 0,
    ensures
        response matches Ok(answer) && answer.result@ == UPLOADED@,
        after == before,
{
    assert(after =~= before);
}

} // verus!
