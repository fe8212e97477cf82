//! The dashboard: three queries fanned out to the store, and their answers
//! merged into one response or none at all.

use crate::error::AppError;
use crate::error::BackendFault;
use crate::headers::Headers;
use crate::json::json_value;
use crate::json::read_json;
use crate::state::AppState;
use crate::status::StatusCode;
use crate::store::Query;
use crate::store::QueryOutcome;
use crate::store::StoreReply;
use crate::store::StoreRequest;
use serde_json::Error;
use serde_json::Value;
use vstd::prelude::*;

verus! {

/// What the dashboard shows: the result set of each of the three queries, as
/// the store returned it.
#[derive(Debug)]
pub struct DashboardResponse {
    pub co2_values: Value,
    pub co2_latest: Value,
    pub hum_latest: Value,
}

/// The three requests behind one dashboard, in the order their answers are
/// examined. They do not depend on one another and may be sent together.
pub fn dashboard_requests(state: &AppState) -> (requests: (StoreRequest, StoreRequest, StoreRequest))
    ensures
        requests.0.url@ == crate::store::STORE_URL@,
        requests.1.url@ == crate::store::STORE_URL@,
        requests.2.url@ == crate::store::STORE_URL@,
        requests.0.body@ == Query::Co2Values.text(),
        requests.1.body@ == Query::Co2Latest.text(),
        requests.2.body@ == Query::HumLatest.text(),
        requests.0.header_lines() == crate::store::store_headers(
            state.store_user@,
            state.store_password@,
        ),
        requests.1.header_lines() == requests.0.header_lines(),
        requests.2.header_lines() == requests.0.header_lines(),
{
    (
        StoreRequest::new(Query::Co2Values, state),
        StoreRequest::new(Query::Co2Latest, state),
        StoreRequest::new(Query::HumLatest, state),
    )
}

/// The first query, in dashboard order, for which the store was not reached.
pub open spec fn first_unreachable(
    co2_values: QueryOutcome,
    co2_latest: QueryOutcome,
    hum_latest: QueryOutcome,
) -> Option<AppError> {
    if co2_values is Err {
        Some(AppError::BackendUnavailable { query: Query::Co2Values, cause: co2_values->Err_0 })
    } else if co2_latest is Err {
        Some(AppError::BackendUnavailable { query: Query::Co2Latest, cause: co2_latest->Err_0 })
    } else if hum_latest is Err {
        Some(AppError::BackendUnavailable { query: Query::HumLatest, cause: hum_latest->Err_0 })
    } else {
        None
    }
}

/// The failure a reply stands for when its status is outside the success
/// class.
pub open spec fn refusal(query: Query, reply: StoreReply) -> AppError {
    AppError::BackendError(
        BackendFault::Status { query, status: reply.status, body: reply.body },
    )
}

/// The first query, in dashboard order, that the store answered with a
/// status outside the success class.
pub open spec fn first_refused(co2_values: StoreReply, co2_latest: StoreReply, hum_latest: StoreReply) -> Option<
    AppError,
> {
    if !co2_values.status.success() {
        Some(refusal(Query::Co2Values, co2_values))
    } else if !co2_latest.status.success() {
        Some(refusal(Query::Co2Latest, co2_latest))
    } else if !hum_latest.status.success() {
        Some(refusal(Query::HumLatest, hum_latest))
    } else {
        None
    }
}

/// Whether an error says that the store's answer to `query` is not JSON.
pub open spec fn undecodable(error: AppError, query: Query) -> bool {
    error matches AppError::BackendError(BackendFault::Undecodable { query: failed, .. })
        && failed == query
}

/// What merging three decoded answers comes to: all three result sets, or
/// the failure of the first, in dashboard order, that did not decode.
pub open spec fn assembled(
    co2_values: Result<Value, Error>,
    co2_latest: Result<Value, Error>,
    hum_latest: Result<Value, Error>,
) -> Result<DashboardResponse, AppError> {
    match (co2_values, co2_latest, hum_latest) {
        (Err(cause), _, _) => Err(
            AppError::BackendError(BackendFault::Undecodable { query: Query::Co2Values, cause }),
        ),
        (Ok(_), Err(cause), _) => Err(
            AppError::BackendError(BackendFault::Undecodable { query: Query::Co2Latest, cause }),
        ),
        (Ok(_), Ok(_), Err(cause)) => Err(
            AppError::BackendError(BackendFault::Undecodable { query: Query::HumLatest, cause }),
        ),
        (Ok(co2_values), Ok(co2_latest), Ok(hum_latest)) => Ok(
            DashboardResponse { co2_values, co2_latest, hum_latest },
        ),
    }
}

/// Merges three decoded answers: if every one decoded, the dashboard holds
/// all three; otherwise there is no dashboard, only the first failure.
pub fn assemble(
    co2_values: Result<Value, Error>,
    co2_latest: Result<Value, Error>,
    hum_latest: Result<Value, Error>,
) -> (response: Result<DashboardResponse, AppError>)
    ensures
        response == assembled(co2_values, co2_latest, hum_latest),
{
    let co2_values = match co2_values {
        Ok(value) => value,
        Err(cause) => return Err(
            AppError::BackendError(BackendFault::Undecodable { query: Query::Co2Values, cause }),
        ),
    };
    let co2_latest = match co2_latest {
        Ok(value) => value,
        Err(cause) => return Err(
            AppError::BackendError(BackendFault::Undecodable { query: Query::Co2Latest, cause }),
        ),
    };
    let hum_latest = match hum_latest {
        Ok(value) => value,
        Err(cause) => return Err(
            AppError::BackendError(BackendFault::Undecodable { query: Query::HumLatest, cause }),
        ),
    };
    Ok(DashboardResponse { co2_values, co2_latest, hum_latest })
}

/// What the three outcomes of a dashboard's queries come to.
///
/// A query for which the store was not reached fails the dashboard; so does
/// a reply with a status outside the success class; so does a body that is
/// not JSON. They are looked for in that order, and within each in dashboard
/// order. Only when none is found is there a dashboard, and it then holds
/// the three decoded bodies.
pub open spec fn aggregated(
    co2_values: QueryOutcome,
    co2_latest: QueryOutcome,
    hum_latest: QueryOutcome,
    response: Result<DashboardResponse, AppError>,
) -> bool {
    match first_unreachable(co2_values, co2_latest, hum_latest) {
        Some(error) => response == Err::<DashboardResponse, AppError>(error),
        None => match first_refused(co2_values->Ok_0, co2_latest->Ok_0, hum_latest->Ok_0) {
            Some(error) => response == Err::<DashboardResponse, AppError>(error),
            None => match (
                json_value(co2_values->Ok_0.body@),
                json_value(co2_latest->Ok_0.body@),
                json_value(hum_latest->Ok_0.body@),
            ) {
                (None, _, _) => response matches Err(error) && undecodable(
                    error,
                    Query::Co2Values,
                ),
                (Some(_), None, _) => response matches Err(error) && undecodable(
                    error,
                    Query::Co2Latest,
                ),
                (Some(_), Some(_), None) => response matches Err(error) && undecodable(
                    error,
                    Query::HumLatest,
                ),
                (Some(co2_values), Some(co2_latest), Some(hum_latest)) => response == Ok::<
                    DashboardResponse,
                    AppError,
                >(DashboardResponse { co2_values, co2_latest, hum_latest }),
            },
        },
    }
}

/// The dashboard route, given how each of its three queries ended.
///
/// The request's headers play no part: the route asks for no credentials.
pub fn get_dashboard_data(
    _headers: &Headers,
    co2_values: QueryOutcome,
    co2_latest: QueryOutcome,
    hum_latest: QueryOutcome,
) -> (response: Result<DashboardResponse, AppError>)
    ensures
        aggregated(co2_values, co2_latest, hum_latest, response),
{
    let co2_values = match co2_values {
        Ok(reply) => reply,
        Err(cause) => return Err(
            AppError::BackendUnavailable { query: Query::Co2Values, cause },
        ),
    };
    let co2_latest = match co2_latest {
        Ok(reply) => reply,
        Err(cause) => return Err(
            AppError::BackendUnavailable { query: Query::Co2Latest, cause },
        ),
    };
    let hum_latest = match hum_latest {
        Ok(reply) => reply,
        Err(cause) => return Err(
            AppError::BackendUnavailable { query: Query::HumLatest, cause },
        ),
    };
    if !co2_values.status.is_success() {
        return Err(refuse(Query::Co2Values, co2_values));
    }
    if !co2_latest.status.is_success() {
        return Err(refuse(Query::Co2Latest, co2_latest));
    }
    if !hum_latest.status.is_success() {
        return Err(refuse(Query::HumLatest, hum_latest));
    }
    let first = read_json(co2_values.body.as_slice());
    let second = read_json(co2_latest.body.as_slice());
    let third = read_json(hum_latest.body.as_slice());
    assemble(first, second, third)
}

/// The failure a reply with a status outside the success class stands for.
fn refuse(query: Query, reply: StoreReply) -> (error: AppError)
    ensures
        error == refusal(query, reply),
{
    AppError::BackendError(BackendFault::Status { query, status: reply.status, body: reply.body })
}

/// All or nothing: if the store answered any one of the three queries with a
/// status outside the success class, there is no dashboard, not even a
/// partial one, and the failure is answered `500`.
pub proof fn lemma_refused_query_fails_dashboard(
    co2_values: QueryOutcome,
    co2_latest: QueryOutcome,
    hum_latest: QueryOutcome,
    response: Result<DashboardResponse, AppError>,
)
    requires
        aggregated(co2_values, co2_latest, hum_latest, response),
        (co2_values matches Ok(reply) && !reply.status.success()) || (co2_latest matches Ok(reply)
            && !reply.status.success()) || (hum_latest matches Ok(reply)
            && !reply.status.success()),
    ensures
        response matches Err(error) && error.status() == StatusCode(500),
{
}

/// Every way a dashboard can fail is answered `500`, and a dashboard that
/// did not fail holds all three result sets: each is the JSON its query's
/// reply spelled, and each of those replies had a success status.
pub proof fn lemma_dashboard_is_whole_or_absent(
    co2_values: QueryOutcome,
    co2_latest: QueryOutcome,
    hum_latest: QueryOutcome,
    response: Result<DashboardResponse, AppError>,
)
    requires
        aggregated(co2_values, co2_latest, hum_latest, response),
    ensures
        response matches Err(error) ==> error.status() == StatusCode(500),
        response matches Ok(dashboard) ==> {
            &&& co2_values matches Ok(reply) && reply.status.success() && json_value(reply.body@)
                == Some(dashboard.co2_values)
            &&& co2_latest matches Ok(reply) && reply.status.success() && json_value(reply.body@)
                == Some(dashboard.co2_latest)
            &&& hum_latest matches Ok(reply) && reply.status.success() && json_value(reply.body@)
                == Some(dashboard.hum_latest)
        },
{
}

} // verus!
