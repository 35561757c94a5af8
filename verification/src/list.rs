//! The listing dispatcher: page-window arithmetic, the count gate, the
//! compiled listing statement, and the paged response with its metadata
//! headers.

use vstd::prelude::*;
use vstd::string::*;

use crate::crud::{
    Header, Payload, PayloadModel, Response, ResponseModel, StorageError, response_model,
    status_model, status_response, BAD_REQUEST, INTERNAL_SERVER_ERROR, NOT_FOUND, OK,
};
use crate::prelude::{
    BindModel, DatabaseFetchAll, Query, binds_model, opt_i64, opt_str, spec_fetch_all_binds,
    spec_fetch_all_sql,
};
use crate::text::{i64_dec, spec_idec, spec_udec, u64_dec};

verus! {

/// The listing limit applied when the request names none.
pub const DEFAULT_LIMIT: i64 = 50;

/// The largest limit a request may name.
pub const MAX_LIMIT: i64 = 250;

/// The raw listing parameters of a request, each absent when the
/// request did not name it.
#[derive(Debug, PartialEq)]
pub struct QueryParams {
    pub search: Option<String>,
    pub order: Option<String>,
    pub offset: Option<i64>,
    pub limit: Option<i64>,
}

/// A validated page window: how many rows to skip and how many to
/// return.
#[derive(Debug, PartialEq, Eq, Clone, Copy)]
pub struct PageWindow {
    pub offset: i64,
    pub limit: i64,
}

impl PageWindow {
    /// A well-formed window: a nonnegative offset and a limit between
    /// one and [`MAX_LIMIT`].
    pub open spec fn wf(self) -> bool {
        0 <= self.offset && 1 <= self.limit <= MAX_LIMIT as int
    }
}

/// The offset a request asks for, zero when absent.
pub open spec fn spec_offset(q: QueryParams) -> int {
    match q.offset {
        Some(v) => v as int,
        None => 0,
    }
}

/// The limit a request asks for, [`DEFAULT_LIMIT`] when absent.
pub open spec fn spec_limit(q: QueryParams) -> int {
    match q.limit {
        Some(v) => v as int,
        None => DEFAULT_LIMIT as int,
    }
}

/// Whether the requested window is acceptable.
pub open spec fn window_ok(q: QueryParams) -> bool {
    spec_offset(q) >= 0 && 1 <= spec_limit(q) <= MAX_LIMIT as int
}

/// Derives the page window from the request parameters: 400 exactly
/// when the offset is negative or the limit falls outside
/// `[1, MAX_LIMIT]`, after defaulting.
pub fn list_window(q: &QueryParams) -> (r: Result<PageWindow, u16>)
    ensures
        (r is Ok) == window_ok(*q),
        r is Ok ==> r->Ok_0.offset as int == spec_offset(*q) && r->Ok_0.limit as int == spec_limit(
            *q,
        ) && r->Ok_0.wf(),
        r is Err ==> r->Err_0 == BAD_REQUEST,
{
    let offset = match q.offset {
        Some(v) => v,
        None => 0,
    };
    let limit = match q.limit {
        Some(v) => v,
        None => DEFAULT_LIMIT,
    };
    if offset < 0 || limit <= 0 || limit > MAX_LIMIT {
        Err(BAD_REQUEST)
    } else {
        Ok(PageWindow { offset, limit })
    }
}

/// What follows the count gate: a finished response, or the order to
/// run the compiled listing statement, with the total row count kept
/// for the response headers.
#[derive(Debug, PartialEq)]
pub enum ListStep<T> {
    Early(Response<T>),
    Fetch(Query, i64),
}

/// The mathematical shadow of a [`ListStep`]: the early response, or
/// the statement text, its bind values and the total.
#[verifier::ext_equal]
pub enum ListStepModel<T> {
    Early(ResponseModel<T>),
    Fetch(Seq<char>, Seq<BindModel>, int),
}

/// The model of a list step.
pub open spec fn list_step_model<T>(s: ListStep<T>) -> ListStepModel<T> {
    match s {
        ListStep::Early(r) => ListStepModel::Early(response_model(r)),
        ListStep::Fetch(q, total) => ListStepModel::Fetch(
            q.sql@,
            binds_model(q.binds@),
            total as int,
        ),
    }
}

/// The listing decision: 400 for a bad window, 500 when the count
/// failed, 404 when the table holds no rows, else the compiled listing
/// statement for the requested search, order and window.
pub open spec fn spec_list<T: DatabaseFetchAll>(
    q: QueryParams,
    parent_id: Option<i64>,
    count: Result<i64, StorageError>,
) -> ListStepModel<T> {
    if !window_ok(q) {
        ListStepModel::Early(status_model(BAD_REQUEST as int))
    } else {
        match count {
            Err(_) => ListStepModel::Early(status_model(INTERNAL_SERVER_ERROR as int)),
            Ok(total) => if total <= 0 {
                ListStepModel::Early(status_model(NOT_FOUND as int))
            } else {
                ListStepModel::Fetch(
                    spec_fetch_all_sql(opt_str(q.search), opt_str(q.order), T::spec_fields()),
                    spec_fetch_all_binds(
                        opt_str(q.search),
                        opt_i64(parent_id),
                        spec_offset(q),
                        spec_limit(q),
                        T::spec_fields(),
                    ),
                    total as int,
                )
            },
        }
    }
}

/// Runs the listing decision up to the row fetch.  The caller checks
/// the window with [`list_window`] before counting, so that a bad
/// request never reaches storage; this function decides the same way
/// from the same inputs.
pub fn list<T: DatabaseFetchAll>(
    q: QueryParams,
    parent_id: Option<i64>,
    count: Result<i64, StorageError>,
) -> (s: ListStep<T>)
    ensures
        list_step_model(s) == spec_list::<T>(q, parent_id, count),
{
    let w = match list_window(&q) {
        Ok(w) => w,
        Err(code) => {
            return ListStep::Early(status_response(code));
        },
    };
    let total = match count {
        Ok(t) => t,
        Err(_) => {
            return ListStep::Early(status_response(INTERNAL_SERVER_ERROR));
        },
    };
    if total <= 0 {
        return ListStep::Early(status_response(NOT_FOUND));
    }
    let query = T::fetch_all_query(q.search, q.order, parent_id, w.offset, w.limit);
    ListStep::Fetch(query, total)
}

/// The paged response: 500 when the fetch failed, 404 for an empty
/// page, else 200 with the rows and the paging headers — the
/// configured maximum limit, the total count, and the page size.
pub open spec fn spec_list_response<T>(total: int, fetched: Result<
    Vec<T>,
    StorageError,
>) -> ResponseModel<T> {
    match fetched {
        Err(_) => status_model(INTERNAL_SERVER_ERROR as int),
        Ok(v) => if v@.len() == 0 {
            status_model(NOT_FOUND as int)
        } else {
            ResponseModel {
                status: OK as int,
                headers: seq![
                    ("X-Paging-MaxLimit"@, spec_idec(MAX_LIMIT as int)),
                    ("X-Paging-Total"@, spec_idec(total)),
                    ("X-Paging-Size"@, spec_udec(v@.len())),
                ],
                payload: PayloadModel::Many(v@),
            }
        },
    }
}

/// Maps the row-fetch result to the paged response.
pub fn list_response<T>(total: i64, fetched: Result<Vec<T>, StorageError>) -> (r: Response<T>)
    ensures
        response_model(r) == spec_list_response::<T>(total as int, fetched),
{
    match fetched {
        Err(_) => status_response(INTERNAL_SERVER_ERROR),
        Ok(v) => {
            if v.len() == 0 {
                return status_response(NOT_FOUND);
            }
            let size = u64_dec(v.len() as u64);
            let mut headers: Vec<Header> = Vec::new();
            headers.push(
                Header { name: String::from_str("X-Paging-MaxLimit"), value: i64_dec(MAX_LIMIT) },
            );
            headers.push(Header { name: String::from_str("X-Paging-Total"), value: i64_dec(total) });
            headers.push(Header { name: String::from_str("X-Paging-Size"), value: size });
            let r = Response { status: OK, headers, payload: Payload::Many(v) };
            proof {
                assert(response_model(r) =~= spec_list_response::<T>(total as int, fetched));
            }
            r
        },
    }
}

/// The nested listing decision: the parent row must exist; any failure
/// there is 404, and only then does the plain listing decision run,
/// scoped to the parent.
pub open spec fn spec_sub_list<P, T: DatabaseFetchAll>(
    parent: Result<P, StorageError>,
    q: QueryParams,
    parent_id: i64,
    count: Result<i64, StorageError>,
) -> ListStepModel<T> {
    match parent {
        Err(_) => ListStepModel::Early(status_model(NOT_FOUND as int)),
        Ok(_) => spec_list::<T>(q, Some(parent_id), count),
    }
}

/// Runs the nested listing decision.
pub fn sub_list<P, T: DatabaseFetchAll>(
    parent: Result<P, StorageError>,
    q: QueryParams,
    parent_id: i64,
    count: Result<i64, StorageError>,
) -> (s: ListStep<T>)
    ensures
        list_step_model(s) == spec_sub_list::<P, T>(parent, q, parent_id, count),
{
    match parent {
        Err(_) => ListStep::Early(status_response(NOT_FOUND)),
        Ok(_) => list::<T>(q, Some(parent_id), count),
    }
}

/// A table with no rows lists as 404: when the count gate sees zero,
/// the listing decision is the 404 response and no fetch is ordered.
pub proof fn lemma_list_empty_not_found<T: DatabaseFetchAll>(q: QueryParams, parent_id: Option<i64>)
    requires
        window_ok(q),
    ensures
        spec_list::<T>(q, parent_id, Ok(0i64)) == ListStepModel::<T>::Early(
            status_model(NOT_FOUND as int),
        ),
        !(spec_list::<T>(q, parent_id, Ok(0i64)) is Fetch),
{
}

/// A limit outside `[1, MAX_LIMIT]` or a negative offset lists as 400,
/// whatever the count came to, and no fetch is ordered.
pub proof fn lemma_list_bad_window<T: DatabaseFetchAll>(
    q: QueryParams,
    parent_id: Option<i64>,
    count: Result<i64, StorageError>,
)
    requires
        spec_limit(q) < 1 || spec_limit(q) > MAX_LIMIT as int || spec_offset(q) < 0,
    ensures
        spec_list::<T>(q, parent_id, count) == ListStepModel::<T>::Early(
            status_model(BAD_REQUEST as int),
        ),
        !(spec_list::<T>(q, parent_id, count) is Fetch),
{
}

/// The window reaches the statement unchanged: for a valid window and
/// a positive count, the compiled listing statement binds the requested
/// offset and limit as its last two values.
pub proof fn lemma_list_window_binds<T: DatabaseFetchAll>(
    q: QueryParams,
    parent_id: Option<i64>,
    total: i64,
)
    requires
        window_ok(q),
        total > 0,
    ensures
        spec_list::<T>(q, parent_id, Ok(total)) is Fetch,
        spec_list::<T>(q, parent_id, Ok(total)) matches ListStepModel::Fetch(_, binds, t) ==> {
            &&& t == total as int
            &&& binds.len() >= 2
            &&& binds[binds.len() - 2] == BindModel::Int(spec_offset(q))
            &&& binds[binds.len() - 1] == BindModel::Int(spec_limit(q))
        },
{
}

} // verus!
