//! The single-resource dispatcher: the decision half of the create,
//! retrieve, update and delete operations, and their nested variants.
//!
//! Each operation is a short deterministic sequence of validation hooks
//! and storage calls.  The storage calls suspend; so each operation is
//! split into decision functions that take the results the storage layer
//! handed back and say what happens next — which statement to run, or
//! which response to return.  Every decision is stated against a
//! mathematical model of the response, so the outer program holds no
//! logic of its own.

use vstd::prelude::*;
use vstd::string::*;

use crate::prelude::Check;
use crate::text::{i64_dec, spec_idec};

verus! {

pub const OK: u16 = 200;

pub const CREATED: u16 = 201;

pub const NO_CONTENT: u16 = 204;

pub const BAD_REQUEST: u16 = 400;

pub const NOT_FOUND: u16 = 404;

pub const NOT_ACCEPTABLE: u16 = 406;

pub const UNPROCESSABLE_ENTITY: u16 = 422;

pub const INTERNAL_SERVER_ERROR: u16 = 500;

/// A failed storage call.  The dispatcher never looks inside: every
/// failure of one call maps to the same status.
#[derive(Debug, Clone, Copy, PartialEq, Eq)]
pub struct StorageError;

/// One response header.
#[derive(Debug, PartialEq)]
pub struct Header {
    pub name: String,
    pub value: String,
}

/// What a response carries besides its status: nothing, one entity, or
/// a page of entities.
#[derive(Debug, PartialEq)]
pub enum Payload<T> {
    Empty,
    One(T),
    Many(Vec<T>),
}

/// A response: its status code, its headers in order, and its payload.
/// Turning the payload into bytes is the outer program's work.
#[derive(Debug, PartialEq)]
pub struct Response<T> {
    pub status: u16,
    pub headers: Vec<Header>,
    pub payload: Payload<T>,
}

/// The mathematical shadow of a [`Payload`].
#[verifier::ext_equal]
pub enum PayloadModel<T> {
    Empty,
    One(T),
    Many(Seq<T>),
}

/// The mathematical shadow of a [`Response`]: its status, its headers
/// as name-value character sequences, and its payload.
#[verifier::ext_equal]
pub struct ResponseModel<T> {
    pub status: int,
    pub headers: Seq<(Seq<char>, Seq<char>)>,
    pub payload: PayloadModel<T>,
}

/// The model of one header.
pub open spec fn header_model(h: Header) -> (Seq<char>, Seq<char>) {
    (h.name@, h.value@)
}

/// The model of a payload.
pub open spec fn payload_model<T>(p: Payload<T>) -> PayloadModel<T> {
    match p {
        Payload::Empty => PayloadModel::Empty,
        Payload::One(t) => PayloadModel::One(t),
        Payload::Many(v) => PayloadModel::Many(v@),
    }
}

/// The model of a response.
pub open spec fn response_model<T>(r: Response<T>) -> ResponseModel<T> {
    ResponseModel {
        status: r.status as int,
        headers: r.headers@.map_values(|h: Header| header_model(h)),
        payload: payload_model(r.payload),
    }
}

/// A bare response: the given status, no headers, no payload.
pub open spec fn status_model<T>(code: int) -> ResponseModel<T> {
    ResponseModel { status: code, headers: Seq::empty(), payload: PayloadModel::Empty }
}

/// Builds the bare response for a status code.
pub fn status_response<T>(code: u16) -> (r: Response<T>)
    ensures
        response_model(r) == status_model::<T>(code as int),
{
    let r = Response { status: code, headers: Vec::new(), payload: Payload::Empty };
    proof {
        assert(response_model(r) =~= status_model::<T>(code as int));
    }
    r
}

/// What follows the create-validation step: a finished response, or the
/// order to insert exactly this candidate.
#[derive(Debug, PartialEq)]
pub enum CreateStep<T> {
    Rejected(Response<T>),
    Insert(T),
}

/// The mathematical shadow of a [`CreateStep`].
#[verifier::ext_equal]
pub enum CreateStepModel<T> {
    Rejected(ResponseModel<T>),
    Insert(T),
}

/// The model of a create step.
pub open spec fn create_step_model<T>(s: CreateStep<T>) -> CreateStepModel<T> {
    match s {
        CreateStep::Rejected(r) => CreateStepModel::Rejected(response_model(r)),
        CreateStep::Insert(t) => CreateStepModel::Insert(t),
    }
}

/// The create decision: a candidate failing its create check is
/// rejected with 422 and nothing is inserted; otherwise the candidate
/// is inserted unchanged.
pub open spec fn spec_create<T: Check>(t: T) -> CreateStepModel<T> {
    if t.spec_check_create() {
        CreateStepModel::Insert(t)
    } else {
        CreateStepModel::Rejected(status_model(UNPROCESSABLE_ENTITY as int))
    }
}

/// Runs the create validation and decides: reject with 422, or insert
/// the candidate.
pub fn create<T: Check>(new: T) -> (s: CreateStep<T>)
    ensures
        create_step_model(s) == spec_create(new),
{
    let mut n = new;
    match n.check_create() {
        Ok(()) => CreateStep::Insert(n),
        Err(_) => CreateStep::Rejected(status_response(UNPROCESSABLE_ENTITY)),
    }
}

/// The response to a finished insert: 201 with `Location` and
/// `X-Item-ID` carrying the new id, or 406 when storage failed.
pub open spec fn spec_create_response<T>(path: Seq<char>, inserted: Result<
    i64,
    StorageError,
>) -> ResponseModel<T> {
    match inserted {
        Ok(id) => ResponseModel {
            status: CREATED as int,
            headers: seq![
                ("Location"@, path + spec_idec(id as int)),
                ("X-Item-ID"@, spec_idec(id as int)),
            ],
            payload: PayloadModel::Empty,
        },
        Err(_) => status_model(NOT_ACCEPTABLE as int),
    }
}

/// Maps the insert result to its response.
pub fn create_response<T>(path: &str, inserted: Result<i64, StorageError>) -> (r: Response<T>)
    ensures
        response_model(r) == spec_create_response::<T>(path@, inserted),
{
    match inserted {
        Ok(id) => {
            let mut loc = String::from_str(path);
            let digits = i64_dec(id);
            loc.append(digits.as_str());
            let mut headers: Vec<Header> = Vec::new();
            headers.push(Header { name: String::from_str("Location"), value: loc });
            headers.push(Header { name: String::from_str("X-Item-ID"), value: i64_dec(id) });
            let r = Response { status: CREATED, headers, payload: Payload::<T>::Empty };
            proof {
                assert(response_model(r) =~= spec_create_response::<T>(path@, inserted));
            }
            r
        },
        Err(_) => status_response(NOT_ACCEPTABLE),
    }
}

/// The retrieve decision: the fetched entity with 200, or 404 when
/// no row matched.
pub open spec fn spec_retrieve<T>(fetched: Result<T, StorageError>) -> ResponseModel<T> {
    match fetched {
        Ok(t) => ResponseModel {
            status: OK as int,
            headers: Seq::empty(),
            payload: PayloadModel::One(t),
        },
        Err(_) => status_model(NOT_FOUND as int),
    }
}

/// Maps the single-row fetch result to its response: the row is handed
/// back unchanged.
pub fn retrieve<T>(fetched: Result<T, StorageError>) -> (r: Response<T>)
    ensures
        response_model(r) == spec_retrieve(fetched),
{
    match fetched {
        Ok(t) => {
            let r = Response { status: OK, headers: Vec::new(), payload: Payload::One(t) };
            proof {
                assert(response_model(r) =~= spec_retrieve(fetched));
            }
            r
        },
        Err(_) => status_response(NOT_FOUND),
    }
}

/// What follows the update checks: a finished response, or the order to
/// update with exactly this candidate.
#[derive(Debug, PartialEq)]
pub enum UpdateStep<T> {
    Rejected(Response<T>),
    Update(T),
}

/// The mathematical shadow of an [`UpdateStep`].
#[verifier::ext_equal]
pub enum UpdateStepModel<T> {
    Rejected(ResponseModel<T>),
    Update(T),
}

/// The model of an update step.
pub open spec fn update_step_model<T>(s: UpdateStep<T>) -> UpdateStepModel<T> {
    match s {
        UpdateStep::Rejected(r) => UpdateStepModel::Rejected(response_model(r)),
        UpdateStep::Update(t) => UpdateStepModel::Update(t),
    }
}

/// The update decision: 404 when the row is missing, 422 when the
/// update check rejects the candidate against the stored value, else
/// the candidate is written unchanged.
pub open spec fn spec_update<T: Check>(new: T, fetched: Result<T, StorageError>) -> UpdateStepModel<
    T,
> {
    match fetched {
        Err(_) => UpdateStepModel::Rejected(status_model(NOT_FOUND as int)),
        Ok(previous) => if new.spec_check_update(&previous) {
            UpdateStepModel::Update(new)
        } else {
            UpdateStepModel::Rejected(status_model(UNPROCESSABLE_ENTITY as int))
        },
    }
}

/// Runs the update sequence up to the write: the stored value must
/// exist and the update check must accept the candidate.
pub fn update<T: Check>(new: T, fetched: Result<T, StorageError>) -> (s: UpdateStep<T>)
    ensures
        update_step_model(s) == spec_update(new, fetched),
{
    let previous = match fetched {
        Ok(p) => p,
        Err(_) => {
            return UpdateStep::Rejected(status_response(NOT_FOUND));
        },
    };
    let mut n = new;
    match n.check_update(previous) {
        Ok(()) => UpdateStep::Update(n),
        Err(_) => UpdateStep::Rejected(status_response(UNPROCESSABLE_ENTITY)),
    }
}

/// The response to a finished update: 200, or 406 when storage failed.
pub open spec fn spec_update_response<T>(updated: Result<(), StorageError>) -> ResponseModel<T> {
    match updated {
        Ok(_) => status_model(OK as int),
        Err(_) => status_model(NOT_ACCEPTABLE as int),
    }
}

/// Maps the update result to its response.
pub fn update_response<T>(updated: Result<(), StorageError>) -> (r: Response<T>)
    ensures
        response_model(r) == spec_update_response::<T>(updated),
{
    match updated {
        Ok(_) => status_response(OK),
        Err(_) => status_response(NOT_ACCEPTABLE),
    }
}

/// What follows the delete checks: a finished response, or the order to
/// delete the row with this id.
#[derive(Debug, PartialEq)]
pub enum DeleteStep<T> {
    Rejected(Response<T>),
    Delete(i64),
}

/// The mathematical shadow of a [`DeleteStep`].
#[verifier::ext_equal]
pub enum DeleteStepModel<T> {
    Rejected(ResponseModel<T>),
    Delete(int),
}

/// The model of a delete step.
pub open spec fn delete_step_model<T>(s: DeleteStep<T>) -> DeleteStepModel<T> {
    match s {
        DeleteStep::Rejected(r) => DeleteStepModel::Rejected(response_model(r)),
        DeleteStep::Delete(id) => DeleteStepModel::Delete(id as int),
    }
}

/// The delete decision: 404 when the row is already gone, 422 when the
/// delete check rejects the stored value, else the row is deleted.
pub open spec fn spec_delete<T: Check>(fetched: Result<T, StorageError>, id: int) -> DeleteStepModel<
    T,
> {
    match fetched {
        Err(_) => DeleteStepModel::Rejected(status_model(NOT_FOUND as int)),
        Ok(previous) => if previous.spec_check_delete() {
            DeleteStepModel::Delete(id)
        } else {
            DeleteStepModel::Rejected(status_model(UNPROCESSABLE_ENTITY as int))
        },
    }
}

/// Runs the delete sequence up to the write: the stored value must
/// exist and the delete check must accept it.
pub fn delete<T: Check>(fetched: Result<T, StorageError>, id: i64) -> (s: DeleteStep<T>)
    ensures
        delete_step_model(s) == spec_delete::<T>(fetched, id as int),
{
    let previous = match fetched {
        Ok(p) => p,
        Err(_) => {
            return DeleteStep::Rejected(status_response(NOT_FOUND));
        },
    };
    match previous.check_delete() {
        Ok(()) => DeleteStep::Delete(id),
        Err(_) => DeleteStep::Rejected(status_response(UNPROCESSABLE_ENTITY)),
    }
}

/// The response to a finished delete: 204, or 406 when storage failed.
pub open spec fn spec_delete_response<T>(deleted: Result<(), StorageError>) -> ResponseModel<T> {
    match deleted {
        Ok(_) => status_model(NO_CONTENT as int),
        Err(_) => status_model(NOT_ACCEPTABLE as int),
    }
}

/// Maps the delete result to its response.
pub fn delete_response<T>(deleted: Result<(), StorageError>) -> (r: Response<T>)
    ensures
        response_model(r) == spec_delete_response::<T>(deleted),
{
    match deleted {
        Ok(_) => status_response(NO_CONTENT),
        Err(_) => status_response(NOT_ACCEPTABLE),
    }
}

/// The nested create decision: the parent must exist, then the plain
/// create decision runs.
pub open spec fn spec_sub_create<P, T: Check>(parent: Result<P, StorageError>, new: T) -> CreateStepModel<
    T,
> {
    match parent {
        Err(_) => CreateStepModel::Rejected(status_model(NOT_FOUND as int)),
        Ok(_) => spec_create(new),
    }
}

/// Runs the nested create decision: 404 unless the parent row exists.
pub fn sub_create<P, T: Check>(parent: Result<P, StorageError>, new: T) -> (s: CreateStep<T>)
    ensures
        create_step_model(s) == spec_sub_create(parent, new),
{
    match parent {
        Err(_) => CreateStep::Rejected(status_response(NOT_FOUND)),
        Ok(_) => create(new),
    }
}

/// The nested retrieve decision: the ownership check must pass, then
/// the plain retrieve decision runs.  Any checker failure is 404.
pub open spec fn spec_sub_retrieve<P, T>(
    parent: Result<P, StorageError>,
    fetched: Result<T, StorageError>,
) -> ResponseModel<T> {
    match parent {
        Err(_) => status_model(NOT_FOUND as int),
        Ok(_) => spec_retrieve(fetched),
    }
}

/// Runs the nested retrieve decision.
pub fn sub_retrieve<P, T>(parent: Result<P, StorageError>, fetched: Result<T, StorageError>) -> (r:
    Response<T>)
    ensures
        response_model(r) == spec_sub_retrieve(parent, fetched),
{
    match parent {
        Err(_) => status_response(NOT_FOUND),
        Ok(_) => retrieve(fetched),
    }
}

/// The nested update decision: the ownership check must pass, then the
/// plain update decision runs.  Any checker failure is 404 and no write
/// is ordered.
pub open spec fn spec_sub_update<P, T: Check>(
    parent: Result<P, StorageError>,
    new: T,
    fetched: Result<T, StorageError>,
) -> UpdateStepModel<T> {
    match parent {
        Err(_) => UpdateStepModel::Rejected(status_model(NOT_FOUND as int)),
        Ok(_) => spec_update(new, fetched),
    }
}

/// Runs the nested update decision.
pub fn sub_update<P, T: Check>(
    parent: Result<P, StorageError>,
    new: T,
    fetched: Result<T, StorageError>,
) -> (s: UpdateStep<T>)
    ensures
        update_step_model(s) == spec_sub_update(parent, new, fetched),
{
    match parent {
        Err(_) => UpdateStep::Rejected(status_response(NOT_FOUND)),
        Ok(_) => update(new, fetched),
    }
}

/// The nested delete decision: the ownership check must pass, then the
/// plain delete decision runs.  Any checker failure is 404 and no write
/// is ordered.
pub open spec fn spec_sub_delete<P, T: Check>(
    parent: Result<P, StorageError>,
    fetched: Result<T, StorageError>,
    id: int,
) -> DeleteStepModel<T> {
    match parent {
        Err(_) => DeleteStepModel::Rejected(status_model(NOT_FOUND as int)),
        Ok(_) => spec_delete::<T>(fetched, id),
    }
}

/// Runs the nested delete decision.
pub fn sub_delete<P, T: Check>(
    parent: Result<P, StorageError>,
    fetched: Result<T, StorageError>,
    id: i64,
) -> (s: DeleteStep<T>)
    ensures
        delete_step_model(s) == spec_sub_delete::<P, T>(parent, fetched, id as int),
{
    match parent {
        Err(_) => DeleteStep::Rejected(status_response(NOT_FOUND)),
        Ok(_) => delete::<T>(fetched, id),
    }
}

/// A candidate rejected by its create check leaves no insert order
/// behind: the create decision is a 422 rejection and nothing else.
pub proof fn lemma_validation_gate<T: Check>(t: T)
    requires
        !t.spec_check_create(),
    ensures
        spec_create(t) == CreateStepModel::<T>::Rejected(status_model(UNPROCESSABLE_ENTITY as int)),
        !(spec_create(t) is Insert),
{
}

/// What the dispatcher inserts is the submitted candidate, unchanged;
/// and retrieving a stored value returns exactly that value with 200.
/// Together: a created entity read back is the one that was submitted,
/// up to whatever the storage layer itself changes.
pub proof fn lemma_round_trip<T: Check>(t: T)
    requires
        t.spec_check_create(),
    ensures
        spec_create(t) == CreateStepModel::Insert(t),
        spec_retrieve(Ok(t)) == (ResponseModel {
            status: OK as int,
            headers: Seq::<(Seq<char>, Seq<char>)>::empty(),
            payload: PayloadModel::One(t),
        }),
{
}

/// Deleting an id whose row is already gone answers 404, not 204, and
/// orders no delete.
pub proof fn lemma_delete_idempotent<T: Check>(fetched: Result<T, StorageError>, id: int)
    requires
        fetched is Err,
    ensures
        spec_delete::<T>(fetched, id) == DeleteStepModel::<T>::Rejected(
            status_model(NOT_FOUND as int),
        ),
        !(spec_delete::<T>(fetched, id) is Delete),
{
}

/// When the ownership check fails, every nested single-resource
/// operation answers 404 and orders no write: the child row, wherever
/// it truly lives, is left untouched.
pub proof fn lemma_ownership_gate<P, T: Check>(
    parent: Result<P, StorageError>,
    new: T,
    fetched: Result<T, StorageError>,
    id: int,
)
    requires
        parent is Err,
    ensures
        spec_sub_retrieve::<P, T>(parent, fetched) == status_model::<T>(NOT_FOUND as int),
        spec_sub_update(parent, new, fetched) == UpdateStepModel::<T>::Rejected(
            status_model(NOT_FOUND as int),
        ),
        !(spec_sub_update(parent, new, fetched) is Update),
        spec_sub_delete::<P, T>(parent, fetched, id) == DeleteStepModel::<T>::Rejected(
            status_model(NOT_FOUND as int),
        ),
        !(spec_sub_delete::<P, T>(parent, fetched, id) is Delete),
{
}

} // verus!
