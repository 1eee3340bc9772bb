//! How a device's services and characteristics are listed.
//!
//! Listing the attributes of a device takes outside work between the decisions: the
//! caller hands the outcome of each piece of work to `query_step` and performs the action
//! it returns, until the action is `Finish`, where the last listing is the answer, or
//! `Fail`, where the failure of the last piece of work is the answer.

use vstd::prelude::*;

verus! {

/// Where a listing of a device's attributes stands.
#[derive(Clone, Copy, Debug, PartialEq, Eq, Structural)]
pub enum QueryStage {
    /// Waiting to know whether the device is connected.
    CheckingConnection,
    /// Waiting for the connection to be made.
    Connecting,
    /// Waiting for the known attributes.
    Listing,
    /// Waiting for service discovery.
    Discovering,
    /// Waiting for the attributes after discovery.
    Relisting,
    /// The last listing is the answer.
    Ready,
    /// A piece of work failed; its failure is the answer.
    Failed,
}

/// The outcome of a piece of work, handed to `query_step`.
#[derive(Clone, Copy, Debug, PartialEq, Eq, Structural)]
pub enum QueryInput {
    /// Whether the device is connected.
    Connected(bool),
    /// The connection or the discovery is done.
    Done,
    /// The number of attributes the device lists now.
    Listed(usize),
    /// Finding out about the connection, connecting, or discovering failed.
    Failed,
}

/// What `query_step` asks the caller to do next.
#[derive(Clone, Copy, Debug, PartialEq, Eq, Structural)]
pub enum QueryAction {
    /// Find out whether the device is connected.
    CheckConnected,
    /// Connect to the device.
    Connect,
    /// List the attributes the device knows now.
    List,
    /// Discover the device's services.
    Discover,
    /// The last listing is the answer.
    Finish,
    /// The query ends with the failure of the last piece of work; nothing more is done.
    Fail,
}

/// Whether the query waits for `input` at `stage`.
pub open spec fn query_accepts(stage: QueryStage, input: QueryInput) -> bool {
    match stage {
        QueryStage::CheckingConnection => input is Connected || input is Failed,
        QueryStage::Connecting | QueryStage::Discovering => input is Done || input is Failed,
        QueryStage::Listing | QueryStage::Relisting => input is Listed,
        QueryStage::Ready | QueryStage::Failed => false,
    }
}

/// The next stage and action: connect where the device is not connected, then list; where
/// the listing is empty, discover the services and list once more. A failure ends the
/// query with that failure. An outcome the stage does not wait for ends the query.
pub open spec fn query_next(stage: QueryStage, input: QueryInput) -> (QueryStage, QueryAction) {
    match (stage, input) {
        (QueryStage::CheckingConnection, QueryInput::Connected(true)) => (
            QueryStage::Listing,
            QueryAction::List,
        ),
        (QueryStage::CheckingConnection, QueryInput::Connected(false)) => (
            QueryStage::Connecting,
            QueryAction::Connect,
        ),
        (QueryStage::Connecting, QueryInput::Done) => (QueryStage::Listing, QueryAction::List),
        (QueryStage::Listing, QueryInput::Listed(n)) => if n == 0 {
            (QueryStage::Discovering, QueryAction::Discover)
        } else {
            (QueryStage::Ready, QueryAction::Finish)
        },
        (QueryStage::Discovering, QueryInput::Done) => (QueryStage::Relisting, QueryAction::List),
        (QueryStage::Relisting, QueryInput::Listed(_)) => (QueryStage::Ready, QueryAction::Finish),
        (QueryStage::CheckingConnection, QueryInput::Failed) | (
            QueryStage::Connecting,
            QueryInput::Failed,
        ) | (QueryStage::Discovering, QueryInput::Failed) => (QueryStage::Failed, QueryAction::Fail),
        _ => (stage, QueryAction::Finish),
    }
}

/// The first stage of a query and its first action.
pub fn query_start() -> (r: (QueryStage, QueryAction))
    ensures
        r == (QueryStage::CheckingConnection, QueryAction::CheckConnected),
{
    (QueryStage::CheckingConnection, QueryAction::CheckConnected)
}

/// Hand the query the outcome of the last action; it answers with the next stage and
/// action. An outcome the stage does not wait for ends the query where it stands.
pub fn query_step(stage: QueryStage, input: QueryInput) -> (r: (QueryStage, QueryAction))
    ensures
        r == query_next(stage, input),
{
    match (stage, input) {
        (QueryStage::CheckingConnection, QueryInput::Connected(true)) => (
            QueryStage::Listing,
            QueryAction::List,
        ),
        (QueryStage::CheckingConnection, QueryInput::Connected(false)) => (
            QueryStage::Connecting,
            QueryAction::Connect,
        ),
        (QueryStage::Connecting, QueryInput::Done) => (QueryStage::Listing, QueryAction::List),
        (QueryStage::Listing, QueryInput::Listed(n)) => if n == 0 {
            (QueryStage::Discovering, QueryAction::Discover)
        } else {
            (QueryStage::Ready, QueryAction::Finish)
        },
        (QueryStage::Discovering, QueryInput::Done) => (QueryStage::Relisting, QueryAction::List),
        (QueryStage::Relisting, QueryInput::Listed(_)) => (QueryStage::Ready, QueryAction::Finish),
        (QueryStage::CheckingConnection, QueryInput::Failed) | (
            QueryStage::Connecting,
            QueryInput::Failed,
        ) | (QueryStage::Discovering, QueryInput::Failed) => (QueryStage::Failed, QueryAction::Fail),
        _ => (stage, QueryAction::Finish),
    }
}

/// How far a query has come.
pub open spec fn stage_rank(stage: QueryStage) -> int {
    match stage {
        QueryStage::CheckingConnection => 0,
        QueryStage::Connecting => 1,
        QueryStage::Listing => 2,
        QueryStage::Discovering => 3,
        QueryStage::Relisting => 4,
        QueryStage::Ready => 5,
        QueryStage::Failed => 6,
    }
}

/// Every step moves the query forward, so a query ends after at most five steps; it
/// connects only a device that is not connected, discovers services only after an empty
/// listing, and lists only once the device is connected; the first failure ends it, and a
/// query that ended waits for nothing more.
pub proof fn lemma_query_progress(stage: QueryStage, input: QueryInput)
    requires
        query_accepts(stage, input),
    ensures
        stage_rank(query_next(stage, input).0) > stage_rank(stage),
        query_next(stage, input).1 == QueryAction::Connect ==> input == QueryInput::Connected(
            false,
        ),
        query_next(stage, input).1 == QueryAction::Discover ==> stage == QueryStage::Listing
            && input == QueryInput::Listed(0),
        query_next(stage, input).1 == QueryAction::List ==> input == QueryInput::Connected(true)
            || input == QueryInput::Done,
        query_next(stage, input).1 == QueryAction::Finish <==> query_next(stage, input).0
            == QueryStage::Ready,
        query_next(stage, input).1 == QueryAction::Fail <==> input == QueryInput::Failed,
        query_next(stage, input).1 == QueryAction::Fail ==> query_next(stage, input).0
            == QueryStage::Failed,
        forall|later: QueryInput|
            !query_accepts(QueryStage::Ready, later) && !query_accepts(QueryStage::Failed, later),
{
}

/// Each stage's answer to each outcome it waits for: a connected device is listed, one
/// not connected is connected first; after connecting it is listed; an empty first
/// listing leads to discovery, any other to the answer; after discovery the device is
/// listed once more, and that listing is the answer; any failure ends the query.
pub proof fn law_query_steps(n: usize)
    ensures
        query_next(QueryStage::CheckingConnection, QueryInput::Connected(true)) == (
            QueryStage::Listing,
            QueryAction::List,
        ),
        query_next(QueryStage::CheckingConnection, QueryInput::Connected(false)) == (
            QueryStage::Connecting,
            QueryAction::Connect,
        ),
        query_next(QueryStage::Connecting, QueryInput::Done) == (
            QueryStage::Listing,
            QueryAction::List,
        ),
        n == 0 ==> query_next(QueryStage::Listing, QueryInput::Listed(n)) == (
            QueryStage::Discovering,
            QueryAction::Discover,
        ),
        n > 0 ==> query_next(QueryStage::Listing, QueryInput::Listed(n)) == (
            QueryStage::Ready,
            QueryAction::Finish,
        ),
        query_next(QueryStage::Discovering, QueryInput::Done) == (
            QueryStage::Relisting,
            QueryAction::List,
        ),
        query_next(QueryStage::Relisting, QueryInput::Listed(n)) == (
            QueryStage::Ready,
            QueryAction::Finish,
        ),
        query_next(QueryStage::CheckingConnection, QueryInput::Failed) == (
            QueryStage::Failed,
            QueryAction::Fail,
        ),
        query_next(QueryStage::Connecting, QueryInput::Failed) == (
            QueryStage::Failed,
            QueryAction::Fail,
        ),
        query_next(QueryStage::Discovering, QueryInput::Failed) == (
            QueryStage::Failed,
            QueryAction::Fail,
        ),
{
}

/// The position of the first UUID in `uuids` that equals `uuid`.
pub open spec fn is_first_with_uuid(uuids: Seq<u128>, uuid: u128, i: int) -> bool {
    &&& 0 <= i < uuids.len()
    &&& uuids[i] == uuid
    &&& forall|j: int| 0 <= j < i ==> uuids[j] != uuid
}

/// The position of the first attribute whose UUID is `uuid`, if there is one.
pub fn first_with_uuid(uuids: &Vec<u128>, uuid: u128) -> (r: Option<usize>)
    ensures
        r matches Some(i) ==> is_first_with_uuid(uuids@, uuid, i as int),
        r matches Some(i) ==> i < uuids@.len() && uuids@[i as int] == uuid && forall|j: int|
            0 <= j < i ==> uuids@[j] != uuid,
        r is None <==> !uuids@.contains(uuid),
{
    let mut i: usize = 0;
    while i < uuids.len()
        invariant
            i <= uuids.len(),
            forall|j: int| 0 <= j < i ==> uuids@[j] != uuid,
        decreases uuids.len() - i,
    {
        if uuids[i] == uuid {
            return Some(i);
        }
        i = i + 1;
    }
    proof {
        if uuids@.contains(uuid) {
            let k = choose|k: int| 0 <= k < uuids@.len() && uuids@[k] == uuid;
            assert(uuids@[k] != uuid);
        }
    }
    None
}

} // verus!
