use vstd::prelude::*;

use crate::error::{Error, ValidationError};
use crate::stream::CallbackSlots;

verus! {

/// Where a graph stands in its load sequence.
///
/// A graph starts `Empty`, becomes `TopologyLoaded` once its topology has been
/// parsed, and `Ready` once its weights are in; only a ready graph spawns
/// sessions. Any failed load leaves it `Failed`: it must then be discarded and
/// created anew, and every further load is refused.
#[derive(Debug, Clone, Copy, PartialEq, Eq, Structural)]
pub enum GraphState {
    Empty,
    TopologyLoaded,
    Ready,
    Failed,
}

/// State after a topology load that the engine answered with `status`.
pub open spec fn after_topology(status: int) -> GraphState {
    if status == 0 {
        GraphState::TopologyLoaded
    } else {
        GraphState::Failed
    }
}

/// State after a weight load that the engine answered with `status`.
pub open spec fn after_weights(status: int) -> GraphState {
    if status == 0 {
        GraphState::Ready
    } else {
        GraphState::Failed
    }
}

/// Whether a topology may be loaded in `state`: only into an empty graph.
pub open spec fn may_load_topology(state: GraphState) -> bool {
    state == GraphState::Empty
}

/// Whether weights may be loaded in `state`: only once the topology is in.
pub open spec fn may_load_weights(state: GraphState) -> bool {
    state == GraphState::TopologyLoaded
}

/// Whether weights may be loaded in `state` through `source`: the topology
/// must be in, and both of the source's callbacks installed.
pub open spec fn may_load_weights_from<S: Copy, R: Copy>(
    state: GraphState,
    source: CallbackSlots<S, R>,
) -> bool {
    may_load_weights(state) && source.spec_is_complete()
}

/// Whether a session may be created in `state`: only from a ready graph.
pub open spec fn may_create_session(state: GraphState) -> bool {
    state == GraphState::Ready
}

impl GraphState {
    /// A freshly created graph.
    pub fn new() -> (r: GraphState)
        ensures
            r == GraphState::Empty,
    {
        GraphState::Empty
    }

    /// Whether a topology may be loaded now: only into an empty graph.
    pub fn check_load_topology(&self) -> (r: Result<(), Error>)
        ensures
            r is Ok <==> may_load_topology(*self),
            r is Err ==> r == Err::<(), Error>(Error::Load),
    {
        match self {
            GraphState::Empty => Ok(()),
            _ => Err(Error::Load),
        }
    }

    /// Records the engine's answer to a topology load.
    pub fn record_topology(&mut self, status: i32) -> (r: Result<(), Error>)
        requires
            may_load_topology(*old(self)),
        ensures
            *final(self) == after_topology(status as int),
            r is Ok <==> status == 0,
            r is Err ==> r == Err::<(), Error>(Error::Load),
    {
        if status == 0 {
            *self = GraphState::TopologyLoaded;
            Ok(())
        } else {
            *self = GraphState::Failed;
            Err(Error::Load)
        }
    }

    /// Whether weights may be loaded now: only once the topology is in.
    pub fn check_load_weights(&self) -> (r: Result<(), Error>)
        ensures
            r is Ok <==> may_load_weights(*self),
            r is Err ==> r == Err::<(), Error>(Error::Load),
    {
        match self {
            GraphState::TopologyLoaded => Ok(()),
            _ => Err(Error::Load),
        }
    }

    /// Whether weights may be loaded now from a stream source: the topology
    /// must be in, and both of the source's callbacks installed.
    pub fn check_load_weights_from<S: Copy, R: Copy>(&self, source: &CallbackSlots<S, R>) -> (r:
        Result<(), Error>)
        ensures
            r is Ok <==> may_load_weights_from(*self, *source),
            !may_load_weights(*self) ==> r == Err::<(), Error>(Error::Load),
            may_load_weights(*self) && !source.spec_is_complete() ==> r == Err::<(), Error>(
                Error::Validation(ValidationError::IncompleteStreamSource),
            ),
    {
        match self.check_load_weights() {
            Ok(()) => source.check_complete(),
            Err(e) => Err(e),
        }
    }

    /// Records the engine's answer to a weight load.
    pub fn record_weights(&mut self, status: i32) -> (r: Result<(), Error>)
        requires
            may_load_weights(*old(self)),
        ensures
            *final(self) == after_weights(status as int),
            r is Ok <==> status == 0,
            r is Err ==> r == Err::<(), Error>(Error::Load),
    {
        if status == 0 {
            *self = GraphState::Ready;
            Ok(())
        } else {
            *self = GraphState::Failed;
            Err(Error::Load)
        }
    }

    /// Whether a session may be created now: only from a ready graph.
    pub fn check_create_session(&self) -> (r: Result<(), Error>)
        ensures
            r is Ok <==> may_create_session(*self),
            r is Err ==> r == Err::<(), Error>(Error::Validation(ValidationError::GraphNotReady)),
    {
        match self {
            GraphState::Ready => Ok(()),
            _ => Err(Error::Validation(ValidationError::GraphNotReady)),
        }
    }
}

} // verus!
