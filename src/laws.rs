use vstd::prelude::*;

use crate::graph::{
    after_topology, after_weights, may_create_session, may_load_topology, may_load_weights,
    may_load_weights_from,
    GraphState,
};
use crate::session::after_bind;
use crate::stream::CallbackSlots;

verus! {

/// A graph whose topology is in accepts weights from any source with both
/// callbacks installed (the stub source among them); once the engine accepts
/// them the graph is ready and spawns sessions, as many as asked for, since
/// creating one leaves the graph as it is.
pub proof fn complete_source_makes_graph_ready<S: Copy, R: Copy>(source: CallbackSlots<S, R>)
    requires
        source.spec_is_complete(),
    ensures
        may_load_weights_from(GraphState::TopologyLoaded, source),
        after_weights(0) == GraphState::Ready,
        may_create_session(after_weights(0)),
{
}

/// A failed topology load leaves the graph unusable: it accepts weights from
/// no file and no source, no other topology, and no session request.
pub proof fn failed_topology_blocks_graph<S: Copy, R: Copy>(
    status: int,
    source: CallbackSlots<S, R>,
)
    requires
        status != 0,
    ensures
        !may_load_weights(after_topology(status)),
        !may_load_weights_from(after_topology(status), source),
        !may_load_topology(after_topology(status)),
        !may_create_session(after_topology(status)),
{
}

/// A failed weight load leaves the graph unusable in the same way.
pub proof fn failed_weights_block_graph(status: int)
    requires
        status != 0,
    ensures
        !may_load_weights(after_weights(status)),
        !may_load_topology(after_weights(status)),
        !may_create_session(after_weights(status)),
{
}

/// A refused binding leaves the bound inputs exactly as they were, and an
/// accepted one keeps every earlier binding in its place.
pub proof fn binding_keeps_earlier_inputs(names: Seq<Seq<char>>, name: Seq<char>, status: int)
    ensures
        status != 0 ==> after_bind(names, name, status) == names,
        after_bind(names, name, status).len() >= names.len(),
        forall|i: int| 0 <= i < names.len() ==> after_bind(names, name, status)[i] == names[i],
        status == 0 ==> after_bind(names, name, status).contains(name),
{
    if status == 0 && !names.contains(name) {
        assert(names.push(name)[names.len() as int] == name);
    }
}

} // verus!
