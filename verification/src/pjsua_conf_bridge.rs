//! The handle on the mixing graph, of which a process has one.

use vstd::prelude::*;
use crate::pjsua_softphone_api::CreationFlag;

verus! {

/// The handle on the engine's mixing graph. Ports are added to the graph
/// and connected in it through the one handle that a started instance owns.
pub struct ConfBridgeHandle {
    _private: (),
}

impl ConfBridgeHandle {
    /// The handle, where the flag shows that none was handed out before;
    /// the flag then shows that one was.
    pub fn get_instance(created: &mut CreationFlag) -> (handle: Option<ConfBridgeHandle>)
        ensures
            handle is Some <==> !old(created).is_created(),
            final(created).is_created(),
    {
        if created.claim() {
            Some(ConfBridgeHandle { _private: () })
        } else {
            None
        }
    }
}

} // verus!
