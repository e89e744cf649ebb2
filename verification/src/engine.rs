//! What this layer asks of the native engine.
//!
//! The engine is not called from here. A function that needs it returns the
//! request; the caller performs it and hands the engine's answer to the
//! function that goes on from there.

use vstd::prelude::*;

verus! {

/// The status code with which a call is answered provisionally.
pub const SESSION_PROGRESS: u32 = 183;

/// The status code with which a call is accepted, and with which an
/// established call is ended.
pub const OK: u32 = 200;

/// The status code with which an incoming call is turned away.
pub const BUSY_HERE: u32 = 486;

/// One operation of the engine, with the plain values it takes. Where an
/// operation takes a larger value (a configuration, an account, a port), the
/// caller has it in the value that made the request.
#[derive(Debug, Clone, Copy, PartialEq, Eq, Structural)]
pub enum EngineRequest {
    /// Create the process-wide engine instance.
    Create,
    /// Initialise the instance with the configurations.
    Init,
    /// Select the null sound device.
    SetNullSoundDevice,
    /// Bind a UDP transport; port 0 lets the system choose.
    TransportCreate { port: u32 },
    /// Start the instance.
    Start,
    /// Destroy the instance.
    Destroy,
    /// Register the account.
    AccountAdd,
    /// Remove a registered account.
    AccountDel { account_id: i32 },
    /// Attach the notification block of a call to it.
    CallSetUserData { call_id: i32 },
    /// Answer a call with a status code.
    CallAnswer { call_id: i32, code: u32 },
    /// End a call with a status code.
    CallHangup { call_id: i32, code: u32 },
    /// Add the media port to the mixing graph.
    ConfAddPort,
    /// Take a slot out of the mixing graph.
    ConfRemovePort { slot: i32 },
    /// Let audio flow from `source` to `sink` in the mixing graph.
    ConfConnect { source: i32, sink: i32 },
    /// Stop the flow of audio from `source` to `sink`.
    ConfDisconnect { source: i32, sink: i32 },
    /// Destroy the port object that stood in `slot`.
    PortDestroy { slot: i32 },
    /// Make the calling thread known to the engine.
    ThreadRegister,
}

} // verus!
