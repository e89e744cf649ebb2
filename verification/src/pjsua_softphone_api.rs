//! The life of the engine instance, one type for each phase: not
//! initialised, initialised, bound to a transport, started.
//!
//! An operation is defined on the phase in which it is valid, takes the
//! engine's answer to the request that belongs to it, and gives the next
//! phase. Where the engine refused, the phase comes back unchanged beside
//! the engine's error.

use vstd::prelude::*;
use crate::engine::EngineRequest;
use crate::error::{PjsuaError, LOCAL_ERROR};
use crate::pjsua_account_config::{AccountConfig, AccountConfigAdded, AccountError};
use crate::pjsua_conf_bridge::ConfBridgeHandle;
use crate::pjsua_config::{LogConfig, MediaConfig, PjsuaConfig};
use crate::transport::PjsuaTransport;

verus! {

/// The flag that guards something of which a process has one. The process
/// keeps one flag for the engine instance and one for the mixing graph.
pub struct CreationFlag {
    created: bool,
}

impl CreationFlag {
    /// Whether the guarded thing was created.
    pub closed spec fn spec_is_created(&self) -> bool {
        self.created
    }

    /// A flag for something that was not created yet.
    pub fn new() -> (flag: CreationFlag)
        ensures
            !flag.is_created(),
    {
        CreationFlag { created: false }
    }

    /// Whether the guarded thing was created.
    #[verifier::when_used_as_spec(spec_is_created)]
    pub fn is_created(&self) -> (created: bool)
        ensures
            created == self.spec_is_created(),
    {
        self.created
    }

    /// Marks the guarded thing as created, and says whether this call was
    /// the one that did so.
    pub fn claim(&mut self) -> (first: bool)
        ensures
            first == !old(self).is_created(),
            final(self).is_created(),
    {
        let first = !self.created;
        self.created = true;
        first
    }
}

/// The message of the error for a second engine instance.
pub open spec fn already_created_message() -> Seq<char> {
    "Pjsua instance already created"@
}

/// The message of the error for a second handle on the mixing graph.
pub open spec fn bridge_taken_message() -> Seq<char> {
    "Conference bridge already created"@
}

/// The right to create the engine instance: the flag showed none.
pub struct InstanceClaim {
    _private: (),
}

impl InstanceClaim {
    /// Claims the engine instance. A process has at most one: where the
    /// flag shows that one was claimed before, the claim fails and nothing
    /// is to be asked of the engine.
    pub fn new(created: &mut CreationFlag) -> (result: Result<InstanceClaim, PjsuaError>)
        ensures
            result is Ok <==> !old(created).is_created(),
            final(created).is_created(),
            result matches Err(e) ==> e.code == LOCAL_ERROR && e.message@ == already_created_message(),
    {
        if created.claim() {
            Ok(InstanceClaim { _private: () })
        } else {
            Err(PjsuaError::local("Pjsua instance already created"))
        }
    }

    /// What to ask of the engine with the claim.
    pub fn request(&self) -> (request: EngineRequest)
        ensures
            request == EngineRequest::Create,
    {
        EngineRequest::Create
    }
}

/// The engine instance of the process. It is destroyed once, by what
/// [`PjsuaInstanceHandle::release`] asks for.
pub struct PjsuaInstanceHandle {
    released: bool,
}

impl PjsuaInstanceHandle {
    /// Whether the destruction of the instance was asked for.
    pub closed spec fn is_released(&self) -> bool {
        self.released
    }

    /// The instance, given the engine's answer to the request of the claim.
    /// The engine's error is passed on unchanged; the claim is spent either
    /// way.
    pub fn get_instance(claim: InstanceClaim, created: Result<(), PjsuaError>) -> (result: Result<
        PjsuaInstanceHandle,
        PjsuaError,
    >)
        ensures
            match created {
                Ok(()) => result matches Ok(handle) && !handle.is_released(),
                Err(e) => result == Err::<PjsuaInstanceHandle, PjsuaError>(e),
            },
    {
        match created {
            Ok(()) => Ok(PjsuaInstanceHandle { released: false }),
            Err(e) => Err(e),
        }
    }

    /// What to ask of the engine when the instance goes away: its
    /// destruction the first time, after that nothing.
    pub fn release(&mut self) -> (request: Option<EngineRequest>)
        ensures
            request == (if old(self).is_released() {
                None
            } else {
                Some(EngineRequest::Destroy)
            }),
            final(self).is_released(),
    {
        if self.released {
            None
        } else {
            self.released = true;
            Some(EngineRequest::Destroy)
        }
    }
}

/// An instance that was created and not initialised.
pub struct PjsuaInstanceUninit {
    handle: PjsuaInstanceHandle,
}

/// An initialised instance.
pub struct PjsuaInstanceInit {
    log_config: LogConfig,
    media_config: MediaConfig,
    pjsua_config: PjsuaConfig,
    handle: PjsuaInstanceHandle,
}

/// An initialised instance that is bound to a transport.
pub struct PjsuaInstanceInitTransportConfigured {
    pjsua_instance_init: PjsuaInstanceInit,
    transport: PjsuaTransport,
}

/// A started instance: accounts can be added, and the mixing graph is there.
pub struct PjsuaInstanceStarted {
    log_config: LogConfig,
    pjsua_config: PjsuaConfig,
    transport: PjsuaTransport,
    handle: PjsuaInstanceHandle,
    bridge: ConfBridgeHandle,
}

/// What is asked of the engine to initialise an instance, in this order.
/// The first request that fails ends the sequence; [`InitProgress`] keeps
/// to that.
pub open spec fn init_sequence() -> Seq<EngineRequest> {
    seq![EngineRequest::Init, EngineRequest::SetNullSoundDevice]
}

/// How far the initialisation of an instance has come: how many requests
/// of [`init_sequence`] the engine has accepted, and the error of the one it
/// refused, if it refused one.
pub struct InitProgress {
    answered: usize,
    failure: Option<PjsuaError>,
}

impl InitProgress {
    /// How many requests the engine has accepted.
    pub closed spec fn spec_answered(&self) -> nat {
        self.answered as nat
    }

    /// The error of the request that the engine refused.
    pub closed spec fn spec_failure(&self) -> Option<PjsuaError> {
        self.failure
    }

    /// What is to be asked next: the request that follows the accepted
    /// ones, and nothing once a request was refused or all were accepted.
    pub open spec fn spec_next(&self) -> Option<EngineRequest> {
        if self.spec_failure() is None && self.spec_answered() < init_sequence().len() {
            Some(init_sequence()[self.spec_answered() as int])
        } else {
            None
        }
    }

    /// The start: nothing was asked yet.
    pub fn new() -> (progress: InitProgress)
        ensures
            progress.spec_answered() == 0,
            progress.spec_failure() is None,
    {
        InitProgress { answered: 0, failure: None }
    }

    /// What to ask of the engine next, if anything.
    pub fn next_request(&self) -> (request: Option<EngineRequest>)
        ensures
            request == self.spec_next(),
    {
        if self.failure.is_some() {
            None
        } else if self.answered == 0 {
            Some(EngineRequest::Init)
        } else if self.answered == 1 {
            Some(EngineRequest::SetNullSoundDevice)
        } else {
            None
        }
    }

    /// Takes the engine's answer to the request that was due. An accepted
    /// request makes the next one due; a refused one ends the sequence, and
    /// its error is kept. Where no request was due, nothing changes.
    pub fn answer(&mut self, answer: Result<(), PjsuaError>)
        ensures
            old(self).spec_next() is None ==> *final(self) == *old(self),
            old(self).spec_next() is Some ==> match answer {
                Ok(()) => final(self).spec_answered() == old(self).spec_answered() + 1
                    && final(self).spec_failure() is None,
                Err(e) => final(self).spec_answered() == old(self).spec_answered() && final(self).spec_failure()
                    == Some(e) && final(self).spec_next() is None,
            },
    {
        if self.failure.is_none() && self.answered < 2 {
            match answer {
                Ok(()) => {
                    self.answered = self.answered + 1;
                },
                Err(e) => {
                    self.failure = Some(e);
                },
            }
        }
    }

    /// How the sequence ended: with the error of the request that was
    /// refused, or with success once every request was accepted. `None`
    /// while a request is still due.
    pub fn outcome(self) -> (outcome: Option<Result<(), PjsuaError>>)
        ensures
            outcome is None <==> self.spec_next() is Some,
            outcome matches Some(ended) ==> ended == (match self.spec_failure() {
                Some(e) => Err::<(), PjsuaError>(e),
                None => Ok(()),
            }),
    {
        match self.failure {
            Some(e) => Some(Err(e)),
            None => if self.answered < 2 {
                None
            } else {
                Some(Ok(()))
            },
        }
    }
}

impl PjsuaInstanceUninit {
    /// The handle of the instance.
    pub closed spec fn spec_handle(&self) -> PjsuaInstanceHandle {
        self.handle
    }

    /// The instance in its first phase, given the engine's answer to the
    /// request of the claim. The engine's error is passed on unchanged.
    pub fn get_instance(claim: InstanceClaim, created: Result<(), PjsuaError>) -> (result: Result<
        PjsuaInstanceUninit,
        PjsuaError,
    >)
        ensures
            match created {
                Ok(()) => result matches Ok(instance) && !instance.spec_handle().is_released(),
                Err(e) => result == Err::<PjsuaInstanceUninit, PjsuaError>(e),
            },
    {
        match PjsuaInstanceHandle::get_instance(claim, created) {
            Ok(handle) => Ok(PjsuaInstanceUninit::from(handle)),
            Err(e) => Err(e),
        }
    }

    /// The first phase of an instance with the given handle.
    pub fn from(handle: PjsuaInstanceHandle) -> (instance: PjsuaInstanceUninit)
        ensures
            instance.spec_handle() == handle,
    {
        PjsuaInstanceUninit { handle }
    }

    /// The configurations that an instance is initialised with beside the
    /// caller's: the default ones.
    pub fn init_configs(&self) -> (configs: (LogConfig, MediaConfig))
        ensures
            configs.0 == LogConfig::spec_default(),
            configs.1 == MediaConfig::spec_default(),
    {
        (LogConfig::default(), MediaConfig::default())
    }

    /// The start of the initialisation: nothing was asked yet.
    pub fn init_progress(&self) -> (progress: InitProgress)
        ensures
            progress.spec_answered() == 0,
            progress.spec_failure() is None,
    {
        InitProgress::new()
    }

    /// The initialised instance, given how [`init_sequence`] ended, which
    /// [`InitProgress::outcome`] tells: with success, or with the error of
    /// the request that failed. On an error
    /// the instance comes back as it was.
    pub fn init(self, pjsua_config: PjsuaConfig, initialised: Result<(), PjsuaError>) -> (result: Result<
        PjsuaInstanceInit,
        (PjsuaError, PjsuaInstanceUninit),
    >)
        ensures
            match initialised {
                Ok(()) => result matches Ok(instance) && instance.spec_handle() == self.spec_handle()
                    && instance.spec_pjsua_config() == pjsua_config && instance.spec_log_config()
                    == LogConfig::spec_default() && instance.spec_media_config() == MediaConfig::spec_default(),
                Err(e) => result == Err::<PjsuaInstanceInit, (PjsuaError, PjsuaInstanceUninit)>((e, self)),
            },
    {
        let (log_config, media_config) = self.init_configs();
        PjsuaInstanceInit::from(self, pjsua_config, log_config, media_config, initialised)
    }

    /// What to ask of the engine when the instance goes away.
    pub fn release(&mut self) -> (request: Option<EngineRequest>)
        ensures
            request == (if old(self).spec_handle().is_released() {
                None
            } else {
                Some(EngineRequest::Destroy)
            }),
            final(self).spec_handle().is_released(),
    {
        self.handle.release()
    }
}

impl PjsuaInstanceInit {
    /// The handle of the instance.
    pub closed spec fn spec_handle(&self) -> PjsuaInstanceHandle {
        self.handle
    }

    /// The caller's configuration.
    pub closed spec fn spec_pjsua_config(&self) -> PjsuaConfig {
        self.pjsua_config
    }

    /// The logging configuration.
    pub closed spec fn spec_log_config(&self) -> LogConfig {
        self.log_config
    }

    /// The media configuration.
    pub closed spec fn spec_media_config(&self) -> MediaConfig {
        self.media_config
    }

    /// See [`PjsuaInstanceUninit::init`].
    pub fn from(
        instance: PjsuaInstanceUninit,
        pjsua_config: PjsuaConfig,
        log_config: LogConfig,
        media_config: MediaConfig,
        initialised: Result<(), PjsuaError>,
    ) -> (result: Result<PjsuaInstanceInit, (PjsuaError, PjsuaInstanceUninit)>)
        ensures
            match initialised {
                Ok(()) => result matches Ok(init) && init.spec_handle() == instance.spec_handle()
                    && init.spec_pjsua_config() == pjsua_config && init.spec_log_config() == log_config
                    && init.spec_media_config() == media_config,
                Err(e) => result == Err::<PjsuaInstanceInit, (PjsuaError, PjsuaInstanceUninit)>((e, instance)),
            },
    {
        match initialised {
            Ok(()) => Ok(PjsuaInstanceInit { handle: instance.handle, pjsua_config, log_config, media_config }),
            Err(e) => Err((e, instance)),
        }
    }

    /// The logging configuration.
    pub fn log_config(&self) -> (config: LogConfig)
        ensures
            config == self.spec_log_config(),
    {
        self.log_config
    }

    /// The media configuration.
    pub fn media_config(&self) -> (config: MediaConfig)
        ensures
            config == self.spec_media_config(),
    {
        self.media_config
    }

    /// What to ask of the engine to bind the instance to `transport`.
    pub fn set_transport_request(&self, transport: &PjsuaTransport) -> (request: EngineRequest)
        ensures
            request == (EngineRequest::TransportCreate { port: transport.port() }),
    {
        EngineRequest::TransportCreate { port: transport.port() }
    }

    /// The instance bound to `transport`, given the engine's answer to
    /// [`PjsuaInstanceInit::set_transport_request`]: the transport's
    /// identifier, or the engine's error, with which the instance comes back
    /// as it was.
    pub fn set_transport(self, transport: PjsuaTransport, created: Result<i32, PjsuaError>) -> (result: Result<
        PjsuaInstanceInitTransportConfigured,
        (PjsuaError, PjsuaInstanceInit),
    >)
        ensures
            match created {
                Ok(_) => result matches Ok(bound) && bound.spec_instance() == self && bound.spec_transport()
                    == transport,
                Err(e) => result == Err::<PjsuaInstanceInitTransportConfigured, (PjsuaError, PjsuaInstanceInit)>(
                    (e, self),
                ),
            },
    {
        match created {
            Ok(_) => Ok(PjsuaInstanceInitTransportConfigured { pjsua_instance_init: self, transport }),
            Err(e) => Err((e, self)),
        }
    }

    /// What to ask of the engine when the instance goes away.
    pub fn release(&mut self) -> (request: Option<EngineRequest>)
        ensures
            request == (if old(self).spec_handle().is_released() {
                None
            } else {
                Some(EngineRequest::Destroy)
            }),
            final(self).spec_handle().is_released(),
    {
        self.handle.release()
    }
}

impl PjsuaInstanceInitTransportConfigured {
    /// The initialised instance.
    pub closed spec fn spec_instance(&self) -> PjsuaInstanceInit {
        self.pjsua_instance_init
    }

    /// The transport that the instance is bound to.
    pub closed spec fn spec_transport(&self) -> PjsuaTransport {
        self.transport
    }

    /// What to ask of the engine to start the instance.
    pub fn start_request(&self) -> (request: EngineRequest)
        ensures
            request == EngineRequest::Start,
    {
        EngineRequest::Start
    }

    /// The started instance, given the engine's answer to
    /// [`PjsuaInstanceInitTransportConfigured::start_request`]. The started
    /// instance takes the handle on the mixing graph, of which
    /// `bridge_created` is the flag. Where the engine refused, or the
    /// handle on the mixing graph is taken, the instance comes back as it
    /// was, with the engine's error or one of this layer's.
    pub fn start(self, started: Result<(), PjsuaError>, bridge_created: &mut CreationFlag) -> (result: Result<
        PjsuaInstanceStarted,
        (PjsuaError, PjsuaInstanceInitTransportConfigured),
    >)
        ensures
            match started {
                Ok(()) => {
                    &&& final(bridge_created).is_created()
                    &&& result is Ok <==> !old(bridge_created).is_created()
                    &&& result matches Ok(instance) ==> {
                        &&& instance.spec_handle() == self.spec_instance().spec_handle()
                        &&& instance.spec_transport() == self.spec_transport()
                    }
                    &&& result matches Err((e, instance)) ==> {
                        &&& e.code == LOCAL_ERROR
                        &&& e.message@ == bridge_taken_message()
                        &&& instance == self
                    }
                },
                Err(e) => {
                    &&& result == Err::<PjsuaInstanceStarted, (PjsuaError, PjsuaInstanceInitTransportConfigured)>(
                        (e, self),
                    )
                    &&& *final(bridge_created) == *old(bridge_created)
                },
            },
    {
        match started {
            Err(e) => Err((e, self)),
            Ok(()) => match ConfBridgeHandle::get_instance(bridge_created) {
                None => Err((PjsuaError::local("Conference bridge already created"), self)),
                Some(bridge) => Ok(
                    PjsuaInstanceStarted {
                        log_config: self.pjsua_instance_init.log_config,
                        pjsua_config: self.pjsua_instance_init.pjsua_config,
                        transport: self.transport,
                        handle: self.pjsua_instance_init.handle,
                        bridge,
                    },
                ),
            },
        }
    }

    /// What to ask of the engine when the instance goes away.
    pub fn release(&mut self) -> (request: Option<EngineRequest>)
        ensures
            request == (if old(self).spec_instance().spec_handle().is_released() {
                None
            } else {
                Some(EngineRequest::Destroy)
            }),
            final(self).spec_instance().spec_handle().is_released(),
            final(self).spec_transport() == old(self).spec_transport(),
    {
        self.pjsua_instance_init.release()
    }
}

impl PjsuaInstanceStarted {
    /// The handle of the instance.
    pub closed spec fn spec_handle(&self) -> PjsuaInstanceHandle {
        self.handle
    }

    /// The transport that the instance is bound to.
    pub closed spec fn spec_transport(&self) -> PjsuaTransport {
        self.transport
    }

    /// The handle on the mixing graph.
    pub closed spec fn spec_bridge(&self) -> ConfBridgeHandle {
        self.bridge
    }

    /// The handle on the mixing graph.
    pub fn get_bridge(&self) -> (bridge: &ConfBridgeHandle)
        ensures
            *bridge == self.spec_bridge(),
    {
        &self.bridge
    }

    /// What to ask of the engine to register `account`.
    pub fn add_account_request(&self, account: &AccountConfig) -> (request: EngineRequest)
        ensures
            request == EngineRequest::AccountAdd,
    {
        account.add_request()
    }

    /// The registered account; see [`AccountConfig::add_to_instance_init`].
    pub fn add_account<'a>(
        &'a self,
        account: AccountConfig,
        added: Result<i32, PjsuaError>,
        user_data_registered: bool,
    ) -> (result: Result<AccountConfigAdded<'a>, AccountError>)
        ensures
            match added {
                Err(e) => result == Err::<AccountConfigAdded<'a>, AccountError>(AccountError::Engine(e, account)),
                Ok(account_id) => if user_data_registered {
                    result matches Ok(registered) && registered.spec_account_id() == account_id
                        && registered.registration() == account.registration() && registered.spec_incoming_calls()
                        == account.spec_incoming_calls() && !registered.is_released()
                } else {
                    result == Err::<AccountConfigAdded<'a>, AccountError>(AccountError::UserDataMissing)
                },
            },
    {
        account.add_to_instance_init(self, added, user_data_registered)
    }

    /// What to ask of the engine when the instance goes away: its
    /// destruction the first time, after that nothing. Taking the instance
    /// by value, this can only be called once nothing borrows it: every
    /// account, call and port of the instance is gone by then.
    pub fn release(self) -> (request: Option<EngineRequest>)
        ensures
            request == (if self.spec_handle().is_released() {
                None
            } else {
                Some(EngineRequest::Destroy)
            }),
    {
        let mut handle = self.handle;
        handle.release()
    }
}

} // verus!
