//! One SIP account: what it is registered with, and its queue of incoming
//! calls.

use vstd::prelude::*;
use vstd::string::StringExecFns;
use vstd::utf8::encode_utf8;
use crate::engine::EngineRequest;
use crate::error::{PjsuaError, LOCAL_ERROR};
use crate::pjsua_call::{PjsuaCallHandle, StateChangedUserData, CALL_STATE_QUEUE_DEPTH};
use crate::pjsua_softphone_api::PjsuaInstanceStarted;
use crate::tokio_utils::{bounded_channel, BoundedSender, TrySend};

verus! {

/// How many incoming calls of an account wait to be taken.
pub const INCOMING_CALL_QUEUE_DEPTH: usize = 10;

/// Whether a text, as the bytes that the engine is given, holds a NUL. The
/// engine takes its strings NUL-terminated, so such a text cannot be passed.
pub open spec fn has_embedded_nul(text: Seq<char>) -> bool {
    encode_utf8(text).contains(0u8)
}

/// The identity of an account: `sip:`, the user, `@`, the domain.
pub open spec fn identity_uri(username: Seq<char>, domain: Seq<char>) -> Seq<char> {
    "sip:"@ + username + "@"@ + domain
}

/// The registrar of an account: `sip:` and the domain.
pub open spec fn registrar_uri(domain: Seq<char>) -> Seq<char> {
    "sip:"@ + domain
}

/// The message of the error for a text with a NUL in it.
pub open spec fn embedded_nul_message() -> Seq<char> {
    "CString::new failed!"@
}

/// Whether a text, as the bytes that the engine is given, holds a NUL.
pub fn contains_nul(text: &str) -> (found: bool)
    ensures
        found == has_embedded_nul(text@),
{
    let bytes = text.as_bytes();
    let mut i: usize = 0;
    while i < bytes.len()
        invariant
            i <= bytes@.len(),
            bytes@ == encode_utf8(text@),
            forall|j: int| 0 <= j < i ==> bytes@[j] != 0u8,
        decreases bytes.len() - i,
    {
        if bytes[i] == 0 {
            assert(bytes@.contains(0u8));
            return true;
        }
        i = i + 1;
    }
    assert(!bytes@.contains(0u8));
    false
}

/// What the engine's callback works with for one account: the sending half
/// of the account's queue of incoming calls.
pub struct AccountConfigUserData {
    on_incoming_call_tx: BoundedSender<(i32, i32)>,
}

impl AccountConfigUserData {
    /// How many incoming calls the queue of the account holds.
    pub closed spec fn spec_queue_depth(&self) -> usize {
        self.on_incoming_call_tx.capacity()
    }

    /// How many incoming calls the queue of the account holds.
    #[verifier::when_used_as_spec(spec_queue_depth)]
    pub fn queue_depth(&self) -> (depth: usize)
        ensures
            depth == self.spec_queue_depth(),
    {
        self.on_incoming_call_tx.capacity()
    }

    /// Queues an incoming call for the account's owner, without waiting.
    /// Whether the queue takes it is not known beforehand; an entry that
    /// was not queued comes back.
    pub fn send_call(&self, acc_id: i32, call_id: i32) -> (sent: TrySend<(i32, i32)>)
        ensures
            sent matches TrySend::Full(entry) ==> entry == (acc_id, call_id),
            sent matches TrySend::Closed(entry) ==> entry == (acc_id, call_id),
    {
        self.on_incoming_call_tx.try_send((acc_id, call_id))
    }
}

/// The receiving half of an account's queue of incoming calls. Each entry
/// is the account and the call, by the engine's identifiers.
pub struct IncomingCallReceiver {
    pub on_incoming_call_rx: tokio::sync::mpsc::Receiver<(i32, i32)>,
}

/// The credential of an account: a password in plain text for a realm.
#[derive(Debug)]
pub struct CredInfo {
    pub realm: String,
    pub scheme: String,
    pub username: String,
    pub data: String,
}

/// What a credential is.
pub ghost struct CredInfoView {
    pub realm: Seq<char>,
    pub scheme: Seq<char>,
    pub username: Seq<char>,
    pub data: Seq<char>,
}

impl View for CredInfo {
    type V = CredInfoView;

    open spec fn view(&self) -> CredInfoView {
        CredInfoView {
            realm: self.realm@,
            scheme: self.scheme@,
            username: self.username@,
            data: self.data@,
        }
    }
}

impl CredInfo {
    /// A credential for the user with the password, in the realm and by the
    /// scheme given. It is refused where one of the texts holds a NUL.
    pub fn new(all_realm: &str, scheme: &str, username: &str, password: &str, domain: &str) -> (result: Result<
        CredInfo,
        PjsuaError,
    >)
        ensures
            result is Ok <==> !(has_embedded_nul(all_realm@) || has_embedded_nul(scheme@) || has_embedded_nul(
                username@,
            ) || has_embedded_nul(password@) || has_embedded_nul(domain@)),
            result matches Ok(cred) ==> cred@ == (CredInfoView {
                realm: all_realm@,
                scheme: scheme@,
                username: username@,
                data: password@,
            }),
            result matches Err(e) ==> e.code == LOCAL_ERROR && e.message@ == embedded_nul_message(),
    {
        if contains_nul(all_realm) || contains_nul(scheme) || contains_nul(username) || contains_nul(password)
            || contains_nul(domain) {
            return Err(PjsuaError::local("CString::new failed!"));
        }
        Ok(Self::plain(all_realm, scheme, username, password))
    }

    fn plain(all_realm: &str, scheme: &str, username: &str, password: &str) -> (cred: CredInfo)
        ensures
            cred@ == (CredInfoView { realm: all_realm@, scheme: scheme@, username: username@, data: password@ }),
    {
        CredInfo {
            realm: String::from_str(all_realm),
            scheme: String::from_str(scheme),
            username: String::from_str(username),
            data: String::from_str(password),
        }
    }
}

/// An account that is not registered yet. Its parts are what the engine is
/// asked to register.
pub struct AccountConfig {
    id: String,
    reg_uri: String,
    cred_info: Vec<CredInfo>,
    on_incoming_call_rx: IncomingCallReceiver,
    user_data: Option<AccountConfigUserData>,
}

/// What is registered for an account: its identity, its registrar, and its
/// credentials.
pub ghost struct AccountView {
    pub id: Seq<char>,
    pub reg_uri: Seq<char>,
    pub cred_info: Seq<CredInfoView>,
}

/// What is registered for a user with a password at a domain: one
/// credential, for every realm, by digest.
pub open spec fn account_of(username: Seq<char>, password: Seq<char>, domain: Seq<char>) -> AccountView {
    AccountView {
        id: identity_uri(username, domain),
        reg_uri: registrar_uri(domain),
        cred_info: seq![
            CredInfoView { realm: "*"@, scheme: "digest"@, username: username, data: password },
        ],
    }
}

impl AccountConfig {
    /// What the engine is asked to register.
    pub closed spec fn registration(&self) -> AccountView {
        AccountView {
            id: self.id@,
            reg_uri: self.reg_uri@,
            cred_info: Seq::new(self.cred_info@.len(), |i: int| self.cred_info@[i]@),
        }
    }

    /// Whether the callback's block is still here.
    pub closed spec fn has_user_data(&self) -> bool {
        self.user_data is Some
    }

    /// The receiving half of the account's queue of incoming calls.
    pub closed spec fn spec_incoming_calls(&self) -> IncomingCallReceiver {
        self.on_incoming_call_rx
    }

    /// The callback's block, while it is here.
    pub closed spec fn spec_user_data(&self) -> AccountConfigUserData {
        self.user_data->0
    }

    /// An account for a user with a password at a domain, with a queue of
    /// [`INCOMING_CALL_QUEUE_DEPTH`] incoming calls. It is made for every
    /// three texts without a NUL, and registers exactly [`account_of`]
    /// them; a text with a NUL is refused.
    pub fn new(username: &str, password: &str, domain: &str) -> (result: Result<AccountConfig, PjsuaError>)
        ensures
            result is Ok <==> !(has_embedded_nul(username@) || has_embedded_nul(password@) || has_embedded_nul(
                domain@,
            )),
            result matches Ok(account) ==> account.registration() == account_of(username@, password@, domain@)
                && account.has_user_data() && account.spec_user_data().queue_depth()
                == INCOMING_CALL_QUEUE_DEPTH,
            result matches Err(e) ==> e.code == LOCAL_ERROR && e.message@ == embedded_nul_message(),
    {
        if contains_nul(username) || contains_nul(password) || contains_nul(domain) {
            return Err(PjsuaError::local("CString::new failed!"));
        }
        let cred_info0 = CredInfo::plain("*", "digest", username, password);
        let mut id = String::from_str("sip:");
        id.append(username);
        id.append("@");
        id.append(domain);
        let mut reg_uri = String::from_str("sip:");
        reg_uri.append(domain);
        let (on_incoming_call_tx, on_incoming_call_rx) = bounded_channel::<(i32, i32)>(INCOMING_CALL_QUEUE_DEPTH);
        let mut cred_info: Vec<CredInfo> = Vec::new();
        cred_info.push(cred_info0);
        let account = AccountConfig {
            id,
            reg_uri,
            cred_info,
            on_incoming_call_rx: IncomingCallReceiver { on_incoming_call_rx },
            user_data: Some(AccountConfigUserData { on_incoming_call_tx }),
        };
        assert(account.registration().cred_info =~= account_of(username@, password@, domain@).cred_info);
        Ok(account)
    }

    /// The identity of the account.
    pub fn id(&self) -> (id: &String)
        ensures
            id@ == self.registration().id,
    {
        &self.id
    }

    /// The registrar of the account.
    pub fn reg_uri(&self) -> (uri: &String)
        ensures
            uri@ == self.registration().reg_uri,
    {
        &self.reg_uri
    }

    /// The credentials of the account.
    pub fn cred_info(&self) -> (creds: &Vec<CredInfo>)
        ensures
            creds@.len() == self.registration().cred_info.len(),
            forall|i: int| 0 <= i < creds@.len() ==> creds@[i]@ == self.registration().cred_info[i],
    {
        &self.cred_info
    }

    /// Hands out what the engine's callback works with: once, then `None`.
    pub fn take_user_data(&mut self) -> (user_data: Option<AccountConfigUserData>)
        ensures
            user_data is Some <==> old(self).has_user_data(),
            user_data matches Some(block) ==> block == old(self).spec_user_data(),
            !final(self).has_user_data(),
            final(self).spec_incoming_calls() == old(self).spec_incoming_calls(),
            final(self).registration() == old(self).registration(),
    {
        self.user_data.take()
    }

    /// What to ask of the engine to register the account.
    pub fn add_request(&self) -> (request: EngineRequest)
        ensures
            request == EngineRequest::AccountAdd,
    {
        EngineRequest::AccountAdd
    }

    /// The registered account, given the engine's answer to
    /// [`AccountConfig::add_request`] and, where the engine registered the
    /// account, whether it then reports the callback's block for it. The
    /// engine's error is passed on unchanged, with the account as it was. A
    /// registered account without its block is a broken invariant, which
    /// the caller treats as fatal.
    pub fn add_to_instance_init<'a>(
        self,
        pjsua_instance_started: &'a PjsuaInstanceStarted,
        added: Result<i32, PjsuaError>,
        user_data_registered: bool,
    ) -> (result: Result<AccountConfigAdded<'a>, AccountError>)
        ensures
            match added {
                Err(e) => result == Err::<AccountConfigAdded<'a>, AccountError>(AccountError::Engine(e, self)),
                Ok(account_id) => if user_data_registered {
                    result matches Ok(account) && account.spec_account_id() == account_id
                        && account.registration() == self.registration() && account.spec_incoming_calls()
                        == self.spec_incoming_calls() && !account.is_released()
                } else {
                    result == Err::<AccountConfigAdded<'a>, AccountError>(AccountError::UserDataMissing)
                },
            },
    {
        match added {
            Err(e) => Err(AccountError::Engine(e, self)),
            Ok(account_id) => {
                if !user_data_registered {
                    return Err(AccountError::UserDataMissing);
                }
                Ok(
                    AccountConfigAdded {
                        account_id,
                        id: self.id,
                        reg_uri: self.reg_uri,
                        cred_info: self.cred_info,
                        on_incoming_call_rx: self.on_incoming_call_rx,
                        _pjsua_instance_started: pjsua_instance_started,
                        released: false,
                    },
                )
            },
        }
    }
}

/// Why an account was not registered.
pub enum AccountError {
    /// The engine refused; the account comes back as it was.
    Engine(PjsuaError, AccountConfig),
    /// The engine registered the account but does not report the callback's
    /// block for it. Fatal.
    UserDataMissing,
}

/// What to do with the callback's block of an account that was removed.
#[derive(Debug, Clone, Copy, PartialEq, Eq, Structural)]
pub enum UserDataVerdict {
    /// The engine no longer refers to the block: free it.
    Free,
    /// The engine still refers to the block. Freeing it would leave the
    /// engine with a dangling reference: fatal.
    StillRegistered,
}

/// A registered account, with the receiving half of its queue of incoming
/// calls.
pub struct AccountConfigAdded<'a> {
    account_id: i32,
    id: String,
    reg_uri: String,
    cred_info: Vec<CredInfo>,
    pub on_incoming_call_rx: IncomingCallReceiver,
    _pjsua_instance_started: &'a PjsuaInstanceStarted,
    released: bool,
}

impl<'a> AccountConfigAdded<'a> {
    /// The engine's identifier of the account.
    pub closed spec fn spec_account_id(&self) -> i32 {
        self.account_id
    }

    /// What was registered.
    pub closed spec fn registration(&self) -> AccountView {
        AccountView {
            id: self.id@,
            reg_uri: self.reg_uri@,
            cred_info: Seq::new(self.cred_info@.len(), |i: int| self.cred_info@[i]@),
        }
    }

    /// Whether the removal of the account was asked for.
    pub closed spec fn is_released(&self) -> bool {
        self.released
    }

    /// The receiving half of the account's queue of incoming calls.
    pub closed spec fn spec_incoming_calls(&self) -> IncomingCallReceiver {
        self.on_incoming_call_rx
    }

    /// The engine's identifier of the account.
    #[verifier::when_used_as_spec(spec_account_id)]
    pub fn account_id(&self) -> (account_id: i32)
        ensures
            account_id == self.spec_account_id(),
    {
        self.account_id
    }

    /// The handle for a call that the queue of incoming calls gave, and the
    /// block that the engine's callbacks are to work with for it.
    /// `notified` is the queue's entry: the account and the call.
    pub fn next_call(&self, notified: (i32, i32)) -> (made: (PjsuaCallHandle<'a>, StateChangedUserData))
        ensures
            made.0.spec_call_id() == notified.1,
            made.0.holds_media_data_slot(),
            made.1.awaits_media_data(),
            made.1.queue_depth() == CALL_STATE_QUEUE_DEPTH,
    {
        PjsuaCallHandle::new(notified.1, self._pjsua_instance_started)
    }

    /// What to ask of the engine when the account goes away: its removal
    /// the first time, after that nothing. The callback's block is freed
    /// only after the removal, and only as [`AccountConfigAdded::user_data_verdict`]
    /// allows.
    pub fn release(&mut self) -> (request: Option<EngineRequest>)
        ensures
            request == (if old(self).is_released() {
                None
            } else {
                Some(EngineRequest::AccountDel { account_id: old(self).spec_account_id() })
            }),
            final(self).is_released(),
            final(self).spec_account_id() == old(self).spec_account_id(),
            final(self).registration() == old(self).registration(),
            final(self).spec_incoming_calls() == old(self).spec_incoming_calls(),
    {
        if self.released {
            None
        } else {
            self.released = true;
            Some(EngineRequest::AccountDel { account_id: self.account_id })
        }
    }

    /// What to do with the callback's block after the account was removed,
    /// given whether the engine still reports the block for the account.
    pub fn user_data_verdict(user_data_registered: bool) -> (verdict: UserDataVerdict)
        ensures
            verdict == (if user_data_registered {
                UserDataVerdict::StillRegistered
            } else {
                UserDataVerdict::Free
            }),
    {
        if user_data_registered {
            UserDataVerdict::StillRegistered
        } else {
            UserDataVerdict::Free
        }
    }
}

} // verus!
