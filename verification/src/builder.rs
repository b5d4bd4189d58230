//! The builder: the one place where a configuration can be changed.
//!
//! A builder owns its side record outright. No second owner can exist before
//! [`Builder::build`] turns the builder into a shared handle, so nothing here
//! needs a lock, and nothing that is shared can be changed afterwards.

use crate::config::Config;
use crate::config::ConfigView;
use crate::context::Context;
use crate::context::ContextView;
use crate::context::HandlerCategory;
use crate::error::Error;
use crate::lifecycle::ReleaseAction;
use crate::native::c_string;
use crate::native::client_hello_nonblocking;
use crate::native::extension_ocsp_stapling;
use crate::native::fits_u32;
use crate::native::has_u32_len;
use crate::native::is_c_string;
use crate::native::optional_bytes;
use crate::native::status_request_none;
use crate::native::status_request_ocsp;
use crate::native::AlertBehavior;
use crate::native::ClientAuthType;
use crate::native::Command;
use crate::native::CommandView;
use crate::native::SerializationVersion;
use crate::native::Status;
use crate::resource::ResourceHandle;
use crate::native::STATUS_REQUEST_NONE;
use crate::native::STATUS_REQUEST_OCSP;
use crate::native::CLIENT_HELLO_NONBLOCKING;
use crate::native::EXTENSION_OCSP_STAPLING;
use crate::native::MAX_PROTOCOL_LEN;
use crate::native::MIN_TICKET_KEY_LEN;
use crate::step::failure;
use crate::step::Continuation;
use crate::step::ContinuationView;
use crate::step::Step;
use crate::step::StepView;
use vstd::prelude::*;

verus! {

/// The most certificate chains that can be made defaults at once: one for
/// each type of certificate.
pub const MAX_DEFAULT_CHAINS: usize = 4;

/// A builder as mathematics.
#[verifier::ext_equal]
pub struct BuilderView<C, H> {
    /// The address of the underlying resource.
    pub resource: usize,
    pub context: ContextView<C, H>,
    /// Whether the system's certificates are loaded when the builder is
    /// finalized.
    pub load_system_certs: bool,
    /// Whether OCSP stapling was asked for.
    pub enable_ocsp: bool,
}

impl<C, H> BuilderView<C, H> {
    /// Whether this is the builder of a resource just allocated at
    /// `resource`: its side record is fresh, the system's certificates are to
    /// be loaded, and OCSP stapling has not been asked for.
    pub open spec fn is_created(self, resource: usize) -> bool {
        &&& self.resource == resource
        &&& self.context.is_fresh()
        &&& self.load_system_certs
        &&& !self.enable_ocsp
    }

    /// The builder after `handler` was registered for `category`.
    pub open spec fn with_handler(self, category: HandlerCategory, handler: H) -> Self {
        BuilderView { context: self.context.with_handler(category, handler), ..self }
    }

    /// The builder after it took `chain` into its keeping.
    pub open spec fn with_chain(self, chain: C) -> Self {
        BuilderView { context: self.context.with_chain(chain), ..self }
    }

    /// The builder after it took `chains` into its keeping.
    pub open spec fn with_chains(self, chains: Seq<C>) -> Self {
        BuilderView { context: self.context.with_chains(chains), ..self }
    }
}

/// What `Builder::resume` does: the builder and the step that follow when
/// the call of a step with continuation `then` was answered with `status`.
pub open spec fn transition<C, H>(
    state: BuilderView<C, H>,
    then: ContinuationView<H>,
    status: Status,
) -> (BuilderView<C, H>, StepView<H>) {
    match status {
        Status::Failure { code } => (state, StepView::Failed { error: failure(then, code) }),
        Status::Success => match then {
            ContinuationView::Finish => (state, StepView::Done),
            ContinuationView::FinishCertificate => (state, StepView::Done),
            ContinuationView::SelectClientHelloMode => (
                state,
                StepView::call(CommandView::SetClientHelloCallbackMode { mode: CLIENT_HELLO_NONBLOCKING }),
            ),
            ContinuationView::MarkOcsp => (
                BuilderView { enable_ocsp: true, ..state },
                StepView::Done,
            ),
            ContinuationView::RequestOcsp => (
                state,
                StepView::Call {
                    command: CommandView::SetStatusRequestType { request: STATUS_REQUEST_OCSP },
                    then: ContinuationView::MarkOcsp,
                },
            ),
            ContinuationView::SuppressOcsp => if state.enable_ocsp {
                (state, StepView::Done)
            } else {
                (state, StepView::call(CommandView::SetStatusRequestType { request: STATUS_REQUEST_NONE }))
            },
            ContinuationView::AppendProtocols { protocols, next } => if next >= protocols.len() {
                (state, StepView::Done)
            } else if protocols[next as int].len() > MAX_PROTOCOL_LEN {
                (state, StepView::invalid_input())
            } else {
                (
                    state,
                    StepView::Call {
                        command: CommandView::AppendProtocolPreference {
                            protocol: protocols[next as int],
                        },
                        then: ContinuationView::AppendProtocols {
                            protocols,
                            next: (next + 1) as usize,
                        },
                    },
                )
            },
            ContinuationView::InstallSessionTicketHandler { handler } => (
                state.with_handler(HandlerCategory::SessionTicket, handler),
                StepView::call(
                    CommandView::InstallTrampoline { category: HandlerCategory::SessionTicket },
                ),
            ),
            ContinuationView::AddTicketKey { name, key, intro_time } => (
                state,
                StepView::call(CommandView::AddTicketCryptoKey { name, key, intro_time }),
            ),
        },
    }
}

/// The staging area of one configuration.
///
/// `C` is the application's certificate chain handle and `H` its handler
/// object. Every operation answers with a [`Step`]; see the `step` module for
/// how steps are driven. An operation that fails leaves the builder usable.
pub struct Builder<C, H> {
    resource: ResourceHandle,
    context: Box<Context<C, H>>,
    load_system_certs: bool,
    enable_ocsp: bool,
}

impl<C, H> View for Builder<C, H> {
    type V = BuilderView<C, H>;

    closed spec fn view(&self) -> BuilderView<C, H> {
        BuilderView {
            resource: self.resource@,
            context: self.context@,
            load_system_certs: self.load_system_certs,
            enable_ocsp: self.enable_ocsp,
        }
    }
}

impl<C, H> Builder<C, H> {
    /// A builder for the underlying resource that was allocated at the
    /// address `resource`, with a fresh side record. The address 0 says that
    /// the allocation failed.
    ///
    /// The address has to be that of a fresh allocation, for which no other
    /// builder or handle exists: a resource has one side record, and handles
    /// are told apart by the address alone. A second builder for an address
    /// would give handles that are equal to those of the first and yet share
    /// another side record, and the resource would be freed twice.
    ///
    /// The builder creates configurations that use the default security
    /// policy; see [`Builder::set_security_policy`]. The resource is not
    /// ready before the steps of [`Builder::initialize`] are through.
    pub fn new(resource: usize) -> (builder: Result<Self, Error>)
        ensures
            match builder {
                Ok(b) => resource != 0 && b@.is_created(resource),
                Err(error) => resource == 0 && error == Error::ResourceAllocation,
            },
    {
        match ResourceHandle::new(resource) {
            Some(resource) => {
                let context: Box<Context<C, H>> = Box::new(Context::default());
                Ok(Builder { resource, context, load_system_certs: true, enable_ocsp: false })
            },
            None => Err(Error::ResourceAllocation),
        }
    }

    /// Makes the resource ready: the side record is attached to its
    /// extension slot, then the client hello callback is put into
    /// non-blocking mode, since handlers here are polled.
    pub fn initialize(&mut self) -> (step: Step<'static, H>)
        ensures
            final(self)@ == old(self)@,
            step@ == (StepView::<H>::Call {
                command: CommandView::AttachContext,
                then: ContinuationView::SelectClientHelloMode,
            }),
    {
        Step::Call { command: Command::AttachContext, then: Continuation::SelectClientHelloMode }
    }

    /// Goes on with an operation whose step asked for a call: `then` is the
    /// continuation of that step and `status` what the resource answered.
    ///
    /// A failed call ends the operation with the error that [`failure`]
    /// gives, and changes nothing. A call that succeeded is followed by what
    /// the continuation stands for; [`transition`] says it in full.
    pub fn resume<'a>(&mut self, then: Continuation<'a, H>, status: Status) -> (step: Step<'a, H>)
        ensures
            (final(self)@, step@) == transition(old(self)@, then@, status),
    {
        match status {
            Status::Failure { code } => {
                let error = match then {
                    Continuation::FinishCertificate => Error::Certificate { code },
                    _ => Error::rejected(code),
                };
                Step::Failed { error }
            },
            Status::Success => match then {
                Continuation::Finish => Step::Done,
                Continuation::FinishCertificate => Step::Done,
                Continuation::SelectClientHelloMode => Step::call(
                    Command::SetClientHelloCallbackMode { mode: client_hello_nonblocking() },
                ),
                Continuation::MarkOcsp => {
                    self.enable_ocsp = true;
                    Step::Done
                },
                Continuation::RequestOcsp => Step::Call {
                    command: Command::SetStatusRequestType { request: status_request_ocsp() },
                    then: Continuation::MarkOcsp,
                },
                Continuation::SuppressOcsp => {
                    // Setting the trust location switches the status request
                    // on. Unless OCSP stapling was asked for, switch it off.
                    if self.enable_ocsp {
                        Step::Done
                    } else {
                        Step::call(
                            Command::SetStatusRequestType { request: status_request_none() },
                        )
                    }
                },
                Continuation::AppendProtocols { protocols, next } => {
                    if next >= protocols.len() {
                        Step::Done
                    } else {
                        let protocol = protocols[next];
                        if protocol.len() > MAX_PROTOCOL_LEN {
                            Step::invalid_input()
                        } else {
                            Step::Call {
                                command: Command::AppendProtocolPreference { protocol },
                                then: Continuation::AppendProtocols { protocols, next: next + 1 },
                            }
                        }
                    }
                },
                Continuation::InstallSessionTicketHandler { handler } => {
                    self.context.set_handler(HandlerCategory::SessionTicket, handler);
                    Step::call(
                        Command::InstallTrampoline { category: HandlerCategory::SessionTicket },
                    )
                },
                Continuation::AddTicketKey { name, key, intro_time } => Step::call(
                    Command::AddTicketCryptoKey { name, key, intro_time },
                ),
            },
        }
    }

    /// Makes `chains` the default certificate chains, one for each type of
    /// certificate, in place of the defaults there were.
    ///
    /// With more than [`MAX_DEFAULT_CHAINS`] chains the operation fails with
    /// [`Error::TooManyDefaultChains`] and changes nothing. Otherwise the
    /// builder takes every chain into its keeping, there to stay whatever
    /// the resource answers, and asks for them to be set as one batch.
    pub fn set_default_chains(&mut self, chains: Vec<C>) -> (step: Step<'static, H>)
        ensures
            chains@.len() > MAX_DEFAULT_CHAINS ==> final(self)@ == old(self)@ && step@ == (
            StepView::<H>::Failed { error: Error::TooManyDefaultChains }),
            chains@.len() <= MAX_DEFAULT_CHAINS ==> final(self)@ == old(self)@.with_chains(chains@)
                && step@ == (StepView::<H>::Call {
                command: CommandView::SetCertChainAndKeyDefaults {
                    first: old(self)@.context.owned_chains.len() as usize,
                    count: chains@.len() as usize,
                },
                then: ContinuationView::FinishCertificate,
            }),
    {
        let count = chains.len();
        if count > MAX_DEFAULT_CHAINS {
            return Step::Failed { error: Error::TooManyDefaultChains };
        }
        let first = self.context.owned_chain_count();
        self.context.retain_chains(chains);
        Step::Call {
            command: Command::SetCertChainAndKeyDefaults { first, count },
            then: Continuation::FinishCertificate,
        }
    }

    /// Has a connection end, or not, when its peer sends a warning alert.
    pub fn set_alert_behavior(&mut self, value: AlertBehavior) -> (step: Step<'static, H>)
        ensures
            final(self)@ == old(self)@,
            step@ == StepView::<H>::call(CommandView::SetAlertBehavior { behavior: value }),
    {
        Step::call(Command::SetAlertBehavior { behavior: value })
    }

    /// Selects the security policy by the name of its version. A name that
    /// holds a NUL byte is turned down.
    pub fn set_security_policy<'a>(&mut self, policy: &'a [u8]) -> (step: Step<'a, H>)
        ensures
            final(self)@ == old(self)@,
            step@ == StepView::<H>::call_if(
                c_string(policy@),
                CommandView::SetCipherPreferences { policy: policy@ },
            ),
    {
        if !is_c_string(policy) {
            return Step::invalid_input();
        }
        Step::call(Command::SetCipherPreferences { policy })
    }

    /// Replaces the list of application protocols by `protocols`, the most
    /// preferred first.
    ///
    /// The list is emptied first; then the protocols are appended one by
    /// one, each as [`Builder::append_application_protocol_preference`]
    /// would. The first protocol that is turned down or rejected ends the
    /// operation, with those before it in the list.
    pub fn set_application_protocol_preference<'a>(
        &mut self,
        protocols: &'a [&'a [u8]],
    ) -> (step: Step<'a, H>)
        ensures
            final(self)@ == old(self)@,
            step@ == (StepView::<H>::Call {
                command: CommandView::ResetProtocolPreferences,
                then: ContinuationView::AppendProtocols {
                    protocols: crate::step::protocol_names(protocols@),
                    next: 0,
                },
            }),
    {
        Step::Call {
            command: Command::ResetProtocolPreferences,
            then: Continuation::AppendProtocols { protocols, next: 0 },
        }
    }

    /// Appends `protocol` to the list of application protocols. A protocol
    /// of more than [`MAX_PROTOCOL_LEN`] bytes is turned down.
    pub fn append_application_protocol_preference<'a>(
        &mut self,
        protocol: &'a [u8],
    ) -> (step: Step<'a, H>)
        ensures
            final(self)@ == old(self)@,
            step@ == StepView::<H>::call_if(
                protocol@.len() <= MAX_PROTOCOL_LEN,
                CommandView::AppendProtocolPreference { protocol: protocol@ },
            ),
    {
        if protocol.len() > MAX_PROTOCOL_LEN {
            return Step::invalid_input();
        }
        Step::call(Command::AppendProtocolPreference { protocol })
    }

    /// Turns the verification of certificates off. This weakens every
    /// connection made with the configuration: it is for development only,
    /// where a valid certificate cannot be had.
    pub fn disable_x509_verification(&mut self) -> (step: Step<'static, H>)
        ensures
            final(self)@ == old(self)@,
            step@ == StepView::<H>::call(CommandView::DisableX509Verification),
    {
        Step::call(Command::DisableX509Verification)
    }

    /// Adds Diffie-Hellman parameters in PEM. Input with a NUL byte is
    /// turned down.
    pub fn add_dhparams<'a>(&mut self, pem: &'a [u8]) -> (step: Step<'a, H>)
        ensures
            final(self)@ == old(self)@,
            step@ == StepView::<H>::call_if(c_string(pem@), CommandView::AddDhParams { pem: pem@ }),
    {
        if !is_c_string(pem) {
            return Step::invalid_input();
        }
        Step::call(Command::AddDhParams { pem })
    }

    /// Associates a certificate and its private key, both in PEM, with the
    /// configuration. At most one certificate of each type can be loaded
    /// this way; see [`Builder::load_chain`] for more. Input with a NUL byte
    /// is turned down.
    pub fn load_pem<'a>(&mut self, certificate: &'a [u8], private_key: &'a [u8]) -> (step: Step<
        'a,
        H,
    >)
        ensures
            final(self)@ == old(self)@,
            step@ == StepView::<H>::call_if(
                c_string(certificate@) && c_string(private_key@),
                CommandView::AddCertChainAndKey {
                    certificate: certificate@,
                    private_key: private_key@,
                },
            ),
    {
        if !is_c_string(certificate) {
            return Step::invalid_input();
        }
        if !is_c_string(private_key) {
            return Step::invalid_input();
        }
        Step::call(Command::AddCertChainAndKey { certificate, private_key })
    }

    /// Registers a certificate chain that the application shares with the
    /// configuration.
    ///
    /// The resource gets no more than a borrowed reference to the chain, so
    /// the builder takes the chain into its keeping, and does so whether or
    /// not the registration succeeds: how far a failed registration got
    /// cannot be seen from here, and a chain that the resource may still
    /// point to has to stay alive. A failed registration is an
    /// [`Error::Certificate`].
    pub fn load_chain(&mut self, chain: C) -> (step: Step<'static, H>)
        ensures
            final(self)@ == old(self)@.with_chain(chain),
            step@ == (StepView::<H>::Call {
                command: CommandView::AddCertChainAndKeyToStore {
                    index: old(self)@.context.owned_chains.len() as usize,
                },
                then: ContinuationView::FinishCertificate,
            }),
    {
        let index = self.context.owned_chain_count();
        self.context.retain_chain(chain);
        Step::Call {
            command: Command::AddCertChainAndKeyToStore { index },
            then: Continuation::FinishCertificate,
        }
    }

    /// Adds a certificate chain without its key. A chain whose length does
    /// not fit in 32 bits is turned down.
    pub fn load_public_pem<'a>(&mut self, certificate: &'a [u8]) -> (step: Step<'a, H>)
        ensures
            final(self)@ == old(self)@,
            step@ == StepView::<H>::call_if(
                fits_u32(certificate@.len()),
                CommandView::AddCertChain { certificate: certificate@ },
            ),
    {
        if !has_u32_len(certificate.len()) {
            return Step::invalid_input();
        }
        Step::call(Command::AddCertChain { certificate })
    }

    /// Adds a certificate in PEM to the trust store. Input with a NUL byte
    /// is turned down.
    pub fn trust_pem<'a>(&mut self, certificate: &'a [u8]) -> (step: Step<'a, H>)
        ensures
            final(self)@ == old(self)@,
            step@ == StepView::<H>::call_if(
                c_string(certificate@),
                CommandView::AddPemToTrustStore { certificate: certificate@ },
            ),
    {
        if !is_c_string(certificate) {
            return Step::invalid_input();
        }
        Step::call(Command::AddPemToTrustStore { certificate })
    }

    /// Adds to the trust store from a file of trusted certificates, from a
    /// directory of them, or from both.
    ///
    /// A path with a NUL byte is turned down. Setting the location switches
    /// the request for the peer's certificate status on; when the location
    /// is set and OCSP stapling was not asked for with
    /// [`Builder::enable_ocsp`], a second call switches it off again.
    pub fn trust_location<'a>(&mut self, file: Option<&'a [u8]>, dir: Option<&'a [u8]>) -> (step:
        Step<'a, H>)
        ensures
            final(self)@ == old(self)@,
            step@ == (if (file matches Some(f) ==> c_string(f@)) && (dir matches Some(d)
                ==> c_string(d@)) {
                StepView::<H>::Call {
                    command: CommandView::SetVerificationCaLocation {
                        file: optional_bytes(file),
                        dir: optional_bytes(dir),
                    },
                    then: ContinuationView::SuppressOcsp,
                }
            } else {
                StepView::<H>::invalid_input()
            }),
    {
        match file {
            Some(path) => {
                if !is_c_string(path) {
                    return Step::invalid_input();
                }
            },
            None => {},
        }
        match dir {
            Some(path) => {
                if !is_c_string(path) {
                    return Step::invalid_input();
                }
            },
            None => {},
        }
        Step::Call {
            command: Command::SetVerificationCaLocation { file, dir },
            then: Continuation::SuppressOcsp,
        }
    }

    /// Sets whether the system's certificates are loaded into the trust
    /// store when the builder is finalized. Leaving them out is faster where
    /// they are not needed. No call is made now.
    pub fn with_system_certs(&mut self, load_system_certs: bool) -> (step: Step<'static, H>)
        ensures
            final(self)@ == (BuilderView { load_system_certs, ..old(self)@ }),
            step@ == StepView::<H>::Done,
    {
        self.load_system_certs = load_system_certs;
        Step::Done
    }

    /// Empties the trust store.
    pub fn wipe_trust_store(&mut self) -> (step: Step<'static, H>)
        ensures
            final(self)@ == old(self)@,
            step@ == StepView::<H>::call(CommandView::WipeTrustStore),
    {
        Step::call(Command::WipeTrustStore)
    }

    /// Sets whether a client certificate is needed to complete a connection.
    pub fn set_client_auth_type(&mut self, auth_type: ClientAuthType) -> (step: Step<'static, H>)
        ensures
            final(self)@ == old(self)@,
            step@ == StepView::<H>::call(CommandView::SetClientAuthType { auth_type }),
    {
        Step::call(Command::SetClientAuthType { auth_type })
    }

    /// Has clients request OCSP stapling from the server. Once the resource
    /// has accepted the request, the builder takes note of it.
    pub fn enable_ocsp(&mut self) -> (step: Step<'static, H>)
        ensures
            final(self)@ == old(self)@,
            step@ == (StepView::<H>::Call {
                command: CommandView::SetStatusRequestType { request: STATUS_REQUEST_OCSP },
                then: ContinuationView::MarkOcsp,
            }),
    {
        Step::Call {
            command: Command::SetStatusRequestType { request: status_request_ocsp() },
            then: Continuation::MarkOcsp,
        }
    }

    /// Sets the OCSP data for the default certificate chain, which servers
    /// send to clients that request OCSP stapling, and then enables OCSP as
    /// [`Builder::enable_ocsp`] does. Data whose length does not fit in 32
    /// bits is turned down.
    pub fn set_ocsp_data<'a>(&mut self, data: &'a [u8]) -> (step: Step<'a, H>)
        ensures
            final(self)@ == old(self)@,
            step@ == (if fits_u32(data@.len()) {
                StepView::<H>::Call {
                    command: CommandView::SetExtensionData { extension: EXTENSION_OCSP_STAPLING, data: data@ },
                    then: ContinuationView::RequestOcsp,
                }
            } else {
                StepView::<H>::invalid_input()
            }),
    {
        if !has_u32_len(data.len()) {
            return Step::invalid_input();
        }
        Step::Call {
            command: Command::SetExtensionData { extension: extension_ocsp_stapling(), data },
            then: Continuation::RequestOcsp,
        }
    }

    /// Stores `handler` in the side record, in place of any handler of its
    /// category.
    fn register(&mut self, category: HandlerCategory, handler: H)
        ensures
            final(self)@ == old(self)@.with_handler(category, handler),
    {
        self.context.set_handler(category, handler);
    }

    /// Registers the handler that decides whether a host name from the
    /// peer's certificate is trusted. It may be called several times for one
    /// certificate, once for each name.
    ///
    /// The handler takes the place of any that was registered, at once and
    /// whatever the resource answers; the resource is then asked to call the
    /// trampoline of the category.
    pub fn set_verify_host_callback(&mut self, handler: H) -> (step: Step<'static, H>)
        ensures
            final(self)@ == old(self)@.with_handler(HandlerCategory::VerifyHost, handler),
            step@ == StepView::<H>::call(
                CommandView::InstallTrampoline { category: HandlerCategory::VerifyHost },
            ),
    {
        self.register(HandlerCategory::VerifyHost, handler);
        Step::call(Command::InstallTrampoline { category: HandlerCategory::VerifyHost })
    }

    /// Has the resource hand the key material of every connection to the
    /// function at the address `callback`, together with `context`; an
    /// address of 0 stands for no function. This is for debugging only. What
    /// `context` points to has to live as long as the configuration does.
    pub fn set_key_log_callback(&mut self, callback: usize, context: usize) -> (step: Step<
        'static,
        H,
    >)
        ensures
            final(self)@ == old(self)@,
            step@ == StepView::<H>::call(CommandView::SetKeyLogCallback { callback, context }),
    {
        Step::call(Command::SetKeyLogCallback { callback, context })
    }

    /// Sets how long a certificate chain can be.
    pub fn set_max_cert_chain_depth(&mut self, depth: u16) -> (step: Step<'static, H>)
        ensures
            final(self)@ == old(self)@,
            step@ == StepView::<H>::call(CommandView::SetMaxCertChainDepth { depth }),
    {
        Step::call(Command::SetMaxCertChainDepth { depth })
    }

    /// Sets the size of the send buffer.
    pub fn set_send_buffer_size(&mut self, size: u32) -> (step: Step<'static, H>)
        ensures
            final(self)@ == old(self)@,
            step@ == StepView::<H>::call(CommandView::SetSendBufferSize { size }),
    {
        Step::call(Command::SetSendBufferSize { size })
    }

    /// Marks the critical certificate extension with the object identifier
    /// `extension_oid` as one that the application validates itself. An
    /// identifier whose length does not fit in 32 bits is turned down.
    pub fn add_custom_x509_extension<'a>(&mut self, extension_oid: &'a [u8]) -> (step: Step<'a, H>)
        ensures
            final(self)@ == old(self)@,
            step@ == StepView::<H>::call_if(
                fits_u32(extension_oid@.len()),
                CommandView::AddCustomX509Extension { oid: extension_oid@ },
            ),
    {
        if !has_u32_len(extension_oid.len()) {
            return Step::invalid_input();
        }
        Step::call(Command::AddCustomX509Extension { oid: extension_oid })
    }

    /// Registers the handler that runs after the client hello was parsed.
    ///
    /// The handler takes the place of any that was registered, at once and
    /// whatever the resource answers; the resource is then asked to call the
    /// trampoline of the category.
    pub fn set_client_hello_callback(&mut self, handler: H) -> (step: Step<'static, H>)
        ensures
            final(self)@ == old(self)@.with_handler(HandlerCategory::ClientHello, handler),
            step@ == StepView::<H>::call(
                CommandView::InstallTrampoline { category: HandlerCategory::ClientHello },
            ),
    {
        self.register(HandlerCategory::ClientHello, handler);
        Step::call(Command::InstallTrampoline { category: HandlerCategory::ClientHello })
    }

    /// Registers the handler that prepares each new connection before its
    /// handshake begins, in place of any that was registered. The resource
    /// takes no part in this: no call is made.
    pub fn set_connection_initializer(&mut self, handler: H) -> (step: Step<'static, H>)
        ensures
            final(self)@ == old(self)@.with_handler(
                HandlerCategory::ConnectionInitializer,
                handler,
            ),
            step@ == StepView::<H>::Done,
    {
        self.register(HandlerCategory::ConnectionInitializer, handler);
        Step::Done
    }

    /// Registers the handler that is given session tickets as they arrive.
    ///
    /// Session tickets are switched on first. Only when that succeeded is
    /// the handler stored, in place of any that was registered, and the
    /// resource asked to call the trampoline of the category.
    pub fn set_session_ticket_callback(&mut self, handler: H) -> (step: Step<'static, H>)
        ensures
            final(self)@ == old(self)@,
            step@ == (StepView::<H>::Call {
                command: CommandView::SetSessionTickets { enabled: true },
                then: ContinuationView::InstallSessionTicketHandler { handler },
            }),
    {
        Step::Call {
            command: Command::SetSessionTickets { enabled: true },
            then: Continuation::InstallSessionTicketHandler { handler },
        }
    }

    /// Registers the handler that carries out the operations that need the
    /// private key.
    ///
    /// The handler takes the place of any that was registered, at once and
    /// whatever the resource answers; the resource is then asked to call the
    /// trampoline of the category.
    pub fn set_private_key_callback(&mut self, handler: H) -> (step: Step<'static, H>)
        ensures
            final(self)@ == old(self)@.with_handler(HandlerCategory::PrivateKey, handler),
            step@ == StepView::<H>::call(
                CommandView::InstallTrampoline { category: HandlerCategory::PrivateKey },
            ),
    {
        self.register(HandlerCategory::PrivateKey, handler);
        Step::call(Command::InstallTrampoline { category: HandlerCategory::PrivateKey })
    }

    /// Registers the handler that tells the wall clock time: the best guess
    /// at the real time since the epoch, used for timestamps. Unlike
    /// monotonic time it can move backwards.
    ///
    /// The handler takes the place of any that was registered, at once and
    /// whatever the resource answers; the resource is then asked to call the
    /// trampoline of the category.
    pub fn set_wall_clock(&mut self, handler: H) -> (step: Step<'static, H>)
        ensures
            final(self)@ == old(self)@.with_handler(HandlerCategory::WallClock, handler),
            step@ == StepView::<H>::call(
                CommandView::InstallTrampoline { category: HandlerCategory::WallClock },
            ),
    {
        self.register(HandlerCategory::WallClock, handler);
        Step::call(Command::InstallTrampoline { category: HandlerCategory::WallClock })
    }

    /// Registers the handler that tells the monotonic time: the time since
    /// an arbitrary point, used for timers. Unlike wall clock time it must
    /// never move backwards.
    ///
    /// The handler takes the place of any that was registered, at once and
    /// whatever the resource answers; the resource is then asked to call the
    /// trampoline of the category.
    pub fn set_monotonic_clock(&mut self, handler: H) -> (step: Step<'static, H>)
        ensures
            final(self)@ == old(self)@.with_handler(HandlerCategory::MonotonicClock, handler),
            step@ == StepView::<H>::call(
                CommandView::InstallTrampoline { category: HandlerCategory::MonotonicClock },
            ),
    {
        self.register(HandlerCategory::MonotonicClock, handler);
        Step::call(Command::InstallTrampoline { category: HandlerCategory::MonotonicClock })
    }

    /// Switches the negotiation of session tickets on or off.
    pub fn enable_session_tickets(&mut self, enable: bool) -> (step: Step<'static, H>)
        ensures
            final(self)@ == old(self)@,
            step@ == StepView::<H>::call(CommandView::SetSessionTickets { enabled: enable }),
    {
        Step::call(Command::SetSessionTickets { enabled: enable })
    }

    /// Adds a key with which session tickets are encrypted and decrypted,
    /// and switches session tickets on.
    ///
    /// `intro_time` is the time from which the key is used, in seconds since
    /// the Unix epoch, or `None` for a time before the epoch. The operation
    /// is turned down when the length of the name or of the key does not fit
    /// in 32 bits, when the time lies before the epoch, or when the key has
    /// fewer than [`MIN_TICKET_KEY_LEN`] bytes. Otherwise session tickets
    /// are switched on, and then the key is added.
    pub fn add_session_ticket_key<'a>(
        &mut self,
        key_name: &'a [u8],
        key: &'a [u8],
        intro_time: Option<u64>,
    ) -> (step: Step<'a, H>)
        ensures
            final(self)@ == old(self)@,
            step@ == (if fits_u32(key_name@.len()) && fits_u32(key@.len()) && intro_time is Some
                && key@.len() >= MIN_TICKET_KEY_LEN {
                StepView::<H>::Call {
                    command: CommandView::SetSessionTickets { enabled: true },
                    then: ContinuationView::AddTicketKey {
                        name: key_name@,
                        key: key@,
                        intro_time: intro_time->Some_0,
                    },
                }
            } else {
                StepView::<H>::invalid_input()
            }),
    {
        if !has_u32_len(key_name.len()) {
            return Step::invalid_input();
        }
        if !has_u32_len(key.len()) {
            return Step::invalid_input();
        }
        let seconds = match intro_time {
            Some(seconds) => seconds,
            None => {
                return Step::invalid_input();
            },
        };
        // Ticket keys are to have at least 128 bits of strength.
        if key.len() < MIN_TICKET_KEY_LEN {
            return Step::invalid_input();
        }
        Step::Call {
            command: Command::SetSessionTickets { enabled: true },
            then: Continuation::AddTicketKey { name: key_name, key, intro_time: seconds },
        }
    }

    /// Sets for how many seconds a session ticket key serves both to encrypt
    /// and to decrypt tickets.
    pub fn set_ticket_key_encrypt_decrypt_lifetime(&mut self, lifetime: u64) -> (step: Step<
        'static,
        H,
    >)
        ensures
            final(self)@ == old(self)@,
            step@ == StepView::<H>::call(
                CommandView::SetTicketEncryptDecryptKeyLifetime { seconds: lifetime },
            ),
    {
        Step::call(Command::SetTicketEncryptDecryptKeyLifetime { seconds: lifetime })
    }

    /// Sets for how many seconds a session ticket key serves to decrypt
    /// tickets only.
    pub fn set_ticket_key_decrypt_lifetime(&mut self, lifetime: u64) -> (step: Step<'static, H>)
        ensures
            final(self)@ == old(self)@,
            step@ == StepView::<H>::call(
                CommandView::SetTicketDecryptKeyLifetime { seconds: lifetime },
            ),
    {
        Step::call(Command::SetTicketDecryptKeyLifetime { seconds: lifetime })
    }

    /// Sets the version in which connections are to be serialized. It has
    /// to be set before a connection is serialized.
    pub fn set_serialization_version(&mut self, version: SerializationVersion) -> (step: Step<
        'static,
        H,
    >)
        ensures
            final(self)@ == old(self)@,
            step@ == StepView::<H>::call(CommandView::SetSerializationVersion { version }),
    {
        Step::call(Command::SetSerializationVersion { version })
    }

    /// Sets the longest blinding delay, in seconds, in place of the default.
    pub fn set_max_blinding_delay(&mut self, seconds: u32) -> (step: Step<'static, H>)
        ensures
            final(self)@ == old(self)@,
            step@ == StepView::<H>::call(CommandView::SetMaxBlindingDelay { delay: seconds }),
    {
        Step::call(Command::SetMaxBlindingDelay { delay: seconds })
    }

    /// Requires, or not, that session tickets are used only where forward
    /// secrecy is possible.
    pub fn require_ticket_forward_secrecy(&mut self, enable: bool) -> (step: Step<'static, H>)
        ensures
            final(self)@ == old(self)@,
            step@ == StepView::<H>::call(
                CommandView::RequireTicketForwardSecrecy { enabled: enable },
            ),
    {
        Step::call(Command::RequireTicketForwardSecrecy { enabled: enable })
    }

    /// Loads all acceptable certificate authorities from the trust store as
    /// it is configured now.
    pub fn set_certificate_authorities_from_trust_store(&mut self) -> (step: Step<'static, H>)
        ensures
            final(self)@ == old(self)@,
            step@ == StepView::<H>::call(CommandView::SetCertAuthoritiesFromTrustStore),
    {
        Step::call(Command::SetCertAuthoritiesFromTrustStore)
    }

    /// Enables QUIC.
    pub fn enable_quic(&mut self) -> (step: Step<'static, H>)
        ensures
            final(self)@ == old(self)@,
            step@ == StepView::<H>::call(CommandView::EnableQuic),
    {
        Step::call(Command::EnableQuic)
    }

    /// The setup that is put off until the builder is finalized: loading the
    /// system's certificates, unless [`Builder::with_system_certs`] turned
    /// it off. Its outcome goes to [`Builder::build`].
    pub fn deferred_setup(&self) -> (command: Option<Command<'static>>)
        ensures
            match command {
                Some(c) => self@.load_system_certs && c@ == CommandView::LoadSystemCerts,
                None => !self@.load_system_certs,
            },
    {
        if self.load_system_certs {
            Some(Command::LoadSystemCerts)
        } else {
            None
        }
    }

    /// Finalizes the builder into the first handle to its configuration.
    ///
    /// `setup` is what the resource answered to the command of
    /// [`Builder::deferred_setup`]; where there was none it plays no part.
    /// If the setup failed, so does the build: the builder and its side
    /// record are gone, and the caller frees the resource. Otherwise the
    /// handle shares the side record as the builder leaves it.
    pub fn build(self, setup: Status) -> (config: Result<Config<C, H>, Error>)
        ensures
            match config {
                Ok(handle) => (self@.load_system_certs ==> setup is Success) && handle@ == (
                ConfigView { resource: self@.resource, context: self@.context }),
                Err(error) => self@.load_system_certs && setup is Failure && error
                    == Error::spec_rejected(setup->code),
            },
    {
        if self.load_system_certs {
            match setup {
                Status::Failure { code } => {
                    return Err(Error::rejected(code));
                },
                Status::Success => {},
            }
        }
        Ok(Config::first(self.resource, self.context))
    }

    /// Gives the builder up without finalizing it. A builder is the only
    /// owner of its resource, so the side record goes with it and the
    /// caller frees the resource.
    pub fn abandon(self) -> (action: ReleaseAction)
        ensures
            action == ReleaseAction::Destroy,
    {
        ReleaseAction::Destroy
    }

    /// The side record, for reading.
    pub fn context(&self) -> (context: &Context<C, H>)
        ensures
            context@ == self@.context,
    {
        &self.context
    }

    /// The address of the underlying resource. It is not 0.
    pub fn resource(&self) -> (resource: usize)
        ensures
            resource == self@.resource,
            resource != 0,
    {
        self.resource.address()
    }

    /// The address of the underlying resource. It is meant for calls to the
    /// resource that the builder does not cover, and may go away.
    pub fn unstable_as_ptr(&mut self) -> (resource: usize)
        ensures
            final(self)@ == old(self)@,
            resource == old(self)@.resource,
            resource != 0,
    {
        self.resource.address()
    }
}

/// The most calls that can still follow the call of a step whose
/// continuation is `then`.
pub open spec fn calls_after<H>(then: ContinuationView<H>) -> nat {
    match then {
        ContinuationView::Finish => 0,
        ContinuationView::FinishCertificate => 0,
        ContinuationView::MarkOcsp => 0,
        ContinuationView::SelectClientHelloMode => 1,
        ContinuationView::RequestOcsp => 1,
        ContinuationView::SuppressOcsp => 1,
        ContinuationView::InstallSessionTicketHandler { .. } => 1,
        ContinuationView::AddTicketKey { .. } => 1,
        ContinuationView::AppendProtocols { protocols, next } => if next < protocols.len() {
            (protocols.len() - next) as nat
        } else {
            0
        },
    }
}

/// What an operation comes to when the resource answers the calls it asks
/// for with `answers`, in order: the builder it leaves, and its result, or
/// `None` if it asks for more calls than there are answers. `step` is the
/// step that the operation began with.
pub open spec fn outcome<C, H>(state: BuilderView<C, H>, step: StepView<H>, answers: Seq<Status>) -> (
    BuilderView<C, H>,
    Option<Result<(), Error>>,
)
    decreases answers.len(),
{
    match step {
        StepView::Done => (state, Some(Ok(()))),
        StepView::Failed { error } => (state, Some(Err(error))),
        StepView::Call { command, then } => if answers.len() == 0 {
            (state, None)
        } else {
            let (next, following) = transition(state, then, answers[0]);
            outcome(next, following, answers.drop_first())
        },
    }
}

/// A call that fails ends its operation and leaves the builder as it was, so
/// that the builder can be used again.
pub proof fn lemma_failed_call_changes_nothing<C, H>(
    state: BuilderView<C, H>,
    then: ContinuationView<H>,
    code: i32,
)
    ensures
        transition(state, then, Status::Failure { code }) == (
            state,
            StepView::<H>::Failed { error: failure(then, code) },
        ),
        failure(then, code).spec_is_recoverable(),
{
}

/// Every operation ends: each call that an operation asks for leaves fewer
/// calls to follow than the one before it. A list of protocols is taken to
/// be one that fits in memory.
pub proof fn lemma_calls_run_out<C, H>(
    state: BuilderView<C, H>,
    then: ContinuationView<H>,
    status: Status,
)
    requires
        then matches ContinuationView::AppendProtocols { protocols, .. } ==> protocols.len()
            <= usize::MAX,
    ensures
        transition(state, then, status).1 matches StepView::Call { then: next, .. } ==> calls_after(
            next,
        ) < calls_after(then),
{
}

/// A certificate chain whose registration fails at the underlying resource
/// is retained all the same.
///
/// `Builder::load_chain` leaves the builder as `state.with_chain(chain)` and
/// asks for the registration, to be followed by
/// [`ContinuationView::FinishCertificate`]. Whatever the resource answers,
/// the chain is the last of the chains that the builder keeps, and those
/// that were kept before are kept still; a failure with `code` is reported as
/// [`Error::Certificate`].
pub proof fn lemma_chain_retained_on_failure<C, H>(
    state: BuilderView<C, H>,
    chain: C,
    status: Status,
)
    ensures
        ({
            let registered = state.with_chain(chain);
            let (after, step) = transition(
                registered,
                ContinuationView::<H>::FinishCertificate,
                status,
            );
            &&& after.context.owned_chains == state.context.owned_chains.push(chain)
            &&& after.context.owned_chains.last() == chain
            &&& status matches Status::Failure { code } ==> step == (StepView::<H>::Failed {
                error: Error::Certificate { code },
            })
            &&& status is Success ==> step == StepView::<H>::Done
        }),
{
}

/// Chains are only ever added: whatever an operation's call is answered,
/// every chain that the builder kept before is kept after, in its place.
pub proof fn lemma_chains_are_kept<C, H>(
    state: BuilderView<C, H>,
    then: ContinuationView<H>,
    status: Status,
)
    ensures
        transition(state, then, status).0.context.owned_chains == state.context.owned_chains,
        transition(state, then, status).0.resource == state.resource,
{
}

/// Registering a handler twice for one category keeps the second only.
///
/// The builder after both registrations is the builder after the second
/// alone: the second handler is the one registered for the category, and the
/// handlers of the other categories are those that were there before.
pub proof fn lemma_second_handler_wins<C, H>(
    state: BuilderView<C, H>,
    category: HandlerCategory,
    first: H,
    second: H,
)
    ensures
        state.with_handler(category, first).with_handler(category, second) == state.with_handler(
            category,
            second,
        ),
        state.with_handler(category, first).with_handler(category, second).context.handler(
            category,
        ) == Some(second),
        forall|other: HandlerCategory|
            other != category ==> state.with_handler(category, first).with_handler(
                category,
                second,
            ).context.handler(other) == state.context.handler(other),
{
    let twice = state.with_handler(category, first).with_handler(category, second);
    let once = state.with_handler(category, second);
    assert(twice.context.handlers =~= once.context.handlers);
    assert(twice.context =~= once.context);
}

/// Setting OCSP data enables OCSP stapling when both of its calls succeed,
/// and leaves it as it was when either fails.
pub proof fn lemma_ocsp_data_enables_ocsp<C, H>(state: BuilderView<C, H>, data: Seq<u8>, answers: Seq<Status>)
    requires
        answers.len() == 2,
    ensures
        ({
            let begun = StepView::<H>::Call {
                command: CommandView::SetExtensionData { extension: EXTENSION_OCSP_STAPLING, data },
                then: ContinuationView::RequestOcsp,
            };
            let (after, result) = outcome(state, begun, answers);
            if answers[0] is Success && answers[1] is Success {
                after == (BuilderView { enable_ocsp: true, ..state }) && result == Some(
                    Ok::<(), Error>(()),
                )
            } else {
                after == state && result is Some && result->Some_0 is Err
            }
        }),
{
    let begun = StepView::<H>::Call {
        command: CommandView::SetExtensionData { extension: EXTENSION_OCSP_STAPLING, data },
        then: ContinuationView::RequestOcsp,
    };
    reveal_with_fuel(outcome, 4);
    let rest = answers.drop_first();
    assert(rest.len() == 1);
    assert(rest[0] == answers[1]);
    assert(rest.drop_first().len() == 0);
}

} // verus!
