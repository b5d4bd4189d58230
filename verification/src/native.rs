//! The boundary to the underlying resource: the calls that are asked of it,
//! as plain values, and what it answers.
//!
//! Nothing here touches the resource. A call is described by a [`Command`];
//! whoever owns the resource carries it out and hands back a [`Status`].

use crate::context::HandlerCategory;
use vstd::prelude::*;

verus! {

/// What an entry point of the underlying resource answered.
#[derive(Clone, Copy, Debug, PartialEq, Eq, Structural)]
pub enum Status {
    Success,
    /// The call failed, and the resource reported `code`.
    Failure { code: i32 },
}

/// Whether a connection ends when its peer sends a warning alert.
#[derive(Clone, Copy, Debug, PartialEq, Eq, Structural)]
pub enum AlertBehavior {
    FailOnWarnings,
    IgnoreWarnings,
}

/// Whether a client certificate is asked for.
#[derive(Clone, Copy, Debug, PartialEq, Eq, Structural)]
pub enum ClientAuthType {
    Required,
    Optional,
    /// No client certificate takes part in the handshake.
    Disabled,
}

/// The version in which connections are serialized.
#[derive(Clone, Copy, Debug, PartialEq, Eq, Structural)]
pub enum SerializationVersion {
    /// Connections are not serialized.
    Disabled,
    V1,
}

/// The most bytes that one application protocol name can have.
pub const MAX_PROTOCOL_LEN: usize = 255;

/// The fewest bytes that a session ticket key can have: 128 bits.
pub const MIN_TICKET_KEY_LEN: usize = 16;

/// True when `bytes` can be the content of a C string: no byte is NUL.
pub open spec fn c_string(bytes: Seq<u8>) -> bool {
    forall|i: int| 0 <= i < bytes.len() ==> bytes[i] != 0
}

/// True when `len` bytes can be handed over with a 32-bit length.
pub open spec fn fits_u32(len: nat) -> bool {
    len <= u32::MAX
}

/// Whether `bytes` can be the content of a C string.
pub fn is_c_string(bytes: &[u8]) -> (ok: bool)
    ensures
        ok == c_string(bytes@),
{
    let mut i: usize = 0;
    while i < bytes.len()
        invariant
            i <= bytes.len(),
            forall|j: int| 0 <= j < i ==> bytes@[j] != 0,
        decreases bytes.len() - i,
    {
        if bytes[i] == 0 {
            return false;
        }
        i += 1;
    }
    true
}

/// Whether a buffer of `len` bytes can be handed over with a 32-bit length.
pub fn has_u32_len(len: usize) -> (ok: bool)
    ensures
        ok == fits_u32(len as nat),
{
    len <= 0xffff_ffff
}

/// What the trampoline of a clock hands to the resource.
///
/// `nanoseconds` is what the registered clock tells, or `None` when no clock
/// is registered. The resource takes the time as a 64-bit count of
/// nanoseconds: a time that does not fit, like a missing clock, makes the
/// trampoline fail.
pub fn clock_reading(nanoseconds: Option<u128>) -> (reading: Option<u64>)
    ensures
        reading == (match nanoseconds {
            Some(n) => if n <= u64::MAX {
                Some(n as u64)
            } else {
                None
            },
            None => None,
        }),
{
    match nanoseconds {
        Some(n) => {
            if n <= 0xffff_ffff_ffff_ffff {
                Some(n as u64)
            } else {
                None
            }
        },
        None => None,
    }
}

/// The status request type that asks for no certificate status.
pub const STATUS_REQUEST_NONE: u32 = 0;

/// The status request type that asks for an OCSP response.
pub const STATUS_REQUEST_OCSP: u32 = 1;

/// The mode in which the client hello callback does not finish its work
/// before it returns.
pub const CLIENT_HELLO_NONBLOCKING: u32 = 1;

/// The type of the extension whose data is a stapled OCSP response.
pub const EXTENSION_OCSP_STAPLING: u32 = 5;

/// `s2n_tls_sys::s2n_status_request_type::NONE`: no certificate status is
/// requested. The bindings define it as 0.
#[verifier::external_body]
pub(crate) fn status_request_none() -> (code: u32)
    ensures
        code == STATUS_REQUEST_NONE,
{
    s2n_tls_sys::s2n_status_request_type::NONE
}

/// `s2n_tls_sys::s2n_status_request_type::OCSP`: an OCSP response is
/// requested. The bindings define it as 1.
#[verifier::external_body]
pub(crate) fn status_request_ocsp() -> (code: u32)
    ensures
        code == STATUS_REQUEST_OCSP,
{
    s2n_tls_sys::s2n_status_request_type::OCSP
}

/// `s2n_tls_sys::s2n_client_hello_cb_mode::NONBLOCKING`: the client hello
/// callback does not finish its work before it returns. The bindings define
/// it as 1.
#[verifier::external_body]
pub(crate) fn client_hello_nonblocking() -> (code: u32)
    ensures
        code == CLIENT_HELLO_NONBLOCKING,
{
    s2n_tls_sys::s2n_client_hello_cb_mode::NONBLOCKING
}

/// `s2n_tls_sys::s2n_tls_extension_type::OCSP_STAPLING`: the extension whose
/// data is a stapled OCSP response. The bindings define it as 5.
#[verifier::external_body]
pub(crate) fn extension_ocsp_stapling() -> (code: u32)
    ensures
        code == EXTENSION_OCSP_STAPLING,
{
    s2n_tls_sys::s2n_tls_extension_type::OCSP_STAPLING
}

/// One call to the underlying resource, with its arguments checked and
/// converted. Certificate chains are named by their place among the chains
/// that the side record keeps alive; handlers by their category.
#[derive(Clone, Copy, Debug, PartialEq, Eq)]
pub enum Command<'a> {
    /// Attach the side record to the resource's extension slot.
    AttachContext,
    SetClientHelloCallbackMode { mode: u32 },
    SetAlertBehavior { behavior: AlertBehavior },
    SetCipherPreferences { policy: &'a [u8] },
    /// Empty the list of application protocols.
    ResetProtocolPreferences,
    AppendProtocolPreference { protocol: &'a [u8] },
    DisableX509Verification,
    AddDhParams { pem: &'a [u8] },
    AddCertChainAndKey { certificate: &'a [u8], private_key: &'a [u8] },
    /// Register the chain at `index` of the owned chains.
    AddCertChainAndKeyToStore { index: usize },
    /// Make the `count` owned chains from `first` on the defaults.
    SetCertChainAndKeyDefaults { first: usize, count: usize },
    AddCertChain { certificate: &'a [u8] },
    AddPemToTrustStore { certificate: &'a [u8] },
    SetVerificationCaLocation { file: Option<&'a [u8]>, dir: Option<&'a [u8]> },
    SetStatusRequestType { request: u32 },
    WipeTrustStore,
    SetClientAuthType { auth_type: ClientAuthType },
    SetExtensionData { extension: u32, data: &'a [u8] },
    /// Have the resource call the fixed trampoline of `category`.
    InstallTrampoline { category: HandlerCategory },
    /// Have the resource hand its key material to the function at the
    /// address `callback`, together with `context`.
    SetKeyLogCallback { callback: usize, context: usize },
    SetMaxCertChainDepth { depth: u16 },
    SetSendBufferSize { size: u32 },
    AddCustomX509Extension { oid: &'a [u8] },
    SetSessionTickets { enabled: bool },
    AddTicketCryptoKey { name: &'a [u8], key: &'a [u8], intro_time: u64 },
    SetTicketEncryptDecryptKeyLifetime { seconds: u64 },
    SetTicketDecryptKeyLifetime { seconds: u64 },
    SetSerializationVersion { version: SerializationVersion },
    SetMaxBlindingDelay { delay: u32 },
    RequireTicketForwardSecrecy { enabled: bool },
    LoadSystemCerts,
    SetCertAuthoritiesFromTrustStore,
    EnableQuic,
}

/// A [`Command`] as mathematics: byte strings by their content.
pub enum CommandView {
    AttachContext,
    SetClientHelloCallbackMode { mode: u32 },
    SetAlertBehavior { behavior: AlertBehavior },
    SetCipherPreferences { policy: Seq<u8> },
    ResetProtocolPreferences,
    AppendProtocolPreference { protocol: Seq<u8> },
    DisableX509Verification,
    AddDhParams { pem: Seq<u8> },
    AddCertChainAndKey { certificate: Seq<u8>, private_key: Seq<u8> },
    AddCertChainAndKeyToStore { index: usize },
    SetCertChainAndKeyDefaults { first: usize, count: usize },
    AddCertChain { certificate: Seq<u8> },
    AddPemToTrustStore { certificate: Seq<u8> },
    SetVerificationCaLocation { file: Option<Seq<u8>>, dir: Option<Seq<u8>> },
    SetStatusRequestType { request: u32 },
    WipeTrustStore,
    SetClientAuthType { auth_type: ClientAuthType },
    SetExtensionData { extension: u32, data: Seq<u8> },
    InstallTrampoline { category: HandlerCategory },
    SetKeyLogCallback { callback: usize, context: usize },
    SetMaxCertChainDepth { depth: u16 },
    SetSendBufferSize { size: u32 },
    AddCustomX509Extension { oid: Seq<u8> },
    SetSessionTickets { enabled: bool },
    AddTicketCryptoKey { name: Seq<u8>, key: Seq<u8>, intro_time: u64 },
    SetTicketEncryptDecryptKeyLifetime { seconds: u64 },
    SetTicketDecryptKeyLifetime { seconds: u64 },
    SetSerializationVersion { version: SerializationVersion },
    SetMaxBlindingDelay { delay: u32 },
    RequireTicketForwardSecrecy { enabled: bool },
    LoadSystemCerts,
    SetCertAuthoritiesFromTrustStore,
    EnableQuic,
}

/// The content of an optional byte string.
pub open spec fn optional_bytes(bytes: Option<&[u8]>) -> Option<Seq<u8>> {
    match bytes {
        Some(b) => Some(b@),
        None => None,
    }
}

impl<'a> View for Command<'a> {
    type V = CommandView;

    open spec fn view(&self) -> CommandView {
        match *self {
            Command::AttachContext => CommandView::AttachContext,
            Command::SetClientHelloCallbackMode { mode } => CommandView::SetClientHelloCallbackMode { mode },
            Command::SetAlertBehavior { behavior } => CommandView::SetAlertBehavior { behavior },
            Command::SetCipherPreferences { policy } => CommandView::SetCipherPreferences { policy: policy@ },
            Command::ResetProtocolPreferences => CommandView::ResetProtocolPreferences,
            Command::AppendProtocolPreference { protocol } => CommandView::AppendProtocolPreference { protocol: protocol@ },
            Command::DisableX509Verification => CommandView::DisableX509Verification,
            Command::AddDhParams { pem } => CommandView::AddDhParams { pem: pem@ },
            Command::AddCertChainAndKey { certificate, private_key } => CommandView::AddCertChainAndKey {
                certificate: certificate@,
                private_key: private_key@,
            },
            Command::AddCertChainAndKeyToStore { index } => CommandView::AddCertChainAndKeyToStore { index },
            Command::SetCertChainAndKeyDefaults { first, count } => CommandView::SetCertChainAndKeyDefaults { first, count },
            Command::AddCertChain { certificate } => CommandView::AddCertChain { certificate: certificate@ },
            Command::AddPemToTrustStore { certificate } => CommandView::AddPemToTrustStore { certificate: certificate@ },
            Command::SetVerificationCaLocation { file, dir } => CommandView::SetVerificationCaLocation {
                file: optional_bytes(file),
                dir: optional_bytes(dir),
            },
            Command::SetStatusRequestType { request } => CommandView::SetStatusRequestType { request },
            Command::WipeTrustStore => CommandView::WipeTrustStore,
            Command::SetClientAuthType { auth_type } => CommandView::SetClientAuthType { auth_type },
            Command::SetExtensionData { extension, data } => CommandView::SetExtensionData { extension, data: data@ },
            Command::InstallTrampoline { category } => CommandView::InstallTrampoline { category },
            Command::SetKeyLogCallback { callback, context } => CommandView::SetKeyLogCallback {
                callback,
                context,
            },
            Command::SetMaxCertChainDepth { depth } => CommandView::SetMaxCertChainDepth { depth },
            Command::SetSendBufferSize { size } => CommandView::SetSendBufferSize { size },
            Command::AddCustomX509Extension { oid } => CommandView::AddCustomX509Extension { oid: oid@ },
            Command::SetSessionTickets { enabled } => CommandView::SetSessionTickets { enabled },
            Command::AddTicketCryptoKey { name, key, intro_time } => CommandView::AddTicketCryptoKey {
                name: name@,
                key: key@,
                intro_time,
            },
            Command::SetTicketEncryptDecryptKeyLifetime { seconds } => CommandView::SetTicketEncryptDecryptKeyLifetime { seconds },
            Command::SetTicketDecryptKeyLifetime { seconds } => CommandView::SetTicketDecryptKeyLifetime { seconds },
            Command::SetSerializationVersion { version } => CommandView::SetSerializationVersion { version },
            Command::SetMaxBlindingDelay { delay } => CommandView::SetMaxBlindingDelay { delay },
            Command::RequireTicketForwardSecrecy { enabled } => CommandView::RequireTicketForwardSecrecy { enabled },
            Command::LoadSystemCerts => CommandView::LoadSystemCerts,
            Command::SetCertAuthoritiesFromTrustStore => CommandView::SetCertAuthoritiesFromTrustStore,
            Command::EnableQuic => CommandView::EnableQuic,
        }
    }
}

} // verus!
