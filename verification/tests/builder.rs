use s2n_tls_config::AlertBehavior;
use s2n_tls_config::Builder;
use s2n_tls_config::ClientAuthType;
use s2n_tls_config::Command;
use s2n_tls_config::Config;
use s2n_tls_config::Continuation;
use s2n_tls_config::Error;
use s2n_tls_config::HandlerCategory;
use s2n_tls_config::Reason;
use s2n_tls_config::ReleaseAction;
use s2n_tls_config::SerializationVersion;
use s2n_tls_config::Status;
use s2n_tls_config::Step;
use std::sync::Arc;

type TestBuilder = Builder<Arc<str>, &'static str>;

const INVALID: Error = Error::Configuration { reason: Reason::InvalidInput };

fn rejected(code: i32) -> Error {
    Error::Configuration { reason: Reason::Rejected { code } }
}

fn builder() -> TestBuilder {
    Builder::new(0x5000).unwrap()
}

/// Answers the calls of an operation with `answers`, in order, and returns
/// the commands that were asked for and how the operation ended.
fn drive<'a>(
    builder: &mut TestBuilder,
    first: Step<'a, &'static str>,
    answers: &[Status],
) -> (Vec<Command<'a>>, Result<(), Error>) {
    let mut commands = Vec::new();
    let mut answers = answers.iter();
    let mut step = first;
    loop {
        match step {
            Step::Done => return (commands, Ok(())),
            Step::Failed { error } => return (commands, Err(error)),
            Step::Call { command, then } => {
                commands.push(command);
                let status = *answers.next().expect("the operation asked for one call too many");
                step = builder.resume(then, status);
            }
        }
    }
}

fn single<'a>(step: Step<'a, &'static str>) -> Command<'a> {
    match step {
        Step::Call { command, then: Continuation::Finish } => command,
        other => panic!("expected a single call, got {:?}", other),
    }
}

#[test]
fn new_builder_has_the_defaults() {
    let mut builder = builder();
    assert_eq!(builder.unstable_as_ptr(), 0x5000);
    assert_eq!(builder.context().owned_chain_count(), 0);
    assert_eq!(builder.context().refcount(), 1);
    for category in [
        HandlerCategory::ClientHello,
        HandlerCategory::PrivateKey,
        HandlerCategory::VerifyHost,
        HandlerCategory::SessionTicket,
        HandlerCategory::ConnectionInitializer,
        HandlerCategory::WallClock,
        HandlerCategory::MonotonicClock,
    ] {
        assert_eq!(builder.context().handler(category), None);
    }
    // System certificates are loaded unless this is turned off.
    assert_eq!(builder.deferred_setup(), Some(Command::LoadSystemCerts));
}

#[test]
fn failed_allocation_gives_no_builder() {
    let builder: Result<TestBuilder, Error> = Builder::new(0);
    assert!(matches!(builder, Err(Error::ResourceAllocation)));
    let builder: Result<TestBuilder, Error> = Config::builder(0);
    assert!(matches!(builder, Err(Error::ResourceAllocation)));
    let mut builder: TestBuilder = Config::builder(0x77).unwrap();
    assert_eq!(builder.unstable_as_ptr(), 0x77);
}

/// The pointer of a builder leads to the resource that its commands are for.
#[test]
fn test_config_unstable_as_ptr() {
    let mut builder: TestBuilder = Config::builder(0x5000).unwrap();

    let auth_types = [
        ClientAuthType::Disabled,
        ClientAuthType::Optional,
        ClientAuthType::Required,
    ];
    for auth_type in auth_types {
        let command = single(builder.set_client_auth_type(auth_type));
        let retrieved_auth_type = match command {
            Command::SetClientAuthType { auth_type } => auth_type,
            other => panic!("expected the client auth type to be set, got {:?}", other),
        };
        assert_eq!(builder.unstable_as_ptr(), 0x5000);
        assert_eq!(builder.resource(), 0x5000);

        assert_eq!(retrieved_auth_type, auth_type);
    }
}

#[test]
fn initialize_attaches_the_record_then_selects_non_blocking_mode() {
    let mut builder = builder();
    let first = builder.initialize();
    let (commands, result) = drive(&mut builder, first, &[Status::Success, Status::Success]);
    assert_eq!(
        commands,
        vec![Command::AttachContext, Command::SetClientHelloCallbackMode { mode: 1 }]
    );
    assert_eq!(result, Ok(()));

    let first = builder.initialize();
    let (commands, result) = drive(&mut builder, first, &[Status::Failure { code: 3 }]);
    assert_eq!(commands, vec![Command::AttachContext]);
    assert_eq!(result, Err(rejected(3)));
}

#[test]
fn plain_setters_ask_for_one_call() {
    let mut b = builder();
    assert_eq!(
        single(b.set_alert_behavior(AlertBehavior::IgnoreWarnings)),
        Command::SetAlertBehavior { behavior: AlertBehavior::IgnoreWarnings }
    );
    assert_eq!(single(b.disable_x509_verification()), Command::DisableX509Verification);
    assert_eq!(single(b.wipe_trust_store()), Command::WipeTrustStore);
    assert_eq!(
        single(b.set_client_auth_type(ClientAuthType::Required)),
        Command::SetClientAuthType { auth_type: ClientAuthType::Required }
    );
    assert_eq!(
        single(b.set_client_auth_type(ClientAuthType::Disabled)),
        Command::SetClientAuthType { auth_type: ClientAuthType::Disabled }
    );
    assert_eq!(
        single(b.set_max_cert_chain_depth(7)),
        Command::SetMaxCertChainDepth { depth: 7 }
    );
    assert_eq!(single(b.set_send_buffer_size(4096)), Command::SetSendBufferSize { size: 4096 });
    assert_eq!(
        single(b.enable_session_tickets(false)),
        Command::SetSessionTickets { enabled: false }
    );
    assert_eq!(
        single(b.set_ticket_key_encrypt_decrypt_lifetime(7200)),
        Command::SetTicketEncryptDecryptKeyLifetime { seconds: 7200 }
    );
    assert_eq!(
        single(b.set_ticket_key_decrypt_lifetime(46800)),
        Command::SetTicketDecryptKeyLifetime { seconds: 46800 }
    );
    assert_eq!(
        single(b.set_serialization_version(SerializationVersion::V1)),
        Command::SetSerializationVersion { version: SerializationVersion::V1 }
    );
    assert_eq!(single(b.set_max_blinding_delay(10)), Command::SetMaxBlindingDelay { delay: 10 });
    assert_eq!(
        single(b.require_ticket_forward_secrecy(true)),
        Command::RequireTicketForwardSecrecy { enabled: true }
    );
    assert_eq!(
        single(b.set_certificate_authorities_from_trust_store()),
        Command::SetCertAuthoritiesFromTrustStore
    );
    assert_eq!(single(b.enable_quic()), Command::EnableQuic);
    assert_eq!(
        single(b.set_key_log_callback(0x1234, 0x5678)),
        Command::SetKeyLogCallback { callback: 0x1234, context: 0x5678 }
    );
}

#[test]
fn a_rejected_call_is_a_configuration_error() {
    let mut b = builder();
    let first = b.wipe_trust_store();
    let (_, result) = drive(&mut b, first, &[Status::Failure { code: 402653195 }]);
    assert_eq!(result, Err(rejected(402653195)));
    // The builder goes on working.
    let first = b.wipe_trust_store();
    let (_, result) = drive(&mut b, first, &[Status::Success]);
    assert_eq!(result, Ok(()));
}

#[test]
fn c_strings_must_not_hold_a_nul() {
    let mut b = builder();
    assert_eq!(
        single(b.set_security_policy(b"default_tls13")),
        Command::SetCipherPreferences { policy: b"default_tls13" }
    );
    assert_eq!(b.set_security_policy(b"bad\0policy"), Step::Failed { error: INVALID });
    assert_eq!(single(b.add_dhparams(b"PEM")), Command::AddDhParams { pem: b"PEM" });
    assert_eq!(b.add_dhparams(b"\0"), Step::Failed { error: INVALID });
    assert_eq!(
        single(b.trust_pem(b"CERT")),
        Command::AddPemToTrustStore { certificate: b"CERT" }
    );
    assert_eq!(b.trust_pem(b"CE\0RT"), Step::Failed { error: INVALID });
    assert_eq!(
        single(b.load_pem(b"CERT", b"KEY")),
        Command::AddCertChainAndKey { certificate: b"CERT", private_key: b"KEY" }
    );
    assert_eq!(b.load_pem(b"CERT\0", b"KEY"), Step::Failed { error: INVALID });
    assert_eq!(b.load_pem(b"CERT", b"K\0EY"), Step::Failed { error: INVALID });
    // An empty string is a C string.
    assert_eq!(single(b.add_dhparams(b"")), Command::AddDhParams { pem: b"" });
}

#[test]
fn lengths_are_checked_against_the_entry_points() {
    let mut b = builder();
    let longest = vec![b'h'; 255];
    assert_eq!(
        single(b.append_application_protocol_preference(&longest)),
        Command::AppendProtocolPreference { protocol: &longest }
    );
    let too_long = vec![b'h'; 256];
    assert_eq!(
        b.append_application_protocol_preference(&too_long),
        Step::Failed { error: INVALID }
    );
    assert_eq!(
        single(b.load_public_pem(b"CERT")),
        Command::AddCertChain { certificate: b"CERT" }
    );
    assert_eq!(
        single(b.add_custom_x509_extension(b"1.3.187.25240.2")),
        Command::AddCustomX509Extension { oid: b"1.3.187.25240.2" }
    );
}

#[test]
fn protocol_preferences_are_reset_then_appended_in_order() {
    let mut b = builder();
    let protocols: [&[u8]; 2] = [b"h2", b"http/1.1"];
    let first = b.set_application_protocol_preference(&protocols);
    let (commands, result) =
        drive(&mut b, first, &[Status::Success, Status::Success, Status::Success]);
    assert_eq!(
        commands,
        vec![
            Command::ResetProtocolPreferences,
            Command::AppendProtocolPreference { protocol: b"h2" },
            Command::AppendProtocolPreference { protocol: b"http/1.1" },
        ]
    );
    assert_eq!(result, Ok(()));
}

#[test]
fn protocol_preferences_stop_at_the_first_failure() {
    let mut b = builder();
    let protocols: [&[u8]; 3] = [b"h2", b"h3", b"http/1.1"];

    let first = b.set_application_protocol_preference(&protocols);
    let (commands, result) = drive(&mut b, first, &[Status::Failure { code: 9 }]);
    assert_eq!(commands, vec![Command::ResetProtocolPreferences]);
    assert_eq!(result, Err(rejected(9)));

    let first = b.set_application_protocol_preference(&protocols);
    let (commands, result) =
        drive(&mut b, first, &[Status::Success, Status::Success, Status::Failure { code: 4 }]);
    assert_eq!(commands.len(), 3);
    assert_eq!(commands[2], Command::AppendProtocolPreference { protocol: b"h3" });
    assert_eq!(result, Err(rejected(4)));

    let too_long = vec![b'x'; 300];
    let protocols: [&[u8]; 3] = [b"h2", &too_long, b"http/1.1"];
    let first = b.set_application_protocol_preference(&protocols);
    let (commands, result) = drive(&mut b, first, &[Status::Success, Status::Success]);
    assert_eq!(
        commands,
        vec![
            Command::ResetProtocolPreferences,
            Command::AppendProtocolPreference { protocol: b"h2" },
        ]
    );
    assert_eq!(result, Err(INVALID));

    let none: [&[u8]; 0] = [];
    let first = b.set_application_protocol_preference(&none);
    let (commands, result) = drive(&mut b, first, &[Status::Success]);
    assert_eq!(commands, vec![Command::ResetProtocolPreferences]);
    assert_eq!(result, Ok(()));
}

#[test]
fn load_chain_keeps_the_chain_when_registration_fails() {
    let mut b = builder();
    let chain: Arc<str> = Arc::from("leaf");
    let first = b.load_chain(chain.clone());
    let (commands, result) = drive(&mut b, first, &[Status::Failure { code: -1 }]);
    assert_eq!(commands, vec![Command::AddCertChainAndKeyToStore { index: 0 }]);
    assert_eq!(result, Err(Error::Certificate { code: -1 }));
    assert_eq!(b.context().owned_chain_count(), 1);
    assert!(Arc::ptr_eq(b.context().owned_chain(0).unwrap(), &chain));
    // The builder holds the chain alive beside the application.
    assert_eq!(Arc::strong_count(&chain), 2);
}

#[test]
fn load_chain_keeps_the_chain_when_registration_succeeds() {
    let mut b = builder();
    let one: Arc<str> = Arc::from("one");
    let two: Arc<str> = Arc::from("two");
    let first = b.load_chain(one.clone());
    assert_eq!(drive(&mut b, first, &[Status::Success]).1, Ok(()));
    let first = b.load_chain(two.clone());
    let (commands, result) = drive(&mut b, first, &[Status::Success]);
    assert_eq!(commands, vec![Command::AddCertChainAndKeyToStore { index: 1 }]);
    assert_eq!(result, Ok(()));
    assert_eq!(b.context().owned_chain_count(), 2);
    assert!(Arc::ptr_eq(b.context().owned_chain(0).unwrap(), &one));
    assert!(Arc::ptr_eq(b.context().owned_chain(1).unwrap(), &two));
    assert!(b.context().owned_chain(2).is_none());
}

#[test]
fn five_default_chains_are_too_many() {
    let mut b = builder();
    let kept: Arc<str> = Arc::from("kept");
    let first = b.set_default_chains(vec![kept.clone()]);
    assert_eq!(drive(&mut b, first, &[Status::Success]).1, Ok(()));

    let chains: Vec<Arc<str>> = (0..5).map(|i| Arc::from(format!("chain {i}"))).collect();
    let watched = chains[0].clone();
    let step = b.set_default_chains(chains);
    assert_eq!(step, Step::Failed { error: Error::TooManyDefaultChains });
    // Nothing was taken over and nothing was asked of the resource.
    assert_eq!(b.context().owned_chain_count(), 1);
    assert!(Arc::ptr_eq(b.context().owned_chain(0).unwrap(), &kept));
    assert_eq!(Arc::strong_count(&watched), 1);
}

#[test]
fn up_to_four_default_chains_are_set_as_one_batch() {
    let mut b = builder();
    let first = b.load_chain(Arc::from("earlier"));
    assert_eq!(drive(&mut b, first, &[Status::Success]).1, Ok(()));

    let chains: Vec<Arc<str>> = (0..4).map(|i| Arc::from(format!("chain {i}"))).collect();
    let copies = chains.clone();
    let first = b.set_default_chains(chains);
    let (commands, result) = drive(&mut b, first, &[Status::Success]);
    assert_eq!(commands, vec![Command::SetCertChainAndKeyDefaults { first: 1, count: 4 }]);
    assert_eq!(result, Ok(()));
    assert_eq!(b.context().owned_chain_count(), 5);
    for (i, chain) in copies.iter().enumerate() {
        assert!(Arc::ptr_eq(b.context().owned_chain(1 + i).unwrap(), chain));
    }

    // No chain at all is a batch too.
    let first = b.set_default_chains(Vec::new());
    let (commands, result) = drive(&mut b, first, &[Status::Success]);
    assert_eq!(commands, vec![Command::SetCertChainAndKeyDefaults { first: 5, count: 0 }]);
    assert_eq!(result, Ok(()));
    assert_eq!(b.context().owned_chain_count(), 5);
}

#[test]
fn default_chains_are_kept_when_the_batch_is_rejected() {
    let mut b = builder();
    let chains: Vec<Arc<str>> = vec![Arc::from("rsa"), Arc::from("ecdsa")];
    let first = b.set_default_chains(chains);
    let (_, result) = drive(&mut b, first, &[Status::Failure { code: 77 }]);
    assert_eq!(result, Err(Error::Certificate { code: 77 }));
    assert_eq!(b.context().owned_chain_count(), 2);
}

#[test]
fn trust_location_switches_the_status_request_off_again() {
    let mut b = builder();
    let first = b.trust_location(Some(b"/etc/ca.pem"), None);
    let (commands, result) = drive(&mut b, first, &[Status::Success, Status::Success]);
    assert_eq!(
        commands,
        vec![
            Command::SetVerificationCaLocation { file: Some(b"/etc/ca.pem"), dir: None },
            Command::SetStatusRequestType { request: 0 },
        ]
    );
    assert_eq!(result, Ok(()));

    let first = b.trust_location(None, Some(b"/etc/certs"));
    let (commands, result) = drive(&mut b, first, &[Status::Failure { code: 5 }]);
    assert_eq!(commands.len(), 1);
    assert_eq!(result, Err(rejected(5)));

    let first = b.trust_location(None, Some(b"/etc/certs"));
    let (_, result) = drive(&mut b, first, &[Status::Success, Status::Failure { code: 6 }]);
    assert_eq!(result, Err(rejected(6)));
}

#[test]
fn trust_location_leaves_ocsp_on_when_it_was_asked_for() {
    let mut b = builder();
    let first = b.enable_ocsp();
    let (commands, result) = drive(&mut b, first, &[Status::Success]);
    assert_eq!(commands, vec![Command::SetStatusRequestType { request: 1 }]);
    assert_eq!(result, Ok(()));

    let first = b.trust_location(Some(b"ca.pem"), Some(b"certs"));
    let (commands, result) = drive(&mut b, first, &[Status::Success]);
    assert_eq!(
        commands,
        vec![Command::SetVerificationCaLocation { file: Some(b"ca.pem"), dir: Some(b"certs") }]
    );
    assert_eq!(result, Ok(()));
}

#[test]
fn a_failed_request_for_ocsp_is_not_taken_note_of() {
    let mut b = builder();
    let first = b.enable_ocsp();
    let (_, result) = drive(&mut b, first, &[Status::Failure { code: 1 }]);
    assert_eq!(result, Err(rejected(1)));
    let first = b.trust_location(None, None);
    let (commands, _) = drive(&mut b, first, &[Status::Success, Status::Success]);
    assert_eq!(commands.len(), 2);
    assert_eq!(commands[1], Command::SetStatusRequestType { request: 0 });
}

#[test]
fn trust_location_turns_down_paths_with_a_nul() {
    let mut b = builder();
    assert_eq!(b.trust_location(Some(b"a\0b"), None), Step::Failed { error: INVALID });
    assert_eq!(b.trust_location(None, Some(b"\0")), Step::Failed { error: INVALID });
    assert_eq!(b.trust_location(Some(b"ok"), Some(b"no\0")), Step::Failed { error: INVALID });
}

#[test]
fn ocsp_data_is_set_and_then_ocsp_enabled() {
    let mut b = builder();
    let first = b.set_ocsp_data(b"response");
    let (commands, result) = drive(&mut b, first, &[Status::Success, Status::Success]);
    assert_eq!(
        commands,
        vec![
            Command::SetExtensionData { extension: 5, data: b"response" },
            Command::SetStatusRequestType { request: 1 },
        ]
    );
    assert_eq!(result, Ok(()));
    // OCSP is on now: setting a trust location leaves it on.
    let first = b.trust_location(None, None);
    let (commands, _) = drive(&mut b, first, &[Status::Success]);
    assert_eq!(commands.len(), 1);

    let mut b = builder();
    let first = b.set_ocsp_data(b"response");
    let (commands, result) = drive(&mut b, first, &[Status::Failure { code: 8 }]);
    assert_eq!(commands.len(), 1);
    assert_eq!(result, Err(rejected(8)));
}

#[test]
fn the_second_handler_of_a_category_replaces_the_first() {
    let mut b = builder();
    assert_eq!(
        single(b.set_verify_host_callback("first")),
        Command::InstallTrampoline { category: HandlerCategory::VerifyHost }
    );
    assert_eq!(b.context().handler(HandlerCategory::VerifyHost), Some(&"first"));
    assert_eq!(
        single(b.set_verify_host_callback("second")),
        Command::InstallTrampoline { category: HandlerCategory::VerifyHost }
    );
    assert_eq!(b.context().handler(HandlerCategory::VerifyHost), Some(&"second"));
    assert_eq!(b.context().handler(HandlerCategory::ClientHello), None);
}

#[test]
fn each_category_has_its_own_slot() {
    let mut b = builder();
    assert_eq!(
        single(b.set_client_hello_callback("hello")),
        Command::InstallTrampoline { category: HandlerCategory::ClientHello }
    );
    assert_eq!(
        single(b.set_private_key_callback("key")),
        Command::InstallTrampoline { category: HandlerCategory::PrivateKey }
    );
    assert_eq!(
        single(b.set_verify_host_callback("host")),
        Command::InstallTrampoline { category: HandlerCategory::VerifyHost }
    );
    assert_eq!(
        single(b.set_wall_clock("wall")),
        Command::InstallTrampoline { category: HandlerCategory::WallClock }
    );
    assert_eq!(
        single(b.set_monotonic_clock("monotonic")),
        Command::InstallTrampoline { category: HandlerCategory::MonotonicClock }
    );
    assert_eq!(b.set_connection_initializer("initializer"), Step::Done);
    let first = b.set_session_ticket_callback("ticket");
    assert_eq!(drive(&mut b, first, &[Status::Success, Status::Success]).1, Ok(()));

    let context = b.context();
    assert_eq!(context.handler(HandlerCategory::ClientHello), Some(&"hello"));
    assert_eq!(context.handler(HandlerCategory::PrivateKey), Some(&"key"));
    assert_eq!(context.handler(HandlerCategory::VerifyHost), Some(&"host"));
    assert_eq!(context.handler(HandlerCategory::SessionTicket), Some(&"ticket"));
    assert_eq!(context.handler(HandlerCategory::ConnectionInitializer), Some(&"initializer"));
    assert_eq!(context.handler(HandlerCategory::WallClock), Some(&"wall"));
    assert_eq!(context.handler(HandlerCategory::MonotonicClock), Some(&"monotonic"));
}

#[test]
fn a_handler_stays_registered_when_its_trampoline_is_rejected() {
    let mut b = builder();
    let first = b.set_wall_clock("clock");
    let (_, result) = drive(&mut b, first, &[Status::Failure { code: 2 }]);
    assert_eq!(result, Err(rejected(2)));
    assert_eq!(b.context().handler(HandlerCategory::WallClock), Some(&"clock"));
}

#[test]
fn the_session_ticket_handler_waits_for_tickets_to_be_switched_on() {
    let mut b = builder();
    let first = b.set_session_ticket_callback("first");
    let (commands, result) = drive(&mut b, first, &[Status::Failure { code: 11 }]);
    assert_eq!(commands, vec![Command::SetSessionTickets { enabled: true }]);
    assert_eq!(result, Err(rejected(11)));
    assert_eq!(b.context().handler(HandlerCategory::SessionTicket), None);

    let first = b.set_session_ticket_callback("second");
    let (commands, result) =
        drive(&mut b, first, &[Status::Success, Status::Failure { code: 12 }]);
    assert_eq!(
        commands,
        vec![
            Command::SetSessionTickets { enabled: true },
            Command::InstallTrampoline { category: HandlerCategory::SessionTicket },
        ]
    );
    assert_eq!(result, Err(rejected(12)));
    assert_eq!(b.context().handler(HandlerCategory::SessionTicket), Some(&"second"));

    let first = b.set_session_ticket_callback("third");
    assert_eq!(drive(&mut b, first, &[Status::Success, Status::Success]).1, Ok(()));
    assert_eq!(b.context().handler(HandlerCategory::SessionTicket), Some(&"third"));
}

#[test]
fn a_ticket_key_switches_tickets_on_and_is_added() {
    let mut b = builder();
    let key = [7u8; 16];
    let first = b.add_session_ticket_key(b"name", &key, Some(1_700_000_000));
    let (commands, result) = drive(&mut b, first, &[Status::Success, Status::Success]);
    assert_eq!(
        commands,
        vec![
            Command::SetSessionTickets { enabled: true },
            Command::AddTicketCryptoKey { name: b"name", key: &key, intro_time: 1_700_000_000 },
        ]
    );
    assert_eq!(result, Ok(()));

    let first = b.add_session_ticket_key(b"name", &key, Some(0));
    let (commands, result) = drive(&mut b, first, &[Status::Failure { code: 21 }]);
    assert_eq!(commands.len(), 1);
    assert_eq!(result, Err(rejected(21)));
}

#[test]
fn a_ticket_key_is_turned_down_when_short_or_too_early() {
    let mut b = builder();
    let short = [7u8; 15];
    assert_eq!(
        b.add_session_ticket_key(b"name", &short, Some(1)),
        Step::Failed { error: INVALID }
    );
    let key = [7u8; 16];
    assert_eq!(b.add_session_ticket_key(b"name", &key, None), Step::Failed { error: INVALID });
    assert_eq!(b.add_session_ticket_key(b"name", b"", Some(1)), Step::Failed { error: INVALID });
}

#[test]
fn with_system_certs_decides_the_deferred_setup() {
    let mut b = builder();
    assert_eq!(b.with_system_certs(false), Step::Done);
    assert_eq!(b.deferred_setup(), None);
    assert_eq!(b.with_system_certs(true), Step::Done);
    assert_eq!(b.deferred_setup(), Some(Command::LoadSystemCerts));
}

#[test]
fn build_fails_when_the_deferred_setup_failed() {
    let b = builder();
    match b.build(Status::Failure { code: 31 }) {
        Err(error) => assert_eq!(error, rejected(31)),
        Ok(_) => panic!("the build went through"),
    }
}

#[test]
fn build_ignores_the_outcome_of_a_setup_that_was_not_asked_for() {
    let mut b = builder();
    assert_eq!(b.with_system_certs(false), Step::Done);
    let config = match b.build(Status::Failure { code: 31 }) {
        Ok(config) => config,
        Err(error) => panic!("the build failed with {:?}", error),
    };
    assert_eq!(config.resource(), 0x5000);
    assert_eq!(config.release(), ReleaseAction::Destroy);
}

#[test]
fn build_hands_the_side_record_over() {
    let mut b = builder();
    let chain: Arc<str> = Arc::from("leaf");
    let first = b.load_chain(chain.clone());
    assert_eq!(drive(&mut b, first, &[Status::Success]).1, Ok(()));
    let _ = single(b.set_monotonic_clock("clock"));
    let config = match b.build(Status::Success) {
        Ok(config) => config,
        Err(error) => panic!("the build failed with {:?}", error),
    };
    assert_eq!(config.resource(), 0x5000);
    assert_eq!(config.context().owned_chain_count(), 1);
    assert!(Arc::ptr_eq(config.context().owned_chain(0).unwrap(), &chain));
    assert_eq!(config.context().handler(HandlerCategory::MonotonicClock), Some(&"clock"));
    assert_eq!(config.test_get_refcount(), Ok(1));
    assert_eq!(config.release(), ReleaseAction::Destroy);
    // The side record went with the last handle, and the chain with it.
    assert_eq!(Arc::strong_count(&chain), 1);
}

#[test]
fn an_abandoned_builder_is_destroyed() {
    let mut b = builder();
    let chain: Arc<str> = Arc::from("leaf");
    let first = b.load_chain(chain.clone());
    assert_eq!(drive(&mut b, first, &[Status::Success]).1, Ok(()));
    assert_eq!(b.abandon(), ReleaseAction::Destroy);
    assert_eq!(Arc::strong_count(&chain), 1);
}
