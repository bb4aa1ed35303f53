use iot_nested::certs::{CertEvent, CertManager, CertState};
use iot_nested::config::{Config, DeviceConfig, IotHubConfig};
use iot_nested::files::FileManager;
use iot_nested::outcome::{CallFailure, OperationOutcome};
use iot_nested::wave::{Call, CallText};

fn config() -> Config {
    Config {
        iothub: IotHubConfig { iot_hub_name: "myhub".to_string() },
        root_device: DeviceConfig {
            device_id: "root".to_string(),
            children: vec![
                DeviceConfig {
                    device_id: "A".to_string(),
                    children: vec![DeviceConfig {
                        device_id: "C".to_string(),
                        children: Vec::new(),
                    }],
                },
                DeviceConfig { device_id: "B".to_string(), children: Vec::new() },
            ],
        },
    }
}

fn exited(success: bool, stdout: &str, stderr: &str) -> CallText {
    CallText::Exited { success, stdout: stdout.to_string(), stderr: stderr.to_string() }
}

fn failed(id: &str, stderr: &str) -> OperationOutcome<()> {
    OperationOutcome::Failure(CallFailure {
        device_id: id.to_string(),
        stderr: stderr.to_string(),
        stdout: String::new(),
    })
}

#[test]
fn tool_is_openssl_unless_configured() {
    let config = config();
    let log = FileManager::new("out".to_string(), false);
    assert_eq!(CertManager::new(&config, &log, None).tool(), "openssl");
    assert_eq!(
        CertManager::new(&config, &log, Some("/opt/ssl/bin/openssl")).tool(),
        "/opt/ssl/bin/openssl"
    );
}

#[test]
fn certificate_args_ask_for_a_self_signed_certificate() {
    assert_eq!(
        CertManager::certificate_args("out/d1/key.pem", "out/d1/cert.pem"),
        vec![
            "req",
            "-x509",
            "-new",
            "-newkey",
            "rsa:4096",
            "-days",
            "365",
            "-nodes",
            "-keyout",
            "out/d1/key.pem",
            "-out",
            "out/d1/cert.pem",
            "-subj",
            "/CN=Azure_IoT_Nested_Cert"
        ]
    );
}

#[test]
fn root_certificate_goes_to_the_certs_folder() {
    let config = config();
    let log = FileManager::new("out".to_string(), false);
    let manager = CertManager::new(&config, &log, None);
    let request = manager.make_root_cert_request();
    assert_eq!(request.folder, "certs");
    assert_eq!(request.key_file, "root.key.pem");
    assert_eq!(request.cert_file, "root.pem");
    assert!(request.announce.echo);
    assert_eq!(request.announce.line, "Making Root CA.\n");
}

#[test]
fn device_certificate_goes_to_the_device_folder() {
    let config = config();
    let log = FileManager::new("out".to_string(), false);
    let manager = CertManager::new(&config, &log, None);
    let request = manager.make_device_cert_request("dev-1");
    assert_eq!(request.folder, "dev-1");
    assert_eq!(request.key_file, "key.pem");
    assert_eq!(request.cert_file, "cert.pem");
    assert!(!request.announce.echo);
    assert_eq!(request.announce.line, "Making device CA for dev-1.\n");

    let loud = FileManager::new("out".to_string(), true);
    let manager = CertManager::new(&config, &loud, None);
    assert!(manager.make_device_cert_request("dev-1").announce.echo);
}

#[test]
fn root_certificate_success_is_shown() {
    let config = config();
    let log = FileManager::new("out".to_string(), false);
    let manager = CertManager::new(&config, &log, None);
    let (outcome, lines) =
        manager.make_root_cert(&exited(true, "", "....+++\n"), "\"out/certs/root.pem\"");
    assert!(matches!(outcome, OperationOutcome::Success(())));
    assert_eq!(lines.len(), 2);
    assert!(!lines[0].echo);
    assert_eq!(lines[0].line, "....+++\n\n");
    assert!(lines[1].echo);
    assert_eq!(lines[1].line, "Successfully made Root CA \"out/certs/root.pem\".\n");
}

#[test]
fn root_certificate_fails_when_the_tool_fails() {
    let config = config();
    let log = FileManager::new("out".to_string(), false);
    let manager = CertManager::new(&config, &log, None);
    let (outcome, lines) =
        manager.make_root_cert(&exited(false, "", "unknown option"), "\"out/certs/root.pem\"");
    match outcome {
        OperationOutcome::Failure(failure) => {
            assert_eq!(failure.device_id, "root");
            assert_eq!(failure.stderr, "unknown option");
            assert_eq!(failure.stdout, "");
        }
        OperationOutcome::Success(_) => panic!("the tool failed"),
    }
    assert_eq!(lines.len(), 2);
    assert!(lines[1].echo);
    assert_eq!(lines[1].line, "Failed to make Root CA:\n\nunknown option\n\n");
}

#[test]
fn root_certificate_fails_when_the_tool_is_missing() {
    let config = config();
    let log = FileManager::new("out".to_string(), false);
    let manager = CertManager::new(&config, &log, None);
    let (outcome, lines) =
        manager.make_root_cert(&CallText::NotRun("openssl: not found".to_string()), "p");
    match outcome {
        OperationOutcome::Failure(failure) => {
            assert_eq!(failure.device_id, "root");
            assert_eq!(failure.stderr, "openssl: not found");
        }
        OperationOutcome::Success(_) => panic!("the tool did not run"),
    }
    assert_eq!(lines.len(), 1);
    assert_eq!(lines[0].line, "Failed to make Root CA:\n\nopenssl: not found\n\n");
}

#[test]
fn device_certificate_success_is_a_detail() {
    let config = config();
    let log = FileManager::new("out".to_string(), false);
    let manager = CertManager::new(&config, &log, None);
    let (outcome, lines) =
        manager.make_device_cert("dev-1", &exited(true, "o", "e"), "\"out/dev-1/cert.pem\"");
    assert!(matches!(outcome, OperationOutcome::Success(())));
    assert_eq!(lines.len(), 2);
    assert!(!lines[0].echo);
    assert_eq!(lines[0].line, "oe\n");
    assert!(!lines[1].echo);
    assert_eq!(lines[1].line, "Successfully made CA \"out/dev-1/cert.pem\".\n");
}

#[test]
fn device_certificate_fails_when_the_tool_fails() {
    let config = config();
    let log = FileManager::new("out".to_string(), false);
    let manager = CertManager::new(&config, &log, None);
    let (outcome, lines) =
        manager.make_device_cert("dev-1", &exited(false, "o", "e"), "\"out/dev-1/cert.pem\"");
    match outcome {
        OperationOutcome::Failure(failure) => {
            assert_eq!(failure.device_id, "dev-1");
            assert_eq!(failure.stdout, "o");
            assert_eq!(failure.stderr, "e");
        }
        OperationOutcome::Success(_) => panic!("the tool failed"),
    }
    assert!(lines[1].echo);
    assert_eq!(lines[1].line, "Failed to make CA for dev-1:\no\ne\n\n");
}

#[test]
fn all_device_certificates_start_with_one_call_per_device() {
    let config = config();
    let log = FileManager::new("out".to_string(), false);
    let manager = CertManager::new(&config, &log, None);
    let (state, wave) = manager.make_all_device_certs(CertState::Idle, CertEvent::Start);
    assert!(matches!(state, CertState::Issuing));
    let mut ids = Vec::new();
    for call in &wave.calls {
        match call {
            Call::DeviceCertificate(id) => ids.push(id.as_str()),
            _ => panic!("only certificate calls belong to this wave"),
        }
    }
    assert_eq!(ids, vec!["root", "A", "C", "B"]);
    assert_eq!(wave.log.len(), 1);
    assert!(wave.log[0].echo);
    assert_eq!(wave.log[0].line, "Creating certs for 4 devices\n");
}

#[test]
fn all_device_certificates_are_reported_when_all_succeed() {
    let config = config();
    let log = FileManager::new("out".to_string(), false);
    let manager = CertManager::new(&config, &log, None);
    let outcomes = vec![
        OperationOutcome::Success(()),
        OperationOutcome::Success(()),
        OperationOutcome::Success(()),
        OperationOutcome::Success(()),
    ];
    let (state, wave) = manager.make_all_device_certs(CertState::Issuing, CertEvent::Issued(outcomes));
    assert!(matches!(state, CertState::Done));
    assert!(wave.calls.is_empty());
    assert_eq!(wave.log.len(), 1);
    assert!(wave.log[0].echo);
    assert_eq!(wave.log[0].line, "Created all device certs.\n");
}

#[test]
fn all_device_certificates_fail_with_the_first_failure() {
    let config = config();
    let log = FileManager::new("out".to_string(), false);
    let manager = CertManager::new(&config, &log, None);
    let outcomes = vec![
        OperationOutcome::Success(()),
        failed("A", "disk full"),
        OperationOutcome::Success(()),
        failed("B", "later"),
    ];
    let (state, wave) = manager.make_all_device_certs(CertState::Issuing, CertEvent::Issued(outcomes));
    assert!(wave.calls.is_empty());
    assert!(wave.log.is_empty());
    match &state {
        CertState::Failed(failure) => {
            assert_eq!(failure.device_id, "A");
            assert_eq!(failure.stderr, "disk full");
        }
        _ => panic!("two certificates were not issued"),
    }
    let (state, wave) = manager.make_all_device_certs(state, CertEvent::Start);
    assert!(matches!(state, CertState::Failed(_)));
    assert!(wave.calls.is_empty());
}

#[test]
fn all_device_certificates_ignore_what_they_do_not_wait_for() {
    let config = config();
    let log = FileManager::new("out".to_string(), false);
    let manager = CertManager::new(&config, &log, None);
    let (state, wave) = manager.make_all_device_certs(
        CertState::Idle,
        CertEvent::Issued(vec![OperationOutcome::Success(())]),
    );
    assert!(matches!(state, CertState::Idle));
    assert!(wave.calls.is_empty() && wave.log.is_empty());
    let (state, wave) = manager.make_all_device_certs(CertState::Issuing, CertEvent::Start);
    assert!(matches!(state, CertState::Issuing));
    assert!(wave.calls.is_empty() && wave.log.is_empty());
    let (state, wave) = manager.make_all_device_certs(CertState::Done, CertEvent::Start);
    assert!(matches!(state, CertState::Done));
    assert!(wave.calls.is_empty() && wave.log.is_empty());
}
