use iot_nested::config::{Config, DeviceConfig, IotHubConfig};
use iot_nested::files::FileManager;
use iot_nested::hub::IoTHubDeviceManager;
use iot_nested::hub_responses::CreateResponse;
use iot_nested::outcome::{CallResult, CommandOutput, OperationOutcome};
use iot_nested::wave::{read_result, CallText};

fn config() -> Config {
    Config {
        iothub: IotHubConfig { iot_hub_name: "myhub".to_string() },
        root_device: DeviceConfig { device_id: "root".to_string(), children: Vec::new() },
    }
}

fn exited(success: bool, stdout: &str, stderr: &str) -> CallText {
    CallText::Exited { success, stdout: stdout.to_string(), stderr: stderr.to_string() }
}

fn identity(id: &str) -> Result<CreateResponse, String> {
    Ok(CreateResponse { device_id: id.to_string() })
}

#[test]
fn read_result_decodes_both_streams() {
    let result = CallResult::Exited(CommandOutput {
        success: true,
        stdout: b"{\"deviceId\": \"d1\"}".to_vec(),
        stderr: "caf\u{e9}".as_bytes().to_vec(),
    });
    match read_result(&result) {
        CallText::Exited { success, stdout, stderr } => {
            assert!(success);
            assert_eq!(stdout, "{\"deviceId\": \"d1\"}");
            assert_eq!(stderr, "caf\u{e9}");
        }
        CallText::NotRun(_) => panic!("the command ran"),
    }
}

#[test]
fn read_result_replaces_malformed_bytes() {
    let result = CallResult::Exited(CommandOutput {
        success: false,
        stdout: vec![b'o', b'k', 0xff, b'!'],
        stderr: vec![0xc3],
    });
    match read_result(&result) {
        CallText::Exited { success, stdout, stderr } => {
            assert!(!success);
            assert_eq!(stdout, "ok\u{fffd}!");
            assert_eq!(stderr, "\u{fffd}");
        }
        CallText::NotRun(_) => panic!("the command ran"),
    }
}

#[test]
fn read_result_keeps_the_complaint_of_a_call_that_did_not_run() {
    let result = CallResult::NotRun("No such file or directory".to_string());
    match read_result(&result) {
        CallText::NotRun(complaint) => assert_eq!(complaint, "No such file or directory"),
        CallText::Exited { .. } => panic!("the command did not run"),
    }
}

#[test]
fn create_request_names_device_and_hub() {
    let config = config();
    let log = FileManager::new("out".to_string(), false);
    let manager = IoTHubDeviceManager::new(&config, &log);
    let request = manager.create_device_identity_request("dev-1");
    assert_eq!(
        request.args,
        vec![
            "az iot hub device-identity create",
            "--device-id",
            "dev-1",
            "--hub-name",
            "myhub",
            "--edge-enabled"
        ]
    );
    assert!(!request.announce.echo);
    assert_eq!(request.announce.line, "Creating device dev-1 on hub myhub\n");
}

#[test]
fn create_success_returns_the_payload() {
    let config = config();
    let log = FileManager::new("out".to_string(), true);
    let manager = IoTHubDeviceManager::new(&config, &log);
    let (outcome, lines) =
        manager.create_device_identity("dev-1", &exited(true, "{json}", "warn"), identity("dev-1"));
    match outcome {
        OperationOutcome::Success(response) => assert_eq!(response.device_id, "dev-1"),
        OperationOutcome::Failure(_) => panic!("the call succeeded"),
    }
    assert_eq!(lines.len(), 2);
    assert!(lines[0].echo);
    assert_eq!(lines[0].line, "{json}warn\n");
    assert!(lines[1].echo);
    assert_eq!(lines[1].line, "Successfully created dev-1\n");
}

#[test]
fn create_success_is_a_detail_when_quiet() {
    let config = config();
    let log = FileManager::new("out".to_string(), false);
    let manager = IoTHubDeviceManager::new(&config, &log);
    let (_, lines) =
        manager.create_device_identity("dev-1", &exited(true, "{json}", ""), identity("dev-1"));
    assert_eq!(lines.len(), 2);
    assert!(!lines[0].echo);
    assert!(!lines[1].echo);
}

#[test]
fn create_with_failed_command_is_a_failure() {
    let config = config();
    let log = FileManager::new("out".to_string(), false);
    let manager = IoTHubDeviceManager::new(&config, &log);
    let (outcome, lines) = manager.create_device_identity(
        "dev-2",
        &exited(false, "partial", "denied"),
        identity("dev-2"),
    );
    match outcome {
        OperationOutcome::Failure(failure) => {
            assert_eq!(failure.device_id, "dev-2");
            assert_eq!(failure.stdout, "partial");
            assert_eq!(failure.stderr, "denied");
        }
        OperationOutcome::Success(_) => panic!("the command failed"),
    }
    assert_eq!(lines.len(), 2);
    assert!(!lines[0].echo);
    assert_eq!(lines[0].line, "partialdenied\n");
    assert!(lines[1].echo);
    assert_eq!(lines[1].line, "Failed to create dev-2:\npartial\ndenied\n\n");
}

#[test]
fn create_with_unreadable_payload_is_a_failure() {
    let config = config();
    let log = FileManager::new("out".to_string(), false);
    let manager = IoTHubDeviceManager::new(&config, &log);
    let (outcome, lines) = manager.create_device_identity(
        "dev-3",
        &exited(true, "not json", ""),
        Err("expected ident at line 1 column 2".to_string()),
    );
    match outcome {
        OperationOutcome::Failure(failure) => {
            assert_eq!(failure.device_id, "dev-3");
            assert_eq!(failure.stdout, "not json");
            assert_eq!(failure.stderr, "expected ident at line 1 column 2");
        }
        OperationOutcome::Success(_) => panic!("the payload could not be read"),
    }
    assert_eq!(lines.len(), 2);
    assert_eq!(lines[0].line, "not json\n");
    assert!(lines[1].echo);
    assert_eq!(
        lines[1].line,
        "Failed to create dev-3:\nnot json\nexpected ident at line 1 column 2\n\n"
    );
}

#[test]
fn create_that_did_not_run_is_a_failure() {
    let config = config();
    let log = FileManager::new("out".to_string(), true);
    let manager = IoTHubDeviceManager::new(&config, &log);
    let (outcome, lines) = manager.create_device_identity(
        "dev-4",
        &CallText::NotRun("sh: not found".to_string()),
        Err("EOF while parsing".to_string()),
    );
    match outcome {
        OperationOutcome::Failure(failure) => {
            assert_eq!(failure.device_id, "dev-4");
            assert_eq!(failure.stdout, "");
            assert_eq!(failure.stderr, "sh: not found");
        }
        OperationOutcome::Success(_) => panic!("the command did not run"),
    }
    assert_eq!(lines.len(), 1);
    assert!(lines[0].echo);
    assert_eq!(lines[0].line, "Failed to create dev-4:\n\nsh: not found\n\n");
}

#[test]
fn link_request_names_child_parent_and_hub() {
    let config = config();
    let log = FileManager::new("out".to_string(), true);
    let manager = IoTHubDeviceManager::new(&config, &log);
    let request = manager.create_parent_child_relationship_request("gw", "sensor");
    assert_eq!(
        request.args,
        vec![
            "az iot hub device-identity parent set",
            "--device-id",
            "sensor",
            "--parent-device-id",
            "gw",
            "--hub-name",
            "myhub"
        ]
    );
    assert!(request.announce.echo);
    assert_eq!(request.announce.line, "Adding sensor as child of parent gw.\n");
}

#[test]
fn link_success_and_failure() {
    let config = config();
    let log = FileManager::new("out".to_string(), false);
    let manager = IoTHubDeviceManager::new(&config, &log);

    let (outcome, lines) =
        manager.create_parent_child_relationship("gw", "sensor", &exited(true, "", ""));
    assert!(matches!(outcome, OperationOutcome::Success(())));
    assert_eq!(lines.len(), 2);
    assert_eq!(lines[0].line, "\n");
    assert!(!lines[1].echo);
    assert_eq!(lines[1].line, "Successfully added sensor as child of parent gw.\n");

    let (outcome, lines) =
        manager.create_parent_child_relationship("gw", "sensor", &exited(false, "o", "e"));
    match outcome {
        OperationOutcome::Failure(failure) => {
            assert_eq!(failure.device_id, "sensor");
            assert_eq!(failure.stdout, "o");
            assert_eq!(failure.stderr, "e");
        }
        OperationOutcome::Success(_) => panic!("the command failed"),
    }
    assert_eq!(lines.len(), 2);
    assert!(lines[1].echo);
    assert_eq!(lines[1].line, "Failed to add sensor as child of parent gw:\no\ne\n\n");
}

#[test]
fn link_does_not_forgive_a_missing_device() {
    let config = config();
    let log = FileManager::new("out".to_string(), false);
    let manager = IoTHubDeviceManager::new(&config, &log);
    let (outcome, _) = manager.create_parent_child_relationship(
        "gw",
        "sensor",
        &exited(false, "", "ErrorCode:DeviceNotFound;"),
    );
    assert!(matches!(outcome, OperationOutcome::Failure(_)));
}

#[test]
fn delete_request_names_device_and_hub() {
    let config = config();
    let log = FileManager::new("out".to_string(), false);
    let manager = IoTHubDeviceManager::new(&config, &log);
    let request = manager.delete_device_identity_request("dev-1");
    assert_eq!(
        request.args,
        vec!["az iot hub device-identity delete", "--device-id", "dev-1", "--hub-name", "myhub"]
    );
    assert!(!request.announce.echo);
    assert_eq!(request.announce.line, "Deleting device dev-1 on hub myhub\n");
}

#[test]
fn delete_of_present_device_succeeds() {
    let config = config();
    let log = FileManager::new("out".to_string(), false);
    let manager = IoTHubDeviceManager::new(&config, &log);
    let (outcome, lines) = manager.delete_device_identity("dev-1", &exited(true, "", ""));
    assert!(matches!(outcome, OperationOutcome::Success(())));
    assert_eq!(lines.len(), 2);
    assert!(!lines[1].echo);
    assert_eq!(lines[1].line, "Successfully deleted dev-1\n");
}

#[test]
fn delete_of_absent_device_succeeds() {
    let config = config();
    let log = FileManager::new("out".to_string(), false);
    let manager = IoTHubDeviceManager::new(&config, &log);
    let text = exited(
        false,
        "",
        "ERROR: {\"Message\":\"ErrorCode:DeviceNotFound;E2E_dev-1\",\"ExceptionMessage\":\"\"}",
    );
    let (outcome, lines) = manager.delete_device_identity("dev-1", &text);
    assert!(matches!(outcome, OperationOutcome::Success(())));
    assert_eq!(lines.len(), 2);
    assert_eq!(lines[1].line, "Successfully deleted dev-1\n");
}

#[test]
fn delete_finds_the_marker_anywhere_in_the_error_stream() {
    let config = config();
    let log = FileManager::new("out".to_string(), false);
    let manager = IoTHubDeviceManager::new(&config, &log);
    for stderr in ["DeviceNotFound", "xDeviceNotFound", "DeviceNotFoundx", "a\nDeviceNotFound\nb"] {
        let (outcome, _) = manager.delete_device_identity("d", &exited(false, "", stderr));
        assert!(matches!(outcome, OperationOutcome::Success(())));
    }
}

#[test]
fn delete_with_other_error_fails() {
    let config = config();
    let log = FileManager::new("out".to_string(), false);
    let manager = IoTHubDeviceManager::new(&config, &log);
    for stderr in ["", "timeout", "DeviceNotFoun", "devicenotfound", "Device Not Found"] {
        let (outcome, lines) = manager.delete_device_identity("d", &exited(false, "so", stderr));
        match outcome {
            OperationOutcome::Failure(failure) => {
                assert_eq!(failure.device_id, "d");
                assert_eq!(failure.stdout, "so");
                assert_eq!(failure.stderr, stderr);
            }
            OperationOutcome::Success(_) => panic!("the device was neither deleted nor absent"),
        }
        assert_eq!(lines.len(), 2);
        assert!(lines[1].echo);
        assert_eq!(lines[1].line, format!("Failed to delete d:\nso\n{}\n\n", stderr));
    }
}

#[test]
fn delete_ignores_the_marker_in_the_output_stream() {
    let config = config();
    let log = FileManager::new("out".to_string(), false);
    let manager = IoTHubDeviceManager::new(&config, &log);
    let (outcome, _) =
        manager.delete_device_identity("d", &exited(false, "ErrorCode:DeviceNotFound;", "other"));
    assert!(matches!(outcome, OperationOutcome::Failure(_)));
}

#[test]
fn delete_that_did_not_run_fails() {
    let config = config();
    let log = FileManager::new("out".to_string(), false);
    let manager = IoTHubDeviceManager::new(&config, &log);
    let (outcome, lines) =
        manager.delete_device_identity("d", &CallText::NotRun("DeviceNotFound".to_string()));
    match outcome {
        OperationOutcome::Failure(failure) => {
            assert_eq!(failure.device_id, "d");
            assert_eq!(failure.stderr, "DeviceNotFound");
            assert_eq!(failure.stdout, "");
        }
        OperationOutcome::Success(_) => panic!("the command did not run"),
    }
    assert_eq!(lines.len(), 1);
    assert!(lines[0].echo);
}

#[test]
fn delete_through_raw_output_is_idempotent() {
    let config = config();
    let log = FileManager::new("out".to_string(), false);
    let manager = IoTHubDeviceManager::new(&config, &log);
    let result = CallResult::Exited(CommandOutput {
        success: false,
        stdout: Vec::new(),
        stderr: b"\xffErrorCode:DeviceNotFound;".to_vec(),
    });
    let (outcome, _) = manager.delete_device_identity("d", &read_result(&result));
    assert!(matches!(outcome, OperationOutcome::Success(())));
}
