use std::collections::HashMap;

use shell_provider::depth::{is_shallow, MAX_NESTING};
use shell_provider::codec::{decode_response, encode_request};
use shell_provider::error::ProviderError;
use shell_provider::invoke::{conclude, LaunchOutcome};
use shell_provider::provider::{
    CallStep, DispatcherSlot, ShellProvider, CAPABILITY_ID, PROVIDER_NAME,
};
use shell_provider::shell::{is_invoke, InvokeRequest, OP_INVOKE};

fn binding(module: &str) -> Vec<u8> {
    let mut values = HashMap::new();
    values.insert("shell".to_string(), "/bin/sh".to_string());
    let config = wascc_codec::core::CapabilityConfiguration { module: module.to_string(), values };
    wascc_codec::serialize(config).unwrap()
}

fn echo_payload() -> Vec<u8> {
    let request = InvokeRequest { command: "echo".to_string(), args: vec!["hello".to_string()] };
    encode_request(&request).unwrap()
}

#[test]
fn execute_bad_things() {
    println!("Running bad test");
    let req1 = InvokeRequest {
        command: "/bin/sh".to_string(),
        args: vec!["-c".to_string(), "echo pwned".to_string()],
    };
    let sp: ShellProvider<()> = ShellProvider::new();
    let result = sp
        .handle_call("actor", OP_INVOKE, encode_request(&req1).unwrap().as_ref())
        .and_then(|step| match step {
            CallStep::Launch(request) => {
                assert_eq!(request, req1);
                conclude(LaunchOutcome::Exited(b"pwned\n".to_vec()))
            }
            CallStep::Reply(bytes) => Ok(bytes),
        });
    match result {
        Ok(resp) => {
            let op = decode_response(&resp).unwrap();
            println!("output: {}", op.output);
            assert_eq!(op.output, "pwned\n");
        }
        Err(e) => {
            println!("{}", e.message());
            panic!("the call failed");
        }
    }
}

#[test]
fn new_provider_has_no_dispatcher() {
    let provider: ShellProvider<u32> = ShellProvider::new();
    assert!(matches!(provider.dispatcher(), DispatcherSlot::Unset));
    let provider: ShellProvider<u32> = ShellProvider::default();
    assert!(matches!(provider.dispatcher(), DispatcherSlot::Unset));
}

#[test]
fn identity_is_constant() {
    let mut provider: ShellProvider<u32> = ShellProvider::new();
    assert_eq!(provider.capability_id(), "YOLO:FTW");
    assert_eq!(provider.name(), "Shell Capability Provider");
    assert_eq!(provider.configure_dispatch(1), Ok(()));
    assert_eq!(provider.capability_id(), CAPABILITY_ID);
    assert_eq!(provider.name(), PROVIDER_NAME);
    assert_eq!(provider.capability_id(), "YOLO:FTW");
}

#[test]
fn configure_dispatch_installs_and_replaces() {
    let mut provider: ShellProvider<u32> = ShellProvider::new();
    assert_eq!(provider.configure_dispatch(7), Ok(()));
    assert!(matches!(provider.dispatcher(), DispatcherSlot::Bound(7)));
    assert_eq!(provider.configure_dispatch(9), Ok(()));
    assert!(matches!(provider.dispatcher(), DispatcherSlot::Bound(9)));
}

#[test]
fn operation_tags() {
    assert_eq!(OP_INVOKE, "Invoke");
    assert!(is_invoke("Invoke"));
    assert!(!is_invoke("invoke"));
    assert!(!is_invoke(wascc_codec::core::OP_BIND_ACTOR));
}

#[test]
fn system_binding_is_acknowledged_with_empty_bytes() {
    let provider: ShellProvider<u32> = ShellProvider::new();
    let reply = provider.handle_call("system", wascc_codec::core::OP_BIND_ACTOR, &binding("MODULE"));
    assert_eq!(reply, Ok(CallStep::Reply(Vec::new())));
    let reply = provider.handle_call("system", "BindActor", &binding(""));
    assert_eq!(reply, Ok(CallStep::Reply(Vec::new())));
}

#[test]
fn binding_is_acknowledged_before_and_after_configuration() {
    let mut provider: ShellProvider<u32> = ShellProvider::new();
    let before = provider.handle_call("system", wascc_codec::core::OP_BIND_ACTOR, &binding("M"));
    provider.configure_dispatch(3).unwrap();
    let after = provider.handle_call("system", wascc_codec::core::OP_BIND_ACTOR, &binding("M"));
    assert_eq!(before, Ok(CallStep::Reply(Vec::new())));
    assert_eq!(after, before);
}

#[test]
fn undecodable_binding_is_a_decode_error() {
    let provider: ShellProvider<u32> = ShellProvider::new();
    let reply = provider.handle_call("system", wascc_codec::core::OP_BIND_ACTOR, &[0xc1, 0x00]);
    match reply {
        Err(ProviderError::Decode(text)) => assert!(text.starts_with("Failed to de-serialize")),
        other => panic!("not a decode error: {:?}", other),
    }
    let reply = provider.handle_call("system", wascc_codec::core::OP_BIND_ACTOR, &[]);
    assert!(matches!(reply, Err(ProviderError::Decode(_))));
}

#[test]
fn binding_from_another_actor_is_refused() {
    let provider: ShellProvider<u32> = ShellProvider::new();
    for actor in ["actor", "", "System", "system ", "MBCFOPM6JW2APJLXJD3Z5O4CN7CPYJ2B4FTKLJUR5YR5MITIU7HD3WD5"] {
        let reply = provider.handle_call(actor, wascc_codec::core::OP_BIND_ACTOR, &binding("M"));
        assert_eq!(reply, Err(ProviderError::BadDispatch("BindActor".to_string())));
    }
}

#[test]
fn unknown_operation_is_refused() {
    let provider: ShellProvider<u32> = ShellProvider::new();
    for op in ["", "Nope", "invoke", "Invoke ", "RemoveActor", "HealthRequest"] {
        for actor in ["system", "actor"] {
            let reply = provider.handle_call(actor, op, &echo_payload());
            assert_eq!(reply, Err(ProviderError::BadDispatch(op.to_string())));
        }
    }
}

#[test]
fn invoke_hands_back_the_decoded_request() {
    let provider: ShellProvider<u32> = ShellProvider::new();
    let expected = InvokeRequest { command: "echo".to_string(), args: vec!["hello".to_string()] };
    for actor in ["actor", "system", ""] {
        let reply = provider.handle_call(actor, OP_INVOKE, &echo_payload());
        assert_eq!(reply, Ok(CallStep::Launch(expected.clone())));
    }
}

#[test]
fn invoke_with_a_bad_payload_is_a_decode_error() {
    let provider: ShellProvider<u32> = ShellProvider::new();
    let expected = ProviderError::Decode(
        "payload does not have the layout of the message".to_string(),
    );
    assert_eq!(provider.handle_call("actor", OP_INVOKE, &[]), Err(expected.clone()));
    assert_eq!(provider.handle_call("actor", OP_INVOKE, &binding("M")), Err(expected.clone()));
    assert_eq!(provider.handle_call("actor", OP_INVOKE, &[0x82, 0xa7]), Err(expected));
}

#[test]
fn invoke_success_returns_the_output() {
    let provider: ShellProvider<u32> = ShellProvider::new();
    let step = provider.handle_call("actor", OP_INVOKE, &echo_payload()).unwrap();
    let request = match step {
        CallStep::Launch(request) => request,
        CallStep::Reply(_) => panic!("no launch"),
    };
    assert_eq!(request.command, "echo");
    assert_eq!(request.args, vec!["hello".to_string()]);
    let reply = conclude(LaunchOutcome::Exited(b"hello\n".to_vec())).unwrap();
    assert_eq!(decode_response(&reply).unwrap().output, "hello\n");
}

#[test]
fn failed_launch_leaves_the_provider_usable() {
    let provider: ShellProvider<u32> = ShellProvider::new();
    let request = InvokeRequest {
        command: "__definitely_not_a_real_executable__".to_string(),
        args: Vec::new(),
    };
    let payload = encode_request(&request).unwrap();
    let step = provider.handle_call("actor", OP_INVOKE, &payload);
    assert_eq!(step, Ok(CallStep::Launch(request)));
    let reply = conclude(LaunchOutcome::NotStarted("No such file or directory".to_string()));
    assert_eq!(
        reply,
        Err(ProviderError::ProcessLaunch("No such file or directory".to_string()))
    );
    let again = provider.handle_call("system", wascc_codec::core::OP_BIND_ACTOR, &binding("M"));
    assert_eq!(again, Ok(CallStep::Reply(Vec::new())));
    let again = provider.handle_call("actor", OP_INVOKE, &echo_payload());
    assert!(matches!(again, Ok(CallStep::Launch(_))));
}

fn nested_binding(levels: usize) -> Vec<u8> {
    let mut bytes = vec![0x83, 0xa6];
    bytes.extend_from_slice(b"module");
    bytes.extend_from_slice(&[0xa1, b'M', 0xa6]);
    bytes.extend_from_slice(b"values");
    bytes.extend_from_slice(&[0x80, 0xa5]);
    bytes.extend_from_slice(b"extra");
    for _ in 1..levels {
        bytes.push(0x91);
    }
    bytes.push(0x90);
    bytes
}

fn too_deep() -> ProviderError {
    ProviderError::Decode("payload is nested too deeply".to_string())
}

fn nested_arrays(levels: usize) -> Vec<u8> {
    let mut bytes = vec![0x91; levels - 1];
    bytes.push(0x90);
    bytes
}

#[test]
fn depth_is_that_of_the_arrays_and_maps_that_are_open() {
    assert_eq!(MAX_NESTING, 128);
    assert!(is_shallow(&[]));
    assert!(is_shallow(&[0xc0]));
    assert!(is_shallow(&nested_arrays(1)));
    assert!(is_shallow(&nested_arrays(128)));
    assert!(!is_shallow(&nested_arrays(129)));
    assert!(!is_shallow(&nested_arrays(5000)));
    assert!(is_shallow(&[0x91; 128]));
    assert!(!is_shallow(&[0x91; 129]));
    let mut maps = Vec::new();
    for _ in 0..128 {
        maps.extend_from_slice(&[0x81, 0xa1, b'k']);
    }
    maps.push(0xc0);
    assert!(is_shallow(&maps));
    let mut deeper = vec![0x81, 0xa1, b'k'];
    deeper.extend_from_slice(&maps);
    assert!(!is_shallow(&deeper));
    let mut wide = vec![0xdd, 0x00, 0x00, 0x00, 0x81];
    wide.extend_from_slice(&nested_arrays(128));
    assert!(!is_shallow(&wide));
    let mut wide = vec![0xde, 0x00, 0x01, 0xc0];
    wide.extend_from_slice(&nested_arrays(127));
    assert!(is_shallow(&wide));
}

#[test]
fn arrays_side_by_side_are_not_deep() {
    let mut row = vec![0xdc, 0x03, 0xe8];
    for _ in 0..1000 {
        row.extend_from_slice(&nested_arrays(100));
    }
    assert!(is_shallow(&row));
    let mut rows = vec![0x92];
    rows.extend_from_slice(&nested_arrays(127));
    rows.extend_from_slice(&nested_arrays(128));
    assert!(!is_shallow(&rows));
    let mut behind = nested_arrays(3);
    behind.extend_from_slice(&nested_arrays(500));
    assert!(is_shallow(&behind));
}

#[test]
fn content_is_stepped_over() {
    let marker_like = [0x80, 0x8f, 0x91, 0x9f, 0xdc, 0xdd, 0xde, 0xdf];
    for byte in marker_like {
        let mut text = vec![0xda, 0x10, 0x00];
        text.extend_from_slice(&[byte; 4096]);
        assert!(is_shallow(&text));
        let mut binary = vec![0x93, 0xc4, 0xff];
        binary.extend_from_slice(&[byte; 255]);
        binary.extend_from_slice(&[0xc5, 0x01, 0x00]);
        binary.extend_from_slice(&[byte; 256]);
        binary.extend_from_slice(&[0xc6, 0x00, 0x00, 0x02, 0x00]);
        binary.extend_from_slice(&[byte; 512]);
        assert!(is_shallow(&binary));
        let mut extension = vec![0x99, 0xc7, 0xc8, byte];
        extension.extend_from_slice(&[byte; 200]);
        extension.extend_from_slice(&[0xc8, 0x01, 0x00, byte]);
        extension.extend_from_slice(&[byte; 256]);
        extension.extend_from_slice(&[0xc9, 0x00, 0x00, 0x01, 0x00, byte]);
        extension.extend_from_slice(&[byte; 256]);
        extension.extend_from_slice(&[0xd4, byte, byte, 0xd5, byte, byte, byte]);
        extension.extend_from_slice(&[0xd6, byte, byte, byte, byte, byte]);
        extension.extend_from_slice(&[0xd7; 1]);
        extension.extend_from_slice(&[byte; 9]);
        extension.extend_from_slice(&[0xd8; 1]);
        extension.extend_from_slice(&[byte; 17]);
        extension.extend_from_slice(&nested_arrays(128));
        assert!(!is_shallow(&extension));
        extension.pop();
        extension.pop();
        extension.push(0x90);
        assert!(is_shallow(&extension));
        let mut numbers = vec![0xdc, 0x00, 0x0b, 0xcc, byte, 0xcd, byte, byte];
        numbers.extend_from_slice(&[0xce, byte, byte, byte, byte, 0xcf]);
        numbers.extend_from_slice(&[byte; 8]);
        numbers.extend_from_slice(&[0xd0, byte, 0xd1, byte, byte, 0xd2, byte, byte, byte, byte]);
        numbers.push(0xd3);
        numbers.extend_from_slice(&[byte; 8]);
        numbers.extend_from_slice(&[0xca, byte, byte, byte, byte, 0xcb]);
        numbers.extend_from_slice(&[byte; 8]);
        numbers.extend_from_slice(&nested_arrays(127));
        assert!(is_shallow(&numbers));
        numbers.pop();
        numbers.extend_from_slice(&[0x91, 0x90]);
        assert!(!is_shallow(&numbers));
    }
}

#[test]
fn long_configuration_in_any_script_is_acknowledged() {
    let provider: ShellProvider<u32> = ShellProvider::new();
    let mut values = HashMap::new();
    for i in 0..127 {
        values.insert(format!("key{}", i), "v".repeat(150));
    }
    for i in 0..200 {
        values.insert(format!("\u{43a}\u{43b}\u{44e}\u{447}{}", i), "\u{440}\u{7ff}\u{4e16}".repeat(300));
    }
    let config = wascc_codec::core::CapabilityConfiguration {
        module: "\u{440}".repeat(129),
        values,
    };
    let payload = wascc_codec::serialize(config).unwrap();
    assert!(payload.iter().filter(|b| (0x80..=0x9f).contains(*b)).count() > 10_000);
    assert!(is_shallow(&payload));
    let reply = provider.handle_call("system", "BindActor", &payload);
    assert_eq!(reply, Ok(CallStep::Reply(Vec::new())));
    let config = wascc_codec::core::CapabilityConfiguration {
        module: "\u{440}".repeat(129),
        values: HashMap::new(),
    };
    let payload = wascc_codec::serialize(config).unwrap();
    let reply = provider.handle_call("system", "BindActor", &payload);
    assert_eq!(reply, Ok(CallStep::Reply(Vec::new())));
}

#[test]
fn binding_with_an_unknown_nested_field_is_acknowledged_up_to_the_limit() {
    let provider: ShellProvider<u32> = ShellProvider::new();
    let payload = nested_binding(127);
    assert!(is_shallow(&payload));
    let reply = provider.handle_call("system", "BindActor", &payload);
    assert_eq!(reply, Ok(CallStep::Reply(Vec::new())));
}

#[test]
fn binding_nested_beyond_the_limit_is_a_decode_error() {
    let provider: ShellProvider<u32> = ShellProvider::new();
    let payload = nested_binding(128);
    assert!(!is_shallow(&payload));
    assert_eq!(provider.handle_call("system", "BindActor", &payload), Err(too_deep()));
}

#[test]
fn hostile_nesting_does_not_end_the_process() {
    let provider: ShellProvider<u32> = ShellProvider::new();
    let payload = nested_binding(1_000_000);
    assert_eq!(provider.handle_call("system", "BindActor", &payload), Err(too_deep()));
    let bare = vec![0x91; 1_000_000];
    assert_eq!(provider.handle_call("system", "BindActor", &bare), Err(too_deep()));
    let again = provider.handle_call("system", "BindActor", &binding("M"));
    assert_eq!(again, Ok(CallStep::Reply(Vec::new())));
}

#[test]
fn nesting_is_not_looked_at_on_the_other_routes() {
    let provider: ShellProvider<u32> = ShellProvider::new();
    let payload = nested_binding(1000);
    assert_eq!(
        provider.handle_call("actor", "BindActor", &payload),
        Err(ProviderError::BadDispatch("BindActor".to_string()))
    );
    assert_eq!(
        provider.handle_call("system", "Nope", &payload),
        Err(ProviderError::BadDispatch("Nope".to_string()))
    );
    assert_eq!(
        provider.handle_call("actor", OP_INVOKE, &payload),
        Err(ProviderError::Decode("payload does not have the layout of the message".to_string()))
    );
}
