use zkml_operator::error::ZKMLError;
use zkml_operator::handler::{
    error_response, fetch_status, handle_error, healthcheck, prove_plan, prove_response,
    ProveRequest, TransportFault,
};
use zkml_operator::tool::{contains_bytes, decode_output, verdict, ToolOutput};

fn prove_request(id: &str, input: &str) -> ProveRequest {
    ProveRequest { req_id: id.to_string(), input: input.to_string() }
}

fn output(stdout: &[u8]) -> ToolOutput {
    ToolOutput { stdout: stdout.to_vec(), stderr: Vec::new(), status: Some(0) }
}

#[test]
fn healthcheck_is_fixed() {
    let r = healthcheck();
    assert_eq!(r.req_id, "");
    assert_eq!(r.code, 200);
    assert_eq!(r.result, "healthy");
}

#[test]
fn prove_with_empty_input_is_rejected() {
    let r = prove_plan(&"ezkl".to_string(), &prove_request("r1", ""));
    let resp = r.err().expect("an empty input is answered at once");
    assert_eq!(resp.req_id, "r1");
    assert_eq!(resp.code, 1004);
    assert_eq!(resp.result, "The input must not be empty");
}

#[test]
fn prove_plan_builds_the_tool_command() {
    let cmd = prove_plan(&"/usr/bin/ezkl".to_string(), &prove_request("r2", "model.ezkl"))
        .ok()
        .expect("a non-empty input runs the tool");
    assert_eq!(cmd.program, "/usr/bin/ezkl");
    assert_eq!(cmd.args, vec!["prove", "--compiled-circuit", "model.ezkl"]);
}

#[test]
fn prove_response_returns_tool_output() {
    let req = prove_request("r3", "c");
    let r = prove_response(&req, &Ok(output("proof: 0xabc\n".as_bytes())));
    assert_eq!(r.req_id, "r3");
    assert_eq!(r.code, 200);
    assert_eq!(r.result, "proof: 0xabc\n");
}

#[test]
fn prove_response_replaces_invalid_output() {
    let req = prove_request("r4", "c");
    let r = prove_response(&req, &Ok(output(&[0x66, 0xff, 0x6f])));
    assert_eq!(r.code, 200);
    assert_eq!(r.result, "Error");
}

#[test]
fn prove_response_reports_launch_failure() {
    let req = prove_request("r5", "c");
    let r = prove_response(&req, &Err("No such file or directory".to_string()));
    assert_eq!(r.req_id, "r5");
    assert_eq!(r.code, 1004);
    assert_eq!(r.result, "Other Error for the Operator: Failed to execute ezkl prove");
}

#[test]
fn decode_output_keeps_unicode() {
    let text = "größe ✓";
    assert_eq!(decode_output(&text.as_bytes().to_vec()), text);
    assert_eq!(decode_output(&Vec::new()), "");
    assert_eq!(decode_output(&vec![0xc3]), "Error");
}

#[test]
fn verdict_true_only_with_marker() {
    assert!(verdict(&b"loading...\nverified: true\ndone".to_vec()));
    assert!(verdict(&b"verified: true".to_vec()));
    assert!(!verdict(&b"verified: false".to_vec()));
    assert!(!verdict(&b"verified:true".to_vec()));
    assert!(!verdict(&b"Verified: true".to_vec()));
    assert!(!verdict(&Vec::new()));
}

#[test]
fn verdict_false_on_invalid_output() {
    let mut out = b"verified: true".to_vec();
    out.push(0xff);
    assert!(!verdict(&out));
}

#[test]
fn contains_bytes_edges() {
    assert!(contains_bytes(b"abc", b""));
    assert!(contains_bytes(b"", b""));
    assert!(!contains_bytes(b"", b"a"));
    assert!(contains_bytes(b"abc", b"abc"));
    assert!(contains_bytes(b"xxabc", b"abc"));
    assert!(!contains_bytes(b"ab", b"abc"));
    assert!(!contains_bytes(b"abd", b"abc"));
}

#[test]
fn fetch_status_accepts_only_success() {
    assert!(fetch_status(200).is_ok());
    assert!(fetch_status(204).is_ok());
    assert!(fetch_status(299).is_ok());
    let e = fetch_status(404).err().expect("404 is a failure");
    assert_eq!(e.error_code(), 1004);
    assert_eq!(e.error_message(), "Other Error for the Operator: reponse is not success");
    assert!(fetch_status(199).is_err());
    assert!(fetch_status(300).is_err());
    assert!(fetch_status(500).is_err());
}

#[test]
fn error_codes_and_messages() {
    let cases = vec![
        (ZKMLError::ConfigMissing("/etc/op.yaml".to_string()), 1001, "No operator config found at this path: /etc/op.yaml"),
        (ZKMLError::SerializationError("bad key".to_string()), 1002, "Config deserialization error: bad key"),
        (ZKMLError::IoError("denied".to_string()), 1003, "Error while performing IO for the Operator: denied"),
        (ZKMLError::OtherError("boom".to_string()), 1004, "Other Error for the Operator: boom"),
    ];
    for (e, code, message) in cases {
        assert_eq!(e.error_code(), code);
        assert_eq!(e.error_message(), message);
    }
}

#[test]
fn error_response_uses_code_and_message() {
    let r = error_response(&"q".to_string(), &ZKMLError::IoError("x".to_string()));
    assert_eq!(r.req_id, "q");
    assert_eq!(r.code, 1003);
    assert_eq!(r.result, "Error while performing IO for the Operator: x");
}

#[test]
fn transport_faults_map_to_status() {
    let (code, text) = handle_error(&TransportFault::TimedOut);
    assert_eq!((code, text.as_str()), (408, "request timed out"));
    let (code, text) = handle_error(&TransportFault::Overloaded);
    assert_eq!((code, text.as_str()), (503, "service is overloaded, try again later"));
    let (code, text) = handle_error(&TransportFault::Unhandled("oops".to_string()));
    assert_eq!((code, text.as_str()), (500, "Unhandled internal error: oops"));
}
