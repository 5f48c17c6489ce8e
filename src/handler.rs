use vstd::prelude::*;
use vstd::assert_seqs_equal;
use vstd::string::*;

use crate::error::{other_prefix, ErrorCodes, ZKMLError};
use crate::tool::{args_view, decode_output, output_text, ToolCommand, ToolOutput};

verus! {

/// A request to prove: `input` names the compiled circuit.
#[derive(Debug, Clone)]
pub struct ProveRequest {
    pub req_id: String,
    pub input: String,
}

/// A request to verify the proof found at `proof_path` (a URL) against
/// `model`.
#[derive(Debug, Clone)]
pub struct VerifyRequest {
    pub req_id: String,
    pub model: String,
    pub proof_path: String,
}

/// The envelope of every answer, success or failure.
#[derive(Debug, Clone)]
pub struct Response<T> {
    pub req_id: String,
    pub code: u16,
    pub result: T,
}

/// The code of a successful answer.
pub const SUCCESS: u16 = 200;


/// Whether `r` answers request `id` with `code` and text `text`.
pub open spec fn answers(r: Response<String>, id: Seq<char>, code: u16, text: Seq<char>) -> bool {
    &&& r.req_id@ == id
    &&& r.code == code
    &&& r.result@ == text
}

/// Whether `r` answers request `id` by reporting `e`.
pub open spec fn reports(r: Response<String>, id: Seq<char>, e: ZKMLError) -> bool {
    answers(r, id, e.spec_error_code(), e.message())
}

/// The failure envelope that reports `e` for request `req_id`.
pub fn error_response(req_id: &String, e: &ZKMLError) -> (r: Response<String>)
    ensures
        reports(r, req_id@, *e),
{
    Response { req_id: req_id.clone(), code: e.error_code(), result: e.error_message() }
}

/// The fixed answer of the health check.
pub fn healthcheck() -> (r: Response<String>)
    ensures
        answers(r, Seq::empty(), SUCCESS, "healthy"@),
{
    Response { req_id: String::new(), code: SUCCESS, result: String::from_str("healthy") }
}

pub open spec fn empty_input_text() -> Seq<char> {
    "The input must not be empty"@
}

/// Whether `r` answers request `id` with an `OtherError` whose detail is
/// `detail`.
pub open spec fn other_failure(r: Response<String>, id: Seq<char>, detail: Seq<char>) -> bool {
    answers(r, id, 1004, other_prefix() + detail)
}

pub open spec fn prove_launch_failure() -> Seq<char> {
    "Failed to execute ezkl prove"@
}

/// The arguments of a prove run on `input`.
pub open spec fn prove_args(input: Seq<char>) -> Seq<Seq<char>> {
    seq!["prove"@, "--compiled-circuit"@, input]
}

/// Checks a prove request and, where its input is present, gives the tool run
/// that serves it; an empty input is answered at once, with no run.
pub fn prove_plan(binfile: &String, req: &ProveRequest) -> (r: Result<ToolCommand, Response<String>>)
    ensures
        r is Err <==> req.input@.len() == 0,
        r matches Err(resp) ==> answers(resp, req.req_id@, 1004, empty_input_text()),
        r matches Ok(cmd) ==> cmd.program@ == binfile@ && args_view(cmd.args@) == prove_args(
            req.input@,
        ),
{
    if req.input.as_str().is_empty() {
        return Err(
            Response {
                req_id: req.req_id.clone(),
                code: ErrorCodes::OtherError.code(),
                result: String::from_str("The input must not be empty"),
            },
        );
    }
    let args = vec![
        String::from_str("prove"),
        String::from_str("--compiled-circuit"),
        req.input.clone(),
    ];
    proof {
        assert_seqs_equal!(args_view(args@), prove_args(req.input@));
    }
    Ok(ToolCommand { program: binfile.clone(), args })
}

/// The answer to a prove request once the tool run is over: a launch failure
/// is reported as an `OtherError`, and otherwise the tool's standard output,
/// read as text, is the result.
pub fn prove_response(req: &ProveRequest, run: &Result<ToolOutput, String>) -> (r: Response<
    String,
>)
    ensures
        run is Err ==> other_failure(r, req.req_id@, prove_launch_failure()),
        run matches Ok(out) ==> answers(r, req.req_id@, SUCCESS, output_text(out.stdout@)),
{
    match run {
        Err(_) => {
            let e = ZKMLError::OtherError(String::from_str("Failed to execute ezkl prove"));
            error_response(&req.req_id, &e)
        },
        Ok(out) => Response {
            req_id: req.req_id.clone(),
            code: SUCCESS,
            result: decode_output(&out.stdout),
        },
    }
}

pub open spec fn not_success_text() -> Seq<char> {
    "reponse is not success"@
}

/// Checks the HTTP status with which a proof artifact was served: any status
/// outside `200..=299` is an `OtherError`.
pub fn fetch_status(status: u16) -> (r: Result<(), ZKMLError>)
    ensures
        r is Ok <==> 200 <= status <= 299,
        r matches Err(e) ==> e is OtherError && e.detail() == not_success_text(),
{
    if 200 <= status && status <= 299 {
        Ok(())
    } else {
        Err(ZKMLError::OtherError(String::from_str("reponse is not success")))
    }
}


/// A failure of the transport layer, outside any handler.
#[derive(Debug, Clone)]
pub enum TransportFault {
    /// The request ran past the route's time limit.
    TimedOut,
    /// The service shed the request under load.
    Overloaded,
    /// Any other fault; holds its description.
    Unhandled(String),
}

/// The HTTP status and body text for a transport failure.
pub open spec fn fault_reply(fault: TransportFault) -> (u16, Seq<char>) {
    match fault {
        TransportFault::TimedOut => (408, "request timed out"@),
        TransportFault::Overloaded => (503, "service is overloaded, try again later"@),
        TransportFault::Unhandled(d) => (500, "Unhandled internal error: "@ + d@),
    }
}

/// Maps a transport failure to the HTTP status and text of its answer.
pub fn handle_error(fault: &TransportFault) -> (r: (u16, String))
    ensures
        r.0 == fault_reply(*fault).0,
        r.1@ == fault_reply(*fault).1,
{
    match fault {
        TransportFault::TimedOut => (408, String::from_str("request timed out")),
        TransportFault::Overloaded => (503, String::from_str("service is overloaded, try again later")),
        TransportFault::Unhandled(d) => (
            500,
            String::from_str("Unhandled internal error: ").concat(d.as_str()),
        ),
    }
}

} // verus!
