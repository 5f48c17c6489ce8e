use vstd::prelude::*;
use vstd::assert_seqs_equal;
use vstd::string::*;

use crate::config::Config;
use crate::error::ZKMLError;
use crate::handler::{answers, error_response, other_failure, Response, VerifyRequest, SUCCESS};
use crate::path::{join_path, path_join};
use crate::tool::{args_view, verdict, verified, ToolCommand, ToolOutput};

verus! {

/// The three local files a verification needs, in the order they are checked.
#[derive(Debug, Clone, Copy, PartialEq, Eq)]
pub enum Artifact {
    ModelDirectory,
    VerifyingKey,
    Settings,
}

impl Artifact {
    pub open spec fn spec_label(self) -> Seq<char> {
        match self {
            Artifact::ModelDirectory => "Model directory"@,
            Artifact::VerifyingKey => "VK"@,
            Artifact::Settings => "settings"@,
        }
    }

    /// The name by which a failure refers to the artifact.
    pub fn label(&self) -> (r: String)
        ensures
            r@ == self.spec_label(),
    {
        match self {
            Artifact::ModelDirectory => String::from_str("Model directory"),
            Artifact::VerifyingKey => String::from_str("VK"),
            Artifact::Settings => String::from_str("settings"),
        }
    }

    /// The artifact checked after this one, if any.
    pub open spec fn spec_next(self) -> Option<Artifact> {
        match self {
            Artifact::ModelDirectory => Some(Artifact::VerifyingKey),
            Artifact::VerifyingKey => Some(Artifact::Settings),
            Artifact::Settings => None,
        }
    }
}

/// Where a model's files lie.
#[derive(Debug, Clone)]
pub struct VerifyPaths {
    pub model_dir: String,
    pub vk: String,
    pub settings: String,
}

impl VerifyPaths {
    pub open spec fn path_of(self, a: Artifact) -> Seq<char> {
        match a {
            Artifact::ModelDirectory => self.model_dir@,
            Artifact::VerifyingKey => self.vk@,
            Artifact::Settings => self.settings@,
        }
    }

    /// Whether these are the paths of `model` under `root`.
    pub open spec fn locate(self, root: Seq<char>, model: Seq<char>) -> bool {
        &&& self.model_dir@ == path_join(root, model)
        &&& self.vk@ == path_join(self.model_dir@, "vk.key"@)
        &&& self.settings@ == path_join(self.model_dir@, "settings.json"@)
    }

    /// The paths of `model` under the models root `models_root`: its directory,
    /// and in it `vk.key` and `settings.json`.
    pub fn new(models_root: &String, model: &String) -> (r: VerifyPaths)
        ensures
            r.locate(models_root@, model@),
    {
        let model_dir = join_path(models_root.as_str(), model.as_str());
        let vk = join_path(model_dir.as_str(), "vk.key");
        let settings = join_path(model_dir.as_str(), "settings.json");
        VerifyPaths { model_dir, vk, settings }
    }

    fn path(&self, a: Artifact) -> (r: String)
        ensures
            r@ == self.path_of(a),
    {
        match a {
            Artifact::ModelDirectory => self.model_dir.clone(),
            Artifact::VerifyingKey => self.vk.clone(),
            Artifact::Settings => self.settings.clone(),
        }
    }
}

/// Where a verification stands.
#[derive(Debug, Clone, Copy, PartialEq, Eq)]
pub enum VerifyStage {
    /// The proof artifact is being fetched.
    Fetching,
    /// The existence of an artifact is being checked.
    Checking(Artifact),
    /// The tool is running.
    Running,
    /// The answer has been given.
    Done,
}

/// What the outside world reports back to a verification.
#[derive(Debug)]
pub enum VerifyEvent {
    /// The fetch ended: the local file that holds the proof, or the failure,
    /// which is answered as an `OtherError` with the same detail.
    Fetched(Result<String, ZKMLError>),
    /// Whether the path asked about exists.
    Found(bool),
    /// The tool run ended: its output, or why it could not be launched.
    ToolFinished(Result<ToolOutput, String>),
}

/// What a verification asks of the outside world next.
#[derive(Debug, Clone)]
pub enum VerifyAction {
    /// Fetch the proof at this URL into a temporary file.
    Fetch(String),
    /// Report whether this path exists.
    CheckExists(String),
    /// Run the tool.
    Run(ToolCommand),
    /// Answer the request; the verification is over.
    Respond(Response<String>),
}

/// One verify request in progress.
#[derive(Debug, Clone)]
pub struct VerifySession {
    pub req_id: String,
    pub binfile: String,
    pub paths: VerifyPaths,
    /// The local file that holds the fetched proof; empty until it is fetched.
    pub proof_file: String,
    pub stage: VerifyStage,
}

pub open spec fn missing_text(a: Artifact) -> Seq<char> {
    a.spec_label() + " does not exist"@
}

pub open spec fn verify_launch_failure() -> Seq<char> {
    "Failed to execute ezkl verify"@
}

pub open spec fn out_of_order_text() -> Seq<char> {
    "event does not fit the verification in progress"@
}

/// The arguments of a verify run.
pub open spec fn verify_args(proof: Seq<char>, vk: Seq<char>, settings: Seq<char>) -> Seq<
    Seq<char>,
> {
    seq!["verify"@, "--proof-path"@, proof, "--vk-path"@, vk, "--settings-path"@, settings]
}

pub open spec fn verdict_text(v: bool) -> Seq<char> {
    if v {
        "true"@
    } else {
        "false"@
    }
}

/// Whether `t` is `s` with the verification over, and `a` is its answer.
pub open spec fn finishes(s: VerifySession, t: VerifySession, a: VerifyAction) -> bool {
    &&& t == VerifySession { stage: VerifyStage::Done, ..s }
    &&& a is Respond
}

/// One transition: from `s`, on `ev`, to `t`, asking `a`.
pub open spec fn step_spec(s: VerifySession, ev: VerifyEvent, t: VerifySession, a: VerifyAction) -> bool {
    let id = s.req_id@;
    match (s.stage, ev) {
        (VerifyStage::Fetching, VerifyEvent::Fetched(Err(e))) => finishes(s, t, a)
            && other_failure(a->Respond_0, id, e.detail()),
        (VerifyStage::Fetching, VerifyEvent::Fetched(Ok(file))) => {
            &&& t == VerifySession {
                proof_file: file,
                stage: VerifyStage::Checking(Artifact::ModelDirectory),
                ..s
            }
            &&& a matches VerifyAction::CheckExists(p) && p@ == s.paths.model_dir@
        },
        (VerifyStage::Checking(x), VerifyEvent::Found(false)) => finishes(s, t, a) && other_failure(
            a->Respond_0,
            id,
            missing_text(x),
        ),
        (VerifyStage::Checking(x), VerifyEvent::Found(true)) => match x.spec_next() {
            Some(y) => {
                &&& t == VerifySession { stage: VerifyStage::Checking(y), ..s }
                &&& a matches VerifyAction::CheckExists(p) && p@ == s.paths.path_of(y)
            },
            None => {
                &&& t == VerifySession { stage: VerifyStage::Running, ..s }
                &&& a matches VerifyAction::Run(cmd) && cmd.program@ == s.binfile@ && args_view(
                    cmd.args@,
                ) == verify_args(s.proof_file@, s.paths.vk@, s.paths.settings@)
            },
        },
        (VerifyStage::Running, VerifyEvent::ToolFinished(Err(_))) => finishes(s, t, a)
            && other_failure(a->Respond_0, id, verify_launch_failure()),
        (VerifyStage::Running, VerifyEvent::ToolFinished(Ok(out))) => finishes(s, t, a) && answers(
            a->Respond_0,
            id,
            SUCCESS,
            verdict_text(verified(out.stdout@)),
        ),
        _ => finishes(s, t, a) && other_failure(a->Respond_0, id, out_of_order_text()),
    }
}

/// When the artifact being checked is absent, the verification ends at once
/// with an `OtherError` that names that artifact, and no tool run is asked for.
pub proof fn missing_artifact_ends_verification(
    s: VerifySession,
    x: Artifact,
    t: VerifySession,
    a: VerifyAction,
)
    requires
        s.stage == VerifyStage::Checking(x),
        step_spec(s, VerifyEvent::Found(false), t, a),
    ensures
        t.stage == VerifyStage::Done,
        !(a is Run),
        a matches VerifyAction::Respond(resp) && other_failure(resp, s.req_id@, missing_text(x)),
{
}

/// The artifacts are checked one after the other, the model directory first,
/// then the verifying key, then the settings, each only once the one before
/// it was found.
pub proof fn artifacts_checked_in_order(
    s: VerifySession,
    ev: VerifyEvent,
    t: VerifySession,
    a: VerifyAction,
    y: Artifact,
)
    requires
        step_spec(s, ev, t, a),
        t.stage == VerifyStage::Checking(y),
    ensures
        y == Artifact::ModelDirectory ==> s.stage == VerifyStage::Fetching && ev matches VerifyEvent::Fetched(Ok(_)),
        y == Artifact::VerifyingKey ==> s.stage == VerifyStage::Checking(Artifact::ModelDirectory) && ev == VerifyEvent::Found(true),
        y == Artifact::Settings ==> s.stage == VerifyStage::Checking(Artifact::VerifyingKey) && ev == VerifyEvent::Found(true),
{
}

/// The tool is run only right after the settings, the last artifact, were
/// found, and on the fetched proof and the model's key and settings.
pub proof fn tool_runs_only_when_all_found(
    s: VerifySession,
    ev: VerifyEvent,
    t: VerifySession,
    a: VerifyAction,
)
    requires
        step_spec(s, ev, t, a),
        a is Run,
    ensures
        s.stage == VerifyStage::Checking(Artifact::Settings),
        ev == VerifyEvent::Found(true),
        t.stage == VerifyStage::Running,
        args_view(a->Run_0.args@) == verify_args(s.proof_file@, s.paths.vk@, s.paths.settings@),
{
}

/// A finished tool run answers `"true"` exactly when its output is text that
/// holds the marker phrase, and `"false"` otherwise.
pub proof fn verify_answer_follows_marker(
    s: VerifySession,
    out: ToolOutput,
    t: VerifySession,
    a: VerifyAction,
)
    requires
        s.stage == VerifyStage::Running,
        step_spec(s, VerifyEvent::ToolFinished(Ok(out)), t, a),
    ensures
        a matches VerifyAction::Respond(resp) && resp.code == SUCCESS && resp.req_id@ == s.req_id@
            && (resp.result@ == "true"@ <==> verified(out.stdout@))
            && (resp.result@ == "false"@ <==> !verified(out.stdout@)),
{
    reveal_strlit("true");
    reveal_strlit("false");
    assert("true"@ != "false"@) by {
        assert("true"@.len() != "false"@.len());
    }
}

impl VerifySession {
    /// Opens the verification of `req` under `config`; its first action is the
    /// fetch of the proof.
    pub fn start(config: &Config, req: &VerifyRequest) -> (r: (VerifySession, VerifyAction))
        ensures
            r.0.req_id@ == req.req_id@,
            r.0.binfile@ == config.public.binfile@,
            r.0.paths.locate(config.public.models@, req.model@),
            r.0.proof_file@ == Seq::<char>::empty(),
            r.0.stage == VerifyStage::Fetching,
            r.1 matches VerifyAction::Fetch(url) && url@ == req.proof_path@,
    {
        let session = VerifySession {
            req_id: req.req_id.clone(),
            binfile: config.public.binfile.clone(),
            paths: VerifyPaths::new(&config.public.models, &req.model),
            proof_file: String::new(),
            stage: VerifyStage::Fetching,
        };
        (session, VerifyAction::Fetch(req.proof_path.clone()))
    }

    fn finish(&mut self, resp: Response<String>) -> (a: VerifyAction)
        ensures
            finishes(*old(self), *final(self), a),
            a->Respond_0 == resp,
    {
        self.stage = VerifyStage::Done;
        VerifyAction::Respond(resp)
    }

    fn fail(&mut self, detail: String) -> (a: VerifyAction)
        ensures
            finishes(*old(self), *final(self), a),
            other_failure(a->Respond_0, old(self).req_id@, detail@),
    {
        let e = ZKMLError::OtherError(detail);
        let resp = error_response(&self.req_id, &e);
        self.finish(resp)
    }

    /// Takes the outside world's report and decides what comes next.
    pub fn step(&mut self, event: VerifyEvent) -> (a: VerifyAction)
        ensures
            step_spec(*old(self), event, *final(self), a),
    {
        match self.stage {
            VerifyStage::Fetching => match event {
                VerifyEvent::Fetched(Err(e)) => self.fail(e.into_detail()),
                VerifyEvent::Fetched(Ok(file)) => {
                    self.proof_file = file;
                    self.stage = VerifyStage::Checking(Artifact::ModelDirectory);
                    VerifyAction::CheckExists(self.paths.model_dir.clone())
                },
                _ => self.fail(String::from_str("event does not fit the verification in progress")),
            },
            VerifyStage::Checking(x) => match event {
                VerifyEvent::Found(false) => {
                    let detail = x.label().concat(" does not exist");
                    self.fail(detail)
                },
                VerifyEvent::Found(true) => match x {
                    Artifact::ModelDirectory => {
                        self.stage = VerifyStage::Checking(Artifact::VerifyingKey);
                        VerifyAction::CheckExists(self.paths.vk.clone())
                    },
                    Artifact::VerifyingKey => {
                        self.stage = VerifyStage::Checking(Artifact::Settings);
                        VerifyAction::CheckExists(self.paths.settings.clone())
                    },
                    Artifact::Settings => {
                        self.stage = VerifyStage::Running;
                        let args = vec![
                            String::from_str("verify"),
                            String::from_str("--proof-path"),
                            self.proof_file.clone(),
                            String::from_str("--vk-path"),
                            self.paths.vk.clone(),
                            String::from_str("--settings-path"),
                            self.paths.settings.clone(),
                        ];
                        proof {
                            assert_seqs_equal!(args_view(args@), verify_args(self.proof_file@, self.paths.vk@, self.paths.settings@));
                        }
                        VerifyAction::Run(ToolCommand { program: self.binfile.clone(), args })
                    },
                },
                _ => self.fail(String::from_str("event does not fit the verification in progress")),
            },
            VerifyStage::Running => match event {
                VerifyEvent::ToolFinished(Err(_)) => self.fail(
                    String::from_str("Failed to execute ezkl verify"),
                ),
                VerifyEvent::ToolFinished(Ok(out)) => {
                    let text = if verdict(&out.stdout) {
                        String::from_str("true")
                    } else {
                        String::from_str("false")
                    };
                    let resp = Response { req_id: self.req_id.clone(), code: SUCCESS, result: text };
                    self.finish(resp)
                },
                _ => self.fail(String::from_str("event does not fit the verification in progress")),
            },
            VerifyStage::Done => self.fail(
                String::from_str("event does not fit the verification in progress"),
            ),
        }
    }
}

} // verus!
