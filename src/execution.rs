//! One request's orchestration as a state machine: stage the source, compile
//! when the language needs it, run, respond. The caller performs each step
//! (a file write, a container invocation) and reports back what happened.
use vstd::prelude::*;
use vstd::string::StringExecFns;
use crate::container::{container_args, container_command, source_path, source_path_of};
use crate::registry::{registry, Toolchain, ToolchainSpec};
use crate::request::{lower_of, resolve_language, CodeInput};

verus! {

/// What a request that passed dispatch yields: the program's (or the
/// compiler's) standard output and standard error, or a failure message.
pub struct ExecutionResult {
    pub output: String,
    pub error: String,
}

/// The answer to one request, with its status class.
pub enum Response {
    /// The language is not supported; carries a plain message.
    BadRequest { message: String },
    /// Staging or a container launch failed.
    ServerError { result: ExecutionResult },
    /// Compile and run took place, or the compile step reported diagnostics.
    Success { result: ExecutionResult },
}

/// Model of a [`Response`]; results are given as (output, error).
pub ghost enum Reply {
    BadRequest(Seq<char>),
    ServerError(Seq<char>, Seq<char>),
    Success(Seq<char>, Seq<char>),
}

impl View for Response {
    type V = Reply;

    open spec fn view(&self) -> Reply {
        match self {
            Response::BadRequest { message } => Reply::BadRequest(message@),
            Response::ServerError { result } => Reply::ServerError(result.output@, result.error@),
            Response::Success { result } => Reply::Success(result.output@, result.error@),
        }
    }
}

impl Response {
    pub fn duplicate(&self) -> (r: Response)
        ensures
            r@ == self@,
    {
        match self {
            Response::BadRequest { message } => Response::BadRequest { message: message.clone() },
            Response::ServerError { result } => Response::ServerError {
                result: ExecutionResult { output: result.output.clone(), error: result.error.clone() },
            },
            Response::Success { result } => Response::Success {
                result: ExecutionResult { output: result.output.clone(), error: result.error.clone() },
            },
        }
    }
}

/// The text that std makes of captured bytes, invalid UTF-8 replaced.
pub uninterp spec fn lossy_text(b: Seq<u8>) -> Seq<char>;

/// Relies on String::from_utf8_lossy: the text depends on the bytes alone,
/// and each byte is kept or replaced, so only no bytes give no text.
#[verifier::external_body]
fn text_of(bytes: &Vec<u8>) -> (r: String)
    ensures
        r@ == lossy_text(bytes@),
        r@.len() == 0 <==> bytes@.len() == 0,
{
    String::from_utf8_lossy(bytes.as_slice()).into_owned()
}

/// What the caller reports after performing a step.
pub enum Event {
    /// The source file was written.
    Written,
    /// The source file could not be written.
    WriteFailed { reason: String },
    /// The container process ran to completion.
    Exited { success: bool, stdout: String, stderr: String },
    /// The container process could not be started or awaited.
    LaunchFailed { reason: String },
}

/// Model of an [`Event`].
pub ghost enum Happened {
    Written,
    WriteFailed(Seq<char>),
    Exited(bool, Seq<char>, Seq<char>),
    LaunchFailed(Seq<char>),
}

impl View for Event {
    type V = Happened;

    open spec fn view(&self) -> Happened {
        match self {
            Event::Written => Happened::Written,
            Event::WriteFailed { reason } => Happened::WriteFailed(reason@),
            Event::Exited { success, stdout, stderr } => Happened::Exited(*success, stdout@, stderr@),
            Event::LaunchFailed { reason } => Happened::LaunchFailed(reason@),
        }
    }
}

impl Event {
    /// The event for a finished process, from its exit status and the bytes
    /// it wrote on each stream.
    pub fn exited(success: bool, stdout: &Vec<u8>, stderr: &Vec<u8>) -> (r: Event)
        ensures
            r@ == Happened::Exited(success, lossy_text(stdout@), lossy_text(stderr@)),
            (lossy_text(stdout@).len() == 0) == (stdout@.len() == 0),
            (lossy_text(stderr@).len() == 0) == (stderr@.len() == 0),
    {
        Event::Exited { success, stdout: text_of(stdout), stderr: text_of(stderr) }
    }
}

/// What the caller is asked to do next.
pub enum Step {
    /// Write `code` to the file at `path`.
    WriteSource { path: String, code: String },
    /// Run the container runtime with `args`, to completion, capturing its
    /// exit status and output.
    Compile { args: Vec<String> },
    /// Run the container runtime with `args`, feeding `stdin` to it while
    /// collecting its output.
    Run { args: Vec<String>, stdin: String },
    /// The request is finished: answer with `response`.
    Respond { response: Response },
}

/// Model of a [`Step`].
pub ghost enum Action {
    WriteSource(Seq<char>, Seq<char>),
    Compile(Seq<Seq<char>>),
    Run(Seq<Seq<char>>, Seq<char>),
    Respond(Reply),
}

impl View for Step {
    type V = Action;

    open spec fn view(&self) -> Action {
        match self {
            Step::WriteSource { path, code } => Action::WriteSource(path@, code@),
            Step::Compile { args } => Action::Compile(args.deep_view()),
            Step::Run { args, stdin } => Action::Run(args.deep_view(), stdin@),
            Step::Respond { response } => Action::Respond(response@),
        }
    }
}

/// Where one orchestration stands.
pub enum Phase {
    Staging,
    Compiling,
    Running,
    Done { response: Response },
}

/// Model of a [`Phase`].
pub ghost enum Stage {
    Staging,
    Compiling,
    Running,
    Done(Reply),
}

impl View for Phase {
    type V = Stage;

    open spec fn view(&self) -> Stage {
        match self {
            Phase::Staging => Stage::Staging,
            Phase::Compiling => Stage::Compiling,
            Phase::Running => Stage::Running,
            Phase::Done { response } => Stage::Done(response@),
        }
    }
}

/// Model of an [`Orchestrator`].
pub ghost struct Orchestration {
    pub toolchain: Toolchain,
    pub workspace: Seq<char>,
    pub code: Seq<char>,
    pub stdin: Seq<char>,
    pub stage: Stage,
}

pub open spec fn unsupported_message() -> Seq<char> {
    "Unsupported language"@
}

pub open spec fn write_failure_prefix() -> Seq<char> {
    "Failed to write code file: "@
}

pub open spec fn compile_launch_prefix() -> Seq<char> {
    "Compilation failed: "@
}

pub open spec fn run_launch_prefix() -> Seq<char> {
    "Failed to run code: "@
}

/// Dispatch: a supported (lower-cased) language starts staging; any other
/// is answered at once with a client error.
pub open spec fn begin(lang: Seq<char>, workspace: Seq<char>, code: Seq<char>, stdin: Seq<char>) -> Result<
    Orchestration,
    Reply,
> {
    match registry(lang) {
        Some(t) => Ok(
            Orchestration { toolchain: t, workspace, code, stdin, stage: Stage::Staging },
        ),
        None => Err(Reply::BadRequest(unsupported_message())),
    }
}

/// The step that an orchestration asks for in its current stage.
pub open spec fn action_of(o: Orchestration) -> Action {
    match o.stage {
        Stage::Staging => Action::WriteSource(source_path(o.workspace, o.toolchain.source_file), o.code),
        Stage::Compiling => Action::Compile(
            container_args(
                false,
                o.workspace,
                match o.toolchain.compile {
                    Some(c) => c,
                    None => Seq::empty(),
                },
            ),
        ),
        Stage::Running => Action::Run(container_args(true, o.workspace, o.toolchain.run), o.stdin),
        Stage::Done(r) => Action::Respond(r),
    }
}

/// The stage that follows an event. An event that does not answer the
/// current step leaves the stage as it is; a finished request stays finished.
pub open spec fn next_stage(o: Orchestration, e: Happened) -> Stage {
    match o.stage {
        Stage::Staging => match e {
            Happened::Written => if o.toolchain.compile is Some {
                Stage::Compiling
            } else {
                Stage::Running
            },
            Happened::WriteFailed(reason) => Stage::Done(
                Reply::ServerError(Seq::empty(), write_failure_prefix() + reason),
            ),
            _ => o.stage,
        },
        Stage::Compiling => match e {
            Happened::Exited(success, _, stderr) => if success {
                Stage::Running
            } else {
                Stage::Done(Reply::Success(Seq::empty(), stderr))
            },
            Happened::LaunchFailed(reason) => Stage::Done(
                Reply::ServerError(Seq::empty(), compile_launch_prefix() + reason),
            ),
            _ => o.stage,
        },
        Stage::Running => match e {
            Happened::Exited(_, stdout, stderr) => Stage::Done(Reply::Success(stdout, stderr)),
            Happened::LaunchFailed(reason) => Stage::Done(
                Reply::ServerError(Seq::empty(), run_launch_prefix() + reason),
            ),
            _ => o.stage,
        },
        Stage::Done(_) => o.stage,
    }
}

/// The orchestration after one event.
pub open spec fn advanced(o: Orchestration, e: Happened) -> Orchestration {
    Orchestration { stage: next_stage(o, e), ..o }
}

/// The orchestration after a sequence of events, in order.
pub open spec fn replay(o: Orchestration, events: Seq<Happened>) -> Orchestration
    decreases events.len(),
{
    if events.len() == 0 {
        o
    } else {
        replay(advanced(o, events[0]), events.drop_first())
    }
}

/// The orchestration of one request that passed dispatch.
pub struct Orchestrator {
    toolchain: ToolchainSpec,
    workspace: String,
    code: String,
    stdin: String,
    phase: Phase,
}

impl View for Orchestrator {
    type V = Orchestration;

    closed spec fn view(&self) -> Orchestration {
        Orchestration {
            toolchain: self.toolchain@,
            workspace: self.workspace@,
            code: self.code@,
            stdin: self.stdin@,
            stage: self.phase@,
        }
    }
}

fn prefixed(prefix: &str, reason: String) -> (r: String)
    ensures
        r@ == prefix@ + reason@,
{
    String::from_str(prefix).concat(reason.as_str())
}

fn failure(error: String) -> (r: Response)
    ensures
        r@ == Reply::ServerError(Seq::empty(), error@),
{
    Response::ServerError { result: ExecutionResult { output: String::new(), error } }
}

impl Orchestrator {
    #[verifier::type_invariant]
    spec fn inv(self) -> bool {
        self.phase is Compiling ==> self.toolchain.compile is Some
    }

    /// Dispatches a request whose workspace is the given host directory.
    pub fn start(request: &CodeInput, workspace: &str) -> (r: Result<Orchestrator, Response>)
        ensures
            match r {
                Ok(o) => begin(
                    lower_of(request.language@),
                    workspace@,
                    request.code@,
                    request.stdin_spec(),
                ) == Ok::<Orchestration, Reply>(o@),
                Err(resp) => begin(
                    lower_of(request.language@),
                    workspace@,
                    request.code@,
                    request.stdin_spec(),
                ) == Err::<Orchestration, Reply>(resp@),
            },
    {
        match resolve_language(request.language.as_str()) {
            Some(toolchain) => Ok(
                Orchestrator {
                    toolchain,
                    workspace: String::from_str(workspace),
                    code: request.code.clone(),
                    stdin: request.stdin_payload(),
                    phase: Phase::Staging,
                },
            ),
            None => Err(Response::BadRequest { message: String::from_str("Unsupported language") }),
        }
    }

    /// The step the caller performs next.
    pub fn next_step(&self) -> (r: Step)
        ensures
            r@ == action_of(self@),
    {
        proof {
            use_type_invariant(self);
        }
        match &self.phase {
            Phase::Staging => Step::WriteSource {
                path: source_path_of(self.workspace.as_str(), self.toolchain.source_file.as_str()),
                code: self.code.clone(),
            },
            Phase::Compiling => match &self.toolchain.compile {
                Some(c) => Step::Compile { args: container_command(false, self.workspace.as_str(), c) },
                None => Step::Compile { args: Vec::new() },
            },
            Phase::Running => Step::Run {
                args: container_command(true, self.workspace.as_str(), &self.toolchain.run),
                stdin: self.stdin.clone(),
            },
            Phase::Done { response } => Step::Respond { response: response.duplicate() },
        }
    }

    /// Takes in what happened when the caller performed the last step.
    pub fn advance(&mut self, event: Event)
        ensures
            final(self)@ == advanced(old(self)@, event@),
    {
        proof {
            use_type_invariant(&*self);
        }
        match &self.phase {
            Phase::Staging => match event {
                Event::Written => {
                    if self.toolchain.compile.is_some() {
                        self.phase = Phase::Compiling;
                    } else {
                        self.phase = Phase::Running;
                    }
                },
                Event::WriteFailed { reason } => {
                    self.phase = Phase::Done {
                        response: failure(prefixed("Failed to write code file: ", reason)),
                    };
                },
                _ => {},
            },
            Phase::Compiling => match event {
                Event::Exited { success, stdout: _, stderr } => {
                    if success {
                        self.phase = Phase::Running;
                    } else {
                        self.phase = Phase::Done {
                            response: Response::Success {
                                result: ExecutionResult { output: String::new(), error: stderr },
                            },
                        };
                    }
                },
                Event::LaunchFailed { reason } => {
                    self.phase = Phase::Done {
                        response: failure(prefixed("Compilation failed: ", reason)),
                    };
                },
                _ => {},
            },
            Phase::Running => match event {
                Event::Exited { success: _, stdout, stderr } => {
                    self.phase = Phase::Done {
                        response: Response::Success { result: ExecutionResult { output: stdout, error: stderr } },
                    };
                },
                Event::LaunchFailed { reason } => {
                    self.phase = Phase::Done {
                        response: failure(prefixed("Failed to run code: ", reason)),
                    };
                },
                _ => {},
            },
            Phase::Done { .. } => {},
        }
        assert(self@ =~= advanced(old(self)@, event@));
    }
}

} // verus!
