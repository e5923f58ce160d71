//! The supervisor of the worker process: whether it runs, how it is
//! started, and the identifiers of the requests sent to it.
//!
//! Spawning the process and moving bytes is the host's work. The
//! supervisor decides each step and keeps the state.

use crate::json::JsonValue;
use crate::key::SidecarEnv;
use crate::locate::{opt_text, texts, Platform, PlatformProfile};
use crate::rpc::{encode_request, is_one_line, not_started_marker, request_line, ChannelError};
use crate::text::{concat, has_substring, occurs_at};
use vstd::prelude::*;
use vstd::string::*;

verus! {

/// `items` written one after the other with `separator` between them.
pub open spec fn listed(items: Seq<Seq<char>>, separator: Seq<char>) -> Seq<char>
    decreases items.len(),
{
    if items.len() == 0 {
        Seq::empty()
    } else if items.len() == 1 {
        items[0]
    } else {
        listed(items.drop_last(), separator) + separator + items.last()
    }
}

/// `items` written one after the other with `separator` between them.
pub fn list_texts(items: &Vec<String>, separator: &str) -> (out: String)
    ensures
        out@ == listed(texts(items@), separator@),
{
    let mut out = String::new();
    let mut i: usize = 0;
    while i < items.len()
        invariant
            i <= items.len(),
            out@ == listed(texts(items@).take(i as int), separator@),
        decreases items.len() - i,
    {
        if i > 0 {
            out.append(separator);
        }
        out.append(items[i].as_str());
        assert(texts(items@).take(i + 1).drop_last() =~= texts(items@).take(i as int));
        i += 1;
    }
    assert(texts(items@).take(items.len() as int) =~= texts(items@));
    out
}

/// A search path with `dirs` appended to `inherited`, entries separated by
/// `separator`. Without an inherited path the result is `dirs` alone.
pub open spec fn extended_search_path(
    inherited: Option<Seq<char>>,
    dirs: Seq<Seq<char>>,
    separator: char,
) -> Seq<char> {
    match inherited {
        Some(path) => if path.len() > 0 && dirs.len() > 0 {
            path.push(separator) + listed(dirs, seq![separator])
        } else if path.len() > 0 {
            path
        } else {
            listed(dirs, seq![separator])
        },
        None => listed(dirs, seq![separator]),
    }
}

/// The worker's executable search path: the inherited one, then `dirs`.
pub fn extend_search_path(inherited: Option<&str>, dirs: &Vec<String>, platform: Platform) -> (out:
    String)
    ensures
        out@ == extended_search_path(
            match inherited {
                Some(p) => Some(p@),
                None => None,
            },
            texts(dirs@),
            platform.list_separator(),
        ),
{
    let mut separator = String::new();
    separator.push(platform.search_path_separator());
    assert(separator@ =~= seq![platform.list_separator()]);
    let added = list_texts(dirs, separator.as_str());
    match inherited {
        Some(path) => {
            if path.unicode_len() > 0 && dirs.len() > 0 {
                let mut out = path.to_owned();
                out.push(platform.search_path_separator());
                out.append(added.as_str());
                out
            } else if path.unicode_len() > 0 {
                path.to_owned()
            } else {
                added
            }
        },
        None => added,
    }
}

/// What the host knows when it starts the worker.
#[derive(Debug, PartialEq, Eq)]
pub struct StartContext {
    /// The outcome of key provisioning.
    pub env: SidecarEnv,
    pub profile: PlatformProfile,
    /// The executable search path of the host itself, if it has one.
    pub inherited_path: Option<String>,
}

/// How to spawn the worker: the program, the script it runs, and the
/// variables set in its environment. Its three standard streams are pipes.
#[derive(Debug, PartialEq, Eq)]
pub struct SpawnPlan {
    pub program: String,
    pub script: String,
    pub env: Vec<(String, String)>,
    pub hide_console_window: bool,
}

/// The views of a list of variables.
pub open spec fn variables_view(v: Seq<(String, String)>) -> Seq<(Seq<char>, Seq<char>)> {
    Seq::new(v.len(), |i: int| (v[i].0@, v[i].1@))
}

/// The variables set in the worker's environment: the data directory and
/// the cache key where there is one, the key's source, and the search path.
pub open spec fn worker_environment(context: StartContext) -> Seq<(Seq<char>, Seq<char>)> {
    let dir: Seq<(Seq<char>, Seq<char>)> = match context.env.data_dir {
        Some(d) => seq![("ENTRA_TOKEN_STUDIO_DATA_DIR"@, d@)],
        None => seq![],
    };
    let key: Seq<(Seq<char>, Seq<char>)> = match context.env.cache_key_b64 {
        Some(k) => seq![("ENTRA_TOKEN_STUDIO_CACHE_KEY"@, k@)],
        None => seq![],
    };
    dir + key + seq![
        ("ENTRA_TOKEN_STUDIO_CACHE_KEY_SOURCE"@, context.env.cache_key_source.tag()),
        (
            "PATH"@,
            extended_search_path(
                opt_text(context.inherited_path),
                texts(context.profile.tool_dirs@),
                context.profile.platform.list_separator(),
            ),
        ),
    ]
}

/// The variables to set in the worker's environment.
pub fn build_environment(context: &StartContext) -> (out: Vec<(String, String)>)
    ensures
        variables_view(out@) == worker_environment(*context),
{
    let mut out: Vec<(String, String)> = Vec::new();
    if let Some(d) = &context.env.data_dir {
        out.push(("ENTRA_TOKEN_STUDIO_DATA_DIR".to_owned(), d.clone()));
    }
    if let Some(k) = &context.env.cache_key_b64 {
        out.push(("ENTRA_TOKEN_STUDIO_CACHE_KEY".to_owned(), k.clone()));
    }
    out.push(
        (
            "ENTRA_TOKEN_STUDIO_CACHE_KEY_SOURCE".to_owned(),
            context.env.cache_key_source.as_str().to_owned(),
        ),
    );
    let inherited = match &context.inherited_path {
        Some(p) => Some(p.as_str()),
        None => None,
    };
    out.push(
        (
            "PATH".to_owned(),
            extend_search_path(inherited, &context.profile.tool_dirs, context.profile.platform),
        ),
    );
    assert(variables_view(out@) =~= worker_environment(*context));
    out
}

/// The marker of a start that failed for want of a runtime.
pub open spec fn runtime_missing_marker() -> Seq<char> {
    "[NODE_NOT_FOUND]"@
}

/// The marker of a start that failed for want of the entry script.
pub open spec fn script_missing_marker() -> Seq<char> {
    "Could not find sidecar"@
}

/// How to install the runtime on `platform`.
pub open spec fn install_hint(platform: Platform) -> Seq<char> {
    match platform {
        Platform::Windows =>
            "Install Node.js from https://nodejs.org or run `winget install OpenJS.NodeJS`, then restart the application."@,
        Platform::MacOs =>
            "Install Node.js from https://nodejs.org or run `brew install node`, then restart the application."@,
        Platform::Linux =>
            "Install Node.js from https://nodejs.org or with your package manager, then restart the application."@,
    }
}

/// The reason of a start that found no runtime.
pub open spec fn runtime_missing_text(platform: Platform) -> Seq<char> {
    runtime_missing_marker() + " Node.js runtime was not found. "@ + install_hint(platform)
}

/// The reason of a start that found no entry script, with every path
/// that was checked.
pub open spec fn script_missing_text(checked: Seq<Seq<char>>) -> Seq<char> {
    script_missing_marker() + " script. Checked: "@ + listed(checked, ", "@)
}

/// The reason of a start whose spawn failed.
pub open spec fn spawn_failed_text(script: Seq<char>, error: Seq<char>) -> Seq<char> {
    "Failed to spawn sidecar from \""@ + script + "\": "@ + error
}

/// The reason of a start that found no runtime.
pub fn runtime_missing_reason(platform: Platform) -> (out: String)
    ensures
        out@ == runtime_missing_text(platform),
{
    let hint = match platform {
        Platform::Windows =>
            "Install Node.js from https://nodejs.org or run `winget install OpenJS.NodeJS`, then restart the application.",
        Platform::MacOs =>
            "Install Node.js from https://nodejs.org or run `brew install node`, then restart the application.",
        Platform::Linux =>
            "Install Node.js from https://nodejs.org or with your package manager, then restart the application.",
    };
    let head = concat("[NODE_NOT_FOUND]", " Node.js runtime was not found. ");
    concat(head.as_str(), hint)
}

/// The reason of a start that found no entry script.
pub fn script_missing_reason(checked: &Vec<String>) -> (out: String)
    ensures
        out@ == script_missing_text(texts(checked@)),
{
    let head = concat("Could not find sidecar", " script. Checked: ");
    let paths = list_texts(checked, ", ");
    concat(head.as_str(), paths.as_str())
}

/// The reason of a start whose spawn failed.
pub fn spawn_failed_reason(script: &str, error: &str) -> (out: String)
    ensures
        out@ == spawn_failed_text(script@, error@),
{
    let mut out = concat("Failed to spawn sidecar from \"", script);
    out.append("\": ");
    out.append(error);
    out
}

/// Whether the worker runs.
#[derive(Debug, PartialEq, Eq)]
pub enum SupervisorState {
    /// No start was attempted, or the worker has exited.
    NotStarted,
    /// The worker runs; the host holds its handle.
    Running,
    /// The last start failed, for this reason.
    Failed(String),
}

/// How far a start has come.
#[derive(Debug, PartialEq, Eq)]
pub enum StartPhase {
    /// No start is under way.
    Idle,
    /// The runtime is being looked for.
    AwaitRuntime,
    /// The entry script is being looked for; holds the runtime.
    AwaitScript(String),
    /// The worker is being spawned; holds the script.
    AwaitSpawn(String),
}

/// What happened since the supervisor last said what to do.
#[derive(Debug, PartialEq, Eq)]
pub enum StartEvent {
    /// A start is asked for.
    Requested,
    RuntimeFound(String),
    RuntimeNotFound,
    ScriptFound(String),
    /// No script was found; holds the paths that were checked.
    ScriptNotFound(Vec<String>),
    /// The path of the running executable could not be had.
    ExecutablePathFailed(String),
    /// The running executable has no parent directory.
    NoParentDirectory,
    SpawnSucceeded,
    SpawnFailed(String),
}

/// What the host is to do next for a start.
#[derive(Debug, PartialEq, Eq)]
pub enum StartAction {
    /// The start is over: the worker runs, or the start failed for the
    /// reason given.
    Done(Result<(), String>),
    /// Look for the runtime and report what was found.
    FindRuntime,
    /// Look for the entry script and report what was found.
    FindScript,
    /// Spawn the worker as planned and report how that went.
    Spawn(SpawnPlan),
}

/// The mathematical form of a [`SupervisorState`].
pub enum StateView {
    NotStarted,
    Running,
    Failed(Seq<char>),
}

/// The mathematical form of a [`StartPhase`].
pub enum PhaseView {
    Idle,
    AwaitRuntime,
    AwaitScript(Seq<char>),
    AwaitSpawn(Seq<char>),
}

/// The mathematical form of a [`StartEvent`].
pub enum EventView {
    Requested,
    RuntimeFound(Seq<char>),
    RuntimeNotFound,
    ScriptFound(Seq<char>),
    ScriptNotFound(Seq<Seq<char>>),
    ExecutablePathFailed(Seq<char>),
    NoParentDirectory,
    SpawnSucceeded,
    SpawnFailed(Seq<char>),
}

/// The mathematical form of a [`SpawnPlan`].
pub struct PlanView {
    pub program: Seq<char>,
    pub script: Seq<char>,
    pub env: Seq<(Seq<char>, Seq<char>)>,
    pub hide_console_window: bool,
}

/// The mathematical form of a [`StartAction`].
pub enum ActionView {
    Done(Result<(), Seq<char>>),
    FindRuntime,
    FindScript,
    Spawn(PlanView),
}

impl View for SupervisorState {
    type V = StateView;

    open spec fn view(&self) -> StateView {
        match self {
            SupervisorState::NotStarted => StateView::NotStarted,
            SupervisorState::Running => StateView::Running,
            SupervisorState::Failed(reason) => StateView::Failed(reason@),
        }
    }
}

impl View for StartPhase {
    type V = PhaseView;

    open spec fn view(&self) -> PhaseView {
        match self {
            StartPhase::Idle => PhaseView::Idle,
            StartPhase::AwaitRuntime => PhaseView::AwaitRuntime,
            StartPhase::AwaitScript(runtime) => PhaseView::AwaitScript(runtime@),
            StartPhase::AwaitSpawn(script) => PhaseView::AwaitSpawn(script@),
        }
    }
}

impl View for StartEvent {
    type V = EventView;

    open spec fn view(&self) -> EventView {
        match self {
            StartEvent::Requested => EventView::Requested,
            StartEvent::RuntimeFound(p) => EventView::RuntimeFound(p@),
            StartEvent::RuntimeNotFound => EventView::RuntimeNotFound,
            StartEvent::ScriptFound(p) => EventView::ScriptFound(p@),
            StartEvent::ScriptNotFound(checked) => EventView::ScriptNotFound(texts(checked@)),
            StartEvent::ExecutablePathFailed(e) => EventView::ExecutablePathFailed(e@),
            StartEvent::NoParentDirectory => EventView::NoParentDirectory,
            StartEvent::SpawnSucceeded => EventView::SpawnSucceeded,
            StartEvent::SpawnFailed(e) => EventView::SpawnFailed(e@),
        }
    }
}

impl View for SpawnPlan {
    type V = PlanView;

    open spec fn view(&self) -> PlanView {
        PlanView {
            program: self.program@,
            script: self.script@,
            env: variables_view(self.env@),
            hide_console_window: self.hide_console_window,
        }
    }
}

impl View for StartAction {
    type V = ActionView;

    open spec fn view(&self) -> ActionView {
        match self {
            StartAction::Done(Ok(_)) => ActionView::Done(Ok(())),
            StartAction::Done(Err(reason)) => ActionView::Done(Err(reason@)),
            StartAction::FindRuntime => ActionView::FindRuntime,
            StartAction::FindScript => ActionView::FindScript,
            StartAction::Spawn(plan) => ActionView::Spawn(plan@),
        }
    }
}

/// The state of a supervisor, as a mathematical value.
pub struct ManagerView {
    pub state: StateView,
    pub phase: PhaseView,
    /// The identifier of the last request.
    pub request_id: nat,
}

/// The plan to spawn the worker with `runtime` on `script`.
pub open spec fn spawn_plan(context: StartContext, runtime: Seq<char>, script: Seq<char>) -> PlanView {
    PlanView {
        program: runtime,
        script,
        env: worker_environment(context),
        hide_console_window: context.profile.hide_console_window,
    }
}

impl ManagerView {
    /// The supervisor after a start failed for `reason`, and the action
    /// that says so.
    pub open spec fn failed(self, reason: Seq<char>) -> (ManagerView, ActionView) {
        (
            ManagerView { state: StateView::Failed(reason), phase: PhaseView::Idle, ..self },
            ActionView::Done(Err(reason)),
        )
    }

    /// The supervisor after `event`, and what the host is to do next.
    ///
    /// A start asked for while the worker runs changes nothing and is a
    /// success. Otherwise it begins anew with the search for the runtime,
    /// then the script, then the spawn. The first failure ends the start
    /// and is kept as its reason; a successful spawn makes the worker
    /// running. An event that does not answer the last action changes
    /// nothing and ends the start under way.
    pub open spec fn step(self, context: StartContext, event: EventView) -> (
        ManagerView,
        ActionView,
    ) {
        match (event, self.phase) {
            (EventView::Requested, _) => if self.state is Running {
                (self, ActionView::Done(Ok(())))
            } else {
                (ManagerView { phase: PhaseView::AwaitRuntime, ..self }, ActionView::FindRuntime)
            },
            (EventView::RuntimeFound(runtime), PhaseView::AwaitRuntime) => (
                ManagerView { phase: PhaseView::AwaitScript(runtime), ..self },
                ActionView::FindScript,
            ),
            (EventView::RuntimeNotFound, PhaseView::AwaitRuntime) => self.failed(
                runtime_missing_text(context.profile.platform),
            ),
            (EventView::ScriptFound(script), PhaseView::AwaitScript(runtime)) => (
                ManagerView { phase: PhaseView::AwaitSpawn(script), ..self },
                ActionView::Spawn(spawn_plan(context, runtime, script)),
            ),
            (EventView::ScriptNotFound(checked), PhaseView::AwaitScript(_)) => self.failed(
                script_missing_text(checked),
            ),
            (EventView::ExecutablePathFailed(e), PhaseView::AwaitScript(_)) => self.failed(
                "Failed to get executable path: "@ + e,
            ),
            (EventView::NoParentDirectory, PhaseView::AwaitScript(_)) => self.failed(
                "Failed to get parent directory"@,
            ),
            (EventView::SpawnSucceeded, PhaseView::AwaitSpawn(_)) => (
                ManagerView { state: StateView::Running, phase: PhaseView::Idle, ..self },
                ActionView::Done(Ok(())),
            ),
            (EventView::SpawnFailed(e), PhaseView::AwaitSpawn(script)) => self.failed(
                spawn_failed_text(script, e),
            ),
            _ => (
                ManagerView { phase: PhaseView::Idle, ..self },
                ActionView::Done(Err("Start step out of order"@)),
            ),
        }
    }

    /// The wording with which a call is refused in this state, `None`
    /// where it is not: the "not started" marker, followed by the reason of
    /// the last failed start if there is one; or that no identifier is
    /// left.
    pub open spec fn refusal(self) -> Option<Seq<char>> {
        match self.state {
            StateView::Running => if self.request_id >= u64::MAX {
                Some("Request identifiers exhausted"@)
            } else {
                None
            },
            StateView::NotStarted => Some(not_started_marker()),
            StateView::Failed(reason) => Some(not_started_marker() + ": "@ + reason),
        }
    }

    /// The supervisor after a call: a call that is not refused uses up
    /// the next identifier.
    pub open spec fn after_call(self) -> ManagerView {
        if self.refusal() is None {
            ManagerView { request_id: self.request_id + 1, ..self }
        } else {
            self
        }
    }

    /// The reason why the last start failed, if the supervisor is in that
    /// state.
    pub open spec fn last_error(self) -> Option<Seq<char>> {
        match self.state {
            StateView::Failed(reason) => Some(reason),
            _ => None,
        }
    }
}

/// The supervisor of the worker process.
#[derive(Debug, PartialEq, Eq)]
pub struct SidecarManager {
    state: SupervisorState,
    phase: StartPhase,
    request_id: u64,
}

impl View for SidecarManager {
    type V = ManagerView;

    closed spec fn view(&self) -> ManagerView {
        ManagerView { state: self.state@, phase: self.phase@, request_id: self.request_id as nat }
    }
}

impl SidecarManager {
    /// A supervisor whose worker was not started and that sent no request.
    pub fn new() -> (out: SidecarManager)
        ensures
            out@ == (ManagerView {
                state: StateView::NotStarted,
                phase: PhaseView::Idle,
                request_id: 0,
            }),
    {
        SidecarManager {
            state: SupervisorState::NotStarted,
            phase: StartPhase::Idle,
            request_id: 0,
        }
    }

    /// Whether the worker runs.
    pub fn is_running(&self) -> (r: bool)
        ensures
            r == (self@.state is Running),
    {
        matches!(self.state, SupervisorState::Running)
    }

    /// The reason why the last start failed. A successful start clears it.
    pub fn last_error(&self) -> (out: Option<String>)
        ensures
            opt_text(out) == self@.last_error(),
    {
        match &self.state {
            SupervisorState::Failed(reason) => Some(reason.clone()),
            _ => None,
        }
    }

    /// The identifier of the last request.
    pub fn request_id(&self) -> (id: u64)
        ensures
            id == self@.request_id,
    {
        self.request_id
    }

    /// Records that the worker has exited: it is not running any more, and
    /// is not started again by itself.
    pub fn worker_exited(&mut self)
        ensures
            final(self)@ == (ManagerView {
                state: if old(self)@.state is Running {
                    StateView::NotStarted
                } else {
                    old(self)@.state
                },
                ..old(self)@
            }),
    {
        if matches!(self.state, SupervisorState::Running) {
            self.state = SupervisorState::NotStarted;
        }
    }

    fn fail(&mut self, reason: String) -> (out: StartAction)
        ensures
            (final(self)@, out@) == old(self)@.failed(reason@),
    {
        self.state = SupervisorState::Failed(reason.clone());
        self.phase = StartPhase::Idle;
        StartAction::Done(Err(reason))
    }

    /// Takes one step of starting the worker: takes in `event` and says
    /// what the host is to do next.
    pub fn start(&mut self, context: &StartContext, event: StartEvent) -> (out: StartAction)
        ensures
            (final(self)@, out@) == old(self)@.step(*context, event@),
    {
        let mut phase = StartPhase::Idle;
        std::mem::swap(&mut self.phase, &mut phase);
        match (event, phase) {
            (StartEvent::Requested, before) => {
                if matches!(self.state, SupervisorState::Running) {
                    self.phase = before;
                    StartAction::Done(Ok(()))
                } else {
                    self.phase = StartPhase::AwaitRuntime;
                    StartAction::FindRuntime
                }
            },
            (StartEvent::RuntimeFound(runtime), StartPhase::AwaitRuntime) => {
                self.phase = StartPhase::AwaitScript(runtime);
                StartAction::FindScript
            },
            (StartEvent::RuntimeNotFound, StartPhase::AwaitRuntime) => {
                self.fail(runtime_missing_reason(context.profile.platform))
            },
            (StartEvent::ScriptFound(script), StartPhase::AwaitScript(runtime)) => {
                let plan = SpawnPlan {
                    program: runtime,
                    script: script.clone(),
                    env: build_environment(context),
                    hide_console_window: context.profile.hide_console_window,
                };
                self.phase = StartPhase::AwaitSpawn(script);
                StartAction::Spawn(plan)
            },
            (StartEvent::ScriptNotFound(checked), StartPhase::AwaitScript(_)) => {
                self.fail(script_missing_reason(&checked))
            },
            (StartEvent::ExecutablePathFailed(e), StartPhase::AwaitScript(_)) => {
                self.fail(concat("Failed to get executable path: ", e.as_str()))
            },
            (StartEvent::NoParentDirectory, StartPhase::AwaitScript(_)) => {
                self.fail("Failed to get parent directory".to_owned())
            },
            (StartEvent::SpawnSucceeded, StartPhase::AwaitSpawn(_)) => {
                self.state = SupervisorState::Running;
                StartAction::Done(Ok(()))
            },
            (StartEvent::SpawnFailed(e), StartPhase::AwaitSpawn(script)) => {
                self.fail(spawn_failed_reason(script.as_str(), e.as_str()))
            },
            _ => StartAction::Done(Err("Start step out of order".to_owned())),
        }
    }

    /// Begins a call: gives the line to write to the worker.
    ///
    /// While the worker is not running the call is refused, with the
    /// reason of the last failed start if there is one. Otherwise the
    /// request gets the next identifier, which is never used again, and
    /// the line holds the request and nothing else.
    pub fn call(&mut self, method: &str, params: &JsonValue) -> (out: Result<String, ChannelError>)
        ensures
            final(self)@ == old(self)@.after_call(),
            match old(self)@.refusal() {
                Some(text) => out matches Err(e) && e.text() == text,
                None => out matches Ok(line) && line@ == request_line(
                    final(self)@.request_id,
                    method@,
                    params@,
                ) && is_one_line(line@),
            },
            old(self)@.state !is Running ==> (out matches Err(e) && e is NotStarted),
    {
        match &self.state {
            SupervisorState::Running => {},
            SupervisorState::Failed(reason) => {
                return Err(ChannelError::NotStarted(Some(reason.clone())));
            },
            SupervisorState::NotStarted => {
                return Err(ChannelError::NotStarted(None));
            },
        }
        if self.request_id == u64::MAX {
            return Err(ChannelError::IdentifiersExhausted);
        }
        self.request_id += 1;
        encode_request(self.request_id, method, params)
    }
}

/// Starting twice does not spawn twice: once a spawn has succeeded the
/// worker runs, and a start asked for then is a success that changes
/// nothing and asks for no spawn.
pub proof fn law_start_is_idempotent(manager: ManagerView, context: StartContext)
    requires
        manager.phase is AwaitSpawn,
    ensures
        ({
            let (first, done) = manager.step(context, EventView::SpawnSucceeded);
            &&& first.state is Running
            &&& done == ActionView::Done(Ok(()))
            &&& first.step(context, EventView::Requested) == (first, ActionView::Done(Ok(())))
        }),
{
}

/// A start asked for while the worker runs changes nothing, whatever
/// else is under way, and is a success.
pub proof fn law_running_worker_is_kept(manager: ManagerView, context: StartContext)
    requires
        manager.state is Running,
    ensures
        manager.step(context, EventView::Requested) == (manager, ActionView::Done(Ok(()))),
{
}

/// The state changes only when a start ends. A start that fails leaves
/// the reason that it reports as the last error; a start that succeeds
/// leaves no last error.
pub proof fn law_last_error_follows_start(
    manager: ManagerView,
    context: StartContext,
    event: EventView,
)
    ensures
        ({
            let (next, action) = manager.step(context, event);
            &&& next.state != manager.state ==> action is Done
            &&& next.state != manager.state && action == ActionView::Done(Ok(()))
                ==> next.state is Running && next.last_error() is None
            &&& next.state != manager.state && action != ActionView::Done(Ok(()))
                ==> action == ActionView::Done(Err(next.last_error()->0)) && next.state is Failed
            &&& next.request_id == manager.request_id
        }),
{
}

/// A call made after a start failed for `reason` is refused with a text
/// that holds both the "not started" marker and the reason.
pub proof fn law_refusal_names_the_reason(manager: ManagerView, reason: Seq<char>)
    requires
        manager.state == StateView::Failed(reason),
    ensures
        manager.refusal() is Some,
        has_substring(manager.refusal()->0, not_started_marker()),
        has_substring(manager.refusal()->0, reason),
        manager.after_call() == manager,
{
    let marker = not_started_marker();
    let text = manager.refusal()->0;
    assert(text == marker + ": "@ + reason);
    reveal_strlit(": ");
    assert(text.subrange(0, marker.len() as int) =~= marker);
    assert(occurs_at(text, marker, 0));
    let at: int = marker.len() as int + 2;
    assert(text.subrange(at, at + reason.len()) =~= reason);
    assert(occurs_at(text, reason, at));
}

/// The identifiers of requests only grow: a call that is not refused uses
/// the identifier after the last one.
pub proof fn law_identifiers_grow(manager: ManagerView)
    ensures
        manager.after_call().request_id >= manager.request_id,
        manager.refusal() is None ==> manager.after_call().request_id == manager.request_id + 1,
        manager.after_call().state == manager.state,
{
}

/// The supervisor after `n` calls in a row.
pub open spec fn after_calls(manager: ManagerView, n: nat) -> ManagerView
    decreases n,
{
    if n == 0 {
        manager
    } else {
        after_calls(manager, (n - 1) as nat).after_call()
    }
}

/// Calls are numbered in the order in which they are made: while the
/// worker runs and identifiers are left, the `n`-th call in a row carries
/// the `n`-th identifier after the last one used.
pub proof fn law_calls_are_numbered_in_order(manager: ManagerView, n: nat)
    requires
        manager.state is Running,
        manager.request_id + n <= u64::MAX,
    ensures
        after_calls(manager, n).request_id == manager.request_id + n,
        after_calls(manager, n).state == manager.state,
        after_calls(manager, n).phase == manager.phase,
    decreases n,
{
    if n > 0 {
        law_calls_are_numbered_in_order(manager, (n - 1) as nat);
    }
}

} // verus!
