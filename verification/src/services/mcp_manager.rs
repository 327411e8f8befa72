//! The supervisor of the configured servers: which are starting, running,
//! stopped or failed, and which processes it tracks.
//!
//! The supervisor itself neither launches nor terminates a process. Each
//! operation is a step on its state: the caller performs the outside work
//! between two steps and hands the outcome to the next one. The steps are
//! those of `protocol`, applied to the supervisor's own tables.

use crate::services::protocol;
use crate::services::tables::{status_in, ManagedProcess, ProcessTable, StatusTable};
use crate::table::{entry_names, Table};
use crate::types::config::{
    env_map, texts, McpConfig, McpServerConfig, McpServerConfigView, McpServerStatus, StatusView,
};
use crate::types::errors::{AppError, AppErrorView};
use vstd::prelude::*;

verus! {

/// What `begin_start` tells the caller to do.
#[derive(Debug)]
pub enum StartDecision {
    /// The server runs already: nothing is to be launched.
    AlreadyRunning,
    /// Launch the server as given here: its definition, with the overrides
    /// written over its environment.
    Launch(McpServerConfig),
}

/// A `StartDecision` with its launch definition as a view.
pub enum StartDecisionView {
    AlreadyRunning,
    Launch(McpServerConfigView),
}

impl View for StartDecision {
    type V = StartDecisionView;

    open spec fn view(&self) -> StartDecisionView {
        match self {
            StartDecision::AlreadyRunning => StartDecisionView::AlreadyRunning,
            StartDecision::Launch(c) => StartDecisionView::Launch(c@),
        }
    }
}

/// The supervisor's state as three maps by server name.
#[verifier::ext_equal]
pub struct ManagerView<H> {
    /// The definitions, fixed at construction.
    pub config: Map<Seq<char>, McpServerConfigView>,
    /// The status table. A name without an entry counts as stopped.
    pub statuses: Map<Seq<char>, StatusView>,
    /// The process table.
    pub processes: Map<Seq<char>, ManagedProcess<H>>,
}

impl<H> ManagerView<H> {
    /// The status of `name`: its entry, or `Stopped` where it has none.
    pub open spec fn status_of(self, name: Seq<char>) -> StatusView {
        status_in(self.statuses, name)
    }

    /// This state with the status of `name` set.
    pub open spec fn with_status(self, name: Seq<char>, status: StatusView) -> Self {
        ManagerView { statuses: self.statuses.insert(name, status), ..self }
    }

    /// Whether every server whose status is `Running` has a tracked process.
    pub open spec fn running_are_tracked(self) -> bool {
        forall|n: Seq<char>|
            self.status_of(n) == StatusView::Running ==> #[trigger] self.processes.contains_key(n)
    }

    /// Whether every server that has a tracked process has the status `Running`.
    pub open spec fn tracked_are_running(self) -> bool {
        forall|n: Seq<char>| #[trigger]
            self.processes.contains_key(n) ==> self.status_of(n) == StatusView::Running
    }

    /// What `list_servers` reports: the status of every configured name and
    /// of no other.
    pub open spec fn listing(self) -> Map<Seq<char>, StatusView> {
        protocol::listing_in(self.config, self.statuses)
    }

    /// What `begin_start` answers.
    pub open spec fn start_decision(
        self,
        name: Seq<char>,
        overrides: Map<Seq<char>, Seq<char>>,
    ) -> Result<StartDecisionView, AppErrorView> {
        protocol::start_decision_in(self.config, self.statuses, name, overrides)
    }

    /// The state after `begin_start`.
    pub open spec fn after_begin_start(self, name: Seq<char>) -> Self {
        ManagerView {
            statuses: protocol::statuses_after_begin_start(self.config, self.statuses, name),
            ..self
        }
    }

    /// What `finish_start` answers to the outcome of the launch.
    pub open spec fn finish_start_result(
        self,
        name: Seq<char>,
        outcome: Result<H, AppErrorView>,
    ) -> Result<(), AppErrorView> {
        if !self.config.contains_key(name) {
            Err(AppErrorView::ConfigNotFound { name })
        } else {
            match outcome {
                Ok(_) => Ok(()),
                Err(e) => Err(e),
            }
        }
    }

    /// The state after `finish_start`.
    pub open spec fn after_finish_start(
        self,
        name: Seq<char>,
        outcome: Result<H, AppErrorView>,
    ) -> Self {
        if !self.config.contains_key(name) {
            self
        } else {
            match outcome {
                Ok(handle) => ManagerView {
                    config: self.config,
                    statuses: self.statuses.insert(name, StatusView::Running),
                    processes: self.processes.insert(
                        name,
                        ManagedProcess { handle, retry_count: 0 },
                    ),
                },
                Err(e) => self.with_status(name, StatusView::Failed(e.message())),
            }
        }
    }

    /// What `begin_stop` answers.
    pub open spec fn stop_result(self, name: Seq<char>) -> Result<
        ManagedProcess<H>,
        AppErrorView,
    > {
        protocol::stop_result_in(self.processes, name)
    }

    /// The state after `begin_stop`.
    pub open spec fn after_begin_stop(self, name: Seq<char>) -> Self {
        ManagerView { processes: self.processes.remove(name), ..self }
    }

    /// The failure that `finish_stop` reports for a termination that failed
    /// with `message`.
    pub open spec fn kill_failure(name: Seq<char>, message: Seq<char>) -> AppErrorView {
        protocol::kill_failure(name, message)
    }

    /// What `finish_stop` answers to the outcome of the termination.
    pub open spec fn finish_stop_result(name: Seq<char>, killed: Result<(), Seq<char>>) -> Result<
        (),
        AppErrorView,
    > {
        protocol::stop_outcome(name, killed)
    }

    /// The state after `finish_stop`.
    pub open spec fn after_finish_stop(
        self,
        name: Seq<char>,
        killed: Result<(), Seq<char>>,
    ) -> Self {
        ManagerView {
            statuses: protocol::statuses_after_finish_stop(self.statuses, name, killed),
            ..self
        }
    }

    /// The state after `stop_all`: no process is tracked, and every name that
    /// had one is stopped.
    pub open spec fn after_stop_all(self) -> Self {
        ManagerView {
            config: self.config,
            statuses: protocol::statuses_after_stop_all(self.statuses, self.processes),
            processes: Map::empty(),
        }
    }
}

/// The outcome of a launch with its failure as a view.
pub open spec fn outcome_view<H>(outcome: Result<H, AppError>) -> Result<H, AppErrorView> {
    match outcome {
        Ok(handle) => Ok(handle),
        Err(e) => Err(e@),
    }
}

/// The outcome of a termination with its message as a sequence of characters.
pub open spec fn killed_view(killed: Result<(), String>) -> Result<(), Seq<char>> {
    match killed {
        Ok(_) => Ok(()),
        Err(message) => Err(message@),
    }
}

/// The supervisor: the definitions, the process table and the status table.
#[derive(Debug)]
pub struct McpManager<H> {
    config: McpConfig,
    processes: ProcessTable<H>,
    statuses: StatusTable,
}

impl<H> View for McpManager<H> {
    type V = ManagerView<H>;

    closed spec fn view(&self) -> ManagerView<H> {
        ManagerView {
            config: self.config@,
            statuses: self.statuses@,
            processes: self.processes@,
        }
    }
}

impl<H> McpManager<H> {
    /// A supervisor of the servers that `config` defines. Nothing is tracked
    /// and no status is recorded.
    pub fn new(config: McpConfig) -> (manager: Self)
        ensures
            manager@.running_are_tracked(),
            manager@.tracked_are_running(),
            manager@.config == config@,
            manager@.statuses == Map::<Seq<char>, StatusView>::empty(),
            manager@.processes == Map::<Seq<char>, ManagedProcess<H>>::empty(),
    {
        McpManager { config, processes: ProcessTable::new(), statuses: StatusTable::new() }
    }

    /// The status of `name`: what the status table records, or `Stopped`.
    pub fn status(&self, name: &str) -> (status: McpServerStatus)
        ensures
            status@ == self@.status_of(name@),
    {
        self.statuses.get_status(name)
    }

    /// Whether a process is tracked for `name`.
    pub fn is_tracked(&self, name: &str) -> (r: bool)
        ensures
            r == self@.processes.contains_key(name@),
    {
        self.processes.get_process(name).is_some()
    }

    /// The retry count of the process tracked for `name`.
    pub fn retry_count(&self, name: &str) -> (r: Option<u32>)
        ensures
            r == if self@.processes.contains_key(name@) {
                Some(self@.processes[name@].retry_count)
            } else {
                None::<u32>
            },
    {
        match self.processes.get_process(name) {
            Some(p) => Some(p.retry_count),
            None => None,
        }
    }

    /// The definitions that the supervisor was made with.
    pub fn config(&self) -> (config: &McpConfig)
        ensures
            self@.config == config@,
    {
        &self.config
    }

    /// The names of the configured servers, each once.
    pub fn server_names(&self) -> (names: Vec<String>)
        ensures
            texts(names@).no_duplicates(),
            texts(names@).to_set() == self@.config.dom(),
    {
        let n = self.config.mcp_servers.len();
        let mut names: Vec<String> = Vec::new();
        let mut i: usize = 0;
        while i < n
            invariant
                i <= n,
                n == self.config.mcp_servers.names().len(),
                names@.len() == i,
                forall|j: int| 0 <= j < i ==> names@[j]@ == self.config.mcp_servers.names()[j],
            decreases n - i,
        {
            names.push(self.config.mcp_servers.name_at(i).clone());
            i += 1;
        }
        proof {
            assert(texts(names@) =~= self.config.mcp_servers.names());
            assert(self@.config.dom() =~= self.config.mcp_servers@.dom());
        }
        names
    }

    /// The number of tracked processes.
    pub fn process_count(&self) -> (n: usize)
        ensures
            self@.processes.dom().finite(),
            n == self@.processes.dom().len(),
    {
        self.processes.len()
    }

    /// The first step of a start. An unknown name is refused and a running
    /// server is left alone, both without any change; otherwise the status
    /// becomes `Starting` and the caller is told what to launch.
    pub fn begin_start(&mut self, name: &str, env_overrides: &Table<String>) -> (r: Result<
        StartDecision,
        AppError,
    >)
        ensures
            final(self)@ == old(self)@.after_begin_start(name@),
            match r {
                Ok(d) => old(self)@.start_decision(name@, env_map(env_overrides@)) == Ok::<
                    StartDecisionView,
                    AppErrorView,
                >(d@),
                Err(e) => old(self)@.start_decision(name@, env_map(env_overrides@)) == Err::<
                    StartDecisionView,
                    AppErrorView,
                >(e@),
            },
            !old(self)@.config.contains_key(name@) ==> final(self)@ == old(self)@ && r is Err,
            old(self)@.config.contains_key(name@) && old(self)@.status_of(name@)
                == StatusView::Running ==> final(self)@ == old(self)@ && r is Ok,
    {
        protocol::begin_start(&self.config, &mut self.statuses, name, env_overrides)
    }

    /// The last step of a start, with the outcome of the launch. A handle is
    /// tracked with retry count 0 and the status becomes `Running`; a failure
    /// becomes the status `Failed` with the failure's message and is handed
    /// back. An unknown name is refused without any change.
    pub fn finish_start(&mut self, name: &str, outcome: Result<H, AppError>) -> (r: Result<
        (),
        AppError,
    >)
        ensures
            final(self)@ == old(self)@.after_finish_start(name@, outcome_view(outcome)),
            match r {
                Ok(_) => old(self)@.finish_start_result(name@, outcome_view(outcome)) == Ok::<
                    (),
                    AppErrorView,
                >(()),
                Err(e) => old(self)@.finish_start_result(name@, outcome_view(outcome)) == Err::<
                    (),
                    AppErrorView,
                >(e@),
            },
    {
        protocol::finish_start(&self.config, &mut self.processes, &mut self.statuses, name, outcome)
    }

    /// The first step of a stop: takes the process tracked for `name` out of
    /// the process table and hands it to the caller, who terminates it.
    /// Where none is tracked, nothing changes.
    pub fn begin_stop(&mut self, name: &str) -> (r: Result<ManagedProcess<H>, AppError>)
        ensures
            final(self)@ == old(self)@.after_begin_stop(name@),
            final(self)@.statuses == old(self)@.statuses,
            match r {
                Ok(p) => old(self)@.stop_result(name@) == Ok::<ManagedProcess<H>, AppErrorView>(p),
                Err(e) => old(self)@.stop_result(name@) == Err::<ManagedProcess<H>, AppErrorView>(
                    e@,
                ) && final(self)@ == old(self)@,
            },
    {
        protocol::begin_stop(&mut self.processes, name)
    }

    /// The last step of a stop, with the outcome of the termination. After a
    /// termination the status is `Stopped`. After a failure it is `Failed`
    /// with the failure's message, and the failure is handed back.
    pub fn finish_stop(&mut self, name: &str, killed: Result<(), String>) -> (r: Result<
        (),
        AppError,
    >)
        ensures
            final(self)@ == old(self)@.after_finish_stop(name@, killed_view(killed)),
            match r {
                Ok(_) => ManagerView::<H>::finish_stop_result(name@, killed_view(killed)) == Ok::<
                    (),
                    AppErrorView,
                >(()),
                Err(e) => ManagerView::<H>::finish_stop_result(name@, killed_view(killed)) == Err::<
                    (),
                    AppErrorView,
                >(e@),
            },
    {
        protocol::finish_stop(&mut self.statuses, name, killed)
    }

    /// Empties the process table and records `Stopped` for every name that
    /// had a process. The processes are handed to the caller, who terminates
    /// each; whether that succeeds changes nothing here.
    pub fn stop_all(&mut self) -> (drained: Vec<(String, ManagedProcess<H>)>)
        ensures
            final(self)@ == old(self)@.after_stop_all(),
            entry_names(drained@).no_duplicates(),
            entry_names(drained@).to_set() == old(self)@.processes.dom(),
            forall|i: int|
                0 <= i < drained@.len() ==> drained@[i].1 == old(self)@.processes[#[trigger] entry_names(
                    drained@,
                )[i]],
    {
        protocol::stop_all(&mut self.processes, &mut self.statuses)
    }

    /// The status of every configured server, and of no other name: what the
    /// status table records for it, or `Stopped` where it records nothing.
    pub fn list_servers(&self) -> (listing: Table<McpServerStatus>)
        ensures
            listing@.map_values(|s: McpServerStatus| s@) == self@.listing(),
            forall|n: Seq<char>|
                self@.config.contains_key(n) && !self@.statuses.contains_key(n)
                    ==> #[trigger] listing@.contains_key(n) && listing@[n]@ == StatusView::Stopped,
    {
        protocol::list_servers(&self.config, &self.statuses)
    }
}

/// A start whose every attempt failed leaves the status `Failed` with the
/// message of the failure, and hands that failure back.
pub proof fn law_failed_start_is_recorded<H>(m: ManagerView<H>, name: Seq<char>, e: AppErrorView)
    requires
        m.config.contains_key(name),
    ensures
        m.after_finish_start(name, Err(e)).status_of(name) == StatusView::Failed(e.message()),
        m.after_finish_start(name, Err(e)).processes == m.processes,
        m.finish_start_result(name, Err(e)) == Err::<(), AppErrorView>(e),
{
}

/// A launch that succeeded leaves the status `Running` and one tracked
/// process with retry count 0, whatever the status was before.
pub proof fn law_started_server_is_running<H>(m: ManagerView<H>, name: Seq<char>, handle: H)
    requires
        m.config.contains_key(name),
    ensures
        m.after_finish_start(name, Ok(handle)).status_of(name) == StatusView::Running,
        m.after_finish_start(name, Ok(handle)).processes.contains_key(name),
        m.after_finish_start(name, Ok(handle)).processes[name] == (ManagedProcess {
            handle,
            retry_count: 0,
        }),
        m.finish_start_result(name, Ok(handle)) == Ok::<(), AppErrorView>(()),
{
}

/// A start of a configured server that does not run sets `Starting`; so a
/// failed server is started again, and only a running one is left alone.
pub proof fn law_start_retries_unless_running<H>(
    m: ManagerView<H>,
    name: Seq<char>,
    overrides: Map<Seq<char>, Seq<char>>,
)
    requires
        m.config.contains_key(name),
    ensures
        m.status_of(name) == StatusView::Running ==> m.after_begin_start(name) == m
            && m.start_decision(name, overrides) == Ok::<StartDecisionView, AppErrorView>(
            StartDecisionView::AlreadyRunning,
        ),
        m.status_of(name) != StatusView::Running ==> m.after_begin_start(name).status_of(name)
            == StatusView::Starting && m.start_decision(name, overrides) is Ok && m.start_decision(
            name,
            overrides,
        )->Ok_0 is Launch,
        m.after_begin_start(name).processes == m.processes,
        m.after_begin_start(name).config == m.config,
{
}

/// Stopping a tracked server takes its process out and, once it is
/// terminated, leaves the status `Stopped`. A second stop right after finds
/// nothing to stop and changes nothing.
pub proof fn law_stop_then_stop_again<H>(m: ManagerView<H>, name: Seq<char>)
    requires
        m.processes.contains_key(name),
    ensures
        m.stop_result(name) == Ok::<ManagedProcess<H>, AppErrorView>(m.processes[name]),
        ({
            let stopped = m.after_begin_stop(name).after_finish_stop(name, Ok(()));
            &&& !stopped.processes.contains_key(name)
            &&& stopped.status_of(name) == StatusView::Stopped
            &&& stopped.stop_result(name) == Err::<ManagedProcess<H>, AppErrorView>(
                AppErrorView::NotRunning { name },
            )
            &&& stopped.after_begin_stop(name) == stopped
        }),
{
    let stopped = m.after_begin_stop(name).after_finish_stop(name, Ok(()));
    assert(stopped.after_begin_stop(name).processes =~= stopped.processes);
}

/// A termination that failed never leaves the old status behind: the status
/// becomes `Failed` with the failure's message.
pub proof fn law_kill_failure_is_recorded<H>(m: ManagerView<H>, name: Seq<char>, message: Seq<char>)
    ensures
        m.after_finish_stop(name, Err(message)).status_of(name) == StatusView::Failed(
            ManagerView::<H>::kill_failure(name, message).message(),
        ),
        ManagerView::<H>::finish_stop_result(name, Err(message)) == Err::<(), AppErrorView>(
            AppErrorView::KillFailure { name, message },
        ),
{
}

/// After `stop_all` no process is tracked, every name that had a process is
/// `Stopped`, and every other name has the status it had.
pub proof fn law_stop_all_drains<H>(m: ManagerView<H>, name: Seq<char>)
    ensures
        !m.after_stop_all().processes.contains_key(name),
        m.after_stop_all().config == m.config,
        m.processes.contains_key(name) ==> m.after_stop_all().status_of(name)
            == StatusView::Stopped,
        !m.processes.contains_key(name) ==> m.after_stop_all().status_of(name) == m.status_of(
            name,
        ),
{
}

/// The listing holds exactly the configured names, and a configured name
/// without an entry in the status table is listed as `Stopped`.
pub proof fn law_listing_defaults_to_stopped<H>(m: ManagerView<H>, name: Seq<char>)
    ensures
        m.listing().contains_key(name) <==> m.config.contains_key(name),
        m.config.contains_key(name) && !m.statuses.contains_key(name) ==> m.listing()[name]
            == StatusView::Stopped,
        m.config.contains_key(name) && m.statuses.contains_key(name) ==> m.listing()[name]
            == m.statuses[name],
{
}

/// No step changes the definitions: they are what the supervisor was made with.
pub proof fn law_config_is_fixed<H>(
    m: ManagerView<H>,
    name: Seq<char>,
    outcome: Result<H, AppErrorView>,
    killed: Result<(), Seq<char>>,
)
    ensures
        m.after_begin_start(name).config == m.config,
        m.after_finish_start(name, outcome).config == m.config,
        m.after_begin_stop(name).config == m.config,
        m.after_finish_stop(name, killed).config == m.config,
        m.after_stop_all().config == m.config,
{
}

/// A supervisor in which every running server is tracked stays so: after
/// either step of a start, after a whole stop, and after `stop_all`. So a
/// start of a running server finds its one process and leaves it there.
pub proof fn law_running_servers_stay_tracked<H>(
    m: ManagerView<H>,
    name: Seq<char>,
    outcome: Result<H, AppErrorView>,
    killed: Result<(), Seq<char>>,
)
    requires
        m.running_are_tracked(),
    ensures
        m.after_begin_start(name).running_are_tracked(),
        m.after_finish_start(name, outcome).running_are_tracked(),
        m.after_begin_stop(name).after_finish_stop(name, killed).running_are_tracked(),
        m.after_stop_all().running_are_tracked(),
        m.status_of(name) == StatusView::Running ==> m.processes.contains_key(name)
            && m.after_begin_start(name).processes.contains_key(name),
{
    let started = m.after_begin_start(name);
    assert forall|n: Seq<char>| started.status_of(n) == StatusView::Running implies #[trigger]
        started.processes.contains_key(n) by {
        assert(m.status_of(n) == StatusView::Running);
        assert(m.processes.contains_key(n));
    }
    let finished = m.after_finish_start(name, outcome);
    assert forall|n: Seq<char>| finished.status_of(n) == StatusView::Running implies #[trigger]
        finished.processes.contains_key(n) by {
        if n != name || !m.config.contains_key(name) {
            assert(m.status_of(n) == StatusView::Running);
            assert(m.processes.contains_key(n));
        }
    }
    let stopped = m.after_begin_stop(name).after_finish_stop(name, killed);
    assert forall|n: Seq<char>| stopped.status_of(n) == StatusView::Running implies #[trigger]
        stopped.processes.contains_key(n) by {
        assert(n != name);
        assert(m.status_of(n) == StatusView::Running);
        assert(m.processes.contains_key(n));
    }
    let drained = m.after_stop_all();
    assert forall|n: Seq<char>| drained.status_of(n) == StatusView::Running implies #[trigger]
        drained.processes.contains_key(n) by {
        if !m.processes.contains_key(n) {
            assert(m.status_of(n) == StatusView::Running);
        }
    }
    if m.status_of(name) == StatusView::Running {
        assert(m.processes.contains_key(name));
    }
}

/// A supervisor in which every tracked server is running stays so: after a
/// whole start of a server that did not run, whatever the launch gave,
/// after either step of a stop, and after `stop_all`.
pub proof fn law_tracked_servers_stay_running<H>(
    m: ManagerView<H>,
    name: Seq<char>,
    outcome: Result<H, AppErrorView>,
    killed: Result<(), Seq<char>>,
)
    requires
        m.tracked_are_running(),
    ensures
        m.after_begin_start(name).tracked_are_running(),
        m.status_of(name) != StatusView::Running ==> m.after_begin_start(name).after_finish_start(
            name,
            outcome,
        ).tracked_are_running(),
        m.after_begin_stop(name).tracked_are_running(),
        m.after_begin_stop(name).after_finish_stop(name, killed).tracked_are_running(),
        m.after_stop_all().tracked_are_running(),
{
    let begun = m.after_begin_start(name);
    assert forall|n: Seq<char>| #[trigger] begun.processes.contains_key(n) implies begun.status_of(
        n,
    ) == StatusView::Running by {
        assert(m.processes.contains_key(n));
    }
    if m.status_of(name) != StatusView::Running {
        let started = begun.after_finish_start(name, outcome);
        assert forall|n: Seq<char>| #[trigger]
            started.processes.contains_key(n) implies started.status_of(n)
            == StatusView::Running by {
            if n != name {
                assert(m.processes.contains_key(n));
            } else if !m.config.contains_key(name) {
                assert(m.processes.contains_key(n));
            } else if outcome is Err {
                assert(m.processes.contains_key(n));
            }
        }
    }
    let taken = m.after_begin_stop(name);
    assert forall|n: Seq<char>| #[trigger] taken.processes.contains_key(n) implies taken.status_of(
        n,
    ) == StatusView::Running by {
        assert(m.processes.contains_key(n));
    }
    let stopped = taken.after_finish_stop(name, killed);
    assert forall|n: Seq<char>| #[trigger]
        stopped.processes.contains_key(n) implies stopped.status_of(n) == StatusView::Running by {
        assert(n != name);
        assert(m.processes.contains_key(n));
    }
}

/// A start of a configured server that does not run, whose launch failed
/// with `e`: the caller was told to launch, the failure is handed back, the
/// status is `Failed` with the failure's message, and no process is tracked
/// for the server, provided that every tracked server was running before.
pub proof fn law_failed_start_leaves_nothing_tracked<H>(
    m: ManagerView<H>,
    name: Seq<char>,
    overrides: Map<Seq<char>, Seq<char>>,
    e: AppErrorView,
)
    requires
        m.config.contains_key(name),
        m.tracked_are_running(),
        m.status_of(name) != StatusView::Running,
    ensures
        m.start_decision(name, overrides) is Ok,
        m.start_decision(name, overrides)->Ok_0 is Launch,
        m.after_begin_start(name).finish_start_result(name, Err(e)) == Err::<(), AppErrorView>(e),
        ({
            let failed = m.after_begin_start(name).after_finish_start(name, Err(e));
            &&& failed.status_of(name) == StatusView::Failed(e.message())
            &&& !failed.processes.contains_key(name)
            &&& failed.processes == m.processes
            &&& failed.tracked_are_running()
        }),
{
    law_tracked_servers_stay_running(m, name, Err(e), Ok(()));
    if m.processes.contains_key(name) {
        assert(m.status_of(name) == StatusView::Running);
    }
}

} // verus!
