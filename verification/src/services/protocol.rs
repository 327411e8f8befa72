//! The steps of the start/stop protocol over the parts of the supervisor:
//! the definitions, the status table and the process table. Each step takes
//! only the tables that it reads or changes, so that a caller who guards
//! the two tables separately holds no more than the step needs.

use crate::services::mcp_manager::{
    killed_view, outcome_view, ManagerView, StartDecision, StartDecisionView,
};
use crate::services::tables::{status_in, ManagedProcess, ProcessTable, StatusTable};
use crate::table::{entry_names, lemma_take_one_more, Table};
use crate::types::config::{
    copy_texts, env_map, merged_env, McpConfig, McpServerConfig, McpServerConfigView,
    McpServerStatus, StatusView,
};
use crate::types::errors::{AppError, AppErrorView};
use vstd::prelude::*;

verus! {

/// What `begin_start` answers: an unknown name is refused, a running server
/// is left alone, and any other is to be launched as it is defined, with
/// the overrides written over its environment.
pub open spec fn start_decision_in(
    config: Map<Seq<char>, McpServerConfigView>,
    statuses: Map<Seq<char>, StatusView>,
    name: Seq<char>,
    overrides: Map<Seq<char>, Seq<char>>,
) -> Result<StartDecisionView, AppErrorView> {
    if !config.contains_key(name) {
        Err(AppErrorView::ConfigNotFound { name })
    } else if status_in(statuses, name) == StatusView::Running {
        Ok(StartDecisionView::AlreadyRunning)
    } else {
        Ok(
            StartDecisionView::Launch(
                McpServerConfigView {
                    command: config[name].command,
                    args: config[name].args,
                    env: config[name].env.union_prefer_right(overrides),
                },
            ),
        )
    }
}

/// The status table after `begin_start`: `Starting` for a configured server
/// that does not run, and no change otherwise.
pub open spec fn statuses_after_begin_start(
    config: Map<Seq<char>, McpServerConfigView>,
    statuses: Map<Seq<char>, StatusView>,
    name: Seq<char>,
) -> Map<Seq<char>, StatusView> {
    if config.contains_key(name) && status_in(statuses, name) != StatusView::Running {
        statuses.insert(name, StatusView::Starting)
    } else {
        statuses
    }
}

/// What `begin_stop` answers: the tracked process, or `NotRunning`.
pub open spec fn stop_result_in<H>(
    processes: Map<Seq<char>, ManagedProcess<H>>,
    name: Seq<char>,
) -> Result<ManagedProcess<H>, AppErrorView> {
    if processes.contains_key(name) {
        Ok(processes[name])
    } else {
        Err(AppErrorView::NotRunning { name })
    }
}

/// The failure that `finish_stop` reports for a termination that failed
/// with `message`.
pub open spec fn kill_failure(name: Seq<char>, message: Seq<char>) -> AppErrorView {
    AppErrorView::KillFailure { name, message }
}

/// What `finish_stop` answers to the outcome of the termination.
pub open spec fn stop_outcome(name: Seq<char>, killed: Result<(), Seq<char>>) -> Result<
    (),
    AppErrorView,
> {
    match killed {
        Ok(_) => Ok(()),
        Err(message) => Err(kill_failure(name, message)),
    }
}

/// The status table after `finish_stop`: `Stopped` after a termination,
/// `Failed` with the failure's message after a failure.
pub open spec fn statuses_after_finish_stop(
    statuses: Map<Seq<char>, StatusView>,
    name: Seq<char>,
    killed: Result<(), Seq<char>>,
) -> Map<Seq<char>, StatusView> {
    match killed {
        Ok(_) => statuses.insert(name, StatusView::Stopped),
        Err(message) => statuses.insert(
            name,
            StatusView::Failed(kill_failure(name, message).message()),
        ),
    }
}

/// The status table after `stop_all`: `Stopped` for every name that had a
/// process, and no change for any other.
pub open spec fn statuses_after_stop_all<H>(
    statuses: Map<Seq<char>, StatusView>,
    processes: Map<Seq<char>, ManagedProcess<H>>,
) -> Map<Seq<char>, StatusView> {
    Map::new(
        |n: Seq<char>| statuses.contains_key(n) || processes.contains_key(n),
        |n: Seq<char>|
            if processes.contains_key(n) {
                StatusView::Stopped
            } else {
                statuses[n]
            },
    )
}

/// What `list_servers` reports: the status of every configured name and of
/// no other.
pub open spec fn listing_in(
    config: Map<Seq<char>, McpServerConfigView>,
    statuses: Map<Seq<char>, StatusView>,
) -> Map<Seq<char>, StatusView> {
    Map::new(|n: Seq<char>| config.contains_key(n), |n: Seq<char>| status_in(statuses, n))
}

/// The first step of a start. An unknown name is refused and a running
/// server is left alone, both without any change; otherwise the status
/// becomes `Starting` and the caller is told what to launch.
pub fn begin_start(
    config: &McpConfig,
    statuses: &mut StatusTable,
    name: &str,
    env_overrides: &Table<String>,
) -> (r: Result<StartDecision, AppError>)
    ensures
        final(statuses)@ == statuses_after_begin_start(config@, old(statuses)@, name@),
        match r {
            Ok(d) => start_decision_in(config@, old(statuses)@, name@, env_map(env_overrides@))
                == Ok::<StartDecisionView, AppErrorView>(d@),
            Err(e) => start_decision_in(config@, old(statuses)@, name@, env_map(env_overrides@))
                == Err::<StartDecisionView, AppErrorView>(e@),
        },
{
    let server = match config.mcp_servers.get(name) {
        Some(server) => server,
        None => {
            return Err(AppError::ConfigNotFound { name: name.to_owned() });
        },
    };
    if statuses.get_status(name).is_running() {
        return Ok(StartDecision::AlreadyRunning);
    }
    let launch = McpServerConfig {
        command: server.command.clone(),
        args: copy_texts(&server.args),
        env: merged_env(&server.env, env_overrides),
    };
    statuses.set_status(name, McpServerStatus::Starting);
    Ok(StartDecision::Launch(launch))
}

/// The last step of a start, with the outcome of the launch. A handle is
/// tracked with retry count 0 and the status becomes `Running`; a failure
/// becomes the status `Failed` with the failure's message and is handed
/// back. An unknown name is refused without any change.
pub fn finish_start<H>(
    config: &McpConfig,
    processes: &mut ProcessTable<H>,
    statuses: &mut StatusTable,
    name: &str,
    outcome: Result<H, AppError>,
) -> (r: Result<(), AppError>)
    ensures
        (ManagerView { config: config@, statuses: final(statuses)@, processes: final(processes)@ })
            == (ManagerView {
            config: config@,
            statuses: old(statuses)@,
            processes: old(processes)@,
        }).after_finish_start(name@, outcome_view(outcome)),
        match r {
            Ok(_) => (ManagerView {
                config: config@,
                statuses: old(statuses)@,
                processes: old(processes)@,
            }).finish_start_result(name@, outcome_view(outcome)) == Ok::<(), AppErrorView>(()),
            Err(e) => (ManagerView {
                config: config@,
                statuses: old(statuses)@,
                processes: old(processes)@,
            }).finish_start_result(name@, outcome_view(outcome)) == Err::<(), AppErrorView>(e@),
        },
{
    if !config.mcp_servers.contains_key(name) {
        return Err(AppError::ConfigNotFound { name: name.to_owned() });
    }
    match outcome {
        Ok(handle) => {
            processes.insert_process(name, ManagedProcess { handle, retry_count: 0 });
            statuses.set_status(name, McpServerStatus::Running);
            Ok(())
        },
        Err(e) => {
            let reason = e.to_string();
            statuses.set_status(name, McpServerStatus::Failed(reason));
            Err(e)
        },
    }
}

/// The first step of a stop: takes the process tracked for `name` out of
/// the process table and hands it to the caller, who terminates it. Where
/// none is tracked, nothing changes.
pub fn begin_stop<H>(processes: &mut ProcessTable<H>, name: &str) -> (r: Result<
    ManagedProcess<H>,
    AppError,
>)
    ensures
        final(processes)@ == old(processes)@.remove(name@),
        match r {
            Ok(p) => stop_result_in(old(processes)@, name@) == Ok::<
                ManagedProcess<H>,
                AppErrorView,
            >(p),
            Err(e) => stop_result_in(old(processes)@, name@) == Err::<
                ManagedProcess<H>,
                AppErrorView,
            >(e@) && final(processes)@ == old(processes)@,
        },
{
    match processes.remove_process(name) {
        Some(process) => Ok(process),
        None => {
            assert(processes@ =~= old(processes)@);
            Err(AppError::NotRunning { name: name.to_owned() })
        },
    }
}

/// The last step of a stop, with the outcome of the termination. After a
/// termination the status is `Stopped`. After a failure it is `Failed` with
/// the failure's message, and the failure is handed back.
pub fn finish_stop(statuses: &mut StatusTable, name: &str, killed: Result<(), String>) -> (r:
    Result<(), AppError>)
    ensures
        final(statuses)@ == statuses_after_finish_stop(old(statuses)@, name@, killed_view(killed)),
        match r {
            Ok(_) => stop_outcome(name@, killed_view(killed)) == Ok::<(), AppErrorView>(()),
            Err(e) => stop_outcome(name@, killed_view(killed)) == Err::<(), AppErrorView>(e@),
        },
{
    match killed {
        Ok(_) => {
            statuses.set_status(name, McpServerStatus::Stopped);
            Ok(())
        },
        Err(message) => {
            let e = AppError::KillFailure { name: name.to_owned(), message };
            let reason = e.to_string();
            statuses.set_status(name, McpServerStatus::Failed(reason));
            Err(e)
        },
    }
}

/// Empties the process table and records `Stopped` for every name that had
/// a process. The processes are handed to the caller, who terminates each;
/// whether that succeeds changes nothing here.
pub fn stop_all<H>(processes: &mut ProcessTable<H>, statuses: &mut StatusTable) -> (drained: Vec<
    (String, ManagedProcess<H>),
>)
    ensures
        final(processes)@ == Map::<Seq<char>, ManagedProcess<H>>::empty(),
        final(statuses)@ == statuses_after_stop_all(old(statuses)@, old(processes)@),
        entry_names(drained@).no_duplicates(),
        entry_names(drained@).to_set() == old(processes)@.dom(),
        forall|i: int|
            0 <= i < drained@.len() ==> drained@[i].1 == old(processes)@[#[trigger] entry_names(
                drained@,
            )[i]],
{
    let ghost start = statuses@;
    let ghost held = processes@;
    let drained = processes.drain();
    let ghost names = entry_names(drained@);
    let mut i: usize = 0;
    while i < drained.len()
        invariant
            i <= drained.len(),
            names == entry_names(drained@),
            names.len() == drained@.len(),
            forall|n: Seq<char>| #[trigger]
                statuses@.contains_key(n) <==> (start.contains_key(n) || names.take(
                    i as int,
                ).contains(n)),
            forall|n: Seq<char>| #[trigger]
                statuses@.contains_key(n) ==> statuses@[n] == (if names.take(i as int).contains(
                    n,
                ) {
                    StatusView::Stopped
                } else {
                    start[n]
                }),
        decreases drained.len() - i,
    {
        let ghost before = statuses@;
        assert(names[i as int] == drained@[i as int].0@);
        statuses.set_status(drained[i].0.as_str(), McpServerStatus::Stopped);
        proof {
            let now = statuses@;
            assert(now == before.insert(names[i as int], StatusView::Stopped));
            assert forall|n: Seq<char>| #[trigger]
                now.contains_key(n) <==> (start.contains_key(n) || names.take(
                    i as int + 1,
                ).contains(n)) by {
                lemma_take_one_more(names, i as int, n);
                assert(before.contains_key(n) <==> (start.contains_key(n) || names.take(
                    i as int,
                ).contains(n)));
            }
            assert forall|n: Seq<char>| #[trigger] now.contains_key(n) implies now[n] == (
            if names.take(i as int + 1).contains(n) {
                StatusView::Stopped
            } else {
                start[n]
            }) by {
                lemma_take_one_more(names, i as int, n);
                if n != names[i as int] {
                    assert(before.contains_key(n));
                    assert(now[n] == before[n]);
                } else {
                    assert(now[n] == StatusView::Stopped);
                }
            }
        }
        i += 1;
    }
    proof {
        assert(names.take(drained@.len() as int) =~= names);
        assert forall|n: Seq<char>| held.contains_key(n) <==> names.contains(n) by {
            assert(names.to_set().contains(n) <==> names.contains(n));
        }
        assert(statuses@ =~= statuses_after_stop_all(start, held));
    }
    drained
}

/// The status of every configured server, and of no other name: what the
/// status table records for it, or `Stopped` where it records nothing.
pub fn list_servers(config: &McpConfig, statuses: &StatusTable) -> (listing: Table<
    McpServerStatus,
>)
    ensures
        listing@.map_values(|s: McpServerStatus| s@) == listing_in(config@, statuses@),
        forall|n: Seq<char>|
            config@.contains_key(n) && !statuses@.contains_key(n) ==> #[trigger] listing@.contains_key(
                n,
            ) && listing@[n]@ == StatusView::Stopped,
{
    let mut listing: Table<McpServerStatus> = Table::new();
    let n = config.mcp_servers.len();
    let ghost names = config.mcp_servers.names();
    let mut i: usize = 0;
    while i < n
        invariant
            i <= n,
            n == names.len(),
            names == config.mcp_servers.names(),
            forall|k: Seq<char>| #[trigger]
                listing@.contains_key(k) <==> names.take(i as int).contains(k),
            forall|k: Seq<char>| #[trigger]
                listing@.contains_key(k) ==> listing@[k]@ == status_in(statuses@, k),
        decreases n - i,
    {
        let name = config.mcp_servers.name_at(i);
        let status = statuses.get_status(name.as_str());
        proof {
            assert forall|k: Seq<char>|
                names.take(i as int + 1).contains(k) <==> (names.take(i as int).contains(k) || k
                    == names[i as int]) by {
                lemma_take_one_more(names, i as int, k);
            }
        }
        listing.insert(name.clone(), status);
        i += 1;
    }
    proof {
        assert(names.take(n as int) =~= names);
        assert forall|k: Seq<char>| config@.contains_key(k) <==> names.contains(k) by {
            assert(names.to_set().contains(k) <==> names.contains(k));
        }
        assert(listing@.map_values(|s: McpServerStatus| s@) =~= listing_in(config@, statuses@));
    }
    listing
}

} // verus!
