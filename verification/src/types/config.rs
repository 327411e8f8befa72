//! Server definitions and the status reported for each.

use crate::table::{lemma_take_one_more, Table};
use vstd::prelude::*;

verus! {

/// The texts that a list of strings holds, in order.
pub open spec fn texts(items: Seq<String>) -> Seq<Seq<char>> {
    items.map_values(|s: String| s@)
}

/// An environment as a map from variable names to their values.
pub open spec fn env_map(env: Map<Seq<char>, String>) -> Map<Seq<char>, Seq<char>> {
    env.map_values(|s: String| s@)
}

/// A copy of a list of strings.
pub fn copy_texts(items: &Vec<String>) -> (r: Vec<String>)
    ensures
        texts(r@) == texts(items@),
{
    let mut r: Vec<String> = Vec::new();
    let mut i: usize = 0;
    while i < items.len()
        invariant
            i <= items.len(),
            r@.len() == i,
            forall|j: int| 0 <= j < i ==> r@[j]@ == items@[j]@,
        decreases items.len() - i,
    {
        r.push(items[i].clone());
        i += 1;
    }
    assert(texts(r@) =~= texts(items@));
    r
}

/// Writes every variable of `over` into `env`: a name that both hold gets
/// the value from `over`, every other name keeps its value.
pub fn overlay(env: &mut Table<String>, over: &Table<String>)
    ensures
        env_map(final(env)@) == env_map(old(env)@).union_prefer_right(env_map(over@)),
{
    let ghost start = env@;
    let n = over.len();
    let mut i: usize = 0;
    while i < n
        invariant
            i <= n,
            n == over.names().len(),
            over.names().to_set() == over@.dom(),
            forall|k: Seq<char>| #[trigger]
                env@.contains_key(k) <==> (start.contains_key(k) || over.names().take(
                    i as int,
                ).contains(k)),
            forall|k: Seq<char>| #[trigger]
                env@.contains_key(k) ==> env@[k]@ == (if over.names().take(i as int).contains(k) {
                    over@[k]@
                } else {
                    start[k]@
                }),
        decreases n - i,
    {
        let name = over.name_at(i).clone();
        let value = over.value_at(i).clone();
        proof {
            assert forall|k: Seq<char>|
                over.names().take(i as int + 1).contains(k) <==> (over.names().take(
                    i as int,
                ).contains(k) || k == over.names()[i as int]) by {
                lemma_take_one_more(over.names(), i as int, k);
            }
        }
        env.insert(name, value);
        i += 1;
    }
    proof {
        assert(over.names().take(n as int) =~= over.names());
        assert forall|k: Seq<char>| over@.contains_key(k) <==> over.names().contains(k) by {
            assert(over.names().to_set().contains(k) <==> over.names().contains(k));
        }
        assert(env_map(env@) =~= env_map(start).union_prefer_right(env_map(over@)));
    }
}

/// A copy of an environment.
pub fn copy_env(env: &Table<String>) -> (r: Table<String>)
    ensures
        env_map(r@) == env_map(env@),
{
    let mut r: Table<String> = Table::new();
    overlay(&mut r, env);
    assert(env_map(r@) =~= env_map(env@));
    r
}

/// The environment of a launch: `base` with `overrides` written over it.
pub fn merged_env(base: &Table<String>, overrides: &Table<String>) -> (r: Table<String>)
    ensures
        env_map(r@) == env_map(base@).union_prefer_right(env_map(overrides@)),
{
    let mut r = copy_env(base);
    overlay(&mut r, overrides);
    r
}

/// How to launch one server.
#[derive(Debug)]
pub struct McpServerConfig {
    pub command: String,
    pub args: Vec<String>,
    pub env: Table<String>,
}

/// What a server definition says.
pub struct McpServerConfigView {
    pub command: Seq<char>,
    pub args: Seq<Seq<char>>,
    pub env: Map<Seq<char>, Seq<char>>,
}

impl View for McpServerConfig {
    type V = McpServerConfigView;

    open spec fn view(&self) -> McpServerConfigView {
        McpServerConfigView {
            command: self.command@,
            args: texts(self.args@),
            env: env_map(self.env@),
        }
    }
}

impl Clone for McpServerConfig {
    fn clone(&self) -> (r: Self)
        ensures
            r@ == self@,
    {
        McpServerConfig {
            command: self.command.clone(),
            args: copy_texts(&self.args),
            env: copy_env(&self.env),
        }
    }
}

/// The configured servers by name.
#[derive(Debug)]
pub struct McpConfig {
    pub mcp_servers: Table<McpServerConfig>,
}

impl View for McpConfig {
    type V = Map<Seq<char>, McpServerConfigView>;

    open spec fn view(&self) -> Map<Seq<char>, McpServerConfigView> {
        self.mcp_servers@.map_values(|c: McpServerConfig| c@)
    }
}

impl Default for McpConfig {
    fn default() -> (r: Self)
        ensures
            r@ == Map::<Seq<char>, McpServerConfigView>::empty(),
    {
        let r = McpConfig { mcp_servers: Table::new() };
        assert(r@ =~= Map::<Seq<char>, McpServerConfigView>::empty());
        r
    }
}

/// Where a server stands in its life cycle.
#[derive(Debug, PartialEq, Eq)]
pub enum McpServerStatus {
    Stopped,
    Starting,
    Running,
    /// The last start or stop failed; the text says why.
    Failed(String),
}

/// A status with its reason as a sequence of characters.
pub enum StatusView {
    Stopped,
    Starting,
    Running,
    Failed(Seq<char>),
}

impl View for McpServerStatus {
    type V = StatusView;

    open spec fn view(&self) -> StatusView {
        match self {
            McpServerStatus::Stopped => StatusView::Stopped,
            McpServerStatus::Starting => StatusView::Starting,
            McpServerStatus::Running => StatusView::Running,
            McpServerStatus::Failed(reason) => StatusView::Failed(reason@),
        }
    }
}

impl Clone for McpServerStatus {
    fn clone(&self) -> (r: Self)
        ensures
            r@ == self@,
    {
        match self {
            McpServerStatus::Stopped => McpServerStatus::Stopped,
            McpServerStatus::Starting => McpServerStatus::Starting,
            McpServerStatus::Running => McpServerStatus::Running,
            McpServerStatus::Failed(reason) => McpServerStatus::Failed(reason.clone()),
        }
    }
}

impl McpServerStatus {
    /// Whether the status is `Running`.
    pub fn is_running(&self) -> (r: bool)
        ensures
            r == (self@ == StatusView::Running),
    {
        match self {
            McpServerStatus::Running => true,
            _ => false,
        }
    }
}

} // verus!
