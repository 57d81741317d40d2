//! Background task bookkeeping.
//!
//! A caller that passes task metadata with a call gets a task id at once; the
//! call then runs in the background and its outcome is kept under that id
//! until its time to live has passed. The table of task states lives here;
//! the queue and the worker that runs the calls belong to the application.

use vstd::prelude::*;
use dashmap::DashMap;
use crate::mcp::types::{JsonValue, JsonView};

verus! {

/// Metadata passed by the caller to request background execution.
pub struct TaskMeta {
    /// How long (seconds) the task result should be retained after completion.
    pub ttl: u64,
    /// Namespaced component key (e.g. `"tool:my_tool"`). Filled by the server.
    pub fn_key: Option<String>,
}

impl TaskMeta {
    /// Metadata with the given retention and no component key yet.
    pub fn new(ttl: u64) -> (r: TaskMeta)
        ensures
            r.ttl == ttl,
            r.fn_key is None,
    {
        TaskMeta { ttl, fn_key: None }
    }
}

/// Returned immediately when a background task is scheduled.
pub struct CreateTaskResult {
    pub task_id: String,
}

/// Current lifecycle state of a background task.
pub enum TaskStatus {
    Pending,
    Running,
    Completed(JsonValue),
    Failed(String),
}

/// Model of a task state.
pub ghost enum TaskState {
    Pending,
    Running,
    Completed(JsonView),
    Failed(Seq<char>),
}

impl View for TaskStatus {
    type V = TaskState;

    open spec fn view(&self) -> TaskState {
        match self {
            TaskStatus::Pending => TaskState::Pending,
            TaskStatus::Running => TaskState::Running,
            TaskStatus::Completed(v) => TaskState::Completed(v@),
            TaskStatus::Failed(e) => TaskState::Failed(e@),
        }
    }
}

impl Clone for TaskStatus {
    /// A copy with the same model.
    fn clone(&self) -> (r: TaskStatus)
        ensures
            r@ == self@,
    {
        match self {
            TaskStatus::Pending => TaskStatus::Pending,
            TaskStatus::Running => TaskStatus::Running,
            TaskStatus::Completed(v) => TaskStatus::Completed(v.deep_copy()),
            TaskStatus::Failed(e) => TaskStatus::Failed(e.clone()),
        }
    }
}

/// The state a task ends in: its value, or its error message.
pub open spec fn outcome(result: Result<JsonValue, String>) -> TaskState {
    match result {
        Ok(v) => TaskState::Completed(v@),
        Err(e) => TaskState::Failed(e@),
    }
}

/// What a task map holds, keyed by task id.
pub uninterp spec fn task_entries(m: DashMap<String, TaskStatus>) -> Map<Seq<char>, TaskState>;

/// Wraps `DashMap::new`: an empty map.
#[verifier::external_body]
fn task_map_new() -> (r: DashMap<String, TaskStatus>)
    ensures
        task_entries(r) =~= Map::empty(),
{
    DashMap::new()
}

/// Wraps `DashMap::insert`: the key now maps to the value, other keys keep theirs.
#[verifier::external_body]
fn task_map_insert(m: &mut DashMap<String, TaskStatus>, key: String, value: TaskStatus)
    ensures
        task_entries(*final(m)) == task_entries(*old(m)).insert(key@, value@),
{
    m.insert(key, value);
}

/// Wraps `DashMap::remove`: the key no longer maps to anything.
#[verifier::external_body]
fn task_map_remove(m: &mut DashMap<String, TaskStatus>, key: &str)
    ensures
        task_entries(*final(m)) == task_entries(*old(m)).remove(key@),
{
    m.remove(key);
}

/// Wraps `DashMap::get`, handing out a copy of the stored state.
#[verifier::external_body]
fn task_map_get(m: &DashMap<String, TaskStatus>, key: &str) -> (r: Option<TaskStatus>)
    ensures
        match r {
            Some(s) => task_entries(*m).contains_key(key@) && s@ == task_entries(*m)[key@],
            None => !task_entries(*m).contains_key(key@),
        },
{
    m.get(key).map(|entry| entry.value().clone())
}

/// Wraps `uuid::Uuid::new_v4().to_string()`: a random id in the hyphenated
/// form, 36 characters with hyphens at positions 8, 13, 18 and 23. Which id
/// comes out is left open.
#[verifier::external_body]
fn random_task_id() -> (r: String)
    ensures
        r@.len() == 36,
        r@[8] == '-' && r@[13] == '-' && r@[18] == '-' && r@[23] == '-',
{
    uuid::Uuid::new_v4().to_string()
}

/// The states of the background tasks, keyed by task id.
pub struct TaskTable {
    tasks: DashMap<String, TaskStatus>,
}

impl View for TaskTable {
    type V = Map<Seq<char>, TaskState>;

    closed spec fn view(&self) -> Map<Seq<char>, TaskState> {
        task_entries(self.tasks)
    }
}

impl TaskTable {
    /// A table with no tasks.
    pub fn new() -> (r: TaskTable)
        ensures
            r@ =~= Map::empty(),
    {
        TaskTable { tasks: task_map_new() }
    }

    /// Registers a new task under a fresh random id, as pending, and returns
    /// the id.
    pub fn submit(&mut self) -> (id: String)
        ensures
            id@.len() == 36,
            final(self)@ == old(self)@.insert(id@, TaskState::Pending),
    {
        let id = random_task_id();
        task_map_insert(&mut self.tasks, id.clone(), TaskStatus::Pending);
        id
    }

    /// Marks the task as running.
    pub fn start(&mut self, id: &str)
        ensures
            final(self)@ == old(self)@.insert(id@, TaskState::Running),
    {
        task_map_insert(&mut self.tasks, crate::util::text::owned(id), TaskStatus::Running);
    }

    /// Records how the task ended: completed with its value or failed with its
    /// error message.
    pub fn finish(&mut self, id: &str, result: Result<JsonValue, String>)
        ensures
            final(self)@ == old(self)@.insert(id@, outcome(result)),
    {
        let status = match result {
            Ok(v) => TaskStatus::Completed(v),
            Err(e) => TaskStatus::Failed(e),
        };
        task_map_insert(&mut self.tasks, crate::util::text::owned(id), status);
    }

    /// Forgets the task (its retention time has passed).
    pub fn evict(&mut self, id: &str)
        ensures
            final(self)@ == old(self)@.remove(id@),
    {
        task_map_remove(&mut self.tasks, id);
    }

    /// The state of a task, if the table knows it.
    pub fn get_status(&self, id: &str) -> (r: Option<TaskStatus>)
        ensures
            match r {
                Some(s) => self@.contains_key(id@) && s@ == self@[id@],
                None => !self@.contains_key(id@),
            },
    {
        task_map_get(&self.tasks, id)
    }
}

} // verus!
