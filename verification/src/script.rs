//! What a game attaches to an entity to run a script, and what it hears back.
use vstd::prelude::*;
use vstd::string::StringExecFns;
use sabiruby::value::ObjId;

verus! {

/// Attach to an entity to run a script as a task. `S` is the handle of the script's
/// `.mrb` asset.
pub struct Script<S> {
    pub source: S,
    /// 0-255, 0 first (mruby-task's priority).
    pub priority: u8,
    /// Shown in logs and answered by `Task#name`.
    pub name: Option<String>,
}

impl<S> Script<S> {
    /// A script at the default priority, 128, with no name of its own.
    pub fn new(source: S) -> (r: Self)
        ensures
            r.source == source,
            r.priority == 128,
            r.name is None,
    {
        Script { source, priority: 128, name: None }
    }

    /// The same script at another priority.
    pub fn with_priority(self, priority: u8) -> (r: Self)
        ensures
            r.source == self.source,
            r.priority == priority,
            r.name == self.name,
    {
        Script { source: self.source, priority, name: self.name }
    }

    /// The same script under a name.
    pub fn with_name(self, name: String) -> (r: Self)
        ensures
            r.source == self.source,
            r.priority == self.priority,
            r.name == Some(name),
    {
        Script { source: self.source, priority: self.priority, name: Some(name) }
    }
}

/// The task a [`Script`] became. Removing it, or despawning the entity, stops the task.
pub struct ScriptTask {
    task: ObjId,
}

impl ScriptTask {
    /// The task the scheduler made for a script.
    pub fn new(task: ObjId) -> (r: ScriptTask)
        ensures
            r.task_spec() == task,
    {
        ScriptTask { task }
    }

    /// The task, as the scheduler's id.
    pub closed spec fn task_spec(self) -> ObjId {
        self.task
    }

    /// The scheduler's id for this script, for the `Vm::task_*` entry points.
    pub fn task(&self) -> (r: ObjId)
        ensures
            r == self.task_spec(),
    {
        self.task
    }
}

/// What a host can show of a running script (`ScriptWorld::stats`).
pub struct ScriptStats {
    /// Instructions this script has run since it started.
    pub instructions: u64,
    /// Where it stands in its own source: file and line. `None` where the program carries
    /// no debug info.
    pub location: Option<(String, u32)>,
    /// Every frame it stands in, innermost first.
    pub frames: Vec<(String, u32)>,
    /// Whether the task has run to its end.
    pub finished: bool,
}

impl Default for ScriptStats {
    /// Nothing run, nowhere, not finished.
    fn default() -> (r: ScriptStats)
        ensures
            r.instructions == 0,
            r.location is None,
            r.frames@.len() == 0,
            !r.finished,
    {
        ScriptStats { instructions: 0, location: None, frames: Vec::new(), finished: false }
    }
}

/// Marks an entity whose script has ended, so that its end is reported once and its task
/// let go of once.
pub struct ScriptDone;

/// How a script's task ended.
#[derive(Debug, Clone, Copy, PartialEq, Eq, Structural)]
pub enum ScriptStatus {
    Finished,
    Failed,
}

/// Sent when a script's task runs to its end, with what it answered, or the exception it did
/// not handle (which mruby-task makes the result).
pub struct ScriptEnded {
    /// The entity the script was attached to (`Entity::to_bits`).
    pub entity: u64,
    pub status: ScriptStatus,
    /// `inspect` of the value, `?` where `inspect` raised.
    pub value: String,
}

/// The report of a task that ended, from what the VM said of its value: an exception makes
/// it `Failed`, anything else `Finished`; the text is what `inspect` answered, `?` where it
/// raised.
pub fn script_ended<E>(entity: u64, exception: bool, inspected: Result<String, E>) -> (r: ScriptEnded)
    ensures
        r.entity == entity,
        r.status == (if exception { ScriptStatus::Failed } else { ScriptStatus::Finished }),
        inspected matches Ok(text) ==> r.value@ == text@,
        inspected is Err ==> r.value@ == "?"@,
{
    let status = if exception { ScriptStatus::Failed } else { ScriptStatus::Finished };
    let value = match inspected {
        Ok(text) => text,
        Err(_) => String::from_str("?"),
    };
    ScriptEnded { entity, status, value }
}

/// Marks and names an entity a script spawned (`Rubevy.spawn`).
pub struct SpawnedByScript {
    pub name: String,
}

/// The plugin's settings: where a `require` reads from (the game's asset directory).
pub struct RubevyPlugin {
    pub asset_root: String,
}

impl Default for RubevyPlugin {
    /// `require` reads from `assets`.
    fn default() -> (r: RubevyPlugin)
        ensures
            r.asset_root@ == "assets"@,
    {
        RubevyPlugin { asset_root: String::from_str("assets") }
    }
}

impl RubevyPlugin {
    /// `require` reads from `root`.
    pub fn with_asset_root(root: String) -> (r: RubevyPlugin)
        ensures
            r.asset_root == root,
    {
        RubevyPlugin { asset_root: root }
    }

    /// Where a `require` looks, in order: `scripts` under the asset root, then the root.
    pub fn load_path(&self) -> (r: Vec<String>)
        ensures
            r@.len() == 2,
            r@[0]@ == self.asset_root@ + "/scripts"@,
            r@[1]@ == self.asset_root@,
    {
        let scripts = self.asset_root.clone().concat("/scripts");
        let mut v = Vec::new();
        v.push(scripts);
        v.push(self.asset_root.clone());
        v
    }
}

} // verus!
