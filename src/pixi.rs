use vstd::prelude::*;
use crate::text::{distinct_keys, keys_unique};

verus! {

/// The project metadata document: name and version, under `workspace` or
/// `project`, and a table of named tasks.
#[derive(Debug, Clone)]
pub struct PixiToml {
    pub workspace: Option<WorkspaceConfig>,
    pub project: Option<ProjectConfig>,
    pub tasks: Vec<(String, TaskValue)>,
}

/// A task: a bare command, or a record holding one.
#[derive(Debug, Clone)]
pub enum TaskValue {
    Simple(String),
    Complex(TaskConfig),
}

#[derive(Debug, Clone)]
pub struct TaskConfig {
    pub cmd: String,
    pub env: Vec<(String, String)>,
    pub depends_on: Option<Vec<String>>,
}

#[derive(Debug, Clone)]
pub struct WorkspaceConfig {
    pub name: Option<String>,
    pub version: Option<String>,
}

#[derive(Debug, Clone)]
pub struct ProjectConfig {
    pub name: Option<String>,
    pub version: Option<String>,
}

impl TaskValue {
    /// The command a task runs, whichever shape it was declared in.
    pub open spec fn command(self) -> String {
        match self {
            TaskValue::Simple(cmd) => cmd,
            TaskValue::Complex(config) => config.cmd,
        }
    }
}

/// The command of the first task named `name`.
pub open spec fn task_command_of(tasks: Seq<(String, TaskValue)>, name: Seq<char>) -> Option<
    String,
>
    decreases tasks.len(),
{
    if tasks.len() == 0 {
        None
    } else if tasks[0].0@ == name {
        Some(tasks[0].1.command())
    } else {
        task_command_of(tasks.drop_first(), name)
    }
}

impl TaskValue {
    /// A record's environment variables have distinct names.
    pub open spec fn wf(self) -> bool {
        match self {
            TaskValue::Simple(_) => true,
            TaskValue::Complex(config) => keys_unique(config.env@),
        }
    }
}

impl PixiToml {
    /// Task names are distinct, and so are the variables of each task.
    pub open spec fn wf(self) -> bool {
        &&& keys_unique(self.tasks@)
        &&& forall|i: int| 0 <= i < self.tasks@.len() ==> (#[trigger] self.tasks@[i]).1.wf()
    }

    /// Whether task names are distinct, and so are the variables of each task.
    pub fn is_well_formed(&self) -> (r: bool)
        ensures
            r == self.wf(),
    {
        if !distinct_keys(&self.tasks) {
            return false;
        }
        let n = self.tasks.len();
        let mut i: usize = 0;
        while i < n
            invariant
                n == self.tasks@.len(),
                i <= n,
                forall|k: int| 0 <= k < i ==> (#[trigger] self.tasks@[k]).1.wf(),
            decreases n - i,
        {
            if let TaskValue::Complex(config) = &self.tasks[i].1 {
                if !distinct_keys(&config.env) {
                    return false;
                }
            }
            i = i + 1;
        }
        true
    }

    /// The workspace name if it is given, else the project name.
    pub open spec fn spec_name(self) -> Option<String> {
        let from_workspace = match self.workspace {
            Some(w) => w.name,
            None => None,
        };
        if from_workspace is Some {
            from_workspace
        } else {
            match self.project {
                Some(p) => p.name,
                None => None,
            }
        }
    }

    /// The workspace version if it is given, else the project version.
    pub open spec fn spec_version(self) -> Option<String> {
        let from_workspace = match self.workspace {
            Some(w) => w.version,
            None => None,
        };
        if from_workspace is Some {
            from_workspace
        } else {
            match self.project {
                Some(p) => p.version,
                None => None,
            }
        }
    }

    pub fn get_name(&self) -> (r: Option<&String>)
        ensures
            match r {
                Some(s) => self.spec_name() == Some(*s),
                None => self.spec_name() is None,
            },
    {
        if let Some(w) = &self.workspace {
            if let Some(n) = &w.name {
                return Some(n);
            }
        }
        match &self.project {
            Some(p) => match &p.name {
                Some(n) => Some(n),
                None => None,
            },
            None => None,
        }
    }

    pub fn get_version(&self) -> (r: Option<&String>)
        ensures
            match r {
                Some(s) => self.spec_version() == Some(*s),
                None => self.spec_version() is None,
            },
    {
        if let Some(w) = &self.workspace {
            if let Some(v) = &w.version {
                return Some(v);
            }
        }
        match &self.project {
            Some(p) => match &p.version {
                Some(v) => Some(v),
                None => None,
            },
            None => None,
        }
    }

    /// The command of the task `task_name`, or `None` for an unknown task.
    pub fn get_task_command(&self, task_name: &str) -> (r: Option<String>)
        requires
            self.wf(),
        ensures
            r == task_command_of(self.tasks@, task_name@),
    {
        let n = self.tasks.len();
        let mut i: usize = 0;
        assert(self.tasks@.subrange(0, n as int) =~= self.tasks@);
        while i < n
            invariant
                n == self.tasks@.len(),
                i <= n,
                task_command_of(self.tasks@, task_name@) == task_command_of(
                    self.tasks@.subrange(i as int, n as int),
                    task_name@,
                ),
            decreases n - i,
        {
            let entry = &self.tasks[i];
            let ghost rest = self.tasks@.subrange(i as int, n as int);
            assert(rest.drop_first() =~= self.tasks@.subrange(i + 1, n as int));
            if crate::text::same_text(entry.0.as_str(), task_name) {
                let cmd = match &entry.1 {
                    TaskValue::Simple(cmd) => cmd.clone(),
                    TaskValue::Complex(config) => config.cmd.clone(),
                };
                return Some(cmd);
            }
            i = i + 1;
        }
        None
    }

    /// The shell command that the task `task_name` stands for, or `None`
    /// when no such task is declared (the name may then be a command itself).
    pub fn translate_task_to_shell(&self, task_name: &str) -> (r: Option<String>)
        requires
            self.wf(),
        ensures
            r == task_command_of(self.tasks@, task_name@),
    {
        if let Some(command) = self.get_task_command(task_name) {
            Some(command)
        } else {
            None
        }
    }
}

/// Where the workspace section gives a name or a version, it is the one
/// returned, whatever the project section holds.
pub proof fn lemma_workspace_takes_precedence(p: PixiToml, w: WorkspaceConfig)
    requires
        p.workspace == Some(w),
    ensures
        w.name is Some ==> p.spec_name() == w.name,
        w.version is Some ==> p.spec_version() == w.version,
{
}

} // verus!
