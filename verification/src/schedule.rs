use vstd::prelude::*;

verus! {

/// The two cores. Each runs one executor, which runs its own tasks in turn,
/// each to its next wait.
#[derive(Debug, Clone, Copy, PartialEq, Eq, Structural)]
pub enum Core {
    Core0,
    Core1,
}

/// What a task is there for.
#[derive(Debug, Clone, Copy, PartialEq, Eq, Structural)]
pub enum Role {
    Control,
    Sink,
    Button,
    Led,
    Display,
    Producer,
}

/// One task of a build: its role, the core that runs it, and whether this
/// build has it at all.
#[derive(Debug, Clone, Copy, PartialEq, Eq)]
pub struct TaskSpec {
    pub role: Role,
    pub core: Core,
    pub enabled: bool,
}

/// What is wrong with the tasks of a build.
#[derive(Debug, Clone, Copy, PartialEq, Eq)]
pub enum PlanError {
    /// No control task: nobody would write the recording flags.
    NoControl,
    /// More than one control task: the flags would have several writers.
    ManyControls,
    /// No sink task: the queue would fill and every producer wait for ever.
    NoSink,
    /// More than one sink task: the lines of one producer could change
    /// places.
    ManySinks,
}

/// Whether `core` runs `task`.
pub open spec fn runs_on(task: TaskSpec, core: Core) -> bool {
    task.enabled && task.core == core
}

/// Whether `task` is part of the build in the role `role`.
pub open spec fn plays(task: TaskSpec, role: Role) -> bool {
    task.enabled && task.role == role
}

/// The number of tasks of the build in the role `role`.
pub open spec fn count_of(tasks: Seq<TaskSpec>, role: Role) -> nat
    decreases tasks.len(),
{
    if tasks.len() == 0 {
        0
    } else if plays(tasks.last(), role) {
        count_of(tasks.drop_last(), role) + 1
    } else {
        count_of(tasks.drop_last(), role)
    }
}

/// The verdict on the tasks of a build: it takes exactly one control task and
/// exactly one sink task.
pub open spec fn verdict(tasks: Seq<TaskSpec>) -> Result<(), PlanError> {
    if count_of(tasks, Role::Control) == 0 {
        Err(PlanError::NoControl)
    } else if count_of(tasks, Role::Control) > 1 {
        Err(PlanError::ManyControls)
    } else if count_of(tasks, Role::Sink) == 0 {
        Err(PlanError::NoSink)
    } else if count_of(tasks, Role::Sink) > 1 {
        Err(PlanError::ManySinks)
    } else {
        Ok(())
    }
}

/// Counts the tasks in the role `role`.
fn count(tasks: &Vec<TaskSpec>, role: Role) -> (n: usize)
    ensures
        n == count_of(tasks@, role),
{
    let mut n: usize = 0;
    let mut i: usize = 0;
    assert(tasks@.subrange(0, 0) =~= Seq::<TaskSpec>::empty());
    while i < tasks.len()
        invariant
            i <= tasks.len(),
            n <= i,
            n == count_of(tasks@.subrange(0, i as int), role),
        decreases tasks.len() - i,
    {
        assert(tasks@.subrange(0, i as int + 1).drop_last() =~= tasks@.subrange(0, i as int));
        if tasks[i].enabled && tasks[i].role == role {
            n += 1;
        }
        i += 1;
    }
    assert(tasks@.subrange(0, tasks.len() as int) =~= tasks@);
    n
}

/// Judges the tasks of a build, before anything is spawned.
pub fn validate(tasks: &Vec<TaskSpec>) -> (judged: Result<(), PlanError>)
    ensures
        judged == verdict(tasks@),
{
    let controls = count(tasks, Role::Control);
    let sinks = count(tasks, Role::Sink);
    if controls == 0 {
        Err(PlanError::NoControl)
    } else if controls > 1 {
        Err(PlanError::ManyControls)
    } else if sinks == 0 {
        Err(PlanError::NoSink)
    } else if sinks > 1 {
        Err(PlanError::ManySinks)
    } else {
        Ok(())
    }
}

/// The tasks that `core` runs, by their places in `tasks`, in rising order:
/// every enabled task of that core and no other.
pub fn tasks_on(tasks: &Vec<TaskSpec>, core: Core) -> (picked: Vec<usize>)
    ensures
        forall|k: int|
            0 <= k < picked.len() ==> (#[trigger] picked[k]) < tasks.len() && runs_on(
                tasks[picked[k] as int],
                core,
            ),
        forall|i: int|
            0 <= i < tasks.len() && runs_on(#[trigger] tasks[i], core) ==> picked@.contains(
                i as usize,
            ),
        forall|j: int, k: int| 0 <= j < k < picked.len() ==> picked[j] < picked[k],
{
    let mut picked: Vec<usize> = Vec::new();
    let mut i: usize = 0;
    while i < tasks.len()
        invariant
            i <= tasks.len(),
            forall|k: int|
                0 <= k < picked.len() ==> (#[trigger] picked[k]) < i && runs_on(
                    tasks[picked[k] as int],
                    core,
                ),
            forall|m: int|
                0 <= m < i && runs_on(#[trigger] tasks[m], core) ==> picked@.contains(m as usize),
            forall|j: int, k: int| 0 <= j < k < picked.len() ==> picked[j] < picked[k],
        decreases tasks.len() - i,
    {
        if tasks[i].enabled && tasks[i].core == core {
            let ghost before = picked@;
            picked.push(i);
            assert(picked@[before.len() as int] == i);
            assert forall|m: int|
                0 <= m < i + 1 && runs_on(#[trigger] tasks[m], core) implies picked@.contains(
                m as usize,
            ) by {
                if m < i {
                    let k = choose|k: int| 0 <= k < before.len() && before[k] == m as usize;
                    assert(picked@[k] == m as usize);
                } else {
                    assert(picked@[before.len() as int] == m as usize);
                }
            }
        }
        i += 1;
    }
    picked
}

/// The two cores share no task: no task runs on both, and every task that the
/// build has runs on one of them.
pub proof fn lemma_cores_share_no_task(task: TaskSpec)
    ensures
        !(runs_on(task, Core::Core0) && runs_on(task, Core::Core1)),
        task.enabled ==> runs_on(task, Core::Core0) || runs_on(task, Core::Core1),
        !task.enabled ==> !runs_on(task, Core::Core0) && !runs_on(task, Core::Core1),
{
}

} // verus!
