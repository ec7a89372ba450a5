//! Installation steps: what the installer asks of the file system and of
//! other programs, one step at a time, and the messages for steps that fail.

use vstd::prelude::*;
use crate::text::{owned, concat2, concat3, concat4, lossy, lossy_text};
use crate::paths::{joined, join};

verus! {

/// A program to run, the directory to run it in, and its arguments.
#[derive(Debug, Clone, PartialEq, Eq)]
pub struct Command {
    pub dir: String,
    pub program: String,
    pub args: Vec<String>,
}

/// The mathematical model of a [`Command`].
pub struct CommandModel {
    pub dir: Seq<char>,
    pub program: Seq<char>,
    pub args: Seq<Seq<char>>,
}

impl DeepView for Command {
    type V = CommandModel;

    open spec fn deep_view(&self) -> CommandModel {
        CommandModel { dir: self.dir@, program: self.program@, args: self.args.deep_view() }
    }
}

/// How a path that is in the way of a new symbolic link is treated.
#[derive(Debug, Clone, Copy, PartialEq, Eq)]
pub enum SlotPolicy {
    /// An old symbolic link is removed; anything else there is an error.
    SymlinkOnly,
    /// Whatever is there is removed.
    Any,
}

/// One thing that the installer does.
#[derive(Debug, Clone, PartialEq, Eq)]
pub enum Action {
    /// Stop with `missing` unless `path` is a directory.
    RequireDir { path: String, missing: String },
    /// Stop with `missing` unless `path` is a regular file.
    RequireFile { path: String, missing: String },
    /// Create the directory `path` and its missing parents.
    CreateDirAll { path: String },
    /// Run a program; it must exit successfully.
    Run(Command),
    /// Remove `path` with `sudo rm -rf` if anything is there.
    RemoveInstalled { path: String },
    /// Clear the place of a symbolic link at `path`, as the policy says.
    ClearSlot { path: String, policy: SlotPolicy },
    /// Remove the file at `path`, ignoring any failure.
    RemoveQuietly { path: String },
    /// Create a symbolic link at `link` that points to `target`.
    Symlink { target: String, link: String },
    /// Copy the file `from` to `to`.
    Copy { from: String, to: String },
    /// Copy the file named `name` (the file system's bytes, which need not
    /// be UTF-8) from the directory `src_dir` into the directory `dst_dir`.
    CopyEntry { src_dir: String, dst_dir: String, name: Vec<u8> },
    /// Stop with `message`.
    Fail { message: String },
    /// Tell the user `message` on standard output.
    Print { message: String },
    /// Install the standard library for `triple` from the build under
    /// `rust_dir` for the build host `host` into `stage_dir`. Its steps
    /// (`rustlib::sync_rustlib`) depend on what the build left, so they
    /// are worked out when it is carried out; each reports its own failure,
    /// and this action has no failure message of its own.
    SyncRustlib { rust_dir: String, host: String, stage_dir: String, triple: String },
    /// Ask `mountpoint -q` whether `sysroot` is mounted, and mount the disk
    /// image of the workspace `root` there if it is not.
    CheckMount { root: String, sysroot: String },
}

/// The mathematical model of an [`Action`].
pub enum ActionModel {
    RequireDir { path: Seq<char>, missing: Seq<char> },
    RequireFile { path: Seq<char>, missing: Seq<char> },
    CreateDirAll { path: Seq<char> },
    Run(CommandModel),
    RemoveInstalled { path: Seq<char> },
    ClearSlot { path: Seq<char>, policy: SlotPolicy },
    RemoveQuietly { path: Seq<char> },
    Symlink { target: Seq<char>, link: Seq<char> },
    Copy { from: Seq<char>, to: Seq<char> },
    CopyEntry { src_dir: Seq<char>, dst_dir: Seq<char>, name: Seq<u8> },
    Fail { message: Seq<char> },
    Print { message: Seq<char> },
    SyncRustlib { rust_dir: Seq<char>, host: Seq<char>, stage_dir: Seq<char>, triple: Seq<char> },
    CheckMount { root: Seq<char>, sysroot: Seq<char> },
}

impl DeepView for Action {
    type V = ActionModel;

    open spec fn deep_view(&self) -> ActionModel {
        match self {
            Action::RequireDir { path, missing } => ActionModel::RequireDir { path: path@, missing: missing@ },
            Action::RequireFile { path, missing } => ActionModel::RequireFile { path: path@, missing: missing@ },
            Action::CreateDirAll { path } => ActionModel::CreateDirAll { path: path@ },
            Action::Run(c) => ActionModel::Run(c.deep_view()),
            Action::RemoveInstalled { path } => ActionModel::RemoveInstalled { path: path@ },
            Action::ClearSlot { path, policy } => ActionModel::ClearSlot { path: path@, policy: *policy },
            Action::RemoveQuietly { path } => ActionModel::RemoveQuietly { path: path@ },
            Action::Symlink { target, link } => ActionModel::Symlink { target: target@, link: link@ },
            Action::Copy { from, to } => ActionModel::Copy { from: from@, to: to@ },
            Action::CopyEntry { src_dir, dst_dir, name } => ActionModel::CopyEntry {
                src_dir: src_dir@,
                dst_dir: dst_dir@,
                name: name@,
            },
            Action::Fail { message } => ActionModel::Fail { message: message@ },
            Action::Print { message } => ActionModel::Print { message: message@ },
            Action::SyncRustlib { rust_dir, host, stage_dir, triple } => ActionModel::SyncRustlib {
                rust_dir: rust_dir@,
                host: host@,
                stage_dir: stage_dir@,
                triple: triple@,
            },
            Action::CheckMount { root, sysroot } => ActionModel::CheckMount { root: root@, sysroot: sysroot@ },
        }
    }
}

/// An action, and the text put before the message of its failure.
#[derive(Debug, Clone, PartialEq, Eq)]
pub struct Step {
    pub context: String,
    pub action: Action,
}

/// The mathematical model of a [`Step`].
pub struct StepModel {
    pub context: Seq<char>,
    pub action: ActionModel,
}

impl DeepView for Step {
    type V = StepModel;

    open spec fn deep_view(&self) -> StepModel {
        StepModel { context: self.context@, action: self.action.deep_view() }
    }
}

/// What went wrong when a step was carried out.
#[derive(Debug, Clone, PartialEq, Eq)]
pub enum Failure {
    /// The directory or file that the step requires is not there.
    Missing,
    /// An operating-system error, or a program that could not be started,
    /// with its description.
    Io(String),
    /// The path in the way of a link could not be inspected.
    Inspect(String),
    /// Something other than a symbolic link is in the way of a link.
    NotSymlink,
    /// A program exited unsuccessfully, with the description of its status.
    Status(String),
}

/// The mathematical model of a [`Failure`].
pub enum FailureModel {
    Missing,
    Io(Seq<char>),
    Inspect(Seq<char>),
    NotSymlink,
    Status(Seq<char>),
}

impl DeepView for Failure {
    type V = FailureModel;

    open spec fn deep_view(&self) -> FailureModel {
        match self {
            Failure::Missing => FailureModel::Missing,
            Failure::Io(e) => FailureModel::Io(e@),
            Failure::Inspect(e) => FailureModel::Inspect(e@),
            Failure::NotSymlink => FailureModel::NotSymlink,
            Failure::Status(e) => FailureModel::Status(e@),
        }
    }
}

/// The description that a failure carries (empty where it carries none).
pub open spec fn failure_detail(f: FailureModel) -> Seq<char> {
    match f {
        FailureModel::Missing => Seq::empty(),
        FailureModel::Io(e) => e,
        FailureModel::Inspect(e) => e,
        FailureModel::NotSymlink => Seq::empty(),
        FailureModel::Status(e) => e,
    }
}

/// The message for a program that failed.
pub open spec fn run_failure(program: Seq<char>, f: FailureModel) -> Seq<char> {
    match f {
        FailureModel::Status(s) => program + " exited with status "@ + s,
        _ => "failed to run "@ + program + ": "@ + failure_detail(f),
    }
}

/// The message for a failed action, before the step's context.
pub open spec fn action_failure(a: ActionModel, f: FailureModel) -> Seq<char> {
    match a {
        ActionModel::RequireDir { path, missing } => missing,
        ActionModel::RequireFile { path, missing } => missing,
        ActionModel::CreateDirAll { path } => "failed to create "@ + path + ": "@ + failure_detail(f),
        ActionModel::Run(c) => run_failure(c.program, f),
        ActionModel::RemoveInstalled { path } => run_failure("sudo"@, f),
        ActionModel::ClearSlot { path, policy } => match f {
            FailureModel::Inspect(e) => "failed to inspect "@ + path + ": "@ + e,
            FailureModel::NotSymlink => path + " exists and is not a symlink"@,
            _ => "failed to remove "@ + path + ": "@ + failure_detail(f),
        },
        ActionModel::RemoveQuietly { path } => "failed to remove "@ + path + ": "@ + failure_detail(f),
        ActionModel::Symlink { target, link } =>
            "failed to create symlink "@ + link + " -> "@ + target + ": "@ + failure_detail(f),
        ActionModel::Copy { from, to } =>
            "failed to copy "@ + from + " -> "@ + to + ": "@ + failure_detail(f),
        ActionModel::CopyEntry { src_dir, dst_dir, name } =>
            "failed to copy "@ + joined(src_dir, lossy(name)) + " -> "@ + joined(dst_dir, lossy(name)) + ": "@
                + failure_detail(f),
        ActionModel::Fail { message } => message,
        ActionModel::Print { message } => Seq::empty(),
        ActionModel::SyncRustlib { rust_dir, host, stage_dir, triple } => Seq::empty(),
        ActionModel::CheckMount { root, sysroot } => "failed to run mountpoint: "@ + failure_detail(f),
    }
}

/// The whole message for a failed step: its context, then the action's message.
pub open spec fn step_failure(s: StepModel, f: FailureModel) -> Seq<char> {
    s.context + action_failure(s.action, f)
}

/// The text that a failure carries.
fn detail(f: &Failure) -> (r: &str)
    ensures
        r@ == failure_detail(f.deep_view()),
{
    proof {
        reveal_strlit("");
    }
    match f {
        Failure::Missing => "",
        Failure::Io(e) => e.as_str(),
        Failure::Inspect(e) => e.as_str(),
        Failure::NotSymlink => "",
        Failure::Status(e) => e.as_str(),
    }
}

/// The message for a program that failed.
fn run_failure_message(program: &str, f: &Failure) -> (r: String)
    ensures
        r@ == run_failure(program@, f.deep_view()),
{
    match f {
        Failure::Status(s) => concat3(program, " exited with status ", s.as_str()),
        _ => {
            let mut r = concat3("failed to run ", program, ": ");
            r.append(detail(f));
            r
        },
    }
}

impl Action {
    /// The message for this action failing as `f` says.
    pub fn failure_message(&self, f: &Failure) -> (r: String)
        ensures
            r@ == action_failure(self.deep_view(), f.deep_view()),
    {
        match self {
            Action::RequireDir { path, missing } => missing.clone(),
            Action::RequireFile { path, missing } => missing.clone(),
            Action::CreateDirAll { path } => concat4("failed to create ", path.as_str(), ": ", detail(f)),
            Action::Run(c) => run_failure_message(c.program.as_str(), f),
            Action::RemoveInstalled { path } => run_failure_message("sudo", f),
            Action::ClearSlot { path, policy } => match f {
                Failure::Inspect(e) => concat4("failed to inspect ", path.as_str(), ": ", e.as_str()),
                Failure::NotSymlink => concat2(path.as_str(), " exists and is not a symlink"),
                _ => concat4("failed to remove ", path.as_str(), ": ", detail(f)),
            },
            Action::RemoveQuietly { path } => concat4("failed to remove ", path.as_str(), ": ", detail(f)),
            Action::Symlink { target, link } => {
                let mut r = concat4("failed to create symlink ", link.as_str(), " -> ", target.as_str());
                r.append(": ");
                r.append(detail(f));
                r
            },
            Action::Copy { from, to } => {
                let mut r = concat4("failed to copy ", from.as_str(), " -> ", to.as_str());
                r.append(": ");
                r.append(detail(f));
                r
            },
            Action::CopyEntry { src_dir, dst_dir, name } => {
                let text = lossy_text(name.as_slice());
                let from = join(src_dir.as_str(), text.as_str());
                let to = join(dst_dir.as_str(), text.as_str());
                let mut r = concat4("failed to copy ", from.as_str(), " -> ", to.as_str());
                r.append(": ");
                r.append(detail(f));
                r
            },
            Action::Fail { message } => message.clone(),
            Action::Print { message } => {
                proof {
                    reveal_strlit("");
                }
                owned("")
            },
            Action::SyncRustlib { rust_dir, host, stage_dir, triple } => {
                proof {
                    reveal_strlit("");
                }
                owned("")
            },
            Action::CheckMount { root, sysroot } => concat2("failed to run mountpoint: ", detail(f)),
        }
    }
}

impl Step {
    /// The whole message for this step failing as `f` says.
    pub fn failure_message(&self, f: &Failure) -> (r: String)
        ensures
            r@ == step_failure(self.deep_view(), f.deep_view()),
    {
        let inner = self.action.failure_message(f);
        concat2(self.context.as_str(), inner.as_str())
    }
}

/// A step with the given context.
pub open spec fn step_model(context: Seq<char>, action: ActionModel) -> StepModel {
    StepModel { context, action }
}

/// `sudo` with the given arguments, run from the file-system root.
pub open spec fn sudo_model(args: Seq<Seq<char>>) -> ActionModel {
    ActionModel::Run(CommandModel { dir: "/"@, program: "sudo"@, args })
}

/// A step with the given context.
pub fn step(context: &str, action: Action) -> (r: Step)
    ensures
        r.deep_view() == step_model(context@, action.deep_view()),
{
    Step { context: owned(context), action }
}

/// Runs `program` in `dir` with `args`.
pub fn run(dir: &str, program: &str, args: Vec<String>) -> (r: Action)
    ensures
        r.deep_view() == ActionModel::Run(CommandModel { dir: dir@, program: program@, args: args.deep_view() }),
{
    Action::Run(Command { dir: owned(dir), program: owned(program), args })
}

/// Runs `sudo` with `args` from the file-system root.
pub fn sudo(args: Vec<String>) -> (r: Action)
    ensures
        r.deep_view() == sudo_model(args.deep_view()),
{
    run("/", "sudo", args)
}

/// How a run goes on after a step.
#[derive(Debug, Clone, PartialEq, Eq)]
pub enum Progress {
    /// Carry out the step at this index next.
    Next(usize),
    /// Every step succeeded.
    Done,
    /// Stop the run, reporting this line on standard error.
    Stop(String),
}

/// The line that reports a fatal error.
pub open spec fn fatal_line(message: Seq<char>) -> Seq<char> {
    "error: "@ + message
}

/// The line that reports a fatal error.
pub fn fatal_message(message: &str) -> (r: String)
    ensures
        r@ == fatal_line(message@),
{
    concat2("error: ", message)
}

/// How the run of `plan` goes on after the step at `at` ended with
/// `outcome`: the next step, or the end, after a success; after a failure
/// the run stops at once, with the step's message.
pub fn advance(plan: &Vec<Step>, at: usize, outcome: &Result<(), Failure>) -> (r: Progress)
    requires
        at < plan.len(),
    ensures
        match outcome {
            Ok(()) => if at + 1 < plan.len() { r == Progress::Next((at + 1) as usize) } else { r == Progress::Done },
            Err(f) => r is Stop && r->Stop_0@ == fatal_line(step_failure(plan.deep_view()[at as int], f.deep_view())),
        },
{
    match outcome {
        Ok(()) => if at + 1 < plan.len() { Progress::Next(at + 1) } else { Progress::Done },
        Err(f) => {
            let m = plan[at].failure_message(f);
            Progress::Stop(fatal_message(m.as_str()))
        },
    }
}

/// What a path names, as far as links are concerned: a symbolic link to a
/// target, a file, or a directory.
pub enum Node {
    Link(Seq<char>),
    File,
    Dir,
}

/// What stands at `path` in the file system `fs`.
pub open spec fn slot_state_of(fs: Map<Seq<char>, Node>, path: Seq<char>) -> SlotState {
    if !fs.dom().contains(path) {
        SlotState::Absent
    } else if fs[path] is Link {
        SlotState::Symlink
    } else {
        SlotState::Other
    }
}

/// What a step that clears a link's place or makes a link does to the file
/// system: clearing follows the slot decision, and removing is the removal
/// of one file (`std::fs::remove_file`), so a link itself goes, not what it
/// points to, and a directory cannot be removed (the step fails); making a
/// link fails where anything already stands. `None` is a failure, and also
/// stands for every action that this model does not describe.
pub open spec fn link_effect(fs: Map<Seq<char>, Node>, a: ActionModel) -> Option<Map<Seq<char>, Node>> {
    match a {
        ActionModel::ClearSlot { path, policy } => match slot_decision_spec(policy, slot_state_of(fs, path)) {
            SlotDecision::Leave => Some(fs),
            SlotDecision::Remove => if fs[path] is Dir {
                None
            } else {
                Some(fs.remove(path))
            },
            SlotDecision::Refuse => None,
        },
        ActionModel::Symlink { target, link } => if fs.dom().contains(link) {
            None
        } else {
            Some(fs.insert(link, Node::Link(target)))
        },
        _ => None,
    }
}

/// The file system after the steps are carried out in order, or `None` if
/// one fails: the first failure ends the run.
pub open spec fn run_link_steps(fs: Map<Seq<char>, Node>, steps: Seq<StepModel>) -> Option<Map<Seq<char>, Node>>
    decreases steps.len(),
{
    if steps.len() == 0 {
        Some(fs)
    } else {
        match link_effect(fs, steps[0].action) {
            None => None,
            Some(next) => run_link_steps(next, steps.skip(1)),
        }
    }
}

/// What stands at a path where a symbolic link is to be made.
#[derive(Debug, Clone, Copy, PartialEq, Eq)]
pub enum SlotState {
    Absent,
    Symlink,
    Other,
}

/// What to do with what stands at the place of a new link.
#[derive(Debug, Clone, Copy, PartialEq, Eq)]
pub enum SlotDecision {
    /// Nothing is there; go on.
    Leave,
    /// Remove it, then go on.
    Remove,
    /// Stop: it is not a symbolic link.
    Refuse,
}

/// The decision for a slot in the given state under the given policy.
pub open spec fn slot_decision_spec(policy: SlotPolicy, state: SlotState) -> SlotDecision {
    match state {
        SlotState::Absent => SlotDecision::Leave,
        SlotState::Symlink => SlotDecision::Remove,
        SlotState::Other => match policy {
            SlotPolicy::SymlinkOnly => SlotDecision::Refuse,
            SlotPolicy::Any => SlotDecision::Remove,
        },
    }
}

/// Decides what to do with what stands at the place of a new link.
pub fn slot_decision(policy: SlotPolicy, state: SlotState) -> (r: SlotDecision)
    ensures
        r == slot_decision_spec(policy, state),
{
    match state {
        SlotState::Absent => SlotDecision::Leave,
        SlotState::Symlink => SlotDecision::Remove,
        SlotState::Other => match policy {
            SlotPolicy::SymlinkOnly => SlotDecision::Refuse,
            SlotPolicy::Any => SlotDecision::Remove,
        },
    }
}

/// The command that removes an installed path (as root, recursively), or
/// nothing when nothing is at the path.
pub fn remove_installed_path(present: bool, path: &str) -> (r: Option<Command>)
    ensures
        !present ==> r is None,
        present ==> r is Some && r->0.deep_view() == (CommandModel {
            dir: "/"@,
            program: "sudo"@,
            args: seq!["rm"@, "-rf"@, path@],
        }),
{
    if !present {
        return None;
    }
    let args = vec![owned("rm"), owned("-rf"), owned(path)];
    let c = Command { dir: owned("/"), program: owned("sudo"), args };
    assert(c.deep_view().args =~= seq!["rm"@, "-rf"@, path@]);
    Some(c)
}

} // verus!
