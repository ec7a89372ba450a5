//! Building the Rust toolchain with `x.py` and linking it with rustup,
//! together with the tools and runtime files that it needs.

use vstd::prelude::*;
use crate::text::{owned, concat2, concat3, concat4, concat5, same_text};
use crate::paths::{joined, joined2, joined4, parent_of, join, join2, join4, parent};
use crate::config::{Config, ConfigModel};
use crate::rustlib::{rustlib_destination_spec, rustlib_destination};
use crate::steps::{Action, ActionModel, CommandModel, Node, SlotPolicy, Step, StepModel, run, run_link_steps, step, step_model};

verus! {

/// The stage whose compiler is built and linked.
pub open spec fn stage_name(stage2: bool) -> Seq<char> {
    if stage2 { "stage2"@ } else { "stage1"@ }
}

/// The arguments of `x.py` that build the host compiler.
pub open spec fn host_build_args(stage2: bool) -> Seq<Seq<char>> {
    if stage2 {
        seq!["build"@, "--warnings"@, "warn"@, "--stage"@, "2"@, "compiler/rustc"@]
    } else {
        seq!["build"@, "--warnings"@, "warn"@, "compiler/rustc"@]
    }
}

/// The arguments of `x.py` that build the host standard library.
pub open spec fn host_std_args(stage2: bool) -> Seq<Seq<char>> {
    seq!["build"@, "--warnings"@, "warn"@, "--stage"@, if stage2 { "2"@ } else { "1"@ }, "library/std"@]
}

/// The arguments of `x.py` that build the standard library (or only `core`)
/// for the target: the stage comes first, warnings are not errors for the
/// default Seele target.
pub open spec fn target_build_args(cfg: ConfigModel) -> Seq<Seq<char>> {
    seq!["build"@]
        + (if cfg.stage2 { seq!["--stage"@, "2"@] } else { Seq::empty() })
        + (if cfg.target == "x86_64-seele"@ { seq!["--warnings"@, "warn"@] } else { Seq::empty() })
        + seq!["--target"@, cfg.target, if cfg.build_std { "library/std"@ } else { "library/core"@ }]
}

/// The arguments of `x.py` that build the host compiler.
pub fn host_build_arguments(stage2: bool) -> (r: Vec<String>)
    ensures
        r.deep_view() == host_build_args(stage2),
{
    let mut a = vec![owned("build"), owned("--warnings"), owned("warn"), owned("compiler/rustc")];
    if stage2 {
        a.insert(3, owned("--stage"));
        a.insert(4, owned("2"));
    }
    assert(a.deep_view() =~= host_build_args(stage2));
    a
}

/// The arguments of `x.py` that build the host standard library.
pub fn host_std_arguments(stage2: bool) -> (r: Vec<String>)
    ensures
        r.deep_view() == host_std_args(stage2),
{
    let stage = if stage2 { owned("2") } else { owned("1") };
    let a = vec![owned("build"), owned("--warnings"), owned("warn"), owned("--stage"), stage, owned("library/std")];
    assert(a.deep_view() =~= host_std_args(stage2));
    a
}

/// The arguments of `x.py` that build the target's standard library.
pub fn target_build_arguments(config: &Config) -> (r: Vec<String>)
    ensures
        r.deep_view() == target_build_args(config@),
{
    let mut a = vec![owned("build"), owned("--target"), config.target.clone()];
    let seele = same_text(config.target.as_str(), "x86_64-seele");
    if seele {
        a.insert(1, owned("--warnings"));
        a.insert(2, owned("warn"));
    }
    if config.build_std {
        a.push(owned("library/std"));
    } else {
        a.push(owned("library/core"));
    }
    if config.stage2 {
        a.insert(1, owned("--stage"));
        a.insert(2, owned("2"));
    }
    assert(a.deep_view() =~= target_build_args(config@));
    a
}

/// The Rust checkout in the toolchain directory `cwd`.
pub open spec fn rust_dir_of(cwd: Seq<char>) -> Seq<char> {
    joined(cwd, "rust"@)
}

/// The step that checks that the Rust checkout is there.
pub open spec fn locate_rust_spec(cwd: Seq<char>) -> Seq<StepModel> {
    let rust_dir = rust_dir_of(cwd);
    seq![step_model(""@, ActionModel::RequireDir {
        path: rust_dir,
        missing: "rust not found; run this from the toolchain dir (missing "@ + rust_dir + ")"@,
    })]
}

/// The step that checks that the Rust checkout is there.
pub fn locate_rust(cwd: &str) -> (r: Vec<Step>)
    ensures
        r.deep_view() == locate_rust_spec(cwd@),
{
    let rust_dir = join(cwd, "rust");
    let missing = concat3("rust not found; run this from the toolchain dir (missing ", rust_dir.as_str(), ")");
    let r = vec![step("", Action::RequireDir { path: rust_dir, missing })];
    assert(r.deep_view() =~= locate_rust_spec(cwd@));
    r
}

/// Whether the toolchain counts as installed already: only when the build
/// is not forced, and rustup lists it (a failed query counts as not listed).
pub open spec fn already_installed(cfg: ConfigModel, listed: Result<bool, Seq<char>>) -> bool {
    !cfg.force && listed == Ok::<bool, Seq<char>>(true)
}

impl Config {
    /// Whether rustup is to be asked if the toolchain is installed: only
    /// when the build is not forced.
    pub fn asks_for_installed_toolchain(&self) -> (r: bool)
        ensures
            r == !self.force,
    {
        !self.force
    }

    /// Whether the toolchain counts as installed already, given what rustup
    /// answered.
    pub fn toolchain_already_exists(&self, listed: &Result<bool, String>) -> (r: bool)
        ensures
            r == already_installed(self@, match listed {
                Ok(b) => Ok(*b),
                Err(e) => Err(e@),
            }),
    {
        if self.force {
            return false;
        }
        match listed {
            Ok(b) => *b,
            Err(_) => false,
        }
    }
}

/// A run of `x.py` in the Rust checkout.
pub open spec fn xpy_step(rust_dir: Seq<char>, context: Seq<char>, args: Seq<Seq<char>>) -> StepModel {
    step_model(context, ActionModel::Run(CommandModel { dir: rust_dir, program: "./x.py"@, args }))
}

/// The steps that build the compiler and the standard libraries, for the
/// toolchain directory `cwd`; none when the build is skipped or the
/// toolchain is installed already.
pub open spec fn build_rust_spec(cfg: ConfigModel, cwd: Seq<char>, already: bool) -> Seq<StepModel> {
    let rust_dir = rust_dir_of(cwd);
    let notice = if already {
        seq![step_model(""@, ActionModel::Print {
            message: "toolchain '"@ + cfg.toolchain + "' already installed; skipping rebuild and refreshing linked tools"@,
        })]
    } else {
        Seq::empty()
    };
    if cfg.skip_build || already {
        notice
    } else {
        notice + seq![xpy_step(rust_dir, "x.py build (host) failed: "@, host_build_args(cfg.stage2))]
            + (if cfg.build_std { seq![xpy_step(rust_dir, "x.py build (host std) failed: "@, host_std_args(cfg.stage2))] } else { Seq::empty() })
            + seq![xpy_step(rust_dir, "x.py build (target "@ + cfg.target + ") failed: "@, target_build_args(cfg))]
    }
}

/// The steps that build the host compiler, the host standard library (if
/// the standard library is built) and the target's standard library with
/// `x.py`, unless the build is skipped or the toolchain is installed already.
pub fn build_rust(config: &Config, cwd: &str, already: bool) -> (r: Vec<Step>)
    ensures
        r.deep_view() == build_rust_spec(config@, cwd@, already),
{
    let rust_dir = join(cwd, "rust");
    let mut plan: Vec<Step> = Vec::new();
    if already {
        let m = concat3("toolchain '", config.toolchain.as_str(),
            "' already installed; skipping rebuild and refreshing linked tools");
        plan.push(step("", Action::Print { message: m }));
    }
    if config.skip_build || already {
        assert(plan.deep_view() =~= build_rust_spec(config@, cwd@, already));
        return plan;
    }
    let ghost notice = plan.deep_view();
    plan.push(step("x.py build (host) failed: ", run(rust_dir.as_str(), "./x.py", host_build_arguments(config.stage2))));
    let ghost host = plan.deep_view();
    if config.build_std {
        plan.push(step("x.py build (host std) failed: ", run(rust_dir.as_str(), "./x.py", host_std_arguments(config.stage2))));
    }
    let ghost host_std = plan.deep_view();
    let context = concat3("x.py build (target ", config.target.as_str(), ") failed: ");
    plan.push(step(context.as_str(), run(rust_dir.as_str(), "./x.py", target_build_arguments(config))));
    proof {
        assert(notice =~= Seq::<StepModel>::empty());
        assert(host =~= notice + seq![xpy_step(rust_dir@, "x.py build (host) failed: "@, host_build_args(config.stage2))]);
        if config.build_std {
            assert(host_std =~= host + seq![xpy_step(rust_dir@, "x.py build (host std) failed: "@, host_std_args(config.stage2))]);
        } else {
            assert(host_std =~= host + Seq::<StepModel>::empty());
        }
        let last = xpy_step(rust_dir@, "x.py build (target "@ + config.target@ + ") failed: "@, target_build_args(config@));
        assert(plan.deep_view() =~= host_std + seq![last]);
        assert(plan.deep_view() =~= build_rust_spec(config@, cwd@, already));
    }
    plan
}

/// Whether a step runs a program.
pub open spec fn runs_program(s: StepModel) -> bool {
    s.action is Run
}

/// With `--skip-build` nothing is built: no step of the build runs a program.
pub proof fn law_skip_build_builds_nothing(cfg: ConfigModel, cwd: Seq<char>, already: bool)
    requires
        cfg.skip_build,
    ensures
        forall|i: int| 0 <= i < build_rust_spec(cfg, cwd, already).len()
            ==> !runs_program(#[trigger] build_rust_spec(cfg, cwd, already)[i]),
{
}

/// A toolchain that rustup lists is not rebuilt unless the build is forced:
/// then no step of the build runs a program.
pub proof fn law_installed_toolchain_not_rebuilt(cfg: ConfigModel, cwd: Seq<char>)
    requires
        !cfg.force,
    ensures
        forall|i: int| 0 <= i < build_rust_spec(cfg, cwd, already_installed(cfg, Ok(true))).len()
            ==> !runs_program(#[trigger] build_rust_spec(cfg, cwd, already_installed(cfg, Ok(true)))[i]),
{
}

/// With `--force` what rustup answers does not matter: the build is the
/// same whatever the toolchain query gave.
pub proof fn law_force_ignores_installed(cfg: ConfigModel, cwd: Seq<char>, a: Result<bool, Seq<char>>, b: Result<bool, Seq<char>>)
    requires
        cfg.force,
    ensures
        build_rust_spec(cfg, cwd, already_installed(cfg, a)) == build_rust_spec(cfg, cwd, already_installed(cfg, b)),
{
}

/// A build that is neither skipped nor already done runs `x.py` for the
/// host compiler first and for the target last; the target gets
/// `library/std`, or `library/core` alone with `--no-std`, in which case
/// the host standard library is not built either.
pub proof fn law_build_order(cfg: ConfigModel, cwd: Seq<char>)
    requires
        !cfg.skip_build,
    ensures
        ({
            let plan = build_rust_spec(cfg, cwd, false);
            let last_args = target_build_args(cfg);
            &&& plan.len() == if cfg.build_std { 3int } else { 2int }
            &&& plan[0] == xpy_step(rust_dir_of(cwd), "x.py build (host) failed: "@, host_build_args(cfg.stage2))
            &&& plan.last().action == ActionModel::Run(CommandModel {
                dir: rust_dir_of(cwd),
                program: "./x.py"@,
                args: last_args,
            })
            &&& last_args.last() == if cfg.build_std { "library/std"@ } else { "library/core"@ }
        }),
{
}

/// The context of the steps that install the Seele runtime.
pub open spec fn runtime_context() -> Seq<char> {
    "failed to install Seele runtime: "@
}

/// The C runtime objects and C libraries that Rust links against by
/// default on Seele.
pub open spec fn runtime_files() -> Seq<Seq<char>> {
    seq!["crt0.o"@, "crti.o"@, "crtn.o"@, "libm.a"@, "librt.a"@, "libc.so"@, "libpthread.a"@]
}

/// The steps that copy one runtime file: check that relibc built it, copy it.
pub open spec fn runtime_copy(relibc_dir: Seq<char>, dst: Seq<char>, target: Seq<char>, name: Seq<char>) -> Seq<StepModel> {
    seq![
        step_model(runtime_context(), ActionModel::RequireFile {
            path: joined(relibc_dir, name),
            missing: "missing "@ + name + " in "@ + relibc_dir + " (relibc not fully built for "@ + target + ")"@,
        }),
        step_model(runtime_context(), ActionModel::Copy { from: joined(relibc_dir, name), to: joined(dst, name) }),
    ]
}

/// The copies of the runtime files `names`, in order.
pub open spec fn runtime_copies(relibc_dir: Seq<char>, dst: Seq<char>, target: Seq<char>, names: Seq<Seq<char>>) -> Seq<StepModel>
    decreases names.len(),
{
    if names.len() == 0 {
        Seq::empty()
    } else {
        runtime_copies(relibc_dir, dst, target, names.drop_last()) + runtime_copy(relibc_dir, dst, target, names.last())
    }
}

/// The steps that make the toolchain for `target` self-contained: the CRT
/// objects and libc that relibc built in the workspace around `workdir` are
/// copied into the target's library directory in `stage_dir`.
pub open spec fn seele_runtime_spec(workdir: Seq<char>, stage_dir: Seq<char>, target: Seq<char>) -> Seq<StepModel> {
    let c = runtime_context();
    match parent_of(workdir) {
        None => seq![step_model(c, ActionModel::Fail {
            message: "cannot determine workspace root (toolchain has no parent)"@,
        })],
        Some(root) => {
            let relibc_dir = joined4(root, "relibc"@, "target"@, target, "release"@);
            let dst = rustlib_destination_spec(stage_dir, target);
            let link = joined(dst, "libc.so.6"@);
            seq![
                step_model(c, ActionModel::RequireDir {
                    path: relibc_dir,
                    missing: "relibc runtime dir not found: "@ + relibc_dir + " (build relibc for "@ + target + " first)"@,
                }),
                step_model(c, ActionModel::RequireDir {
                    path: dst,
                    missing: "target rustlib dir not found: "@ + dst + " (did x.py build library/std for "@ + target + "?)"@,
                }),
                step_model(c, ActionModel::CreateDirAll { path: dst }),
            ] + runtime_copies(relibc_dir, dst, target, runtime_files()) + seq![
                step_model(c, ActionModel::ClearSlot { path: link, policy: SlotPolicy::Any }),
                step_model(c, ActionModel::Symlink { target: "libc.so"@, link }),
                step_model(c, ActionModel::Print {
                    message: "installed Seele runtime (CRT + static/shared libc) into "@ + dst,
                }),
            ]
        },
    }
}

/// The runtime files, as owned strings.
fn runtime_file_names() -> (r: Vec<String>)
    ensures
        r.deep_view() == runtime_files(),
{
    let r = vec![
        owned("crt0.o"),
        owned("crti.o"),
        owned("crtn.o"),
        owned("libm.a"),
        owned("librt.a"),
        owned("libc.so"),
        owned("libpthread.a"),
    ];
    assert(r.deep_view() =~= runtime_files());
    r
}

/// The steps that install the Seele runtime (relibc's CRT objects and C
/// libraries) into the target's library directory of the stage.
pub fn install_seele_runtime(workdir: &str, stage_dir: &str, target: &str) -> (r: Vec<Step>)
    ensures
        r.deep_view() == seele_runtime_spec(workdir@, stage_dir@, target@),
{
    let c = "failed to install Seele runtime: ";
    let mut plan: Vec<Step> = Vec::new();
    let root = match parent(workdir) {
        Some(root) => root,
        None => {
            plan.push(step(c, Action::Fail { message: owned("cannot determine workspace root (toolchain has no parent)") }));
            assert(plan.deep_view() =~= seele_runtime_spec(workdir@, stage_dir@, target@));
            return plan;
        },
    };
    let relibc_dir = join4(root.as_str(), "relibc", "target", target, "release");
    let dst = rustlib_destination(stage_dir, target);
    plan.push(step(c, Action::RequireDir {
        path: relibc_dir.clone(),
        missing: concat5("relibc runtime dir not found: ", relibc_dir.as_str(), " (build relibc for ", target, " first)"),
    }));
    plan.push(step(c, Action::RequireDir {
        path: dst.clone(),
        missing: concat5("target rustlib dir not found: ", dst.as_str(), " (did x.py build library/std for ", target, "?)"),
    }));
    plan.push(step(c, Action::CreateDirAll { path: dst.clone() }));
    let ghost head = plan.deep_view();
    let names = runtime_file_names();
    let ghost all = names.deep_view();
    let mut i: usize = 0;
    assert(plan.deep_view() =~= head + runtime_copies(relibc_dir@, dst@, target@, all.take(0)));
    while i < names.len()
        invariant
            i <= names.len(),
            all == names.deep_view(),
            c@ == runtime_context(),
            plan.deep_view() == head + runtime_copies(relibc_dir@, dst@, target@, all.take(i as int)),
        decreases names.len() - i,
    {
        let name = names[i].as_str();
        let src = join(relibc_dir.as_str(), name);
        let ghost prev = plan.deep_view();
        let mut missing = concat4("missing ", name, " in ", relibc_dir.as_str());
        missing.append(" (relibc not fully built for ");
        missing.append(target);
        missing.append(")");
        plan.push(step(c, Action::RequireFile { path: src.clone(), missing }));
        plan.push(step(c, Action::Copy { from: src, to: join(dst.as_str(), name) }));
        assert(all.take(i + 1).drop_last() =~= all.take(i as int));
        assert(plan.deep_view() =~= prev + runtime_copy(relibc_dir@, dst@, target@, name@));
        i = i + 1;
    }
    assert(all.take(i as int) =~= all);
    let ghost copied = plan.deep_view();
    let link = join(dst.as_str(), "libc.so.6");
    plan.push(step(c, Action::ClearSlot { path: link.clone(), policy: SlotPolicy::Any }));
    plan.push(step(c, Action::Symlink { target: owned("libc.so"), link }));
    plan.push(step(c, Action::Print {
        message: concat2("installed Seele runtime (CRT + static/shared libc) into ", dst.as_str()),
    }));
    proof {
        let cx = runtime_context();
        let link_v = joined(dst@, "libc.so.6"@);
        assert(head =~= seq![
            step_model(cx, ActionModel::RequireDir {
                path: relibc_dir@,
                missing: "relibc runtime dir not found: "@ + relibc_dir@ + " (build relibc for "@ + target@ + " first)"@,
            }),
            step_model(cx, ActionModel::RequireDir {
                path: dst@,
                missing: "target rustlib dir not found: "@ + dst@ + " (did x.py build library/std for "@ + target@ + "?)"@,
            }),
            step_model(cx, ActionModel::CreateDirAll { path: dst@ }),
        ]);
        assert(copied == head + runtime_copies(relibc_dir@, dst@, target@, runtime_files()));
        assert(plan.deep_view() =~= copied + seq![
            step_model(cx, ActionModel::ClearSlot { path: link_v, policy: SlotPolicy::Any }),
            step_model(cx, ActionModel::Symlink { target: "libc.so"@, link: link_v }),
            step_model(cx, ActionModel::Print {
                message: "installed Seele runtime (CRT + static/shared libc) into "@ + dst@,
            }),
        ]);
    }
    assert(plan.deep_view() =~= seele_runtime_spec(workdir@, stage_dir@, target@));
    plan
}

/// The context of the steps that link the LLVM tools into the toolchain.
pub open spec fn tools_context() -> Seq<char> {
    "failed to install LLVM bin tools into Rust toolchain: "@
}

/// The steps for one tool: check that LLVM has it, clear its place in the
/// toolchain, link it there.
pub open spec fn tool_link(llvm_bin: Seq<char>, stage_bin: Seq<char>, tool: Seq<char>) -> Seq<StepModel> {
    let c = tools_context();
    let src = joined(llvm_bin, tool);
    let dst = joined(stage_bin, tool);
    seq![
        step_model(c, ActionModel::RequireFile { path: src, missing: "missing LLVM tool "@ + tool + " at "@ + src }),
        step_model(c, ActionModel::ClearSlot { path: dst, policy: SlotPolicy::Any }),
        step_model(c, ActionModel::Symlink { target: src, link: dst }),
    ]
}

/// Linking a tool replaces what stands in its place, unless that is a
/// directory: after the tool was found, clearing its place and linking it
/// leave a link to the tool there, and the rest of the file system as it
/// was, where the place is empty or holds a file or a link; a directory
/// there stops the steps.
pub proof fn law_tool_link_replaces(fs: Map<Seq<char>, Node>, llvm_bin: Seq<char>, stage_bin: Seq<char>, tool: Seq<char>)
    ensures
        ({
            let src = joined(llvm_bin, tool);
            let dst = joined(stage_bin, tool);
            let steps = tool_link(llvm_bin, stage_bin, tool).skip(1);
            &&& !(fs.dom().contains(dst) && fs[dst] is Dir)
                ==> run_link_steps(fs, steps) == Some(fs.insert(dst, Node::Link(src)))
            &&& fs.dom().contains(dst) && fs[dst] is Dir ==> run_link_steps(fs, steps) is None
        }),
{
    reveal_with_fuel(run_link_steps, 3);
    let src = joined(llvm_bin, tool);
    let dst = joined(stage_bin, tool);
    let steps = tool_link(llvm_bin, stage_bin, tool).skip(1);
    assert(steps.skip(1)[0] == steps[1]);
    assert(steps.skip(1).skip(1) =~= Seq::<StepModel>::empty());
    assert(fs.remove(dst).insert(dst, Node::Link(src)) =~= fs.insert(dst, Node::Link(src)));
    assert(!fs.remove(dst).dom().contains(dst));
}

/// The links of the tools `tools`, in order.
pub open spec fn tool_links(llvm_bin: Seq<char>, stage_bin: Seq<char>, tools: Seq<Seq<char>>) -> Seq<StepModel>
    decreases tools.len(),
{
    if tools.len() == 0 {
        Seq::empty()
    } else {
        tool_links(llvm_bin, stage_bin, tools.drop_last()) + tool_link(llvm_bin, stage_bin, tools.last())
    }
}

/// The steps that link the LLVM tools `tools` of the LLVM installed in
/// `prefix` into the `bin` directory of the stage.
pub open spec fn bin_tools_spec(prefix: Seq<char>, stage_dir: Seq<char>, tools: Seq<Seq<char>>) -> Seq<StepModel> {
    let c = tools_context();
    let llvm_bin = joined(prefix, "bin"@);
    let stage_bin = joined(stage_dir, "bin"@);
    seq![
        step_model(c, ActionModel::RequireDir { path: llvm_bin, missing: "LLVM bin dir not found: "@ + llvm_bin }),
        step_model(c, ActionModel::RequireDir {
            path: stage_bin,
            missing: "Rust toolchain bin dir not found: "@ + stage_bin,
        }),
    ] + tool_links(llvm_bin, stage_bin, tools)
        + seq![step_model(c, ActionModel::Print { message: "installed LLVM bin tools into "@ + stage_bin })]
}

/// The steps that link the LLVM tools `tools` of the LLVM installed in
/// `prefix` into the `bin` directory of the stage.
pub fn install_llvm_bin_tools(prefix: &str, stage_dir: &str, tools: &Vec<String>) -> (r: Vec<Step>)
    ensures
        r.deep_view() == bin_tools_spec(prefix@, stage_dir@, tools.deep_view()),
{
    let c = "failed to install LLVM bin tools into Rust toolchain: ";
    let llvm_bin = join(prefix, "bin");
    let stage_bin = join(stage_dir, "bin");
    let mut plan: Vec<Step> = Vec::new();
    plan.push(step(c, Action::RequireDir {
        path: llvm_bin.clone(),
        missing: concat2("LLVM bin dir not found: ", llvm_bin.as_str()),
    }));
    plan.push(step(c, Action::RequireDir {
        path: stage_bin.clone(),
        missing: concat2("Rust toolchain bin dir not found: ", stage_bin.as_str()),
    }));
    let ghost head = plan.deep_view();
    let ghost all = tools.deep_view();
    let mut i: usize = 0;
    assert(plan.deep_view() =~= head + tool_links(llvm_bin@, stage_bin@, all.take(0)));
    while i < tools.len()
        invariant
            i <= tools.len(),
            all == tools.deep_view(),
            c@ == tools_context(),
            plan.deep_view() == head + tool_links(llvm_bin@, stage_bin@, all.take(i as int)),
        decreases tools.len() - i,
    {
        let tool = tools[i].as_str();
        let src = join(llvm_bin.as_str(), tool);
        let dst = join(stage_bin.as_str(), tool);
        let ghost prev = plan.deep_view();
        plan.push(step(c, Action::RequireFile {
            path: src.clone(),
            missing: concat4("missing LLVM tool ", tool, " at ", src.as_str()),
        }));
        plan.push(step(c, Action::ClearSlot { path: dst.clone(), policy: SlotPolicy::Any }));
        plan.push(step(c, Action::Symlink { target: src, link: dst }));
        assert(all.take(i + 1).drop_last() =~= all.take(i as int));
        assert(plan.deep_view() =~= prev + tool_link(llvm_bin@, stage_bin@, tool@));
        i = i + 1;
    }
    assert(all.take(i as int) =~= all);
    let ghost linked = plan.deep_view();
    plan.push(step(c, Action::Print { message: concat2("installed LLVM bin tools into ", stage_bin.as_str()) }));
    proof {
        let cx = tools_context();
        assert(head =~= seq![
            step_model(cx, ActionModel::RequireDir { path: llvm_bin@, missing: "LLVM bin dir not found: "@ + llvm_bin@ }),
            step_model(cx, ActionModel::RequireDir {
                path: stage_bin@,
                missing: "Rust toolchain bin dir not found: "@ + stage_bin@,
            }),
        ]);
        assert(linked == head + tool_links(llvm_bin@, stage_bin@, tools.deep_view()));
    }
    assert(plan.deep_view() =~= bin_tools_spec(prefix@, stage_dir@, tools.deep_view()));
    plan
}

/// The LLVM tools that the Rust toolchain takes from the LLVM build.
pub open spec fn linked_tools() -> Seq<Seq<char>> {
    seq!["llvm-ar"@, "llvm-ranlib"@]
}

/// The stage directory that is linked, for the build host `host`.
pub open spec fn stage_dir_of(cfg: ConfigModel, cwd: Seq<char>, host: Seq<char>) -> Seq<char> {
    joined(joined2(rust_dir_of(cwd), "build"@, host), stage_name(cfg.stage2))
}

/// The steps that link the stage `stage_dir` with rustup under the
/// toolchain's name, and report it.
pub open spec fn rustup_link_spec(cfg: ConfigModel, cwd: Seq<char>, stage_dir: Seq<char>) -> Seq<StepModel> {
    seq![
        step_model("rustup toolchain link failed: "@, ActionModel::Run(CommandModel {
            dir: cwd,
            program: "rustup"@,
            args: seq!["toolchain"@, "link"@, cfg.toolchain, stage_dir],
        })),
        step_model(""@, ActionModel::Print {
            message: "installed toolchain '"@ + cfg.toolchain + "' from "@ + stage_dir,
        }),
    ]
}

/// The steps that turn the built stage into the toolchain: the standard
/// libraries of the host and of the target, the Seele runtime for the
/// default target, the LLVM tools, and the link with rustup. With
/// `--skip-build` the stage is only linked with rustup, once it is checked
/// to be there.
pub open spec fn link_rust_spec(cfg: ConfigModel, cwd: Seq<char>, host: Seq<char>) -> Seq<StepModel> {
    let rust_dir = rust_dir_of(cwd);
    let stage_dir = stage_dir_of(cfg, cwd, host);
    let check = seq![
        step_model(""@, ActionModel::RequireDir {
            path: stage_dir,
            missing: "stage directory not found: "@ + stage_dir + " (try --stage2)"@,
        }),
    ];
    if cfg.skip_build {
        check + rustup_link_spec(cfg, cwd, stage_dir)
    } else {
        check + seq![
            step_model("failed to install host rustlib: "@, ActionModel::SyncRustlib {
                rust_dir,
                host,
                stage_dir,
                triple: host,
            }),
            step_model("failed to install target rustlib: "@, ActionModel::SyncRustlib {
                rust_dir,
                host,
                stage_dir,
                triple: cfg.target,
            }),
        ] + (if cfg.target == "x86_64-seele"@ { seele_runtime_spec(cwd, stage_dir, cfg.target) } else { Seq::empty() })
            + match parent_of(cwd) {
            None => seq![step_model(""@, ActionModel::Fail {
                message: "cannot determine workspace root (toolchain has no parent)"@,
            })],
            Some(root) => bin_tools_spec(joined(root, ".llvm"@), stage_dir, linked_tools())
                + rustup_link_spec(cfg, cwd, stage_dir),
        }
    }
}

/// With `--skip-build` the run only links with rustup: after the check that
/// the stage is there, the one step that runs a program is
/// `rustup toolchain link <toolchain> <stage>`, and nothing is copied,
/// linked or installed into the stage.
pub proof fn law_skip_build_only_links(cfg: ConfigModel, cwd: Seq<char>, host: Seq<char>)
    requires
        cfg.skip_build,
    ensures
        ({
            let plan = link_rust_spec(cfg, cwd, host);
            let stage = stage_dir_of(cfg, cwd, host);
            &&& plan.len() == 3
            &&& plan[0].action is RequireDir
            &&& plan[1].action == ActionModel::Run(CommandModel {
                dir: cwd,
                program: "rustup"@,
                args: seq!["toolchain"@, "link"@, cfg.toolchain, stage],
            })
            &&& plan[2].action is Print
        }),
{
}

/// The target's standard library is built at the stage that is linked,
/// whatever the target: the arguments hold `--stage 2` exactly with stage 2,
/// and no `--stage` at all with stage 1, where x.py's own stage 1 is the one
/// linked. They name the target after `--target` and end with the library
/// asked for: `library/std`, or `library/core` with `--no-std`.
pub proof fn law_target_build_stage(cfg: ConfigModel)
    ensures
        ({
            let a = target_build_args(cfg);
            &&& a[0] == "build"@
            &&& (exists|i: int| 0 <= i && i + 1 < a.len() && #[trigger] a[i] == "--stage"@ && a[i + 1] == "2"@)
                <==> cfg.stage2
            &&& !cfg.stage2 ==> forall|i: int| 0 <= i < a.len() - 2 ==> #[trigger] a[i] != "--stage"@
            &&& a[a.len() - 3] == "--target"@
            &&& a[a.len() - 2] == cfg.target
            &&& a[a.len() - 1] == if cfg.build_std { "library/std"@ } else { "library/core"@ }
        }),
{
    reveal_strlit("build");
    reveal_strlit("--stage");
    reveal_strlit("2");
    reveal_strlit("--warnings");
    reveal_strlit("warn");
    reveal_strlit("--target");
    reveal_strlit("library/std");
    reveal_strlit("library/core");
    let a = target_build_args(cfg);
    let lib = if cfg.build_std { "library/std"@ } else { "library/core"@ };
    let st: Seq<Seq<char>> = if cfg.stage2 { seq!["--stage"@, "2"@] } else { Seq::empty() };
    let w: Seq<Seq<char>> = if cfg.target == "x86_64-seele"@ { seq!["--warnings"@, "warn"@] } else { Seq::empty() };
    assert(a =~= seq!["build"@] + st + w + seq!["--target"@, cfg.target, lib]);
    assert("build"@.len() == 5 && "--stage"@.len() == 7 && "--warnings"@.len() == 10 && "warn"@.len() == 4);
    assert("--target"@.len() == 8 && "2"@.len() == 1 && lib.len() >= 11);
    if cfg.stage2 {
        assert(a[1] == "--stage"@ && a[2] == "2"@);
    } else if cfg.target == "x86_64-seele"@ {
        assert(a =~= seq!["build"@, "--warnings"@, "warn"@, "--target"@, cfg.target, lib]);
        assert forall|i: int| 0 <= i && i + 1 < a.len() && #[trigger] a[i] == "--stage"@ implies a[i + 1] != "2"@ by {
            if i == 4 {
                assert(a[5] == lib);
            }
        }
        assert forall|i: int| 0 <= i < a.len() - 2 implies #[trigger] a[i] != "--stage"@ by {}
    } else {
        assert(a =~= seq!["build"@, "--target"@, cfg.target, lib]);
        assert forall|i: int| 0 <= i && i + 1 < a.len() && #[trigger] a[i] == "--stage"@ implies a[i + 1] != "2"@ by {
            if i == 2 {
                assert(a[3] == lib);
            }
        }
        assert forall|i: int| 0 <= i < a.len() - 2 implies #[trigger] a[i] != "--stage"@ by {}
    }
}

/// Unless the build is skipped, after the check that the stage is there the
/// standard libraries go into it: first the host's, then the target's, both
/// from the build of `<cwd>/rust` for the build host, into the stage that is
/// linked.
pub proof fn law_rustlibs_host_then_target(cfg: ConfigModel, cwd: Seq<char>, host: Seq<char>)
    requires
        !cfg.skip_build,
    ensures
        ({
            let plan = link_rust_spec(cfg, cwd, host);
            let rust_dir = joined(cwd, "rust"@);
            let stage_dir = joined(joined2(rust_dir, "build"@, host), if cfg.stage2 { "stage2"@ } else { "stage1"@ });
            &&& plan[1].action == ActionModel::SyncRustlib { rust_dir, host, stage_dir, triple: host }
            &&& plan[2].action == ActionModel::SyncRustlib { rust_dir, host, stage_dir, triple: cfg.target }
        }),
{
}

/// The stage that is linked with rustup, under the chosen toolchain name,
/// is stage 2, or stage 1 with `--no-stage2`; the plan first checks that it
/// was built.
pub proof fn law_linked_stage(cfg: ConfigModel, cwd: Seq<char>, host: Seq<char>)
    requires
        parent_of(cwd) is Some,
    ensures
        ({
            let plan = link_rust_spec(cfg, cwd, host);
            let stage = joined(joined2(joined(cwd, "rust"@), "build"@, host),
                if cfg.stage2 { "stage2"@ } else { "stage1"@ });
            &&& plan[0].action matches ActionModel::RequireDir { path, .. } && path == stage
            &&& plan[plan.len() - 2].action == ActionModel::Run(CommandModel {
                dir: cwd,
                program: "rustup"@,
                args: seq!["toolchain"@, "link"@, cfg.toolchain, stage],
            })
        }),
{
}

/// The steps that link the stage with rustup and report it.
fn rustup_link(config: &Config, cwd: &str, stage_dir: &str) -> (r: Vec<Step>)
    ensures
        r.deep_view() == rustup_link_spec(config@, cwd@, stage_dir@),
{
    let args = vec![owned("toolchain"), owned("link"), config.toolchain.clone(), owned(stage_dir)];
    assert(args.deep_view() =~= seq!["toolchain"@, "link"@, config@.toolchain, stage_dir@]);
    let m = concat4("installed toolchain '", config.toolchain.as_str(), "' from ", stage_dir);
    let r = vec![
        step("rustup toolchain link failed: ", run(cwd, "rustup", args)),
        step("", Action::Print { message: m }),
    ];
    assert(r.deep_view() =~= rustup_link_spec(config@, cwd@, stage_dir@));
    r
}

/// The steps that turn the stage built for the build host `host` into the
/// toolchain and link it with rustup, run from the toolchain directory `cwd`.
pub fn link_rust(config: &Config, cwd: &str, host: &str) -> (r: Vec<Step>)
    ensures
        r.deep_view() == link_rust_spec(config@, cwd@, host@),
{
    let rust_dir = join(cwd, "rust");
    let build = join2(rust_dir.as_str(), "build", host);
    let stage_dir = if config.stage2 { join(build.as_str(), "stage2") } else { join(build.as_str(), "stage1") };
    let mut plan: Vec<Step> = Vec::new();
    plan.push(step("", Action::RequireDir {
        path: stage_dir.clone(),
        missing: concat3("stage directory not found: ", stage_dir.as_str(), " (try --stage2)"),
    }));
    let ghost check = plan.deep_view();
    if config.skip_build {
        let mut tail = rustup_link(config, cwd, stage_dir.as_str());
        plan.append(&mut tail);
        assert(plan.deep_view() =~= link_rust_spec(config@, cwd@, host@));
        return plan;
    }
    plan.push(step("failed to install host rustlib: ", Action::SyncRustlib {
        rust_dir: rust_dir.clone(),
        host: owned(host),
        stage_dir: stage_dir.clone(),
        triple: owned(host),
    }));
    plan.push(step("failed to install target rustlib: ", Action::SyncRustlib {
        rust_dir: rust_dir.clone(),
        host: owned(host),
        stage_dir: stage_dir.clone(),
        triple: config.target.clone(),
    }));
    let ghost head = plan.deep_view();
    if same_text(config.target.as_str(), "x86_64-seele") {
        let mut rt = install_seele_runtime(cwd, stage_dir.as_str(), config.target.as_str());
        plan.append(&mut rt);
    }
    let ghost with_runtime = plan.deep_view();
    assert(with_runtime =~= head + (if config@.target == "x86_64-seele"@ {
        seele_runtime_spec(cwd@, stage_dir@, config@.target)
    } else {
        Seq::empty()
    }));
    let root = match parent(cwd) {
        Some(root) => root,
        None => {
            plan.push(step("", Action::Fail { message: owned("cannot determine workspace root (toolchain has no parent)") }));
            assert(plan.deep_view() =~= link_rust_spec(config@, cwd@, host@));
            return plan;
        },
    };
    let llvm_prefix = join(root.as_str(), ".llvm");
    let tools = vec![owned("llvm-ar"), owned("llvm-ranlib")];
    assert(tools.deep_view() =~= linked_tools());
    let mut linked = install_llvm_bin_tools(llvm_prefix.as_str(), stage_dir.as_str(), &tools);
    plan.append(&mut linked);
    let ghost with_tools = plan.deep_view();
    let mut tail = rustup_link(config, cwd, stage_dir.as_str());
    plan.append(&mut tail);
    proof {
        assert(with_tools =~= with_runtime + bin_tools_spec(llvm_prefix@, stage_dir@, linked_tools()));
        assert(plan.deep_view() =~= link_rust_spec(config@, cwd@, host@));
    }
    plan
}

} // verus!
