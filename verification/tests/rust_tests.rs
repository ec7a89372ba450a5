use lib::config::Config;
use lib::rust::{build_rust, host_build_arguments, host_std_arguments, install_llvm_bin_tools, install_seele_runtime,
    link_rust, locate_rust, target_build_arguments};
use lib::steps::{Action, Command, SlotPolicy, Step};

fn s(x: &str) -> String {
    x.to_string()
}

fn strs(v: &[&str]) -> Vec<String> {
    v.iter().map(|x| s(x)).collect()
}

fn xpy(context: &str, args: &[&str]) -> Step {
    Step {
        context: s(context),
        action: Action::Run(Command { dir: s("/w/t/rust"), program: s("./x.py"), args: strs(args) }),
    }
}

#[test]
fn xpy_arguments() {
    assert_eq!(host_build_arguments(true), strs(&["build", "--warnings", "warn", "--stage", "2", "compiler/rustc"]));
    assert_eq!(host_build_arguments(false), strs(&["build", "--warnings", "warn", "compiler/rustc"]));
    assert_eq!(host_std_arguments(true), strs(&["build", "--warnings", "warn", "--stage", "2", "library/std"]));
    assert_eq!(host_std_arguments(false), strs(&["build", "--warnings", "warn", "--stage", "1", "library/std"]));
    let mut c = Config::defaults();
    assert_eq!(target_build_arguments(&c),
        strs(&["build", "--stage", "2", "--warnings", "warn", "--target", "x86_64-seele", "library/std"]));
    c.stage2 = false;
    c.build_std = false;
    assert_eq!(target_build_arguments(&c), strs(&["build", "--warnings", "warn", "--target", "x86_64-seele", "library/core"]));
    c.target = s("riscv64gc-unknown-none-elf");
    assert_eq!(target_build_arguments(&c), strs(&["build", "--target", "riscv64gc-unknown-none-elf", "library/core"]));
}

#[test]
fn the_rust_checkout_must_be_there() {
    assert_eq!(locate_rust("/w/t"), vec![Step {
        context: s(""),
        action: Action::RequireDir {
            path: s("/w/t/rust"),
            missing: s("rust not found; run this from the toolchain dir (missing /w/t/rust)"),
        },
    }]);
}

#[test]
fn a_full_build() {
    let c = Config::defaults();
    assert_eq!(build_rust(&c, "/w/t", false), vec![
        xpy("x.py build (host) failed: ", &["build", "--warnings", "warn", "--stage", "2", "compiler/rustc"]),
        xpy("x.py build (host std) failed: ", &["build", "--warnings", "warn", "--stage", "2", "library/std"]),
        xpy("x.py build (target x86_64-seele) failed: ",
            &["build", "--stage", "2", "--warnings", "warn", "--target", "x86_64-seele", "library/std"]),
    ]);
}

#[test]
fn no_std_builds_core_only() {
    let mut c = Config::defaults();
    c.build_std = false;
    let plan = build_rust(&c, "/w/t", false);
    assert_eq!(plan.len(), 2);
    assert_eq!(plan[1], xpy("x.py build (target x86_64-seele) failed: ",
        &["build", "--stage", "2", "--warnings", "warn", "--target", "x86_64-seele", "library/core"]));
}

#[test]
fn skipping_or_an_installed_toolchain_builds_nothing() {
    let mut c = Config::defaults();
    c.skip_build = true;
    assert!(build_rust(&c, "/w/t", false).is_empty());
    let c = Config::defaults();
    let plan = build_rust(&c, "/w/t", true);
    assert_eq!(plan, vec![Step {
        context: s(""),
        action: Action::Print {
            message: s("toolchain 'seele' already installed; skipping rebuild and refreshing linked tools"),
        },
    }]);
}

#[test]
fn force_decides_whether_rustup_is_asked() {
    let mut c = Config::defaults();
    assert!(!c.asks_for_installed_toolchain());
    assert!(!c.toolchain_already_exists(&Ok(true)));
    c.force = false;
    assert!(c.asks_for_installed_toolchain());
    assert!(c.toolchain_already_exists(&Ok(true)));
    assert!(!c.toolchain_already_exists(&Ok(false)));
    assert!(!c.toolchain_already_exists(&Err(s("failed to run rustup: gone"))));
}

#[test]
fn the_seele_runtime_plan() {
    let plan = install_seele_runtime("/w/t", "/w/t/rust/build/h/stage2", "x86_64-seele");
    let c = "failed to install Seele runtime: ";
    assert!(plan.iter().all(|st| st.context == c));
    assert_eq!(plan.len(), 3 + 14 + 3);
    assert_eq!(plan[0].action, Action::RequireDir {
        path: s("/w/relibc/target/x86_64-seele/release"),
        missing: s("relibc runtime dir not found: /w/relibc/target/x86_64-seele/release (build relibc for x86_64-seele first)"),
    });
    let dst = "/w/t/rust/build/h/stage2/lib/rustlib/x86_64-seele/lib";
    assert_eq!(plan[1].action, Action::RequireDir {
        path: s(dst),
        missing: format!("target rustlib dir not found: {dst} (did x.py build library/std for x86_64-seele?)"),
    });
    assert_eq!(plan[2].action, Action::CreateDirAll { path: s(dst) });
    assert_eq!(plan[3].action, Action::RequireFile {
        path: s("/w/relibc/target/x86_64-seele/release/crt0.o"),
        missing: s("missing crt0.o in /w/relibc/target/x86_64-seele/release (relibc not fully built for x86_64-seele)"),
    });
    assert_eq!(plan[4].action, Action::Copy {
        from: s("/w/relibc/target/x86_64-seele/release/crt0.o"),
        to: format!("{dst}/crt0.o"),
    });
    assert_eq!(plan[16].action, Action::Copy {
        from: s("/w/relibc/target/x86_64-seele/release/libpthread.a"),
        to: format!("{dst}/libpthread.a"),
    });
    assert_eq!(plan[17].action, Action::ClearSlot { path: format!("{dst}/libc.so.6"), policy: SlotPolicy::Any });
    assert_eq!(plan[18].action, Action::Symlink { target: s("libc.so"), link: format!("{dst}/libc.so.6") });
    assert_eq!(plan[19].action, Action::Print {
        message: format!("installed Seele runtime (CRT + static/shared libc) into {dst}"),
    });
}

#[test]
fn the_bin_tools_plan() {
    let tools = strs(&["llvm-ar", "llvm-ranlib"]);
    let plan = install_llvm_bin_tools("/w/.llvm", "/st", &tools);
    assert_eq!(plan.len(), 2 + 6 + 1);
    assert_eq!(plan[0].action, Action::RequireDir { path: s("/w/.llvm/bin"), missing: s("LLVM bin dir not found: /w/.llvm/bin") });
    assert_eq!(plan[1].action, Action::RequireDir { path: s("/st/bin"), missing: s("Rust toolchain bin dir not found: /st/bin") });
    assert_eq!(plan[2].action, Action::RequireFile {
        path: s("/w/.llvm/bin/llvm-ar"),
        missing: s("missing LLVM tool llvm-ar at /w/.llvm/bin/llvm-ar"),
    });
    assert_eq!(plan[3].action, Action::ClearSlot { path: s("/st/bin/llvm-ar"), policy: SlotPolicy::Any });
    assert_eq!(plan[4].action, Action::Symlink { target: s("/w/.llvm/bin/llvm-ar"), link: s("/st/bin/llvm-ar") });
    assert_eq!(plan[7].action, Action::Symlink { target: s("/w/.llvm/bin/llvm-ranlib"), link: s("/st/bin/llvm-ranlib") });
    assert_eq!(plan[8].action, Action::Print { message: s("installed LLVM bin tools into /st/bin") });
    assert!(plan.iter().all(|st| st.context == "failed to install LLVM bin tools into Rust toolchain: "));
}

#[test]
fn the_link_plan_for_the_default_target() {
    let c = Config::defaults();
    let plan = link_rust(&c, "/w/t", "x86_64-unknown-linux-gnu");
    let stage = "/w/t/rust/build/x86_64-unknown-linux-gnu/stage2";
    assert_eq!(plan[0], Step {
        context: s(""),
        action: Action::RequireDir { path: s(stage), missing: format!("stage directory not found: {stage} (try --stage2)") },
    });
    assert_eq!(plan[1], Step {
        context: s("failed to install host rustlib: "),
        action: Action::SyncRustlib {
            rust_dir: s("/w/t/rust"),
            host: s("x86_64-unknown-linux-gnu"),
            stage_dir: s(stage),
            triple: s("x86_64-unknown-linux-gnu"),
        },
    });
    assert_eq!(plan[2].context, "failed to install target rustlib: ");
    let runtime = install_seele_runtime("/w/t", stage, "x86_64-seele");
    let tools = install_llvm_bin_tools("/w/.llvm", stage, &strs(&["llvm-ar", "llvm-ranlib"]));
    assert_eq!(plan.len(), 3 + runtime.len() + tools.len() + 2);
    assert_eq!(plan[3..3 + runtime.len()].to_vec(), runtime);
    let n = plan.len();
    assert_eq!(plan[n - 2], Step {
        context: s("rustup toolchain link failed: "),
        action: Action::Run(Command {
            dir: s("/w/t"),
            program: s("rustup"),
            args: strs(&["toolchain", "link", "seele", stage]),
        }),
    });
    assert_eq!(plan[n - 1].action, Action::Print { message: format!("installed toolchain 'seele' from {stage}") });
}

#[test]
fn the_link_plan_for_another_target_and_stage1() {
    let mut c = Config::defaults();
    c.target = s("x86_64-unknown-linux-gnu");
    c.stage2 = false;
    c.toolchain = s("dev");
    let plan = link_rust(&c, "/w/t", "h");
    assert_eq!(plan.len(), 3 + 9 + 2);
    assert_eq!(plan[0].action, Action::RequireDir {
        path: s("/w/t/rust/build/h/stage1"),
        missing: s("stage directory not found: /w/t/rust/build/h/stage1 (try --stage2)"),
    });
    let n = plan.len();
    assert_eq!(plan[n - 1].action, Action::Print { message: s("installed toolchain 'dev' from /w/t/rust/build/h/stage1") });
}

#[test]
fn with_force_the_rustup_answer_does_not_matter() {
    let c = Config::defaults();
    let a = build_rust(&c, "/w/t", c.toolchain_already_exists(&Ok(true)));
    let b = build_rust(&c, "/w/t", c.toolchain_already_exists(&Err(s("failed to run rustup: gone"))));
    assert_eq!(a, b);
    assert_eq!(a.len(), 3);
}

#[test]
fn skip_build_only_links_with_rustup() {
    let mut c = Config::defaults();
    c.skip_build = true;
    let stage = "/w/t/rust/build/h/stage2";
    assert_eq!(link_rust(&c, "/w/t", "h"), vec![
        Step {
            context: s(""),
            action: Action::RequireDir { path: s(stage), missing: format!("stage directory not found: {stage} (try --stage2)") },
        },
        Step {
            context: s("rustup toolchain link failed: "),
            action: Action::Run(Command { dir: s("/w/t"), program: s("rustup"), args: strs(&["toolchain", "link", "seele", stage]) }),
        },
        Step { context: s(""), action: Action::Print { message: format!("installed toolchain 'seele' from {stage}") } },
    ]);
}
