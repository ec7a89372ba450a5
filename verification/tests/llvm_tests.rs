use lib::config::Config;
use lib::llvm::{cmake_args, install_libcpp, install_llvm, install_llvm_sysroot_link, llvm_runtimes};
use lib::steps::{Action, Command, SlotPolicy, Step};

fn s(x: &str) -> String {
    x.to_string()
}

fn sudo(args: &[&str]) -> Action {
    Action::Run(Command { dir: s("/"), program: s("sudo"), args: args.iter().map(|a| s(a)).collect() })
}

#[test]
fn runtimes_follow_the_cxx_switch() {
    assert_eq!(llvm_runtimes(true), vec!["libunwind", "libcxxabi", "libcxx"]);
    assert_eq!(llvm_runtimes(false), vec!["compiler-rt"]);
}

#[test]
fn cmake_arguments_without_cxx() {
    let a = cmake_args("x86_64-unknown-seele", "build-seele", "/w/sysroot", "/w/.llvm", false);
    assert_eq!(a.len(), 21);
    assert_eq!(&a[..6], &["-S", "llvm", "-B", "build-seele", "-G", "Ninja"]);
    assert_eq!(a[6], "-UBUILTINS_x86_64-unknown-seele_CMAKE_C_FLAGS");
    assert_eq!(a[10], "-DLLVM_ENABLE_RUNTIMES=compiler-rt");
    assert_eq!(a[12], "-DLLVM_BUILTIN_TARGETS=x86_64-unknown-seele");
    assert_eq!(a[14], "-DBUILTINS_x86_64-unknown-seele_CMAKE_SYSROOT=/w/sysroot");
    assert_eq!(a[17], "-DBUILTINS_x86_64-unknown-seele_CMAKE_C_FLAGS=--sysroot=/w/sysroot");
    assert_eq!(a[20], "-DCMAKE_INSTALL_PREFIX=/w/.llvm");
}

#[test]
fn cmake_arguments_with_cxx() {
    let t = "x86_64-unknown-seele";
    let a = cmake_args(t, "build-seele", "/w/sysroot", "/w/.llvm", true);
    assert_eq!(a.len(), 54);
    assert_eq!(a[10], "-DLLVM_ENABLE_RUNTIMES=libunwind;libcxxabi;libcxx");
    assert_eq!(a[21], "-DLLVM_RUNTIME_TARGETS=x86_64-unknown-seele");
    assert_eq!(a[24], "-DRUNTIMES_x86_64-unknown-seele_CMAKE_SYSTEM_NAME=Generic");
    assert_eq!(
        a[30],
        "-DRUNTIMES_x86_64-unknown-seele_CMAKE_C_FLAGS=--sysroot=/w/sysroot -D_LIBCPP_PROVIDES_DEFAULT_RUNE_TABLE"
    );
    assert_eq!(a[53], "-DRUNTIMES_x86_64-unknown-seele_LLVM_DEFAULT_TO_GLIBCXX_USE_CXX11_ABI=OFF");
    let without = cmake_args(t, "build-seele", "/w/sysroot", "/w/.llvm", false);
    assert_eq!(&a[..10], &without[..10]);
    assert_eq!(&a[11..21], &without[11..21]);
}

#[test]
fn the_sysroot_link_replaces_only_a_link() {
    assert_eq!(install_llvm_sysroot_link("/w/.llvm", "/w/sysroot"), vec![
        Step {
            context: s("failed to link LLVM sysroot: "),
            action: Action::ClearSlot { path: s("/w/.llvm/sysroot"), policy: SlotPolicy::SymlinkOnly },
        },
        Step {
            context: s("failed to link LLVM sysroot: "),
            action: Action::Symlink { target: s("/w/sysroot"), link: s("/w/.llvm/sysroot") },
        },
    ]);
}

#[test]
fn libcpp_is_copied_into_the_sysroot() {
    let plan = install_libcpp("/w/.llvm", "/w/sysroot", "x86_64-unknown-seele");
    let c = "failed to install libc++ into sysroot: ";
    assert!(plan.iter().all(|st| st.context == c));
    assert_eq!(plan.len(), 8 + 1 + 12 + 9 + 1);
    assert_eq!(plan[0].action, Action::RequireDir {
        path: s("/w/.llvm/include/c++/v1"),
        missing: s("libc++ headers not found at /w/.llvm/include/c++/v1"),
    });
    assert_eq!(plan[1].action, Action::RemoveInstalled { path: s("/w/sysroot/libs/include/c++/v1") });
    assert_eq!(plan[2].action, sudo(&["mkdir", "-p", "/w/sysroot/libs/include/c++"]));
    assert_eq!(plan[3].action, sudo(&["cp", "-a", "/w/.llvm/include/c++/v1", "/w/sysroot/libs/include/c++/v1"]));
    assert_eq!(plan[4].action, Action::RequireDir {
        path: s("/w/.llvm/include/x86_64-unknown-seele/c++/v1"),
        missing: s("target-specific libc++ headers not found at /w/.llvm/include/x86_64-unknown-seele/c++/v1"),
    });
    assert_eq!(plan[6].action, sudo(&["mkdir", "-p", "/w/sysroot/libs/include/x86_64-unknown-seele/c++"]));
    assert_eq!(plan[8].action, sudo(&["mkdir", "-p", "/w/sysroot/libs/lib_binaries"]));
    assert_eq!(plan[9].action, Action::RequireFile {
        path: s("/w/.llvm/lib/x86_64-unknown-seele/libc++.a"),
        missing: s("missing libc++.a at /w/.llvm/lib/x86_64-unknown-seele/libc++.a"),
    });
    assert_eq!(plan[10].action, sudo(&["cp", "-f", "/w/.llvm/lib/x86_64-unknown-seele/libc++.a",
        "/w/sysroot/libs/lib_binaries/libc++.a"]));
    assert_eq!(plan[21].action, Action::RemoveQuietly { path: s("/w/.llvm/lib/x86_64-unknown-seele/libc++.so.1") });
    assert_eq!(plan[22].action, Action::Symlink {
        target: s("libc++.so"),
        link: s("/w/.llvm/lib/x86_64-unknown-seele/libc++.so.1"),
    });
    assert_eq!(plan[23].action, sudo(&["ln", "-sfn", "libc++.so", "/w/sysroot/libs/lib_binaries/libc++.so.1"]));
    assert_eq!(plan[30].action, Action::Print { message: s("installed libc++ headers and libraries into /w/sysroot") });
}

#[test]
fn the_llvm_plan_in_order() {
    let mut config = Config::defaults();
    config.llvm_cxx = false;
    let plan = install_llvm(&config, "/w/toolchain", Some(8));
    assert_eq!(plan.len(), 7);
    assert_eq!(plan[0], Step {
        context: s(""),
        action: Action::RequireDir {
            path: s("/w/toolchain/llvm-project"),
            missing: s("llvm-project not found; run this from the toolchain dir (missing /w/toolchain/llvm-project)"),
        },
    });
    assert_eq!(plan[1].action, Action::CreateDirAll { path: s("/w/.llvm") });
    match &plan[2].action {
        Action::Run(c) => {
            assert_eq!(plan[2].context, "failed to configure LLVM: ");
            assert_eq!(c.dir, "/w/toolchain/llvm-project");
            assert_eq!(c.program, "cmake");
            assert_eq!(c.args, cmake_args("x86_64-unknown-seele", "build-seele", "/w/sysroot", "/w/.llvm", false));
        },
        other => panic!("unexpected {other:?}"),
    }
    assert_eq!(plan[3], Step {
        context: s("failed to build/install LLVM: "),
        action: Action::Run(Command {
            dir: s("/w/toolchain/llvm-project"),
            program: s("ninja"),
            args: vec![s("-C"), s("build-seele"), s("-j"), s("8"), s("install")],
        }),
    });
    assert_eq!(plan[4..6].to_vec(), install_llvm_sysroot_link("/w/.llvm", "/w/sysroot"));
    assert_eq!(plan[6].action, Action::Print { message: s("installed LLVM toolchain into /w/.llvm") });
}

#[test]
fn the_llvm_plan_with_cxx_and_one_job() {
    let config = Config::defaults();
    let plan = install_llvm(&config, "/w/toolchain", None);
    let cxx = install_libcpp("/w/.llvm", "/w/sysroot", "x86_64-unknown-seele");
    assert_eq!(plan.len(), 7 + cxx.len());
    assert_eq!(plan[6..6 + cxx.len()].to_vec(), cxx);
    match &plan[3].action {
        Action::Run(c) => assert_eq!(c.args[3], "1"),
        other => panic!("unexpected {other:?}"),
    }
}

#[test]
fn the_llvm_plan_needs_a_workspace_root() {
    let plan = install_llvm(&Config::defaults(), "/", None);
    assert_eq!(plan.len(), 2);
    assert_eq!(plan[1].action, Action::Fail { message: s("cannot determine workspace root (toolchain has no parent)") });
}

#[test]
fn skip_build_leaves_llvm_alone() {
    let mut config = Config::defaults();
    config.skip_build = true;
    assert!(install_llvm(&config, "/w/toolchain", None).is_empty());
}
