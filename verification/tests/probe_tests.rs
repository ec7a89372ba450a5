use lib::probe::{ensure_sysroot_mounted, host_failure_message, mount_followup, mount_probe, rust_host_triple, rust_host_triple_of_output, toolchain_exists,
    toolchain_exists_of_output, MountStatus};
use lib::steps::{Action, Command, Failure, Step};

const RUSTC_VV: &str = "rustc 1.80.0-nightly (abc 2024-05-01)\nbinary: rustc\ncommit-hash: abc\nhost: x86_64-unknown-linux-gnu\nrelease: 1.80.0-nightly\nLLVM version: 18.1.4\n";

#[test]
fn host_triple_is_read_from_rustc() {
    assert_eq!(rust_host_triple(&Ok(RUSTC_VV.to_string())), Ok("x86_64-unknown-linux-gnu".to_string()));
    assert_eq!(rust_host_triple(&Ok("host:   aarch64-apple-darwin  \r\nhost: other".to_string())),
        Ok("aarch64-apple-darwin".to_string()));
}

#[test]
fn host_triple_errors() {
    assert_eq!(rust_host_triple(&Ok("binary: rustc\n hosts: x\n".to_string())),
        Err("unable to parse rustc host triple".to_string()));
    assert_eq!(rust_host_triple(&Err(Failure::Io("not found".to_string()))),
        Err("failed to run rustc: not found".to_string()));
    assert_eq!(rust_host_triple(&Err(Failure::Status("exit status: 1".to_string()))),
        Err("rustc -vV failed with status exit status: 1".to_string()));
}

#[test]
fn a_host_failure_names_its_reason() {
    assert_eq!(host_failure_message("unable to parse rustc host triple"),
        "failed to get host: unable to parse rustc host triple".to_string());
    let why = rust_host_triple(&Err(Failure::Io("not found".to_string()))).unwrap_err();
    assert_eq!(host_failure_message(&why), "failed to get host: failed to run rustc: not found".to_string());
}

#[test]
fn toolchains_are_found_by_the_start_of_their_line() {
    let out = "stable-x86_64-unknown-linux-gnu (default)\nseele\nnightly-x86_64-unknown-linux-gnu\n".to_string();
    assert_eq!(toolchain_exists(&Ok(out.clone()), "seele"), Ok(true));
    assert_eq!(toolchain_exists(&Ok(out.clone()), "nightly"), Ok(true));
    assert_eq!(toolchain_exists(&Ok(out.clone()), "beta"), Ok(false));
    assert_eq!(toolchain_exists(&Ok(out), "x86_64"), Ok(false));
    assert_eq!(toolchain_exists(&Ok(String::new()), "seele"), Ok(false));
    assert_eq!(toolchain_exists(&Err(Failure::Io("gone".to_string())), "seele"),
        Err("failed to run rustup: gone".to_string()));
    assert_eq!(toolchain_exists(&Err(Failure::Status("exit status: 2".to_string())), "seele"),
        Err("rustup toolchain list failed with status exit status: 2".to_string()));
}

fn s(x: &str) -> String {
    x.to_string()
}

#[test]
fn the_sysroot_is_made_then_checked() {
    let plan = ensure_sysroot_mounted("/work/toolchain");
    assert_eq!(plan, vec![
        Step { context: s(""), action: Action::CreateDirAll { path: s("/work/sysroot") } },
        Step { context: s(""), action: Action::CheckMount { root: s("/work"), sysroot: s("/work/sysroot") } },
    ]);
    let plan = ensure_sysroot_mounted("/");
    assert_eq!(plan, vec![Step {
        context: s(""),
        action: Action::Fail { message: s("cannot determine workspace root (toolchain has no parent)") },
    }]);
    assert_eq!(mount_probe("/work/sysroot"),
        Command { dir: s("."), program: s("mountpoint"), args: vec![s("-q"), s("/work/sysroot")] });
}

#[test]
fn a_mounted_sysroot_needs_nothing() {
    let st = MountStatus { success: true, code: Some(0), shown: s("exit status: 0") };
    assert!(mount_followup("/work", "/work/sysroot", &st).is_empty());
}

#[test]
fn an_unmounted_sysroot_is_mounted_from_the_disk_image() {
    for code in [1, 32] {
        let st = MountStatus { success: false, code: Some(code), shown: format!("exit status: {code}") };
        let plan = mount_followup("/work", "/work/sysroot", &st);
        assert_eq!(plan, vec![
            Step {
                context: s(""),
                action: Action::RequireFile {
                    path: s("/work/disk.img"),
                    missing: s("disk image not found: /work/disk.img (create/mount it before installing the toolchain)"),
                },
            },
            Step {
                context: s("failed to mount sysroot: "),
                action: Action::Run(Command {
                    dir: s("/work"),
                    program: s("sudo"),
                    args: vec![s("mount"), s("-o"), s("loop"), s("/work/disk.img"), s("/work/sysroot")],
                }),
            },
        ]);
    }
}

#[test]
fn an_odd_mountpoint_answer_stops() {
    let st = MountStatus { success: false, code: Some(2), shown: s("exit status: 2") };
    let plan = mount_followup("/work", "/work/sysroot", &st);
    assert_eq!(plan, vec![Step {
        context: s(""),
        action: Action::Fail { message: s("mountpoint -q /work/sysroot exited with status exit status: 2") },
    }]);
    let st = MountStatus { success: false, code: None, shown: s("signal: 9 (SIGKILL)") };
    assert_eq!(mount_followup("/work", "/work/sysroot", &st).len(), 1);
}

#[test]
fn raw_output_is_decoded_before_it_is_read() {
    assert_eq!(rust_host_triple_of_output(&Ok(RUSTC_VV.as_bytes().to_vec())), Ok(s("x86_64-unknown-linux-gnu")));
    let mut odd = b"binary: \xff\xfe\nhost: riscv64gc-unknown-linux-gnu\n".to_vec();
    odd.push(0xc3);
    assert_eq!(rust_host_triple_of_output(&Ok(odd)), Ok(s("riscv64gc-unknown-linux-gnu")));
    // An invalid byte in the triple's line comes back replaced.
    assert_eq!(rust_host_triple_of_output(&Ok(b"host: x\xff\n".to_vec())), Ok(s("x\u{fffd}")));
    assert_eq!(rust_host_triple_of_output(&Err(Failure::Status(s("exit status: 1")))),
        Err(s("rustc -vV failed with status exit status: 1")));
    assert_eq!(toolchain_exists_of_output(&Ok(b"stable\nseele (default)\n".to_vec()), "seele"), Ok(true));
    assert_eq!(toolchain_exists_of_output(&Ok(b"\xffseele\n".to_vec()), "seele"), Ok(false));
    assert_eq!(toolchain_exists_of_output(&Err(Failure::Io(s("gone"))), "seele"), Err(s("failed to run rustup: gone")));
}
