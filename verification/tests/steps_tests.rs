use lib::steps::{advance, fatal_message, Progress, remove_installed_path, slot_decision, Action, Command, Failure, SlotDecision, SlotPolicy, SlotState, Step};

fn s(x: &str) -> String {
    x.to_string()
}

fn step(context: &str, action: Action) -> Step {
    Step { context: s(context), action }
}

#[test]
fn an_absent_path_needs_no_removal() {
    assert_eq!(remove_installed_path(false, "/sysroot/libs/include/c++/v1"), None);
}

#[test]
fn a_present_path_is_removed_as_root() {
    assert_eq!(
        remove_installed_path(true, "/sysroot/libs/include/c++/v1"),
        Some(Command { dir: s("/"), program: s("sudo"), args: vec![s("rm"), s("-rf"), s("/sysroot/libs/include/c++/v1")] })
    );
}

#[test]
fn slots_are_cleared_as_the_policy_says() {
    assert_eq!(slot_decision(SlotPolicy::SymlinkOnly, SlotState::Absent), SlotDecision::Leave);
    assert_eq!(slot_decision(SlotPolicy::SymlinkOnly, SlotState::Symlink), SlotDecision::Remove);
    assert_eq!(slot_decision(SlotPolicy::SymlinkOnly, SlotState::Other), SlotDecision::Refuse);
    assert_eq!(slot_decision(SlotPolicy::Any, SlotState::Absent), SlotDecision::Leave);
    assert_eq!(slot_decision(SlotPolicy::Any, SlotState::Symlink), SlotDecision::Remove);
    assert_eq!(slot_decision(SlotPolicy::Any, SlotState::Other), SlotDecision::Remove);
}

#[test]
fn failure_messages_for_each_action() {
    let io = Failure::Io(s("Permission denied (os error 13)"));
    assert_eq!(
        step("", Action::CreateDirAll { path: s("/w/.llvm") }).failure_message(&io),
        "failed to create /w/.llvm: Permission denied (os error 13)"
    );
    let cmake = Action::Run(Command { dir: s("/w/t/llvm-project"), program: s("cmake"), args: vec![] });
    assert_eq!(
        step("failed to configure LLVM: ", cmake.clone()).failure_message(&Failure::Status(s("exit status: 1"))),
        "failed to configure LLVM: cmake exited with status exit status: 1"
    );
    assert_eq!(
        step("failed to configure LLVM: ", cmake).failure_message(&Failure::Io(s("No such file or directory (os error 2)"))),
        "failed to configure LLVM: failed to run cmake: No such file or directory (os error 2)"
    );
    assert_eq!(
        step("x: ", Action::RemoveInstalled { path: s("/p") }).failure_message(&Failure::Status(s("exit status: 1"))),
        "x: sudo exited with status exit status: 1"
    );
    let slot = Action::ClearSlot { path: s("/w/.llvm/sysroot"), policy: SlotPolicy::SymlinkOnly };
    assert_eq!(
        step("failed to link LLVM sysroot: ", slot.clone()).failure_message(&Failure::NotSymlink),
        "failed to link LLVM sysroot: /w/.llvm/sysroot exists and is not a symlink"
    );
    assert_eq!(
        step("", slot.clone()).failure_message(&Failure::Inspect(s("e"))),
        "failed to inspect /w/.llvm/sysroot: e"
    );
    assert_eq!(step("", slot).failure_message(&io), "failed to remove /w/.llvm/sysroot: Permission denied (os error 13)");
    assert_eq!(
        step("", Action::Symlink { target: s("libc.so"), link: s("/d/libc.so.6") }).failure_message(&Failure::Io(s("e"))),
        "failed to create symlink /d/libc.so.6 -> libc.so: e"
    );
    assert_eq!(
        step("", Action::Copy { from: s("/a"), to: s("/b") }).failure_message(&Failure::Io(s("e"))),
        "failed to copy /a -> /b: e"
    );
    assert_eq!(
        step("c: ", Action::RequireDir { path: s("/a"), missing: s("gone") }).failure_message(&Failure::Missing),
        "c: gone"
    );
    assert_eq!(step("c: ", Action::Fail { message: s("stop") }).failure_message(&Failure::Missing), "c: stop");
    assert_eq!(
        step("", Action::CheckMount { root: s("/w"), sysroot: s("/w/sysroot") }).failure_message(&Failure::Io(s("e"))),
        "failed to run mountpoint: e"
    );
}

#[test]
fn a_run_goes_on_until_the_first_failure() {
    let plan = vec![
        step("", Action::Print { message: s("a") }),
        step("ctx: ", Action::Fail { message: s("stop here") }),
        step("", Action::Print { message: s("b") }),
    ];
    assert_eq!(advance(&plan, 0, &Ok(())), Progress::Next(1));
    assert_eq!(advance(&plan, 1, &Err(Failure::Missing)), Progress::Stop(s("error: ctx: stop here")));
    assert_eq!(advance(&plan, 2, &Ok(())), Progress::Done);
    assert_eq!(fatal_message("boom"), "error: boom");
}

#[test]
fn a_copy_of_a_named_entry_reports_both_paths() {
    let a = Action::CopyEntry { src_dir: s("/src"), dst_dir: s("/dst"), name: b"libstd-1.rlib".to_vec() };
    assert_eq!(step("c: ", a).failure_message(&Failure::Io(s("e"))), "c: failed to copy /src/libstd-1.rlib -> /dst/libstd-1.rlib: e");
}
