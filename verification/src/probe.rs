//! Reading what other programs report: the host triple from `rustc -vV`,
//! the installed toolchains from `rustup toolchain list`, and whether the
//! sysroot is mounted from `mountpoint -q`.

use vstd::prelude::*;
use crate::text::{owned, concat2, concat3, has_prefix, trimmed, is_space, law_trimmed_has_no_outer_space, lines_of, split_lines, starts_with, trim,
    chars_of, slice_of, lossy, lossy_text};
use crate::paths::{joined, parent_of, join, parent};
use crate::steps::{Action, ActionModel, Command, CommandModel, Failure, FailureModel, Step, StepModel,
    failure_detail, run, step, step_model};

verus! {

/// The host triple that the first line beginning with `host: ` names,
/// without surrounding white space.
pub open spec fn host_line(lines: Seq<Seq<char>>) -> Option<Seq<char>>
    decreases lines.len(),
{
    if lines.len() == 0 {
        None
    } else if has_prefix(lines[0], "host: "@) {
        Some(trimmed(lines[0].skip("host: "@.len() as int)))
    } else {
        host_line(lines.skip(1))
    }
}

/// The host triple read from the outcome of `rustc -vV` (its standard
/// output, or how it failed), or the message why there is none.
pub open spec fn host_triple_spec(output: Result<Seq<char>, FailureModel>) -> Result<Seq<char>, Seq<char>> {
    match output {
        Err(FailureModel::Status(s)) => Err("rustc -vV failed with status "@ + s),
        Err(f) => Err("failed to run rustc: "@ + failure_detail(f)),
        Ok(out) => match host_line(lines_of(out)) {
            Some(h) => Ok(h),
            None => Err("unable to parse rustc host triple"@),
        },
    }
}

/// The host triple of the installed Rust, read from the outcome of
/// `rustc -vV`: its standard output, or how it failed.
pub fn rust_host_triple(output: &Result<String, Failure>) -> (r: Result<String, String>)
    ensures
        match r {
            Ok(h) => host_triple_spec(match output {
                Ok(o) => Ok(o@),
                Err(f) => Err(f.deep_view()),
            }) == Ok::<Seq<char>, Seq<char>>(h@),
            Err(m) => host_triple_spec(match output {
                Ok(o) => Ok(o@),
                Err(f) => Err(f.deep_view()),
            }) == Err::<Seq<char>, Seq<char>>(m@),
        },
{
    let out = match output {
        Err(Failure::Status(s)) => {
            return Err(concat2("rustc -vV failed with status ", s.as_str()));
        },
        Err(f) => {
            let detail = match f {
                Failure::Io(e) => e.clone(),
                Failure::Inspect(e) => e.clone(),
                Failure::Status(e) => e.clone(),
                _ => {
                    proof {
                        reveal_strlit("");
                    }
                    owned("")
                },
            };
            return Err(concat2("failed to run rustc: ", detail.as_str()));
        },
        Ok(o) => o,
    };
    let lines = split_lines(out.as_str());
    let ghost ls = lines.deep_view();
    let ghost outcome = host_triple_spec(match output {
        Ok(o) => Ok(o@),
        Err(f) => Err(f.deep_view()),
    });
    assert(outcome == match host_line(ls) {
        Some(h) => Ok(h),
        None => Err("unable to parse rustc host triple"@),
    });
    let key = "host: ";
    let key_len = chars_of(key).len();
    let mut i: usize = 0;
    assert(ls.skip(0) =~= ls);
    while i < lines.len()
        invariant
            i <= lines.len(),
            ls == lines.deep_view(),
            key_len == key@.len(),
            key@ == "host: "@,
            host_line(ls) == host_line(ls.skip(i as int)),
            outcome == match host_line(ls) {
                Some(h) => Ok(h),
                None => Err::<Seq<char>, Seq<char>>("unable to parse rustc host triple"@),
            },
            outcome == host_triple_spec(match output {
                Ok(o) => Ok(o@),
                Err(f) => Err(f.deep_view()),
            }),
        decreases lines.len() - i,
    {
        let line = lines[i].as_str();
        assert(ls.skip(i as int)[0] == line@);
        assert(ls.skip(i as int).skip(1) =~= ls.skip(i + 1));
        if starts_with(line, key) {
            let n = chars_of(line).len();
            let rest = slice_of(line, key_len, n);
            assert(rest@ =~= line@.skip(key_len as int));
            return Ok(trim(rest.as_str()));
        }
        i = i + 1;
    }
    Err(owned("unable to parse rustc host triple"))
}

proof fn lemma_host_line_trimmed(lines: Seq<Seq<char>>)
    ensures
        host_line(lines) matches Some(h) ==> h.len() == 0 || (!is_space(h[0]) && !is_space(h.last())),
    decreases lines.len(),
{
    if lines.len() > 0 {
        if has_prefix(lines[0], "host: "@) {
            law_trimmed_has_no_outer_space(lines[0].skip("host: "@.len() as int));
        } else {
            lemma_host_line_trimmed(lines.skip(1));
        }
    }
}

/// The host triple read from `rustc -vV` neither begins nor ends with
/// white space.
pub proof fn law_host_triple_is_trimmed(output: Result<Seq<char>, FailureModel>)
    ensures
        host_triple_spec(output) matches Ok(h) ==> h.len() == 0 || (!is_space(h[0]) && !is_space(h.last())),
{
    if let Ok(out) = output {
        lemma_host_line_trimmed(lines_of(out));
    }
}

/// The message with which the installer stops when the host triple
/// cannot be read.
pub open spec fn host_failure(why: Seq<char>) -> Seq<char> {
    "failed to get host: "@ + why
}

/// The message with which the installer stops when the host triple
/// cannot be read, for the reason `why` that [`rust_host_triple`] gave.
pub fn host_failure_message(why: &str) -> (r: String)
    ensures
        r@ == host_failure(why@),
{
    concat2("failed to get host: ", why)
}

/// Whether one of `lines` begins with `name`.
pub open spec fn some_line_starts_with(lines: Seq<Seq<char>>, name: Seq<char>) -> bool {
    exists|i: int| 0 <= i < lines.len() && has_prefix(#[trigger] lines[i], name)
}

/// Whether rustup lists the toolchain `name`, read from the outcome of
/// `rustup toolchain list`, or the message why that is not known.
pub open spec fn toolchain_listed_spec(output: Result<Seq<char>, FailureModel>, name: Seq<char>) -> Result<bool, Seq<char>> {
    match output {
        Err(FailureModel::Status(s)) => Err("rustup toolchain list failed with status "@ + s),
        Err(f) => Err("failed to run rustup: "@ + failure_detail(f)),
        Ok(out) => Ok(some_line_starts_with(lines_of(out), name)),
    }
}

/// Whether rustup lists a toolchain whose line begins with `name`, read from
/// the outcome of `rustup toolchain list`.
pub fn toolchain_exists(output: &Result<String, Failure>, name: &str) -> (r: Result<bool, String>)
    ensures
        match r {
            Ok(b) => toolchain_listed_spec(match output {
                Ok(o) => Ok(o@),
                Err(f) => Err(f.deep_view()),
            }, name@) == Ok::<bool, Seq<char>>(b),
            Err(m) => toolchain_listed_spec(match output {
                Ok(o) => Ok(o@),
                Err(f) => Err(f.deep_view()),
            }, name@) == Err::<bool, Seq<char>>(m@),
        },
{
    let out = match output {
        Err(Failure::Status(s)) => {
            return Err(concat2("rustup toolchain list failed with status ", s.as_str()));
        },
        Err(f) => {
            let detail = match f {
                Failure::Io(e) => e.clone(),
                Failure::Inspect(e) => e.clone(),
                Failure::Status(e) => e.clone(),
                _ => {
                    proof {
                        reveal_strlit("");
                    }
                    owned("")
                },
            };
            return Err(concat2("failed to run rustup: ", detail.as_str()));
        },
        Ok(o) => o,
    };
    let lines = split_lines(out.as_str());
    let ghost ls = lines.deep_view();
    let ghost outcome = toolchain_listed_spec(match output {
        Ok(o) => Ok(o@),
        Err(f) => Err(f.deep_view()),
    }, name@);
    assert(outcome == Ok::<bool, Seq<char>>(some_line_starts_with(ls, name@)));
    let mut i: usize = 0;
    while i < lines.len()
        invariant
            i <= lines.len(),
            ls == lines.deep_view(),
            forall|j: int| 0 <= j < i ==> !has_prefix(#[trigger] ls[j], name@),
            outcome == Ok::<bool, Seq<char>>(some_line_starts_with(ls, name@)),
            outcome == toolchain_listed_spec(match output {
                Ok(o) => Ok(o@),
                Err(f) => Err(f.deep_view()),
            }, name@),
        decreases lines.len() - i,
    {
        if starts_with(lines[i].as_str(), name) {
            assert(has_prefix(ls[i as int], name@));
            return Ok(true);
        }
        i = i + 1;
    }
    Ok(false)
}

/// The outcome of a program as the readers of its output take it: its
/// standard output decoded from `bytes` as `String::from_utf8_lossy` decodes
/// them, or how it failed.
pub open spec fn decoded_output(output: &Result<Vec<u8>, Failure>) -> Result<Seq<char>, FailureModel> {
    match output {
        Ok(bytes) => Ok(lossy(bytes@)),
        Err(f) => Err(f.deep_view()),
    }
}

/// A copy of `f`.
fn copy_failure(f: &Failure) -> (r: Failure)
    ensures
        r.deep_view() == f.deep_view(),
{
    match f {
        Failure::Missing => Failure::Missing,
        Failure::Io(e) => Failure::Io(e.clone()),
        Failure::Inspect(e) => Failure::Inspect(e.clone()),
        Failure::NotSymlink => Failure::NotSymlink,
        Failure::Status(e) => Failure::Status(e.clone()),
    }
}

/// The outcome of a program with its standard output decoded to text.
fn decode_output(output: &Result<Vec<u8>, Failure>) -> (r: Result<String, Failure>)
    ensures
        match r {
            Ok(o) => decoded_output(output) == Ok::<Seq<char>, FailureModel>(o@),
            Err(f) => decoded_output(output) == Err::<Seq<char>, FailureModel>(f.deep_view()),
        },
{
    match output {
        Ok(bytes) => Ok(lossy_text(bytes.as_slice())),
        Err(f) => Err(copy_failure(f)),
    }
}

/// The host triple of the installed Rust, read from the raw outcome of
/// `rustc -vV`: the bytes of its standard output, or how it failed.
pub fn rust_host_triple_of_output(output: &Result<Vec<u8>, Failure>) -> (r: Result<String, String>)
    ensures
        match r {
            Ok(h) => host_triple_spec(decoded_output(output)) == Ok::<Seq<char>, Seq<char>>(h@),
            Err(m) => host_triple_spec(decoded_output(output)) == Err::<Seq<char>, Seq<char>>(m@),
        },
{
    let text = decode_output(output);
    rust_host_triple(&text)
}

/// Whether rustup lists a toolchain whose line begins with `name`, read from
/// the raw outcome of `rustup toolchain list`: the bytes of its standard
/// output, or how it failed.
pub fn toolchain_exists_of_output(output: &Result<Vec<u8>, Failure>, name: &str) -> (r: Result<bool, String>)
    ensures
        match r {
            Ok(b) => toolchain_listed_spec(decoded_output(output), name@) == Ok::<bool, Seq<char>>(b),
            Err(m) => toolchain_listed_spec(decoded_output(output), name@) == Err::<bool, Seq<char>>(m@),
        },
{
    let text = decode_output(output);
    toolchain_exists(&text, name)
}

/// The steps that prepare the sysroot of the workspace around `cwd` and
/// ask whether it is mounted.
pub open spec fn mount_check_spec(cwd: Seq<char>) -> Seq<StepModel> {
    match parent_of(cwd) {
        None => seq![step_model(""@, ActionModel::Fail {
            message: "cannot determine workspace root (toolchain has no parent)"@,
        })],
        Some(root) => seq![
            step_model(""@, ActionModel::CreateDirAll { path: joined(root, "sysroot"@) }),
            step_model(""@, ActionModel::CheckMount { root, sysroot: joined(root, "sysroot"@) }),
        ],
    }
}

/// The steps that make sure that the workspace's sysroot directory exists
/// and ask whether it is mounted (what follows depends on the answer: see
/// [`mount_followup`]).
pub fn ensure_sysroot_mounted(cwd: &str) -> (r: Vec<Step>)
    ensures
        r.deep_view() == mount_check_spec(cwd@),
{
    let r = match parent(cwd) {
        None => vec![step("", Action::Fail { message: owned("cannot determine workspace root (toolchain has no parent)") })],
        Some(root) => {
            let sysroot = join(root.as_str(), "sysroot");
            vec![
                step("", Action::CreateDirAll { path: sysroot.clone() }),
                step("", Action::CheckMount { root, sysroot }),
            ]
        },
    };
    assert(r.deep_view() =~= mount_check_spec(cwd@));
    r
}

/// The command that asks whether `sysroot` is mounted.
pub open spec fn mount_probe_spec(sysroot: Seq<char>) -> CommandModel {
    CommandModel { dir: "."@, program: "mountpoint"@, args: seq!["-q"@, sysroot] }
}

/// The command that asks whether `sysroot` is mounted.
pub fn mount_probe(sysroot: &str) -> (r: Command)
    ensures
        r.deep_view() == mount_probe_spec(sysroot@),
{
    let args = vec![owned("-q"), owned(sysroot)];
    assert(args.deep_view() =~= seq!["-q"@, sysroot@]);
    Command { dir: owned("."), program: owned("mountpoint"), args }
}

/// How `mountpoint -q` exited.
#[derive(Debug, Clone, PartialEq, Eq)]
pub struct MountStatus {
    /// It exited successfully: the path is a mount point.
    pub success: bool,
    /// Its exit code, if it exited with one.
    pub code: Option<i32>,
    /// The description of its status.
    pub shown: String,
}

/// What follows the answer of `mountpoint -q`: nothing if the sysroot is
/// mounted; an error if the answer is neither "not a mount point" (1) nor
/// "no such mount" (32); else mounting the workspace's disk image there.
pub open spec fn mount_followup_spec(root: Seq<char>, sysroot: Seq<char>, success: bool, code: Option<i32>, shown: Seq<char>) -> Seq<StepModel> {
    let disk = joined(root, "disk.img"@);
    if success {
        Seq::empty()
    } else if code != Some(1i32) && code != Some(32i32) {
        seq![step_model(""@, ActionModel::Fail {
            message: "mountpoint -q "@ + sysroot + " exited with status "@ + shown,
        })]
    } else {
        seq![
            step_model(""@, ActionModel::RequireFile {
                path: disk,
                missing: "disk image not found: "@ + disk + " (create/mount it before installing the toolchain)"@,
            }),
            step_model("failed to mount sysroot: "@, ActionModel::Run(CommandModel {
                dir: root,
                program: "sudo"@,
                args: seq!["mount"@, "-o"@, "loop"@, disk, sysroot],
            })),
        ]
    }
}

/// The steps that follow the answer `status` of `mountpoint -q` about the
/// sysroot `sysroot` of the workspace `root`.
pub fn mount_followup(root: &str, sysroot: &str, status: &MountStatus) -> (r: Vec<Step>)
    ensures
        r.deep_view() == mount_followup_spec(root@, sysroot@, status.success, status.code, status.shown@),
{
    if status.success {
        let r: Vec<Step> = Vec::new();
        assert(r.deep_view() =~= Seq::<StepModel>::empty());
        return r;
    }
    let known = match status.code {
        Some(c) => c == 1 || c == 32,
        None => false,
    };
    if !known {
        let mut message = concat3("mountpoint -q ", sysroot, " exited with status ");
        message.append(status.shown.as_str());
        let r = vec![step("", Action::Fail { message })];
        assert(r.deep_view() =~= mount_followup_spec(root@, sysroot@, status.success, status.code, status.shown@));
        return r;
    }
    let disk = join(root, "disk.img");
    let args = vec![owned("mount"), owned("-o"), owned("loop"), disk.clone(), owned(sysroot)];
    assert(args.deep_view() =~= seq!["mount"@, "-o"@, "loop"@, disk@, sysroot@]);
    let r = vec![
        step("", Action::RequireFile {
            path: disk.clone(),
            missing: concat3("disk image not found: ", disk.as_str(), " (create/mount it before installing the toolchain)"),
        }),
        step("failed to mount sysroot: ", run(root, "sudo", args)),
    ];
    assert(r.deep_view() =~= mount_followup_spec(root@, sysroot@, status.success, status.code, status.shown@));
    r
}

} // verus!
