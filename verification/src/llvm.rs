//! The configuration and build of LLVM (clang, lld, compiler-rt and, if
//! asked for, libc++ with its ABI library and unwinder) for the Seele target.

use vstd::prelude::*;
use crate::text::{owned, concat2, concat3, concat4, concat5, joined_with, join_with, decimal, decimal_text, has_prefix, has_suffix, has_infix};
use crate::paths::{joined, joined2, joined3, joined4, parent_of, join, join2, join3, join4, parent};
use crate::config::{Config, ConfigModel, llvm_target_of};
use crate::steps::{Node, SlotState, run_link_steps, slot_state_of, Action, ActionModel, CommandModel, run, SlotPolicy, Step, StepModel, step, step_model, sudo, sudo_model};

verus! {

/// The LLVM runtimes that are built: the C++ runtimes, or else compiler-rt.
pub open spec fn runtimes_spec(llvm_cxx: bool) -> Seq<Seq<char>> {
    if llvm_cxx {
        seq!["libunwind"@, "libcxxabi"@, "libcxx"@]
    } else {
        seq!["compiler-rt"@]
    }
}

/// The LLVM runtimes that are built.
pub fn llvm_runtimes(llvm_cxx: bool) -> (r: Vec<String>)
    ensures
        r.deep_view() == runtimes_spec(llvm_cxx),
{
    let r = if llvm_cxx {
        vec![owned("libunwind"), owned("libcxxabi"), owned("libcxx")]
    } else {
        vec![owned("compiler-rt")]
    };
    assert(r.deep_view() =~= runtimes_spec(llvm_cxx));
    r
}

/// The arguments that configure the LLVM build without the C++ runtimes.
pub open spec fn cmake_base_args(target: Seq<char>, build: Seq<char>, sysroot: Seq<char>, prefix: Seq<char>, runtimes: Seq<char>) -> Seq<Seq<char>> {
    seq![
        "-S"@,
        "llvm"@,
        "-B"@,
        build,
        "-G"@,
        "Ninja"@,
        "-UBUILTINS_"@ + target + "_CMAKE_C_FLAGS"@,
        "-UBUILTINS_"@ + target + "_CMAKE_ASM_FLAGS"@,
        "-DCMAKE_BUILD_TYPE=Release"@,
        "-DLLVM_ENABLE_PROJECTS=clang;lld"@,
        "-DLLVM_ENABLE_RUNTIMES="@ + runtimes,
        "-DLLVM_TARGETS_TO_BUILD=X86"@,
        "-DLLVM_BUILTIN_TARGETS="@ + target,
        "-DBUILTINS_"@ + target + "_CMAKE_SYSTEM_NAME=Seele"@,
        "-DBUILTINS_"@ + target + "_CMAKE_SYSROOT="@ + sysroot,
        "-DBUILTINS_"@ + target + "_CMAKE_C_COMPILER_TARGET="@ + target,
        "-DBUILTINS_"@ + target + "_CMAKE_ASM_COMPILER_TARGET="@ + target,
        "-DBUILTINS_"@ + target + "_CMAKE_C_FLAGS=--sysroot="@ + sysroot,
        "-DBUILTINS_"@ + target + "_CMAKE_ASM_FLAGS=--sysroot="@ + sysroot,
        "-DBUILTINS_"@ + target + "_COMPILER_RT_BUILD_CRT=OFF"@,
        "-DCMAKE_INSTALL_PREFIX="@ + prefix,
    ]
}

/// The arguments added when libc++, libc++abi and libunwind are built for the target.
pub open spec fn cmake_cxx_args(target: Seq<char>, sysroot: Seq<char>) -> Seq<Seq<char>> {
    seq![
        "-DLLVM_RUNTIME_TARGETS="@ + target,
        "-URUNTIMES_"@ + target + "_LIBCXX_ENABLE_LOCALIZATION"@,
        "-URUNTIMES_"@ + target + "_LIBCXX_ENABLE_FILESYSTEM"@,
        "-DRUNTIMES_"@ + target + "_CMAKE_SYSTEM_NAME=Generic"@,
        "-DRUNTIMES_"@ + target + "_CMAKE_SYSROOT="@ + sysroot,
        "-DRUNTIMES_"@ + target + "_CMAKE_C_COMPILER_TARGET="@ + target,
        "-DRUNTIMES_"@ + target + "_CMAKE_CXX_COMPILER_TARGET="@ + target,
        "-DRUNTIMES_"@ + target + "_CMAKE_ASM_COMPILER_TARGET="@ + target,
        "-DRUNTIMES_"@ + target + "_CMAKE_TRY_COMPILE_TARGET_TYPE=STATIC_LIBRARY"@,
        "-DRUNTIMES_"@ + target + "_CMAKE_C_FLAGS=--sysroot="@ + sysroot + " -D_LIBCPP_PROVIDES_DEFAULT_RUNE_TABLE"@,
        "-DRUNTIMES_"@ + target + "_CMAKE_CXX_FLAGS=--sysroot="@ + sysroot + " -D_LIBCPP_PROVIDES_DEFAULT_RUNE_TABLE"@,
        "-DRUNTIMES_"@ + target + "_CMAKE_ASM_FLAGS=--sysroot="@ + sysroot,
        "-DRUNTIMES_"@ + target + "_LIBUNWIND_USE_COMPILER_RT=ON"@,
        "-DRUNTIMES_"@ + target + "_LIBUNWIND_IS_BAREMETAL=ON"@,
        "-DRUNTIMES_"@ + target + "_LIBCXXABI_USE_COMPILER_RT=ON"@,
        "-DRUNTIMES_"@ + target + "_LIBCXXABI_BAREMETAL=ON"@,
        "-DRUNTIMES_"@ + target + "_LIBCXXABI_ENABLE_THREADS=ON"@,
        "-DRUNTIMES_"@ + target + "_LIBCXXABI_HAS_PTHREAD_API=ON"@,
        "-DRUNTIMES_"@ + target + "_LIBCXX_USE_COMPILER_RT=ON"@,
        "-DRUNTIMES_"@ + target + "_LIBCXXABI_USE_LLVM_UNWINDER=ON"@,
        "-DRUNTIMES_"@ + target + "_LIBCXX_CXX_ABI=libcxxabi"@,
        "-DRUNTIMES_"@ + target + "_LIBCXX_ENABLE_LOCALIZATION=ON"@,
        "-DRUNTIMES_"@ + target + "_LIBCXX_ENABLE_FILESYSTEM=ON"@,
        "-DRUNTIMES_"@ + target + "_LIBCXX_ENABLE_THREADS=ON"@,
        "-DRUNTIMES_"@ + target + "_LIBCXX_HAS_PTHREAD_API=ON"@,
        "-DRUNTIMES_"@ + target + "_LIBCXX_LINK_FLAGS=-Wl,-soname,libc++.so.1"@,
        "-DRUNTIMES_"@ + target + "_LIBCXXABI_LINK_FLAGS=-Wl,-soname,libc++abi.so.1"@,
        "-DRUNTIMES_"@ + target + "_LIBUNWIND_LINK_FLAGS=-Wl,-soname,libunwind.so.1"@,
        "-DRUNTIMES_"@ + target + "_LIBCXX_ENABLE_SHARED=ON"@,
        "-DRUNTIMES_"@ + target + "_LIBCXXABI_ENABLE_SHARED=ON"@,
        "-DRUNTIMES_"@ + target + "_LIBUNWIND_ENABLE_SHARED=ON"@,
        "-DRUNTIMES_"@ + target + "_LLVM_USES_LIBSTDCXX=OFF"@,
        "-DRUNTIMES_"@ + target + "_LLVM_DEFAULT_TO_GLIBCXX_USE_CXX11_ABI=OFF"@,
    ]
}

/// The arguments of `cmake` that configure the LLVM build.
pub open spec fn cmake_args_spec(
    target: Seq<char>,
    build: Seq<char>,
    sysroot: Seq<char>,
    prefix: Seq<char>,
    llvm_cxx: bool,
) -> Seq<Seq<char>> {
    let base = cmake_base_args(target, build, sysroot, prefix, joined_with(runtimes_spec(llvm_cxx), ";"@));
    if llvm_cxx {
        base + cmake_cxx_args(target, sysroot)
    } else {
        base
    }
}

/// The arguments of `cmake` that configure the LLVM build for the LLVM
/// target `target` in the build directory `build` (relative to the LLVM
/// checkout), against `sysroot`, installing into `prefix`.
pub fn cmake_args(target: &str, build: &str, sysroot: &str, prefix: &str, llvm_cxx: bool) -> (r: Vec<String>)
    ensures
        r.deep_view() == cmake_args_spec(target@, build@, sysroot@, prefix@, llvm_cxx),
{
    let runtimes = join_with(&llvm_runtimes(llvm_cxx), ";");
    let mut args: Vec<String> = Vec::new();
    args.push(owned("-S"));
    args.push(owned("llvm"));
    args.push(owned("-B"));
    args.push(owned(build));
    args.push(owned("-G"));
    args.push(owned("Ninja"));
    args.push(concat3("-UBUILTINS_", target, "_CMAKE_C_FLAGS"));
    args.push(concat3("-UBUILTINS_", target, "_CMAKE_ASM_FLAGS"));
    args.push(owned("-DCMAKE_BUILD_TYPE=Release"));
    args.push(owned("-DLLVM_ENABLE_PROJECTS=clang;lld"));
    args.push(concat2("-DLLVM_ENABLE_RUNTIMES=", runtimes.as_str()));
    args.push(owned("-DLLVM_TARGETS_TO_BUILD=X86"));
    args.push(concat2("-DLLVM_BUILTIN_TARGETS=", target));
    args.push(concat3("-DBUILTINS_", target, "_CMAKE_SYSTEM_NAME=Seele"));
    args.push(concat4("-DBUILTINS_", target, "_CMAKE_SYSROOT=", sysroot));
    args.push(concat4("-DBUILTINS_", target, "_CMAKE_C_COMPILER_TARGET=", target));
    args.push(concat4("-DBUILTINS_", target, "_CMAKE_ASM_COMPILER_TARGET=", target));
    args.push(concat4("-DBUILTINS_", target, "_CMAKE_C_FLAGS=--sysroot=", sysroot));
    args.push(concat4("-DBUILTINS_", target, "_CMAKE_ASM_FLAGS=--sysroot=", sysroot));
    args.push(concat3("-DBUILTINS_", target, "_COMPILER_RT_BUILD_CRT=OFF"));
    args.push(concat2("-DCMAKE_INSTALL_PREFIX=", prefix));
    assert(args.deep_view() =~= cmake_base_args(target@, build@, sysroot@, prefix@, runtimes@));
    if llvm_cxx {
        let ghost before = args.deep_view();
        args.push(concat2("-DLLVM_RUNTIME_TARGETS=", target));
        args.push(concat3("-URUNTIMES_", target, "_LIBCXX_ENABLE_LOCALIZATION"));
        args.push(concat3("-URUNTIMES_", target, "_LIBCXX_ENABLE_FILESYSTEM"));
        args.push(concat3("-DRUNTIMES_", target, "_CMAKE_SYSTEM_NAME=Generic"));
        args.push(concat4("-DRUNTIMES_", target, "_CMAKE_SYSROOT=", sysroot));
        args.push(concat4("-DRUNTIMES_", target, "_CMAKE_C_COMPILER_TARGET=", target));
        args.push(concat4("-DRUNTIMES_", target, "_CMAKE_CXX_COMPILER_TARGET=", target));
        args.push(concat4("-DRUNTIMES_", target, "_CMAKE_ASM_COMPILER_TARGET=", target));
        args.push(concat3("-DRUNTIMES_", target, "_CMAKE_TRY_COMPILE_TARGET_TYPE=STATIC_LIBRARY"));
        args.push(concat5("-DRUNTIMES_", target, "_CMAKE_C_FLAGS=--sysroot=", sysroot, " -D_LIBCPP_PROVIDES_DEFAULT_RUNE_TABLE"));
        args.push(concat5("-DRUNTIMES_", target, "_CMAKE_CXX_FLAGS=--sysroot=", sysroot, " -D_LIBCPP_PROVIDES_DEFAULT_RUNE_TABLE"));
        args.push(concat4("-DRUNTIMES_", target, "_CMAKE_ASM_FLAGS=--sysroot=", sysroot));
        args.push(concat3("-DRUNTIMES_", target, "_LIBUNWIND_USE_COMPILER_RT=ON"));
        args.push(concat3("-DRUNTIMES_", target, "_LIBUNWIND_IS_BAREMETAL=ON"));
        args.push(concat3("-DRUNTIMES_", target, "_LIBCXXABI_USE_COMPILER_RT=ON"));
        args.push(concat3("-DRUNTIMES_", target, "_LIBCXXABI_BAREMETAL=ON"));
        args.push(concat3("-DRUNTIMES_", target, "_LIBCXXABI_ENABLE_THREADS=ON"));
        args.push(concat3("-DRUNTIMES_", target, "_LIBCXXABI_HAS_PTHREAD_API=ON"));
        args.push(concat3("-DRUNTIMES_", target, "_LIBCXX_USE_COMPILER_RT=ON"));
        args.push(concat3("-DRUNTIMES_", target, "_LIBCXXABI_USE_LLVM_UNWINDER=ON"));
        args.push(concat3("-DRUNTIMES_", target, "_LIBCXX_CXX_ABI=libcxxabi"));
        args.push(concat3("-DRUNTIMES_", target, "_LIBCXX_ENABLE_LOCALIZATION=ON"));
        args.push(concat3("-DRUNTIMES_", target, "_LIBCXX_ENABLE_FILESYSTEM=ON"));
        args.push(concat3("-DRUNTIMES_", target, "_LIBCXX_ENABLE_THREADS=ON"));
        args.push(concat3("-DRUNTIMES_", target, "_LIBCXX_HAS_PTHREAD_API=ON"));
        args.push(concat3("-DRUNTIMES_", target, "_LIBCXX_LINK_FLAGS=-Wl,-soname,libc++.so.1"));
        args.push(concat3("-DRUNTIMES_", target, "_LIBCXXABI_LINK_FLAGS=-Wl,-soname,libc++abi.so.1"));
        args.push(concat3("-DRUNTIMES_", target, "_LIBUNWIND_LINK_FLAGS=-Wl,-soname,libunwind.so.1"));
        args.push(concat3("-DRUNTIMES_", target, "_LIBCXX_ENABLE_SHARED=ON"));
        args.push(concat3("-DRUNTIMES_", target, "_LIBCXXABI_ENABLE_SHARED=ON"));
        args.push(concat3("-DRUNTIMES_", target, "_LIBUNWIND_ENABLE_SHARED=ON"));
        args.push(concat3("-DRUNTIMES_", target, "_LLVM_USES_LIBSTDCXX=OFF"));
        args.push(concat3("-DRUNTIMES_", target, "_LLVM_DEFAULT_TO_GLIBCXX_USE_CXX11_ABI=OFF"));
        assert(args.deep_view() =~= before + cmake_cxx_args(target@, sysroot@));
    }
    args
}

/// The context of every step that installs libc++ into the sysroot.
pub open spec fn libcpp_context() -> Seq<char> {
    "failed to install libc++ into sysroot: "@
}

/// The steps that copy one header tree into the sysroot: check that it is
/// there, remove the old copy, make the parent directory, copy.
pub open spec fn header_copy_steps(src: Seq<char>, dst: Seq<char>, missing: Seq<char>, invalid: Seq<char>) -> Seq<StepModel> {
    let c = libcpp_context();
    seq![
        step_model(c, ActionModel::RequireDir { path: src, missing: missing + src }),
        step_model(c, ActionModel::RemoveInstalled { path: dst }),
        step_model(c, match parent_of(dst) {
            Some(d) => sudo_model(seq!["mkdir"@, "-p"@, d]),
            None => ActionModel::Fail { message: invalid + dst },
        }),
        step_model(c, sudo_model(seq!["cp"@, "-a"@, src, dst])),
    ]
}

/// The steps for one header tree.
fn push_header_copy(plan: &mut Vec<Step>, src: &str, dst: &str, missing: &str, invalid: &str)
    ensures
        final(plan).deep_view() == old(plan).deep_view() + header_copy_steps(src@, dst@, missing@, invalid@),
{
    let c = "failed to install libc++ into sysroot: ";
    let ghost before = plan.deep_view();
    plan.push(step(c, Action::RequireDir { path: owned(src), missing: concat2(missing, src) }));
    plan.push(step(c, Action::RemoveInstalled { path: owned(dst) }));
    match parent(dst) {
        Some(d) => {
            let ghost dv = d@;
            let a = vec![owned("mkdir"), owned("-p"), d];
            assert(a.deep_view() =~= seq!["mkdir"@, "-p"@, dv]);
            plan.push(step(c, sudo(a)));
        },
        None => plan.push(step(c, Action::Fail { message: concat2(invalid, dst) })),
    }
    let a = vec![owned("cp"), owned("-a"), owned(src), owned(dst)];
    assert(a.deep_view() =~= seq!["cp"@, "-a"@, src@, dst@]);
    plan.push(step(c, sudo(a)));
    assert(plan.deep_view() =~= before + header_copy_steps(src@, dst@, missing@, invalid@));
}

/// The libraries that are copied into the sysroot.
pub open spec fn libcpp_libraries() -> Seq<Seq<char>> {
    seq!["libc++.a"@, "libc++abi.a"@, "libunwind.a"@, "libc++.so"@, "libc++abi.so"@, "libunwind.so"@]
}

/// The shared-object versions that are made to point at the libraries:
/// pairs of the link's name and the name it points to.
pub open spec fn libcpp_soname_links() -> Seq<(Seq<char>, Seq<char>)> {
    seq![
        ("libc++.so.1"@, "libc++.so"@),
        ("libc++abi.so.1"@, "libc++abi.so"@),
        ("libunwind.so.1"@, "libunwind.so"@),
    ]
}

/// The steps that copy one library: check that it was built, copy it.
pub open spec fn library_copy(src_dir: Seq<char>, dst_dir: Seq<char>, name: Seq<char>) -> Seq<StepModel> {
    let c = libcpp_context();
    let src = joined(src_dir, name);
    seq![
        step_model(c, ActionModel::RequireFile { path: src, missing: "missing "@ + name + " at "@ + src }),
        step_model(c, sudo_model(seq!["cp"@, "-f"@, src, joined(dst_dir, name)])),
    ]
}

/// The copies of the libraries `names`, in order.
pub open spec fn library_copies(src_dir: Seq<char>, dst_dir: Seq<char>, names: Seq<Seq<char>>) -> Seq<StepModel>
    decreases names.len(),
{
    if names.len() == 0 {
        Seq::empty()
    } else {
        library_copies(src_dir, dst_dir, names.drop_last()) + library_copy(src_dir, dst_dir, names.last())
    }
}

/// The steps for one versioned link: made beside the built library, and
/// made in the sysroot.
pub open spec fn soname_link(src_dir: Seq<char>, dst_dir: Seq<char>, link: Seq<char>, target: Seq<char>) -> Seq<StepModel> {
    let c = libcpp_context();
    seq![
        step_model(c, ActionModel::RemoveQuietly { path: joined(src_dir, link) }),
        step_model(c, ActionModel::Symlink { target, link: joined(src_dir, link) }),
        step_model(c, sudo_model(seq!["ln"@, "-sfn"@, target, joined(dst_dir, link)])),
    ]
}

/// The versioned links `links`, in order.
pub open spec fn soname_links(src_dir: Seq<char>, dst_dir: Seq<char>, links: Seq<(Seq<char>, Seq<char>)>) -> Seq<StepModel>
    decreases links.len(),
{
    if links.len() == 0 {
        Seq::empty()
    } else {
        soname_links(src_dir, dst_dir, links.drop_last())
            + soname_link(src_dir, dst_dir, links.last().0, links.last().1)
    }
}

/// The steps that install the libc++ headers and libraries built under
/// `prefix` for the LLVM target `target` into `sysroot`.
pub open spec fn libcpp_steps(prefix: Seq<char>, sysroot: Seq<char>, target: Seq<char>) -> Seq<StepModel> {
    let src_lib_dir = joined2(prefix, "lib"@, target);
    let dst_lib_dir = joined2(sysroot, "libs"@, "lib_binaries"@);
    header_copy_steps(
        joined3(prefix, "include"@, "c++"@, "v1"@),
        joined4(sysroot, "libs"@, "include"@, "c++"@, "v1"@),
        "libc++ headers not found at "@,
        "invalid libc++ include path "@,
    ) + header_copy_steps(
        joined4(prefix, "include"@, target, "c++"@, "v1"@),
        joined(joined4(sysroot, "libs"@, "include"@, target, "c++"@), "v1"@),
        "target-specific libc++ headers not found at "@,
        "invalid target libc++ include path "@,
    ) + seq![step_model(libcpp_context(), sudo_model(seq!["mkdir"@, "-p"@, dst_lib_dir]))]
        + library_copies(src_lib_dir, dst_lib_dir, libcpp_libraries())
        + soname_links(src_lib_dir, dst_lib_dir, libcpp_soname_links())
        + seq![step_model(libcpp_context(), ActionModel::Print {
            message: "installed libc++ headers and libraries into "@ + sysroot,
        })]
}

/// The libraries that are copied into the sysroot.
fn libcpp_library_names() -> (r: Vec<String>)
    ensures
        r.deep_view() == libcpp_libraries(),
{
    let r = vec![
        owned("libc++.a"),
        owned("libc++abi.a"),
        owned("libunwind.a"),
        owned("libc++.so"),
        owned("libc++abi.so"),
        owned("libunwind.so"),
    ];
    assert(r.deep_view() =~= libcpp_libraries());
    r
}

/// The versioned links and the names they point to.
fn libcpp_link_names() -> (r: Vec<(String, String)>)
    ensures
        r.deep_view() == libcpp_soname_links(),
{
    let r = vec![
        (owned("libc++.so.1"), owned("libc++.so")),
        (owned("libc++abi.so.1"), owned("libc++abi.so")),
        (owned("libunwind.so.1"), owned("libunwind.so")),
    ];
    assert(r.deep_view() =~= libcpp_soname_links());
    r
}

/// The steps that install libc++, libc++abi and libunwind, built under
/// `prefix` for the LLVM target `llvm_target`, into `sysroot`.
pub fn install_libcpp(prefix: &str, sysroot: &str, llvm_target: &str) -> (r: Vec<Step>)
    ensures
        r.deep_view() == libcpp_steps(prefix@, sysroot@, llvm_target@),
{
    let c = "failed to install libc++ into sysroot: ";
    let mut plan: Vec<Step> = Vec::new();
    let src_include = join3(prefix, "include", "c++", "v1");
    let dst_include = join4(sysroot, "libs", "include", "c++", "v1");
    push_header_copy(&mut plan, src_include.as_str(), dst_include.as_str(),
        "libc++ headers not found at ", "invalid libc++ include path ");
    let src_target_include = join4(prefix, "include", llvm_target, "c++", "v1");
    let dst_target_dir = join4(sysroot, "libs", "include", llvm_target, "c++");
    let dst_target_include = join(dst_target_dir.as_str(), "v1");
    push_header_copy(&mut plan, src_target_include.as_str(), dst_target_include.as_str(),
        "target-specific libc++ headers not found at ", "invalid target libc++ include path ");

    let src_lib_dir = join2(prefix, "lib", llvm_target);
    let dst_lib_dir = join2(sysroot, "libs", "lib_binaries");
    let a = vec![owned("mkdir"), owned("-p"), dst_lib_dir.clone()];
    assert(a.deep_view() =~= seq!["mkdir"@, "-p"@, dst_lib_dir@]);
    plan.push(step(c, sudo(a)));

    let ghost head = plan.deep_view();
    let ghost headers = header_copy_steps(
        joined3(prefix@, "include"@, "c++"@, "v1"@),
        joined4(sysroot@, "libs"@, "include"@, "c++"@, "v1"@),
        "libc++ headers not found at "@,
        "invalid libc++ include path "@,
    ) + header_copy_steps(
        joined4(prefix@, "include"@, llvm_target@, "c++"@, "v1"@),
        joined(joined4(sysroot@, "libs"@, "include"@, llvm_target@, "c++"@), "v1"@),
        "target-specific libc++ headers not found at "@,
        "invalid target libc++ include path "@,
    ) + seq![step_model(libcpp_context(), sudo_model(seq!["mkdir"@, "-p"@, dst_lib_dir@]))];
    assert(head =~= headers);
    let names = libcpp_library_names();
    let ghost all = names.deep_view();
    let mut i: usize = 0;
    while i < names.len()
        invariant
            i <= names.len(),
            all == names.deep_view(),
            c@ == libcpp_context(),
            plan.deep_view() == head + library_copies(src_lib_dir@, dst_lib_dir@, all.take(i as int)),
        decreases names.len() - i,
    {
        let name = names[i].as_str();
        let src = join(src_lib_dir.as_str(), name);
        let dst = join(dst_lib_dir.as_str(), name);
        let ghost prev = plan.deep_view();
        plan.push(step(c, Action::RequireFile { path: src.clone(), missing: concat4("missing ", name, " at ", src.as_str()) }));
        let a = vec![owned("cp"), owned("-f"), src, dst];
        assert(a.deep_view() =~= seq!["cp"@, "-f"@, joined(src_lib_dir@, name@), joined(dst_lib_dir@, name@)]);
        plan.push(step(c, sudo(a)));
        proof {
            assert(all.take(i + 1).drop_last() =~= all.take(i as int));
            assert(plan.deep_view() =~= prev + library_copy(src_lib_dir@, dst_lib_dir@, name@));
        }
        i = i + 1;
    }
    assert(all.take(i as int) =~= all);

    let ghost head2 = plan.deep_view();
    let links = libcpp_link_names();
    let ghost all_links = links.deep_view();
    let mut j: usize = 0;
    while j < links.len()
        invariant
            j <= links.len(),
            all_links == links.deep_view(),
            c@ == libcpp_context(),
            plan.deep_view() == head2 + soname_links(src_lib_dir@, dst_lib_dir@, all_links.take(j as int)),
        decreases links.len() - j,
    {
        let link = links[j].0.as_str();
        let target = links[j].1.as_str();
        let prefix_link = join(src_lib_dir.as_str(), link);
        let dst = join(dst_lib_dir.as_str(), link);
        let ghost prev = plan.deep_view();
        plan.push(step(c, Action::RemoveQuietly { path: prefix_link.clone() }));
        plan.push(step(c, Action::Symlink { target: owned(target), link: prefix_link }));
        let a = vec![owned("ln"), owned("-sfn"), owned(target), dst];
        assert(a.deep_view() =~= seq!["ln"@, "-sfn"@, target@, joined(dst_lib_dir@, link@)]);
        plan.push(step(c, sudo(a)));
        proof {
            assert(all_links.take(j + 1).drop_last() =~= all_links.take(j as int));
            assert(plan.deep_view() =~= prev + soname_link(src_lib_dir@, dst_lib_dir@, link@, target@));
        }
        j = j + 1;
    }
    assert(all_links.take(j as int) =~= all_links);

    assert(plan.deep_view() =~= headers
        + library_copies(src_lib_dir@, dst_lib_dir@, libcpp_libraries())
        + soname_links(src_lib_dir@, dst_lib_dir@, libcpp_soname_links()));
    plan.push(step(c, Action::Print { message: concat2("installed libc++ headers and libraries into ", sysroot) }));
    assert(plan.deep_view() =~= libcpp_steps(prefix@, sysroot@, llvm_target@));
    plan
}

/// The steps that point `<prefix>/sysroot` at `sysroot`: an old link is
/// replaced, anything else in its place is an error.
pub open spec fn sysroot_link_steps(prefix: Seq<char>, sysroot: Seq<char>) -> Seq<StepModel> {
    let c = "failed to link LLVM sysroot: "@;
    let link = joined(prefix, "sysroot"@);
    seq![
        step_model(c, ActionModel::ClearSlot { path: link, policy: SlotPolicy::SymlinkOnly }),
        step_model(c, ActionModel::Symlink { target: sysroot, link }),
    ]
}

/// The steps that point `<prefix>/sysroot` at `sysroot`.
pub fn install_llvm_sysroot_link(prefix: &str, sysroot: &str) -> (r: Vec<Step>)
    ensures
        r.deep_view() == sysroot_link_steps(prefix@, sysroot@),
{
    let c = "failed to link LLVM sysroot: ";
    let link = join(prefix, "sysroot");
    let r = vec![
        step(c, Action::ClearSlot { path: link.clone(), policy: SlotPolicy::SymlinkOnly }),
        step(c, Action::Symlink { target: owned(sysroot), link }),
    ];
    assert(r.deep_view() =~= sysroot_link_steps(prefix@, sysroot@));
    r
}

/// Linking the sysroot is idempotent: where `<prefix>/sysroot` is absent or
/// an old link, the steps succeed and leave a link to `sysroot` there and
/// the rest of the file system as it was; a second run from that state
/// succeeds and leaves the same state. Anything else in that place stops
/// the first step.
pub proof fn law_sysroot_link_idempotent(fs: Map<Seq<char>, Node>, prefix: Seq<char>, sysroot: Seq<char>)
    ensures
        ({
            let link = joined(prefix, "sysroot"@);
            let plan = sysroot_link_steps(prefix, sysroot);
            let linked = fs.insert(link, Node::Link(sysroot));
            &&& slot_state_of(fs, link) != SlotState::Other ==> run_link_steps(fs, plan) == Some(linked)
            &&& slot_state_of(fs, link) != SlotState::Other ==> run_link_steps(linked, plan) == Some(linked)
            &&& slot_state_of(fs, link) == SlotState::Other ==> run_link_steps(fs, plan) is None
        }),
{
    reveal_with_fuel(run_link_steps, 3);
    let link = joined(prefix, "sysroot"@);
    let plan = sysroot_link_steps(prefix, sysroot);
    let linked = fs.insert(link, Node::Link(sysroot));
    assert(plan.skip(1)[0] == plan[1]);
    assert(plan.skip(1).skip(1) =~= Seq::<StepModel>::empty());
    assert(fs.remove(link).insert(link, Node::Link(sysroot)) =~= linked);
    assert(linked.remove(link).insert(link, Node::Link(sysroot)) =~= linked);
    assert(!fs.remove(link).dom().contains(link));
    assert(!linked.remove(link).dom().contains(link));
}

/// The directory, under the LLVM checkout, that LLVM is built in.
pub open spec fn build_dir_name() -> Seq<char> {
    "build-seele"@
}

/// The arguments of `ninja` that build and install LLVM with `jobs` jobs.
pub open spec fn ninja_args_spec(jobs: Seq<char>) -> Seq<Seq<char>> {
    seq!["-C"@, build_dir_name(), "-j"@, jobs, "install"@]
}

/// The number of parallel jobs: the number detected, in decimal, else one.
pub open spec fn jobs_spec(detected: Option<usize>) -> Seq<char> {
    match detected {
        Some(n) => decimal(n as nat),
        None => "1"@,
    }
}

/// The steps that build LLVM for the configuration, run from the toolchain
/// directory `cwd`, with `detected_jobs` the parallelism that the machine
/// reports, if it reports one; none with `--skip-build`, which only links
/// the Rust toolchain with rustup.
pub open spec fn install_llvm_spec(cfg: ConfigModel, cwd: Seq<char>, detected_jobs: Option<usize>) -> Seq<StepModel> {
    if cfg.skip_build {
        Seq::empty()
    } else {
        build_llvm_spec(cfg, cwd, detected_jobs)
    }
}

/// The steps that build and install LLVM, when the build is not skipped.
pub open spec fn build_llvm_spec(cfg: ConfigModel, cwd: Seq<char>, detected_jobs: Option<usize>) -> Seq<StepModel> {
    let llvm_dir = joined(cwd, "llvm-project"@);
    let check = seq![step_model(""@, ActionModel::RequireDir {
        path: llvm_dir,
        missing: "llvm-project not found; run this from the toolchain dir (missing "@ + llvm_dir + ")"@,
    })];
    match parent_of(cwd) {
        None => check + seq![step_model(""@, ActionModel::Fail {
            message: "cannot determine workspace root (toolchain has no parent)"@,
        })],
        Some(root) => {
            let prefix = joined(root, ".llvm"@);
            let sysroot = joined(root, "sysroot"@);
            let target = llvm_target_of(cfg.target);
            check + seq![
                step_model(""@, ActionModel::CreateDirAll { path: prefix }),
                step_model("failed to configure LLVM: "@, ActionModel::Run(CommandModel {
                    dir: llvm_dir,
                    program: "cmake"@,
                    args: cmake_args_spec(target, build_dir_name(), sysroot, prefix, cfg.llvm_cxx),
                })),
                step_model("failed to build/install LLVM: "@, ActionModel::Run(CommandModel {
                    dir: llvm_dir,
                    program: "ninja"@,
                    args: ninja_args_spec(jobs_spec(detected_jobs)),
                })),
            ] + sysroot_link_steps(prefix, sysroot)
                + (if cfg.llvm_cxx { libcpp_steps(prefix, sysroot, target) } else { Seq::empty() })
                + seq![step_model(""@, ActionModel::Print { message: "installed LLVM toolchain into "@ + prefix })]
        },
    }
}

/// The steps that configure, build and install LLVM, link the sysroot into
/// its prefix and, if asked for, install the C++ runtimes into the sysroot.
pub fn install_llvm(config: &Config, cwd: &str, detected_jobs: Option<usize>) -> (r: Vec<Step>)
    ensures
        r.deep_view() == install_llvm_spec(config@, cwd@, detected_jobs),
{
    let mut plan: Vec<Step> = Vec::new();
    if config.skip_build {
        assert(plan.deep_view() =~= install_llvm_spec(config@, cwd@, detected_jobs));
        return plan;
    }
    let llvm_dir = join(cwd, "llvm-project");
    plan.push(step("", Action::RequireDir {
        path: llvm_dir.clone(),
        missing: concat3("llvm-project not found; run this from the toolchain dir (missing ", llvm_dir.as_str(), ")"),
    }));
    let root = match parent(cwd) {
        Some(root) => root,
        None => {
            plan.push(step("", Action::Fail {
                message: owned("cannot determine workspace root (toolchain has no parent)"),
            }));
            assert(plan.deep_view() =~= install_llvm_spec(config@, cwd@, detected_jobs));
            return plan;
        },
    };
    let prefix = join(root.as_str(), ".llvm");
    let sysroot = join(root.as_str(), "sysroot");
    let target = config.llvm_target();
    let ghost check = plan.deep_view();

    plan.push(step("", Action::CreateDirAll { path: prefix.clone() }));
    let cmake = cmake_args(target.as_str(), "build-seele", sysroot.as_str(), prefix.as_str(), config.llvm_cxx);
    plan.push(step("failed to configure LLVM: ", run(llvm_dir.as_str(), "cmake", cmake)));
    let jobs = match detected_jobs {
        Some(n) => decimal_text(n),
        None => owned("1"),
    };
    let ninja = vec![owned("-C"), owned("build-seele"), owned("-j"), jobs, owned("install")];
    assert(ninja.deep_view() =~= ninja_args_spec(jobs_spec(detected_jobs)));
    plan.push(step("failed to build/install LLVM: ", run(llvm_dir.as_str(), "ninja", ninja)));
    let ghost built = plan.deep_view();

    let mut link = install_llvm_sysroot_link(prefix.as_str(), sysroot.as_str());
    plan.append(&mut link);
    let ghost linked = plan.deep_view();
    if config.llvm_cxx {
        let mut cxx = install_libcpp(prefix.as_str(), sysroot.as_str(), target.as_str());
        plan.append(&mut cxx);
    }
    let ghost runtimes = plan.deep_view();
    plan.push(step("", Action::Print { message: concat2("installed LLVM toolchain into ", prefix.as_str()) }));
    proof {
        assert(linked =~= built + sysroot_link_steps(prefix@, sysroot@));
        if config.llvm_cxx {
            assert(runtimes =~= linked + libcpp_steps(prefix@, sysroot@, target@));
        } else {
            assert(runtimes =~= linked + Seq::<StepModel>::empty());
        }
        assert(plan.deep_view() =~= install_llvm_spec(config@, cwd@, detected_jobs));
    }
    plan
}

proof fn lemma_flag_ends_with_sysroot(head: Seq<char>, key: Seq<char>, sysroot: Seq<char>)
    requires
        has_suffix(key, "--sysroot="@),
    ensures
        has_suffix(head + key + sysroot, "--sysroot="@ + sysroot),
{
    let whole = head + key + sysroot;
    let tail = "--sysroot="@ + sysroot;
    assert(whole.skip(whole.len() - tail.len()) =~= key.skip(key.len() - "--sysroot="@.len()) + sysroot);
}

proof fn lemma_flag_holds_sysroot(head: Seq<char>, key: Seq<char>, sysroot: Seq<char>, more: Seq<char>)
    requires
        has_suffix(key, "--sysroot="@),
        has_prefix(more, " "@),
    ensures
        has_infix(head + key + sysroot + more, "--sysroot="@ + sysroot + " "@),
{
    reveal_strlit(" ");
    let whole = head + key + sysroot + more;
    let part = "--sysroot="@ + sysroot + " "@;
    let at = head.len() + key.len() - "--sysroot="@.len();
    assert(whole.subrange(at, at + part.len())
        =~= key.skip(key.len() - "--sysroot="@.len()) + sysroot + more.take(1));
    assert(whole.subrange(at, at + part.len()) == part);
}

proof fn lemma_setting_ends_with_sysroot(head: Seq<char>, key: Seq<char>, sysroot: Seq<char>)
    requires
        has_suffix(key, "_CMAKE_SYSROOT="@),
    ensures
        has_suffix(head + key + sysroot, "_CMAKE_SYSROOT="@ + sysroot),
{
    let whole = head + key + sysroot;
    let tail = "_CMAKE_SYSROOT="@ + sysroot;
    assert(whole.skip(whole.len() - tail.len()) =~= key.skip(key.len() - "_CMAKE_SYSROOT="@.len()) + sysroot);
}

/// Where LLVM is installed and where its target libraries look for the
/// sysroot are kept apart: the install prefix is passed once, as
/// `CMAKE_INSTALL_PREFIX`, and changing it changes no other argument;
/// changing the sysroot changes only the arguments that pass it. Each of
/// those passes the sysroot itself: the `_CMAKE_SYSROOT=` settings end with
/// it, and every `--sysroot=` flag of the builtins and of the C++ runtimes
/// is followed by it.
pub proof fn law_cmake_sysroot_and_prefix(
    target: Seq<char>,
    build: Seq<char>,
    sysroot: Seq<char>,
    other_sysroot: Seq<char>,
    prefix: Seq<char>,
    other_prefix: Seq<char>,
    llvm_cxx: bool,
)
    ensures
        ({
            let args = cmake_args_spec(target, build, sysroot, prefix, llvm_cxx);
            let moved = cmake_args_spec(target, build, sysroot, other_prefix, llvm_cxx);
            let resys = cmake_args_spec(target, build, other_sysroot, prefix, llvm_cxx);
            let sys_at = |i: int| i == 14 || i == 17 || i == 18 || i == 25 || i == 30 || i == 31 || i == 32;
            &&& args[20] == "-DCMAKE_INSTALL_PREFIX="@ + prefix
            &&& moved.len() == args.len() && resys.len() == args.len()
            &&& forall|i: int| 0 <= i < args.len() && i != 20 ==> #[trigger] moved[i] == args[i]
            &&& forall|i: int| 0 <= i < args.len() && !sys_at(i) ==> #[trigger] resys[i] == args[i]
            &&& has_suffix(args[14], "_CMAKE_SYSROOT="@ + sysroot)
            &&& has_suffix(args[17], "--sysroot="@ + sysroot)
            &&& has_suffix(args[18], "--sysroot="@ + sysroot)
            &&& llvm_cxx ==> {
                &&& has_suffix(args[25], "_CMAKE_SYSROOT="@ + sysroot)
                &&& has_infix(args[30], "--sysroot="@ + sysroot + " "@)
                &&& has_infix(args[31], "--sysroot="@ + sysroot + " "@)
                &&& has_suffix(args[32], "--sysroot="@ + sysroot)
            }
        }),
{
    reveal_strlit("--sysroot=");
    reveal_strlit("_CMAKE_SYSROOT=");
    reveal_strlit("_CMAKE_C_FLAGS=--sysroot=");
    reveal_strlit("_CMAKE_ASM_FLAGS=--sysroot=");
    reveal_strlit("_CMAKE_CXX_FLAGS=--sysroot=");
    reveal_strlit(" ");
    reveal_strlit(" -D_LIBCPP_PROVIDES_DEFAULT_RUNE_TABLE");
    assert(has_suffix("_CMAKE_C_FLAGS=--sysroot="@, "--sysroot="@)) by {
        assert("_CMAKE_C_FLAGS=--sysroot="@.skip(15) =~= "--sysroot="@);
    }
    assert(has_suffix("_CMAKE_ASM_FLAGS=--sysroot="@, "--sysroot="@)) by {
        assert("_CMAKE_ASM_FLAGS=--sysroot="@.skip(17) =~= "--sysroot="@);
    }
    assert(has_suffix("_CMAKE_CXX_FLAGS=--sysroot="@, "--sysroot="@)) by {
        assert("_CMAKE_CXX_FLAGS=--sysroot="@.skip(17) =~= "--sysroot="@);
    }
    assert(has_suffix("_CMAKE_SYSROOT="@, "_CMAKE_SYSROOT="@)) by {
        assert("_CMAKE_SYSROOT="@.skip(0) =~= "_CMAKE_SYSROOT="@);
    }
    assert(has_prefix(" -D_LIBCPP_PROVIDES_DEFAULT_RUNE_TABLE"@, " "@)) by {
        assert(" -D_LIBCPP_PROVIDES_DEFAULT_RUNE_TABLE"@.take(1) =~= " "@);
    }
    let b = "-DBUILTINS_"@ + target;
    let r = "-DRUNTIMES_"@ + target;
    lemma_setting_ends_with_sysroot(b, "_CMAKE_SYSROOT="@, sysroot);
    lemma_flag_ends_with_sysroot(b, "_CMAKE_C_FLAGS=--sysroot="@, sysroot);
    lemma_flag_ends_with_sysroot(b, "_CMAKE_ASM_FLAGS=--sysroot="@, sysroot);
    lemma_setting_ends_with_sysroot(r, "_CMAKE_SYSROOT="@, sysroot);
    lemma_flag_holds_sysroot(r, "_CMAKE_C_FLAGS=--sysroot="@, sysroot, " -D_LIBCPP_PROVIDES_DEFAULT_RUNE_TABLE"@);
    lemma_flag_holds_sysroot(r, "_CMAKE_CXX_FLAGS=--sysroot="@, sysroot, " -D_LIBCPP_PROVIDES_DEFAULT_RUNE_TABLE"@);
    lemma_flag_ends_with_sysroot(r, "_CMAKE_ASM_FLAGS=--sysroot="@, sysroot);
    let args = cmake_args_spec(target, build, sysroot, prefix, llvm_cxx);
    let moved = cmake_args_spec(target, build, sysroot, other_prefix, llvm_cxx);
    let resys = cmake_args_spec(target, build, other_sysroot, prefix, llvm_cxx);
    let sys_at = |i: int| i == 14 || i == 17 || i == 18 || i == 25 || i == 30 || i == 31 || i == 32;
    assert forall|i: int| 0 <= i < args.len() && i != 20 implies #[trigger] moved[i] == args[i] by {}
    assert forall|i: int| 0 <= i < args.len() && !sys_at(i) implies #[trigger] resys[i] == args[i] by {}
}

/// The C++ switch shapes the configuration: without the C++ runtimes LLVM
/// is configured with the base arguments alone and builds compiler-rt as
/// its only runtime; with them the base arguments name the three C++
/// runtimes instead and are followed by the runtime arguments, every other
/// base argument being the same.
pub proof fn law_cxx_switch_shapes_cmake(target: Seq<char>, build: Seq<char>, sysroot: Seq<char>, prefix: Seq<char>)
    ensures
        ({
            let without = cmake_args_spec(target, build, sysroot, prefix, false);
            let with = cmake_args_spec(target, build, sysroot, prefix, true);
            &&& without.len() == 21
            &&& without[10] == "-DLLVM_ENABLE_RUNTIMES="@ + "compiler-rt"@
            &&& with.len() == 54
            &&& with[10] == "-DLLVM_ENABLE_RUNTIMES="@ + ("libunwind"@ + ";"@ + "libcxxabi"@ + ";"@ + "libcxx"@)
            &&& with.subrange(21, 54) == cmake_cxx_args(target, sysroot)
            &&& forall|i: int| 0 <= i < 21 && i != 10 ==> #[trigger] with[i] == without[i]
        }),
{
    let three = runtimes_spec(true);
    assert(three.drop_last().drop_last() =~= seq!["libunwind"@]);
    assert(three.drop_last() =~= seq!["libunwind"@, "libcxxabi"@]);
    assert(joined_with(three.drop_last().drop_last(), ";"@) == "libunwind"@);
    assert(three.drop_last().last() == "libcxxabi"@);
    assert(joined_with(three.drop_last(), ";"@) == "libunwind"@ + ";"@ + "libcxxabi"@);
    let with = cmake_args_spec(target, build, sysroot, prefix, true);
    assert(with.subrange(21, 54) =~= cmake_cxx_args(target, sysroot));
}

/// Without the C++ runtimes nothing is installed into the sysroot's C++
/// directories: the plan configures, builds, installs and links LLVM and
/// reports, and no more; with them the libc++ installation comes before
/// the report.
pub proof fn law_cxx_switch_shapes_plan(cfg: ConfigModel, cwd: Seq<char>, jobs: Option<usize>)
    requires
        parent_of(cwd) is Some,
        !cfg.skip_build,
    ensures
        ({
            let plan = install_llvm_spec(cfg, cwd, jobs);
            let root = parent_of(cwd)->0;
            let cxx = libcpp_steps(joined(root, ".llvm"@), joined(root, "sysroot"@), llvm_target_of(cfg.target));
            &&& !cfg.llvm_cxx ==> plan.len() == 7
            &&& cfg.llvm_cxx ==> plan.len() == 7 + cxx.len() && plan.subrange(6, 6 + cxx.len() as int) == cxx
        }),
{
    let plan = install_llvm_spec(cfg, cwd, jobs);
    let root = parent_of(cwd)->0;
    let cxx = libcpp_steps(joined(root, ".llvm"@), joined(root, "sysroot"@), llvm_target_of(cfg.target));
    if cfg.llvm_cxx {
        assert(plan.subrange(6, 6 + cxx.len() as int) =~= cxx);
    }
}

/// With `--skip-build` LLVM is neither built nor installed: the plan is empty.
pub proof fn law_skip_build_leaves_llvm(cfg: ConfigModel, cwd: Seq<char>, jobs: Option<usize>)
    requires
        cfg.skip_build,
    ensures
        install_llvm_spec(cfg, cwd, jobs).len() == 0,
{
}

} // verus!
