# Seele toolchain installer

A verified library that decides what installing the Seele Rust toolchain
takes, and a small program around it that carries it out.

- `src/config.rs` — the installer's options and their parsing.
- `src/llvm.rs` — configuring, building and installing LLVM, and installing
  libc++ into the sysroot.
- `src/rust.rs` — building the Rust toolchain with `x.py`, the Seele
  runtime, the LLVM tools, and the link with rustup.
- `src/rustlib.rs` — checking and installing a target's standard library.
- `src/probe.rs` — reading `rustc -vV`, `rustup toolchain list` and
  `mountpoint -q`.
- `src/steps.rs` — the installation steps and the messages of failed steps.
- `src/text.rs`, `src/paths.rs` — text and path helpers.
- `app/main.rs` — the program: it reads the command line and the working
  directory, runs the steps against the file system and other programs, and
  hands what it observes back to the library.

The steps of a run, their order, where a run stops (at the first failed
step), and the messages of failures and of refused command lines are
computed in `src/`, and their contracts state them exactly. `app/` decides
nothing of its own: it performs each step, hands the library what it
observes as it found it (the bytes that `rustc` and `rustup` wrote, the
number of parallel jobs the machine reports, the answers of the file
system), prints what the library hands back, and exits with 1 after a
failure and 2 after a refused command line.
The meaning of the link steps on the file system is modelled in
`src/steps.rs` (`link_effect`), and laws over that model are proved; the
meaning of the other steps is given by their doc comments.
Installing a target's standard library depends on what the build left, so
it is planned when it is reached: the program tells the library which of
the candidate directories exist and what reading the first of them gave
(the entries, and the error that ended the reading, if any), and
`rustlib::sync_rustlib` returns the steps.
