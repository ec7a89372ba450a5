//! The installer's options and their parsing from the command line.

use vstd::prelude::*;
use crate::text::{owned, same_text, concat2, chars_of};

verus! {

/// The options of one installer run.
#[derive(Debug, Clone, PartialEq, Eq)]
pub struct Config {
    /// Target triple that the standard library is built for.
    pub target: String,
    /// Name under which the toolchain is linked with rustup.
    pub toolchain: String,
    /// Build `library/std` (otherwise only `library/core` for the target).
    pub build_std: bool,
    /// Skip building and only link the existing stage directory.
    pub skip_build: bool,
    /// Rebuild even if the toolchain is already installed.
    pub force: bool,
    /// Use stage 2 (otherwise stage 1).
    pub stage2: bool,
    /// Build libc++, libc++abi and libunwind for the target as LLVM runtimes.
    pub llvm_cxx: bool,
}

/// The mathematical model of a [`Config`].
pub struct ConfigModel {
    pub target: Seq<char>,
    pub toolchain: Seq<char>,
    pub build_std: bool,
    pub skip_build: bool,
    pub force: bool,
    pub stage2: bool,
    pub llvm_cxx: bool,
}

impl View for Config {
    type V = ConfigModel;

    open spec fn view(&self) -> ConfigModel {
        ConfigModel {
            target: self.target@,
            toolchain: self.toolchain@,
            build_std: self.build_std,
            skip_build: self.skip_build,
            force: self.force,
            stage2: self.stage2,
            llvm_cxx: self.llvm_cxx,
        }
    }
}

/// The default target triple.
pub open spec fn default_target() -> Seq<char> {
    "x86_64-seele"@
}

/// The options in force when no argument is given.
pub open spec fn default_model() -> ConfigModel {
    ConfigModel {
        target: "x86_64-seele"@,
        toolchain: "seele"@,
        build_std: true,
        skip_build: false,
        force: true,
        stage2: true,
        llvm_cxx: true,
    }
}

/// LLVM's name for a target triple: the default Seele triple gets its
/// vendor field spelled out, every other triple is used as it is.
pub open spec fn llvm_target_of(target: Seq<char>) -> Seq<char> {
    if target == "x86_64-seele"@ {
        "x86_64-unknown-seele"@
    } else {
        target
    }
}

impl Config {
    /// The LLVM target triple for this configuration's target.
    pub fn llvm_target(&self) -> (r: String)
        ensures
            r@ == llvm_target_of(self.target@),
    {
        if same_text(self.target.as_str(), "x86_64-seele") {
            owned("x86_64-unknown-seele")
        } else {
            self.target.clone()
        }
    }
}


/// Why the command line was not accepted.
#[derive(Debug, Clone, PartialEq, Eq)]
pub enum ArgError {
    /// `--target` was the last argument.
    MissingTarget,
    /// `--toolchain` was the last argument.
    MissingToolchain,
    /// `--help` or `-h` asked for the usage text.
    Help,
    /// An argument that is no option of the installer.
    Unknown(String),
}

/// The mathematical model of an [`ArgError`].
pub enum ArgErrorModel {
    MissingTarget,
    MissingToolchain,
    Help,
    Unknown(Seq<char>),
}

impl View for ArgError {
    type V = ArgErrorModel;

    open spec fn view(&self) -> ArgErrorModel {
        match self {
            ArgError::MissingTarget => ArgErrorModel::MissingTarget,
            ArgError::MissingToolchain => ArgErrorModel::MissingToolchain,
            ArgError::Help => ArgErrorModel::Help,
            ArgError::Unknown(a) => ArgErrorModel::Unknown(a@),
        }
    }
}

/// The text shown after `error: ` for an error; empty for a request for help,
/// which prints the usage text alone.
pub open spec fn arg_error_message(e: ArgErrorModel) -> Seq<char> {
    match e {
        ArgErrorModel::MissingTarget => "--target requires a value"@,
        ArgErrorModel::MissingToolchain => "--toolchain requires a value"@,
        ArgErrorModel::Help => ""@,
        ArgErrorModel::Unknown(a) => "unknown argument: "@ + a,
    }
}

impl ArgError {
    /// The message that the installer prints for this error.
    pub fn message(&self) -> (r: String)
        ensures
            r@ == arg_error_message(self@),
    {
        match self {
            ArgError::MissingTarget => owned("--target requires a value"),
            ArgError::MissingToolchain => owned("--toolchain requires a value"),
            ArgError::Help => owned(""),
            ArgError::Unknown(a) => concat2("unknown argument: ", a.as_str()),
        }
    }
}

/// The options that result from reading `args` in order, starting from `cfg`.
/// Each switch sets its field, so a later switch overrides an earlier one;
/// `--target` and `--toolchain` take the next argument as their value,
/// whatever it looks like; `--help`, `-h` and any other argument stop the
/// reading with an error.
pub open spec fn parse_from(cfg: ConfigModel, args: Seq<Seq<char>>) -> Result<ConfigModel, ArgErrorModel>
    decreases args.len(),
{
    if args.len() == 0 {
        Ok(cfg)
    } else {
        let a = args[0];
        let rest = args.skip(1);
        if a == "--target"@ {
            if args.len() < 2 {
                Err(ArgErrorModel::MissingTarget)
            } else {
                parse_from(ConfigModel { target: args[1], ..cfg }, args.skip(2))
            }
        } else if a == "--toolchain"@ {
            if args.len() < 2 {
                Err(ArgErrorModel::MissingToolchain)
            } else {
                parse_from(ConfigModel { toolchain: args[1], ..cfg }, args.skip(2))
            }
        } else if a == "--std"@ {
            parse_from(ConfigModel { build_std: true, ..cfg }, rest)
        } else if a == "--no-std"@ {
            parse_from(ConfigModel { build_std: false, ..cfg }, rest)
        } else if a == "--skip-build"@ {
            parse_from(ConfigModel { skip_build: true, ..cfg }, rest)
        } else if a == "--force"@ {
            parse_from(ConfigModel { force: true, ..cfg }, rest)
        } else if a == "--no-force"@ {
            parse_from(ConfigModel { force: false, ..cfg }, rest)
        } else if a == "--stage2"@ {
            parse_from(ConfigModel { stage2: true, ..cfg }, rest)
        } else if a == "--no-stage2"@ {
            parse_from(ConfigModel { stage2: false, ..cfg }, rest)
        } else if a == "--llvm-cxx"@ {
            parse_from(ConfigModel { llvm_cxx: true, ..cfg }, rest)
        } else if a == "--no-llvm-cxx"@ {
            parse_from(ConfigModel { llvm_cxx: false, ..cfg }, rest)
        } else if a == "--help"@ || a == "-h"@ {
            Err(ArgErrorModel::Help)
        } else {
            Err(ArgErrorModel::Unknown(a))
        }
    }
}

/// The usage line, naming every option.
pub open spec fn usage_line() -> Seq<char> {
    "usage: install [--target <triple>] [--toolchain <name>] [--no-std] [--skip-build] [--no-force] [--no-stage2] [--no-llvm-cxx]"@
}

/// The lines reported on standard error for a refused command line: the
/// error, unless it is a request for help, then the usage line.
pub open spec fn report_lines(e: ArgErrorModel) -> Seq<Seq<char>> {
    let m = arg_error_message(e);
    if m.len() == 0 {
        seq![usage_line()]
    } else {
        seq!["error: "@ + m, usage_line()]
    }
}

impl ArgError {
    /// The lines reported on standard error for this error.
    pub fn report(&self) -> (r: Vec<String>)
        ensures
            r.deep_view() == report_lines(self@),
    {
        let m = self.message();
        let usage = owned(
            "usage: install [--target <triple>] [--toolchain <name>] [--no-std] [--skip-build] [--no-force] [--no-stage2] [--no-llvm-cxx]",
        );
        let r = if chars_of(m.as_str()).len() == 0 {
            vec![usage]
        } else {
            vec![concat2("error: ", m.as_str()), usage]
        };
        assert(r.deep_view() =~= report_lines(self@));
        r
    }
}

/// The options for a command line (without the program name).
pub open spec fn parse_spec(args: Seq<Seq<char>>) -> Result<ConfigModel, ArgErrorModel> {
    parse_from(default_model(), args)
}

impl Config {
    /// The options with every default in force.
    pub fn defaults() -> (r: Config)
        ensures
            r@ == default_model(),
    {
        Config {
            target: owned("x86_64-seele"),
            toolchain: owned("seele"),
            build_std: true,
            skip_build: false,
            force: true,
            stage2: true,
            llvm_cxx: true,
        }
    }

    /// Reads the command-line arguments (the program name left out).
    pub fn parse(args: &Vec<String>) -> (r: Result<Config, ArgError>)
        ensures
            match r {
                Ok(c) => parse_spec(args.deep_view()) == Ok::<ConfigModel, ArgErrorModel>(c@),
                Err(e) => parse_spec(args.deep_view()) == Err::<ConfigModel, ArgErrorModel>(e@),
            },
    {
        let ghost all = args.deep_view();
        let mut config = Config::defaults();
        let mut i: usize = 0;
        assert(all.skip(0) =~= all);
        while i < args.len()
            invariant
                i <= args.len(),
                all == args.deep_view(),
                parse_spec(all) == parse_from(config@, all.skip(i as int)),
            decreases args.len() - i,
        {
            let a = args[i].as_str();
            let ghost rest = all.skip(i as int);
            assert(rest[0] == a@);
            assert(rest.skip(1) =~= all.skip(i + 1));
            if same_text(a, "--target") {
                if i + 1 >= args.len() {
                    return Err(ArgError::MissingTarget);
                }
                assert(rest[1] == args[i as int + 1]@);
                assert(rest.skip(2) =~= all.skip(i + 2));
                config.target = args[i + 1].clone();
                i = i + 2;
            } else if same_text(a, "--toolchain") {
                if i + 1 >= args.len() {
                    return Err(ArgError::MissingToolchain);
                }
                assert(rest[1] == args[i as int + 1]@);
                assert(rest.skip(2) =~= all.skip(i + 2));
                config.toolchain = args[i + 1].clone();
                i = i + 2;
            } else if same_text(a, "--std") {
                config.build_std = true;
                i = i + 1;
            } else if same_text(a, "--no-std") {
                config.build_std = false;
                i = i + 1;
            } else if same_text(a, "--skip-build") {
                config.skip_build = true;
                i = i + 1;
            } else if same_text(a, "--force") {
                config.force = true;
                i = i + 1;
            } else if same_text(a, "--no-force") {
                config.force = false;
                i = i + 1;
            } else if same_text(a, "--stage2") {
                config.stage2 = true;
                i = i + 1;
            } else if same_text(a, "--no-stage2") {
                config.stage2 = false;
                i = i + 1;
            } else if same_text(a, "--llvm-cxx") {
                config.llvm_cxx = true;
                i = i + 1;
            } else if same_text(a, "--no-llvm-cxx") {
                config.llvm_cxx = false;
                i = i + 1;
            } else if same_text(a, "--help") || same_text(a, "-h") {
                return Err(ArgError::Help);
            } else {
                return Err(ArgError::Unknown(args[i].clone()));
            }
        }
        assert(all.skip(i as int) =~= Seq::<Seq<char>>::empty());
        Ok(config)
    }
}

/// The names of the options, told apart: their lengths, and for names of
/// equal length the fact that they differ.
proof fn lemma_option_names()
    ensures
        "--target"@.len() == 8,
        "--toolchain"@.len() == 11,
        "--std"@.len() == 5,
        "--no-std"@.len() == 8,
        "--skip-build"@.len() == 12,
        "--force"@.len() == 7,
        "--no-force"@.len() == 10,
        "--stage2"@.len() == 8,
        "--no-stage2"@.len() == 11,
        "--llvm-cxx"@.len() == 10,
        "--no-llvm-cxx"@.len() == 13,
        "--help"@.len() == 6,
        "-h"@.len() == 2,
        "--target"@ != "--no-std"@,
        "--target"@ != "--stage2"@,
        "--no-std"@ != "--stage2"@,
        "--toolchain"@ != "--no-stage2"@,
        "--no-force"@ != "--llvm-cxx"@,
{
    reveal_strlit("--target");
    reveal_strlit("--toolchain");
    reveal_strlit("--std");
    reveal_strlit("--no-std");
    reveal_strlit("--skip-build");
    reveal_strlit("--force");
    reveal_strlit("--no-force");
    reveal_strlit("--stage2");
    reveal_strlit("--no-stage2");
    reveal_strlit("--llvm-cxx");
    reveal_strlit("--no-llvm-cxx");
    reveal_strlit("--help");
    reveal_strlit("-h");
    assert("--target"@[2] != "--no-std"@[2]);
    assert("--target"@[2] != "--stage2"@[2]);
    assert("--no-std"@[2] != "--stage2"@[2]);
    assert("--toolchain"@[2] != "--no-stage2"@[2]);
    assert("--no-force"@[2] != "--llvm-cxx"@[2]);
}

/// Reading arguments in two pieces, the first of which is accepted on its
/// own, gives the same result as reading them at once: the second piece
/// continues from the options that the first one left.
pub proof fn law_parse_continues(cfg: ConfigModel, first: Seq<Seq<char>>, second: Seq<Seq<char>>)
    requires
        parse_from(cfg, first) is Ok,
    ensures
        parse_from(cfg, first + second) == parse_from(parse_from(cfg, first)->Ok_0, second),
    decreases first.len(),
{
    let both = first + second;
    if first.len() == 0 {
        assert(both =~= second);
    } else {
        assert(both[0] == first[0]);
        assert(both.skip(1) =~= first.skip(1) + second);
        if first.len() >= 2 {
            assert(both[1] == first[1]);
            assert(both.skip(2) =~= first.skip(2) + second);
        }
        let a = first[0];
        if a == "--target"@ {
            law_parse_continues(ConfigModel { target: first[1], ..cfg }, first.skip(2), second);
        } else if a == "--toolchain"@ {
            law_parse_continues(ConfigModel { toolchain: first[1], ..cfg }, first.skip(2), second);
        } else if a == "--std"@ {
            law_parse_continues(ConfigModel { build_std: true, ..cfg }, first.skip(1), second);
        } else if a == "--no-std"@ {
            law_parse_continues(ConfigModel { build_std: false, ..cfg }, first.skip(1), second);
        } else if a == "--skip-build"@ {
            law_parse_continues(ConfigModel { skip_build: true, ..cfg }, first.skip(1), second);
        } else if a == "--force"@ {
            law_parse_continues(ConfigModel { force: true, ..cfg }, first.skip(1), second);
        } else if a == "--no-force"@ {
            law_parse_continues(ConfigModel { force: false, ..cfg }, first.skip(1), second);
        } else if a == "--stage2"@ {
            law_parse_continues(ConfigModel { stage2: true, ..cfg }, first.skip(1), second);
        } else if a == "--no-stage2"@ {
            law_parse_continues(ConfigModel { stage2: false, ..cfg }, first.skip(1), second);
        } else if a == "--llvm-cxx"@ {
            law_parse_continues(ConfigModel { llvm_cxx: true, ..cfg }, first.skip(1), second);
        } else if a == "--no-llvm-cxx"@ {
            law_parse_continues(ConfigModel { llvm_cxx: false, ..cfg }, first.skip(1), second);
        }
    }
}

/// The last `--target` wins: a command line that is accepted, followed by
/// `--target <t>`, selects the target `t` and keeps every other option,
/// whatever `t` looks like.
pub proof fn law_last_target_wins(args: Seq<Seq<char>>, t: Seq<char>)
    requires
        parse_spec(args) is Ok,
    ensures
        parse_spec(args + seq!["--target"@, t])
            == Ok::<ConfigModel, ArgErrorModel>(ConfigModel { target: t, ..parse_spec(args)->Ok_0 }),
{
    law_parse_continues(default_model(), args, seq!["--target"@, t]);
    let tail = seq!["--target"@, t];
    let m = parse_spec(args)->Ok_0;
    assert(tail[0] == "--target"@);
    assert(tail[1] == t);
    assert(tail.skip(2) =~= Seq::<Seq<char>>::empty());
    assert(parse_from(ConfigModel { target: t, ..m }, tail.skip(2))
        == Ok::<ConfigModel, ArgErrorModel>(ConfigModel { target: t, ..m }));
}

/// A later switch overrides an earlier one: an accepted command line
/// followed by `--no-std` does not build the standard library, and followed
/// by `--std` does, every other option unchanged.
pub proof fn law_last_std_switch_wins(args: Seq<Seq<char>>)
    requires
        parse_spec(args) is Ok,
    ensures
        parse_spec(args.push("--no-std"@))
            == Ok::<ConfigModel, ArgErrorModel>(ConfigModel { build_std: false, ..parse_spec(args)->Ok_0 }),
        parse_spec(args.push("--std"@))
            == Ok::<ConfigModel, ArgErrorModel>(ConfigModel { build_std: true, ..parse_spec(args)->Ok_0 }),
{
    lemma_option_names();
    let t1 = seq!["--no-std"@];
    let t2 = seq!["--std"@];
    law_parse_continues(default_model(), args, t1);
    law_parse_continues(default_model(), args, t2);
    assert(args.push("--no-std"@) =~= args + t1);
    assert(args.push("--std"@) =~= args + t2);
    let m = parse_spec(args)->Ok_0;
    assert(t1[0] == "--no-std"@);
    assert(t2[0] == "--std"@);
    assert(t1.skip(1) =~= Seq::<Seq<char>>::empty());
    assert(t2.skip(1) =~= Seq::<Seq<char>>::empty());
    assert(parse_from(ConfigModel { build_std: false, ..m }, t1.skip(1))
        == Ok::<ConfigModel, ArgErrorModel>(ConfigModel { build_std: false, ..m }));
    assert(parse_from(ConfigModel { build_std: true, ..m }, t2.skip(1))
        == Ok::<ConfigModel, ArgErrorModel>(ConfigModel { build_std: true, ..m }));
}

/// A request for help after an accepted command line is answered with the
/// usage text, not with a run.
pub proof fn law_help_stops(args: Seq<Seq<char>>)
    requires
        parse_spec(args) is Ok,
    ensures
        parse_spec(args.push("--help"@)) == Err::<ConfigModel, ArgErrorModel>(ArgErrorModel::Help),
        parse_spec(args.push("-h"@)) == Err::<ConfigModel, ArgErrorModel>(ArgErrorModel::Help),
{
    lemma_option_names();
    let t1 = seq!["--help"@];
    let t2 = seq!["-h"@];
    law_parse_continues(default_model(), args, t1);
    law_parse_continues(default_model(), args, t2);
    assert(args.push("--help"@) =~= args + t1);
    assert(args.push("-h"@) =~= args + t2);
    assert(t1[0] == "--help"@);
    assert(t2[0] == "-h"@);
}

/// Whether an option that takes a value starts `args` together with its value.
pub open spec fn starts_with_valued_option(args: Seq<Seq<char>>) -> bool {
    args.len() >= 2 && (args[0] == "--target"@ || args[0] == "--toolchain"@)
}

/// The value that the switch `on` (and `off`, where the option has one)
/// leaves after reading `args` in order, starting from `cur`: `on` sets it,
/// `off` clears it, the last of them wins, and the value that follows
/// `--target` or `--toolchain` is no switch, whatever it reads.
pub open spec fn switch_value(args: Seq<Seq<char>>, on: Seq<char>, off: Option<Seq<char>>, cur: bool) -> bool
    decreases args.len(),
{
    if args.len() == 0 {
        cur
    } else if starts_with_valued_option(args) {
        switch_value(args.skip(2), on, off, cur)
    } else if args[0] == on {
        switch_value(args.skip(1), on, off, true)
    } else if off == Some(args[0]) {
        switch_value(args.skip(1), on, off, false)
    } else {
        switch_value(args.skip(1), on, off, cur)
    }
}

/// The value that the option `name` (`--target` or `--toolchain`) leaves
/// after reading `args` in order, starting from `cur`: the argument after
/// its last occurrence as an option.
pub open spec fn option_value(args: Seq<Seq<char>>, name: Seq<char>, cur: Seq<char>) -> Seq<char>
    decreases args.len(),
{
    if args.len() == 0 {
        cur
    } else if starts_with_valued_option(args) {
        option_value(args.skip(2), name, if args[0] == name { args[1] } else { cur })
    } else {
        option_value(args.skip(1), name, cur)
    }
}

/// Each field of what `parse_from` gives is the value that its own
/// arguments leave, starting from the field of `cfg`.
proof fn lemma_fields_follow_their_options(cfg: ConfigModel, args: Seq<Seq<char>>)
    requires
        parse_from(cfg, args) is Ok,
    ensures
        ({
            let c = parse_from(cfg, args)->Ok_0;
            &&& c.target == option_value(args, "--target"@, cfg.target)
            &&& c.toolchain == option_value(args, "--toolchain"@, cfg.toolchain)
            &&& c.build_std == switch_value(args, "--std"@, Some("--no-std"@), cfg.build_std)
            &&& c.skip_build == switch_value(args, "--skip-build"@, None, cfg.skip_build)
            &&& c.force == switch_value(args, "--force"@, Some("--no-force"@), cfg.force)
            &&& c.stage2 == switch_value(args, "--stage2"@, Some("--no-stage2"@), cfg.stage2)
            &&& c.llvm_cxx == switch_value(args, "--llvm-cxx"@, Some("--no-llvm-cxx"@), cfg.llvm_cxx)
        }),
    decreases args.len(),
{
    lemma_option_names();
    if args.len() > 0 {
        let a = args[0];
        if a == "--target"@ {
            lemma_fields_follow_their_options(ConfigModel { target: args[1], ..cfg }, args.skip(2));
        } else if a == "--toolchain"@ {
            lemma_fields_follow_their_options(ConfigModel { toolchain: args[1], ..cfg }, args.skip(2));
        } else if a == "--std"@ {
            lemma_fields_follow_their_options(ConfigModel { build_std: true, ..cfg }, args.skip(1));
        } else if a == "--no-std"@ {
            lemma_fields_follow_their_options(ConfigModel { build_std: false, ..cfg }, args.skip(1));
        } else if a == "--skip-build"@ {
            lemma_fields_follow_their_options(ConfigModel { skip_build: true, ..cfg }, args.skip(1));
        } else if a == "--force"@ {
            lemma_fields_follow_their_options(ConfigModel { force: true, ..cfg }, args.skip(1));
        } else if a == "--no-force"@ {
            lemma_fields_follow_their_options(ConfigModel { force: false, ..cfg }, args.skip(1));
        } else if a == "--stage2"@ {
            lemma_fields_follow_their_options(ConfigModel { stage2: true, ..cfg }, args.skip(1));
        } else if a == "--no-stage2"@ {
            lemma_fields_follow_their_options(ConfigModel { stage2: false, ..cfg }, args.skip(1));
        } else if a == "--llvm-cxx"@ {
            lemma_fields_follow_their_options(ConfigModel { llvm_cxx: true, ..cfg }, args.skip(1));
        } else if a == "--no-llvm-cxx"@ {
            lemma_fields_follow_their_options(ConfigModel { llvm_cxx: false, ..cfg }, args.skip(1));
        }
    }
}

/// Every option of an accepted command line takes the value that the last
/// argument setting it gives, or its default when no argument sets it:
/// `--target` and `--toolchain` their last value; the standard library,
/// forced rebuild, stage 2 and libc++ the last of their two switches;
/// `--skip-build` whether it occurs. A value that follows `--target` or
/// `--toolchain` sets nothing else, whatever it reads.
pub proof fn law_last_flag_wins(args: Seq<Seq<char>>)
    requires
        parse_spec(args) is Ok,
    ensures
        ({
            let c = parse_spec(args)->Ok_0;
            &&& c.target == option_value(args, "--target"@, "x86_64-seele"@)
            &&& c.toolchain == option_value(args, "--toolchain"@, "seele"@)
            &&& c.build_std == switch_value(args, "--std"@, Some("--no-std"@), true)
            &&& c.skip_build == switch_value(args, "--skip-build"@, None, false)
            &&& c.force == switch_value(args, "--force"@, Some("--no-force"@), true)
            &&& c.stage2 == switch_value(args, "--stage2"@, Some("--no-stage2"@), true)
            &&& c.llvm_cxx == switch_value(args, "--llvm-cxx"@, Some("--no-llvm-cxx"@), true)
        }),
{
    lemma_fields_follow_their_options(default_model(), args);
}

/// Whether `a` is the name of one of the installer's options (`--help` and
/// `-h` aside).
pub open spec fn is_option_name(a: Seq<char>) -> bool {
    ||| a == "--target"@
    ||| a == "--toolchain"@
    ||| a == "--std"@
    ||| a == "--no-std"@
    ||| a == "--skip-build"@
    ||| a == "--force"@
    ||| a == "--no-force"@
    ||| a == "--stage2"@
    ||| a == "--no-stage2"@
    ||| a == "--llvm-cxx"@
    ||| a == "--no-llvm-cxx"@
}

/// Whether the argument at `i` is one that an accepted command line may
/// hold there: an option's name, or the argument right after `--target` or
/// `--toolchain`.
pub open spec fn allowed_at(args: Seq<Seq<char>>, i: int) -> bool {
    is_option_name(args[i]) || (i > 0 && (args[i - 1] == "--target"@ || args[i - 1] == "--toolchain"@))
}

proof fn lemma_accepted_holds_only_options(cfg: ConfigModel, args: Seq<Seq<char>>)
    requires
        parse_from(cfg, args) is Ok,
    ensures
        forall|i: int| 0 <= i < args.len() ==> #[trigger] allowed_at(args, i),
    decreases args.len(),
{
    lemma_option_names();
    if args.len() > 0 {
        let a = args[0];
        let n: int = if a == "--target"@ || a == "--toolchain"@ { 2 } else { 1 };
        let next = if a == "--target"@ {
            ConfigModel { target: args[1], ..cfg }
        } else if a == "--toolchain"@ {
            ConfigModel { toolchain: args[1], ..cfg }
        } else if a == "--std"@ {
            ConfigModel { build_std: true, ..cfg }
        } else if a == "--no-std"@ {
            ConfigModel { build_std: false, ..cfg }
        } else if a == "--skip-build"@ {
            ConfigModel { skip_build: true, ..cfg }
        } else if a == "--force"@ {
            ConfigModel { force: true, ..cfg }
        } else if a == "--no-force"@ {
            ConfigModel { force: false, ..cfg }
        } else if a == "--stage2"@ {
            ConfigModel { stage2: true, ..cfg }
        } else if a == "--no-stage2"@ {
            ConfigModel { stage2: false, ..cfg }
        } else if a == "--llvm-cxx"@ {
            ConfigModel { llvm_cxx: true, ..cfg }
        } else {
            ConfigModel { llvm_cxx: false, ..cfg }
        };
        assert(is_option_name(a));
        assert(parse_from(cfg, args) == parse_from(next, args.skip(n)));
        let rest = args.skip(n);
        lemma_accepted_holds_only_options(next, rest);
        assert forall|i: int| 0 <= i < args.len() implies #[trigger] allowed_at(args, i) by {
            if i >= n {
                assert(allowed_at(rest, i - n));
                assert(rest[i - n] == args[i]);
                if i - n > 0 {
                    assert(rest[i - n - 1] == args[i - 1]);
                }
            }
        }
    }
}

/// An accepted command line holds only the installer's options: every
/// argument is the name of an option, or the value right after `--target`
/// or `--toolchain`. Nothing else is passed over in silence.
pub proof fn law_accepted_holds_only_options(args: Seq<Seq<char>>)
    requires
        parse_spec(args) is Ok,
    ensures
        forall|i: int| 0 <= i < args.len() ==> #[trigger] allowed_at(args, i),
{
    lemma_accepted_holds_only_options(default_model(), args);
}

/// An argument that is no option, met where an option is expected, is
/// refused and named, whatever follows it: after an accepted command line,
/// an argument other than an option's name, `--help` or `-h` gives the error
/// for an unknown argument with that argument.
pub proof fn law_unknown_argument_refused(args: Seq<Seq<char>>, a: Seq<char>, tail: Seq<Seq<char>>)
    requires
        parse_spec(args) is Ok,
        !is_option_name(a),
        a != "--help"@,
        a != "-h"@,
    ensures
        parse_spec(args + seq![a] + tail) == Err::<ConfigModel, ArgErrorModel>(ArgErrorModel::Unknown(a)),
{
    let more = seq![a] + tail;
    law_parse_continues(default_model(), args, more);
    assert(args + seq![a] + tail =~= args + more);
    assert(more[0] == a);
}

} // verus!
