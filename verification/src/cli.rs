//! The command line of `cargo marker`: its arguments as values, the grammar
//! that reads them, and the manifest that names the lint crates given on
//! the command line.

use vstd::prelude::*;
use vstd::string::StringExecFns;

verus! {

/// The texts of a list of strings.
pub open spec fn texts(v: Seq<String>) -> Seq<Seq<char>> {
    Seq::new(v.len(), |i: int| v[i]@)
}

/// The arguments of a check run.
#[derive(Debug)]
pub struct CheckArgs {
    /// The lint crates to use, each as a line of a manifest. Given with
    /// `-l` or `--lints`, once for each crate.
    pub lints: Vec<String>,
    /// Whether the current `RUSTFLAGS` are handed on when the driver and
    /// the lint crates are compiled. Given with `--forward-rust-flags`.
    pub forward_rust_flags: bool,
    /// The arguments for Cargo: all that follows `--`.
    pub cargo_args: Vec<String>,
}

/// [`CheckArgs`] as a plain value.
pub struct CheckArgsView {
    pub lints: Seq<Seq<char>>,
    pub forward_rust_flags: bool,
    pub cargo_args: Seq<Seq<char>>,
}

impl CheckArgsView {
    /// The arguments of a command line that gives none.
    pub open spec fn empty() -> Self {
        CheckArgsView { lints: Seq::empty(), forward_rust_flags: false, cargo_args: Seq::empty() }
    }
}

impl View for CheckArgs {
    type V = CheckArgsView;

    open spec fn view(&self) -> CheckArgsView {
        CheckArgsView {
            lints: texts(self.lints@),
            forward_rust_flags: self.forward_rust_flags,
            cargo_args: texts(self.cargo_args@),
        }
    }
}

/// The arguments of the driver's setup.
#[derive(Debug, Clone, Copy, PartialEq, Eq, Structural)]
pub struct SetupArgs {
    /// Whether the toolchain is installed as needed. Given with
    /// `--auto-install-toolchain`.
    pub auto_install_toolchain: bool,
    /// Whether the current `RUSTFLAGS` are handed on. Given with
    /// `--forward-rust-flags`.
    pub forward_rust_flags: bool,
}

/// The commands of `cargo marker`.
#[derive(Debug)]
pub enum CliCommand {
    /// `check`: run the lints on the current package.
    Check(CheckArgs),
    /// `setup`: set up the driver.
    Setup(SetupArgs),
    /// `test-setup`: set up the given lint crates for tests.
    TestSetup(CheckArgs),
}

/// [`CliCommand`] as a plain value.
pub enum CliCommandView {
    Check(CheckArgsView),
    Setup(SetupArgs),
    TestSetup(CheckArgsView),
}

impl View for CliCommand {
    type V = CliCommandView;

    open spec fn view(&self) -> CliCommandView {
        match self {
            CliCommand::Check(args) => CliCommandView::Check(args@),
            CliCommand::Setup(args) => CliCommandView::Setup(*args),
            CliCommand::TestSetup(args) => CliCommandView::TestSetup(args@),
        }
    }
}

/// A command line of `cargo marker`.
#[derive(Debug)]
pub struct MarkerCli {
    pub command: Option<CliCommand>,
    /// The arguments given before any command. They are the arguments of
    /// the check run that a command line without a command asks for.
    pub check_args: CheckArgs,
}

/// [`MarkerCli`] as a plain value.
pub struct MarkerCliView {
    pub command: Option<CliCommandView>,
    pub check_args: CheckArgsView,
}

impl View for MarkerCli {
    type V = MarkerCliView;

    open spec fn view(&self) -> MarkerCliView {
        MarkerCliView {
            command: match self.command {
                Some(command) => Some(command@),
                None => None,
            },
            check_args: self.check_args@,
        }
    }
}

/// Why a command line was not accepted. Each position counts from the
/// program's name, which has position 0.
#[derive(Debug, Clone, Copy, PartialEq, Eq, Structural)]
pub enum CliError {
    /// The option at this position is the last argument and lacks its value.
    MissingValue(usize),
    /// The argument at this position is no option or command known here.
    UnexpectedArgument(usize),
    /// Cargo's subcommand name `marker` does not follow the program's name.
    MissingMarker,
}

/// Why the program ends without having linted.
#[derive(Debug, Clone, Copy, PartialEq, Eq, Structural)]
pub enum ExitStatus {
    /// No lint crate was given.
    NoLints,
}

/// Whether `word` names a command.
pub open spec fn is_command_name(word: Seq<char>) -> bool {
    word == "check"@ || word == "setup"@ || word == "test-setup"@
}

/// Reads the arguments of a check run from position `i` on, after `acc` has
/// been read. Gives the arguments and the position at which reading ended:
/// that of a command's name where `commands` allows one, else the end of
/// the line.
pub open spec fn parse_check_args(t: Seq<Seq<char>>, i: int, acc: CheckArgsView, commands: bool) -> Result<
    (CheckArgsView, int),
    CliError,
>
    decreases t.len() - i,
{
    if i < 0 || i >= t.len() {
        Ok((acc, t.len() as int))
    } else if t[i] == "--"@ {
        Ok((CheckArgsView { cargo_args: t.subrange(i + 1, t.len() as int), ..acc }, t.len() as int))
    } else if t[i] == "-l"@ || t[i] == "--lints"@ {
        if i + 1 < t.len() {
            parse_check_args(t, i + 2, CheckArgsView { lints: acc.lints.push(t[i + 1]), ..acc }, commands)
        } else {
            Err(CliError::MissingValue(i as usize))
        }
    } else if t[i] == "--forward-rust-flags"@ {
        parse_check_args(t, i + 1, CheckArgsView { forward_rust_flags: true, ..acc }, commands)
    } else if commands && is_command_name(t[i]) {
        Ok((acc, i))
    } else {
        Err(CliError::UnexpectedArgument(i as usize))
    }
}

/// Reads the arguments of the setup from position `i` on, after `acc` has
/// been read.
pub open spec fn parse_setup_args(t: Seq<Seq<char>>, i: int, acc: SetupArgs) -> Result<SetupArgs, CliError>
    decreases t.len() - i,
{
    if i < 0 || i >= t.len() {
        Ok(acc)
    } else if t[i] == "--auto-install-toolchain"@ {
        parse_setup_args(t, i + 1, SetupArgs { auto_install_toolchain: true, ..acc })
    } else if t[i] == "--forward-rust-flags"@ {
        parse_setup_args(t, i + 1, SetupArgs { forward_rust_flags: true, ..acc })
    } else {
        Err(CliError::UnexpectedArgument(i as usize))
    }
}

/// Reads a command line whose arguments start at position `start`: the
/// arguments of a check run, then at most one command with its own
/// arguments.
pub open spec fn parse_cli(t: Seq<Seq<char>>, start: int) -> Result<MarkerCliView, CliError> {
    match parse_check_args(t, start, CheckArgsView::empty(), true) {
        Err(e) => Err(e),
        Ok((top, stop)) => if stop >= t.len() {
            Ok(MarkerCliView { command: None, check_args: top })
        } else if t[stop] == "check"@ {
            match parse_check_args(t, stop + 1, CheckArgsView::empty(), false) {
                Err(e) => Err(e),
                Ok((args, _)) => Ok(MarkerCliView { command: Some(CliCommandView::Check(args)), check_args: top }),
            }
        } else if t[stop] == "setup"@ {
            match parse_setup_args(
                t,
                stop + 1,
                SetupArgs { auto_install_toolchain: false, forward_rust_flags: false },
            ) {
                Err(e) => Err(e),
                Ok(args) => Ok(MarkerCliView { command: Some(CliCommandView::Setup(args)), check_args: top }),
            }
        } else {
            match parse_check_args(t, stop + 1, CheckArgsView::empty(), false) {
                Err(e) => Err(e),
                Ok((args, _)) => Ok(
                    MarkerCliView { command: Some(CliCommandView::TestSetup(args)), check_args: top },
                ),
            }
        },
    }
}

/// Whether an executable result is the one that the grammar gives.
pub open spec fn agrees(r: Result<MarkerCli, CliError>, expected: Result<MarkerCliView, CliError>) -> bool {
    match (r, expected) {
        (Ok(cli), Ok(view)) => cli@ == view,
        (Err(e), Err(f)) => e == f,
        _ => false,
    }
}

fn is_word(token: &String, word: &str) -> (r: bool)
    ensures
        r == (token@ == word@),
{
    let word = word.to_owned();
    *token == word
}

fn read_check_args(args: &Vec<String>, start: usize, commands: bool) -> (r: Result<(CheckArgs, usize), CliError>)
    requires
        start <= args.len(),
    ensures
        match (r, parse_check_args(texts(args@), start as int, CheckArgsView::empty(), commands)) {
            (Ok((read, stop)), Ok((view, at))) => read@ == view && stop == at && stop <= args.len(),
            (Err(e), Err(f)) => e == f,
            _ => false,
        },
{
    let ghost t = texts(args@);
    let mut out = CheckArgs { lints: Vec::new(), forward_rust_flags: false, cargo_args: Vec::new() };
    let mut i: usize = start;
    assert(out@.lints =~= Seq::<Seq<char>>::empty());
    assert(out@.cargo_args =~= Seq::<Seq<char>>::empty());
    while i < args.len()
        invariant
            start <= i <= args.len(),
            t == texts(args@),
            out.cargo_args@.len() == 0,
            parse_check_args(t, start as int, CheckArgsView::empty(), commands) == parse_check_args(
                t,
                i as int,
                out@,
                commands,
            ),
        decreases args.len() - i,
    {
        let token = &args[i];
        assert(t[i as int] == token@);
        if is_word(token, "--") {
            let ghost lints = out.lints@;
            let ghost flag = out.forward_rust_flags;
            let mut j: usize = i + 1;
            assert(texts(out.cargo_args@) =~= t.subrange(i + 1, i + 1));
            while j < args.len()
                invariant
                    i + 1 <= j <= args.len(),
                    t == texts(args@),
                    out.lints@ == lints,
                    out.forward_rust_flags == flag,
                    texts(out.cargo_args@) == t.subrange(i + 1, j as int),
                decreases args.len() - j,
            {
                let ghost before = out.cargo_args@;
                out.cargo_args.push(args[j].clone());
                assert(texts(out.cargo_args@) =~= texts(before).push(t[j as int]));
                assert(t.subrange(i + 1, j + 1) =~= t.subrange(i + 1, j as int).push(t[j as int]));
                j += 1;
            }
            return Ok((out, args.len()));
        } else if is_word(token, "-l") || is_word(token, "--lints") {
            if i + 1 < args.len() {
                let ghost before = out.lints@;
                out.lints.push(args[i + 1].clone());
                assert(texts(out.lints@) =~= texts(before).push(t[i + 1]));
                i += 2;
            } else {
                return Err(CliError::MissingValue(i));
            }
        } else if is_word(token, "--forward-rust-flags") {
            out.forward_rust_flags = true;
            i += 1;
        } else if commands && (is_word(token, "check") || is_word(token, "setup") || is_word(token, "test-setup")) {
            return Ok((out, i));
        } else {
            return Err(CliError::UnexpectedArgument(i));
        }
    }
    Ok((out, args.len()))
}

fn read_setup_args(args: &Vec<String>, start: usize) -> (r: Result<SetupArgs, CliError>)
    requires
        start <= args.len(),
    ensures
        r == parse_setup_args(
            texts(args@),
            start as int,
            SetupArgs { auto_install_toolchain: false, forward_rust_flags: false },
        ),
{
    let ghost t = texts(args@);
    let mut out = SetupArgs { auto_install_toolchain: false, forward_rust_flags: false };
    let mut i: usize = start;
    while i < args.len()
        invariant
            start <= i <= args.len(),
            t == texts(args@),
            parse_setup_args(
                t,
                start as int,
                SetupArgs { auto_install_toolchain: false, forward_rust_flags: false },
            ) == parse_setup_args(t, i as int, out),
        decreases args.len() - i,
    {
        let token = &args[i];
        assert(t[i as int] == token@);
        if is_word(token, "--auto-install-toolchain") {
            out.auto_install_toolchain = true;
        } else if is_word(token, "--forward-rust-flags") {
            out.forward_rust_flags = true;
        } else {
            return Err(CliError::UnexpectedArgument(i));
        }
        i += 1;
    }
    Ok(out)
}

fn read_cli(args: &Vec<String>, start: usize) -> (r: Result<MarkerCli, CliError>)
    requires
        start <= args.len(),
    ensures
        agrees(r, parse_cli(texts(args@), start as int)),
{
    let ghost t = texts(args@);
    match read_check_args(args, start, true) {
        Err(e) => Err(e),
        Ok((top, stop)) => {
            if stop >= args.len() {
                Ok(MarkerCli { command: None, check_args: top })
            } else {
                let token = &args[stop];
                assert(t[stop as int] == token@);
                if is_word(token, "check") {
                    match read_check_args(args, stop + 1, false) {
                        Err(e) => Err(e),
                        Ok((sub, _)) => Ok(MarkerCli { command: Some(CliCommand::Check(sub)), check_args: top }),
                    }
                } else if is_word(token, "setup") {
                    match read_setup_args(args, stop + 1) {
                        Err(e) => Err(e),
                        Ok(sub) => Ok(MarkerCli { command: Some(CliCommand::Setup(sub)), check_args: top }),
                    }
                } else {
                    match read_check_args(args, stop + 1, false) {
                        Err(e) => Err(e),
                        Ok((sub, _)) => Ok(
                            MarkerCli { command: Some(CliCommand::TestSetup(sub)), check_args: top },
                        ),
                    }
                }
            }
        },
    }
}

impl MarkerCli {
    /// Reads the arguments of the process as Cargo starts it for
    /// `cargo marker ..`: the program's name, then `marker`, then the
    /// command line.
    pub fn parse_args(args: &Vec<String>) -> (r: Result<Self, CliError>)
        ensures
            agrees(
                r,
                if args@.len() >= 2 && args@[1]@ == "marker"@ {
                    parse_cli(texts(args@), 2)
                } else {
                    Err(CliError::MissingMarker)
                },
            ),
    {
        if args.len() >= 2 && is_word(&args[1], "marker") {
            read_cli(args, 2)
        } else {
            Err(CliError::MissingMarker)
        }
    }

    /// Reads a command line that starts with the program's name.
    pub fn parse_from(args: &Vec<String>) -> (r: Result<Self, CliError>)
        ensures
            agrees(r, parse_cli(texts(args@), 1)),
    {
        if args.len() >= 1 {
            read_cli(args, 1)
        } else {
            read_cli(args, 0)
        }
    }
}

/// The lines of a manifest that name the lint crates: each of `lints`
/// followed by a line break.
pub open spec fn manifest_lines(lints: Seq<Seq<char>>) -> Seq<char>
    decreases lints.len(),
{
    if lints.len() == 0 {
        Seq::empty()
    } else {
        manifest_lines(lints.drop_last()) + lints.last() + "\n"@
    }
}

/// The manifest that declares the lint crates given on the command line:
/// the header of the table of lints, then one line for each crate.
/// Without a lint crate there is nothing to run: `NoLints`.
pub fn collect_lint_deps(args: &CheckArgs) -> (r: Result<String, ExitStatus>)
    ensures
        args.lints@.len() == 0 <==> r == Err::<String, ExitStatus>(ExitStatus::NoLints),
        args.lints@.len() > 0 ==> r is Ok && r->Ok_0@ == "[workspace.metadata.marker.lints]\n"@ + manifest_lines(
            texts(args.lints@),
        ),
{
    if args.lints.len() == 0 {
        return Err(ExitStatus::NoLints);
    }
    let mut virtual_manifest = "[workspace.metadata.marker.lints]\n".to_owned();
    let ghost header = virtual_manifest@;
    let mut i: usize = 0;
    assert(texts(args.lints@).take(0) =~= Seq::<Seq<char>>::empty());
    while i < args.lints.len()
        invariant
            i <= args.lints.len(),
            header == "[workspace.metadata.marker.lints]\n"@,
            virtual_manifest@ == header + manifest_lines(texts(args.lints@).take(i as int)),
        decreases args.lints.len() - i,
    {
        let ghost before = virtual_manifest@;
        virtual_manifest.append(args.lints[i].as_str());
        virtual_manifest.append("\n");
        proof {
            let t = texts(args.lints@);
            assert(t.take(i + 1).drop_last() =~= t.take(i as int));
            assert(t.take(i + 1).last() == args.lints[i as int]@);
            assert(virtual_manifest@ =~= header + manifest_lines(t.take(i + 1)));
        }
        i += 1;
    }
    assert(texts(args.lints@).take(i as int) =~= texts(args.lints@));
    Ok(virtual_manifest)
}

} // verus!
