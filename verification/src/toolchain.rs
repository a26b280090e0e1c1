//! What is said to the compiler and to source control, and what is read
//! off their answers: the arguments of the build and migration commands,
//! the version that the compiler reports, the head revision.

use vstd::prelude::*;
use vstd::string::*;

use crate::root::{BuildAction, Compiler, VerylBuildInfo};
use crate::run::{text_view, Action, Mode, ModeView, Run};
use crate::text::{remove_all, texts_view, trim, trimmed, without};

verus! {

/// What the compiler prints before its version.
pub open spec fn program_prefix() -> Seq<char> {
    "veryl "@
}

/// The version in what the compiler prints when asked for it: the output
/// without the program's name and without the white space around it.
pub open spec fn version_in(output: Seq<char>) -> Seq<char> {
    trimmed(without(output, program_prefix()))
}

/// Reads the version off what the compiler prints when asked for it.
pub fn reported_version(output: &str) -> (version: String)
    ensures
        version@ == version_in(output@),
{
    let bare = remove_all(output, "veryl ");
    trim(bare.as_str())
}

/// Reads the revision off what source control prints when asked for the
/// head: the output without the white space around it.
pub fn head_revision(output: &str) -> (rev: String)
    ensures
        rev@ == trimmed(output@),
{
    trim(output)
}

/// The character for the digit `d`.
pub open spec fn digit_char(d: nat) -> char {
    if d == 0 {
        '0'
    } else if d == 1 {
        '1'
    } else if d == 2 {
        '2'
    } else if d == 3 {
        '3'
    } else if d == 4 {
        '4'
    } else if d == 5 {
        '5'
    } else if d == 6 {
        '6'
    } else if d == 7 {
        '7'
    } else if d == 8 {
        '8'
    } else {
        '9'
    }
}

/// The decimal numeral of `n`.
pub open spec fn decimal(n: nat) -> Seq<char>
    decreases n,
{
    if n < 10 {
        seq![digit_char(n)]
    } else {
        decimal(n / 10).push(digit_char(n % 10))
    }
}

fn digit_text(d: u64) -> (text: &'static str)
    requires
        d < 10,
    ensures
        text@ == seq![digit_char(d as nat)],
{
    proof {
        reveal_strlit("0");
        reveal_strlit("1");
        reveal_strlit("2");
        reveal_strlit("3");
        reveal_strlit("4");
        reveal_strlit("5");
        reveal_strlit("6");
        reveal_strlit("7");
        reveal_strlit("8");
        reveal_strlit("9");
    }
    let text = if d == 0 {
        "0"
    } else if d == 1 {
        "1"
    } else if d == 2 {
        "2"
    } else if d == 3 {
        "3"
    } else if d == 4 {
        "4"
    } else if d == 5 {
        "5"
    } else if d == 6 {
        "6"
    } else if d == 7 {
        "7"
    } else if d == 8 {
        "8"
    } else {
        "9"
    };
    assert(text@ =~= seq![digit_char(d as nat)]);
    text
}

/// Writes `n` as a decimal numeral.
pub fn decimal_text(n: u64) -> (text: String)
    ensures
        text@ == decimal(n as nat),
    decreases n,
{
    if n < 10 {
        String::from_str(digit_text(n))
    } else {
        let mut text = decimal_text(n / 10);
        text.append(digit_text(n % 10));
        assert(text@ =~= decimal(n as nat));
        text
    }
}

/// What pins the compiler to `version` on its command line.
pub open spec fn pin_of(version: Seq<char>) -> Seq<char> {
    "+"@ + version
}

/// What pins the compiler to the minor version `minor` of the unstable
/// line.
pub open spec fn minor_pin_of(minor: u64) -> Seq<char> {
    "+0."@ + decimal(minor as nat)
}

/// The argument that pins the compiler to `version`.
pub fn version_pin(version: &str) -> (pin: String)
    ensures
        pin@ == pin_of(version@),
{
    String::from_str("+").concat(version)
}

/// The argument that pins the compiler to minor version `minor` of the
/// unstable line.
pub fn minor_pin(minor: u64) -> (pin: String)
    ensures
        pin@ == minor_pin_of(minor),
{
    let digits = decimal_text(minor);
    String::from_str("+0.").concat(digits.as_str())
}

/// The arguments of a build: the argument that pins the compiler, if
/// there is one; the command; and, where two compilers are compared, the
/// flag that makes the build a check.
pub open spec fn build_args_of(pin: Option<Seq<char>>, compare: bool) -> Seq<Seq<char>> {
    let front = match pin {
        Some(argument) => seq![argument, "build"@],
        None => seq!["build"@],
    };
    if compare {
        front.push("--check"@)
    } else {
        front
    }
}

/// The arguments of a migration pinned to minor version `minor`.
pub open spec fn migrate_args_of(minor: u64) -> Seq<Seq<char>> {
    seq![minor_pin_of(minor), "migrate"@]
}

/// The arguments with which the compiler is run for a build; `pin` is the
/// argument that pins it, if it is pinned.
pub fn build_args(pin: &Option<String>, compare: bool) -> (args: Vec<String>)
    ensures
        texts_view(args@) == build_args_of(text_view(*pin), compare),
{
    let mut args: Vec<String> = Vec::new();
    match pin {
        Some(argument) => {
            args.push(argument.clone());
        },
        None => {},
    }
    args.push(String::from_str("build"));
    if compare {
        args.push(String::from_str("--check"));
    }
    assert(texts_view(args@) =~= build_args_of(text_view(*pin), compare));
    args
}

/// The arguments with which the compiler is run for a migration.
pub fn migrate_args(minor: u64) -> (args: Vec<String>)
    ensures
        texts_view(args@) == migrate_args_of(minor),
{
    let mut args: Vec<String> = Vec::new();
    args.push(minor_pin(minor));
    args.push(String::from_str("migrate"));
    assert(texts_view(args@) =~= migrate_args_of(minor));
    args
}

/// The argument that pins the compiler to `version`, if there is one.
pub open spec fn pin_argument_of(version: Option<Seq<char>>) -> Option<Seq<char>> {
    match version {
        Some(v) => Some(pin_of(v)),
        None => None,
    }
}

/// The argument that pins the compiler to `version`, if there is one.
pub fn pin_argument(version: &Option<String>) -> (pin: Option<String>)
    ensures
        text_view(pin) == pin_argument_of(text_view(*version)),
{
    match version {
        Some(v) => Some(version_pin(v.as_str())),
        None => None,
    }
}

impl ModeView {
    /// The version that `compiler` is pinned to in this mode, if any.
    pub open spec fn pinned(self, compiler: Compiler) -> Option<Seq<char>> {
        match self {
            ModeView::FullRefresh => None,
            ModeView::SelectiveCheck { target, reference, .. } => match compiler {
                Compiler::Target => target,
                Compiler::Reference => reference,
            },
        }
    }

    /// The arguments of the command that `action` asks for; `None` for an
    /// action that does not run the compiler.
    ///
    /// A build runs under its compiler as the mode pins it. The build
    /// that follows a migration runs without a pin. Both are checks where
    /// two compilers are compared.
    pub open spec fn arguments_of(self, action: Action) -> Option<Seq<Seq<char>>> {
        match action {
            Action::Build { compiler, .. } => Some(
                build_args_of(pin_argument_of(self.pinned(compiler)), self.compares()),
            ),
            Action::Rebuild { .. } => Some(build_args_of(None, self.compares())),
            Action::Migrate { minor, .. } => Some(migrate_args_of(minor)),
            _ => None,
        }
    }
}

/// The view of an optional list of texts.
pub open spec fn optional_texts_view(texts: Option<Vec<String>>) -> Option<Seq<Seq<char>>> {
    match texts {
        Some(list) => Some(texts_view(list@)),
        None => None,
    }
}

impl Mode {
    /// The arguments with which `compiler` is run for a build in this
    /// mode: pinned to the version that the mode gives for it.
    pub fn build_args(&self, compiler: Compiler) -> (args: Vec<String>)
        ensures
            texts_view(args@) == build_args_of(
                pin_argument_of(self@.pinned(compiler)),
                self@.compares(),
            ),
    {
        let compare = self.compares();
        match self {
            Mode::FullRefresh => build_args(&None, compare),
            Mode::SelectiveCheck { target, reference, .. } => match compiler {
                Compiler::Target => build_args(&pin_argument(target), compare),
                Compiler::Reference => build_args(&pin_argument(reference), compare),
            },
        }
    }

    /// The arguments with which the target compiler is run for the build
    /// that follows a migration: without a pin, whatever the mode pins the
    /// target to.
    pub fn rebuild_args(&self) -> (args: Vec<String>)
        ensures
            texts_view(args@) == build_args_of(None, self@.compares()),
    {
        build_args(&None, self.compares())
    }

    /// The arguments of the command that `action` asks for; `None` for an
    /// action that does not run the compiler.
    pub fn arguments(&self, action: Action) -> (args: Option<Vec<String>>)
        ensures
            optional_texts_view(args) == self@.arguments_of(action),
    {
        match action {
            Action::Build { compiler, .. } => Some(self.build_args(compiler)),
            Action::Rebuild { .. } => Some(self.rebuild_args()),
            Action::Migrate { minor, .. } => Some(migrate_args(minor)),
            _ => None,
        }
    }
}

impl Run {
    /// The arguments of the command that `action` asks for in this run;
    /// `None` for an action that does not run the compiler.
    pub fn arguments(&self, action: Action) -> (args: Option<Vec<String>>)
        ensures
            optional_texts_view(args) == self@.mode.arguments_of(action),
    {
        self.mode.arguments(action)
    }
}

/// A command: the program to run, the directory to run it in, and its
/// arguments.
#[derive(Debug)]
pub struct Invocation {
    pub program: String,
    pub directory: String,
    pub args: Vec<String>,
}

/// What an [`Invocation`] stands for.
pub struct InvocationView {
    pub program: Seq<char>,
    pub directory: Seq<char>,
    pub args: Seq<Seq<char>>,
}

impl View for Invocation {
    type V = InvocationView;

    open spec fn view(&self) -> InvocationView {
        InvocationView {
            program: self.program@,
            directory: self.directory@,
            args: texts_view(self.args@),
        }
    }
}

/// The view of an optional command.
pub open spec fn optional_invocation_view(command: Option<Invocation>) -> Option<InvocationView> {
    match command {
        Some(c) => Some(c@),
        None => None,
    }
}

/// What a [`VerylBuildInfo`] stands for, the compiler's version left out.
pub struct BuildInfoView {
    pub veryl: Seq<char>,
    pub veryl_root: Seq<char>,
    pub version_arg: Option<Seq<char>>,
    pub reference_arg: Option<Seq<char>>,
    pub compare: bool,
}

impl BuildInfoView {
    /// The arguments of the command that `action` asks for; `None` where it
    /// asks for none.
    ///
    /// The first build runs with the argument that pins the target
    /// compiler, if there is one, then `build`, then `--check` if the root
    /// is compared. The reference build runs likewise, with the argument
    /// that pins the reference compiler. The build that follows a
    /// migration runs without a pin.
    pub open spec fn arguments_of(self, action: BuildAction) -> Option<Seq<Seq<char>>> {
        match action {
            BuildAction::Build { compiler: Compiler::Target } => Some(
                build_args_of(self.version_arg, self.compare),
            ),
            BuildAction::Build { compiler: Compiler::Reference } => Some(
                build_args_of(self.reference_arg, self.compare),
            ),
            BuildAction::Rebuild => Some(build_args_of(None, self.compare)),
            BuildAction::Migrate { minor } => Some(migrate_args_of(minor)),
            BuildAction::Done { .. } => None,
        }
    }

    /// The command that `action` asks for: the compiler binary, run in the
    /// build root with the arguments of the action.
    pub open spec fn invocation_of(self, action: BuildAction) -> Option<InvocationView> {
        match self.arguments_of(action) {
            Some(args) => Some(
                InvocationView { program: self.veryl, directory: self.veryl_root, args },
            ),
            None => None,
        }
    }
}

impl VerylBuildInfo {
    /// What the command lines are made from.
    pub open spec fn commands(&self) -> BuildInfoView {
        BuildInfoView {
            veryl: self.veryl@,
            veryl_root: self.veryl_root@,
            version_arg: text_view(self.version_arg),
            reference_arg: text_view(self.reference_arg),
            compare: self.compare,
        }
    }

    /// The arguments of the first build: the argument that pins the target
    /// compiler, if there is one; `build`; and `--check` if the root is
    /// compared.
    pub fn build_args(&self) -> (args: Vec<String>)
        ensures
            texts_view(args@) == build_args_of(text_view(self.version_arg), self.compare),
    {
        build_args(&self.version_arg, self.compare)
    }

    /// The arguments of the build that follows a migration: as those of
    /// the first build, but without the pin.
    pub fn rebuild_args(&self) -> (args: Vec<String>)
        ensures
            texts_view(args@) == build_args_of(None, self.compare),
    {
        build_args(&None, self.compare)
    }

    /// The arguments of the command that `action` asks for; `None` where it
    /// asks for none.
    pub fn arguments(&self, action: BuildAction) -> (args: Option<Vec<String>>)
        ensures
            optional_texts_view(args) == self.commands().arguments_of(action),
    {
        match action {
            BuildAction::Build { compiler: Compiler::Target } => Some(self.build_args()),
            BuildAction::Build { compiler: Compiler::Reference } => Some(
                build_args(&self.reference_arg, self.compare),
            ),
            BuildAction::Rebuild => Some(self.rebuild_args()),
            BuildAction::Migrate { minor } => Some(migrate_args(minor)),
            BuildAction::Done { .. } => None,
        }
    }

    /// The command that `action` asks for: the compiler binary, run in the
    /// build root with the arguments of the action. `None` where the action
    /// asks for no command.
    pub fn invocation(&self, action: BuildAction) -> (command: Option<Invocation>)
        ensures
            optional_invocation_view(command) == self.commands().invocation_of(action),
    {
        match self.arguments(action) {
            Some(args) => Some(
                Invocation {
                    program: self.veryl.clone(),
                    directory: self.veryl_root.clone(),
                    args,
                },
            ),
            None => None,
        }
    }
}

} // verus!
