use vstd::prelude::*;
use vstd::string::StringExecFns;
use crate::funge_dialect::FungeDialect;
use crate::io::code_source::CodeSource;
use crate::utils::humanize::{format_humaized_list, humanized, texts};

verus! {

/// What is wrong with the arguments of the command line.
#[derive(Debug)]
pub struct ArgError {
    message: String,
}

impl View for ArgError {
    type V = Seq<char>;

    /// The message.
    closed spec fn view(&self) -> Seq<char> {
        self.message@
    }
}

impl ArgError {
    /// An error with the message `message`.
    pub fn new(message: String) -> (error: Self)
        ensures
            error@ == message@,
    {
        ArgError { message }
    }

    /// The message.
    pub fn message(&self) -> (message: &str)
        ensures
            message@ == self@,
    {
        self.message.as_str()
    }
}

/// The dialect that the command line asks for.
#[derive(Copy, Clone, PartialEq, Eq, Structural, Debug)]
pub enum DialectOption {
    Specific(FungeDialect),
    Unknown,
}

/// What the command line asks for.
pub struct RunOptions {
    source_file: String,
    dialect_mode: DialectOption,
}

/// What the command line asks for, as plain values.
pub struct RunOptionsView {
    pub source_file: Seq<char>,
    pub dialect_mode: DialectOption,
}

impl View for RunOptions {
    type V = RunOptionsView;

    closed spec fn view(&self) -> RunOptionsView {
        RunOptionsView { source_file: self.source_file@, dialect_mode: self.dialect_mode }
    }
}

impl RunOptions {
    /// The path of the file that holds the program.
    pub fn source_file(&self) -> (path: &str)
        ensures
            path@ == self@.source_file,
    {
        self.source_file.as_str()
    }

    /// The dialect that the command line asks for, if it names one.
    pub fn dialect_mode(&self) -> (dialect: DialectOption)
        ensures
            dialect == self@.dialect_mode,
    {
        self.dialect_mode
    }

    /// Where the program comes from: the source file, with the dialect that
    /// the command line names, if it names one.
    pub fn code_source(&self) -> (source: CodeSource)
        ensures
            source.path() == self@.source_file,
            source.dialect() == match self@.dialect_mode {
                DialectOption::Specific(dialect) => Some(dialect),
                DialectOption::Unknown => None,
            },
    {
        CodeSource::new(
            String::from_str(self.source_file.as_str()),
            match self.dialect_mode {
                DialectOption::Specific(d) => Some(d),
                DialectOption::Unknown => None,
            },
        )
    }
}

/// The dialect with the name `name`, if there is one: each dialect has a
/// short and a long name.
pub open spec fn dialect_named(name: Seq<char>) -> Option<FungeDialect> {
    if name == "b93"@ || name == "befunge93"@ {
        Some(FungeDialect::Befunge93)
    } else if name == "u98"@ || name == "unefunge98"@ {
        Some(FungeDialect::Unefunge98)
    } else if name == "b98"@ || name == "befunge98"@ {
        Some(FungeDialect::Befunge98)
    } else if name == "t98"@ || name == "trefunge98"@ {
        Some(FungeDialect::Trefunge98)
    } else {
        None
    }
}

/// Whether `a` and `b` are the same text.
fn same_text(a: &str, b: &str) -> (same: bool)
    ensures
        same == (a@ == b@),
{
    let left = String::from_str(a);
    let right = String::from_str(b);
    left == right
}

/// The dialect that the name `name` stands for, or an error that names the
/// name.
pub fn parse_dialect(name: &str) -> (result: Result<DialectOption, ArgError>)
    ensures
        dialect_named(name@) is Some ==> result is Ok && result->Ok_0 == DialectOption::Specific(
            dialect_named(name@)->0,
        ),
        dialect_named(name@) is None ==> result is Err && result->Err_0@
            == "Unknown funge dialect '"@ + name@ + "'"@,
{
    if same_text(name, "b93") || same_text(name, "befunge93") {
        Ok(DialectOption::Specific(FungeDialect::Befunge93))
    } else if same_text(name, "u98") || same_text(name, "unefunge98") {
        Ok(DialectOption::Specific(FungeDialect::Unefunge98))
    } else if same_text(name, "b98") || same_text(name, "befunge98") {
        Ok(DialectOption::Specific(FungeDialect::Befunge98))
    } else if same_text(name, "t98") || same_text(name, "trefunge98") {
        Ok(DialectOption::Specific(FungeDialect::Trefunge98))
    } else {
        let mut message = String::from_str("Unknown funge dialect '");
        message.append(name);
        message.append("'");
        Err(ArgError::new(message))
    }
}

/// What the values of the two arguments of the command line come to: an
/// error where the dialect is named and not known, or where no source file is
/// given; else the options, with the dialect unknown where none is named.
pub open spec fn run_options_of(dialect: Option<Seq<char>>, source_file: Option<Seq<char>>) -> Result<
    RunOptionsView,
    Seq<char>,
> {
    if dialect is Some && dialect_named(dialect->0) is None {
        Err("Unknown funge dialect '"@ + dialect->0 + "'"@)
    } else if source_file is None {
        Err("Source file must be specified"@)
    } else {
        Ok(
            RunOptionsView {
                source_file: source_file->0,
                dialect_mode: if dialect is Some {
                    DialectOption::Specific(dialect_named(dialect->0)->0)
                } else {
                    DialectOption::Unknown
                },
            },
        )
    }
}

/// The outcome of reading the command line, as plain values.
pub open spec fn outcome_view(result: Result<RunOptions, ArgError>) -> Result<
    RunOptionsView,
    Seq<char>,
> {
    match result {
        Ok(options) => Ok(options@),
        Err(error) => Err(error@),
    }
}

/// Makes the options out of the values of the two arguments of the command
/// line.
pub fn run_options_from(dialect: Option<&str>, source_file: Option<&str>) -> (result: Result<
    RunOptions,
    ArgError,
>)
    ensures
        outcome_view(result) == run_options_of(
            match dialect {
                Some(name) => Some(name@),
                None => None,
            },
            match source_file {
                Some(path) => Some(path@),
                None => None,
            },
        ),
{
    // Parse dialect options
    let dialect_mode: DialectOption = match dialect {
        Some(dialect_name) => {
            match parse_dialect(dialect_name) {
                Ok(mode) => mode,
                Err(error) => {
                    return Err(error);
                },
            }
        },
        None => DialectOption::Unknown,
    };

    // Get source file path
    let source_file = match source_file {
        None => {
            return Err(ArgError::new(String::from_str("Source file must be specified")));
        },
        Some(file) => String::from_str(file),
    };

    // Make options object
    let options = RunOptions { dialect_mode, source_file };
    return Ok(options);
}

/// The values that clap finds for the arguments `dialect` and `source-file`
/// on the command line `args`, given the help text for the dialect; nothing
/// where clap turns the command line down.
pub uninterp spec fn clap_values(args: Seq<Seq<char>>, dialect_help: Seq<char>) -> Option<
    (Option<Seq<char>>, Option<Seq<char>>),
>;

/// The values of two arguments as texts.
pub open spec fn values_view(values: Option<(Option<String>, Option<String>)>) -> Option<
    (Option<Seq<char>>, Option<Seq<char>>),
> {
    match values {
        None => None,
        Some((dialect, source_file)) => Some(
            (
                match dialect {
                    Some(name) => Some(name@),
                    None => None,
                },
                match source_file {
                    Some(path) => Some(path@),
                    None => None,
                },
            ),
        ),
    }
}

/// The texts of `args`.
pub open spec fn arg_texts(args: Seq<String>) -> Seq<Seq<char>> {
    Seq::new(args.len(), |i: int| args[i]@)
}

/// `clap::App::get_matches_from_safe` on an app named `rsfunge` with the
/// option `dialect` (`-d`, `--dialect`, takes a value) and the required
/// positional argument `source-file`, read with `clap::ArgMatches::value_of`.
/// What comes back depends on the command line and on the help text alone:
/// it is what `clap_values` names, and nothing more is claimed of it.
#[verifier::external_body]
fn clap_parse(args: &Vec<String>, dialect_help: &str) -> (values: Option<
    (Option<String>, Option<String>),
>)
    ensures
        values_view(values) == clap_values(arg_texts(args@), dialect_help@),
{
    let cli = clap::App::new("rsfunge").arg(
        clap::Arg::with_name("dialect").short("d").long("dialect").help(dialect_help).takes_value(
            true,
        ),
    ).arg(clap::Arg::with_name("source-file").index(1).empty_values(false).required(true));
    match cli.get_matches_from_safe(args) {
        Ok(m) => Some(
            (m.value_of("dialect").map(String::from), m.value_of("source-file").map(String::from)),
        ),
        Err(_) => None,
    }
}

/// The help text for the option that names the dialect.
pub open spec fn dialect_help_text() -> Seq<char> {
    "Which dialect of Funge to use ("@ + humanized(seq!["TEST"@, "WORLD"@]) + ")"@
}

/// What the values that clap found come to: an error where clap turned the
/// command line down, else what `run_options_of` makes of them.
pub open spec fn cli_outcome(values: Option<(Option<Seq<char>>, Option<Seq<char>>)>) -> Result<
    RunOptionsView,
    Seq<char>,
> {
    match values {
        None => Err("Failed to parse"@),
        Some((dialect, source_file)) => run_options_of(dialect, source_file),
    }
}

/// Makes the options out of what clap found on the command line.
pub fn interpret_cli(values: Option<(Option<String>, Option<String>)>) -> (result: Result<
    RunOptions,
    ArgError,
>)
    ensures
        outcome_view(result) == cli_outcome(values_view(values)),
{
    match values {
        None => Err(ArgError::new(String::from_str("Failed to parse"))),
        Some((dialect, source_file)) => {
            let dialect_name = match &dialect {
                Some(name) => Some(name.as_str()),
                None => None,
            };
            let source_file_name = match &source_file {
                Some(path) => Some(path.as_str()),
                None => None,
            };
            run_options_from(dialect_name, source_file_name)
        },
    }
}

/// Reads the command line `args`, the name of the program first.
pub fn parse_cli(args: &Vec<String>) -> (result: Result<RunOptions, ArgError>)
    ensures
        outcome_view(result) == cli_outcome(clap_values(arg_texts(args@), dialect_help_text())),
{
    // Construct cli
    let names: [&str; 2] = ["TEST", "WORLD"];
    let dialect_list = format_humaized_list(names.as_slice());
    let mut dialect_help = String::from_str("Which dialect of Funge to use (");
    dialect_help.append(dialect_list.as_str());
    dialect_help.append(")");
    proof {
        assert(texts(names@) =~= seq!["TEST"@, "WORLD"@]);
    }

    // Evalutate cli invocation
    let values = clap_parse(args, dialect_help.as_str());
    interpret_cli(values)
}

/// The exit code of a process whose command line was wrong.
pub const EXIT_CODE_BAD_ARGUMENTS: i32 = -1;

/// How the program goes on once its command line is read.
pub enum Start {
    /// The program that the options name is run.
    Run(RunOptions),
    /// Nothing is run: the message of the error goes to the error stream, and
    /// the process ends with the exit code.
    Refuse(ArgError, i32),
}

/// How the program goes on, as plain values.
pub enum StartView {
    Run(RunOptionsView),
    Refuse(Seq<char>, i32),
}

impl View for Start {
    type V = StartView;

    open spec fn view(&self) -> StartView {
        match *self {
            Start::Run(options) => StartView::Run(options@),
            Start::Refuse(error, exit_code) => StartView::Refuse(error@, exit_code),
        }
    }
}

/// How the program goes on after an outcome of reading the command line: with
/// a run where there are options, else with the exit code for a wrong command
/// line.
pub open spec fn start_of(outcome: Result<RunOptionsView, Seq<char>>) -> StartView {
    match outcome {
        Ok(options) => StartView::Run(options),
        Err(message) => StartView::Refuse(message, EXIT_CODE_BAD_ARGUMENTS),
    }
}

/// Starts the program on the command line `args`, the name of the program
/// first: tells what is to be run, or why nothing is.
pub fn start(args: &Vec<String>) -> (plan: Start)
    ensures
        plan@ == start_of(cli_outcome(clap_values(arg_texts(args@), dialect_help_text()))),
{
    // Handle cli
    match parse_cli(args) {
        Ok(options) => Start::Run(options),
        Err(error) => Start::Refuse(error, EXIT_CODE_BAD_ARGUMENTS),
    }
}

/// The exit code of the process after a run: the one that the program asked
/// for where it ran the quit instruction, else zero for success.
pub open spec fn spec_exit_code(requested: Option<i32>) -> i32 {
    match requested {
        Some(code) => code,
        None => 0,
    }
}

/// The exit code of the process after a run: the one that the program asked
/// for where it ran the quit instruction, else zero for success.
pub fn exit_code_of(requested: Option<i32>) -> (code: i32)
    ensures
        code == spec_exit_code(requested),
{
    // Exit with exit code
    if let Some(code) = requested {
        code
    } else {
        0
    }
}

} // verus!
