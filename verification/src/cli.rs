//! The command line and the choice of the display output.
//!
//! The command line holds pairs of `--monitor` and a name; the last pair
//! wins. Anything else in the place of `--monitor` asks for the usage text.
use vstd::prelude::*;
use vstd::string::*;

verus! {

/// What the command line asks for, over the arguments' characters.
pub enum CommandLine {
    /// Run, on the named output or, without a name, on the first.
    Run { monitor: Option<Seq<char>> },
    /// `--monitor` stands last, without its value.
    MissingValue,
    /// An argument other than `--monitor` stands where an option is expected.
    Usage,
}

/// What the command line asks for.
#[derive(Debug, PartialEq, Eq)]
pub enum CliOutcome {
    /// Run, on the named output or, without a name, on the first.
    Run { monitor: Option<String> },
    /// `--monitor` stands last, without its value: report it and exit with 1.
    MissingValue,
    /// Print the usage text and exit with 0.
    Usage,
}

impl View for CliOutcome {
    type V = CommandLine;

    open spec fn view(&self) -> CommandLine {
        match self {
            CliOutcome::Run { monitor: Some(name) } => CommandLine::Run { monitor: Some(name@) },
            CliOutcome::Run { monitor: None } => CommandLine::Run { monitor: None },
            CliOutcome::MissingValue => CommandLine::MissingValue,
            CliOutcome::Usage => CommandLine::Usage,
        }
    }
}

/// Why the program cannot start.
#[derive(Debug, PartialEq, Eq)]
pub enum StartupError {
    /// The capture service lists no output.
    NoOutputs,
    /// No output has the name asked for.
    OutputNotFound { name: String },
}

/// The characters of each argument.
pub open spec fn texts(args: Seq<String>) -> Seq<Seq<char>> {
    Seq::new(args.len(), |i: int| args[i]@)
}

/// The option that names the output.
pub open spec fn monitor_flag() -> Seq<char> {
    "--monitor"@
}

/// Options stand at the even places, their values at the odd ones. A stray
/// argument is one at an even place that is not `--monitor`.
pub open spec fn has_stray(args: Seq<Seq<char>>) -> bool {
    exists|i: int| 0 <= i < args.len() && i % 2 == 0 && #[trigger] args[i] != monitor_flag()
}

/// What a command line asks for. A stray argument asks for the usage text,
/// whatever follows it. Without one, an odd number of arguments leaves the
/// last `--monitor` without a value; an even number names the output in its
/// last argument, if there is any.
pub open spec fn command_line(args: Seq<Seq<char>>) -> CommandLine {
    if has_stray(args) {
        CommandLine::Usage
    } else if args.len() % 2 == 1 {
        CommandLine::MissingValue
    } else if args.len() == 0 {
        CommandLine::Run { monitor: None }
    } else {
        CommandLine::Run { monitor: Some(args.last()) }
    }
}

/// Whether some output has the name.
pub open spec fn is_listed(names: Seq<Seq<char>>, name: Seq<char>) -> bool {
    exists|i: int| 0 <= i < names.len() && #[trigger] names[i] == name
}

/// Whether `index` is the first output with the name.
pub open spec fn is_first_listing(names: Seq<Seq<char>>, name: Seq<char>, index: int) -> bool {
    &&& 0 <= index < names.len()
    &&& names[index] == name
    &&& forall|j: int| 0 <= j < index ==> #[trigger] names[j] != name
}

/// The usage text for a program called `bin`.
pub open spec fn usage_of(bin: Seq<char>) -> Seq<char> {
    bin + "  – Wayland screen-zoom tool\n\nUSAGE:\n    "@ + bin
        + " [--monitor <name>]\n\nOPTIONS:\n    --monitor <name>   Target monitor (Wayland output name); defaults to primary if flag is not provided."@
}

/// What a startup error tells the user.
pub open spec fn complaint(error: StartupError) -> Seq<char> {
    match error {
        StartupError::NoOutputs => "No Wayland outputs found."@,
        StartupError::OutputNotFound { name } => "Output '"@ + name@ + "' not found."@,
    }
}

impl CliOutcome {
    /// The status with which the program ends before it starts, if the
    /// command line makes it: 1 for a missing value, 0 for the usage text.
    pub fn exit_code(&self) -> (code: Option<i32>)
        ensures
            code == match self@ {
                CommandLine::Run { .. } => None::<i32>,
                CommandLine::MissingValue => Some(1i32),
                CommandLine::Usage => Some(0i32),
            },
    {
        match self {
            CliOutcome::Run { .. } => None,
            CliOutcome::MissingValue => Some(1),
            CliOutcome::Usage => Some(0),
        }
    }
}

impl StartupError {
    /// The status with which the program ends: never zero.
    pub fn exit_code(&self) -> (code: i32)
        ensures
            code == 1,
    {
        1
    }

    /// What to tell the user.
    pub fn message(&self) -> (text: String)
        ensures
            text@ == complaint(*self),
    {
        match self {
            StartupError::NoOutputs => String::from_str("No Wayland outputs found."),
            StartupError::OutputNotFound { name } => {
                String::from_str("Output '").concat(name.as_str()).concat("' not found.")
            },
        }
    }
}

/// What to tell the user when `--monitor` has no value.
pub fn missing_value_message() -> (text: String)
    ensures
        text@ == "--monitor needs a value"@,
{
    String::from_str("--monitor needs a value")
}

/// The usage text for a program called `bin`.
pub fn usage_text(bin: &str) -> (text: String)
    ensures
        text@ == usage_of(bin@),
{
    String::from_str(bin).concat("  – Wayland screen-zoom tool\n\nUSAGE:\n    ").concat(
        bin,
    ).concat(
        " [--monitor <name>]\n\nOPTIONS:\n    --monitor <name>   Target monitor (Wayland output name); defaults to primary if flag is not provided.",
    )
}

/// Reads the arguments that follow the program's name.
pub fn parse_args(args: &Vec<String>) -> (outcome: CliOutcome)
    ensures
        outcome@ == command_line(texts(args@)),
{
    let flag = String::from_str("--monitor");
    let ghost line = texts(args@);
    let mut monitor: Option<String> = None;
    let mut i: usize = 0;
    while i < args.len()
        invariant
            i <= args.len(),
            i % 2 == 0,
            flag@ == monitor_flag(),
            line == texts(args@),
            forall|j: int| 0 <= j < i && j % 2 == 0 ==> #[trigger] line[j] == monitor_flag(),
            i == 0 ==> monitor is None,
            i > 0 ==> monitor is Some && monitor->0@ == line[i - 1],
        decreases args.len() - i,
    {
        if args[i] != flag {
            assert(line[i as int] != monitor_flag());
            return CliOutcome::Usage;
        }
        if args.len() - i < 2 {
            assert(!has_stray(line));
            return CliOutcome::MissingValue;
        }
        monitor = Some(args[i + 1].clone());
        i = i + 2;
    }
    assert(!has_stray(line));
    assert(i > 0 ==> line[i - 1] == line.last());
    CliOutcome::Run { monitor }
}

/// Picks the output to show: the first one when no name is asked for, else
/// the first one with that name. Returns its place in the list.
pub fn select_output(names: &Vec<String>, monitor: &Option<String>) -> (choice: Result<
    usize,
    StartupError,
>)
    ensures
        names@.len() == 0 ==> choice == Err::<usize, StartupError>(StartupError::NoOutputs),
        names@.len() > 0 && monitor is None ==> choice == Ok::<usize, StartupError>(0),
        names@.len() > 0 && monitor is Some ==> match choice {
            Ok(index) => is_first_listing(texts(names@), monitor->0@, index as int),
            Err(StartupError::OutputNotFound { name }) => name@ == monitor->0@ && !is_listed(
                texts(names@),
                monitor->0@,
            ),
            Err(StartupError::NoOutputs) => false,
        },
{
    if names.len() == 0 {
        return Err(StartupError::NoOutputs);
    }
    match monitor {
        None => Ok(0),
        Some(wanted) => {
            let ghost listed = texts(names@);
            let mut i: usize = 0;
            while i < names.len()
                invariant
                    i <= names.len(),
                    names.len() > 0,
                    monitor is Some,
                    monitor->0 == *wanted,
                    listed == texts(names@),
                    forall|j: int| 0 <= j < i ==> #[trigger] listed[j] != wanted@,
                decreases names.len() - i,
            {
                if names[i] == *wanted {
                    assert(listed[i as int] == wanted@);
                    return Ok(i);
                }
                assert(listed[i as int] != wanted@);
                i = i + 1;
            }
            Err(StartupError::OutputNotFound { name: wanted.clone() })
        },
    }
}

} // verus!
