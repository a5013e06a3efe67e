//! Parsing of the program invocation into a launch request.
//!
//! The accepted form is `<program> run <command> [args...]`.  Anything else is
//! a usage error, rejected before any isolation is attempted.

use vstd::prelude::*;

verus! {

/// The command to launch inside the isolated namespaces: the executable name
/// followed by its arguments.
#[derive(Debug)]
pub struct LaunchRequest {
    pub command: String,
    pub args: Vec<String>,
}

impl LaunchRequest {
    /// The executable name, as a sequence of characters.
    pub open spec fn command_view(&self) -> Seq<char> {
        self.command@
    }

    /// The arguments, each as a sequence of characters.
    pub open spec fn args_view(&self) -> Seq<Seq<char>> {
        self.args.deep_view()
    }
}

/// A malformed invocation.  Detected before any namespace or process state is
/// created, so rejecting it has no side effects to undo.
#[derive(Clone, Copy, PartialEq, Eq, Debug)]
pub enum UsageError {
    /// No subcommand was given at all.
    MissingSubcommand,
    /// The first word after the program name was not the run subcommand.
    UnknownSubcommand,
    /// The run subcommand was given, but no command to launch followed it.
    MissingCommand,
}

/// The only subcommand this program accepts.
pub open spec fn run_subcommand() -> Seq<char> {
    "run"@
}

/// Splits the raw argument vector (program name included, at index 0) into a
/// launch request, or reports exactly why the invocation is malformed:
/// too short, a subcommand other than `run`, or `run` with nothing after it.
pub fn parse_invocation(argv: &Vec<String>) -> (r: Result<LaunchRequest, UsageError>)
    ensures
        argv.deep_view().len() < 2 ==> r == Err::<LaunchRequest, UsageError>(
            UsageError::MissingSubcommand,
        ),
        argv.deep_view().len() >= 2 && argv.deep_view()[1] != run_subcommand() ==> r
            == Err::<LaunchRequest, UsageError>(UsageError::UnknownSubcommand),
        argv.deep_view().len() == 2 && argv.deep_view()[1] == run_subcommand() ==> r
            == Err::<LaunchRequest, UsageError>(UsageError::MissingCommand),
        argv.deep_view().len() >= 3 && argv.deep_view()[1] == run_subcommand() ==> (r matches Ok(q)
            && q.command_view() == argv.deep_view()[2] && q.args_view() == argv.deep_view()
            .subrange(3, argv.deep_view().len() as int)),
{
    if argv.len() < 2 {
        return Err(UsageError::MissingSubcommand);
    }
    let run_word = String::from_str("run");
    proof {
        assert(argv.deep_view()[1] == argv@[1]@);
    }
    if argv[1] != run_word {
        return Err(UsageError::UnknownSubcommand);
    }
    if argv.len() < 3 {
        return Err(UsageError::MissingCommand);
    }
    let command = argv[2].clone();
    let mut args: Vec<String> = Vec::new();
    let mut i: usize = 3;
    while i < argv.len()
        invariant
            3 <= i <= argv@.len(),
            args@.len() == i - 3,
            forall|j: int| 0 <= j < args@.len() ==> args@[j] == argv@[j + 3],
        decreases argv@.len() - i,
    {
        let next = argv[i].clone();
        args.push(next);
        i = i + 1;
    }
    proof {
        assert(argv.deep_view()[2] == argv@[2]@);
        assert(args.deep_view() =~= argv.deep_view().subrange(
            3,
            argv.deep_view().len() as int,
        ));
    }
    Ok(LaunchRequest { command, args })
}

} // verus!
