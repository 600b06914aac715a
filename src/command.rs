use vstd::prelude::*;
use crate::platform::{Platform, get_platform};
use crate::text::same_text;

verus! {

/// The operations that the UI layer can invoke by name.
#[derive(Clone, Copy, Debug, PartialEq, Eq, Structural)]
pub enum Command {
    GetPlatform,
}

/// Why an invocation got no answer.
#[derive(Clone, Copy, Debug, PartialEq, Eq, Structural)]
pub enum CommandError {
    UnknownCommand,
}

impl Command {
    /// The name of the command, as the UI layer writes it.
    pub open spec fn spec_name(self) -> Seq<char> {
        match self {
            Command::GetPlatform => "get_platform"@,
        }
    }

    /// The name under which the UI layer invokes the command.
    pub fn name(&self) -> (r: &'static str)
        ensures
            r@ == self.spec_name(),
    {
        match self {
            Command::GetPlatform => "get_platform",
        }
    }

    /// Looks a command up by its name.
    pub fn from_name(name: &str) -> (r: Option<Command>)
        ensures
            r == command_of(name@),
    {
        if same_text(name, "get_platform") {
            Some(Command::GetPlatform)
        } else {
            None
        }
    }
}

/// The command registered under a name, if any.
pub open spec fn command_of(name: Seq<char>) -> Option<Command> {
    if name == "get_platform"@ {
        Some(Command::GetPlatform)
    } else {
        None
    }
}

/// What a command answers on a build for `target`.
pub open spec fn spec_response(c: Command, target: Platform) -> Seq<char> {
    match c {
        Command::GetPlatform => target.spec_identifier(),
    }
}

/// What invoking `name` answers on a build for `target`.
pub open spec fn invocation_result(name: Seq<char>, target: Platform) -> Result<
    Seq<char>,
    CommandError,
> {
    match command_of(name) {
        Some(c) => Ok(spec_response(c, target)),
        None => Err(CommandError::UnknownCommand),
    }
}

/// Runs a command on a build for `target`.
pub fn respond(c: Command, target: Platform) -> (r: String)
    ensures
        r@ == spec_response(c, target),
{
    match c {
        Command::GetPlatform => get_platform(target),
    }
}

/// Dispatches an invocation from the UI layer by command name.
pub fn invoke(name: &str, target: Platform) -> (r: Result<String, CommandError>)
    ensures
        match r {
            Ok(v) => invocation_result(name@, target) == Ok::<Seq<char>, CommandError>(v@),
            Err(e) => invocation_result(name@, target) == Err::<Seq<char>, CommandError>(e),
        },
{
    match Command::from_name(name) {
        Some(c) => Ok(respond(c, target)),
        None => Err(CommandError::UnknownCommand),
    }
}

/// Invoking `get_platform` answers the identifier of the build's target, whatever
/// was invoked before: the answer is a function of the target alone.
pub proof fn lemma_get_platform_invocation(target: Platform)
    ensures
        invocation_result("get_platform"@, target) == Ok::<Seq<char>, CommandError>(
            target.spec_identifier(),
        ),
        target.spec_identifier().len() > 0,
{
    crate::platform::lemma_identifier_round_trip(target, target);
}

} // verus!
