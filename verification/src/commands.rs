//! Command-line argument parsing.

use vstd::prelude::*;

verus! {

/// A parsed command-line invocation.
#[derive(Debug)]
pub enum Command {
    Create { name: String, org: String, description: String },
    Get,
    Run,
    Build { target: Option<String> },
    Clean,
    Add { package: String },
    Remove { package: String },
    List,
    Help,
    Version,
}

/// An argument vector that could not be parsed into a `Command`.
#[derive(Debug)]
pub enum CliError {
    MissingArgument(String),
    InvalidArgument(String),
    UnknownCommand(String),
}

/// Relates an argument vector (element `0` is the program name) to the
/// parse result it must produce.
pub open spec fn parse_result_spec(args: Seq<String>, r: Result<Command, CliError>) -> bool {
    if args.len() < 2 {
        r matches Err(CliError::MissingArgument(m)) && m@ == "command"@
    } else {
        let c = args[1]@;
        if c == "create"@ {
            if args.len() < 3 {
                r matches Err(CliError::MissingArgument(m)) && m@ == "project_name"@
            } else {
                r matches Ok(Command::Create { name, org, description })
                    && name@ == args[2]@
                    && org@ == (if args.len() > 3 { args[3]@ } else { "com.example"@ })
                    && description@ == (if args.len() > 4 { args[4]@ } else { "A new IPL project"@ })
            }
        } else if c == "get"@ {
            r matches Ok(Command::Get)
        } else if c == "run"@ {
            r matches Ok(Command::Run)
        } else if c == "build"@ {
            r matches Ok(Command::Build { target }) && (match target {
                Some(t) => args.len() > 2 && t@ == args[2]@,
                None => args.len() <= 2,
            })
        } else if c == "clean"@ {
            r matches Ok(Command::Clean)
        } else if c == "add"@ {
            if args.len() < 3 {
                r matches Err(CliError::MissingArgument(m)) && m@ == "package"@
            } else {
                r matches Ok(Command::Add { package }) && package@ == args[2]@
            }
        } else if c == "remove"@ {
            if args.len() < 3 {
                r matches Err(CliError::MissingArgument(m)) && m@ == "package"@
            } else {
                r matches Ok(Command::Remove { package }) && package@ == args[2]@
            }
        } else if c == "list"@ {
            r matches Ok(Command::List)
        } else if c == "help"@ || c == "-h"@ || c == "--help"@ {
            r matches Ok(Command::Help)
        } else if c == "version"@ || c == "-V"@ || c == "--version"@ {
            r matches Ok(Command::Version)
        } else {
            r matches Err(CliError::UnknownCommand(u)) && u@ == args[1]@
        }
    }
}

/// Does the string equal the given literal?
pub(crate) fn string_is(s: &String, lit: &str) -> (r: bool)
    ensures
        r == (s@ == lit@),
{
    let l: String = lit.to_owned();
    *s == l
}

/// Parses an argument vector (element `0` being the program name) into a
/// `Command`, or reports which argument is missing or unrecognized.
pub fn parse_args(args: &[String]) -> (r: Result<Command, CliError>)
    ensures
        parse_result_spec(args@, r),
{
    if args.len() < 2 {
        return Err(CliError::MissingArgument("command".to_owned()));
    }

    let cmd = &args[1];
    if string_is(cmd, "create") {
        if args.len() < 3 {
            return Err(CliError::MissingArgument("project_name".to_owned()));
        }
        let name = args[2].clone();
        let org = if args.len() > 3 {
            args[3].clone()
        } else {
            "com.example".to_owned()
        };
        let description = if args.len() > 4 {
            args[4].clone()
        } else {
            "A new IPL project".to_owned()
        };
        Ok(Command::Create { name, org, description })
    } else if string_is(cmd, "get") {
        Ok(Command::Get)
    } else if string_is(cmd, "run") {
        Ok(Command::Run)
    } else if string_is(cmd, "build") {
        let target = if args.len() > 2 {
            Some(args[2].clone())
        } else {
            None
        };
        Ok(Command::Build { target })
    } else if string_is(cmd, "clean") {
        Ok(Command::Clean)
    } else if string_is(cmd, "add") {
        if args.len() < 3 {
            return Err(CliError::MissingArgument("package".to_owned()));
        }
        Ok(Command::Add { package: args[2].clone() })
    } else if string_is(cmd, "remove") {
        if args.len() < 3 {
            return Err(CliError::MissingArgument("package".to_owned()));
        }
        Ok(Command::Remove { package: args[2].clone() })
    } else if string_is(cmd, "list") {
        Ok(Command::List)
    } else if string_is(cmd, "help") || string_is(cmd, "-h") || string_is(cmd, "--help") {
        Ok(Command::Help)
    } else if string_is(cmd, "version") || string_is(cmd, "-V") || string_is(cmd, "--version") {
        Ok(Command::Version)
    } else {
        Err(CliError::UnknownCommand(cmd.clone()))
    }
}

impl CliError {
    /// The one-line diagnostic the front end prints for this error.
    pub fn message(&self) -> (r: String)
        ensures
            self matches CliError::MissingArgument(a) ==> r@ == "Missing argument: "@ + a@,
            self matches CliError::InvalidArgument(a) ==> r@ == "Invalid argument: "@ + a@,
            self matches CliError::UnknownCommand(c) ==> r@ == "Unknown command: "@ + c@,
    {
        match self {
            CliError::MissingArgument(a) => "Missing argument: ".to_owned().concat(a.as_str()),
            CliError::InvalidArgument(a) => "Invalid argument: ".to_owned().concat(a.as_str()),
            CliError::UnknownCommand(c) => "Unknown command: ".to_owned().concat(c.as_str()),
        }
    }
}

} // verus!
