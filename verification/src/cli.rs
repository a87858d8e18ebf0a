//! The command-line grammar of the tool.
//!
//! `dredge [--log-level[=LEVEL]] <REGISTRY> <COMMAND> [ARGS]`: an optional
//! log-level option (bare `--log-level` means `info`; a repeated option
//! takes the last value), then the registry host or URL, then one of the
//! subcommands `catalog`, `tags <name>`, `show <image> [tag]`,
//! `delete <image> <tag>`, `check`. The first argument is the program
//! name. Any other argument beginning with `-` is rejected.

use vstd::prelude::*;
use vstd::string::StrSliceExecFns;
use vstd::string::StringExecFns;

use crate::text::has_prefix;
use crate::text::spec_has_prefix;
use crate::text::string_is;

verus! {

/// The log levels the tool accepts.
#[derive(Copy, Clone, Debug, PartialEq, Eq)]
pub enum LogLevel {
    Trace,
    Debug,
    Info,
    Warn,
    Error,
    Off,
}

/// The subcommands of the tool.
#[derive(Debug, PartialEq, Eq)]
pub enum Commands {
    /// Fetch the list of available repositories from the catalog.
    Catalog,
    /// Fetch the list of tags for a given image.
    Tags { name: String },
    /// Show detailed information about a particular image.
    Show { image: String, tag: Option<String> },
    /// Delete a tagged image from the registry.
    Delete { image: String, tag: String },
    /// Perform a simple version check towards the Docker Registry API.
    Check,
}

/// A fully parsed command line.
#[derive(Debug, PartialEq, Eq)]
pub struct Cli {
    pub command: Commands,
    pub log_level: LogLevel,
    pub registry: String,
}

/// Why a command line was rejected. Each payload is the offending
/// argument as it was given.
#[derive(Debug, PartialEq, Eq)]
pub enum CliError {
    UnknownOption(String),
    UnknownLogLevel(String),
    MissingRegistry,
    MissingCommand,
    UnknownCommand(String),
    MissingArgument(String),
    UnexpectedArgument(String),
}

/// The level a log-level argument selects, if it is one of the accepted
/// forms; the bare option selects `info`.
pub open spec fn level_of_arg(a: String) -> Option<LogLevel> {
    if a@ == "--log-level"@ || a@ == "--log-level=info"@ {
        Some(LogLevel::Info)
    } else if a@ == "--log-level=trace"@ {
        Some(LogLevel::Trace)
    } else if a@ == "--log-level=debug"@ {
        Some(LogLevel::Debug)
    } else if a@ == "--log-level=warn"@ {
        Some(LogLevel::Warn)
    } else if a@ == "--log-level=error"@ {
        Some(LogLevel::Error)
    } else if a@ == "--log-level=off"@ {
        Some(LogLevel::Off)
    } else {
        None
    }
}

/// Whether an argument names the log-level option with a value.
pub open spec fn is_level_option(a: String) -> bool {
    spec_has_prefix(a@, "--log-level="@)
}

/// Whether an argument looks like an option.
pub open spec fn is_option_like(a: String) -> bool {
    a@.len() >= 1 && a@[0] == '-'
}

/// One left-to-right pass over the arguments after the program name:
/// log-level options set the level (the last one wins), anything else
/// beginning with `-` is rejected, and the rest are positionals.
pub open spec fn scan_args(args: Seq<String>, level: LogLevel, pos: Seq<String>) -> Result<
    (LogLevel, Seq<String>),
    CliError,
>
    decreases args.len(),
{
    if args.len() == 0 {
        Ok((level, pos))
    } else {
        let a = args.first();
        match level_of_arg(a) {
            Some(l) => scan_args(args.skip(1), l, pos),
            None => {
                if is_level_option(a) {
                    Err(CliError::UnknownLogLevel(a))
                } else if is_option_like(a) {
                    Err(CliError::UnknownOption(a))
                } else {
                    scan_args(args.skip(1), level, pos.push(a))
                }
            },
        }
    }
}

/// The command line the positionals and the chosen level describe:
/// the registry, then the subcommand word, then its arguments, each
/// subcommand with its exact arity.
pub open spec fn build_cli(level: LogLevel, pos: Seq<String>) -> Result<Cli, CliError> {
    if pos.len() == 0 {
        Err(CliError::MissingRegistry)
    } else if pos.len() == 1 {
        Err(CliError::MissingCommand)
    } else {
        let registry = pos[0];
        let word = pos[1];
        if word@ == "catalog"@ {
            if pos.len() > 2 {
                Err(CliError::UnexpectedArgument(pos[2]))
            } else {
                Ok(Cli { command: Commands::Catalog, log_level: level, registry })
            }
        } else if word@ == "tags"@ {
            if pos.len() < 3 {
                Err(CliError::MissingArgument(word))
            } else if pos.len() > 3 {
                Err(CliError::UnexpectedArgument(pos[3]))
            } else {
                Ok(Cli { command: Commands::Tags { name: pos[2] }, log_level: level, registry })
            }
        } else if word@ == "show"@ {
            if pos.len() < 3 {
                Err(CliError::MissingArgument(word))
            } else if pos.len() == 3 {
                Ok(
                    Cli {
                        command: Commands::Show { image: pos[2], tag: None },
                        log_level: level,
                        registry,
                    },
                )
            } else if pos.len() == 4 {
                Ok(
                    Cli {
                        command: Commands::Show { image: pos[2], tag: Some(pos[3]) },
                        log_level: level,
                        registry,
                    },
                )
            } else {
                Err(CliError::UnexpectedArgument(pos[4]))
            }
        } else if word@ == "delete"@ {
            if pos.len() < 4 {
                Err(CliError::MissingArgument(word))
            } else if pos.len() > 4 {
                Err(CliError::UnexpectedArgument(pos[4]))
            } else {
                Ok(
                    Cli {
                        command: Commands::Delete { image: pos[2], tag: pos[3] },
                        log_level: level,
                        registry,
                    },
                )
            }
        } else if word@ == "check"@ {
            if pos.len() > 2 {
                Err(CliError::UnexpectedArgument(pos[2]))
            } else {
                Ok(Cli { command: Commands::Check, log_level: level, registry })
            }
        } else {
            Err(CliError::UnknownCommand(word))
        }
    }
}

/// What parsing a whole command line (program name first) yields.
pub open spec fn spec_parse_cli(args: Seq<String>) -> Result<Cli, CliError> {
    if args.len() == 0 {
        Err(CliError::MissingRegistry)
    } else {
        match scan_args(args.skip(1), LogLevel::Info, Seq::empty()) {
            Ok((level, pos)) => build_cli(level, pos),
            Err(e) => Err(e),
        }
    }
}

/// The tag the `show` subcommand works on when none was given.
pub fn tag_or_latest(tag: Option<String>) -> (r: String)
    ensures
        match tag {
            Some(t) => r == t,
            None => r@ == "latest"@,
        },
{
    match tag {
        Some(t) => t,
        None => String::from_str("latest"),
    }
}

/// The level an argument selects, if any.
fn level_of_arg_exec(a: &String) -> (r: Option<LogLevel>)
    ensures
        r == level_of_arg(*a),
{
    if string_is(a, "--log-level") || string_is(a, "--log-level=info") {
        Some(LogLevel::Info)
    } else if string_is(a, "--log-level=trace") {
        Some(LogLevel::Trace)
    } else if string_is(a, "--log-level=debug") {
        Some(LogLevel::Debug)
    } else if string_is(a, "--log-level=warn") {
        Some(LogLevel::Warn)
    } else if string_is(a, "--log-level=error") {
        Some(LogLevel::Error)
    } else if string_is(a, "--log-level=off") {
        Some(LogLevel::Off)
    } else {
        None
    }
}

/// Parse a whole command line, the program name first.
pub fn parse_cli(args: &Vec<String>) -> (r: Result<Cli, CliError>)
    ensures
        r == spec_parse_cli(args@),
{
    if args.len() == 0 {
        return Err(CliError::MissingRegistry);
    }

    let mut level = LogLevel::Info;
    let mut pos: Vec<String> = Vec::new();
    let mut i: usize = 1;
    while i < args.len()
        invariant
            1 <= i <= args@.len(),
            scan_args(args@.skip(1), LogLevel::Info, Seq::empty()) == scan_args(
                args@.skip(i as int),
                level,
                pos@,
            ),
        decreases args@.len() - i,
    {
        proof {
            assert(args@.skip(i as int).first() == args@[i as int]);
            assert(args@.skip(i as int).skip(1) =~= args@.skip(i + 1 as int));
        }
        let a = &args[i];
        match level_of_arg_exec(a) {
            Some(l) => {
                level = l;
            },
            None => {
                if has_prefix(a, "--log-level=") {
                    return Err(CliError::UnknownLogLevel(a.clone()));
                }
                let option_like = if a.as_str().unicode_len() >= 1 {
                    a.as_str().get_char(0) == '-'
                } else {
                    false
                };
                if option_like {
                    return Err(CliError::UnknownOption(a.clone()));
                }
                pos.push(a.clone());
            },
        }
        i = i + 1;
    }
    proof {
        assert(args@.skip(args@.len() as int) =~= Seq::<String>::empty());
    }

    if pos.len() == 0 {
        return Err(CliError::MissingRegistry);
    }
    if pos.len() == 1 {
        return Err(CliError::MissingCommand);
    }
    let registry = pos[0].clone();
    let word = &pos[1];
    if string_is(word, "catalog") {
        if pos.len() > 2 {
            Err(CliError::UnexpectedArgument(pos[2].clone()))
        } else {
            Ok(Cli { command: Commands::Catalog, log_level: level, registry })
        }
    } else if string_is(word, "tags") {
        if pos.len() < 3 {
            Err(CliError::MissingArgument(word.clone()))
        } else if pos.len() > 3 {
            Err(CliError::UnexpectedArgument(pos[3].clone()))
        } else {
            Ok(
                Cli {
                    command: Commands::Tags { name: pos[2].clone() },
                    log_level: level,
                    registry,
                },
            )
        }
    } else if string_is(word, "show") {
        if pos.len() < 3 {
            Err(CliError::MissingArgument(word.clone()))
        } else if pos.len() == 3 {
            Ok(
                Cli {
                    command: Commands::Show { image: pos[2].clone(), tag: None },
                    log_level: level,
                    registry,
                },
            )
        } else if pos.len() == 4 {
            Ok(
                Cli {
                    command: Commands::Show { image: pos[2].clone(), tag: Some(pos[3].clone()) },
                    log_level: level,
                    registry,
                },
            )
        } else {
            Err(CliError::UnexpectedArgument(pos[4].clone()))
        }
    } else if string_is(word, "delete") {
        if pos.len() < 4 {
            Err(CliError::MissingArgument(word.clone()))
        } else if pos.len() > 4 {
            Err(CliError::UnexpectedArgument(pos[4].clone()))
        } else {
            Ok(
                Cli {
                    command: Commands::Delete { image: pos[2].clone(), tag: pos[3].clone() },
                    log_level: level,
                    registry,
                },
            )
        }
    } else if string_is(word, "check") {
        if pos.len() > 2 {
            Err(CliError::UnexpectedArgument(pos[2].clone()))
        } else {
            Ok(Cli { command: Commands::Check, log_level: level, registry })
        }
    } else {
        Err(CliError::UnknownCommand(word.clone()))
    }
}

} // verus!
