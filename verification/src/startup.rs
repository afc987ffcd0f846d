//! Setting a pipeline up: the command line, the pattern and the two
//! directories.

use crate::filter::{pattern_compiles, InvalidPatternError, PatternFilter};
use crate::model::{initial, SettingsView};
use crate::pipeline::{Pipeline, Settings};
use vstd::prelude::*;

verus! {

/// Why a pipeline could not be set up.
#[derive(Debug, Clone, PartialEq, Eq)]
pub enum StartupError {
    /// The command line names no directory to watch.
    MissingWatchPath,
    /// The command line names no destination directory.
    MissingDestinationPath,
    /// The command line names no pattern.
    MissingPattern,
    /// The pattern is no valid regular expression.
    InvalidPattern { error: InvalidPatternError },
    /// The destination directory does not exist.
    DestinationMissing,
    /// The directory to watch does not exist.
    WatchPathMissing,
}

/// The three arguments of the command line.
#[derive(Debug, Clone, PartialEq, Eq)]
pub struct Arguments {
    pub watch_path: String,
    pub destination_path: String,
    pub pattern: String,
}

impl Arguments {
    /// Picks the arguments from a command line. `args[0]` is the name of the
    /// program; the directory to watch, the destination directory and the
    /// pattern follow it in this order. What follows the pattern is ignored.
    pub fn parse(args: &Vec<String>) -> (outcome: Result<Arguments, StartupError>)
        ensures
            match outcome {
                Ok(arguments) => {
                    &&& args.len() >= 4
                    &&& arguments.watch_path@ == args[1]@
                    &&& arguments.destination_path@ == args[2]@
                    &&& arguments.pattern@ == args[3]@
                },
                Err(StartupError::MissingWatchPath) => args.len() < 2,
                Err(StartupError::MissingDestinationPath) => args.len() == 2,
                Err(StartupError::MissingPattern) => args.len() == 3,
                Err(_) => false,
            },
    {
        if args.len() < 2 {
            Err(StartupError::MissingWatchPath)
        } else if args.len() < 3 {
            Err(StartupError::MissingDestinationPath)
        } else if args.len() < 4 {
            Err(StartupError::MissingPattern)
        } else {
            Ok(
                Arguments {
                    watch_path: args[1].clone(),
                    destination_path: args[2].clone(),
                    pattern: args[3].clone(),
                },
            )
        }
    }
}

/// Sets a pipeline up from a pattern that was compiled already.
///
/// A refused pattern is reported first, then a missing destination
/// directory, then a missing directory to watch.
pub fn assemble(
    watch_path: String,
    destination_path: String,
    compiled: Result<PatternFilter, InvalidPatternError>,
    destination_is_directory: bool,
    watch_is_directory: bool,
) -> (outcome: Result<Pipeline, StartupError>)
    ensures
        match outcome {
            Ok(pipeline) => {
                &&& compiled matches Ok(filter)
                &&& destination_is_directory
                &&& watch_is_directory
                &&& pipeline@ == initial(
                    SettingsView {
                        watch_path: watch_path@,
                        destination_path: destination_path@,
                        pattern: filter.pattern(),
                    },
                )
            },
            Err(StartupError::InvalidPattern { error }) => {
                &&& compiled matches Err(refused)
                &&& error.pattern@ == refused.pattern@
                &&& error.detail@ == refused.detail@
            },
            Err(StartupError::DestinationMissing) => compiled is Ok && !destination_is_directory,
            Err(StartupError::WatchPathMissing) => compiled is Ok && destination_is_directory
                && !watch_is_directory,
            Err(_) => false,
        },
{
    match compiled {
        Err(error) => Err(StartupError::InvalidPattern { error }),
        Ok(filter) => {
            if !destination_is_directory {
                Err(StartupError::DestinationMissing)
            } else if !watch_is_directory {
                Err(StartupError::WatchPathMissing)
            } else {
                Ok(Pipeline::new(Settings { watch_path, destination_path, filter }))
            }
        },
    }
}

/// Sets a pipeline up.
///
/// The driver says whether each of the two paths names an existing
/// directory. A refused pattern is reported first, then a missing
/// destination directory, then a missing directory to watch.
pub fn start(
    arguments: Arguments,
    destination_is_directory: bool,
    watch_is_directory: bool,
) -> (outcome: Result<Pipeline, StartupError>)
    ensures
        match outcome {
            Ok(pipeline) => {
                &&& pattern_compiles(arguments.pattern@)
                &&& destination_is_directory
                &&& watch_is_directory
                &&& pipeline@ == initial(
                    SettingsView {
                        watch_path: arguments.watch_path@,
                        destination_path: arguments.destination_path@,
                        pattern: arguments.pattern@,
                    },
                )
            },
            Err(StartupError::InvalidPattern { error }) => {
                &&& !pattern_compiles(arguments.pattern@)
                &&& error.pattern@ == arguments.pattern@
            },
            Err(StartupError::DestinationMissing) => pattern_compiles(arguments.pattern@)
                && !destination_is_directory,
            Err(StartupError::WatchPathMissing) => pattern_compiles(arguments.pattern@)
                && destination_is_directory && !watch_is_directory,
            Err(_) => false,
        },
{
    let compiled = PatternFilter::new(arguments.pattern.as_str());
    assemble(
        arguments.watch_path,
        arguments.destination_path,
        compiled,
        destination_is_directory,
        watch_is_directory,
    )
}

} // verus!
