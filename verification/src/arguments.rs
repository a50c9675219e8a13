//! Reading the command line: a device path and a symbol rate.

use vstd::prelude::*;
use vstd::string::*;
use crate::baud::BaudRate;

verus! {

/// What a well-formed command line asks for.
#[derive(Debug, PartialEq, Eq)]
pub struct Invocation {
    /// Path of the character device to open.
    pub device_path: String,
    /// Symbol rate to run the line at.
    pub rate: BaudRate,
}

/// The model of an [`Invocation`].
pub struct InvocationView {
    pub device_path: Seq<char>,
    pub rate: BaudRate,
}

impl View for Invocation {
    type V = InvocationView;

    open spec fn view(&self) -> InvocationView {
        InvocationView { device_path: self.device_path@, rate: self.rate }
    }
}

/// Why a command line was turned down.
#[derive(Debug, PartialEq, Eq)]
pub enum ArgumentError {
    /// The device path or the rate is missing. `program` is the name the
    /// program was started under, empty if even that is unknown.
    MissingArguments { program: String },
    /// The rate is not one of the supported ones. `given` is the text found
    /// in its place.
    UnsupportedBaudrate { given: String },
}

/// The model of an [`ArgumentError`].
pub enum ArgumentErrorView {
    MissingArguments { program: Seq<char> },
    UnsupportedBaudrate { given: Seq<char> },
}

impl View for ArgumentError {
    type V = ArgumentErrorView;

    open spec fn view(&self) -> ArgumentErrorView {
        match self {
            ArgumentError::MissingArguments { program } => ArgumentErrorView::MissingArguments {
                program: program@,
            },
            ArgumentError::UnsupportedBaudrate { given } => ArgumentErrorView::UnsupportedBaudrate {
                given: given@,
            },
        }
    }
}

impl ArgumentErrorView {
    /// The line that tells the operator what went wrong.
    pub open spec fn message(self) -> Seq<char> {
        match self {
            ArgumentErrorView::MissingArguments { program } => "Usage: "@ + program
                + " <device_path> <baudrate>"@,
            ArgumentErrorView::UnsupportedBaudrate { given } => "Unsupported baudrate: "@ + given,
        }
    }
}

/// The exit status of a process that was started with a bad command line.
pub const ARGUMENT_ERROR_STATUS: i32 = 1;

impl ArgumentError {
    /// The line to print on standard error.
    pub fn message(&self) -> (line: String)
        ensures
            line@ == self@.message(),
    {
        match self {
            ArgumentError::MissingArguments { program } => {
                String::from_str("Usage: ").concat(program.as_str()).concat(
                    " <device_path> <baudrate>",
                )
            },
            ArgumentError::UnsupportedBaudrate { given } => {
                String::from_str("Unsupported baudrate: ").concat(given.as_str())
            },
        }
    }

    /// The status to exit with: the same for every argument error.
    pub fn exit_status(&self) -> (status: i32)
        ensures
            status == ARGUMENT_ERROR_STATUS,
    {
        ARGUMENT_ERROR_STATUS
    }
}

/// The name the program was started under: the first argument, or nothing.
pub open spec fn program_name(args: Seq<Seq<char>>) -> Seq<char> {
    if args.len() > 0 {
        args[0]
    } else {
        Seq::empty()
    }
}

/// What the command line `args` means. `args[0]` is the program's own name,
/// `args[1]` the device path and `args[2]` the rate; further arguments are
/// ignored. A short command line is reported before the rate is looked at.
pub open spec fn spec_parse_arguments(args: Seq<Seq<char>>) -> Result<
    InvocationView,
    ArgumentErrorView,
> {
    if args.len() < 3 {
        Err(ArgumentErrorView::MissingArguments { program: program_name(args) })
    } else {
        match BaudRate::spec_parse(args[2]) {
            Some(rate) => Ok(InvocationView { device_path: args[1], rate }),
            None => Err(ArgumentErrorView::UnsupportedBaudrate { given: args[2] }),
        }
    }
}

/// The model of a parsing outcome.
pub open spec fn outcome_view(outcome: Result<Invocation, ArgumentError>) -> Result<
    InvocationView,
    ArgumentErrorView,
> {
    match outcome {
        Ok(invocation) => Ok(invocation@),
        Err(error) => Err(error@),
    }
}

/// Reads the command line.
pub fn parse_arguments(args: &Vec<String>) -> (outcome: Result<Invocation, ArgumentError>)
    ensures
        outcome_view(outcome) == spec_parse_arguments(args.deep_view()),
{
    if args.len() < 3 {
        let program = if args.len() > 0 {
            args[0].clone()
        } else {
            String::new()
        };
        return Err(ArgumentError::MissingArguments { program });
    }
    match BaudRate::parse(args[2].as_str()) {
        Some(rate) => Ok(Invocation { device_path: args[1].clone(), rate }),
        None => Err(ArgumentError::UnsupportedBaudrate { given: args[2].clone() }),
    }
}

} // verus!
