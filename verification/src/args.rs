//! The commands of the program and the rules that turn parsed command-line
//! flags into one of them.

use crate::user_config::Config;
use vstd::prelude::*;
use vstd::string::*;

verus! {

/// Which issues a listing shows.
#[derive(Debug, PartialEq, Eq)]
pub enum Status {
    AllOpen,
    AllClosed,
    Specific(String),
}

/// One command, ready to run.
#[derive(Debug, PartialEq, Eq)]
pub enum Args {
    ListIssues { assigned_to: Option<String>, status: Status },
    UpdateIssue { number: u32, new_status: String },
    CloseIssue { number: u32, close_status: Option<String> },
}

/// The flags and positional arguments as the usage pattern names them.
#[derive(Debug, PartialEq, Eq)]
pub struct RawArgs {
    pub cmd_issue: bool,
    pub cmd_issues: bool,
    pub cmd_update: bool,
    pub cmd_close: bool,
    pub arg_issue_number: Option<u32>,
    pub flag_assigned_to: Option<String>,
    pub flag_status: Option<String>,
    pub flag_open: bool,
    pub flag_closed: bool,
    pub flag_help: bool,
}

impl RawArgs {
    /// What the usage pattern guarantees of every accepted command line: it
    /// is a listing, or it names an issue and either updates or closes it.
    pub open spec fn names_a_command(&self) -> bool {
        self.cmd_issues || (self.arg_issue_number is Some && (self.cmd_update || self.cmd_close))
    }

    pub fn is_command(&self) -> (named: bool)
        ensures
            named == self.names_a_command(),
    {
        self.cmd_issues || (self.arg_issue_number.is_some() && (self.cmd_update || self.cmd_close))
    }
}

/// Why the arguments gave no command.
#[derive(Debug, PartialEq, Eq)]
pub enum ErrorCause {
    /// The usage parser turned the command line down, or answered it itself
    /// (as for `--help`). `fatal` tells the two apart; `message` is the
    /// parser's text.
    FromDocopt { fatal: bool, message: String },
    /// The flags fit the usage pattern but not each other.
    InconsistentArguments(String),
}

/// An argument error.
#[derive(Debug, PartialEq, Eq)]
pub struct Error {
    pub cause: ErrorCause,
}

impl Error {
    /// The error for something the usage parser reported.
    pub fn from_docopt(fatal: bool, message: String) -> (error: Error)
        ensures
            error.cause == (ErrorCause::FromDocopt { fatal, message }),
    {
        Error { cause: ErrorCause::FromDocopt { fatal, message } }
    }

    /// The error for flags that do not fit each other.
    pub fn inconsistent(message: &str) -> (error: Error)
        ensures
            error.cause matches ErrorCause::InconsistentArguments(text) && text@ == message@,
    {
        Error { cause: ErrorCause::InconsistentArguments(String::from_str(message)) }
    }

    /// The exit status for this error: 0 where the parser only answered the
    /// command line with a message of its own, 1 for every real argument
    /// error.
    pub open spec fn exit_status_of(&self) -> i32 {
        match self.cause {
            ErrorCause::FromDocopt { fatal, .. } => if fatal {
                1i32
            } else {
                0i32
            },
            ErrorCause::InconsistentArguments(_) => 1i32,
        }
    }

    pub fn exit_status(&self) -> (status: i32)
        ensures
            status == self.exit_status_of(),
    {
        match &self.cause {
            ErrorCause::FromDocopt { fatal, .. } => if *fatal {
                1
            } else {
                0
            },
            ErrorCause::InconsistentArguments(_) => 1,
        }
    }

    /// The message as a function of the error's contents.
    pub open spec fn message_text(&self) -> Seq<char> {
        match self.cause {
            ErrorCause::FromDocopt { fatal, message } => if fatal {
                "Argument error: "@ + message@
            } else {
                message@
            },
            ErrorCause::InconsistentArguments(message) => "Argument error: "@ + message@,
        }
    }

    /// The text shown to the user.
    pub fn message(&self) -> (text: String)
        ensures
            text@ == self.message_text(),
    {
        match &self.cause {
            ErrorCause::FromDocopt { fatal, message } => {
                if *fatal {
                    let mut text = String::from_str("Argument error: ");
                    text.append(message.as_str());
                    text
                } else {
                    message.clone()
                }
            },
            ErrorCause::InconsistentArguments(message) => {
                let mut text = String::from_str("Argument error: ");
                text.append(message.as_str());
                text
            },
        }
    }

    /// A fixed one-line description.
    pub fn description(&self) -> (text: &'static str)
        ensures
            text@ == "Argument error"@,
    {
        "Argument error"
    }
}

/// The listing filter that the flags ask for: a named status wins, then
/// `--closed`, and open issues are the default.
pub open spec fn listing_status(flag_status: Option<String>, flag_closed: bool) -> Status {
    match flag_status {
        Some(name) => Status::Specific(name),
        None => if flag_closed {
            Status::AllClosed
        } else {
            Status::AllOpen
        },
    }
}

/// The command that the flags denote, or `None` where they do not fit each
/// other: an update without `--status`.
pub open spec fn command_of(raw: RawArgs) -> Option<Args> {
    if raw.cmd_issues {
        Some(
            Args::ListIssues {
                assigned_to: raw.flag_assigned_to,
                status: listing_status(raw.flag_status, raw.flag_closed),
            },
        )
    } else if raw.cmd_update {
        match raw.flag_status {
            Some(name) => Some(
                Args::UpdateIssue { number: raw.arg_issue_number->0, new_status: name },
            ),
            None => None,
        }
    } else {
        Some(Args::CloseIssue { number: raw.arg_issue_number->0, close_status: raw.flag_status })
    }
}

/// Turns the flags of an accepted command line into the command. An update
/// that names no status is turned down here, before anything is sent; the
/// error names the command.
pub fn parse(raw: RawArgs) -> (parsed: Result<Args, Error>)
    requires
        raw.names_a_command(),
    ensures
        match parsed {
            Ok(args) => command_of(raw) == Some(args),
            Err(error) => {
                &&& command_of(raw) is None
                &&& error.cause matches ErrorCause::InconsistentArguments(text)
                &&& text@ == "update"@
            },
        },
{
    if raw.cmd_issues {
        let status = match raw.flag_status {
            Some(name) => Status::Specific(name),
            None => if raw.flag_closed {
                Status::AllClosed
            } else {
                Status::AllOpen
            },
        };
        return Ok(Args::ListIssues { status, assigned_to: raw.flag_assigned_to });
    }
    let number = match raw.arg_issue_number {
        Some(number) => number,
        None => 0,
    };
    if raw.cmd_update {
        match raw.flag_status {
            Some(name) => Ok(Args::UpdateIssue { number, new_status: name }),
            None => Err(Error::inconsistent("update")),
        }
    } else {
        Ok(Args::CloseIssue { number, close_status: raw.flag_status })
    }
}

/// The status name a close uses: the one given on the command line, else the
/// configuration's default, else none.
pub fn close_status_name(close_status: Option<String>, config: &Config) -> (name: Option<String>)
    ensures
        match close_status {
            Some(given) => name == Some(given),
            None => match config.data.default_close_status {
                Some(default) => name matches Some(text) && text@ == default@,
                None => name is None,
            },
        },
{
    match close_status {
        Some(given) => Some(given),
        None => match config.default_close_status() {
            Some(default) => Some(String::from_str(default)),
            None => None,
        },
    }
}

} // verus!
