//! The configuration that the command line hands to the engine.
use std::rc::Rc;
use vstd::prelude::*;
use vstd::utf8::encode_utf8;
use crate::emoji::EmojiStreamParameters;
use crate::slack::{SlackClient, percent_encoded};

verus! {

/// Everything a run needs: the workspace, the archive directory, the
/// credentials, the log verbosity and the direction.
pub struct Opts {
    /// The workspace's subdomain (`myorg` for `myorg.slack.com`).
    pub workspace: String,
    pub target_directory: String,
    pub token: String,
    pub session_cookie: String,
    /// How many times the verbosity flag was given.
    pub verbosity: u8,
    pub subcommand: SubCommandKind,
}

/// Pagination settings of the download direction.
pub struct EmojiStreamOpts {
    pub starting_page_number: u16,
    pub num_emojis_per_page: u8,
    pub limit_num_pages: Option<u16>,
}

/// The direction of a run.
pub enum SubCommandKind {
    /// From the workspace to the archive directory.
    Download { emoji_stream_opts: EmojiStreamOpts },
    /// From the archive directory to the workspace.
    Upload,
}

/// A log level chosen on the command line.
#[derive(PartialEq, Eq, Structural, Clone, Copy)]
pub enum LogLevel {
    Info,
    Debug,
    Trace,
}

impl<'a> From<&'a EmojiStreamOpts> for EmojiStreamParameters {
    fn from(opts: &'a EmojiStreamOpts) -> (r: Self) {
        EmojiStreamParameters::new(opts.starting_page_number, opts.num_emojis_per_page, opts.limit_num_pages)
    }
}

impl<'a> vstd::std_specs::convert::FromSpecImpl<&'a EmojiStreamOpts> for EmojiStreamParameters {
    open spec fn obeys_from_spec() -> bool {
        true
    }

    open spec fn from_spec(opts: &'a EmojiStreamOpts) -> Self {
        EmojiStreamParameters {
            starting_page_number: opts.starting_page_number,
            num_emojis_per_page: opts.num_emojis_per_page,
            limit_num_pages: opts.limit_num_pages,
        }
    }
}

impl Opts {
    /// The log level that the verbosity count asks for: none when the flag
    /// was not given (the environment then decides), then info, debug, and
    /// trace from three occurrences on.
    pub fn log_level_override(&self) -> (r: Option<LogLevel>)
        ensures
            self.verbosity == 0 ==> r is None,
            self.verbosity == 1 ==> r == Some(LogLevel::Info),
            self.verbosity == 2 ==> r == Some(LogLevel::Debug),
            self.verbosity >= 3 ==> r == Some(LogLevel::Trace),
    {
        match self.verbosity {
            0 => None,
            1 => Some(LogLevel::Info),
            2 => Some(LogLevel::Debug),
            _ => Some(LogLevel::Trace),
        }
    }

    /// The client for the configured workspace and credentials.
    pub fn create_slack_client(&self) -> (r: Rc<SlackClient>)
        ensures
            r.token@ == self.token@,
            r.session_cookie@ == percent_encoded(encode_utf8(self.session_cookie@)),
            r.base_url@ == "https://"@ + self.workspace@ + ".slack.com/api"@,
    {
        Rc::new(SlackClient::new(self.token.as_str(), self.session_cookie.as_str(), self.workspace.as_str()))
    }
}

} // verus!
