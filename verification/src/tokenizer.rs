//! Where the tokenizer comes from, and what can go wrong on the way.
//!
//! A tokenizer identifier names either a local directory that holds a
//! definition file, or an entry of a remote registry.  The choice is a pure
//! function of the identifier and of what the filesystem reports about it
//! ([`PathProbe`]); loading or fetching is left to the caller.

use vstd::prelude::*;
use vstd::string::*;

verus! {

/// What the filesystem reports about the tokenizer identifier read as a
/// path.
#[derive(Clone, Copy, Debug, PartialEq, Eq, Structural)]
pub struct PathProbe {
    /// Something exists at the path.
    pub exists: bool,
    /// The path is a directory.
    pub is_directory: bool,
    /// The directory holds a file named [`DEFINITION_FILE`].
    pub has_definition_file: bool,
}

impl PathProbe {
    /// The path is a directory that holds a tokenizer definition file.
    pub open spec fn names_local_tokenizer(self) -> bool {
        self.exists && self.is_directory && self.has_definition_file
    }

    /// Whether the probed path is a local tokenizer directory.
    pub fn is_local_tokenizer(&self) -> (answer: bool)
        ensures
            answer == self.names_local_tokenizer(),
    {
        self.exists && self.is_directory && self.has_definition_file
    }
}

/// Name of the definition file inside a local tokenizer directory.
pub const DEFINITION_FILE: &'static str = "tokenizer.json";

/// Environment variable that holds the bearer credential of a registry
/// fetch.
pub const CREDENTIAL_VARIABLE: &'static str = "HUGGING_FACE_HUB_TOKEN";

/// The two places a tokenizer can come from.
#[derive(Debug, PartialEq, Eq)]
pub enum TokenizerSource {
    /// A directory on this machine.  Loading from it touches no network and
    /// needs neither revision nor credential.
    Local { directory: String },
    /// An entry of the remote registry, at one revision.
    Remote { identifier: String, revision: String },
}

/// Mathematical model of a [`TokenizerSource`].
pub enum TokenizerSourceView {
    Local { directory: Seq<char> },
    Remote { identifier: Seq<char>, revision: Seq<char> },
}

impl View for TokenizerSource {
    type V = TokenizerSourceView;

    open spec fn view(&self) -> TokenizerSourceView {
        match self {
            TokenizerSource::Local { directory } => TokenizerSourceView::Local {
                directory: directory@,
            },
            TokenizerSource::Remote { identifier, revision } => TokenizerSourceView::Remote {
                identifier: identifier@,
                revision: revision@,
            },
        }
    }
}

/// The source that an identifier stands for: the local directory where the
/// probe found a definition file in it, and otherwise the registry entry of
/// that name at the given revision.
pub open spec fn source_for(
    tokenizer_id: Seq<char>,
    revision: Seq<char>,
    probe: PathProbe,
) -> TokenizerSourceView {
    if probe.names_local_tokenizer() {
        TokenizerSourceView::Local { directory: tokenizer_id }
    } else {
        TokenizerSourceView::Remote { identifier: tokenizer_id, revision }
    }
}

/// Chooses the source of the tokenizer.  A local directory with a
/// definition file always wins over the registry; anything else, a path
/// that does not exist included, is looked up in the registry at
/// `revision`.
pub fn select_source(tokenizer_id: &str, revision: &str, probe: PathProbe) -> (source:
    TokenizerSource)
    ensures
        source@ == source_for(tokenizer_id@, revision@, probe),
        probe.names_local_tokenizer() <==> source is Local,
{
    if probe.is_local_tokenizer() {
        TokenizerSource::Local { directory: String::from_str(tokenizer_id) }
    } else {
        TokenizerSource::Remote {
            identifier: String::from_str(tokenizer_id),
            revision: String::from_str(revision),
        }
    }
}

/// Why no tokenizer could be had.  Each variant keeps the underlying cause
/// for the diagnostic line.
#[derive(Debug, PartialEq, Eq)]
pub enum TokenizerError {
    /// The definition file could not be read where the identifier points.
    NotFound { cause: String },
    /// The registry fetch failed: network, credential, or no such entry.
    DownloadFailed { cause: String },
    /// A definition was read and is not a tokenizer definition.
    InvalidFormat { cause: String },
}

/// Mathematical model of a [`TokenizerError`].
pub enum TokenizerErrorView {
    NotFound { cause: Seq<char> },
    DownloadFailed { cause: Seq<char> },
    InvalidFormat { cause: Seq<char> },
}

impl TokenizerErrorView {
    /// The text of the error: what failed, then the underlying cause.
    pub open spec fn text(self) -> Seq<char> {
        match self {
            TokenizerErrorView::NotFound { cause } => "tokenizer not found: "@ + cause,
            TokenizerErrorView::DownloadFailed { cause } => "tokenizer download failed: "@
                + cause,
            TokenizerErrorView::InvalidFormat { cause } => "tokenizer definition is invalid: "@
                + cause,
        }
    }
}

impl View for TokenizerError {
    type V = TokenizerErrorView;

    open spec fn view(&self) -> TokenizerErrorView {
        match self {
            TokenizerError::NotFound { cause } => TokenizerErrorView::NotFound { cause: cause@ },
            TokenizerError::DownloadFailed { cause } => TokenizerErrorView::DownloadFailed {
                cause: cause@,
            },
            TokenizerError::InvalidFormat { cause } => TokenizerErrorView::InvalidFormat {
                cause: cause@,
            },
        }
    }
}

impl TokenizerError {
    /// The text of the error, for the diagnostic line.
    pub fn message(&self) -> (text: String)
        ensures
            text@ == self@.text(),
    {
        match self {
            TokenizerError::NotFound { cause } => String::from_str("tokenizer not found: ").concat(
                cause.as_str(),
            ),
            TokenizerError::DownloadFailed { cause } => String::from_str(
                "tokenizer download failed: ",
            ).concat(cause.as_str()),
            TokenizerError::InvalidFormat { cause } => String::from_str(
                "tokenizer definition is invalid: ",
            ).concat(cause.as_str()),
        }
    }
}

/// The error that a failed load stands for.  From a local directory, a
/// definition that could not be read is `NotFound` and one that was read
/// and refused is `InvalidFormat`; every failure of a registry fetch is
/// `DownloadFailed`.
pub open spec fn failure_for(
    source: TokenizerSourceView,
    unreadable: bool,
    cause: Seq<char>,
) -> TokenizerErrorView {
    match source {
        TokenizerSourceView::Local { .. } => if unreadable {
            TokenizerErrorView::NotFound { cause }
        } else {
            TokenizerErrorView::InvalidFormat { cause }
        },
        TokenizerSourceView::Remote { .. } => TokenizerErrorView::DownloadFailed { cause },
    }
}

/// Classifies a failed load.  `unreadable` says that reading the definition
/// failed (as opposed to its content being refused); `cause` is the text of
/// the underlying failure and is kept as it is.
pub fn load_failure(source: &TokenizerSource, unreadable: bool, cause: String) -> (error:
    TokenizerError)
    ensures
        error@ == failure_for(source@, unreadable, cause@),
{
    match source {
        TokenizerSource::Local { .. } => {
            if unreadable {
                TokenizerError::NotFound { cause }
            } else {
                TokenizerError::InvalidFormat { cause }
            }
        },
        TokenizerSource::Remote { .. } => TokenizerError::DownloadFailed { cause },
    }
}

/// A local directory that holds a definition file is always the source,
/// and the revision plays no part in it: the registry is not consulted.
pub proof fn lemma_local_directory_wins(
    tokenizer_id: Seq<char>,
    revision: Seq<char>,
    other_revision: Seq<char>,
    probe: PathProbe,
)
    requires
        probe.names_local_tokenizer(),
    ensures
        source_for(tokenizer_id, revision, probe) == (TokenizerSourceView::Local {
            directory: tokenizer_id,
        }),
        source_for(tokenizer_id, other_revision, probe) == source_for(
            tokenizer_id,
            revision,
            probe,
        ),
{
}

/// An identifier that names no existing path, or a path without a
/// definition file, is fetched from the registry under that very name, at
/// the given revision.
pub proof fn lemma_other_paths_are_fetched(
    tokenizer_id: Seq<char>,
    revision: Seq<char>,
    probe: PathProbe,
)
    requires
        !probe.exists || !probe.is_directory || !probe.has_definition_file,
    ensures
        source_for(tokenizer_id, revision, probe) == (TokenizerSourceView::Remote {
            identifier: tokenizer_id,
            revision,
        }),
{
}

} // verus!
