//! What can go wrong before a shell is launched.

use vstd::prelude::*;
use vstd::string::StringExecFns;

verus! {

/// Why no flake directory could be settled on.
#[derive(Debug, PartialEq, Eq)]
pub enum FlakePathError {
    /// Neither the environment nor the command line names a directory.
    Empty,
    /// The directory that was named is not on disk.
    NotFound(String),
}

/// Why no catalog could be had from the tool.
#[derive(Debug, Clone, Copy, PartialEq, Eq, Structural)]
pub enum FetchError {
    /// The tool could not be started, or did not end well.
    ToolInvocationFailed,
    /// The tool's answer is no catalog: not text, not JSON, or JSON of
    /// another shape.
    CatalogParseError,
}

/// A string as `{:?}` prints it: in double quotes, with escapes.
pub uninterp spec fn quoted_text(s: Seq<char>) -> Seq<char>;

/// Formats `s` with `{:?}`, std's `Debug` for `str`. The rules of escaping
/// are std's; the result is named, not described.
#[verifier::external_body]
fn quoted(s: &str) -> (r: String)
    ensures
        r@ == quoted_text(s@),
{
    format!("{:?}", s)
}

/// The message for a directory that is not on disk, around the directory as
/// it is to be shown.
pub open spec fn not_found_text(shown: Seq<char>) -> Seq<char> {
    "Flake path "@ + shown + " not found"@
}

/// The message for a directory that is not on disk. `shown` is the
/// directory as it is to be shown, quotes included.
pub fn not_found_message(shown: &str) -> (r: String)
    ensures
        r@ == not_found_text(shown@),
{
    let mut r = String::from_str("Flake path ");
    r.append(shown);
    r.append(" not found");
    r
}

impl FlakePathError {
    /// The message that the user reads.
    pub open spec fn message_text(self) -> Seq<char> {
        match self {
            FlakePathError::Empty => {
                "Empty Flake path. Use --path or DV_FLAKE_DIR environment variable"@
            },
            FlakePathError::NotFound(path) => not_found_text(quoted_text(path@)),
        }
    }

    /// The message that the user reads.
    pub fn message(&self) -> (r: String)
        ensures
            r@ == self.message_text(),
    {
        match self {
            FlakePathError::Empty => String::from_str(
                "Empty Flake path. Use --path or DV_FLAKE_DIR environment variable",
            ),
            FlakePathError::NotFound(path) => {
                let shown = quoted(path.as_str());
                not_found_message(shown.as_str())
            },
        }
    }
}

impl FetchError {
    /// The message that the user reads.
    pub open spec fn message_text(self) -> Seq<char> {
        match self {
            FetchError::ToolInvocationFailed => "Could not retrieve devshells json metadata."@,
            FetchError::CatalogParseError => "Could not read devshells json metadata."@,
        }
    }

    /// The message that the user reads.
    pub fn message(&self) -> (r: String)
        ensures
            r@ == self.message_text(),
    {
        match self {
            FetchError::ToolInvocationFailed => String::from_str(
                "Could not retrieve devshells json metadata.",
            ),
            FetchError::CatalogParseError => String::from_str(
                "Could not read devshells json metadata.",
            ),
        }
    }
}

} // verus!
