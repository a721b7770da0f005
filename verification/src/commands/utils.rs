//! What the tasks share: the source files they look at, and how the answers
//! of the helper tools are read.

use crate::error::{DevtoolError, DevtoolErrorView};
use crate::pattern::{capture, first_capture, pattern_compiles};
pub use crate::selection::get_project_files;
use crate::text::{lex_less, precedes, push_text, trim, trimmed};
pub use crate::tool::create_stdio;
use vstd::prelude::*;

verus! {

/// The glob patterns of the native source files.
pub open spec fn source_patterns() -> Seq<Seq<char>> {
    seq!["*.c"@, "*.cpp"@, "*.h"@, "*.hpp"@]
}

/// The glob patterns of the native source files.
pub fn source_globs() -> (r: Vec<String>)
    ensures
        r.deep_view() == source_patterns(),
{
    let mut globs: Vec<String> = Vec::new();
    push_text(&mut globs, "*.c");
    push_text(&mut globs, "*.cpp");
    push_text(&mut globs, "*.h");
    push_text(&mut globs, "*.hpp");
    globs
}

/// The path prefixes of vendored code, which no task touches.
pub open spec fn vendored_prefixes() -> Seq<Seq<char>> {
    seq!["third_party"@]
}

/// The path prefixes of vendored code, which no task touches.
pub fn vendored() -> (r: Vec<String>)
    ensures
        r.deep_view() == vendored_prefixes(),
{
    let mut prefixes: Vec<String> = Vec::new();
    push_text(&mut prefixes, "third_party");
    prefixes
}

/// The pattern that finds the version in what the build tool prints of
/// itself; its one group is the number, three parts with dots between them.
pub open spec fn version_pattern() -> Seq<char> {
    "version\\s+(\\d+\\.\\d+\\.\\d+)"@
}

/// The least version of the build tool that is accepted.
pub open spec fn minimum_version() -> Seq<char> {
    "3.26"@
}

/// The version that a search for the version pattern stands for.
pub open spec fn version_of_match(found: Option<Seq<char>>) -> Result<
    Seq<char>,
    DevtoolErrorView,
> {
    match found {
        Some(version) => Ok(version),
        None => Err(DevtoolErrorView::PreconditionFailed { message: "Cannot find CMake command"@ }),
    }
}

/// Reads the version off the result of the search for the version pattern:
/// no match means that the build tool did not name its version.
pub fn version_from_match(found: Option<String>) -> (r: Result<String, DevtoolError>)
    ensures
        match r {
            Ok(version) => version_of_match(found.deep_view()) == Ok::<
                Seq<char>,
                DevtoolErrorView,
            >(version@),
            Err(e) => version_of_match(found.deep_view()) == Err::<Seq<char>, DevtoolErrorView>(
                e@,
            ),
        },
{
    match found {
        Some(version) => Ok(version),
        None => Err(
            DevtoolError::PreconditionFailed { message: "Cannot find CMake command".to_owned() },
        ),
    }
}

/// The version that `output`, the build tool's account of itself, names.
pub open spec fn version_in(output: Seq<char>) -> Result<Seq<char>, DevtoolErrorView> {
    if pattern_compiles(version_pattern()) {
        version_of_match(first_capture(version_pattern(), output, 1))
    } else {
        Err(DevtoolErrorView::PreconditionFailed { message: "Invalid version pattern"@ })
    }
}

/// Extracts the version of the build tool from `output`, which is what the
/// tool printed when asked for its version: the number in the first place
/// where the version pattern matches.
pub fn cmake_version(output: &str) -> (r: Result<String, DevtoolError>)
    ensures
        match r {
            Ok(version) => version_in(output@) == Ok::<Seq<char>, DevtoolErrorView>(version@),
            Err(e) => version_in(output@) == Err::<Seq<char>, DevtoolErrorView>(e@),
        },
{
    match capture("version\\s+(\\d+\\.\\d+\\.\\d+)", output, 1) {
        Ok(found) => version_from_match(found),
        Err(_) => Err(
            DevtoolError::PreconditionFailed { message: "Invalid version pattern".to_owned() },
        ),
    }
}

/// The error with which `version` is turned down, if it is: the version is
/// held against the minimum as text, character by character, and not as a
/// number.
pub open spec fn version_refusal(version: Seq<char>) -> Option<DevtoolErrorView> {
    if lex_less(version, minimum_version()) {
        Some(
            DevtoolErrorView::PreconditionFailed {
                message: "CMake must be version 3.26 or newer"@,
            },
        )
    } else {
        None
    }
}

/// Accepts `version` unless it comes before the minimum in the order of
/// texts.
pub fn check_version(version: &str) -> (r: Result<(), DevtoolError>)
    ensures
        match r {
            Ok(_) => version_refusal(version@) is None,
            Err(e) => version_refusal(version@) == Some(e@),
        },
{
    if precedes(version, "3.26") {
        Err(
            DevtoolError::PreconditionFailed {
                message: "CMake must be version 3.26 or newer".to_owned(),
            },
        )
    } else {
        Ok(())
    }
}

/// Reads the user's name off `output`, which is what version control
/// printed as the configured name: the text without the white space around
/// it.
pub fn git_username(output: &str) -> (r: String)
    ensures
        r@ == trimmed(output@),
{
    trim(output)
}

} // verus!
