//! The version resolver: from the version text of a request to the version
//! that the engine is asked for.

use crate::engine::{text_view, EngineVersion, EngineVersionView};
use crate::error::{RequestError, RequestErrorView};
use vstd::prelude::*;
use vstd::string::*;

verus! {

/// What `semver::Version::parse` makes of a text: the version it reads, or
/// `None` where it refuses the text.
pub uninterp spec fn semver_parse(text: Seq<char>) -> Option<EngineVersionView>;

/// The error of `semver::Version::parse`. It is carried, never read.
#[verifier::external_type_specification]
#[verifier::external_body]
pub struct ExSemverError(semver::Error);

/// `semver::Version::parse`: reads `text` by the grammar of semantic
/// versions, and returns the version or its own error. Which of the two, and
/// which version, depends on the text alone. The version read is handed over
/// field by field, the pre-release identifiers and the build metadata as the
/// text they were read from.
#[verifier::external_body]
fn parse_semver(text: &str) -> (parsed: Result<EngineVersion, semver::Error>)
    ensures
        parsed is Ok <==> semver_parse(text@) is Some,
        parsed matches Ok(version) ==> semver_parse(text@) == Some(version@),
{
    let version = semver::Version::parse(text)?;
    Ok(
        EngineVersion {
            major: version.major,
            minor: version.minor,
            patch: version.patch,
            pre: version.pre.as_str().to_string(),
            build: version.build.as_str().to_string(),
        },
    )
}

/// The version that a request asks for, given what reading its text as a
/// semantic version gave: nothing where no text was sent or the text is
/// `latest`, else the version read, and an error with the text where it
/// could not be read.
pub open spec fn resolved_version(
    requested: Option<Seq<char>>,
    parsed: Option<EngineVersionView>,
) -> Result<Option<EngineVersionView>, RequestErrorView> {
    match requested {
        None => Ok(None),
        Some(text) => if text == "latest"@ {
            Ok(None)
        } else {
            match parsed {
                Some(version) => Ok(Some(version)),
                None => Err(RequestErrorView::MalformedVersion(text)),
            }
        },
    }
}

/// The view of a resolver's result.
pub open spec fn resolution_view(
    resolution: Result<Option<EngineVersion>, RequestError>,
) -> Result<Option<EngineVersionView>, RequestErrorView> {
    match resolution {
        Ok(Some(version)) => Ok(Some(version@)),
        Ok(None) => Ok(None),
        Err(error) => Err(error@),
    }
}

/// The view of an optional version.
pub open spec fn version_view(version: Option<EngineVersion>) -> Option<EngineVersionView> {
    match version {
        Some(v) => Some(v@),
        None => None,
    }
}

/// Decides on the version text of a request, given what reading it as a
/// semantic version gave.
pub fn version_from_parse(requested: Option<String>, parsed: Option<EngineVersion>) -> (resolution:
    Result<Option<EngineVersion>, RequestError>)
    ensures
        resolution_view(resolution) == resolved_version(text_view(requested), version_view(parsed)),
{
    match requested {
        None => Ok(None),
        Some(text) => {
            let latest = String::from_str("latest");
            if text == latest {
                Ok(None)
            } else {
                match parsed {
                    Some(version) => Ok(Some(version)),
                    None => Err(RequestError::MalformedVersion(text)),
                }
            }
        },
    }
}

/// Resolves the version text of a request. No text and `latest` both leave
/// the choice to the engine. Any other text has to be a semantic version,
/// and is refused with `MalformedVersion` where it is not.
pub fn resolve_version(requested: Option<String>) -> (resolution: Result<
    Option<EngineVersion>,
    RequestError,
>)
    ensures
        resolution_view(resolution) == resolved_version(
            text_view(requested),
            match requested {
                Some(text) => semver_parse(text@),
                None => None,
            },
        ),
{
    let parsed = match &requested {
        Some(text) => match parse_semver(text.as_str()) {
            Ok(version) => Some(version),
            Err(_) => None,
        },
        None => None,
    };
    version_from_parse(requested, parsed)
}

} // verus!
