//! Failures of a path-tracking decoding pass, taken over as diagnostics.

use crate::diagnostic::DecodeDiagnostic;
use crate::path::{path_view, PathSegment, SegmentView};
use vstd::prelude::*;

verus! {

/// The path that `serde_path_to_error` records for a failure. Nothing inside
/// it is visible to the verifier.
#[verifier::external_type_specification]
#[verifier::external_body]
pub struct ExRecordedPath(serde_path_to_error::Path);

/// The error of the JSON parser. Nothing inside it is visible to the
/// verifier.
#[verifier::external_type_specification]
#[verifier::external_body]
pub struct ExJsonError(serde_json::Error);

/// The segments that a recorded path holds, root first.
pub uninterp spec fn path_segments(path: serde_path_to_error::Path) -> Seq<SegmentView>;

/// Calls `Path::iter` and asks the iterator for the segment at a position.
/// Trusted: within the path the answer is the segment there, kind for kind
/// and with the same index, key or variant name; beyond its end there is
/// none.
#[verifier::external_body]
fn segment_at(path: &serde_path_to_error::Path, position: usize) -> (found: Option<PathSegment>)
    ensures
        match found {
            Some(segment) => position < path_segments(*path).len() && segment@ == path_segments(
                *path,
            )[position as int],
            None => position >= path_segments(*path).len(),
        },
{
    match path.iter().nth(position) {
        Some(serde_path_to_error::Segment::Seq { index }) => Some(PathSegment::Index(*index)),
        Some(serde_path_to_error::Segment::Map { key }) => Some(PathSegment::Field(key.clone())),
        Some(serde_path_to_error::Segment::Enum { variant }) => Some(
            PathSegment::Variant(variant.clone()),
        ),
        Some(serde_path_to_error::Segment::Unknown) => Some(PathSegment::Unknown),
        None => None,
    }
}

/// Copies the segments of a recorded path, root first.
pub fn copy_path(path: &serde_path_to_error::Path) -> (segments: Vec<PathSegment>)
    ensures
        path_view(segments@) == path_segments(*path),
{
    let mut segments: Vec<PathSegment> = Vec::new();
    loop
        invariant
            segments@.len() <= path_segments(*path).len(),
            forall|i: int|
                0 <= i < segments@.len() ==> (#[trigger] segments@[i])@ == path_segments(*path)[i],
        ensures
            path_view(segments@) == path_segments(*path),
        decreases path_segments(*path).len() - segments@.len(),
    {
        match segment_at(path, segments.len()) {
            Some(segment) => {
                segments.push(segment);
            },
            None => {
                break ;
            },
        }
    }
    segments
}

impl DecodeDiagnostic {
    /// Takes over a failure of the path-tracking pass: the path that was
    /// recorded for it, segment for segment, and as the cause the text that
    /// the parser's error shows itself as.
    pub fn capture(path: &serde_path_to_error::Path, error: &serde_json::Error) -> (diagnostic:
        DecodeDiagnostic)
        ensures
            diagnostic@.path == path_segments(*path),
            vstd::string::to_string_from_display_ensures::<serde_json::Error>(
                error,
                diagnostic.cause,
            ),
    {
        DecodeDiagnostic { path: copy_path(path), cause: error.to_string() }
    }
}

} // verus!
