//! Preparation of the destination: the output directory is the
//! `resized-images` subdirectory of the source, created once per run when
//! absent and reused as it stands when present.

use vstd::prelude::*;
use vstd::string::*;
use crate::errors::RunError;

verus! {

/// The single filesystem action a run may need before the per-file loop.
#[derive(Clone, Copy, Debug, PartialEq, Eq, Structural)]
pub enum PrepareStep {
    /// The output directory already exists: nothing to do.
    UseExisting,
    /// The output directory is missing: create it (and announce it).
    CreateDirectory,
    /// The source itself does not exist: nothing to create.
    SkipMissingSource,
}

/// The path of the output directory for a given source directory.
pub open spec fn output_dir_of(source: Seq<char>) -> Seq<char> {
    source + "/resized-images"@
}

/// The path of one output file inside the output directory.
pub open spec fn joined_path_of(dir: Seq<char>, name: Seq<char>) -> Seq<char> {
    dir + "/"@ + name
}

/// The output directory path: `source/resized-images`.
pub fn output_dir_path(source: &str) -> (r: String)
    ensures
        r@ == output_dir_of(source@),
{
    let s: String = source.to_owned();
    s.concat("/resized-images")
}

/// The path of the output file named `name` under `dir`.
pub fn output_file_path(dir: &str, name: &str) -> (r: String)
    ensures
        r@ == joined_path_of(dir@, name@),
{
    let s: String = dir.to_owned();
    s.concat("/").concat(name)
}

/// The preparation step that the two existence queries call for. A `None`
/// query result stands for an existence check that itself failed at the OS
/// level, which aborts the run with `PathCheckFailed`.
pub open spec fn prepare_plan_spec(
    source_exists: Option<bool>,
    dest_exists: Option<bool>,
) -> Result<PrepareStep, RunError> {
    match source_exists {
        None => Err(RunError::PathCheckFailed),
        Some(false) => Ok(PrepareStep::SkipMissingSource),
        Some(true) => match dest_exists {
            None => Err(RunError::PathCheckFailed),
            Some(false) => Ok(PrepareStep::CreateDirectory),
            Some(true) => Ok(PrepareStep::UseExisting),
        },
    }
}

/// Decide what preparing the destination requires, from the results of the
/// two existence checks: create the subdirectory only when the source exists
/// and the subdirectory does not, and fail only when an existence check
/// itself failed.
pub fn prepare_plan(source_exists: Option<bool>, dest_exists: Option<bool>) -> (r: Result<
    PrepareStep,
    RunError,
>)
    ensures
        r == prepare_plan_spec(source_exists, dest_exists),
{
    match source_exists {
        None => Err(RunError::PathCheckFailed),
        Some(false) => Ok(PrepareStep::SkipMissingSource),
        Some(true) => match dest_exists {
            None => Err(RunError::PathCheckFailed),
            Some(false) => Ok(PrepareStep::CreateDirectory),
            Some(true) => Ok(PrepareStep::UseExisting),
        },
    }
}

/// Preparing the destination is idempotent. For an existing source the plan
/// never fails, whatever the first existence check of the subdirectory
/// found; and once the subdirectory exists — as it does after a successful
/// first preparation — a second preparation of the same source plans no
/// action and no error, and resolves to the same output directory, since
/// that path is a pure function of the source.
pub proof fn lemma_prepare_idempotent(dest_exists_first: bool)
    ensures
        prepare_plan_spec(Some(true), Some(dest_exists_first)) is Ok,
        prepare_plan_spec(Some(true), Some(true)) == Ok::<PrepareStep, RunError>(
            PrepareStep::UseExisting,
        ),
{
}

} // verus!
