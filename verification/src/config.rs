//! Resolution of the run configuration from command-line tokens: the target
//! width and height, with the primary display's resolution as the default
//! when a token is absent, and the resampling filter.

use vstd::prelude::*;
use crate::errors::RunError;
use crate::filter::{select_filter, filter_of_token, FilterKind};
use crate::text::{parse_u32, is_u32_numeral, dec_value, digit_part};

verus! {

/// The two dimension axes a token can set.
#[derive(Clone, Copy, Debug, PartialEq, Eq, Structural)]
pub enum Axis {
    Width,
    Height,
}

/// The configuration of one run, built once from the command line and
/// immutable afterwards. A zero dimension means "use the source image's own
/// size on that axis" at resize time.
#[derive(Clone, Copy, Debug, PartialEq, Eq, Structural)]
pub struct RunConfig {
    pub max_width: u32,
    pub max_height: u32,
    pub filter: FilterKind,
}

/// The dimension a present token resolves to: its numeric value when it
/// parses as a `u32`, and the zero sentinel ("use the image's own size")
/// when it does not — a malformed token degrades, it never aborts.
pub open spec fn dimension_of_token(s: Seq<char>) -> u32 {
    if is_u32_numeral(s) {
        dec_value(digit_part(s)) as u32
    } else {
        0
    }
}

/// Relies on display_info::DisplayInfo::all: the pixel width and height of
/// the first attached display, if the displays can be queried at all and at
/// least one is attached.
#[verifier::external_body]
fn query_display() -> (r: Option<(u32, u32)>) {
    match display_info::DisplayInfo::all() {
        Ok(list) => list.first().map(|d| (d.width, d.height)),
        Err(_) => None,
    }
}

/// The axis component of a queried display size: the pair's width for
/// `Width`, its height for `Height`.
pub open spec fn display_axis_spec(d: (u32, u32), axis: Axis) -> u32 {
    match axis {
        Axis::Width => d.0,
        Axis::Height => d.1,
    }
}

/// Select the axis component of a queried display size.
pub fn display_axis(d: (u32, u32), axis: Axis) -> (r: u32)
    ensures
        r == display_axis_spec(d, axis),
{
    match axis {
        Axis::Width => d.0,
        Axis::Height => d.1,
    }
}

/// Resolve one dimension from the display's resolution, as queried just
/// now: the queried pair's width or height per `axis`, or
/// `DisplayQueryFailed` when no display answers.
fn dimension_from_display(axis: Axis) -> (r: Result<u32, RunError>)
    ensures
        r is Err ==> r == Err::<u32, RunError>(RunError::DisplayQueryFailed),
{
    match query_display() {
        Some(d) => Ok(display_axis(d, axis)),
        None => Err(RunError::DisplayQueryFailed),
    }
}

/// Resolve one dimension. A present token resolves on its own: its value if
/// it parses, zero otherwise. An absent token falls back to the primary
/// display's size on `axis`, and only that fallback can fail, with
/// `DisplayQueryFailed`.
pub fn get_dimension(token: Option<&str>, axis: Axis) -> (r: Result<u32, RunError>)
    ensures
        token matches Some(t) ==> r == Ok::<u32, RunError>(dimension_of_token(t@)),
        token is None ==> (r is Ok || r == Err::<u32, RunError>(RunError::DisplayQueryFailed)),
{
    match token {
        Some(t) => match parse_u32(t) {
            Some(v) => Ok(v),
            None => Ok(0),
        },
        None => dimension_from_display(axis),
    }
}

/// Build the run configuration from the three optional command-line tokens.
/// Each present dimension token resolves independently of the display; an
/// absent one takes the display's size on its axis, and the build fails with
/// `DisplayQueryFailed` only if such a fallback is needed and no display can
/// be queried.
pub fn build_config(
    width_token: Option<&str>,
    height_token: Option<&str>,
    filter_token: Option<&str>,
) -> (r: Result<RunConfig, RunError>)
    ensures
        r matches Ok(c) ==> {
            &&& width_token matches Some(t) ==> c.max_width == dimension_of_token(t@)
            &&& height_token matches Some(t) ==> c.max_height == dimension_of_token(t@)
            &&& filter_token matches Some(t) ==> c.filter == filter_of_token(t@)
            &&& filter_token is None ==> c.filter == FilterKind::Lanczos3
        },
        r is Err ==> {
            &&& r == Err::<RunConfig, RunError>(RunError::DisplayQueryFailed)
            &&& (width_token is None || height_token is None)
        },
{
    let max_width = match get_dimension(width_token, Axis::Width) {
        Ok(v) => v,
        Err(e) => {
            return Err(e);
        },
    };
    let max_height = match get_dimension(height_token, Axis::Height) {
        Ok(v) => v,
        Err(e) => {
            return Err(e);
        },
    };
    let filter = select_filter(filter_token);
    Ok(RunConfig { max_width, max_height, filter })
}

} // verus!
