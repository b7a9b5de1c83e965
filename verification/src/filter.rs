//! Selection of the resampling filter from its command-line token.

use vstd::prelude::*;
use crate::text::str_eq;

verus! {

/// The five resampling algorithms the resizer can use, from fastest to
/// highest quality.
#[derive(Clone, Copy, Debug, PartialEq, Eq, Structural)]
pub enum FilterKind {
    Nearest,
    Triangle,
    CatmullRom,
    Gaussian,
    Lanczos3,
}

/// The filter a present token selects: the four speed names map to their
/// algorithms, anything else to the highest-quality one.
pub open spec fn filter_of_token(s: Seq<char>) -> FilterKind {
    if s == "fastest"@ {
        FilterKind::Nearest
    } else if s == "fast"@ {
        FilterKind::Triangle
    } else if s == "medium"@ {
        FilterKind::CatmullRom
    } else if s == "slow"@ {
        FilterKind::Gaussian
    } else {
        FilterKind::Lanczos3
    }
}

/// Select the resampling filter: an absent token, like an unrecognized one,
/// selects the highest-quality filter.
pub fn select_filter(token: Option<&str>) -> (f: FilterKind)
    ensures
        token is None ==> f == FilterKind::Lanczos3,
        token matches Some(t) ==> f == filter_of_token(t@),
{
    match token {
        None => FilterKind::Lanczos3,
        Some(t) => {
            if str_eq(t, "fastest") {
                FilterKind::Nearest
            } else if str_eq(t, "fast") {
                FilterKind::Triangle
            } else if str_eq(t, "medium") {
                FilterKind::CatmullRom
            } else if str_eq(t, "slow") {
                FilterKind::Gaussian
            } else {
                FilterKind::Lanczos3
            }
        },
    }
}

} // verus!
