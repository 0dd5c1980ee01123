//! The error currency of the client: the remote API's error body shape, and
//! the validation errors raised by the request builders.

use vstd::prelude::*;
use crate::text::dec_of;
use crate::text::u64_dec;

verus! {

/// A failure surfaced to the caller: a numeric status-like code, a human
/// description, and an optional list of detail strings.
#[derive(Debug, Clone)]
pub struct ErrorResponse {
    pub code: u64,
    pub description: String,
    pub errors: Option<Vec<String>>,
}

/// `e` wrapped in single quotes.
pub open spec fn quoted(e: Seq<char>) -> Seq<char> {
    "'"@ + e + "'"@
}

/// The detail strings, each quoted, joined with a comma and a space.
pub open spec fn joined_errors(es: Seq<Seq<char>>) -> Seq<char>
    decreases es.len(),
{
    if es.len() == 0 {
        Seq::empty()
    } else if es.len() == 1 {
        quoted(es.last())
    } else {
        joined_errors(es.drop_last()) + ", "@ + quoted(es.last())
    }
}

/// The views of a list of owned strings.
pub open spec fn string_views(es: Seq<String>) -> Seq<Seq<char>> {
    es.map_values(|e: String| e@)
}

/// The one-line rendering of an error response.
pub open spec fn error_message_of(e: ErrorResponse) -> Seq<char> {
    "Code: "@ + dec_of(e.code as nat) + ", Description: "@ + e.description@ + ", Errors: "@
        + (match e.errors {
        Some(es) => joined_errors(string_views(es@)),
        None => Seq::empty(),
    })
}

impl ErrorResponse {
    /// Renders the code, description and quoted details on one line.
    pub fn message(&self) -> (r: String)
        ensures
            r@ == error_message_of(*self),
    {
        let mut s = "Code: ".to_owned();
        let code_text = u64_dec(self.code);
        s.append(code_text.as_str());
        s.append(", Description: ");
        s.append(self.description.as_str());
        s.append(", Errors: ");
        let ghost prefix = s@;
        if let Some(es) = &self.errors {
            let mut i: usize = 0;
            while i < es.len()
                invariant
                    i <= es.len(),
                    s@ == prefix + joined_errors(string_views(es@).take(i as int)),
                decreases es.len() - i,
            {
                if i > 0 {
                    s.append(", ");
                }
                s.append("'");
                s.append(es[i].as_str());
                s.append("'");
                proof {
                    let views = string_views(es@);
                    assert(views.take(i + 1).drop_last() =~= views.take(i as int));
                    assert(views.take(i + 1).last() == es@[i as int]@);
                    assert(s@ =~= prefix + joined_errors(views.take(i + 1)));
                }
                i = i + 1;
            }
            proof {
                assert(string_views(es@).take(es@.len() as int) =~= string_views(es@));
            }
        }
        proof {
            assert(s@ =~= error_message_of(*self));
        }
        s
    }
}

/// A request-builder validation failure: the argument or the combination of
/// arguments that the remote API would not accept.
#[derive(Debug, Clone, PartialEq, Eq, Structural)]
pub enum BuildError {
    DateDayOutOfRange,
    DateMonthOutOfRange,
    DateYearOutOfRange,
    RatingOutOfRange,
    LimitOutOfRange,
    PageOutOfRange,
    WallpaperIdMissing,
    WidthMissing,
    HeightMissing,
}

/// The descriptive message of each validation failure.
pub open spec fn build_error_message_of(e: BuildError) -> Seq<char> {
    match e {
        BuildError::DateDayOutOfRange => "Filter date day must be between 1 and 31."@,
        BuildError::DateMonthOutOfRange => "Filter date month must be between 1 and 12."@,
        BuildError::DateYearOutOfRange => "Filter date year must be from 1997 inclusive."@,
        BuildError::RatingOutOfRange => "Filter rating must be between 1 and 5."@,
        BuildError::LimitOutOfRange => "Limit must be between 1 and 50."@,
        BuildError::PageOutOfRange => "Page must be greater than 0."@,
        BuildError::WallpaperIdMissing => "Wallpaper ID must be provided."@,
        BuildError::WidthMissing => "Width must be provided."@,
        BuildError::HeightMissing => "Height must be provided."@,
    }
}

impl BuildError {
    /// The descriptive message of this validation failure.
    pub fn message(&self) -> (r: &'static str)
        ensures
            r@ == build_error_message_of(*self),
    {
        match self {
            BuildError::DateDayOutOfRange => "Filter date day must be between 1 and 31.",
            BuildError::DateMonthOutOfRange => "Filter date month must be between 1 and 12.",
            BuildError::DateYearOutOfRange => "Filter date year must be from 1997 inclusive.",
            BuildError::RatingOutOfRange => "Filter rating must be between 1 and 5.",
            BuildError::LimitOutOfRange => "Limit must be between 1 and 50.",
            BuildError::PageOutOfRange => "Page must be greater than 0.",
            BuildError::WallpaperIdMissing => "Wallpaper ID must be provided.",
            BuildError::WidthMissing => "Width must be provided.",
            BuildError::HeightMissing => "Height must be provided.",
        }
    }
}

} // verus!
