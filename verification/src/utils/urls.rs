//! Reading parameters out of a query string.

use vstd::prelude::*;
use vstd::string::*;
use crate::errors::{CustomError, ErrorView};
use crate::text::{
    find_piece, first_piece_with, head_piece, remove_all, tail_pieces, without_all,
};

verus! {

/// The authorization code of a query string: the first of its parameters
/// that begins with `code=`, with every `code=` cut out of it.
pub open spec fn spec_query_code(query: Seq<char>) -> Option<Seq<char>> {
    match first_piece_with(query, '&', "code="@) {
        Some(parameter) => Some(without_all(parameter, "code="@)),
        None => None,
    }
}

/// The authorization code that a provider hands back in the query string. A
/// query without one is an internal error.
pub fn query_code(query: &str) -> (code: Result<String, CustomError>)
    ensures
        match code {
            Ok(found) => spec_query_code(query@) == Some(found@),
            Err(error) => spec_query_code(query@) is None && error@
                == ErrorView::InternalServerError,
        },
{
    match find_piece(query, '&', "code=") {
        Some(parameter) => Ok(remove_all(parameter, "code=")),
        None => Err(CustomError::InternalServerError),
    }
}

/// The value of the first parameter of a query string that begins with
/// `wanted_param`: what stands between its first `=` and its second. A query
/// without such a parameter is an internal error.
pub fn extract_query_params_code(query: &str, wanted_param: &str) -> (code: Result<
    String,
    CustomError,
>)
    requires
        first_piece_with(query@, '&', wanted_param@) matches Some(parameter) ==> tail_pieces(
            parameter,
            '=',
        ) is Some,
    ensures
        match first_piece_with(query@, '&', wanted_param@) {
            Some(parameter) => code matches Ok(found) && found@ == head_piece(
                tail_pieces(parameter, '=')->Some_0,
                '=',
            ),
            None => code matches Err(error) && error@ == ErrorView::InternalServerError,
        },
{
    match find_piece(query, '&', wanted_param) {
        Some(parameter) => match find_piece_after(parameter, '=') {
            Some(value) => Ok(value.to_string()),
            None => Err(CustomError::InternalServerError),
        },
        None => Err(CustomError::InternalServerError),
    }
}

/// The second piece of a text between `separator`s, where it has one.
fn find_piece_after<'a>(text: &'a str, separator: char) -> (piece: Option<&'a str>)
    ensures
        match tail_pieces(text@, separator) {
            Some(rest) => piece matches Some(found) && found@ == head_piece(rest, separator),
            None => piece is None,
        },
{
    let length = text.unicode_len();
    let (first, second) = crate::text::piece_bounds(text, length, separator);
    match second {
        Some((start, end)) => Some(text.substring_char(start, end)),
        None => None,
    }
}

} // verus!
