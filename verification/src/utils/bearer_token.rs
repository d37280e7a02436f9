//! The bearer scheme of the `Authorization` header.

use vstd::prelude::*;
use vstd::string::*;
use crate::errors::{CustomError, ErrorView};
use crate::text::starts_with;

verus! {

/// The credential of a header value in the bearer scheme: what follows
/// `Bearer `. Any other value is a bad request.
pub fn extract_bearer_token(auth_header: &str) -> (token: Result<&str, CustomError>)
    ensures
        match token {
            Ok(credential) => "Bearer "@.is_prefix_of(auth_header@) && credential@
                == auth_header@.skip(7),
            Err(error) => !"Bearer "@.is_prefix_of(auth_header@) && error@
                == ErrorView::BadRequest,
        },
{
    if !starts_with(auth_header, "Bearer ") {
        return Err(CustomError::BadRequest);
    }
    proof {
        reveal_strlit("Bearer ");
        assert("Bearer "@.len() == 7);
    }
    let length = auth_header.unicode_len();
    let credential = auth_header.substring_char(7, length);
    assert(credential@ =~= auth_header@.skip(7));
    Ok(credential)
}

} // verus!
