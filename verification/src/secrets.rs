//! The secrets the agents read from AWS Secrets Manager.

use crate::document::{json_document, parse_json, Doc, DocView};
use crate::provider::{ProviderError, Resources};
use crate::text::owned;
use vstd::prelude::*;

verus! {

/// The values of the secret `secret_name`, from the text Secrets Manager returned for it (none
/// when it returned none), or the message for why there are none.
pub open spec fn secret_values_of(secret_string: Option<Seq<char>>, secret_name: Seq<char>) -> Result<
    DocView,
    Seq<char>,
> {
    match secret_string {
        None => Err(secret_name + " not found"@),
        Some(text) => match json_document(text) {
            None => Err("Unable to parse secret values"@),
            Some(v) => Ok(v),
        },
    }
}

/// The values of the secret `secret_name`: the JSON of the text Secrets Manager returned for it.
/// Nothing is left behind when they cannot be had.
pub fn secret_values(secret_string: Option<String>, secret_name: &str) -> (r: Result<
    Doc,
    ProviderError,
>)
    ensures
        match secret_values_of(
            match secret_string {
                Some(s) => Some(s@),
                None => None,
            },
            secret_name@,
        ) {
            Ok(v) => r matches Ok(d) && d@ == v,
            Err(m) => r matches Err(e) && e.resources == Resources::Clear && e.context@ == m,
        },
{
    let text = match secret_string {
        Some(t) => t,
        None => {
            let mut msg = owned(secret_name);
            msg.append(" not found");
            return Err(ProviderError::new_with_context(Resources::Clear, msg));
        },
    };
    match parse_json(text.as_str()) {
        Some(d) => Ok(d),
        None => Err(
            ProviderError::new_with_context(Resources::Clear, owned("Unable to parse secret values")),
        ),
    }
}

} // verus!
