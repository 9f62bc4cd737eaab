use vstd::prelude::*;

verus! {

/// The outcome of an asynchronous script as its completion callback reports it: the
/// error when one is given and not empty, otherwise the result, or `null` when there is
/// none.
pub open spec fn async_outcome_spec<T>(result: Option<T>, error: Option<String>, null: T) -> Result<T, String> {
    match error {
        Some(e) if e@.len() > 0 => Err(e),
        _ => Ok(
            match result {
                Some(v) => v,
                None => null,
            },
        ),
    }
}

/// Decides the outcome that the `resolve` command reports for an asynchronous script.
pub fn async_outcome<T>(result: Option<T>, error: Option<String>, null: T) -> (r: Result<T, String>)
    ensures
        r == async_outcome_spec(result, error, null),
{
    match error {
        Some(e) => {
            if !e.as_str().is_empty() {
                return Err(e);
            }
        },
        None => {},
    }
    Ok(
        match result {
            Some(v) => v,
            None => null,
        },
    )
}

} // verus!
