use vstd::prelude::*;

verus! {

#[derive(Debug)]
pub struct NavigateRequest {
    pub url: String,
}

} // verus!
