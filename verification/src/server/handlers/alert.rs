use vstd::prelude::*;

verus! {

#[derive(Debug)]
pub struct SendAlertTextRequest {
    pub text: String,
}

} // verus!
