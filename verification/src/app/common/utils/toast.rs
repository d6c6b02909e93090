use vstd::prelude::*;

verus! {

/// A short message shown to the user.
#[derive(Debug, Clone)]
pub struct OboeteToast {
    pub message: String,
}

impl OboeteToast {
    /// A toast showing `message`.
    pub fn new(message: String) -> (t: Self)
        ensures
            t.message@ == message@,
    {
        Self { message }
    }
}

} // verus!
