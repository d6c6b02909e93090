use vstd::prelude::*;

verus! {

/// A named set of folders.
#[derive(Debug, Clone)]
pub struct StudySet {
    pub id: Option<i32>,
    pub name: String,
}

impl Default for StudySet {
    fn default() -> (s: Self)
        ensures
            s.id is None,
            s.name@.len() == 0,
    {
        StudySet { id: None, name: String::new() }
    }
}

impl StudySet {
    /// An exact copy of the study set.
    pub fn duplicate(&self) -> (r: Self)
        ensures
            r == *self,
    {
        StudySet { id: self.id, name: self.name.clone() }
    }
}

} // verus!
