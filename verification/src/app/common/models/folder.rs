use vstd::prelude::*;

verus! {

/// The bit pattern of `0.9f32`, the retention a new folder aims for.
pub const DEFAULT_DESIRED_RETENTION_BITS: u32 = 0x3F66_6666u32;

/// A folder of flashcards inside a study set. Its desired retention, an
/// `f32` the scheduler reads, is held as its IEEE-754 bit pattern.
#[derive(Debug, Clone)]
pub struct Folder {
    pub id: Option<i32>,
    pub name: String,
    pub desired_retention_bits: u32,
}

impl Default for Folder {
    fn default() -> (f: Self)
        ensures
            f.id is None,
            f.name@.len() == 0,
            f.desired_retention_bits == DEFAULT_DESIRED_RETENTION_BITS,
    {
        Folder { id: None, name: String::new(), desired_retention_bits: DEFAULT_DESIRED_RETENTION_BITS }
    }
}

impl Folder {
    /// An exact copy of the folder.
    pub fn duplicate(&self) -> (r: Self)
        ensures
            r == *self,
    {
        Folder { id: self.id, name: self.name.clone(), desired_retention_bits: self.desired_retention_bits }
    }
}

} // verus!
