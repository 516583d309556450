use vstd::prelude::*;

verus! {

#[derive(Debug, Clone, Eq, PartialEq, Hash)]
pub struct Spell {
    pub id: u64,
    pub image_url: String,
    pub name: String,
}

} // verus!
