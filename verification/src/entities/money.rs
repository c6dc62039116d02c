use vstd::prelude::*;

verus! {

/// The fields of a stored money record that a delete reads: its id and the
/// layout attached to it, if any.
#[derive(Clone, Copy, Debug)]
pub struct Model {
    pub id: u128,
    pub layout_id: Option<u128>,
}

} // verus!
