use vstd::prelude::*;

verus! {

/// The mathematical view of a player record: its key and the characters of
/// its name.
#[verifier::ext_equal]
pub ghost struct PlayerView {
    pub id: i64,
    pub name: Seq<char>,
}

/// A player record: a caller-supplied numeric key acting as primary key,
/// and a display name of arbitrary length. Any value of this shape is
/// well-formed at this layer; validation, if any, belongs to the caller.
#[derive(Debug)]
pub struct Player {
    pub id: i64,
    pub name: String,
}

impl View for Player {
    type V = PlayerView;

    open spec fn view(&self) -> PlayerView {
        PlayerView { id: self.id, name: self.name@ }
    }
}

impl Clone for Player {
    /// A clone is an independent snapshot equal to the original.
    fn clone(&self) -> (r: Self)
        ensures
            r == *self,
    {
        Player { id: self.id, name: self.name.clone() }
    }
}

impl PartialEq for Player {
    fn eq(&self, other: &Player) -> (r: bool) {
        self.id == other.id && self.name == other.name
    }
}

impl vstd::std_specs::cmp::PartialEqSpecImpl for Player {
    open spec fn obeys_eq_spec() -> bool {
        true
    }

    open spec fn eq_spec(&self, other: &Player) -> bool {
        self.id == other.id && self.name@ == other.name@
    }
}

impl Default for Player {
    /// The default record: id zero and an empty name.
    fn default() -> (r: Self)
        ensures
            r.id == 0,
            r.name@ == Seq::<char>::empty(),
    {
        Player { id: 0, name: String::new() }
    }
}

} // verus!
