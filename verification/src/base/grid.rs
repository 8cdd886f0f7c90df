//! The storage capability that a grid offers to code that does not know its backing store.
use vstd::prelude::*;

verus! {

/// Why a grid could not hand out its collection.
#[derive(PartialEq, Eq, Structural, Copy, Clone, Debug)]
pub enum GridError {
    /// The backing store could not be reached at all. A key that is merely
    /// absent is not an error: it yields an empty result.
    AccessError,
}

impl GridError {
    /// The text shown for this error.
    pub open spec fn spec_message(self) -> Seq<char> {
        match self {
            GridError::AccessError => "Could not access the collection"@,
        }
    }

    /// The text shown for this error.
    pub fn message(&self) -> (text: String)
        ensures
            text@ == self.spec_message(),
    {
        match self {
            GridError::AccessError => "Could not access the collection".to_owned(),
        }
    }
}

/// Marks a type as the payload of one tile.
pub trait Tile {

}

/// Marks a type as a collection of tiles of one kind.
pub trait TileCollection<TileType: Tile> {

}

/// A grid that can hand out its tiles as a collection of the caller's choice.
pub trait Grid<TileType: Tile> {
    /// Hands out the grid's tiles, or says that they could not be reached.
    fn get_collection<T: TileCollection<TileType>>(&self) -> Result<T, GridError>;
}

} // verus!
