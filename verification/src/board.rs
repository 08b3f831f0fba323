//! The board directory: read-only reference data that resolves a board
//! name to a board identifier, or lists every board.

use vstd::prelude::*;

verus! {

/// A board: an opaque identifier together with a unique human-readable
/// name. Immutable after creation; there is no mutation operation.
pub struct Board {
    pub board_id: u128,
    pub name: String,
}

impl Clone for Board {
    fn clone(&self) -> (r: Self)
        ensures
            r == *self,
    {
        Board { board_id: self.board_id, name: self.name.clone() }
    }
}

/// How a board directory lookup fails.
#[derive(Clone, Copy, Debug, PartialEq, Eq, Structural)]
pub enum BoardError {
    /// No board has the requested name.
    NotFound,
    /// The underlying store failed.
    StoreError,
}

/// The board directory. It holds the catalog of boards and answers
/// lookups by name; it never mutates a board that is already listed.
pub struct BoardDirectory {
    boards: Vec<Board>,
}

impl View for BoardDirectory {
    type V = Seq<Board>;

    closed spec fn view(&self) -> Seq<Board> {
        self.boards@
    }
}

impl BoardDirectory {
    /// Board names are unique across the catalog, and so are board
    /// identifiers.
    pub open spec fn wf(self) -> bool {
        &&& forall|i: int, j: int|
            0 <= i < self@.len() && 0 <= j < self@.len() && i != j
                ==> self@[i].name@ != self@[j].name@
        &&& forall|i: int, j: int|
            0 <= i < self@.len() && 0 <= j < self@.len() && i != j
                ==> self@[i].board_id != self@[j].board_id
    }

    /// Whether some board in the catalog carries this name.
    pub open spec fn has_board_named(self, name: Seq<char>) -> bool {
        exists|i: int| 0 <= i < self@.len() && self@[i].name@ == name
    }

    /// The board carrying this name; meaningful only when
    /// `has_board_named` holds, and then unique by `wf`.
    pub open spec fn board_named(self, name: Seq<char>) -> Board {
        self@[choose|i: int| 0 <= i < self@.len() && self@[i].name@ == name]
    }

    /// Whether some board in the catalog carries this identifier.
    pub open spec fn has_board_id(self, board_id: u128) -> bool {
        exists|i: int| 0 <= i < self@.len() && self@[i].board_id == board_id
    }

    /// An empty directory.
    pub fn new() -> (r: Self)
        ensures
            r@ =~= Seq::<Board>::empty(),
            r.wf(),
    {
        BoardDirectory { boards: Vec::new() }
    }

    /// Catalog a new board. Refuses, as a store-level uniqueness failure,
    /// a board whose name or identifier is already taken.
    pub fn add_board(&mut self, board: Board) -> (r: Result<(), BoardError>)
        requires
            old(self).wf(),
        ensures
            final(self).wf(),
            old(self).has_board_named(board.name@) || old(self).has_board_id(board.board_id)
                ==> r == Err::<(), BoardError>(BoardError::StoreError) && *final(self) == *old(self),
            !old(self).has_board_named(board.name@) && !old(self).has_board_id(board.board_id)
                ==> r == Ok::<(), BoardError>(()) && final(self)@ == old(self)@.push(board),
    {
        let n = self.boards.len();
        let mut i: usize = 0;
        while i < n
            invariant
                *self == *old(self),
                self.wf(),
                n == self.boards.len(),
                i <= n,
                forall|j: int|
                    0 <= j < i
                        ==> self.boards@[j].name@ != board.name@
                            && self.boards@[j].board_id != board.board_id,
            decreases n - i,
        {
            if self.boards[i].name == board.name || self.boards[i].board_id == board.board_id {
                proof {
                    assert(self@[i as int].name@ == board.name@
                        || self@[i as int].board_id == board.board_id);
                }
                return Err(BoardError::StoreError);
            }
            i += 1;
        }
        self.boards.push(board);
        proof {
            assert(self@ =~= old(self)@.push(board));
        }
        Ok(())
    }

    /// Resolve a board name to the board that carries it; fails with
    /// `NotFound` when no board does. Purely a lookup, no side effects.
    pub fn find_board_by_name(&self, board_name: &str) -> (r: Result<Board, BoardError>)
        requires
            self.wf(),
        ensures
            self.has_board_named(board_name@)
                ==> r == Ok::<Board, BoardError>(self.board_named(board_name@)),
            !self.has_board_named(board_name@)
                ==> r == Err::<Board, BoardError>(BoardError::NotFound),
    {
        let wanted: String = board_name.to_owned();
        let n = self.boards.len();
        let mut i: usize = 0;
        while i < n
            invariant
                self.wf(),
                n == self.boards.len(),
                i <= n,
                wanted@ == board_name@,
                forall|j: int| 0 <= j < i ==> self.boards@[j].name@ != board_name@,
            decreases n - i,
        {
            if self.boards[i].name == wanted {
                proof {
                    assert(self@[i as int].name@ == board_name@);
                    assert(self.has_board_named(board_name@));
                    let k = choose|j: int| 0 <= j < self@.len() && self@[j].name@ == board_name@;
                    assert(k == i as int);
                }
                return Ok(self.boards[i].clone());
            }
            i += 1;
        }
        Err(BoardError::NotFound)
    }

    /// List every board in the catalog, in catalog order.
    pub fn find_all_boards(&self) -> (r: Result<Vec<Board>, BoardError>)
        requires
            self.wf(),
        ensures
            r matches Ok(boards) && boards@ == self@,
    {
        let mut out: Vec<Board> = Vec::new();
        let n = self.boards.len();
        let mut i: usize = 0;
        while i < n
            invariant
                n == self.boards.len(),
                i <= n,
                out@ =~= self.boards@.take(i as int),
            decreases n - i,
        {
            out.push(self.boards[i].clone());
            i += 1;
        }
        proof {
            assert(out@ =~= self@);
        }
        Ok(out)
    }
}

} // verus!
