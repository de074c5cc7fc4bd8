//! The executable cube state and its face turns.
//!
//! A turn is a `Cube` value read relative to the solved cube, and every
//! derived turn comes from a generator by repeated self-composition.

use vstd::prelude::*;

use crate::model::{
    compose_views, down_prime_view, down_turn, down_view, injective, is_solved_view,
    left_prime_view, left_turn, left_view, lemma_compose_wf, right_prime_view, right_turn,
    right_view, up_prime_view, up_turn, up_view, wf, CubeView,
};
use crate::orientation::compose_orientation;

verus! {

/// One corner state of a pocket cube: `corner_parts[i]` is the original
/// piece now sitting at canonical position `i`, `corner_orientations[i]` its
/// twist.  The same shape describes a turn, read relative to the solved
/// cube.
#[derive(Debug, Clone, Copy, PartialEq, Eq)]
pub struct Cube {
    pub corner_parts: [u8; 8],
    pub corner_orientations: [u8; 8],
}

impl View for Cube {
    type V = CubeView;

    open spec fn view(&self) -> CubeView {
        CubeView { parts: self.corner_parts@, orientations: self.corner_orientations@ }
    }
}

impl Cube {
    /// Builds a cube from explicit arrays.  Supplying a valid permutation
    /// and legal orientation values is the caller's responsibility.
    pub fn new(corner_parts: [u8; 8], corner_orientations: [u8; 8]) -> (c: Cube)
        requires
            forall|i: int| 0 <= i < 8 ==> corner_parts@[i] < 8,
            forall|i: int| 0 <= i < 8 ==> corner_orientations@[i] < 3,
            injective(corner_parts@),
        ensures
            c@ == (CubeView { parts: corner_parts@, orientations: corner_orientations@ }),
            wf(c@),
    {
        Cube { corner_parts, corner_orientations }
    }

    /// True exactly when the permutation is the identity ordering and every
    /// orientation is the reference value.
    pub fn is_solved(&self) -> (solved: bool)
        ensures
            solved == is_solved_view(self@),
    {
        let mut i: usize = 0;
        while i < 8
            invariant
                i <= 8,
                forall|j: int| 0 <= j < i ==> self@.parts[j] == j && self@.orientations[j] == 0,
            decreases 8 - i,
        {
            if self.corner_parts[i] != i as u8 || self.corner_orientations[i] != 0 {
                return false;
            }
            i += 1;
        }
        true
    }

    /// The composition operator: position `i` of the new state receives the
    /// piece the old state held at the position the turn reads from, and
    /// that piece's twist grows by the twist the turn imparts at `i`.
    pub fn apply(self, move_state: &Cube) -> (next: Cube)
        requires
            wf(self@),
            wf(move_state@),
        ensures
            next@ == compose_views(self@, move_state@),
            wf(next@),
    {
        let mut corner_parts: [u8; 8] = [0; 8];
        let mut corner_orientations: [u8; 8] = [0; 8];
        let mut i: usize = 0;
        while i < 8
            invariant
                i <= 8,
                wf(self@),
                wf(move_state@),
                forall|j: int| 0 <= j < i
                    ==> corner_parts@[j] == compose_views(self@, move_state@).parts[j],
                forall|j: int| 0 <= j < i
                    ==> corner_orientations@[j] == compose_views(self@, move_state@).orientations[j],
            decreases 8 - i,
        {
            let source_index = move_state.corner_parts[i] as usize;
            corner_parts[i] = self.corner_parts[source_index];
            corner_orientations[i] = compose_orientation(
                self.corner_orientations[source_index],
                move_state.corner_orientations[i],
            );
            i += 1;
        }
        let next = Cube { corner_parts, corner_orientations };
        proof {
            lemma_compose_wf(self@, move_state@);
            assert(next@ =~= compose_views(self@, move_state@));
        }
        next
    }

    /// One quarter turn of the right face, the hand-authored generator.
    pub fn right(self) -> (next: Cube)
        requires
            wf(self@),
        ensures
            wf(next@),
            next@ == right_view(self@),
    {
        let right_move = Cube::new([0, 5, 1, 3, 4, 6, 2, 7], [0, 2, 1, 0, 0, 1, 2, 0]);
        proof {
            assert(right_move@ =~= right_turn());
        }
        self.apply(&right_move)
    }

    /// Half turn of the right face: the quarter turn applied twice.
    pub fn right2(self) -> (next: Cube)
        requires
            wf(self@),
        ensures
            wf(next@),
            next@ == right_view(right_view(self@)),
    {
        self.right().right()
    }

    /// Reverse quarter turn of the right face: the quarter turn applied
    /// three times.
    pub fn right_prime(self) -> (next: Cube)
        requires
            wf(self@),
        ensures
            wf(next@),
            next@ == right_prime_view(self@),
    {
        self.right().right().right()
    }

    /// One quarter turn of the left face.  Its generator is the right
    /// face's generator carried over by the cube's half rotation about the
    /// vertical axis.
    pub fn left(self) -> (next: Cube)
        requires
            wf(self@),
        ensures
            wf(next@),
            next@ == left_view(self@),
    {
        let left_move = Cube::new([3, 1, 2, 7, 0, 5, 6, 4], [1, 0, 0, 2, 2, 0, 0, 1]);
        proof {
            assert(left_move@ =~= left_turn());
        }
        self.apply(&left_move)
    }

    /// Half turn of the left face: the quarter turn applied twice.
    pub fn left2(self) -> (next: Cube)
        requires
            wf(self@),
        ensures
            wf(next@),
            next@ == left_view(left_view(self@)),
    {
        self.left().left()
    }

    /// Reverse quarter turn of the left face: the quarter turn applied
    /// three times.
    pub fn left_prime(self) -> (next: Cube)
        requires
            wf(self@),
        ensures
            wf(next@),
            next@ == left_prime_view(self@),
    {
        self.left().left().left()
    }

    /// One quarter turn of the down face, the hand-authored generator.
    pub fn down(self) -> (next: Cube)
        requires
            wf(self@),
        ensures
            wf(next@),
            next@ == down_view(self@),
    {
        let down_move = Cube::new([0, 1, 2, 3, 7, 4, 5, 6], [0, 0, 0, 0, 0, 0, 0, 0]);
        proof {
            assert(down_move@ =~= down_turn());
        }
        self.apply(&down_move)
    }

    /// Half turn of the down face: the quarter turn applied twice.
    pub fn down2(self) -> (next: Cube)
        requires
            wf(self@),
        ensures
            wf(next@),
            next@ == down_view(down_view(self@)),
    {
        self.down().down()
    }

    /// Reverse quarter turn of the down face: the quarter turn applied
    /// three times.
    pub fn down_prime(self) -> (next: Cube)
        requires
            wf(self@),
        ensures
            wf(next@),
            next@ == down_prime_view(self@),
    {
        self.down().down().down()
    }

    /// One quarter turn of the up face.  Its generator is the down face's
    /// generator carried over by the cube's half rotation about the
    /// right-left axis.
    pub fn up(self) -> (next: Cube)
        requires
            wf(self@),
        ensures
            wf(next@),
            next@ == up_view(self@),
    {
        let up_move = Cube::new([1, 2, 3, 0, 4, 5, 6, 7], [0, 0, 0, 0, 0, 0, 0, 0]);
        proof {
            assert(up_move@ =~= up_turn());
        }
        self.apply(&up_move)
    }

    /// Half turn of the up face: the quarter turn applied twice.
    pub fn up2(self) -> (next: Cube)
        requires
            wf(self@),
        ensures
            wf(next@),
            next@ == up_view(up_view(self@)),
    {
        self.up().up()
    }

    /// Reverse quarter turn of the up face: the quarter turn applied
    /// three times.
    pub fn up_prime(self) -> (next: Cube)
        requires
            wf(self@),
        ensures
            wf(next@),
            next@ == up_prime_view(self@),
    {
        self.up().up().up()
    }

    /// The back face has no hand-authored generator yet: asking for its
    /// turn fails explicitly instead of silently reusing another face.
    pub fn back(self) -> (next: Option<Cube>)
        ensures
            next is None,
    {
        None
    }

    /// Half turn of the back face: two quarter turns, each of which fails
    /// explicitly while the back face has no generator.
    pub fn back2(self) -> (next: Option<Cube>)
        ensures
            next is None,
    {
        match self.back() {
            Some(cube) => cube.back(),
            None => None,
        }
    }

    /// Reverse quarter turn of the back face: three quarter turns, each of
    /// which fails explicitly while the back face has no generator.
    pub fn back_prime(self) -> (next: Option<Cube>)
        ensures
            next is None,
    {
        match self.back2() {
            Some(cube) => cube.back(),
            None => None,
        }
    }

    /// The front face reuses the back face's turn, which has no generator
    /// yet, so it fails explicitly as well.
    pub fn front(self) -> (next: Option<Cube>)
        ensures
            next is None,
    {
        self.back()
    }

    /// Half turn of the front face; fails explicitly like the back face's.
    pub fn front2(self) -> (next: Option<Cube>)
        ensures
            next is None,
    {
        self.back2()
    }

    /// Reverse quarter turn of the front face; fails explicitly like the
    /// back face's.
    pub fn front_prime(self) -> (next: Option<Cube>)
        ensures
            next is None,
    {
        self.back_prime()
    }
}

} // verus!
