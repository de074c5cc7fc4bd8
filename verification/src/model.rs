//! The mathematical picture of a cube state: two sequences of eight values,
//! the composition operator over them, and the constants it is built from.

use vstd::prelude::*;

use crate::orientation::orientation_sum;

verus! {

/// Abstract value of one corner state: `parts[i]` names the original piece
/// now sitting at canonical position `i`, and `orientations[i]` how that
/// piece is twisted.  A turn is a value of the same shape, read relative to
/// the solved cube.
#[verifier::ext_equal]
pub ghost struct CubeView {
    pub parts: Seq<u8>,
    pub orientations: Seq<u8>,
}

/// No piece label occurs twice: the sequence is a permutation of the eight
/// position labels once every entry is also in range.
pub open spec fn injective(s: Seq<u8>) -> bool {
    forall|i: int, j: int|
        0 <= i < s.len() && 0 <= j < s.len() && i != j ==> s[i] != s[j]
}

/// A well-formed corner state: eight entries per array, every piece label a
/// valid position, every orientation a legal twist, and no piece duplicated.
pub open spec fn wf(c: CubeView) -> bool {
    &&& c.parts.len() == 8
    &&& c.orientations.len() == 8
    &&& forall|i: int| 0 <= i < 8 ==> c.parts[i] < 8
    &&& forall|i: int| 0 <= i < 8 ==> c.orientations[i] < 3
    &&& injective(c.parts)
}

/// The solved cube: the identity permutation with every piece untwisted.
pub open spec fn solved_view() -> CubeView {
    CubeView {
        parts: seq![0u8, 1, 2, 3, 4, 5, 6, 7],
        orientations: seq![0u8, 0, 0, 0, 0, 0, 0, 0],
    }
}

/// True exactly when the permutation is the identity ordering and every
/// orientation is the reference value.
pub open spec fn is_solved_view(c: CubeView) -> bool {
    &&& c.parts.len() == 8
    &&& c.orientations.len() == 8
    &&& forall|i: int| 0 <= i < 8 ==> c.parts[i] == i && c.orientations[i] == 0
}

/// The composition operator: position `i` of the result receives the piece
/// that the state held at the position the turn reads from, and that piece's
/// twist grows by the twist the turn imparts at position `i`.
pub open spec fn compose_views(s: CubeView, m: CubeView) -> CubeView {
    CubeView {
        parts: Seq::new(8, |i: int| s.parts[m.parts[i] as int]),
        orientations: Seq::new(
            8,
            |i: int| orientation_sum(s.orientations[m.parts[i] as int], m.orientations[i]),
        ),
    }
}

/// The hand-authored generator for the right face: one quarter turn.
pub open spec fn right_turn() -> CubeView {
    CubeView {
        parts: seq![0u8, 5, 1, 3, 4, 6, 2, 7],
        orientations: seq![0u8, 2, 1, 0, 0, 1, 2, 0],
    }
}

/// The hand-authored generator for the down face: one quarter turn.
pub open spec fn down_turn() -> CubeView {
    CubeView {
        parts: seq![0u8, 1, 2, 3, 7, 4, 5, 6],
        orientations: seq![0u8, 0, 0, 0, 0, 0, 0, 0],
    }
}

/// The generator for the left face: the right face's quarter turn carried
/// onto the left face by the cube's half rotation about the vertical axis
/// (which exchanges positions 0 and 2, 1 and 3, 4 and 6, 5 and 7, and
/// leaves every twist value as it is).
pub open spec fn left_turn() -> CubeView {
    CubeView {
        parts: seq![3u8, 1, 2, 7, 0, 5, 6, 4],
        orientations: seq![1u8, 0, 0, 2, 2, 0, 0, 1],
    }
}

/// The generator for the up face: the down face's quarter turn carried
/// onto the up face by the cube's half rotation about the right-left axis
/// (which exchanges positions 0 and 7, 1 and 6, 2 and 5, 3 and 4, and
/// leaves every twist value as it is).
pub open spec fn up_turn() -> CubeView {
    CubeView {
        parts: seq![1u8, 2, 3, 0, 4, 5, 6, 7],
        orientations: seq![0u8, 0, 0, 0, 0, 0, 0, 0],
    }
}

/// Effect of one right quarter turn on a state.
pub open spec fn right_view(c: CubeView) -> CubeView {
    compose_views(c, right_turn())
}

/// Effect of one down quarter turn on a state.
pub open spec fn down_view(c: CubeView) -> CubeView {
    compose_views(c, down_turn())
}

/// Effect of one left quarter turn on a state.
pub open spec fn left_view(c: CubeView) -> CubeView {
    compose_views(c, left_turn())
}

/// Effect of one up quarter turn on a state.
pub open spec fn up_view(c: CubeView) -> CubeView {
    compose_views(c, up_turn())
}

/// Effect of the reverse right turn: the quarter turn taken three times.
pub open spec fn right_prime_view(c: CubeView) -> CubeView {
    right_view(right_view(right_view(c)))
}

/// Effect of the reverse down turn: the quarter turn taken three times.
pub open spec fn down_prime_view(c: CubeView) -> CubeView {
    down_view(down_view(down_view(c)))
}

/// Effect of the reverse left turn: the quarter turn taken three times.
pub open spec fn left_prime_view(c: CubeView) -> CubeView {
    left_view(left_view(left_view(c)))
}

/// Effect of the reverse up turn: the quarter turn taken three times.
pub open spec fn up_prime_view(c: CubeView) -> CubeView {
    up_view(up_view(up_view(c)))
}

/// Composing two well-formed states yields a well-formed state; in
/// particular the composed permutation is again a permutation.
pub proof fn lemma_compose_wf(s: CubeView, m: CubeView)
    requires
        wf(s),
        wf(m),
    ensures
        wf(compose_views(s, m)),
{
    let c = compose_views(s, m);
    assert forall|i: int, j: int|
        0 <= i < c.parts.len() && 0 <= j < c.parts.len() && i != j implies c.parts[i]
        != c.parts[j] by {
        assert(m.parts[i] != m.parts[j]);
        assert(s.parts[m.parts[i] as int] != s.parts[m.parts[j] as int]);
    }
}

/// Every generator is a well-formed turn: a bijection over the position
/// labels with one legal twist value per position.
pub proof fn lemma_generators_wf()
    ensures
        wf(right_turn()),
        wf(down_turn()),
        wf(left_turn()),
        wf(up_turn()),
        wf(solved_view()),
{
}

} // verus!
