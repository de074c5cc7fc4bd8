//! Group-theoretic laws of the cube algebra, stated over the mathematical
//! model and proved once and for all.

use vstd::prelude::*;

use crate::model::{
    compose_views, down_prime_view, down_view, is_solved_view, left_prime_view, left_view,
    right_prime_view, right_view, solved_view, up_prime_view, up_view, wf, CubeView,
};

verus! {

/// Identity law: composing any well-formed state with the all-reference,
/// identity-permutation turn leaves the state unchanged.
pub proof fn lemma_compose_identity(c: CubeView)
    requires
        wf(c),
    ensures
        compose_views(c, solved_view()) == c,
{
    assert(compose_views(c, solved_view()) =~= c);
}

/// Applying any well-formed turn to the solved cube reproduces the turn
/// itself: the solved cube is the neutral element on the left as well.
pub proof fn lemma_apply_to_solved(m: CubeView)
    requires
        wf(m),
    ensures
        compose_views(solved_view(), m) == m,
{
    assert(compose_views(solved_view(), m) =~= m);
}

/// A state reports solved exactly when it equals the solved cube.
pub proof fn lemma_solved_exactly(c: CubeView)
    requires
        c.parts.len() == 8,
        c.orientations.len() == 8,
    ensures
        is_solved_view(c) <==> c == solved_view(),
{
    if is_solved_view(c) {
        assert(c =~= solved_view());
    }
}

/// Order-4 law for the right face: four quarter turns of the right face
/// return the solved cube to the solved cube.
pub proof fn lemma_right_order_four()
    ensures
        right_view(right_view(right_view(right_view(solved_view())))) == solved_view(),
{
    let s1 = right_view(solved_view());
    let s2 = right_view(s1);
    let s3 = right_view(s2);
    let s4 = right_view(s3);
    assert(s2.parts =~= seq![0u8, 6, 5, 3, 4, 2, 1, 7]);
    assert(s2.orientations =~= seq![0u8, 0, 0, 0, 0, 0, 0, 0]);
    assert(s3.parts =~= seq![0u8, 2, 6, 3, 4, 1, 5, 7]);
    assert(s3.orientations =~= seq![0u8, 2, 1, 0, 0, 1, 2, 0]);
    assert(s4 =~= solved_view());
}

/// Order-4 law for the down face, which the up face's turns reuse.
pub proof fn lemma_down_order_four()
    ensures
        down_view(down_view(down_view(down_view(solved_view())))) == solved_view(),
{
    let s1 = down_view(solved_view());
    let s2 = down_view(s1);
    let s3 = down_view(s2);
    let s4 = down_view(s3);
    assert(s2.parts =~= seq![0u8, 1, 2, 3, 6, 7, 4, 5]);
    assert(s3.parts =~= seq![0u8, 1, 2, 3, 5, 6, 7, 4]);
    assert(s4 =~= solved_view());
}

/// Order-4 law for the left face: four quarter turns of the left face
/// return the solved cube to the solved cube.
pub proof fn lemma_left_order_four()
    ensures
        left_view(left_view(left_view(left_view(solved_view())))) == solved_view(),
{
    let s1 = left_view(solved_view());
    let s2 = left_view(s1);
    let s3 = left_view(s2);
    let s4 = left_view(s3);
    assert(s2.parts =~= seq![7u8, 1, 2, 4, 3, 5, 6, 0]);
    assert(s2.orientations =~= seq![0u8, 0, 0, 0, 0, 0, 0, 0]);
    assert(s3.parts =~= seq![4u8, 1, 2, 0, 7, 5, 6, 3]);
    assert(s3.orientations =~= seq![1u8, 0, 0, 2, 2, 0, 0, 1]);
    assert(s4 =~= solved_view());
}

/// Order-4 law for the up face: four quarter turns of the up face return
/// the solved cube to the solved cube.
pub proof fn lemma_up_order_four()
    ensures
        up_view(up_view(up_view(up_view(solved_view())))) == solved_view(),
{
    let s1 = up_view(solved_view());
    let s2 = up_view(s1);
    let s3 = up_view(s2);
    let s4 = up_view(s3);
    assert(s2.parts =~= seq![2u8, 3, 0, 1, 4, 5, 6, 7]);
    assert(s3.parts =~= seq![3u8, 0, 1, 2, 4, 5, 6, 7]);
    assert(s4 =~= solved_view());
}

/// Inverse law for the right face: a quarter turn followed by its reverse
/// turn returns the solved cube.
pub proof fn lemma_right_inverse()
    ensures
        right_prime_view(right_view(solved_view())) == solved_view(),
{
    lemma_right_order_four();
}

/// Inverse law for the down face: a quarter turn followed by its reverse
/// turn returns the solved cube.
pub proof fn lemma_down_inverse()
    ensures
        down_prime_view(down_view(solved_view())) == solved_view(),
{
    lemma_down_order_four();
}

/// Inverse law for the left face: a quarter turn followed by its reverse
/// turn returns the solved cube.
pub proof fn lemma_left_inverse()
    ensures
        left_prime_view(left_view(solved_view())) == solved_view(),
{
    lemma_left_order_four();
}

/// Inverse law for the up face: a quarter turn followed by its reverse
/// turn returns the solved cube.
pub proof fn lemma_up_inverse()
    ensures
        up_prime_view(up_view(solved_view())) == solved_view(),
{
    lemma_up_order_four();
}

} // verus!
