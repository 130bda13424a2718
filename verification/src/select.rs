//! Selection: deriving the ordered question list a session will use, either
//! the whole bank in its original order or a random subset of it.

use vstd::prelude::*;

use rand::seq::SliceRandom;

use crate::quiz::Quiz;
use crate::quiz::distinct_ids;

verus! {

/// `p` rearranges the positions `0 .. n`: it lists each of them exactly once.
pub open spec fn is_index_permutation(p: Seq<int>, n: int) -> bool {
    &&& p.len() == n
    &&& forall|i: int| 0 <= i < n ==> 0 <= #[trigger] p[i] < n
    &&& forall|i: int, j: int| 0 <= i < j < n ==> p[i] != p[j]
}

/// Relies on rand's `SliceRandom::shuffle`: it rearranges the slice in place,
/// so afterwards the vector holds exactly the elements it held before, each
/// moved to a permuted position.
#[verifier::external_body]
fn shuffle_quizzes(quizzes: &mut Vec<Quiz>)
    ensures
        final(quizzes)@.len() == old(quizzes)@.len(),
        exists|p: Seq<int>|
            is_index_permutation(p, old(quizzes)@.len() as int) && (forall|i: int|
                0 <= i < p.len() ==> final(quizzes)@[i] == old(quizzes)@[#[trigger] p[i]]),
{
    let mut rng = rand::rng();
    quizzes.shuffle(&mut rng);
}

/// Draw `count` questions from `quizzes` at random, without repeats.
///
/// The result holds `min(count, quizzes.len())` questions, each taken from
/// `quizzes`, in a shuffled order; when the identifiers of `quizzes` are
/// pairwise distinct, so are those of the result. The input list itself is
/// consumed; an empty list or a count of zero yields an empty result.
pub fn pick_random_quizzes(mut quizzes: Vec<Quiz>, count: usize) -> (r: Vec<Quiz>)
    ensures
        r@.len() == vstd::math::min(count as int, quizzes@.len() as int),
        forall|i: int| 0 <= i < r@.len() ==> quizzes@.contains(#[trigger] r@[i]),
        distinct_ids(quizzes@) ==> distinct_ids(r@),
{
    let ghost orig: Seq<Quiz> = quizzes@;
    shuffle_quizzes(&mut quizzes);
    let ghost shuf: Seq<Quiz> = quizzes@;
    quizzes.truncate(count);
    proof {
        let p = choose|p: Seq<int>|
            is_index_permutation(p, orig.len() as int) && (forall|i: int|
                0 <= i < p.len() ==> shuf[i] == orig[#[trigger] p[i]]);
        assert forall|i: int| 0 <= i < quizzes@.len() implies orig.contains(
            #[trigger] quizzes@[i],
        ) by {
            assert(quizzes@[i] == orig[p[i]]);
        }
        if distinct_ids(orig) {
            assert forall|i: int, j: int|
                0 <= i < j < quizzes@.len() implies quizzes@[i].id != quizzes@[j].id by {
                assert(quizzes@[i] == orig[p[i]]);
                assert(quizzes@[j] == orig[p[j]]);
            }
        }
    }
    quizzes
}

/// The identity selection: the whole bank, in its original order.
pub fn select_all(bank: Vec<Quiz>) -> (r: Vec<Quiz>)
    ensures
        r@ == bank@,
{
    bank
}

} // verus!
