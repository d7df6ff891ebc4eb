//! Matrix mode: an experiment from every node to every node.
use vstd::prelude::*;
use vstd::string::*;
use itertools::Itertools;
use crate::scheduler::{distinct, pair_views, ExperimentPair};
use crate::text::views;

verus! {

/// All ordered pairs of `names`: the pairs that begin with the first name, each in the order
/// of `names`; then those that begin with the second; and so on.
pub open spec fn product_of(names: Seq<Seq<char>>) -> Seq<(Seq<char>, Seq<char>)> {
    Seq::new(
        names.len() * names.len(),
        |k: int| (names[k / names.len() as int], names[k % names.len() as int]),
    )
}

/// What a list of pairs of strings says, as plain text.
pub open spec fn tuple_views(pairs: Seq<(String, String)>) -> Seq<(Seq<char>, Seq<char>)> {
    Seq::new(pairs.len(), |k: int| (pairs[k].0@, pairs[k].1@))
}

/// The pair from the `i`-th to the `j`-th of `n` names stands at position `i * n + j`.
pub proof fn lemma_product_entry(names: Seq<Seq<char>>, i: int, j: int)
    requires
        0 <= i < names.len(),
        0 <= j < names.len(),
    ensures
        0 <= i * names.len() + j < product_of(names).len(),
        product_of(names)[i * names.len() + j] == (names[i], names[j]),
{
    let n = names.len() as int;
    assert(0 <= i * n && i * n + j < n * n) by (nonlinear_arith)
        requires
            0 <= i < n,
            0 <= j < n,
    ;
    vstd::arithmetic::div_mod::lemma_fundamental_div_mod_converse(i * n + j, n, i, j);
}

/// A pair is made of two of `names`.
pub open spec fn pair_of(names: Seq<Seq<char>>, pair: (Seq<char>, Seq<char>)) -> bool {
    names.contains(pair.0) && names.contains(pair.1)
}

/// Matrix mode holds every ordered pair of names, a name with itself included, and nothing
/// else; and where no name occurs twice, it holds no pair twice. So `n` names give exactly
/// `n * n` experiments, one for each ordered pair.
pub proof fn law_matrix_holds_each_pair_once(names: Seq<Seq<char>>)
    ensures
        product_of(names).len() == names.len() * names.len(),
        forall|i: int, j: int|
            0 <= i < names.len() && 0 <= j < names.len() ==> product_of(names).contains(
                (#[trigger] names[i], #[trigger] names[j]),
            ),
        forall|k: int|
            0 <= k < product_of(names).len() ==> pair_of(names, #[trigger] product_of(names)[k]),
        distinct(names) ==> forall|k: int, l: int|
            0 <= k < l < product_of(names).len() ==> #[trigger] product_of(names)[k]
                != #[trigger] product_of(names)[l],
{
    let n = names.len() as int;
    let all = product_of(names);
    assert forall|i: int, j: int| 0 <= i < n && 0 <= j < n implies all.contains(
        (#[trigger] names[i], #[trigger] names[j]),
    ) by {
        lemma_product_entry(names, i, j);
        assert(all[i * n + j] == (names[i], names[j]));
    }
    assert forall|k: int| 0 <= k < all.len() implies pair_of(names, #[trigger] all[k]) by {
        lemma_row_and_column(n, k);
        assert(names[k / n] == all[k].0);
        assert(names[k % n] == all[k].1);
    }
    if distinct(names) {
        assert forall|k: int, l: int| 0 <= k < l < all.len() implies #[trigger] all[k]
            != #[trigger] all[l] by {
            lemma_row_and_column(n, k);
            lemma_row_and_column(n, l);
            if k / n != l / n {
                if k / n < l / n {
                    assert(names[k / n] != names[l / n]);
                } else {
                    assert(names[l / n] != names[k / n]);
                }
            } else {
                assert(k % n != l % n);
                if k % n < l % n {
                    assert(names[k % n] != names[l % n]);
                } else {
                    assert(names[l % n] != names[k % n]);
                }
            }
        }
    }
}

/// Position `k` of `n * n` lies in row `k / n` and column `k % n`, both below `n`.
proof fn lemma_row_and_column(n: int, k: int)
    requires
        0 <= n,
        0 <= k < n * n,
    ensures
        0 <= k / n < n,
        0 <= k % n < n,
        k == (k / n) * n + k % n,
{
    assert(n > 0) by (nonlinear_arith)
        requires
            0 <= n,
            0 <= k < n * n,
    ;
    vstd::arithmetic::div_mod::lemma_fundamental_div_mod(k, n);
    vstd::arithmetic::div_mod::lemma_mod_bound(k, n);
    assert(k == n * (k / n) + k % n);
    assert(0 <= k / n < n) by (nonlinear_arith)
        requires
            0 <= k < n * n,
            n > 0,
            k == n * (k / n) + k % n,
            0 <= k % n < n,
    ;
    assert(n * (k / n) == (k / n) * n) by (nonlinear_arith);
}

/// The most bytes that one pair of strings takes in a list.
pub const PAIR_BYTES: usize = 48;

/// The list of all ordered pairs of `n` names can be held in memory.
pub open spec fn fits(n: nat) -> bool {
    n * n * PAIR_BYTES <= isize::MAX
}

/// `itertools::Itertools::cartesian_product` on two copies of `names`: every element of the
/// first paired with every element of the second, the second running faster. The pairs are
/// collected into a list, which must not be longer than a list can be.
#[verifier::external_body]
fn cartesian_product(names: &Vec<String>) -> (pairs: Vec<(String, String)>)
    requires
        fits(names.len() as nat),
    ensures
        tuple_views(pairs@) == product_of(views(names@)),
{
    names.iter().cloned().cartesian_product(names.iter().cloned()).collect()
}

/// The experiments of matrix mode: one from every node of `names` to every node of `names`,
/// itself included, ordered by sender and then by receiver as `names` orders them.
pub fn matrix(names: &Vec<String>) -> (pairs: Vec<ExperimentPair>)
    requires
        fits(names.len() as nat),
    ensures
        pair_views(pairs@) == product_of(views(names@)),
{
    let tuples = cartesian_product(names);
    let mut pairs: Vec<ExperimentPair> = Vec::new();
    let mut k: usize = 0;
    assert(tuple_views(tuples@).len() == tuples.len());
    while k < tuples.len()
        invariant
            k <= tuples.len(),
            pairs.len() == k,
            forall|j: int|
                0 <= j < k ==> (#[trigger] pairs@[j]).from@ == tuples@[j].0@ && pairs@[j].to@
                    == tuples@[j].1@,
        decreases tuples.len() - k,
    {
        pairs.push(ExperimentPair { from: tuples[k].0.clone(), to: tuples[k].1.clone() });
        k += 1;
    }
    assert(pair_views(pairs@) =~= tuple_views(tuples@));
    pairs
}

} // verus!
