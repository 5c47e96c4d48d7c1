//! Choosing the languages that a card shows: the largest first, and no more
//! than asked for.

use vstd::prelude::*;
use vstd::string::*;
use crate::languages::{Language, LanguageTotal};

verus! {

/// The most languages that a card ever shows.
pub const MAX_TOP_LANGUAGES: usize = 100;

/// The views of a list of languages.
pub open spec fn totals_view(list: Seq<Language>) -> Seq<LanguageTotal> {
    Seq::new(list.len(), |i: int| list[i]@)
}

/// Whether `order` lists each index below `n` exactly once.
pub open spec fn is_permutation(order: Seq<usize>, n: nat) -> bool {
    &&& order.len() == n
    &&& forall|i: int| 0 <= i < n ==> (#[trigger] order[i]) < n
    &&& forall|i: int, j: int| 0 <= i < j < n ==> (#[trigger] order[i]) != (#[trigger] order[j])
}

/// Whether the entry at index `x` is shown before the entry at index `y`:
/// the larger one first, and of two equal ones the one that stands first in
/// `all`.
pub open spec fn precedes(all: Seq<LanguageTotal>, x: usize, y: usize) -> bool {
    all[x as int].size > all[y as int].size || (all[x as int].size == all[y as int].size && x < y)
}

/// Whether the first `upto` indices of `order` list entries of `all` from
/// the largest size down, equal sizes in the order of `all`.
pub open spec fn descending(all: Seq<LanguageTotal>, order: Seq<usize>, upto: int) -> bool {
    forall|a: int, b: int|
        0 <= a < b < upto ==> precedes(all, #[trigger] order[a], #[trigger] order[b])
}

/// How many languages are shown: as many as asked for, at most
/// `MAX_TOP_LANGUAGES`, and no more than there are.
pub open spec fn shown_count(available: nat, wanted: usize) -> nat {
    let capped = if wanted <= MAX_TOP_LANGUAGES {
        wanted
    } else {
        MAX_TOP_LANGUAGES
    };
    if capped as nat <= available {
        capped as nat
    } else {
        available
    }
}

/// Whether `chosen` holds the first entries of `all` in the order `order`,
/// where `order` lists all entries from the largest size down and entries of
/// equal size in the order in which they stand in `all`.
pub open spec fn is_top_selection(
    all: Seq<LanguageTotal>,
    chosen: Seq<LanguageTotal>,
    order: Seq<usize>,
) -> bool {
    &&& is_permutation(order, all.len())
    &&& descending(all, order, order.len() as int)
    &&& chosen.len() <= all.len()
    &&& forall|i: int| 0 <= i < chosen.len() ==> #[trigger] chosen[i] == all[order[i] as int]
}

/// No language that is left out is larger than one that is shown.
pub proof fn law_selection_holds_the_largest(
    all: Seq<LanguageTotal>,
    chosen: Seq<LanguageTotal>,
    order: Seq<usize>,
    shown: int,
    left_out: int,
)
    requires
        is_top_selection(all, chosen, order),
        0 <= shown < chosen.len() <= left_out < all.len(),
    ensures
        chosen[shown].size >= all[order[left_out] as int].size,
{
    assert(chosen[shown] == all[order[shown] as int]);
    assert(precedes(all, order[shown], order[left_out]));
}

/// The sizes of `list` together.
pub open spec fn size_sum(list: Seq<LanguageTotal>) -> nat
    decreases list.len(),
{
    if list.len() == 0 {
        0
    } else {
        size_sum(list.drop_last()) + list.last().size
    }
}

/// The indices of `langs`, ordered from the largest size down.
fn size_order(langs: &Vec<Language>) -> (order: Vec<usize>)
    ensures
        is_permutation(order@, langs@.len() as nat),
        descending(totals_view(langs@), order@, order@.len() as int),
{
    let n = langs.len();
    let ghost all = totals_view(langs@);
    let mut order: Vec<usize> = Vec::new();
    let mut k: usize = 0;
    while k < n
        invariant
            k <= n,
            order@.len() == k,
            forall|i: int| 0 <= i < k ==> (#[trigger] order@[i]) == i,
        decreases n - k,
    {
        order.push(k);
        k += 1;
    }
    let mut i: usize = 1;
    while i < n
        invariant
            n == langs@.len(),
            all == totals_view(langs@),
            1 <= i,
            is_permutation(order@, n as nat),
            forall|k: int| i <= k < n ==> (#[trigger] order@[k]) == k,
            forall|k: int| 0 <= k < i && k < n ==> (#[trigger] order@[k]) < i,
            descending(all, order@, if i <= n {
                i as int
            } else {
                n as int
            }),
        decreases n - i,
    {
        let mut j: usize = i;
        while j > 0 && langs[order[j - 1]].size < langs[order[j]].size
            invariant
                n == langs@.len(),
                all == totals_view(langs@),
                j <= i < n,
                is_permutation(order@, n as nat),
                forall|k: int| i < k < n ==> (#[trigger] order@[k]) == k,
                forall|k: int| 0 <= k <= i ==> (#[trigger] order@[k]) <= i,
                order@[j as int] == i,
                forall|a: int, b: int|
                    0 <= a < b <= i && a != j && b != j ==> precedes(
                        all,
                        #[trigger] order@[a],
                        #[trigger] order@[b],
                    ),
                forall|b: int|
                    j < b <= i ==> precedes(all, order@[j as int], #[trigger] order@[b]),
            decreases j,
        {
            let moving = order[j];
            let passed = order[j - 1];
            order.set(j - 1, moving);
            order.set(j, passed);
            j -= 1;
        }
        assert forall|a: int, b: int| 0 <= a < b < i + 1 implies precedes(
            all,
            #[trigger] order@[a],
            #[trigger] order@[b],
        ) by {
            if b == j {
                assert(order@[a] != order@[j as int]);
                assert(order@[a] < i);
                if a < j - 1 {
                    assert(precedes(all, order@[a], order@[j - 1]));
                }
            }
        }
        i += 1;
    }
    order
}

/// The languages to show, largest first, with the sum of their sizes: the
/// first `langs_count` of `langs` ordered from the largest size down, equal
/// sizes in the order given, and never more than `MAX_TOP_LANGUAGES`.
pub fn select_top_languages(langs: Vec<Language>, langs_count: usize) -> (r: (Vec<Language>, u128))
    ensures
        r.0@.len() == shown_count(langs@.len() as nat, langs_count),
        exists|order: Seq<usize>| is_top_selection(totals_view(langs@), totals_view(r.0@), order),
        r.1 == size_sum(totals_view(r.0@)),
{
    let order = size_order(&langs);
    let n = langs.len();
    let capped: usize = if langs_count <= MAX_TOP_LANGUAGES {
        langs_count
    } else {
        MAX_TOP_LANGUAGES
    };
    let shown: usize = if capped <= n {
        capped
    } else {
        n
    };
    let ghost all = totals_view(langs@);
    let mut chosen: Vec<Language> = Vec::new();
    let mut total: u128 = 0;
    let mut i: usize = 0;
    while i < shown
        invariant
            i <= shown <= n,
            shown <= MAX_TOP_LANGUAGES,
            n == langs@.len(),
            all == totals_view(langs@),
            is_permutation(order@, n as nat),
            chosen@.len() == i,
            forall|k: int| 0 <= k < i ==> (#[trigger] chosen@[k])@ == all[order@[k] as int],
            total == size_sum(totals_view(chosen@)),
            total <= i * 0xFFFF_FFFF_FFFF_FFFF,
        decreases shown - i,
    {
        let entry = &langs[order[i]];
        let ghost before = totals_view(chosen@);
        chosen.push(
            Language { name: entry.name.clone(), color: entry.color.clone(), size: entry.size },
        );
        proof {
            let after = totals_view(chosen@);
            assert(after.drop_last() =~= before);
            assert(after.last().size == entry.size);
        }
        total = total + entry.size as u128;
        i += 1;
    }
    proof {
        let picked = totals_view(chosen@);
        assert(is_top_selection(all, picked, order@));
    }
    (chosen, total)
}

} // verus!
