use vstd::prelude::*;

verus! {

/// `i` is the position of the first `true` in `flags`.
pub open spec fn is_first_true(flags: Seq<bool>, i: int) -> bool {
    0 <= i < flags.len() && flags[i] && forall|j: int| 0 <= j < i ==> !flags[j]
}

/// The position of the first `true` in `flags`, if any.
pub open spec fn first_true(flags: Seq<bool>) -> Option<int> {
    if exists|i: int| is_first_true(flags, i) {
        Some(choose|i: int| is_first_true(flags, i))
    } else {
        None
    }
}

/// Two first positions are the same position.
pub proof fn lemma_first_true_unique(flags: Seq<bool>, i: int, k: int)
    requires
        is_first_true(flags, i),
        is_first_true(flags, k),
    ensures
        i == k,
{
    if i < k {
        assert(!flags[i]);
    } else if k < i {
        assert(!flags[k]);
    }
}

/// A flag set somewhere means a first one exists.
pub proof fn lemma_first_true_some(flags: Seq<bool>, i: int)
    requires
        0 <= i < flags.len(),
        flags[i],
    ensures
        first_true(flags) is Some,
    decreases i,
{
    if exists|j: int| 0 <= j < i && flags[j] {
        let j = choose|j: int| 0 <= j < i && flags[j];
        lemma_first_true_some(flags, j);
    } else {
        assert(is_first_true(flags, i));
    }
}

/// The position of the first `true` in `flags`.
pub fn first_set(flags: &Vec<bool>) -> (r: Option<usize>)
    ensures
        match r {
            Some(i) => first_true(flags@) == Some(i as int),
            None => first_true(flags@) is None,
        },
        r is None <==> forall|j: int| 0 <= j < flags.len() ==> !flags@[j],
{
    let mut i: usize = 0;
    while i < flags.len()
        invariant
            i <= flags.len(),
            forall|j: int| 0 <= j < i ==> !flags@[j],
        decreases flags.len() - i,
    {
        if flags[i] {
            proof {
                assert(is_first_true(flags@, i as int));
                let k = choose|k: int| is_first_true(flags@, k);
                lemma_first_true_unique(flags@, i as int, k);
            }
            return Some(i);
        }
        i = i + 1;
    }
    assert(!exists|k: int| is_first_true(flags@, k));
    None
}

} // verus!
