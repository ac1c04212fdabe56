//! Reading the command line's arguments.

use vstd::prelude::*;

verus! {

/// How many of `args` are non-empty.
pub open spec fn non_empty_count(args: Seq<Seq<char>>) -> nat
    decreases args.len(),
{
    if args.len() == 0 {
        0
    } else {
        non_empty_count(args.drop_last()) + if args.last().len() > 0 { 1nat } else { 0nat }
    }
}

proof fn lemma_count_bound(args: Seq<Seq<char>>)
    ensures
        non_empty_count(args) <= args.len(),
    decreases args.len(),
{
    if args.len() > 0 {
        lemma_count_bound(args.drop_last());
    }
}

/// Counts the non-empty arguments, the program's own path included.
pub fn count_args(args: &Vec<String>) -> (r: i32)
    requires
        args@.len() <= i32::MAX,
    ensures
        r as int == non_empty_count(args.deep_view()),
{
    let ghost all = args.deep_view();
    let mut count: i32 = 0;
    let mut i: usize = 0;
    while i < args.len()
        invariant
            i <= args@.len() <= i32::MAX,
            all == args.deep_view(),
            count as int == non_empty_count(all.subrange(0, i as int)),
        decreases args@.len() - i,
    {
        proof {
            let p = all.subrange(0, i + 1);
            assert(p.drop_last() =~= all.subrange(0, i as int));
            assert(p.last() == args@[i as int]@);
            lemma_count_bound(all.subrange(0, i as int));
        }
        if args[i].as_str().unicode_len() > 0 {
            count += 1;
        }
        i += 1;
    }
    assert(all.subrange(0, i as int) =~= all);
    count
}

} // verus!
