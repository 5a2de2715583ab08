use vstd::prelude::*;

verus! {

/// The meaning of the join operator: the concatenation of `parts` in
/// argument order, with no reordering and no deduplication.
pub open spec fn concat_all<A>(parts: Seq<Seq<A>>) -> Seq<A>
    decreases parts.len(),
{
    if parts.len() == 0 {
        Seq::empty()
    } else {
        concat_all(parts.drop_last()) + parts.last()
    }
}

/// The join operator over named sequences of identifiers: yields exactly the
/// concatenation of the given sequences in the order given, keeping every
/// duplicate and the order inside each argument; an empty argument
/// contributes nothing.
pub fn join(parts: &[Vec<String>]) -> (out: Vec<String>)
    ensures
        out.deep_view() == concat_all(parts.deep_view()),
{
    let ghost all: Seq<Seq<Seq<char>>> = parts.deep_view();
    let mut out: Vec<String> = Vec::new();
    let mut i: usize = 0;
    proof {
        assert(out.deep_view() =~= concat_all(all.take(0)));
    }
    while i < parts.len()
        invariant
            i <= parts.len(),
            all == parts.deep_view(),
            out.deep_view() == concat_all(all.take(i as int)),
        decreases parts.len() - i,
    {
        let part: &Vec<String> = &parts[i];
        let mut j: usize = 0;
        proof {
            assert(out.deep_view() =~= concat_all(all.take(i as int)) + all[i as int].take(0));
        }
        while j < part.len()
            invariant
                i < parts.len(),
                j <= part.len(),
                all == parts.deep_view(),
                part == parts@[i as int],
                out.deep_view() == concat_all(all.take(i as int)) + all[i as int].take(j as int),
            decreases part.len() - j,
        {
            let s: String = part[j].clone();
            let ghost pre = out.deep_view();
            let ghost pre_v = out@;
            out.push(s);
            proof {
                assert(s@ == all[i as int][j as int]);
                assert(out@ == pre_v.push(s));
                assert forall|k: int| 0 <= k < pre.len() implies out.deep_view()[k] == pre[k] by {
                    assert(out@[k] == pre_v[k]);
                }
                assert(out.deep_view() =~= pre.push(s@));
                assert(all[i as int].take(j as int + 1) =~= all[i as int].take(j as int).push(
                    all[i as int][j as int],
                ));
                assert(out.deep_view() =~= concat_all(all.take(i as int)) + all[i as int].take(
                    j as int + 1,
                ));
            }
            j = j + 1;
        }
        proof {
            assert(all[i as int].take(part@.len() as int) =~= all[i as int]);
            assert(all.take(i as int + 1).drop_last() =~= all.take(i as int));
            assert(out.deep_view() =~= concat_all(all.take(i as int + 1)));
        }
        i = i + 1;
    }
    proof {
        assert(all.take(parts@.len() as int) =~= all);
    }
    out
}

} // verus!
