use vstd::prelude::*;

verus! {

/// An ordered key-value context: the flavor name plus named category
/// sequences, in the order they are handed to the template engine.
///
/// Every category is a sequence, never a set: order and duplicates are
/// preserved through every transformation.
pub struct TemplateContext {
    /// Bound under the key "name" when the context is rendered.
    pub name: String,
    /// Category name, then the ordered identifiers it holds.
    pub lists: Vec<(String, Vec<String>)>,
}

/// The mapping that a run of entries denotes: a later entry for the same key
/// wins, exactly as when the entries are inserted one by one into the
/// engine's data object.
pub open spec fn lists_model(entries: Seq<(String, Vec<String>)>) -> Map<Seq<char>, Seq<Seq<char>>>
    decreases entries.len(),
{
    if entries.len() == 0 {
        Map::empty()
    } else {
        lists_model(entries.drop_last()).insert(entries.last().0@, entries.last().1.deep_view())
    }
}

/// The single text binding of a generation call: the flavor name, verbatim,
/// under the key "name".
pub open spec fn name_binding(name: Seq<char>) -> Map<Seq<char>, Seq<char>> {
    Map::empty().insert("name"@, name)
}

impl TemplateContext {
    /// The single text binding the engine sees: the flavor name, verbatim,
    /// under the key "name".
    pub open spec fn scalar_bindings(self) -> Map<Seq<char>, Seq<char>> {
        name_binding(self.name@)
    }

    /// The sequence bindings the engine sees. The flavor name is bound after
    /// the categories, so a stray category entry under the key "name" is
    /// shadowed by it.
    pub open spec fn sequence_bindings(self) -> Map<Seq<char>, Seq<Seq<char>>> {
        lists_model(self.lists@).remove("name"@)
    }
}

/// The bindings of the flavor-variables context: every category under its
/// declared name, including the two file-name categories.
pub open spec fn flavor_variables_bindings(
    relation_file_names: Seq<Seq<char>>,
    lookups: Seq<Seq<char>>,
    lookup_and_perm_file_names: Seq<Seq<char>>,
    inverses: Seq<Seq<char>>,
    fixed: Seq<Seq<char>>,
    witness: Seq<Seq<char>>,
    all_cols: Seq<Seq<char>>,
    to_be_shifted: Seq<Seq<char>>,
    shifted: Seq<Seq<char>>,
    all_cols_and_shifts: Seq<Seq<char>>,
    witness_without_inverses: Seq<Seq<char>>,
) -> Map<Seq<char>, Seq<Seq<char>>> {
    Map::empty().insert("relation_file_names"@, relation_file_names).insert(
        "lookups"@,
        lookups,
    ).insert("lookup_and_perm_file_names"@, lookup_and_perm_file_names).insert(
        "inverses"@,
        inverses,
    ).insert("fixed"@, fixed).insert("witness"@, witness).insert("all_cols"@, all_cols).insert(
        "to_be_shifted"@,
        to_be_shifted,
    ).insert("shifted"@, shifted).insert("all_cols_and_shifts"@, all_cols_and_shifts).insert(
        "witness_without_inverses"@,
        witness_without_inverses,
    )
}

/// The bindings of the columns context: as the flavor-variables context, but
/// without the two file-name categories.
pub open spec fn columns_bindings(
    lookups: Seq<Seq<char>>,
    inverses: Seq<Seq<char>>,
    fixed: Seq<Seq<char>>,
    witness: Seq<Seq<char>>,
    all_cols: Seq<Seq<char>>,
    to_be_shifted: Seq<Seq<char>>,
    shifted: Seq<Seq<char>>,
    all_cols_and_shifts: Seq<Seq<char>>,
    witness_without_inverses: Seq<Seq<char>>,
) -> Map<Seq<char>, Seq<Seq<char>>> {
    Map::empty().insert("lookups"@, lookups).insert("inverses"@, inverses).insert(
        "fixed"@,
        fixed,
    ).insert("witness"@, witness).insert("all_cols"@, all_cols).insert(
        "to_be_shifted"@,
        to_be_shifted,
    ).insert("shifted"@, shifted).insert("all_cols_and_shifts"@, all_cols_and_shifts).insert(
        "witness_without_inverses"@,
        witness_without_inverses,
    )
}

/// The structural invariants that the categories of one generation run must
/// satisfy for the generated layout to be meaningful.
pub open spec fn column_invariants_hold(
    fixed: Seq<Seq<char>>,
    witness: Seq<Seq<char>>,
    all_cols: Seq<Seq<char>>,
    to_be_shifted: Seq<Seq<char>>,
    shifted: Seq<Seq<char>>,
    all_cols_and_shifts: Seq<Seq<char>>,
) -> bool {
    &&& all_cols == fixed + witness
    &&& shifted.len() == to_be_shifted.len()
    &&& all_cols_and_shifts == all_cols + shifted
}

/// Copies a borrowed category into an owned sequence, identifier by
/// identifier, preserving order and duplicates.
fn to_vec_strings(xs: &[String]) -> (out: Vec<String>)
    ensures
        out.deep_view() == xs.deep_view(),
{
    let mut out: Vec<String> = Vec::new();
    let mut i: usize = 0;
    proof {
        assert(out.deep_view() =~= xs.deep_view().take(0));
    }
    while i < xs.len()
        invariant
            i <= xs.len(),
            out.deep_view() == xs.deep_view().take(i as int),
        decreases xs.len() - i,
    {
        let ghost pre = out.deep_view();
        let ghost pre_v = out@;
        let s: String = xs[i].clone();
        out.push(s);
        proof {
            assert(s@ == xs.deep_view()[i as int]);
            assert(out@ == pre_v.push(s));
            assert forall|k: int| 0 <= k < pre.len() implies out.deep_view()[k] == pre[k] by {
                assert(out@[k] == pre_v[k]);
            }
            assert(out.deep_view() =~= pre.push(s@));
            assert(out.deep_view() =~= xs.deep_view().take(i as int + 1));
        }
        i = i + 1;
    }
    proof {
        assert(xs.deep_view().take(xs@.len() as int) =~= xs.deep_view());
    }
    out
}

/// Appends one category entry and tracks what it does to the entries' map.
fn push_category(lists: &mut Vec<(String, Vec<String>)>, key: &str, values: &[String])
    ensures
        final(lists)@.len() == old(lists)@.len() + 1,
        lists_model(final(lists)@) == lists_model(old(lists)@).insert(key@, values.deep_view()),
{
    lists.push((key.to_owned(), to_vec_strings(values)));
    proof {
        assert(lists@.drop_last() =~= old(lists)@);
        assert(lists_model(lists@) == lists_model(lists@.drop_last()).insert(
            lists@.last().0@,
            lists@.last().1.deep_view(),
        ));
    }
}

/// Assembles the context of the flavor-variables artifact: every category
/// carried unmodified under its declared name, plus the flavor name.
pub fn flavor_variables_context(
    name: &str,
    relation_file_names: &[String],
    inverses: &[String],
    lookups: &[String],
    lookup_and_perm_file_names: &[String],
    fixed: &[String],
    witness: &[String],
    witness_without_inverses: &[String],
    all_cols: &[String],
    to_be_shifted: &[String],
    shifted: &[String],
    all_cols_and_shifts: &[String],
) -> (c: TemplateContext)
    ensures
        c.name@ == name@,
        lists_model(c.lists@) == flavor_variables_bindings(
            relation_file_names.deep_view(),
            lookups.deep_view(),
            lookup_and_perm_file_names.deep_view(),
            inverses.deep_view(),
            fixed.deep_view(),
            witness.deep_view(),
            all_cols.deep_view(),
            to_be_shifted.deep_view(),
            shifted.deep_view(),
            all_cols_and_shifts.deep_view(),
            witness_without_inverses.deep_view(),
        ),
{
    let mut lists: Vec<(String, Vec<String>)> = Vec::new();
    push_category(&mut lists, "relation_file_names", relation_file_names);
    push_category(&mut lists, "lookups", lookups);
    push_category(&mut lists, "lookup_and_perm_file_names", lookup_and_perm_file_names);
    push_category(&mut lists, "inverses", inverses);
    push_category(&mut lists, "fixed", fixed);
    push_category(&mut lists, "witness", witness);
    push_category(&mut lists, "all_cols", all_cols);
    push_category(&mut lists, "to_be_shifted", to_be_shifted);
    push_category(&mut lists, "shifted", shifted);
    push_category(&mut lists, "all_cols_and_shifts", all_cols_and_shifts);
    push_category(&mut lists, "witness_without_inverses", witness_without_inverses);
    TemplateContext { name: name.to_owned(), lists }
}

/// Assembles the context of the columns artifact: as the flavor-variables
/// context, but without the two file-name categories.
pub fn columns_context(
    name: &str,
    lookups: &[String],
    inverses: &[String],
    fixed: &[String],
    witness: &[String],
    witness_without_inverses: &[String],
    all_cols: &[String],
    to_be_shifted: &[String],
    shifted: &[String],
    all_cols_and_shifts: &[String],
) -> (c: TemplateContext)
    ensures
        c.name@ == name@,
        lists_model(c.lists@) == columns_bindings(
            lookups.deep_view(),
            inverses.deep_view(),
            fixed.deep_view(),
            witness.deep_view(),
            all_cols.deep_view(),
            to_be_shifted.deep_view(),
            shifted.deep_view(),
            all_cols_and_shifts.deep_view(),
            witness_without_inverses.deep_view(),
        ),
{
    let mut lists: Vec<(String, Vec<String>)> = Vec::new();
    push_category(&mut lists, "lookups", lookups);
    push_category(&mut lists, "inverses", inverses);
    push_category(&mut lists, "fixed", fixed);
    push_category(&mut lists, "witness", witness);
    push_category(&mut lists, "all_cols", all_cols);
    push_category(&mut lists, "to_be_shifted", to_be_shifted);
    push_category(&mut lists, "shifted", shifted);
    push_category(&mut lists, "all_cols_and_shifts", all_cols_and_shifts);
    push_category(&mut lists, "witness_without_inverses", witness_without_inverses);
    TemplateContext { name: name.to_owned(), lists }
}

/// Compares a category against the concatenation of two others, element by
/// element.
fn slices_concat_eq(a: &[String], b: &[String], c: &[String]) -> (r: bool)
    ensures
        r == (c.deep_view() == a.deep_view() + b.deep_view()),
{
    if b.len() > c.len() || a.len() != c.len() - b.len() {
        proof {
            assert(c.deep_view().len() == c@.len());
            assert(a.deep_view().len() == a@.len());
            assert(b.deep_view().len() == b@.len());
            assert(c.deep_view() != a.deep_view() + b.deep_view());
        }
        return false;
    }
    let mut i: usize = 0;
    while i < c.len()
        invariant
            i <= c@.len(),
            c@.len() == a@.len() + b@.len(),
            forall|k: int|
                0 <= k < i ==> c.deep_view()[k] == (a.deep_view() + b.deep_view())[k],
        decreases c@.len() - i,
    {
        let here = if i < a.len() {
            c[i] == a[i]
        } else {
            c[i] == b[i - a.len()]
        };
        if !here {
            proof {
                assert(c.deep_view()[i as int] != (a.deep_view() + b.deep_view())[i as int]);
            }
            return false;
        }
        i = i + 1;
    }
    proof {
        assert(c.deep_view() =~= a.deep_view() + b.deep_view());
    }
    true
}

/// Checks the structural category invariants: `all_cols` is exactly `fixed`
/// followed by `witness`, `shifted` pairs positionally with `to_be_shifted`,
/// and `all_cols_and_shifts` is exactly `all_cols` followed by `shifted`.
pub fn check_column_invariants(
    fixed: &[String],
    witness: &[String],
    all_cols: &[String],
    to_be_shifted: &[String],
    shifted: &[String],
    all_cols_and_shifts: &[String],
) -> (ok: bool)
    ensures
        ok == column_invariants_hold(
            fixed.deep_view(),
            witness.deep_view(),
            all_cols.deep_view(),
            to_be_shifted.deep_view(),
            shifted.deep_view(),
            all_cols_and_shifts.deep_view(),
        ),
{
    let r1 = slices_concat_eq(fixed, witness, all_cols);
    let r2 = shifted.len() == to_be_shifted.len();
    let r3 = slices_concat_eq(all_cols, shifted, all_cols_and_shifts);
    r1 && r2 && r3
}

} // verus!
