use vstd::prelude::*;

use crate::context::column_invariants_hold;
use crate::context::columns_bindings;
use crate::context::flavor_variables_bindings;
use crate::errors::Error;
use crate::join::concat_all;
use crate::render::expansion_post;

verus! {

/// In a validated run the elements of `fixed` strictly precede those of
/// `witness` inside `all_cols`, and each category keeps its original order.
pub proof fn lemma_all_cols_orders_fixed_before_witness(
    fixed: Seq<Seq<char>>,
    witness: Seq<Seq<char>>,
    all_cols: Seq<Seq<char>>,
    to_be_shifted: Seq<Seq<char>>,
    shifted: Seq<Seq<char>>,
    all_cols_and_shifts: Seq<Seq<char>>,
)
    requires
        column_invariants_hold(fixed, witness, all_cols, to_be_shifted, shifted, all_cols_and_shifts),
    ensures
        all_cols.len() == fixed.len() + witness.len(),
        forall|i: int| 0 <= i < fixed.len() ==> all_cols[i] == fixed[i],
        forall|j: int| 0 <= j < witness.len() ==> all_cols[fixed.len() + j] == witness[j],
{
}

/// In a validated run `all_cols_and_shifts` is exactly `all_cols`
/// immediately followed by `shifted`, with no interleaving: it equals the
/// join of the two categories.
pub proof fn lemma_all_cols_and_shifts_is_join(
    fixed: Seq<Seq<char>>,
    witness: Seq<Seq<char>>,
    all_cols: Seq<Seq<char>>,
    to_be_shifted: Seq<Seq<char>>,
    shifted: Seq<Seq<char>>,
    all_cols_and_shifts: Seq<Seq<char>>,
)
    requires
        column_invariants_hold(fixed, witness, all_cols, to_be_shifted, shifted, all_cols_and_shifts),
    ensures
        all_cols_and_shifts.len() == all_cols.len() + shifted.len(),
        forall|i: int| 0 <= i < all_cols.len() ==> all_cols_and_shifts[i] == all_cols[i],
        forall|j: int| 0 <= j < shifted.len() ==> all_cols_and_shifts[all_cols.len() + j]
            == shifted[j],
        all_cols_and_shifts == concat_all(seq![all_cols, shifted]),
{
    reveal_with_fuel(concat_all, 3);
    assert(seq![all_cols, shifted].drop_last() =~= seq![all_cols]);
    assert(seq![all_cols].drop_last() =~= Seq::<Seq<Seq<char>>>::empty());
    assert(concat_all(seq![all_cols, shifted]) =~= all_cols + shifted);
}

/// The twelve binding keys are pairwise distinct texts.
pub proof fn lemma_binding_keys_distinct()
    ensures
        "name"@ != "relation_file_names"@,
        "name"@ != "lookups"@,
        "name"@ != "lookup_and_perm_file_names"@,
        "name"@ != "inverses"@,
        "name"@ != "fixed"@,
        "name"@ != "witness"@,
        "name"@ != "all_cols"@,
        "name"@ != "to_be_shifted"@,
        "name"@ != "shifted"@,
        "name"@ != "all_cols_and_shifts"@,
        "name"@ != "witness_without_inverses"@,
        "relation_file_names"@ != "lookups"@,
        "relation_file_names"@ != "lookup_and_perm_file_names"@,
        "relation_file_names"@ != "inverses"@,
        "relation_file_names"@ != "fixed"@,
        "relation_file_names"@ != "witness"@,
        "relation_file_names"@ != "all_cols"@,
        "relation_file_names"@ != "to_be_shifted"@,
        "relation_file_names"@ != "shifted"@,
        "relation_file_names"@ != "all_cols_and_shifts"@,
        "relation_file_names"@ != "witness_without_inverses"@,
        "lookups"@ != "lookup_and_perm_file_names"@,
        "lookups"@ != "inverses"@,
        "lookups"@ != "fixed"@,
        "lookups"@ != "witness"@,
        "lookups"@ != "all_cols"@,
        "lookups"@ != "to_be_shifted"@,
        "lookups"@ != "shifted"@,
        "lookups"@ != "all_cols_and_shifts"@,
        "lookups"@ != "witness_without_inverses"@,
        "lookup_and_perm_file_names"@ != "inverses"@,
        "lookup_and_perm_file_names"@ != "fixed"@,
        "lookup_and_perm_file_names"@ != "witness"@,
        "lookup_and_perm_file_names"@ != "all_cols"@,
        "lookup_and_perm_file_names"@ != "to_be_shifted"@,
        "lookup_and_perm_file_names"@ != "shifted"@,
        "lookup_and_perm_file_names"@ != "all_cols_and_shifts"@,
        "lookup_and_perm_file_names"@ != "witness_without_inverses"@,
        "inverses"@ != "fixed"@,
        "inverses"@ != "witness"@,
        "inverses"@ != "all_cols"@,
        "inverses"@ != "to_be_shifted"@,
        "inverses"@ != "shifted"@,
        "inverses"@ != "all_cols_and_shifts"@,
        "inverses"@ != "witness_without_inverses"@,
        "fixed"@ != "witness"@,
        "fixed"@ != "all_cols"@,
        "fixed"@ != "to_be_shifted"@,
        "fixed"@ != "shifted"@,
        "fixed"@ != "all_cols_and_shifts"@,
        "fixed"@ != "witness_without_inverses"@,
        "witness"@ != "all_cols"@,
        "witness"@ != "to_be_shifted"@,
        "witness"@ != "shifted"@,
        "witness"@ != "all_cols_and_shifts"@,
        "witness"@ != "witness_without_inverses"@,
        "all_cols"@ != "to_be_shifted"@,
        "all_cols"@ != "shifted"@,
        "all_cols"@ != "all_cols_and_shifts"@,
        "all_cols"@ != "witness_without_inverses"@,
        "to_be_shifted"@ != "shifted"@,
        "to_be_shifted"@ != "all_cols_and_shifts"@,
        "to_be_shifted"@ != "witness_without_inverses"@,
        "shifted"@ != "all_cols_and_shifts"@,
        "shifted"@ != "witness_without_inverses"@,
        "all_cols_and_shifts"@ != "witness_without_inverses"@,
{
    reveal_strlit("name");
    reveal_strlit("relation_file_names");
    reveal_strlit("lookups");
    reveal_strlit("lookup_and_perm_file_names");
    reveal_strlit("inverses");
    reveal_strlit("fixed");
    reveal_strlit("witness");
    reveal_strlit("all_cols");
    reveal_strlit("to_be_shifted");
    reveal_strlit("shifted");
    reveal_strlit("all_cols_and_shifts");
    reveal_strlit("witness_without_inverses");
    assert("name"@.len() == 4);
    assert("relation_file_names"@.len() == 19);
    assert("lookups"@.len() == 7);
    assert("lookup_and_perm_file_names"@.len() == 26);
    assert("inverses"@.len() == 8);
    assert("fixed"@.len() == 5);
    assert("witness"@.len() == 7);
    assert("all_cols"@.len() == 8);
    assert("to_be_shifted"@.len() == 13);
    assert("shifted"@.len() == 7);
    assert("all_cols_and_shifts"@.len() == 19);
    assert("witness_without_inverses"@.len() == 24);
    assert("lookups"@[0] != "witness"@[0]);
    assert("lookups"@[0] != "shifted"@[0]);
    assert("witness"@[0] != "shifted"@[0]);
    assert("inverses"@[0] != "all_cols"@[0]);
    assert("relation_file_names"@[0] != "all_cols_and_shifts"@[0]);
}

/// Each category reaches the flavor-variables bindings unmodified, under
/// its declared name, and the flavor name's later binding shadows no
/// category: no category is named "name".
pub proof fn lemma_flavor_variables_bindings_carry(
    relation_file_names: Seq<Seq<char>>,
    lookups: Seq<Seq<char>>,
    lookup_and_perm_file_names: Seq<Seq<char>>,
    inverses: Seq<Seq<char>>,
    fixed: Seq<Seq<char>>,
    witness: Seq<Seq<char>>,
    all_cols: Seq<Seq<char>>,
    to_be_shifted: Seq<Seq<char>>,
    shifted: Seq<Seq<char>>,
    all_cols_and_shifts: Seq<Seq<char>>,
    witness_without_inverses: Seq<Seq<char>>,
)
    ensures
        ({
            let b = flavor_variables_bindings(
                relation_file_names,
                lookups,
                lookup_and_perm_file_names,
                inverses,
                fixed,
                witness,
                all_cols,
                to_be_shifted,
                shifted,
                all_cols_and_shifts,
                witness_without_inverses,
            );
            &&& b.remove("name"@) == b
            &&& b["relation_file_names"@] == relation_file_names
            &&& b["lookups"@] == lookups
            &&& b["lookup_and_perm_file_names"@] == lookup_and_perm_file_names
            &&& b["inverses"@] == inverses
            &&& b["fixed"@] == fixed
            &&& b["witness"@] == witness
            &&& b["all_cols"@] == all_cols
            &&& b["to_be_shifted"@] == to_be_shifted
            &&& b["shifted"@] == shifted
            &&& b["all_cols_and_shifts"@] == all_cols_and_shifts
            &&& b["witness_without_inverses"@] == witness_without_inverses
        }),
{
    lemma_binding_keys_distinct();
    let b = flavor_variables_bindings(
        relation_file_names,
        lookups,
        lookup_and_perm_file_names,
        inverses,
        fixed,
        witness,
        all_cols,
        to_be_shifted,
        shifted,
        all_cols_and_shifts,
        witness_without_inverses,
    );
    assert(!b.dom().contains("name"@));
    assert(b.remove("name"@) =~= b);
}

/// Each category reaches the columns bindings unmodified, under its
/// declared name, and the flavor name's later binding shadows no category:
/// no category is named "name".
pub proof fn lemma_columns_bindings_carry(
    lookups: Seq<Seq<char>>,
    inverses: Seq<Seq<char>>,
    fixed: Seq<Seq<char>>,
    witness: Seq<Seq<char>>,
    all_cols: Seq<Seq<char>>,
    to_be_shifted: Seq<Seq<char>>,
    shifted: Seq<Seq<char>>,
    all_cols_and_shifts: Seq<Seq<char>>,
    witness_without_inverses: Seq<Seq<char>>,
)
    ensures
        ({
            let b = columns_bindings(
                lookups,
                inverses,
                fixed,
                witness,
                all_cols,
                to_be_shifted,
                shifted,
                all_cols_and_shifts,
                witness_without_inverses,
            );
            &&& b.remove("name"@) == b
            &&& b["lookups"@] == lookups
            &&& b["inverses"@] == inverses
            &&& b["fixed"@] == fixed
            &&& b["witness"@] == witness
            &&& b["all_cols"@] == all_cols
            &&& b["to_be_shifted"@] == to_be_shifted
            &&& b["shifted"@] == shifted
            &&& b["all_cols_and_shifts"@] == all_cols_and_shifts
            &&& b["witness_without_inverses"@] == witness_without_inverses
        }),
{
    lemma_binding_keys_distinct();
    let b = columns_bindings(
        lookups,
        inverses,
        fixed,
        witness,
        all_cols,
        to_be_shifted,
        shifted,
        all_cols_and_shifts,
        witness_without_inverses,
    );
    assert(!b.dom().contains("name"@));
    assert(b.remove("name"@) =~= b);
}

/// The generated declaration order pairs the categories positionally: under
/// both artifacts' bindings, the i-th shifted name stands beside the i-th
/// to-be-shifted column, and no other pairing.
pub proof fn lemma_shift_pairing_carried(
    relation_file_names: Seq<Seq<char>>,
    lookups: Seq<Seq<char>>,
    lookup_and_perm_file_names: Seq<Seq<char>>,
    inverses: Seq<Seq<char>>,
    fixed: Seq<Seq<char>>,
    witness: Seq<Seq<char>>,
    all_cols: Seq<Seq<char>>,
    to_be_shifted: Seq<Seq<char>>,
    shifted: Seq<Seq<char>>,
    all_cols_and_shifts: Seq<Seq<char>>,
    witness_without_inverses: Seq<Seq<char>>,
)
    requires
        to_be_shifted.len() == shifted.len(),
    ensures
        forall|i: int|
            0 <= i < to_be_shifted.len() ==> flavor_variables_bindings(
                relation_file_names,
                lookups,
                lookup_and_perm_file_names,
                inverses,
                fixed,
                witness,
                all_cols,
                to_be_shifted,
                shifted,
                all_cols_and_shifts,
                witness_without_inverses,
            )["to_be_shifted"@][i] == to_be_shifted[i] && flavor_variables_bindings(
                relation_file_names,
                lookups,
                lookup_and_perm_file_names,
                inverses,
                fixed,
                witness,
                all_cols,
                to_be_shifted,
                shifted,
                all_cols_and_shifts,
                witness_without_inverses,
            )["shifted"@][i] == shifted[i],
        forall|i: int|
            0 <= i < to_be_shifted.len() ==> columns_bindings(
                lookups,
                inverses,
                fixed,
                witness,
                all_cols,
                to_be_shifted,
                shifted,
                all_cols_and_shifts,
                witness_without_inverses,
            )["to_be_shifted"@][i] == to_be_shifted[i] && columns_bindings(
                lookups,
                inverses,
                fixed,
                witness,
                all_cols,
                to_be_shifted,
                shifted,
                all_cols_and_shifts,
                witness_without_inverses,
            )["shifted"@][i] == shifted[i],
{
    lemma_flavor_variables_bindings_carry(
        relation_file_names,
        lookups,
        lookup_and_perm_file_names,
        inverses,
        fixed,
        witness,
        all_cols,
        to_be_shifted,
        shifted,
        all_cols_and_shifts,
        witness_without_inverses,
    );
    lemma_columns_bindings_carry(
        lookups,
        inverses,
        fixed,
        witness,
        all_cols,
        to_be_shifted,
        shifted,
        all_cols_and_shifts,
        witness_without_inverses,
    );
}

/// Rendering is deterministic: two outcomes of expanding the same template
/// against the same bindings agree exactly — same success, byte-identical
/// text, and the same error kind.
pub proof fn lemma_expansion_deterministic(
    template: Seq<char>,
    strings: Map<Seq<char>, Seq<char>>,
    lists: Map<Seq<char>, Seq<Seq<char>>>,
    r1: Result<String, Error>,
    r2: Result<String, Error>,
)
    requires
        expansion_post(template, strings, lists, r1),
        expansion_post(template, strings, lists, r2),
    ensures
        r1 is Ok <==> r2 is Ok,
        r1 is Ok ==> r1->Ok_0@ == r2->Ok_0@,
        r1 is Err ==> r1->Err_0 == r2->Err_0,
{
    if let Err(a) = r1 {
        if let Err(b) = r2 {
            match a {
                Error::InvariantViolation => {
                    assert(false);
                },
                Error::MissingBinding => {
                    assert(b is MissingBinding);
                },
                Error::TemplateSyntaxError => {
                    assert(b is TemplateSyntaxError);
                },
                Error::TemplateBindingError => {
                    assert(b is TemplateBindingError);
                },
            }
        }
    }
}

} // verus!

