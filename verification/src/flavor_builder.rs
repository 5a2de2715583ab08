use vstd::prelude::*;

use crate::context::check_column_invariants;
use crate::context::column_invariants_hold;
use crate::context::columns_bindings;
use crate::context::columns_context;
use crate::context::flavor_variables_bindings;
use crate::context::flavor_variables_context;
use crate::context::name_binding;
use crate::errors::Error;
use crate::render::Renderer;
use crate::render::TemplateId;
use crate::render::expansion_err;
use crate::render::expansion_ok;
use crate::render::expansion_text;

verus! {

/// What one generation call guarantees. The categories are validated
/// first; a validated context is rendered against the call's template, and
/// the rendered text is appended to the run's artifacts under the call's
/// artifact name. A failed call appends nothing: there is no partial
/// output.
pub open spec fn generation_post(
    valid: bool,
    template: Seq<char>,
    artifact: Seq<char>,
    strings: Map<Seq<char>, Seq<char>>,
    lists: Map<Seq<char>, Seq<Seq<char>>>,
    arts_old: Seq<(Seq<char>, Seq<char>)>,
    arts_new: Seq<(Seq<char>, Seq<char>)>,
    r: Result<(), Error>,
) -> bool {
    if !valid {
        &&& r == Err::<(), Error>(Error::InvariantViolation)
        &&& arts_new == arts_old
    } else {
        &&& (r is Ok <==> expansion_ok(template, strings, lists))
        &&& (r is Ok ==> arts_new == arts_old.push(
            (artifact, expansion_text(template, strings, lists)),
        ))
        &&& (r matches Err(e) ==> arts_new == arts_old && expansion_err(
            template,
            strings,
            lists,
            e,
        ))
    }
}

/// Builds the generated headers of one flavor: a variable-declaration
/// artifact and a storage-layout artifact, rendered from the same category
/// data through two templates.
pub trait FlavorBuilder {
    /// The template text behind the flavor-variables artifact.
    spec fn flavor_variables_template_view(&self) -> Seq<char>;

    /// The template text behind the columns artifact.
    spec fn columns_template_view(&self) -> Seq<char>;

    /// The artifacts generated so far: artifact name, then content.
    spec fn artifacts_view(&self) -> Seq<(Seq<char>, Seq<char>)>;

    /// Renders the variable-declaration header of the flavor: the flavor
    /// name plus every category, the two file-name categories included,
    /// each carried verbatim under its declared name.
    fn create_flavor_variables_hpp(
        &mut self,
        name: &str,
        relation_file_names: &[String],
        inverses: &[String],
        lookups: &[String],
        lookup_and_perm_file_names: &[String],
        fixed: &[String],
        witness: &[String],
        witness_without_inverses: &[String],
        all_cols: &[String],
        to_be_shifted: &[String],
        shifted: &[String],
        all_cols_and_shifts: &[String],
    ) -> (r: Result<(), Error>)
        ensures
            final(self).flavor_variables_template_view() == old(
                self,
            ).flavor_variables_template_view(),
            final(self).columns_template_view() == old(self).columns_template_view(),
            generation_post(
                column_invariants_hold(
                    fixed.deep_view(),
                    witness.deep_view(),
                    all_cols.deep_view(),
                    to_be_shifted.deep_view(),
                    shifted.deep_view(),
                    all_cols_and_shifts.deep_view(),
                ),
                old(self).flavor_variables_template_view(),
                "flavor_variables.hpp"@,
                name_binding(name@),
                flavor_variables_bindings(
                    relation_file_names.deep_view(),
                    lookups.deep_view(),
                    lookup_and_perm_file_names.deep_view(),
                    inverses.deep_view(),
                    fixed.deep_view(),
                    witness.deep_view(),
                    all_cols.deep_view(),
                    to_be_shifted.deep_view(),
                    shifted.deep_view(),
                    all_cols_and_shifts.deep_view(),
                    witness_without_inverses.deep_view(),
                ).remove("name"@),
                old(self).artifacts_view(),
                final(self).artifacts_view(),
                r,
            ),
    ;

    /// Renders the storage-layout header of the flavor: the flavor name
    /// plus every category except the two file-name categories, each
    /// carried verbatim under its declared name.
    fn create_columns_hpp(
        &mut self,
        name: &str,
        lookups: &[String],
        inverses: &[String],
        fixed: &[String],
        witness: &[String],
        witness_without_inverses: &[String],
        all_cols: &[String],
        to_be_shifted: &[String],
        shifted: &[String],
        all_cols_and_shifts: &[String],
    ) -> (r: Result<(), Error>)
        ensures
            final(self).flavor_variables_template_view() == old(
                self,
            ).flavor_variables_template_view(),
            final(self).columns_template_view() == old(self).columns_template_view(),
            generation_post(
                column_invariants_hold(
                    fixed.deep_view(),
                    witness.deep_view(),
                    all_cols.deep_view(),
                    to_be_shifted.deep_view(),
                    shifted.deep_view(),
                    all_cols_and_shifts.deep_view(),
                ),
                old(self).columns_template_view(),
                "columns.hpp"@,
                name_binding(name@),
                columns_bindings(
                    lookups.deep_view(),
                    inverses.deep_view(),
                    fixed.deep_view(),
                    witness.deep_view(),
                    all_cols.deep_view(),
                    to_be_shifted.deep_view(),
                    shifted.deep_view(),
                    all_cols_and_shifts.deep_view(),
                    witness_without_inverses.deep_view(),
                ).remove("name"@),
                old(self).artifacts_view(),
                final(self).artifacts_view(),
                r,
            ),
    ;
}

/// Drives a generation run: renders each artifact and collects it under its
/// artifact name, for a surrounding driver to persist.
pub struct FlavorGenerator {
    pub renderer: Renderer,
    pub artifacts: Vec<(String, String)>,
}

impl FlavorGenerator {
    /// A generator around the given renderer, with no artifact yet.
    pub fn new(renderer: Renderer) -> (g: FlavorGenerator)
        ensures
            g.renderer == renderer,
            g.artifacts@.len() == 0,
    {
        FlavorGenerator { renderer, artifacts: Vec::new() }
    }
}

impl FlavorBuilder for FlavorGenerator {
    open spec fn flavor_variables_template_view(&self) -> Seq<char> {
        self.renderer.flavor_variables_template@
    }

    open spec fn columns_template_view(&self) -> Seq<char> {
        self.renderer.columns_template@
    }

    open spec fn artifacts_view(&self) -> Seq<(Seq<char>, Seq<char>)> {
        Seq::new(self.artifacts@.len(), |i: int| (self.artifacts@[i].0@, self.artifacts@[i].1@))
    }

    fn create_flavor_variables_hpp(
        &mut self,
        name: &str,
        relation_file_names: &[String],
        inverses: &[String],
        lookups: &[String],
        lookup_and_perm_file_names: &[String],
        fixed: &[String],
        witness: &[String],
        witness_without_inverses: &[String],
        all_cols: &[String],
        to_be_shifted: &[String],
        shifted: &[String],
        all_cols_and_shifts: &[String],
    ) -> (r: Result<(), Error>) {
        if !check_column_invariants(
            fixed,
            witness,
            all_cols,
            to_be_shifted,
            shifted,
            all_cols_and_shifts,
        ) {
            return Err(Error::InvariantViolation);
        }
        let context = flavor_variables_context(
            name,
            relation_file_names,
            inverses,
            lookups,
            lookup_and_perm_file_names,
            fixed,
            witness,
            witness_without_inverses,
            all_cols,
            to_be_shifted,
            shifted,
            all_cols_and_shifts,
        );
        match self.renderer.render(TemplateId::FlavorVariables, &context) {
            Ok(text) => {
                let ghost pre = self.artifacts_view();
                let ghost pre_v = self.artifacts@;
                let ghost text_view = text@;
                self.artifacts.push(("flavor_variables.hpp".to_owned(), text));
                proof {
                    assert(self.artifacts@ == pre_v.push(self.artifacts@.last()));
                    assert forall|k: int| 0 <= k < pre.len() implies self.artifacts_view()[k]
                        == pre[k] by {
                        assert(self.artifacts@[k] == pre_v[k]);
                    }
                    assert(self.artifacts_view() =~= pre.push(
                        ("flavor_variables.hpp"@, text_view),
                    ));
                }
                Ok(())
            },
            Err(e) => Err(e),
        }
    }

    fn create_columns_hpp(
        &mut self,
        name: &str,
        lookups: &[String],
        inverses: &[String],
        fixed: &[String],
        witness: &[String],
        witness_without_inverses: &[String],
        all_cols: &[String],
        to_be_shifted: &[String],
        shifted: &[String],
        all_cols_and_shifts: &[String],
    ) -> (r: Result<(), Error>) {
        if !check_column_invariants(
            fixed,
            witness,
            all_cols,
            to_be_shifted,
            shifted,
            all_cols_and_shifts,
        ) {
            return Err(Error::InvariantViolation);
        }
        let context = columns_context(
            name,
            lookups,
            inverses,
            fixed,
            witness,
            witness_without_inverses,
            all_cols,
            to_be_shifted,
            shifted,
            all_cols_and_shifts,
        );
        match self.renderer.render(TemplateId::Columns, &context) {
            Ok(text) => {
                let ghost pre = self.artifacts_view();
                let ghost pre_v = self.artifacts@;
                let ghost text_view = text@;
                self.artifacts.push(("columns.hpp".to_owned(), text));
                proof {
                    assert(self.artifacts@ == pre_v.push(self.artifacts@.last()));
                    assert forall|k: int| 0 <= k < pre.len() implies self.artifacts_view()[k]
                        == pre[k] by {
                        assert(self.artifacts@[k] == pre_v[k]);
                    }
                    assert(self.artifacts_view() =~= pre.push(("columns.hpp"@, text_view)));
                }
                Ok(())
            },
            Err(e) => Err(e),
        }
    }
}

} // verus!
