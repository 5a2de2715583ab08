use vstd::prelude::*;

use crate::context::TemplateContext;
use crate::context::lists_model;
use crate::errors::Error;
use crate::json_data::obj_insert_list;
use crate::json_data::obj_insert_text;
use crate::json_data::obj_lists;
use crate::json_data::obj_new;
use crate::json_data::obj_strings;
use crate::json_data::obj_wf;

verus! {

/// Whether the template engine accepts the template text. A function of the
/// text alone: the engine's parser is deterministic.
pub uninterp spec fn template_well_formed(template: Seq<char>) -> bool;

/// Whether expanding the template against the given bindings succeeds.
pub uninterp spec fn expansion_ok(
    template: Seq<char>,
    strings: Map<Seq<char>, Seq<char>>,
    lists: Map<Seq<char>, Seq<Seq<char>>>,
) -> bool;

/// The text that a successful expansion of the template against the given
/// bindings produces.
pub uninterp spec fn expansion_text(
    template: Seq<char>,
    strings: Map<Seq<char>, Seq<char>>,
    lists: Map<Seq<char>, Seq<Seq<char>>>,
) -> Seq<char>;

/// Whether an expansion of the template against the given bindings fails
/// because the template refers to a binding the context does not hold.
pub uninterp spec fn expansion_missing(
    template: Seq<char>,
    strings: Map<Seq<char>, Seq<char>>,
    lists: Map<Seq<char>, Seq<Seq<char>>>,
) -> bool;

/// How a failed expansion is classified: a template that does not parse is a
/// TemplateSyntaxError; otherwise a reference to an absent binding is a
/// MissingBinding; every other failure (such as a non-sequence argument
/// handed to the join operator) is a TemplateBindingError.
pub open spec fn expansion_err(
    template: Seq<char>,
    strings: Map<Seq<char>, Seq<char>>,
    lists: Map<Seq<char>, Seq<Seq<char>>>,
    e: Error,
) -> bool {
    &&& (e is TemplateSyntaxError <==> !template_well_formed(template))
    &&& (template_well_formed(template) ==> (e is MissingBinding <==> expansion_missing(
        template,
        strings,
        lists,
    )))
    &&& !(e is InvariantViolation)
}

/// Everything one expansion outcome satisfies. Success, the produced text
/// and the failure class are each a function of the template text and the
/// bindings alone, so rendering is pure and deterministic, and a failed
/// expansion produces no text at all.
pub open spec fn expansion_post(
    template: Seq<char>,
    strings: Map<Seq<char>, Seq<char>>,
    lists: Map<Seq<char>, Seq<Seq<char>>>,
    r: Result<String, Error>,
) -> bool {
    &&& (r is Ok <==> expansion_ok(template, strings, lists))
    &&& (r matches Ok(text) ==> text@ == expansion_text(template, strings, lists))
    &&& (r matches Err(e) ==> expansion_err(template, strings, lists, e))
}

/// Relies on handlebars::Handlebars::register_template_string on a fresh
/// engine: it accepts the text if and only if the text parses, a property of
/// the text alone.
#[verifier::external_body]
fn template_syntax_ok(template: &str) -> (ok: bool)
    ensures
        ok == template_well_formed(template@),
{
    handlebars::Handlebars::new().register_template_string("t", template).is_ok()
}

/// Relies on handlebars::Handlebars::render_template, run in strict mode on
/// a fresh engine that carries one script-defined helper, `join`, which
/// concatenates its sequence arguments in argument order and rejects any
/// non-sequence argument. The outcome is a function of the template text
/// and the data object's entries: a parse failure is reported through
/// TemplateError, a reference to an absent binding through MissingVariable,
/// and every other failure keeps its own reason; the error reasons are
/// mapped to this library's error kinds one class each.
#[verifier::external_body]
fn expand_template(template: &str, data: &serde_json::Map<String, serde_json::Value>) -> (r: Result<
    String,
    Error,
>)
    requires
        obj_wf(*data),
    ensures
        r is Ok <==> expansion_ok(template@, obj_strings(*data), obj_lists(*data)),
        r matches Ok(text) ==> text@ == expansion_text(template@, obj_strings(*data), obj_lists(*data)),
        r matches Err(e) ==> (e is TemplateSyntaxError <==> !template_well_formed(template@)),
        r matches Err(e) ==> (template_well_formed(template@) ==> (e is MissingBinding
            <==> expansion_missing(template@, obj_strings(*data), obj_lists(*data)))),
        r matches Err(e) ==> !(e is InvariantViolation),
{
    let mut engine = handlebars::Handlebars::new();
    engine.set_strict_mode(true);
    let script =
        "let out = []; for p in params { if type_of(p) != \"array\" { throw \"join: sequence argument expected\"; } out += p; } out";
    if engine.register_script_helper("join", script).is_err() {
        return Err(Error::TemplateBindingError);
    }
    match engine.render_template(template, data) {
        Ok(text) => Ok(text),
        Err(e) => Err(match e.reason() {
            handlebars::RenderErrorReason::MissingVariable(_) => Error::MissingBinding,
            handlebars::RenderErrorReason::TemplateError(_) => Error::TemplateSyntaxError,
            _ => Error::TemplateBindingError,
        }),
    }
}

/// Selects one of the two artifacts' templates.
#[derive(Clone, Copy, Debug, PartialEq, Eq, Structural)]
pub enum TemplateId {
    FlavorVariables,
    Columns,
}

/// The template renderer: the two opaque template texts, loaded once and
/// syntax-checked at construction so that malformed templates surface
/// before the first generation call. The join operator is stateless and
/// available to every expansion.
pub struct Renderer {
    pub flavor_variables_template: String,
    pub columns_template: String,
}

/// Lowers a context into the engine's data object: every category in its
/// order, then the flavor name under "name", a later entry shadowing an
/// earlier one of the same key.
fn context_data(context: &TemplateContext) -> (m: serde_json::Map<String, serde_json::Value>)
    ensures
        obj_wf(m),
        obj_strings(m) == context.scalar_bindings(),
        obj_lists(m) == context.sequence_bindings(),
{
    let mut m = obj_new();
    let mut i: usize = 0;
    proof {
        assert(obj_lists(m) =~= lists_model(context.lists@.take(0)));
    }
    while i < context.lists.len()
        invariant
            i <= context.lists@.len(),
            obj_wf(m),
            obj_strings(m) == Map::<Seq<char>, Seq<char>>::empty(),
            obj_lists(m) == lists_model(context.lists@.take(i as int)),
        decreases context.lists@.len() - i,
    {
        let entry = &context.lists[i];
        let vals: &[String] = entry.1.as_slice();
        obj_insert_list(&mut m, entry.0.as_str(), vals);
        proof {
            assert(obj_strings(m) =~= Map::<Seq<char>, Seq<char>>::empty());
            assert(context.lists@.take(i as int + 1).drop_last() =~= context.lists@.take(i as int));
            assert(vals.deep_view() =~= context.lists@[i as int].1.deep_view());
            assert(obj_lists(m) =~= lists_model(context.lists@.take(i as int + 1)));
        }
        i = i + 1;
    }
    proof {
        assert(context.lists@.take(context.lists@.len() as int) =~= context.lists@);
    }
    obj_insert_text(&mut m, "name", context.name.as_str());
    m
}

impl Renderer {
    /// The text of the selected template.
    pub open spec fn template_view(self, id: TemplateId) -> Seq<char> {
        match id {
            TemplateId::FlavorVariables => self.flavor_variables_template@,
            TemplateId::Columns => self.columns_template@,
        }
    }

    /// Accepts the two template texts if and only if the engine accepts
    /// each of them; a rejected text is a TemplateSyntaxError.
    pub fn new(flavor_variables_template: String, columns_template: String) -> (r: Result<
        Renderer,
        Error,
    >)
        ensures
            r is Ok <==> template_well_formed(flavor_variables_template@)
                && template_well_formed(columns_template@),
            r matches Ok(renderer) ==> renderer.flavor_variables_template@
                == flavor_variables_template@ && renderer.columns_template@ == columns_template@,
            r matches Err(e) ==> e == Error::TemplateSyntaxError,
    {
        if !template_syntax_ok(flavor_variables_template.as_str()) {
            return Err(Error::TemplateSyntaxError);
        }
        if !template_syntax_ok(columns_template.as_str()) {
            return Err(Error::TemplateSyntaxError);
        }
        Ok(Renderer { flavor_variables_template, columns_template })
    }

    /// Expands the selected template against the context: substitution of
    /// the flavor name, iteration over each category in its stored order,
    /// and the join operator over named sequences. Pure and deterministic:
    /// the outcome is a function of the template text and the context
    /// alone, and a failed call produces no partial output.
    pub fn render(&self, id: TemplateId, context: &TemplateContext) -> (r: Result<String, Error>)
        ensures
            expansion_post(
                self.template_view(id),
                context.scalar_bindings(),
                context.sequence_bindings(),
                r,
            ),
    {
        let data = context_data(context);
        match id {
            TemplateId::FlavorVariables => expand_template(
                self.flavor_variables_template.as_str(),
                &data,
            ),
            TemplateId::Columns => expand_template(self.columns_template.as_str(), &data),
        }
    }
}

} // verus!
