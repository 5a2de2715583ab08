use bb_pil_backend::context::TemplateContext;
use bb_pil_backend::errors::Error;
use bb_pil_backend::flavor_builder::FlavorBuilder;
use bb_pil_backend::flavor_builder::FlavorGenerator;
use bb_pil_backend::join::join;
use bb_pil_backend::render::Renderer;
use bb_pil_backend::render::TemplateId;

fn ids(xs: &[&str]) -> Vec<String> {
    xs.iter().map(|s| s.to_string()).collect()
}

fn renderer(flavor_variables_template: &str, columns_template: &str) -> Renderer {
    Renderer::new(flavor_variables_template.to_string(), columns_template.to_string()).unwrap()
}

fn toy_context() -> TemplateContext {
    TemplateContext {
        name: "Toy".to_string(),
        lists: vec![
            ("lookups".to_string(), ids(&[])),
            ("fixed".to_string(), ids(&["q_m", "q_c"])),
            ("witness".to_string(), ids(&["w_l", "w_r"])),
            ("all_cols".to_string(), ids(&["q_m", "q_c", "w_l", "w_r"])),
            ("to_be_shifted".to_string(), ids(&["x", "y"])),
            ("shifted".to_string(), ids(&["x_shift", "y_shift"])),
            (
                "all_cols_and_shifts".to_string(),
                ids(&["q_m", "q_c", "w_l", "w_r", "x_shift", "y_shift"]),
            ),
        ],
    }
}

struct ToyGenerator {
    generator: FlavorGenerator,
    name: String,
    relation_file_names: Vec<String>,
    lookup_and_perm_file_names: Vec<String>,
    lookups: Vec<String>,
    inverses: Vec<String>,
    fixed: Vec<String>,
    witness: Vec<String>,
    witness_without_inverses: Vec<String>,
    all_cols: Vec<String>,
    to_be_shifted: Vec<String>,
    shifted: Vec<String>,
    all_cols_and_shifts: Vec<String>,
}

fn toy_generator(flavor_variables_template: &str, columns_template: &str) -> ToyGenerator {
    ToyGenerator {
        generator: FlavorGenerator::new(renderer(flavor_variables_template, columns_template)),
        name: "Toy".to_string(),
        relation_file_names: ids(&["toy_rel"]),
        lookup_and_perm_file_names: ids(&["toy_lookup"]),
        lookups: ids(&["lk"]),
        inverses: ids(&["inv"]),
        fixed: ids(&["q_m", "q_c"]),
        witness: ids(&["w_l", "w_r"]),
        witness_without_inverses: ids(&["w_l", "w_r"]),
        all_cols: ids(&["q_m", "q_c", "w_l", "w_r"]),
        to_be_shifted: ids(&["x", "y"]),
        shifted: ids(&["x_shift", "y_shift"]),
        all_cols_and_shifts: ids(&["q_m", "q_c", "w_l", "w_r", "x_shift", "y_shift"]),
    }
}

fn run_flavor_variables(t: &mut ToyGenerator) -> Result<(), Error> {
    t.generator.create_flavor_variables_hpp(
        &t.name,
        &t.relation_file_names,
        &t.inverses,
        &t.lookups,
        &t.lookup_and_perm_file_names,
        &t.fixed,
        &t.witness,
        &t.witness_without_inverses,
        &t.all_cols,
        &t.to_be_shifted,
        &t.shifted,
        &t.all_cols_and_shifts,
    )
}

fn run_columns(t: &mut ToyGenerator) -> Result<(), Error> {
    t.generator.create_columns_hpp(
        &t.name,
        &t.lookups,
        &t.inverses,
        &t.fixed,
        &t.witness,
        &t.witness_without_inverses,
        &t.all_cols,
        &t.to_be_shifted,
        &t.shifted,
        &t.all_cols_and_shifts,
    )
}

#[test]
fn join_concatenates_in_order() {
    let a = ids(&["a", "b"]);
    let b = ids(&[]);
    let c = ids(&["c"]);
    let out = join(&[a, b, c]);
    assert_eq!(out, ids(&["a", "b", "c"]));
}

#[test]
fn join_of_nothing_is_empty() {
    let out = join(&[]);
    assert_eq!(out, ids(&[]));
}

#[test]
fn join_keeps_duplicates() {
    let out = join(&[ids(&["x"]), ids(&["x", "x"])]);
    assert_eq!(out, ids(&["x", "x", "x"]));
}

#[test]
fn render_substitutes_name_verbatim() {
    let r = renderer("name: {{name}}", "unused");
    let out = r.render(TemplateId::FlavorVariables, &toy_context()).unwrap();
    assert_eq!(out, "name: Toy");
}

#[test]
fn render_is_deterministic() {
    let r = renderer("{{name}}: {{#each all_cols}}{{this}},{{/each}}", "unused");
    let context = toy_context();
    let first = r.render(TemplateId::FlavorVariables, &context).unwrap();
    let second = r.render(TemplateId::FlavorVariables, &context).unwrap();
    assert_eq!(first, second);
}

#[test]
fn all_cols_renders_fixed_then_witness() {
    let r = renderer("{{#each all_cols}}{{this}},{{/each}}", "unused");
    let out = r.render(TemplateId::FlavorVariables, &toy_context()).unwrap();
    assert_eq!(out, "q_m,q_c,w_l,w_r,");
}

#[test]
fn all_cols_and_shifts_renders_all_cols_then_shifted() {
    let r = renderer("{{#each all_cols_and_shifts}}{{this}},{{/each}}", "unused");
    let out = r.render(TemplateId::FlavorVariables, &toy_context()).unwrap();
    assert_eq!(out, "q_m,q_c,w_l,w_r,x_shift,y_shift,");
}

#[test]
fn shift_pairing_is_positional() {
    let r = renderer(
        "{{#each to_be_shifted}}{{this}}:{{lookup ../shifted @index}};{{/each}}",
        "unused",
    );
    let out = r.render(TemplateId::FlavorVariables, &toy_context()).unwrap();
    assert_eq!(out, "x:x_shift;y:y_shift;");
}

#[test]
fn join_inside_template_concatenates() {
    let r = renderer("{{#each (join fixed witness)}}{{this}},{{/each}}", "unused");
    let out = r.render(TemplateId::FlavorVariables, &toy_context()).unwrap();
    assert_eq!(out, "q_m,q_c,w_l,w_r,");
}

#[test]
fn join_in_template_skips_empty_sequences() {
    let r = renderer("{{#each (join lookups fixed lookups)}}{{this}},{{/each}}", "unused");
    let out = r.render(TemplateId::FlavorVariables, &toy_context()).unwrap();
    assert_eq!(out, "q_m,q_c,");
}

#[test]
fn join_rejects_non_sequence_argument() {
    let r = renderer("{{#each (join name fixed)}}{{this}},{{/each}}", "unused");
    let out = r.render(TemplateId::FlavorVariables, &toy_context());
    assert_eq!(out, Err(Error::TemplateBindingError));
}

#[test]
fn missing_lookups_binding_fails() {
    let r = renderer("{{#each lookups}}{{this}}{{/each}}", "unused");
    let mut context = toy_context();
    context.lists.retain(|entry| entry.0 != "lookups");
    let out = r.render(TemplateId::FlavorVariables, &context);
    assert_eq!(out, Err(Error::MissingBinding));
}

#[test]
fn missing_name_binding_fails() {
    let r = renderer("{{missing_thing}}", "unused");
    let out = r.render(TemplateId::FlavorVariables, &toy_context());
    assert_eq!(out, Err(Error::MissingBinding));
}

#[test]
fn malformed_template_rejected_at_construction() {
    let r = Renderer::new("{{#each".to_string(), "fine".to_string());
    assert!(matches!(r, Err(Error::TemplateSyntaxError)));
}

#[test]
fn malformed_template_render_fails() {
    let r = Renderer {
        flavor_variables_template: "{{#each".to_string(),
        columns_template: "fine".to_string(),
    };
    let out = r.render(TemplateId::FlavorVariables, &toy_context());
    assert_eq!(out, Err(Error::TemplateSyntaxError));
}

#[test]
fn flavor_variables_artifact_for_toy() {
    let mut t = toy_generator(
        "class {{name}}Flavor;{{#each fixed}} {{this}};{{/each}}",
        "unused",
    );
    run_flavor_variables(&mut t).unwrap();
    assert_eq!(t.generator.artifacts.len(), 1);
    assert_eq!(t.generator.artifacts[0].0, "flavor_variables.hpp");
    assert_eq!(t.generator.artifacts[0].1, "class ToyFlavor; q_m; q_c;");
}

#[test]
fn generator_produces_both_artifacts() {
    let mut t = toy_generator(
        "{{name}}: {{#each relation_file_names}}{{this}} {{/each}}",
        "{{name}}: {{#each all_cols}}{{this}} {{/each}}",
    );
    run_flavor_variables(&mut t).unwrap();
    run_columns(&mut t).unwrap();
    assert_eq!(t.generator.artifacts.len(), 2);
    assert_eq!(t.generator.artifacts[0].0, "flavor_variables.hpp");
    assert_eq!(t.generator.artifacts[0].1, "Toy: toy_rel ");
    assert_eq!(t.generator.artifacts[1].0, "columns.hpp");
    assert_eq!(t.generator.artifacts[1].1, "Toy: q_m q_c w_l w_r ");
}

#[test]
fn invariant_violation_appends_nothing() {
    let mut t = toy_generator("{{name}}", "{{name}}");
    t.all_cols = ids(&["q_m", "w_l"]);
    assert_eq!(run_flavor_variables(&mut t), Err(Error::InvariantViolation));
    assert_eq!(run_columns(&mut t), Err(Error::InvariantViolation));
    assert_eq!(t.generator.artifacts.len(), 0);
}

#[test]
fn mispaired_shifted_lengths_are_rejected() {
    let mut t = toy_generator("{{name}}", "{{name}}");
    t.shifted = ids(&["x_shift"]);
    t.all_cols_and_shifts = ids(&["q_m", "q_c", "w_l", "w_r", "x_shift"]);
    assert_eq!(run_flavor_variables(&mut t), Err(Error::InvariantViolation));
}

#[test]
fn failed_generation_appends_nothing() {
    let mut t = toy_generator("{{name}}", "{{#each nonexistent_category}}{{this}}{{/each}}");
    run_flavor_variables(&mut t).unwrap();
    assert_eq!(run_columns(&mut t), Err(Error::MissingBinding));
    assert_eq!(t.generator.artifacts.len(), 1);
    assert_eq!(t.generator.artifacts[0].0, "flavor_variables.hpp");
}
