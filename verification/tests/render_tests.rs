use graph_rs::render::{render, TemplateViolation};

fn v(s: &str) -> Vec<u8> {
    s.as_bytes().to_vec()
}

fn no_vars() -> Vec<(Vec<u8>, Vec<u8>)> {
    Vec::new()
}

#[test]
fn render_positional_order() {
    let t = v("a/{{RID}}/b/{{id}}/c/{{id2}}");
    let rid = Some(v("42"));
    let pos = vec![v("7"), v("9")];
    let r = render(&t, &rid, &pos, &no_vars()).unwrap();
    assert_eq!(r, v("a/42/b/7/c/9"));
}

#[test]
fn render_is_deterministic() {
    let t = v("sites/{{RID}}/lists/{{id}}");
    let rid = Some(v("s1"));
    let pos = vec![v("l1")];
    let first = render(&t, &rid, &pos, &no_vars()).unwrap();
    let second = render(&t, &rid, &pos, &no_vars()).unwrap();
    assert_eq!(first, second);
    assert_eq!(first, v("sites/s1/lists/l1"));
}

#[test]
fn render_rid_unbound_is_violation() {
    let t = v("a/{{RID}}/b");
    let r = render(&t, &None, &Vec::new(), &no_vars());
    assert_eq!(r, Err(TemplateViolation::RidUnbound));
}

#[test]
fn render_named_variable() {
    let t = v("{{glp}}/x");
    let vars = vec![(v("glp"), v("groupLifecyclePolicies"))];
    let r = render(&t, &None, &Vec::new(), &vars).unwrap();
    assert_eq!(r, v("groupLifecyclePolicies/x"));
}

#[test]
fn render_unknown_variable() {
    let t = v("{{nope}}/x");
    let r = render(&t, &None, &Vec::new(), &no_vars());
    assert_eq!(r, Err(TemplateViolation::UnknownVariable));
}

#[test]
fn render_missing_positional() {
    let t = v("a/{{id}}");
    let r = render(&t, &None, &Vec::new(), &no_vars());
    assert_eq!(r, Err(TemplateViolation::MissingPositionalId));
}

#[test]
fn render_surplus_positional() {
    let t = v("a/b");
    let pos = vec![v("7")];
    let r = render(&t, &None, &pos, &no_vars());
    assert_eq!(r, Err(TemplateViolation::SurplusPositionalIds));
}

#[test]
fn render_unclosed_placeholder() {
    let t = v("a/{{id");
    let pos = vec![v("7")];
    let r = render(&t, &None, &pos, &no_vars());
    assert_eq!(r, Err(TemplateViolation::UnclosedPlaceholder));
}

#[test]
fn render_binding_beats_variable_named_rid() {
    let t = v("a/{{RID}}");
    let rid = Some(v("bound"));
    let vars = vec![(v("RID"), v("shadowed"))];
    let r = render(&t, &rid, &Vec::new(), &vars).unwrap();
    assert_eq!(r, v("a/bound"));
}

#[test]
fn render_positional_beats_variable_named_id() {
    let t = v("a/{{id}}");
    let pos = vec![v("7")];
    let vars = vec![(v("id"), v("shadowed"))];
    let r = render(&t, &None, &pos, &vars).unwrap();
    assert_eq!(r, v("a/7"));
}

#[test]
fn render_empty_template_consumes_nothing() {
    let r = render(&Vec::new(), &None, &Vec::new(), &no_vars()).unwrap();
    assert_eq!(r, Vec::<u8>::new());
}

#[test]
fn render_higher_positional_names() {
    let t = v("{{id}}/{{id2}}/{{id3}}");
    let pos = vec![v("x"), v("y"), v("z")];
    let r = render(&t, &None, &pos, &no_vars()).unwrap();
    assert_eq!(r, v("x/y/z"));
}
