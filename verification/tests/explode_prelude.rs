use elephc::explode_prelude::{inject_if_used, TopLevelStmt, EXPLODE_PRELUDE_SRC};

fn stmt(rendered: &str, declares: Option<&str>, node: i32) -> TopLevelStmt<i32> {
    TopLevelStmt {
        declared_function: declares.map(|n| n.to_string()),
        rendered: rendered.to_string(),
        node,
    }
}

fn nodes(program: &[TopLevelStmt<i32>]) -> Vec<i32> {
    program.iter().map(|s| s.node).collect()
}

#[test]
fn prelude_source_defines_the_backing_function() {
    assert!(EXPLODE_PRELUDE_SRC.starts_with("<?php\n"));
    assert!(EXPLODE_PRELUDE_SRC.contains(
        "function __elephc_explode_limit(string $separator, string $string, int $limit): array {"
    ));
}

#[test]
fn prepends_prelude_when_explode_is_mentioned() {
    let program = vec![
        stmt("FunctionDecl { name: \"main\" }", Some("main"), 10),
        stmt("Expr(Call { name: \"explode\" })", None, 11),
    ];
    let out = inject_if_used(program, 1);
    assert_eq!(nodes(&out), vec![1, 10, 11]);
    assert_eq!(out[0].declared_function.as_deref(), Some("__elephc_explode_limit"));
    assert_eq!(out[0].rendered, EXPLODE_PRELUDE_SRC);
}

#[test]
fn leaves_program_without_explode_unchanged() {
    let out = inject_if_used(vec![stmt("Expr(Call { name: \"implode\" })", None, 10)], 1);
    assert_eq!(nodes(&out), vec![10]);
    let out = inject_if_used(Vec::new(), 1);
    assert!(out.is_empty());
}

#[test]
fn explode_split_across_a_boundary_is_not_a_mention() {
    let out = inject_if_used(vec![stmt("explod", None, 10), stmt("e", None, 11)], 1);
    assert_eq!(nodes(&out), vec![10, 11]);
    let out = inject_if_used(vec![stmt("EXPLODE", None, 10)], 1);
    assert_eq!(nodes(&out), vec![10]);
    let out = inject_if_used(vec![stmt("héllo explode", None, 10)], 1);
    assert_eq!(nodes(&out), vec![1, 10]);
}

#[test]
fn user_declaration_in_any_case_keeps_program() {
    let out = inject_if_used(vec![stmt("explode", Some("__elephc_explode_limit"), 10)], 1);
    assert_eq!(nodes(&out), vec![10]);
    let out = inject_if_used(
        vec![stmt("explode", Some("f"), 10), stmt("x", Some("__ELEPHC_Explode_LIMIT"), 11)],
        1,
    );
    assert_eq!(nodes(&out), vec![10, 11]);
    let out = inject_if_used(vec![stmt("explode", Some("__elephc_explode_limits"), 10)], 1);
    assert_eq!(nodes(&out), vec![1, 10]);
}
