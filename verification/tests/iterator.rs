use elephc::codegen::context::{ClassInfo, Context, InterfaceInfo};
use elephc::codegen::stmt::control_flow::foreach::iterator::{
    class_implements_interface, interface_extends_interface, iterator_dispatch_target,
    iterator_return_dispatch_target, IteratorDispatchTarget,
};
use elephc::types::PhpType;

fn strings(list: &[&str]) -> Vec<String> {
    list.iter().map(|s| s.to_string()).collect()
}

/// Interfaces: `Iterator`, `Seekable extends Iterator`, `Deep extends Seekable, Countable`,
/// and the cycle `A extends B`, `B extends A`. Classes: `ListIter implements Iterator`,
/// `Box implements Countable`.
fn context() -> Context {
    Context {
        classes: vec![
            ("ListIter".to_string(), ClassInfo { interfaces: strings(&["Iterator"]) }),
            ("Box".to_string(), ClassInfo { interfaces: strings(&["Countable"]) }),
        ],
        interfaces: vec![
            ("Iterator".to_string(), InterfaceInfo { parents: strings(&["Traversable"]) }),
            ("Seekable".to_string(), InterfaceInfo { parents: strings(&["Iterator"]) }),
            ("Deep".to_string(), InterfaceInfo { parents: strings(&["Countable", "Seekable"]) }),
            ("A".to_string(), InterfaceInfo { parents: strings(&["B"]) }),
            ("B".to_string(), InterfaceInfo { parents: strings(&["A"]) }),
            ("Countable".to_string(), InterfaceInfo { parents: strings(&[]) }),
        ],
    }
}

fn name_of(target: &IteratorDispatchTarget) -> (&'static str, String) {
    match target {
        IteratorDispatchTarget::Class(n) => ("class", n.clone()),
        IteratorDispatchTarget::Interface(n) => ("interface", n.clone()),
    }
}

#[test]
fn class_declares_only_its_listed_interfaces() {
    let ctx = context();
    assert!(class_implements_interface("ListIter", "Iterator", &ctx));
    assert!(!class_implements_interface("Box", "Iterator", &ctx));
    assert!(!class_implements_interface("Unknown", "Iterator", &ctx));
}

#[test]
fn interface_extension_is_reflexive_and_transitive() {
    let ctx = context();
    assert!(interface_extends_interface("Iterator", "Iterator", &ctx));
    assert!(interface_extends_interface("Seekable", "Iterator", &ctx));
    assert!(interface_extends_interface("Deep", "Iterator", &ctx));
    assert!(interface_extends_interface("Deep", "Traversable", &ctx));
    assert!(!interface_extends_interface("Iterator", "Seekable", &ctx));
    assert!(!interface_extends_interface("Countable", "Iterator", &ctx));
}

#[test]
fn cyclic_interfaces_terminate() {
    let ctx = context();
    assert!(interface_extends_interface("A", "B", &ctx));
    assert!(interface_extends_interface("B", "A", &ctx));
    assert!(!interface_extends_interface("A", "Iterator", &ctx));
}

#[test]
fn dispatch_target_prefers_interfaces() {
    let ctx = context();
    let t = iterator_dispatch_target("Seekable", &ctx);
    assert_eq!(name_of(&t), ("interface", "Seekable".to_string()));
    assert!(t.implements_iterator(&ctx));
    let t = iterator_dispatch_target("Box", &ctx);
    assert_eq!(name_of(&t), ("class", "Box".to_string()));
    assert!(!t.implements_iterator(&ctx));
    let t = iterator_dispatch_target("ListIter", &ctx);
    assert!(t.implements_iterator(&ctx));
}

#[test]
fn get_iterator_return_type_picks_the_next_target() {
    let ctx = context();
    let t = iterator_return_dispatch_target(&PhpType::Object("Deep".to_string()), &ctx);
    assert_eq!(name_of(&t), ("interface", "Deep".to_string()));
    let t = iterator_return_dispatch_target(&PhpType::Object("ListIter".to_string()), &ctx);
    assert_eq!(name_of(&t), ("class", "ListIter".to_string()));
    let t = iterator_return_dispatch_target(&PhpType::Mixed, &ctx);
    assert_eq!(name_of(&t), ("interface", "Iterator".to_string()));
}
