use engine::Engine;

#[test]
fn engine_runs() {
    let e = Engine::new();
    let _line = e.status_line();
}

#[test]
fn new_carries_fixed_label() {
    let e = Engine::new();
    assert_eq!(e.name, "DreamDisk25 Engine (Rust)");
}

#[test]
fn status_line_of_new_engine() {
    let e = Engine::new();
    assert_eq!(e.status_line(), "DreamDisk25 Engine (Rust) running");
}

#[test]
fn status_line_repeats() {
    let e = Engine::new();
    let first = e.status_line();
    let second = e.status_line();
    assert_eq!(first, second);
    assert_eq!(e.name, "DreamDisk25 Engine (Rust)");
}

#[test]
fn status_line_appends_suffix_to_any_label() {
    let e = Engine { name: "x" };
    assert_eq!(e.status_line(), "x running");
    let empty = Engine { name: "" };
    assert_eq!(empty.status_line(), " running");
}
