//! The resolution engine against a snapshot task manager: the fast path for
//! resolved values, list fan-out, the divergence between the two resolution
//! operations, and every failure.

use turbo_tasks::erased::SharedAllocator;
use turbo_tasks::input::{CellContent, ConcreteTaskInput};
use turbo_tasks::manager::TaskManager;
use turbo_tasks::resolve::ResolveError;

#[test]
fn resolved_value_returns_unchanged_without_manager_calls() {
    // An empty manager cannot answer any read: the fast path must not ask.
    let tm = TaskManager::new();
    let value = ConcreteTaskInput::List(vec![
        ConcreteTaskInput::Usize(5),
        ConcreteTaskInput::String("x".to_string()),
        ConcreteTaskInput::TaskCell(3, 0),
    ]);
    let resolved = value.clone().resolve(&tm).unwrap();
    assert_eq!(resolved, value);
}

#[test]
fn resolution_is_idempotent() {
    let mut tm = TaskManager::new();
    tm.set_output(1, ConcreteTaskInput::String("x".to_string()));
    let value = ConcreteTaskInput::List(vec![
        ConcreteTaskInput::TaskOutput(1),
        ConcreteTaskInput::Usize(5),
    ]);
    let once = value.resolve(&tm).unwrap();
    let twice = once.clone().resolve(&tm).unwrap();
    assert_eq!(twice, once);
}

#[test]
fn list_resolution_replaces_output_references() {
    let mut tm = TaskManager::new();
    tm.set_output(1, ConcreteTaskInput::String("x".to_string()));
    let value = ConcreteTaskInput::List(vec![
        ConcreteTaskInput::TaskOutput(1),
        ConcreteTaskInput::Usize(5),
    ]);
    let resolved = value.resolve(&tm).unwrap();
    assert_eq!(
        resolved,
        ConcreteTaskInput::List(vec![
            ConcreteTaskInput::String("x".to_string()),
            ConcreteTaskInput::Usize(5),
        ])
    );
}

#[test]
fn nested_lists_resolve_recursively() {
    let mut tm = TaskManager::new();
    tm.set_output(1, ConcreteTaskInput::Bool(true));
    tm.set_output(2, ConcreteTaskInput::TaskOutput(1));
    let value = ConcreteTaskInput::List(vec![
        ConcreteTaskInput::List(vec![ConcreteTaskInput::TaskOutput(2)]),
        ConcreteTaskInput::Nothing,
    ]);
    let resolved = value.resolve(&tm).unwrap();
    assert_eq!(
        resolved,
        ConcreteTaskInput::List(vec![
            ConcreteTaskInput::List(vec![ConcreteTaskInput::Bool(true)]),
            ConcreteTaskInput::Nothing,
        ])
    );
}

#[test]
fn output_chains_are_followed() {
    let mut tm = TaskManager::new();
    tm.set_output(1, ConcreteTaskInput::TaskOutput(2));
    tm.set_output(2, ConcreteTaskInput::Bool(true));
    let resolved = ConcreteTaskInput::TaskOutput(1).resolve(&tm).unwrap();
    assert_eq!(resolved, ConcreteTaskInput::Bool(true));
}

#[test]
fn resolve_and_resolve_to_value_diverge_on_cell_references() {
    let mut alloc = SharedAllocator::new();
    let payload = alloc.allocate(9, vec![1, 2]);
    let committed = turbo_tasks::erased::SharedReference(Some(4), payload);

    let mut tm = TaskManager::new();
    tm.set_cell(3, 0, CellContent(Some(committed.clone())));

    // resolve() treats a cell reference as terminal.
    let left_alone = ConcreteTaskInput::TaskCell(3, 0).resolve(&tm).unwrap();
    assert_eq!(left_alone, ConcreteTaskInput::TaskCell(3, 0));

    // resolve_to_value() follows it to the committed content.
    let collapsed = ConcreteTaskInput::TaskCell(3, 0)
        .resolve_to_value(&tm)
        .unwrap();
    assert_eq!(collapsed, ConcreteTaskInput::SharedReference(committed));
}

#[test]
fn resolve_to_value_follows_output_then_cell() {
    let mut alloc = SharedAllocator::new();
    let payload = alloc.allocate(9, vec![7]);
    let committed = turbo_tasks::erased::SharedReference(None, payload);

    let mut tm = TaskManager::new();
    tm.set_output(1, ConcreteTaskInput::TaskCell(2, 0));
    tm.set_cell(2, 0, CellContent(Some(committed.clone())));

    let collapsed = ConcreteTaskInput::TaskOutput(1)
        .resolve_to_value(&tm)
        .unwrap();
    assert_eq!(collapsed, ConcreteTaskInput::SharedReference(committed));
}

#[test]
fn resolve_to_value_reads_empty_cells_as_nothing() {
    let mut tm = TaskManager::new();
    tm.set_cell(2, 1, CellContent(None));
    let collapsed = ConcreteTaskInput::TaskCell(2, 1)
        .resolve_to_value(&tm)
        .unwrap();
    assert_eq!(collapsed, ConcreteTaskInput::Nothing);
}

#[test]
fn resolve_to_value_does_not_recurse_into_lists() {
    let mut tm = TaskManager::new();
    tm.set_output(1, ConcreteTaskInput::Bool(true));
    let value = ConcreteTaskInput::List(vec![ConcreteTaskInput::TaskOutput(1)]);
    // The list is terminal for resolve_to_value, references inside and all.
    let unchanged = value.clone().resolve_to_value(&tm).unwrap();
    assert_eq!(unchanged, value);
}

#[test]
fn missing_task_output_fails() {
    let tm = TaskManager::new();
    let err = ConcreteTaskInput::TaskOutput(7).resolve(&tm).unwrap_err();
    assert_eq!(err, ResolveError::TaskNotFound(7));
    let err = ConcreteTaskInput::TaskOutput(7)
        .resolve_to_value(&tm)
        .unwrap_err();
    assert_eq!(err, ResolveError::TaskNotFound(7));
}

#[test]
fn missing_cell_fails_resolve_to_value_only() {
    let tm = TaskManager::new();
    let err = ConcreteTaskInput::TaskCell(3, 0)
        .resolve_to_value(&tm)
        .unwrap_err();
    assert_eq!(err, ResolveError::CellNotFound(3, 0));
    // resolve() never reads cells, so it cannot miss one.
    assert!(ConcreteTaskInput::TaskCell(3, 0).resolve(&tm).is_ok());
}

#[test]
fn cyclic_output_chains_fail() {
    let mut tm = TaskManager::new();
    tm.set_output(1, ConcreteTaskInput::TaskOutput(2));
    tm.set_output(2, ConcreteTaskInput::TaskOutput(1));
    let err = ConcreteTaskInput::TaskOutput(1).resolve(&tm).unwrap_err();
    assert_eq!(err, ResolveError::Cycle(1));
    let err = ConcreteTaskInput::TaskOutput(1)
        .resolve_to_value(&tm)
        .unwrap_err();
    assert_eq!(err, ResolveError::Cycle(1));
}

#[test]
fn first_failing_element_decides_the_error() {
    let mut tm = TaskManager::new();
    tm.set_output(1, ConcreteTaskInput::Bool(true));
    let value = ConcreteTaskInput::List(vec![
        ConcreteTaskInput::TaskOutput(1),
        ConcreteTaskInput::TaskOutput(8),
        ConcreteTaskInput::TaskOutput(9),
    ]);
    let err = value.resolve(&tm).unwrap_err();
    assert_eq!(err, ResolveError::TaskNotFound(8));
}

#[test]
fn sibling_elements_resolve_independently() {
    // Both elements reference the same task: one chain visiting it must not
    // poison the other.
    let mut tm = TaskManager::new();
    tm.set_output(1, ConcreteTaskInput::Usize(3));
    let value = ConcreteTaskInput::List(vec![
        ConcreteTaskInput::TaskOutput(1),
        ConcreteTaskInput::TaskOutput(1),
    ]);
    let resolved = value.resolve(&tm).unwrap();
    assert_eq!(
        resolved,
        ConcreteTaskInput::List(vec![
            ConcreteTaskInput::Usize(3),
            ConcreteTaskInput::Usize(3),
        ])
    );
}
