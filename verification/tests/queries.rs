//! Trait-membership and method queries on resolved values, the resolution
//! state of each variant, and the routing of the development server's
//! content sources.

use turbo_tasks::content_source::{RouterContentSource, StaticAssetsContentSource};
use turbo_tasks::erased::{SharedAllocator, SharedReference, SharedValue};
use turbo_tasks::input::{CellContent, ConcreteTaskInput};
use turbo_tasks::registry::{TraitDescriptor, TypeDescriptor, TypeRegistry};

fn registry_with_methods() -> TypeRegistry {
    let mut reg = TypeRegistry::new();
    reg.register_type(
        7,
        TypeDescriptor {
            global_name: "my_type".to_string(),
            type_tag: 11,
            has_serializer: false,
            has_deserializer: false,
            trait_methods: vec![((40, "run".to_string()), 100)],
            traits: vec![40, 41],
        },
    );
    reg.register_trait(
        40,
        TraitDescriptor {
            default_methods: vec![("fallback".to_string(), 200)],
        },
    );
    reg.register_trait(41, TraitDescriptor { default_methods: Vec::new() });
    reg
}

fn typed_value(alloc: &mut SharedAllocator) -> ConcreteTaskInput {
    let payload = alloc.allocate(11, vec![1]);
    ConcreteTaskInput::SharedValue(SharedValue(Some(7), payload))
}

#[test]
fn trait_methods_resolve_through_the_type_table() {
    let reg = registry_with_methods();
    let mut alloc = SharedAllocator::new();
    let value = typed_value(&mut alloc);
    assert_eq!(
        value.get_trait_method(&reg, 40, "run".to_string()),
        Ok(100)
    );
}

#[test]
fn trait_methods_fall_back_to_the_trait_defaults() {
    let reg = registry_with_methods();
    let mut alloc = SharedAllocator::new();
    let value = typed_value(&mut alloc);
    assert_eq!(
        value.get_trait_method(&reg, 40, "fallback".to_string()),
        Ok(200)
    );
}

#[test]
fn missing_methods_hand_the_name_back() {
    let reg = registry_with_methods();
    let mut alloc = SharedAllocator::new();
    let value = typed_value(&mut alloc);
    assert_eq!(
        value.get_trait_method(&reg, 40, "absent".to_string()),
        Err("absent".to_string())
    );
    // Values without a registered type never satisfy a lookup.
    let payload = alloc.allocate(11, vec![1]);
    let untyped = ConcreteTaskInput::SharedReference(SharedReference(None, payload));
    assert_eq!(
        untyped.get_trait_method(&reg, 40, "run".to_string()),
        Err("run".to_string())
    );
    assert_eq!(
        ConcreteTaskInput::Usize(1).get_trait_method(&reg, 40, "run".to_string()),
        Err("run".to_string())
    );
}

#[test]
fn trait_membership_follows_the_declared_set() {
    let reg = registry_with_methods();
    let mut alloc = SharedAllocator::new();
    let value = typed_value(&mut alloc);
    assert!(value.has_trait(&reg, 40));
    assert!(value.has_trait(&reg, 41));
    assert_eq!(value.traits(&reg), vec![40, 41]);

    let payload = alloc.allocate(11, vec![1]);
    let untyped = ConcreteTaskInput::SharedReference(SharedReference(None, payload));
    assert!(!untyped.has_trait(&reg, 40));
    assert_eq!(untyped.traits(&reg), Vec::<u32>::new());
    assert!(!ConcreteTaskInput::Bool(true).has_trait(&reg, 40));
}

#[test]
fn resolution_state_by_variant() {
    assert!(!ConcreteTaskInput::TaskOutput(1).is_resolved());
    assert!(ConcreteTaskInput::TaskCell(1, 0).is_resolved());
    assert!(ConcreteTaskInput::Usize(1).is_resolved());
    assert!(ConcreteTaskInput::Nothing.is_resolved());
    assert!(ConcreteTaskInput::List(vec![]).is_resolved());
    assert!(!ConcreteTaskInput::List(vec![
        ConcreteTaskInput::Usize(1),
        ConcreteTaskInput::TaskOutput(1),
    ])
    .is_resolved());
    assert!(ConcreteTaskInput::List(vec![ConcreteTaskInput::List(vec![])]).is_resolved());
}

#[test]
fn absence_and_task_ids() {
    assert!(ConcreteTaskInput::Nothing.is_nothing());
    assert!(!ConcreteTaskInput::Usize(0).is_nothing());
    assert_eq!(ConcreteTaskInput::TaskOutput(3).get_task_id(), Some(3));
    assert_eq!(ConcreteTaskInput::TaskCell(4, 1).get_task_id(), Some(4));
    assert_eq!(ConcreteTaskInput::Bool(true).get_task_id(), None);
}

#[test]
fn cell_contents_convert_to_terminal_values() {
    let mut alloc = SharedAllocator::new();
    let committed = SharedReference(Some(7), alloc.allocate(11, vec![1]));
    assert_eq!(
        ConcreteTaskInput::from_cell_content(CellContent(None)),
        ConcreteTaskInput::Nothing
    );
    assert_eq!(
        ConcreteTaskInput::from_cell_content(CellContent(Some(committed.clone()))),
        ConcreteTaskInput::SharedReference(committed)
    );
}

#[test]
fn router_picks_the_first_matching_route() {
    let router = RouterContentSource {
        routes: vec![
            ("/api/".to_string(), 1),
            ("/a".to_string(), 2),
        ],
        fallback: 9,
    };
    assert_eq!(router.get_source("/api/users"), (1, "users"));
    // "/api/" also starts with "/a", but the first match wins.
    assert_eq!(router.get_source("/about"), (2, "bout"));
    assert_eq!(router.get_source("/other"), (9, "/other"));
    assert_eq!(router.get_source(""), (9, ""));
}

#[test]
fn static_assets_prefix_is_normalized() {
    assert_eq!(StaticAssetsContentSource::new("assets".to_string(), 5).prefix, "assets/");
    assert_eq!(StaticAssetsContentSource::new("assets/".to_string(), 5).prefix, "assets/");
    assert_eq!(StaticAssetsContentSource::new("".to_string(), 5).prefix, "");
}

#[test]
fn static_assets_route_requests_below_the_prefix() {
    let source = StaticAssetsContentSource::new("static".to_string(), 5);
    assert_eq!(source.route_request("static/app.js"), Some("app.js"));
    assert_eq!(source.route_request("other/app.js"), None);
    assert_eq!(source.route_request(""), None);
}
