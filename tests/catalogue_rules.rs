use slint_showcase_lib::data::capability_demo::{CapabilityDemo, DemoValidationError, Difficulty};
use slint_showcase_lib::data::category::{Category, CategoryValidationError};
use slint_showcase_lib::data::demos::{get_demo_registry, DemoRegistry};
use slint_showcase_lib::data::{
    find_category, find_demo, find_example, load_demos_by_category, KeyboardShortcut,
    ResponsiveBreakpoint,
};
use std::collections::HashMap;

#[test]
fn category_id_limit_counts_bytes() {
    assert!(Category::new(&"x".repeat(30), "N", "D", 1).validate().is_ok());
    // sixteen two-byte characters: 16 characters, 32 bytes
    let wide = "\u{e9}".repeat(16);
    assert!(matches!(
        Category::new(&wide, "N", "D", 1).validate(),
        Err(CategoryValidationError::IdTooLong)
    ));
}

#[test]
fn demo_limits_are_inclusive() {
    let d = CapabilityDemo::new(&"x".repeat(50), "T", &"y".repeat(500), "c", "f");
    assert!(d.validate().is_ok());
    let d = CapabilityDemo::new("", "", &"y".repeat(501), "c", "f");
    assert!(matches!(d.validate(), Err(DemoValidationError::EmptyId)));
    let d = CapabilityDemo::new("id", "", &"y".repeat(501), "c", "f");
    assert!(matches!(d.validate(), Err(DemoValidationError::EmptyTitle)));
}

#[test]
fn difficulty_default_and_parameters() {
    assert_eq!(Difficulty::default(), Difficulty::Beginner);
    let mut params = HashMap::new();
    params.insert("step".to_string(), "2".to_string());
    let d = CapabilityDemo::new("id", "T", "D", "c", "f").with_parameters(params.clone());
    assert_eq!(d.parameters, Some(params));
}

#[test]
fn demos_by_category_keep_order() {
    let ids: Vec<String> = load_demos_by_category("interactive").into_iter().map(|d| d.id).collect();
    assert_eq!(ids, vec!["counter", "button-states", "slider", "text-input", "checkbox"]);
    let perf = load_demos_by_category("performance");
    assert_eq!(perf.len(), 1);
    assert_eq!(perf[0].id, "animations");
}

#[test]
fn lookups_return_the_catalogue_entry() {
    let d = find_demo("keyboard-nav").unwrap();
    assert_eq!(d.title, "Keyboard Navigation");
    assert_eq!(d.estimated_time, 3);
    let c = find_category("accessibility").unwrap();
    assert_eq!(c.display_order, 4);
    assert_eq!(c.icon, Some("\u{267F}".to_string()));
    let e = find_example("property-binding").unwrap();
    assert_eq!(e.difficulty, Difficulty::Intermediate);
    assert_eq!(e.hints.unwrap().len(), 2);
    assert!(find_example("").is_none());
}

#[test]
fn breakpoint_for_width_edges() {
    assert_eq!(ResponsiveBreakpoint::for_width(480).unwrap().name, "mobile");
    assert_eq!(ResponsiveBreakpoint::for_width(481).unwrap().name, "tablet");
    assert_eq!(ResponsiveBreakpoint::for_width(-5).unwrap().name, "mobile");
    assert_eq!(ResponsiveBreakpoint::for_width(1600).unwrap().name, "wide");
    assert!(ResponsiveBreakpoint::for_width(1601).is_none());
    assert!(ResponsiveBreakpoint::find("watch").is_none());
}

#[test]
fn shortcut_text_with_one_modifier() {
    let next = KeyboardShortcut::find("next").unwrap();
    assert_eq!(next.to_string(), "shift+Tab");
    assert!(KeyboardShortcut::find("undo").is_none());
    let three = KeyboardShortcut::new("x", "K", "d")
        .with_modifiers(vec!["ctrl".to_string(), "alt".to_string(), "meta".to_string()]);
    assert_eq!(three.to_string(), "ctrl+alt+meta+K");
}

#[test]
fn registry_lists_demos_in_order() {
    let reg = DemoRegistry::new();
    assert_eq!(reg.len(), 5);
    assert!(!reg.is_empty());
    assert_eq!(reg.ids(), &["counter", "button-states", "text-input", "slider", "checkbox"]);
    let all: Vec<&str> = reg.all().iter().map(|e| e.id.as_str()).collect();
    assert_eq!(all, vec!["counter", "button-states", "text-input", "slider", "checkbox"]);
    assert_eq!(reg.get("slider").unwrap().component_name, "DemoSlider");
    assert!(reg.get("animations").is_none());
    assert_eq!(reg.by_category("interactive").len(), 5);
    assert!(reg.by_category("performance").is_empty());
    assert_eq!(get_demo_registry().get("text-input").unwrap().estimated_minutes, 5);
}
