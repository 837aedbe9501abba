use slint_showcase_lib::data::capability_demo::Difficulty;
use slint_showcase_lib::data::code_example::CodeExample;
use slint_showcase_lib::data::keyboard::KeyboardShortcut;
use slint_showcase_lib::data::performance_metric::MetricType;
use slint_showcase_lib::data::responsive::ResponsiveBreakpoint;

#[test]
fn test_shortcut_all_returns_multiple() {
    let shortcuts = KeyboardShortcut::all();
    assert!(shortcuts.len() >= 5);
}

#[test]
fn test_shortcut_find() {
    let escape = KeyboardShortcut::find("escape");
    assert!(escape.is_some());
    assert_eq!(escape.unwrap().key, "Escape");
}

#[test]
fn test_shortcut_to_string_no_modifiers() {
    let shortcut = KeyboardShortcut::new("test", "A", "Test");
    assert_eq!(shortcut.to_string(), "A");
}

#[test]
fn test_shortcut_to_string_with_modifiers() {
    let shortcut = KeyboardShortcut::new("test", "S", "Test")
        .with_modifiers(vec!["ctrl".to_string(), "shift".to_string()]);
    assert_eq!(shortcut.to_string(), "ctrl+shift+S");
}

#[test]
fn test_breakpoint_all_returns_multiple() {
    let breakpoints = ResponsiveBreakpoint::all();
    assert!(breakpoints.len() >= 3);
}

#[test]
fn test_breakpoint_find() {
    let mobile = ResponsiveBreakpoint::find("mobile");
    assert!(mobile.is_some());
    assert_eq!(mobile.unwrap().name, "mobile");
}

#[test]
fn test_breakpoint_for_width() {
    let bp = ResponsiveBreakpoint::for_width(400);
    assert!(bp.is_some());
    assert_eq!(bp.unwrap().name, "mobile");
}

#[test]
fn test_example_new() {
    let example = CodeExample::new("test", "Test", "Description", "code", "output");

    assert_eq!(example.id, "test");
    assert_eq!(example.difficulty, Difficulty::Beginner);
}

#[test]
fn test_example_with_hints() {
    let example = CodeExample::new("test", "Test", "Desc", "code", "output")
        .with_hints(vec!["hint1".to_string()]);

    assert!(example.hints.is_some());
    assert_eq!(example.hints.unwrap().len(), 1);
}

#[test]
fn test_metric_type_display() {
    assert_eq!(MetricType::StartupTime.to_string(), "Startup Time");
    assert_eq!(MetricType::FrameRate.to_string(), "Frame Rate");
    assert_eq!(MetricType::MemoryUsage.to_string(), "Memory Usage");
    assert_eq!(MetricType::BundleSize.to_string(), "Bundle Size");
}

#[test]
fn test_metric_type_values() {
    let startup = MetricType::StartupTime;
    let fps = MetricType::FrameRate;
    let memory = MetricType::MemoryUsage;
    let bundle = MetricType::BundleSize;

    assert_ne!(startup, fps);
    assert_ne!(fps, memory);
    assert_ne!(memory, bundle);
}

#[test]
fn test_metric_type_display_names() {
    assert_eq!(MetricType::StartupTime.to_string(), "Startup Time");
    assert_eq!(MetricType::FrameRate.to_string(), "Frame Rate");
    assert_eq!(MetricType::MemoryUsage.to_string(), "Memory Usage");
    assert_eq!(MetricType::BundleSize.to_string(), "Bundle Size");
}
