//! Capability demos: interactive demonstrations of one capability each.
use vstd::prelude::*;

use std::collections::HashMap;

use super::text::{byte_len, utf8_len};

verus! {

/// How demanding a demo or an example is.
#[derive(Debug, Clone, Copy, PartialEq, Eq, Structural)]
pub enum Difficulty {
    Beginner,
    Intermediate,
    Advanced,
}

impl Default for Difficulty {
    fn default() -> (r: Self)
        ensures
            r == Difficulty::Beginner,
    {
        Difficulty::Beginner
    }
}

/// An interactive demonstration of one capability.
#[derive(Debug, Clone, PartialEq)]
pub struct CapabilityDemo {
    /// Unique identifier (kebab-case)
    pub id: String,
    /// Display name
    pub title: String,
    /// Brief explanation of the demo
    pub description: String,
    /// Category reference
    pub category: String,
    /// Path to the demo's source file
    pub slint_file: String,
    /// Configurable demo parameters
    pub parameters: Option<HashMap<String, String>>,
    /// Difficulty level
    pub difficulty: Difficulty,
    /// Estimated time to complete (minutes)
    pub estimated_time: u32,
}

/// What a demo holds, as text.
pub struct DemoView {
    pub id: Seq<char>,
    pub title: Seq<char>,
    pub description: Seq<char>,
    pub category: Seq<char>,
    pub slint_file: Seq<char>,
    pub parameters: Option<HashMap<String, String>>,
    pub difficulty: Difficulty,
    pub estimated_time: u32,
}

impl View for CapabilityDemo {
    type V = DemoView;

    open spec fn view(&self) -> DemoView {
        DemoView {
            id: self.id@,
            title: self.title@,
            description: self.description@,
            category: self.category@,
            slint_file: self.slint_file@,
            parameters: self.parameters,
            difficulty: self.difficulty,
            estimated_time: self.estimated_time,
        }
    }
}

/// Minutes that a demo takes unless set otherwise.
pub const DEFAULT_ESTIMATED_TIME: u32 = 2;

/// Longest demo id, in bytes.
pub const MAX_DEMO_ID_LEN: usize = 50;

/// Longest demo description, in bytes.
pub const MAX_DEMO_DESCRIPTION_LEN: usize = 500;

/// A demo as `CapabilityDemo::new` makes it, with a difficulty and a time.
pub open spec fn demo_view(
    id: Seq<char>,
    title: Seq<char>,
    description: Seq<char>,
    category: Seq<char>,
    slint_file: Seq<char>,
    difficulty: Difficulty,
    estimated_time: u32,
) -> DemoView {
    DemoView {
        id,
        title,
        description,
        category,
        slint_file,
        parameters: None,
        difficulty,
        estimated_time,
    }
}

/// Why a demo is not well formed.
#[derive(Debug, Clone, Copy, PartialEq, Eq)]
pub enum DemoValidationError {
    EmptyId,
    IdTooLong,
    EmptyTitle,
    DescriptionTooLong,
}

/// The outcome of validating a demo: the first rule it breaks, in order.
pub open spec fn demo_check(d: DemoView) -> Result<(), DemoValidationError> {
    if d.id.len() == 0 {
        Err(DemoValidationError::EmptyId)
    } else if utf8_len(d.id) > MAX_DEMO_ID_LEN {
        Err(DemoValidationError::IdTooLong)
    } else if d.title.len() == 0 {
        Err(DemoValidationError::EmptyTitle)
    } else if utf8_len(d.description) > MAX_DEMO_DESCRIPTION_LEN {
        Err(DemoValidationError::DescriptionTooLong)
    } else {
        Ok(())
    }
}

impl CapabilityDemo {
    /// Creates a beginner demo of two minutes, without parameters.
    pub fn new(id: &str, title: &str, description: &str, category: &str, slint_file: &str) -> (r: Self)
        ensures
            r@ == demo_view(id@, title@, description@, category@, slint_file@, Difficulty::Beginner, DEFAULT_ESTIMATED_TIME),
    {
        CapabilityDemo {
            id: id.to_string(),
            title: title.to_string(),
            description: description.to_string(),
            category: category.to_string(),
            slint_file: slint_file.to_string(),
            parameters: None,
            difficulty: Difficulty::default(),
            estimated_time: DEFAULT_ESTIMATED_TIME,
        }
    }

    /// Checks the id, the title and the length of the description.
    pub fn validate(&self) -> (r: Result<(), DemoValidationError>)
        ensures
            r == demo_check(self@),
    {
        if self.id.as_str().is_empty() {
            Err(DemoValidationError::EmptyId)
        } else if byte_len(self.id.as_str()) > MAX_DEMO_ID_LEN {
            Err(DemoValidationError::IdTooLong)
        } else if self.title.as_str().is_empty() {
            Err(DemoValidationError::EmptyTitle)
        } else if byte_len(self.description.as_str()) > MAX_DEMO_DESCRIPTION_LEN {
            Err(DemoValidationError::DescriptionTooLong)
        } else {
            Ok(())
        }
    }

    /// Sets the difficulty.
    pub fn with_difficulty(self, difficulty: Difficulty) -> (r: Self)
        ensures
            r@ == (DemoView { difficulty, ..self@ }),
    {
        let mut d = self;
        d.difficulty = difficulty;
        d
    }

    /// Sets the estimated time, in minutes.
    pub fn with_estimated_time(self, minutes: u32) -> (r: Self)
        ensures
            r@ == (DemoView { estimated_time: minutes, ..self@ }),
    {
        let mut d = self;
        d.estimated_time = minutes;
        d
    }

    /// Sets the parameters.
    pub fn with_parameters(self, params: HashMap<String, String>) -> (r: Self)
        ensures
            r@ == (DemoView { parameters: Some(params), ..self@ }),
    {
        let mut d = self;
        d.parameters = Some(params);
        d
    }
}

/// The interactive demos of the showcase, in display order.
pub open spec fn interactive_demos() -> Seq<DemoView> {
    seq![
        demo_view("counter"@, "Counter"@, "Demonstrates simple state management with increment/decrement"@, "interactive"@, "demos/counter.slint"@, Difficulty::Beginner, 2),
        demo_view("button-states"@, "Button States"@, "Shows different button states: normal, pressed, disabled"@, "interactive"@, "demos/button-states.slint"@, Difficulty::Beginner, 3),
        demo_view("slider"@, "Interactive Slider"@, "Two-way data binding with slider component"@, "interactive"@, "demos/slider.slint"@, Difficulty::Beginner, 3),
        demo_view("text-input"@, "Text Input"@, "Form input with validation and state binding"@, "interactive"@, "demos/text-input.slint"@, Difficulty::Intermediate, 5),
        demo_view("checkbox"@, "Checkbox Group"@, "Multiple selection with state management"@, "interactive"@, "demos/checkbox.slint"@, Difficulty::Beginner, 3),
    ]
}

/// Every demo of the showcase: the interactive ones, then one each for
/// performance, responsive layout and accessibility.
pub open spec fn all_demos() -> Seq<DemoView> {
    interactive_demos() + seq![
        demo_view("animations"@, "Smooth Animations"@, "60fps animations with Slint's animation system"@, "performance"@, "demos/animations.slint"@, Difficulty::Intermediate, 5),
        demo_view("layout-grid"@, "Responsive Grid"@, "CSS-like grid layouts that adapt to screen size"@, "responsive"@, "demos/layout-grid.slint"@, Difficulty::Intermediate, 5),
        demo_view("keyboard-nav"@, "Keyboard Navigation"@, "Full keyboard accessibility support"@, "accessibility"@, "demos/keyboard-nav.slint"@, Difficulty::Beginner, 3),
    ]
}

/// `v` lists exactly the demos of `table`, in order.
pub open spec fn demos_match(v: Seq<CapabilityDemo>, table: Seq<DemoView>) -> bool {
    &&& v.len() == table.len()
    &&& forall|i: int| 0 <= i < v.len() ==> (#[trigger] v[i])@ == table[i]
}

/// Get all interactive demos for the showcase
pub fn get_interactive_demos() -> (r: Vec<CapabilityDemo>)
    ensures
        demos_match(r@, interactive_demos()),
{
    let mut demos: Vec<CapabilityDemo> = Vec::new();
    demos.push(
        CapabilityDemo::new("counter", "Counter", "Demonstrates simple state management with increment/decrement", "interactive", "demos/counter.slint")
            .with_difficulty(Difficulty::Beginner)
            .with_estimated_time(2),
    );
    demos.push(
        CapabilityDemo::new("button-states", "Button States", "Shows different button states: normal, pressed, disabled", "interactive", "demos/button-states.slint")
            .with_difficulty(Difficulty::Beginner)
            .with_estimated_time(3),
    );
    demos.push(
        CapabilityDemo::new("slider", "Interactive Slider", "Two-way data binding with slider component", "interactive", "demos/slider.slint")
            .with_difficulty(Difficulty::Beginner)
            .with_estimated_time(3),
    );
    demos.push(
        CapabilityDemo::new("text-input", "Text Input", "Form input with validation and state binding", "interactive", "demos/text-input.slint")
            .with_difficulty(Difficulty::Intermediate)
            .with_estimated_time(5),
    );
    demos.push(
        CapabilityDemo::new("checkbox", "Checkbox Group", "Multiple selection with state management", "interactive", "demos/checkbox.slint")
            .with_difficulty(Difficulty::Beginner)
            .with_estimated_time(3),
    );
    demos
}

/// Get all demos for the showcase
pub fn get_all_demos() -> (r: Vec<CapabilityDemo>)
    ensures
        demos_match(r@, all_demos()),
{
    let mut demos = get_interactive_demos();
    // performance
    demos.push(
        CapabilityDemo::new("animations", "Smooth Animations", "60fps animations with Slint's animation system", "performance", "demos/animations.slint")
            .with_difficulty(Difficulty::Intermediate)
            .with_estimated_time(5),
    );
    // responsive layout
    demos.push(
        CapabilityDemo::new("layout-grid", "Responsive Grid", "CSS-like grid layouts that adapt to screen size", "responsive", "demos/layout-grid.slint")
            .with_difficulty(Difficulty::Intermediate)
            .with_estimated_time(5),
    );
    // accessibility
    demos.push(
        CapabilityDemo::new("keyboard-nav", "Keyboard Navigation", "Full keyboard accessibility support", "accessibility", "demos/keyboard-nav.slint")
            .with_difficulty(Difficulty::Beginner)
            .with_estimated_time(3),
    );
    demos
}

} // verus!
