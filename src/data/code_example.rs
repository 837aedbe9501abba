//! Code examples: editable snippets for hands-on learning.
use vstd::prelude::*;

use super::capability_demo::Difficulty;
use super::text::{byte_len, str_eq, utf8_len};

verus! {

/// An editable code snippet with the output it should produce.
#[derive(Debug, Clone, PartialEq)]
pub struct CodeExample {
    pub id: String,
    pub title: String,
    pub description: String,
    pub code_template: String,
    pub expected_output: String,
    pub difficulty: Difficulty,
    pub hints: Option<Vec<String>>,
    pub solution: Option<String>,
}

/// What an example holds, as text.
pub struct ExampleView {
    pub id: Seq<char>,
    pub title: Seq<char>,
    pub description: Seq<char>,
    pub code_template: Seq<char>,
    pub expected_output: Seq<char>,
    pub difficulty: Difficulty,
    pub hints: Option<Seq<Seq<char>>>,
    pub solution: Option<Seq<char>>,
}

impl View for CodeExample {
    type V = ExampleView;

    open spec fn view(&self) -> ExampleView {
        ExampleView {
            id: self.id@,
            title: self.title@,
            description: self.description@,
            code_template: self.code_template@,
            expected_output: self.expected_output@,
            difficulty: self.difficulty,
            hints: match self.hints {
                Some(h) => Some(h@.map_values(|s: String| s@)),
                None => None,
            },
            solution: match self.solution {
                Some(s) => Some(s@),
                None => None,
            },
        }
    }
}

/// Why an example is not well formed.
#[derive(Debug, Clone, Copy, PartialEq, Eq)]
pub enum ExampleValidationError {
    EmptyId,
    IdTooLong,
    EmptyTitle,
    EmptyDescription,
    EmptyTemplate,
    EmptyOutput,
}

/// Longest example id, in bytes.
pub const MAX_EXAMPLE_ID_LEN: usize = 50;

/// The outcome of validating an example: the first rule it breaks, in order.
pub open spec fn example_check(e: ExampleView) -> Result<(), ExampleValidationError> {
    if e.id.len() == 0 {
        Err(ExampleValidationError::EmptyId)
    } else if utf8_len(e.id) > MAX_EXAMPLE_ID_LEN {
        Err(ExampleValidationError::IdTooLong)
    } else if e.title.len() == 0 {
        Err(ExampleValidationError::EmptyTitle)
    } else if e.description.len() == 0 {
        Err(ExampleValidationError::EmptyDescription)
    } else if e.code_template.len() == 0 {
        Err(ExampleValidationError::EmptyTemplate)
    } else if e.expected_output.len() == 0 {
        Err(ExampleValidationError::EmptyOutput)
    } else {
        Ok(())
    }
}

impl CodeExample {
    /// Creates a beginner example without hints or solution.
    pub fn new(id: &str, title: &str, description: &str, code_template: &str, expected_output: &str) -> (r: Self)
        ensures
            r@ == (ExampleView {
                id: id@,
                title: title@,
                description: description@,
                code_template: code_template@,
                expected_output: expected_output@,
                difficulty: Difficulty::Beginner,
                hints: None,
                solution: None,
            }),
    {
        CodeExample {
            id: id.to_string(),
            title: title.to_string(),
            description: description.to_string(),
            code_template: code_template.to_string(),
            expected_output: expected_output.to_string(),
            difficulty: Difficulty::Beginner,
            hints: None,
            solution: None,
        }
    }

    /// Checks that every text field is present and the id is short enough.
    pub fn validate(&self) -> (r: Result<(), ExampleValidationError>)
        ensures
            r == example_check(self@),
    {
        if self.id.as_str().is_empty() {
            Err(ExampleValidationError::EmptyId)
        } else if byte_len(self.id.as_str()) > MAX_EXAMPLE_ID_LEN {
            Err(ExampleValidationError::IdTooLong)
        } else if self.title.as_str().is_empty() {
            Err(ExampleValidationError::EmptyTitle)
        } else if self.description.as_str().is_empty() {
            Err(ExampleValidationError::EmptyDescription)
        } else if self.code_template.as_str().is_empty() {
            Err(ExampleValidationError::EmptyTemplate)
        } else if self.expected_output.as_str().is_empty() {
            Err(ExampleValidationError::EmptyOutput)
        } else {
            Ok(())
        }
    }

    /// Sets the difficulty.
    pub fn with_difficulty(self, difficulty: Difficulty) -> (r: Self)
        ensures
            r@ == (ExampleView { difficulty, ..self@ }),
    {
        let mut e = self;
        e.difficulty = difficulty;
        e
    }

    /// Sets the hints, in the order given.
    pub fn with_hints(self, hints: Vec<String>) -> (r: Self)
        ensures
            r@ == (ExampleView { hints: Some(hints@.map_values(|s: String| s@)), ..self@ }),
    {
        let mut e = self;
        e.hints = Some(hints);
        e
    }

    /// Sets the solution.
    pub fn with_solution(self, solution: &str) -> (r: Self)
        ensures
            r@ == (ExampleView { solution: Some(solution@), ..self@ }),
    {
        let mut e = self;
        e.solution = Some(solution.to_string());
        e
    }
}

/// Starting code for the `hello-component` example.
pub const HELLO_COMPONENT_TEMPLATE: &'static str = r#"component MyButton {
    in property <string> text;
    in property <color> primary-color;
    
    callback clicked();
    
    Rectangle {
        background: primary-color;
        width: 120px;
        height: 40px;
        
        Text {
            text: text;
            color: white;
        }
    }
}

export component Main {
    MyButton {
        text: "Click Me!";
        primary-color: #2563eb;
        clicked => {
            debug("Button clicked!");
        }
    }
}"#;

/// A complete answer for the `hello-component` example.
pub const HELLO_COMPONENT_SOLUTION: &'static str = r#"component MyButton {
    in property <string> text;
    in property <color> primary-color;
    
    callback clicked();
    
    Rectangle {
        background: primary-color;
        width: 120px;
        height: 40px;
        border-radius: 8px;
        
        Text {
            text: text;
            color: white;
            horizontal-alignment: center;
            vertical-alignment: center;
        }
    }
}

export component Main {
    MyButton {
        text: "Click Me!";
        primary-color: #2563eb;
        clicked => {
            debug("Button clicked!");
        }
    }
}"#;

/// Starting code for the `button-styling` example.
pub const BUTTON_STYLING_TEMPLATE: &'static str = r#"component StyledButton {
    in property <string> text;
    in property <color> background-color;
    in property <color> text-color;
    in property <bool> disabled;
    
    callback clicked();
    
    Rectangle {
        background: disabled ? #cccccc : background-color;
        width: 100px;
        height: 36px;
        border-radius: 6px;
        opacity: disabled ? 0.7 : 1.0;
        
        Text {
            text: text;
            color: disabled ? #888888 : text-color;
        }
    }
}"#;

/// A complete answer for the `button-styling` example.
pub const BUTTON_STYLING_SOLUTION: &'static str = r#"component StyledButton {
    in property <string> text;
    in property <color> background-color;
    in property <color> text-color;
    in property <bool> disabled;
    
    callback clicked();
    
    Rectangle {
        background: disabled ? #cccccc : background-color;
        width: 100px;
        height: 36px;
        border-radius: 6px;
        opacity: disabled ? 0.7 : 1.0;
        border-width: disabled ? 0 : 2px;
        border-color: disabled ? transparent : background-color.darker(20%);
        
        Text {
            text: text;
            color: disabled ? #888888 : text-color;
            font-size: 14px;
            font-weight: 600;
            horizontal-alignment: center;
            vertical-alignment: center;
        }
    }
}"#;

/// Starting code for the `property-binding` example.
pub const PROPERTY_BINDING_TEMPLATE: &'static str = r#"component Counter {
    in-out property <int> count;
    
    callback increment();
    callback decrement();
    
    HorizontalBox {
        Button {
            text: "-";
            clicked => { decrement(); }
        }
        
        Text {
            text: count;
            font-size: 24px;
            font-weight: 700;
        }
        
        Button {
            text: "+";
            clicked => { increment(); }
        }
    }
}"#;

/// A complete answer for the `property-binding` example.
pub const PROPERTY_BINDING_SOLUTION: &'static str = r#"component Counter {
    in-out property <int> count;
    in property <int> minimum: 0;
    in property <int> maximum: 100;
    
    callback increment();
    callback decrement();
    
    function handle-increment() {
        if count < maximum {
            count += 1;
            increment();
        }
    }
    
    function handle-decrement() {
        if count > minimum {
            count -= 1;
            decrement();
        }
    }
    
    HorizontalBox {
        spacing: 8px;
        alignment: center;
        
        Button {
            text: "-";
            clicked => { handle-decrement(); }
        }
        
        Rectangle {
            width: 60px;
            
            Text {
                text: count;
                font-size: 24px;
                font-weight: 700;
                horizontal-alignment: center;
                vertical-alignment: center;
                color: count == maximum ? #2563eb : (count == minimum ? #dc2626 : #000000);
            }
        }
        
        Button {
            text: "+";
            clicked => { handle-increment(); }
        }
    }
}"#;

/// Starting code for the `callback-handling` example.
pub const CALLBACK_HANDLING_TEMPLATE: &'static str = r#"component ToggleSwitch {
    in-out property <bool> checked;
    
    callback toggled(bool);
    
    Rectangle {
        width: 50px;
        height: 28px;
        background: checked ? #22c55e : #6b7280;
        border-radius: 14px;
        
        Rectangle {
            x: checked ? 24px : 2px;
            width: 24px;
            height: 24px;
            background: white;
            border-radius: 12px;
        }
    }
}"#;

/// A complete answer for the `callback-handling` example.
pub const CALLBACK_HANDLING_SOLUTION: &'static str = r#"component ToggleSwitch {
    in-out property <bool> checked;
    in property <color> on-color: #22c55e;
    in property <color> off-color: #6b7280;
    
    callback toggled(bool);
    
    Rectangle {
        width: 50px;
        height: 28px;
        background: checked ? on-color : off-color;
        border-radius: 14px;
        animate background {
            duration: 200ms;
            easing: ease-in-out;
        }
        
        Rectangle {
            x: checked ? 24px : 2px;
            width: 24px;
            height: 24px;
            background: white;
            border-radius: 12px;
            animate x {
                duration: 200ms;
                easing: ease-in-out;
            }
        }
        
        TouchArea {
            clicked => {
                checked = !checked;
                toggled(checked);
            }
        }
    }
}"#;

/// An example as the catalogue builds it, with hints and a solution.
pub open spec fn example_view(
    id: Seq<char>,
    title: Seq<char>,
    description: Seq<char>,
    code_template: Seq<char>,
    expected_output: Seq<char>,
    difficulty: Difficulty,
    hints: Seq<Seq<char>>,
    solution: Seq<char>,
) -> ExampleView {
    ExampleView {
        id,
        title,
        description,
        code_template,
        expected_output,
        difficulty,
        hints: Some(hints),
        solution: Some(solution),
    }
}

/// The code examples of the showcase, easiest first.
pub open spec fn default_examples() -> Seq<ExampleView> {
    seq![
        example_view("hello-component"@, "Your First Component"@, "Learn to create a basic Slint component with properties and callbacks"@, HELLO_COMPONENT_TEMPLATE@, "A clickable button component with blue background and 'Click Me!' text"@, Difficulty::Beginner, seq!["Components start with 'component' keyword"@, "Use 'in property' for input properties"@, "The exported component is your entry point"@], HELLO_COMPONENT_SOLUTION@),
        example_view("button-styling"@, "Button Styling"@, "Explore different ways to style buttons with colors, borders, and states"@, BUTTON_STYLING_TEMPLATE@, "A styled button with configurable colors and disabled state"@, Difficulty::Beginner, seq!["Use conditional expressions for states"@, "Opacity can create disabled effects"@], BUTTON_STYLING_SOLUTION@),
        example_view("property-binding"@, "Property Binding"@, "Master bidirectional and conditional property bindings"@, PROPERTY_BINDING_TEMPLATE@, "A counter with increment/decrement buttons and display"@, Difficulty::Intermediate, seq!["'in-out property' allows both reading and writing"@, "Callbacks can modify the property"@], PROPERTY_BINDING_SOLUTION@),
        example_view("callback-handling"@, "Callback Handling"@, "Implement event handlers and callback chains for complex interactions"@, CALLBACK_HANDLING_TEMPLATE@, "A toggle switch with animated state change"@, Difficulty::Intermediate, seq!["Callbacks can pass parameters"@, "Animation can be added with 'animate' keyword"@], CALLBACK_HANDLING_SOLUTION@),
    ]
}

/// `v` lists exactly the examples of `table`, in order.
pub open spec fn examples_match(v: Seq<CodeExample>, table: Seq<ExampleView>) -> bool {
    &&& v.len() == table.len()
    &&& forall|i: int| 0 <= i < v.len() ==> (#[trigger] v[i])@ == table[i]
}

fn get_default_examples() -> (r: Vec<CodeExample>)
    ensures
        examples_match(r@, default_examples()),
{
    let mut examples: Vec<CodeExample> = Vec::new();
    let mut hints: Vec<String> = Vec::new();
    hints.push("Components start with 'component' keyword".to_string());
    hints.push("Use 'in property' for input properties".to_string());
    hints.push("The exported component is your entry point".to_string());
    assert(hints@.map_values(|s: String| s@) =~= seq!["Components start with 'component' keyword"@, "Use 'in property' for input properties"@, "The exported component is your entry point"@]);
    examples.push(
        CodeExample::new("hello-component", "Your First Component", "Learn to create a basic Slint component with properties and callbacks", HELLO_COMPONENT_TEMPLATE, "A clickable button component with blue background and 'Click Me!' text")
            .with_difficulty(Difficulty::Beginner)
            .with_hints(hints)
            .with_solution(HELLO_COMPONENT_SOLUTION),
    );
    let mut hints: Vec<String> = Vec::new();
    hints.push("Use conditional expressions for states".to_string());
    hints.push("Opacity can create disabled effects".to_string());
    assert(hints@.map_values(|s: String| s@) =~= seq!["Use conditional expressions for states"@, "Opacity can create disabled effects"@]);
    examples.push(
        CodeExample::new("button-styling", "Button Styling", "Explore different ways to style buttons with colors, borders, and states", BUTTON_STYLING_TEMPLATE, "A styled button with configurable colors and disabled state")
            .with_difficulty(Difficulty::Beginner)
            .with_hints(hints)
            .with_solution(BUTTON_STYLING_SOLUTION),
    );
    let mut hints: Vec<String> = Vec::new();
    hints.push("'in-out property' allows both reading and writing".to_string());
    hints.push("Callbacks can modify the property".to_string());
    assert(hints@.map_values(|s: String| s@) =~= seq!["'in-out property' allows both reading and writing"@, "Callbacks can modify the property"@]);
    examples.push(
        CodeExample::new("property-binding", "Property Binding", "Master bidirectional and conditional property bindings", PROPERTY_BINDING_TEMPLATE, "A counter with increment/decrement buttons and display")
            .with_difficulty(Difficulty::Intermediate)
            .with_hints(hints)
            .with_solution(PROPERTY_BINDING_SOLUTION),
    );
    let mut hints: Vec<String> = Vec::new();
    hints.push("Callbacks can pass parameters".to_string());
    hints.push("Animation can be added with 'animate' keyword".to_string());
    assert(hints@.map_values(|s: String| s@) =~= seq!["Callbacks can pass parameters"@, "Animation can be added with 'animate' keyword"@]);
    examples.push(
        CodeExample::new("callback-handling", "Callback Handling", "Implement event handlers and callback chains for complex interactions", CALLBACK_HANDLING_TEMPLATE, "A toggle switch with animated state change")
            .with_difficulty(Difficulty::Intermediate)
            .with_hints(hints)
            .with_solution(CALLBACK_HANDLING_SOLUTION),
    );
    examples
}

/// Get all code examples
pub fn get_code_examples() -> (r: Vec<CodeExample>)
    ensures
        examples_match(r@, default_examples()),
{
    get_default_examples()
}

/// Find a code example by ID: the first one with that id.
pub fn find_example(example_id: &str) -> (r: Option<CodeExample>)
    ensures
        r matches Some(e) ==> exists|i: int|
            0 <= i < default_examples().len() && (#[trigger] default_examples()[i]).id == example_id@
                && e@ == default_examples()[i]
                && forall|j: int| 0 <= j < i ==> (#[trigger] default_examples()[j]).id != example_id@,
        r is None ==> forall|i: int| 0 <= i < default_examples().len() ==> (#[trigger] default_examples()[i]).id != example_id@,
{
    let mut all = get_default_examples();
    let ghost table = default_examples();
    let mut i: usize = 0;
    while i < all.len()
        invariant
            table == default_examples(),
            examples_match(all@, table),
            i <= all@.len(),
            forall|j: int| 0 <= j < i ==> (#[trigger] table[j]).id != example_id@,
        decreases all@.len() - i,
    {
        if str_eq(all[i].id.as_str(), example_id) {
            let e = all.remove(i);
            assert(e@ == table[i as int]);
            return Some(e);
        }
        i = i + 1;
    }
    None
}

} // verus!
