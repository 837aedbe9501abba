//! Categories: logical groupings of related capabilities.
use vstd::prelude::*;

use super::text::{byte_len, utf8_len};

verus! {

/// A logical grouping of related capabilities.
#[derive(Debug, Clone, PartialEq)]
pub struct Category {
    /// Unique identifier (kebab-case)
    pub id: String,
    /// Display name
    pub name: String,
    /// Description of what this category covers
    pub description: String,
    /// Sort order in the UI
    pub display_order: u32,
    /// Icon identifier (emoji or icon name)
    pub icon: Option<String>,
}

/// What a category holds, as text.
pub struct CategoryView {
    pub id: Seq<char>,
    pub name: Seq<char>,
    pub description: Seq<char>,
    pub display_order: u32,
    pub icon: Option<Seq<char>>,
}

impl View for Category {
    type V = CategoryView;

    open spec fn view(&self) -> CategoryView {
        CategoryView {
            id: self.id@,
            name: self.name@,
            description: self.description@,
            display_order: self.display_order,
            icon: match self.icon {
                Some(s) => Some(s@),
                None => None,
            },
        }
    }
}

/// Why a category is not well formed.
#[derive(Debug, Clone, Copy, PartialEq, Eq)]
pub enum CategoryValidationError {
    EmptyId,
    IdTooLong,
    EmptyName,
    EmptyDescription,
}

/// Longest category id, in bytes.
pub const MAX_CATEGORY_ID_LEN: usize = 30;

/// The outcome of validating a category: the first rule it breaks, in order.
pub open spec fn category_check(c: CategoryView) -> Result<(), CategoryValidationError> {
    if c.id.len() == 0 {
        Err(CategoryValidationError::EmptyId)
    } else if utf8_len(c.id) > MAX_CATEGORY_ID_LEN {
        Err(CategoryValidationError::IdTooLong)
    } else if c.name.len() == 0 {
        Err(CategoryValidationError::EmptyName)
    } else if c.description.len() == 0 {
        Err(CategoryValidationError::EmptyDescription)
    } else {
        Ok(())
    }
}

impl Category {
    /// Creates a category with the required fields and no icon.
    pub fn new(id: &str, name: &str, description: &str, display_order: u32) -> (r: Self)
        ensures
            r@ == (CategoryView {
                id: id@,
                name: name@,
                description: description@,
                display_order,
                icon: None,
            }),
    {
        Category {
            id: id.to_string(),
            name: name.to_string(),
            description: description.to_string(),
            display_order,
            icon: None,
        }
    }

    /// Checks that the required fields are present and the id is short enough.
    pub fn validate(&self) -> (r: Result<(), CategoryValidationError>)
        ensures
            r == category_check(self@),
    {
        if self.id.as_str().is_empty() {
            Err(CategoryValidationError::EmptyId)
        } else if byte_len(self.id.as_str()) > MAX_CATEGORY_ID_LEN {
            Err(CategoryValidationError::IdTooLong)
        } else if self.name.as_str().is_empty() {
            Err(CategoryValidationError::EmptyName)
        } else if self.description.as_str().is_empty() {
            Err(CategoryValidationError::EmptyDescription)
        } else {
            Ok(())
        }
    }

    /// Sets the icon, replacing any previous one.
    pub fn with_icon(self, icon: &str) -> (r: Self)
        ensures
            r@ == (CategoryView { icon: Some(icon@), ..self@ }),
    {
        let mut c = self;
        c.icon = Some(icon.to_string());
        c
    }
}

/// A category as `Category::new` and `with_icon` make it.
pub open spec fn category_view(id: Seq<char>, name: Seq<char>, description: Seq<char>, display_order: u32, icon: Seq<char>) -> CategoryView {
    CategoryView { id, name, description, display_order, icon: Some(icon) }
}

/// The categories of the showcase, in display order.
pub open spec fn showcase_categories() -> Seq<CategoryView> {
    seq![
        category_view("interactive"@, "Interactive Demos"@, "Hands-on demonstrations of Slint's reactive UI capabilities"@, 1, "\u{1F3AE}"@),
        category_view("performance"@, "Performance"@, "Speed and efficiency benchmarks"@, 2, "\u{26A1}"@),
        category_view("responsive"@, "Responsive Design"@, "Layouts that adapt to any screen size"@, 3, "\u{1F4F1}"@),
        category_view("accessibility"@, "Accessibility"@, "Inclusive design with keyboard and screen reader support"@, 4, "\u{267F}"@),
    ]
}

/// `v` lists exactly the categories of `table`, in order.
pub open spec fn categories_match(v: Seq<Category>, table: Seq<CategoryView>) -> bool {
    &&& v.len() == table.len()
    &&& forall|i: int| 0 <= i < v.len() ==> (#[trigger] v[i])@ == table[i]
}

/// The predefined categories of the showcase.
pub fn get_showcase_categories() -> (r: Vec<Category>)
    ensures
        categories_match(r@, showcase_categories()),
{
    let mut categories: Vec<Category> = Vec::new();
    categories.push(
        Category::new("interactive", "Interactive Demos", "Hands-on demonstrations of Slint's reactive UI capabilities", 1)
            .with_icon("\u{1F3AE}"),
    );
    categories.push(
        Category::new("performance", "Performance", "Speed and efficiency benchmarks", 2).with_icon("\u{26A1}"),
    );
    categories.push(
        Category::new("responsive", "Responsive Design", "Layouts that adapt to any screen size", 3).with_icon("\u{1F4F1}"),
    );
    categories.push(
        Category::new("accessibility", "Accessibility", "Inclusive design with keyboard and screen reader support", 4)
            .with_icon("\u{267F}"),
    );
    categories
}

} // verus!
