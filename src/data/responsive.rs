//! Responsive behaviour and breakpoints for cross-device layouts.
use vstd::prelude::*;

use super::text::str_eq;

verus! {

/// A layout breakpoint: the widest screen it covers and its column count.
#[derive(Debug, Clone, PartialEq, Default)]
pub struct ResponsiveBreakpoint {
    pub name: String,
    pub max_width: i32,
    pub column_count: i32,
    pub description: String,
}

/// Gutter widths, in pixels.
#[derive(Debug, Clone, PartialEq, Default)]
pub struct GutterSizes {
    pub small: i32,
    pub medium: i32,
    pub large: i32,
}

/// Font sizes, in pixels.
#[derive(Debug, Clone, PartialEq, Default)]
pub struct FontSizes {
    pub small: i32,
    pub body: i32,
    pub heading: i32,
    pub display: i32,
}

/// Container widths, in pixels.
#[derive(Debug, Clone, PartialEq, Default)]
pub struct ContainerWidths {
    pub narrow: i32,
    pub wide: i32,
    pub full: i32,
}

/// The responsive configuration of the showcase.
#[derive(Debug, Clone, PartialEq, Default)]
pub struct ResponsiveConfig {
    pub breakpoints: Vec<ResponsiveBreakpoint>,
    pub gutter: GutterSizes,
    pub font_sizes: FontSizes,
    pub container_widths: ContainerWidths,
    pub min_touch_target: i32,
    pub enable_adaptive_layouts: bool,
}

/// What a breakpoint holds, as text and numbers.
pub struct BreakpointView {
    pub name: Seq<char>,
    pub max_width: i32,
    pub column_count: i32,
    pub description: Seq<char>,
}

impl View for ResponsiveBreakpoint {
    type V = BreakpointView;

    open spec fn view(&self) -> BreakpointView {
        BreakpointView {
            name: self.name@,
            max_width: self.max_width,
            column_count: self.column_count,
            description: self.description@,
        }
    }
}

/// The breakpoints of the showcase, narrowest first.
pub open spec fn all_breakpoints() -> Seq<BreakpointView> {
    seq![
        BreakpointView { name: "mobile"@, max_width: 480, column_count: 1, description: "Mobile devices"@ },
        BreakpointView { name: "tablet"@, max_width: 768, column_count: 2, description: "Tablet devices"@ },
        BreakpointView { name: "desktop"@, max_width: 1200, column_count: 3, description: "Desktop displays"@ },
        BreakpointView { name: "wide"@, max_width: 1600, column_count: 4, description: "Wide displays"@ },
    ]
}

/// `v` lists exactly the breakpoints of `table`, in order.
pub open spec fn breakpoints_match(v: Seq<ResponsiveBreakpoint>, table: Seq<BreakpointView>) -> bool {
    &&& v.len() == table.len()
    &&& forall|i: int| 0 <= i < v.len() ==> (#[trigger] v[i])@ == table[i]
}

impl ResponsiveBreakpoint {
    /// Creates a breakpoint.
    pub fn new(name: &str, max_width: i32, column_count: i32, description: &str) -> (r: Self)
        ensures
            r@ == (BreakpointView { name: name@, max_width, column_count, description: description@ }),
    {
        ResponsiveBreakpoint {
            name: name.to_string(),
            max_width,
            column_count,
            description: description.to_string(),
        }
    }

    /// All breakpoints, narrowest first.
    pub fn all() -> (r: Vec<Self>)
        ensures
            breakpoints_match(r@, all_breakpoints()),
    {
        let mut v: Vec<Self> = Vec::new();
        v.push(ResponsiveBreakpoint::new("mobile", 480, 1, "Mobile devices"));
        v.push(ResponsiveBreakpoint::new("tablet", 768, 2, "Tablet devices"));
        v.push(ResponsiveBreakpoint::new("desktop", 1200, 3, "Desktop displays"));
        v.push(ResponsiveBreakpoint::new("wide", 1600, 4, "Wide displays"));
        v
    }

    /// The first breakpoint named `name`, if any.
    pub fn find(name: &str) -> (r: Option<Self>)
        ensures
            r matches Some(b) ==> exists|i: int|
                0 <= i < all_breakpoints().len() && (#[trigger] all_breakpoints()[i]).name == name@
                    && b@ == all_breakpoints()[i]
                    && forall|j: int| 0 <= j < i ==> (#[trigger] all_breakpoints()[j]).name != name@,
            r is None ==> forall|i: int| 0 <= i < all_breakpoints().len() ==> (#[trigger] all_breakpoints()[i]).name != name@,
    {
        let mut all = Self::all();
        let ghost table = all_breakpoints();
        let mut i: usize = 0;
        while i < all.len()
            invariant
                table == all_breakpoints(),
                breakpoints_match(all@, table),
                i <= all@.len(),
                forall|j: int| 0 <= j < i ==> (#[trigger] table[j]).name != name@,
            decreases all@.len() - i,
        {
            if str_eq(all[i].name.as_str(), name) {
                let b = all.remove(i);
                assert(b@ == table[i as int]);
                return Some(b);
            }
            i = i + 1;
        }
        None
    }

    /// The narrowest breakpoint that covers `width`: the first whose
    /// `max_width` is at least `width`; none beyond the widest.
    pub fn for_width(width: i32) -> (r: Option<Self>)
        ensures
            r matches Some(b) ==> exists|i: int|
                0 <= i < all_breakpoints().len() && width <= (#[trigger] all_breakpoints()[i]).max_width
                    && b@ == all_breakpoints()[i]
                    && forall|j: int| 0 <= j < i ==> width > (#[trigger] all_breakpoints()[j]).max_width,
            r is None ==> forall|i: int| 0 <= i < all_breakpoints().len() ==> width > (#[trigger] all_breakpoints()[i]).max_width,
    {
        let mut all = Self::all();
        let ghost table = all_breakpoints();
        let mut i: usize = 0;
        while i < all.len()
            invariant
                table == all_breakpoints(),
                breakpoints_match(all@, table),
                i <= all@.len(),
                forall|j: int| 0 <= j < i ==> width > (#[trigger] table[j]).max_width,
            decreases all@.len() - i,
        {
            if width <= all[i].max_width {
                let b = all.remove(i);
                assert(b@ == table[i as int]);
                return Some(b);
            }
            i = i + 1;
        }
        None
    }
}

/// The showcase's configuration holds these breakpoints, gutters, font
/// sizes, container widths and touch target.
pub open spec fn is_default_config(c: ResponsiveConfig) -> bool {
    &&& breakpoints_match(c.breakpoints@, all_breakpoints())
    &&& c.gutter == (GutterSizes { small: 8, medium: 16, large: 24 })
    &&& c.font_sizes == (FontSizes { small: 12, body: 14, heading: 20, display: 32 })
    &&& c.container_widths == (ContainerWidths { narrow: 320, wide: 800, full: 1200 })
    &&& c.min_touch_target == 44
    &&& c.enable_adaptive_layouts
}

fn get_default_config() -> (r: ResponsiveConfig)
    ensures
        is_default_config(r),
{
    ResponsiveConfig {
        breakpoints: ResponsiveBreakpoint::all(),
        gutter: GutterSizes { small: 8, medium: 16, large: 24 },
        font_sizes: FontSizes { small: 12, body: 14, heading: 20, display: 32 },
        container_widths: ContainerWidths { narrow: 320, wide: 800, full: 1200 },
        min_touch_target: 44,
        enable_adaptive_layouts: true,
    }
}

/// Get responsive configuration
pub fn get_responsive_config() -> (r: Option<ResponsiveConfig>)
    ensures
        r matches Some(c) && is_default_config(c),
{
    Some(get_default_config())
}

} // verus!
