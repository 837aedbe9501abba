//! The demo registry: demo ids mapped to their component and metadata.
use vstd::prelude::*;

use super::text::str_eq;

verus! {

/// Registry entry for a demo
#[derive(Debug, Clone)]
pub struct DemoRegistryEntry {
    pub id: String,
    pub title: String,
    pub component_name: String,
    pub file_path: String,
    pub category: String,
    pub difficulty: String,
    pub estimated_minutes: u32,
}

/// What an entry holds, as text.
pub struct EntryView {
    pub id: Seq<char>,
    pub title: Seq<char>,
    pub component_name: Seq<char>,
    pub file_path: Seq<char>,
    pub category: Seq<char>,
    pub difficulty: Seq<char>,
    pub estimated_minutes: u32,
}

impl View for DemoRegistryEntry {
    type V = EntryView;

    open spec fn view(&self) -> EntryView {
        EntryView {
            id: self.id@,
            title: self.title@,
            component_name: self.component_name@,
            file_path: self.file_path@,
            category: self.category@,
            difficulty: self.difficulty@,
            estimated_minutes: self.estimated_minutes,
        }
    }
}

/// An entry with these fields.
pub open spec fn entry_view(
    id: Seq<char>,
    title: Seq<char>,
    component_name: Seq<char>,
    file_path: Seq<char>,
    category: Seq<char>,
    difficulty: Seq<char>,
    estimated_minutes: u32,
) -> EntryView {
    EntryView { id, title, component_name, file_path, category, difficulty, estimated_minutes }
}

impl DemoRegistryEntry {
    fn new(
        id: &str,
        title: &str,
        component_name: &str,
        file_path: &str,
        category: &str,
        difficulty: &str,
        estimated_minutes: u32,
    ) -> (r: Self)
        ensures
            r@ == entry_view(id@, title@, component_name@, file_path@, category@, difficulty@, estimated_minutes),
    {
        DemoRegistryEntry {
            id: id.to_string(),
            title: title.to_string(),
            component_name: component_name.to_string(),
            file_path: file_path.to_string(),
            category: category.to_string(),
            difficulty: difficulty.to_string(),
            estimated_minutes,
        }
    }
}

/// The registered demos, in display order.
pub open spec fn registered_demos() -> Seq<EntryView> {
    seq![
        entry_view("counter"@, "Counter Demo"@, "DemoCounter"@, "components/demo_counter.slint"@, "interactive"@, "beginner"@, 2),
        entry_view("button-states"@, "Button States"@, "DemoButton"@, "components/demo_button.slint"@, "interactive"@, "beginner"@, 3),
        entry_view("text-input"@, "Text Input"@, "DemoText"@, "components/demo_text.slint"@, "interactive"@, "intermediate"@, 5),
        entry_view("slider"@, "Interactive Slider"@, "DemoSlider"@, "components/demo_slider.slint"@, "interactive"@, "beginner"@, 3),
        entry_view("checkbox"@, "Checkbox Group"@, "DemoCheckbox"@, "components/demo_checkbox.slint"@, "interactive"@, "beginner"@, 3),
    ]
}

/// Demo registry: each demo id mapped to its entry, in display order.
#[derive(Debug, Clone)]
pub struct DemoRegistry {
    entries: Vec<DemoRegistryEntry>,
    ordered_ids: Vec<String>,
}

impl View for DemoRegistry {
    type V = Seq<EntryView>;

    closed spec fn view(&self) -> Seq<EntryView> {
        self.entries@.map_values(|e: DemoRegistryEntry| e@)
    }
}

impl DemoRegistry {
    /// The ids are listed in the order of the entries, and no id repeats.
    pub closed spec fn wf(&self) -> bool {
        &&& self.ordered_ids@.len() == self.entries@.len()
        &&& forall|i: int| 0 <= i < self.entries@.len() ==> (#[trigger] self.ordered_ids@[i])@ == self.entries@[i].id@
        &&& forall|i: int, j: int|
            0 <= i < j < self.entries@.len() ==> (#[trigger] self.entries@[i]).id@ != (#[trigger] self.entries@[j]).id@
    }

    /// The ids of the registry, in order.
    pub closed spec fn id_list(&self) -> Seq<Seq<char>> {
        self.ordered_ids@.map_values(|s: String| s@)
    }

    /// Create new registry with all demos
    pub fn new() -> (r: Self)
        ensures
            r.wf(),
            r@ == registered_demos(),
    {
        let mut entries: Vec<DemoRegistryEntry> = Vec::new();
        let mut ordered_ids: Vec<String> = Vec::new();
        entries.push(DemoRegistryEntry::new("counter", "Counter Demo", "DemoCounter", "components/demo_counter.slint", "interactive", "beginner", 2));
        ordered_ids.push("counter".to_string());
        entries.push(DemoRegistryEntry::new("button-states", "Button States", "DemoButton", "components/demo_button.slint", "interactive", "beginner", 3));
        ordered_ids.push("button-states".to_string());
        entries.push(DemoRegistryEntry::new("text-input", "Text Input", "DemoText", "components/demo_text.slint", "interactive", "intermediate", 5));
        ordered_ids.push("text-input".to_string());
        entries.push(DemoRegistryEntry::new("slider", "Interactive Slider", "DemoSlider", "components/demo_slider.slint", "interactive", "beginner", 3));
        ordered_ids.push("slider".to_string());
        entries.push(DemoRegistryEntry::new("checkbox", "Checkbox Group", "DemoCheckbox", "components/demo_checkbox.slint", "interactive", "beginner", 3));
        ordered_ids.push("checkbox".to_string());
        let r = DemoRegistry { entries, ordered_ids };
        assert(r@ =~= registered_demos());
        proof {
            reveal_strlit("counter");
            reveal_strlit("button-states");
            reveal_strlit("text-input");
            reveal_strlit("slider");
            reveal_strlit("checkbox");
        }
        assert forall|i: int, j: int|
            0 <= i < j < r.entries@.len() implies (#[trigger] r.entries@[i]).id@ != (#[trigger] r.entries@[j]).id@ by {
            assert(r.entries@[i].id@ == registered_demos()[i].id);
            assert(r.entries@[j].id@ == registered_demos()[j].id);
            assert(registered_demos()[i].id.len() != registered_demos()[j].id.len()
                || registered_demos()[i].id[0] != registered_demos()[j].id[0]);
        }
        r
    }

    /// Get a demo by ID
    pub fn get(&self, id: &str) -> (r: Option<&DemoRegistryEntry>)
        requires
            self.wf(),
        ensures
            r matches Some(e) ==> exists|i: int| 0 <= i < self@.len() && (#[trigger] self@[i]).id == id@ && e@ == self@[i],
            r is None ==> forall|i: int| 0 <= i < self@.len() ==> (#[trigger] self@[i]).id != id@,
    {
        let mut i: usize = 0;
        while i < self.entries.len()
            invariant
                i <= self.entries@.len(),
                forall|j: int| 0 <= j < i ==> (#[trigger] self.entries@[j]).id@ != id@,
            decreases self.entries@.len() - i,
        {
            if str_eq(self.entries[i].id.as_str(), id) {
                assert(self@[i as int] == self.entries@[i as int]@);
                return Some(&self.entries[i]);
            }
            i = i + 1;
        }
        assert forall|k: int| 0 <= k < self@.len() implies (#[trigger] self@[k]).id != id@ by {
            assert(self@[k] == self.entries@[k]@);
        }
        None
    }

    /// Get all demo IDs in order
    pub fn ids(&self) -> (r: &[String])
        requires
            self.wf(),
        ensures
            r@.map_values(|s: String| s@) == self@.map_values(|e: EntryView| e.id),
    {
        assert(self.ordered_ids@.map_values(|s: String| s@) =~= self@.map_values(|e: EntryView| e.id));
        self.ordered_ids.as_slice()
    }

    /// Get all demos in order
    pub fn all(&self) -> (r: Vec<&DemoRegistryEntry>)
        ensures
            r@.len() == self@.len(),
            forall|i: int| 0 <= i < r@.len() ==> (#[trigger] r@[i])@ == self@[i],
    {
        let mut out: Vec<&DemoRegistryEntry> = Vec::new();
        let mut i: usize = 0;
        while i < self.entries.len()
            invariant
                i <= self.entries@.len(),
                out@.len() == i,
                forall|j: int| 0 <= j < i ==> (#[trigger] out@[j])@ == self.entries@[j]@,
            decreases self.entries@.len() - i,
        {
            out.push(&self.entries[i]);
            i = i + 1;
        }
        out
    }

    /// Get demos by category, in order.
    pub fn by_category(&self, category: &str) -> (r: Vec<&DemoRegistryEntry>)
        ensures
            r@.len() == self@.filter(|e: EntryView| e.category == category@).len(),
            forall|i: int| 0 <= i < r@.len() ==> (#[trigger] r@[i])@ == self@.filter(|e: EntryView| e.category == category@)[i],
    {
        let ghost entries = self@;
        let mut out: Vec<&DemoRegistryEntry> = Vec::new();
        let mut i: usize = 0;
        while i < self.entries.len()
            invariant
                entries == self@,
                entries.len() == self.entries@.len(),
                i <= self.entries@.len(),
                out@.len() == entries.take(i as int).filter(|e: EntryView| e.category == category@).len(),
                forall|j: int| 0 <= j < out@.len() ==> (#[trigger] out@[j])@ == entries.take(i as int).filter(|e: EntryView| e.category == category@)[j],
            decreases self.entries@.len() - i,
        {
            assert(entries.take(i as int + 1).drop_last() =~= entries.take(i as int));
            assert(entries[i as int] == self.entries@[i as int]@);
            reveal(Seq::filter);
            if str_eq(self.entries[i].category.as_str(), category) {
                out.push(&self.entries[i]);
            }
            i = i + 1;
        }
        assert(entries.take(self.entries@.len() as int) =~= entries);
        out
    }

    /// Get demo count
    pub fn len(&self) -> (r: usize)
        ensures
            r == self@.len(),
    {
        self.entries.len()
    }

    /// Check if empty
    pub fn is_empty(&self) -> (r: bool)
        ensures
            r == (self@.len() == 0),
    {
        self.entries.len() == 0
    }
}

/// The demo registry, built afresh for the caller.
pub fn get_demo_registry() -> (r: DemoRegistry)
    ensures
        r.wf(),
        r@ == registered_demos(),
{
    DemoRegistry::new()
}

} // verus!
