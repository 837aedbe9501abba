//! Keyboard shortcuts and navigation patterns for accessibility.
use vstd::prelude::*;
use vstd::string::*;

use super::text::str_eq;

verus! {

/// A keyboard shortcut: an action, the key that triggers it, and any
/// modifier keys held with it.
#[derive(Debug, Clone, PartialEq)]
pub struct KeyboardShortcut {
    pub action: String,
    pub key: String,
    pub modifiers: Vec<String>,
    pub description: String,
}

/// What a shortcut holds, as text.
pub struct ShortcutView {
    pub action: Seq<char>,
    pub key: Seq<char>,
    pub modifiers: Seq<Seq<char>>,
    pub description: Seq<char>,
}

impl View for KeyboardShortcut {
    type V = ShortcutView;

    open spec fn view(&self) -> ShortcutView {
        ShortcutView {
            action: self.action@,
            key: self.key@,
            modifiers: self.modifiers@.map_values(|s: String| s@),
            description: self.description@,
        }
    }
}

/// `parts` written one after another with `sep` between each two.
pub open spec fn joined(parts: Seq<Seq<char>>, sep: Seq<char>) -> Seq<char>
    decreases parts.len(),
{
    if parts.len() == 0 {
        Seq::empty()
    } else if parts.len() == 1 {
        parts[0]
    } else {
        joined(parts.drop_last(), sep) + sep + parts.last()
    }
}

/// How a shortcut is written: its modifiers, then its key, joined by `+`.
pub open spec fn shortcut_text(modifiers: Seq<Seq<char>>, key: Seq<char>) -> Seq<char> {
    if modifiers.len() == 0 {
        key
    } else {
        joined(modifiers, "+"@) + "+"@ + key
    }
}

/// A shortcut as `KeyboardShortcut::new` makes it.
pub open spec fn shortcut_view(action: Seq<char>, key: Seq<char>, description: Seq<char>) -> ShortcutView {
    ShortcutView { action, key, modifiers: Seq::empty(), description }
}

/// The shortcuts of the showcase, in order.
pub open spec fn all_shortcuts() -> Seq<ShortcutView> {
    seq![
        ShortcutView { modifiers: seq!["shift"@], ..shortcut_view("next"@, "Tab"@, "Move to next focusable element"@) },
        shortcut_view("previous"@, "Tab"@, "Move to previous focusable element"@),
        shortcut_view("home"@, "Home"@, "Go to first item"@),
        shortcut_view("end"@, "End"@, "Go to last item"@),
        shortcut_view("escape"@, "Escape"@, "Close modal or cancel action"@),
        shortcut_view("enter"@, "Enter"@, "Activate button or link"@),
        shortcut_view("space"@, "Space"@, "Toggle checkbox or activate button"@),
        shortcut_view("arrow-up"@, "ArrowUp"@, "Move selection up"@),
        shortcut_view("arrow-down"@, "ArrowDown"@, "Move selection down"@),
        shortcut_view("arrow-left"@, "ArrowLeft"@, "Move selection left"@),
        shortcut_view("arrow-right"@, "ArrowRight"@, "Move selection right"@),
    ]
}

impl KeyboardShortcut {
    /// Creates a shortcut without modifiers.
    pub fn new(action: &str, key: &str, description: &str) -> (r: Self)
        ensures
            r@ == shortcut_view(action@, key@, description@),
    {
        let r = KeyboardShortcut {
            action: action.to_string(),
            key: key.to_string(),
            modifiers: Vec::new(),
            description: description.to_string(),
        };
        assert(r@.modifiers =~= Seq::<Seq<char>>::empty());
        r
    }

    /// Sets the modifier keys, replacing any earlier ones.
    pub fn with_modifiers(self, modifiers: Vec<String>) -> (r: Self)
        ensures
            r@ == (ShortcutView { modifiers: modifiers@.map_values(|s: String| s@), ..self@ }),
    {
        let mut s = self;
        s.modifiers = modifiers;
        s
    }

    /// All shortcuts of the showcase, in order.
    pub fn all() -> (r: Vec<Self>)
        ensures
            r@.len() == all_shortcuts().len(),
            forall|i: int| 0 <= i < r@.len() ==> (#[trigger] r@[i])@ == all_shortcuts()[i],
    {
        let mut shift: Vec<String> = Vec::new();
        shift.push("shift".to_string());
        assert(shift@.map_values(|s: String| s@) =~= seq!["shift"@]);
        let mut v: Vec<Self> = Vec::new();
        v.push(KeyboardShortcut::new("next", "Tab", "Move to next focusable element").with_modifiers(shift));
        v.push(KeyboardShortcut::new("previous", "Tab", "Move to previous focusable element"));
        v.push(KeyboardShortcut::new("home", "Home", "Go to first item"));
        v.push(KeyboardShortcut::new("end", "End", "Go to last item"));
        v.push(KeyboardShortcut::new("escape", "Escape", "Close modal or cancel action"));
        v.push(KeyboardShortcut::new("enter", "Enter", "Activate button or link"));
        v.push(KeyboardShortcut::new("space", "Space", "Toggle checkbox or activate button"));
        v.push(KeyboardShortcut::new("arrow-up", "ArrowUp", "Move selection up"));
        v.push(KeyboardShortcut::new("arrow-down", "ArrowDown", "Move selection down"));
        v.push(KeyboardShortcut::new("arrow-left", "ArrowLeft", "Move selection left"));
        v.push(KeyboardShortcut::new("arrow-right", "ArrowRight", "Move selection right"));
        v
    }

    /// The first shortcut for `action`, if any.
    pub fn find(action: &str) -> (r: Option<Self>)
        ensures
            r matches Some(s) ==> exists|i: int|
                0 <= i < all_shortcuts().len() && (#[trigger] all_shortcuts()[i]).action == action@
                    && s@ == all_shortcuts()[i]
                    && forall|j: int| 0 <= j < i ==> (#[trigger] all_shortcuts()[j]).action != action@,
            r is None ==> forall|i: int| 0 <= i < all_shortcuts().len() ==> (#[trigger] all_shortcuts()[i]).action != action@,
    {
        let mut all = Self::all();
        let ghost table = all_shortcuts();
        let mut i: usize = 0;
        while i < all.len()
            invariant
                table == all_shortcuts(),
                all@.len() == table.len(),
                forall|k: int| 0 <= k < all@.len() ==> (#[trigger] all@[k])@ == table[k],
                i <= all@.len(),
                forall|j: int| 0 <= j < i ==> (#[trigger] table[j]).action != action@,
            decreases all@.len() - i,
        {
            if str_eq(all[i].action.as_str(), action) {
                let s = all.remove(i);
                assert(s@ == table[i as int]);
                return Some(s);
            }
            i = i + 1;
        }
        None
    }

    /// The shortcut as written: modifiers, then the key, joined by `+`
    /// (`ctrl+shift+S`), or the key alone.
    pub fn to_string(&self) -> (r: String)
        ensures
            r@ == shortcut_text(self@.modifiers, self@.key),
    {
        if self.modifiers.len() == 0 {
            return self.key.clone();
        }
        let ghost mods = self@.modifiers;
        let mut s = String::new();
        let mut i: usize = 0;
        while i < self.modifiers.len()
            invariant
                mods == self@.modifiers,
                mods.len() == self.modifiers@.len(),
                0 < self.modifiers@.len(),
                i <= self.modifiers@.len(),
                s@ == joined(mods.take(i as int), "+"@),
            decreases self.modifiers@.len() - i,
        {
            let ghost before = s@;
            if i > 0 {
                s.append("+");
            }
            s.append(self.modifiers[i].as_str());
            assert(mods.take(i + 1).drop_last() =~= mods.take(i as int));
            assert(mods[i as int] == self.modifiers@[i as int]@);
            if i == 0 {
                assert(mods.take(1) =~= seq![mods[0]]);
                assert(s@ =~= mods[0]);
            } else {
                assert(s@ =~= before + "+"@ + mods[i as int]);
            }
            i = i + 1;
        }
        assert(mods.take(mods.len() as int) =~= mods);
        s.append("+");
        s.append(self.key.as_str());
        s
    }
}

} // verus!
