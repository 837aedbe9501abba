//! Catalogue data for the showcase, and loaders over it.
use vstd::prelude::*;

pub mod capability_demo;
pub mod category;
pub mod code_example;
pub mod demos;
pub mod keyboard;
pub mod performance_metric;
pub mod responsive;
pub mod text;

pub use capability_demo::{
    get_all_demos, get_interactive_demos, CapabilityDemo, DemoValidationError, Difficulty,
};
pub use category::{get_showcase_categories, Category, CategoryValidationError};
pub use code_example::{find_example, get_code_examples, CodeExample, ExampleValidationError};
pub use demos::{get_demo_registry, DemoRegistry, DemoRegistryEntry};
pub use keyboard::KeyboardShortcut;
pub use performance_metric::{MetricType, MetricValidationError};
pub use responsive::{get_responsive_config, ResponsiveBreakpoint, ResponsiveConfig};

use capability_demo::{all_demos, demo_check, demos_match, DemoView};
use category::{categories_match, category_check, showcase_categories, CategoryView};
use text::str_eq;

verus! {

/// Load all demo categories
pub fn load_categories() -> (r: Vec<Category>)
    ensures
        categories_match(r@, showcase_categories()),
{
    get_showcase_categories()
}

/// Load all demos
pub fn load_demos() -> (r: Vec<CapabilityDemo>)
    ensures
        demos_match(r@, all_demos()),
{
    get_all_demos()
}

/// The demos of `table` that belong to category `category`, in order.
pub open spec fn demos_in_category(table: Seq<DemoView>, category: Seq<char>) -> Seq<DemoView> {
    table.filter(|d: DemoView| d.category == category)
}

/// Load demos by category
pub fn load_demos_by_category(category_id: &str) -> (r: Vec<CapabilityDemo>)
    ensures
        demos_match(r@, demos_in_category(all_demos(), category_id@)),
{
    let mut rest = get_all_demos();
    let ghost table = all_demos();
    let mut out: Vec<CapabilityDemo> = Vec::new();
    let mut i: usize = 0;
    let n = rest.len();
    while i < n
        invariant
            n == table.len(),
            i <= n,
            rest@.len() == n - i,
            forall|j: int| 0 <= j < rest@.len() ==> (#[trigger] rest@[j])@ == table[i + j],
            demos_match(out@, demos_in_category(table.take(i as int), category_id@)),
        decreases n - i,
    {
        let d = rest.remove(0);
        assert(d@ == table[i as int]);
        assert(table.take(i as int + 1).drop_last() =~= table.take(i as int));
        reveal(Seq::filter);
        if str_eq(d.category.as_str(), category_id) {
            out.push(d);
        }
        i = i + 1;
        assert forall|j: int| 0 <= j < rest@.len() implies (#[trigger] rest@[j])@ == table[i + j] by {
        }
    }
    assert(table.take(n as int) =~= table);
    out
}

/// `r` is the first entry of `table` whose id is `id`, or `None` when there
/// is no such entry.
pub open spec fn first_with_id<V>(table: Seq<V>, ids: spec_fn(V) -> Seq<char>, id: Seq<char>, r: Option<V>) -> bool {
    match r {
        Some(v) => exists|i: int|
            0 <= i < table.len() && ids(#[trigger] table[i]) == id && v == table[i]
                && forall|j: int| 0 <= j < i ==> ids(#[trigger] table[j]) != id,
        None => forall|i: int| 0 <= i < table.len() ==> ids(#[trigger] table[i]) != id,
    }
}

/// Find a demo by ID
pub fn find_demo(demo_id: &str) -> (r: Option<CapabilityDemo>)
    ensures
        first_with_id(all_demos(), |d: DemoView| d.id, demo_id@, match r {
            Some(d) => Some(d@),
            None => None,
        }),
{
    let mut all = get_all_demos();
    let ghost table = all_demos();
    let mut i: usize = 0;
    while i < all.len()
        invariant
            table == all_demos(),
            demos_match(all@, table),
            i <= all@.len(),
            forall|j: int| 0 <= j < i ==> (#[trigger] table[j]).id != demo_id@,
        decreases all@.len() - i,
    {
        if str_eq(all[i].id.as_str(), demo_id) {
            let d = all.remove(i);
            assert(d@ == table[i as int]);
            return Some(d);
        }
        i = i + 1;
    }
    None
}

/// Find a category by ID
pub fn find_category(category_id: &str) -> (r: Option<Category>)
    ensures
        first_with_id(showcase_categories(), |c: CategoryView| c.id, category_id@, match r {
            Some(c) => Some(c@),
            None => None,
        }),
{
    let mut all = get_showcase_categories();
    let ghost table = showcase_categories();
    let mut i: usize = 0;
    while i < all.len()
        invariant
            table == showcase_categories(),
            categories_match(all@, table),
            i <= all@.len(),
            forall|j: int| 0 <= j < i ==> (#[trigger] table[j]).id != category_id@,
        decreases all@.len() - i,
    {
        if str_eq(all[i].id.as_str(), category_id) {
            let c = all.remove(i);
            assert(c@ == table[i as int]);
            return Some(c);
        }
        i = i + 1;
    }
    None
}

/// Which catalogue entry failed validation, and why.
#[derive(Debug, Clone, PartialEq)]
pub enum DataValidationError {
    CategoryError(String, CategoryValidationError),
    DemoError(String, DemoValidationError),
}

/// Every category of `cats` passes validation.
pub open spec fn categories_valid(cats: Seq<CategoryView>) -> bool {
    forall|i: int| 0 <= i < cats.len() ==> category_check(#[trigger] cats[i]) is Ok
}

/// Every demo of `demos` passes validation.
pub open spec fn demos_valid(demos: Seq<DemoView>) -> bool {
    forall|i: int| 0 <= i < demos.len() ==> demo_check(#[trigger] demos[i]) is Ok
}

/// What `validate_all_data` reports: nothing when every category and every
/// demo is valid; otherwise the first failing category, or when all
/// categories pass, the first failing demo.
pub open spec fn validation_report(cats: Seq<CategoryView>, demos: Seq<DemoView>, r: Result<(), DataValidationError>) -> bool {
    match r {
        Ok(()) => categories_valid(cats) && demos_valid(demos),
        Err(DataValidationError::CategoryError(id, e)) => exists|i: int|
            0 <= i < cats.len() && (#[trigger] cats[i]).id == id@ && category_check(cats[i]) == Err::<(), CategoryValidationError>(e)
                && categories_valid(cats.take(i)),
        Err(DataValidationError::DemoError(id, e)) => categories_valid(cats) && exists|i: int|
            0 <= i < demos.len() && (#[trigger] demos[i]).id == id@ && demo_check(demos[i]) == Err::<(), DemoValidationError>(e)
                && demos_valid(demos.take(i)),
    }
}

/// Validate all loaded data
pub fn validate_all_data() -> (r: Result<(), DataValidationError>)
    ensures
        validation_report(showcase_categories(), all_demos(), r),
{
    let cats = load_categories();
    let ghost ctable = showcase_categories();
    let mut i: usize = 0;
    while i < cats.len()
        invariant
            ctable == showcase_categories(),
            categories_match(cats@, ctable),
            i <= cats@.len(),
            categories_valid(ctable.take(i as int)),
        decreases cats@.len() - i,
    {
        match cats[i].validate() {
            Ok(()) => {},
            Err(e) => {
                let id = cats[i].id.clone();
                return Err(DataValidationError::CategoryError(id, e));
            },
        }
        assert forall|j: int| 0 <= j < i + 1 implies category_check(#[trigger] ctable.take(i + 1)[j]) is Ok by {
            if j < i {
                assert(ctable.take(i as int)[j] == ctable.take(i + 1)[j]);
            }
        }
        i = i + 1;
    }
    assert(ctable.take(cats@.len() as int) =~= ctable);

    let demos = load_demos();
    let ghost dtable = all_demos();
    let mut k: usize = 0;
    while k < demos.len()
        invariant
            dtable == all_demos(),
            ctable == showcase_categories(),
            categories_valid(ctable),
            demos_match(demos@, dtable),
            k <= demos@.len(),
            demos_valid(dtable.take(k as int)),
        decreases demos@.len() - k,
    {
        match demos[k].validate() {
            Ok(()) => {},
            Err(e) => {
                let id = demos[k].id.clone();
                return Err(DataValidationError::DemoError(id, e));
            },
        }
        assert forall|j: int| 0 <= j < k + 1 implies demo_check(#[trigger] dtable.take(k + 1)[j]) is Ok by {
            if j < k {
                assert(dtable.take(k as int)[j] == dtable.take(k + 1)[j]);
            }
        }
        k = k + 1;
    }
    assert(dtable.take(demos@.len() as int) =~= dtable);
    Ok(())
}

} // verus!
