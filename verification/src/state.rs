//! The persisted state: the records in insertion order and one flag.

use vstd::prelude::*;
use crate::package_state::{PackageNewView, PackageState, PackageStateView};
use crate::text::same_text;

verus! {

/// Everything that is written to the backing file.
///
/// Records stay in the order in which they were added, and the same name
/// may occur more than once.
#[derive(Debug, PartialEq, Eq)]
pub struct StoreState {
    /// Whether the last teardown happened during an abnormal unwind.
    pub saved_on_panic: bool,
    pub packages: Vec<PackageState>,
}

/// Mathematical content of a [`StoreState`].
pub struct StoreStateView {
    pub saved_on_panic: bool,
    pub packages: Seq<PackageStateView>,
}

impl StoreStateView {
    /// The state of a store that has never held a record.
    pub open spec fn empty() -> StoreStateView {
        StoreStateView { saved_on_panic: false, packages: Seq::empty() }
    }

    /// Whether some record, at either stage, carries exactly this name.
    pub open spec fn contains(self, name: Seq<char>) -> bool {
        exists|i: int| 0 <= i < self.packages.len() && #[trigger] self.packages[i].name() == name
    }

    /// The state with `record` appended after all present records.
    pub open spec fn add_record(self, record: PackageStateView) -> StoreStateView {
        StoreStateView {
            saved_on_panic: self.saved_on_panic,
            packages: self.packages.push(record),
        }
    }

    /// The state with `package` appended as a newly seen package.
    pub open spec fn add_package(self, package: PackageNewView) -> StoreStateView {
        self.add_record(PackageStateView::New(package))
    }

    /// The state as a teardown leaves it: the records untouched, the flag
    /// saying whether the teardown was abnormal.
    pub open spec fn torn_down(self, abnormal: bool) -> StoreStateView {
        StoreStateView { saved_on_panic: abnormal, packages: self.packages }
    }
}

impl View for StoreState {
    type V = StoreStateView;

    open spec fn view(&self) -> StoreStateView {
        StoreStateView {
            saved_on_panic: self.saved_on_panic,
            packages: self.packages@.map_values(|record: PackageState| record@),
        }
    }
}

impl Clone for StoreState {
    fn clone(&self) -> (copy: Self)
        ensures
            copy@ == self@,
    {
        let mut packages: Vec<PackageState> = Vec::new();
        let mut i: usize = 0;
        while i < self.packages.len()
            invariant
                i <= self.packages.len(),
                packages.len() == i,
                forall|j: int| 0 <= j < i ==> packages@[j]@ == self.packages@[j]@,
            decreases self.packages.len() - i,
        {
            packages.push(self.packages[i].clone());
            i = i + 1;
        }
        let copy = StoreState { saved_on_panic: self.saved_on_panic, packages };
        assert(copy@.packages =~= self@.packages);
        copy
    }
}

impl StoreState {
    /// The state of a store that has never held a record.
    pub fn new() -> (data: Self)
        ensures
            data@ == StoreStateView::empty(),
    {
        let data = StoreState { saved_on_panic: false, packages: Vec::new() };
        assert(data@.packages =~= Seq::empty());
        data
    }

    /// Appends `record` after all present records. Names are not checked
    /// for uniqueness.
    pub fn add_record(&mut self, record: PackageState)
        ensures
            final(self)@ == old(self)@.add_record(record@),
    {
        self.packages.push(record);
        assert(self@.packages =~= old(self)@.packages.push(record@));
    }

    /// Whether some record, at either stage, carries exactly this name.
    /// The comparison is case-sensitive.
    pub fn contains_package(&self, package_name: &str) -> (found: bool)
        ensures
            found == self@.contains(package_name@),
    {
        let mut i: usize = 0;
        while i < self.packages.len()
            invariant
                i <= self.packages.len(),
                forall|j: int|
                    0 <= j < i ==> (#[trigger] self@.packages[j]).name() != package_name@,
            decreases self.packages.len() - i,
        {
            if same_text(self.packages[i].name().as_str(), package_name) {
                assert(self@.packages[i as int].name() == package_name@);
                return true;
            }
            i = i + 1;
        }
        false
    }

    /// The number of records held.
    pub fn len(&self) -> (count: usize)
        ensures
            count == self@.packages.len(),
    {
        self.packages.len()
    }
}

} // verus!
