//! The store: the persisted state together with where it is kept.

use vstd::prelude::*;
use vstd::string::StringExecFns;
use std::time::SystemTime;
use crate::flush::Flushing;
use crate::format::{PrettyConfig, PrettyConfigView};
use crate::open::{Opening, OpeningView};
use crate::package_state::{PackageNew, PackageState};
use crate::state::{StoreState, StoreStateView};
use crate::text::{decimal, decimal_digits};

verus! {

/// What the store knows about its backing file. None of it is persisted.
#[derive(Debug)]
struct StoreMeta {
    filename: String,
    /// When a flush was last attempted, or when the store was opened.
    last_write_call_time: SystemTime,
}

/// A store of package records backed by one file.
///
/// The store owns its state. A store comes into being only at the end of an
/// open attempt, see [`DatabaseThing::new`].
#[derive(Debug)]
pub struct DatabaseThing {
    meta: StoreMeta,
    data: StoreState,
}

/// Mathematical content of a [`DatabaseThing`]: the name of its backing
/// file and the state that a flush would write.
pub struct DatabaseThingView {
    pub filename: Seq<char>,
    pub data: StoreStateView,
}

/// What a teardown shows: that the shutdown is abnormal, if it is, and how
/// many records the store holds.
pub open spec fn teardown_summary(abnormal: bool, total_packages: nat) -> Seq<char> {
    let stats = "db stats:\n   total packages: "@ + decimal_digits(total_packages);
    if abnormal {
        "db dropped because of panick!\n"@ + stats
    } else {
        stats
    }
}

impl View for DatabaseThing {
    type V = DatabaseThingView;

    closed spec fn view(&self) -> DatabaseThingView {
        DatabaseThingView { filename: self.meta.filename@, data: self.data@ }
    }
}

impl DatabaseThing {
    /// When a flush was last attempted, or when the store was opened.
    pub closed spec fn flushed_at(&self) -> SystemTime {
        self.meta.last_write_call_time
    }

    /// Begins opening the store kept in `filename`, given whether that file
    /// exists. An existing file is to be loaded; a missing one is to be
    /// created holding the empty state.
    pub fn new(filename: &str, exists: bool) -> (opening: Opening)
        ensures
            opening@ == OpeningView::begin(filename@, exists),
    {
        Opening::begin(filename, exists)
    }

    /// A store over `data`, kept in `filename`, last touched at `now`.
    pub(crate) fn assemble(filename: String, data: StoreState, now: SystemTime) -> (db: Self)
        ensures
            db@ == (DatabaseThingView { filename: filename@, data: data@ }),
            db.flushed_at() == now,
    {
        DatabaseThing { meta: StoreMeta { filename, last_write_call_time: now }, data }
    }

    /// Appends `record` after all present records. Nothing is written to
    /// the backing file, and the name may already be present.
    pub fn add_record(&mut self, record: PackageState)
        ensures
            final(self)@.filename == old(self)@.filename,
            final(self)@.data == old(self)@.data.add_record(record@),
            final(self)@.data.contains(record@.name()),
            final(self).flushed_at() == old(self).flushed_at(),
    {
        proof {
            crate::laws::lemma_contains_after_add(old(self)@.data, record@, record@.name());
        }
        self.data.add_record(record);
    }

    /// Appends a copy of `package` as a newly seen package, after all
    /// present records. Nothing is written to the backing file, and the
    /// name may already be present. This cannot fail.
    pub fn add_package(&mut self, package: &PackageNew) -> (done: Result<(), String>)
        ensures
            done is Ok,
            final(self)@.filename == old(self)@.filename,
            final(self)@.data == old(self)@.data.add_package(package@),
            final(self)@.data.contains(package@.name),
            final(self).flushed_at() == old(self).flushed_at(),
    {
        self.add_record(PackageState::New(package.clone()));
        Ok(())
    }

    /// Whether some record, at either stage, carries exactly this name. The
    /// comparison is case-sensitive.
    pub fn contains_package(&self, package_name: &str) -> (found: bool)
        ensures
            found == self@.data.contains(package_name@),
    {
        self.data.contains_package(package_name)
    }

    /// The name of the backing file.
    pub fn filename(&self) -> (filename: &String)
        ensures
            filename@ == self@.filename,
    {
        &self.meta.filename
    }

    /// The state that a flush would write.
    pub fn data(&self) -> (data: &StoreState)
        ensures
            data@ == self@.data,
    {
        &self.data
    }

    /// When a flush was last attempted, or when the store was opened.
    pub fn last_write_call_time(&self) -> (time: SystemTime)
        ensures
            time == self.flushed_at(),
    {
        self.meta.last_write_call_time
    }

    /// The layout in which the state is rendered: lines end in a line feed,
    /// each level is indented by one tab, and structs carry their names.
    pub fn pretty_config() -> (config: PrettyConfig)
        ensures
            config@ == PrettyConfigView::standard(),
    {
        proof {
            reveal_strlit("\n");
            reveal_strlit("\t");
        }
        let config = PrettyConfig {
            new_line: "\n".to_owned(),
            indentor: "\t".to_owned(),
            struct_names: true,
        };
        assert(config@.new_line =~= seq!['\n']);
        assert(config@.indentor =~= seq!['\t']);
        config
    }

    /// Begins a flush attempted at `now`: records the attempt and leaves the
    /// state as it is. What is to be rendered is [`DatabaseThing::data`].
    pub fn flush_at(&mut self, now: SystemTime) -> (flushing: Flushing)
        ensures
            final(self)@ == old(self)@,
            final(self).flushed_at() == now,
            flushing@.filename == old(self)@.filename,
    {
        self.meta.last_write_call_time = now;
        Flushing::begin(&self.meta.filename)
    }

    /// Begins a flush now. The moment recorded is whatever the system clock
    /// says; the state is left as it is. What is to be rendered is
    /// [`DatabaseThing::data`].
    pub fn flush(&mut self) -> (flushing: Flushing)
        ensures
            final(self)@ == old(self)@,
            flushing@.filename == old(self)@.filename,
    {
        let now = SystemTime::now();
        self.flush_at(now)
    }

    /// Marks the state for shutdown: afterwards `saved_on_panic` says
    /// whether the shutdown is `abnormal`, and the records are untouched.
    /// Returns the shutdown summary, which is to be shown. A flush is to
    /// follow.
    pub fn teardown(&mut self, abnormal: bool) -> (summary: String)
        ensures
            final(self)@.filename == old(self)@.filename,
            final(self)@.data == old(self)@.data.torn_down(abnormal),
            final(self)@.data.saved_on_panic == abnormal,
            final(self).flushed_at() == old(self).flushed_at(),
            summary@ == teardown_summary(abnormal, old(self)@.data.packages.len()),
    {
        self.data.saved_on_panic = abnormal;
        let mut summary: String = if abnormal {
            "db dropped because of panick!\n".to_owned()
        } else {
            String::new()
        };
        summary.append("db stats:\n   total packages: ");
        summary.append(decimal(self.data.len()).as_str());
        assert(summary@ =~= teardown_summary(abnormal, old(self)@.data.packages.len()));
        summary
    }
}

} // verus!
