//! What holds of the store whatever it contains.

use vstd::prelude::*;
use vstd::utf8::{
    decode_utf8, encode_utf8, encode_utf8_decode_utf8, encode_utf8_valid_utf8, valid_utf8,
};
use crate::db::DatabaseThingView;
use crate::error::{DbErrorView, ErrorKind};
use crate::open::{open_existing, open_missing};
use crate::package_state::{PackageIssueFiledView, PackageNewView, PackageStateView};
use crate::state::StoreStateView;

verus! {

/// After a record has been added, a name is found exactly if it was found
/// before or is the name of the added record.
pub proof fn lemma_contains_after_add(
    state: StoreStateView,
    record: PackageStateView,
    name: Seq<char>,
)
    ensures
        state.add_record(record).contains(name) == (state.contains(name) || record.name()
            == name),
{
    let after = state.add_record(record);
    let last = state.packages.len() as int;
    if state.contains(name) {
        let i = choose|i: int|
            0 <= i < state.packages.len() && #[trigger] state.packages[i].name() == name;
        assert(after.packages[i].name() == name);
    }
    if record.name() == name {
        assert(after.packages[last].name() == name);
    }
    if after.contains(name) {
        let i = choose|i: int|
            0 <= i < after.packages.len() && #[trigger] after.packages[i].name() == name;
        if i < last {
            assert(state.packages[i].name() == name);
        }
    }
}

/// A package is found by its name as soon as it has been added, whatever
/// the state held before.
pub proof fn lemma_added_package_is_contained(
    state: StoreStateView,
    package: PackageNewView,
)
    ensures
        state.add_package(package).contains(package.name),
{
    lemma_contains_after_add(state, PackageStateView::New(package), package.name);
}

/// Every record that the state holds is found by its name, at whichever
/// stage the record is.
pub proof fn lemma_held_record_is_contained(state: StoreStateView, i: int)
    requires
        0 <= i < state.packages.len(),
    ensures
        state.contains(state.packages[i].name()),
        state.packages[i] matches PackageStateView::New(package) ==> state.contains(
            package.name,
        ),
        state.packages[i] matches PackageStateView::IssueFiled(package) ==> state.contains(
            package.name,
        ),
{
    let name = state.packages[i].name();
    assert(state.contains(name));
}

/// The stage of a record has no part in finding it: a newly seen package
/// and one with an issue filed are each found by their name, and where the
/// two carry the same name, holding the one or the other makes the same
/// names found.
pub proof fn lemma_contains_ignores_stage(
    state: StoreStateView,
    new: PackageNewView,
    filed: PackageIssueFiledView,
    name: Seq<char>,
)
    ensures
        state.add_record(PackageStateView::New(new)).contains(new.name),
        state.add_record(PackageStateView::IssueFiled(filed)).contains(filed.name),
        new.name == filed.name ==> state.add_record(PackageStateView::New(new)).contains(name)
            == state.add_record(PackageStateView::IssueFiled(filed)).contains(name),
{
    lemma_contains_after_add(state, PackageStateView::New(new), new.name);
    lemma_contains_after_add(state, PackageStateView::IssueFiled(filed), filed.name);
    lemma_contains_after_add(state, PackageStateView::New(new), name);
    lemma_contains_after_add(state, PackageStateView::IssueFiled(filed), name);
}

/// A teardown records whether it was abnormal and keeps every record; a
/// normal teardown of the empty state leaves the empty state.
pub proof fn lemma_teardown_records_how_it_ended(state: StoreStateView, abnormal: bool)
    ensures
        state.torn_down(abnormal).saved_on_panic == abnormal,
        state.torn_down(abnormal).packages == state.packages,
        StoreStateView::empty().torn_down(false) == StoreStateView::empty(),
{
}

/// A store comes out of an existing file only if the file was read, its
/// bytes are valid UTF-8 and the text they encode was parsed; the store
/// then holds exactly the parsed state. In every other case the attempt
/// fails: with an I/O error if the file could not be read, with a decode
/// error otherwise. The empty state is never put in place of a file that
/// could not be taken in.
pub proof fn lemma_existing_file_opens_to_parsed_state(
    filename: Seq<char>,
    read: Result<Seq<u8>, Seq<char>>,
    parse: spec_fn(Seq<char>) -> Result<StoreStateView, Seq<char>>,
)
    ensures
        match open_existing(filename, read, parse) {
            Ok(db) => {
                &&& read is Ok
                &&& valid_utf8(read->Ok_0)
                &&& parse(decode_utf8(read->Ok_0)) == Ok::<StoreStateView, Seq<char>>(
                    db.data,
                )
                &&& db.filename == filename
            },
            Err(failure) => if read is Err {
                failure.kind() == ErrorKind::Io
            } else {
                &&& failure.kind() == ErrorKind::Decode
                &&& !valid_utf8(read->Ok_0) || parse(decode_utf8(read->Ok_0)) is Err
            },
        },
{
}

/// What comes out of an existing file is decided by its bytes: two attempts
/// that read the same bytes and parse alike fail together or succeed
/// together, and then hold the same state, under whatever names the file
/// was opened.
pub proof fn lemma_same_bytes_open_to_same_state(
    first_name: Seq<char>,
    second_name: Seq<char>,
    bytes: Seq<u8>,
    parse: spec_fn(Seq<char>) -> Result<StoreStateView, Seq<char>>,
)
    ensures
        open_existing(first_name, Ok(bytes), parse) is Ok <==> open_existing(
            second_name,
            Ok(bytes),
            parse,
        ) is Ok,
        open_existing(first_name, Ok(bytes), parse) is Ok ==> open_existing(
            first_name,
            Ok(bytes),
            parse,
        )->Ok_0.data == open_existing(second_name, Ok(bytes), parse)->Ok_0.data,
{
}

/// A text that was written is taken back in unchanged: where the parser
/// recovers `state` from `text`, opening a file that holds the UTF-8 bytes
/// of `text` gives a store over exactly `state`.
pub proof fn lemma_written_text_reopens_to_its_state(
    filename: Seq<char>,
    state: StoreStateView,
    text: Seq<char>,
    parse: spec_fn(Seq<char>) -> Result<StoreStateView, Seq<char>>,
)
    requires
        parse(text) == Ok::<StoreStateView, Seq<char>>(state),
    ensures
        open_existing(filename, Ok(encode_utf8(text)), parse) == Ok::<
            DatabaseThingView,
            DbErrorView,
        >(DatabaseThingView { filename, data: state }),
{
    encode_utf8_valid_utf8(text);
    encode_utf8_decode_utf8(text);
}

/// A store comes out of a missing file exactly if the empty state was
/// rendered and the text was written; it then holds the empty state. A
/// rendering failure is an encode error, a write failure an I/O error.
pub proof fn lemma_missing_file_opens_to_empty_state(
    filename: Seq<char>,
    rendered: Result<Seq<char>, Seq<char>>,
    written: Result<(), Seq<char>>,
)
    ensures
        match open_missing(filename, rendered, written) {
            Ok(db) => {
                &&& rendered is Ok
                &&& written is Ok
                &&& db.filename == filename
                &&& db.data == StoreStateView::empty()
            },
            Err(failure) => if rendered is Err {
                failure.kind() == ErrorKind::Encode
            } else {
                written is Err && failure.kind() == ErrorKind::Io
            },
        },
{
}

} // verus!
