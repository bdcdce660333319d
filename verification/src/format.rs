//! How the state is laid out when it is rendered as text.

use vstd::prelude::*;

verus! {

/// The layout options handed to the serializer.
#[derive(Debug, PartialEq, Eq)]
pub struct PrettyConfig {
    /// What ends a line.
    pub new_line: String,
    /// What one level of indentation consists of.
    pub indentor: String,
    /// Whether structs are written with their names.
    pub struct_names: bool,
}

/// Mathematical content of a [`PrettyConfig`].
pub struct PrettyConfigView {
    pub new_line: Seq<char>,
    pub indentor: Seq<char>,
    pub struct_names: bool,
}

impl PrettyConfigView {
    /// The layout of the backing file: lines end in a line feed, each level
    /// is indented by one tab, and structs carry their names.
    pub open spec fn standard() -> PrettyConfigView {
        PrettyConfigView { new_line: seq!['\n'], indentor: seq!['\t'], struct_names: true }
    }
}

impl View for PrettyConfig {
    type V = PrettyConfigView;

    open spec fn view(&self) -> PrettyConfigView {
        PrettyConfigView {
            new_line: self.new_line@,
            indentor: self.indentor@,
            struct_names: self.struct_names,
        }
    }
}

} // verus!
