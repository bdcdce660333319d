//! The records kept by the store.

use vstd::prelude::*;

verus! {

/// Where the sources of a newly seen package live.
#[derive(Debug, PartialEq, Eq)]
pub struct Repository {
    pub kind: String,
    pub url: String,
}

/// Mathematical content of a [`Repository`].
pub struct RepositoryView {
    pub kind: Seq<char>,
    pub url: Seq<char>,
}

impl View for Repository {
    type V = RepositoryView;

    open spec fn view(&self) -> RepositoryView {
        RepositoryView { kind: self.kind@, url: self.url@ }
    }
}

impl Clone for Repository {
    fn clone(&self) -> (copy: Self)
        ensures
            copy@ == self@,
    {
        Repository { kind: self.kind.clone(), url: self.url.clone() }
    }
}

/// A package that has been seen in the registry and not acted upon yet.
#[derive(Debug, PartialEq, Eq)]
pub struct PackageNew {
    pub name: String,
    pub repository: Repository,
    pub downloads: u32,
    pub stargazers: u32,
}

/// Mathematical content of a [`PackageNew`].
pub struct PackageNewView {
    pub name: Seq<char>,
    pub repository: RepositoryView,
    pub downloads: u32,
    pub stargazers: u32,
}

impl View for PackageNew {
    type V = PackageNewView;

    open spec fn view(&self) -> PackageNewView {
        PackageNewView {
            name: self.name@,
            repository: self.repository@,
            downloads: self.downloads,
            stargazers: self.stargazers,
        }
    }
}

impl Clone for PackageNew {
    fn clone(&self) -> (copy: Self)
        ensures
            copy@ == self@,
    {
        PackageNew {
            name: self.name.clone(),
            repository: self.repository.clone(),
            downloads: self.downloads,
            stargazers: self.stargazers,
        }
    }
}

/// A package against which an issue has been filed. Its repository is a
/// pair of strings, not a [`Repository`]: the two shapes are kept apart.
#[derive(Debug, PartialEq, Eq)]
pub struct PackageIssueFiled {
    pub name: String,
    pub repository: (String, String),
    pub downloads: u32,
    pub stargazers: u32,
}

/// Mathematical content of a [`PackageIssueFiled`].
pub struct PackageIssueFiledView {
    pub name: Seq<char>,
    pub repository: (Seq<char>, Seq<char>),
    pub downloads: u32,
    pub stargazers: u32,
}

impl View for PackageIssueFiled {
    type V = PackageIssueFiledView;

    open spec fn view(&self) -> PackageIssueFiledView {
        PackageIssueFiledView {
            name: self.name@,
            repository: (self.repository.0@, self.repository.1@),
            downloads: self.downloads,
            stargazers: self.stargazers,
        }
    }
}

impl Clone for PackageIssueFiled {
    fn clone(&self) -> (copy: Self)
        ensures
            copy@ == self@,
    {
        PackageIssueFiled {
            name: self.name.clone(),
            repository: (self.repository.0.clone(), self.repository.1.clone()),
            downloads: self.downloads,
            stargazers: self.stargazers,
        }
    }
}

/// One tracked package, at either stage of its life.
#[derive(Debug, PartialEq, Eq)]
pub enum PackageState {
    New(PackageNew),
    IssueFiled(PackageIssueFiled),
}

/// Mathematical content of a [`PackageState`].
pub enum PackageStateView {
    New(PackageNewView),
    IssueFiled(PackageIssueFiledView),
}

impl PackageStateView {
    /// The package's name, whichever stage the record is at.
    pub open spec fn name(self) -> Seq<char> {
        match self {
            PackageStateView::New(package) => package.name,
            PackageStateView::IssueFiled(package) => package.name,
        }
    }
}

impl View for PackageState {
    type V = PackageStateView;

    open spec fn view(&self) -> PackageStateView {
        match self {
            PackageState::New(package) => PackageStateView::New(package@),
            PackageState::IssueFiled(package) => PackageStateView::IssueFiled(package@),
        }
    }
}

impl Clone for PackageState {
    fn clone(&self) -> (copy: Self)
        ensures
            copy@ == self@,
    {
        match self {
            PackageState::New(package) => PackageState::New(package.clone()),
            PackageState::IssueFiled(package) => PackageState::IssueFiled(package.clone()),
        }
    }
}

impl PackageState {
    /// The package's name, whichever stage the record is at.
    pub fn name(&self) -> (name: &String)
        ensures
            name@ == self@.name(),
    {
        match self {
            PackageState::New(package) => &package.name,
            PackageState::IssueFiled(package) => &package.name,
        }
    }
}

} // verus!
