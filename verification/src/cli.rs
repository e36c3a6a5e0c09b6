//! The arguments of the command line, as plain data.

use crate::minecraft::LoaderType;
use crate::resolver::{views, PackageQuery};
use std::path::PathBuf;
use vstd::prelude::*;

verus! {

#[verifier::external_type_specification]
#[verifier::external_body]
pub struct ExPathBuf(PathBuf);

/// The parsed command line.
#[derive(Debug)]
pub struct Cli {
    pub command: Commands,
}

/// The subcommands.
#[derive(Debug)]
pub enum Commands {
    InstallModrinthModpack(InstallModrinthModpackArgs),
}

/// The arguments of the installation of a modpack.
#[derive(Debug)]
pub struct InstallModrinthModpackArgs {
    /// The identifier of the project on the registry.
    pub project: String,
    /// The directory that receives the files.
    pub output_directory: PathBuf,
    /// `latest`, or a part of the wanted version number.
    pub version: String,
    /// The game versions to filter by.
    pub game_version: Option<Vec<String>>,
    /// The loaders to filter by.
    pub loader: Option<Vec<LoaderType>>,
}

/// The list behind an optional list of loaders: empty where there is none.
pub open spec fn loaders_of(loader: Option<Vec<LoaderType>>) -> Seq<LoaderType> {
    match loader {
        None => Seq::empty(),
        Some(list) => list@,
    }
}

/// The views of an optional list of strings.
pub open spec fn optional_views(items: Option<Vec<String>>) -> Option<Seq<Seq<char>>> {
    match items {
        None => None,
        Some(list) => Some(views(list@)),
    }
}

impl InstallModrinthModpackArgs {
    /// The query that these arguments ask for.
    pub fn query(&self) -> (query: PackageQuery)
        ensures
            query.package_id@ == self.project@,
            query.version_selector@ == self.version@,
            query.loaders@ == loaders_of(self.loader),
            optional_views(query.game_versions) == optional_views(self.game_version),
    {
        let loaders = match &self.loader {
            None => Vec::new(),
            Some(list) => copy_loaders(list),
        };
        let game_versions = match &self.game_version {
            None => None,
            Some(list) => Some(copy_strings(list)),
        };
        PackageQuery {
            package_id: self.project.clone(),
            loaders,
            game_versions,
            version_selector: self.version.clone(),
        }
    }
}

fn copy_loaders(list: &Vec<LoaderType>) -> (copy: Vec<LoaderType>)
    ensures
        copy@ == list@,
{
    let mut copy: Vec<LoaderType> = Vec::new();
    let mut i: usize = 0;
    while i < list.len()
        invariant
            i <= list.len(),
            copy@ == list@.take(i as int),
        decreases list.len() - i,
    {
        copy.push(list[i]);
        i += 1;
        assert(copy@ =~= list@.take(i as int));
    }
    assert(list@.take(i as int) =~= list@);
    copy
}

fn copy_strings(list: &Vec<String>) -> (copy: Vec<String>)
    ensures
        views(copy@) == views(list@),
{
    let mut copy: Vec<String> = Vec::new();
    let mut i: usize = 0;
    while i < list.len()
        invariant
            i <= list.len(),
            copy@.len() == i,
            forall|k: int| 0 <= k < i ==> (#[trigger] copy@[k])@ == list@[k]@,
        decreases list.len() - i,
    {
        copy.push(list[i].clone());
        i += 1;
    }
    assert(views(copy@) =~= views(list@));
    copy
}

} // verus!
