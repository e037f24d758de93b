//! Launch profiles: what a tab's process is started from.

use vstd::prelude::*;
use std::collections::HashMap;

verus! {

/// A named launch configuration. Without a `command` the tab runs the
/// default interactive shell.
#[derive(Debug, Clone)]
pub struct Profile {
    pub name: String,
    pub command: Option<String>,
    pub args: Vec<String>,
    pub cwd: Option<String>,
    pub env: HashMap<String, String>,
    pub scrollback: Option<usize>,
}

/// The two shapes of a profile file: a bare list of profiles, or an object
/// that holds the list under `profiles`.
#[derive(Debug)]
pub enum ProfilesFile {
    List(Vec<Profile>),
    Object { profiles: Vec<Profile> },
}

impl ProfilesFile {
    /// The profiles that the file lists, in the file's order.
    pub open spec fn listed(self) -> Seq<Profile> {
        match self {
            ProfilesFile::List(list) => list@,
            ProfilesFile::Object { profiles } => profiles@,
        }
    }

    pub fn into_profiles(self) -> (profiles: Vec<Profile>)
        ensures
            profiles@ == self.listed(),
    {
        match self {
            ProfilesFile::List(list) => list,
            ProfilesFile::Object { profiles } => profiles,
        }
    }
}

} // verus!
