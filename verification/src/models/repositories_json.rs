//! What a server says of itself in `cvmfs/info/v1/repositories.json`.

use vstd::prelude::*;
use crate::models::generic::MaybeRfc2822DateTime;

verus! {

/// One repository or replica in a server's self-description.
#[derive(Debug, PartialEq)]
pub struct RepositoriesJSONRepo {
    pub name: String,
    pub url: String,
}

impl Clone for RepositoriesJSONRepo {
    fn clone(&self) -> (r: Self)
        ensures
            r == *self,
    {
        RepositoriesJSONRepo { name: self.name.clone(), url: self.url.clone() }
    }
}

/// The names of the repositories, in order.
pub open spec fn repo_names(repos: Seq<RepositoriesJSONRepo>) -> Seq<Seq<char>> {
    Seq::new(repos.len(), |i: int| repos[i].name@)
}

/// A server's self-description: the schema of the document, facts about the host,
/// and the repositories and replicas that it serves.
#[derive(Debug, Clone, PartialEq)]
pub struct RepositoriesJSON {
    pub schema: u32,
    pub last_geodb_update: MaybeRfc2822DateTime,
    pub cvmfs_version: Option<String>,
    pub os_id: Option<String>,
    pub os_version_id: Option<String>,
    pub os_pretty_name: Option<String>,
    pub repositories: Vec<RepositoriesJSONRepo>,
    pub replicas: Vec<RepositoriesJSONRepo>,
}

impl RepositoriesJSON {
    /// The names that the server advertises: those of its repositories, then those of
    /// its replicas.
    pub open spec fn advertised_names(&self) -> Seq<Seq<char>> {
        repo_names(self.repositories@ + self.replicas@)
    }

    /// The repositories, followed by the replicas.
    pub fn repositories_and_replicas(&self) -> (r: Vec<RepositoriesJSONRepo>)
        ensures
            r@ == self.repositories@ + self.replicas@,
    {
        let mut repos = self.repositories.clone();
        assert(repos@ =~= self.repositories@);
        let mut i: usize = 0;
        while i < self.replicas.len()
            invariant
                i <= self.replicas.len(),
                repos@ == self.repositories@ + self.replicas@.take(i as int),
            decreases self.replicas.len() - i,
        {
            repos.push(self.replicas[i].clone());
            assert(self.replicas@.take(i + 1) =~= self.replicas@.take(i as int).push(
                self.replicas[i as int],
            ));
            i += 1;
        }
        assert(self.replicas@.take(self.replicas.len() as int) =~= self.replicas@);
        repos
    }
}

} // verus!
