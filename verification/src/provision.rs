//! Destination provisioning: make sure a target directory exists and grant
//! the service account access, where the grant is best effort.
//!
//! The directories that exist are modelled as a set of paths; the caller
//! performs the real creation and hands its outcome to `provision_result`.

use vstd::prelude::*;
use vstd::string::*;
use crate::paths::contains_str;

verus! {

/// Why provisioning failed.
#[derive(Debug)]
pub enum ProvisionError {
    /// The directory chain could not be created.
    CreateFailed { message: String },
}

/// The set of destination directories that exist: the state `ensure` works
/// against.
pub struct DirSet {
    dirs: Vec<String>,
}

impl View for DirSet {
    type V = Set<Seq<char>>;

    closed spec fn view(&self) -> Set<Seq<char>> {
        self.dirs.deep_view().to_set()
    }
}

impl DirSet {
    /// An empty tree: nothing exists yet.
    pub fn new() -> (r: DirSet)
        ensures
            r@ == Set::<Seq<char>>::empty(),
    {
        let r = DirSet { dirs: Vec::new() };
        proof {
            assert(r.dirs.deep_view() =~= Seq::<Seq<char>>::empty());
            assert(r@ =~= Set::<Seq<char>>::empty());
        }
        r
    }

    /// A tree in which exactly the given directories exist.
    pub fn with_dirs(dirs: Vec<String>) -> (r: DirSet)
        ensures
            forall|p: Seq<char>| r@.contains(p) <==> dirs.deep_view().contains(p),
    {
        DirSet { dirs }
    }

    /// Whether `p` exists.
    pub fn contains_dir(&self, p: &str) -> (b: bool)
        ensures
            b == self@.contains(p@),
    {
        contains_str(&self.dirs, p)
    }

    /// Make sure `path` exists: a no-op when it already does, a creation
    /// otherwise. Reports whether anything was created.
    pub fn ensure(&mut self, path: &String) -> (created: bool)
        ensures
            final(self)@ == old(self)@.insert(path@),
            created == !old(self)@.contains(path@),
    {
        if self.contains_dir(path.as_str()) {
            proof {
                assert(self@ =~= self@.insert(path@));
            }
            false
        } else {
            let ghost before = self.dirs.deep_view();
            self.dirs.push(path.clone());
            proof {
                Seq::<Seq<char>>::lemma_to_set_insert_commutes(before, path@);
                assert(self.dirs.deep_view() =~= before + seq![path@]);
            }
            true
        }
    }
}

/// Provisioning is idempotent: a second `ensure` of the same path finds it
/// present, creates nothing more and leaves the tree as the first call left
/// it.
pub proof fn lemma_ensure_idempotent(dirs: Set<Seq<char>>, path: Seq<char>)
    ensures
        dirs.insert(path).insert(path) == dirs.insert(path),
        dirs.insert(path).contains(path),
{
    assert(dirs.insert(path).insert(path) =~= dirs.insert(path));
}

/// Whether provisioning succeeded: directory creation decides; the ACL
/// grant outcome never fails the operation, it is logged by the caller and
/// the files are written regardless.
pub fn provision_result(create_outcome: Result<(), String>, acl_ok: bool) -> (r: Result<
    (),
    ProvisionError,
>)
    ensures
        r is Ok <==> create_outcome is Ok,
        create_outcome matches Err(m) ==> r matches Err(e)
            && e matches ProvisionError::CreateFailed { message } && message == m,
{
    match create_outcome {
        Ok(()) => Ok(()),
        Err(m) => Err(ProvisionError::CreateFailed { message: m }),
    }
}

} // verus!
