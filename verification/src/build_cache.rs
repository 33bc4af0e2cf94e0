//! The clean-sets on disk: where each is kept, and how its bytes are read.

use vstd::prelude::*;
use vstd::string::*;
use crate::environment::Environment;
use crate::hashing::{hash_string, hashed, lemma_digest_is_entry_name};
use crate::paths::{is_entry_name, join, join_path, law_entry_is_direct_child, resolve};
use crate::text::{concat2, views};

verus! {

/// The strings of the set that `bytes` encode, where they encode one.
pub uninterp spec fn decoded_set(bytes: Seq<u8>) -> Option<Set<Seq<char>>>;

/// Calls `bitcode::decode` for a hash set of strings and lists its
/// members. Trusted: the members are a function of the bytes alone, and a
/// set lists none of them twice; their order is left open.
#[verifier::external_body]
pub(crate) fn decode_set(bytes: &[u8]) -> (r: Option<Vec<String>>)
    ensures
        match r {
            Some(v) => decoded_set(bytes@) == Some(views(v@).to_set()) && views(
                v@,
            ).no_duplicates(),
            None => decoded_set(bytes@) is None,
        },
{
    match bitcode::decode::<std::collections::HashSet<String>>(bytes) {
        Ok(set) => Some(set.into_iter().collect()),
        Err(_) => None,
    }
}

/// Calls `bitcode::encode` on the hash set of the strings, none of which
/// occurs twice. Trusted: decoding the bytes gives the set back, as the
/// crate shows for its encoder and decoder; nothing else is claimed of them.
#[verifier::external_body]
pub(crate) fn encode_set(items: &Vec<String>) -> (bytes: Vec<u8>)
    requires
        views(items@).no_duplicates(),
    ensures
        decoded_set(bytes@) == Some(views(items@).to_set()),
{
    let set: std::collections::HashSet<String> = items.iter().cloned().collect();
    bitcode::encode(&set)
}

/// The place of the clean-sets of a project.
#[derive(Clone, Debug)]
pub struct BuildCache {
    directory: String,
}

impl BuildCache {
    /// The directory that holds the clean-sets.
    pub closed spec fn directory(&self) -> Seq<char> {
        self.directory@
    }

    /// The file that holds the set called `array_name`: it is named by the
    /// digest of `array_name`, so that no character of a toolchain or of a
    /// target reaches the file system.
    pub open spec fn set_file_of(directory: Seq<char>, array_name: Seq<char>) -> Seq<char> {
        join(directory, hashed(array_name) + ".bcache"@)
    }

    /// The clean-sets of the project of `environment`.
    pub fn new(environment: &Environment) -> (c: BuildCache)
        ensures
            c.directory() == join(environment.numake_directory@, ".cache"@),
    {
        BuildCache { directory: join_path(environment.numake_directory.as_str(), ".cache") }
    }

    /// The file that holds the set called `array_name`: a direct child of
    /// the directory of the clean-sets.
    pub fn set_file(&self, array_name: &str) -> (r: String)
        ensures
            r@ == Self::set_file_of(self.directory(), array_name@),
            is_entry_name(hashed(array_name@) + ".bcache"@),
            resolve(self.directory()) is Some ==> resolve(r@) == Some(
                resolve(self.directory())->0.push(hashed(array_name@) + ".bcache"@),
            ),
    {
        let hash = hash_string(&String::from_str(array_name));
        let name = concat2(hash.as_str(), ".bcache");
        proof {
            lemma_digest_is_entry_name(hash@);
            if resolve(self.directory()) is Some {
                law_entry_is_direct_child(self.directory(), name@);
            }
        }
        join_path(self.directory.as_str(), name.as_str())
    }

    /// Where to write the set called `array_name`, and the bytes to write:
    /// bytes that decode to the members of `contents`. A set holds no string
    /// twice.
    pub fn write_set(&self, array_name: &str, contents: &Vec<String>) -> (r: (String, Vec<u8>))
        requires
            views(contents@).no_duplicates(),
        ensures
            r.0@ == Self::set_file_of(self.directory(), array_name@),
            decoded_set(r.1@) == Some(views(contents@).to_set()),
    {
        (self.set_file(array_name), encode_set(contents))
    }

    /// What the stored set holds, given the members that its bytes decode
    /// to: nothing where there is no file or where the bytes are no set.
    pub fn stored_set(members: Option<Vec<String>>) -> (set: Vec<String>)
        ensures
            set@ == match members {
                Some(v) => v@,
                None => Seq::<String>::empty(),
            },
    {
        match members {
            Some(v) => v,
            None => Vec::new(),
        }
    }

    /// Reads a stored set from the bytes of its file, `None` where there is
    /// no file. A missing file and bytes that are no set give the empty
    /// set; no string is listed twice.
    pub fn read_set(stored: Option<&[u8]>) -> (set: Vec<String>)
        ensures
            views(set@).no_duplicates(),
            views(set@).to_set() == match stored {
                Some(bytes) => match decoded_set(bytes@) {
                    Some(s) => s,
                    None => Set::<Seq<char>>::empty(),
                },
                None => Set::<Seq<char>>::empty(),
            },
    {
        let members = match stored {
            Some(bytes) => decode_set(bytes),
            None => None,
        };
        let set = Self::stored_set(members);
        proof {
            if set@.len() == 0 {
                assert(views(set@).to_set() =~= Set::<Seq<char>>::empty());
            }
        }
        set
    }
}

} // verus!
