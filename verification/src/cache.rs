//! The persistent store of a workspace: a table of values under hashed
//! keys, a second table for the values that scripts see, and the names of
//! the files and directories that hold blobs.

use vstd::prelude::*;
use vstd::string::*;
use crate::blob::{bz_compressed, bz_decompressed, compress, decompress};
use crate::hashing::{hash_string, hashed, lemma_digest_is_entry_name};
use crate::paths::{is_entry_name, join, join_path, law_entry_is_direct_child, resolve};
use crate::text::concat2;
use crate::toml_store::{
    no_entries, table_contains, table_copy, table_from_text, table_get, table_insert, table_new,
    table_remove, table_to_text, toml_document, toml_parsed, value_as_table, value_of_table,
    value_table, table_entries, table_value,
};

verus! {

/// Why the cache could not be opened or written.
#[derive(Debug, Clone, Copy, PartialEq, Eq, Structural)]
pub enum CacheError {
    /// The stored table is no TOML document.
    Unreadable,
    /// The entry kept for the values of scripts is no table.
    Corrupt,
    /// The table cannot be written as a TOML document.
    Unwritable,
    /// The bytes of a blob cannot be compressed, or are no compressed blob.
    BadBlob,
}

/// The key of the table under which the values of scripts are stored.
pub open spec fn reserved_key() -> Seq<char> {
    "workspace"@
}

/// The table that a flush leaves: the values of scripts stand in it as one
/// table under the reserved key, and every other entry is as it was.
pub open spec fn flushed(
    scalars: Map<Seq<char>, toml::Value>,
    user: Map<Seq<char>, toml::Value>,
) -> Map<Seq<char>, toml::Value> {
    scalars.insert(reserved_key(), table_value(user))
}

/// A second flush, with no value set in between, leaves the table as the
/// first left it, and so gives the same document to write.
pub proof fn law_second_flush_writes_the_same(
    scalars: Map<Seq<char>, toml::Value>,
    user: Map<Seq<char>, toml::Value>,
)
    ensures
        flushed(flushed(scalars, user), user) == flushed(scalars, user),
        toml_document(flushed(flushed(scalars, user), user)) == toml_document(
            flushed(scalars, user),
        ),
{
    assert(flushed(flushed(scalars, user), user) =~= flushed(scalars, user));
}

/// The entries of a stored table, parted into the table itself and the
/// values of scripts that it embeds; `None` where the embedded entry is no
/// table.
pub open spec fn reopened(table: Map<Seq<char>, toml::Value>) -> Option<
    (Map<Seq<char>, toml::Value>, Map<Seq<char>, toml::Value>),
> {
    if table.contains_key(reserved_key()) {
        match value_table(table[reserved_key()]) {
            Some(user) => Some((table, user)),
            None => None,
        }
    } else {
        Some((table, no_entries()))
    }
}

/// What opening a cache on the text of its table gives.
pub open spec fn opened(text: Seq<char>) -> Result<
    (Map<Seq<char>, toml::Value>, Map<Seq<char>, toml::Value>),
    CacheError,
> {
    match toml_parsed(text) {
        None => Err(CacheError::Unreadable),
        Some(table) => match reopened(table) {
            Some(parts) => Ok(parts),
            None => Err(CacheError::Corrupt),
        },
    }
}

/// The store of one workspace.
pub struct Cache {
    user_values: toml::Table,
    toml: toml::Table,
    directory: String,
}

impl Cache {
    /// The values of the engine, by hashed key.
    pub closed spec fn scalars(&self) -> Map<Seq<char>, toml::Value> {
        table_entries(self.toml)
    }

    /// The values of scripts, by hashed key.
    pub closed spec fn user_scalars(&self) -> Map<Seq<char>, toml::Value> {
        table_entries(self.user_values)
    }

    /// The directory of the cache.
    pub closed spec fn directory(&self) -> Seq<char> {
        self.directory@
    }

    /// The directory of the cache of a workspace.
    pub open spec fn directory_of(workspace: Seq<char>) -> Seq<char> {
        join(workspace, "cache"@)
    }

    /// The file that holds the table of a cache.
    pub open spec fn table_file_of(directory: Seq<char>) -> Seq<char> {
        join(directory, "cache.toml"@)
    }

    /// The file that holds the blob called `name`.
    pub open spec fn blob_file_of(directory: Seq<char>, name: Seq<char>) -> Seq<char> {
        join(directory, hashed(name) + ".file"@)
    }

    /// The directory that belongs to `name`.
    pub open spec fn blob_dir_of(directory: Seq<char>, name: Seq<char>) -> Seq<char> {
        join(directory, hashed(name))
    }

    /// The directory of the cache of a workspace.
    pub fn directory_for(workspace: &str) -> (r: String)
        ensures
            r@ == Self::directory_of(workspace@),
    {
        join_path(workspace, "cache")
    }

    /// The file that holds the table of the cache in `directory`.
    pub fn table_file(directory: &str) -> (r: String)
        ensures
            r@ == Self::table_file_of(directory@),
    {
        join_path(directory, "cache.toml")
    }

    /// Opens the cache of `workspace` on its stored table. A table whose
    /// entry for the values of scripts is no table is an error.
    pub fn from_table(workspace: &str, table: toml::Table) -> (r: Result<Cache, CacheError>)
        ensures
            match r {
                Ok(c) => reopened(table_entries(table)) == Some((c.scalars(), c.user_scalars()))
                    && c.directory() == Self::directory_of(workspace@),
                Err(e) => e == CacheError::Corrupt && reopened(table_entries(table)) is None,
            },
    {
        let user_values = match table_get(&table, "workspace") {
            Some(v) => match value_as_table(&v) {
                Some(u) => u,
                None => {
                    return Err(CacheError::Corrupt);
                },
            },
            None => table_new(),
        };
        Ok(Cache { user_values, toml: table, directory: Self::directory_for(workspace) })
    }

    /// Opens the cache of `workspace` on the text of its stored table; the
    /// empty text is the table of a new cache. A text that is no table, or
    /// whose entry for the values of scripts is no table, is an error.
    pub fn new(workspace: &str, text: &str) -> (r: Result<Cache, CacheError>)
        ensures
            match r {
                Ok(c) => opened(text@) == Ok::<
                    (Map<Seq<char>, toml::Value>, Map<Seq<char>, toml::Value>),
                    CacheError,
                >((c.scalars(), c.user_scalars())) && c.directory() == Self::directory_of(
                    workspace@,
                ),
                Err(e) => opened(text@) == Err::<
                    (Map<Seq<char>, toml::Value>, Map<Seq<char>, toml::Value>),
                    CacheError,
                >(e),
            },
    {
        match table_from_text(text) {
            Ok(table) => Self::from_table(workspace, table),
            Err(_) => Err(CacheError::Unreadable),
        }
    }

    /// The directory of the cache.
    pub fn directory_path(&self) -> (r: String)
        ensures
            r@ == self.directory(),
    {
        self.directory.clone()
    }

    /// The file that holds the blob called `name`: a direct child of the
    /// directory of the cache, named by the digest of `name` and by nothing
    /// else of `name`.
    pub fn file_path(&self, name: &String) -> (r: String)
        ensures
            r@ == Self::blob_file_of(self.directory(), name@),
            is_entry_name(hashed(name@) + ".file"@),
            resolve(self.directory()) is Some ==> resolve(r@) == Some(
                resolve(self.directory())->0.push(hashed(name@) + ".file"@),
            ),
    {
        let hash = hash_string(name);
        let file = concat2(hash.as_str(), ".file");
        proof {
            lemma_digest_is_entry_name(hash@);
            if resolve(self.directory()) is Some {
                law_entry_is_direct_child(self.directory(), file@);
            }
        }
        join_path(self.directory.as_str(), file.as_str())
    }

    /// What storing the blob `name` with the bytes `data` writes: the file
    /// of the blob, and the bytes compressed, from which reading gives
    /// `data` back.
    pub fn write_file(&self, name: &String, data: &[u8]) -> (r: Result<(String, Vec<u8>), CacheError>)
        ensures
            match r {
                Ok(w) => {
                    &&& w.0@ == Self::blob_file_of(self.directory(), name@)
                    &&& bz_compressed(data@) == Some(w.1@)
                    &&& bz_decompressed(w.1@) == Some(data@)
                },
                Err(e) => e == CacheError::BadBlob && bz_compressed(data@) is None,
            },
    {
        match compress(data) {
            Some(bytes) => Ok((self.file_path(name), bytes)),
            None => Err(CacheError::BadBlob),
        }
    }

    /// The bytes of a blob, from the bytes that its file holds.
    pub fn read_file(stored: &[u8]) -> (r: Result<Vec<u8>, CacheError>)
        ensures
            match r {
                Ok(data) => bz_decompressed(stored@) == Some(data@),
                Err(e) => e == CacheError::BadBlob && bz_decompressed(stored@) is None,
            },
    {
        match decompress(stored) {
            Some(data) => Ok(data),
            None => Err(CacheError::BadBlob),
        }
    }

    /// The directory that belongs to `name`: a direct child of the
    /// directory of the cache, named by the digest of `name` and by nothing
    /// else of `name`.
    pub fn get_dir(&self, name: &String) -> (r: String)
        ensures
            r@ == Self::blob_dir_of(self.directory(), name@),
            is_entry_name(hashed(name@)),
            resolve(self.directory()) is Some ==> resolve(r@) == Some(
                resolve(self.directory())->0.push(hashed(name@)),
            ),
    {
        let hash = hash_string(name);
        proof {
            lemma_digest_is_entry_name(hash@);
            if resolve(self.directory()) is Some {
                law_entry_is_direct_child(self.directory(), hash@);
            }
        }
        join_path(self.directory.as_str(), hash.as_str())
    }

    /// Stores `val` under `key`.
    pub fn set_value(&mut self, key: &String, val: toml::Value)
        ensures
            final(self).scalars() == old(self).scalars().insert(hashed(key@), val),
            final(self).user_scalars() == old(self).user_scalars(),
            final(self).directory() == old(self).directory(),
    {
        table_insert(&mut self.toml, hash_string(key), val);
    }

    /// The value stored under `key`.
    pub fn get_value(&self, key: &String) -> (r: Option<toml::Value>)
        ensures
            r == if self.scalars().contains_key(hashed(key@)) {
                Some(self.scalars()[hashed(key@)])
            } else {
                None
            },
    {
        table_get(&self.toml, hash_string(key).as_str())
    }

    /// Removes what is stored under `key`, and returns it.
    pub fn pop_value(&mut self, key: &String) -> (r: Option<toml::Value>)
        ensures
            final(self).scalars() == old(self).scalars().remove(hashed(key@)),
            final(self).user_scalars() == old(self).user_scalars(),
            final(self).directory() == old(self).directory(),
            r == if old(self).scalars().contains_key(hashed(key@)) {
                Some(old(self).scalars()[hashed(key@)])
            } else {
                None
            },
    {
        table_remove(&mut self.toml, hash_string(key).as_str())
    }

    /// Whether a value is stored under `key`.
    pub fn check_key_exists(&self, key: &String) -> (r: bool)
        ensures
            r == self.scalars().contains_key(hashed(key@)),
    {
        table_contains(&self.toml, hash_string(key).as_str())
    }

    /// Stores `val` under `key` among the values of scripts.
    pub fn set_user_value(&mut self, key: &String, val: toml::Value)
        ensures
            final(self).user_scalars() == old(self).user_scalars().insert(hashed(key@), val),
            final(self).scalars() == old(self).scalars(),
            final(self).directory() == old(self).directory(),
    {
        table_insert(&mut self.user_values, hash_string(key), val);
    }

    /// The value stored under `key` among the values of scripts.
    pub fn get_user_value(&self, key: &String) -> (r: Option<toml::Value>)
        ensures
            r == if self.user_scalars().contains_key(hashed(key@)) {
                Some(self.user_scalars()[hashed(key@)])
            } else {
                None
            },
    {
        table_get(&self.user_values, hash_string(key).as_str())
    }

    /// Removes what is stored under `key` among the values of scripts, and
    /// returns it.
    pub fn pop_user_value(&mut self, key: &String) -> (r: Option<toml::Value>)
        ensures
            final(self).user_scalars() == old(self).user_scalars().remove(hashed(key@)),
            final(self).scalars() == old(self).scalars(),
            final(self).directory() == old(self).directory(),
            r == if old(self).user_scalars().contains_key(hashed(key@)) {
                Some(old(self).user_scalars()[hashed(key@)])
            } else {
                None
            },
    {
        table_remove(&mut self.user_values, hash_string(key).as_str())
    }

    /// Embeds the values of scripts in the table, under the reserved key,
    /// and gives the text to store: the TOML document of the table. The
    /// other entries and the values of scripts stay as they are.
    pub fn flush(&mut self) -> (r: Result<String, CacheError>)
        ensures
            final(self).user_scalars() == old(self).user_scalars(),
            final(self).directory() == old(self).directory(),
            final(self).scalars() == flushed(old(self).scalars(), old(self).user_scalars()),
            value_table(final(self).scalars()[reserved_key()]) == Some(old(self).user_scalars()),
            match r {
                Ok(text) => toml_document(final(self).scalars()) == Some(text@),
                Err(e) => e == CacheError::Unwritable && toml_document(final(self).scalars())
                    is None,
            },
    {
        let embedded = value_of_table(table_copy(&self.user_values));
        table_insert(&mut self.toml, String::from_str("workspace"), embedded);
        match table_to_text(&self.toml) {
            Some(text) => Ok(text),
            None => Err(CacheError::Unwritable),
        }
    }
}

/// A value stored under a hashed key other than the reserved one is found
/// again, unchanged, in the table that a flush leaves and in the cache
/// that is opened on that table.
pub proof fn law_flushed_value_is_kept(
    scalars: Map<Seq<char>, toml::Value>,
    user: Map<Seq<char>, toml::Value>,
    embedded: toml::Value,
    key: Seq<char>,
    value: toml::Value,
)
    requires
        key != reserved_key(),
        value_table(embedded) == Some(user),
    ensures
        ({
            let flushed = scalars.insert(key, value).insert(reserved_key(), embedded);
            let again = reopened(flushed).unwrap();
            &&& reopened(flushed) is Some
            &&& again.0.contains_key(key)
            &&& again.0[key] == value
            &&& again.1 == user
        }),
{
}

/// A value that a script stored is found again, unchanged, among the
/// values of scripts of the cache that is opened on the table that a flush
/// leaves, whatever its key.
pub proof fn law_flushed_user_value_is_kept(
    scalars: Map<Seq<char>, toml::Value>,
    user: Map<Seq<char>, toml::Value>,
    embedded: toml::Value,
    key: Seq<char>,
    value: toml::Value,
)
    requires
        value_table(embedded) == Some(user.insert(key, value)),
    ensures
        ({
            let flushed = scalars.insert(reserved_key(), embedded);
            let again = reopened(flushed).unwrap();
            &&& reopened(flushed) is Some
            &&& again.1.contains_key(key)
            &&& again.1[key] == value
        }),
{
}

} // verus!
