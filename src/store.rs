use vstd::prelude::*;
use vstd::utf8::encode_utf8;


verus! {

#[verifier::external_type_specification]
#[verifier::external_body]
pub struct ExTree(sled::Tree);

#[verifier::external_type_specification]
#[verifier::external_body]
pub struct ExSledError(sled::Error);

/// What a sled tree holds: the bytes of each key mapped to the bytes of its value.
pub uninterp spec fn tree_entries(t: sled::Tree) -> Map<Seq<u8>, Seq<u8>>;

/// Relies on sled::Tree::insert: once it returns `Ok`, the key maps to the new
/// value, every other entry is as it was, and the value that the key held
/// before, if any, is returned.
#[verifier::external_body]
fn tree_insert(t: &mut sled::Tree, key: &[u8], value: &[u8]) -> (r: Result<Option<Vec<u8>>, sled::Error>)
    ensures
        r is Ok ==> tree_entries(*final(t)) == tree_entries(*old(t)).insert(key@, value@),
        r matches Ok(prev) ==> previous_value(tree_entries(*old(t)), key@, prev),
{
    match t.insert(key, value) {
        Ok(Some(v)) => Ok(Some(v.to_vec())),
        Ok(None) => Ok(None),
        Err(e) => Err(e),
    }
}

/// `prev` is what `m` holds under `key`, or `None` where it holds nothing there.
pub open spec fn previous_value(m: Map<Seq<u8>, Seq<u8>>, key: Seq<u8>, prev: Option<Vec<u8>>) -> bool {
    match prev {
        Some(v) => m.contains_key(key) && v@ == m[key],
        None => !m.contains_key(key),
    }
}

/// Relies on sled::Tree::get: `Ok` holds the value stored under the key, or
/// `None` where the key is absent.
#[verifier::external_body]
fn tree_get(t: &sled::Tree, key: &[u8]) -> (r: Result<Option<Vec<u8>>, sled::Error>)
    ensures
        r matches Ok(found) ==> match found {
            Some(v) => tree_entries(*t).contains_key(key@) && v@ == tree_entries(*t)[key@],
            None => !tree_entries(*t).contains_key(key@),
        },
{
    match t.get(key) {
        Ok(Some(v)) => Ok(Some(v.to_vec())),
        Ok(None) => Ok(None),
        Err(e) => Err(e),
    }
}

/// Why a store operation failed: the storage engine reported an error.
#[derive(Clone, Copy, Debug, PartialEq, Eq, Structural)]
pub enum StoreError {
    Engine,
}

/// The key under which a user's secret is stored: `U:<name>:K`.
pub open spec fn user_key(name: Seq<char>) -> Seq<u8> {
    seq![85u8, 58u8] + encode_utf8(name) + seq![58u8, 75u8]
}

/// The key under which a user's progress in a document is stored: `U:<name>:D:<doc>`.
pub open spec fn doc_key(name: Seq<char>, doc: Seq<char>) -> Seq<u8> {
    seq![85u8, 58u8] + encode_utf8(name) + seq![58u8, 68u8, 58u8] + encode_utf8(doc)
}

/// Appends every byte of `b`.
fn put_bytes(out: &mut Vec<u8>, b: &[u8])
    ensures
        final(out)@ == old(out)@ + b@,
{
    let mut i: usize = 0;
    while i < b.len()
        invariant
            i <= b@.len(),
            out@ == old(out)@ + b@.take(i as int),
        decreases b@.len() - i,
    {
        out.push(b[i]);
        i = i + 1;
        assert(out@ =~= old(out)@ + b@.take(i as int));
    }
    assert(b@.take(i as int) =~= b@);
}

pub fn user_key_bytes(name: &str) -> (r: Vec<u8>)
    ensures
        r@ == user_key(name@),
{
    let mut k: Vec<u8> = Vec::new();
    k.push(85u8);
    k.push(58u8);
    put_bytes(&mut k, name.as_bytes());
    k.push(58u8);
    k.push(75u8);
    assert(k@ =~= user_key(name@));
    k
}

pub fn doc_key_bytes(name: &str, doc: &str) -> (r: Vec<u8>)
    ensures
        r@ == doc_key(name@, doc@),
{
    let mut k: Vec<u8> = Vec::new();
    k.push(85u8);
    k.push(58u8);
    put_bytes(&mut k, name.as_bytes());
    k.push(58u8);
    k.push(68u8);
    k.push(58u8);
    put_bytes(&mut k, doc.as_bytes());
    assert(k@ =~= doc_key(name@, doc@));
    k
}

fn engine_result<T>(r: Result<T, sled::Error>) -> (out: Result<T, StoreError>)
    ensures
        match r {
            Ok(v) => out == Ok::<T, StoreError>(v),
            Err(_) => out == Err::<T, StoreError>(StoreError::Engine),
        },
{
    match r {
        Ok(v) => Ok(v),
        Err(_) => Err(StoreError::Engine),
    }
}

/// The handle on the key-value store that holds users and their progress.
///
/// Its contracts describe the tree as seen through this handle: every write
/// to the tree is meant to go through it, so the handle is not cloned.
///
/// Secrets are stored as their UTF-8 bytes. Progress records are stored as
/// the bytes the caller hands over (the service writes them as JSON); the
/// store neither reads nor changes them.
pub struct DB {
    tree: sled::Tree,
}

impl DB {
    /// The entries of the store.
    pub closed spec fn entries(&self) -> Map<Seq<u8>, Seq<u8>> {
        tree_entries(self.tree)
    }

    /// Wraps an opened tree.
    ///
    /// The contracts of the other methods hold only while this handle is the
    /// tree's one writer: the caller keeps no clone of `tree` and opens the
    /// same tree nowhere else, since sled writes through shared handles.
    pub fn new(tree: sled::Tree) -> (r: DB)
        ensures
            r.entries() == tree_entries(tree),
    {
        DB { tree }
    }

    /// Stores `key` as the secret of user `name`, replacing any earlier one,
    /// which is returned.
    pub fn put_user(&mut self, name: &str, key: &str) -> (r: Result<Option<Vec<u8>>, StoreError>)
        ensures
            r is Ok ==> final(self).entries() == old(self).entries().insert(
                user_key(name@),
                encode_utf8(key@),
            ),
            r matches Ok(prev) ==> previous_value(old(self).entries(), user_key(name@), prev),
            r is Err ==> r == Err::<Option<Vec<u8>>, StoreError>(StoreError::Engine),
    {
        let k = user_key_bytes(name);
        let v = key.as_bytes();
        engine_result(tree_insert(&mut self.tree, k.as_slice(), v))
    }

    /// The stored secret of user `name`, as bytes, or `None` where there is none.
    pub fn get_user(&self, name: &str) -> (r: Result<Option<Vec<u8>>, StoreError>)
        ensures
            r matches Ok(found) ==> match found {
                Some(v) => self.entries().contains_key(user_key(name@)) && v@ == self.entries()[user_key(name@)],
                None => !self.entries().contains_key(user_key(name@)),
            },
            r is Err ==> r == Err::<Option<Vec<u8>>, StoreError>(StoreError::Engine),
    {
        let k = user_key_bytes(name);
        engine_result(tree_get(&self.tree, k.as_slice()))
    }

    /// Stores `record` as the progress of `user` in `doc`, replacing any
    /// earlier one whole; the bytes stored before, if any, are returned.
    pub fn put_doc(&mut self, user: &str, doc: &str, record: &[u8]) -> (r: Result<Option<Vec<u8>>, StoreError>)
        ensures
            r is Ok ==> final(self).entries() == old(self).entries().insert(
                doc_key(user@, doc@),
                record@,
            ),
            r matches Ok(prev) ==> previous_value(old(self).entries(), doc_key(user@, doc@), prev),
            r is Err ==> r == Err::<Option<Vec<u8>>, StoreError>(StoreError::Engine),
    {
        let k = doc_key_bytes(user, doc);
        engine_result(tree_insert(&mut self.tree, k.as_slice(), record))
    }

    /// The progress record of `user` in `doc`, or `None` where none was stored.
    pub fn get_doc(&self, user: &str, doc: &str) -> (r: Result<Option<Vec<u8>>, StoreError>)
        ensures
            r matches Ok(found) ==> previous_value(self.entries(), doc_key(user@, doc@), found),
            r is Err ==> r == Err::<Option<Vec<u8>>, StoreError>(StoreError::Engine),
    {
        let k = doc_key_bytes(user, doc);
        engine_result(tree_get(&self.tree, k.as_slice()))
    }
}

} // verus!
