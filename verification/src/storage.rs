//! The removable storage medium at its interface boundary, and the
//! browse/read operation over it.
//!
//! A path resolves against a directory table first; when no directory
//! matches, against a file table; when neither matches, the operation
//! answers an in-band not-found message.  A medium whose lock cannot be
//! taken answers an in-band access message.  All four outcomes are
//! well-formed bodies: storage trouble never escapes as a transport error.

use vstd::prelude::*;
use crate::bytes::push_all;
use crate::bytes::bytes_eq;

verus! {

/// One directory entry as the medium reports it: a decoded name, or a name
/// whose decoding failed (such entries are skipped, not fatal).
pub enum EntryName {
    Decoded(Vec<u8>),
    Undecodable,
}

/// One directory of the medium.
pub struct Directory {
    pub path: Vec<u8>,
    pub entries: Vec<EntryName>,
}

/// One file of the medium, read in full.
pub struct StoredFile {
    pub path: Vec<u8>,
    pub data: Vec<u8>,
}

/// A storage-medium session.  `accessible` models the health of the lock
/// that serializes medium access: a poisoned or contended lock makes every
/// browse answer the in-band access message.
pub struct Storage {
    pub dirs: Vec<Directory>,
    pub files: Vec<StoredFile>,
    pub accessible: bool,
}

/// Entries of the first directory whose path is `path`, if any.
pub open spec fn dir_lookup(dirs: Seq<Directory>, path: Seq<u8>) -> Option<Seq<EntryName>>
    decreases dirs.len(),
{
    if dirs.len() == 0 {
        None
    } else if dirs[0].path@ == path {
        Some(dirs[0].entries@)
    } else {
        dir_lookup(dirs.drop_first(), path)
    }
}

/// Contents of the first file whose path is `path`, if any.
pub open spec fn file_lookup(files: Seq<StoredFile>, path: Seq<u8>) -> Option<Seq<u8>>
    decreases files.len(),
{
    if files.len() == 0 {
        None
    } else if files[0].path@ == path {
        Some(files[0].data@)
    } else {
        file_lookup(files.drop_first(), path)
    }
}

/// What one entry contributes to a listing: its name and a newline, or
/// nothing when the name did not decode.
pub open spec fn entry_bytes(e: EntryName) -> Seq<u8> {
    match e {
        EntryName::Decoded(n) => n@ + seq![10u8],
        EntryName::Undecodable => Seq::empty(),
    }
}

/// A directory listing: one decoded name per line, undecodable ones skipped.
pub open spec fn listing(entries: Seq<EntryName>) -> Seq<u8>
    decreases entries.len(),
{
    if entries.len() == 0 {
        Seq::empty()
    } else {
        entry_bytes(entries[0]) + listing(entries.drop_first())
    }
}

/// Appending one entry extends the listing at its end.
pub proof fn lemma_listing_snoc(entries: Seq<EntryName>, e: EntryName)
    ensures
        listing(entries.push(e)) == listing(entries) + entry_bytes(e),
    decreases entries.len(),
{
    if entries.len() == 0 {
        assert(entries.push(e)[0] == e);
        assert(entries.push(e).drop_first() =~= Seq::<EntryName>::empty());
        assert(listing(entries.push(e)) == entry_bytes(e) + listing(Seq::<EntryName>::empty()));
        assert(entry_bytes(e) + Seq::<u8>::empty() =~= Seq::<u8>::empty() + entry_bytes(e));
    } else {
        assert(entries.push(e)[0] == entries[0]);
        assert(entries.push(e).drop_first() =~= entries.drop_first().push(e));
        lemma_listing_snoc(entries.drop_first(), e);
        assert(listing(entries.push(e)) == entry_bytes(entries[0]) + (listing(entries.drop_first())
            + entry_bytes(e)));
        assert(entry_bytes(entries[0]) + (listing(entries.drop_first()) + entry_bytes(e)) =~= (
        entry_bytes(entries[0]) + listing(entries.drop_first())) + entry_bytes(e));
    }
}

/// Body answered when the medium's lock cannot be taken.
pub open spec fn no_access_msg() -> Seq<u8> {
    seq![67u8, 111, 117, 108, 100, 110, 39, 116, 32, 97, 99, 99, 101, 115, 115, 32, 115, 100, 99, 97, 114, 100, 10]
}

/// Body answered when a path resolves as neither directory nor file.
pub open spec fn not_found_msg() -> Seq<u8> {
    seq![70u8, 105, 108, 101, 47, 100, 105, 114, 32, 110, 111, 116, 32, 102, 111, 117, 110, 100, 10]
}

/// The bytes of `no_access_msg()`: the line `Couldn't access sdcard`.
pub fn make_no_access_msg() -> (r: Vec<u8>)
    ensures
        r@ == no_access_msg(),
{
    let mut r: Vec<u8> = Vec::new();
    r.push(67);
    r.push(111);
    r.push(117);
    r.push(108);
    r.push(100);
    r.push(110);
    r.push(39);
    r.push(116);
    r.push(32);
    r.push(97);
    r.push(99);
    r.push(99);
    r.push(101);
    r.push(115);
    r.push(115);
    r.push(32);
    r.push(115);
    r.push(100);
    r.push(99);
    r.push(97);
    r.push(114);
    r.push(100);
    r.push(10);
    proof {
        assert(r@ =~= no_access_msg());
    }
    r
}

/// The bytes of `not_found_msg()`: the line `File/dir not found`.
pub fn make_not_found_msg() -> (r: Vec<u8>)
    ensures
        r@ == not_found_msg(),
{
    let mut r: Vec<u8> = Vec::new();
    r.push(70);
    r.push(105);
    r.push(108);
    r.push(101);
    r.push(47);
    r.push(100);
    r.push(105);
    r.push(114);
    r.push(32);
    r.push(110);
    r.push(111);
    r.push(116);
    r.push(32);
    r.push(102);
    r.push(111);
    r.push(117);
    r.push(110);
    r.push(100);
    r.push(10);
    proof {
        assert(r@ =~= not_found_msg());
    }
    r
}

/// What one browse of `path` answers: the listing of the first matching
/// directory; else the contents of the first matching file; else the
/// not-found message; the access message when the medium cannot be locked.
pub open spec fn browse_body(s: Storage, path: Seq<u8>) -> Seq<u8> {
    if !s.accessible {
        no_access_msg()
    } else {
        match dir_lookup(s.dirs@, path) {
            Some(es) => listing(es),
            None => match file_lookup(s.files@, path) {
                Some(d) => d,
                None => not_found_msg(),
            },
        }
    }
}

impl Storage {
    /// A medium with the given tables and a healthy lock.
    pub fn new(dirs: Vec<Directory>, files: Vec<StoredFile>) -> (r: Storage)
        ensures
            r.dirs == dirs,
            r.files == files,
            r.accessible,
    {
        Storage { dirs, files, accessible: true }
    }

    /// Index of the first directory at `path`, tied to `dir_lookup`.
    fn find_dir(&self, path: &Vec<u8>) -> (r: Option<usize>)
        ensures
            match r {
                Some(i) => {
                    &&& i < self.dirs.len()
                    &&& self.dirs[i as int].path@ == path@
                    &&& dir_lookup(self.dirs@, path@) == Some(self.dirs[i as int].entries@)
                },
                None => dir_lookup(self.dirs@, path@) is None,
            },
    {
        let mut i: usize = 0;
        proof {
            assert(self.dirs@.skip(0) =~= self.dirs@);
        }
        while i < self.dirs.len()
            invariant
                i <= self.dirs.len(),
                dir_lookup(self.dirs@, path@) == dir_lookup(self.dirs@.skip(i as int), path@),
            decreases self.dirs.len() - i,
        {
            proof {
                assert(self.dirs@.skip(i as int)[0] == self.dirs@[i as int]);
                assert(self.dirs@.skip(i as int).drop_first() =~= self.dirs@.skip(i + 1));
            }
            if bytes_eq(&self.dirs[i].path, path) {
                return Some(i);
            }
            i = i + 1;
        }
        None
    }

    /// Index of the first file at `path`, tied to `file_lookup`.
    fn find_file(&self, path: &Vec<u8>) -> (r: Option<usize>)
        ensures
            match r {
                Some(i) => {
                    &&& i < self.files.len()
                    &&& self.files[i as int].path@ == path@
                    &&& file_lookup(self.files@, path@) == Some(self.files[i as int].data@)
                },
                None => file_lookup(self.files@, path@) is None,
            },
    {
        let mut i: usize = 0;
        proof {
            assert(self.files@.skip(0) =~= self.files@);
        }
        while i < self.files.len()
            invariant
                i <= self.files.len(),
                file_lookup(self.files@, path@) == file_lookup(self.files@.skip(i as int), path@),
            decreases self.files.len() - i,
        {
            proof {
                assert(self.files@.skip(i as int)[0] == self.files@[i as int]);
                assert(self.files@.skip(i as int).drop_first() =~= self.files@.skip(i + 1));
            }
            if bytes_eq(&self.files[i].path, path) {
                return Some(i);
            }
            i = i + 1;
        }
        None
    }

    /// The browse/read operation: directory listing first; a file read when
    /// no directory matches; an in-band message when neither resolves or the
    /// medium cannot be locked.  Always a well-formed body.
    pub fn browse(&self, path: &Vec<u8>) -> (r: Vec<u8>)
        ensures
            r@ == browse_body(*self, path@),
    {
        if !self.accessible {
            return make_no_access_msg();
        }
        match self.find_dir(path) {
            Some(d) => {
                let entries = &self.dirs[d].entries;
                let mut body: Vec<u8> = Vec::new();
                let mut i: usize = 0;
                while i < entries.len()
                    invariant
                        i <= entries.len(),
                        body@ == listing(entries@.take(i as int)),
                    decreases entries.len() - i,
                {
                    match &entries[i] {
                        EntryName::Decoded(name) => {
                            push_all(&mut body, name);
                            body.push(10);
                            proof {
                                lemma_listing_snoc(entries@.take(i as int), entries@[i as int]);
                                assert(entries@.take(i + 1) =~= entries@.take(i as int).push(
                                    entries@[i as int],
                                ));
                                assert(body@ =~= listing(entries@.take(i as int)) + entry_bytes(
                                    entries@[i as int],
                                ));
                            }
                        },
                        EntryName::Undecodable => {
                            // The medium could not decode this name; it is
                            // skipped, never fatal to the listing.
                            proof {
                                lemma_listing_snoc(entries@.take(i as int), entries@[i as int]);
                                assert(entries@.take(i + 1) =~= entries@.take(i as int).push(
                                    entries@[i as int],
                                ));
                                assert(body@ + entry_bytes(entries@[i as int]) =~= body@);
                            }
                        },
                    }
                    i = i + 1;
                }
                proof {
                    assert(entries@.take(entries@.len() as int) =~= entries@);
                }
                body
            },
            None => {
                match self.find_file(path) {
                    Some(f) => {
                        let mut body: Vec<u8> = Vec::new();
                        push_all(&mut body, &self.files[f].data);
                        proof {
                            assert(body@ =~= self.files@[f as int].data@);
                        }
                        body
                    },
                    None => make_not_found_msg(),
                }
            },
        }
    }
}

} // verus!
