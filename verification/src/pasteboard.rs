//! A snapshot of the OS pasteboard: the five read-only operations the core
//! depends on, over plain values handed in by the platform layer.
//!
//! The platform layer builds one snapshot per poll from the native pasteboard
//! service; the classifier and the change detector consume it through the
//! verified accessors below and never touch the native API themselves.

use vstd::prelude::*;

verus! {

/// One string-encoded representation held by the pasteboard, keyed by its
/// platform type identifier.
pub struct StringEntry {
    pub ident: String,
    pub value: String,
}

/// One binary representation held by the pasteboard. `data` is `None` when
/// the platform reported the type as present but handed back a null payload;
/// the accessor turns that case into a zero-length buffer rather than failing.
pub struct DataEntry {
    pub ident: String,
    pub data: Option<Vec<u8>>,
}

/// First match wins: the string payload stored under identifier `t`.
pub open spec fn string_lookup(entries: Seq<StringEntry>, t: Seq<char>) -> Option<Seq<char>>
    decreases entries.len(),
{
    if entries.len() == 0 {
        None
    } else if entries[0].ident@ == t {
        Some(entries[0].value@)
    } else {
        string_lookup(entries.skip(1), t)
    }
}

/// First match wins: the binary payload stored under identifier `t`, with a
/// null payload read as the zero-length buffer.
pub open spec fn data_lookup(entries: Seq<DataEntry>, t: Seq<char>) -> Option<Seq<u8>>
    decreases entries.len(),
{
    if entries.len() == 0 {
        None
    } else if entries[0].ident@ == t {
        match entries[0].data {
            Some(d) => Some(d@),
            None => Some(Seq::<u8>::empty()),
        }
    } else {
        data_lookup(entries.skip(1), t)
    }
}

/// A read-only snapshot of the pasteboard's observable state: the available
/// type identifiers, the platform's best-matching pick among them, the stored
/// representations, and the revision counter.
pub struct Pasteboard {
    types: Option<Vec<String>>,
    best: Option<String>,
    strings: Vec<StringEntry>,
    blobs: Vec<DataEntry>,
    change_count: i64,
}

impl Pasteboard {
    /// The available type identifiers, as character sequences; `None` when
    /// the platform query itself failed.
    pub closed spec fn types_view(self) -> Option<Seq<Seq<char>>> {
        match self.types {
            Some(v) => Some(v.deep_view()),
            None => None,
        }
    }

    /// The platform's best-matching pick, as a character sequence.
    pub closed spec fn best_view(self) -> Option<Seq<char>> {
        match self.best {
            Some(s) => Some(s@),
            None => None,
        }
    }

    /// The string payload stored under identifier `t`.
    pub closed spec fn string_view(self, t: Seq<char>) -> Option<Seq<char>> {
        string_lookup(self.strings@, t)
    }

    /// The binary payload stored under identifier `t`.
    pub closed spec fn data_view(self, t: Seq<char>) -> Option<Seq<u8>> {
        data_lookup(self.blobs@, t)
    }

    /// The revision counter the platform reported for this snapshot.
    pub closed spec fn revision(self) -> i64 {
        self.change_count
    }

    /// Builds a snapshot from the plain values the platform layer read off
    /// the native pasteboard.
    pub fn new(
        types: Option<Vec<String>>,
        best: Option<String>,
        strings: Vec<StringEntry>,
        blobs: Vec<DataEntry>,
        change_count: i64,
    ) -> (r: Pasteboard)
        ensures
            r.types_view() == (match types {
                Some(v) => Some(v.deep_view()),
                None => None::<Seq<Seq<char>>>,
            }),
            r.best_view() == (match best {
                Some(s) => Some(s@),
                None => None::<Seq<char>>,
            }),
            forall|t: Seq<char>| r.string_view(t) == string_lookup(strings@, t),
            forall|t: Seq<char>| r.data_view(t) == data_lookup(blobs@, t),
            r.revision() == change_count,
    {
        Pasteboard { types, best, strings, blobs, change_count }
    }

    /// The list of type identifiers currently available, or `None` when the
    /// platform query failed.
    pub fn available_type_identifiers(&self) -> (r: Option<&Vec<String>>)
        ensures
            match r {
                Some(v) => self.types_view() == Some(v.deep_view()),
                None => self.types_view() is None,
            },
    {
        self.types.as_ref()
    }

    /// The best-matching supported type as picked by the platform, or `None`
    /// when it offered no match.
    pub fn best_matching_type(&self) -> (r: Option<&String>)
        ensures
            match r {
                Some(s) => self.best_view() == Some(s@),
                None => self.best_view() is None,
            },
    {
        self.best.as_ref()
    }

    /// The decoded text stored under identifier `t`, or `None` when that type
    /// is absent.
    pub fn string_for_type(&self, t: &String) -> (r: Option<String>)
        ensures
            match r {
                Some(s) => self.string_view(t@) == Some(s@),
                None => self.string_view(t@) is None,
            },
    {
        let n = self.strings.len();
        let mut i: usize = 0;
        proof {
            assert(self.strings@.skip(0) =~= self.strings@);
        }
        while i < n
            invariant
                n == self.strings.len(),
                i <= n,
                string_lookup(self.strings@, t@) == string_lookup(self.strings@.skip(i as int), t@),
            decreases n - i,
        {
            let entry = &self.strings[i];
            if entry.ident.eq(t) {
                proof {
                    assert(self.strings@.skip(i as int)[0] == self.strings@[i as int]);
                }
                return Some(entry.value.clone());
            }
            proof {
                assert(self.strings@.skip(i as int)[0] == self.strings@[i as int]);
                assert(self.strings@.skip(i as int).skip(1) =~= self.strings@.skip(i + 1));
            }
            i = i + 1;
        }
        None
    }

    /// The raw bytes stored under identifier `t`, or `None` when that type is
    /// absent. A type that is present with a null payload yields a
    /// zero-length buffer.
    pub fn data_for_type(&self, t: &String) -> (r: Option<Vec<u8>>)
        ensures
            match r {
                Some(d) => self.data_view(t@) == Some(d@),
                None => self.data_view(t@) is None,
            },
    {
        let n = self.blobs.len();
        let mut i: usize = 0;
        proof {
            assert(self.blobs@.skip(0) =~= self.blobs@);
        }
        while i < n
            invariant
                n == self.blobs.len(),
                i <= n,
                data_lookup(self.blobs@, t@) == data_lookup(self.blobs@.skip(i as int), t@),
            decreases n - i,
        {
            let entry = &self.blobs[i];
            if entry.ident.eq(t) {
                proof {
                    assert(self.blobs@.skip(i as int)[0] == self.blobs@[i as int]);
                }
                return match &entry.data {
                    Some(d) => Some(d.clone()),
                    None => Some(Vec::new()),
                };
            }
            proof {
                assert(self.blobs@.skip(i as int)[0] == self.blobs@[i as int]);
                assert(self.blobs@.skip(i as int).skip(1) =~= self.blobs@.skip(i + 1));
            }
            i = i + 1;
        }
        None
    }

    /// The pasteboard's current revision counter.
    pub fn current_revision_counter(&self) -> (r: i64)
        ensures
            r == self.revision(),
    {
        self.change_count
    }
}

} // verus!
