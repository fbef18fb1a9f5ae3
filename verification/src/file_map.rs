//! The index of the media files the server knows: each directory's files
//! whose names carry the directory's extension, found by name without it.

use vstd::prelude::*;
use vstd::string::StrSliceExecFns;

verus! {

/// `s` without `suffix` at its end, if it ends with `suffix`.
pub open spec fn spec_strip_suffix(s: Seq<char>, suffix: Seq<char>) -> Option<Seq<char>> {
    if suffix.len() <= s.len() && s.subrange(s.len() - suffix.len(), s.len() as int) == suffix {
        Some(s.subrange(0, s.len() - suffix.len()))
    } else {
        None
    }
}

/// `s` is some string followed by `suffix`.
pub open spec fn ends_with(s: Seq<char>, suffix: Seq<char>) -> bool {
    exists|stem: Seq<char>| stem + suffix == s
}

/// A string ends with a suffix in at most one way: the part before it is
/// determined.
pub proof fn lemma_stem_unique(a: Seq<char>, b: Seq<char>, suffix: Seq<char>)
    requires
        a + suffix == b + suffix,
    ensures
        a == b,
{
    assert((a + suffix).len() == a.len() + suffix.len());
    assert((b + suffix).len() == b.len() + suffix.len());
    assert forall|i: int| 0 <= i < a.len() implies a[i] == b[i] by {
        assert((a + suffix)[i] == a[i]);
        assert((b + suffix)[i] == b[i]);
    }
    assert(a =~= b);
}

/// Stripping a suffix gives the part before it exactly when the string ends
/// with it: the stem followed by the suffix is the string, and the stem is
/// the only string that is.
pub proof fn lemma_strip_suffix(s: Seq<char>, suffix: Seq<char>)
    ensures
        spec_strip_suffix(s, suffix) is Some <==> ends_with(s, suffix),
        spec_strip_suffix(s, suffix) matches Some(stem) ==> stem + suffix == s,
        forall|stem: Seq<char>| #[trigger] (stem + suffix) == s ==> spec_strip_suffix(s, suffix) == Some(stem),
{
    let n = s.len() as int;
    let m = suffix.len() as int;
    if let Some(stem) = spec_strip_suffix(s, suffix) {
        assert(stem + suffix =~= s) by {
            assert forall|i: int| 0 <= i < n implies (stem + suffix)[i] == s[i] by {
                if i >= n - m {
                    assert(s.subrange(n - m, n)[i - (n - m)] == s[i]);
                }
            }
        }
        assert(ends_with(s, suffix));
        assert forall|t: Seq<char>| #[trigger] (t + suffix) == s implies spec_strip_suffix(s, suffix) == Some(t) by {
            lemma_stem_unique(t, stem, suffix);
        }
    } else {
        assert forall|t: Seq<char>| #[trigger] (t + suffix) == s implies false by {
            assert((t + suffix).len() == t.len() + m);
            assert(s.subrange(n - m, n) =~= suffix) by {
                assert forall|i: int| 0 <= i < m implies s.subrange(n - m, n)[i] == suffix[i] by {
                    assert((t + suffix)[t.len() + i] == suffix[i]);
                }
            }
        }
    }
}

/// Returns `s` without `suffix` at its end, or `None` where `s` does not end
/// with `suffix`.
pub fn strip_suffix(s: &str, suffix: &str) -> (r: Option<String>)
    ensures
        match r {
            Some(stem) => spec_strip_suffix(s@, suffix@) == Some(stem@),
            None => spec_strip_suffix(s@, suffix@) is None,
        },
        match r {
            Some(stem) => stem@ + suffix@ == s@,
            None => !ends_with(s@, suffix@),
        },
{
    proof {
        lemma_strip_suffix(s@, suffix@);
    }
    let n = s.unicode_len();
    let m = suffix.unicode_len();
    if m > n {
        return None;
    }
    let start = n - m;
    let mut i: usize = 0;
    while i < m
        invariant
            n == s@.len(),
            m == suffix@.len(),
            start == n - m,
            i <= m,
            forall|j: int| 0 <= j < i ==> s@[start + j] == suffix@[j],
        decreases m - i,
    {
        if s.get_char(start + i) != suffix.get_char(i) {
            assert(s@.subrange(start as int, n as int)[i as int] != suffix@[i as int]);
            return None;
        }
        i = i + 1;
    }
    assert(s@.subrange(start as int, n as int) =~= suffix@);
    let stem = s.substring_char(0, start);
    Some(stem.to_owned())
}

/// A file found in a directory: its name, and the path it is opened by.
pub struct FileEntry {
    pub file_name: String,
    pub path: String,
}

/// The name and path of a file entry, as character sequences.
pub open spec fn entry_view(e: FileEntry) -> (Seq<char>, Seq<char>) {
    (e.file_name@, e.path@)
}

/// The names and paths of a list of file entries.
pub open spec fn entries_view(entries: Seq<FileEntry>) -> Seq<(Seq<char>, Seq<char>)> {
    entries.map_values(|e: FileEntry| entry_view(e))
}

/// The paths of an index and its map from names to positions, after the
/// files of a directory listing have been added in order: a file whose name
/// ends with `extension` has its path appended to the paths, and its name
/// without the extension mapped to its position in the listing (counting
/// every file of the listing), replacing any earlier mapping of that name.
pub open spec fn file_map_after(
    names: Seq<Seq<char>>,
    ids: Map<Seq<char>, nat>,
    entries: Seq<(Seq<char>, Seq<char>)>,
    extension: Seq<char>,
) -> (Seq<Seq<char>>, Map<Seq<char>, nat>)
    decreases entries.len(),
{
    if entries.len() == 0 {
        (names, ids)
    } else {
        let before = file_map_after(names, ids, entries.drop_last(), extension);
        match spec_strip_suffix(entries.last().0, extension) {
            Some(stem) => (
                before.0.push(entries.last().1),
                before.1.insert(stem, (entries.len() - 1) as nat),
            ),
            None => before,
        }
    }
}

/// What a lookup of `key` gives in an index: the path at the position the
/// key is mapped to, where it is mapped to one and a path stands there.
pub open spec fn lookup(names: Seq<Seq<char>>, ids: Map<Seq<char>, nat>, key: Seq<char>) -> Option<
    Seq<char>,
> {
    if ids.dom().contains(key) && ids[key] < names.len() {
        Some(names[ids[key] as int])
    } else {
        None
    }
}

/// The map from names to positions that a list of (name, position) pairs
/// builds when each pair in turn is inserted.
pub open spec fn ids_map(pairs: Seq<(String, usize)>) -> Map<Seq<char>, nat>
    decreases pairs.len(),
{
    if pairs.len() == 0 {
        Map::empty()
    } else {
        ids_map(pairs.drop_last()).insert(pairs.last().0@, pairs.last().1 as nat)
    }
}

/// The files of one media directory, found by their names without the
/// directory's extension.
pub struct FileMap {
    file_names: Vec<String>,
    file_ids: Vec<(String, usize)>,
}

impl FileMap {
    /// The paths of the indexed files, in the order they were added.
    pub closed spec fn names_view(&self) -> Seq<Seq<char>> {
        self.file_names@.map_values(|p: String| p@)
    }

    /// The map from names (without extension) to positions.
    pub closed spec fn ids_view(&self) -> Map<Seq<char>, nat> {
        ids_map(self.file_ids@)
    }

    /// An empty index.
    pub fn new() -> (m: Self)
        ensures
            m.names_view() == Seq::<Seq<char>>::empty(),
            m.ids_view() == Map::<Seq<char>, nat>::empty(),
    {
        let m = FileMap { file_names: Vec::new(), file_ids: Vec::new() };
        assert(m.names_view() =~= Seq::<Seq<char>>::empty());
        m
    }

    /// The position `file_name` is mapped to, if any.
    fn file_id(&self, file_name: &str) -> (r: Option<usize>)
        ensures
            match r {
                Some(id) => self.ids_view().dom().contains(file_name@) && self.ids_view()[file_name@]
                    == id,
                None => !self.ids_view().dom().contains(file_name@),
            },
    {
        let key = file_name.to_owned();
        let mut i = self.file_ids.len();
        assert(self.file_ids@.take(i as int) =~= self.file_ids@);
        while i > 0
            invariant
                i <= self.file_ids@.len(),
                key@ == file_name@,
                ids_map(self.file_ids@).dom().contains(key@) == ids_map(
                    self.file_ids@.take(i as int),
                ).dom().contains(key@),
                ids_map(self.file_ids@).dom().contains(key@) ==> ids_map(self.file_ids@)[key@]
                    == ids_map(self.file_ids@.take(i as int))[key@],
            decreases i,
        {
            let ghost prefix = self.file_ids@.take(i as int);
            assert(prefix.drop_last() =~= self.file_ids@.take(i - 1));
            i = i - 1;
            let entry = &self.file_ids[i];
            if entry.0 == key {
                return Some(entry.1);
            }
        }
        assert(self.file_ids@.take(0) =~= Seq::<(String, usize)>::empty());
        None
    }

    /// The path of the file indexed under `file_name`: the path at the
    /// position the name is mapped to, where it is mapped to one and a path
    /// stands there.
    pub fn get_file_path(&self, file_name: &str) -> (r: Option<&String>)
        ensures
            match r {
                Some(p) => lookup(self.names_view(), self.ids_view(), file_name@) == Some(p@),
                None => lookup(self.names_view(), self.ids_view(), file_name@) is None,
            },
    {
        match self.file_id(file_name) {
            Some(id) => {
                if id < self.file_names.len() {
                    Some(&self.file_names[id])
                } else {
                    None
                }
            },
            None => None,
        }
    }
}

/// Adds the files of a directory listing to `file_map`, in the listing's
/// order: each file whose name ends with `file_extension` is indexed under
/// its name without the extension, at its position in the listing.
pub fn initialize_file_map(file_map: &mut FileMap, entries: &Vec<FileEntry>, file_extension: &str)
    ensures
        (final(file_map).names_view(), final(file_map).ids_view()) == file_map_after(
            old(file_map).names_view(),
            old(file_map).ids_view(),
            entries_view(entries@),
            file_extension@,
        ),
        final(file_map).names_view() == old(file_map).names_view() + matching_paths(
            entries_view(entries@),
            file_extension@,
        ),
        forall|key: Seq<char>|
            #![trigger final(file_map).ids_view().dom().contains(key)]
            (exists|i: int|
                0 <= i < entries@.len() && #[trigger] entries@[i].file_name@ == key
                    + file_extension@) ==> {
                &&& final(file_map).ids_view().dom().contains(key)
                &&& final(file_map).ids_view()[key] < entries@.len()
                &&& entries@[final(file_map).ids_view()[key] as int].file_name@ == key
                    + file_extension@
                &&& forall|j: int|
                    final(file_map).ids_view()[key] < j < entries@.len()
                        ==> #[trigger] entries@[j].file_name@ != key + file_extension@
            },
        forall|key: Seq<char>|
            #![trigger final(file_map).ids_view().dom().contains(key)]
            !(exists|i: int|
                0 <= i < entries@.len() && #[trigger] entries@[i].file_name@ == key
                    + file_extension@) ==> {
                &&& final(file_map).ids_view().dom().contains(key) == old(
                    file_map,
                ).ids_view().dom().contains(key)
                &&& old(file_map).ids_view().dom().contains(key) ==> final(file_map).ids_view()[key]
                    == old(file_map).ids_view()[key]
            },
{
    let ghost names0 = file_map.names_view();
    let ghost ids0 = file_map.ids_view();
    let mut index: usize = 0;
    while index < entries.len()
        invariant
            index <= entries@.len(),
            (file_map.names_view(), file_map.ids_view()) == file_map_after(
                names0,
                ids0,
                entries_view(entries@.take(index as int)),
                file_extension@,
            ),
        decreases entries@.len() - index,
    {
        let entry = &entries[index];
        let ghost before = (file_map.names_view(), file_map.ids_view());
        assert(entries_view(entries@.take(index + 1)).drop_last() =~= entries_view(
            entries@.take(index as int),
        ));
        assert(entries_view(entries@.take(index + 1)).last() == entry_view(*entry));
        match strip_suffix(entry.file_name.as_str(), file_extension) {
            Some(stem) => {
                let ghost old_ids = file_map.file_ids@;
                file_map.file_ids.push((stem, index));
                file_map.file_names.push(entry.path.clone());
                assert(file_map.file_ids@.drop_last() =~= old_ids);
                assert(file_map.names_view() =~= before.0.push(entry.path@));
            },
            None => {},
        }
        index = index + 1;
    }
    assert(entries@.take(entries@.len() as int) =~= entries@);
    let ghost ev = entries_view(entries@);
    proof {
        lemma_paths_after(names0, ids0, ev, file_extension@);
        assert forall|key: Seq<char>|
            #![trigger file_map.ids_view().dom().contains(key)]
            (exists|i: int|
                0 <= i < entries@.len() && #[trigger] entries@[i].file_name@ == key
                    + file_extension@) ==> {
                &&& file_map.ids_view().dom().contains(key)
                &&& file_map.ids_view()[key] < entries@.len()
                &&& entries@[file_map.ids_view()[key] as int].file_name@ == key + file_extension@
                &&& forall|j: int|
                    file_map.ids_view()[key] < j < entries@.len()
                        ==> #[trigger] entries@[j].file_name@ != key + file_extension@
            } by {
            lemma_ids_after(names0, ids0, ev, file_extension@, key);
            if exists|i: int|
                0 <= i < entries@.len() && #[trigger] entries@[i].file_name@ == key
                    + file_extension@ {
                let i = choose|i: int|
                    0 <= i < entries@.len() && #[trigger] entries@[i].file_name@ == key
                        + file_extension@;
                assert(ev[i].0 == key + file_extension@);
                let k = file_map.ids_view()[key] as int;
                assert(ev[k].0 == entries@[k].file_name@);
                assert forall|j: int|
                    file_map.ids_view()[key] < j < entries@.len() implies #[trigger] entries@[j].file_name@
                    != key + file_extension@ by {
                    assert(ev[j].0 == entries@[j].file_name@);
                }
            }
        }
        assert forall|key: Seq<char>|
            #![trigger file_map.ids_view().dom().contains(key)]
            !(exists|i: int|
                0 <= i < entries@.len() && #[trigger] entries@[i].file_name@ == key
                    + file_extension@) implies {
                &&& file_map.ids_view().dom().contains(key) == ids0.dom().contains(key)
                &&& ids0.dom().contains(key) ==> file_map.ids_view()[key] == ids0[key]
            } by {
            lemma_ids_after(names0, ids0, ev, file_extension@, key);
            if exists|i: int| 0 <= i < ev.len() && #[trigger] ev[i].0 == key + file_extension@ {
                let i = choose|i: int| 0 <= i < ev.len() && #[trigger] ev[i].0 == key + file_extension@;
                assert(entries@[i].file_name@ == ev[i].0);
            }
        }
    }
}

} // verus!

verus! {

/// The name without extension of a listing entry that carries the
/// extension.
pub open spec fn stem_of(entry: (Seq<char>, Seq<char>), extension: Seq<char>) -> Seq<char> {
    spec_strip_suffix(entry.0, extension).unwrap()
}

/// On a listing whose every name carries the extension, an empty index ends
/// up with every path in listing order, and each name mapped to the last
/// position of the listing that carries it.
proof fn lemma_all_matching(entries: Seq<(Seq<char>, Seq<char>)>, extension: Seq<char>)
    requires
        forall|j: int| 0 <= j < entries.len() ==> spec_strip_suffix(entries[j].0, extension) is Some,
    ensures
        ({
            let r = file_map_after(Seq::empty(), Map::empty(), entries, extension);
            &&& r.0.len() == entries.len()
            &&& forall|j: int| 0 <= j < entries.len() ==> r.0[j] == entries[j].1
            &&& forall|j: int|
                0 <= j < entries.len() ==> r.1.dom().contains(#[trigger] stem_of(entries[j], extension))
            &&& forall|key: Seq<char>|
                #[trigger] r.1.dom().contains(key) ==> {
                    &&& r.1[key] < entries.len()
                    &&& stem_of(entries[r.1[key] as int], extension) == key
                    &&& forall|j: int|
                        r.1[key] < j < entries.len() ==> stem_of(#[trigger] entries[j], extension) != key
                }
        }),
    decreases entries.len(),
{
    if entries.len() > 0 {
        let prefix = entries.drop_last();
        lemma_all_matching(prefix, extension);
        let last = (entries.len() - 1) as int;
        assert(spec_strip_suffix(entries[last].0, extension) is Some);
        let r = file_map_after(Seq::empty(), Map::empty(), entries, extension);
        let p = file_map_after(Seq::empty(), Map::empty(), prefix, extension);
        assert(r.0 == p.0.push(entries[last].1));
        assert(r.1 == p.1.insert(stem_of(entries[last], extension), last as nat));
        assert forall|j: int| 0 <= j < entries.len() implies r.1.dom().contains(
            #[trigger] stem_of(entries[j], extension),
        ) by {
            if j < last {
                assert(prefix[j] == entries[j]);
            }
        }
        assert forall|key: Seq<char>| #[trigger] r.1.dom().contains(key) implies {
            &&& r.1[key] < entries.len()
            &&& stem_of(entries[r.1[key] as int], extension) == key
            &&& forall|j: int|
                r.1[key] < j < entries.len() ==> stem_of(#[trigger] entries[j], extension) != key
        } by {
            if key != stem_of(entries[last], extension) {
                assert(p.1.dom().contains(key));
                assert(prefix[p.1[key] as int] == entries[p.1[key] as int]);
                assert forall|j: int| r.1[key] < j < entries.len() implies stem_of(
                    #[trigger] entries[j],
                    extension,
                ) != key by {
                    if j < last {
                        assert(prefix[j] == entries[j]);
                    }
                }
            }
        }
    }
}

/// Reading back what a listing wrote: once a listing whose every name
/// carries the extension has been added to an empty index, looking up the
/// name (without extension) of any of its files gives the path of the last
/// file of the listing under that name.
pub proof fn lemma_lookup_after_initialize(
    entries: Seq<(Seq<char>, Seq<char>)>,
    extension: Seq<char>,
    i: int,
)
    requires
        0 <= i < entries.len(),
        forall|j: int| 0 <= j < entries.len() ==> spec_strip_suffix(entries[j].0, extension) is Some,
        forall|j: int|
            i < j < entries.len() ==> stem_of(#[trigger] entries[j], extension) != stem_of(
                entries[i],
                extension,
            ),
    ensures
        ({
            let r = file_map_after(Seq::empty(), Map::empty(), entries, extension);
            lookup(r.0, r.1, stem_of(entries[i], extension)) == Some(entries[i].1)
        }),
{
    lemma_all_matching(entries, extension);
    let r = file_map_after(Seq::empty(), Map::empty(), entries, extension);
    let key = stem_of(entries[i], extension);
    assert(r.1.dom().contains(key));
    let m = r.1[key] as int;
    if m < i {
        assert(stem_of(entries[i], extension) != key);
    }
}

} // verus!

verus! {

/// The paths of the entries of a listing whose names end with `extension`,
/// in listing order.
pub open spec fn matching_paths(entries: Seq<(Seq<char>, Seq<char>)>, extension: Seq<char>) -> Seq<
    Seq<char>,
> {
    entries.filter(|e: (Seq<char>, Seq<char>)| ends_with(e.0, extension)).map_values(
        |e: (Seq<char>, Seq<char>)| e.1,
    )
}

/// Indexing a listing appends to the paths exactly the paths of the
/// listing's files whose names end with the extension, in listing order;
/// every other file leaves the paths as they were.
pub proof fn lemma_paths_after(
    names: Seq<Seq<char>>,
    ids: Map<Seq<char>, nat>,
    entries: Seq<(Seq<char>, Seq<char>)>,
    extension: Seq<char>,
)
    ensures
        file_map_after(names, ids, entries, extension).0 == names + matching_paths(
            entries,
            extension,
        ),
    decreases entries.len(),
{
    reveal(Seq::filter);
    let pred = |e: (Seq<char>, Seq<char>)| ends_with(e.0, extension);
    if entries.len() == 0 {
        assert(entries.filter(pred) =~= Seq::<(Seq<char>, Seq<char>)>::empty());
        assert(names + matching_paths(entries, extension) =~= names);
    } else {
        let prefix = entries.drop_last();
        lemma_paths_after(names, ids, prefix, extension);
        lemma_strip_suffix(entries.last().0, extension);
        let f = entries.filter(pred);
        let fp = prefix.filter(pred);
        if ends_with(entries.last().0, extension) {
            assert(f == fp.push(entries.last()));
            assert(f.map_values(|e: (Seq<char>, Seq<char>)| e.1) =~= fp.map_values(
                |e: (Seq<char>, Seq<char>)| e.1,
            ).push(entries.last().1));
            assert(names + matching_paths(entries, extension) =~= (names + matching_paths(
                prefix,
                extension,
            )).push(entries.last().1));
        } else {
            assert(f == fp);
        }
    }
}

/// Indexing a listing maps a name to the position of the last file of the
/// listing that is called that name followed by the extension; a name no file
/// of the listing is called (with the extension) keeps its old mapping, or
/// stays unmapped.
pub proof fn lemma_ids_after(
    names: Seq<Seq<char>>,
    ids: Map<Seq<char>, nat>,
    entries: Seq<(Seq<char>, Seq<char>)>,
    extension: Seq<char>,
    key: Seq<char>,
)
    ensures
        ({
            let r = file_map_after(names, ids, entries, extension).1;
            &&& (exists|i: int| 0 <= i < entries.len() && #[trigger] entries[i].0 == key + extension)
                ==> {
                &&& r.dom().contains(key)
                &&& r[key] < entries.len()
                &&& entries[r[key] as int].0 == key + extension
                &&& forall|j: int| r[key] < j < entries.len() ==> #[trigger] entries[j].0 != key + extension
            }
            &&& !(exists|i: int| 0 <= i < entries.len() && #[trigger] entries[i].0 == key + extension)
                ==> {
                &&& r.dom().contains(key) == ids.dom().contains(key)
                &&& ids.dom().contains(key) ==> r[key] == ids[key]
            }
        }),
    decreases entries.len(),
{
    if entries.len() > 0 {
        let prefix = entries.drop_last();
        let last = (entries.len() - 1) as int;
        lemma_ids_after(names, ids, prefix, extension, key);
        lemma_strip_suffix(entries[last].0, extension);
        let r = file_map_after(names, ids, entries, extension).1;
        let p = file_map_after(names, ids, prefix, extension).1;
        if entries[last].0 == key + extension {
            assert(spec_strip_suffix(entries[last].0, extension) == Some(key));
            assert(r == p.insert(key, last as nat));
        } else {
            match spec_strip_suffix(entries[last].0, extension) {
                Some(stem) => {
                    assert(stem != key);
                    assert(r == p.insert(stem, last as nat));
                },
                None => {
                    assert(r == p);
                },
            }
            assert((exists|i: int| 0 <= i < entries.len() && #[trigger] entries[i].0 == key + extension)
                == (exists|i: int| 0 <= i < prefix.len() && #[trigger] prefix[i].0 == key + extension))
                by {
                if exists|i: int| 0 <= i < entries.len() && #[trigger] entries[i].0 == key + extension {
                    let i = choose|i: int| 0 <= i < entries.len() && #[trigger] entries[i].0 == key + extension;
                    assert(prefix[i] == entries[i]);
                }
                if exists|i: int| 0 <= i < prefix.len() && #[trigger] prefix[i].0 == key + extension {
                    let i = choose|i: int| 0 <= i < prefix.len() && #[trigger] prefix[i].0 == key + extension;
                    assert(prefix[i] == entries[i]);
                }
            }
            if exists|i: int| 0 <= i < prefix.len() && #[trigger] prefix[i].0 == key + extension {
                assert(prefix[p[key] as int] == entries[p[key] as int]);
                assert forall|j: int| r[key] < j < entries.len() implies #[trigger] entries[j].0
                    != key + extension by {
                    if j < last {
                        assert(prefix[j] == entries[j]);
                    }
                }
            }
        }
    }
}

} // verus!
