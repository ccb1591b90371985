//! Serving the files of a directory.

use std::str::FromStr;
use vstd::prelude::*;

use crate::text::{is_word, push_text, spec_split, spec_trim, spec_views, split_char, trim};

verus! {

/// A way to compress what is sent.
#[derive(Clone, Copy, Debug, PartialEq, Eq, Hash, Structural)]
#[non_exhaustive]
pub enum CompressionAlgo {
    /// Brotli
    Brotli,
    /// Deflate
    Deflate,
    /// Gzip
    Gzip,
    /// Zstd
    Zstd,
}

impl CompressionAlgo {
    /// The way that `name` names, if it names one.
    pub open spec fn spec_parse(name: Seq<char>) -> Option<CompressionAlgo> {
        if name == "br"@ || name == "brotli"@ {
            Some(CompressionAlgo::Brotli)
        } else if name == "deflate"@ {
            Some(CompressionAlgo::Deflate)
        } else if name == "gzip"@ {
            Some(CompressionAlgo::Gzip)
        } else if name == "zstd"@ {
            Some(CompressionAlgo::Zstd)
        } else {
            None
        }
    }

    /// The way that `name` names: one of `br`, `brotli`, `deflate`, `gzip`
    /// and `zstd`. Any other name is an error that quotes it.
    pub fn parse(name: &str) -> (parsed: Result<CompressionAlgo, String>)
        ensures
            match parsed {
                Ok(algo) => Self::spec_parse(name@) == Some(algo),
                Err(message) => Self::spec_parse(name@) is None && message@
                    == "unknown compression algorithm: "@ + name@,
            },
    {
        if is_word(name, "br") || is_word(name, "brotli") {
            Ok(CompressionAlgo::Brotli)
        } else if is_word(name, "deflate") {
            Ok(CompressionAlgo::Deflate)
        } else if is_word(name, "gzip") {
            Ok(CompressionAlgo::Gzip)
        } else if is_word(name, "zstd") {
            Ok(CompressionAlgo::Zstd)
        } else {
            let mut message = String::new();
            push_text(&mut message, "unknown compression algorithm: ");
            push_text(&mut message, name);
            assert(message@ =~= "unknown compression algorithm: "@ + name@);
            Err(message)
        }
    }

    /// The name of the way, as it stands in `Content-Encoding`.
    pub fn as_str(&self) -> (name: &'static str)
        ensures
            name@ == match self {
                CompressionAlgo::Brotli => "br"@,
                CompressionAlgo::Deflate => "deflate"@,
                CompressionAlgo::Gzip => "gzip"@,
                CompressionAlgo::Zstd => "zstd"@,
            },
    {
        match self {
            CompressionAlgo::Brotli => "br",
            CompressionAlgo::Deflate => "deflate",
            CompressionAlgo::Gzip => "gzip",
            CompressionAlgo::Zstd => "zstd",
        }
    }
}

impl FromStr for CompressionAlgo {
    type Err = String;

    /// The way that `name` names, as [`CompressionAlgo::parse`] reads it.
    fn from_str(name: &str) -> (parsed: Result<Self, Self::Err>)
        ensures
            match parsed {
                Ok(algo) => CompressionAlgo::spec_parse(name@) == Some(algo),
                Err(message) => CompressionAlgo::spec_parse(name@) is None && message@
                    == "unknown compression algorithm: "@ + name@,
            },
    {
        CompressionAlgo::parse(name)
    }
}

/// Gives the directories under which files are looked for.
pub trait StaticRoots {
    /// The directories, as mathematics.
    spec fn spec_collect(&self) -> Seq<Seq<char>>;

    /// The directories, in the order in which they are searched.
    fn collect(self) -> (roots: Vec<String>)
        ensures
            spec_views(roots@) == self.spec_collect(),
    ;
}

impl<'a> StaticRoots for &'a str {
    open spec fn spec_collect(&self) -> Seq<Seq<char>> {
        seq![self@]
    }

    fn collect(self) -> (roots: Vec<String>) {
        let mut roots: Vec<String> = Vec::new();
        roots.push(self.to_owned());
        assert(spec_views(roots@) =~= seq![self@]);
        roots
    }
}

impl StaticRoots for String {
    open spec fn spec_collect(&self) -> Seq<Seq<char>> {
        seq![self@]
    }

    fn collect(self) -> (roots: Vec<String>) {
        let ghost text = self@;
        let mut roots: Vec<String> = Vec::new();
        roots.push(self);
        assert(spec_views(roots@) =~= seq![text]);
        roots
    }
}

impl StaticRoots for Vec<String> {
    open spec fn spec_collect(&self) -> Seq<Seq<char>> {
        spec_views(self@)
    }

    fn collect(self) -> (roots: Vec<String>) {
        self
    }
}

/// The file name extensions under which compressed variants of a file are
/// looked for, by way of compression. No way stands twice.
#[derive(Debug, PartialEq, Eq)]
pub struct CompressedVariations {
    entries: Vec<(CompressionAlgo, Vec<String>)>,
}

impl CompressedVariations {
    /// What holds of every table: no way of compression stands twice.
    #[verifier::type_invariant]
    spec fn inv(&self) -> bool {
        forall|i: int, j: int|
            0 <= i < j < self.entries@.len() ==> (#[trigger] self.entries@[i]).0
                != (#[trigger] self.entries@[j]).0
    }

    /// The entries, in the order in which their ways were first set.
    pub closed spec fn spec_entries(&self) -> Seq<(CompressionAlgo, Vec<String>)> {
        self.entries@
    }

    /// The extensions that stand under `algo`, if any do.
    pub open spec fn spec_get(&self, algo: CompressionAlgo) -> Option<Seq<Seq<char>>> {
        spec_get_in(self.spec_entries(), algo)
    }

    /// Whether anything stands under `algo`.
    pub open spec fn spec_has(&self, algo: CompressionAlgo) -> bool {
        self.spec_get(algo) is Some
    }

    /// The number of entries.
    pub open spec fn spec_len(&self) -> nat {
        self.spec_entries().len()
    }

    /// Whether `ext` stands under one of the ways.
    pub open spec fn spec_has_ext(&self, ext: Seq<char>) -> bool {
        exists|i: int, j: int|
            0 <= i < self.spec_entries().len() && 0 <= j < self.spec_entries()[i].1@.len()
                && (#[trigger] self.spec_entries()[i].1@[j])@ == ext
    }

    /// A table without entries.
    pub fn new() -> (table: Self)
        ensures
            table.spec_entries().len() == 0,
    {
        CompressedVariations { entries: Vec::new() }
    }

    /// Whether the table has no entries.
    pub fn is_empty(&self) -> (empty: bool)
        ensures
            empty == (self.spec_entries().len() == 0),
    {
        self.entries.len() == 0
    }

    /// The number of entries.
    pub fn len(&self) -> (len: usize)
        ensures
            len == self.spec_entries().len(),
    {
        self.entries.len()
    }

    /// The place of `algo` in the entries, if it is there.
    fn position(&self, algo: CompressionAlgo) -> (found: Option<usize>)
        ensures
            match found {
                Some(at) => at < self.spec_entries().len() && self.spec_entries()[at as int].0
                    == algo,
                None => forall|i: int|
                    0 <= i < self.spec_entries().len() ==> (#[trigger] self.spec_entries()[i]).0
                        != algo,
            },
    {
        let mut i: usize = 0;
        while i < self.entries.len()
            invariant
                i <= self.entries.len(),
                forall|j: int| 0 <= j < i ==> (#[trigger] self.entries@[j]).0 != algo,
            decreases self.entries.len() - i,
        {
            if self.entries[i].0 == algo {
                return Some(i);
            }
            i += 1;
        }
        None
    }

    /// The extensions that stand under `algo`, if any do.
    pub fn get(&self, algo: CompressionAlgo) -> (exts: Option<&Vec<String>>)
        ensures
            match exts {
                Some(list) => self.spec_get(algo) == Some(spec_views(list@)),
                None => self.spec_get(algo) is None,
            },
    {
        proof {
            use_type_invariant(self);
        }
        match self.position(algo) {
            Some(at) => {
                proof {
                    lemma_get_at(self.entries@, algo, at as int);
                }
                Some(&self.entries[at].1)
            },
            None => None,
        }
    }

    /// Puts `exts` under `algo`, in the place of what stood there.
    pub fn insert(&mut self, algo: CompressionAlgo, exts: Vec<String>)
        ensures
            final(self).spec_get(algo) == Some(spec_views(exts@)),
            forall|other: CompressionAlgo|
                other != algo ==> final(self).spec_get(other) == old(self).spec_get(other),
            old(self).spec_has(algo) ==> final(self).spec_len() == old(self).spec_len(),
            !old(self).spec_has(algo) ==> final(self).spec_len() == old(self).spec_len() + 1,
    {
        proof {
            use_type_invariant(&*self);
        }
        let found = self.position(algo);
        let mut entries: Vec<(CompressionAlgo, Vec<String>)> = Vec::new();
        core::mem::swap(&mut entries, &mut self.entries);
        let ghost before = entries@;
        match found {
            Some(at) => {
                entries.set(at, (algo, exts));
            },
            None => {
                entries.push((algo, exts));
            },
        }
        let ghost after = entries@;
        let ghost place: int = match found {
            Some(at) => at as int,
            None => before.len() as int,
        };
        assert(after[place] == (algo, exts));
        assert forall|i: int, j: int| 0 <= i < j < after.len() implies (#[trigger] after[i]).0 != (
        #[trigger] after[j]).0 by {
            if i != place && j != place {
                assert(after[i] == before[i]);
                assert(after[j] == before[j]);
            } else if i == place {
                if j < before.len() {
                    assert(after[j] == before[j]);
                }
            } else {
                assert(after[i] == before[i]);
            }
        }
        self.entries = entries;
        proof {
            lemma_get_at(after, algo, place);
            assert(self.spec_get(algo) == Some(spec_views(exts@)));
            let at_entry = *old(self);
            assert forall|other: CompressionAlgo| other != algo implies self.spec_get(other)
                == at_entry.spec_get(other) by {
                lemma_get_same(before, after, other, place);
            }
            if found is None {
                assert(!exists|i: int| 0 <= i < before.len() && (#[trigger] before[i]).0 == algo);
            } else {
                assert(before[place].0 == algo);
            }
        }
    }

    /// Whether `ext` stands under one of the ways.
    pub fn has_ext(&self, ext: &str) -> (found: bool)
        ensures
            found == self.spec_has_ext(ext@),
    {
        let mut i: usize = 0;
        while i < self.entries.len()
            invariant
                i <= self.entries.len(),
                forall|a: int, b: int|
                    0 <= a < i && 0 <= b < self.entries@[a].1@.len() ==> (
                    #[trigger] self.entries@[a].1@[b])@ != ext@,
            decreases self.entries.len() - i,
        {
            let exts = &self.entries[i].1;
            let mut j: usize = 0;
            while j < exts.len()
                invariant
                    i < self.entries.len(),
                    *exts == self.entries@[i as int].1,
                    j <= exts.len(),
                    forall|b: int| 0 <= b < j ==> (#[trigger] exts@[b])@ != ext@,
                    forall|a: int, b: int|
                        0 <= a < i && 0 <= b < self.entries@[a].1@.len() ==> (
                        #[trigger] self.entries@[a].1@[b])@ != ext@,
                decreases exts.len() - j,
            {
                if is_word(exts[j].as_str(), ext) {
                    assert(self.spec_entries()[i as int].1@[j as int]@ == ext@);
                    return true;
                }
                j += 1;
            }
            i += 1;
        }
        false
    }
}

/// What stands under a way in a list of entries without repetition.
pub open spec fn spec_get_in(entries: Seq<(CompressionAlgo, Vec<String>)>, algo: CompressionAlgo) -> Option<
    Seq<Seq<char>>,
> {
    if exists|i: int| 0 <= i < entries.len() && (#[trigger] entries[i]).0 == algo {
        let at = choose|i: int| 0 <= i < entries.len() && (#[trigger] entries[i]).0 == algo;
        Some(spec_views(entries[at].1@))
    } else {
        None
    }
}

/// In a table without repetition, what stands under a way is what stands
/// at the place where the way is found.
proof fn lemma_get_at(entries: Seq<(CompressionAlgo, Vec<String>)>, algo: CompressionAlgo, place: int)
    requires
        0 <= place < entries.len(),
        entries[place].0 == algo,
        forall|i: int, j: int|
            0 <= i < j < entries.len() ==> (#[trigger] entries[i]).0 != (#[trigger] entries[j]).0,
    ensures
        spec_get_in(entries, algo) == Some(spec_views(entries[place].1@)),
{
    let at = choose|i: int| 0 <= i < entries.len() && (#[trigger] entries[i]).0 == algo;
    if at < place {
        assert(entries[at].0 != entries[place].0);
    } else if at > place {
        assert(entries[place].0 != entries[at].0);
    }
}

/// Setting what stands under one way leaves what stands under the others.
proof fn lemma_get_same(
    before: Seq<(CompressionAlgo, Vec<String>)>,
    after: Seq<(CompressionAlgo, Vec<String>)>,
    other: CompressionAlgo,
    place: int,
)
    requires
        0 <= place < after.len(),
        after[place].0 != other,
        before.len() == after.len() || before.len() + 1 == after.len(),
        before.len() + 1 == after.len() ==> place == before.len(),
        before.len() == after.len() ==> before[place].0 == after[place].0,
        forall|i: int| 0 <= i < before.len() && i != place ==> before[i] == after[i],
        forall|i: int, j: int|
            0 <= i < j < after.len() ==> (#[trigger] after[i]).0 != (#[trigger] after[j]).0,
        forall|i: int, j: int|
            0 <= i < j < before.len() ==> (#[trigger] before[i]).0 != (#[trigger] before[j]).0,
    ensures
        spec_get_in(after, other) == spec_get_in(before, other),
{
    if exists|i: int| 0 <= i < before.len() && (#[trigger] before[i]).0 == other {
        let at = choose|i: int| 0 <= i < before.len() && (#[trigger] before[i]).0 == other;
        assert(at != place);
        assert(after[at] == before[at]);
        lemma_get_at(after, other, at);
        lemma_get_at(before, other, at);
    } else {
        if exists|i: int| 0 <= i < after.len() && (#[trigger] after[i]).0 == other {
            let at = choose|i: int| 0 <= i < after.len() && (#[trigger] after[i]).0 == other;
            assert(at != place);
            assert(before[at] == after[at]);
            assert(false);
        }
    }
}

/// The extensions that a list such as `gz, gzip` names: its pieces between
/// the commas, each without the white space around it.
pub open spec fn spec_parse_exts(exts: Seq<char>) -> Seq<Seq<char>> {
    Seq::new(spec_split(exts, ',').len(), |i: int| spec_trim(spec_split(exts, ',')[i]))
}

/// The extensions that a list such as `gz, gzip` names.
pub fn parse_exts(exts: &str) -> (list: Vec<String>)
    ensures
        spec_views(list@) == spec_parse_exts(exts@),
{
    let pieces = split_char(exts, ',');
    let mut list: Vec<String> = Vec::new();
    let mut i: usize = 0;
    while i < pieces.len()
        invariant
            i <= pieces.len(),
            list@.len() == i,
            spec_views(pieces@) == spec_split(exts@, ','),
            forall|j: int| 0 <= j < i ==> (#[trigger] list@[j])@ == spec_trim(spec_split(exts@, ',')[j]),
        decreases pieces.len() - i,
    {
        assert(spec_views(pieces@)[i as int] == pieces@[i as int]@);
        list.push(trim(pieces[i].as_str()));
        i += 1;
    }
    assert(spec_views(pieces@).len() == pieces@.len());
    assert(spec_views(list@) =~= spec_parse_exts(exts@));
    list
}

/// Serves the files below some directories.
#[non_exhaustive]
pub struct StaticDir<F> {
    /// The directories under which files are looked for, in this order.
    pub roots: Vec<String>,
    /// How many bytes of a file are read at a time. `None` leaves it to the
    /// reader, which takes a mebibyte.
    pub chunk_size: Option<u64>,
    /// Whether files are served whose name begins with a dot.
    pub include_dot_files: bool,
    /// The filters that tell which files are left out.
    pub exclude_filters: Vec<F>,
    /// Whether a directory without a default file is listed.
    pub auto_list: bool,
    /// The extensions of compressed variants, by way of compression. Where
    /// such a variant of a file exists, it is served in the file's place.
    pub compressed_variations: CompressedVariations,
    /// The names of the files that stand for their directory.
    pub defaults: Vec<String>,
    /// The file that is served where the one asked for is not found.
    pub fallback: Option<String>,
}

/// Whether `table` is the table that every handler starts with: `br` for
/// Brotli, `zst` for Zstd, `gz` for Gzip and `deflate` for Deflate.
pub open spec fn spec_default_variations(table: CompressedVariations) -> bool {
    &&& table.spec_entries().len() == 4
    &&& table.spec_get(CompressionAlgo::Brotli) == Some(seq!["br"@])
    &&& table.spec_get(CompressionAlgo::Zstd) == Some(seq!["zst"@])
    &&& table.spec_get(CompressionAlgo::Gzip) == Some(seq!["gz"@])
    &&& table.spec_get(CompressionAlgo::Deflate) == Some(seq!["deflate"@])
}

/// The list that holds `ext` alone.
fn one_ext(ext: &str) -> (list: Vec<String>)
    ensures
        spec_views(list@) == seq![ext@],
{
    let mut list: Vec<String> = Vec::new();
    list.push(ext.to_owned());
    assert(spec_views(list@) =~= seq![ext@]);
    list
}

impl<F> StaticDir<F> {
    /// A handler for the files below `roots`. It serves no dot files, leaves
    /// nothing else out, lists no directories, knows the usual compressed
    /// variants, and has neither default files nor a fallback.
    pub fn new<T: StaticRoots>(roots: T) -> (dir: Self)
        ensures
            spec_views(dir.roots@) == roots.spec_collect(),
            dir.chunk_size is None,
            !dir.include_dot_files,
            dir.exclude_filters@.len() == 0,
            !dir.auto_list,
            spec_default_variations(dir.compressed_variations),
            dir.defaults@.len() == 0,
            dir.fallback is None,
    {
        let mut compressed_variations = CompressedVariations::new();
        assert(compressed_variations.spec_get(CompressionAlgo::Brotli) is None);
        compressed_variations.insert(CompressionAlgo::Brotli, one_ext("br"));
        assert(compressed_variations.spec_get(CompressionAlgo::Zstd) is None);
        compressed_variations.insert(CompressionAlgo::Zstd, one_ext("zst"));
        assert(compressed_variations.spec_get(CompressionAlgo::Gzip) is None);
        compressed_variations.insert(CompressionAlgo::Gzip, one_ext("gz"));
        assert(compressed_variations.spec_get(CompressionAlgo::Deflate) is None);
        compressed_variations.insert(CompressionAlgo::Deflate, one_ext("deflate"));
        StaticDir {
            roots: roots.collect(),
            chunk_size: None,
            include_dot_files: false,
            exclude_filters: Vec::new(),
            auto_list: false,
            compressed_variations,
            defaults: Vec::new(),
            fallback: None,
        }
    }

    /// Sets whether files are served whose name begins with a dot.
    pub fn include_dot_files(self, include_dot_files: bool) -> (dir: Self)
        ensures
            dir.include_dot_files == include_dot_files,
            dir.roots == self.roots,
            dir.chunk_size == self.chunk_size,
            dir.exclude_filters == self.exclude_filters,
            dir.auto_list == self.auto_list,
            dir.compressed_variations == self.compressed_variations,
            dir.defaults == self.defaults,
            dir.fallback == self.fallback,
    {
        let mut dir = self;
        dir.include_dot_files = include_dot_files;
        dir
    }

    /// Adds a filter that tells which files are left out.
    pub fn exclude(self, filter: F) -> (dir: Self)
        ensures
            dir.exclude_filters@ == self.exclude_filters@.push(filter),
            dir.roots == self.roots,
            dir.chunk_size == self.chunk_size,
            dir.include_dot_files == self.include_dot_files,
            dir.auto_list == self.auto_list,
            dir.compressed_variations == self.compressed_variations,
            dir.defaults == self.defaults,
            dir.fallback == self.fallback,
    {
        let mut dir = self;
        dir.exclude_filters.push(filter);
        dir
    }

    /// Sets whether a directory without a default file is listed.
    pub fn auto_list(self, auto_list: bool) -> (dir: Self)
        ensures
            dir.auto_list == auto_list,
            dir.roots == self.roots,
            dir.chunk_size == self.chunk_size,
            dir.include_dot_files == self.include_dot_files,
            dir.exclude_filters == self.exclude_filters,
            dir.compressed_variations == self.compressed_variations,
            dir.defaults == self.defaults,
            dir.fallback == self.fallback,
    {
        let mut dir = self;
        dir.auto_list = auto_list;
        dir
    }

    /// Sets the extensions under which the variants compressed with `algo`
    /// are looked for, as a list with commas such as `gz, gzip`.
    pub fn compressed_variation(self, algo: CompressionAlgo, exts: &str) -> (dir: Self)
        ensures
            dir.compressed_variations.spec_get(algo) == Some(spec_parse_exts(exts@)),
            forall|other: CompressionAlgo|
                other != algo ==> dir.compressed_variations.spec_get(other)
                    == self.compressed_variations.spec_get(other),
            dir.roots == self.roots,
            dir.chunk_size == self.chunk_size,
            dir.include_dot_files == self.include_dot_files,
            dir.exclude_filters == self.exclude_filters,
            dir.auto_list == self.auto_list,
            dir.defaults == self.defaults,
            dir.fallback == self.fallback,
    {
        let mut table = self.compressed_variations;
        table.insert(algo, parse_exts(exts));
        StaticDir {
            roots: self.roots,
            chunk_size: self.chunk_size,
            include_dot_files: self.include_dot_files,
            exclude_filters: self.exclude_filters,
            auto_list: self.auto_list,
            compressed_variations: table,
            defaults: self.defaults,
            fallback: self.fallback,
        }
    }

    /// Sets the names of the files that stand for their directory.
    pub fn defaults(self, defaults: Vec<String>) -> (dir: Self)
        ensures
            dir.defaults == defaults,
            dir.roots == self.roots,
            dir.chunk_size == self.chunk_size,
            dir.include_dot_files == self.include_dot_files,
            dir.exclude_filters == self.exclude_filters,
            dir.auto_list == self.auto_list,
            dir.compressed_variations == self.compressed_variations,
            dir.fallback == self.fallback,
    {
        let mut dir = self;
        dir.defaults = defaults;
        dir
    }

    /// Sets the file that is served where the one asked for is not found.
    pub fn fallback(self, fallback: &str) -> (dir: Self)
        ensures
            dir.fallback matches Some(name) && name@ == fallback@,
            dir.roots == self.roots,
            dir.chunk_size == self.chunk_size,
            dir.include_dot_files == self.include_dot_files,
            dir.exclude_filters == self.exclude_filters,
            dir.auto_list == self.auto_list,
            dir.compressed_variations == self.compressed_variations,
            dir.defaults == self.defaults,
    {
        let mut dir = self;
        dir.fallback = Some(fallback.to_owned());
        dir
    }

    /// Sets how many bytes of a file are read at a time.
    pub fn chunk_size(self, size: u64) -> (dir: Self)
        ensures
            dir.chunk_size == Some(size),
            dir.roots == self.roots,
            dir.include_dot_files == self.include_dot_files,
            dir.exclude_filters == self.exclude_filters,
            dir.auto_list == self.auto_list,
            dir.compressed_variations == self.compressed_variations,
            dir.defaults == self.defaults,
            dir.fallback == self.fallback,
    {
        let mut dir = self;
        dir.chunk_size = Some(size);
        dir
    }

    /// Whether `ext` is the extension of a compressed variant.
    pub fn is_compressed_ext(&self, ext: &str) -> (compressed: bool)
        ensures
            compressed == self.compressed_variations.spec_has_ext(ext@),
    {
        self.compressed_variations.has_ext(ext)
    }
}

} // verus!
