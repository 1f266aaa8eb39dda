//! Language detection: the primary language of a directory by a census of
//! file extensions.

use vstd::prelude::*;

use crate::scan::detection::Detection;
use crate::text::str_eq;

verus! {

/// Number of known languages.
pub const NUM_LANGUAGES: usize = 43;

/// Number of known extensions.
pub const NUM_EXTENSIONS: usize = 68;

/// Known languages, in tie-breaking order, each marked when it is styling
/// or markup rather than source (such a language only wins a census in
/// which no source language appears).
pub const LANGUAGES: [(&'static str, bool); 43] = [
    ("Rust", false),
    ("TypeScript", false),
    ("JavaScript", false),
    ("Python", false),
    ("Go", false),
    ("Java", false),
    ("Kotlin", false),
    ("Swift", false),
    ("C", false),
    ("C++", false),
    ("C#", false),
    ("Ruby", false),
    ("PHP", false),
    ("Scala", false),
    ("Clojure", false),
    ("Elixir", false),
    ("Erlang", false),
    ("Haskell", false),
    ("OCaml", false),
    ("F#", false),
    ("Lua", false),
    ("Dart", false),
    ("Zig", false),
    ("Nim", false),
    ("Julia", false),
    ("R", false),
    ("Shell", false),
    ("PowerShell", false),
    ("Batch", false),
    ("Vue", false),
    ("Svelte", false),
    ("HTML", true),
    ("CSS", true),
    ("SCSS", true),
    ("Less", true),
    ("SQL", false),
    ("Elm", false),
    ("PureScript", false),
    ("Crystal", false),
    ("D", false),
    ("Vala", false),
    ("Vimscript", false),
    ("LaTeX", false),
];

/// File extension and the index in [`LANGUAGES`] of its language.
pub const EXTENSIONS: [(&'static str, usize); 68] = [
    ("rs", 0),
    ("ts", 1),
    ("tsx", 1),
    ("mts", 1),
    ("cts", 1),
    ("js", 2),
    ("jsx", 2),
    ("mjs", 2),
    ("cjs", 2),
    ("py", 3),
    ("pyi", 3),
    ("go", 4),
    ("java", 5),
    ("kt", 6),
    ("kts", 6),
    ("swift", 7),
    ("c", 8),
    ("h", 8),
    ("cpp", 9),
    ("cc", 9),
    ("cxx", 9),
    ("hpp", 9),
    ("hh", 9),
    ("cs", 10),
    ("rb", 11),
    ("php", 12),
    ("scala", 13),
    ("sc", 13),
    ("clj", 14),
    ("cljs", 14),
    ("cljc", 14),
    ("edn", 14),
    ("ex", 15),
    ("exs", 15),
    ("erl", 16),
    ("hs", 17),
    ("ml", 18),
    ("mli", 18),
    ("fs", 19),
    ("fsx", 19),
    ("lua", 20),
    ("dart", 21),
    ("zig", 22),
    ("nim", 23),
    ("jl", 24),
    ("r", 25),
    ("sh", 26),
    ("bash", 26),
    ("zsh", 26),
    ("ps1", 27),
    ("bat", 28),
    ("cmd", 28),
    ("vue", 29),
    ("svelte", 30),
    ("html", 31),
    ("htm", 31),
    ("css", 32),
    ("scss", 33),
    ("sass", 33),
    ("less", 34),
    ("sql", 35),
    ("elm", 36),
    ("purs", 37),
    ("cr", 38),
    ("d", 39),
    ("vala", 40),
    ("vim", 41),
    ("tex", 42),
];

/// The first table entry at or after `k` whose extension is `ext`.
pub open spec fn ext_entry_from(ext: Seq<char>, k: int) -> Option<int>
    decreases 68 - k,
{
    if k < 0 || k >= 68 {
        None
    } else if EXTENSIONS[k].0@ == ext {
        Some(k)
    } else {
        ext_entry_from(ext, k + 1)
    }
}

/// The index of the language of an extension, if it is a known one.
pub open spec fn language_index(ext: Seq<char>) -> Option<int> {
    match ext_entry_from(ext, 0) {
        Some(k) => Some(EXTENSIONS[k].1 as int),
        None => None,
    }
}

/// The language name of an extension, if it is a known one.
pub open spec fn spec_language_for_ext(ext: Seq<char>) -> Option<Seq<char>> {
    match language_index(ext) {
        Some(li) => Some(LANGUAGES[li].0@),
        None => None,
    }
}

proof fn lemma_table_indices()
    ensures
        forall|k: int| 0 <= k < 68 ==> EXTENSIONS[k].1 < 43,
{
    assert forall|k: int| 0 <= k < 68 implies EXTENSIONS[k].1 < 43 by {
        assert(EXTENSIONS[k].1 < 43);
    }
}

fn language_index_exec(ext: &str) -> (r: Option<usize>)
    ensures
        r == (match language_index(ext@) {
            Some(li) => Some(li as usize),
            None => None::<usize>,
        }),
        r matches Some(li) ==> li < 43,
{
    proof {
        lemma_table_indices();
    }
    let mut k: usize = 0;
    while k < 68
        invariant
            k <= 68,
            ext_entry_from(ext@, 0) == ext_entry_from(ext@, k as int),
            forall|j: int| 0 <= j < 68 ==> EXTENSIONS[j].1 < 43,
        decreases 68 - k,
    {
        if str_eq(EXTENSIONS[k].0, ext) {
            return Some(EXTENSIONS[k].1);
        }
        k = k + 1;
    }
    None
}

/// The language of a file extension, for the most common ones.
pub fn language_for_ext(ext: &str) -> (r: Option<&'static str>)
    ensures
        r matches Some(l) ==> spec_language_for_ext(ext@) == Some(l@),
        r is None ==> spec_language_for_ext(ext@) is None,
{
    match language_index_exec(ext) {
        Some(li) => Some(LANGUAGES[li].0),
        None => None,
    }
}

/// The language index of one sampled file (no extension, or an unknown
/// one, gives none).
pub open spec fn file_language(ext: Option<Seq<char>>) -> Option<int> {
    match ext {
        Some(e) => language_index(e),
        None => None,
    }
}

/// How many of the sampled files are in language `li`.
pub open spec fn tally(files: Seq<Option<Seq<char>>>, li: int) -> nat
    decreases files.len(),
{
    if files.len() == 0 {
        0
    } else {
        tally(files.drop_last(), li) + (if file_language(files.last()) == Some(li) {
            1nat
        } else {
            0nat
        })
    }
}

/// The extensions of the sampled files: the first `max_files` files.
pub open spec fn sampled(exts: Seq<Option<String>>, max_files: int) -> Seq<Option<Seq<char>>> {
    let n = if exts.len() <= max_files {
        exts.len() as int
    } else {
        max_files
    };
    exts.take(n).map_values(|e: Option<String>| match e {
        Some(s) => Some(s@),
        None => None,
    })
}

/// Some source (non-markup) language occurs among the files.
pub open spec fn has_source(files: Seq<Option<Seq<char>>>) -> bool {
    exists|li: int| 0 <= li < 43 && !LANGUAGES[li].1 && #[trigger] tally(files, li) > 0
}

/// The language that wins the census: among the languages of the preferred
/// class (source languages when any occurs, markup otherwise), the one with
/// the highest count, ties going to the earlier language in the table.
pub open spec fn is_winner(files: Seq<Option<Seq<char>>>, li: int) -> bool {
    &&& 0 <= li < 43
    &&& tally(files, li) > 0
    &&& LANGUAGES[li].1 == !has_source(files)
    &&& forall|j: int|
        0 <= j < 43 && LANGUAGES[j].1 == LANGUAGES[li].1 ==> #[trigger] tally(files, j) <= tally(
            files,
            li,
        )
    &&& forall|j: int|
        0 <= j < li && LANGUAGES[j].1 == LANGUAGES[li].1 ==> #[trigger] tally(files, j) < tally(
            files,
            li,
        )
}

/// Some language occurs among the files.
pub open spec fn any_language(files: Seq<Option<Seq<char>>>) -> bool {
    exists|li: int| 0 <= li < 43 && #[trigger] tally(files, li) > 0
}

/// Detects the primary language of a directory from a census of file
/// extensions, up to a depth limit and a file budget.
#[derive(Clone, Copy, Debug, PartialEq, Eq, Structural)]
pub struct LanguageDetector {
    /// Maximum number of files to sample.
    pub max_files: usize,
    /// Maximum walk depth below the root.
    pub max_depth: usize,
}

impl LanguageDetector {
    /// The default detector: 4096 files, depth 6.
    pub fn new() -> (d: LanguageDetector)
        ensures
            d.max_files == 4096,
            d.max_depth == 6,
    {
        LanguageDetector { max_files: 4096, max_depth: 6 }
    }

    /// Count the sampled files per language. `exts` lists, in walk order,
    /// the extension of each file met (none when it has no readable one).
    pub fn census(&self, exts: &[Option<String>]) -> (counts: Vec<usize>)
        ensures
            counts.len() == 43,
            forall|li: int|
                0 <= li < 43 ==> counts@[li] == tally(sampled(exts@, self.max_files as int), li),
    {
        let ghost files = sampled(exts@, self.max_files as int);
        let n: usize = if exts.len() <= self.max_files {
            exts.len()
        } else {
            self.max_files
        };
        let mut counts: Vec<usize> = Vec::new();
        let mut z: usize = 0;
        while z < 43
            invariant
                z <= 43,
                counts.len() == z,
                forall|li: int| 0 <= li < z ==> counts@[li] == 0,
            decreases 43 - z,
        {
            counts.push(0);
            z = z + 1;
        }
        let mut i: usize = 0;
        while i < n
            invariant
                n <= exts.len(),
                files.len() == n,
                files == sampled(exts@, self.max_files as int),
                i <= n,
                counts.len() == 43,
                forall|li: int| 0 <= li < 43 ==> counts@[li] == tally(files.take(i as int), li),
                forall|li: int| 0 <= li < 43 ==> counts@[li] <= i,
            decreases n - i,
        {
            let ghost pre = files.take(i as int);
            let ghost next = files.take(i + 1);
            assert(next.drop_last() =~= pre);
            assert(next.last() == files[i as int]);
            let found = match &exts[i] {
                Some(e) => language_index_exec(e.as_str()),
                None => None,
            };
            assert(found == (match file_language(files[i as int]) {
                Some(li) => Some(li as usize),
                None => None::<usize>,
            }));
            match found {
                Some(li) => {
                    let c = counts[li];
                    counts.set(li, c + 1);
                },
                None => {},
            }
            i = i + 1;
        }
        assert(files.take(n as int) =~= files);
        counts
    }

    /// The primary language of the sampled files, if any file has a known
    /// language.
    pub fn primary_language(&self, exts: &[Option<String>]) -> (r: Option<&'static str>)
        ensures
            r is None <== !any_language(sampled(exts@, self.max_files as int)),
            r matches Some(name) ==> exists|li: int|
                is_winner(sampled(exts@, self.max_files as int), li) && LANGUAGES[li].0@ == name@,
            r is None ==> !any_language(sampled(exts@, self.max_files as int)),
    {
        let ghost files = sampled(exts@, self.max_files as int);
        let counts = self.census(exts);
        let mut source_seen = false;
        let mut k: usize = 0;
        while k < 43
            invariant
                k <= 43,
                counts.len() == 43,
                forall|li: int| 0 <= li < 43 ==> counts@[li] == tally(files, li),
                source_seen == exists|li: int|
                    0 <= li < k && !LANGUAGES[li].1 && #[trigger] tally(files, li) > 0,
            decreases 43 - k,
        {
            if !LANGUAGES[k].1 && counts[k] > 0 {
                source_seen = true;
            }
            proof {
                let e_new = exists|li: int|
                    0 <= li < k + 1 && !LANGUAGES[li].1 && #[trigger] tally(files, li) > 0;
                if e_new {
                    let li = choose|li: int|
                        0 <= li < k + 1 && !LANGUAGES[li].1 && #[trigger] tally(files, li) > 0;
                    if li < k {
                        assert(0 <= li < k && !LANGUAGES[li].1 && tally(files, li) > 0);
                    }
                }
                if !LANGUAGES[k as int].1 && tally(files, k as int) > 0 {
                    assert(0 <= k < k + 1 && !LANGUAGES[k as int].1 && tally(files, k as int) > 0);
                }
            }
            k = k + 1;
        }
        assert(source_seen == has_source(files));
        let want_markup = !source_seen;
        let mut best: Option<usize> = None;
        let mut j: usize = 0;
        while j < 43
            invariant
                j <= 43,
                counts.len() == 43,
                forall|li: int| 0 <= li < 43 ==> counts@[li] == tally(files, li),
                want_markup == !has_source(files),
                best is None ==> forall|x: int|
                    0 <= x < j && LANGUAGES[x].1 == want_markup ==> #[trigger] tally(files, x) == 0,
                best matches Some(b) ==> {
                    &&& b < j
                    &&& tally(files, b as int) > 0
                    &&& LANGUAGES[b as int].1 == want_markup
                    &&& forall|x: int|
                        0 <= x < j && LANGUAGES[x].1 == want_markup ==> #[trigger] tally(files, x)
                            <= tally(files, b as int)
                    &&& forall|x: int|
                        0 <= x < b && LANGUAGES[x].1 == want_markup ==> #[trigger] tally(files, x)
                            < tally(files, b as int)
                },
            decreases 43 - j,
        {
            if LANGUAGES[j].1 == want_markup && counts[j] > 0 {
                match best {
                    None => {
                        best = Some(j);
                    },
                    Some(b) => {
                        if counts[j] > counts[b] {
                            best = Some(j);
                        }
                    },
                }
            }
            j = j + 1;
        }
        match best {
            Some(b) => {
                assert(is_winner(files, b as int));
                Some(LANGUAGES[b].0)
            },
            None => {
                assert(!any_language(files)) by {
                    if any_language(files) {
                        let li = choose|li: int| 0 <= li < 43 && #[trigger] tally(files, li) > 0;
                        if !LANGUAGES[li].1 {
                            assert(has_source(files));
                        }
                    }
                }
                None
            },
        }
    }

    /// A detection carrying the primary language, when there is one.
    pub fn detect(&self, exts: &[Option<String>]) -> (r: Option<Detection>)
        ensures
            r is None <==> !any_language(sampled(exts@, self.max_files as int)),
            r matches Some(d) ==> {
                &&& !d.is_repo
                &&& d.framework is None
                &&& d.package_manager is None
                &&& exists|li: int|
                    is_winner(sampled(exts@, self.max_files as int), li) && (d.language
                        matches Some(l) && l@ == LANGUAGES[li].0@)
            },
    {
        match self.primary_language(exts) {
            Some(name) => Some(
                Detection {
                    is_repo: false,
                    framework: None,
                    language: Some(name.to_owned()),
                    package_manager: None,
                },
            ),
            None => None,
        }
    }
}

impl Default for LanguageDetector {
    fn default() -> (d: LanguageDetector)
        ensures
            d.max_files == 4096,
            d.max_depth == 6,
    {
        LanguageDetector::new()
    }
}

} // verus!
