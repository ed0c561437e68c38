//! Matcher configurations, and the table that finds the one a document
//! falls under.

use vstd::prelude::*;
use globset::GlobSet;
use crate::globs::{builder_patterns, glob_set_patterns, glob_is_valid,
    glob_set_builds, glob_set_matches, glob_new, builder_new, builder_add, builder_build,
    glob_set_is_match};

verus! {

/// A handle for a syntax grammar. The library only carries it.
#[derive(Debug, Clone, Copy, PartialEq, Eq, Structural)]
pub struct GrammarId(pub usize);

/// A matcher configuration: which documents it claims, by the globs their
/// path may match and by their language identifiers, and the grammar
/// that goes with them.
#[derive(Debug)]
pub struct DocumentMatcher {
    /// The name of the configuration. It need not be unique.
    pub name: String,
    /// Globs that a document's path may match.
    pub url_globs: Vec<String>,
    /// Language identifiers that a document may carry.
    pub lang_strings: Vec<String>,
    /// The grammar for the documents of this configuration.
    pub lang_grammar: Option<GrammarId>,
}

/// The text without the white space at its two ends, as `str::trim`
/// gives it.
pub uninterp spec fn trimmed(s: Seq<char>) -> Seq<char>;

/// A character with an ASCII capital letter turned into its small one.
pub open spec fn ascii_lower_char(c: char) -> char {
    if 'A' <= c && c <= 'Z' {
        ((c as u32) + 32) as char
    } else {
        c
    }
}

/// A text with its ASCII capital letters turned into small ones.
pub open spec fn ascii_lower(s: Seq<char>) -> Seq<char> {
    Seq::new(s.len(), |i: int| ascii_lower_char(s[i]))
}

/// The form under which language identifiers are compared: trimmed, and
/// in ASCII lower case.
pub open spec fn normalized_language(s: Seq<char>) -> Seq<char> {
    ascii_lower(trimmed(s))
}

/// `str::trim`: the text without leading and trailing white space.
#[verifier::external_body]
fn trim_str(s: &str) -> (t: &str)
    ensures
        t@ == trimmed(s@),
{
    s.trim()
}

/// `str::to_ascii_lowercase`: a copy in which the ASCII letters `A` to
/// `Z` are `a` to `z` and every other character is unchanged.
#[verifier::external_body]
fn to_ascii_lowercase(s: &str) -> (t: String)
    ensures
        t@ == ascii_lower(s@),
{
    s.to_ascii_lowercase()
}

/// Brings a language identifier into the form under which identifiers
/// are compared.
pub fn normalize_language(lang: &str) -> (normal: String)
    ensures
        normal@ == normalized_language(lang@),
{
    to_ascii_lowercase(trim_str(lang))
}

/// The globs among `globs` that are valid patterns, in order.
pub open spec fn valid_patterns(globs: Seq<String>) -> Seq<Seq<char>>
    decreases globs.len(),
{
    if globs.len() == 0 {
        Seq::empty()
    } else if glob_is_valid(globs.last()@) {
        valid_patterns(globs.drop_last()).push(globs.last()@)
    } else {
        valid_patterns(globs.drop_last())
    }
}

/// Whether a matcher has a working set of globs: at least one valid
/// pattern, and a set that can be built from the valid ones.
pub open spec fn has_glob_set(matcher: DocumentMatcher) -> bool {
    valid_patterns(matcher.url_globs@).len() > 0 && glob_set_builds(
        valid_patterns(matcher.url_globs@),
    )
}

/// Whether a matcher claims a path by its globs.
pub open spec fn claims_path(matcher: DocumentMatcher, path: Seq<char>) -> bool {
    has_glob_set(matcher) && glob_set_matches(valid_patterns(matcher.url_globs@), path)
}

/// Whether a matcher claims a language identifier in normal form.
pub open spec fn claims_language(matcher: DocumentMatcher, normal: Seq<char>) -> bool {
    exists|j: int|
        0 <= j < matcher.lang_strings@.len() && normalized_language(
            #[trigger] matcher.lang_strings@[j]@,
        ) == normal
}

/// The matcher that a language identifier in normal form selects: the
/// last one registered that claims it.
pub open spec fn language_match(matchers: Seq<DocumentMatcher>, normal: Seq<char>) -> Option<int>
    decreases matchers.len(),
{
    if matchers.len() == 0 {
        None
    } else if claims_language(matchers.last(), normal) {
        Some(matchers.len() - 1)
    } else {
        language_match(matchers.drop_last(), normal)
    }
}

/// The matcher that a path selects: the first one registered, from index
/// `from` on, that claims it.
pub open spec fn glob_match(matchers: Seq<DocumentMatcher>, path: Seq<char>, from: int) -> Option<int>
    decreases matchers.len() - from,
{
    if from < 0 || from >= matchers.len() {
        None
    } else if claims_path(matchers[from], path) {
        Some(from)
    } else {
        glob_match(matchers, path, from + 1)
    }
}

/// The matcher that a document falls under. A matcher that claims the
/// document's language identifier wins over every glob. Without one, the
/// path decides, where the document has one.
pub open spec fn find_match(
    matchers: Seq<DocumentMatcher>,
    path: Option<Seq<char>>,
    lang: Seq<char>,
) -> Option<int> {
    match language_match(matchers, normalized_language(lang)) {
        Some(i) => Some(i),
        None => match path {
            Some(p) => glob_match(matchers, p, 0),
            None => None,
        },
    }
}

/// A language match is the index of a matcher that claims the language.
pub proof fn lemma_language_match_claims(matchers: Seq<DocumentMatcher>, normal: Seq<char>)
    ensures
        match language_match(matchers, normal) {
            Some(i) => 0 <= i < matchers.len() && claims_language(matchers[i], normal),
            None => forall|i: int| 0 <= i < matchers.len() ==> !claims_language(matchers[i], normal),
        },
    decreases matchers.len(),
{
    if matchers.len() > 0 && !claims_language(matchers.last(), normal) {
        lemma_language_match_claims(matchers.drop_last(), normal);
        assert forall|i: int| 0 <= i < matchers.len() - 1 implies matchers[i]
            == matchers.drop_last()[i] by {}
    }
}

/// A glob match is the index of a matcher that claims the path.
pub proof fn lemma_glob_match_claims(matchers: Seq<DocumentMatcher>, path: Seq<char>, from: int)
    requires
        0 <= from,
    ensures
        match glob_match(matchers, path, from) {
            Some(i) => from <= i < matchers.len() && claims_path(matchers[i], path),
            None => true,
        },
    decreases matchers.len() - from,
{
    if from < matchers.len() && !claims_path(matchers[from], path) {
        lemma_glob_match_claims(matchers, path, from + 1);
    }
}

/// Precedence of the language identifier: where some matcher claims the
/// document's language identifier, the document falls under a matcher
/// that claims it, whatever its path and whichever globs match it.
pub proof fn lemma_language_wins(
    matchers: Seq<DocumentMatcher>,
    path: Option<Seq<char>>,
    lang: Seq<char>,
    by_language: int,
)
    requires
        0 <= by_language < matchers.len(),
        claims_language(matchers[by_language], normalized_language(lang)),
    ensures
        find_match(matchers, path, lang) == language_match(matchers, normalized_language(lang)),
        find_match(matchers, path, lang).is_some(),
        claims_language(
            matchers[find_match(matchers, path, lang).unwrap()],
            normalized_language(lang),
        ),
        find_match(matchers, path, lang) == find_match(matchers, None, lang),
{
    lemma_language_match_claims(matchers, normalized_language(lang));
}

impl DocumentMatcher {
    /// A configuration with a name and nothing else.
    #[must_use]
    pub fn new(name: String) -> (m: Self)
        ensures
            m.name == name,
            m.url_globs@.len() == 0,
            m.lang_strings@.len() == 0,
            m.lang_grammar.is_none(),
    {
        DocumentMatcher {
            name,
            url_globs: Vec::new(),
            lang_strings: Vec::new(),
            lang_grammar: None,
        }
    }

    /// Adds globs, after the ones already there.
    #[must_use]
    pub fn with_url_globs(self, url_globs: Vec<String>) -> (m: Self)
        ensures
            m.name == self.name,
            m.url_globs@ == self.url_globs@ + url_globs@,
            m.lang_strings == self.lang_strings,
            m.lang_grammar == self.lang_grammar,
    {
        let mut m = self;
        let mut more = url_globs;
        m.url_globs.append(&mut more);
        m
    }

    /// Adds language identifiers, after the ones already there.
    #[must_use]
    pub fn with_lang_strings(self, lang_strings: Vec<String>) -> (m: Self)
        ensures
            m.name == self.name,
            m.url_globs == self.url_globs,
            m.lang_strings@ == self.lang_strings@ + lang_strings@,
            m.lang_grammar == self.lang_grammar,
    {
        let mut m = self;
        let mut more = lang_strings;
        m.lang_strings.append(&mut more);
        m
    }

    /// Sets the grammar.
    #[must_use]
    pub fn with_lang_grammar(self, lang_grammar: GrammarId) -> (m: Self)
        ensures
            m.name == self.name,
            m.url_globs == self.url_globs,
            m.lang_strings == self.lang_strings,
            m.lang_grammar == Some(lang_grammar),
    {
        let mut m = self;
        m.lang_grammar = Some(lang_grammar);
        m
    }

    /// Whether the configuration claims a language identifier given in
    /// normal form.
    pub fn has_language(&self, normal: &String) -> (found: bool)
        ensures
            found == claims_language(*self, normal@),
    {
        let mut j: usize = 0;
        while j < self.lang_strings.len()
            invariant
                j <= self.lang_strings@.len(),
                forall|k: int|
                    0 <= k < j ==> normalized_language(#[trigger] self.lang_strings@[k]@)
                        != normal@,
            decreases self.lang_strings.len() - j,
        {
            let candidate = normalize_language(self.lang_strings[j].as_str());
            if candidate == *normal {
                return true;
            }
            j += 1;
        }
        false
    }

    /// Builds the set of the configuration's valid globs. `None` where no
    /// glob is valid or no set can be built.
    pub fn build_glob_set(&self) -> (set: Option<GlobSet>)
        ensures
            set.is_some() == has_glob_set(*self),
            set.is_some() ==> glob_set_patterns(set.unwrap()) == valid_patterns(self.url_globs@),
    {
        let mut builder = builder_new();
        let mut any = false;
        let mut i: usize = 0;
        while i < self.url_globs.len()
            invariant
                i <= self.url_globs@.len(),
                builder_patterns(builder) == valid_patterns(self.url_globs@.take(i as int)),
                any == (builder_patterns(builder).len() > 0),
            decreases self.url_globs.len() - i,
        {
            proof {
                assert(self.url_globs@.take(i + 1).drop_last() =~= self.url_globs@.take(i as int));
                assert(self.url_globs@.take(i + 1).last() == self.url_globs@[i as int]);
            }
            match glob_new(self.url_globs[i].as_str()) {
                Some(glob) => {
                    builder_add(&mut builder, glob);
                    any = true;
                },
                None => {},
            }
            i += 1;
        }
        proof {
            assert(self.url_globs@.take(i as int) =~= self.url_globs@);
        }
        if any {
            builder_build(&builder)
        } else {
            None
        }
    }
}

/// The table of matcher configurations, made once from their list.
pub struct DocumentMatchers {
    matchers: Vec<DocumentMatcher>,
    globsets: Vec<Option<GlobSet>>,
}

impl DocumentMatchers {
    /// The configurations, in the order in which they were registered.
    pub closed spec fn configs(&self) -> Seq<DocumentMatcher> {
        self.matchers@
    }

    /// The table holds, for each configuration, the set of its globs.
    pub closed spec fn well_formed(&self) -> bool {
        &&& self.globsets@.len() == self.matchers@.len()
        &&& forall|i: int|
            0 <= i < self.matchers@.len() ==> match #[trigger] self.globsets@[i] {
                Some(set) => has_glob_set(self.matchers@[i]) && glob_set_patterns(set)
                    == valid_patterns(self.matchers@[i].url_globs@),
                None => !has_glob_set(self.matchers@[i]),
            }
    }

    /// Makes the table from the list of configurations.
    pub fn new(matchers: Vec<DocumentMatcher>) -> (table: Self)
        ensures
            table.well_formed(),
            table.configs() == matchers@,
    {
        let mut globsets: Vec<Option<GlobSet>> = Vec::new();
        let mut i: usize = 0;
        while i < matchers.len()
            invariant
                i <= matchers@.len(),
                globsets@.len() == i,
                forall|k: int|
                    0 <= k < i ==> match #[trigger] globsets@[k] {
                        Some(set) => has_glob_set(matchers@[k]) && glob_set_patterns(set)
                            == valid_patterns(matchers@[k].url_globs@),
                        None => !has_glob_set(matchers@[k]),
                    },
            decreases matchers.len() - i,
        {
            let set = matchers[i].build_glob_set();
            globsets.push(set);
            i += 1;
        }
        DocumentMatchers { matchers, globsets }
    }

    /// The number of configurations.
    pub fn len(&self) -> (n: usize)
        ensures
            n == self.configs().len(),
    {
        self.matchers.len()
    }

    /// The configuration at an index.
    pub fn get(&self, index: usize) -> (m: &DocumentMatcher)
        requires
            index < self.configs().len(),
        ensures
            *m == self.configs()[index as int],
    {
        &self.matchers[index]
    }

    /// The index of the last configuration that claims a language
    /// identifier given in normal form.
    fn find_by_language(&self, normal: &String) -> (found: Option<usize>)
        ensures
            match found {
                Some(i) => language_match(self.configs(), normal@) == Some(i as int),
                None => language_match(self.configs(), normal@).is_none(),
            },
    {
        let mut i: usize = self.matchers.len();
        assert(self.matchers@.take(i as int) =~= self.matchers@);
        while i > 0
            invariant
                i <= self.matchers@.len(),
                language_match(self.matchers@, normal@) == language_match(
                    self.matchers@.take(i as int),
                    normal@,
                ),
            decreases i,
        {
            proof {
                assert(self.matchers@.take(i as int).last() == self.matchers@[i - 1]);
                assert(self.matchers@.take(i as int).drop_last() =~= self.matchers@.take(i - 1));
            }
            if self.matchers[i - 1].has_language(normal) {
                return Some(i - 1);
            }
            i -= 1;
        }
        None
    }

    /// The index of the first configuration whose globs match a path.
    fn find_by_path(&self, path: &str) -> (found: Option<usize>)
        requires
            self.well_formed(),
        ensures
            match found {
                Some(i) => glob_match(self.configs(), path@, 0) == Some(i as int),
                None => glob_match(self.configs(), path@, 0).is_none(),
            },
    {
        let mut i: usize = 0;
        while i < self.globsets.len()
            invariant
                self.well_formed(),
                i <= self.matchers@.len(),
                glob_match(self.matchers@, path@, 0) == glob_match(self.matchers@, path@, i as int),
            decreases self.globsets.len() - i,
        {
            let matched = match &self.globsets[i] {
                Some(set) => glob_set_is_match(set, path),
                None => false,
            };
            if matched {
                return Some(i);
            }
            i += 1;
        }
        None
    }

    /// Finds the configuration that a document falls under, by its
    /// language identifier and, where it has one, its file path. The
    /// language identifier is compared trimmed and without regard to ASCII
    /// case, and a match by it wins over any glob. Among the globs the
    /// configuration registered first wins.
    pub fn find(&self, path: Option<&str>, lang: &str) -> (found: Option<usize>)
        requires
            self.well_formed(),
        ensures
            match found {
                Some(i) => find_match(
                    self.configs(),
                    match path {
                        Some(p) => Some(p@),
                        None => None,
                    },
                    lang@,
                ) == Some(i as int) && i < self.configs().len(),
                None => find_match(
                    self.configs(),
                    match path {
                        Some(p) => Some(p@),
                        None => None,
                    },
                    lang@,
                ).is_none(),
            },
    {
        let normal = normalize_language(lang);
        proof {
            lemma_language_match_claims(self.configs(), normal@);
        }
        match self.find_by_language(&normal) {
            Some(i) => Some(i),
            None => match path {
                Some(p) => {
                    proof {
                        lemma_glob_match_claims(self.configs(), p@, 0);
                    }
                    self.find_by_path(p)
                },
                None => None,
            },
        }
    }
}

} // verus!
