//! Pattern specifications compiled into case-insensitive matchers, and the
//! first-match-wins lookup over them.

use vstd::prelude::*;

verus! {

#[verifier::external_type_specification]
#[verifier::external_body]
pub struct ExRegex(regex::Regex);

/// Whether the regex engine accepts `source` as a pattern.
pub uninterp spec fn regex_compiles(source: Seq<char>) -> bool;

/// Whether the regex compiled from `source` finds a match in `text`.
pub uninterp spec fn regex_finds(source: Seq<char>, text: Seq<char>) -> bool;

/// `text` with every regex metacharacter escaped.
pub uninterp spec fn regex_escaped(text: Seq<char>) -> Seq<char>;

/// Relies on `regex::Regex::new`: whether a pattern compiles depends on the pattern alone.
#[verifier::external_body]
fn regex_new(source: &str) -> (r: Result<regex::Regex, String>)
    ensures
        r.is_ok() == regex_compiles(source@),
{
    match regex::Regex::new(source) {
        Ok(re) => Ok(re),
        Err(e) => Err(e.to_string()),
    }
}

/// Relies on `regex::escape`: the text as a literal pattern.
#[verifier::external_body]
fn regex_escape(text: &str) -> (r: String)
    ensures
        r@ == regex_escaped(text@),
{
    regex::escape(text)
}

/// Relies on `regex::Regex::is_match`, on the regex that `CompiledMatcher::compile`
/// built from the matcher's source text.
#[verifier::external_body]
fn regex_is_match(m: &CompiledMatcher, text: &str) -> (r: bool)
    ensures
        r == regex_finds(m.source_view(), text@),
{
    m.regex.is_match(text)
}

/// How a pattern's value is matched against an address text.
#[derive(Clone, Copy, Debug, PartialEq, Eq, Structural)]
pub enum PatternKind {
    Prefix,
    Suffix,
    Contains,
    Regex,
}

/// The kind a name stands for; an unknown name means a prefix.
pub open spec fn kind_spec(name: Seq<char>) -> PatternKind {
    if name == "suffix"@ {
        PatternKind::Suffix
    } else if name == "contains"@ {
        PatternKind::Contains
    } else if name == "regex"@ {
        PatternKind::Regex
    } else {
        PatternKind::Prefix
    }
}

/// The pattern body: a regex value as written, any other value as a literal.
pub open spec fn body_spec(kind: PatternKind, value: Seq<char>) -> Seq<char> {
    if kind == PatternKind::Regex {
        value
    } else {
        regex_escaped(value)
    }
}

/// The case-insensitive regex source of a pattern.
pub open spec fn source_spec(kind: PatternKind, value: Seq<char>) -> Seq<char> {
    let body = body_spec(kind, value);
    match kind {
        PatternKind::Prefix => "(?i)^0x"@ + body,
        PatternKind::Suffix => "(?i)"@ + body + "$"@,
        _ => "(?i)"@ + body,
    }
}

/// The human-readable description of a pattern.
pub open spec fn description_spec(kind: PatternKind, value: Seq<char>) -> Seq<char> {
    match kind {
        PatternKind::Prefix => "starts with "@ + value,
        PatternKind::Suffix => "ends with "@ + value,
        PatternKind::Contains => "contains "@ + value,
        PatternKind::Regex => "matches regex "@ + value,
    }
}

impl PatternKind {
    /// The kind named by `name`: `prefix`, `suffix`, `contains` or `regex`;
    /// any other name falls back to `Prefix`.
    pub fn from_name(name: &str) -> (r: PatternKind)
        ensures
            r == kind_spec(name@),
    {
        let n = String::from_str(name);
        if n == String::from_str("suffix") {
            PatternKind::Suffix
        } else if n == String::from_str("contains") {
            PatternKind::Contains
        } else if n == String::from_str("regex") {
            PatternKind::Regex
        } else {
            PatternKind::Prefix
        }
    }
}

/// A pattern as the user gives it: a kind name and a value.
pub struct PatternSpec {
    pub kind: String,
    pub value: String,
}

impl PatternSpec {
    pub open spec fn kind_view(&self) -> PatternKind {
        kind_spec(self.kind@)
    }

    pub open spec fn source_view(&self) -> Seq<char> {
        source_spec(self.kind_view(), self.value@)
    }

    pub open spec fn description_view(&self) -> Seq<char> {
        description_spec(self.kind_view(), self.value@)
    }
}

/// A pattern whose regex failed to compile.
pub struct InvalidPatternError {
    /// Position of the pattern in the input list.
    pub index: usize,
    /// The pattern's value.
    pub value: String,
    /// The regex engine's message.
    pub reason: String,
}

/// One compiled pattern: its regex, the regex's source text and its description.
pub struct CompiledMatcher {
    source: String,
    description: String,
    regex: regex::Regex,
}

impl CompiledMatcher {
    pub closed spec fn source_view(&self) -> Seq<char> {
        self.source@
    }

    pub closed spec fn description_view(&self) -> Seq<char> {
        self.description@
    }

    /// Compiles one pattern; fails exactly when its regex source does not compile.
    pub fn compile(spec: &PatternSpec) -> (r: Result<CompiledMatcher, String>)
        ensures
            r.is_ok() == regex_compiles(spec.source_view()),
            r matches Ok(m) ==> m.source_view() == spec.source_view() && m.description_view()
                == spec.description_view(),
    {
        let kind = PatternKind::from_name(spec.kind.as_str());
        let body = match kind {
            PatternKind::Regex => spec.value.clone(),
            _ => regex_escape(spec.value.as_str()),
        };
        let (mut source, mut description) = match kind {
            PatternKind::Prefix => (String::from_str("(?i)^0x"), String::from_str("starts with ")),
            PatternKind::Suffix => (String::from_str("(?i)"), String::from_str("ends with ")),
            PatternKind::Contains => (String::from_str("(?i)"), String::from_str("contains ")),
            PatternKind::Regex => (String::from_str("(?i)"), String::from_str("matches regex ")),
        };
        source.append(body.as_str());
        if kind == PatternKind::Suffix {
            source.append("$");
        }
        description.append(spec.value.as_str());
        assert(source@ == spec.source_view());
        assert(description@ == spec.description_view());
        match regex_new(source.as_str()) {
            Ok(regex) => Ok(CompiledMatcher { source, description, regex }),
            Err(e) => Err(e),
        }
    }

    /// The matcher's description.
    pub fn description(&self) -> (r: String)
        ensures
            r@ == self.description_view(),
    {
        self.description.clone()
    }

    /// Whether the matcher accepts `text`.
    pub fn is_match(&self, text: &str) -> (r: bool)
        ensures
            r == regex_finds(self.source_view(), text@),
    {
        regex_is_match(self, text)
    }
}

/// Index of the first source in `sources` that finds a match in `text`.
pub open spec fn first_match_spec(sources: Seq<Seq<char>>, text: Seq<char>) -> Option<int>
    decreases sources.len(),
{
    if sources.len() == 0 {
        None
    } else {
        match first_match_spec(sources.drop_last(), text) {
            Some(i) => Some(i),
            None => if regex_finds(sources.last(), text) {
                Some(sources.len() - 1)
            } else {
                None
            },
        }
    }
}

/// Compiled patterns, in declaration order.
pub struct PatternSet {
    matchers: Vec<CompiledMatcher>,
}

impl PatternSet {
    /// The regex sources, in declaration order.
    pub closed spec fn sources(&self) -> Seq<Seq<char>> {
        self.matchers@.map_values(|m: CompiledMatcher| m.source_view())
    }

    /// The descriptions, in declaration order.
    pub closed spec fn descriptions(&self) -> Seq<Seq<char>> {
        self.matchers@.map_values(|m: CompiledMatcher| m.description_view())
    }

    /// Compiles every pattern in order; the first whose regex does not compile
    /// is reported, and then no set is built.
    pub fn compile(specs: &Vec<PatternSpec>) -> (r: Result<PatternSet, InvalidPatternError>)
        ensures
            r is Ok == (forall|i: int| 0 <= i < specs@.len() ==> regex_compiles(#[trigger] specs@[i].source_view())),
            r matches Ok(set) ==> set.sources().len() == specs@.len() && set.descriptions().len()
                == specs@.len() && (forall|i: int| 0 <= i < specs@.len() ==> set.sources()[i]
                == #[trigger] specs@[i].source_view() && set.descriptions()[i]
                == specs@[i].description_view()),
            r matches Err(e) ==> e.index < specs@.len() && !regex_compiles(specs@[e.index as int].source_view())
                && e.value@ == specs@[e.index as int].value@ && (forall|j: int| 0 <= j < e.index ==> regex_compiles(#[trigger] specs@[j].source_view())),
    {
        let mut matchers: Vec<CompiledMatcher> = Vec::new();
        let mut i: usize = 0;
        while i < specs.len()
            invariant
                i <= specs@.len(),
                matchers@.len() == i,
                forall|j: int| 0 <= j < i ==> regex_compiles(#[trigger] specs@[j].source_view()),
                forall|j: int| 0 <= j < i ==> matchers@[j].source_view() == #[trigger] specs@[j].source_view()
                    && matchers@[j].description_view() == specs@[j].description_view(),
            decreases specs@.len() - i,
        {
            match CompiledMatcher::compile(&specs[i]) {
                Ok(m) => {
                    matchers.push(m);
                },
                Err(reason) => {
                    return Err(InvalidPatternError { index: i, value: specs[i].value.clone(), reason });
                },
            }
            i = i + 1;
        }
        let set = PatternSet { matchers };
        assert(set.sources().len() == specs@.len());
        Ok(set)
    }

    /// The number of patterns.
    pub fn len(&self) -> (r: usize)
        ensures
            r == self.sources().len(),
            r == self.descriptions().len(),
    {
        self.matchers.len()
    }

    /// The description of pattern `i`.
    pub fn description(&self, i: usize) -> (r: String)
        requires
            i < self.sources().len(),
        ensures
            r@ == self.descriptions()[i as int],
    {
        self.matchers[i].description()
    }

    /// The first pattern, in declaration order, that accepts `text`; later
    /// patterns are not tried once one has matched.
    pub fn match_first(&self, text: &str) -> (r: Option<usize>)
        ensures
            r matches Some(i) ==> i < self.sources().len() && i < self.descriptions().len()
                && first_match_spec(self.sources(), text@) == Some(i as int),
            r is None ==> first_match_spec(self.sources(), text@) is None,
    {
        let mut i: usize = 0;
        while i < self.matchers.len()
            invariant
                i <= self.matchers@.len(),
                first_match_spec(self.sources().subrange(0, i as int), text@) is None,
            decreases self.matchers@.len() - i,
        {
            let hit = self.matchers[i].is_match(text);
            proof {
                let s = self.sources().subrange(0, i + 1);
                assert(s.drop_last() =~= self.sources().subrange(0, i as int));
            }
            if hit {
                proof {
                    lemma_first_match_prefix(self.sources(), text@, i + 1);
                    lemma_first_match_in_range(self.sources(), text@);
                }
                return Some(i);
            }
            i = i + 1;
        }
        assert(self.sources().subrange(0, i as int) =~= self.sources());
        None
    }
}

/// The first match, if any, is the index of one of the sources.
pub proof fn lemma_first_match_in_range(sources: Seq<Seq<char>>, text: Seq<char>)
    ensures
        first_match_spec(sources, text) matches Some(i) ==> 0 <= i < sources.len() && regex_finds(sources[i], text),
    decreases sources.len(),
{
    if sources.len() > 0 {
        lemma_first_match_in_range(sources.drop_last(), text);
    }
}

/// A match found within a prefix of the sources is the first match overall.
proof fn lemma_first_match_prefix(sources: Seq<Seq<char>>, text: Seq<char>, n: int)
    requires
        0 <= n <= sources.len(),
        first_match_spec(sources.subrange(0, n), text) is Some,
    ensures
        first_match_spec(sources, text) == first_match_spec(sources.subrange(0, n), text),
    decreases sources.len() - n,
{
    if n < sources.len() {
        assert(sources.subrange(0, n + 1).drop_last() =~= sources.subrange(0, n));
        lemma_first_match_prefix(sources, text, n + 1);
    } else {
        assert(sources.subrange(0, n) =~= sources);
    }
}

} // verus!
