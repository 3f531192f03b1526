//! Naming conventions: how a language spells identifiers, and conversion of
//! a name from one convention to another through its words.
use vstd::prelude::*;

use crate::text::{
    char_is_lowercase, char_is_uppercase, char_to_uppercase, char_uppercase, chars_of, concat,
    ends_with, is_lowercase, is_uppercase, join, join_strings, lowercase, slice_chars, split,
    split_str, starts_with, str_to_lowercase, str_to_uppercase, string_of, uppercase,
};

verus! {

/// The letter case of a convention.
#[derive(PartialEq, Eq, Structural, Hash, Debug, Clone, Copy)]
pub enum NamingCase {
    /// All lower: `mycase`.
    Lower,
    /// All upper: `MYCASE`.
    Upper,
    /// Each word capitalised: `MyCase`.
    Pascal,
    /// Each word but the first capitalised: `myCase`.
    Camel,
}

impl DeepView for NamingCase {
    type V = NamingCase;

    open spec fn deep_view(&self) -> NamingCase {
        *self
    }
}

/// Why a name does not follow a convention.
#[derive(Debug)]
pub enum NamingError {
    /// The name does not begin with the convention's prefix.
    InvalidPrefix(String),
    /// The name, its prefix taken off, does not end with the convention's suffix.
    InvalidSuffix(String),
    /// The name is not in the convention's case.
    InvalidCase(NamingCase),
}

pub ghost enum NamingErrorView {
    InvalidPrefix(Seq<char>),
    InvalidSuffix(Seq<char>),
    InvalidCase(NamingCase),
}

impl DeepView for NamingError {
    type V = NamingErrorView;

    open spec fn deep_view(&self) -> NamingErrorView {
        match self {
            NamingError::InvalidPrefix(p) => NamingErrorView::InvalidPrefix(p@),
            NamingError::InvalidSuffix(s) => NamingErrorView::InvalidSuffix(s@),
            NamingError::InvalidCase(c) => NamingErrorView::InvalidCase(*c),
        }
    }
}

impl View for NamingError {
    type V = NamingErrorView;

    open spec fn view(&self) -> NamingErrorView {
        self.deep_view()
    }
}

/// One convention: a prefix, a suffix, a separator between words, a case.
#[derive(Debug)]
pub struct Naming {
    prefix: String,
    suffix: String,
    sep: String,
    case: NamingCase,
}

pub ghost struct NamingView {
    pub prefix: Seq<char>,
    pub suffix: Seq<char>,
    pub sep: Seq<char>,
    pub case: NamingCase,
}

impl DeepView for Naming {
    type V = NamingView;

    closed spec fn deep_view(&self) -> NamingView {
        NamingView { prefix: self.prefix@, suffix: self.suffix@, sep: self.sep@, case: self.case }
    }
}

impl View for Naming {
    type V = NamingView;

    open spec fn view(&self) -> NamingView {
        self.deep_view()
    }
}

impl Clone for Naming {
    fn clone(&self) -> (r: Self)
        ensures
            r@ == self@,
    {
        Naming {
            prefix: self.prefix.clone(),
            suffix: self.suffix.clone(),
            sep: self.sep.clone(),
            case: self.case,
        }
    }
}

impl PartialEq for Naming {
    fn eq(&self, other: &Self) -> (equal: bool) {
        self.prefix == other.prefix && self.suffix == other.suffix && self.sep == other.sep
            && self.case == other.case
    }
}

impl vstd::std_specs::cmp::PartialEqSpecImpl for Naming {
    open spec fn obeys_eq_spec() -> bool {
        true
    }

    open spec fn eq_spec(&self, other: &Self) -> bool {
        self@ == other@
    }
}

impl Eq for Naming {

}

/// The name without the convention's prefix and suffix, or the error that
/// says which of the two it lacks. The suffix is looked for in what is left
/// once the prefix is off.
pub open spec fn stripped(naming: NamingView, name: Seq<char>) -> Result<
    Seq<char>,
    NamingErrorView,
> {
    if !naming.prefix.is_prefix_of(name) {
        Err(NamingErrorView::InvalidPrefix(naming.prefix))
    } else {
        let rest = name.skip(naming.prefix.len() as int);
        if !naming.suffix.is_suffix_of(rest) {
            Err(NamingErrorView::InvalidSuffix(naming.suffix))
        } else {
            Ok(rest.take(rest.len() - naming.suffix.len()))
        }
    }
}

/// For each character, whether it is uppercase.
pub open spec fn capitals(s: Seq<char>) -> Seq<bool> {
    Seq::new(s.len(), |i: int| is_uppercase(s[i]))
}

/// The least index at or after `from` that is flagged, or the length if none is.
pub open spec fn next_capital(capital: Seq<bool>, from: int) -> int
    decreases capital.len() - from,
{
    if from < 0 || from >= capital.len() {
        capital.len() as int
    } else if capital[from] {
        from
    } else {
        next_capital(capital, from + 1)
    }
}

/// The words of `s` from index `start` on: a word runs up to the next
/// flagged character after its first.
pub open spec fn words_from(s: Seq<char>, capital: Seq<bool>, start: int) -> Seq<Seq<char>>
    decreases s.len() - start,
{
    let end = next_capital(capital, start + 1);
    if start < 0 || start >= s.len() || end <= start || end > s.len() {
        Seq::empty()
    } else {
        seq![s.subrange(start, end)] + words_from(s, capital, end)
    }
}

/// The words of `s`, where a flagged character other than the first begins a
/// new word. No word is empty; an empty `s` has no words.
pub open spec fn words(s: Seq<char>, capital: Seq<bool>) -> Seq<Seq<char>> {
    words_from(s, capital, 0)
}

/// Whether some character of some part is uppercase.
pub open spec fn has_uppercase(parts: Seq<Seq<char>>) -> bool {
    exists|i: int, j: int|
        0 <= i < parts.len() && 0 <= j < parts[i].len() && is_uppercase(#[trigger] parts[i][j])
}

/// Whether some character of some part is lowercase.
pub open spec fn has_lowercase(parts: Seq<Seq<char>>) -> bool {
    exists|i: int, j: int|
        0 <= i < parts.len() && 0 <= j < parts[i].len() && is_lowercase(#[trigger] parts[i][j])
}

/// The words of `name` under `naming`, or why `name` does not follow it.
///
/// In a lower or upper convention the words are what lies between the
/// separators, and no word may hold a character of the other case. In a
/// Pascal or camel convention each uppercase character after the first
/// begins a word; a Pascal name may not begin in lowercase, a camel name not
/// in uppercase.
pub open spec fn to_parts(naming: NamingView, name: Seq<char>) -> Result<
    Seq<Seq<char>>,
    NamingErrorView,
> {
    match stripped(naming, name) {
        Err(e) => Err(e),
        Ok(core) => match naming.case {
            NamingCase::Lower => if has_uppercase(split(core, naming.sep)) {
                Err(NamingErrorView::InvalidCase(NamingCase::Lower))
            } else {
                Ok(split(core, naming.sep))
            },
            NamingCase::Upper => if has_lowercase(split(core, naming.sep)) {
                Err(NamingErrorView::InvalidCase(NamingCase::Upper))
            } else {
                Ok(split(core, naming.sep))
            },
            NamingCase::Pascal => if core.len() > 0 && is_lowercase(core[0]) {
                Err(NamingErrorView::InvalidCase(NamingCase::Pascal))
            } else {
                Ok(words(core, capitals(core)))
            },
            NamingCase::Camel => if core.len() > 0 && is_uppercase(core[0]) {
                Err(NamingErrorView::InvalidCase(NamingCase::Camel))
            } else {
                Ok(words(core, capitals(core)))
            },
        },
    }
}

/// A word with its first character in uppercase and the rest in lowercase.
/// Of the first character's uppercase mapping only the first character is kept.
pub open spec fn capitalized(part: Seq<char>) -> Seq<char> {
    if part.len() == 0 {
        Seq::empty()
    } else {
        seq![char_uppercase(part[0])[0]] + lowercase(part.skip(1))
    }
}

/// Each part in lowercase.
pub open spec fn lowercased_each(parts: Seq<Seq<char>>) -> Seq<Seq<char>> {
    Seq::new(parts.len(), |i: int| lowercase(parts[i]))
}

/// Each part capitalised.
pub open spec fn capitalized_each(parts: Seq<Seq<char>>) -> Seq<Seq<char>> {
    Seq::new(parts.len(), |i: int| capitalized(parts[i]))
}

/// The words put together in the given case, without prefix and suffix.
pub open spec fn cased(case: NamingCase, sep: Seq<char>, parts: Seq<Seq<char>>) -> Seq<char> {
    match case {
        NamingCase::Lower => join(lowercased_each(parts), sep),
        NamingCase::Upper => uppercase(join(parts, sep)),
        NamingCase::Pascal => concat(capitalized_each(parts)),
        NamingCase::Camel => if parts.len() == 0 {
            Seq::empty()
        } else {
            lowercase(parts[0]) + concat(capitalized_each(parts.skip(1)))
        },
    }
}

/// The name that `naming` makes of the words `parts`. A Pascal or camel
/// convention does not use its separator.
pub open spec fn from_parts(naming: NamingView, parts: Seq<Seq<char>>) -> Seq<char> {
    naming.prefix + cased(naming.case, naming.sep, parts) + naming.suffix
}

/// `name`, which follows `source`, respelled in `target`.
pub open spec fn converted(target: NamingView, source: NamingView, name: Seq<char>) -> Result<
    Seq<char>,
    NamingErrorView,
> {
    match to_parts(source, name) {
        Err(e) => Err(e),
        Ok(parts) => Ok(from_parts(target, parts)),
    }
}

/// Each of `names` respelled from `source` to `target`, or the error of the
/// first that does not follow `source`.
pub open spec fn converted_each(
    target: NamingView,
    source: NamingView,
    names: Seq<Seq<char>>,
) -> Result<Seq<Seq<char>>, NamingErrorView>
    decreases names.len(),
{
    if names.len() == 0 {
        Ok(Seq::empty())
    } else {
        match converted_each(target, source, names.drop_last()) {
            Err(e) => Err(e),
            Ok(done) => match converted(target, source, names.last()) {
                Err(e) => Err(e),
                Ok(name) => Ok(done.push(name)),
            },
        }
    }
}

/// For each character of `chars`, whether it is uppercase.
fn capital_flags(chars: &Vec<char>) -> (flags: Vec<bool>)
    ensures
        flags@ == capitals(chars@),
{
    let mut flags: Vec<bool> = Vec::new();
    let mut i: usize = 0;
    while i < chars.len()
        invariant
            i <= chars.len(),
            flags@ == capitals(chars@.take(i as int)),
        decreases chars.len() - i,
    {
        flags.push(char_is_uppercase(chars[i]));
        i += 1;
        assert(flags@ =~= capitals(chars@.take(i as int)));
    }
    assert(chars@.take(chars.len() as int) =~= chars@);
    flags
}

/// The words of `chars`, where a flagged character other than the first
/// begins a new word.
pub fn cut_at_capitals(chars: &Vec<char>, capital: &Vec<bool>) -> (parts: Vec<String>)
    requires
        capital.len() == chars.len(),
    ensures
        parts.deep_view() == words(chars@, capital@),
{
    let mut parts: Vec<String> = Vec::new();
    let mut start: usize = 0;
    assert(parts.deep_view() =~= Seq::<Seq<char>>::empty());
    while start < chars.len()
        invariant
            start <= chars.len(),
            capital.len() == chars.len(),
            words(chars@, capital@) == parts.deep_view() + words_from(
                chars@,
                capital@,
                start as int,
            ),
        decreases chars.len() - start,
    {
        let mut end: usize = start + 1;
        while end < chars.len() && !capital[end]
            invariant
                start < end <= chars.len(),
                capital.len() == chars.len(),
                next_capital(capital@, start + 1) == next_capital(capital@, end as int),
            decreases chars.len() - end,
        {
            end += 1;
        }
        let word = string_of(&slice_chars(chars, start, end));
        let ghost before = parts.deep_view();
        parts.push(word);
        assert(parts.deep_view() =~= before + seq![chars@.subrange(start as int, end as int)]);
        start = end;
    }
    parts
}

/// Whether some character of `part` is uppercase.
fn any_uppercase(part: &str) -> (yes: bool)
    ensures
        yes == exists|j: int| 0 <= j < part@.len() && is_uppercase(#[trigger] part@[j]),
{
    let chars = chars_of(part);
    let mut i: usize = 0;
    while i < chars.len()
        invariant
            i <= chars.len(),
            chars@ == part@,
            forall|j: int| 0 <= j < i ==> !is_uppercase(#[trigger] part@[j]),
        decreases chars.len() - i,
    {
        if char_is_uppercase(chars[i]) {
            return true;
        }
        i += 1;
    }
    false
}

/// Whether some character of `part` is lowercase.
fn any_lowercase(part: &str) -> (yes: bool)
    ensures
        yes == exists|j: int| 0 <= j < part@.len() && is_lowercase(#[trigger] part@[j]),
{
    let chars = chars_of(part);
    let mut i: usize = 0;
    while i < chars.len()
        invariant
            i <= chars.len(),
            chars@ == part@,
            forall|j: int| 0 <= j < i ==> !is_lowercase(#[trigger] part@[j]),
        decreases chars.len() - i,
    {
        if char_is_lowercase(chars[i]) {
            return true;
        }
        i += 1;
    }
    false
}

/// Whether some character of some part is uppercase.
fn any_part_uppercase(parts: &Vec<String>) -> (yes: bool)
    ensures
        yes == has_uppercase(parts.deep_view()),
{
    let mut i: usize = 0;
    while i < parts.len()
        invariant
            i <= parts.len(),
            !has_uppercase(parts.deep_view().take(i as int)),
        decreases parts.len() - i,
    {
        if any_uppercase(parts[i].as_str()) {
            let ghost j = choose|j: int|
                0 <= j < parts@[i as int]@.len() && is_uppercase(#[trigger] parts@[i as int]@[j]);
            assert(is_uppercase(parts.deep_view()[i as int][j]));
            return true;
        }
        i += 1;
        assert forall|a: int, b: int|
            0 <= a < parts.deep_view().take(i as int).len() && 0 <= b < parts.deep_view().take(
                i as int,
            )[a].len() implies !is_uppercase(#[trigger] parts.deep_view().take(i as int)[a][b]) by {
            if a < i - 1 {
                assert(parts.deep_view().take(i - 1)[a][b] == parts.deep_view().take(
                    i as int,
                )[a][b]);
            }
        }
    }
    assert(parts.deep_view().take(parts.len() as int) =~= parts.deep_view());
    false
}

/// Whether some character of some part is lowercase.
fn any_part_lowercase(parts: &Vec<String>) -> (yes: bool)
    ensures
        yes == has_lowercase(parts.deep_view()),
{
    let mut i: usize = 0;
    while i < parts.len()
        invariant
            i <= parts.len(),
            !has_lowercase(parts.deep_view().take(i as int)),
        decreases parts.len() - i,
    {
        if any_lowercase(parts[i].as_str()) {
            let ghost j = choose|j: int|
                0 <= j < parts@[i as int]@.len() && is_lowercase(#[trigger] parts@[i as int]@[j]);
            assert(is_lowercase(parts.deep_view()[i as int][j]));
            return true;
        }
        i += 1;
        assert forall|a: int, b: int|
            0 <= a < parts.deep_view().take(i as int).len() && 0 <= b < parts.deep_view().take(
                i as int,
            )[a].len() implies !is_lowercase(#[trigger] parts.deep_view().take(i as int)[a][b]) by {
            if a < i - 1 {
                assert(parts.deep_view().take(i - 1)[a][b] == parts.deep_view().take(
                    i as int,
                )[a][b]);
            }
        }
    }
    assert(parts.deep_view().take(parts.len() as int) =~= parts.deep_view());
    false
}

/// A word with its first character in uppercase and the rest in lowercase.
fn capitalize(part: &str) -> (word: String)
    ensures
        word@ == capitalized(part@),
{
    let chars = chars_of(part);
    let mut word = String::new();
    if chars.len() > 0 {
        let upper = char_to_uppercase(chars[0]);
        crate::text::push_char(&mut word, upper[0]);
        let rest = string_of(&slice_chars(&chars, 1, chars.len()));
        let lower = str_to_lowercase(rest.as_str());
        word.append(lower.as_str());
        assert(word@ =~= capitalized(part@));
    }
    word
}

impl Naming {
    pub fn new(prefix: String, suffix: String, sep: String, case: NamingCase) -> (r: Self)
        ensures
            r@ == (NamingView { prefix: prefix@, suffix: suffix@, sep: sep@, case }),
    {
        Self { prefix, suffix, sep, case }
    }

    /// `PascalCase`
    pub fn pascal_case() -> (r: Self)
        ensures
            r@ == (NamingView {
                prefix: Seq::empty(),
                suffix: Seq::empty(),
                sep: Seq::empty(),
                case: NamingCase::Pascal,
            }),
    {
        Self {
            prefix: String::new(),
            suffix: String::new(),
            sep: String::new(),
            case: NamingCase::Pascal,
        }
    }

    /// `snake_case`
    pub fn snake_case() -> (r: Self)
        ensures
            r@ == (NamingView {
                prefix: Seq::empty(),
                suffix: Seq::empty(),
                sep: "_"@,
                case: NamingCase::Lower,
            }),
    {
        Self {
            prefix: String::new(),
            suffix: String::new(),
            sep: String::from_str("_"),
            case: NamingCase::Lower,
        }
    }

    /// `CONST_CASE`
    pub fn const_case() -> (r: Self)
        ensures
            r@ == (NamingView {
                prefix: Seq::empty(),
                suffix: Seq::empty(),
                sep: "_"@,
                case: NamingCase::Upper,
            }),
    {
        Self {
            prefix: String::new(),
            suffix: String::new(),
            sep: String::from_str("_"),
            case: NamingCase::Upper,
        }
    }

    /// `camelCase`
    pub fn camel_case() -> (r: Self)
        ensures
            r@ == (NamingView {
                prefix: Seq::empty(),
                suffix: Seq::empty(),
                sep: Seq::empty(),
                case: NamingCase::Camel,
            }),
    {
        Self {
            prefix: String::new(),
            suffix: String::new(),
            sep: String::new(),
            case: NamingCase::Camel,
        }
    }

    /// `m_hungarianMember`
    pub fn hungarian_member() -> (r: Self)
        ensures
            r@ == (NamingView {
                prefix: "m_"@,
                suffix: Seq::empty(),
                sep: Seq::empty(),
                case: NamingCase::Camel,
            }),
    {
        Self {
            prefix: String::from_str("m_"),
            suffix: String::new(),
            sep: String::new(),
            case: NamingCase::Camel,
        }
    }

    /// `pHungarianParameter`
    pub fn hungarian_parameter() -> (r: Self)
        ensures
            r@ == (NamingView {
                prefix: "p"@,
                suffix: Seq::empty(),
                sep: Seq::empty(),
                case: NamingCase::Pascal,
            }),
    {
        Self {
            prefix: String::from_str("p"),
            suffix: String::new(),
            sep: String::new(),
            case: NamingCase::Pascal,
        }
    }

    /// What every name of this convention begins with.
    pub fn prefix(&self) -> (prefix: &str)
        ensures
            prefix@ == self@.prefix,
    {
        self.prefix.as_str()
    }

    /// What every name of this convention ends with.
    pub fn suffix(&self) -> (suffix: &str)
        ensures
            suffix@ == self@.suffix,
    {
        self.suffix.as_str()
    }

    /// What stands between the words of a lower or upper case name.
    pub fn sep(&self) -> (sep: &str)
        ensures
            sep@ == self@.sep,
    {
        self.sep.as_str()
    }

    /// The letter case of the convention.
    pub fn case(&self) -> (case: NamingCase)
        ensures
            case == self@.case,
    {
        self.case
    }

    /// This convention with another prefix.
    pub fn with_prefix(self, prefix: &str) -> (r: Self)
        ensures
            r@ == (NamingView { prefix: prefix@, ..self@ }),
    {
        Self {
            prefix: String::from_str(prefix),
            suffix: self.suffix,
            sep: self.sep,
            case: self.case,
        }
    }

    /// The name without this convention's prefix and suffix.
    fn strip(&self, name: &str) -> (r: Result<Vec<char>, NamingError>)
        ensures
            match r {
                Ok(core) => stripped(self@, name@) == Ok::<Seq<char>, NamingErrorView>(core@),
                Err(e) => stripped(self@, name@) == Err::<Seq<char>, NamingErrorView>(e@),
            },
    {
        let chars = chars_of(name);
        let prefix = chars_of(self.prefix.as_str());
        let suffix = chars_of(self.suffix.as_str());
        if !starts_with(&chars, &prefix) {
            return Err(NamingError::InvalidPrefix(self.prefix.clone()));
        }
        let rest = slice_chars(&chars, prefix.len(), chars.len());
        if !ends_with(&rest, &suffix) {
            return Err(NamingError::InvalidSuffix(self.suffix.clone()));
        }
        Ok(slice_chars(&rest, 0, rest.len() - suffix.len()))
    }

    /// The words of `name`, or why `name` does not follow this convention.
    pub fn to_parts(&self, name: &str) -> (r: Result<Vec<String>, NamingError>)
        ensures
            match r {
                Ok(parts) => to_parts(self@, name@) == Ok::<Seq<Seq<char>>, NamingErrorView>(
                    parts.deep_view(),
                ),
                Err(e) => to_parts(self@, name@) == Err::<Seq<Seq<char>>, NamingErrorView>(e@),
            },
    {
        let core = match self.strip(name) {
            Ok(core) => core,
            Err(e) => {
                return Err(e);
            },
        };
        match self.case {
            NamingCase::Lower => {
                let text = string_of(&core);
                let parts = split_str(text.as_str(), self.sep.as_str());
                if any_part_uppercase(&parts) {
                    return Err(NamingError::InvalidCase(NamingCase::Lower));
                }
                Ok(parts)
            },
            NamingCase::Upper => {
                let text = string_of(&core);
                let parts = split_str(text.as_str(), self.sep.as_str());
                if any_part_lowercase(&parts) {
                    return Err(NamingError::InvalidCase(NamingCase::Upper));
                }
                Ok(parts)
            },
            NamingCase::Pascal => {
                if core.len() > 0 && char_is_lowercase(core[0]) {
                    return Err(NamingError::InvalidCase(NamingCase::Pascal));
                }
                let flags = capital_flags(&core);
                Ok(cut_at_capitals(&core, &flags))
            },
            NamingCase::Camel => {
                if core.len() > 0 && char_is_uppercase(core[0]) {
                    return Err(NamingError::InvalidCase(NamingCase::Camel));
                }
                let flags = capital_flags(&core);
                Ok(cut_at_capitals(&core, &flags))
            },
        }
    }

    /// The name that this convention makes of the words `parts`.
    pub fn from_parts(&self, parts: &[String]) -> (name: String)
        ensures
            name@ == from_parts(self@, parts.deep_view()),
    {
        let ghost words = parts.deep_view();
        let mut body = String::new();
        match self.case {
            NamingCase::Lower => {
                let mut lowered: Vec<String> = Vec::new();
                let mut i: usize = 0;
                while i < parts.len()
                    invariant
                        i <= parts.len(),
                        words == parts.deep_view(),
                        lowered.deep_view() == lowercased_each(words.take(i as int)),
                    decreases parts.len() - i,
                {
                    let ghost before = lowered.deep_view();
                    lowered.push(str_to_lowercase(parts[i].as_str()));
                    assert(lowered.deep_view() =~= before.push(lowercase(words[i as int])));
                    i += 1;
                    assert(lowered.deep_view() =~= lowercased_each(words.take(i as int)));
                }
                assert(words.take(parts.len() as int) =~= words);
                body = join_strings(&lowered, self.sep.as_str());
            },
            NamingCase::Upper => {
                let mut i: usize = 0;
                let mut joined = String::new();
                while i < parts.len()
                    invariant
                        i <= parts.len(),
                        words == parts.deep_view(),
                        joined@ == join(words.take(i as int), self.sep@),
                    decreases parts.len() - i,
                {
                    if i > 0 {
                        joined.append(self.sep.as_str());
                    }
                    joined.append(parts[i].as_str());
                    i += 1;
                    assert(words.take(i as int).drop_last() =~= words.take(i - 1));
                }
                assert(words.take(parts.len() as int) =~= words);
                body = str_to_uppercase(joined.as_str());
            },
            NamingCase::Pascal => {
                let mut i: usize = 0;
                while i < parts.len()
                    invariant
                        i <= parts.len(),
                        words == parts.deep_view(),
                        body@ == concat(capitalized_each(words.take(i as int))),
                    decreases parts.len() - i,
                {
                    let word = capitalize(parts[i].as_str());
                    body.append(word.as_str());
                    i += 1;
                    assert(capitalized_each(words.take(i as int)).drop_last()
                        =~= capitalized_each(words.take(i - 1)));
                }
                assert(words.take(parts.len() as int) =~= words);
            },
            NamingCase::Camel => {
                if parts.len() > 0 {
                    let first = str_to_lowercase(parts[0].as_str());
                    body.append(first.as_str());
                    let mut i: usize = 1;
                    assert(words.skip(1).take(0) =~= Seq::<Seq<char>>::empty());
                    while i < parts.len()
                        invariant
                            1 <= i <= parts.len(),
                            words == parts.deep_view(),
                            body@ == lowercase(words[0]) + concat(
                                capitalized_each(words.skip(1).take(i - 1)),
                            ),
                        decreases parts.len() - i,
                    {
                        let word = capitalize(parts[i].as_str());
                        body.append(word.as_str());
                        i += 1;
                        assert(capitalized_each(words.skip(1).take(i - 1)).drop_last()
                            =~= capitalized_each(words.skip(1).take(i - 2)));
                        assert(capitalized_each(words.skip(1).take(i - 1)).last() == capitalized(
                            words[i - 1],
                        ));
                    }
                    assert(words.skip(1).take(parts.len() - 1) =~= words.skip(1));
                }
            },
        }
        let mut name = self.prefix.clone();
        name.append(body.as_str());
        name.append(self.suffix.as_str());
        name
    }

    /// `name`, which follows `naming`, respelled in this convention.
    pub fn from(&self, name: &str, naming: &Naming) -> (r: Result<String, NamingError>)
        ensures
            match r {
                Ok(s) => converted(self@, naming@, name@) == Ok::<Seq<char>, NamingErrorView>(s@),
                Err(e) => converted(self@, naming@, name@) == Err::<Seq<char>, NamingErrorView>(
                    e@,
                ),
            },
    {
        match naming.to_parts(name) {
            Ok(parts) => Ok(self.from_parts(parts.as_slice())),
            Err(e) => Err(e),
        }
    }
}

/// The conventions of one language: a `Naming` for each kind of identifier,
/// and the dividers of package names and namespaces.
#[derive(Debug)]
pub struct NamingConventions {
    /// How packages are named.
    pub package: Naming,
    /// What stands between the parts of a package name, such as `-`.
    pub package_divider: String,
    /// How each part of a namespace is named.
    pub namespace: Naming,
    /// What stands between the parts of a namespace, such as `::` or `.`.
    pub namespace_divider: String,
    /// How classes, structs and enums are named.
    pub base_type: Naming,
    /// How interfaces are named.
    pub interface: Naming,
    /// How private fields are named.
    pub private_field: Naming,
    /// How private statics are named.
    pub private_static: Naming,
    /// How methods are named.
    pub method: Naming,
    /// How properties are named.
    pub property: Naming,
    /// How enum variants are named.
    pub variant: Naming,
    /// How parameters of methods and constructors are named.
    pub parameter: Naming,
}

pub ghost struct NamingConventionsView {
    pub package: NamingView,
    pub package_divider: Seq<char>,
    pub namespace: NamingView,
    pub namespace_divider: Seq<char>,
    pub base_type: NamingView,
    pub interface: NamingView,
    pub private_field: NamingView,
    pub private_static: NamingView,
    pub method: NamingView,
    pub property: NamingView,
    pub variant: NamingView,
    pub parameter: NamingView,
}

impl DeepView for NamingConventions {
    type V = NamingConventionsView;

    open spec fn deep_view(&self) -> NamingConventionsView {
        NamingConventionsView {
            package: self.package@,
            package_divider: self.package_divider@,
            namespace: self.namespace@,
            namespace_divider: self.namespace_divider@,
            base_type: self.base_type@,
            interface: self.interface@,
            private_field: self.private_field@,
            private_static: self.private_static@,
            method: self.method@,
            property: self.property@,
            variant: self.variant@,
            parameter: self.parameter@,
        }
    }
}

impl View for NamingConventions {
    type V = NamingConventionsView;

    open spec fn view(&self) -> NamingConventionsView {
        self.deep_view()
    }
}

impl Clone for NamingConventions {
    fn clone(&self) -> (r: Self)
        ensures
            r@ == self@,
    {
        NamingConventions {
            package: self.package.clone(),
            package_divider: self.package_divider.clone(),
            namespace: self.namespace.clone(),
            namespace_divider: self.namespace_divider.clone(),
            base_type: self.base_type.clone(),
            interface: self.interface.clone(),
            private_field: self.private_field.clone(),
            private_static: self.private_static.clone(),
            method: self.method.clone(),
            property: self.property.clone(),
            variant: self.variant.clone(),
            parameter: self.parameter.clone(),
        }
    }
}

/// The plain convention of the given case: no prefix, no suffix.
pub open spec fn plain(sep: Seq<char>, case: NamingCase) -> NamingView {
    NamingView { prefix: Seq::empty(), suffix: Seq::empty(), sep, case }
}

/// The conventions of Rust: snake case but for types and variants, which
/// are in Pascal case, and private statics, which are in upper case.
pub open spec fn rust_conventions() -> NamingConventionsView {
    NamingConventionsView {
        package: plain("_"@, NamingCase::Lower),
        package_divider: "-"@,
        namespace: plain("_"@, NamingCase::Lower),
        namespace_divider: "::"@,
        base_type: plain(Seq::empty(), NamingCase::Pascal),
        interface: plain(Seq::empty(), NamingCase::Pascal),
        private_field: plain("_"@, NamingCase::Lower),
        private_static: plain("_"@, NamingCase::Upper),
        method: plain("_"@, NamingCase::Lower),
        property: plain("_"@, NamingCase::Lower),
        variant: plain(Seq::empty(), NamingCase::Pascal),
        parameter: plain("_"@, NamingCase::Lower),
    }
}

/// The conventions of C#: Pascal case, with `I` before an interface; camel
/// case for parameters and, after `_` or `s_`, for private members.
pub open spec fn csharp_conventions() -> NamingConventionsView {
    NamingConventionsView {
        package: plain(Seq::empty(), NamingCase::Pascal),
        package_divider: "."@,
        namespace: plain(Seq::empty(), NamingCase::Pascal),
        namespace_divider: "."@,
        base_type: plain(Seq::empty(), NamingCase::Pascal),
        interface: NamingView { prefix: "I"@, ..plain(Seq::empty(), NamingCase::Pascal) },
        private_field: NamingView { prefix: "_"@, ..plain(Seq::empty(), NamingCase::Camel) },
        private_static: NamingView { prefix: "s_"@, ..plain(Seq::empty(), NamingCase::Camel) },
        method: plain(Seq::empty(), NamingCase::Pascal),
        property: plain(Seq::empty(), NamingCase::Pascal),
        variant: plain(Seq::empty(), NamingCase::Pascal),
        parameter: plain(Seq::empty(), NamingCase::Camel),
    }
}

/// A type's full name respelled from `source` to `target`: the name is cut
/// at `source`'s namespace divider, each part but the last is respelled as a
/// namespace, the last as a type, and the parts are joined by `target`'s
/// namespace divider. The error is that of the first part that does not
/// follow `source`.
pub open spec fn converted_type(
    target: NamingConventionsView,
    source: NamingConventionsView,
    name: Seq<char>,
) -> Result<Seq<char>, NamingErrorView> {
    let parts = split(name, source.namespace_divider);
    match converted_each(target.namespace, source.namespace, parts.drop_last()) {
        Err(e) => Err(e),
        Ok(namespace) => match converted(target.base_type, source.base_type, parts.last()) {
            Err(e) => Err(e),
            Ok(ty_name) => Ok(join(namespace.push(ty_name), target.namespace_divider)),
        },
    }
}

/// A package name respelled from `source` to `target`: the name is cut at
/// `source`'s package divider, each part is respelled, and the parts are
/// joined by `target`'s package divider.
pub open spec fn converted_package(
    target: NamingConventionsView,
    source: NamingConventionsView,
    name: Seq<char>,
) -> Result<Seq<char>, NamingErrorView> {
    match converted_each(target.package, source.package, split(name, source.package_divider)) {
        Err(e) => Err(e),
        Ok(parts) => Ok(join(parts, target.package_divider)),
    }
}

/// A name always splits into at least one piece.
pub proof fn lemma_split_nonempty(s: Seq<char>, sep: Seq<char>)
    ensures
        split(s, sep).len() >= 1,
{
}

/// An error among the first `k` names is the error of the whole sequence.
pub proof fn lemma_first_error_stands(
    target: NamingView,
    source: NamingView,
    names: Seq<Seq<char>>,
    k: int,
)
    requires
        0 <= k <= names.len(),
        converted_each(target, source, names.take(k)) is Err,
    ensures
        converted_each(target, source, names) == converted_each(target, source, names.take(k)),
    decreases names.len() - k,
{
    if k == names.len() {
        assert(names.take(k) =~= names);
    } else {
        assert(names.take(k + 1).drop_last() =~= names.take(k));
        lemma_first_error_stands(target, source, names, k + 1);
    }
}

/// Respells each of `names` from `source` to `target`.
fn convert_each(target: &Naming, source: &Naming, names: &Vec<String>, count: usize) -> (r: Result<
    Vec<String>,
    NamingError,
>)
    requires
        count <= names.len(),
    ensures
        match r {
            Ok(out) => converted_each(target@, source@, names.deep_view().take(count as int))
                == Ok::<Seq<Seq<char>>, NamingErrorView>(out.deep_view()),
            Err(e) => converted_each(target@, source@, names.deep_view().take(count as int))
                == Err::<Seq<Seq<char>>, NamingErrorView>(e@),
        },
{
    let ghost all = names.deep_view().take(count as int);
    let mut out: Vec<String> = Vec::new();
    let mut i: usize = 0;
    assert(out.deep_view() =~= Seq::<Seq<char>>::empty());
    while i < count
        invariant
            i <= count <= names.len(),
            all == names.deep_view().take(count as int),
            converted_each(target@, source@, all.take(i as int)) == Ok::<
                Seq<Seq<char>>,
                NamingErrorView,
            >(out.deep_view()),
        decreases count - i,
    {
        proof {
            assert(all.take(i + 1).drop_last() =~= all.take(i as int));
            assert(all.take(i + 1).last() == names@[i as int]@);
        }
        match target.from(names[i].as_str(), source) {
            Ok(name) => {
                let ghost before = out.deep_view();
                out.push(name);
                assert(out.deep_view() =~= before.push(name@));
            },
            Err(e) => {
                proof {
                    lemma_first_error_stands(target@, source@, all, i + 1);
                }
                return Err(e);
            },
        }
        i += 1;
    }
    assert(all.take(count as int) =~= all);
    Ok(out)
}

impl NamingConventions {
    /// The conventions of Rust.
    pub fn rust() -> (r: Self)
        ensures
            r@ == rust_conventions(),
    {
        Self {
            package: Naming::snake_case(),
            package_divider: String::from_str("-"),
            namespace: Naming::snake_case(),
            namespace_divider: String::from_str("::"),
            base_type: Naming::pascal_case(),
            interface: Naming::pascal_case(),
            private_field: Naming::snake_case(),
            private_static: Naming::const_case(),
            method: Naming::snake_case(),
            property: Naming::snake_case(),
            variant: Naming::pascal_case(),
            parameter: Naming::snake_case(),
        }
    }

    /// The conventions of C#.
    pub fn csharp() -> (r: Self)
        ensures
            r@ == csharp_conventions(),
    {
        let interface = Naming::pascal_case().with_prefix("I");
        let private_member = Naming::camel_case().with_prefix("_");
        let private_static = Naming::camel_case().with_prefix("s_");
        Self {
            package: Naming::pascal_case(),
            package_divider: String::from_str("."),
            namespace: Naming::pascal_case(),
            namespace_divider: String::from_str("."),
            base_type: Naming::pascal_case(),
            interface,
            private_field: private_member,
            private_static,
            method: Naming::pascal_case(),
            property: Naming::pascal_case(),
            variant: Naming::pascal_case(),
            parameter: Naming::camel_case(),
        }
    }

    /// A type's full name, which follows `naming`, respelled in these
    /// conventions.
    pub fn convert_type(&self, name: &str, naming: &NamingConventions) -> (r: Result<
        String,
        NamingError,
    >)
        ensures
            match r {
                Ok(s) => converted_type(self@, naming@, name@) == Ok::<Seq<char>, NamingErrorView>(
                    s@,
                ),
                Err(e) => converted_type(self@, naming@, name@) == Err::<
                    Seq<char>,
                    NamingErrorView,
                >(e@),
            },
    {
        let name_parts = split_str(name, naming.namespace_divider.as_str());
        proof {
            lemma_split_nonempty(name@, naming@.namespace_divider);
            assert(name_parts.deep_view().take(name_parts.len() - 1)
                =~= name_parts.deep_view().drop_last());
        }
        let last = name_parts.len() - 1;
        let mut converted = match convert_each(
            &self.namespace,
            &naming.namespace,
            &name_parts,
            last,
        ) {
            Ok(parts) => parts,
            Err(e) => {
                return Err(e);
            },
        };
        match self.base_type.from(name_parts[last].as_str(), &naming.base_type) {
            Ok(ty_name) => {
                let ghost before = converted.deep_view();
                converted.push(ty_name);
                assert(converted.deep_view() =~= before.push(ty_name@));
            },
            Err(e) => {
                return Err(e);
            },
        }
        Ok(join_strings(&converted, self.namespace_divider.as_str()))
    }

    /// A package name, which follows `naming`, respelled in these conventions.
    pub fn convert_package(&self, name: &str, naming: &NamingConventions) -> (r: Result<
        String,
        NamingError,
    >)
        ensures
            match r {
                Ok(s) => converted_package(self@, naming@, name@) == Ok::<
                    Seq<char>,
                    NamingErrorView,
                >(s@),
                Err(e) => converted_package(self@, naming@, name@) == Err::<
                    Seq<char>,
                    NamingErrorView,
                >(e@),
            },
    {
        let name_parts = split_str(name, naming.package_divider.as_str());
        proof {
            assert(name_parts.deep_view().take(name_parts.len() as int) =~= name_parts.deep_view());
        }
        match convert_each(&self.package, &naming.package, &name_parts, name_parts.len()) {
            Ok(parts) => Ok(join_strings(&parts, self.package_divider.as_str())),
            Err(e) => Err(e),
        }
    }
}

} // verus!
