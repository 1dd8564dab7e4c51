//! Multi-language texts.

use crate::text::{chars_equal, chars_of, string_of_slice, ParseError};
use std::collections::HashMap;
use vstd::prelude::*;

verus! {

broadcast use vstd::std_specs::hash::group_hash_axioms;

/// The languages supported by the application
#[derive(Debug, Copy, Clone, PartialEq, Eq, Hash, Structural)]
pub enum Language {
    /// the English language
    English,
    /// the Italian language
    Italian,
}

/// The text of each Language value.
pub open spec fn language_text(v: Language) -> Seq<char> {
    match v {
        Language::English => seq!['e', 'n'],
        Language::Italian => seq!['i', 't'],
    }
}

/// The Language value that `s` names.
pub open spec fn parse_language(s: Seq<char>) -> Result<Language, ParseError> {
    if s == language_text(Language::English) {
        Ok(Language::English)
    } else if s == language_text(Language::Italian) {
        Ok(Language::Italian)
    } else {
        Err(ParseError::VariantNotFound)
    }
}

/// Parsing the text of a value gives back the value.
pub proof fn lemma_language_round_trip(v: Language)
    ensures
        parse_language(language_text(v)) == Ok::<Language, ParseError>(v),
{
    match v {
        Language::English => {},
        Language::Italian => {
            assert(language_text(Language::Italian)[0] != language_text(Language::English)[0]);
        },
    }
}


impl Language {
    /// Parses the text of a value.
    pub fn parse(s: &str) -> (r: Result<Language, ParseError>)
        ensures
            r == parse_language(s@),
    {
        let v = chars_of(s);
        let w: &[char] = &['e', 'n'];
        assert(w@ =~= language_text(Language::English));
        if chars_equal(&v, w) {
            return Ok(Language::English);
        }
        let w: &[char] = &['i', 't'];
        assert(w@ =~= language_text(Language::Italian));
        if chars_equal(&v, w) {
            return Ok(Language::Italian);
        }
        Err(ParseError::VariantNotFound)
    }

    /// The text of this value.
    pub fn to_string(&self) -> (s: String)
        ensures
            s@ == language_text(*self),
    {
        match self {
            Language::English => {
                let w: &[char] = &['e', 'n'];
                assert(w@ =~= language_text(Language::English));
                string_of_slice(w)
            },
            Language::Italian => {
                let w: &[char] = &['i', 't'];
                assert(w@ =~= language_text(Language::Italian));
                string_of_slice(w)
            },
        }
    }
}

impl std::str::FromStr for Language {
    type Err = ParseError;

    fn from_str(s: &str) -> (r: Result<Self, Self::Err>)
        ensures
            r == parse_language(s@),
    {
        Language::parse(s)
    }
}

/// The key under which the label in a language is kept.
pub open spec fn language_key(l: Language) -> u8 {
    match l {
        Language::English => 0,
        Language::Italian => 1,
    }
}

impl Language {
    /// The key under which the label in this language is kept.
    pub fn key(&self) -> (k: u8)
        ensures
            k == language_key(*self),
    {
        match self {
            Language::English => 0,
            Language::Italian => 1,
        }
    }
}

/// It represents a multi-language text.
#[derive(Debug, Clone, PartialEq, Eq)]
pub struct LocalizedText(HashMap<u8, String>);

impl LocalizedText {
    /// The label in the language `l`, if there is one.
    pub closed spec fn label(self, l: Language) -> Option<Seq<char>> {
        if self.0@.contains_key(language_key(l)) {
            Some(self.0@[language_key(l)]@)
        } else {
            None
        }
    }

    /// Creates a new `LocalizedText` with an English label
    pub fn with_english(label: &str) -> (t: Self)
        ensures
            t.label(Language::English) == Some(label@),
            t.label(Language::Italian) == None::<Seq<char>>,
    {
        let mut labels: HashMap<u8, String> = HashMap::new();
        labels.insert(0, label.to_owned());
        LocalizedText(labels)
    }

    /// Creates a new `LocalizedText` with an Italian label
    pub fn with_italian(label: &str) -> (t: Self)
        ensures
            t.label(Language::Italian) == Some(label@),
            t.label(Language::English) == None::<Seq<char>>,
    {
        let mut labels: HashMap<u8, String> = HashMap::new();
        labels.insert(1, label.to_owned());
        LocalizedText(labels)
    }

    /// Returns the label in the language `l`, if exists
    pub fn get(&self, l: Language) -> (r: Option<&String>)
        ensures
            match r {
                Some(s) => self.label(l) == Some(s@),
                None => self.label(l) == None::<Seq<char>>,
            },
    {
        self.0.get(&l.key())
    }

    /// Returns the label in English, if exists
    pub fn english(&self) -> (r: Option<&String>)
        ensures
            match r {
                Some(s) => self.label(Language::English) == Some(s@),
                None => self.label(Language::English) == None::<Seq<char>>,
            },
    {
        self.get(Language::English)
    }

    /// Returns the label in Italian, if exists
    pub fn italian(&self) -> (r: Option<&String>)
        ensures
            match r {
                Some(s) => self.label(Language::Italian) == Some(s@),
                None => self.label(Language::Italian) == None::<Seq<char>>,
            },
    {
        self.get(Language::Italian)
    }
}

impl Default for LocalizedText {
    /// A text with no label.
    fn default() -> (t: Self)
        ensures
            t.label(Language::English) == None::<Seq<char>>,
            t.label(Language::Italian) == None::<Seq<char>>,
    {
        LocalizedText(HashMap::new())
    }
}

/// Builds a `LocalizedText` from its labels.
#[derive(Debug)]
pub struct LocalizedTextBuilder {
    english: Option<String>,
    italian: Option<String>,
}

impl LocalizedTextBuilder {
    /// The English label given so far.
    pub closed spec fn english_label(self) -> Option<Seq<char>> {
        match self.english {
            Some(s) => Some(s@),
            None => None,
        }
    }

    /// The Italian label given so far.
    pub closed spec fn italian_label(self) -> Option<Seq<char>> {
        match self.italian {
            Some(s) => Some(s@),
            None => None,
        }
    }

    /// add an English label
    pub fn english_text(self, label: &str) -> (b: Self)
        ensures
            b.english_label() == Some(label@),
            b.italian_label() == self.italian_label(),
    {
        LocalizedTextBuilder { english: Some(label.to_owned()), italian: self.italian }
    }

    /// add an Italian label
    pub fn italian_text(self, label: &str) -> (b: Self)
        ensures
            b.italian_label() == Some(label@),
            b.english_label() == self.english_label(),
    {
        LocalizedTextBuilder { english: self.english, italian: Some(label.to_owned()) }
    }

    /// Build a new `LocalizedText` value with the labels given
    pub fn build(self) -> (t: LocalizedText)
        ensures
            t.label(Language::English) == self.english_label(),
            t.label(Language::Italian) == self.italian_label(),
    {
        let mut values: HashMap<u8, String> = HashMap::with_capacity(2);
        if let Some(english) = self.english {
            values.insert(0, english);
        }
        if let Some(italian) = self.italian {
            values.insert(1, italian);
        }
        LocalizedText(values)
    }
}

impl Default for LocalizedTextBuilder {
    /// A builder with no label.
    fn default() -> (b: Self)
        ensures
            b.english_label() == None::<Seq<char>>,
            b.italian_label() == None::<Seq<char>>,
    {
        LocalizedTextBuilder { english: None, italian: None }
    }
}

} // verus!
