//! SEO friendly strings.

use vstd::prelude::*;

verus! {

/// What `slug::slugify` returns for the characters `s`.
pub uninterp spec fn slugify_text(s: Seq<char>) -> Seq<char>;

/// `c` may stand in a slug: a lower case ASCII letter, a digit or `-`.
pub open spec fn is_slug_char(c: char) -> bool {
    ('a' <= c && c <= 'z') || ('0' <= c && c <= '9') || c == '-'
}

/// The form of every slug: lower case ASCII letters, digits and `-`, never two
/// `-` in a row, never `-` at either end.
pub open spec fn is_slug_form(s: Seq<char>) -> bool {
    &&& forall|i: int| 0 <= i < s.len() ==> is_slug_char(#[trigger] s[i])
    &&& forall|i: int| 0 <= i && i + 1 < s.len() ==> !(s[i] == '-' && #[trigger] s[i + 1] == '-')
    &&& s.len() > 0 ==> s[0] != '-' && s.last() != '-'
}

/// Calls `slug::slugify`. Its result is named `slugify_text` of the input; stated of it:
/// the crate documents the form of every result (`is_slug_form`), and a text already in
/// that form comes back unchanged (each letter or digit is kept, each single inner `-` is
/// kept, and nothing is trimmed).
#[verifier::external_body]
fn slugify(s: &str) -> (r: String)
    ensures
        r@ == slugify_text(s@),
        is_slug_form(r@),
        is_slug_form(s@) ==> r@ == s@,
{
    ::slug::slugify(s)
}

/// A SEO friendly string
#[derive(Debug, Ord, PartialOrd, Eq, PartialEq, Hash)]
pub struct Slug(String);

impl Clone for Slug {
    fn clone(&self) -> (r: Self)
        ensures
            r@ == self@,
    {
        Slug(self.0.clone())
    }
}

/// The error of reading a slug from an empty string.
#[derive(Debug, PartialEq, Eq, Clone, Copy, Structural)]
pub enum SlugParserError {
    /// a slug cannot be built from an empty value
    EmptyValue,
}

impl View for Slug {
    type V = Seq<char>;

    closed spec fn view(&self) -> Seq<char> {
        self.0@
    }
}

impl Slug {
    /// Create a new Slug from the string slice in input; a value already in slug form is
    /// kept as it is, so a slug made from a slug is that slug.
    pub fn new(value: &str) -> (s: Self)
        requires
            value@.len() > 0,
        ensures
            s@ == slugify_text(value@),
            is_slug_form(s@),
            is_slug_form(value@) ==> s@ == value@,
    {
        Slug(slugify(value))
    }

    /// Reads a slug: `Err` for an empty value, else the slug of `value`.
    pub fn parse(value: &str) -> (r: Result<Self, SlugParserError>)
        ensures
            value@.len() == 0 ==> r == Err::<Slug, SlugParserError>(SlugParserError::EmptyValue),
            value@.len() > 0 ==> (r matches Ok(s) && s@ == slugify_text(value@)),
    {
        if value.is_empty() {
            Err(SlugParserError::EmptyValue)
        } else {
            Ok(Slug::new(value))
        }
    }

    /// Combine this Slug with another value, after it is converted to a Slug:
    /// the slug of this slug, `-` and the slug of `other`.
    pub fn combine(&self, other: &str) -> (s: Self)
        requires
            other@.len() > 0,
        ensures
            s@ == slugify_text(self@ + seq!['-'] + slugify_text(other@)),
    {
        let right = Slug::new(other);
        let mut value = self.0.clone();
        value.append("-");
        value.append(right.0.as_str());
        proof {
            reveal_strlit("-");
        }
        assert(value@ =~= self@ + seq!['-'] + slugify_text(other@));
        Slug::new(value.as_str())
    }

    /// The text of this slug.
    pub fn as_str(&self) -> (s: &str)
        ensures
            s@ == self@,
    {
        self.0.as_str()
    }

    /// The text of this slug.
    pub fn to_string(&self) -> (s: String)
        ensures
            s@ == self@,
    {
        self.0.clone()
    }
}

impl std::str::FromStr for Slug {
    type Err = SlugParserError;

    fn from_str(s: &str) -> (r: Result<Self, Self::Err>)
        ensures
            s@.len() == 0 ==> r == Err::<Slug, SlugParserError>(SlugParserError::EmptyValue),
            s@.len() > 0 ==> (r matches Ok(slug) && slug@ == slugify_text(s@)),
    {
        Slug::parse(s)
    }
}

impl std::ops::Deref for Slug {
    type Target = str;

    fn deref(&self) -> (r: &str)
        ensures
            r@ == self@,
    {
        self.0.as_str()
    }
}

} // verus!
