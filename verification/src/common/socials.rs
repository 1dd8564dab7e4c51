//! The social profiles of an organization.

use vstd::prelude::*;

verus! {

/// Whether `http::Uri` accepts the characters `s` as a URI.
pub uninterp spec fn uri_accepts(s: Seq<char>) -> bool;

/// Calls `str::parse::<http::Uri>` and tells whether it succeeded; the answer
/// is named `uri_accepts` of the input, and nothing more is stated of it.
#[verifier::external_body]
fn is_uri(value: &str) -> (b: bool)
    ensures
        b == uri_accepts(value@),
{
    value.parse::<http::Uri>().is_ok()
}

/// The errors of reading a social network handler.
#[derive(Debug, Eq, PartialEq, Clone, Copy, Structural)]
pub enum SocialHandlerError {
    /// invalid social handler (an empty value)
    InvalidSocialHandler,
    /// invalid uri
    InvalidUri,
}

/// The error of building the social profiles.
#[derive(Debug, Eq, PartialEq, Clone, Copy, Structural)]
pub enum SocialsBuilderError {
    /// invalid social handler(s)
    InvalidHandlers(SocialHandlerError),
}

/// What reading `s` as a social network handler gives: the handler text, or
/// the error.
pub open spec fn handler_result(s: Seq<char>) -> Result<Seq<char>, SocialHandlerError> {
    if s.len() == 0 {
        Err(SocialHandlerError::InvalidSocialHandler)
    } else if uri_accepts(s) {
        Ok(s)
    } else {
        Err(SocialHandlerError::InvalidUri)
    }
}

/// A social network handler.
///
/// the value must be URL encoded.
#[derive(Debug, Clone, Eq, PartialEq, Ord, PartialOrd)]
pub struct Handler(String);

impl View for Handler {
    type V = Seq<char>;

    closed spec fn view(&self) -> Seq<char> {
        self.0@
    }
}

impl Handler {
    /// Create a new social network handler; the value must be a valid one.
    pub fn new(value: &str) -> (h: Self)
        requires
            handler_result(value@) is Ok,
        ensures
            h@ == value@,
    {
        Handler(value.to_owned())
    }

    /// Reads a social network handler: a non-empty value that reads as a URI.
    pub fn try_from(value: &str) -> (r: Result<Self, SocialHandlerError>)
        ensures
            match r {
                Ok(h) => handler_result(value@) == Ok::<Seq<char>, SocialHandlerError>(h@),
                Err(e) => handler_result(value@) == Err::<Seq<char>, SocialHandlerError>(e),
            },
    {
        if value.is_empty() {
            Err(SocialHandlerError::InvalidSocialHandler)
        } else if is_uri(value) {
            Ok(Handler::new(value))
        } else {
            Err(SocialHandlerError::InvalidUri)
        }
    }

    /// The text of this handler.
    pub fn to_string(&self) -> (s: String)
        ensures
            s@ == self@,
    {
        self.0.clone()
    }
}

/// The text of an optional handler.
pub open spec fn handler_text(h: Option<Handler>) -> Option<Seq<char>> {
    match h {
        Some(h) => Some(h@),
        None => None,
    }
}

/// the social profiles for an organization
#[derive(Debug, Clone, PartialEq, Eq)]
pub struct Socials {
    /// the facebook handler
    pub facebook: Option<Handler>,
    /// the instagram handler
    pub instagram: Option<Handler>,
    /// the linkedin handler
    pub linkedin: Option<Handler>,
    /// the twitter handler
    pub twitter: Option<Handler>,
    /// the youtube handler
    pub youtube: Option<Handler>,
}

impl Default for Socials {
    /// No social profile.
    fn default() -> (s: Self)
        ensures
            s.facebook is None && s.instagram is None && s.linkedin is None && s.twitter is None
                && s.youtube is None,
    {
        Socials { facebook: None, instagram: None, linkedin: None, twitter: None, youtube: None }
    }
}

impl Socials {
    /// the Facebook handler
    pub fn facebook(&self) -> (r: Option<&Handler>)
        ensures
            r == match self.facebook { Some(h) => Some(&h), None => None::<&Handler> },
    {
        self.facebook.as_ref()
    }

    /// the Instagram handler
    pub fn instagram(&self) -> (r: Option<&Handler>)
        ensures
            r == match self.instagram { Some(h) => Some(&h), None => None::<&Handler> },
    {
        self.instagram.as_ref()
    }

    /// the Linkedin handler
    pub fn linkedin(&self) -> (r: Option<&Handler>)
        ensures
            r == match self.linkedin { Some(h) => Some(&h), None => None::<&Handler> },
    {
        self.linkedin.as_ref()
    }

    /// the Twitter handler
    pub fn twitter(&self) -> (r: Option<&Handler>)
        ensures
            r == match self.twitter { Some(h) => Some(&h), None => None::<&Handler> },
    {
        self.twitter.as_ref()
    }

    /// the Youtube handler
    pub fn youtube(&self) -> (r: Option<&Handler>)
        ensures
            r == match self.youtube { Some(h) => Some(&h), None => None::<&Handler> },
    {
        self.youtube.as_ref()
    }

    /// Returns a socials builder with no handler
    pub fn builder() -> (b: SocialsBuilder)
        ensures
            b.entries() == seq![None::<Result<Seq<char>, SocialHandlerError>>; 5],
    {
        let b = SocialsBuilder::default();
        assert(b.entries() =~= seq![None::<Result<Seq<char>, SocialHandlerError>>; 5]);
        b
    }
}

/// The text or the error of an entry of the builder.
pub open spec fn entry_view(e: Option<Result<Handler, SocialHandlerError>>) -> Option<
    Result<Seq<char>, SocialHandlerError>,
> {
    match e {
        None => None,
        Some(Ok(h)) => Some(Ok(h@)),
        Some(Err(err)) => Some(Err(err)),
    }
}

/// The first error among the entries `es[i..]`, if any.
pub open spec fn first_error(es: Seq<Option<Result<Seq<char>, SocialHandlerError>>>, i: int) -> Option<
    SocialHandlerError,
>
    decreases es.len() - i,
{
    if i < 0 || i >= es.len() {
        None
    } else {
        match es[i] {
            Some(Err(e)) => Some(e),
            _ => first_error(es, i + 1),
        }
    }
}

/// The handler text of an entry that holds one.
pub open spec fn entry_text(e: Option<Result<Seq<char>, SocialHandlerError>>) -> Option<Seq<char>> {
    match e {
        Some(Ok(s)) => Some(s),
        _ => None,
    }
}

/// Builds the social profiles, one handler at a time; the first invalid
/// handler (in the order facebook, instagram, linkedin, twitter, youtube)
/// makes the whole build fail.
pub struct SocialsBuilder {
    facebook: Option<Result<Handler, SocialHandlerError>>,
    instagram: Option<Result<Handler, SocialHandlerError>>,
    linkedin: Option<Result<Handler, SocialHandlerError>>,
    twitter: Option<Result<Handler, SocialHandlerError>>,
    youtube: Option<Result<Handler, SocialHandlerError>>,
}

impl Default for SocialsBuilder {
    /// A builder with no handler.
    fn default() -> (b: Self)
        ensures
            b.entries() == seq![None::<Result<Seq<char>, SocialHandlerError>>; 5],
    {
        let b = SocialsBuilder { facebook: None, instagram: None, linkedin: None, twitter: None, youtube: None };
        assert(b.entries() =~= seq![None::<Result<Seq<char>, SocialHandlerError>>; 5]);
        b
    }
}

impl SocialsBuilder {
    /// The entries given so far, in the order facebook, instagram, linkedin,
    /// twitter, youtube.
    pub closed spec fn entries(self) -> Seq<Option<Result<Seq<char>, SocialHandlerError>>> {
        seq![
            entry_view(self.facebook),
            entry_view(self.instagram),
            entry_view(self.linkedin),
            entry_view(self.twitter),
            entry_view(self.youtube),
        ]
    }

    /// with a facebook handler
    pub fn facebook(self, facebook_handler: &str) -> (b: SocialsBuilder)
        ensures
            b.entries() == self.entries().update(0, Some(handler_result(facebook_handler@))),
    {
        let h = Handler::try_from(facebook_handler);
        let b = SocialsBuilder { facebook: Some(h), ..self };
        assert(b.entries() =~= self.entries().update(0, Some(handler_result(facebook_handler@))));
        b
    }

    /// with an instagram handler
    pub fn instagram(self, instagram_handler: &str) -> (b: SocialsBuilder)
        ensures
            b.entries() == self.entries().update(1, Some(handler_result(instagram_handler@))),
    {
        let h = Handler::try_from(instagram_handler);
        let b = SocialsBuilder { instagram: Some(h), ..self };
        assert(b.entries() =~= self.entries().update(1, Some(handler_result(instagram_handler@))));
        b
    }

    /// with a linkedin handler
    pub fn linkedin(self, linkedin_handler: &str) -> (b: SocialsBuilder)
        ensures
            b.entries() == self.entries().update(2, Some(handler_result(linkedin_handler@))),
    {
        let h = Handler::try_from(linkedin_handler);
        let b = SocialsBuilder { linkedin: Some(h), ..self };
        assert(b.entries() =~= self.entries().update(2, Some(handler_result(linkedin_handler@))));
        b
    }

    /// with a twitter handler
    pub fn twitter(self, twitter_handler: &str) -> (b: SocialsBuilder)
        ensures
            b.entries() == self.entries().update(3, Some(handler_result(twitter_handler@))),
    {
        let h = Handler::try_from(twitter_handler);
        let b = SocialsBuilder { twitter: Some(h), ..self };
        assert(b.entries() =~= self.entries().update(3, Some(handler_result(twitter_handler@))));
        b
    }

    /// with a youtube handler
    pub fn youtube(self, youtube_handler: &str) -> (b: SocialsBuilder)
        ensures
            b.entries() == self.entries().update(4, Some(handler_result(youtube_handler@))),
    {
        let h = Handler::try_from(youtube_handler);
        let b = SocialsBuilder { youtube: Some(h), ..self };
        assert(b.entries() =~= self.entries().update(4, Some(handler_result(youtube_handler@))));
        b
    }

    /// Builds the social profiles: the first error among the handlers, if
    /// any; else the handlers given.
    pub fn build(self) -> (r: Result<Socials, SocialsBuilderError>)
        ensures
            match first_error(self.entries(), 0) {
                Some(e) => r == Err::<Socials, SocialsBuilderError>(SocialsBuilderError::InvalidHandlers(e)),
                None => r matches Ok(s) && {
                    &&& handler_text(s.facebook) == entry_text(self.entries()[0])
                    &&& handler_text(s.instagram) == entry_text(self.entries()[1])
                    &&& handler_text(s.linkedin) == entry_text(self.entries()[2])
                    &&& handler_text(s.twitter) == entry_text(self.entries()[3])
                    &&& handler_text(s.youtube) == entry_text(self.entries()[4])
                },
            },
    {
        let ghost es = self.entries();
        proof {
            reveal_with_fuel(first_error, 6);
        }
        let facebook = match self.facebook {
            Some(Ok(h)) => Some(h),
            Some(Err(e)) => {
                return Err(SocialsBuilderError::InvalidHandlers(e));
            },
            None => None,
        };
        let instagram = match self.instagram {
            Some(Ok(h)) => Some(h),
            Some(Err(e)) => {
                return Err(SocialsBuilderError::InvalidHandlers(e));
            },
            None => None,
        };
        let linkedin = match self.linkedin {
            Some(Ok(h)) => Some(h),
            Some(Err(e)) => {
                return Err(SocialsBuilderError::InvalidHandlers(e));
            },
            None => None,
        };
        let twitter = match self.twitter {
            Some(Ok(h)) => Some(h),
            Some(Err(e)) => {
                return Err(SocialsBuilderError::InvalidHandlers(e));
            },
            None => None,
        };
        let youtube = match self.youtube {
            Some(Ok(h)) => Some(h),
            Some(Err(e)) => {
                return Err(SocialsBuilderError::InvalidHandlers(e));
            },
            None => None,
        };
        Ok(Socials { facebook, instagram, linkedin, twitter, youtube })
    }
}

} // verus!
