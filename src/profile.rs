//! The transport profile of a call: cache, credentials, mode, redirect and
//! referrer settings, handed to the transport unchanged.
use vstd::prelude::*;
use vstd::string::StrSliceExecFns;

use crate::kind::same_text;
use crate::text::{lowercase, lowered, trim, trimmed};

verus! {
/// How the request uses the HTTP cache.
#[derive(Debug, Clone, Copy, PartialEq, Eq, Structural, Default)]
pub enum Cache {
    #[default]
    Default,
    NoStore,
    Reload,
    NoCache,
    ForceCache,
    OnlyIfCached,
}

/// The setting that a lowercase token names; any other token names `Default`.
pub open spec fn cache_of_lower(s: Seq<char>) -> Cache {
    if s == "no-store"@ {
        Cache::NoStore
    } else if s == "reload"@ {
        Cache::Reload
    } else if s == "no-cache"@ {
        Cache::NoCache
    } else if s == "force-cache"@ {
        Cache::ForceCache
    } else if s == "only-if-cached"@ {
        Cache::OnlyIfCached
    } else {
        Cache::Default
    }
}

/// The setting that a token names, without regard to surrounding whitespace
/// or case; a blank token names `Default`.
pub open spec fn cache_of(s: Seq<char>) -> Cache {
    if trimmed(s).len() == 0 {
        Cache::Default
    } else {
        cache_of_lower(lowered(trimmed(s)))
    }
}

impl Cache {
    /// The setting that a lowercase token names.
    pub fn from_lowercase(token: &str) -> (r: Cache)
        ensures
            r == cache_of_lower(token@),
    {
        if same_text(token, "no-store") {
            Cache::NoStore
        } else if same_text(token, "reload") {
            Cache::Reload
        } else if same_text(token, "no-cache") {
            Cache::NoCache
        } else if same_text(token, "force-cache") {
            Cache::ForceCache
        } else if same_text(token, "only-if-cached") {
            Cache::OnlyIfCached
        } else {
            Cache::Default
        }
    }

    /// The setting that a token names, without regard to surrounding
    /// whitespace or case; a blank token names `Default`.
    pub fn get_cache(cache: String) -> (r: Cache)
        ensures
            r == cache_of(cache@),
    {
        let t = trim(cache.as_str());
        if t.unicode_len() == 0 {
            return Cache::Default;
        }
        let lower = lowercase(t);
        Self::from_lowercase(lower.as_str())
    }
}

/// Whether the request carries credentials such as cookies.
#[derive(Debug, Clone, Copy, PartialEq, Eq, Structural, Default)]
pub enum Credentials {
    Omit,
    #[default]
    SameOrigin,
    Include,
}

/// The setting that a lowercase token names; any other token names `SameOrigin`.
pub open spec fn credentials_of_lower(s: Seq<char>) -> Credentials {
    if s == "omit"@ {
        Credentials::Omit
    } else if s == "include"@ {
        Credentials::Include
    } else {
        Credentials::SameOrigin
    }
}

/// The setting that a token names, without regard to surrounding whitespace
/// or case; a blank token names `SameOrigin`.
pub open spec fn credentials_of(s: Seq<char>) -> Credentials {
    if trimmed(s).len() == 0 {
        Credentials::SameOrigin
    } else {
        credentials_of_lower(lowered(trimmed(s)))
    }
}

impl Credentials {
    /// The setting that a lowercase token names.
    pub fn from_lowercase(token: &str) -> (r: Credentials)
        ensures
            r == credentials_of_lower(token@),
    {
        if same_text(token, "omit") {
            Credentials::Omit
        } else if same_text(token, "include") {
            Credentials::Include
        } else {
            Credentials::SameOrigin
        }
    }

    /// The setting that a token names, without regard to surrounding
    /// whitespace or case; a blank token names `SameOrigin`.
    pub fn get_credentials(credentials: String) -> (r: Credentials)
        ensures
            r == credentials_of(credentials@),
    {
        let t = trim(credentials.as_str());
        if t.unicode_len() == 0 {
            return Credentials::SameOrigin;
        }
        let lower = lowercase(t);
        Self::from_lowercase(lower.as_str())
    }
}

/// Whether the request may cross origins.
#[derive(Debug, Clone, Copy, PartialEq, Eq, Structural, Default)]
pub enum Mode {
    SameOrigin,
    Cors,
    #[default]
    NoCors,
    Navigate,
}

/// The setting that a lowercase token names; any other token names `NoCors`.
pub open spec fn mode_of_lower(s: Seq<char>) -> Mode {
    if s == "same-origin"@ {
        Mode::SameOrigin
    } else if s == "cors"@ {
        Mode::Cors
    } else if s == "navigate"@ {
        Mode::Navigate
    } else {
        Mode::NoCors
    }
}

/// The setting that a token names, without regard to surrounding whitespace
/// or case; a blank token names `NoCors`.
pub open spec fn mode_of(s: Seq<char>) -> Mode {
    if trimmed(s).len() == 0 {
        Mode::NoCors
    } else {
        mode_of_lower(lowered(trimmed(s)))
    }
}

impl Mode {
    /// The setting that a lowercase token names.
    pub fn from_lowercase(token: &str) -> (r: Mode)
        ensures
            r == mode_of_lower(token@),
    {
        if same_text(token, "same-origin") {
            Mode::SameOrigin
        } else if same_text(token, "cors") {
            Mode::Cors
        } else if same_text(token, "navigate") {
            Mode::Navigate
        } else {
            Mode::NoCors
        }
    }

    /// The setting that a token names, without regard to surrounding
    /// whitespace or case; a blank token names `NoCors`.
    pub fn get_mode(mode: String) -> (r: Mode)
        ensures
            r == mode_of(mode@),
    {
        let t = trim(mode.as_str());
        if t.unicode_len() == 0 {
            return Mode::NoCors;
        }
        let lower = lowercase(t);
        Self::from_lowercase(lower.as_str())
    }
}

/// How the request follows redirects.
#[derive(Debug, Clone, Copy, PartialEq, Eq, Structural, Default)]
pub enum Redirect {
    #[default]
    Follow,
    Error,
    Manual,
}

/// The setting that a lowercase token names; any other token names `Follow`.
pub open spec fn redirect_of_lower(s: Seq<char>) -> Redirect {
    if s == "error"@ {
        Redirect::Error
    } else if s == "manual"@ {
        Redirect::Manual
    } else {
        Redirect::Follow
    }
}

/// The setting that a token names, without regard to surrounding whitespace
/// or case; a blank token names `Follow`.
pub open spec fn redirect_of(s: Seq<char>) -> Redirect {
    if trimmed(s).len() == 0 {
        Redirect::Follow
    } else {
        redirect_of_lower(lowered(trimmed(s)))
    }
}

impl Redirect {
    /// The setting that a lowercase token names.
    pub fn from_lowercase(token: &str) -> (r: Redirect)
        ensures
            r == redirect_of_lower(token@),
    {
        if same_text(token, "error") {
            Redirect::Error
        } else if same_text(token, "manual") {
            Redirect::Manual
        } else {
            Redirect::Follow
        }
    }

    /// The setting that a token names, without regard to surrounding
    /// whitespace or case; a blank token names `Follow`.
    pub fn get_redirect(redirect: String) -> (r: Redirect)
        ensures
            r == redirect_of(redirect@),
    {
        let t = trim(redirect.as_str());
        if t.unicode_len() == 0 {
            return Redirect::Follow;
        }
        let lower = lowercase(t);
        Self::from_lowercase(lower.as_str())
    }
}

/// Which referrer information the request sends.
#[derive(Debug, Clone, Copy, PartialEq, Eq, Structural, Default)]
pub enum ReferrerPolicy {
    /// No policy of its own: the one defined elsewhere applies.
    Unspecified,
    NoReferrer,
    NoReferrerWhenDowngrade,
    Origin,
    OriginWhenCrossOrigin,
    UnsafeUrl,
    SameOrigin,
    StrictOrigin,
    #[default]
    StrictOriginWhenCrossOrigin,
}

/// The setting that a lowercase token names; any other token names `StrictOriginWhenCrossOrigin`.
pub open spec fn referrer_policy_of_lower(s: Seq<char>) -> ReferrerPolicy {
    if s == "no-referrer"@ {
        ReferrerPolicy::NoReferrer
    } else if s == "no-referrer-when-downgrade"@ {
        ReferrerPolicy::NoReferrerWhenDowngrade
    } else if s == "origin"@ {
        ReferrerPolicy::Origin
    } else if s == "origin-when-cross-origin"@ {
        ReferrerPolicy::OriginWhenCrossOrigin
    } else if s == "unsafe-url"@ {
        ReferrerPolicy::UnsafeUrl
    } else if s == "same-origin"@ {
        ReferrerPolicy::SameOrigin
    } else if s == "strict-origin"@ {
        ReferrerPolicy::StrictOrigin
    } else if s == "strict-origin-when-cross-origin"@ {
        ReferrerPolicy::StrictOriginWhenCrossOrigin
    } else {
        ReferrerPolicy::StrictOriginWhenCrossOrigin
    }
}

/// The setting that a token names, without regard to surrounding whitespace
/// or case; a blank token names `StrictOriginWhenCrossOrigin`.
pub open spec fn referrer_policy_of(s: Seq<char>) -> ReferrerPolicy {
    if trimmed(s).len() == 0 {
        ReferrerPolicy::StrictOriginWhenCrossOrigin
    } else {
        referrer_policy_of_lower(lowered(trimmed(s)))
    }
}

impl ReferrerPolicy {
    /// The setting that a lowercase token names.
    pub fn from_lowercase(token: &str) -> (r: ReferrerPolicy)
        ensures
            r == referrer_policy_of_lower(token@),
    {
        if same_text(token, "no-referrer") {
            ReferrerPolicy::NoReferrer
        } else if same_text(token, "no-referrer-when-downgrade") {
            ReferrerPolicy::NoReferrerWhenDowngrade
        } else if same_text(token, "origin") {
            ReferrerPolicy::Origin
        } else if same_text(token, "origin-when-cross-origin") {
            ReferrerPolicy::OriginWhenCrossOrigin
        } else if same_text(token, "unsafe-url") {
            ReferrerPolicy::UnsafeUrl
        } else if same_text(token, "same-origin") {
            ReferrerPolicy::SameOrigin
        } else if same_text(token, "strict-origin") {
            ReferrerPolicy::StrictOrigin
        } else if same_text(token, "strict-origin-when-cross-origin") {
            ReferrerPolicy::StrictOriginWhenCrossOrigin
        } else {
            ReferrerPolicy::StrictOriginWhenCrossOrigin
        }
    }

    /// The setting that a token names, without regard to surrounding
    /// whitespace or case; a blank token names `StrictOriginWhenCrossOrigin`.
    pub fn get_referrer_policy(referrer_policy: String) -> (r: ReferrerPolicy)
        ensures
            r == referrer_policy_of(referrer_policy@),
    {
        let t = trim(referrer_policy.as_str());
        if t.unicode_len() == 0 {
            return ReferrerPolicy::StrictOriginWhenCrossOrigin;
        }
        let lower = lowercase(t);
        Self::from_lowercase(lower.as_str())
    }
}

/// The transport profile of one call. Each setting left unset keeps the
/// transport's own default.
#[derive(Debug, Default)]
pub struct HttpRequest {
    pub cache: Option<Cache>,
    pub credentials: Option<Credentials>,
    /// Subresource integrity metadata.
    pub integrity: Option<String>,
    pub mode: Option<Mode>,
    pub redirect: Option<Redirect>,
    pub referrer: Option<String>,
    pub referrer_policy: Option<ReferrerPolicy>,
}

impl HttpRequest {
    /// A profile with every setting unset.
    pub fn new() -> (r: HttpRequest)
        ensures
            r.cache.is_none() && r.credentials.is_none() && r.integrity.is_none()
                && r.mode.is_none() && r.redirect.is_none() && r.referrer.is_none()
                && r.referrer_policy.is_none(),
    {
        HttpRequest {
            cache: None,
            credentials: None,
            integrity: None,
            mode: None,
            redirect: None,
            referrer: None,
            referrer_policy: None,
        }
    }

    /// The same profile with `cache` set.
    pub fn cache(self, cache: Cache) -> (r: HttpRequest)
        ensures
            r == (HttpRequest { cache: Some(cache), ..self }),
    {
        HttpRequest { cache: Some(cache), ..self }
    }

    /// The same profile with `credentials` set.
    pub fn credentials(self, credentials: Credentials) -> (r: HttpRequest)
        ensures
            r == (HttpRequest { credentials: Some(credentials), ..self }),
    {
        HttpRequest { credentials: Some(credentials), ..self }
    }

    /// The same profile with `integrity` set.
    pub fn integrity(self, integrity: String) -> (r: HttpRequest)
        ensures
            r == (HttpRequest { integrity: Some(integrity), ..self }),
    {
        HttpRequest { integrity: Some(integrity), ..self }
    }

    /// The same profile with `mode` set.
    pub fn mode(self, mode: Mode) -> (r: HttpRequest)
        ensures
            r == (HttpRequest { mode: Some(mode), ..self }),
    {
        HttpRequest { mode: Some(mode), ..self }
    }

    /// The same profile with `redirect` set.
    pub fn redirect(self, redirect: Redirect) -> (r: HttpRequest)
        ensures
            r == (HttpRequest { redirect: Some(redirect), ..self }),
    {
        HttpRequest { redirect: Some(redirect), ..self }
    }

    /// The same profile with `referrer` set.
    pub fn referrer(self, referrer: String) -> (r: HttpRequest)
        ensures
            r == (HttpRequest { referrer: Some(referrer), ..self }),
    {
        HttpRequest { referrer: Some(referrer), ..self }
    }

    /// The same profile with `referrer_policy` set.
    pub fn referrer_policy(self, referrer_policy: ReferrerPolicy) -> (r: HttpRequest)
        ensures
            r == (HttpRequest { referrer_policy: Some(referrer_policy), ..self }),
    {
        HttpRequest { referrer_policy: Some(referrer_policy), ..self }
    }
}

} // verus!
