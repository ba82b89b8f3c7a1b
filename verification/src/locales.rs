//! Locale lookup service logic.
//!
//! The locale database itself is an external collaborator: it is loaded once
//! at backend startup and handed to this module as plain locale descriptors.
//! The lookup rules — the authorization gate, list order, and exactly when a
//! name resolves — are verified here.

use vstd::prelude::*;
use crate::auth::{authorized, AuthService, Request, Status};

verus! {

/// The language part of a locale.
pub struct Language {
    /// Three-letter language code.
    pub code: String,
    /// Two-letter language code.
    pub code2: String,
    /// Human-readable name.
    pub display_name: String,
    /// Inverted human-readable name.
    pub inverted_name: String,
}

/// The territory part of a locale.
pub struct Territory {
    /// Three-letter territory code.
    pub code: String,
    /// Two-letter territory code.
    pub code2: String,
    /// Human-readable name.
    pub display_name: String,
    /// Flag glyph for the territory.
    pub flag: String,
}

/// One locale descriptor.
pub struct Locale {
    /// The locale code, e.g. a language_TERRITORY.codeset form.
    pub name: String,
    /// Human-readable name.
    pub display_name: String,
    /// The language, when the database gives one.
    pub language: Option<Language>,
    /// The territory, when the database gives one.
    pub territory: Option<Territory>,
    /// Locale modifier, when present.
    pub modifier: Option<String>,
    /// Codeset, when present.
    pub codeset: Option<String>,
}

/// Request payload for one locale lookup.
pub struct GetLocaleRequest {
    /// The locale code to resolve.
    pub name: String,
}

/// Response payload: every known locale.
pub struct ListLocalesResponse {
    /// Locale descriptors in database order.
    pub locales: Vec<Locale>,
}

/// The names of a sequence of locales, in order.
pub open spec fn locale_names(s: Seq<Locale>) -> Seq<Seq<char>> {
    s.map_values(|l: Locale| l.name@)
}

impl Language {
    /// A field-for-field copy.
    pub fn clone_language(&self) -> (r: Language)
        ensures
            r == self,
    {
        Language {
            code: self.code.clone(),
            code2: self.code2.clone(),
            display_name: self.display_name.clone(),
            inverted_name: self.inverted_name.clone(),
        }
    }
}

impl Territory {
    /// A field-for-field copy.
    pub fn clone_territory(&self) -> (r: Territory)
        ensures
            r == self,
    {
        Territory {
            code: self.code.clone(),
            code2: self.code2.clone(),
            display_name: self.display_name.clone(),
            flag: self.flag.clone(),
        }
    }
}

impl Locale {
    /// A field-for-field copy.
    pub fn clone_locale(&self) -> (r: Locale)
        ensures
            r == self,
    {
        Locale {
            name: self.name.clone(),
            display_name: self.display_name.clone(),
            language: match &self.language {
                Some(l) => Some(l.clone_language()),
                None => None,
            },
            territory: match &self.territory {
                Some(t) => Some(t.clone_territory()),
                None => None,
            },
            modifier: crate::disks::clone_opt_string(&self.modifier),
            codeset: crate::disks::clone_opt_string(&self.codeset),
        }
    }
}

/// The locale service: holds the authorization seam, the locale descriptors
/// the database produced, and the locale codes the system reported.
pub struct LocalesService {
    auth: AuthService,
    locales: Vec<Locale>,
    locale_codes: Vec<String>,
}

/// Creates the locale service over already-loaded locale data.
pub fn service(auth: AuthService, locales: Vec<Locale>, locale_codes: Vec<String>) -> (s:
    LocalesService)
    ensures
        s.spec_locales() == locales@,
        s.spec_locale_codes() == locale_codes@,
{
    LocalesService { auth, locales, locale_codes }
}

impl LocalesService {
    /// The locale descriptors this service answers from.
    pub closed spec fn spec_locales(&self) -> Seq<Locale> {
        self.locales@
    }

    /// The locale codes the system reported.
    pub closed spec fn spec_locale_codes(&self) -> Seq<String> {
        self.locale_codes@
    }

    /// Lists every known locale, in database order. The authorization guard
    /// runs before any domain work.
    pub fn list_locales(&self, request: Request<()>) -> (r: Result<ListLocalesResponse, Status>)
        ensures
            request.spec_auth() is None ==> (r matches Err(s) && s is Unauthenticated),
            request.spec_auth() is Some ==> (r matches Ok(resp) && resp.locales@
                == self.spec_locales()),
    {
        let request = match authorized(
            &self.auth,
            request,
            "com.aerynos.lichen.locales.list",
            "Not authorized for action: com.aerynos.lichen.locales.list",
        ) {
            Ok(granted) => granted,
            Err(denied) => {
                return Err(denied);
            }
        };
        let mut locales: Vec<Locale> = Vec::new();
        let mut i: usize = 0;
        while i < self.locales.len()
            invariant
                i <= self.locales.len(),
                locales@ =~= self.locales@.subrange(0, i as int),
            decreases self.locales.len() - i,
        {
            locales.push(self.locales[i].clone_locale());
            i = i + 1;
        }
        proof {
            assert(self.locales@.subrange(0, self.locales@.len() as int) =~= self.locales@);
        }
        Ok(ListLocalesResponse { locales })
    }

    /// Resolves one locale code. Succeeds exactly when a locale with that
    /// name is known (the first such entry is returned); a name that no
    /// locale carries is answered with a not-found failure naming the code.
    /// The authorization guard runs before any domain work.
    #[verifier::loop_isolation(false)]
    pub fn get_locale(&self, request: Request<GetLocaleRequest>) -> (r: Result<Locale, Status>)
        ensures
            request.spec_auth() is None ==> (r matches Err(s) && s is Unauthenticated),
            request.spec_auth() is Some ==> match locale_names(self.spec_locales()).index_of_first(
                request.spec_body().name@,
            ) {
                Some(i) => r matches Ok(l) && l == self.spec_locales()[i],
                None => r matches Err(s) && s matches Status::NotFound(m) && m@ == "Locale code "@
                    + request.spec_body().name@ + " not found"@,
            },
    {
        let request = match authorized(
            &self.auth,
            request,
            "com.aerynos.lichen.locales.get",
            "Not authorized for action: com.aerynos.lichen.locales.get",
        ) {
            Ok(granted) => granted,
            Err(denied) => {
                return Err(denied);
            }
        };
        let locale_code = request.into_inner().name;
        let ghost names = locale_names(self.spec_locales());
        let mut i: usize = 0;
        while i < self.locales.len()
            invariant
                i <= self.locales.len(),
                names == locale_names(self.spec_locales()),
                forall|k: int| 0 <= k < i ==> names[k] != locale_code@,
            decreases self.locales.len() - i,
        {
            if self.locales[i].name == locale_code {
                proof {
                    assert(names[i as int] == locale_code@);
                    assert(names.contains(locale_code@));
                    names.index_of_first_ensures(locale_code@);
                    let fi = names.index_of_first(locale_code@)->0;
                    if fi < i as int {
                        assert(names[fi] == locale_code@);
                    }
                    assert(fi == i as int);
                }
                return Ok(self.locales[i].clone_locale());
            }
            i = i + 1;
        }
        proof {
            if names.contains(locale_code@) {
                let w = choose|w: int| 0 <= w < names.len() && names[w] == locale_code@;
                assert(names[w] != locale_code@);
            }
            names.index_of_first_ensures(locale_code@);
        }
        let mut msg = "Locale code ".to_owned();
        msg.append(locale_code.as_str());
        msg.append(" not found");
        Err(Status::NotFound(msg))
    }
}

/// The locale selection offered by default: the caller's language setting
/// when one is present, a fixed fallback otherwise.
pub fn default_locale_code(lang: Option<String>) -> (r: String)
    ensures
        lang matches Some(s) ==> r@ == s@,
        lang is None ==> r@ == "en_US.UTF-8"@,
{
    match lang {
        Some(s) => s,
        None => "en_US.UTF-8".to_owned(),
    }
}

} // verus!
