//! The current locale of an application: a validated main and fallback
//! [`Language`], and the derivation of language-qualified asset paths.

use std::marker::PhantomData;
use vstd::prelude::*;
use vstd::string::StrSliceExecFns;
use vstd::string::StringExecFns;

verus! {

/// An error that can happen while creating a [`Language`].
#[derive(Debug, Clone, Copy, PartialEq, Eq, Structural)]
pub enum LanguageError {
    /// An unknown error occurred while making the language.
    Unknown,
    /// The primary language subtag is malformed.
    InvalidLanguage,
    /// A secondary subtag (script, region or variant) is malformed.
    InvalidSubtag,
}

/// An error that can happen while creating the asset path
/// for a localization folder.
#[derive(Debug, Clone, Copy, PartialEq, Eq, Structural)]
pub enum ToLocalePathError {
    /// The rewritten path is not valid UTF-8.
    PathIsNonUTF8,
    /// Tried to make an asset path for the main language,
    /// but no main language was defined.
    NoMainLanguage,
}

/// What parsing a language tag yields: the canonical serialized form of
/// the tag on success, or the [`LanguageError`] that classifies the
/// malformed subtag. The result depends on the input characters alone.
pub uninterp spec fn parse_of(s: Seq<char>) -> Result<Seq<char>, LanguageError>;

/// Parsing `s` succeeds and its canonical form is `c`.
pub open spec fn parses_to(s: Seq<char>, c: Seq<char>) -> bool {
    parse_of(s) == Ok::<Seq<char>, LanguageError>(c)
}

/// Parsing `s` fails with the error `e`.
pub open spec fn parse_fails_with(s: Seq<char>, e: LanguageError) -> bool {
    parse_of(s) == Err::<Seq<char>, LanguageError>(e)
}

/// A character that may stand in a path segment: ASCII letters and
/// digits, and the subtag separator `-`. No path separators, no
/// control characters.
pub open spec fn path_safe_char(c: char) -> bool {
    ||| 'a' <= c && c <= 'z'
    ||| 'A' <= c && c <= 'Z'
    ||| '0' <= c && c <= '9'
    ||| c == '-'
}

/// Every character of `s` is safe to use inside a single path segment.
pub open spec fn path_safe(s: Seq<char>) -> bool {
    forall|i: int| 0 <= i < s.len() ==> path_safe_char(#[trigger] s[i])
}

/// A `-`-separated segment of exactly four lowercase ASCII letters
/// starts at index `i` of `s`.
pub open spec fn lowercase_quad_at(s: Seq<char>, i: int) -> bool {
    &&& 0 <= i
    &&& i + 4 <= s.len()
    &&& (i == 0 || s[i - 1] == '-')
    &&& (i + 4 == s.len() || s[i + 4] == '-')
    &&& (forall|j: int| i <= j < i + 4 ==> 'a' <= #[trigger] s[j] && s[j] <= 'z')
}

/// A canonical tag whose re-parse is guaranteed to give the tag back
/// unchanged: no segment is exactly four lowercase letters. The
/// validator lowercases variant subtags but titlecases script subtags,
/// and a four-letter segment is read as a script wherever one is still
/// allowed; a four-letter lowercase variant (reachable only behind
/// another variant) can therefore change case on a re-parse.
pub open spec fn reparse_stable_shape(s: Seq<char>) -> bool {
    forall|i: int| !#[trigger] lowercase_quad_at(s, i)
}

/// Relies on `unic_langid::LanguageIdentifier`: `from_str` parses the
/// tag (splitting on `-` or `_`; language subtag of two to eight
/// letters, never four; optional script, region and variant subtags,
/// case-normalized, variants sorted and deduplicated), and the
/// `Display` form joins the canonical subtags with `-`. Each canonical
/// segment parses as some subtag again, so a re-parse succeeds, and it
/// returns the same string whenever no segment re-reads as a different
/// kind of subtag, which `reparse_stable_shape` rules out. The parser
/// does not vet every byte of a four-byte variant subtag, so nothing
/// is claimed here about which characters the canonical form holds;
/// [`Language::new`] checks that separately. The error mapping mirrors
/// `LanguageIdentifierError`, whose parser errors are
/// `InvalidLanguage` and `InvalidSubtag`.
#[verifier::external_body]
fn parse_tag(code: &str) -> (r: Result<String, LanguageError>)
    ensures
        r is Ok <==> parse_of(code@) is Ok,
        r matches Ok(c) ==> parses_to(code@, c@),
        r matches Ok(c) ==> parse_of(c@) is Ok,
        r matches Ok(c) ==> (reparse_stable_shape(c@) ==> parses_to(c@, c@)),
        r matches Err(e) ==> parse_fails_with(code@, e),
{
    match code.parse::<unic_langid::LanguageIdentifier>() {
        Ok(id) => Ok(id.to_string()),
        Err(unic_langid::LanguageIdentifierError::Unknown) => Err(LanguageError::Unknown),
        Err(unic_langid::LanguageIdentifierError::ParserError(
            unic_langid_impl::parser::ParserError::InvalidLanguage,
        )) => Err(LanguageError::InvalidLanguage),
        Err(unic_langid::LanguageIdentifierError::ParserError(
            unic_langid_impl::parser::ParserError::InvalidSubtag,
        )) => Err(LanguageError::InvalidSubtag),
    }
}

/// A tag string the validator accepts: it parses, and its canonical
/// form is non-empty and made only of path-safe characters.
pub open spec fn accepted_tag(s: Seq<char>) -> bool {
    &&& parse_of(s) is Ok
    &&& path_safe(parse_of(s)->Ok_0)
    &&& parse_of(s)->Ok_0.len() > 0
}

/// Checks that a canonical form is non-empty and holds only path-safe
/// characters.
fn tag_shape_ok(s: &str) -> (ok: bool)
    ensures
        ok == (s@.len() > 0 && path_safe(s@)),
{
    let len = s.unicode_len();
    if len == 0 {
        return false;
    }
    let mut i: usize = 0;
    while i < len
        invariant
            i <= len,
            len as nat == s@.len(),
            forall|j: int| 0 <= j < i ==> path_safe_char(#[trigger] s@[j]),
        decreases len - i,
    {
        let c = s.get_char(i);
        let safe = ('a' <= c && c <= 'z') || ('A' <= c && c <= 'Z') || ('0' <= c && c <= '9') || c
            == '-';
        if !safe {
            assert(!path_safe_char(s@[i as int]));
            return false;
        }
        i += 1;
    }
    true
}

/// Defines a single language to be used for localization.
///
/// A value holds the canonical serialized form of a validated language
/// tag; it can only be made through [`Language::new`].
pub struct Language {
    canonical: String,
}

impl View for Language {
    type V = Seq<char>;

    closed spec fn view(&self) -> Seq<char> {
        self.canonical@
    }
}

impl Language {
    /// The tag is the canonical form of a tag the validator accepts:
    /// it is non-empty, path-safe, parses again, and — when of stable
    /// shape — re-parses to itself.
    pub open spec fn wf(self) -> bool {
        &&& parse_of(self@) is Ok
        &&& (reparse_stable_shape(self@) ==> parses_to(self@, self@))
        &&& path_safe(self@)
        &&& self@.len() > 0
    }

    /// Tries to create a new [`Language`] from a language code.
    /// See [`LanguageError`] for the potential errors.
    ///
    /// On success the stored tag is the canonical form of `lang`. A
    /// code the parser takes whose canonical form is empty or holds a
    /// character that cannot stand in a path segment is rejected with
    /// [`LanguageError::InvalidSubtag`], keeping every accepted tag
    /// safe to use as a path segment.
    pub fn new(lang: &str) -> (r: Result<Language, LanguageError>)
        ensures
            r is Ok <==> accepted_tag(lang@),
            r matches Ok(l) ==> parses_to(lang@, l@),
            r matches Ok(l) ==> l.wf(),
            r matches Err(e) ==> (parse_of(lang@) matches Err(pe) ==> e == pe),
            r matches Err(e) ==> (parse_of(lang@) is Ok ==> e == LanguageError::InvalidSubtag),
    {
        match parse_tag(lang) {
            Ok(canonical) => {
                if tag_shape_ok(canonical.as_str()) {
                    Ok(Language { canonical })
                } else {
                    Err(LanguageError::InvalidSubtag)
                }
            },
            Err(e) => Err(e),
        }
    }

    /// Retrieves the name of the language (i.e. its canonical
    /// language code). For a well-formed tag it is non-empty and
    /// path-safe.
    pub fn get_name(&self) -> (r: String)
        ensures
            r@ == self@,
    {
        self.canonical.clone()
    }

    /// Law: the canonical form of a validated tag of stable shape is a
    /// fixed point of parsing. Re-parsing the name of such a tag
    /// succeeds and yields the same canonical form, so the tag that
    /// [`Language::new`] rebuilds from [`Language::get_name`]'s result
    /// has the same view: `canonical_form` is stable under repeated
    /// parsing wherever the validator itself is.
    pub proof fn lemma_canonical_stable(self)
        requires
            self.wf(),
            reparse_stable_shape(self@),
        ensures
            parses_to(self@, self@),
            accepted_tag(self@),
    {
    }
}

impl Clone for Language {
    fn clone(&self) -> (r: Self)
        ensures
            r == *self,
    {
        Language { canonical: self.canonical.clone() }
    }
}

impl PartialEq for Language {
    fn eq(&self, other: &Self) -> bool {
        self.canonical == other.canonical
    }
}

impl Eq for Language {}

impl vstd::std_specs::cmp::PartialEqSpecImpl for Language {
    open spec fn obeys_eq_spec() -> bool {
        true
    }

    open spec fn eq_spec(&self, other: &Self) -> bool {
        self@ == other@
    }
}

/// The capability an application's set of languages must provide: a
/// default value, and a total, non-failing mapping of each value into
/// a validated [`Language`].
pub trait LanguageSet: Sized {
    /// The canonical tag that this value maps to. An implementor that
    /// wants its mapping visible in contracts overrides this; left as
    /// is, nothing is specified of the mapping.
    open spec fn language_spec(&self) -> Seq<char> {
        vstd::pervasive::arbitrary()
    }

    /// The default value of the set. An implementor that wants the
    /// default visible in contracts overrides this.
    open spec fn default_spec() -> Self {
        vstd::pervasive::arbitrary()
    }

    /// Maps this value into its [`Language`].
    fn language(&self) -> (l: Language)
        ensures
            l@ == self.language_spec(),
            l.wf(),
    ;

    /// Returns the default value of the set.
    fn default_value() -> (v: Self)
        ensures
            v == Self::default_spec(),
    ;
}

/// Stores the current locale for a given set of `Languages`.
///
/// Includes both a main and a fallback [`Language`] for redundancy.
/// Upon creation, the locale only has a fallback [`Language`], defined
/// as the default of `Languages`.
pub struct Locale<Languages> where Languages: LanguageSet {
    languages: PhantomData<Languages>,
    main: Option<Language>,
    fallback: Language,
}

impl<Languages> Locale<Languages> where Languages: LanguageSet {
    /// The current main language, unset until explicitly chosen.
    pub closed spec fn spec_main(self) -> Option<Language> {
        self.main
    }

    /// The current fallback language, always set.
    pub closed spec fn spec_fallback(self) -> Language {
        self.fallback
    }

    /// Both stored languages are validated canonical tags.
    pub open spec fn wf(self) -> bool {
        &&& self.spec_fallback().wf()
        &&& (self.spec_main() matches Some(m) ==> m.wf())
    }

    /// The main language is set and equal to the fallback language:
    /// a redundant, though harmless, configuration.
    pub open spec fn collision(self) -> bool {
        self.spec_main() matches Some(m) && m@ == self.spec_fallback()@
    }
}

impl<Languages> Clone for Locale<Languages> where Languages: LanguageSet {
    fn clone(&self) -> (r: Self)
        ensures
            r == *self,
    {
        Locale {
            languages: PhantomData,
            main: match &self.main {
                Some(m) => Some(m.clone()),
                None => None,
            },
            fallback: self.fallback.clone(),
        }
    }
}

impl<Languages> Default for Locale<Languages> where Languages: LanguageSet {
    /// A locale with no main language, whose fallback is the default
    /// of `Languages`.
    fn default() -> (r: Self)
        ensures
            r.spec_main() is None,
            r.spec_fallback()@ == Languages::default_spec().language_spec(),
            r.wf(),
    {
        Locale {
            languages: PhantomData,
            main: None,
            fallback: Languages::default_value().language(),
        }
    }
}

impl<Languages> Locale<Languages> where Languages: LanguageSet {
    /// Sets the main language of the locale.
    ///
    /// Returns whether the new main language collides with the current
    /// fallback language; the caller may emit a warning for it.
    pub fn set_main(&mut self, main: Languages) -> (warn: bool)
        ensures
            final(self).spec_main() matches Some(m) && m@ == main.language_spec(),
            final(self).spec_fallback() == old(self).spec_fallback(),
            warn == (main.language_spec() == old(self).spec_fallback()@),
            warn == final(self).collision(),
            old(self).wf() ==> final(self).wf(),
    {
        let l = main.language();
        let warn = l == self.fallback;
        self.main = Some(l);
        warn
    }

    /// Sets the fallback language of the locale.
    ///
    /// Returns whether the new fallback language collides with the
    /// current main language; with no main language set there is no
    /// collision.
    pub fn set_fallback(&mut self, fallback: Languages) -> (warn: bool)
        ensures
            final(self).spec_fallback()@ == fallback.language_spec(),
            final(self).spec_main() == old(self).spec_main(),
            warn == (old(self).spec_main() matches Some(m) && m@ == fallback.language_spec()),
            warn == final(self).collision(),
            old(self).wf() ==> final(self).wf(),
    {
        self.fallback = fallback.language();
        match &self.main {
            Some(m) => *m == self.fallback,
            None => false,
        }
    }

    /// Returns an immutable reference to the current main language.
    pub fn main(&self) -> (r: &Option<Language>)
        ensures
            r == self.spec_main(),
    {
        &self.main
    }

    /// Returns an immutable reference to the current fallback language.
    pub fn fallback(&self) -> (r: &Language)
        ensures
            r == self.spec_fallback(),
    {
        &self.fallback
    }

    /// Adds the language's folder to the asset path.
    ///
    /// Example: from `"assets/my_asset.png"` to
    /// `"fr-CA/assets/my_asset.png"`.
    ///
    /// Set `use_fallback` to true to use the fallback language; with it
    /// false the main language is used, and the call fails if none is
    /// set. The path's source and label metadata are kept unchanged.
    pub fn to_locale_asset_path(&self, asset_path: AssetPath, use_fallback: bool) -> (r: Result<
        AssetPath,
        ToLocalePathError,
    >)
        ensures
            r is Err <==> !use_fallback && self.spec_main() is None,
            r matches Err(e) ==> e == ToLocalePathError::NoMainLanguage,
            use_fallback ==> (r matches Ok(p) && p.path@ == self.spec_fallback()@ + seq!['/']
                + asset_path.path@),
            !use_fallback ==> (self.spec_main() matches Some(m) ==> r matches Ok(p) && p.path@
                == m@ + seq!['/'] + asset_path.path@),
            r matches Ok(p) ==> p.source == asset_path.source && p.label == asset_path.label,
    {
        let tag: &Language = if use_fallback {
            &self.fallback
        } else if let Some(m) = &self.main {
            m
        } else {
            return Err(ToLocalePathError::NoMainLanguage);
        };
        let mut path = tag.get_name();
        path.append("/");
        path.append(asset_path.path.as_str());
        proof {
            reveal_strlit("/");
            assert("/"@ =~= seq!['/']);
        }
        Ok(AssetPath { path, source: asset_path.source, label: asset_path.label })
    }
}

/// An asset path: the path itself, together with an optional named
/// source it is read from and an optional label of a sub-resource
/// inside the asset.
pub struct AssetPath {
    /// The path to the asset, relative to the source's root.
    pub path: String,
    /// The named source the asset comes from, if any.
    pub source: Option<String>,
    /// The label of a sub-resource inside the asset, if any.
    pub label: Option<String>,
}

} // verus!
