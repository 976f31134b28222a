//! The resolved configuration: what the rest of a run reads once the
//! configuration fragment has been accepted.

use crate::format::Format;
use vstd::prelude::*;
use vstd::string::StrSliceExecFns;

verus! {

/// Which dependencies the document lists.
#[derive(Debug, Clone, Copy, PartialEq, Eq)]
pub enum IncludedDependencies {
    TopLevelDependencies,
    AllDependencies,
}

impl Default for IncludedDependencies {
    fn default() -> (mode: Self)
        ensures
            mode == IncludedDependencies::TopLevelDependencies,
    {
        IncludedDependencies::TopLevelDependencies
    }
}

/// Whether the name of an output file carries the `.cdx` extension.
#[derive(Debug, Clone, Copy, PartialEq, Eq)]
pub enum CdxExtension {
    Included,
    NotIncluded,
}

impl Default for CdxExtension {
    fn default() -> (extension: Self)
        ensures
            extension == CdxExtension::NotIncluded,
    {
        CdxExtension::NotIncluded
    }
}

/// A fixed scheme for naming output files.
#[derive(Debug, Clone, Copy, PartialEq, Eq)]
pub enum Pattern {
    Bom,
    Package,
}

impl Default for Pattern {
    fn default() -> (pattern: Self)
        ensures
            pattern == Pattern::Bom,
    {
        Pattern::Bom
    }
}

/// The character that may not occur in a custom prefix: it would move the
/// output file into another directory.
pub const PATH_SEPARATOR: char = '/';

/// A prefix is acceptable where it holds no path separator. The empty prefix
/// is acceptable.
pub open spec fn acceptable_prefix(text: Seq<char>) -> bool {
    !text.contains(PATH_SEPARATOR)
}

/// Why a custom prefix was refused.
#[derive(Debug, PartialEq, Eq)]
pub enum PrefixError {
    /// The prefix holds the character that the error names.
    CustomPrefixError(String),
}

/// The mathematical content of a [`PrefixError`].
pub enum PrefixErrorView {
    CustomPrefixError(Seq<char>),
}

impl View for PrefixError {
    type V = PrefixErrorView;

    open spec fn view(&self) -> PrefixErrorView {
        match *self {
            PrefixError::CustomPrefixError(characters) => PrefixErrorView::CustomPrefixError(
                characters@,
            ),
        }
    }
}

impl PrefixErrorView {
    /// The text of the error.
    pub open spec fn describe(self) -> Seq<char> {
        match self {
            PrefixErrorView::CustomPrefixError(characters) =>
                "Illegal characters in custom prefix string: "@ + characters,
        }
    }
}

impl PrefixError {
    /// The text of the error.
    pub fn describe(&self) -> (text: String)
        ensures
            text@ == self@.describe(),
    {
        match self {
            PrefixError::CustomPrefixError(characters) => {
                "Illegal characters in custom prefix string: ".to_owned().concat(characters.as_str())
            },
        }
    }
}

/// A free-form prefix for the names of output files, known to be acceptable.
#[derive(Debug, PartialEq, Eq)]
pub struct CustomPrefix(String);

impl View for CustomPrefix {
    type V = Seq<char>;

    closed spec fn view(&self) -> Seq<char> {
        self.0@
    }
}

impl Clone for CustomPrefix {
    fn clone(&self) -> (copy: Self)
        ensures
            copy@ == self@,
    {
        CustomPrefix(self.0.clone())
    }
}

/// What checking a custom prefix yields: the prefix itself, or the error that
/// names the path separator.
pub open spec fn checked_prefix(text: Seq<char>) -> Result<Seq<char>, PrefixErrorView> {
    if acceptable_prefix(text) {
        Ok(text)
    } else {
        Err(PrefixErrorView::CustomPrefixError(seq![PATH_SEPARATOR]))
    }
}

impl CustomPrefix {
    /// Accepts `custom_prefix` exactly where it holds no path separator.
    pub fn new(custom_prefix: String) -> (checked: Result<Self, PrefixError>)
        ensures
            checked is Ok <==> acceptable_prefix(custom_prefix@),
            match checked {
                Ok(prefix) => checked_prefix(custom_prefix@) == Ok::<Seq<char>, PrefixErrorView>(
                    prefix@,
                ),
                Err(error) => checked_prefix(custom_prefix@) == Err::<Seq<char>, PrefixErrorView>(
                    error@,
                ),
            },
    {
        let length: usize = custom_prefix.as_str().unicode_len();
        let mut i: usize = 0;
        while i < length
            invariant
                i <= length,
                length == custom_prefix@.len(),
                !custom_prefix@.take(i as int).contains(PATH_SEPARATOR),
            decreases length - i,
        {
            if custom_prefix.as_str().get_char(i) == PATH_SEPARATOR {
                proof {
                    reveal_strlit("/");
                    assert("/"@ == seq![PATH_SEPARATOR]);
                    assert(custom_prefix@[i as int] == PATH_SEPARATOR);
                }
                return Err(PrefixError::CustomPrefixError("/".to_owned()));
            }
            assert(custom_prefix@.take(i + 1) == custom_prefix@.take(i as int).push(
                custom_prefix@[i as int],
            ));
            i = i + 1;
        }
        assert(custom_prefix@.take(i as int) == custom_prefix@);
        Ok(CustomPrefix(custom_prefix))
    }

    /// The text of the prefix.
    pub fn as_str(&self) -> (text: &str)
        ensures
            text@ == self@,
    {
        self.0.as_str()
    }
}

/// How the names of output files begin.
#[derive(Debug, PartialEq, Eq)]
pub enum Prefix {
    Pattern(Pattern),
    Custom(CustomPrefix),
}

/// The mathematical content of a [`Prefix`].
pub enum PrefixView {
    Pattern(Pattern),
    Custom(Seq<char>),
}

impl View for Prefix {
    type V = PrefixView;

    open spec fn view(&self) -> PrefixView {
        match *self {
            Prefix::Pattern(pattern) => PrefixView::Pattern(pattern),
            Prefix::Custom(prefix) => PrefixView::Custom(prefix@),
        }
    }
}

impl Default for Prefix {
    fn default() -> (prefix: Self)
        ensures
            prefix@ == PrefixView::Pattern(Pattern::Bom),
    {
        Prefix::Pattern(Pattern::Bom)
    }
}

/// How output files are named.
#[derive(Debug, PartialEq, Eq)]
pub struct OutputOptions {
    pub cdx_extension: CdxExtension,
    pub prefix: Prefix,
}

/// The mathematical content of an [`OutputOptions`].
pub struct OutputOptionsView {
    pub cdx_extension: CdxExtension,
    pub prefix: PrefixView,
}

impl View for OutputOptions {
    type V = OutputOptionsView;

    open spec fn view(&self) -> OutputOptionsView {
        OutputOptionsView { cdx_extension: self.cdx_extension, prefix: self.prefix@ }
    }
}

impl Default for OutputOptions {
    fn default() -> (options: Self)
        ensures
            options@ == (OutputOptionsView {
                cdx_extension: CdxExtension::NotIncluded,
                prefix: PrefixView::Pattern(Pattern::Bom),
            }),
    {
        OutputOptions { cdx_extension: CdxExtension::NotIncluded, prefix: Prefix::Pattern(Pattern::Bom) }
    }
}

/// A resolved configuration. Each setting is either chosen or left to the
/// default of whoever reads it.
#[derive(Debug, PartialEq, Eq)]
pub struct SbomConfig {
    pub format: Option<Format>,
    pub included_dependencies: Option<IncludedDependencies>,
    pub output_options: Option<OutputOptions>,
}

/// The mathematical content of an [`SbomConfig`].
pub struct SbomConfigView {
    pub format: Option<Format>,
    pub included_dependencies: Option<IncludedDependencies>,
    pub output_options: Option<OutputOptionsView>,
}

impl SbomConfigView {
    /// The configuration that chooses nothing.
    pub open spec fn empty() -> Self {
        SbomConfigView { format: None, included_dependencies: None, output_options: None }
    }
}

impl View for SbomConfig {
    type V = SbomConfigView;

    open spec fn view(&self) -> SbomConfigView {
        SbomConfigView {
            format: self.format,
            included_dependencies: self.included_dependencies,
            output_options: match self.output_options {
                Some(options) => Some(options@),
                None => None,
            },
        }
    }
}

impl SbomConfig {
    /// The configuration that chooses nothing.
    pub fn empty_config() -> (config: Self)
        ensures
            config@ == SbomConfigView::empty(),
    {
        SbomConfig { format: None, included_dependencies: None, output_options: None }
    }
}

impl Default for SbomConfig {
    fn default() -> (config: Self)
        ensures
            config@ == SbomConfigView::empty(),
    {
        SbomConfig::empty_config()
    }
}

} // verus!
