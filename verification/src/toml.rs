//! Resolution of a parsed configuration fragment into a typed configuration.
//!
//! Reading the fragment's shape and resolving what was read are two steps:
//! the first yields the fragment as written, the second applies the defaults
//! and refuses options that exclude each other.

use crate::config;
use crate::config::{
    CdxExtension, CustomPrefix, PrefixError, PrefixErrorView, PrefixView, SbomConfig, SbomConfigView,
};
use crate::format::{refuse_name, unexpected_name, Format};
use crate::value::{
    enumerated, find, lookup, optional_field, reading, reading_view, same_text, DeserializeError,
    DeserializeErrorView, Value,
};
use std::convert::TryFrom;
use std::str::FromStr;
use vstd::prelude::*;

verus! {

/// Why a configuration fragment was not resolved.
#[derive(Debug, PartialEq, Eq)]
pub enum ConfigError {
    /// The fragment does not have the expected shape.
    TomlError(String),
    /// The fragment is well shaped, but its options exclude each other.
    ValidationError(String),
    /// The custom prefix was refused.
    CustomPrefixError(PrefixError),
}

/// The mathematical content of a [`ConfigError`].
pub enum ConfigErrorView {
    TomlError(Seq<char>),
    ValidationError(Seq<char>),
    CustomPrefixError(PrefixErrorView),
}

impl View for ConfigError {
    type V = ConfigErrorView;

    open spec fn view(&self) -> ConfigErrorView {
        match *self {
            ConfigError::TomlError(message) => ConfigErrorView::TomlError(message@),
            ConfigError::ValidationError(message) => ConfigErrorView::ValidationError(message@),
            ConfigError::CustomPrefixError(error) => ConfigErrorView::CustomPrefixError(error@),
        }
    }
}

impl ConfigErrorView {
    /// The text of the error.
    pub open spec fn describe(self) -> Seq<char> {
        match self {
            ConfigErrorView::TomlError(message) =>
                "Failed to deserialize configuration from Toml: "@ + message,
            ConfigErrorView::ValidationError(message) => "Failed to validate configuration: "@
                + message,
            ConfigErrorView::CustomPrefixError(_) => "Invalid prefix from Toml"@,
        }
    }
}

impl ConfigError {
    /// The text of the error.
    pub fn describe(&self) -> (text: String)
        ensures
            text@ == self@.describe(),
    {
        match self {
            ConfigError::TomlError(message) => {
                "Failed to deserialize configuration from Toml: ".to_owned().concat(message.as_str())
            },
            ConfigError::ValidationError(message) => {
                "Failed to validate configuration: ".to_owned().concat(message.as_str())
            },
            ConfigError::CustomPrefixError(_) => "Invalid prefix from Toml".to_owned(),
        }
    }
}

impl From<PrefixError> for ConfigError {
    fn from(error: PrefixError) -> (converted: Self)
        ensures
            converted == ConfigError::CustomPrefixError(error),
    {
        ConfigError::CustomPrefixError(error)
    }
}

impl vstd::std_specs::convert::FromSpecImpl<PrefixError> for ConfigError {
    open spec fn obeys_from_spec() -> bool {
        true
    }

    open spec fn from_spec(error: PrefixError) -> Self {
        ConfigError::CustomPrefixError(error)
    }
}

/// What a resolution returned, with both sides taken by their views.
pub open spec fn resolution_view<T: View>(returned: Result<T, ConfigError>) -> Result<
    T::V,
    ConfigErrorView,
> {
    match returned {
        Ok(resolved) => Ok(resolved@),
        Err(error) => Err(error@),
    }
}

/// Which dependencies the document lists, as a fragment writes it.
#[derive(Debug, Clone, Copy, PartialEq, Eq)]
pub enum IncludedDependencies {
    TopLevelDependencies,
    AllDependencies,
}

impl IncludedDependencies {
    /// The mode that `text` names: `all` or `top-level`, and nothing else.
    pub open spec fn named(text: Seq<char>) -> Result<IncludedDependencies, Seq<char>> {
        if text == "all"@ {
            Ok(IncludedDependencies::AllDependencies)
        } else if text == "top-level"@ {
            Ok(IncludedDependencies::TopLevelDependencies)
        } else {
            Err(unexpected_name("all or top-level"@, text))
        }
    }

    /// The mode as the resolved configuration holds it.
    pub open spec fn resolved(self) -> config::IncludedDependencies {
        match self {
            IncludedDependencies::TopLevelDependencies => config::IncludedDependencies::TopLevelDependencies,
            IncludedDependencies::AllDependencies => config::IncludedDependencies::AllDependencies,
        }
    }

    /// The mode that a value holds: a string that names one.
    pub open spec fn deserialized(value: Value) -> Result<
        IncludedDependencies,
        DeserializeErrorView,
    > {
        enumerated(value, |text: Seq<char>| IncludedDependencies::named(text))
    }

    /// Reads a mode.
    pub fn deserialize(value: &Value) -> (read: Result<IncludedDependencies, DeserializeError>)
        ensures
            reading(read) == IncludedDependencies::deserialized(*value),
    {
        match value.expect_string() {
            Err(error) => Err(error),
            Ok(text) => match IncludedDependencies::from_str(text.as_str()) {
                Ok(mode) => Ok(mode),
                Err(message) => Err(DeserializeError::new(message)),
            },
        }
    }
}

impl Default for IncludedDependencies {
    fn default() -> (mode: Self)
        ensures
            mode == IncludedDependencies::TopLevelDependencies,
    {
        IncludedDependencies::TopLevelDependencies
    }
}

impl FromStr for IncludedDependencies {
    type Err = String;

    fn from_str(s: &str) -> (parsed: Result<Self, String>)
        ensures
            match parsed {
                Ok(mode) => IncludedDependencies::named(s@) == Ok::<
                    IncludedDependencies,
                    Seq<char>,
                >(mode),
                Err(message) => IncludedDependencies::named(s@) == Err::<
                    IncludedDependencies,
                    Seq<char>,
                >(message@),
            },
    {
        if same_text(s, "all") {
            Ok(IncludedDependencies::AllDependencies)
        } else if same_text(s, "top-level") {
            Ok(IncludedDependencies::TopLevelDependencies)
        } else {
            Err(refuse_name("all or top-level", s))
        }
    }
}

impl From<IncludedDependencies> for config::IncludedDependencies {
    fn from(val: IncludedDependencies) -> (converted: Self)
        ensures
            converted == val.resolved(),
    {
        match val {
            IncludedDependencies::TopLevelDependencies => config::IncludedDependencies::TopLevelDependencies,
            IncludedDependencies::AllDependencies => config::IncludedDependencies::AllDependencies,
        }
    }
}

impl vstd::std_specs::convert::FromSpecImpl<IncludedDependencies> for config::IncludedDependencies {
    open spec fn obeys_from_spec() -> bool {
        true
    }

    open spec fn from_spec(val: IncludedDependencies) -> Self {
        val.resolved()
    }
}

/// A fixed scheme for naming output files, as a fragment writes it.
#[derive(Debug, Clone, Copy, PartialEq, Eq)]
pub enum Pattern {
    Bom,
    Package,
}

impl Pattern {
    /// The pattern that `text` names: `bom` or `package`, and nothing else.
    pub open spec fn named(text: Seq<char>) -> Result<Pattern, Seq<char>> {
        if text == "bom"@ {
            Ok(Pattern::Bom)
        } else if text == "package"@ {
            Ok(Pattern::Package)
        } else {
            Err(unexpected_name("bom or package"@, text))
        }
    }

    /// The pattern as the resolved configuration holds it.
    pub open spec fn resolved(self) -> config::Pattern {
        match self {
            Pattern::Bom => config::Pattern::Bom,
            Pattern::Package => config::Pattern::Package,
        }
    }

    /// The pattern that a value holds: a string that names one.
    pub open spec fn deserialized(value: Value) -> Result<Pattern, DeserializeErrorView> {
        enumerated(value, |text: Seq<char>| Pattern::named(text))
    }

    /// Reads a pattern.
    pub fn deserialize(value: &Value) -> (read: Result<Pattern, DeserializeError>)
        ensures
            reading(read) == Pattern::deserialized(*value),
    {
        match value.expect_string() {
            Err(error) => Err(error),
            Ok(text) => match Pattern::from_str(text.as_str()) {
                Ok(pattern) => Ok(pattern),
                Err(message) => Err(DeserializeError::new(message)),
            },
        }
    }
}

impl Default for Pattern {
    fn default() -> (pattern: Self)
        ensures
            pattern == Pattern::Bom,
    {
        Pattern::Bom
    }
}

impl FromStr for Pattern {
    type Err = String;

    fn from_str(s: &str) -> (parsed: Result<Self, String>)
        ensures
            match parsed {
                Ok(pattern) => Pattern::named(s@) == Ok::<Pattern, Seq<char>>(pattern),
                Err(message) => Pattern::named(s@) == Err::<Pattern, Seq<char>>(message@),
            },
    {
        if same_text(s, "bom") {
            Ok(Pattern::Bom)
        } else if same_text(s, "package") {
            Ok(Pattern::Package)
        } else {
            Err(refuse_name("bom or package", s))
        }
    }
}

impl From<Pattern> for config::Pattern {
    fn from(val: Pattern) -> (converted: Self)
        ensures
            converted == val.resolved(),
    {
        match val {
            Pattern::Bom => config::Pattern::Bom,
            Pattern::Package => config::Pattern::Package,
        }
    }
}

impl vstd::std_specs::convert::FromSpecImpl<Pattern> for config::Pattern {
    open spec fn obeys_from_spec() -> bool {
        true
    }

    open spec fn from_spec(val: Pattern) -> Self {
        val.resolved()
    }
}


/// How output files are named, as a fragment writes it.
#[derive(Debug, PartialEq, Eq)]
pub struct OutputOptions {
    pub cdx_extension: Option<bool>,
    pub pattern: Option<Pattern>,
    pub prefix: Option<String>,
}

/// The mathematical content of an [`OutputOptions`].
pub struct OutputOptionsView {
    pub cdx_extension: Option<bool>,
    pub pattern: Option<Pattern>,
    pub prefix: Option<Seq<char>>,
}

impl View for OutputOptions {
    type V = OutputOptionsView;

    open spec fn view(&self) -> OutputOptionsView {
        OutputOptionsView {
            cdx_extension: self.cdx_extension,
            pattern: self.pattern,
            prefix: match self.prefix {
                Some(prefix) => Some(prefix@),
                None => None,
            },
        }
    }
}

impl Clone for OutputOptions {
    fn clone(&self) -> (copy: Self)
        ensures
            copy == *self,
    {
        OutputOptions {
            cdx_extension: self.cdx_extension,
            pattern: self.pattern,
            prefix: match &self.prefix {
                Some(prefix) => Some(prefix.clone()),
                None => None,
            },
        }
    }
}

/// The message that refuses a pattern together with a custom prefix.
pub open spec fn both_prefix_and_pattern() -> Seq<char> {
    "OutputOptions can contain either prefix or pattern, got both"@
}

impl OutputOptionsView {
    /// The extension setting that the options choose; the default where they
    /// choose none.
    pub open spec fn extension(self) -> CdxExtension {
        match self.cdx_extension {
            Some(true) => CdxExtension::Included,
            Some(false) => CdxExtension::NotIncluded,
            None => CdxExtension::NotIncluded,
        }
    }

    /// What resolving the options yields. A pattern and a custom prefix
    /// exclude each other; a custom prefix has to be acceptable; where
    /// neither is given, the default pattern names the files.
    pub open spec fn resolved(self) -> Result<config::OutputOptionsView, ConfigErrorView> {
        match (self.pattern, self.prefix) {
            (Some(pattern), None) => Ok(
                config::OutputOptionsView {
                    cdx_extension: self.extension(),
                    prefix: PrefixView::Pattern(pattern.resolved()),
                },
            ),
            (None, Some(prefix)) => match config::checked_prefix(prefix) {
                Ok(checked) => Ok(
                    config::OutputOptionsView {
                        cdx_extension: self.extension(),
                        prefix: PrefixView::Custom(checked),
                    },
                ),
                Err(error) => Err(ConfigErrorView::CustomPrefixError(error)),
            },
            (None, None) => Ok(
                config::OutputOptionsView {
                    cdx_extension: self.extension(),
                    prefix: PrefixView::Pattern(config::Pattern::Bom),
                },
            ),
            (Some(_), Some(_)) => Err(ConfigErrorView::ValidationError(both_prefix_and_pattern())),
        }
    }

    /// The options that a value holds: a table whose entries `cdx`,
    /// `pattern` and `prefix`, each optional, hold a boolean, the name of a
    /// pattern and a string. Other entries are ignored. The first entry at
    /// fault, in this order, is reported.
    pub open spec fn deserialized(value: Value) -> Result<OutputOptionsView, DeserializeErrorView> {
        match value.table() {
            Err(error) => Err(error),
            Ok(entries) => match optional_field(entries, "cdx"@, |v: Value| v.boolean()) {
                Err(error) => Err(error),
                Ok(cdx_extension) => match optional_field(
                    entries,
                    "pattern"@,
                    |v: Value| Pattern::deserialized(v),
                ) {
                    Err(error) => Err(error),
                    Ok(pattern) => match optional_field(entries, "prefix"@, |v: Value| v.string()) {
                        Err(error) => Err(error),
                        Ok(prefix) => Ok(OutputOptionsView { cdx_extension, pattern, prefix }),
                    },
                },
            },
        }
    }
}

impl OutputOptions {
    /// Reads output options as they are written, without resolving them.
    pub fn deserialize(value: &Value) -> (read: Result<OutputOptions, DeserializeError>)
        ensures
            reading_view(read) == OutputOptionsView::deserialized(*value),
    {
        let entries = match value.expect_table() {
            Ok(entries) => entries,
            Err(error) => return Err(error),
        };
        let cdx_extension = match find(entries, "cdx") {
            None => None,
            Some(found) => match found.expect_boolean() {
                Ok(flag) => Some(flag),
                Err(error) => return Err(error.add_key_context("cdx")),
            },
        };
        let pattern = match find(entries, "pattern") {
            None => None,
            Some(found) => match Pattern::deserialize(found) {
                Ok(pattern) => Some(pattern),
                Err(error) => return Err(error.add_key_context("pattern")),
            },
        };
        let prefix = match find(entries, "prefix") {
            None => None,
            Some(found) => match found.expect_string() {
                Ok(text) => Some(text.clone()),
                Err(error) => return Err(error.add_key_context("prefix")),
            },
        };
        Ok(OutputOptions { cdx_extension, pattern, prefix })
    }
}

impl TryFrom<OutputOptions> for config::OutputOptions {
    type Error = ConfigError;

    /// Resolves output options as written into output options as used.
    fn try_from(value: OutputOptions) -> (resolved: Result<Self, ConfigError>)
        ensures
            resolution_view(resolved) == value@.resolved(),
            value.pattern is Some && value.prefix is Some ==> resolution_view(resolved) == Err::<
                config::OutputOptionsView,
                ConfigErrorView,
            >(ConfigErrorView::ValidationError(both_prefix_and_pattern())),
    {
        let cdx_extension = match value.cdx_extension {
            Some(true) => CdxExtension::Included,
            Some(false) => CdxExtension::NotIncluded,
            None => CdxExtension::default(),
        };
        let prefix = match (value.pattern, value.prefix) {
            (Some(pattern), None) => config::Prefix::Pattern(config::Pattern::from(pattern)),
            (None, Some(prefix)) => match CustomPrefix::new(prefix) {
                Ok(checked) => config::Prefix::Custom(checked),
                Err(error) => return Err(ConfigError::from(error)),
            },
            (None, None) => config::Prefix::default(),
            (Some(_), Some(_)) => {
                return Err(
                    ConfigError::ValidationError(
                        "OutputOptions can contain either prefix or pattern, got both".to_owned(),
                    ),
                );
            },
        };
        Ok(config::OutputOptions { cdx_extension, prefix })
    }
}


/// The result is stated by `try_from` itself, over views: an error holds a
/// message that is made anew, which no value fixed beforehand can equal.
impl vstd::std_specs::convert::TryFromSpecImpl<OutputOptions> for config::OutputOptions {
    open spec fn obeys_try_from_spec() -> bool {
        false
    }

    open spec fn try_from_spec(value: OutputOptions) -> Result<Self, ConfigError> {
        arbitrary()
    }
}

/// The recognized section of a fragment, as written.
#[derive(Debug, PartialEq, Eq)]
pub struct TomlConfig {
    pub format: Option<Format>,
    pub included_dependencies: Option<IncludedDependencies>,
    pub output_options: Option<OutputOptions>,
}

/// The mathematical content of a [`TomlConfig`].
pub struct TomlConfigView {
    pub format: Option<Format>,
    pub included_dependencies: Option<IncludedDependencies>,
    pub output_options: Option<OutputOptionsView>,
}

impl View for TomlConfig {
    type V = TomlConfigView;

    open spec fn view(&self) -> TomlConfigView {
        TomlConfigView {
            format: self.format,
            included_dependencies: self.included_dependencies,
            output_options: match self.output_options {
                Some(options) => Some(options@),
                None => None,
            },
        }
    }
}

impl TomlConfigView {
    /// The section that sets nothing.
    pub open spec fn empty() -> Self {
        TomlConfigView { format: None, included_dependencies: None, output_options: None }
    }

    /// What resolving the section yields. Each setting is resolved on its
    /// own: one that is absent stays absent, and only the output options
    /// can be refused.
    pub open spec fn resolved(self) -> Result<SbomConfigView, ConfigErrorView> {
        let included_dependencies = match self.included_dependencies {
            Some(mode) => Some(mode.resolved()),
            None => None,
        };
        match self.output_options {
            None => Ok(
                SbomConfigView { format: self.format, included_dependencies, output_options: None },
            ),
            Some(options) => match options.resolved() {
                Ok(output_options) => Ok(
                    SbomConfigView {
                        format: self.format,
                        included_dependencies,
                        output_options: Some(output_options),
                    },
                ),
                Err(error) => Err(error),
            },
        }
    }

    /// The section that a value holds: a table whose entries `format`,
    /// `included_dependencies` and `output_options`, each optional, hold the
    /// name of a format, the name of a mode and a table of output options.
    /// Other entries are ignored. The first entry at fault, in this order, is
    /// reported.
    pub open spec fn deserialized(value: Value) -> Result<TomlConfigView, DeserializeErrorView> {
        match value.table() {
            Err(error) => Err(error),
            Ok(entries) => match optional_field(
                entries,
                "format"@,
                |v: Value| Format::deserialized(v),
            ) {
                Err(error) => Err(error),
                Ok(format) => match optional_field(
                    entries,
                    "included_dependencies"@,
                    |v: Value| IncludedDependencies::deserialized(v),
                ) {
                    Err(error) => Err(error),
                    Ok(included_dependencies) => match optional_field(
                        entries,
                        "output_options"@,
                        |v: Value| OutputOptionsView::deserialized(v),
                    ) {
                        Err(error) => Err(error),
                        Ok(output_options) => Ok(
                            TomlConfigView { format, included_dependencies, output_options },
                        ),
                    },
                },
            },
        }
    }
}

impl TomlConfig {
    /// The section that sets nothing.
    pub fn empty_config() -> (config: Self)
        ensures
            config@ == TomlConfigView::empty(),
    {
        TomlConfig { format: None, included_dependencies: None, output_options: None }
    }

    /// Reads the recognized section as it is written, without resolving it.
    pub fn deserialize(value: &Value) -> (read: Result<TomlConfig, DeserializeError>)
        ensures
            reading_view(read) == TomlConfigView::deserialized(*value),
    {
        let entries = match value.expect_table() {
            Ok(entries) => entries,
            Err(error) => return Err(error),
        };
        let format = match find(entries, "format") {
            None => None,
            Some(found) => match Format::deserialize(found) {
                Ok(format) => Some(format),
                Err(error) => return Err(error.add_key_context("format")),
            },
        };
        let included_dependencies = match find(entries, "included_dependencies") {
            None => None,
            Some(found) => match IncludedDependencies::deserialize(found) {
                Ok(mode) => Some(mode),
                Err(error) => return Err(error.add_key_context("included_dependencies")),
            },
        };
        let output_options = match find(entries, "output_options") {
            None => None,
            Some(found) => match OutputOptions::deserialize(found) {
                Ok(options) => Some(options),
                Err(error) => return Err(error.add_key_context("output_options")),
            },
        };
        Ok(TomlConfig { format, included_dependencies, output_options })
    }
}

impl TryFrom<TomlConfig> for SbomConfig {
    type Error = ConfigError;

    /// Resolves the recognized section.
    fn try_from(value: TomlConfig) -> (resolved: Result<Self, ConfigError>)
        ensures
            resolution_view(resolved) == value@.resolved(),
    {
        let output_options: Option<config::OutputOptions> = match value.output_options {
            Some(options) => match config::OutputOptions::try_from(options) {
                Ok(resolved) => Some(resolved),
                Err(error) => return Err(error),
            },
            None => None,
        };
        let included_dependencies = match value.included_dependencies {
            Some(mode) => Some(config::IncludedDependencies::from(mode)),
            None => None,
        };
        Ok(SbomConfig { format: value.format, included_dependencies, output_options })
    }
}

/// The result is stated by `try_from` itself, over views: an error holds a
/// message that is made anew, which no value fixed beforehand can equal.
impl vstd::std_specs::convert::TryFromSpecImpl<TomlConfig> for SbomConfig {
    open spec fn obeys_try_from_spec() -> bool {
        false
    }

    open spec fn try_from_spec(value: TomlConfig) -> Result<Self, ConfigError> {
        arbitrary()
    }
}

/// A fragment that is a table without the entry `cyclonedx`: whatever else it
/// holds belongs to others.
pub open spec fn lacks_recognized_section(value: Value) -> bool {
    match value {
        Value::Table(entries) => lookup(entries@, "cyclonedx"@) is None,
        _ => false,
    }
}

/// A whole fragment, as written: the recognized section, where there is one.
#[derive(Debug, PartialEq, Eq)]
pub struct ConfigWrapper {
    pub cyclonedx: Option<TomlConfig>,
}

/// The mathematical content of a [`ConfigWrapper`].
pub struct ConfigWrapperView {
    pub cyclonedx: Option<TomlConfigView>,
}

impl View for ConfigWrapper {
    type V = ConfigWrapperView;

    open spec fn view(&self) -> ConfigWrapperView {
        ConfigWrapperView {
            cyclonedx: match self.cyclonedx {
                Some(config) => Some(config@),
                None => None,
            },
        }
    }
}

impl ConfigWrapperView {
    /// What resolving the fragment yields: the resolved section, or the
    /// empty configuration where the fragment has no recognized section.
    pub open spec fn resolved(self) -> Result<SbomConfigView, ConfigErrorView> {
        match self.cyclonedx {
            Some(config) => config.resolved(),
            None => Ok(SbomConfigView::empty()),
        }
    }

    /// The fragment that a value holds: a table whose optional entry
    /// `cyclonedx` holds the recognized section. Every other entry is
    /// ignored.
    pub open spec fn deserialized(value: Value) -> Result<ConfigWrapperView, DeserializeErrorView> {
        match value.table() {
            Err(error) => Err(error),
            Ok(entries) => match optional_field(
                entries,
                "cyclonedx"@,
                |v: Value| TomlConfigView::deserialized(v),
            ) {
                Err(error) => Err(error),
                Ok(cyclonedx) => Ok(ConfigWrapperView { cyclonedx }),
            },
        }
    }
}

impl ConfigWrapper {
    /// Reads a fragment as it is written, without resolving it.
    pub fn deserialize(value: &Value) -> (read: Result<ConfigWrapper, DeserializeError>)
        ensures
            reading_view(read) == ConfigWrapperView::deserialized(*value),
            lacks_recognized_section(*value) ==> reading_view(read) == Ok::<
                ConfigWrapperView,
                DeserializeErrorView,
            >(ConfigWrapperView { cyclonedx: None }),
    {
        let entries = match value.expect_table() {
            Ok(entries) => entries,
            Err(error) => return Err(error),
        };
        let cyclonedx = match find(entries, "cyclonedx") {
            None => None,
            Some(found) => match TomlConfig::deserialize(found) {
                Ok(config) => Some(config),
                Err(error) => return Err(error.add_key_context("cyclonedx")),
            },
        };
        Ok(ConfigWrapper { cyclonedx })
    }
}

impl TryFrom<ConfigWrapper> for SbomConfig {
    type Error = ConfigError;

    /// Resolves a fragment.
    fn try_from(value: ConfigWrapper) -> (resolved: Result<Self, ConfigError>)
        ensures
            resolution_view(resolved) == value@.resolved(),
    {
        match value.cyclonedx {
            Some(cyclonedx) => SbomConfig::try_from(cyclonedx),
            None => Ok(SbomConfig::empty_config()),
        }
    }
}

/// The result is stated by `try_from` itself, over views: an error holds a
/// message that is made anew, which no value fixed beforehand can equal.
impl vstd::std_specs::convert::TryFromSpecImpl<ConfigWrapper> for SbomConfig {
    open spec fn obeys_try_from_spec() -> bool {
        false
    }

    open spec fn try_from_spec(value: ConfigWrapper) -> Result<Self, ConfigError> {
        arbitrary()
    }
}

/// What resolving an optional fragment yields. Without a fragment it is the
/// empty configuration. A fragment is first read as written, a fault of its
/// shape being reported as a `TomlError` with the fault's text, and then
/// resolved.
pub open spec fn config_of(value: Option<Value>) -> Result<SbomConfigView, ConfigErrorView> {
    match value {
        None => Ok(SbomConfigView::empty()),
        Some(value) => match ConfigWrapperView::deserialized(value) {
            Err(error) => Err(ConfigErrorView::TomlError(error.describe())),
            Ok(wrapper) => wrapper.resolved(),
        },
    }
}

/// The value behind an optional reference.
pub open spec fn pointee(value: Option<&Value>) -> Option<Value> {
    match value {
        Some(value) => Some(*value),
        None => None,
    }
}

/// Resolves an optional configuration fragment into a configuration.
pub fn config_from_toml(value: Option<&Value>) -> (resolved: Result<SbomConfig, ConfigError>)
    ensures
        resolution_view(resolved) == config_of(pointee(value)),
        value is None ==> resolution_view(resolved) == Ok::<SbomConfigView, ConfigErrorView>(
            SbomConfigView::empty(),
        ),
        value is Some && lacks_recognized_section(*value.unwrap()) ==> resolution_view(resolved)
            == Ok::<SbomConfigView, ConfigErrorView>(SbomConfigView::empty()),
{
    match value {
        Some(value) => match ConfigWrapper::deserialize(value) {
            Err(error) => Err(ConfigError::TomlError(error.describe())),
            Ok(wrapper) => SbomConfig::try_from(wrapper),
        },
        None => Ok(SbomConfig::empty_config()),
    }
}

} // verus!
