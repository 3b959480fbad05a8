//! Configuration of a formatting run.
//!
//! [`Configuration`] mirrors the resolved contents of a project's `rome.json`
//! file; [`FormatOptions`] is the immutable per-run context that the mapping
//! and the printer read. Invalid settings are rejected eagerly, before any
//! formatting begins.

use vstd::prelude::*;

verus! {

/// How one level of indentation is written.
#[derive(Clone, Copy, Debug, PartialEq, Eq, Structural)]
pub enum IndentKind {
    /// A run of spaces per level; each space occupies one column.
    Space,
    /// One tab character per level; a tab is counted as one column.
    Tab,
}

/// Preferred quote character for string literals.
#[derive(Clone, Copy, Debug, PartialEq, Eq, Structural)]
pub enum QuoteStyle {
    Double,
    Single,
}

/// The configuration of the formatter tool.
#[derive(Clone, Copy, Debug, PartialEq, Eq, Structural)]
pub struct FormatterConfiguration {
    /// Whether the formatter runs at all.
    pub enabled: bool,
    /// Maximum line width, in columns. Must be positive.
    pub line_width: u16,
    /// The kind of indentation the printer writes.
    pub indent_kind: IndentKind,
    /// Spaces per indentation level when `indent_kind` is `Space`.
    pub indent_size: u8,
}

/// Specific configuration for the JavaScript language.
#[derive(Clone, Copy, Debug, PartialEq, Eq, Structural)]
pub struct JavascriptConfiguration {
    /// The quote character that string literals are normalised to.
    pub quote_style: QuoteStyle,
}

/// The configuration that is contained inside the file `rome.json`.
#[derive(Clone, Copy, Debug, PartialEq, Eq, Structural)]
pub struct Configuration {
    /// One root file should exist. If `true`, this file is the master
    /// configuration.
    pub root: bool,
    /// The configuration of the formatter.
    pub formatter: FormatterConfiguration,
    /// Specific configuration for the JavaScript language.
    pub javascript: JavascriptConfiguration,
}

impl Default for FormatterConfiguration {
    fn default() -> (c: FormatterConfiguration)
        ensures
            c.enabled == true,
            c.line_width == 80,
            c.indent_kind == IndentKind::Space,
            c.indent_size == 2,
    {
        FormatterConfiguration {
            enabled: true,
            line_width: 80,
            indent_kind: IndentKind::Space,
            indent_size: 2,
        }
    }
}

impl Default for JavascriptConfiguration {
    fn default() -> (c: JavascriptConfiguration)
        ensures
            c.quote_style == QuoteStyle::Double,
    {
        JavascriptConfiguration { quote_style: QuoteStyle::Double }
    }
}

impl Default for Configuration {
    fn default() -> (c: Configuration)
        ensures
            c.root == false,
            c.formatter == (FormatterConfiguration {
                enabled: true,
                line_width: 80,
                indent_kind: IndentKind::Space,
                indent_size: 2,
            }),
            c.javascript == (JavascriptConfiguration { quote_style: QuoteStyle::Double }),
    {
        Configuration {
            root: false,
            formatter: FormatterConfiguration::default(),
            javascript: JavascriptConfiguration::default(),
        }
    }
}

/// Series of errors that can be thrown while computing the configuration.
#[derive(Clone, Copy, Debug, PartialEq, Eq, Structural)]
pub enum ConfigurationError {
    /// Thrown when the main configuration file doesn't have `root` set.
    NotRoot,
    /// Thrown when the configured maximum line width is zero.
    InvalidLineWidth,
}

impl ConfigurationError {
    /// The user-facing description of this error.
    pub open spec fn spec_message(self) -> Seq<char> {
        match self {
            ConfigurationError::NotRoot => "the main configuration file, rome.json, must have the field 'root' set to `true`"@,
            ConfigurationError::InvalidLineWidth => "the maximum line width must be a positive number"@,
        }
    }

    /// Renders this error as text.
    pub fn message(&self) -> (m: &'static str)
        ensures
            m@ == self.spec_message(),
    {
        match self {
            ConfigurationError::NotRoot => "the main configuration file, rome.json, must have the field 'root' set to `true`",
            ConfigurationError::InvalidLineWidth => "the maximum line width must be a positive number",
        }
    }
}

/// The immutable formatting context of one run: the settings that the
/// node-to-document mapping and the printer consult.
#[derive(Clone, Copy, Debug, PartialEq, Eq, Structural)]
pub struct FormatOptions {
    /// Maximum line width, in columns; always positive.
    pub width: u16,
    pub indent_kind: IndentKind,
    pub indent_size: u8,
    pub quote_style: QuoteStyle,
}

impl FormatOptions {
    /// A well-formed context has a positive width budget.
    pub open spec fn valid(self) -> bool {
        self.width >= 1
    }

    /// Builds a formatting context, rejecting a zero width.
    pub fn new(width: u16, indent_kind: IndentKind, indent_size: u8, quote_style: QuoteStyle) -> (r:
        Result<FormatOptions, ConfigurationError>)
        ensures
            width == 0 <==> r == Err::<FormatOptions, ConfigurationError>(
                ConfigurationError::InvalidLineWidth,
            ),
            width >= 1 ==> r == Ok::<FormatOptions, ConfigurationError>(
                FormatOptions { width, indent_kind, indent_size, quote_style },
            ),
            r is Ok ==> r.unwrap().valid(),
    {
        if width == 0 {
            Err(ConfigurationError::InvalidLineWidth)
        } else {
            Ok(FormatOptions { width, indent_kind, indent_size, quote_style })
        }
    }
}

impl Configuration {
    /// Whether the formatter tool is switched off by this configuration.
    pub fn is_formatter_disabled(&self) -> (r: bool)
        ensures
            r == !self.formatter.enabled,
    {
        !self.formatter.enabled
    }

    /// Checks this configuration and extracts the formatting context.
    ///
    /// The main configuration file must be the root one, and the width budget
    /// must be positive; each violation is reported as its own error.
    pub fn validate(&self) -> (r: Result<FormatOptions, ConfigurationError>)
        ensures
            !self.root ==> r == Err::<FormatOptions, ConfigurationError>(
                ConfigurationError::NotRoot,
            ),
            self.root && self.formatter.line_width == 0 ==> r == Err::<
                FormatOptions,
                ConfigurationError,
            >(ConfigurationError::InvalidLineWidth),
            self.root && self.formatter.line_width >= 1 ==> r == Ok::<
                FormatOptions,
                ConfigurationError,
            >(
                FormatOptions {
                    width: self.formatter.line_width,
                    indent_kind: self.formatter.indent_kind,
                    indent_size: self.formatter.indent_size,
                    quote_style: self.javascript.quote_style,
                },
            ),
            r is Ok ==> r.unwrap().valid(),
    {
        if !self.root {
            Err(ConfigurationError::NotRoot)
        } else {
            FormatOptions::new(
                self.formatter.line_width,
                self.formatter.indent_kind,
                self.formatter.indent_size,
                self.javascript.quote_style,
            )
        }
    }
}

} // verus!
