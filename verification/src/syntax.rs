//! The syntaxes that can carry settings of their own.

use crate::text::str_eq;
use vstd::prelude::*;

verus! {

/// A syntax that a buffer can be in.
#[derive(Clone, Copy, Debug, PartialEq, Eq, Hash)]
pub enum SyntaxDefinition {
    Plaintext,
    Markdown,
    Python,
    Rust,
    C,
    Go,
    Dart,
    Swift,
    Toml,
    Json,
    Yaml,
    Cpp,
    Objc,
    Shell,
    Ruby,
    Javascript,
    Java,
    Php,
    Perl,
    Makefile,
}

impl SyntaxDefinition {
    /// The name that configuration files use for the syntax: the variant's
    /// name in lower case.
    pub open spec fn name(self) -> Seq<char> {
        match self {
            SyntaxDefinition::Plaintext => "plaintext"@,
            SyntaxDefinition::Markdown => "markdown"@,
            SyntaxDefinition::Python => "python"@,
            SyntaxDefinition::Rust => "rust"@,
            SyntaxDefinition::C => "c"@,
            SyntaxDefinition::Go => "go"@,
            SyntaxDefinition::Dart => "dart"@,
            SyntaxDefinition::Swift => "swift"@,
            SyntaxDefinition::Toml => "toml"@,
            SyntaxDefinition::Json => "json"@,
            SyntaxDefinition::Yaml => "yaml"@,
            SyntaxDefinition::Cpp => "cpp"@,
            SyntaxDefinition::Objc => "objc"@,
            SyntaxDefinition::Shell => "shell"@,
            SyntaxDefinition::Ruby => "ruby"@,
            SyntaxDefinition::Javascript => "javascript"@,
            SyntaxDefinition::Java => "java"@,
            SyntaxDefinition::Php => "php"@,
            SyntaxDefinition::Perl => "perl"@,
            SyntaxDefinition::Makefile => "makefile"@,
        }
    }

    /// The syntax that `name` stands for, if any: the first whose name it is.
    pub open spec fn named(name: Seq<char>) -> Option<SyntaxDefinition> {
        if name == "plaintext"@ {
            Some(SyntaxDefinition::Plaintext)
        } else if name == "markdown"@ {
            Some(SyntaxDefinition::Markdown)
        } else if name == "python"@ {
            Some(SyntaxDefinition::Python)
        } else if name == "rust"@ {
            Some(SyntaxDefinition::Rust)
        } else if name == "c"@ {
            Some(SyntaxDefinition::C)
        } else if name == "go"@ {
            Some(SyntaxDefinition::Go)
        } else if name == "dart"@ {
            Some(SyntaxDefinition::Dart)
        } else if name == "swift"@ {
            Some(SyntaxDefinition::Swift)
        } else if name == "toml"@ {
            Some(SyntaxDefinition::Toml)
        } else if name == "json"@ {
            Some(SyntaxDefinition::Json)
        } else if name == "yaml"@ {
            Some(SyntaxDefinition::Yaml)
        } else if name == "cpp"@ {
            Some(SyntaxDefinition::Cpp)
        } else if name == "objc"@ {
            Some(SyntaxDefinition::Objc)
        } else if name == "shell"@ {
            Some(SyntaxDefinition::Shell)
        } else if name == "ruby"@ {
            Some(SyntaxDefinition::Ruby)
        } else if name == "javascript"@ {
            Some(SyntaxDefinition::Javascript)
        } else if name == "java"@ {
            Some(SyntaxDefinition::Java)
        } else if name == "php"@ {
            Some(SyntaxDefinition::Php)
        } else if name == "perl"@ {
            Some(SyntaxDefinition::Perl)
        } else if name == "makefile"@ {
            Some(SyntaxDefinition::Makefile)
        } else {
            None
        }
    }

    /// A number that tells the syntaxes apart.
    pub open spec fn code(self) -> u8 {
        match self {
            SyntaxDefinition::Plaintext => 0,
            SyntaxDefinition::Markdown => 1,
            SyntaxDefinition::Python => 2,
            SyntaxDefinition::Rust => 3,
            SyntaxDefinition::C => 4,
            SyntaxDefinition::Go => 5,
            SyntaxDefinition::Dart => 6,
            SyntaxDefinition::Swift => 7,
            SyntaxDefinition::Toml => 8,
            SyntaxDefinition::Json => 9,
            SyntaxDefinition::Yaml => 10,
            SyntaxDefinition::Cpp => 11,
            SyntaxDefinition::Objc => 12,
            SyntaxDefinition::Shell => 13,
            SyntaxDefinition::Ruby => 14,
            SyntaxDefinition::Javascript => 15,
            SyntaxDefinition::Java => 16,
            SyntaxDefinition::Php => 17,
            SyntaxDefinition::Perl => 18,
            SyntaxDefinition::Makefile => 19,
        }
    }

    /// The syntax with the given number; `Plaintext` for a number that no
    /// syntax has.
    pub open spec fn with_code(code: u8) -> SyntaxDefinition {
        if code == 1 {
            SyntaxDefinition::Markdown
        } else if code == 2 {
            SyntaxDefinition::Python
        } else if code == 3 {
            SyntaxDefinition::Rust
        } else if code == 4 {
            SyntaxDefinition::C
        } else if code == 5 {
            SyntaxDefinition::Go
        } else if code == 6 {
            SyntaxDefinition::Dart
        } else if code == 7 {
            SyntaxDefinition::Swift
        } else if code == 8 {
            SyntaxDefinition::Toml
        } else if code == 9 {
            SyntaxDefinition::Json
        } else if code == 10 {
            SyntaxDefinition::Yaml
        } else if code == 11 {
            SyntaxDefinition::Cpp
        } else if code == 12 {
            SyntaxDefinition::Objc
        } else if code == 13 {
            SyntaxDefinition::Shell
        } else if code == 14 {
            SyntaxDefinition::Ruby
        } else if code == 15 {
            SyntaxDefinition::Javascript
        } else if code == 16 {
            SyntaxDefinition::Java
        } else if code == 17 {
            SyntaxDefinition::Php
        } else if code == 18 {
            SyntaxDefinition::Perl
        } else if code == 19 {
            SyntaxDefinition::Makefile
        } else {
            SyntaxDefinition::Plaintext
        }
    }

    /// Finds the syntax that a configuration file's name stands for.
    pub fn try_from_name(name: &str) -> (r: Option<SyntaxDefinition>)
        ensures
            r == SyntaxDefinition::named(name@),
    {
        if str_eq(name, "plaintext") {
            Some(SyntaxDefinition::Plaintext)
        } else if str_eq(name, "markdown") {
            Some(SyntaxDefinition::Markdown)
        } else if str_eq(name, "python") {
            Some(SyntaxDefinition::Python)
        } else if str_eq(name, "rust") {
            Some(SyntaxDefinition::Rust)
        } else if str_eq(name, "c") {
            Some(SyntaxDefinition::C)
        } else if str_eq(name, "go") {
            Some(SyntaxDefinition::Go)
        } else if str_eq(name, "dart") {
            Some(SyntaxDefinition::Dart)
        } else if str_eq(name, "swift") {
            Some(SyntaxDefinition::Swift)
        } else if str_eq(name, "toml") {
            Some(SyntaxDefinition::Toml)
        } else if str_eq(name, "json") {
            Some(SyntaxDefinition::Json)
        } else if str_eq(name, "yaml") {
            Some(SyntaxDefinition::Yaml)
        } else if str_eq(name, "cpp") {
            Some(SyntaxDefinition::Cpp)
        } else if str_eq(name, "objc") {
            Some(SyntaxDefinition::Objc)
        } else if str_eq(name, "shell") {
            Some(SyntaxDefinition::Shell)
        } else if str_eq(name, "ruby") {
            Some(SyntaxDefinition::Ruby)
        } else if str_eq(name, "javascript") {
            Some(SyntaxDefinition::Javascript)
        } else if str_eq(name, "java") {
            Some(SyntaxDefinition::Java)
        } else if str_eq(name, "php") {
            Some(SyntaxDefinition::Php)
        } else if str_eq(name, "perl") {
            Some(SyntaxDefinition::Perl)
        } else if str_eq(name, "makefile") {
            Some(SyntaxDefinition::Makefile)
        } else {
            None
        }
    }

    /// The number of the syntax.
    pub fn to_code(self) -> (c: u8)
        ensures
            c == self.code(),
            SyntaxDefinition::with_code(c) == self,
    {
        match self {
            SyntaxDefinition::Plaintext => 0,
            SyntaxDefinition::Markdown => 1,
            SyntaxDefinition::Python => 2,
            SyntaxDefinition::Rust => 3,
            SyntaxDefinition::C => 4,
            SyntaxDefinition::Go => 5,
            SyntaxDefinition::Dart => 6,
            SyntaxDefinition::Swift => 7,
            SyntaxDefinition::Toml => 8,
            SyntaxDefinition::Json => 9,
            SyntaxDefinition::Yaml => 10,
            SyntaxDefinition::Cpp => 11,
            SyntaxDefinition::Objc => 12,
            SyntaxDefinition::Shell => 13,
            SyntaxDefinition::Ruby => 14,
            SyntaxDefinition::Javascript => 15,
            SyntaxDefinition::Java => 16,
            SyntaxDefinition::Php => 17,
            SyntaxDefinition::Perl => 18,
            SyntaxDefinition::Makefile => 19,
        }
    }
}

/// Each syntax is the one with its number, so two syntaxes with one number
/// are the same.
pub proof fn lemma_code_identifies(s: SyntaxDefinition)
    ensures
        SyntaxDefinition::with_code(s.code()) == s,
{
}

impl Default for SyntaxDefinition {
    fn default() -> (s: SyntaxDefinition)
        ensures
            s == SyntaxDefinition::Plaintext,
    {
        SyntaxDefinition::Plaintext
    }
}

} // verus!
