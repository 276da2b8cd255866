//! The target languages of the generator.

use vstd::prelude::*;

verus! {

/// A language that client code can be generated for.
#[derive(Debug, Clone, Copy, PartialEq, Eq, Structural)]
pub enum Language {
    Dotnet,
    Go,
    Java,
    Python,
    Ruby,
    TypeScript,
}

/// The name of the language as it is written in messages.
pub open spec fn display_name(language: Language) -> Seq<char> {
    match language {
        Language::Dotnet => ".NET"@,
        Language::Go => "Go"@,
        Language::Java => "Java"@,
        Language::Python => "Python"@,
        Language::Ruby => "Ruby"@,
        Language::TypeScript => "TypeScript"@,
    }
}

/// The name of the language as it is written in messages.
pub fn language_display_name(language: Language) -> (name: &'static str)
    ensures
        name@ == display_name(language),
{
    match language {
        Language::Dotnet => ".NET",
        Language::Go => "Go",
        Language::Java => "Java",
        Language::Python => "Python",
        Language::Ruby => "Ruby",
        Language::TypeScript => "TypeScript",
    }
}

} // verus!
