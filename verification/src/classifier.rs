//! Resolution of a programming-language tag from a text hint (title or URL)
//! or from the label returned by the external language model.

use vstd::prelude::*;

use crate::strutil::ascii_lower;
use crate::strutil::spec_contains;
use crate::strutil::spec_lower;
use crate::strutil::str_contains;
use crate::strutil::str_eq;

verus! {

/// The closed set of supported source languages.
#[derive(Clone, Copy, PartialEq, Eq, Structural, Debug)]
pub enum ProgrammingLanguage {
    C,
    Cpp,
    Java,
    Python,
}

impl ProgrammingLanguage {
    /// The display name of the language tag.
    pub fn name(&self) -> (r: String)
        ensures
            r@ == spec_language_name(*self),
    {
        match self {
            ProgrammingLanguage::C => "C".to_owned(),
            ProgrammingLanguage::Cpp => "Cpp".to_owned(),
            ProgrammingLanguage::Java => "Java".to_owned(),
            ProgrammingLanguage::Python => "Python".to_owned(),
        }
    }
}

/// The display name of each language tag.
pub open spec fn spec_language_name(lang: ProgrammingLanguage) -> Seq<char> {
    match lang {
        ProgrammingLanguage::C => "C"@,
        ProgrammingLanguage::Cpp => "Cpp"@,
        ProgrammingLanguage::Java => "Java"@,
        ProgrammingLanguage::Python => "Python"@,
    }
}

/// Hint classification: a case-insensitive substring match, checked in an
/// order that avoids prefix collisions ("cpp" contains "c").
pub open spec fn spec_classify_hint(s: Seq<char>) -> Option<ProgrammingLanguage> {
    let l = spec_lower(s);
    if spec_contains(l, "c++"@) || spec_contains(l, "cpp"@) {
        Some(ProgrammingLanguage::Cpp)
    } else if spec_contains(l, "java"@) {
        Some(ProgrammingLanguage::Java)
    } else if spec_contains(l, "python"@) {
        Some(ProgrammingLanguage::Python)
    } else if spec_contains(l, "c "@) {
        Some(ProgrammingLanguage::C)
    } else {
        None
    }
}

/// The mapping from an external model label to a language tag: any label
/// other than the three known ones means "unclassified".
pub open spec fn spec_classify_label(s: Seq<char>) -> Option<ProgrammingLanguage> {
    if s == "c_cpp"@ {
        Some(ProgrammingLanguage::Cpp)
    } else if s == "java"@ {
        Some(ProgrammingLanguage::Java)
    } else if s == "python"@ {
        Some(ProgrammingLanguage::Python)
    } else {
        None
    }
}

/// Resolves text hints and external model labels to a language tag.
pub struct LanguageClassifier;

impl LanguageClassifier {
    /// Classifies a title/URL hint by case-insensitive substring matching.
    pub fn classify(val: &str) -> (r: Option<ProgrammingLanguage>)
        ensures
            r == spec_classify_hint(val@),
    {
        let lang = ascii_lower(val);
        if str_contains(lang.as_str(), "c++") || str_contains(lang.as_str(), "cpp") {
            Some(ProgrammingLanguage::Cpp)
        } else if str_contains(lang.as_str(), "java") {
            Some(ProgrammingLanguage::Java)
        } else if str_contains(lang.as_str(), "python") {
            Some(ProgrammingLanguage::Python)
        } else if str_contains(lang.as_str(), "c ") {
            Some(ProgrammingLanguage::C)
        } else {
            None
        }
    }

    /// Maps the output label of the external black-box model to a language
    /// tag; the model call itself happens outside the core and its raw output
    /// is handed in here.
    pub fn classify_ml(label: &str) -> (r: Option<ProgrammingLanguage>)
        ensures
            r == spec_classify_label(label@),
    {
        if str_eq(label, "c_cpp") {
            Some(ProgrammingLanguage::Cpp)
        } else if str_eq(label, "java") {
            Some(ProgrammingLanguage::Java)
        } else if str_eq(label, "python") {
            Some(ProgrammingLanguage::Python)
        } else {
            None
        }
    }
}

} // verus!
