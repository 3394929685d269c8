//! The dispatcher: holds no concrete parser until a language is resolved,
//! then binds the matching one (the combined C/C++/Java parser or the Python
//! parser) and forwards every fragment to it. While unbound, parsing is a
//! no-op and the fragment is permanently lost.

use vstd::prelude::*;

use crate::cjlexer;
use crate::cjparser::cj_components;
use crate::cjparser::CJParser;
use crate::classifier::ProgrammingLanguage;
use crate::knowledge_component::kcs_view;
use crate::knowledge_component::spec_insert_all;
use crate::knowledge_component::spec_time_stamp;
use crate::knowledge_component::KnowledgeComponent;
use crate::pylexer;
use crate::pyparser::py_components;
use crate::pyparser::PyParser;

verus! {

/// The closed sum of the two concrete language parsers.
pub enum LanguageParser {
    CJ(CJParser),
    Py(PyParser),
}

/// The fragments already parsed are reflected in the bound parser's registry;
/// an unbound dispatcher holds nothing.
pub struct ProtoParser {
    pub parser: Option<LanguageParser>,
    pub language: Option<ProgrammingLanguage>,
}

/// The registry of a dispatcher after one fragment was forwarded to it:
/// unchanged when unbound, grown by the fragment's classified tokens when
/// bound.
pub open spec fn parse_post(
    before: ProtoParser,
    after: ProtoParser,
    file: Seq<char>,
    time_code: int,
) -> bool {
    match before.parser {
        None => after.parser is None,
        Some(LanguageParser::CJ(p)) => match after.parser {
            Some(LanguageParser::CJ(q)) => q.source@ == p.source@ && kcs_view(
                q.knowledge_components@,
            ) == spec_insert_all(
                kcs_view(p.knowledge_components@),
                cj_components(
                    cjlexer::spec_lex(file, 0),
                    spec_time_stamp(p.source@, time_code),
                ),
            ),
            _ => false,
        },
        Some(LanguageParser::Py(p)) => match after.parser {
            Some(LanguageParser::Py(q)) => q.source@ == p.source@ && kcs_view(
                q.knowledge_components@,
            ) == spec_insert_all(
                kcs_view(p.knowledge_components@),
                py_components(
                    pylexer::spec_lex(file, 0),
                    spec_time_stamp(p.source@, time_code),
                ),
            ),
            _ => false,
        },
    }
}

impl ProtoParser {
    /// An unbound dispatcher.
    pub fn new() -> (r: Self)
        ensures
            r.parser is None,
            r.language is None,
    {
        ProtoParser { parser: None, language: None }
    }

    /// Binds the concrete parser matching `language`: the combined
    /// C/C++/Java parser for C, C++ and Java, the Python parser for Python.
    /// The new parser starts with an empty registry and builds its timestamp
    /// links from `source`.
    pub fn parse_language(&mut self, source: &str, language: ProgrammingLanguage)
        ensures
            final(self).language == Some(language),
            language != ProgrammingLanguage::Python ==> match final(self).parser {
                Some(LanguageParser::CJ(p)) => p.source@ == source@
                    && p.knowledge_components@ == Seq::<KnowledgeComponent>::empty(),
                _ => false,
            },
            language == ProgrammingLanguage::Python ==> match final(self).parser {
                Some(LanguageParser::Py(p)) => p.source@ == source@
                    && p.knowledge_components@ == Seq::<KnowledgeComponent>::empty(),
                _ => false,
            },
    {
        match language {
            ProgrammingLanguage::C | ProgrammingLanguage::Cpp | ProgrammingLanguage::Java => {
                self.parser = Some(LanguageParser::CJ(CJParser::new(source)));
            },
            ProgrammingLanguage::Python => {
                self.parser = Some(LanguageParser::Py(PyParser::new(source)));
            },
        }
        self.language = Some(language);
    }

    /// Forwards a fragment to the bound parser; a no-op while unbound.
    pub fn parse(&mut self, file: &str, time_code: i32)
        ensures
            final(self).language == old(self).language,
            parse_post(*old(self), *final(self), file@, time_code as int),
    {
        match self.parser.take() {
            None => {
                self.parser = None;
            },
            Some(LanguageParser::CJ(mut p)) => {
                p.parse(file, time_code);
                self.parser = Some(LanguageParser::CJ(p));
            },
            Some(LanguageParser::Py(mut p)) => {
                p.parse(file, time_code);
                self.parser = Some(LanguageParser::Py(p));
            },
        }
    }

    /// A copy of the bound parser's registry. Must not be called while
    /// unbound.
    pub fn get_knowledge_components(&self) -> (r: Vec<KnowledgeComponent>)
        requires
            self.parser is Some,
        ensures
            match self.parser {
                Some(LanguageParser::CJ(p)) => kcs_view(r@) == kcs_view(p.knowledge_components@),
                Some(LanguageParser::Py(p)) => kcs_view(r@) == kcs_view(p.knowledge_components@),
                None => false,
            },
    {
        match &self.parser {
            Some(LanguageParser::CJ(p)) => p.get_knowledge_components(),
            Some(LanguageParser::Py(p)) => p.get_knowledge_components(),
            None => Vec::new(),
        }
    }
}

} // verus!
