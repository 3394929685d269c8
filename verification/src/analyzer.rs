//! The stream coordinator: the consumer-side state machine that resolves the
//! source language lazily (from the title/URL hint, or from one external
//! model verdict once enough fragment text has accumulated), binds the
//! dispatcher, and feeds it every fragment in stream order. The channel,
//! the producer thread and the external model call live outside the core;
//! the coordinator tells its caller when to invoke the model.

use vstd::prelude::*;
use vstd::string::StrSliceExecFns;

use crate::classifier::spec_classify_hint;
use crate::classifier::spec_classify_label;
use crate::classifier::LanguageClassifier;
use crate::classifier::ProgrammingLanguage;
use crate::knowledge_component::kcs_view;
use crate::knowledge_component::spec_insert_all;
use crate::knowledge_component::spec_time_stamp;
use crate::knowledge_component::KnowledgeComponent;
use crate::knowledge_component::KnowledgeComponentV;
use crate::parser::LanguageParser;
use crate::parser::parse_post;
use crate::parser::ProtoParser;
use crate::cjlexer;
use crate::cjparser::cj_components;
use crate::pylexer;
use crate::pyparser::py_components;

verus! {

/// How many accumulated fragment characters trigger the one-shot model
/// classification.
pub const CLASSIFICATION_THRESHOLD: usize = 8;

/// One message of the producer stream: a text fragment, or the end of the
/// stream.
pub enum Message {
    StreamMessage(String),
    EndMessage,
}

/// What the caller must do after handing a message to the coordinator.
#[derive(Clone, Copy, PartialEq, Eq, Structural, Debug)]
pub enum CoordinatorAction {
    /// The message was consumed; go on with the next one.
    Proceed,
    /// The classification threshold was reached: invoke the external model
    /// on this fragment's text and hand its output to
    /// `apply_model_result` together with the fragment.
    InvokeModel,
    /// The stream ended: take the snapshot.
    Finished,
}

/// The dispatcher is freshly bound to `lang` with an empty registry for
/// `source`.
pub open spec fn bound_fresh(
    pp: ProtoParser,
    lang: ProgrammingLanguage,
    source: Seq<char>,
) -> bool {
    pp.language == Some(lang) && if lang == ProgrammingLanguage::Python {
        match pp.parser {
            Some(LanguageParser::Py(p)) => p.source@ == source && p.knowledge_components@
                =~= Seq::<KnowledgeComponent>::empty(),
            _ => false,
        }
    } else {
        match pp.parser {
            Some(LanguageParser::CJ(p)) => p.source@ == source && p.knowledge_components@
                =~= Seq::<KnowledgeComponent>::empty(),
            _ => false,
        }
    }
}

/// The dispatcher is bound to `lang` and holds exactly the components of one
/// fragment `file` parsed at offset `t` into a fresh registry.
pub open spec fn parsed_fresh(
    pp: ProtoParser,
    lang: ProgrammingLanguage,
    source: Seq<char>,
    file: Seq<char>,
    t: int,
) -> bool {
    pp.language == Some(lang) && if lang == ProgrammingLanguage::Python {
        match pp.parser {
            Some(LanguageParser::Py(p)) => p.source@ == source && kcs_view(
                p.knowledge_components@,
            ) == spec_insert_all(
                Seq::<KnowledgeComponentV>::empty(),
                py_components(pylexer::spec_lex(file, 0), spec_time_stamp(source, t)),
            ),
            _ => false,
        }
    } else {
        match pp.parser {
            Some(LanguageParser::CJ(p)) => p.source@ == source && kcs_view(
                p.knowledge_components@,
            ) == spec_insert_all(
                Seq::<KnowledgeComponentV>::empty(),
                cj_components(cjlexer::spec_lex(file, 0), spec_time_stamp(source, t)),
            ),
            _ => false,
        }
    }
}

/// The model verdict carried by an optional output label: `None` for a
/// failed call, an unknown label, or no label.
pub open spec fn model_verdict(label: Option<&str>) -> Option<ProgrammingLanguage> {
    match label {
        Some(l) => spec_classify_label(l@),
        None => None,
    }
}

/// The consumer-side state machine. It owns the dispatcher exclusively;
/// fragments received while the dispatcher is unbound contribute nothing and
/// are not retried.
pub struct StreamCoordinator {
    /// The dispatcher, bound once the language is resolved.
    pub parser: ProtoParser,
    /// The source URL: the classification hint and the base of every
    /// timestamp link.
    pub source: String,
    /// The running character tally of the classification buffer.
    pub accumulated: usize,
    /// The one-shot flag: still armed to attempt the model classification.
    pub classify: bool,
}

impl StreamCoordinator {
    /// Starts an analysis for `url`: when the hint resolves the language the
    /// dispatcher is bound immediately and the model is never consulted;
    /// otherwise the coordinator starts accumulating.
    pub fn new(url: &str) -> (r: Self)
        ensures
            r.source@ == url@,
            r.accumulated == 0,
            match spec_classify_hint(url@) {
                Some(lang) => !r.classify && bound_fresh(r.parser, lang, url@),
                None => r.classify && r.parser.parser is None && r.parser.language is None,
            },
    {
        let mut parser = ProtoParser::new();
        let classify: bool = match LanguageClassifier::classify(url) {
            Some(lang) => {
                parser.parse_language(url, lang);
                false
            },
            None => true,
        };
        StreamCoordinator { parser, source: url.to_owned(), accumulated: 0, classify }
    }

    /// Consumes one stream message. A fragment that crosses the
    /// classification threshold while the coordinator is armed is not parsed
    /// yet: the caller is told to invoke the model and hand back its output
    /// through `apply_model_result`. Every other fragment is forwarded to
    /// the dispatcher (a no-op while unbound); `EndMessage` ends the run.
    pub fn handle_message(&mut self, msg: &Message, time_code: i32) -> (r: CoordinatorAction)
        ensures
            final(self).source@ == old(self).source@,
            final(self).classify == old(self).classify,
            match msg {
                Message::EndMessage => r == CoordinatorAction::Finished && *final(self) == *old(
                    self,
                ),
                Message::StreamMessage(text) => {
                    if old(self).classify {
                        let acc = old(self).accumulated.saturating_add(text@.len() as usize);
                        final(self).accumulated == acc && if acc >= CLASSIFICATION_THRESHOLD {
                            r == CoordinatorAction::InvokeModel && final(self).parser == old(
                                self,
                            ).parser
                        } else {
                            r == CoordinatorAction::Proceed && final(self).parser.language == old(
                                self,
                            ).parser.language && parse_post(
                                old(self).parser,
                                final(self).parser,
                                text@,
                                time_code as int,
                            )
                        }
                    } else {
                        final(self).accumulated == old(self).accumulated && r
                            == CoordinatorAction::Proceed && final(self).parser.language == old(
                            self,
                        ).parser.language && parse_post(
                            old(self).parser,
                            final(self).parser,
                            text@,
                            time_code as int,
                        )
                    }
                },
            },
    {
        match msg {
            Message::EndMessage => CoordinatorAction::Finished,
            Message::StreamMessage(text) => {
                if self.classify {
                    let cnt = text.as_str().unicode_len();
                    self.accumulated = self.accumulated.saturating_add(cnt);
                    if self.accumulated >= CLASSIFICATION_THRESHOLD {
                        return CoordinatorAction::InvokeModel;
                    }
                }
                self.parser.parse(text.as_str(), time_code);
                CoordinatorAction::Proceed
            },
        }
    }

    /// Applies the external model's output for the fragment that crossed the
    /// threshold: disarms the one-shot flag whatever the outcome, binds the
    /// dispatcher when the label resolves a language, and then forwards the
    /// triggering fragment (still a no-op if the dispatcher stayed unbound).
    /// The model is never consulted again.
    pub fn apply_model_result(&mut self, label: Option<&str>, text: &str, time_code: i32)
        requires
            old(self).classify,
        ensures
            final(self).source@ == old(self).source@,
            final(self).accumulated == old(self).accumulated,
            !final(self).classify,
            match model_verdict(label) {
                Some(lang) => parsed_fresh(
                    final(self).parser,
                    lang,
                    old(self).source@,
                    text@,
                    time_code as int,
                ),
                None => final(self).parser.language == old(self).parser.language && parse_post(
                    old(self).parser,
                    final(self).parser,
                    text@,
                    time_code as int,
                ),
            },
    {
        self.classify = false;
        match label {
            Some(lbl) => match LanguageClassifier::classify_ml(lbl) {
                Some(lang) => {
                    self.parser.parse_language(self.source.as_str(), lang);
                },
                None => {},
            },
            None => {},
        }
        self.parser.parse(text, time_code);
        proof {
            assert(kcs_view(Seq::<KnowledgeComponent>::empty()) =~= Seq::<
                KnowledgeComponentV,
            >::empty());
        }
    }

    /// A copy of the registry collected so far: empty while the dispatcher
    /// is unbound.
    pub fn get_knowledge_components(&self) -> (r: Vec<KnowledgeComponent>)
        ensures
            match self.parser.parser {
                None => r@ == Seq::<KnowledgeComponent>::empty(),
                Some(LanguageParser::CJ(p)) => kcs_view(r@) == kcs_view(p.knowledge_components@),
                Some(LanguageParser::Py(p)) => kcs_view(r@) == kcs_view(p.knowledge_components@),
            },
    {
        match &self.parser.parser {
            None => Vec::new(),
            Some(_) => self.parser.get_knowledge_components(),
        }
    }

    /// The resolved language, if any.
    pub fn language(&self) -> (r: Option<ProgrammingLanguage>)
        ensures
            r == self.parser.language,
    {
        self.parser.language
    }
}

} // verus!
