//! The two-stage enrichment state machine run once per link: summarize,
//! then tag using the summary.
//!
//! The machine owns the ordering invariant of one link's enrichment: the
//! tagging request is never built before a summarization reply with content
//! has arrived, and it consumes exactly that reply's content. The
//! unverified driver sends each request this machine hands out and feeds
//! the backend's reply back in.

use vstd::prelude::*;

use crate::models::{EnrichError, EnrichmentOutcome, EnrichmentResult, Link};
use crate::prompts::{
    build_summary, build_tagging, for_link, for_link_with_summary, spec_summary_input,
    spec_tag_input, summary_instruction, tagging_instruction, ChatMessage, ChatRequest,
};
use crate::tags::{parse_tags, spec_parse_tags};

verus! {

/// What one backend call came back with: a transport or provider failure,
/// or a response whose first choice carried the given content (`None` when
/// the response held no usable content).
#[derive(Clone, Debug, PartialEq, Eq)]
pub enum BackendReply {
    Failure { detail: String },
    Content { text: Option<String> },
}

/// Where one link's enrichment stands.
#[derive(Clone, Debug, PartialEq, Eq)]
pub enum PipelineStage {
    /// No summarization reply has arrived yet.
    AwaitingSummary,
    /// Summarization succeeded with exactly this summary; the tagging
    /// reply is outstanding.
    AwaitingTags { summary: String },
    /// Both stages are over, one way or the other.
    Complete { outcome: EnrichmentOutcome },
}

/// The stage a summarization reply moves the machine to: failures and
/// empty responses end the run, content opens the tagging stage carrying
/// exactly that content.
pub open spec fn summary_transition(reply: BackendReply) -> PipelineStage {
    match reply {
        BackendReply::Failure { detail } => PipelineStage::Complete {
            outcome: EnrichmentOutcome::Failed { error: EnrichError::Llm { detail } },
        },
        BackendReply::Content { text: None } => PipelineStage::Complete {
            outcome: EnrichmentOutcome::Failed { error: EnrichError::EmptyResponse },
        },
        BackendReply::Content { text: Some(summary) } => PipelineStage::AwaitingTags { summary },
    }
}

/// The enrichment pipeline of a single link.
pub struct EnrichmentPipeline {
    pub link: Link,
    pub stage: PipelineStage,
}

impl EnrichmentPipeline {
    /// A fresh pipeline for `link`, with everything still to do.
    pub fn new(link: Link) -> (p: EnrichmentPipeline)
        ensures
            p.link == link,
            p.stage is AwaitingSummary,
    {
        EnrichmentPipeline { link, stage: PipelineStage::AwaitingSummary }
    }

    /// The summarization request: the fixed condensing instruction plus a
    /// user message holding the link's name, url and raw text content.
    pub fn summary_request(&self, model: &str) -> (req: ChatRequest)
        requires
            self.stage is AwaitingSummary,
        ensures
            req.model@ == model@,
            req.messages@.len() == 2,
            req.messages@[0].role is System,
            req.messages@[0].content@ == summary_instruction(),
            req.messages@[1].role is User,
            req.messages@[1].content@ == spec_summary_input(self.link),
    {
        let messages = vec![build_summary(), for_link(&self.link)];
        ChatRequest { model: model.to_owned(), messages }
    }

    /// Consume the summarization reply.
    pub fn on_summary(&mut self, reply: BackendReply)
        requires
            old(self).stage is AwaitingSummary,
        ensures
            final(self).link == old(self).link,
            final(self).stage == summary_transition(reply),
    {
        match reply {
            BackendReply::Failure { detail } => {
                self.stage = PipelineStage::Complete {
                    outcome: EnrichmentOutcome::Failed { error: EnrichError::Llm { detail } },
                };
            },
            BackendReply::Content { text: None } => {
                self.stage = PipelineStage::Complete {
                    outcome: EnrichmentOutcome::Failed { error: EnrichError::EmptyResponse },
                };
            },
            BackendReply::Content { text: Some(summary) } => {
                self.stage = PipelineStage::AwaitingTags { summary };
            },
        }
    }

    /// The tagging request: the fixed tagging instruction plus a user
    /// message holding the link's name, url and the summary the previous
    /// stage returned — never the link's raw text content.
    pub fn tag_request(&self, model: &str) -> (req: ChatRequest)
        requires
            self.stage is AwaitingTags,
        ensures
            req.model@ == model@,
            req.messages@.len() == 2,
            req.messages@[0].role is System,
            req.messages@[0].content@ == tagging_instruction(),
            req.messages@[1].role is User,
            req.messages@[1].content@ == spec_tag_input(self.link, self.stage->summary@),
    {
        let summary = match &self.stage {
            PipelineStage::AwaitingTags { summary } => summary.clone(),
            _ => unreached(),
        };
        let messages = vec![build_tagging(), for_link_with_summary(&self.link, summary)];
        ChatRequest { model: model.to_owned(), messages }
    }

    /// Consume the tagging reply. Content is parsed strictly as a JSON
    /// array of strings; a malformed reply is surfaced as an error, never
    /// coerced to an empty tag set.
    pub fn on_tags(&mut self, reply: BackendReply)
        requires
            old(self).stage is AwaitingTags,
        ensures
            final(self).link == old(self).link,
            final(self).stage is Complete,
            reply matches BackendReply::Failure { detail } ==> final(self).stage->outcome
                == (EnrichmentOutcome::Failed { error: EnrichError::Llm { detail } }),
            reply matches BackendReply::Content { text: None } ==> final(self).stage->outcome
                == (EnrichmentOutcome::Failed { error: EnrichError::EmptyResponse }),
            reply matches BackendReply::Content { text: Some(text) } ==> (match spec_parse_tags(
                text@,
            ) {
                Some(ts) => final(self).stage->outcome matches EnrichmentOutcome::Enriched {
                    summary,
                    tags,
                } && summary == old(self).stage->summary && tags.deep_view() == ts,
                None => final(self).stage->outcome == (EnrichmentOutcome::Failed {
                    error: EnrichError::MalformedTags,
                }),
            }),
    {
        let summary = match &self.stage {
            PipelineStage::AwaitingTags { summary } => summary.clone(),
            _ => unreached(),
        };
        match reply {
            BackendReply::Failure { detail } => {
                self.stage = PipelineStage::Complete {
                    outcome: EnrichmentOutcome::Failed { error: EnrichError::Llm { detail } },
                };
            },
            BackendReply::Content { text: None } => {
                self.stage = PipelineStage::Complete {
                    outcome: EnrichmentOutcome::Failed { error: EnrichError::EmptyResponse },
                };
            },
            BackendReply::Content { text: Some(text) } => {
                match parse_tags(text.as_str()) {
                    Some(tags) => {
                        self.stage = PipelineStage::Complete {
                            outcome: EnrichmentOutcome::Enriched { summary, tags },
                        };
                    },
                    None => {
                        self.stage = PipelineStage::Complete {
                            outcome: EnrichmentOutcome::Failed {
                                error: EnrichError::MalformedTags,
                            },
                        };
                    },
                }
            },
        }
    }

    /// The record to aggregate for this link once both stages are over.
    pub fn into_result(self) -> (r: EnrichmentResult)
        requires
            self.stage is Complete,
        ensures
            r.link_id == self.link.id,
            r.outcome == self.stage->outcome,
    {
        match self.stage {
            PipelineStage::Complete { outcome } => EnrichmentResult { link_id: self.link.id, outcome },
            _ => unreached(),
        }
    }
}

/// Ordering law of one link's enrichment: a summarization reply carrying
/// `summary` moves the pipeline to the tagging stage holding exactly that
/// text, and the tagging request's user input then embeds exactly that
/// text after the link's name and url — the link's raw text content plays
/// no part in it.
pub proof fn lemma_tagging_consumes_summary(link: Link, summary: String)
    ensures
        summary_transition(BackendReply::Content { text: Some(summary) })
            == (PipelineStage::AwaitingTags { summary }),
        spec_tag_input(link, summary@).skip(
            link.name@.len() + link.url@.len() + 2 as int,
        ) == summary@,
{
    reveal_strlit("\n");
    assert(spec_tag_input(link, summary@).skip(link.name@.len() + link.url@.len() + 2 as int)
        =~= summary@);
}

/// The tagging input is a function of the link's name, url and the summary
/// alone: two links differing only in their raw text content (or any other
/// field) yield the same tagging input.
pub proof fn lemma_tag_input_ignores_text_content(l1: Link, l2: Link, summary: Seq<char>)
    requires
        l1.name@ == l2.name@,
        l1.url@ == l2.url@,
    ensures
        spec_tag_input(l1, summary) == spec_tag_input(l2, summary),
{
}

} // verus!
