use aitiquette::models::{Collection, EnrichError, EnrichmentOutcome, Link};
use aitiquette::pipeline::{BackendReply, EnrichmentPipeline, PipelineStage};
use aitiquette::prompts::MessageRole;

fn link_with_body(id: i64, body: &str) -> Link {
    Link {
        id,
        name: format!("article {}", id),
        url: format!("https://example.org/{}", id),
        text_content: Some(String::from(body)),
        collection: Collection { id: 4, owner_id: 2, name: String::from("tech") },
        tags: Vec::new(),
    }
}

fn content(text: &str) -> BackendReply {
    BackendReply::Content { text: Some(String::from(text)) }
}

#[test]
fn summary_request_carries_name_url_and_raw_text() {
    let link = link_with_body(1, "THE RAW BODY");
    let pipeline = EnrichmentPipeline::new(link);
    let req = pipeline.summary_request("some-model");
    assert_eq!(req.model, "some-model");
    assert_eq!(req.messages.len(), 2);
    assert_eq!(req.messages[0].role, MessageRole::System);
    assert_eq!(req.messages[1].role, MessageRole::User);
    assert_eq!(req.messages[1].content, "article 1\nhttps://example.org/1\nTHE RAW BODY");
}

#[test]
fn absent_text_content_becomes_an_empty_line() {
    let mut link = link_with_body(1, "x");
    link.text_content = None;
    let pipeline = EnrichmentPipeline::new(link);
    let req = pipeline.summary_request("m");
    assert_eq!(req.messages[1].content, "article 1\nhttps://example.org/1\n");
}

#[test]
fn tagging_input_is_the_summary_never_the_raw_text() {
    let link = link_with_body(7, "THE RAW BODY");
    let mut pipeline = EnrichmentPipeline::new(link);
    pipeline.on_summary(content("THE SUMMARY"));
    assert!(matches!(&pipeline.stage, PipelineStage::AwaitingTags { summary } if summary == "THE SUMMARY"));
    let req = pipeline.tag_request("m");
    assert_eq!(req.messages[1].content, "article 7\nhttps://example.org/7\nTHE SUMMARY");
    assert!(!req.messages[1].content.contains("THE RAW BODY"));
}

#[test]
fn full_run_enriches_with_parsed_tags() {
    let link = link_with_body(3, "body");
    let mut pipeline = EnrichmentPipeline::new(link);
    pipeline.on_summary(content("a fine summary"));
    pipeline.on_tags(content("[\"science\",\"space\"]"));
    let result = pipeline.into_result();
    assert_eq!(result.link_id, 3);
    assert!(result.is_success());
    match result.outcome {
        EnrichmentOutcome::Enriched { summary, tags } => {
            assert_eq!(summary, "a fine summary");
            assert_eq!(tags, vec!["science", "space"]);
        }
        EnrichmentOutcome::Failed { .. } => panic!("expected success"),
    }
}

#[test]
fn backend_failure_at_summarization_is_an_llm_error() {
    let mut pipeline = EnrichmentPipeline::new(link_with_body(2, "b"));
    pipeline.on_summary(BackendReply::Failure { detail: String::from("provider down") });
    let result = pipeline.into_result();
    assert_eq!(result.link_id, 2);
    assert_eq!(
        result.outcome,
        EnrichmentOutcome::Failed {
            error: EnrichError::Llm { detail: String::from("provider down") }
        }
    );
}

#[test]
fn empty_content_is_an_empty_response_error() {
    let mut pipeline = EnrichmentPipeline::new(link_with_body(2, "b"));
    pipeline.on_summary(BackendReply::Content { text: None });
    assert_eq!(
        pipeline.into_result().outcome,
        EnrichmentOutcome::Failed { error: EnrichError::EmptyResponse }
    );

    let mut pipeline = EnrichmentPipeline::new(link_with_body(2, "b"));
    pipeline.on_summary(content("s"));
    pipeline.on_tags(BackendReply::Content { text: None });
    assert_eq!(
        pipeline.into_result().outcome,
        EnrichmentOutcome::Failed { error: EnrichError::EmptyResponse }
    );
}

#[test]
fn unparseable_tag_reply_is_a_malformed_tags_error() {
    let mut pipeline = EnrichmentPipeline::new(link_with_body(5, "b"));
    pipeline.on_summary(content("s"));
    pipeline.on_tags(content("not json"));
    assert_eq!(
        pipeline.into_result().outcome,
        EnrichmentOutcome::Failed { error: EnrichError::MalformedTags }
    );
}
