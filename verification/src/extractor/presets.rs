//! Predefined extraction rule sets for common use cases.

use crate::extractor::ExtractionRuleBuilder;
use crate::types::{ExtractionRule, ExtractionType, RuleModel};
use vstd::prelude::*;

verus! {

/// A rule for text.
pub open spec fn text_rule(name: Seq<char>, selector: Seq<char>, multiple: bool) -> RuleModel {
    RuleModel { name, selector, extraction_type: ExtractionType::Text, multiple, attribute: None }
}

/// A rule for the value of an attribute.
pub open spec fn attribute_rule(
    name: Seq<char>,
    selector: Seq<char>,
    attribute: Seq<char>,
    multiple: bool,
) -> RuleModel {
    RuleModel {
        name,
        selector,
        extraction_type: ExtractionType::Attribute,
        multiple,
        attribute: Some(attribute),
    }
}

/// What each rule of a list says.
pub open spec fn models(rules: Seq<ExtractionRule>) -> Seq<RuleModel> {
    Seq::new(rules.len(), |i: int| rules[i]@)
}

/// The rules for basic article extraction.
pub open spec fn article_rules() -> Seq<RuleModel> {
    seq![
        text_rule("title"@, "h1, .title, .headline"@, false),
        text_rule("author"@, ".author, [rel='author'], .byline"@, false),
        attribute_rule(
            "publish_date"@,
            ".date, .published, time[datetime], .timestamp"@,
            "datetime"@,
            false,
        ),
        text_rule("content"@, ".content, .article-body, .post-content, main"@, true),
        text_rule("summary"@, ".summary, .excerpt, .description"@, false),
    ]
}

/// The rules for product extraction.
pub open spec fn product_rules() -> Seq<RuleModel> {
    seq![
        text_rule("product_name"@, ".product-title, .product-name, h1"@, false),
        text_rule("price"@, ".price, .product-price, [itemprop='price']"@, false),
        text_rule(
            "description"@,
            ".product-description, .description, [itemprop='description']"@,
            false,
        ),
        attribute_rule("image"@, ".product-image img, [itemprop='image']"@, "src"@, true),
        attribute_rule(
            "availability"@,
            ".availability, .stock, [itemprop='availability']"@,
            "content"@,
            false,
        ),
    ]
}

/// The rules for social media extraction.
pub open spec fn social_media_rules() -> Seq<RuleModel> {
    seq![
        text_rule("post_text"@, ".post-content, .tweet-text, .message"@, false),
        text_rule("author"@, ".author, .username, .user-name"@, false),
        attribute_rule("timestamp"@, ".timestamp, .time, time"@, "datetime"@, false),
        text_rule("likes"@, ".likes, .like-count, [aria-label*='like']"@, false),
        text_rule("comments"@, ".comments, .comment-count, [aria-label*='comment']"@, false),
    ]
}

/// Builds a rule for text.
fn text(name: &str, selector: &str, multiple: bool) -> (rule: ExtractionRule)
    ensures
        rule@ == text_rule(name@, selector@, multiple),
{
    ExtractionRuleBuilder::new(name, selector).extraction_type(ExtractionType::Text).multiple(
        multiple,
    ).build()
}

/// Builds a rule for the value of an attribute.
fn attribute(name: &str, selector: &str, wanted: &str, multiple: bool) -> (rule: ExtractionRule)
    ensures
        rule@ == attribute_rule(name@, selector@, wanted@, multiple),
{
    ExtractionRuleBuilder::new(name, selector).extraction_type(
        ExtractionType::Attribute,
    ).attribute(wanted).multiple(multiple).build()
}

/// Create rules for basic article extraction.
pub fn article() -> (rules: Vec<ExtractionRule>)
    ensures
        models(rules@) == article_rules(),
{
    let mut rules: Vec<ExtractionRule> = Vec::new();
    rules.push(text("title", "h1, .title, .headline", false));
    rules.push(text("author", ".author, [rel='author'], .byline", false));
    rules.push(
        attribute(
            "publish_date",
            ".date, .published, time[datetime], .timestamp",
            "datetime",
            false,
        ),
    );
    rules.push(text("content", ".content, .article-body, .post-content, main", true));
    rules.push(text("summary", ".summary, .excerpt, .description", false));
    assert(models(rules@) =~= article_rules());
    rules
}

/// Create rules for product extraction.
pub fn product() -> (rules: Vec<ExtractionRule>)
    ensures
        models(rules@) == product_rules(),
{
    let mut rules: Vec<ExtractionRule> = Vec::new();
    rules.push(text("product_name", ".product-title, .product-name, h1", false));
    rules.push(text("price", ".price, .product-price, [itemprop='price']", false));
    rules.push(
        text(
            "description",
            ".product-description, .description, [itemprop='description']",
            false,
        ),
    );
    rules.push(attribute("image", ".product-image img, [itemprop='image']", "src", true));
    rules.push(
        attribute(
            "availability",
            ".availability, .stock, [itemprop='availability']",
            "content",
            false,
        ),
    );
    assert(models(rules@) =~= product_rules());
    rules
}

/// Create rules for social media extraction.
pub fn social_media() -> (rules: Vec<ExtractionRule>)
    ensures
        models(rules@) == social_media_rules(),
{
    let mut rules: Vec<ExtractionRule> = Vec::new();
    rules.push(text("post_text", ".post-content, .tweet-text, .message", false));
    rules.push(text("author", ".author, .username, .user-name", false));
    rules.push(attribute("timestamp", ".timestamp, .time, time", "datetime", false));
    rules.push(text("likes", ".likes, .like-count, [aria-label*='like']", false));
    rules.push(text("comments", ".comments, .comment-count, [aria-label*='comment']", false));
    assert(models(rules@) =~= social_media_rules());
    rules
}

} // verus!
