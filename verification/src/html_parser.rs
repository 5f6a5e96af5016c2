//! HTML parsing with CSS selector support.
//!
//! The markup tokenizer and the selector matcher are the `scraper` crate's.
//! This module states what it relies on from them and builds the queries of
//! the library on top: text, attribute and markup extraction, page
//! metadata, forms.

use crate::error::FerrisFetcherError;
use crate::text::{chars_of, collapse_whitespace, collapsed, concat3, concat4, trim, trimmed};
use crate::types::optional_text;
use scraper::{ElementRef, Html};
use vstd::prelude::*;

verus! {

/// A parsed document of the `scraper` crate, opaque to the verifier.
#[verifier::external_type_specification]
#[verifier::external_body]
pub struct ExHtml(Html);

/// A reference to one element of a parsed document, opaque to the verifier.
#[verifier::external_type_specification]
#[verifier::external_body]
pub struct ExElementRef<'a>(ElementRef<'a>);

/// The document that the parser builds from a piece of markup.
pub uninterp spec fn parsed_document(markup: Seq<char>) -> Html;

/// What the selector parser says of a pattern: `None` when the pattern is a
/// valid selector group, otherwise the text of the parser's complaint.
pub uninterp spec fn selector_error(pattern: Seq<char>) -> Option<Seq<char>>;

/// The elements of a document that match a pattern which the selector
/// parser accepts, in the order in which the document yields them.
pub uninterp spec fn matching_elements(document: Html, pattern: Seq<char>) -> Seq<
    ElementRef<'static>,
>;

/// The text nodes below an element, concatenated in the order in which
/// the element yields them.
pub uninterp spec fn element_text(element: ElementRef<'static>) -> Seq<char>;

/// The serialized markup of an element, its own tag included.
pub uninterp spec fn element_markup(element: ElementRef<'static>) -> Seq<char>;

/// The value of an element's attribute, if the element carries it.
pub uninterp spec fn element_attribute(element: ElementRef<'static>, name: Seq<char>) -> Option<
    Seq<char>,
>;

/// Whether a text is a well-formed JSON document.
pub uninterp spec fn is_json_document(text: Seq<char>) -> bool;

/// `Clone` of `scraper::Html`, which the crate derives: the copy is a
/// document equal to the one copied.
pub assume_specification[ <scraper::Html as Clone>::clone ](document: &scraper::Html) -> (copy:
    scraper::Html)
    ensures
        copy == *document,
;

/// Calls `scraper::Html::parse_document`. Parsing never fails: malformed
/// markup is repaired as browsers do. The result depends on the markup
/// alone.
#[verifier::external_body]
fn parse_markup(markup: &str) -> (document: Html)
    ensures
        document == parsed_document(markup@),
{
    Html::parse_document(markup)
}

/// Calls `scraper::Selector::parse` on the pattern and, when it parses,
/// `scraper::Html::select` with the selector. The elements come in the order
/// in which `select` yields them; a pattern that does not parse gives the
/// parser's error as text.
#[verifier::external_body]
fn select_all<'a>(document: &'a Html, pattern: &str) -> (r: Result<Vec<ElementRef<'a>>, String>)
    ensures
        match r {
            Ok(elements) => selector_error(pattern@) is None && elements@ == matching_elements(
                *document,
                pattern@,
            ),
            Err(message) => selector_error(pattern@) == Some(message@),
        },
{
    match scraper::Selector::parse(pattern) {
        Ok(selector) => Ok(document.select(&selector).collect()),
        Err(e) => Err(e.to_string()),
    }
}

/// Calls `scraper::ElementRef::text` and joins the pieces it yields.
#[verifier::external_body]
fn text_of(element: &ElementRef<'_>) -> (r: String)
    ensures
        r@ == element_text(*element),
{
    element.text().collect()
}

/// Calls `scraper::ElementRef::html`.
#[verifier::external_body]
fn markup_of(element: &ElementRef<'_>) -> (r: String)
    ensures
        r@ == element_markup(*element),
{
    element.html()
}

/// Calls `scraper::node::Element::attr` on the element's node.
#[verifier::external_body]
fn attribute_of(element: &ElementRef<'_>, name: &str) -> (r: Option<String>)
    ensures
        optional_text(r) == element_attribute(*element, name@),
{
    element.value().attr(name).map(|value| value.to_string())
}

/// Calls `serde_json::from_str` for a `serde_json::Value` and reports
/// whether it succeeded.
#[verifier::external_body]
fn parses_as_json(text: &str) -> (r: bool)
    ensures
        r == is_json_document(text@),
{
    serde_json::from_str::<serde_json::Value>(text).is_ok()
}

/// How far a left-to-right reading of a pattern has got.
pub ghost struct Reading {
    /// How many brackets are open.
    pub open_brackets: nat,
    /// The quotation mark that opened the string being read, if any.
    pub quote: Option<char>,
    /// Whether the next character is escaped by a backslash.
    pub escaped: bool,
    /// Whether a comment is being read.
    pub comment: bool,
    /// Whether the last character was a slash that may open a comment.
    pub slash: bool,
    /// Whether the last character was a star that may close the comment.
    pub star: bool,
}

/// The reading after one more character. A comment runs from `/*` to the
/// next `*/` and nothing in it counts; in a quoted string only the closing
/// mark and the backslash count; a backslash outside a comment takes the
/// next character out of play.
pub open spec fn read_char(before: Reading, c: char) -> Reading {
    if before.comment {
        if before.star && c == '/' {
            Reading { comment: false, star: false, ..before }
        } else {
            Reading { star: c == '*', ..before }
        }
    } else if before.escaped {
        Reading { escaped: false, slash: false, ..before }
    } else if c == '\\' {
        Reading { escaped: true, slash: false, ..before }
    } else {
        match before.quote {
            Some(q) => if c == q {
                Reading { quote: None, ..before }
            } else {
                before
            },
            None => if before.slash && c == '*' {
                Reading { comment: true, slash: false, star: false, ..before }
            } else if c == '"' || c == '\'' {
                Reading { quote: Some(c), slash: false, ..before }
            } else if c == '[' || c == '(' {
                Reading { open_brackets: before.open_brackets + 1, slash: false, ..before }
            } else if (c == ']' || c == ')') && before.open_brackets > 0 {
                Reading {
                    open_brackets: (before.open_brackets - 1) as nat,
                    slash: false,
                    ..before
                }
            } else {
                Reading { slash: c == '/', ..before }
            },
        }
    }
}

/// The reading at the end of a pattern.
pub open spec fn reading_of(pattern: Seq<char>) -> Reading
    decreases pattern.len(),
{
    if pattern.len() == 0 {
        Reading {
            open_brackets: 0,
            quote: None,
            escaped: false,
            comment: false,
            slash: false,
            star: false,
        }
    } else {
        read_char(reading_of(pattern.drop_last()), pattern.last())
    }
}

/// Whether a pattern ends inside a bracket or a quoted string, comments
/// apart. Such a pattern is rejected without asking the selector parser,
/// which would close what was left open.
pub open spec fn left_open(pattern: Seq<char>) -> bool {
    reading_of(pattern).open_brackets > 0 || reading_of(pattern).quote is Some
}

/// The complaint about a pattern that is left open.
pub open spec fn left_open_complaint() -> Seq<char> {
    "Unclosed bracket or string"@
}

/// What is wrong with a pattern, if anything: it is left open, or the
/// selector parser rejects it.
pub open spec fn pattern_complaint(pattern: Seq<char>) -> Option<Seq<char>> {
    if left_open(pattern) {
        Some(left_open_complaint())
    } else {
        selector_error(pattern)
    }
}

/// Whether a pattern ends inside a bracket or a quoted string.
pub fn is_left_open(pattern: &str) -> (b: bool)
    ensures
        b == left_open(pattern@),
{
    let chars = chars_of(pattern);
    let mut open_brackets: usize = 0;
    let mut quote: Option<char> = None;
    let mut escaped = false;
    let mut comment = false;
    let mut slash = false;
    let mut star = false;
    let mut i: usize = 0;
    assert(chars@.take(0) =~= Seq::<char>::empty());
    while i < chars.len()
        invariant
            i <= chars.len(),
            open_brackets <= i,
            reading_of(chars@.take(i as int)) == (Reading {
                open_brackets: open_brackets as nat,
                quote,
                escaped,
                comment,
                slash,
                star,
            }),
        decreases chars.len() - i,
    {
        let c = chars[i];
        proof {
            assert(chars@.take(i + 1).drop_last() =~= chars@.take(i as int));
            assert(chars@.take(i + 1).last() == c);
        }
        if comment {
            if star && c == '/' {
                comment = false;
                star = false;
            } else {
                star = c == '*';
            }
        } else if escaped {
            escaped = false;
            slash = false;
        } else if c == '\\' {
            escaped = true;
            slash = false;
        } else {
            match quote {
                Some(q) => {
                    if c == q {
                        quote = None;
                    }
                },
                None => {
                    if slash && c == '*' {
                        comment = true;
                        slash = false;
                        star = false;
                    } else if c == '"' || c == '\'' {
                        quote = Some(c);
                        slash = false;
                    } else if c == '[' || c == '(' {
                        open_brackets = open_brackets + 1;
                        slash = false;
                    } else if (c == ']' || c == ')') && open_brackets > 0 {
                        open_brackets = open_brackets - 1;
                        slash = false;
                    } else {
                        slash = c == '/';
                    }
                },
            }
        }
        i += 1;
    }
    assert(chars@.take(chars.len() as int) =~= chars@);
    open_brackets > 0 || quote.is_some()
}

/// A raw text as it is reported: trimmed, and dropped when nothing is
/// left.
pub open spec fn kept_text(raw: Seq<char>) -> Option<Seq<char>> {
    if trimmed(raw).len() > 0 {
        Some(trimmed(raw))
    } else {
        None
    }
}

/// The raw texts that are reported, each trimmed, in order.
pub open spec fn kept_texts(raw: Seq<Seq<char>>) -> Seq<Seq<char>>
    decreases raw.len(),
{
    if raw.len() == 0 {
        Seq::empty()
    } else {
        let earlier = kept_texts(raw.drop_last());
        match kept_text(raw.last()) {
            Some(text) => earlier.push(text),
            None => earlier,
        }
    }
}

/// The values that are present, in order.
pub open spec fn present_values(values: Seq<Option<Seq<char>>>) -> Seq<Seq<char>>
    decreases values.len(),
{
    if values.len() == 0 {
        Seq::empty()
    } else {
        let earlier = present_values(values.drop_last());
        match values.last() {
            Some(value) => earlier.push(value),
            None => earlier,
        }
    }
}

/// The characters of each of a list of optional strings.
pub open spec fn optional_texts(values: Seq<Option<String>>) -> Seq<Option<Seq<char>>> {
    Seq::new(values.len(), |i: int| optional_text(values[i]))
}

/// The trimmed, non-empty texts of `elements`, in order.
pub open spec fn texts_of(elements: Seq<ElementRef<'static>>) -> Seq<Seq<char>> {
    kept_texts(Seq::new(elements.len(), |i: int| element_text(elements[i])))
}

/// The values of attribute `name` on those of `elements` that carry it, in
/// order.
pub open spec fn attributes_of(elements: Seq<ElementRef<'static>>, name: Seq<char>) -> Seq<
    Seq<char>,
> {
    present_values(Seq::new(elements.len(), |i: int| element_attribute(elements[i], name)))
}

/// Trims a raw text and drops it when nothing is left.
pub fn keep_text(raw: &str) -> (r: Option<String>)
    ensures
        optional_text(r) == kept_text(raw@),
{
    let text = trim(raw);
    if text.as_str().is_empty() {
        None
    } else {
        Some(text)
    }
}

/// Trims every raw text and drops those of which nothing is left.
pub fn keep_texts(raw: &Vec<String>) -> (r: Vec<String>)
    ensures
        r.deep_view() == kept_texts(raw.deep_view()),
{
    let mut texts: Vec<String> = Vec::new();
    let mut i: usize = 0;
    assert(raw.deep_view().take(0) =~= Seq::<Seq<char>>::empty());
    assert(texts.deep_view() =~= Seq::<Seq<char>>::empty());
    while i < raw.len()
        invariant
            i <= raw.len(),
            texts.deep_view() == kept_texts(raw.deep_view().take(i as int)),
        decreases raw.len() - i,
    {
        let ghost before = texts.deep_view();
        proof {
            assert(raw.deep_view().take(i + 1).drop_last() =~= raw.deep_view().take(i as int));
            assert(raw.deep_view().take(i + 1).last() == raw[i as int]@);
        }
        if let Some(text) = keep_text(raw[i].as_str()) {
            texts.push(text);
            assert(texts.deep_view() =~= before.push(text@));
        }
        i += 1;
    }
    assert(raw.deep_view().take(raw.len() as int) =~= raw.deep_view());
    texts
}

/// Keeps the values that are present.
pub fn keep_present(values: Vec<Option<String>>) -> (r: Vec<String>)
    ensures
        r.deep_view() == present_values(optional_texts(values@)),
{
    let ghost all = optional_texts(values@);
    let mut present: Vec<String> = Vec::new();
    let mut i: usize = 0;
    assert(all.take(0) =~= Seq::<Option<Seq<char>>>::empty());
    assert(present.deep_view() =~= Seq::<Seq<char>>::empty());
    while i < values.len()
        invariant
            i <= values.len(),
            all == optional_texts(values@),
            present.deep_view() == present_values(all.take(i as int)),
        decreases values.len() - i,
    {
        let ghost before = present.deep_view();
        proof {
            assert(all.take(i + 1).drop_last() =~= all.take(i as int));
            assert(all.take(i + 1).last() == optional_text(values[i as int]));
        }
        if let Some(value) = &values[i] {
            present.push(value.clone());
            assert(present.deep_view() =~= before.push(value@));
        }
        i += 1;
    }
    assert(all.take(values.len() as int) =~= all);
    present
}

/// The markup of each of `elements`, in order.
pub open spec fn markups_of(elements: Seq<ElementRef<'static>>) -> Seq<Seq<char>> {
    Seq::new(elements.len(), |i: int| element_markup(elements[i]))
}

/// Those of the texts that are JSON documents, in order.
pub open spec fn json_documents(raw: Seq<Seq<char>>) -> Seq<Seq<char>>
    decreases raw.len(),
{
    if raw.len() == 0 {
        Seq::empty()
    } else {
        let earlier = json_documents(raw.drop_last());
        if is_json_document(raw.last()) {
            earlier.push(raw.last())
        } else {
            earlier
        }
    }
}

/// Those texts of `elements` that are JSON documents, in order.
pub open spec fn json_texts_of(elements: Seq<ElementRef<'static>>) -> Seq<Seq<char>> {
    json_documents(Seq::new(elements.len(), |i: int| element_text(elements[i])))
}

/// Keeps the texts that are JSON documents.
pub fn keep_json_documents(raw: Vec<String>) -> (r: Vec<String>)
    ensures
        r.deep_view() == json_documents(raw.deep_view()),
{
    let mut documents: Vec<String> = Vec::new();
    let mut i: usize = 0;
    assert(raw.deep_view().take(0) =~= Seq::<Seq<char>>::empty());
    assert(documents.deep_view() =~= Seq::<Seq<char>>::empty());
    while i < raw.len()
        invariant
            i <= raw.len(),
            documents.deep_view() == json_documents(raw.deep_view().take(i as int)),
        decreases raw.len() - i,
    {
        let ghost before = documents.deep_view();
        proof {
            assert(raw.deep_view().take(i + 1).drop_last() =~= raw.deep_view().take(i as int));
            assert(raw.deep_view().take(i + 1).last() == raw[i as int]@);
        }
        if parses_as_json(raw[i].as_str()) {
            documents.push(raw[i].clone());
            assert(documents.deep_view() =~= before.push(raw[i as int]@));
        }
        i += 1;
    }
    assert(raw.deep_view().take(raw.len() as int) =~= raw.deep_view());
    documents
}

/// The message reported for a pattern that is no selector.
pub open spec fn invalid_selector_message(pattern: Seq<char>, complaint: Seq<char>) -> Seq<char> {
    "Invalid CSS selector '"@ + pattern + "': "@ + complaint
}

/// Whether `e` is the error owed for a pattern that is no selector: a parse
/// error that quotes the pattern and the parser's complaint.
pub open spec fn reports_invalid_selector(e: FerrisFetcherError, pattern: Seq<char>) -> bool {
    &&& pattern_complaint(pattern) is Some
    &&& e is ParseError
    &&& e->ParseError_0@ == invalid_selector_message(pattern, pattern_complaint(pattern)->Some_0)
}

/// Input field information.
#[derive(Debug, Clone)]
pub struct InputInfo {
    pub name: String,
    pub input_type: String,
    pub value: Option<String>,
    pub required: bool,
}

/// What is known of an input field, as plain mathematical values.
pub ghost struct InputModel {
    pub name: Seq<char>,
    pub input_type: Seq<char>,
    pub value: Option<Seq<char>>,
    pub required: bool,
}

impl View for InputInfo {
    type V = InputModel;

    open spec fn view(&self) -> InputModel {
        InputModel {
            name: self.name@,
            input_type: self.input_type@,
            value: optional_text(self.value),
            required: self.required,
        }
    }
}

/// Form information extracted from HTML.
#[derive(Debug, Clone)]
pub struct FormInfo {
    pub action: Option<String>,
    pub method: String,
    pub inputs: Vec<InputInfo>,
}

/// What is known of a form, as plain mathematical values.
pub ghost struct FormModel {
    pub action: Option<Seq<char>>,
    pub method: Seq<char>,
    pub inputs: Seq<InputModel>,
}

impl View for FormInfo {
    type V = FormModel;

    open spec fn view(&self) -> FormModel {
        FormModel {
            action: optional_text(self.action),
            method: self.method@,
            inputs: Seq::new(self.inputs.len() as nat, |i: int| self.inputs[i]@),
        }
    }
}

/// The input field with the given attributes: without a `name` it is
/// listed under the empty name; its type defaults to `text`; it is required
/// when it carries the attribute `required`, whatever its value.
pub open spec fn input_with(
    name: Option<Seq<char>>,
    input_type: Option<Seq<char>>,
    value: Option<Seq<char>>,
    required: Option<Seq<char>>,
) -> InputModel {
    InputModel {
        name: match name {
            Some(name) => name,
            None => Seq::empty(),
        },
        input_type: match input_type {
            Some(t) => t,
            None => "text"@,
        },
        value,
        required: required is Some,
    }
}

/// The form with the given attributes and input fields: its method
/// defaults to `GET`.
pub open spec fn form_with(
    action: Option<Seq<char>>,
    method: Option<Seq<char>>,
    inputs: Seq<InputModel>,
) -> FormModel {
    FormModel {
        action,
        method: match method {
            Some(m) => m,
            None => "GET"@,
        },
        inputs,
    }
}

/// The input field that an element describes.
pub open spec fn input_of(element: ElementRef<'static>) -> InputModel {
    input_with(
        element_attribute(element, "name"@),
        element_attribute(element, "type"@),
        element_attribute(element, "value"@),
        element_attribute(element, "required"@),
    )
}

impl InputInfo {
    /// The input field with the given attributes.
    pub fn from_attributes(
        name: Option<String>,
        input_type: Option<String>,
        value: Option<String>,
        required: Option<String>,
    ) -> (info: InputInfo)
        ensures
            info@ == input_with(
                optional_text(name),
                optional_text(input_type),
                optional_text(value),
                optional_text(required),
            ),
    {
        InputInfo {
            name: match name {
                Some(name) => name,
                None => String::new(),
            },
            input_type: match input_type {
                Some(t) => t,
                None => "text".to_owned(),
            },
            value,
            required: required.is_some(),
        }
    }
}

impl FormInfo {
    /// The form with the given attributes and input fields.
    pub fn from_attributes(action: Option<String>, method: Option<String>, inputs: Vec<InputInfo>) -> (form:
        FormInfo)
        ensures
            form@ == form_with(
                optional_text(action),
                optional_text(method),
                Seq::new(inputs.len() as nat, |i: int| inputs[i]@),
            ),
    {
        FormInfo {
            action,
            method: match method {
                Some(m) => m,
                None => "GET".to_owned(),
            },
            inputs,
        }
    }
}

/// The input fields that `elements` describe, in order.
pub open spec fn inputs_of(elements: Seq<ElementRef<'static>>) -> Seq<InputModel> {
    Seq::new(elements.len(), |i: int| input_of(elements[i]))
}

/// The form that an element describes, given the input fields of the page.
pub open spec fn form_of(element: ElementRef<'static>, inputs: Seq<InputModel>) -> FormModel {
    form_with(
        element_attribute(element, "action"@),
        element_attribute(element, "method"@),
        inputs,
    )
}

/// HTML parser with CSS selector capabilities.
#[derive(Debug)]
pub struct HtmlParser {
    /// Parsed HTML document.
    document: Html,
}

impl Clone for HtmlParser {
    /// A parser of an equal document.
    fn clone(&self) -> (copy: Self)
        ensures
            copy == *self,
    {
        HtmlParser { document: self.document.clone() }
    }
}

impl HtmlParser {
    /// The parsed document.
    pub closed spec fn spec_document(&self) -> Html {
        self.document
    }

    /// The parser of a piece of markup.
    pub closed spec fn spec_parse(markup: Seq<char>) -> HtmlParser {
        HtmlParser { document: parsed_document(markup) }
    }

    /// The elements matching a valid selector pattern, in the order in which
    /// the document yields them.
    pub open spec fn matches(&self, pattern: Seq<char>) -> Seq<ElementRef<'static>> {
        matching_elements(self.spec_document(), pattern)
    }

    /// The elements matching a pattern; none when the pattern is no
    /// selector.
    pub open spec fn lenient_matches(&self, pattern: Seq<char>) -> Seq<ElementRef<'static>> {
        if pattern_complaint(pattern) is None {
            self.matches(pattern)
        } else {
            Seq::empty()
        }
    }

    /// The first element matching a pattern, if the pattern is a selector
    /// and anything matches.
    pub open spec fn first_match(&self, pattern: Seq<char>) -> Option<ElementRef<'static>> {
        if self.lenient_matches(pattern).len() > 0 {
            Some(self.lenient_matches(pattern)[0])
        } else {
            None
        }
    }

    /// The trimmed text of the first match, unless it is empty.
    pub open spec fn spec_first_text(&self, pattern: Seq<char>) -> Option<Seq<char>> {
        match self.first_match(pattern) {
            Some(element) => kept_text(element_text(element)),
            None => None,
        }
    }

    /// The value of an attribute on the first match.
    pub open spec fn spec_first_attr(&self, pattern: Seq<char>, name: Seq<char>) -> Option<
        Seq<char>,
    > {
        match self.first_match(pattern) {
            Some(element) => element_attribute(element, name),
            None => None,
        }
    }

    /// The markup of the first match.
    pub open spec fn spec_first_html(&self, pattern: Seq<char>) -> Option<Seq<char>> {
        match self.first_match(pattern) {
            Some(element) => Some(element_markup(element)),
            None => None,
        }
    }

    /// The `content` of the first `meta` element whose attribute `key` has
    /// the value `wanted`.
    pub open spec fn spec_meta(&self, key: Seq<char>, wanted: Seq<char>) -> Option<Seq<char>> {
        self.spec_first_attr("meta["@ + key + "='"@ + wanted + "']"@, "content"@)
    }

    /// The page description: the `description` meta tag, else the
    /// `og:description` property.
    pub open spec fn spec_description(&self) -> Option<Seq<char>> {
        match self.spec_meta("name"@, "description"@) {
            Some(d) => Some(d),
            None => self.spec_meta("property"@, "og:description"@),
        }
    }

    /// The forms of the page. Every form lists the input fields of the
    /// whole page.
    pub open spec fn spec_forms(&self) -> Seq<FormModel> {
        let inputs = inputs_of(self.lenient_matches("input, textarea, select"@));
        let forms = self.lenient_matches("form"@);
        Seq::new(forms.len(), |i: int| form_of(forms[i], inputs))
    }

    /// Create a new HTML parser from raw HTML content. This always
    /// succeeds.
    pub fn new(html: &str) -> (r: Result<Self, FerrisFetcherError>)
        ensures
            r is Ok,
            r->Ok_0 == Self::spec_parse(html@),
            r->Ok_0.spec_document() == parsed_document(html@),
    {
        Ok(HtmlParser { document: parse_markup(html) })
    }

    /// Parse HTML from a string. This always succeeds.
    pub fn parse(html: &str) -> (r: Result<Self, FerrisFetcherError>)
        ensures
            r is Ok,
            r->Ok_0 == Self::spec_parse(html@),
            r->Ok_0.spec_document() == parsed_document(html@),
    {
        Self::new(html)
    }

    /// Select elements using a CSS selector.
    pub fn select(&self, selector: &str) -> (r: Result<Vec<ElementRef<'_>>, FerrisFetcherError>)
        ensures
            match r {
                Ok(elements) => pattern_complaint(selector@) is None && elements@ == self.matches(
                    selector@,
                ),
                Err(e) => reports_invalid_selector(e, selector@),
            },
    {
        match self.query(selector) {
            Ok(elements) => Ok(elements),
            Err(complaint) => Err(
                FerrisFetcherError::ParseError(
                    concat4("Invalid CSS selector '", selector, "': ", complaint.as_str()),
                ),
            ),
        }
    }

    /// The elements matching a pattern, or what is wrong with the pattern.
    fn query(&self, pattern: &str) -> (r: Result<Vec<ElementRef<'_>>, String>)
        ensures
            match r {
                Ok(elements) => pattern_complaint(pattern@) is None && elements@ == self.matches(
                    pattern@,
                ),
                Err(complaint) => pattern_complaint(pattern@) == Some(complaint@),
            },
    {
        if is_left_open(pattern) {
            Err("Unclosed bracket or string".to_owned())
        } else {
            select_all(&self.document, pattern)
        }
    }

    /// Select the elements matching a pattern, and none when the pattern is
    /// no selector.
    fn select_lenient(&self, selector: &str) -> (elements: Vec<ElementRef<'_>>)
        ensures
            elements@ == self.lenient_matches(selector@),
    {
        match self.query(selector) {
            Ok(elements) => elements,
            Err(_) => Vec::new(),
        }
    }

    /// Select the first element matching a CSS selector.
    pub fn select_first(&self, selector: &str) -> (r: Option<ElementRef<'_>>)
        ensures
            r == self.first_match(selector@),
    {
        let elements = self.select_lenient(selector);
        if elements.len() > 0 {
            Some(elements[0])
        } else {
            None
        }
    }

    /// Get the page title.
    pub fn title(&self) -> (r: Option<String>)
        ensures
            optional_text(r) == self.spec_first_text("title"@),
    {
        self.select_first_text("title")
    }

    /// Get meta tags by name.
    pub fn meta_tag(&self, name: &str) -> (r: Option<String>)
        ensures
            optional_text(r) == self.spec_meta("name"@, name@),
    {
        let pattern = concat3("meta[name='", name, "']");
        assert(pattern@ =~= "meta["@ + "name"@ + "='"@ + name@ + "']"@) by {
            reveal_strlit("meta[name='");
            reveal_strlit("meta[");
            reveal_strlit("name");
            reveal_strlit("='");
        }
        self.select_first_attr(pattern.as_str(), "content")
    }

    /// Get meta tags by property (for Open Graph, Twitter Cards, etc.).
    pub fn meta_property(&self, property: &str) -> (r: Option<String>)
        ensures
            optional_text(r) == self.spec_meta("property"@, property@),
    {
        let pattern = concat3("meta[property='", property, "']");
        assert(pattern@ =~= "meta["@ + "property"@ + "='"@ + property@ + "']"@) by {
            reveal_strlit("meta[property='");
            reveal_strlit("meta[");
            reveal_strlit("property");
            reveal_strlit("='");
        }
        self.select_first_attr(pattern.as_str(), "content")
    }

    /// Extract text content from elements matching a selector: the trimmed
    /// text of every match, without the empty ones.
    pub fn select_text(&self, selector: &str) -> (r: Result<Vec<String>, FerrisFetcherError>)
        ensures
            match r {
                Ok(texts) => pattern_complaint(selector@) is None && texts.deep_view() == texts_of(
                    self.matches(selector@),
                ),
                Err(e) => reports_invalid_selector(e, selector@),
            },
    {
        let elements = self.select(selector)?;
        let raw = Self::raw_texts(&elements);
        Ok(keep_texts(&raw))
    }

    /// Extract the first text content matching a selector.
    pub fn select_first_text(&self, selector: &str) -> (r: Option<String>)
        ensures
            optional_text(r) == self.spec_first_text(selector@),
    {
        match self.select_first(selector) {
            Some(element) => keep_text(text_of(&element).as_str()),
            None => None,
        }
    }

    /// Extract attribute values from elements matching a selector: the
    /// value on every match that carries the attribute.
    pub fn select_attr(&self, selector: &str, attr: &str) -> (r: Result<
        Vec<String>,
        FerrisFetcherError,
    >)
        ensures
            match r {
                Ok(values) => pattern_complaint(selector@) is None && values.deep_view()
                    == attributes_of(self.matches(selector@), attr@),
                Err(e) => reports_invalid_selector(e, selector@),
            },
    {
        let elements = self.select(selector)?;
        let mut values: Vec<Option<String>> = Vec::new();
        let mut i: usize = 0;
        while i < elements.len()
            invariant
                i <= elements.len(),
                values.len() == i,
                forall|j: int|
                    0 <= j < i ==> optional_text(#[trigger] values[j]) == element_attribute(
                        elements@[j],
                        attr@,
                    ),
            decreases elements.len() - i,
        {
            values.push(attribute_of(&elements[i], attr));
            i += 1;
        }
        assert(optional_texts(values@) =~= Seq::new(
            elements@.len(),
            |i: int| element_attribute(elements@[i], attr@),
        ));
        Ok(keep_present(values))
    }

    /// Extract the first attribute value matching a selector.
    pub fn select_first_attr(&self, selector: &str, attr: &str) -> (r: Option<String>)
        ensures
            optional_text(r) == self.spec_first_attr(selector@, attr@),
    {
        match self.select_first(selector) {
            Some(element) => attribute_of(&element, attr),
            None => None,
        }
    }

    /// The markup of every element in `elements`.
    fn markups(elements: &Vec<ElementRef<'_>>) -> (r: Vec<String>)
        ensures
            r.deep_view() == markups_of(elements@),
    {
        let mut markups: Vec<String> = Vec::new();
        let mut i: usize = 0;
        while i < elements.len()
            invariant
                i <= elements.len(),
                markups.len() == i,
                forall|j: int| 0 <= j < i ==> markups[j]@ == element_markup(elements@[j]),
            decreases elements.len() - i,
        {
            markups.push(markup_of(&elements[i]));
            i += 1;
        }
        assert(markups.deep_view() =~= markups_of(elements@));
        markups
    }

    /// Extract HTML content from elements matching a selector.
    pub fn select_html(&self, selector: &str) -> (r: Result<Vec<String>, FerrisFetcherError>)
        ensures
            match r {
                Ok(markups) => pattern_complaint(selector@) is None && markups.deep_view()
                    == markups_of(self.matches(selector@)),
                Err(e) => reports_invalid_selector(e, selector@),
            },
    {
        let elements = self.select(selector)?;
        Ok(Self::markups(&elements))
    }

    /// Extract the first HTML content matching a selector.
    pub fn select_first_html(&self, selector: &str) -> (r: Option<String>)
        ensures
            optional_text(r) == self.spec_first_html(selector@),
    {
        match self.select_first(selector) {
            Some(element) => Some(markup_of(&element)),
            None => None,
        }
    }

    /// Extract outer HTML from elements matching a selector.
    pub fn select_outer_html(&self, selector: &str) -> (r: Result<Vec<String>, FerrisFetcherError>)
        ensures
            match r {
                Ok(markups) => pattern_complaint(selector@) is None && markups.deep_view()
                    == markups_of(self.matches(selector@)),
                Err(e) => reports_invalid_selector(e, selector@),
            },
    {
        let elements = self.select(selector)?;
        Ok(Self::markups(&elements))
    }

    /// The values of an attribute on the matches of a pattern, and none
    /// when the pattern is no selector.
    fn attrs_lenient(&self, selector: &str, attr: &str) -> (r: Vec<String>)
        ensures
            r.deep_view() == attributes_of(self.lenient_matches(selector@), attr@),
    {
        match self.select_attr(selector, attr) {
            Ok(values) => values,
            Err(_) => {
                let values: Vec<String> = Vec::new();
                assert(values.deep_view() =~= Seq::<Seq<char>>::empty());
                values
            },
        }
    }

    /// Get all links (href attributes) from the page.
    pub fn links(&self) -> (r: Vec<String>)
        ensures
            r.deep_view() == attributes_of(self.lenient_matches("a[href]"@), "href"@),
    {
        self.attrs_lenient("a[href]", "href")
    }

    /// Get all images (src attributes) from the page.
    pub fn images(&self) -> (r: Vec<String>)
        ensures
            r.deep_view() == attributes_of(self.lenient_matches("img[src]"@), "src"@),
    {
        self.attrs_lenient("img[src]", "src")
    }

    /// Extract input field information.
    fn extract_input_info(&self, input_element: &ElementRef<'_>) -> (r: Option<InputInfo>)
        ensures
            r is Some,
            r->Some_0@ == input_of(*input_element),
    {
        Some(
            InputInfo::from_attributes(
                attribute_of(input_element, "name"),
                attribute_of(input_element, "type"),
                attribute_of(input_element, "value"),
                attribute_of(input_element, "required"),
            ),
        )
    }

    /// The input fields of the whole page.
    fn page_inputs(&self) -> (r: Vec<InputInfo>)
        ensures
            Seq::new(r.len() as nat, |i: int| r[i]@) == inputs_of(
                self.lenient_matches("input, textarea, select"@),
            ),
    {
        let elements = self.select_lenient("input, textarea, select");
        let mut inputs: Vec<InputInfo> = Vec::new();
        let mut i: usize = 0;
        while i < elements.len()
            invariant
                i <= elements.len(),
                inputs.len() == i,
                forall|j: int| 0 <= j < i ==> (#[trigger] inputs[j])@ == input_of(elements@[j]),
            decreases elements.len() - i,
        {
            if let Some(info) = self.extract_input_info(&elements[i]) {
                inputs.push(info);
            }
            i += 1;
        }
        assert(Seq::new(inputs.len() as nat, |k: int| inputs[k]@) =~= inputs_of(elements@));
        inputs
    }

    /// A copy of a list of input fields.
    fn copy_inputs(inputs: &Vec<InputInfo>) -> (r: Vec<InputInfo>)
        ensures
            r@ == inputs@,
    {
        let mut copy: Vec<InputInfo> = Vec::new();
        let mut i: usize = 0;
        while i < inputs.len()
            invariant
                i <= inputs.len(),
                copy@ == inputs@.take(i as int),
            decreases inputs.len() - i,
        {
            let input = &inputs[i];
            copy.push(
                InputInfo {
                    name: input.name.clone(),
                    input_type: input.input_type.clone(),
                    value: match &input.value {
                        Some(v) => Some(v.clone()),
                        None => None,
                    },
                    required: input.required,
                },
            );
            i += 1;
            assert(inputs@.take(i as int) =~= inputs@.take(i - 1).push(inputs@[i - 1]));
        }
        assert(inputs@.take(inputs.len() as int) =~= inputs@);
        copy
    }

    /// Extract form information.
    fn extract_form_info(&self, form_element: &ElementRef<'_>, inputs: &Vec<InputInfo>) -> (r:
        Option<FormInfo>)
        ensures
            r is Some,
            r->Some_0@ == form_of(
                *form_element,
                Seq::new(inputs.len() as nat, |i: int| inputs[i]@),
            ),
    {
        let copy = Self::copy_inputs(inputs);
        assert(Seq::new(copy.len() as nat, |i: int| copy[i]@) =~= Seq::new(
            inputs.len() as nat,
            |i: int| inputs[i]@,
        ));
        Some(
            FormInfo::from_attributes(
                attribute_of(form_element, "action"),
                attribute_of(form_element, "method"),
                copy,
            ),
        )
    }

    /// Get all forms from the page.
    pub fn forms(&self) -> (r: Vec<FormInfo>)
        ensures
            Seq::new(r.len() as nat, |i: int| r[i]@) == self.spec_forms(),
    {
        let inputs = self.page_inputs();
        let elements = self.select_lenient("form");
        let mut forms: Vec<FormInfo> = Vec::new();
        let mut i: usize = 0;
        let ghost input_models = Seq::new(inputs.len() as nat, |k: int| inputs[k]@);
        while i < elements.len()
            invariant
                i <= elements.len(),
                forms.len() == i,
                input_models == Seq::new(inputs.len() as nat, |k: int| inputs[k]@),
                forall|j: int| 0 <= j < i ==> (#[trigger] forms[j])@ == form_of(elements@[j], input_models),
            decreases elements.len() - i,
        {
            if let Some(form) = self.extract_form_info(&elements[i], &inputs) {
                forms.push(form);
            }
            i += 1;
        }
        assert(Seq::new(forms.len() as nat, |k: int| forms[k]@) =~= self.spec_forms());
        forms
    }

    /// Get text content with cleaning: every text of `select_text` with
    /// each run of whitespace replaced by one space.
    pub fn clean_text(&self, selector: &str) -> (r: Result<Vec<String>, FerrisFetcherError>)
        ensures
            match r {
                Ok(texts) => pattern_complaint(selector@) is None && texts.deep_view() == texts_of(
                    self.matches(selector@),
                ).map_values(|t: Seq<char>| collapsed(t)),
                Err(e) => reports_invalid_selector(e, selector@),
            },
    {
        let texts = self.select_text(selector)?;
        let mut cleaned: Vec<String> = Vec::new();
        let mut i: usize = 0;
        while i < texts.len()
            invariant
                i <= texts.len(),
                cleaned.len() == i,
                forall|j: int| 0 <= j < i ==> cleaned[j]@ == collapsed(texts[j]@),
            decreases texts.len() - i,
        {
            cleaned.push(self.clean_whitespace(texts[i].as_str()));
            i += 1;
        }
        assert(cleaned.deep_view() =~= texts.deep_view().map_values(|t: Seq<char>| collapsed(t)));
        Ok(cleaned)
    }

    /// Clean whitespace from text.
    fn clean_whitespace(&self, text: &str) -> (r: String)
        ensures
            r@ == collapsed(text@),
    {
        collapse_whitespace(text)
    }

    /// Check if a selector exists in the document.
    pub fn has_selector(&self, selector: &str) -> (b: bool)
        ensures
            b == (self.lenient_matches(selector@).len() > 0),
    {
        self.select_lenient(selector).len() > 0
    }

    /// Count elements matching a selector.
    pub fn count(&self, selector: &str) -> (n: usize)
        ensures
            n == self.lenient_matches(selector@).len(),
    {
        self.select_lenient(selector).len()
    }

    /// Get JSON-LD structured data from the page: the text of every
    /// `application/ld+json` script that is a JSON document.
    pub fn json_ld(&self) -> (r: Vec<String>)
        ensures
            r.deep_view() == json_texts_of(
                self.lenient_matches("script[type='application/ld+json']"@),
            ),
    {
        let elements = self.select_lenient("script[type='application/ld+json']");
        Self::keep_json_documents_of(&elements)
    }

    /// The texts of `elements` that are JSON documents.
    fn keep_json_documents_of(elements: &Vec<ElementRef<'_>>) -> (r: Vec<String>)
        ensures
            r.deep_view() == json_texts_of(elements@),
    {
        let raw = Self::raw_texts(elements);
        keep_json_documents(raw)
    }

    /// The raw text of every element.
    fn raw_texts(elements: &Vec<ElementRef<'_>>) -> (raw: Vec<String>)
        ensures
            raw.deep_view() == Seq::new(elements@.len(), |i: int| element_text(elements@[i])),
    {
        let mut raw: Vec<String> = Vec::new();
        let mut i: usize = 0;
        while i < elements.len()
            invariant
                i <= elements.len(),
                raw.len() == i,
                forall|j: int| 0 <= j < i ==> raw[j]@ == element_text(elements@[j]),
            decreases elements.len() - i,
        {
            raw.push(text_of(&elements[i]));
            i += 1;
        }
        assert(raw.deep_view() =~= Seq::new(
            elements@.len(),
            |i: int| element_text(elements@[i]),
        ));
        raw
    }

    /// Get page description (meta description or og:description).
    pub fn description(&self) -> (r: Option<String>)
        ensures
            optional_text(r) == self.spec_description(),
    {
        match self.meta_tag("description") {
            Some(d) => Some(d),
            None => self.meta_property("og:description"),
        }
    }

    /// Get page keywords.
    pub fn keywords(&self) -> (r: Option<String>)
        ensures
            optional_text(r) == self.spec_meta("name"@, "keywords"@),
    {
        self.meta_tag("keywords")
    }

    /// Get canonical URL.
    pub fn canonical_url(&self) -> (r: Option<String>)
        ensures
            optional_text(r) == self.spec_first_attr("link[rel='canonical']"@, "href"@),
    {
        self.select_first_attr("link[rel='canonical']", "href")
    }

    /// Get the parsed HTML document.
    pub fn document(&self) -> (d: &Html)
        ensures
            *d == self.spec_document(),
    {
        &self.document
    }
}

} // verus!
