//! The HTML templating logic.

pub mod dom;
pub mod template_element_filter;

use crate::html_templating::dom::{Handle, TemplateNodeLookup};
use markup5ever_rcdom::{NodeData, RcDom, SerializableHandle};
use vstd::prelude::*;
use vstd::utf8::encode_utf8;

pub use crate::html_templating::dom::TemplateElementFilter;

verus! {

/// Whether scripting counts as enabled, while a document is parsed and while it is
/// written: with one flag for both, content that is inert without scripting is written
/// as it was read.
pub const SCRIPTING_ENABLED: bool = true;

/// The greatest length, in bytes, of a text that a node of the DOM can hold.
pub const MAX_CONTENT_LEN: usize = 4294967295;

/// The logic to apply to the content of the template element.
pub trait ContentProcessor {
    /// The error of the processor.
    type Error;

    /// The text that the processor gives for `input`; `None` where it fails.
    open spec fn processed(&self, input: Seq<char>) -> Option<Seq<char>> {
        None
    }

    /// Process the content of the template element.
    fn process(&self, input: &str) -> (r: Result<String, Self::Error>)
        ensures
            match r {
                Ok(output) => self.processed(input@) == Some(output@),
                Err(_) => self.processed(input@) is None,
            },
    ;
}

/// The HTML templating processor.
///
/// Will process the HTML code, and replace content of first the `script` node with the specified
/// type it encounters via the specified content processor.
#[derive(Debug)]
pub struct Processor<TemplateElementFilter, ContentProcessor> {
    /// The element filter to select the template to work with.
    pub template_element_filter: TemplateElementFilter,
    /// The logic to apply for script tag content processing.
    pub content_processor: ContentProcessor,
}

/// The template application error.
#[derive(Debug)]
pub enum TemplatingError<ContentProcessorError> {
    /// The HTML parsing has failed.
    HtmlParsing(Vec<String>),
    /// The template script was not found.
    TemplateNotFound,
    /// The template script content was not found.
    TemplateContentNotFound,
    /// The template element has more than one child.
    TemplateElementHasMoreThanOneChild,
    /// Error during template application.
    TemplateApplication(TemplateApplicationError<ContentProcessorError>),
    /// The document could not be written.
    HtmlWriting(std::io::Error),
}

/// The template application error.
#[derive(Debug)]
pub enum TemplateApplicationError<ContentProcessorError> {
    /// No text content found.
    TemplateNonTextContent,
    /// Error from the content processor.
    ContentProcessor(ContentProcessorError),
    /// The content processor gave a text that is longer than a node can hold.
    TemplateContentTooLong,
}

/// `markup5ever_rcdom::Node::children`: handles to the children of a node, in document
/// order. Nothing is claimed of them: a DOM can be changed through any of its handles.
#[verifier::external_body]
fn node_children(node: &Handle) -> Vec<Handle> {
    node.children.borrow().clone()
}

/// `markup5ever_rcdom::Node::data` of a text node: the text that the node holds at the
/// time of the call; none for any other node. Nothing is claimed of it.
#[verifier::external_body]
fn node_text(node: &Handle) -> Option<String> {
    match node.data {
        NodeData::Text { ref contents } => Some(contents.borrow().to_string()),
        _ => None,
    }
}

/// `markup5ever_rcdom::Node::data` of a text node: puts `text` in place of the text
/// that the node holds; leaves any other node as it is. The DOM holds no text of more
/// than `MAX_CONTENT_LEN` bytes.
#[verifier::external_body]
fn set_node_text(node: &Handle, text: &str)
    requires
        encode_utf8(text@).len() <= MAX_CONTENT_LEN,
{
    if let NodeData::Text { ref contents } = node.data {
        *contents.borrow_mut() = text.into();
    }
}

/// `markup5ever_rcdom::RcDom::errors`: the errors that the parser has reported to the
/// DOM, oldest first, as texts. Nothing is claimed of them.
#[verifier::external_body]
fn parse_errors(dom: &RcDom) -> Vec<String> {
    dom.errors.borrow().iter().map(|e| e.to_string()).collect()
}

/// `html5ever::serialize`: the document of a DOM that the parser has built, as HTML,
/// with scripting enabled or not as for the parse. The writer is a buffer in memory.
/// Nothing is claimed of the bytes.
#[verifier::external_body]
fn serialize_document(dom: &RcDom, scripting_enabled: bool) -> Result<Vec<u8>, std::io::Error> {
    let mut buf = Vec::new();
    let document: SerializableHandle = dom.document.clone().into();
    let opts = html5ever::serialize::SerializeOpts { scripting_enabled, ..Default::default() };
    html5ever::serialize(&mut buf, &document, opts).map(|()| buf)
}

/// Refuse a document in which the parser has reported errors: with the errors that
/// it has reported.
pub fn refuse_parse_errors<E>(errors: Vec<String>) -> (r: Result<(), TemplatingError<E>>)
    ensures
        errors@.len() == 0 <==> r is Ok,
        r is Err ==> r->Err_0 is HtmlParsing && r->Err_0->HtmlParsing_0@ == errors@,
{
    if errors.len() > 0 {
        return Err(TemplatingError::HtmlParsing(errors));
    }
    Ok(())
}

/// The sole child of the template element.
///
/// An element without children has no content to process, and one with more than one
/// child is refused.
pub fn template_child<'a, T, E>(children: &'a Vec<T>) -> (r: Result<&'a T, TemplatingError<E>>)
    ensures
        children@.len() == 0 ==> r is Err && r->Err_0 is TemplateContentNotFound,
        children@.len() > 1 ==> r is Err && r->Err_0 is TemplateElementHasMoreThanOneChild,
        children@.len() == 1 ==> r is Ok && *r->Ok_0 == children@[0],
{
    if children.len() == 0 {
        return Err(TemplatingError::TemplateContentNotFound);
    }
    if children.len() > 1 {
        return Err(TemplatingError::TemplateElementHasMoreThanOneChild);
    }
    Ok(&children[0])
}

/// The new content of the template element's child, which holds `text` where it is a
/// text node: what the content processor gives for the text.
pub fn processed_text<ContentProcessor: self::ContentProcessor>(
    text: Option<String>,
    content_processor: &ContentProcessor,
) -> (r: Result<String, TemplateApplicationError<ContentProcessor::Error>>)
    ensures
        text is None ==> r is Err && r->Err_0 is TemplateNonTextContent,
        text is Some && content_processor.processed(text->0@) is None ==> r is Err
            && r->Err_0 is ContentProcessor,
        text is Some && content_processor.processed(text->0@) is Some ==> r is Ok
            && r->Ok_0@ == content_processor.processed(text->0@)->0,
{
    let Some(contents) = text else {
        return Err(TemplateApplicationError::TemplateNonTextContent);
    };
    match content_processor.process(contents.as_str()) {
        Ok(new_contents) => Ok(new_contents),
        Err(err) => Err(TemplateApplicationError::ContentProcessor(err)),
    }
}

/// Applies the template to the provided DOM handle: the text of the node is replaced
/// by the new contents, unless they are longer than a node can hold.
fn apply_template<E>(handle: &Handle, new_contents: &str) -> (r: Result<
    (),
    TemplateApplicationError<E>,
>)
    ensures
        encode_utf8(new_contents@).len() <= MAX_CONTENT_LEN <==> r is Ok,
        r is Err ==> r->Err_0 is TemplateContentTooLong,
{
    if new_contents.as_bytes().len() > MAX_CONTENT_LEN {
        return Err(TemplateApplicationError::TemplateContentTooLong);
    }
    set_node_text(handle, new_contents);
    Ok(())
}

/// What the children of an element hold: for each child its text, where it is a text
/// node.
pub open spec fn contents_of(children: Seq<Option<String>>) -> Seq<Option<Seq<char>>> {
    children.map_values(
        |child: Option<String>|
            match child {
                Some(text) => Some(text@),
                None => None,
            },
    )
}

/// What the templating of an element comes to.
pub enum TemplateOutcome {
    /// The element has no child.
    ContentNotFound,
    /// The element has more than one child.
    MoreThanOneChild,
    /// The sole child of the element is no text node.
    NonTextContent,
    /// The content processor refuses the text of the sole child.
    Refused,
    /// The text of the sole child is replaced by this text.
    Replaced(Seq<char>),
}

/// What the templating comes to for an element whose children hold `children`: the
/// element must have exactly one child, which must be a text node, and the content
/// processor gives the text that replaces its text.
pub open spec fn template_outcome<ContentProcessor: self::ContentProcessor>(
    children: Seq<Option<Seq<char>>>,
    content_processor: ContentProcessor,
) -> TemplateOutcome {
    if children.len() == 0 {
        TemplateOutcome::ContentNotFound
    } else if children.len() > 1 {
        TemplateOutcome::MoreThanOneChild
    } else {
        match children[0] {
            None => TemplateOutcome::NonTextContent,
            Some(text) => match content_processor.processed(text) {
                None => TemplateOutcome::Refused,
                Some(new_contents) => TemplateOutcome::Replaced(new_contents),
            },
        }
    }
}

/// Whether `r` is the error that stands for `outcome`, which is none that replaces a
/// text.
pub open spec fn is_refusal<T, E>(r: Result<T, TemplatingError<E>>, outcome: TemplateOutcome) -> bool {
    r is Err && match outcome {
        TemplateOutcome::ContentNotFound => r->Err_0 is TemplateContentNotFound,
        TemplateOutcome::MoreThanOneChild => r->Err_0 is TemplateElementHasMoreThanOneChild,
        TemplateOutcome::NonTextContent => r->Err_0 is TemplateApplication
            && r->Err_0->TemplateApplication_0 is TemplateNonTextContent,
        TemplateOutcome::Refused => r->Err_0 is TemplateApplication
            && r->Err_0->TemplateApplication_0 is ContentProcessor,
        TemplateOutcome::Replaced(_) => false,
    }
}

/// The text that replaces the text of the template element's sole child, for an
/// element whose children hold `children`.
pub fn template_result<ContentProcessor: self::ContentProcessor>(
    children: &Vec<Option<String>>,
    content_processor: &ContentProcessor,
) -> (r: Result<String, TemplatingError<ContentProcessor::Error>>)
    ensures
        match template_outcome(contents_of(children@), *content_processor) {
            TemplateOutcome::Replaced(new_contents) => r is Ok && r->Ok_0@ == new_contents,
            refused => is_refusal(r, refused),
        },
{
    let child = match template_child(children) {
        Ok(child) => child,
        Err(err) => return Err(err),
    };
    let text = match child {
        Some(text) => Some(text.clone()),
        None => None,
    };
    match processed_text(text, content_processor) {
        Ok(new_contents) => Ok(new_contents),
        Err(err) => Err(TemplatingError::TemplateApplication(err)),
    }
}

/// Whether `r` is what processing comes to for a document whose template element has
/// children that hold `children`: the error that stands for what the templating
/// comes to; for a text that replaces the old one, the document as it is written,
/// unless the text is longer than a node can hold or the document cannot be written.
pub open spec fn processes<ContentProcessor: self::ContentProcessor>(
    children: Seq<Option<Seq<char>>>,
    content_processor: ContentProcessor,
    r: Result<Vec<u8>, TemplatingError<ContentProcessor::Error>>,
) -> bool {
    match template_outcome(children, content_processor) {
        TemplateOutcome::Replaced(new_contents) => if encode_utf8(new_contents).len()
            > MAX_CONTENT_LEN {
            r is Err && r->Err_0 is TemplateApplication
                && r->Err_0->TemplateApplication_0 is TemplateContentTooLong
        } else {
            r is Ok || (r is Err && r->Err_0 is HtmlWriting)
        },
        refused => is_refusal(r, refused),
    }
}

/// What the children of an element hold: for each child its text, where it is a text
/// node.
fn child_contents(children: &Vec<Handle>) -> (r: Vec<Option<String>>)
    ensures
        r@.len() == children@.len(),
{
    let mut contents: Vec<Option<String>> = Vec::new();
    let mut i: usize = 0;
    while i < children.len()
        invariant
            0 <= i <= children.len(),
            contents@.len() == i,
        decreases children.len() - i,
    {
        contents.push(node_text(&children[i]));
        i += 1;
    }
    contents
}

impl<TemplateElementFilter, ContentProcessor: self::ContentProcessor> Processor<
    TemplateElementFilter,
    ContentProcessor,
> {
    /// Process a parsed document: replace the content of the template element that
    /// the lookup has retained, and write the document out.
    ///
    /// What the parser has reported as errors is not held against the document.
    pub fn process<Filter>(&self, lookup: &TemplateNodeLookup<Filter>) -> (r: Result<
        Vec<u8>,
        TemplatingError<ContentProcessor::Error>,
    >)
        ensures
            lookup.template_element is None <==> r is Err && r->Err_0 is TemplateNotFound,
            !(r is Err && r->Err_0 is HtmlParsing),
            lookup.template_element is Some ==> exists|children: Seq<Option<Seq<char>>>|
                processes(children, self.content_processor, r),
    {
        self.process_parsed(lookup, false)
    }

    /// Process a parsed document as [`Self::process`] does, but refuse a document in
    /// which the parser has reported errors, before anything else is looked at.
    pub fn process_strict<Filter>(&self, lookup: &TemplateNodeLookup<Filter>) -> (r: Result<
        Vec<u8>,
        TemplatingError<ContentProcessor::Error>,
    >)
        ensures
            r is Err && r->Err_0 is HtmlParsing ==> r->Err_0->HtmlParsing_0@.len() > 0,
            !(r is Err && r->Err_0 is HtmlParsing) ==> (lookup.template_element is None <==> r is Err
                && r->Err_0 is TemplateNotFound),
            !(r is Err && r->Err_0 is HtmlParsing) && lookup.template_element is Some
                ==> exists|children: Seq<Option<Seq<char>>>|
                processes(children, self.content_processor, r),
    {
        self.process_parsed(lookup, true)
    }

    fn process_parsed<Filter>(&self, lookup: &TemplateNodeLookup<Filter>, strict: bool) -> (r: Result<
        Vec<u8>,
        TemplatingError<ContentProcessor::Error>,
    >)
        ensures
            r is Err && r->Err_0 is HtmlParsing ==> strict && r->Err_0->HtmlParsing_0@.len() > 0,
            !(r is Err && r->Err_0 is HtmlParsing) ==> (lookup.template_element is None <==> r is Err
                && r->Err_0 is TemplateNotFound),
            !(r is Err && r->Err_0 is HtmlParsing) && lookup.template_element is Some
                ==> exists|children: Seq<Option<Seq<char>>>|
                processes(children, self.content_processor, r),
    {
        if strict {
            match refuse_parse_errors(parse_errors(&lookup.rcdom)) {
                Ok(()) => {},
                Err(err) => return Err(err),
            }
        }
        let Some(template_element) = &lookup.template_element else {
            return Err(TemplatingError::TemplateNotFound);
        };
        let children = node_children(template_element);
        let contents = child_contents(&children);
        let ghost held = contents_of(contents@);
        let new_contents = match template_result(&contents, &self.content_processor) {
            Ok(new_contents) => new_contents,
            Err(err) => {
                let r = Err(err);
                assert(processes(held, self.content_processor, r));
                return r;
            },
        };
        match apply_template(&children[0], new_contents.as_str()) {
            Ok(()) => {},
            Err(err) => {
                let r = Err(TemplatingError::TemplateApplication(err));
                assert(processes(held, self.content_processor, r));
                return r;
            },
        }
        let r = match serialize_document(&lookup.rcdom, SCRIPTING_ENABLED) {
            Ok(output) => Ok(output),
            Err(err) => Err(TemplatingError::HtmlWriting(err)),
        };
        assert(processes(held, self.content_processor, r));
        r
    }
}

} // verus!
