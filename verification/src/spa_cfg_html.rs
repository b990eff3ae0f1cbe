//! Opinionated way of providing deployment time configuration to the Single Page Apps with
//! HTML templates.

use crate::html_templating::dom::TemplateNodeLookup;
use crate::html_templating::template_element_filter::ScriptTag;
use crate::html_templating::{processes, Processor, TemplatingError, MAX_CONTENT_LEN};
use crate::json_env_cfg::{templating, Config, Env, JsonTemplatingError, Templating};
use vstd::prelude::*;
use vstd::utf8::encode_utf8;
use vstd::string::StringExecFns;

verus! {

/// The enforcement mode to use when applying the configuration.
#[derive(Debug)]
pub enum TemplateTagPresence {
    /// Require the script tag containing the configuration template to be present.
    ///
    /// If the tag is not found an error is returned.
    Required,
    /// Skip applying the configuration if the script containing the template is not found.
    SkipIfNotFound,
}

/// The HTML templating engine for the SPA configuration.
#[derive(Debug)]
pub struct Engine {
    /// The prefix for the ENV vars to use.
    pub env_prefix: String,
    /// The requirements on the template tag presence.
    pub template_tag_presence: TemplateTagPresence,
}

/// The error type.
pub type HtmlTemplatingError = TemplatingError<JsonTemplatingError>;

/// The type of the script element that holds the configuration template.
pub open spec fn template_script_type() -> Seq<char> {
    "application/spa-cfg"@
}

/// Whether `r` is what applying the configuration comes to for a document whose
/// template element has children that hold `children`: the element must have exactly
/// one child, which must be a text node; its text is templated as JSON from the
/// environment; and the document is written out with the new text, unless that text is
/// longer than a node can hold or the document cannot be written.
pub open spec fn applies_to(
    children: Seq<Option<Seq<char>>>,
    env_prefix: Seq<char>,
    env: Env,
    r: Result<(), HtmlTemplatingError>,
) -> bool {
    if children.len() == 0 {
        r is Err && r->Err_0 is TemplateContentNotFound
    } else if children.len() > 1 {
        r is Err && r->Err_0 is TemplateElementHasMoreThanOneChild
    } else {
        match children[0] {
            None => r is Err && r->Err_0 is TemplateApplication
                && r->Err_0->TemplateApplication_0 is TemplateNonTextContent,
            Some(template) => match templating(template, env_prefix, env) {
                Templating::Text(new_contents) => if encode_utf8(new_contents).len()
                    > MAX_CONTENT_LEN {
                    r is Err && r->Err_0 is TemplateApplication
                        && r->Err_0->TemplateApplication_0 is TemplateContentTooLong
                } else {
                    r is Ok || (r is Err && r->Err_0 is HtmlWriting)
                },
                _ => r is Err && r->Err_0 is TemplateApplication
                    && r->Err_0->TemplateApplication_0 is ContentProcessor,
            },
        }
    }
}

/// The content processor for the HTML templating.
struct ContentProcessor<'a> {
    engine: &'a Engine,
    env: &'a Env,
}

impl crate::html_templating::ContentProcessor for ContentProcessor<'_> {
    type Error = JsonTemplatingError;

    /// The template as JSON, templated from the environment.
    closed spec fn processed(&self, input: Seq<char>) -> Option<Seq<char>> {
        match templating(input, self.engine.env_prefix@, *self.env) {
            Templating::Text(text) => Some(text),
            _ => None,
        }
    }

    fn process(&self, input: &str) -> (r: Result<String, Self::Error>) {
        Config::templatify_from_env(input, self.engine.env_prefix.as_str(), self.env)
    }
}

impl Engine {
    /// The filter that selects the element with the configuration template, for the
    /// parse of the document.
    pub fn template_element_filter() -> (r: ScriptTag)
        ensures
            r.script_type@ == template_script_type(),
    {
        ScriptTag { script_type: String::from_str("application/spa-cfg") }
    }

    /// Apply the SPA configuration to the given HTML document contents, of which
    /// `lookup` is the parse.
    ///
    /// The document is left as it is where the engine fails, and where no template was
    /// found and none is required.
    pub fn apply<Filter>(
        &self,
        body: &mut Vec<u8>,
        lookup: &TemplateNodeLookup<Filter>,
        env: &Env,
    ) -> (r: Result<(), HtmlTemplatingError>)
        ensures
            lookup.template_element is None && self.template_tag_presence is SkipIfNotFound ==> r is Ok
                && final(body)@ == old(body)@,
            lookup.template_element is None && self.template_tag_presence is Required ==> r is Err
                && r->Err_0 is TemplateNotFound,
            r is Err && r->Err_0 is TemplateNotFound ==> lookup.template_element is None
                && self.template_tag_presence is Required,
            r is Err ==> final(body)@ == old(body)@,
            !(r is Err && r->Err_0 is HtmlParsing),
            lookup.template_element is Some ==> exists|children: Seq<Option<Seq<char>>>|
                applies_to(children, self.env_prefix@, *env, r),
    {
        let html_templating_processor = Processor {
            template_element_filter: Self::template_element_filter(),
            content_processor: ContentProcessor { engine: self, env },
        };
        let processed = html_templating_processor.process(lookup);
        let ghost held = if lookup.template_element is Some {
            choose|children: Seq<Option<Seq<char>>>|
                processes(children, html_templating_processor.content_processor, processed)
        } else {
            Seq::empty()
        };
        let output = match processed {
            Ok(output) => output,
            Err(TemplatingError::TemplateNotFound) => {
                match self.template_tag_presence {
                    TemplateTagPresence::SkipIfNotFound => return Ok(()),
                    TemplateTagPresence::Required => return Err(TemplatingError::TemplateNotFound),
                }
            },
            Err(err) => {
                let r = Err(err);
                assert(lookup.template_element is Some ==> applies_to(
                    held,
                    self.env_prefix@,
                    *env,
                    r,
                ));
                return r;
            },
        };
        *body = output;
        let r = Ok(());
        assert(lookup.template_element is Some ==> applies_to(held, self.env_prefix@, *env, r));
        r
    }
}

} // verus!
