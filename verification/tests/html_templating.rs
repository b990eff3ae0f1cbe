//! Tests for the HTML templating.

use std::cell::RefCell;

use html5ever::interface::{ElementFlags, NodeOrText, QuirksMode, TreeSink};
use html5ever::tendril::{StrTendril, TendrilSink};
use html5ever::{Attribute, ExpandedName, ParseOpts, QualName};
use markup5ever_rcdom::{Handle, Node, NodeData};
use sap::html_templating::dom::{TemplateElementFilter, TemplateNodeLookup};
use sap::html_templating::template_element_filter::ScriptTag;
use sap::html_templating::{
    processed_text, refuse_parse_errors, template_child, template_result, ContentProcessor,
    Processor, TemplateApplicationError, TemplatingError, SCRIPTING_ENABLED,
};
use sap::json_env_cfg::{Env, EnvValue, EnvVar, JsonTemplatingError};
use sap::spa_cfg::SpaCfg;
use sap::spa_cfg_html::{Engine, TemplateTagPresence};

/// The tree sink that lets the lookup see each element that the DOM creates.
struct Sink<F>(RefCell<TemplateNodeLookup<F>>);

impl<F: TemplateElementFilter> TreeSink for Sink<F> {
    type Handle = Handle;
    type Output = TemplateNodeLookup<F>;
    type ElemName<'a>
        = ExpandedName<'a>
    where
        F: 'a;

    fn finish(self) -> Self::Output {
        self.0.into_inner()
    }

    fn parse_error(&self, msg: std::borrow::Cow<'static, str>) {
        self.0.borrow().rcdom.parse_error(msg);
    }

    fn get_document(&self) -> Handle {
        self.0.borrow().rcdom.get_document()
    }

    fn elem_name<'a>(&'a self, target: &'a Handle) -> ExpandedName<'a> {
        match target.data {
            NodeData::Element { ref name, .. } => name.expanded(),
            _ => panic!("not an element!"),
        }
    }

    fn create_element(&self, name: QualName, attrs: Vec<Attribute>, flags: ElementFlags) -> Handle {
        let local = name.local.to_string();
        let plain_attrs: Vec<sap::html_templating::dom::Attribute> = attrs
            .iter()
            .map(|attr| sap::html_templating::dom::Attribute {
                name: attr.name.local.to_string(),
                value: attr.value.to_string(),
            })
            .collect();
        let plain_flags = sap::html_templating::dom::ElementFlags {
            template: flags.template,
            mathml_annotation_xml_integration_point: flags.mathml_annotation_xml_integration_point,
            had_duplicate_attributes: flags.had_duplicate_attributes,
        };
        let handle = self.0.borrow().rcdom.create_element(name, attrs, flags);
        self.0
            .borrow_mut()
            .create_element(&local, &plain_attrs, &plain_flags, &handle);
        handle
    }

    fn create_comment(&self, text: StrTendril) -> Handle {
        self.0.borrow().rcdom.create_comment(text)
    }

    fn create_pi(&self, target: StrTendril, data: StrTendril) -> Handle {
        self.0.borrow().rcdom.create_pi(target, data)
    }

    fn append(&self, parent: &Handle, child: NodeOrText<Handle>) {
        self.0.borrow().rcdom.append(parent, child);
    }

    fn append_based_on_parent_node(
        &self,
        element: &Handle,
        prev_element: &Handle,
        child: NodeOrText<Handle>,
    ) {
        self.0
            .borrow()
            .rcdom
            .append_based_on_parent_node(element, prev_element, child);
    }

    fn append_doctype_to_document(
        &self,
        name: StrTendril,
        public_id: StrTendril,
        system_id: StrTendril,
    ) {
        self.0
            .borrow()
            .rcdom
            .append_doctype_to_document(name, public_id, system_id);
    }

    fn get_template_contents(&self, target: &Handle) -> Handle {
        self.0.borrow().rcdom.get_template_contents(target)
    }

    fn same_node(&self, x: &Handle, y: &Handle) -> bool {
        self.0.borrow().rcdom.same_node(x, y)
    }

    fn set_quirks_mode(&self, mode: QuirksMode) {
        self.0.borrow().rcdom.set_quirks_mode(mode);
    }

    fn append_before_sibling(&self, sibling: &Handle, new_node: NodeOrText<Handle>) {
        self.0.borrow().rcdom.append_before_sibling(sibling, new_node);
    }

    fn add_attrs_if_missing(&self, target: &Handle, attrs: Vec<Attribute>) {
        self.0.borrow().rcdom.add_attrs_if_missing(target, attrs);
    }

    fn remove_from_parent(&self, target: &Handle) {
        self.0.borrow().rcdom.remove_from_parent(target);
    }

    fn reparent_children(&self, node: &Handle, new_parent: &Handle) {
        self.0.borrow().rcdom.reparent_children(node, new_parent);
    }
}

/// Parse a document, with a lookup for the elements that the filter selects.
fn parse_with<F: TemplateElementFilter>(html: &[u8], filter: F) -> TemplateNodeLookup<F> {
    let mut opts = ParseOpts::default();
    opts.tree_builder.scripting_enabled = SCRIPTING_ENABLED;
    let sink = Sink(RefCell::new(TemplateNodeLookup::new(filter)));
    html5ever::parse_document(sink, opts).from_utf8().one(html)
}

/// Parse a document, with a lookup for the script elements of the given type.
fn parse(html: &[u8], script_type: &str) -> TemplateNodeLookup<ScriptTag> {
    parse_with(
        html,
        ScriptTag {
            script_type: script_type.to_string(),
        },
    )
}

/// A filter that selects the elements of one name.
struct Tag(&'static str);

impl TemplateElementFilter for Tag {
    fn is_selected(
        &self,
        name: &str,
        _attrs: &[sap::html_templating::dom::Attribute],
        _flags: &sap::html_templating::dom::ElementFlags,
    ) -> bool {
        name == self.0
    }
}

/// A content processor that always fails.
struct Refuse;

impl ContentProcessor for Refuse {
    type Error = &'static str;

    fn process(&self, _input: &str) -> Result<String, Self::Error> {
        Err("refused")
    }
}

fn replace(input: &'static str, output: &'static str) -> Processor<ScriptTag, Expect> {
    Processor {
        template_element_filter: ScriptTag {
            script_type: "application/spa-cfg".to_string(),
        },
        content_processor: Expect { input, output },
    }
}

/// A content processor that expects one input and gives one output.
struct Expect {
    input: &'static str,
    output: &'static str,
}

impl ContentProcessor for Expect {
    type Error = std::convert::Infallible;

    fn process(&self, input: &str) -> Result<String, Self::Error> {
        assert_eq!(input, self.input);
        Ok(self.output.into())
    }
}

const SAMPLE_HTML: &[u8] = br##"<html>
<head>
    <title>Hello world</title>
</head>
<body>
    <script type="application/spa-cfg">{ "key": "value" }</script>
</body>
</html>"##;

const SAMPLE_TEMPLATE: &str = r##"{ "key": "value" }"##;
const TEMPLATE_SUBSTITUTION: &str = r##"{ "key": "other value" }"##;

const EXPECTED_HTML: &[u8] = br##"<html>
<head>
    <title>Hello world</title>
</head>
<body>
    <script type="application/spa-cfg">{ "key": "other value" }</script>
</body>
</html>"##;

fn assert_output_eq(left: &[u8], right: &[u8]) {
    let parse = |val: &[u8]| -> String {
        let val = std::str::from_utf8(val).unwrap();
        val.replace("\n", "")
    };

    let left = parse(left);
    let right = parse(right);

    assert_eq!(left, right);
}

#[test]
fn simple_happy_path() {
    let processor = Processor {
        template_element_filter: ScriptTag {
            script_type: "application/spa-cfg".to_string(),
        },
        content_processor: Expect {
            input: SAMPLE_TEMPLATE,
            output: TEMPLATE_SUBSTITUTION,
        },
    };

    let lookup = parse(SAMPLE_HTML, "application/spa-cfg");
    let output = processor.process(&lookup).unwrap();

    assert_output_eq(EXPECTED_HTML, &output);
}

#[test]
fn content_is_replaced_and_markup_is_kept() {
    let html = "<!DOCTYPE html><html><head><title>t</title></head><body><p>before</p>\
<script type=\"application/spa-cfg\">{\"k\":\"v\"}</script><p class=\"x\">after &amp; more</p></body></html>";
    let lookup = parse(html.as_bytes(), "application/spa-cfg");
    let output = replace(r#"{"k":"v"}"#, r#"{"k":"v2"}"#)
        .process(&lookup)
        .unwrap();
    assert_eq!(
        String::from_utf8(output).unwrap(),
        html.replace(r#"{"k":"v"}"#, r#"{"k":"v2"}"#)
    );
}

#[test]
fn element_with_two_children_is_refused() {
    let lookup = parse_with(b"<!DOCTYPE html><div><b>x</b><i>y</i></div>", Tag("div"));
    let processor = Processor {
        template_element_filter: Tag("div"),
        content_processor: Refuse,
    };
    assert!(matches!(
        processor.process(&lookup),
        Err(TemplatingError::TemplateElementHasMoreThanOneChild)
    ));
}

#[test]
fn element_without_children_has_no_content() {
    let lookup = parse(
        b"<!DOCTYPE html><script type=\"application/spa-cfg\"></script>",
        "application/spa-cfg",
    );
    assert!(matches!(
        replace("", "x").process(&lookup),
        Err(TemplatingError::TemplateContentNotFound)
    ));
}

#[test]
fn element_with_an_element_child_has_no_text() {
    let lookup = parse_with(b"<!DOCTYPE html><div><b>x</b></div>", Tag("div"));
    let processor = Processor {
        template_element_filter: Tag("div"),
        content_processor: Refuse,
    };
    assert!(matches!(
        processor.process(&lookup),
        Err(TemplatingError::TemplateApplication(
            TemplateApplicationError::TemplateNonTextContent
        ))
    ));
}

#[test]
fn document_without_template_is_refused() {
    for html in [
        "<!DOCTYPE html><p>text</p>",
        "<!DOCTYPE html><script>let a = 1;</script>",
        "<!DOCTYPE html><script type=\"application/json\">{}</script>",
        "<!DOCTYPE html><div type=\"application/spa-cfg\">{}</div>",
        "",
    ] {
        let lookup = parse(html.as_bytes(), "application/spa-cfg");
        assert!(lookup.template_element.is_none());
        assert!(matches!(
            replace("{}", "x").process(&lookup),
            Err(TemplatingError::TemplateNotFound)
        ));
    }
}

#[test]
fn first_match_wins() {
    let html = "<!DOCTYPE html><html><head>\
<script type=\"application/spa-cfg\">first</script>\
<script type=\"application/spa-cfg\">second</script>\
</head><body></body></html>";
    let lookup = parse(html.as_bytes(), "application/spa-cfg");
    let output = replace("first", "1st").process(&lookup).unwrap();
    assert_eq!(
        String::from_utf8(output).unwrap(),
        html.replace("first", "1st")
    );
}

#[test]
fn first_created_element_wins_over_document_order() {
    // The element in the table is created first; the one in the division
    // is moved in front of the table when it is inserted.
    let html = "<!DOCTYPE html><table><script type=\"t\">A</script><div><script type=\"t\">B</script></div></table>";
    let lookup = parse(html.as_bytes(), "t");
    let processor = Processor {
        template_element_filter: ScriptTag {
            script_type: "t".to_string(),
        },
        content_processor: Expect {
            input: "A",
            output: "C",
        },
    };
    let output = String::from_utf8(processor.process(&lookup).unwrap()).unwrap();
    assert!(output.find(">B<").unwrap() < output.find(">C<").unwrap());
    assert!(!output.contains(">A<"));
}

#[test]
fn processor_failure_is_reported() {
    let lookup = parse(
        b"<!DOCTYPE html><script type=\"application/spa-cfg\">{}</script>",
        "application/spa-cfg",
    );
    let processor = Processor {
        template_element_filter: ScriptTag {
            script_type: "application/spa-cfg".to_string(),
        },
        content_processor: Refuse,
    };
    assert!(matches!(
        processor.process(&lookup),
        Err(TemplatingError::TemplateApplication(
            TemplateApplicationError::ContentProcessor("refused")
        ))
    ));
}

#[test]
fn strict_processing_refuses_parse_errors() {
    let lookup = parse(SAMPLE_HTML, "application/spa-cfg");
    match replace(SAMPLE_TEMPLATE, TEMPLATE_SUBSTITUTION).process_strict(&lookup) {
        Err(TemplatingError::HtmlParsing(errors)) => assert!(!errors.is_empty()),
        other => panic!("unexpected outcome {other:?}"),
    }
    // Nothing was replaced.
    let output = replace(SAMPLE_TEMPLATE, TEMPLATE_SUBSTITUTION)
        .process(&lookup)
        .unwrap();
    assert_output_eq(EXPECTED_HTML, &output);
}

#[test]
fn strict_processing_accepts_a_clean_document() {
    let html = "<!DOCTYPE html><html><head><script type=\"application/spa-cfg\">a</script></head><body></body></html>";
    let lookup = parse(html.as_bytes(), "application/spa-cfg");
    let output = replace("a", "b").process_strict(&lookup).unwrap();
    assert_eq!(String::from_utf8(output).unwrap(), html.replace(">a<", ">b<"));
}

#[test]
fn inert_content_is_written_as_read() {
    let html = "<!DOCTYPE html><html><head><noscript><link rel=\"stylesheet\" href=\"a&b.css\"></noscript>\
<script type=\"application/spa-cfg\">a < b && c</script></head><body></body></html>";
    let lookup = parse(html.as_bytes(), "application/spa-cfg");
    let output = replace("a < b && c", "<&>").process(&lookup).unwrap();
    assert_eq!(
        String::from_utf8(output).unwrap(),
        html.replace("a < b && c", "<&>")
    );
}

fn attribute(name: &str, value: &str) -> sap::html_templating::dom::Attribute {
    sap::html_templating::dom::Attribute {
        name: name.to_string(),
        value: value.to_string(),
    }
}

fn no_flags() -> sap::html_templating::dom::ElementFlags {
    sap::html_templating::dom::ElementFlags {
        template: false,
        mathml_annotation_xml_integration_point: false,
        had_duplicate_attributes: false,
    }
}

#[test]
fn script_tag_selects_by_name_and_type() {
    let filter = ScriptTag {
        script_type: "application/spa-cfg".to_string(),
    };
    let flags = no_flags();
    let typed = [attribute("type", "application/spa-cfg")];
    assert!(filter.is_selected("script", &typed, &flags));
    assert!(!filter.is_selected("div", &typed, &flags));
    assert!(!filter.is_selected("SCRIPT", &typed, &flags));
    assert!(!filter.is_selected("script", &[], &flags));
    assert!(!filter.is_selected("script", &[attribute("type", "module")], &flags));
    assert!(!filter.is_selected(
        "script",
        &[attribute("class", "application/spa-cfg")],
        &flags
    ));
    assert!(filter.is_selected(
        "script",
        &[
            attribute("id", "cfg"),
            attribute("type", "module"),
            attribute("type", "application/spa-cfg"),
        ],
        &flags
    ));
    assert!((&filter).is_selected("script", &typed, &flags));
}

#[test]
fn lookup_retains_the_first_selected_element() {
    let comment = |text: &str| {
        Node::new(NodeData::Comment {
            contents: text.into(),
        })
    };
    let (first, second, third) = (comment("1"), comment("2"), comment("3"));
    let mut lookup = TemplateNodeLookup::new(Tag("a"));
    assert!(lookup.template_element.is_none());
    lookup.create_element("b", &[], &no_flags(), &first);
    assert!(lookup.template_element.is_none());
    lookup.create_element("a", &[], &no_flags(), &second);
    assert!(std::rc::Rc::ptr_eq(
        lookup.template_element.as_ref().unwrap(),
        &second
    ));
    lookup.create_element("a", &[], &no_flags(), &third);
    lookup.create_element("b", &[], &no_flags(), &first);
    assert!(std::rc::Rc::ptr_eq(
        lookup.template_element.as_ref().unwrap(),
        &second
    ));
}

const PAGE: &str = "<!DOCTYPE html><html><head>\
<script type=\"application/spa-cfg\">{\"sampleKey\":\"sample_value\"}</script>\
</head><body><div id=\"app\"></div></body></html>";

fn app_env(value: EnvValue) -> Env {
    Env {
        vars: vec![EnvVar {
            name: "APP_SAMPLE_KEY".to_string(),
            value,
        }],
    }
}

fn engine(template_tag_presence: TemplateTagPresence) -> Engine {
    Engine {
        env_prefix: "APP_".to_string(),
        template_tag_presence,
    }
}

fn parse_for_engine(body: &[u8]) -> TemplateNodeLookup<ScriptTag> {
    let filter = Engine::template_element_filter();
    assert_eq!(filter.script_type, "application/spa-cfg");
    parse_with(body, filter)
}

#[test]
fn engine_templates_the_page_from_the_environment() {
    let mut body = PAGE.as_bytes().to_vec();
    let lookup = parse_for_engine(&body);
    let env = app_env(EnvValue::Unicode("changed_value".to_string()));
    engine(TemplateTagPresence::Required)
        .apply(&mut body, &lookup, &env)
        .unwrap();
    assert_eq!(
        String::from_utf8(body).unwrap(),
        PAGE.replace("sample_value", "changed_value")
    );
}

#[test]
fn engine_skips_a_page_without_template() {
    let page = "<html><body>no template here</body></html>";
    let mut body = page.as_bytes().to_vec();
    let lookup = parse_for_engine(&body);
    engine(TemplateTagPresence::SkipIfNotFound)
        .apply(&mut body, &lookup, &Env::new())
        .unwrap();
    assert_eq!(body, page.as_bytes());
}

#[test]
fn engine_requires_the_template() {
    let page = "<html><body>no template here</body></html>";
    let mut body = page.as_bytes().to_vec();
    let lookup = parse_for_engine(&body);
    assert!(matches!(
        engine(TemplateTagPresence::Required).apply(&mut body, &lookup, &Env::new()),
        Err(TemplatingError::TemplateNotFound)
    ));
    assert_eq!(body, page.as_bytes());
}

#[test]
fn engine_reports_other_errors_in_either_mode() {
    let page = "<!DOCTYPE html><script type=\"application/spa-cfg\">not json</script>";
    for presence in [
        TemplateTagPresence::Required,
        TemplateTagPresence::SkipIfNotFound,
    ] {
        let mut body = page.as_bytes().to_vec();
        let lookup = parse_for_engine(&body);
        assert!(matches!(
            engine(presence).apply(&mut body, &lookup, &Env::new()),
            Err(TemplatingError::TemplateApplication(
                TemplateApplicationError::ContentProcessor(JsonTemplatingError::Json(_))
            ))
        ));
        assert_eq!(body, page.as_bytes());
    }
}

#[test]
fn engine_reports_a_non_unicode_variable() {
    let mut body = PAGE.as_bytes().to_vec();
    let lookup = parse_for_engine(&body);
    let env = app_env(EnvValue::NotUnicode(vec![0xff]));
    match engine(TemplateTagPresence::Required).apply(&mut body, &lookup, &env) {
        Err(TemplatingError::TemplateApplication(TemplateApplicationError::ContentProcessor(
            JsonTemplatingError::Env(err),
        ))) => assert_eq!(err.env_var, "APP_SAMPLE_KEY"),
        other => panic!("unexpected outcome {other:?}"),
    }
    assert_eq!(body, PAGE.as_bytes());
}

#[test]
fn settings_template_the_page_from_the_environment() {
    let mut body = PAGE.as_bytes().to_vec();
    let lookup = parse_with(&body, SpaCfg::template_element_filter());
    let env = app_env(EnvValue::Unicode("changed_value".to_string()));
    let settings = SpaCfg {
        env_prefix: "APP_".to_string(),
        template_tag_presence: sap::spa_cfg::TemplateTagPresence::Required,
    };
    settings.apply(&mut body, &lookup, &env).unwrap();
    assert_eq!(
        String::from_utf8(body).unwrap(),
        PAGE.replace("sample_value", "changed_value")
    );

    let page = "<html><body>no template here</body></html>";
    let mut body = page.as_bytes().to_vec();
    let lookup = parse_with(&body, SpaCfg::template_element_filter());
    assert!(matches!(
        settings.apply(&mut body, &lookup, &env),
        Err(TemplatingError::TemplateNotFound)
    ));
    let lenient = SpaCfg {
        env_prefix: "APP_".to_string(),
        template_tag_presence: sap::spa_cfg::TemplateTagPresence::SkipIfNotFound,
    };
    lenient.apply(&mut body, &lookup, &env).unwrap();
    assert_eq!(body, page.as_bytes());
}

#[test]
fn sole_child_is_the_template() {
    let comment = |text: &str| {
        Node::new(NodeData::Comment {
            contents: text.into(),
        })
    };
    assert!(matches!(
        template_child::<Handle, ()>(&vec![]),
        Err(TemplatingError::TemplateContentNotFound)
    ));
    let one = vec![comment("1")];
    assert!(std::rc::Rc::ptr_eq(
        template_child::<Handle, ()>(&one).unwrap(),
        &one[0]
    ));
    for count in 2..5 {
        let children: Vec<Handle> = (0..count).map(|_| comment("x")).collect();
        assert!(matches!(
            template_child::<Handle, ()>(&children),
            Err(TemplatingError::TemplateElementHasMoreThanOneChild)
        ));
    }
}

#[test]
fn text_is_handed_to_the_processor() {
    let expect = Expect {
        input: "in",
        output: "out",
    };
    assert_eq!(
        processed_text(Some("in".to_string()), &expect).unwrap(),
        "out"
    );
    assert!(matches!(
        processed_text(None, &expect),
        Err(TemplateApplicationError::TemplateNonTextContent)
    ));
    assert!(matches!(
        processed_text(Some("in".to_string()), &Refuse),
        Err(TemplateApplicationError::ContentProcessor("refused"))
    ));
    assert!(matches!(
        processed_text(None, &Refuse),
        Err(TemplateApplicationError::TemplateNonTextContent)
    ));
}

#[test]
fn reported_errors_are_handed_back() {
    assert!(refuse_parse_errors::<()>(vec![]).is_ok());
    let errors = vec!["first".to_string(), "second".to_string()];
    match refuse_parse_errors::<()>(errors.clone()) {
        Err(TemplatingError::HtmlParsing(reported)) => assert_eq!(reported, errors),
        other => panic!("unexpected outcome {other:?}"),
    }
}

#[test]
fn strict_processing_reports_what_the_parser_reported() {
    let lookup = parse(b"<p>no doctype</p>", "application/spa-cfg");
    let reported: Vec<String> = lookup
        .rcdom
        .errors
        .borrow()
        .iter()
        .map(|error| error.to_string())
        .collect();
    assert!(!reported.is_empty());
    match replace("", "").process_strict(&lookup) {
        Err(TemplatingError::HtmlParsing(errors)) => assert_eq!(errors, reported),
        other => panic!("unexpected outcome {other:?}"),
    }
}

#[test]
fn whole_decision_over_the_children() {
    let expect = Expect {
        input: "in",
        output: "out",
    };
    let text = |text: &str| Some(text.to_string());
    assert_eq!(template_result(&vec![text("in")], &expect).unwrap(), "out");
    assert!(matches!(
        template_result(&vec![], &expect),
        Err(TemplatingError::TemplateContentNotFound)
    ));
    assert!(matches!(
        template_result(&vec![text("in"), text("in")], &expect),
        Err(TemplatingError::TemplateElementHasMoreThanOneChild)
    ));
    assert!(matches!(
        template_result(&vec![None, text("in")], &expect),
        Err(TemplatingError::TemplateElementHasMoreThanOneChild)
    ));
    assert!(matches!(
        template_result(&vec![None], &expect),
        Err(TemplatingError::TemplateApplication(
            TemplateApplicationError::TemplateNonTextContent
        ))
    ));
    assert!(matches!(
        template_result(&vec![text("in")], &Refuse),
        Err(TemplatingError::TemplateApplication(
            TemplateApplicationError::ContentProcessor("refused")
        ))
    ));
}
