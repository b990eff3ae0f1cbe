//! The template node lookup, which runs while a document is parsed.

use markup5ever_rcdom::{Node, RcDom};
use std::rc::Rc;
use vstd::prelude::*;

verus! {

/// `markup5ever_rcdom::RcDom`: the DOM that a parse builds, carried through as it is.
#[verifier::external_type_specification]
#[verifier::external_body]
pub struct ExRcDom(RcDom);

/// `markup5ever_rcdom::Node`: a node of the DOM, carried through as it is.
#[verifier::external_type_specification]
#[verifier::external_body]
pub struct ExNode(Node);

/// The handle type for the DOM nodes.
pub type Handle = Rc<Node>;

/// An attribute of an element: its local name and its value.
#[derive(Debug, Clone)]
pub struct Attribute {
    /// The local name of the attribute.
    pub name: String,
    /// The value of the attribute.
    pub value: String,
}

/// The flags that an element is created with.
#[derive(Debug, Clone, Copy)]
pub struct ElementFlags {
    /// The element is a template element.
    pub template: bool,
    /// The element is a MathML annotation-xml integration point.
    pub mathml_annotation_xml_integration_point: bool,
    /// The start tag held an attribute more than once.
    pub had_duplicate_attributes: bool,
}

/// An attribute as a pair of texts: its local name and its value.
pub type AttributeText = (Seq<char>, Seq<char>);

/// The attributes as pairs of texts.
pub open spec fn attribute_texts(attrs: Seq<Attribute>) -> Seq<AttributeText> {
    attrs.map_values(|a: Attribute| (a.name@, a.value@))
}

/// A trait for filtering template elements.
pub trait TemplateElementFilter {
    /// Whether the filter selects an element with this local name, these attributes and
    /// these flags.
    open spec fn selects(
        &self,
        name: Seq<char>,
        attrs: Seq<AttributeText>,
        flags: ElementFlags,
    ) -> bool {
        false
    }

    /// Check if the element is selected.
    fn is_selected(&self, name: &str, attrs: &[Attribute], flags: &ElementFlags) -> (r: bool)
        ensures
            r == self.selects(name@, attribute_texts(attrs@), *flags),
    ;
}

impl<T: TemplateElementFilter> TemplateElementFilter for &T {
    open spec fn selects(&self, name: Seq<char>, attrs: Seq<AttributeText>, flags: ElementFlags) -> bool {
        (**self).selects(name, attrs, flags)
    }

    fn is_selected(&self, name: &str, attrs: &[Attribute], flags: &ElementFlags) -> (r: bool) {
        (*self).is_selected(name, attrs, flags)
    }
}

/// What the lookup retains after an element was created: the element that it retained
/// before, if any; else the new element, if it is selected.
pub open spec fn retained<H>(before: Option<H>, selected: bool, created: H) -> Option<H> {
    if before is None && selected {
        Some(created)
    } else {
        before
    }
}

/// What the lookup retains after the elements `created` were created in this order,
/// each with the filter's answer for it.
pub open spec fn retained_after<H>(before: Option<H>, created: Seq<(bool, H)>) -> Option<H>
    decreases created.len(),
{
    if created.len() == 0 {
        before
    } else {
        retained_after(retained(before, created[0].0, created[0].1), created.drop_first())
    }
}

/// The index of the first selected element among `created`; their number where none is.
pub open spec fn first_selected<H>(created: Seq<(bool, H)>) -> int
    decreases created.len(),
{
    if created.len() == 0 {
        0
    } else if created[0].0 {
        0
    } else {
        1 + first_selected(created.drop_first())
    }
}

/// An element that the lookup has retained stays retained, whatever is created later.
pub proof fn retained_stays<H>(kept: H, created: Seq<(bool, H)>)
    ensures
        retained_after(Some(kept), created) == Some(kept),
    decreases created.len(),
{
    if created.len() > 0 {
        retained_stays(kept, created.drop_first());
    }
}

/// The first match wins: a lookup that starts empty retains the first selected element
/// in the order of creation and ignores every later match; it retains none exactly
/// where none was selected.
pub proof fn first_match_wins<H>(created: Seq<(bool, H)>)
    ensures
        0 <= first_selected(created) <= created.len(),
        forall|i: int| 0 <= i < first_selected(created) ==> !(#[trigger] created[i]).0,
        first_selected(created) < created.len() ==> created[first_selected(created)].0
            && retained_after(None, created) == Some(created[first_selected(created)].1),
        first_selected(created) == created.len() ==> retained_after(None::<H>, created) is None,
    decreases created.len(),
{
    if created.len() == 0 {
    } else if created[0].0 {
        retained_stays(created[0].1, created.drop_first());
    } else {
        let rest = created.drop_first();
        first_match_wins(rest);
        let k = first_selected(rest);
        if k < rest.len() {
            assert(created[k + 1] == rest[k]);
        }
        assert forall|i: int| 0 <= i < 1 + k implies !(#[trigger] created[i]).0 by {
            if i > 0 {
                assert(created[i] == rest[i - 1]);
            }
        }
    }
}

/// `RcDom::default`: a DOM that holds an empty document.
#[verifier::external_body]
fn new_dom() -> RcDom {
    RcDom::default()
}

/// A struct representing the template node lookup.
pub struct TemplateNodeLookup<TemplateElementFilter> {
    /// The RcDom instance.
    pub rcdom: RcDom,
    /// The filter to select the template element.
    pub template_element_filter: TemplateElementFilter,
    /// The template element handle.
    pub template_element: Option<Handle>,
}

impl<TemplateElementFilter> TemplateNodeLookup<TemplateElementFilter> {
    /// Create a new TemplateNodeLookup instance.
    pub fn new(template_element_filter: TemplateElementFilter) -> (r: Self)
        ensures
            r.template_element is None,
            r.template_element_filter == template_element_filter,
    {
        Self { rcdom: new_dom(), template_element_filter, template_element: None }
    }
}

impl<TemplateElementFilter: self::TemplateElementFilter> TemplateNodeLookup<TemplateElementFilter> {
    /// Take note of an element that the DOM has created: the first selected element is
    /// retained, later ones are ignored.
    pub fn create_element(
        &mut self,
        name: &str,
        attrs: &[Attribute],
        flags: &ElementFlags,
        handle: &Handle,
    )
        ensures
            final(self).template_element == retained(
                old(self).template_element,
                old(self).template_element_filter.selects(name@, attribute_texts(attrs@), *flags),
                *handle,
            ),
            final(self).template_element_filter == old(self).template_element_filter,
            final(self).rcdom == old(self).rcdom,
    {
        let is_target_element = self.template_element_filter.is_selected(name, attrs, flags);
        if is_target_element {
            if self.template_element.is_none() {
                self.template_element = Some(handle.clone());
            }
        }
    }
}

} // verus!
