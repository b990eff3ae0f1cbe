//! Template element filters.

use crate::html_templating::dom::{Attribute, AttributeText, ElementFlags, TemplateElementFilter};
use crate::text::str_eq;
use vstd::prelude::*;

verus! {

/// The local name of script elements.
pub open spec fn script_element() -> Seq<char> {
    "script"@
}

/// The local name of the attribute that holds the type of a script element.
pub open spec fn type_attribute() -> Seq<char> {
    "type"@
}

/// Whether one of the attributes is named `type` and has the value `script_type`.
pub open spec fn has_type(attrs: Seq<AttributeText>, script_type: Seq<char>) -> bool {
    exists|i: int| 0 <= i < attrs.len() && #[trigger] attrs[i] == (type_attribute(), script_type)
}

/// A filter for script tags with a specific type.
#[derive(Debug, Clone)]
pub struct ScriptTag {
    /// The script type to filter.
    pub script_type: String,
}

impl TemplateElementFilter for ScriptTag {
    /// A script element with a `type` attribute of the given value is selected, and
    /// nothing else.
    open spec fn selects(&self, name: Seq<char>, attrs: Seq<AttributeText>, flags: ElementFlags) -> bool {
        name == script_element() && has_type(attrs, self.script_type@)
    }

    fn is_selected(&self, name: &str, attrs: &[Attribute], _flags: &ElementFlags) -> (r: bool) {
        if !str_eq(name, "script") {
            return false;
        }
        let ghost texts = crate::html_templating::dom::attribute_texts(attrs@);
        let mut i: usize = 0;
        while i < attrs.len()
            invariant
                0 <= i <= attrs.len(),
                texts == crate::html_templating::dom::attribute_texts(attrs@),
                name@ == script_element(),
                forall|j: int| 0 <= j < i ==> texts[j] != (type_attribute(), self.script_type@),
            decreases attrs.len() - i,
        {
            if str_eq(attrs[i].name.as_str(), "type") && str_eq(
                self.script_type.as_str(),
                attrs[i].value.as_str(),
            ) {
                assert(texts[i as int] == (type_attribute(), self.script_type@));
                return true;
            }
            i += 1;
        }
        false
    }
}

} // verus!
