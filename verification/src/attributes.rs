//! The attributes of an enumeration: which ones a declaration may carry, and
//! the flags that they set.

use vstd::prelude::*;
use vstd::string::StringExecFns;
use crate::error::{outcome, ConversionError, ConversionErrorView};
use crate::syntax::{Attribute, AttributeView};

verus! {

/// What the attributes of a declaration say of its enumeration.
#[derive(Debug, Clone, Copy, PartialEq, Eq, Structural)]
pub struct AttributeFlags {
    /// The enumeration may gain variants later.
    pub non_exhaustive: bool,
}

impl View for AttributeFlags {
    type V = AttributeFlags;

    open spec fn view(&self) -> AttributeFlags {
        *self
    }
}

impl DeepView for AttributeFlags {
    type V = AttributeFlags;

    open spec fn deep_view(&self) -> AttributeFlags {
        *self
    }
}

/// The attribute `[NonExhaustive]`.
pub open spec fn is_non_exhaustive(attribute: AttributeView) -> bool {
    attribute.bare && attribute.name == "NonExhaustive"@
}

/// The attributes `[Enum]` and `[Error]`. They choose how a declaration is
/// converted, which the caller has settled already, and set no flag.
pub open spec fn is_marker(attribute: AttributeView) -> bool {
    attribute.bare && (attribute.name == "Enum"@ || attribute.name == "Error"@)
}

/// The attributes that an enumeration may carry.
pub open spec fn is_supported(attribute: AttributeView) -> bool {
    is_non_exhaustive(attribute) || is_marker(attribute)
}

/// Every attribute of the list is one that an enumeration may carry.
pub open spec fn all_supported(attributes: Seq<AttributeView>) -> bool {
    forall|i: int| 0 <= i < attributes.len() ==> is_supported(#[trigger] attributes[i])
}

/// `k` is the place of the first attribute that no enumeration may carry.
pub open spec fn is_first_unsupported(attributes: Seq<AttributeView>, k: int) -> bool {
    &&& 0 <= k < attributes.len()
    &&& !is_supported(attributes[k])
    &&& forall|j: int| 0 <= j < k ==> is_supported(#[trigger] attributes[j])
}

/// The place of the first attribute that no enumeration may carry, in a list
/// that holds one.
pub open spec fn first_unsupported(attributes: Seq<AttributeView>) -> int {
    choose|k: int| is_first_unsupported(attributes, k)
}

/// The list holds `[NonExhaustive]`.
pub open spec fn has_non_exhaustive(attributes: Seq<AttributeView>) -> bool {
    exists|i: int| 0 <= i < attributes.len() && is_non_exhaustive(#[trigger] attributes[i])
}

/// What an attribute list means: its flags, or the first attribute that makes
/// the list malformed. The order of the attributes matters to nothing else.
pub open spec fn interpreted(attributes: Seq<AttributeView>) -> Result<
    AttributeFlags,
    ConversionErrorView,
> {
    if all_supported(attributes) {
        Ok(AttributeFlags { non_exhaustive: has_non_exhaustive(attributes) })
    } else {
        Err(ConversionErrorView::MalformedAttributes(attributes[first_unsupported(attributes)].name))
    }
}

/// In any list, at most one place is that of the first unsupported attribute.
pub proof fn lemma_first_unsupported_unique(attributes: Seq<AttributeView>, k: int)
    requires
        is_first_unsupported(attributes, k),
    ensures
        first_unsupported(attributes) == k,
        !all_supported(attributes),
{
    let chosen = first_unsupported(attributes);
    assert(is_first_unsupported(attributes, chosen));
    if chosen < k {
        assert(is_supported(attributes[chosen]));
    }
    if k < chosen {
        assert(is_supported(attributes[k]));
    }
}

fn text_is(text: &String, word: &str) -> (same: bool)
    ensures
        same == (text@ == word@),
{
    let other = String::from_str(word);
    *text == other
}

/// Reads the attribute list of a declaration.
pub fn interpret(attributes: &Vec<Attribute>) -> (result: Result<AttributeFlags, ConversionError>)
    ensures
        outcome(result) == interpreted(attributes.deep_view()),
{
    let ghost list = attributes.deep_view();
    let mut non_exhaustive = false;
    let mut i: usize = 0;
    while i < attributes.len()
        invariant
            0 <= i <= attributes.len(),
            list == attributes.deep_view(),
            forall|j: int| 0 <= j < i ==> is_supported(#[trigger] list[j]),
            non_exhaustive == has_non_exhaustive(list.take(i as int)),
        decreases attributes.len() - i,
    {
        let attribute = &attributes[i];
        assert(list[i as int] == attribute@);
        let flag = attribute.bare && text_is(&attribute.name, "NonExhaustive");
        let marker = attribute.bare && (text_is(&attribute.name, "Enum") || text_is(
            &attribute.name,
            "Error",
        ));
        if !flag && !marker {
            proof {
                lemma_first_unsupported_unique(list, i as int);
            }
            return Err(ConversionError::MalformedAttributes(attribute.name.clone()));
        }
        proof {
            let before = list.take(i as int);
            let after = list.take(i + 1);
            if has_non_exhaustive(before) {
                let w = choose|w: int| 0 <= w < before.len() && is_non_exhaustive(before[w]);
                assert(is_non_exhaustive(after[w]));
            }
            if flag {
                assert(is_non_exhaustive(after[i as int]));
            }
            if has_non_exhaustive(after) {
                let w = choose|w: int| 0 <= w < after.len() && is_non_exhaustive(after[w]);
                if w < i {
                    assert(is_non_exhaustive(before[w]));
                }
            }
        }
        non_exhaustive = non_exhaustive || flag;
        i += 1;
    }
    proof {
        assert(list.take(i as int) =~= list);
    }
    Ok(AttributeFlags { non_exhaustive })
}

} // verus!
