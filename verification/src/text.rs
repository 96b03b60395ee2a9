//! Text that players see.

use vstd::prelude::*;
use text_components::translation::TranslatedMessage;
use text_components::TextComponent;

verus! {

/// A piece of rich text.
#[verifier::external_type_specification]
#[verifier::external_body]
pub struct ExTextComponent(text_components::TextComponent);

/// The component that [`TextComponent::plain`] makes of a text.
pub uninterp spec fn plain_component(text: Seq<char>) -> TextComponent;

/// Calls [`TextComponent::plain`], which makes a component whose content is the
/// text, without children, format or interactions.
///
/// The contract says that the component is determined by the text; it says
/// nothing of how the component is built up.
#[verifier::external_body]
pub(crate) fn plain_text(text: &'static str) -> (component: TextComponent)
    ensures
        component == plain_component(text@),
{
    TextComponent::plain(text)
}

/// The component that [`TextComponent::translated`] makes of a message that has
/// the given key, no arguments and no fallback.
pub uninterp spec fn translated_component(key: Seq<char>) -> TextComponent;

/// Calls [`TextComponent::translated`], which makes a component whose content is
/// the message, without children, format or interactions. The message has the
/// key, no arguments and no fallback.
///
/// The contract says that the component is determined by the key; it says
/// nothing of how the component is built up.
#[verifier::external_body]
pub(crate) fn translated_text(key: &'static str) -> (component: TextComponent)
    ensures
        component == translated_component(key@),
{
    TextComponent::translated(TranslatedMessage::new(key, None))
}

} // verus!
