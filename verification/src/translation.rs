//! Interpreting the translation provider's answer.  The provider returns a
//! list of candidate translations; the relay keeps the first one, and treats
//! "the content already was in the target language" as a no-op signalled by
//! an empty translated text.

use vstd::prelude::*;

verus! {

/// Mathematical view of a [`Translation`].
pub ghost struct TranslationView {
    pub text: Seq<char>,
    pub detected_source_language: Seq<char>,
}

/// One candidate translation as the provider returns it: the translated text
/// and the language the provider detected the original to be written in.
pub struct Translation {
    pub text: String,
    pub detected_source_language: String,
}

impl View for Translation {
    type V = TranslationView;

    open spec fn view(&self) -> TranslationView {
        TranslationView {
            text: self.text@,
            detected_source_language: self.detected_source_language@,
        }
    }
}

impl Clone for Translation {
    fn clone(&self) -> (r: Self)
        ensures
            r@ == self@,
    {
        Translation {
            text: self.text.clone(),
            detected_source_language: self.detected_source_language.clone(),
        }
    }
}

/// What the relay keeps of a provider answer whose first candidate is
/// `first`: the candidate itself, unless the content already was in the
/// target language, in which case an empty text signals the no-op.
pub open spec fn spec_select_translation(
    first: TranslationView,
    language_code: Seq<char>,
) -> TranslationView {
    if first.detected_source_language == language_code {
        TranslationView { text: Seq::<char>::empty(), detected_source_language: language_code }
    } else {
        first
    }
}

/// Reduces the provider's candidate list to the translation the relay acts
/// on.  Keeps the first candidate; when its detected source language equals
/// the requested target language the content needs no translation, and the
/// empty text signals that no-op.
pub fn select_translation(translations: &Vec<Translation>, language_code: &String) -> (r:
    Translation)
    requires
        translations@.len() > 0,
    ensures
        r@ == spec_select_translation(translations@[0]@, language_code@),
{
    let first = &translations[0];
    if first.detected_source_language == *language_code {
        Translation {
            text: String::new(),
            detected_source_language: language_code.clone(),
        }
    } else {
        first.clone()
    }
}

/// Content already in the target language always comes back as the no-op
/// signal: an empty text.
pub proof fn lemma_noop_when_already_in_target(first: TranslationView, language_code: Seq<char>)
    requires
        first.detected_source_language == language_code,
    ensures
        spec_select_translation(first, language_code).text.len() == 0,
{
}

} // verus!
