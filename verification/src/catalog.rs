//! The locale catalog: the bundled list of supported locales a front end
//! offers for selection. Each entry carries a machine identifier, human
//! readable labels and the raw locale string; a label chosen by the user
//! must resolve back to its entry.

use vstd::prelude::*;

verus! {

/// One entry of the bundled locale list.
pub struct Lang {
    /// The language name in English.
    pub lang_english: String,
    /// The raw locale string applied to the system (tag and encoding).
    pub lang: String,
    /// The locale identifier handed to the pipeline.
    pub locale: String,
    /// The label shown to the user; selection resolves by this field.
    pub text: String,
    /// The machine identifier of the entry.
    pub data: String,
}

/// Resolves a label back to its catalog entry: the index of the first
/// entry whose label equals `text`, or `None` when no entry matches. A
/// missing match for a label that was offered is a programming error, not
/// a user error; the caller decides how hard to fail.
pub fn find_lang_by_text(langs: &Vec<Lang>, text: &str) -> (r: Option<usize>)
    ensures
        match r {
            Option::Some(i) => i < langs@.len() && langs@[i as int].text@ == text@ && (forall|j: int|
                0 <= j < i ==> langs@[j].text@ != text@),
            Option::None => forall|j: int| 0 <= j < langs@.len() ==> langs@[j].text@ != text@,
        },
{
    let wanted = text.to_owned();
    let n = langs.len();
    for i in 0..n
        invariant
            n == langs@.len(),
            wanted@ == text@,
            forall|j: int| 0 <= j < i ==> langs@[j].text@ != text@,
    {
        if langs[i].text == wanted {
            return Some(i);
        }
    }
    None
}

} // verus!
