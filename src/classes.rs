//! Choosing the audio-processing class among those a factory lists.
use vstd::prelude::*;
use crate::model::ClassDescriptor;
use crate::text::{chars_of, contains_chars, contains_seq};

verus! {

/// The category marker of the classes that process audio.
pub open spec fn audio_marker() -> Seq<char> {
    "Audio Module Class"@
}

/// The class processes audio: its category holds the marker.
pub open spec fn is_audio_class(c: ClassDescriptor) -> bool {
    contains_seq(c.category@, audio_marker())
}

/// The index of the first audio class at or after `from`, if there is one.
pub open spec fn audio_class_from(classes: Seq<ClassDescriptor>, from: int) -> Option<int>
    decreases classes.len() - from,
{
    if from < 0 || from >= classes.len() {
        None
    } else if is_audio_class(classes[from]) {
        Some(from)
    } else {
        audio_class_from(classes, from + 1)
    }
}

/// The index of the first audio class, if there is one.
pub open spec fn first_audio_class(classes: Seq<ClassDescriptor>) -> Option<int> {
    audio_class_from(classes, 0)
}

proof fn lemma_audio_class_from(classes: Seq<ClassDescriptor>, from: int)
    requires
        0 <= from,
    ensures
        audio_class_from(classes, from) matches Some(k) ==> from <= k < classes.len()
            && is_audio_class(classes[k])
            && forall|j: int| from <= j < k ==> !is_audio_class(#[trigger] classes[j]),
        audio_class_from(classes, from) is None ==> forall|j: int|
            from <= j < classes.len() ==> !is_audio_class(#[trigger] classes[j]),
    decreases classes.len() - from,
{
    if from < classes.len() && !is_audio_class(classes[from]) {
        lemma_audio_class_from(classes, from + 1);
    }
}

/// The first audio class is the earliest class whose category holds the
/// marker, and there is none exactly when no category holds it.
pub proof fn lemma_first_audio_class(classes: Seq<ClassDescriptor>)
    ensures
        first_audio_class(classes) matches Some(k) ==> 0 <= k < classes.len()
            && is_audio_class(classes[k])
            && forall|j: int| 0 <= j < k ==> !is_audio_class(#[trigger] classes[j]),
        first_audio_class(classes) is None <==> forall|j: int|
            0 <= j < classes.len() ==> !is_audio_class(#[trigger] classes[j]),
{
    lemma_audio_class_from(classes, 0);
}

/// Whether the class processes audio.
pub fn class_is_audio(c: &ClassDescriptor) -> (r: bool)
    ensures
        r == is_audio_class(*c),
{
    let marker = chars_of("Audio Module Class");
    let category = chars_of(c.category.as_str());
    contains_chars(&category, &marker)
}

/// The index of the first class whose category marks it as an audio module.
pub fn find_audio_class(classes: &Vec<ClassDescriptor>) -> (r: Option<usize>)
    ensures
        r matches Some(k) ==> first_audio_class(classes@) == Some(k as int),
        r is None ==> first_audio_class(classes@) is None,
{
    let mut i: usize = 0;
    while i < classes.len()
        invariant
            i <= classes@.len(),
            audio_class_from(classes@, i as int) == first_audio_class(classes@),
        decreases classes@.len() - i,
    {
        if class_is_audio(&classes[i]) {
            return Some(i);
        }
        i = i + 1;
    }
    None
}

} // verus!
