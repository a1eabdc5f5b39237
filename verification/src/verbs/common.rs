use crate::{Conjugation, Mood, Number, Person, Tense, Voice};
use vstd::prelude::*;

verus! {

/// How a verb relates its active and passive morphology.
pub enum VerbType {
    Normal,
    Deponent,
    SemiDeponent,
    Defective,
    Irregular,
}

/// A verb given by its principal parts. Conjugation is not implemented
/// yet; the type records the data a future conjugator will need.
pub struct RegularVerb {
    conjugation: Conjugation,
    verb_type: VerbType,
    present: String,
    infinitive: String,
    perfect: String,
    passive: String,
}

/// A dictionary entry for a verb.
pub enum VerbEntry {
    Regular(RegularVerb),
    Irregular(),
}

/// One cell of a conjugation table: the coordinates of a single verb form.
pub struct VerbForm {
    pub tense: Tense,
    pub voice: Voice,
    pub mood: Mood,
    pub person: Person,
    pub number: Number,
}

/// Capability of producing verb forms. No conjugation family implements
/// it yet.
pub trait Conjugater {

}

} // verus!
