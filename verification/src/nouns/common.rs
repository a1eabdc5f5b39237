use crate::nouns::first_declension::{
    fifth_decline_spec, fifth_recognizes, first_decline_spec, first_greek_any, first_standard,
    fourth_cornu, fourth_decline_spec, fourth_greek, fourth_us, second_decline_spec,
    second_recognizes, FifthDeclension, FirstDeclension, FourthDeclension, SecondDeclension,
    ThirdDeclension,
};
use crate::{ends_with, folded, lower_no_macrons, str_ends_with, Case, Declension, Gender, Number};
use vstd::prelude::*;
use vstd::string::StrSliceExecFns;

verus! {

/// A noun as the user supplies it: nominative and genitive singular with
/// their macrons, a gender, and the two fields the dispatcher derives
/// once, the declension family and the loanword flag.
pub struct RegularNoun {
    pub declension: Declension,
    pub gender: Gender,
    pub is_greek: bool,
    pub nom: String,
    pub gen: String,
}

/// A dictionary entry for a noun or adjective.
pub enum NounAdjectiveEntry {
    Regular(RegularNoun),
    Irregular(),
}

/// One cell of a declension table: the coordinates of a single noun form.
pub struct NounAdjectiveForm {
    pub gender: Gender,
    pub case: Case,
    pub number: Number,
}

/// Capability of one declension family: recognize a noun and produce its
/// endings. An implementor must return `None` from `get_ending` for every
/// form of a noun its family does not recognize — it never guesses — and
/// `decline` adds no matching logic of its own: it expands the ending
/// returned by `get_ending` over the family's stem.
pub trait RegularDeclinor: Sized {
    /// The ending token this family assigns to the requested form, or
    /// `None` when the noun is not recognized or the cell is defective.
    spec fn ending_spec(&self, entry: &RegularNoun, form: &NounAdjectiveForm) -> Option<Seq<char>>;

    /// The fully expanded surface form(s) for the requested cell.
    spec fn decline_spec(&self, entry: &RegularNoun, form: &NounAdjectiveForm) -> Option<Seq<char>>;

    fn get_ending(&self, entry: &RegularNoun, form: &NounAdjectiveForm) -> (r: Option<
        &'static str,
    >)
        ensures
            r.deep_view() == self.ending_spec(entry, form),
    ;

    fn decline(&self, entry: &RegularNoun, form: &NounAdjectiveForm) -> (r: Option<String>)
        ensures
            r.deep_view() == self.decline_spec(entry, form),
    ;
}

// ---------------------------------------------------------------------------
// The dispatcher
// ---------------------------------------------------------------------------
/// Whether a family is willing to claim a noun, judged — as the
/// dispatcher judges it — by whether the family declines the noun's
/// nominative singular. The second family also needs a nonempty genitive
/// to trim its stem from.
pub open spec fn family_claims(d: Declension, nom: Seq<char>, gen: Seq<char>) -> bool {
    match d {
        Declension::Irregular => false,
        Declension::First => first_standard(folded(nom), folded(gen)) || first_greek_any(
            folded(nom),
            folded(gen),
        ),
        Declension::Second => second_recognizes(folded(nom), folded(gen)) && gen.len() >= 1,
        Declension::Third => false,
        Declension::Fourth => fourth_cornu(folded(nom), folded(gen)) || fourth_greek(
            folded(nom),
            folded(gen),
        ) || fourth_us(folded(nom), folded(gen)),
        Declension::Fifth => fifth_recognizes(folded(nom), folded(gen)),
    }
}

/// The fixed priority order in which families are tried; smaller is
/// earlier. `Irregular` is no family and stands outside the order.
pub open spec fn family_order(d: Declension) -> int {
    match d {
        Declension::Irregular => 0,
        Declension::First => 1,
        Declension::Second => 2,
        Declension::Third => 3,
        Declension::Fourth => 4,
        Declension::Fifth => 5,
    }
}

/// The family a noun is classified into: the first family in the fixed
/// order First to Fifth that claims it, or nothing when none does.
pub open spec fn classify_spec(nom: Seq<char>, gen: Seq<char>) -> Option<Declension> {
    if family_claims(Declension::First, nom, gen) {
        Some(Declension::First)
    } else if family_claims(Declension::Second, nom, gen) {
        Some(Declension::Second)
    } else if family_claims(Declension::Third, nom, gen) {
        Some(Declension::Third)
    } else if family_claims(Declension::Fourth, nom, gen) {
        Some(Declension::Fourth)
    } else if family_claims(Declension::Fifth, nom, gen) {
        Some(Declension::Fifth)
    } else {
        None
    }
}

/// The derived loanword flag: only the second family inspects it, and it
/// holds exactly of a second-family noun whose folded nominative ends in
/// "os" or "on".
pub open spec fn is_loanword_spec(d: Declension, nom: Seq<char>) -> bool {
    (d is Second) && (ends_with(folded(nom), "os"@) || ends_with(folded(nom), "on"@))
}

/// What the chosen family declines a noun to: the dispatch table, one
/// entry per family, in spec form.
pub open spec fn family_decline_spec(
    d: Declension,
    entry: &RegularNoun,
    form: &NounAdjectiveForm,
) -> Option<Seq<char>> {
    match d {
        Declension::Irregular => None,
        Declension::First => first_decline_spec(entry, form),
        Declension::Second => second_decline_spec(entry, form),
        Declension::Third => None,
        Declension::Fourth => fourth_decline_spec(entry, form),
        Declension::Fifth => fifth_decline_spec(entry, form),
    }
}

/// Declines a noun with the given family's rules. An unclassified noun
/// has no paradigm.
pub fn decline_for_family(d: Declension, entry: &RegularNoun, form: &NounAdjectiveForm) -> (r:
    Option<String>)
    ensures
        r.deep_view() == family_decline_spec(d, entry, form),
{
    match d {
        Declension::Irregular => None,
        Declension::First => FirstDeclension().decline(entry, form),
        Declension::Second => SecondDeclension().decline(entry, form),
        Declension::Third => ThirdDeclension().decline(entry, form),
        Declension::Fourth => FourthDeclension().decline(entry, form),
        Declension::Fifth => FifthDeclension().decline(entry, form),
    }
}

impl RegularNoun {
    /// The dispatcher. Tries the five families in their fixed order
    /// against the nominative-singular form; the first family willing to
    /// decline it claims the noun, and the claim is recorded once and for
    /// all. On success the loanword flag is then derived from the chosen
    /// family and the folded nominative. When no family claims the noun,
    /// it is left untouched and classification reports failure.
    pub fn classify(&mut self) -> (ok: bool)
        requires
            old(self).declension is Irregular,
        ensures
            final(self).nom == old(self).nom,
            final(self).gen == old(self).gen,
            final(self).gender == old(self).gender,
            match classify_spec(old(self).nom@, old(self).gen@) {
                Some(d) => ok && final(self).declension == d && final(self).is_greek
                    == is_loanword_spec(d, old(self).nom@),
                None => !ok && *final(self) == *old(self),
            },
    {
        let probe = NounAdjectiveForm {
            gender: Gender::Masculine,
            case: Case::Nominative,
            number: Number::Singular,
        };
        let d: Declension;
        if FirstDeclension().decline(self, &probe).is_some() {
            d = Declension::First;
        } else if SecondDeclension().decline(self, &probe).is_some() {
            d = Declension::Second;
        } else if ThirdDeclension().decline(self, &probe).is_some() {
            d = Declension::Third;
        } else if FourthDeclension().decline(self, &probe).is_some() {
            d = Declension::Fourth;
        } else if FifthDeclension().decline(self, &probe).is_some() {
            d = Declension::Fifth;
        } else {
            return false;
        }
        self.declension = d;
        let nomf = lower_no_macrons(self.nom.as_str());
        self.is_greek = matches!(self.declension, Declension::Second) && (str_ends_with(
            nomf.as_str(),
            "os",
        ) || str_ends_with(nomf.as_str(), "on"));
        true
    }
}

/// The case standing in the given row of the output table, in the fixed
/// order nominative, genitive, dative, accusative, ablative, vocative,
/// locative.
pub open spec fn case_of(i: int) -> Case {
    if i == 0 {
        Case::Nominative
    } else if i == 1 {
        Case::Genitive
    } else if i == 2 {
        Case::Dative
    } else if i == 3 {
        Case::Accusative
    } else if i == 4 {
        Case::Ablative
    } else if i == 5 {
        Case::Vocative
    } else {
        Case::Locative
    }
}

fn case_from_slot(i: usize) -> (c: Case)
    requires
        i < 7,
    ensures
        c == case_of(i as int),
{
    match i {
        0 => Case::Nominative,
        1 => Case::Genitive,
        2 => Case::Dative,
        3 => Case::Accusative,
        4 => Case::Ablative,
        5 => Case::Vocative,
        _ => Case::Locative,
    }
}

/// Cell `i` of the paradigm table: cases in their fixed order, the
/// singular before the plural within each case.
pub open spec fn table_cell_spec(noun: &RegularNoun, i: int) -> Option<Seq<char>> {
    family_decline_spec(
        noun.declension,
        noun,
        &(NounAdjectiveForm {
            gender: noun.gender,
            case: case_of(i / 2),
            number: if i % 2 == 0 {
                Number::Singular
            } else {
                Number::Plural
            },
        }),
    )
}

/// Generates the noun's full paradigm: one cell for every case/number
/// combination, fourteen in all, each either a surface form (possibly
/// several, "/"-joined) or nothing for a defective cell. The table is
/// total: no combination is omitted.
pub fn decline_table(noun: &RegularNoun) -> (r: Vec<Option<String>>)
    ensures
        r@.len() == 14,
        forall|i: int| 0 <= i < 14 ==> r@[i].deep_view() == table_cell_spec(noun, i),
{
    let mut r: Vec<Option<String>> = Vec::new();
    let mut ci: usize = 0;
    while ci < 7
        invariant
            ci <= 7,
            r@.len() == 2 * ci,
            forall|i: int| 0 <= i < r@.len() ==> r@[i].deep_view() == table_cell_spec(noun, i),
        decreases 7 - ci,
    {
        let case = case_from_slot(ci);
        let sing = decline_for_family(
            noun.declension,
            noun,
            &NounAdjectiveForm { gender: noun.gender, case, number: Number::Singular },
        );
        r.push(sing);
        let plur = decline_for_family(
            noun.declension,
            noun,
            &NounAdjectiveForm { gender: noun.gender, case, number: Number::Plural },
        );
        r.push(plur);
        ci += 1;
    }
    r
}

impl NounAdjectiveEntry {
    /// Declines the entry for one form with its recorded family's rules.
    /// An irregular entry has no regular paradigm.
    pub fn decline(&self, form: &NounAdjectiveForm) -> (r: Option<String>)
        ensures
            r.deep_view() == (match self {
                NounAdjectiveEntry::Regular(n) => family_decline_spec(n.declension, n, form),
                NounAdjectiveEntry::Irregular() => None::<Seq<char>>,
            }),
    {
        match self {
            NounAdjectiveEntry::Regular(n) => decline_for_family(n.declension, n, form),
            NounAdjectiveEntry::Irregular() => None,
        }
    }
}

/// Law: determinism. Classification and table generation are functions of
/// the noun's fields alone: two nouns that agree on their texts, gender,
/// family and loanword flag are classified alike and generate identical
/// tables, cell for cell.
pub proof fn lemma_generation_deterministic(a: &RegularNoun, b: &RegularNoun)
    requires
        a.nom@ == b.nom@,
        a.gen@ == b.gen@,
        a.gender == b.gender,
        a.declension == b.declension,
        a.is_greek == b.is_greek,
    ensures
        classify_spec(a.nom@, a.gen@) == classify_spec(b.nom@, b.gen@),
        forall|i: int| 0 <= i < 14 ==> table_cell_spec(a, i) == table_cell_spec(b, i),
{
    assert forall|i: int| 0 <= i < 14 implies table_cell_spec(a, i) == table_cell_spec(b, i) by {
    }
}

/// Law: dispatch priority. A noun that two families both claim is always
/// classified into the one that stands earlier in the fixed order — never
/// the later one.
pub proof fn lemma_dispatch_priority(
    nom: Seq<char>,
    gen: Seq<char>,
    earlier: Declension,
    later: Declension,
)
    requires
        family_claims(earlier, nom, gen),
        family_claims(later, nom, gen),
        family_order(earlier) < family_order(later),
    ensures
        match classify_spec(nom, gen) {
            Some(f) => family_order(f) <= family_order(earlier) && f != later,
            None => false,
        },
{
}

} // verus!
