use crate::nouns::common::{NounAdjectiveForm, RegularDeclinor, RegularNoun};
use crate::{
    ends_with, folded, lower_no_macrons, str_ends_with, str_eq, Case, Number,
};
use vstd::prelude::*;
use vstd::string::{StrSliceExecFns, StringExecFns};

verus! {

// ---------------------------------------------------------------------------
// The ending-notation mini-language.
//
// An ending token names one or more alternative surface endings:
//   - "/" separates alternatives; every alternative is a valid word form.
//   - a leading "?" marks optional syncopation: when the stem ends in "i"
//     (the contraction trigger), both the contracted archaic form and the
//     plain form are produced; otherwise the marker is dropped.
//   - a leading "!" marks mandatory syncopation: when the stem qualifies,
//     only the contracted form is produced; otherwise the alternative
//     degrades to the fixed fallback ending "e" supplied by the rule
//     author (second-declension vocative).
//   - "@tag" marks a variant as archaic, poetic or dialectal; the tag is
//     carried into the literal output, not interpreted.
//   - the empty token reuses the literal nominative verbatim.
// ---------------------------------------------------------------------------
/// A stem can be syncopated exactly when its folded image ends in "i".
pub open spec fn is_candidate(stem: Seq<char>) -> bool {
    ends_with(folded(stem), "i"@)
}

/// Position of the first `sep` in `s`; `s.len()` when there is none.
pub open spec fn first_sep(s: Seq<char>, sep: char) -> nat
    decreases s.len(),
{
    if s.len() == 0 {
        0
    } else if s[0] == sep {
        0
    } else {
        1 + first_sep(s.skip(1), sep)
    }
}

proof fn lemma_first_sep_is(s: Seq<char>, sep: char, p: int)
    requires
        0 <= p <= s.len(),
        forall|k: int| 0 <= k < p ==> s[k] != sep,
        p < s.len() ==> s[p] == sep,
    ensures
        first_sep(s, sep) == p,
    decreases s.len(),
{
    if s.len() == 0 {
    } else if p == 0 {
    } else {
        assert(s[0] != sep);
        assert forall|k: int| 0 <= k < p - 1 implies s.skip(1)[k] != sep by {
            assert(s.skip(1)[k] == s[k + 1]);
        }
        assert(p - 1 < s.skip(1).len() ==> s.skip(1)[p - 1] == sep);
        lemma_first_sep_is(s.skip(1), sep, p - 1);
    }
}

/// The alternatives of a token: the "/"-separated pieces, in order.
pub open spec fn split_alts(s: Seq<char>) -> Seq<Seq<char>>
    decreases s.len(),
{
    let p = first_sep(s, '/');
    if p >= s.len() {
        seq![s]
    } else {
        seq![s.take(p as int)] + split_alts(s.skip(p + 1 as int))
    }
}

/// Expansion of a single alternative over the stem and the literal
/// nominative, exactly as the notation prescribes:
/// an empty alternative reuses the nominative; when the stem is no
/// syncopation candidate the "?" marker is dropped and the "!" marker
/// degrades to the fallback ending "e"; a candidate stem turns "?ī" into
/// the contracted archaic form beside the plain form, and "!e_ī" into the
/// contracted form alone; anything else is stem + alternative.
pub open spec fn expand_alt(alt: Seq<char>, stem: Seq<char>, nom: Seq<char>) -> Seq<char> {
    if alt.len() == 0 {
        nom
    } else {
        let cand = is_candidate(stem);
        let e = if !cand && alt[0] == '?' {
            alt.skip(1)
        } else if !cand && alt[0] == '!' {
            "e"@
        } else {
            alt
        };
        if cand && e == "?ī"@ {
            stem.take(stem.len() - 1) + "ī@arch/"@ + stem + "ī"@
        } else if cand && e == "!e_ī"@ {
            stem.take(stem.len() - 1) + "ī"@
        } else {
            stem + e
        }
    }
}

/// Expansion of a whole token: each alternative expanded independently,
/// the results joined with "/".
pub open spec fn expand_token(tok: Seq<char>, stem: Seq<char>, nom: Seq<char>) -> Seq<char>
    decreases tok.len(),
{
    let p = first_sep(tok, '/');
    if p >= tok.len() {
        expand_alt(tok, stem, nom)
    } else {
        expand_alt(tok.take(p as int), stem, nom) + "/"@ + expand_token(
            tok.skip(p + 1 as int),
            stem,
            nom,
        )
    }
}

fn expand_alt_exec(alt: &str, stem: &str, nom: &str) -> (r: String)
    ensures
        r@ == expand_alt(alt@, stem@, nom@),
{
    let alen = alt.unicode_len();
    if alen == 0 {
        return String::from_str(nom);
    }
    let stem_folded = lower_no_macrons(stem);
    let cand = str_ends_with(stem_folded.as_str(), "i");
    let c0 = alt.get_char(0);
    let e: &str = if !cand && c0 == '?' {
        alt.substring_char(1, alen)
    } else if !cand && c0 == '!' {
        "e"
    } else {
        alt
    };
    if cand && str_eq(e, "?ī") {
        let slen = stem.unicode_len();
        proof {
            reveal_strlit("i");
            assert(folded(stem@).len() == stem@.len());
        }
        let mut r = String::from_str(stem.substring_char(0, slen - 1));
        r.append("ī@arch/");
        r.append(stem);
        r.append("ī");
        r
    } else if cand && str_eq(e, "!e_ī") {
        let slen = stem.unicode_len();
        proof {
            reveal_strlit("i");
            assert(folded(stem@).len() == stem@.len());
        }
        let mut r = String::from_str(stem.substring_char(0, slen - 1));
        r.append("ī");
        r
    } else {
        let mut r = String::from_str(stem);
        r.append(e);
        r
    }
}

fn expand_token_exec(tok: &str, stem: &str, nom: &str) -> (r: String)
    ensures
        r@ == expand_token(tok@, stem@, nom@),
    decreases tok@.len(),
{
    let n = tok.unicode_len();
    let mut p: usize = 0;
    while p < n && tok.get_char(p) != '/'
        invariant
            p <= n,
            n == tok@.len(),
            forall|k: int| 0 <= k < p ==> tok@[k] != '/',
        decreases n - p,
    {
        p += 1;
    }
    proof {
        lemma_first_sep_is(tok@, '/', p as int);
    }
    if p == n {
        expand_alt_exec(tok, stem, nom)
    } else {
        let head = tok.substring_char(0, p);
        let rest = tok.substring_char(p + 1, n);
        let mut r = expand_alt_exec(head, stem, nom);
        r.append("/");
        let tail = expand_token_exec(rest, stem, nom);
        r.append(tail.as_str());
        r
    }
}

/// Law: decoration correctness for optional syncopation. When the stem is
/// a syncopation candidate, the alternative "?ī" expands to exactly two
/// "/"-joined alternatives: the contracted archaic form (the stem short
/// of its final letter, then "ī", tagged "@arch") and the plain form
/// (the stem with the ending "ī").
pub proof fn lemma_optional_syncopation(stem: Seq<char>, nom: Seq<char>)
    requires
        is_candidate(stem),
        forall|k: int| 0 <= k < stem.len() ==> stem[k] != '/',
    ensures
        expand_alt("?ī"@, stem, nom) == stem.take(stem.len() - 1) + "ī@arch"@ + "/"@ + stem
            + "ī"@,
        split_alts(expand_alt("?ī"@, stem, nom)) == seq![
            stem.take(stem.len() - 1) + "ī@arch"@,
            stem + "ī"@,
        ],
{
    reveal_strlit("?ī");
    reveal_strlit("ī@arch/");
    reveal_strlit("ī@arch");
    reveal_strlit("/");
    reveal_strlit("ī");
    reveal_strlit("i");
    assert("?ī"@.len() == 2);
    let short = stem.take(stem.len() - 1);
    let first = short + "ī@arch"@;
    let second = stem + "ī"@;
    let r = expand_alt("?ī"@, stem, nom);
    assert(folded(stem).len() == stem.len());
    assert(r =~= first + "/"@ + second);
    // the one separator stands at first.len()
    assert forall|k: int| 0 <= k < first.len() implies (first + "/"@ + second)[k] != '/' by {
        assert((first + "/"@ + second)[k] == first[k]);
        if k < short.len() {
            assert(first[k] == stem[k]);
        }
    }
    let p1 = first.len() as int;
    lemma_first_sep_is(r, '/', p1);
    assert(r.take(p1) =~= first);
    assert(r.skip(p1 + 1) =~= second);
    // no separator inside the second alternative
    assert forall|k: int| 0 <= k < second.len() implies second[k] != '/' by {
        if k < stem.len() {
            assert(second[k] == stem[k]);
        }
    }
    lemma_first_sep_is(second, '/', second.len() as int);
    assert(split_alts(second) == seq![second]);
    assert(split_alts(r) == seq![r.take(p1)] + split_alts(r.skip(p1 + 1)));
    assert(split_alts(r) =~~= seq![first, second]);
}

// ---------------------------------------------------------------------------
// Chart lookup
// ---------------------------------------------------------------------------
/// Row of a chart belonging to a case, in the fixed order nominative,
/// genitive, dative, accusative, ablative, vocative, locative.
pub open spec fn case_index(c: Case) -> int {
    match c {
        Case::Nominative => 0,
        Case::Genitive => 1,
        Case::Dative => 2,
        Case::Accusative => 3,
        Case::Ablative => 4,
        Case::Vocative => 5,
        Case::Locative => 6,
    }
}

/// Column of a chart belonging to a number: singular, then plural.
pub open spec fn number_index(n: Number) -> int {
    match n {
        Number::Singular => 0,
        Number::Plural => 1,
    }
}

fn case_slot(c: Case) -> (i: usize)
    ensures
        i == case_index(c),
{
    match c {
        Case::Nominative => 0,
        Case::Genitive => 1,
        Case::Dative => 2,
        Case::Accusative => 3,
        Case::Ablative => 4,
        Case::Vocative => 5,
        Case::Locative => 6,
    }
}

fn number_slot(n: Number) -> (i: usize)
    ensures
        i == number_index(n),
{
    match n {
        Number::Singular => 0,
        Number::Plural => 1,
    }
}

/// Looks the requested form up in a chart of per-case rows. A case beyond
/// the chart's rows has no form: a shorter chart leaves the trailing
/// cases defective.
pub fn chart_lookup<const H: usize>(
    chart: &[[&'static str; 2]; H],
    form: &NounAdjectiveForm,
) -> (r: Option<&'static str>)
    ensures
        case_index(form.case) < H ==> r == Some(
            chart@[case_index(form.case)]@[number_index(form.number)],
        ),
        case_index(form.case) >= H ==> r is None,
{
    let ci = case_slot(form.case);
    if ci < H {
        let ni = number_slot(form.number);
        Some(chart[ci][ni])
    } else {
        None
    }
}

/// Expands a family's chosen ending over the given stem. This is the
/// shared second half of every family's `decline`: the ending handed over
/// by `get_ending` is expanded alternative by alternative; a noun the
/// family did not recognize (no ending) yields nothing. It adds no
/// matching logic of its own.
pub fn decline_from_endings(ending: Option<&'static str>, entry: &RegularNoun, stem: &str) -> (r:
    Option<String>)
    ensures
        r.deep_view() == (match ending.deep_view() {
            None => None::<Seq<char>>,
            Some(tok) => Some(expand_token(tok, stem@, entry.nom@)),
        }),
{
    match ending {
        None => None,
        Some(tok) => Some(expand_token_exec(tok, stem, entry.nom.as_str())),
    }
}

// ---------------------------------------------------------------------------
// First declension (mensa, mensae)
// ---------------------------------------------------------------------------
/// Native first-declension pattern: nominative in "a", genitive in "ae".
pub open spec fn first_standard(nomf: Seq<char>, genf: Seq<char>) -> bool {
    ends_with(nomf, "a"@) && ends_with(genf, "ae"@)
}

/// Greek loan pattern in "e"/"es" (epitome, epitomes).
pub open spec fn first_greek_e(nomf: Seq<char>, genf: Seq<char>) -> bool {
    ends_with(nomf, "e"@) && ends_with(genf, "es"@)
}

/// Greek loan pattern in "es"/"ae" (cometes, cometae).
pub open spec fn first_greek_es(nomf: Seq<char>, genf: Seq<char>) -> bool {
    ends_with(nomf, "es"@) && ends_with(genf, "ae"@)
}

/// Greek loan pattern in "as"/"ae" (Aeneas, Aeneae).
pub open spec fn first_greek_as(nomf: Seq<char>, genf: Seq<char>) -> bool {
    ends_with(nomf, "as"@) && ends_with(genf, "ae"@)
}

pub open spec fn first_greek_any(nomf: Seq<char>, genf: Seq<char>) -> bool {
    first_greek_e(nomf, genf) || first_greek_es(nomf, genf) || first_greek_as(nomf, genf)
}

/// The standard first-declension chart. The locative row is absent: that
/// cell is defective.
pub open spec fn simple_first_ending_spec(case: Case, number: Number) -> Option<Seq<char>> {
    match (case, number) {
        (Case::Nominative, Number::Singular) => Some("a"@),
        (Case::Nominative, Number::Plural) => Some("ae"@),
        (Case::Genitive, Number::Singular) => Some("ae/āī@poet/ās@arch"@),
        (Case::Genitive, Number::Plural) => Some("ārum/um"@),
        (Case::Dative, Number::Singular) => Some("ae"@),
        (Case::Dative, Number::Plural) => Some("īs/ābus@dis"@),
        (Case::Accusative, Number::Singular) => Some("am"@),
        (Case::Accusative, Number::Plural) => Some("ās"@),
        (Case::Ablative, Number::Singular) => Some("ā"@),
        (Case::Ablative, Number::Plural) => Some("īs/ābus@dis"@),
        (Case::Vocative, Number::Singular) => Some("a"@),
        (Case::Vocative, Number::Plural) => Some("ae"@),
        (Case::Locative, _) => None,
    }
}

/// Singular chart of the "e"/"es" Greek pattern.
pub open spec fn first_greek_e_chart(case: Case) -> Seq<char> {
    match case {
        Case::Nominative => "ē"@,
        Case::Genitive => "ēs"@,
        Case::Dative => "ae"@,
        Case::Accusative => "ēn"@,
        Case::Ablative => "ē"@,
        Case::Vocative => "ē"@,
        Case::Locative => "ae"@,
    }
}

/// Singular chart of the "es"/"ae" Greek pattern.
pub open spec fn first_greek_es_chart(case: Case) -> Seq<char> {
    match case {
        Case::Nominative => "ēs"@,
        Case::Genitive => "ae"@,
        Case::Dative => "ae"@,
        Case::Accusative => "ēn"@,
        Case::Ablative => "ē"@,
        Case::Vocative => "ē"@,
        Case::Locative => "ae"@,
    }
}

/// Singular chart of the "as"/"ae" Greek pattern.
pub open spec fn first_greek_as_chart(case: Case) -> Seq<char> {
    match case {
        Case::Nominative => "ās"@,
        Case::Genitive => "ae"@,
        Case::Dative => "ae"@,
        Case::Accusative => "ān/am"@,
        Case::Ablative => "ā"@,
        Case::Vocative => "ā"@,
        Case::Locative => "ae"@,
    }
}

/// The first family's ending for a form. A native noun uses the standard
/// chart; a Greek loan uses its own singular chart but regularizes to the
/// standard chart in the plural; anything else is not recognized.
pub open spec fn first_ending_spec(entry: &RegularNoun, form: &NounAdjectiveForm) -> Option<
    Seq<char>,
> {
    let nomf = folded(entry.nom@);
    let genf = folded(entry.gen@);
    if first_standard(nomf, genf) || ((form.number is Plural) && first_greek_any(nomf, genf)) {
        simple_first_ending_spec(form.case, form.number)
    } else if first_greek_e(nomf, genf) {
        Some(first_greek_e_chart(form.case))
    } else if first_greek_es(nomf, genf) {
        Some(first_greek_es_chart(form.case))
    } else if first_greek_as(nomf, genf) {
        Some(first_greek_as_chart(form.case))
    } else {
        None
    }
}

/// First-declension stem: the genitive short of its last two characters.
pub open spec fn first_stem(gen: Seq<char>) -> Seq<char> {
    gen.take(gen.len() - 2)
}

pub open spec fn first_decline_spec(entry: &RegularNoun, form: &NounAdjectiveForm) -> Option<
    Seq<char>,
> {
    match first_ending_spec(entry, form) {
        None => None,
        Some(tok) => Some(expand_token(tok, first_stem(entry.gen@), entry.nom@)),
    }
}

/// The standard first-declension chart as executable lookup.
pub fn simple_first_ending(form: &NounAdjectiveForm) -> (r: Option<&'static str>)
    ensures
        r.deep_view() == simple_first_ending_spec(form.case, form.number),
{
    chart_lookup(
        &[
            ["a", "ae"],
            ["ae/āī@poet/ās@arch", "ārum/um"],
            ["ae", "īs/ābus@dis"],
            ["am", "ās"],
            ["ā", "īs/ābus@dis"],
            ["a", "ae"],
        ],
        form,
    )
}

/// The first declension family (mensa, mensae).
pub struct FirstDeclension();

impl RegularDeclinor for FirstDeclension {
    open spec fn ending_spec(&self, entry: &RegularNoun, form: &NounAdjectiveForm) -> Option<
        Seq<char>,
    > {
        first_ending_spec(entry, form)
    }

    open spec fn decline_spec(&self, entry: &RegularNoun, form: &NounAdjectiveForm) -> Option<
        Seq<char>,
    > {
        first_decline_spec(entry, form)
    }

    fn get_ending(&self, entry: &RegularNoun, form: &NounAdjectiveForm) -> (r: Option<
        &'static str,
    >) {
        let nom = lower_no_macrons(entry.nom.as_str());
        let gen = lower_no_macrons(entry.gen.as_str());
        let g0 = str_ends_with(nom.as_str(), "e") && str_ends_with(gen.as_str(), "es");
        let g1 = str_ends_with(nom.as_str(), "es") && str_ends_with(gen.as_str(), "ae");
        let g2 = str_ends_with(nom.as_str(), "as") && str_ends_with(gen.as_str(), "ae");
        if (str_ends_with(nom.as_str(), "a") && str_ends_with(gen.as_str(), "ae")) || (matches!(
            form.number,
            Number::Plural,
        ) && (g0 || g1 || g2)) {
            return simple_first_ending(form);
        }
        if g0 {
            let chart: [&'static str; 7] = ["ē", "ēs", "ae", "ēn", "ē", "ē", "ae"];
            Some(chart[case_slot(form.case)])
        } else if g1 {
            let chart: [&'static str; 7] = ["ēs", "ae", "ae", "ēn", "ē", "ē", "ae"];
            Some(chart[case_slot(form.case)])
        } else if g2 {
            let chart: [&'static str; 7] = ["ās", "ae", "ae", "ān/am", "ā", "ā", "ae"];
            Some(chart[case_slot(form.case)])
        } else {
            None
        }
    }

    fn decline(&self, entry: &RegularNoun, form: &NounAdjectiveForm) -> (r: Option<String>) {
        let glen = entry.gen.unicode_len();
        if glen < 2 {
            proof {
                reveal_strlit("ae");
                reveal_strlit("es");
                assert(folded(entry.gen@).len() == entry.gen@.len());
            }
            return None;
        }
        let stem = entry.gen.as_str().substring_char(0, glen - 2);
        decline_from_endings(self.get_ending(entry, form), entry, stem)
    }
}

// ---------------------------------------------------------------------------
// Second declension (dominus, domini; bellum, belli; puer, pueri)
// ---------------------------------------------------------------------------
/// R-stem pattern: nominative in "r" (puer, ager).
pub open spec fn second_r_stem(nomf: Seq<char>) -> bool {
    ends_with(nomf, "r"@)
}

/// Neuter pattern: nominative in "um" or "on", genitive in "i".
pub open spec fn second_neuter(nomf: Seq<char>, genf: Seq<char>) -> bool {
    (ends_with(nomf, "um"@) || ends_with(nomf, "on"@)) && ends_with(genf, "i"@)
}

/// Standard masculine pattern: nominative in "us" or "os", genitive in "i".
pub open spec fn second_us(nomf: Seq<char>, genf: Seq<char>) -> bool {
    (ends_with(nomf, "us"@) || ends_with(nomf, "os"@)) && ends_with(genf, "i"@)
}

pub open spec fn second_recognizes(nomf: Seq<char>, genf: Seq<char>) -> bool {
    second_r_stem(nomf) || second_neuter(nomf, genf) || second_us(nomf, genf)
}

/// The second-declension chart. A loanword gets the Greek alternates; its
/// vocative singular depends on the noun's own nominative ending. The
/// native vocative singular is the mandatory-syncopation token: "ii"
/// contracts to "ī" whenever the stem allows, otherwise the ending is a
/// plain "e".
pub open spec fn simple_second_ending_spec(
    is_greek: bool,
    nomf: Seq<char>,
    case: Case,
    number: Number,
) -> Seq<char> {
    if is_greek {
        match (case, number) {
            (Case::Nominative, Number::Singular) => "us/os"@,
            (Case::Nominative, Number::Plural) => "ī/oe@prop"@,
            (Case::Genitive, Number::Singular) => "?ī"@,
            (Case::Genitive, Number::Plural) => "ōrum/ōn@prop"@,
            (Case::Dative, Number::Singular) => "ō"@,
            (Case::Dative, Number::Plural) => "īs"@,
            (Case::Accusative, Number::Singular) => "um/on"@,
            (Case::Accusative, Number::Plural) => "ōs"@,
            (Case::Ablative, Number::Singular) => "ō"@,
            (Case::Ablative, Number::Plural) => "īs"@,
            (Case::Vocative, Number::Singular) => (if ends_with(nomf, "on"@) || ends_with(
                nomf,
                "um"@,
            ) {
                "on/um"@
            } else {
                "e"@
            }),
            (Case::Vocative, Number::Plural) => "ī"@,
            (Case::Locative, Number::Singular) => "ī"@,
            (Case::Locative, Number::Plural) => "īs"@,
        }
    } else {
        match (case, number) {
            (Case::Nominative, Number::Singular) => "us"@,
            (Case::Nominative, Number::Plural) => "ī"@,
            (Case::Genitive, Number::Singular) => "?ī"@,
            (Case::Genitive, Number::Plural) => "ōrum"@,
            (Case::Dative, Number::Singular) => "ō"@,
            (Case::Dative, Number::Plural) => "īs"@,
            (Case::Accusative, Number::Singular) => "um"@,
            (Case::Accusative, Number::Plural) => "ōs"@,
            (Case::Ablative, Number::Singular) => "ō"@,
            (Case::Ablative, Number::Plural) => "īs"@,
            (Case::Vocative, Number::Singular) => "!e_ī"@,
            (Case::Vocative, Number::Plural) => "ī"@,
            (Case::Locative, Number::Singular) => "ī"@,
            (Case::Locative, Number::Plural) => "īs"@,
        }
    }
}

/// The second family's ending for a form. An r-stem reuses the literal
/// nominative (empty sentinel) for nominative and vocative singular; a
/// neuter overrides the nominative/accusative/vocative cells; every
/// recognized noun falls back to the shared chart.
pub open spec fn second_ending_spec(entry: &RegularNoun, form: &NounAdjectiveForm) -> Option<
    Seq<char>,
> {
    let nomf = folded(entry.nom@);
    let genf = folded(entry.gen@);
    if second_r_stem(nomf) && (form.number is Singular) && (form.case is Nominative
        || form.case is Vocative) {
        Some(Seq::empty())
    } else if second_neuter(nomf, genf) && (form.number is Plural) && (form.case is Nominative
        || form.case is Accusative || form.case is Vocative) {
        Some("a"@)
    } else if second_neuter(nomf, genf) && (form.number is Singular) && (form.case is Nominative
        || form.case is Vocative) {
        if entry.is_greek {
            Some("on/um"@)
        } else {
            Some("um"@)
        }
    } else if second_recognizes(nomf, genf) {
        Some(simple_second_ending_spec(entry.is_greek, nomf, form.case, form.number))
    } else {
        None
    }
}

/// Second-declension stem: the genitive short of its last character.
pub open spec fn second_stem(gen: Seq<char>) -> Seq<char> {
    gen.take(gen.len() - 1)
}

/// A recognized noun whose genitive is empty leaves the family no stem to
/// trim: it declines to nothing rather than to a fabricated form.
pub open spec fn second_decline_spec(entry: &RegularNoun, form: &NounAdjectiveForm) -> Option<
    Seq<char>,
> {
    if entry.gen@.len() < 1 {
        None
    } else {
        match second_ending_spec(entry, form) {
            None => None,
            Some(tok) => Some(expand_token(tok, second_stem(entry.gen@), entry.nom@)),
        }
    }
}

/// The shared second-declension chart as executable lookup.
pub fn simple_second_ending(form: &NounAdjectiveForm, entry: &RegularNoun) -> (r: Option<
    &'static str,
>)
    ensures
        r.deep_view() == Some(
            simple_second_ending_spec(entry.is_greek, folded(entry.nom@), form.case, form.number),
        ),
{
    let nom = lower_no_macrons(entry.nom.as_str());
    if entry.is_greek {
        let voc_sg: &'static str = if str_ends_with(nom.as_str(), "on") || str_ends_with(
            nom.as_str(),
            "um",
        ) {
            "on/um"
        } else {
            "e"
        };
        chart_lookup(
            &[
                ["us/os", "ī/oe@prop"],
                ["?ī", "ōrum/ōn@prop"],
                ["ō", "īs"],
                ["um/on", "ōs"],
                ["ō", "īs"],
                [voc_sg, "ī"],
                ["ī", "īs"],
            ],
            form,
        )
    } else {
        chart_lookup(
            &[
                ["us", "ī"],
                ["?ī", "ōrum"],
                ["ō", "īs"],
                ["um", "ōs"],
                ["ō", "īs"],
                ["!e_ī", "ī"],
                ["ī", "īs"],
            ],
            form,
        )
    }
}

/// The second declension family (dominus, domini; bellum, belli; puer, pueri).
pub struct SecondDeclension();

impl RegularDeclinor for SecondDeclension {
    open spec fn ending_spec(&self, entry: &RegularNoun, form: &NounAdjectiveForm) -> Option<
        Seq<char>,
    > {
        second_ending_spec(entry, form)
    }

    open spec fn decline_spec(&self, entry: &RegularNoun, form: &NounAdjectiveForm) -> Option<
        Seq<char>,
    > {
        second_decline_spec(entry, form)
    }

    fn get_ending(&self, entry: &RegularNoun, form: &NounAdjectiveForm) -> (r: Option<
        &'static str,
    >) {
        let nom = lower_no_macrons(entry.nom.as_str());
        let gen = lower_no_macrons(entry.gen.as_str());
        let r_stem = str_ends_with(nom.as_str(), "r");
        if r_stem && matches!(form.number, Number::Singular) && (matches!(
            form.case,
            Case::Nominative,
        ) || matches!(form.case, Case::Vocative)) {
            proof {
                reveal_strlit("");
                assert(""@ =~= Seq::<char>::empty());
            }
            return Some("");
        }
        let neuter = (str_ends_with(nom.as_str(), "um") || str_ends_with(nom.as_str(), "on"))
            && str_ends_with(gen.as_str(), "i");
        if neuter {
            if matches!(form.number, Number::Plural) && (matches!(form.case, Case::Nominative)
                || matches!(form.case, Case::Accusative) || matches!(form.case, Case::Vocative)) {
                return Some("a");
            }
            if matches!(form.number, Number::Singular) && (matches!(form.case, Case::Nominative)
                || matches!(form.case, Case::Vocative)) {
                return if entry.is_greek {
                    Some("on/um")
                } else {
                    Some("um")
                };
            }
        }
        let us = (str_ends_with(nom.as_str(), "us") || str_ends_with(nom.as_str(), "os"))
            && str_ends_with(gen.as_str(), "i");
        if r_stem || neuter || us {
            simple_second_ending(form, entry)
        } else {
            None
        }
    }

    fn decline(&self, entry: &RegularNoun, form: &NounAdjectiveForm) -> (r: Option<String>) {
        let glen = entry.gen.unicode_len();
        if glen < 1 {
            return None;
        }
        let stem = entry.gen.as_str().substring_char(0, glen - 1);
        decline_from_endings(self.get_ending(entry, form), entry, stem)
    }
}

// ---------------------------------------------------------------------------
// Third declension: a documented capability gap
// ---------------------------------------------------------------------------
/// The third declension family. Its paradigm (consonant stems, i-stems,
/// mixed stems) is not implemented: the family recognizes nothing, so the
/// dispatcher always passes third-declension nouns by.
pub struct ThirdDeclension();

impl RegularDeclinor for ThirdDeclension {
    open spec fn ending_spec(&self, entry: &RegularNoun, form: &NounAdjectiveForm) -> Option<
        Seq<char>,
    > {
        None
    }

    open spec fn decline_spec(&self, entry: &RegularNoun, form: &NounAdjectiveForm) -> Option<
        Seq<char>,
    > {
        None
    }

    fn get_ending(&self, entry: &RegularNoun, form: &NounAdjectiveForm) -> (r: Option<
        &'static str,
    >) {
        None
    }

    fn decline(&self, entry: &RegularNoun, form: &NounAdjectiveForm) -> (r: Option<String>) {
        None
    }
}

// ---------------------------------------------------------------------------
// Fourth declension (manus, manus; cornu, cornus)
// ---------------------------------------------------------------------------
/// Standard pattern: nominative and genitive both in "us".
pub open spec fn fourth_us(nomf: Seq<char>, genf: Seq<char>) -> bool {
    ends_with(nomf, "us"@) && ends_with(genf, "us"@)
}

/// Irregular cornu-type: nominative in "u", genitive in "u" or "us".
pub open spec fn fourth_cornu(nomf: Seq<char>, genf: Seq<char>) -> bool {
    ends_with(nomf, "u"@) && (ends_with(genf, "u"@) || ends_with(genf, "us"@))
}

/// Greek masculine loan: nominative in "o", genitive in "us".
pub open spec fn fourth_greek(nomf: Seq<char>, genf: Seq<char>) -> bool {
    ends_with(nomf, "o"@) && ends_with(genf, "us"@)
}

/// Chart of the cornu-type. The locative is defective.
pub open spec fn fourth_cornu_chart(case: Case, number: Number) -> Option<Seq<char>> {
    match (case, number) {
        (Case::Nominative, Number::Singular) => Some("ū"@),
        (Case::Nominative, Number::Plural) => Some("ua"@),
        (Case::Genitive, Number::Singular) => Some("ūs/(ū)"@),
        (Case::Genitive, Number::Plural) => Some("uum"@),
        (Case::Dative, Number::Singular) => Some("ū/(ūį)"@),
        (Case::Dative, Number::Plural) => Some("ibus"@),
        (Case::Accusative, Number::Singular) => Some("ū"@),
        (Case::Accusative, Number::Plural) => Some("ua"@),
        (Case::Ablative, Number::Singular) => Some("ū"@),
        (Case::Ablative, Number::Plural) => Some("ibus"@),
        (Case::Vocative, Number::Singular) => Some("ū"@),
        (Case::Vocative, Number::Plural) => Some("ua"@),
        (Case::Locative, _) => None,
    }
}

/// The standard fourth-declension chart. The locative is defective.
pub open spec fn fourth_standard_chart(case: Case, number: Number) -> Option<Seq<char>> {
    match (case, number) {
        (Case::Nominative, Number::Singular) => Some("us"@),
        (Case::Nominative, Number::Plural) => Some("ūs"@),
        (Case::Genitive, Number::Singular) => Some("ūs"@),
        (Case::Genitive, Number::Plural) => Some("uum"@),
        (Case::Dative, Number::Singular) => Some("uī"@),
        (Case::Dative, Number::Plural) => Some("ibus"@),
        (Case::Accusative, Number::Singular) => Some("um"@),
        (Case::Accusative, Number::Plural) => Some("ūs"@),
        (Case::Ablative, Number::Singular) => Some("ū"@),
        (Case::Ablative, Number::Plural) => Some("ibus"@),
        (Case::Vocative, Number::Singular) => Some("us"@),
        (Case::Vocative, Number::Plural) => Some("ūs"@),
        (Case::Locative, _) => None,
    }
}

/// Singular chart of the Greek masculine loan. The locative is defective,
/// and the whole plural paradigm of this subtype is defective.
pub open spec fn fourth_greek_chart(case: Case) -> Option<Seq<char>> {
    match case {
        Case::Nominative => Some("ō"@),
        Case::Genitive => Some("ūs"@),
        Case::Dative => Some("ō"@),
        Case::Accusative => Some("ō/ōn/ūn"@),
        Case::Ablative => Some("ō"@),
        Case::Vocative => Some("ō"@),
        Case::Locative => None,
    }
}

/// The fourth family's ending for a form.
pub open spec fn fourth_ending_spec(entry: &RegularNoun, form: &NounAdjectiveForm) -> Option<
    Seq<char>,
> {
    let nomf = folded(entry.nom@);
    let genf = folded(entry.gen@);
    if fourth_cornu(nomf, genf) {
        fourth_cornu_chart(form.case, form.number)
    } else if fourth_greek(nomf, genf) {
        if form.number is Singular {
            fourth_greek_chart(form.case)
        } else {
            None
        }
    } else if fourth_us(nomf, genf) {
        fourth_standard_chart(form.case, form.number)
    } else {
        None
    }
}

/// Fourth-declension stem: the genitive short of one character when the
/// folded genitive ends in "u" (the cornu-type), else short of two.
pub open spec fn fourth_stem(gen: Seq<char>) -> Seq<char> {
    gen.take(gen.len() - (if ends_with(folded(gen), "u"@) {
        1int
    } else {
        2int
    }))
}

pub open spec fn fourth_decline_spec(entry: &RegularNoun, form: &NounAdjectiveForm) -> Option<
    Seq<char>,
> {
    match fourth_ending_spec(entry, form) {
        None => None,
        Some(tok) => Some(expand_token(tok, fourth_stem(entry.gen@), entry.nom@)),
    }
}

/// The fourth declension family (manus, manus; cornu, cornus).
pub struct FourthDeclension();

impl RegularDeclinor for FourthDeclension {
    open spec fn ending_spec(&self, entry: &RegularNoun, form: &NounAdjectiveForm) -> Option<
        Seq<char>,
    > {
        fourth_ending_spec(entry, form)
    }

    open spec fn decline_spec(&self, entry: &RegularNoun, form: &NounAdjectiveForm) -> Option<
        Seq<char>,
    > {
        fourth_decline_spec(entry, form)
    }

    fn get_ending(&self, entry: &RegularNoun, form: &NounAdjectiveForm) -> (r: Option<
        &'static str,
    >) {
        let nom = lower_no_macrons(entry.nom.as_str());
        let gen = lower_no_macrons(entry.gen.as_str());
        if str_ends_with(nom.as_str(), "u") && (str_ends_with(gen.as_str(), "u") || str_ends_with(
            gen.as_str(),
            "us",
        )) {
            return chart_lookup(
                &[
                    ["ū", "ua"],
                    ["ūs/(ū)", "uum"],
                    ["ū/(ūį)", "ibus"],
                    ["ū", "ua"],
                    ["ū", "ibus"],
                    ["ū", "ua"],
                ],
                form,
            );
        }
        if str_ends_with(nom.as_str(), "o") && str_ends_with(gen.as_str(), "us") {
            if matches!(form.number, Number::Singular) {
                let chart: [&'static str; 6] = ["ō", "ūs", "ō", "ō/ōn/ūn", "ō", "ō"];
                let ci = case_slot(form.case);
                return if ci < 6 {
                    Some(chart[ci])
                } else {
                    None
                };
            }
            // the Greek subtype's plural paradigm is defective
            return None;
        }
        if str_ends_with(nom.as_str(), "us") && str_ends_with(gen.as_str(), "us") {
            chart_lookup(
                &[
                    ["us", "ūs"],
                    ["ūs", "uum"],
                    ["uī", "ibus"],
                    ["um", "ūs"],
                    ["ū", "ibus"],
                    ["us", "ūs"],
                ],
                form,
            )
        } else {
            None
        }
    }

    fn decline(&self, entry: &RegularNoun, form: &NounAdjectiveForm) -> (r: Option<String>) {
        let genf = lower_no_macrons(entry.gen.as_str());
        let glen = entry.gen.unicode_len();
        let trim: usize = if str_ends_with(genf.as_str(), "u") {
            1
        } else {
            2
        };
        if glen < trim {
            proof {
                reveal_strlit("u");
                reveal_strlit("us");
                assert(folded(entry.gen@).len() == entry.gen@.len());
            }
            return None;
        }
        let stem = entry.gen.as_str().substring_char(0, glen - trim);
        decline_from_endings(self.get_ending(entry, form), entry, stem)
    }
}

// ---------------------------------------------------------------------------
// Fifth declension (res, rei)
// ---------------------------------------------------------------------------
/// Fifth-declension pattern: nominative in "es", genitive in "ei".
pub open spec fn fifth_recognizes(nomf: Seq<char>, genf: Seq<char>) -> bool {
    ends_with(nomf, "es"@) && ends_with(genf, "ei"@)
}

/// Genitive/dative singular ending: a nominative in "ies" takes "ēi", any
/// other "es" nominative takes "eī". A phonological rule, not a choice.
pub open spec fn fifth_gen_dat(nomf: Seq<char>) -> Seq<char> {
    if ends_with(nomf, "ies"@) {
        "ēi"@
    } else {
        "eī"@
    }
}

/// The fifth-declension chart; its locative row is present.
pub open spec fn fifth_chart(nomf: Seq<char>, case: Case, number: Number) -> Seq<char> {
    match (case, number) {
        (Case::Nominative, Number::Singular) => "ēs"@,
        (Case::Nominative, Number::Plural) => "ēs"@,
        (Case::Genitive, Number::Singular) => fifth_gen_dat(nomf),
        (Case::Genitive, Number::Plural) => "ērum"@,
        (Case::Dative, Number::Singular) => fifth_gen_dat(nomf),
        (Case::Dative, Number::Plural) => "ēbus"@,
        (Case::Accusative, Number::Singular) => "em"@,
        (Case::Accusative, Number::Plural) => "ēs"@,
        (Case::Ablative, Number::Singular) => "ē"@,
        (Case::Ablative, Number::Plural) => "ēbus"@,
        (Case::Vocative, Number::Singular) => "ēs"@,
        (Case::Vocative, Number::Plural) => "ēs"@,
        (Case::Locative, Number::Singular) => "ē"@,
        (Case::Locative, Number::Plural) => "ēbus"@,
    }
}

pub open spec fn fifth_ending_spec(entry: &RegularNoun, form: &NounAdjectiveForm) -> Option<
    Seq<char>,
> {
    let nomf = folded(entry.nom@);
    let genf = folded(entry.gen@);
    if fifth_recognizes(nomf, genf) {
        Some(fifth_chart(nomf, form.case, form.number))
    } else {
        None
    }
}

/// Fifth-declension stem: the nominative, not the genitive, short of its
/// last two characters.
pub open spec fn fifth_stem(nom: Seq<char>) -> Seq<char> {
    nom.take(nom.len() - 2)
}

pub open spec fn fifth_decline_spec(entry: &RegularNoun, form: &NounAdjectiveForm) -> Option<
    Seq<char>,
> {
    match fifth_ending_spec(entry, form) {
        None => None,
        Some(tok) => Some(expand_token(tok, fifth_stem(entry.nom@), entry.nom@)),
    }
}

/// The fifth declension family (res, rei).
pub struct FifthDeclension();

impl RegularDeclinor for FifthDeclension {
    open spec fn ending_spec(&self, entry: &RegularNoun, form: &NounAdjectiveForm) -> Option<
        Seq<char>,
    > {
        fifth_ending_spec(entry, form)
    }

    open spec fn decline_spec(&self, entry: &RegularNoun, form: &NounAdjectiveForm) -> Option<
        Seq<char>,
    > {
        fifth_decline_spec(entry, form)
    }

    fn get_ending(&self, entry: &RegularNoun, form: &NounAdjectiveForm) -> (r: Option<
        &'static str,
    >) {
        let nom = lower_no_macrons(entry.nom.as_str());
        let gen = lower_no_macrons(entry.gen.as_str());
        if !(str_ends_with(nom.as_str(), "es") && str_ends_with(gen.as_str(), "ei")) {
            return None;
        }
        let gen_dat: &'static str = if str_ends_with(nom.as_str(), "ies") {
            "ēi"
        } else {
            "eī"
        };
        chart_lookup(
            &[
                ["ēs", "ēs"],
                [gen_dat, "ērum"],
                [gen_dat, "ēbus"],
                ["em", "ēs"],
                ["ē", "ēbus"],
                ["ēs", "ēs"],
                ["ē", "ēbus"],
            ],
            form,
        )
    }

    fn decline(&self, entry: &RegularNoun, form: &NounAdjectiveForm) -> (r: Option<String>) {
        let nlen = entry.nom.unicode_len();
        if nlen < 2 {
            proof {
                reveal_strlit("es");
                assert(folded(entry.nom@).len() == entry.nom@.len());
            }
            return None;
        }
        let stem = entry.nom.as_str().substring_char(0, nlen - 2);
        decline_from_endings(self.get_ending(entry, form), entry, stem)
    }
}

/// Law: no family partially recognizes a noun. When a noun's folded
/// endings fail a family's heuristics, that family assigns it no ending
/// for any form request whatsoever — it never guesses.
pub proof fn lemma_no_partial_recognition(entry: &RegularNoun, form: &NounAdjectiveForm)
    ensures
        !(first_standard(folded(entry.nom@), folded(entry.gen@)) || first_greek_any(
            folded(entry.nom@),
            folded(entry.gen@),
        )) ==> first_ending_spec(entry, form) is None,
        !second_recognizes(folded(entry.nom@), folded(entry.gen@)) ==> second_ending_spec(
            entry,
            form,
        ) is None,
        !(fourth_cornu(folded(entry.nom@), folded(entry.gen@)) || fourth_greek(
            folded(entry.nom@),
            folded(entry.gen@),
        ) || fourth_us(folded(entry.nom@), folded(entry.gen@))) ==> fourth_ending_spec(
            entry,
            form,
        ) is None,
        !fifth_recognizes(folded(entry.nom@), folded(entry.gen@)) ==> fifth_ending_spec(
            entry,
            form,
        ) is None,
{
}

} // verus!
