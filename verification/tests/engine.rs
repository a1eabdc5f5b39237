use latparse::nouns::common::{decline_table, NounAdjectiveEntry, NounAdjectiveForm, RegularNoun};
use latparse::{lower_no_macrons, remove_macrons, str_ends_with, str_eq, Case, Declension, Gender, Number};

fn noun(nom: &str, gen: &str, gender: Gender) -> RegularNoun {
    RegularNoun {
        declension: Declension::Irregular,
        gender,
        is_greek: false,
        nom: nom.to_string(),
        gen: gen.to_string(),
    }
}

fn classified(nom: &str, gen: &str, gender: Gender) -> RegularNoun {
    let mut n = noun(nom, gen, gender);
    assert!(n.classify(), "expected {nom}, {gen} to classify");
    n
}

fn table(nom: &str, gen: &str, gender: Gender) -> Vec<Option<String>> {
    decline_table(&classified(nom, gen, gender))
}

fn cell(t: &[Option<String>], case: usize, plural: bool) -> Option<&str> {
    t[case * 2 + if plural { 1 } else { 0 }].as_deref()
}

#[test]
fn it_works() {
    let result = 2 + 2;
    assert_eq!(result, 4);
}

#[test]
fn macron_stripping() {
    assert_eq!(remove_macrons("mēnsā"), "mensa");
    assert_eq!(remove_macrons("ĀĒĪŌŪāēīōū"), "AEIOUaeiou");
    assert_eq!(remove_macrons("puer"), "puer");
    assert_eq!(remove_macrons(""), "");
}

#[test]
fn macron_stripping_idempotent() {
    for s in ["mēnsā", "ĀĒĪŌŪ", "xyz", "", "rēs pūblica"] {
        let once = remove_macrons(s);
        let twice = remove_macrons(&once);
        assert_eq!(once, twice);
    }
}

#[test]
fn folding() {
    assert_eq!(lower_no_macrons("MĒNSA"), "mensa");
    assert_eq!(lower_no_macrons("Cornū"), "cornu");
    assert_eq!(lower_no_macrons("puer"), "puer");
}

#[test]
fn string_helpers() {
    assert!(str_ends_with("mensae", "ae"));
    assert!(str_ends_with("mensae", ""));
    assert!(!str_ends_with("ae", "sae"));
    assert!(!str_ends_with("mensae", "es"));
    assert!(str_eq("rēs", "rēs"));
    assert!(!str_eq("res", "rēs"));
}

#[test]
fn mensa_first_declension() {
    let n = classified("mensa", "mensae", Gender::Feminine);
    assert!(matches!(n.declension, Declension::First));
    assert!(!n.is_greek);
    let t = decline_table(&n);
    assert_eq!(t.len(), 14);
    assert_eq!(cell(&t, 0, false), Some("mensa"));
    assert_eq!(cell(&t, 1, false), Some("mensae/mensāī@poet/mensās@arch"));
    assert_eq!(cell(&t, 1, true), Some("mensārum/mensum"));
    assert_eq!(cell(&t, 2, true), Some("mensīs/mensābus@dis"));
    assert_eq!(cell(&t, 4, true), Some("mensīs/mensābus@dis"));
    assert_eq!(cell(&t, 3, false), Some("mensam"));
    // the first family's chart has no locative row: the cell is defective
    assert_eq!(cell(&t, 6, false), None);
    assert_eq!(cell(&t, 6, true), None);
}

#[test]
fn puer_second_declension_r_stem() {
    let n = classified("puer", "pueri", Gender::Masculine);
    assert!(matches!(n.declension, Declension::Second));
    assert!(!n.is_greek);
    let t = decline_table(&n);
    // the empty-sentinel rule: nominative and vocative singular reuse the
    // literal input
    assert_eq!(cell(&t, 0, false), Some("puer"));
    assert_eq!(cell(&t, 5, false), Some("puer"));
    assert_eq!(cell(&t, 1, false), Some("puerī"));
    assert_eq!(cell(&t, 3, false), Some("puerum"));
    assert_eq!(cell(&t, 0, true), Some("puerī"));
}

#[test]
fn templum_second_declension_neuter() {
    let n = classified("templum", "templi", Gender::Neuter);
    assert!(matches!(n.declension, Declension::Second));
    let t = decline_table(&n);
    assert_eq!(cell(&t, 0, true), Some("templa"));
    assert_eq!(cell(&t, 3, true), Some("templa"));
    assert_eq!(cell(&t, 5, true), Some("templa"));
    assert_eq!(cell(&t, 0, false), Some("templum"));
    assert_eq!(cell(&t, 5, false), Some("templum"));
    assert_eq!(cell(&t, 1, false), Some("templī"));
}

#[test]
fn manus_fourth_declension() {
    let n = classified("manus", "manus", Gender::Feminine);
    assert!(matches!(n.declension, Declension::Fourth));
    let t = decline_table(&n);
    assert_eq!(cell(&t, 1, true), Some("manuum"));
    assert_eq!(cell(&t, 0, false), Some("manus"));
    assert_eq!(cell(&t, 1, false), Some("manūs"));
    assert_eq!(cell(&t, 2, false), Some("manuī"));
    assert_eq!(cell(&t, 2, true), Some("manibus"));
}

#[test]
fn res_fifth_declension() {
    let n = classified("res", "rei", Gender::Feminine);
    assert!(matches!(n.declension, Declension::Fifth));
    let t = decline_table(&n);
    // the nominative does not end in "ies", so genitive and dative
    // singular take "eī"
    assert_eq!(cell(&t, 1, false), Some("reī"));
    assert_eq!(cell(&t, 2, false), Some("reī"));
    assert_eq!(cell(&t, 0, false), Some("rēs"));
    assert_eq!(cell(&t, 1, true), Some("rērum"));
    assert_eq!(cell(&t, 6, false), Some("rē"));
}

#[test]
fn dies_fifth_declension_ies_rule() {
    let t = table("dies", "diei", Gender::Masculine);
    // a nominative in "ies" takes "ēi" instead
    assert_eq!(cell(&t, 1, false), Some("diēi"));
    assert_eq!(cell(&t, 2, false), Some("diēi"));
}

#[test]
fn unrecognized_noun() {
    let mut n = noun("xyz", "abc", Gender::Masculine);
    assert!(!n.classify());
    assert!(matches!(n.declension, Declension::Irregular));
}

#[test]
fn empty_input_is_not_classified() {
    let mut n = noun("", "", Gender::Masculine);
    assert!(!n.classify());
}

#[test]
fn r_stem_with_empty_genitive_is_not_classified() {
    // recognized by its nominative alone, but there is no genitive to trim
    // a stem from, so no family claims it
    let mut n = noun("puer", "", Gender::Masculine);
    assert!(!n.classify());
}

#[test]
fn optional_syncopation_two_alternatives() {
    let t = table("filius", "filii", Gender::Masculine);
    let gen_sg = cell(&t, 1, false).unwrap();
    assert_eq!(gen_sg, "filī@arch/filiī");
    let alts: Vec<&str> = gen_sg.split('/').collect();
    assert_eq!(alts.len(), 2);
    assert_eq!(alts[0], "filī@arch");
    assert_eq!(alts[1], "filiī");
}

#[test]
fn mandatory_syncopation_vocative() {
    let t = table("filius", "filii", Gender::Masculine);
    // "!e_ī" with a qualifying stem: only the contracted form
    assert_eq!(cell(&t, 5, false), Some("filī"));
    // a stem that does not qualify degrades to the plain "-e" ending
    let t2 = table("dominus", "domini", Gender::Masculine);
    assert_eq!(cell(&t2, 5, false), Some("domine"));
}

#[test]
fn greek_second_declension_loanword() {
    let n = classified("barbitos", "barbiti", Gender::Masculine);
    assert!(matches!(n.declension, Declension::Second));
    assert!(n.is_greek);
    let t = decline_table(&n);
    assert_eq!(cell(&t, 0, false), Some("barbitus/barbitos"));
    assert_eq!(cell(&t, 0, true), Some("barbitī/barbitoe@prop"));
    assert_eq!(cell(&t, 5, false), Some("barbite"));
    assert_eq!(cell(&t, 1, true), Some("barbitōrum/barbitōn@prop"));
}

#[test]
fn greek_second_declension_neuter() {
    let n = classified("theatron", "theatri", Gender::Neuter);
    assert!(n.is_greek);
    let t = decline_table(&n);
    assert_eq!(cell(&t, 0, false), Some("theatron/theatrum"));
    assert_eq!(cell(&t, 5, false), Some("theatron/theatrum"));
    assert_eq!(cell(&t, 0, true), Some("theatra"));
}

#[test]
fn first_declension_greek_singular_regular_plural() {
    let n = classified("epitome", "epitomes", Gender::Feminine);
    assert!(matches!(n.declension, Declension::First));
    let t = decline_table(&n);
    assert_eq!(cell(&t, 0, false), Some("epitomē"));
    assert_eq!(cell(&t, 1, false), Some("epitomēs"));
    assert_eq!(cell(&t, 3, false), Some("epitomēn"));
    // Greek loans regularize in the plural: the standard chart applies
    assert_eq!(cell(&t, 0, true), Some("epitomae"));
    assert_eq!(cell(&t, 1, true), Some("epitomārum/epitomum"));
}

#[test]
fn cornu_fourth_declension_irregular() {
    let n = classified("cornu", "cornus", Gender::Neuter);
    assert!(matches!(n.declension, Declension::Fourth));
    let t = decline_table(&n);
    assert_eq!(cell(&t, 0, false), Some("cornū"));
    assert_eq!(cell(&t, 0, true), Some("cornua"));
    assert_eq!(cell(&t, 1, true), Some("cornuum"));
    assert_eq!(cell(&t, 1, false), Some("cornūs/corn(ū)"));
}

#[test]
fn greek_fourth_declension_defective_plural() {
    let n = classified("echo", "echus", Gender::Feminine);
    assert!(matches!(n.declension, Declension::Fourth));
    let t = decline_table(&n);
    assert_eq!(cell(&t, 0, false), Some("echō"));
    assert_eq!(cell(&t, 3, false), Some("echō/echōn/echūn"));
    // the Greek subtype's plural paradigm is defective: every plural cell
    // is an explicit absence, not a fabricated form
    for case in 0..7 {
        assert_eq!(cell(&t, case, true), None);
    }
}

#[test]
fn table_is_total() {
    for (nom, gen, g) in [
        ("mensa", "mensae", Gender::Feminine),
        ("puer", "pueri", Gender::Masculine),
        ("templum", "templi", Gender::Neuter),
        ("manus", "manus", Gender::Feminine),
        ("res", "rei", Gender::Feminine),
    ] {
        let t = table(nom, gen, g);
        assert_eq!(t.len(), 14);
    }
}

#[test]
fn generation_is_deterministic() {
    let t1 = table("mensa", "mensae", Gender::Feminine);
    let t2 = table("mensa", "mensae", Gender::Feminine);
    assert_eq!(t1, t2);
    let t3 = table("barbitos", "barbiti", Gender::Masculine);
    let t4 = table("barbitos", "barbiti", Gender::Masculine);
    assert_eq!(t3, t4);
}

#[test]
fn classification_is_stable_across_shared_nominative_patterns() {
    // a nominative in "us" fits both the second and the fourth family's
    // nominative patterns; the genitive decides, and each noun is claimed
    // by exactly one family
    let second = classified("dominus", "domini", Gender::Masculine);
    assert!(matches!(second.declension, Declension::Second));
    let fourth = classified("manus", "manus", Gender::Feminine);
    assert!(matches!(fourth.declension, Declension::Fourth));
}

#[test]
fn entry_declines_with_recorded_family() {
    let n = classified("mensa", "mensae", Gender::Feminine);
    let entry = NounAdjectiveEntry::Regular(n);
    let form = NounAdjectiveForm {
        gender: Gender::Feminine,
        case: Case::Accusative,
        number: Number::Plural,
    };
    assert_eq!(entry.decline(&form).as_deref(), Some("mensās"));
    let irregular = NounAdjectiveEntry::Irregular();
    assert_eq!(irregular.decline(&form), None);
}

#[test]
fn macrons_preserved_in_output_but_ignored_for_matching() {
    // classification folds macrons away; the surface output keeps the
    // spelling the user supplied
    let n = classified("mēnsa", "mēnsae", Gender::Feminine);
    assert!(matches!(n.declension, Declension::First));
    let t = decline_table(&n);
    assert_eq!(cell(&t, 0, false), Some("mēnsa"));
    assert_eq!(cell(&t, 3, false), Some("mēnsam"));
}
