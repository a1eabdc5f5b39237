use vstd::prelude::*;
use vstd::string::StrSliceExecFns;

pub mod nouns;
pub mod verbs;

verus! {

/// Grammatical number of a noun or verb form.
#[derive(Clone, Copy)]
pub enum Number {
    Singular,
    Plural,
}

/// Grammatical gender. `Any` is reserved for adjectives, which agree with
/// the noun they modify instead of carrying a gender of their own.
#[derive(Clone, Copy)]
pub enum Gender {
    Common,
    Masculine,
    Feminine,
    Neuter,
    Any,
}

/// Grammatical person of a verb form.
pub enum Person {
    First,
    Second,
    Third,
}

/// Grammatical case of a noun form.
#[derive(Clone, Copy)]
pub enum Case {
    Nominative,
    Genitive,
    Dative,
    Accusative,
    Ablative,
    Vocative,
    Locative,
}

/// Grammatical mood of a verb form.
pub enum Mood {
    Indicative,
    Subjunctive,
    Imperative,
}

/// Grammatical voice of a verb form.
pub enum Voice {
    Active,
    Passive,
}

/// The conjugation family of a verb.
pub enum Conjugation {
    Irregular,
    First,
    Second,
    Third,
    ThirdIO,
    Fourth,
}

/// The declension family of a noun. `Irregular` marks a noun that has not
/// been (or cannot be) classified into one of the five regular families.
#[derive(Clone, Copy)]
pub enum Declension {
    Irregular,
    First,
    Second,
    Third,
    Fourth,
    Fifth,
}

/// The tense of a verb form.
pub enum Tense {
    Present,
    Imperfect,
    Perfect,
    Pluperfect,
    FuturePerfect,
    Future,
}

/// Maps a macron-marked vowel to its plain counterpart and leaves every
/// other character unchanged.
pub open spec fn demacron_char(c: char) -> char {
    if c == 'ā' {
        'a'
    } else if c == 'ē' {
        'e'
    } else if c == 'ī' {
        'i'
    } else if c == 'ō' {
        'o'
    } else if c == 'ū' {
        'u'
    } else if c == 'Ā' {
        'A'
    } else if c == 'Ē' {
        'E'
    } else if c == 'Ī' {
        'I'
    } else if c == 'Ō' {
        'O'
    } else if c == 'Ū' {
        'U'
    } else {
        c
    }
}

/// The macron-stripped image of a character sequence.
pub open spec fn no_macrons(s: Seq<char>) -> Seq<char> {
    s.map_values(|c: char| demacron_char(c))
}

/// ASCII lowercasing of one character; characters outside 'A'..'Z' are
/// left unchanged.
pub open spec fn lower_char(c: char) -> char {
    if 'A' <= c && c <= 'Z' {
        ((c as u32) + 32) as char
    } else {
        c
    }
}

/// The ASCII-lowercased image of a character sequence.
pub open spec fn to_lower(s: Seq<char>) -> Seq<char> {
    s.map_values(|c: char| lower_char(c))
}

/// The matching key of a text: macrons stripped, then lowercased. All
/// classification heuristics compare endings of this image; the surface
/// output always keeps the original spelling.
pub open spec fn folded(s: Seq<char>) -> Seq<char> {
    to_lower(no_macrons(s))
}

/// `suffix` is a suffix of `s`.
pub open spec fn ends_with(s: Seq<char>, suffix: Seq<char>) -> bool {
    suffix.len() <= s.len() && s.skip(s.len() - suffix.len()) == suffix
}

/// Relies on String::push: appends the given character to the end of the
/// string.
#[verifier::external_body]
fn push_char(s: &mut String, c: char)
    ensures
        final(s)@ == old(s)@.push(c),
{
    s.push(c);
}

fn demacron_char_exec(c: char) -> (r: char)
    ensures
        r == demacron_char(c),
{
    match c {
        'ā' => 'a',
        'ē' => 'e',
        'ī' => 'i',
        'ō' => 'o',
        'ū' => 'u',
        'Ā' => 'A',
        'Ē' => 'E',
        'Ī' => 'I',
        'Ō' => 'O',
        'Ū' => 'U',
        _ => c,
    }
}

fn lower_char_exec(c: char) -> (r: char)
    ensures
        r == lower_char(c),
{
    let u: u32 = c as u32;
    if 65 <= u && u <= 90 {
        (((u + 32) as u8) as char)
    } else {
        c
    }
}

/// Strips macrons from a text: every macron-marked vowel, upper or lower
/// case, is replaced by its plain counterpart; all other characters are
/// kept as they are.
pub fn remove_macrons(x: &str) -> (r: String)
    ensures
        r@ == no_macrons(x@),
{
    let n = x.unicode_len();
    let mut r = String::new();
    let mut i: usize = 0;
    while i < n
        invariant
            i <= n,
            n == x@.len(),
            r@ == no_macrons(x@.take(i as int)),
        decreases n - i,
    {
        let c = x.get_char(i);
        push_char(&mut r, demacron_char_exec(c));
        proof {
            assert(no_macrons(x@.take(i + 1)) =~= no_macrons(x@.take(i as int)).push(
                demacron_char(x@[i as int]),
            ));
        }
        i += 1;
    }
    proof {
        assert(x@.take(n as int) =~= x@);
    }
    r
}

fn ascii_lower(x: &str) -> (r: String)
    ensures
        r@ == to_lower(x@),
{
    let n = x.unicode_len();
    let mut r = String::new();
    let mut i: usize = 0;
    while i < n
        invariant
            i <= n,
            n == x@.len(),
            r@ == to_lower(x@.take(i as int)),
        decreases n - i,
    {
        let c = x.get_char(i);
        push_char(&mut r, lower_char_exec(c));
        proof {
            assert(to_lower(x@.take(i + 1)) =~= to_lower(x@.take(i as int)).push(
                lower_char(x@[i as int]),
            ));
        }
        i += 1;
    }
    proof {
        assert(x@.take(n as int) =~= x@);
    }
    r
}

/// The matching key used by every classification heuristic: macrons
/// stripped, then lowercased.
pub fn lower_no_macrons(x: &str) -> (r: String)
    ensures
        r@ == folded(x@),
{
    let m = remove_macrons(x);
    ascii_lower(m.as_str())
}

/// Whether `suffix` ends `s`, compared character by character.
pub fn str_ends_with(s: &str, suffix: &str) -> (r: bool)
    ensures
        r == ends_with(s@, suffix@),
{
    let n = s.unicode_len();
    let m = suffix.unicode_len();
    if m > n {
        return false;
    }
    let mut j: usize = 0;
    while j < m
        invariant
            j <= m <= n,
            n == s@.len(),
            m == suffix@.len(),
            forall|k: int| 0 <= k < j ==> s@[n - m + k] == suffix@[k],
        decreases m - j,
    {
        if s.get_char(n - m + j) != suffix.get_char(j) {
            proof {
                assert(s@.skip(n - m)[j as int] == s@[n - m + j]);
            }
            return false;
        }
        j += 1;
    }
    proof {
        assert(s@.skip(n - m) =~= suffix@);
    }
    true
}

/// Character-by-character equality of two texts.
pub fn str_eq(a: &str, b: &str) -> (r: bool)
    ensures
        r == (a@ == b@),
{
    let n = a.unicode_len();
    let m = b.unicode_len();
    if n != m {
        return false;
    }
    let mut i: usize = 0;
    while i < n
        invariant
            i <= n,
            n == a@.len(),
            n == b@.len(),
            forall|k: int| 0 <= k < i ==> a@[k] == b@[k],
        decreases n - i,
    {
        if a.get_char(i) != b.get_char(i) {
            return false;
        }
        i += 1;
    }
    proof {
        assert(a@ =~= b@);
    }
    true
}

/// Law: stripping macrons is idempotent. Once every macron-marked vowel
/// has been replaced, a second pass finds nothing to change.
pub proof fn lemma_remove_macrons_idempotent(s: Seq<char>)
    ensures
        no_macrons(no_macrons(s)) == no_macrons(s),
{
    assert(no_macrons(no_macrons(s)) =~= no_macrons(s));
}

} // verus!
