use vstd::prelude::*;
use vstd::string::StrSliceExecFns;

use crate::scan::{lemma_lookup_from, lemma_lookup_prefix, lookup};
use crate::words::{Adjektiv, Artikel, Category, Namn, Possessiv, Substantiv, Verb, Words};

verus! {

/// The Unicode lowercase mapping of a character sequence, as std's
/// `str::to_lowercase` computes it.
pub uninterp spec fn lower_of(s: Seq<char>) -> Seq<char>;

/// Relies on std's `str::to_lowercase`: the Unicode lowercase mapping of the
/// input, a function of its characters alone.
#[verifier::external_body]
pub(crate) fn lowercase(s: &str) -> (r: String)
    ensures
        r@ == lower_of(s@),
{
    s.to_lowercase()
}

/// Whether a character has the Unicode uppercase property, as std's
/// `char::is_uppercase` reports it.
pub uninterp spec fn uppercase_of(c: char) -> bool;

/// Relies on std's `char::is_uppercase`: the Unicode uppercase property, a
/// function of the character alone.
#[verifier::external_body]
pub(crate) fn char_is_uppercase(c: char) -> (r: bool)
    ensures
        r == uppercase_of(c),
{
    c.is_uppercase()
}

/// Character-by-character string equality.
pub fn str_eq(a: &str, b: &str) -> (r: bool)
    ensures
        r == (a@ == b@),
{
    let la = a.unicode_len();
    let lb = b.unicode_len();
    if la != lb {
        return false;
    }
    let mut i: usize = 0;
    while i < la
        invariant
            la == a@.len(),
            la == b@.len(),
            i <= la,
            forall|j: int| 0 <= j < i ==> a@[j] == b@[j],
        decreases la - i,
    {
        if a.get_char(i) != b.get_char(i) {
            return false;
        }
        i = i + 1;
    }
    proof {
        assert(a@ =~= b@);
    }
    true
}

/// A token matches a noun entry on either singular spelling.
pub open spec fn sub_matches(w: Substantiv, q: Seq<char>) -> bool {
    w.0@ == q || w.1@ == q
}

/// A token matches a verb entry on its surface.
pub open spec fn verb_matches(w: Verb, q: Seq<char>) -> bool {
    w.0@ == q
}

/// A token matches an adjective entry on any of its three forms.
pub open spec fn adj_matches(w: Adjektiv, q: Seq<char>) -> bool {
    w.0@ == q || w.1@ == q || w.2@ == q
}

/// A token matches a single-surface entry on that surface.
pub open spec fn ord_matches(w: crate::words::Ord, q: Seq<char>) -> bool {
    w.0@ == q
}

/// A token matches a proper noun case-sensitively, on the raw spelling.
pub open spec fn namn_matches(w: Namn, raw: Seq<char>) -> bool {
    w.0@ == raw
}

/// A token matches a possessive pronoun on its surface.
pub open spec fn pos_matches(w: Possessiv, q: Seq<char>) -> bool {
    w.0@ == q
}

/// A token matches an article on its surface.
pub open spec fn art_matches(w: Artikel, q: Seq<char>) -> bool {
    w.0@ == q
}

pub open spec fn sub_hit(q: Seq<char>) -> spec_fn(Substantiv) -> bool {
    |w: Substantiv| sub_matches(w, q)
}

pub open spec fn verb_hit(q: Seq<char>) -> spec_fn(Verb) -> bool {
    |w: Verb| verb_matches(w, q)
}

pub open spec fn adj_hit(q: Seq<char>) -> spec_fn(Adjektiv) -> bool {
    |w: Adjektiv| adj_matches(w, q)
}

pub open spec fn ord_hit(q: Seq<char>) -> spec_fn(crate::words::Ord) -> bool {
    |w: crate::words::Ord| ord_matches(w, q)
}

pub open spec fn namn_hit(raw: Seq<char>) -> spec_fn(Namn) -> bool {
    |w: Namn| namn_matches(w, raw)
}

pub open spec fn pos_hit(q: Seq<char>) -> spec_fn(Possessiv) -> bool {
    |w: Possessiv| pos_matches(w, q)
}

pub open spec fn art_hit(q: Seq<char>) -> spec_fn(Artikel) -> bool {
    |w: Artikel| art_matches(w, q)
}

/// The lowered token ends in the two-character suffix "de".
pub open spec fn ends_in_de(q: Seq<char>) -> bool {
    q.len() >= 2 && q[q.len() - 2] == 'd' && q[q.len() - 1] == 'e'
}

pub open spec fn opt_i(o: Option<usize>) -> Option<int> {
    match o {
        Option::Some(i) => Option::Some(i as int),
        Option::None => Option::None,
    }
}

/// How many entries the table owning a category holds; zero for the two
/// punctuation categories, which own no table.
pub open spec fn category_len(w: Words, c: Category) -> int {
    match c {
        Category::Substantiv => w.substantiv@.len() as int,
        Category::Verb => w.verb@.len() as int,
        Category::Adjektiv => w.adjektiv@.len() as int,
        Category::Pronomen => w.pronomen@.len() as int,
        Category::Namn => w.namn@.len() as int,
        Category::Bindeord => w.bindeord@.len() as int,
        Category::Tidsord => w.tidsord@.len() as int,
        Category::Punkt => 0,
        Category::PronomenObjekt => w.pronomen_objekt@.len() as int,
        Category::PronomenPossessiv => w.pronomen_possessiv@.len() as int,
        Category::Komma => 0,
        Category::Preposition => w.prepositioner@.len() as int,
        Category::Artikel => w.artiklar@.len() as int,
    }
}

/// What classification returns: the two punctuation literals first, then the
/// first hit scanning the tables in fixed priority order (proper nouns
/// against the raw token, everything else against its lowercase), then the
/// unknown-word fallback heuristics.
pub open spec fn classify_spec(w: Words, raw: Seq<char>) -> (Category, Option<int>) {
    if raw == seq!['.'] {
        (Category::Punkt, Option::None)
    } else if raw == seq![','] {
        (Category::Komma, Option::None)
    } else {
        let q = lower_of(raw);
        let r1 = lookup(w.substantiv@, sub_hit(q));
        if r1 is Some {
            (Category::Substantiv, r1)
        } else {
            let r2 = lookup(w.verb@, verb_hit(q));
            if r2 is Some {
                (Category::Verb, r2)
            } else {
                let r3 = lookup(w.adjektiv@, adj_hit(q));
                if r3 is Some {
                    (Category::Adjektiv, r3)
                } else {
                    let r4 = lookup(w.pronomen@, ord_hit(q));
                    if r4 is Some {
                        (Category::Pronomen, r4)
                    } else {
                        let r5 = lookup(w.namn@, namn_hit(raw));
                        if r5 is Some {
                            (Category::Namn, r5)
                        } else {
                            let r6 = lookup(w.bindeord@, ord_hit(q));
                            if r6 is Some {
                                (Category::Bindeord, r6)
                            } else {
                                let r7 = lookup(w.tidsord@, ord_hit(q));
                                if r7 is Some {
                                    (Category::Tidsord, r7)
                                } else {
                                    let r8 = lookup(w.pronomen_objekt@, ord_hit(q));
                                    if r8 is Some {
                                        (Category::PronomenObjekt, r8)
                                    } else {
                                        let r9 = lookup(w.pronomen_possessiv@, pos_hit(q));
                                        if r9 is Some {
                                            (Category::PronomenPossessiv, r9)
                                        } else {
                                            let r10 = lookup(w.prepositioner@, ord_hit(q));
                                            if r10 is Some {
                                                (Category::Preposition, r10)
                                            } else {
                                                let r11 = lookup(w.artiklar@, art_hit(q));
                                                if r11 is Some {
                                                    (Category::Artikel, r11)
                                                } else if raw.len() > 0 && uppercase_of(raw[0]) {
                                                    (Category::Namn, Option::None)
                                                } else if ends_in_de(q) {
                                                    (Category::Verb, Option::None)
                                                } else {
                                                    (Category::Substantiv, Option::None)
                                                }
                                            }
                                        }
                                    }
                                }
                            }
                        }
                    }
                }
            }
        }
    }
}

/// A classification whose index, where one is used, stays inside the table
/// that the generator will read it against.
pub open spec fn guess_wf(w: Words, guess: (Category, Option<usize>)) -> bool {
    &&& (guess.0 == Category::Adjektiv ==> (guess.1 matches Option::Some(i) && i
        < w.adjektiv@.len()))
    &&& (guess.0 == Category::PronomenPossessiv ==> (guess.1 matches Option::Some(i) && i
        < w.pronomen_possessiv@.len()))
    &&& (guess.0 == Category::Artikel ==> (guess.1 matches Option::Some(i) && i
        < w.artiklar@.len()))
    &&& (guess.0 == Category::Verb ==> (guess.1 matches Option::Some(i) ==> i < w.verb@.len()))
}

fn find_substantiv(v: &Vec<Substantiv>, q: &String) -> (r: Option<usize>)
    ensures
        opt_i(r) == lookup(v@, sub_hit(q@)),
{
    let mut i: usize = 0;
    while i < v.len()
        invariant
            i <= v@.len(),
            forall|j: int| 0 <= j < i ==> !sub_matches(#[trigger] v@[j], q@),
        decreases v@.len() - i,
    {
        if v[i].0 == *q || v[i].1 == *q {
            proof {
                assert forall|j: int| 0 <= j < i implies !(sub_hit(q@)(v@[j])) by {
                    assert(sub_hit(q@)(v@[j]) == sub_matches(v@[j], q@));
                }
                lemma_lookup_prefix(v@, sub_hit(q@), i as int);
                assert(sub_hit(q@)(v@[i as int]));
            }
            return Option::Some(i);
        }
        i = i + 1;
    }
    proof {
        assert forall|j: int| 0 <= j < v@.len() implies !(sub_hit(q@)(v@[j])) by {
            assert(sub_hit(q@)(v@[j]) == sub_matches(v@[j], q@));
        }
        lemma_lookup_prefix(v@, sub_hit(q@), v@.len() as int);
    }
    Option::None
}

fn find_verb(v: &Vec<Verb>, q: &String) -> (r: Option<usize>)
    ensures
        opt_i(r) == lookup(v@, verb_hit(q@)),
{
    let mut i: usize = 0;
    while i < v.len()
        invariant
            i <= v@.len(),
            forall|j: int| 0 <= j < i ==> !verb_matches(#[trigger] v@[j], q@),
        decreases v@.len() - i,
    {
        if v[i].0 == *q {
            proof {
                assert forall|j: int| 0 <= j < i implies !(verb_hit(q@)(v@[j])) by {
                    assert(verb_hit(q@)(v@[j]) == verb_matches(v@[j], q@));
                }
                lemma_lookup_prefix(v@, verb_hit(q@), i as int);
                assert(verb_hit(q@)(v@[i as int]));
            }
            return Option::Some(i);
        }
        i = i + 1;
    }
    proof {
        assert forall|j: int| 0 <= j < v@.len() implies !(verb_hit(q@)(v@[j])) by {
            assert(verb_hit(q@)(v@[j]) == verb_matches(v@[j], q@));
        }
        lemma_lookup_prefix(v@, verb_hit(q@), v@.len() as int);
    }
    Option::None
}

fn find_adjektiv(v: &Vec<Adjektiv>, q: &String) -> (r: Option<usize>)
    ensures
        opt_i(r) == lookup(v@, adj_hit(q@)),
{
    let mut i: usize = 0;
    while i < v.len()
        invariant
            i <= v@.len(),
            forall|j: int| 0 <= j < i ==> !adj_matches(#[trigger] v@[j], q@),
        decreases v@.len() - i,
    {
        if v[i].0 == *q || v[i].1 == *q || v[i].2 == *q {
            proof {
                assert forall|j: int| 0 <= j < i implies !(adj_hit(q@)(v@[j])) by {
                    assert(adj_hit(q@)(v@[j]) == adj_matches(v@[j], q@));
                }
                lemma_lookup_prefix(v@, adj_hit(q@), i as int);
                assert(adj_hit(q@)(v@[i as int]));
            }
            return Option::Some(i);
        }
        i = i + 1;
    }
    proof {
        assert forall|j: int| 0 <= j < v@.len() implies !(adj_hit(q@)(v@[j])) by {
            assert(adj_hit(q@)(v@[j]) == adj_matches(v@[j], q@));
        }
        lemma_lookup_prefix(v@, adj_hit(q@), v@.len() as int);
    }
    Option::None
}

fn find_ord(v: &Vec<crate::words::Ord>, q: &String) -> (r: Option<usize>)
    ensures
        opt_i(r) == lookup(v@, ord_hit(q@)),
{
    let mut i: usize = 0;
    while i < v.len()
        invariant
            i <= v@.len(),
            forall|j: int| 0 <= j < i ==> !ord_matches(#[trigger] v@[j], q@),
        decreases v@.len() - i,
    {
        if v[i].0 == *q {
            proof {
                assert forall|j: int| 0 <= j < i implies !(ord_hit(q@)(v@[j])) by {
                    assert(ord_hit(q@)(v@[j]) == ord_matches(v@[j], q@));
                }
                lemma_lookup_prefix(v@, ord_hit(q@), i as int);
                assert(ord_hit(q@)(v@[i as int]));
            }
            return Option::Some(i);
        }
        i = i + 1;
    }
    proof {
        assert forall|j: int| 0 <= j < v@.len() implies !(ord_hit(q@)(v@[j])) by {
            assert(ord_hit(q@)(v@[j]) == ord_matches(v@[j], q@));
        }
        lemma_lookup_prefix(v@, ord_hit(q@), v@.len() as int);
    }
    Option::None
}

fn find_namn(v: &Vec<Namn>, raw: &String) -> (r: Option<usize>)
    ensures
        opt_i(r) == lookup(v@, namn_hit(raw@)),
{
    let mut i: usize = 0;
    while i < v.len()
        invariant
            i <= v@.len(),
            forall|j: int| 0 <= j < i ==> !namn_matches(#[trigger] v@[j], raw@),
        decreases v@.len() - i,
    {
        if v[i].0 == *raw {
            proof {
                assert forall|j: int| 0 <= j < i implies !(namn_hit(raw@)(v@[j])) by {
                    assert(namn_hit(raw@)(v@[j]) == namn_matches(v@[j], raw@));
                }
                lemma_lookup_prefix(v@, namn_hit(raw@), i as int);
                assert(namn_hit(raw@)(v@[i as int]));
            }
            return Option::Some(i);
        }
        i = i + 1;
    }
    proof {
        assert forall|j: int| 0 <= j < v@.len() implies !(namn_hit(raw@)(v@[j])) by {
            assert(namn_hit(raw@)(v@[j]) == namn_matches(v@[j], raw@));
        }
        lemma_lookup_prefix(v@, namn_hit(raw@), v@.len() as int);
    }
    Option::None
}

fn find_possessiv(v: &Vec<Possessiv>, q: &String) -> (r: Option<usize>)
    ensures
        opt_i(r) == lookup(v@, pos_hit(q@)),
{
    let mut i: usize = 0;
    while i < v.len()
        invariant
            i <= v@.len(),
            forall|j: int| 0 <= j < i ==> !pos_matches(#[trigger] v@[j], q@),
        decreases v@.len() - i,
    {
        if v[i].0 == *q {
            proof {
                assert forall|j: int| 0 <= j < i implies !(pos_hit(q@)(v@[j])) by {
                    assert(pos_hit(q@)(v@[j]) == pos_matches(v@[j], q@));
                }
                lemma_lookup_prefix(v@, pos_hit(q@), i as int);
                assert(pos_hit(q@)(v@[i as int]));
            }
            return Option::Some(i);
        }
        i = i + 1;
    }
    proof {
        assert forall|j: int| 0 <= j < v@.len() implies !(pos_hit(q@)(v@[j])) by {
            assert(pos_hit(q@)(v@[j]) == pos_matches(v@[j], q@));
        }
        lemma_lookup_prefix(v@, pos_hit(q@), v@.len() as int);
    }
    Option::None
}

fn find_artikel(v: &Vec<Artikel>, q: &String) -> (r: Option<usize>)
    ensures
        opt_i(r) == lookup(v@, art_hit(q@)),
{
    let mut i: usize = 0;
    while i < v.len()
        invariant
            i <= v@.len(),
            forall|j: int| 0 <= j < i ==> !art_matches(#[trigger] v@[j], q@),
        decreases v@.len() - i,
    {
        if v[i].0 == *q {
            proof {
                assert forall|j: int| 0 <= j < i implies !(art_hit(q@)(v@[j])) by {
                    assert(art_hit(q@)(v@[j]) == art_matches(v@[j], q@));
                }
                lemma_lookup_prefix(v@, art_hit(q@), i as int);
                assert(art_hit(q@)(v@[i as int]));
            }
            return Option::Some(i);
        }
        i = i + 1;
    }
    proof {
        assert forall|j: int| 0 <= j < v@.len() implies !(art_hit(q@)(v@[j])) by {
            assert(art_hit(q@)(v@[j]) == art_matches(v@[j], q@));
        }
        lemma_lookup_prefix(v@, art_hit(q@), v@.len() as int);
    }
    Option::None
}

impl Words {
    /// Classifies one input token: the two punctuation literals first, then
    /// the lexicon tables in fixed priority order, then the unknown-word
    /// fallback, so every token resolves to a category.
    pub fn guess_word(&self, token: &str) -> (r: (Category, Option<usize>))
        ensures
            (r.0, opt_i(r.1)) == classify_spec(*self, token@),
            guess_wf(*self, r),
            r.1 matches Option::Some(i) ==> (i as int) < category_len(*self, r.0),
    {
        proof {
            reveal_strlit(".");
            reveal_strlit(",");
            assert("."@ =~= seq!['.']);
            assert(","@ =~= seq![',']);
        }
        if str_eq(token, ".") {
            return (Category::Punkt, Option::None);
        }
        if str_eq(token, ",") {
            return (Category::Komma, Option::None);
        }
        let query = lowercase(token);
        let ghost q = lower_of(token@);
        if let Option::Some(i) = find_substantiv(&self.substantiv, &query) {
            proof {
                lemma_lookup_from(self.substantiv@, sub_hit(q), 0);
            }
            return (Category::Substantiv, Option::Some(i));
        }
        if let Option::Some(i) = find_verb(&self.verb, &query) {
            proof {
                lemma_lookup_from(self.verb@, verb_hit(q), 0);
            }
            return (Category::Verb, Option::Some(i));
        }
        if let Option::Some(i) = find_adjektiv(&self.adjektiv, &query) {
            proof {
                lemma_lookup_from(self.adjektiv@, adj_hit(q), 0);
            }
            return (Category::Adjektiv, Option::Some(i));
        }
        if let Option::Some(i) = find_ord(&self.pronomen, &query) {
            proof {
                lemma_lookup_from(self.pronomen@, ord_hit(q), 0);
            }
            return (Category::Pronomen, Option::Some(i));
        }
        let raw_owned = token.to_owned();
        if let Option::Some(i) = find_namn(&self.namn, &raw_owned) {
            proof {
                lemma_lookup_from(self.namn@, namn_hit(token@), 0);
            }
            return (Category::Namn, Option::Some(i));
        }
        if let Option::Some(i) = find_ord(&self.bindeord, &query) {
            proof {
                lemma_lookup_from(self.bindeord@, ord_hit(q), 0);
            }
            return (Category::Bindeord, Option::Some(i));
        }
        if let Option::Some(i) = find_ord(&self.tidsord, &query) {
            proof {
                lemma_lookup_from(self.tidsord@, ord_hit(q), 0);
            }
            return (Category::Tidsord, Option::Some(i));
        }
        if let Option::Some(i) = find_ord(&self.pronomen_objekt, &query) {
            proof {
                lemma_lookup_from(self.pronomen_objekt@, ord_hit(q), 0);
            }
            return (Category::PronomenObjekt, Option::Some(i));
        }
        if let Option::Some(i) = find_possessiv(&self.pronomen_possessiv, &query) {
            proof {
                lemma_lookup_from(self.pronomen_possessiv@, pos_hit(q), 0);
            }
            return (Category::PronomenPossessiv, Option::Some(i));
        }
        if let Option::Some(i) = find_ord(&self.prepositioner, &query) {
            proof {
                lemma_lookup_from(self.prepositioner@, ord_hit(q), 0);
            }
            return (Category::Preposition, Option::Some(i));
        }
        if let Option::Some(i) = find_artikel(&self.artiklar, &query) {
            proof {
                lemma_lookup_from(self.artiklar@, art_hit(q), 0);
            }
            return (Category::Artikel, Option::Some(i));
        }
        let tl = token.unicode_len();
        if tl > 0 {
            let c0 = token.get_char(0);
            if char_is_uppercase(c0) {
                return (Category::Namn, Option::None);
            }
        }
        let qs = query.as_str();
        let ql = qs.unicode_len();
        if ql >= 2 {
            let cd = qs.get_char(ql - 2);
            let ce = qs.get_char(ql - 1);
            if cd == 'd' && ce == 'e' {
                return (Category::Verb, Option::None);
            }
        }
        (Category::Substantiv, Option::None)
    }
}

} // verus!
