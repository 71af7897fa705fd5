use vstd::prelude::*;

use crate::classify::{
    adj_hit, adj_matches, art_hit, art_matches, classify_spec, ends_in_de, lower_of, namn_hit,
    namn_matches, ord_hit, ord_matches, pos_hit, pos_matches, sub_hit, sub_matches, uppercase_of,
    verb_hit, verb_matches,
};
use crate::scan::lemma_lookup_from;
use crate::words::{Category, Words};

verus! {

/// Some lexicon table holds the token verbatim: any table but the proper
/// nouns on the lowered spelling, the proper nouns on the raw one.
pub open spec fn any_table_hit(w: Words, raw: Seq<char>) -> bool {
    let q = lower_of(raw);
    ||| (exists|i: int| 0 <= i < w.substantiv@.len() && sub_matches(#[trigger] w.substantiv@[i], q))
    ||| (exists|i: int| 0 <= i < w.verb@.len() && verb_matches(#[trigger] w.verb@[i], q))
    ||| (exists|i: int| 0 <= i < w.adjektiv@.len() && adj_matches(#[trigger] w.adjektiv@[i], q))
    ||| (exists|i: int| 0 <= i < w.pronomen@.len() && ord_matches(#[trigger] w.pronomen@[i], q))
    ||| (exists|i: int| 0 <= i < w.namn@.len() && namn_matches(#[trigger] w.namn@[i], raw))
    ||| (exists|i: int| 0 <= i < w.bindeord@.len() && ord_matches(#[trigger] w.bindeord@[i], q))
    ||| (exists|i: int| 0 <= i < w.tidsord@.len() && ord_matches(#[trigger] w.tidsord@[i], q))
    ||| (exists|i: int|
        0 <= i < w.pronomen_objekt@.len() && ord_matches(#[trigger] w.pronomen_objekt@[i], q))
    ||| (exists|i: int|
        0 <= i < w.pronomen_possessiv@.len() && pos_matches(
            #[trigger] w.pronomen_possessiv@[i],
            q,
        ))
    ||| (exists|i: int|
        0 <= i < w.prepositioner@.len() && ord_matches(#[trigger] w.prepositioner@[i], q))
    ||| (exists|i: int| 0 <= i < w.artiklar@.len() && art_matches(#[trigger] w.artiklar@[i], q))
}

/// The entry at the returned index really holds the token, in the table
/// that owns the returned category.
pub open spec fn entry_matches(w: Words, raw: Seq<char>, c: Category, i: int) -> bool {
    let q = lower_of(raw);
    match c {
        Category::Substantiv => 0 <= i < w.substantiv@.len() && sub_matches(w.substantiv@[i], q),
        Category::Verb => 0 <= i < w.verb@.len() && verb_matches(w.verb@[i], q),
        Category::Adjektiv => 0 <= i < w.adjektiv@.len() && adj_matches(w.adjektiv@[i], q),
        Category::Pronomen => 0 <= i < w.pronomen@.len() && ord_matches(w.pronomen@[i], q),
        Category::Namn => 0 <= i < w.namn@.len() && namn_matches(w.namn@[i], raw),
        Category::Bindeord => 0 <= i < w.bindeord@.len() && ord_matches(w.bindeord@[i], q),
        Category::Tidsord => 0 <= i < w.tidsord@.len() && ord_matches(w.tidsord@[i], q),
        Category::Punkt => false,
        Category::PronomenObjekt => 0 <= i < w.pronomen_objekt@.len() && ord_matches(
            w.pronomen_objekt@[i],
            q,
        ),
        Category::PronomenPossessiv => 0 <= i < w.pronomen_possessiv@.len() && pos_matches(
            w.pronomen_possessiv@[i],
            q,
        ),
        Category::Komma => false,
        Category::Preposition => 0 <= i < w.prepositioner@.len() && ord_matches(
            w.prepositioner@[i],
            q,
        ),
        Category::Artikel => 0 <= i < w.artiklar@.len() && art_matches(w.artiklar@[i], q),
    }
}

/// The two punctuation literals classify as their dedicated categories, with
/// no index, on every lexicon — ahead of any table lookup, so even a lexicon
/// that stores "." or "," as an entry's surface cannot claim them.
pub proof fn lemma_punctuation_first(w: Words)
    ensures
        classify_spec(w, seq!['.']) == (Category::Punkt, Option::<int>::None),
        classify_spec(w, seq![',']) == (Category::Komma, Option::<int>::None),
{
    assert(seq![','][0] == ',');
    assert(seq!['.'][0] == '.');
    assert(seq![','] != seq!['.']);
}

/// A token some table holds verbatim is classified into an owning table,
/// never through the unknown-word fallback: the result carries an index
/// valid for the returned category whose entry matches the token.
pub proof fn lemma_table_hit_classified(w: Words, raw: Seq<char>)
    requires
        raw != seq!['.'],
        raw != seq![','],
        any_table_hit(w, raw),
    ensures
        ({
            let (c, oi) = classify_spec(w, raw);
            oi matches Option::Some(i) && entry_matches(w, raw, c, i)
        }),
{
    lemma_no_hidden_hits(w, raw);
}

/// A token no table holds resolves by the fallback heuristics: an
/// uppercase-first token is an unknown proper noun, a token whose lowered
/// form ends in "de" an unknown verb, anything else an unknown noun.
pub proof fn lemma_fallback_heuristics(w: Words, raw: Seq<char>)
    requires
        raw != seq!['.'],
        raw != seq![','],
        !any_table_hit(w, raw),
    ensures
        raw.len() > 0 && uppercase_of(raw[0]) ==> classify_spec(w, raw) == (
            Category::Namn,
            Option::<int>::None,
        ),
        !(raw.len() > 0 && uppercase_of(raw[0])) && ends_in_de(lower_of(raw)) ==> classify_spec(
            w,
            raw,
        ) == (Category::Verb, Option::<int>::None),
        !(raw.len() > 0 && uppercase_of(raw[0])) && !ends_in_de(lower_of(raw)) ==> classify_spec(
            w,
            raw,
        ) == (Category::Substantiv, Option::<int>::None),
{
    lemma_no_hidden_hits(w, raw);
}

/// Each table lookup agrees with the per-table match predicates: it finds an
/// index exactly when some entry matches, and then a matching one.
proof fn lemma_no_hidden_hits(w: Words, raw: Seq<char>)
    ensures
        ({
            let q = lower_of(raw);
            &&& (match crate::scan::lookup(w.substantiv@, sub_hit(q)) {
                Option::Some(i) => 0 <= i < w.substantiv@.len() && sub_matches(
                    w.substantiv@[i],
                    q,
                ),
                Option::None => forall|i: int|
                    0 <= i < w.substantiv@.len() ==> !sub_matches(#[trigger] w.substantiv@[i], q),
            })
            &&& (match crate::scan::lookup(w.verb@, verb_hit(q)) {
                Option::Some(i) => 0 <= i < w.verb@.len() && verb_matches(w.verb@[i], q),
                Option::None => forall|i: int|
                    0 <= i < w.verb@.len() ==> !verb_matches(#[trigger] w.verb@[i], q),
            })
            &&& (match crate::scan::lookup(w.adjektiv@, adj_hit(q)) {
                Option::Some(i) => 0 <= i < w.adjektiv@.len() && adj_matches(w.adjektiv@[i], q),
                Option::None => forall|i: int|
                    0 <= i < w.adjektiv@.len() ==> !adj_matches(#[trigger] w.adjektiv@[i], q),
            })
            &&& (match crate::scan::lookup(w.pronomen@, ord_hit(q)) {
                Option::Some(i) => 0 <= i < w.pronomen@.len() && ord_matches(w.pronomen@[i], q),
                Option::None => forall|i: int|
                    0 <= i < w.pronomen@.len() ==> !ord_matches(#[trigger] w.pronomen@[i], q),
            })
            &&& (match crate::scan::lookup(w.namn@, namn_hit(raw)) {
                Option::Some(i) => 0 <= i < w.namn@.len() && namn_matches(w.namn@[i], raw),
                Option::None => forall|i: int|
                    0 <= i < w.namn@.len() ==> !namn_matches(#[trigger] w.namn@[i], raw),
            })
            &&& (match crate::scan::lookup(w.bindeord@, ord_hit(q)) {
                Option::Some(i) => 0 <= i < w.bindeord@.len() && ord_matches(w.bindeord@[i], q),
                Option::None => forall|i: int|
                    0 <= i < w.bindeord@.len() ==> !ord_matches(#[trigger] w.bindeord@[i], q),
            })
            &&& (match crate::scan::lookup(w.tidsord@, ord_hit(q)) {
                Option::Some(i) => 0 <= i < w.tidsord@.len() && ord_matches(w.tidsord@[i], q),
                Option::None => forall|i: int|
                    0 <= i < w.tidsord@.len() ==> !ord_matches(#[trigger] w.tidsord@[i], q),
            })
            &&& (match crate::scan::lookup(w.pronomen_objekt@, ord_hit(q)) {
                Option::Some(i) => 0 <= i < w.pronomen_objekt@.len() && ord_matches(
                    w.pronomen_objekt@[i],
                    q,
                ),
                Option::None => forall|i: int|
                    0 <= i < w.pronomen_objekt@.len() ==> !ord_matches(
                        #[trigger] w.pronomen_objekt@[i],
                        q,
                    ),
            })
            &&& (match crate::scan::lookup(w.pronomen_possessiv@, pos_hit(q)) {
                Option::Some(i) => 0 <= i < w.pronomen_possessiv@.len() && pos_matches(
                    w.pronomen_possessiv@[i],
                    q,
                ),
                Option::None => forall|i: int|
                    0 <= i < w.pronomen_possessiv@.len() ==> !pos_matches(
                        #[trigger] w.pronomen_possessiv@[i],
                        q,
                    ),
            })
            &&& (match crate::scan::lookup(w.prepositioner@, ord_hit(q)) {
                Option::Some(i) => 0 <= i < w.prepositioner@.len() && ord_matches(
                    w.prepositioner@[i],
                    q,
                ),
                Option::None => forall|i: int|
                    0 <= i < w.prepositioner@.len() ==> !ord_matches(
                        #[trigger] w.prepositioner@[i],
                        q,
                    ),
            })
            &&& (match crate::scan::lookup(w.artiklar@, art_hit(q)) {
                Option::Some(i) => 0 <= i < w.artiklar@.len() && art_matches(w.artiklar@[i], q),
                Option::None => forall|i: int|
                    0 <= i < w.artiklar@.len() ==> !art_matches(#[trigger] w.artiklar@[i], q),
            })
        }),
{
    let q = lower_of(raw);
    lemma_lookup_from(w.substantiv@, sub_hit(q), 0);
    assert forall|i: int| 0 <= i < w.substantiv@.len() implies (sub_hit(q)(
        #[trigger] w.substantiv@[i],
    ) == sub_matches(w.substantiv@[i], q)) by {}
    lemma_lookup_from(w.verb@, verb_hit(q), 0);
    assert forall|i: int| 0 <= i < w.verb@.len() implies (verb_hit(q)(#[trigger] w.verb@[i])
        == verb_matches(w.verb@[i], q)) by {}
    lemma_lookup_from(w.adjektiv@, adj_hit(q), 0);
    assert forall|i: int| 0 <= i < w.adjektiv@.len() implies (adj_hit(q)(#[trigger] w.adjektiv@[i])
        == adj_matches(w.adjektiv@[i], q)) by {}
    lemma_lookup_from(w.pronomen@, ord_hit(q), 0);
    assert forall|i: int| 0 <= i < w.pronomen@.len() implies (ord_hit(q)(#[trigger] w.pronomen@[i])
        == ord_matches(w.pronomen@[i], q)) by {}
    lemma_lookup_from(w.namn@, namn_hit(raw), 0);
    assert forall|i: int| 0 <= i < w.namn@.len() implies (namn_hit(raw)(#[trigger] w.namn@[i])
        == namn_matches(w.namn@[i], raw)) by {}
    lemma_lookup_from(w.bindeord@, ord_hit(q), 0);
    assert forall|i: int| 0 <= i < w.bindeord@.len() implies (ord_hit(q)(#[trigger] w.bindeord@[i])
        == ord_matches(w.bindeord@[i], q)) by {}
    lemma_lookup_from(w.tidsord@, ord_hit(q), 0);
    assert forall|i: int| 0 <= i < w.tidsord@.len() implies (ord_hit(q)(#[trigger] w.tidsord@[i])
        == ord_matches(w.tidsord@[i], q)) by {}
    lemma_lookup_from(w.pronomen_objekt@, ord_hit(q), 0);
    assert forall|i: int| 0 <= i < w.pronomen_objekt@.len() implies (ord_hit(q)(
        #[trigger] w.pronomen_objekt@[i],
    ) == ord_matches(w.pronomen_objekt@[i], q)) by {}
    lemma_lookup_from(w.pronomen_possessiv@, pos_hit(q), 0);
    assert forall|i: int| 0 <= i < w.pronomen_possessiv@.len() implies (pos_hit(q)(
        #[trigger] w.pronomen_possessiv@[i],
    ) == pos_matches(w.pronomen_possessiv@[i], q)) by {}
    lemma_lookup_from(w.prepositioner@, ord_hit(q), 0);
    assert forall|i: int| 0 <= i < w.prepositioner@.len() implies (ord_hit(q)(
        #[trigger] w.prepositioner@[i],
    ) == ord_matches(w.prepositioner@[i], q)) by {}
    lemma_lookup_from(w.artiklar@, art_hit(q), 0);
    assert forall|i: int| 0 <= i < w.artiklar@.len() implies (art_hit(q)(#[trigger] w.artiklar@[i])
        == art_matches(w.artiklar@[i], q)) by {}
}

} // verus!
