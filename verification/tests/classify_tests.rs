use ordkedja::words::{Adjektiv, Artikel, Bestamd, Category, Gender, Genus, Namn, Possessiv,
    Substantiv, Verb, Words};

fn s(x: &str) -> String {
    x.to_string()
}

fn lexicon() -> Words {
    Words {
        substantiv: vec![
            Substantiv(s("katt"), s("katten"), s("katter"), Genus::N),
            Substantiv(s("hus"), s("huset"), s("hus"), Genus::T),
            Substantiv(s("äpple"), s("äpplet"), s("äpplen"), Genus::T),
        ],
        verb: vec![Verb(s("springer"), vec![(vec![s(""), s("snabbt")], ordkedja::words::VerbExpects::NoneOrSub)])],
        adjektiv: vec![Adjektiv(s("rött"), s("röd"), s("röda"))],
        pronomen: vec![ordkedja::words::Ord(s("hon"))],
        pronomen_objekt: vec![ordkedja::words::Ord(s("henne"))],
        pronomen_possessiv: vec![Possessiv(s("hennes"), Genus::N)],
        namn: vec![Namn(s("Kalle"), Gender::Male)],
        bindeord: vec![ordkedja::words::Ord(s("och"))],
        tidsord: vec![ordkedja::words::Ord(s("igår"))],
        prepositioner: vec![ordkedja::words::Ord(s("på"))],
        artiklar: vec![Artikel(s("en"), Genus::N, Bestamd::Indefinite)],
    }
}

#[test]
fn punctuation_is_recognized_first() {
    let w = lexicon();
    assert_eq!(w.guess_word("."), (Category::Punkt, None));
    assert_eq!(w.guess_word(","), (Category::Komma, None));
}

#[test]
fn verbatim_noun_forms_hit_with_index() {
    let w = lexicon();
    assert_eq!(w.guess_word("katt"), (Category::Substantiv, Some(0)));
    assert_eq!(w.guess_word("katten"), (Category::Substantiv, Some(0)));
    assert_eq!(w.guess_word("huset"), (Category::Substantiv, Some(1)));
}

#[test]
fn each_category_table_owns_its_token() {
    let w = lexicon();
    assert_eq!(w.guess_word("springer"), (Category::Verb, Some(0)));
    assert_eq!(w.guess_word("röd"), (Category::Adjektiv, Some(0)));
    assert_eq!(w.guess_word("hon"), (Category::Pronomen, Some(0)));
    assert_eq!(w.guess_word("henne"), (Category::PronomenObjekt, Some(0)));
    assert_eq!(w.guess_word("hennes"), (Category::PronomenPossessiv, Some(0)));
    assert_eq!(w.guess_word("Kalle"), (Category::Namn, Some(0)));
    assert_eq!(w.guess_word("och"), (Category::Bindeord, Some(0)));
    assert_eq!(w.guess_word("igår"), (Category::Tidsord, Some(0)));
    assert_eq!(w.guess_word("på"), (Category::Preposition, Some(0)));
    assert_eq!(w.guess_word("en"), (Category::Artikel, Some(0)));
}

#[test]
fn lookup_is_case_insensitive_for_common_words() {
    let w = lexicon();
    assert_eq!(w.guess_word("KATT"), (Category::Substantiv, Some(0)));
    assert_eq!(w.guess_word("Springer"), (Category::Verb, Some(0)));
    // Unicode lowercasing: Ä maps to ä.
    assert_eq!(w.guess_word("ÄPPLE"), (Category::Substantiv, Some(2)));
}

#[test]
fn proper_nouns_match_case_sensitively() {
    let w = lexicon();
    assert_eq!(w.guess_word("Kalle"), (Category::Namn, Some(0)));
    // The lowercased spelling misses the table and falls back to an unknown noun.
    assert_eq!(w.guess_word("kalle"), (Category::Substantiv, None));
}

#[test]
fn noun_priority_beats_later_tables() {
    let mut w = lexicon();
    // The same surface stored both as a noun and as a verb: the noun owns it.
    w.substantiv.push(Substantiv(s("springer"), s("springern"), s("springrar"), Genus::N));
    assert_eq!(w.guess_word("springer"), (Category::Substantiv, Some(3)));
}

#[test]
fn unknown_uppercase_token_is_a_proper_noun() {
    let w = lexicon();
    assert_eq!(w.guess_word("Xyz"), (Category::Namn, None));
}

#[test]
fn unknown_token_ending_in_de_is_a_verb() {
    let w = lexicon();
    assert_eq!(w.guess_word("hoppade"), (Category::Verb, None));
}

#[test]
fn any_other_unknown_token_is_a_noun() {
    let w = lexicon();
    assert_eq!(w.guess_word("blomma"), (Category::Substantiv, None));
    assert_eq!(w.guess_word(""), (Category::Substantiv, None));
}
