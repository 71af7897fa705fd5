use ordkedja::generate::{generate, Info, Part};
use ordkedja::rng::{OsSource, RandomSource, ReplaySource};
use ordkedja::words::{Adjektiv, Artikel, Bestamd, Category, EmptyCategoryError, Gender, Genus,
    Namn, Possessiv, Substantiv, Verb, VerbExpects, Words};

fn s(x: &str) -> String {
    x.to_string()
}

fn fresh() -> Info {
    Info { part: Part::Begin, bestamd: false, verb: None }
}

/// The minimal three-entry lexicon of the fixed-draw scenario.
fn small_lexicon() -> Words {
    Words {
        substantiv: vec![Substantiv(s("katt"), s("katten"), s("katter"), Genus::N)],
        verb: vec![Verb(s("springer"), vec![(vec![s(""), s("snabbt")], VerbExpects::NoneOrSub)])],
        adjektiv: vec![],
        pronomen: vec![],
        pronomen_objekt: vec![],
        pronomen_possessiv: vec![],
        namn: vec![],
        bindeord: vec![ordkedja::words::Ord(s("och"))],
        tidsord: vec![],
        prepositioner: vec![],
        artiklar: vec![],
    }
}

/// A lexicon that fills every table the generator can reach.
fn full_lexicon() -> Words {
    Words {
        substantiv: vec![
            Substantiv(s("katt"), s("katten"), s("katter"), Genus::N),
            Substantiv(s("hus"), s("huset"), s("hus"), Genus::T),
        ],
        verb: vec![
            Verb(s("springer"), vec![(vec![s(""), s("snabbt")], VerbExpects::NoneOrSub)]),
            Verb(s("är"), vec![(vec![s("")], VerbExpects::SubOrAdj)]),
        ],
        adjektiv: vec![Adjektiv(s("rött"), s("röd"), s("röda"))],
        pronomen: vec![ordkedja::words::Ord(s("hon"))],
        pronomen_objekt: vec![ordkedja::words::Ord(s("henne"))],
        pronomen_possessiv: vec![Possessiv(s("hennes"), Genus::T)],
        namn: vec![Namn(s("Kalle"), Gender::Male)],
        bindeord: vec![ordkedja::words::Ord(s("och"))],
        tidsord: vec![ordkedja::words::Ord(s("igår"))],
        prepositioner: vec![ordkedja::words::Ord(s("på"))],
        artiklar: vec![
            Artikel(s("en"), Genus::N, Bestamd::Indefinite),
            Artikel(s("det"), Genus::T, Bestamd::Definite),
        ],
    }
}

#[test]
fn fixed_draw_scenario_runs_two_turns() {
    let w = small_lexicon();

    // First turn: the definite noun form triggers attempt-verb and emits the
    // only verb.
    let guess = w.guess_word("katten");
    assert_eq!(guess, (Category::Substantiv, Some(0)));
    let mut rng = ReplaySource::new(vec![0]);
    let (tok, ctx) = generate(&w, guess, "katten", fresh(), &mut rng).unwrap();
    assert_eq!(tok, "springer");
    assert_eq!(ctx.part, Part::HasVerb);
    assert_eq!(ctx.verb, Some(0));

    // Second turn: the known verb picks its only frame, draws the empty
    // continuation, and the fixed draws resolve NoneOrSub through the
    // object phrase into the definite noun form.
    let guess2 = w.guess_word("springer");
    assert_eq!(guess2, (Category::Verb, Some(0)));
    let mut rng2 = ReplaySource::new(vec![0, 0, 1, 3, 1, 0]);
    let (tok2, ctx2) = generate(&w, guess2, "springer", ctx, &mut rng2).unwrap();
    assert_eq!(tok2, "katten");
    assert_eq!(ctx2.part, Part::HasVerb);
    assert_eq!(ctx2.verb, Some(0));
}

#[test]
fn replayed_scripts_give_identical_turns() {
    let w = full_lexicon();
    let tokens = ["katten", "springer", "och", ".", ",", "henne", "hennes", "en", "det", "röd",
        "rött", "igår", "på", "Kalle", "hoppade", "Blomman"];
    for script_seed in 0u64..8 {
        let script: Vec<u64> = (0..10).map(|i| script_seed.wrapping_mul(31).wrapping_add(i)).collect();
        for token in tokens.iter() {
            let guess = w.guess_word(token);
            let mut ctx = fresh();
            for _ in 0..3 {
                let mut a = ReplaySource::new(script.clone());
                let mut b = ReplaySource::new(script.clone());
                let ra = generate(&w, guess, token, ctx, &mut a);
                let rb = generate(&w, guess, token, ctx, &mut b);
                assert_eq!(ra, rb);
                if let Ok((_, next)) = ra {
                    ctx = next;
                } else {
                    break;
                }
            }
        }
    }
}

#[test]
fn validated_lexicon_makes_every_turn_total() {
    let w = full_lexicon();
    assert!(w.validate().is_ok());
    let tokens = ["katten", "hus", "springer", "är", "och", ".", ",", "henne", "hennes", "en",
        "det", "röd", "rött", "röda", "igår", "på", "hon", "Kalle", "hoppade", "Blomman", "blomma"];
    let mut rng = OsSource::new();
    for token in tokens.iter() {
        for part in [Part::Begin, Part::HasVerb] {
            for verb in [None, Some(0)] {
                let guess = w.guess_word(token);
                let info = Info { part, bestamd: false, verb };
                let r = generate(&w, guess, token, info, &mut rng);
                assert!(r.is_ok(), "turn failed on {token}");
            }
        }
    }
}

#[test]
fn empty_verb_table_fails_the_turn_and_keeps_context() {
    let mut w = small_lexicon();
    w.verb = vec![];
    assert_eq!(w.validate(), Err(EmptyCategoryError));
    let guess = w.guess_word("katten");
    let mut rng = ReplaySource::new(vec![0]);
    let r = generate(&w, guess, "katten", fresh(), &mut rng);
    assert_eq!(r, Err(EmptyCategoryError));
}

#[test]
fn validate_reports_each_reachable_gap() {
    assert!(full_lexicon().validate().is_ok());
    let mut w = full_lexicon();
    w.tidsord = vec![];
    assert_eq!(w.validate(), Err(EmptyCategoryError));
    let mut w = full_lexicon();
    w.substantiv.retain(|n| n.3 != Genus::T);
    assert_eq!(w.validate(), Err(EmptyCategoryError));
    let mut w = full_lexicon();
    w.verb[0].1[0].0 = vec![];
    assert_eq!(w.validate(), Err(EmptyCategoryError));
    let mut w = full_lexicon();
    w.prepositioner = vec![];
    // The preposition table is never sampled, so it is not required.
    assert!(w.validate().is_ok());
}

#[test]
fn clause_state_tracks_verb_attempts_and_resets() {
    let w = full_lexicon();
    let mut rng = OsSource::new();

    // Attempt-verb from the clause beginning records an active verb.
    let (_, ctx) = generate(&w, w.guess_word("katten"), "katten", fresh(), &mut rng).unwrap();
    assert_eq!(ctx.part, Part::HasVerb);
    assert!(ctx.verb.is_some());

    // A second noun closes the part and goes back to the beginning.
    let (_, ctx2) = generate(&w, w.guess_word("hus"), "hus", ctx, &mut rng).unwrap();
    assert_eq!(ctx2.part, Part::Begin);

    // A known verb records itself as active.
    let (_, ctx3) = generate(&w, w.guess_word("är"), "är", ctx2, &mut rng).unwrap();
    assert_eq!(ctx3.part, Part::HasVerb);
    assert_eq!(ctx3.verb, Some(1));

    // Conjunction, terminator, object pronoun and comma all reset the clause.
    for token in ["och", ".", "henne", ","] {
        let info = Info { part: Part::HasVerb, bestamd: false, verb: Some(0) };
        let (_, next) = generate(&w, w.guess_word(token), token, info, &mut rng).unwrap();
        assert_eq!(next.part, Part::Begin, "no reset after {token}");
        assert_eq!(next.verb, Some(0));
    }
}

#[test]
fn adjective_forms_pick_agreeing_nouns() {
    let w = full_lexicon();
    let mut rng = OsSource::new();
    for _ in 0..40 {
        // Neuter form: a class-N noun, indefinite.
        let (tok, _) = generate(&w, w.guess_word("rött"), "rött", fresh(), &mut rng).unwrap();
        assert_eq!(tok, "katt");
        // "t"-form: a class-T noun, indefinite.
        let (tok, _) = generate(&w, w.guess_word("röd"), "röd", fresh(), &mut rng).unwrap();
        assert_eq!(tok, "hus");
        // Any other form: the definite form of some noun.
        let (tok, _) = generate(&w, w.guess_word("röda"), "röda", fresh(), &mut rng).unwrap();
        assert!(tok == "katten" || tok == "huset");
    }
}

#[test]
fn adjective_match_uses_the_lowered_token() {
    let w = full_lexicon();
    let mut rng = OsSource::new();
    // A capitalized spelling still classifies as the adjective and still
    // selects by its lowered form: the neuter form asks for a class-N noun.
    for _ in 0..10 {
        let guess = w.guess_word("Rött");
        assert_eq!(guess, (Category::Adjektiv, Some(0)));
        let (tok, _) = generate(&w, guess, "Rött", fresh(), &mut rng).unwrap();
        assert_eq!(tok, "katt");
    }
}

#[test]
fn phrase_article_branch_writes_definiteness() {
    let w = full_lexicon();
    // Conjunction: clause reset, then a subject phrase whose scripted draws
    // skip the pronoun mass, pick the article third of the even three-way
    // split, and land on the definite article.
    let guess = w.guess_word("och");
    assert_eq!(guess, (Category::Bindeord, Some(0)));
    let mut rng = ReplaySource::new(vec![3, 2, 1]);
    let (tok, ctx) = generate(&w, guess, "och", fresh(), &mut rng).unwrap();
    assert_eq!(tok, "det");
    assert_eq!(ctx.part, Part::Begin);
    assert!(ctx.bestamd);
    // The even split's other two thirds: the possessive surface and the
    // definite noun form.
    let mut rng = ReplaySource::new(vec![3, 0, 0]);
    let (tok, _) = generate(&w, guess, "och", fresh(), &mut rng).unwrap();
    assert_eq!(tok, "hennes");
    let mut rng = ReplaySource::new(vec![3, 1, 0]);
    let (tok, ctx) = generate(&w, guess, "och", fresh(), &mut rng).unwrap();
    assert!(tok == "katten" || tok == "huset");
    assert!(!ctx.bestamd);
}

#[test]
fn possessive_pronoun_picks_its_own_class() {
    let w = full_lexicon();
    let mut rng = OsSource::new();
    for _ in 0..40 {
        // "hennes" is stored with class T.
        let (tok, ctx) = generate(&w, w.guess_word("hennes"), "hennes", fresh(), &mut rng)
            .unwrap();
        assert_eq!(tok, "hus");
        assert_eq!(ctx.part, Part::Begin);
    }
}

#[test]
fn articles_pick_their_class_and_set_definiteness() {
    let w = full_lexicon();
    let mut rng = OsSource::new();
    for _ in 0..40 {
        // "en": indefinite, class N.
        let (tok, ctx) = generate(&w, w.guess_word("en"), "en", fresh(), &mut rng).unwrap();
        assert_eq!(tok, "katt");
        assert!(!ctx.bestamd);
        // "det": definite, class T.
        let (tok, ctx) = generate(&w, w.guess_word("det"), "det", fresh(), &mut rng).unwrap();
        assert_eq!(tok, "huset");
        assert!(ctx.bestamd);
    }
}

#[test]
fn preposition_resolves_through_the_active_verbs_frames() {
    let mut w = full_lexicon();
    w.verb.push(Verb(s("tänker"), vec![(vec![s("på")], VerbExpects::Ingen)]));
    // With "tänker" active, "på" matches its frame; Ingen resolves as
    // end-of-part, and the scripted draw forces the conjunction.
    let info = Info { part: Part::HasVerb, bestamd: false, verb: Some(2) };
    let mut rng = ReplaySource::new(vec![0, 0]);
    let (tok, ctx) = generate(&w, w.guess_word("på"), "på", info, &mut rng).unwrap();
    assert_eq!(tok, "och");
    assert_eq!(ctx.part, Part::HasVerb);
    assert_eq!(ctx.verb, Some(2));
}

#[test]
fn gendered_sampling_respects_the_request() {
    let w = full_lexicon();
    let mut rng = OsSource::new();
    for _ in 0..40 {
        let n = w.random_gendered_substantiv(Genus::N, &mut rng).unwrap();
        assert_eq!(n.3, Genus::N);
        let t = w.random_gendered_substantiv(Genus::T, &mut rng).unwrap();
        assert_eq!(t.3, Genus::T);
        let b = w.random_gendered_substantiv(Genus::B, &mut rng).unwrap();
        assert!(b.3 == Genus::N || b.3 == Genus::T);
    }
    // No noun of the requested class: the draw fails instead of spinning.
    let mut only_n = full_lexicon();
    only_n.substantiv.retain(|n| n.3 == Genus::N);
    assert!(only_n.random_gendered_substantiv(Genus::T, &mut rng).is_err());
}

#[test]
fn end_of_part_emits_conjunction_or_punctuation() {
    let w = full_lexicon();
    // Draw 0 makes the 0.3 coin come up true: a conjunction.
    let mut rng = ReplaySource::new(vec![0, 0]);
    assert_eq!(w.end_of_part(&mut rng).unwrap(), "och");
    // Draws 5,0 skip the conjunction and pick the full stop.
    let mut rng = ReplaySource::new(vec![5, 0]);
    assert_eq!(w.end_of_part(&mut rng).unwrap(), ".");
    // Draws 5,1 pick the comma.
    let mut rng = ReplaySource::new(vec![5, 1]);
    assert_eq!(w.end_of_part(&mut rng).unwrap(), ",");
    let mut os = OsSource::new();
    for _ in 0..40 {
        let t = w.end_of_part(&mut os).unwrap();
        assert!(t == "och" || t == "." || t == ",");
    }
}

#[test]
fn replay_source_reads_its_script_and_pads_with_zero() {
    let mut rng = ReplaySource::new(vec![7, 12]);
    assert_eq!(rng.pick(5), 2);
    assert_eq!(rng.pick(5), 2);
    // The script is spent: every further draw behaves as zero.
    assert_eq!(rng.pick(5), 0);
    assert!(rng.coin(1, 2));
}

#[test]
fn os_source_draws_stay_in_range() {
    let mut rng = OsSource::new();
    assert_eq!(rng.pick(1), 0);
    let mut seen = [false; 5];
    for _ in 0..200 {
        let v = rng.pick(5);
        assert!(v < 5);
        seen[v] = true;
    }
    assert!(seen.iter().any(|s| *s));
    for _ in 0..20 {
        assert!(rng.coin(1, 1));
        assert!(!rng.coin(0, 2));
    }
}
