use vstd::prelude::*;

use crate::classify::guess_wf;
use crate::rng::{coin_of, pick_of, rest_draws, take_draw, RandomSource};
use crate::scan::{lemma_lookup_from, lemma_lookup_prefix, lookup};
use crate::words::{
    gendered_spec, generator_ready, sample_idx, sample_spec, Bestamd, Category, EmptyCategoryError,
    Genus, Substantiv, VerbExpects, Words,
};

verus! {

/// One grammatical clause is either still waiting for its finite verb or
/// already has one.
#[derive(Clone, Copy, PartialEq, Eq, Structural, Debug)]
pub enum Part {
    Begin,
    HasVerb,
}

/// The per-conversation generation context: clause progress, pending
/// definiteness, and the index of the active verb, if any.
#[derive(Clone, Copy, PartialEq, Eq, Debug)]
pub struct Info {
    pub part: Part,
    pub bestamd: bool,
    pub verb: Option<usize>,
}

/// A context whose active-verb index, where set, stays inside the lexicon it
/// will be read against.
pub open spec fn info_wf(w: Words, info: Info) -> bool {
    info.verb matches Option::Some(i) ==> i < w.verb@.len()
}

/// What an end-of-part draw may emit: a conjunction surface, or one of the
/// two punctuation tokens.
pub open spec fn is_eop_token(w: Words, t: Seq<char>) -> bool {
    ||| (exists|i: int| 0 <= i < w.bindeord@.len() && t == (#[trigger] w.bindeord@[i]).0@)
    ||| t == seq!['.']
    ||| t == seq![',']
}

/// The token is the surface of some entry of a single-surface table.
pub open spec fn is_surface_of(tbl: Seq<crate::words::Ord>, t: Seq<char>) -> bool {
    exists|i: int| 0 <= i < tbl.len() && t == (#[trigger] tbl[i]).0@
}

/// What a phrase draw over the given pronoun table may emit: a pronoun,
/// a proper noun, a possessive surface, a definite noun form, or an
/// article surface.
pub open spec fn is_phrase_token(w: Words, pron: Seq<crate::words::Ord>, t: Seq<char>) -> bool {
    ||| is_surface_of(pron, t)
    ||| (exists|i: int| 0 <= i < w.namn@.len() && t == (#[trigger] w.namn@[i]).0@)
    ||| (exists|i: int|
        0 <= i < w.pronomen_possessiv@.len() && t == (#[trigger] w.pronomen_possessiv@[i]).0@)
    ||| (exists|i: int| 0 <= i < w.substantiv@.len() && t == (#[trigger] w.substantiv@[i]).1@)
    ||| (exists|i: int| 0 <= i < w.artiklar@.len() && t == (#[trigger] w.artiklar@[i]).0@)
}

/// Pending definiteness is written only by the article branch: either it is
/// unchanged, or the emitted token is an article surface and the flag holds
/// that article's definiteness.
pub open spec fn bestamd_update_ok(w: Words, t: Seq<char>, b0: bool, b1: bool) -> bool {
    ||| b1 == b0
    ||| (exists|i: int|
        0 <= i < w.artiklar@.len() && t == (#[trigger] w.artiklar@[i]).0@ && b1 == (
        w.artiklar@[i].2 == Bestamd::Definite))
}

/// The tables an object- or subject-phrase draw may reach are all non-empty.
pub open spec fn phrase_ready(w: Words, pron: Seq<crate::words::Ord>) -> bool {
    &&& pron.len() > 0
    &&& w.namn@.len() > 0
    &&& w.pronomen_possessiv@.len() > 0
    &&& w.substantiv@.len() > 0
    &&& w.artiklar@.len() > 0
}

/// The tables a complement-kind resolution may reach are all non-empty.
pub open spec fn resolve_ready(w: Words) -> bool {
    &&& w.bindeord@.len() > 0
    &&& w.adjektiv@.len() > 0
    &&& phrase_ready(w, w.pronomen_objekt@)
}

/// A noun surface emitted under an agreement-class constraint: some noun of
/// the requested class (or any noun, when the request was `B`), in the form
/// the definiteness asks for.
pub open spec fn gendered_noun_emitted(
    s: Seq<Substantiv>,
    g: Genus,
    t: Seq<char>,
    definite: bool,
) -> bool {
    exists|i: int|
        0 <= i < s.len() && (g == Genus::B || (#[trigger] s[i]).3 == g) && t == (if definite {
            s[i].1@
        } else {
            s[i].0@
        })
}

/// The replayable model of an end-of-part draw.
pub open spec fn eop_spec(w: Words, d: Seq<u64>) -> (Result<Seq<char>, EmptyCategoryError>, Seq<
    u64,
>) {
    let c = coin_of(take_draw(d), 3, 10);
    let d1 = rest_draws(d);
    if c {
        let s = sample_spec(w.bindeord@, d1);
        (
            match s.0 {
                Result::Ok(o) => Result::Ok(o.0@),
                Result::Err(e) => Result::Err(e),
            },
            s.1,
        )
    } else {
        let c2 = coin_of(take_draw(d1), 1, 2);
        let d2 = rest_draws(d1);
        if c2 {
            (Result::Ok(seq!['.']), d2)
        } else {
            (Result::Ok(seq![',']), d2)
        }
    }
}

/// The replayable model of an object- or subject-phrase draw, over the
/// pronoun table the phrase kind reads.
pub open spec fn phrase_spec(
    w: Words,
    pron: Seq<crate::words::Ord>,
    bestamd: bool,
    d: Seq<u64>,
) -> (Result<(Seq<char>, bool), EmptyCategoryError>, Seq<u64>) {
    let c1 = coin_of(take_draw(d), 2, 5);
    let d1 = rest_draws(d);
    if c1 {
        let c2 = coin_of(take_draw(d1), 3, 5);
        let d2 = rest_draws(d1);
        if c2 {
            let s = sample_spec(pron, d2);
            (
                match s.0 {
                    Result::Ok(o) => Result::Ok((o.0@, bestamd)),
                    Result::Err(e) => Result::Err(e),
                },
                s.1,
            )
        } else {
            let s = sample_spec(w.namn@, d2);
            (
                match s.0 {
                    Result::Ok(n) => Result::Ok((n.0@, bestamd)),
                    Result::Err(e) => Result::Err(e),
                },
                s.1,
            )
        }
    } else {
        let k = pick_of(take_draw(d1), 3);
        let d2 = rest_draws(d1);
        if k == 0 {
            let s = sample_spec(w.pronomen_possessiv@, d2);
            (
                match s.0 {
                    Result::Ok(p) => Result::Ok((p.0@, bestamd)),
                    Result::Err(e) => Result::Err(e),
                },
                s.1,
            )
        } else if k == 1 {
            let s = sample_spec(w.substantiv@, d2);
            (
                match s.0 {
                    Result::Ok(n) => Result::Ok((n.1@, bestamd)),
                    Result::Err(e) => Result::Err(e),
                },
                s.1,
            )
        } else {
            let s = sample_spec(w.artiklar@, d2);
            (
                match s.0 {
                    Result::Ok(a) => Result::Ok((a.0@, a.2 == Bestamd::Definite)),
                    Result::Err(e) => Result::Err(e),
                },
                s.1,
            )
        }
    }
}

/// The replayable model of resolving a complement kind after the
/// empty-continuation sentinel, shared by the verb and preposition branches.
pub open spec fn resolve_spec(w: Words, expects: VerbExpects, bestamd: bool, d: Seq<u64>) -> (Result<
    (Seq<char>, bool),
    EmptyCategoryError,
>, Seq<u64>) {
    match expects {
        VerbExpects::Ingen => {
            let m = eop_spec(w, d);
            (
                match m.0 {
                    Result::Ok(t) => Result::Ok((t, bestamd)),
                    Result::Err(e) => Result::Err(e),
                },
                m.1,
            )
        },
        VerbExpects::NoneOrSub => {
            let c = coin_of(take_draw(d), 1, 2);
            let d1 = rest_draws(d);
            if c {
                let m = eop_spec(w, d1);
                (
                    match m.0 {
                        Result::Ok(t) => Result::Ok((t, bestamd)),
                        Result::Err(e) => Result::Err(e),
                    },
                    m.1,
                )
            } else {
                phrase_spec(w, w.pronomen_objekt@, bestamd, d1)
            }
        },
        VerbExpects::Sub => phrase_spec(w, w.pronomen_objekt@, bestamd, d),
        VerbExpects::SubOrAdj => {
            let c = coin_of(take_draw(d), 1, 2);
            let d1 = rest_draws(d);
            if c {
                let s = sample_spec(w.adjektiv@, d1);
                (
                    match s.0 {
                        Result::Ok(a) => Result::Ok((a.0@, bestamd)),
                        Result::Err(e) => Result::Err(e),
                    },
                    s.1,
                )
            } else {
                phrase_spec(w, w.pronomen_objekt@, bestamd, d1)
            }
        },
    }
}

/// The replayable model of the attempt-verb step shared by the noun,
/// subject-pronoun, proper-noun and temporal-adverb branches.
pub open spec fn could_verb_spec(w: Words, part: Part, verb: Option<usize>, d: Seq<u64>) -> (Result<
    (Seq<char>, Part, Option<usize>),
    EmptyCategoryError,
>, Seq<u64>) {
    if part == Part::Begin {
        if w.verb@.len() == 0 {
            (Result::Err(EmptyCategoryError), d)
        } else {
            let i = pick_of(take_draw(d), w.verb@.len() as int);
            (
                Result::Ok((w.verb@[i].0@, Part::HasVerb, Option::Some(i as usize))),
                rest_draws(d),
            )
        }
    } else {
        let m = eop_spec(w, d);
        (
            match m.0 {
                Result::Ok(t) => Result::Ok((t, Part::Begin, verb)),
                Result::Err(e) => Result::Err(e),
            },
            m.1,
        )
    }
}

/// A continuation set of the frame holds the preposition token verbatim.
pub open spec fn frame_matches(f: (Vec<String>, VerbExpects), t: Seq<char>) -> bool {
    exists|k: int| 0 <= k < f.0@.len() && (#[trigger] f.0@[k])@ == t
}

pub open spec fn frame_hit(t: Seq<char>) -> spec_fn((Vec<String>, VerbExpects)) -> bool {
    |f: (Vec<String>, VerbExpects)| frame_matches(f, t)
}

/// The model of the attempt-verb branch (noun, subject pronoun, proper
/// noun, temporal adverb).
pub open spec fn attempt_spec(w: Words, info: Info, d: Seq<u64>) -> (Result<
    (Seq<char>, Info),
    EmptyCategoryError,
>, Seq<u64>) {
    let m = could_verb_spec(w, info.part, info.verb, d);
    (
        match m.0 {
            Result::Ok(p) => Result::Ok((p.0, Info { part: p.1, bestamd: info.bestamd, verb: p.2 })),
            Result::Err(e) => Result::Err(e),
        },
        m.1,
    )
}

/// The model of the adjective branch for a matched entry: the lowered
/// token picks which form matched, as classification compared it.
pub open spec fn adjektiv_spec(w: Words, i: int, token: Seq<char>, info: Info, d: Seq<u64>) -> (Result<
    (Seq<char>, Info),
    EmptyCategoryError,
>, Seq<u64>) {
    let a = w.adjektiv@[i];
    let q = crate::classify::lower_of(token);
    if a.0@ == q {
        let s = gendered_spec(w.substantiv@, Genus::N, d);
        (
            match s.0 {
                Result::Ok(n) => Result::Ok((n.0@, info)),
                Result::Err(e) => Result::Err(e),
            },
            s.1,
        )
    } else if a.1@ == q {
        let s = gendered_spec(w.substantiv@, Genus::T, d);
        (
            match s.0 {
                Result::Ok(n) => Result::Ok((n.0@, info)),
                Result::Err(e) => Result::Err(e),
            },
            s.1,
        )
    } else {
        let s = sample_spec(w.substantiv@, d);
        (
            match s.0 {
                Result::Ok(n) => Result::Ok((n.1@, info)),
                Result::Err(e) => Result::Err(e),
            },
            s.1,
        )
    }
}

/// The model of the known-verb branch: one frame drawn uniformly, one
/// continuation drawn from its set, the empty sentinel resolved by the
/// frame's complement kind.
pub open spec fn verb_known_spec(w: Words, vi: int, info: Info, d: Seq<u64>) -> (Result<
    (Seq<char>, Info),
    EmptyCategoryError,
>, Seq<u64>) {
    let frames = w.verb@[vi].1@;
    if frames.len() == 0 {
        (Result::Err(EmptyCategoryError), d)
    } else {
        let fi = pick_of(take_draw(d), frames.len() as int);
        let d1 = rest_draws(d);
        let group = frames[fi].0@;
        if group.len() == 0 {
            (Result::Err(EmptyCategoryError), d1)
        } else {
            let ci = pick_of(take_draw(d1), group.len() as int);
            let d2 = rest_draws(d1);
            let choice = group[ci]@;
            if choice.len() > 0 {
                (
                    Result::Ok(
                        (
                            choice,
                            Info {
                                part: Part::HasVerb,
                                bestamd: info.bestamd,
                                verb: Option::Some(vi as usize),
                            },
                        ),
                    ),
                    d2,
                )
            } else {
                let m = resolve_spec(w, frames[fi].1, info.bestamd, d2);
                (
                    match m.0 {
                        Result::Ok(p) => Result::Ok(
                            (
                                p.0,
                                Info {
                                    part: Part::HasVerb,
                                    bestamd: p.1,
                                    verb: Option::Some(vi as usize),
                                },
                            ),
                        ),
                        Result::Err(e) => Result::Err(e),
                    },
                    m.1,
                )
            }
        }
    }
}

/// The model of the unknown-verb branch: an object phrase, with the clause
/// marked as having its verb.
pub open spec fn verb_unknown_spec(w: Words, info: Info, d: Seq<u64>) -> (Result<
    (Seq<char>, Info),
    EmptyCategoryError,
>, Seq<u64>) {
    let m = phrase_spec(w, w.pronomen_objekt@, info.bestamd, d);
    (
        match m.0 {
            Result::Ok(p) => Result::Ok(
                (p.0, Info { part: Part::HasVerb, bestamd: p.1, verb: Option::None }),
            ),
            Result::Err(e) => Result::Err(e),
        },
        m.1,
    )
}

/// The model of the conjunction branch: clause reset, then a subject phrase.
pub open spec fn bindeord_spec(w: Words, info: Info, d: Seq<u64>) -> (Result<
    (Seq<char>, Info),
    EmptyCategoryError,
>, Seq<u64>) {
    let m = phrase_spec(w, w.pronomen@, info.bestamd, d);
    (
        match m.0 {
            Result::Ok(p) => Result::Ok(
                (p.0, Info { part: Part::Begin, bestamd: p.1, verb: info.verb }),
            ),
            Result::Err(e) => Result::Err(e),
        },
        m.1,
    )
}

/// The model of the sentence-terminator and object-pronoun branches: clause
/// reset, then an even split between a temporal adverb and a subject phrase.
pub open spec fn terminator_spec(w: Words, info: Info, d: Seq<u64>) -> (Result<
    (Seq<char>, Info),
    EmptyCategoryError,
>, Seq<u64>) {
    let c = coin_of(take_draw(d), 1, 2);
    let d1 = rest_draws(d);
    if c {
        let s = sample_spec(w.tidsord@, d1);
        (
            match s.0 {
                Result::Ok(o) => Result::Ok(
                    (o.0@, Info { part: Part::Begin, bestamd: info.bestamd, verb: info.verb }),
                ),
                Result::Err(e) => Result::Err(e),
            },
            s.1,
        )
    } else {
        let m = phrase_spec(w, w.pronomen@, info.bestamd, d1);
        (
            match m.0 {
                Result::Ok(p) => Result::Ok(
                    (p.0, Info { part: Part::Begin, bestamd: p.1, verb: info.verb }),
                ),
                Result::Err(e) => Result::Err(e),
            },
            m.1,
        )
    }
}

/// The model of the comma branch: clause reset, then an even split between a
/// subject phrase and a conjunction.
pub open spec fn komma_spec(w: Words, info: Info, d: Seq<u64>) -> (Result<
    (Seq<char>, Info),
    EmptyCategoryError,
>, Seq<u64>) {
    let c = coin_of(take_draw(d), 1, 2);
    let d1 = rest_draws(d);
    if c {
        let m = phrase_spec(w, w.pronomen@, info.bestamd, d1);
        (
            match m.0 {
                Result::Ok(p) => Result::Ok(
                    (p.0, Info { part: Part::Begin, bestamd: p.1, verb: info.verb }),
                ),
                Result::Err(e) => Result::Err(e),
            },
            m.1,
        )
    } else {
        let s = sample_spec(w.bindeord@, d1);
        (
            match s.0 {
                Result::Ok(o) => Result::Ok(
                    (o.0@, Info { part: Part::Begin, bestamd: info.bestamd, verb: info.verb }),
                ),
                Result::Err(e) => Result::Err(e),
            },
            s.1,
        )
    }
}

/// The model of the possessive-pronoun branch for a matched entry.
pub open spec fn possessiv_spec(w: Words, i: int, info: Info, d: Seq<u64>) -> (Result<
    (Seq<char>, Info),
    EmptyCategoryError,
>, Seq<u64>) {
    let s = gendered_spec(w.substantiv@, w.pronomen_possessiv@[i].1, d);
    (
        match s.0 {
            Result::Ok(n) => Result::Ok((n.0@, info)),
            Result::Err(e) => Result::Err(e),
        },
        s.1,
    )
}

/// The model of the preposition branch: the active verb's frames searched
/// for the token, the first hit resolved by its complement kind, anything
/// else answered with an object phrase.
pub open spec fn preposition_spec(w: Words, token: Seq<char>, info: Info, d: Seq<u64>) -> (Result<
    (Seq<char>, Info),
    EmptyCategoryError,
>, Seq<u64>) {
    let fallback = phrase_spec(w, w.pronomen_objekt@, info.bestamd, d);
    let picked = match info.verb {
        Option::Some(vi) => {
            let frames = w.verb@[vi as int].1@;
            match lookup(frames, frame_hit(token)) {
                Option::Some(fi) => Option::Some(resolve_spec(w, frames[fi].1, info.bestamd, d)),
                Option::None => Option::None,
            }
        },
        Option::None => Option::None,
    };
    let m = match picked {
        Option::Some(m) => m,
        Option::None => fallback,
    };
    (
        match m.0 {
            Result::Ok(p) => Result::Ok(
                (p.0, Info { part: info.part, bestamd: p.1, verb: info.verb }),
            ),
            Result::Err(e) => Result::Err(e),
        },
        m.1,
    )
}

/// The model of the article branch for a matched entry.
pub open spec fn artikel_spec(w: Words, i: int, info: Info, d: Seq<u64>) -> (Result<
    (Seq<char>, Info),
    EmptyCategoryError,
>, Seq<u64>) {
    let a = w.artiklar@[i];
    let s = gendered_spec(w.substantiv@, a.1, d);
    if a.2 == Bestamd::Definite {
        (
            match s.0 {
                Result::Ok(n) => Result::Ok(
                    (n.1@, Info { part: info.part, bestamd: true, verb: info.verb }),
                ),
                Result::Err(e) => Result::Err(e),
            },
            s.1,
        )
    } else {
        (
            match s.0 {
                Result::Ok(n) => Result::Ok(
                    (n.0@, Info { part: info.part, bestamd: false, verb: info.verb }),
                ),
                Result::Err(e) => Result::Err(e),
            },
            s.1,
        )
    }
}

/// The replayable model of one whole generation turn.
pub open spec fn generate_spec(
    w: Words,
    guess: (Category, Option<usize>),
    token: Seq<char>,
    info: Info,
    d: Seq<u64>,
) -> (Result<(Seq<char>, Info), EmptyCategoryError>, Seq<u64>) {
    match guess.0 {
        Category::Substantiv | Category::Pronomen | Category::Namn | Category::Tidsord => {
            attempt_spec(w, info, d)
        },
        Category::Adjektiv => match guess.1 {
            Option::Some(i) => adjektiv_spec(w, i as int, token, info, d),
            Option::None => (Result::Err(EmptyCategoryError), d),
        },
        Category::Verb => match guess.1 {
            Option::Some(vi) => verb_known_spec(w, vi as int, info, d),
            Option::None => verb_unknown_spec(w, info, d),
        },
        Category::Bindeord => bindeord_spec(w, info, d),
        Category::Punkt | Category::PronomenObjekt => terminator_spec(w, info, d),
        Category::PronomenPossessiv => match guess.1 {
            Option::Some(i) => possessiv_spec(w, i as int, info, d),
            Option::None => (Result::Err(EmptyCategoryError), d),
        },
        Category::Komma => komma_spec(w, info, d),
        Category::Preposition => preposition_spec(w, token, info, d),
        Category::Artikel => match guess.1 {
            Option::Some(i) => artikel_spec(w, i as int, info, d),
            Option::None => (Result::Err(EmptyCategoryError), d),
        },
    }
}

/// The branches that try to continue the clause with a verb.
pub open spec fn attempts_verb(c: Category) -> bool {
    c == Category::Substantiv || c == Category::Pronomen || c == Category::Namn || c
        == Category::Tidsord
}

/// The branches that reset the clause to its beginning.
pub open spec fn resets_clause(c: Category) -> bool {
    c == Category::Bindeord || c == Category::Punkt || c == Category::PronomenObjekt || c
        == Category::Komma
}

/// The branches that leave clause state and active verb untouched.
pub open spec fn keeps_state(c: Category) -> bool {
    c == Category::Adjektiv || c == Category::PronomenPossessiv || c == Category::Preposition || c
        == Category::Artikel
}

/// The agreement the adjective branch owes: a noun of class `N` after the
/// neuter form, of class `T` after the "t"-form — the matched form being
/// the one the lowered token equals, as classification compared it.
pub open spec fn agreement_on_adjektiv(
    w: Words,
    guess: (Category, Option<usize>),
    raw: Seq<char>,
    t: Seq<char>,
) -> bool {
    match guess.1 {
        Option::Some(i) => {
            let a = w.adjektiv@[i as int];
            let q = crate::classify::lower_of(raw);
            &&& (a.0@ == q ==> gendered_noun_emitted(w.substantiv@, Genus::N, t, false))
            &&& (a.0@ != q && a.1@ == q ==> gendered_noun_emitted(
                w.substantiv@,
                Genus::T,
                t,
                false,
            ))
        },
        Option::None => true,
    }
}

/// The agreement the possessive-pronoun branch owes: a noun of the entry's
/// own class.
pub open spec fn agreement_on_possessiv(
    w: Words,
    guess: (Category, Option<usize>),
    t: Seq<char>,
) -> bool {
    match guess.1 {
        Option::Some(i) => gendered_noun_emitted(
            w.substantiv@,
            w.pronomen_possessiv@[i as int].1,
            t,
            false,
        ),
        Option::None => true,
    }
}

/// The agreement the article branch owes: a noun of the article's class, in
/// the form its definiteness selects, with the pending-definiteness flag set
/// accordingly.
pub open spec fn agreement_on_artikel(
    w: Words,
    guess: (Category, Option<usize>),
    t: Seq<char>,
    inf: Info,
) -> bool {
    match guess.1 {
        Option::Some(i) => {
            let a = w.artiklar@[i as int];
            if a.2 == Bestamd::Definite {
                gendered_noun_emitted(w.substantiv@, a.1, t, true) && inf.bestamd == true
            } else {
                gendered_noun_emitted(w.substantiv@, a.1, t, false) && inf.bestamd == false
            }
        },
        Option::None => true,
    }
}

/// How an executable turn result corresponds to the model's.
pub open spec fn turn_matches(
    r: Result<(String, Info), EmptyCategoryError>,
    m: Result<(Seq<char>, Info), EmptyCategoryError>,
) -> bool {
    match (r, m) {
        (Result::Ok(p), Result::Ok(q)) => p.0@ == q.0 && p.1 == q.1,
        (Result::Err(_), Result::Err(_)) => true,
        _ => false,
    }
}

impl Words {
    /// The shared end-of-part step: a conjunction with probability 0.3, else
    /// an even split between the two punctuation tokens.
    pub fn end_of_part<R: RandomSource>(&self, rng: &mut R) -> (r: Result<
        String,
        EmptyCategoryError,
    >)
        ensures
            self.bindeord@.len() > 0 ==> r is Ok,
            r matches Result::Ok(t) ==> is_eop_token(*self, t@),
            old(rng).pinned() ==> final(rng).pinned() && ({
                let m = eop_spec(*self, old(rng).draws());
                &&& final(rng).draws() == m.1
                &&& (match (r, m.0) {
                    (Result::Ok(t), Result::Ok(s)) => t@ == s,
                    (Result::Err(_), Result::Err(_)) => true,
                    _ => false,
                })
            }),
    {
        proof {
            reveal_strlit(".");
            reveal_strlit(",");
            assert("."@ =~= seq!['.']);
            assert(","@ =~= seq![',']);
        }
        if rng.coin(3, 10) {
            match self.random_bindeord(rng) {
                Result::Ok(o) => Result::Ok(o.0.clone()),
                Result::Err(e) => Result::Err(e),
            }
        } else if rng.coin(1, 2) {
            Result::Ok(".".to_owned())
        } else {
            Result::Ok(",".to_owned())
        }
    }

    /// The shared phrase step behind `random_objekt` and `random_subjekt`,
    /// drawing from the pronoun table the phrase kind reads.
    fn phrase<R: RandomSource>(
        &self,
        pron: &Vec<crate::words::Ord>,
        bestamd: &mut bool,
        rng: &mut R,
    ) -> (r: Result<String, EmptyCategoryError>)
        ensures
            phrase_ready(*self, pron@) ==> r is Ok,
            r matches Result::Ok(t) ==> is_phrase_token(*self, pron@, t@) && bestamd_update_ok(
                *self,
                t@,
                *old(bestamd),
                *final(bestamd),
            ),
            r is Err ==> *final(bestamd) == *old(bestamd),
            old(rng).pinned() ==> final(rng).pinned() && ({
                let m = phrase_spec(*self, pron@, *old(bestamd), old(rng).draws());
                &&& final(rng).draws() == m.1
                &&& (match (r, m.0) {
                    (Result::Ok(t), Result::Ok(p)) => t@ == p.0 && *final(bestamd) == p.1,
                    (Result::Err(_), Result::Err(_)) => true,
                    _ => false,
                })
            }),
    {
        if rng.coin(2, 5) {
            if rng.coin(3, 5) {
                match sample_idx(pron.len(), rng) {
                    Result::Ok(i) => Result::Ok(pron[i].0.clone()),
                    Result::Err(e) => Result::Err(e),
                }
            } else {
                match self.random_namn(rng) {
                    Result::Ok(n) => Result::Ok(n.0.clone()),
                    Result::Err(e) => Result::Err(e),
                }
            }
        } else {
            let k = rng.pick(3);
            if k == 0 {
                match self.random_possessiv(rng) {
                    Result::Ok(p) => Result::Ok(p.0.clone()),
                    Result::Err(e) => Result::Err(e),
                }
            } else if k == 1 {
                match self.random_substantiv(rng) {
                    Result::Ok(n) => Result::Ok(n.1.clone()),
                    Result::Err(e) => Result::Err(e),
                }
            } else {
                match self.random_artikel(rng) {
                    Result::Ok(a) => {
                        let b = a.2 == Bestamd::Definite;
                        let t = a.0.clone();
                        *bestamd = b;
                        Result::Ok(t)
                    },
                    Result::Err(e) => Result::Err(e),
                }
            }
        }
    }

    /// An object phrase: with probability 0.4 a pronoun or proper noun,
    /// else one of three drawn uniformly — a possessive surface, a definite
    /// noun form, or an article surface (which updates pending
    /// definiteness).
    pub fn random_objekt<R: RandomSource>(&self, bestamd: &mut bool, rng: &mut R) -> (r: Result<
        String,
        EmptyCategoryError,
    >)
        ensures
            phrase_ready(*self, self.pronomen_objekt@) ==> r is Ok,
            r matches Result::Ok(t) ==> is_phrase_token(*self, self.pronomen_objekt@, t@) && bestamd_update_ok(
                *self,
                t@,
                *old(bestamd),
                *final(bestamd),
            ),
            r is Err ==> *final(bestamd) == *old(bestamd),
            old(rng).pinned() ==> final(rng).pinned() && ({
                let m = phrase_spec(*self, self.pronomen_objekt@, *old(bestamd), old(rng).draws());
                &&& final(rng).draws() == m.1
                &&& (match (r, m.0) {
                    (Result::Ok(t), Result::Ok(p)) => t@ == p.0 && *final(bestamd) == p.1,
                    (Result::Err(_), Result::Err(_)) => true,
                    _ => false,
                })
            }),
    {
        self.phrase(&self.pronomen_objekt, bestamd, rng)
    }

    /// A subject phrase: as `random_objekt`, but drawing subject pronouns.
    pub fn random_subjekt<R: RandomSource>(&self, bestamd: &mut bool, rng: &mut R) -> (r: Result<
        String,
        EmptyCategoryError,
    >)
        ensures
            phrase_ready(*self, self.pronomen@) ==> r is Ok,
            r matches Result::Ok(t) ==> is_phrase_token(*self, self.pronomen@, t@) && bestamd_update_ok(
                *self,
                t@,
                *old(bestamd),
                *final(bestamd),
            ),
            r is Err ==> *final(bestamd) == *old(bestamd),
            old(rng).pinned() ==> final(rng).pinned() && ({
                let m = phrase_spec(*self, self.pronomen@, *old(bestamd), old(rng).draws());
                &&& final(rng).draws() == m.1
                &&& (match (r, m.0) {
                    (Result::Ok(t), Result::Ok(p)) => t@ == p.0 && *final(bestamd) == p.1,
                    (Result::Err(_), Result::Err(_)) => true,
                    _ => false,
                })
            }),
    {
        self.phrase(&self.pronomen, bestamd, rng)
    }

    /// Resolves a complement kind after the empty-continuation sentinel.
    fn resolve<R: RandomSource>(
        &self,
        expects: VerbExpects,
        bestamd: &mut bool,
        rng: &mut R,
    ) -> (r: Result<String, EmptyCategoryError>)
        ensures
            resolve_ready(*self) ==> r is Ok,
            r is Err ==> *final(bestamd) == *old(bestamd),
            old(rng).pinned() ==> final(rng).pinned() && ({
                let m = resolve_spec(*self, expects, *old(bestamd), old(rng).draws());
                &&& final(rng).draws() == m.1
                &&& (match (r, m.0) {
                    (Result::Ok(t), Result::Ok(p)) => t@ == p.0 && *final(bestamd) == p.1,
                    (Result::Err(_), Result::Err(_)) => true,
                    _ => false,
                })
            }),
    {
        match expects {
            VerbExpects::Ingen => self.end_of_part(rng),
            VerbExpects::NoneOrSub => {
                if rng.coin(1, 2) {
                    self.end_of_part(rng)
                } else {
                    self.phrase(&self.pronomen_objekt, bestamd, rng)
                }
            },
            VerbExpects::Sub => self.phrase(&self.pronomen_objekt, bestamd, rng),
            VerbExpects::SubOrAdj => {
                if rng.coin(1, 2) {
                    match self.random_adjektiv(rng) {
                        Result::Ok(a) => Result::Ok(a.0.clone()),
                        Result::Err(e) => Result::Err(e),
                    }
                } else {
                    self.phrase(&self.pronomen_objekt, bestamd, rng)
                }
            },
        }
    }

    /// The attempt-verb step: at the beginning of a clause, records a
    /// uniformly drawn verb as active and emits its surface; with a verb
    /// already present, closes the part instead. On failure the context is
    /// left unchanged.
    pub fn could_verb<R: RandomSource>(
        &self,
        part: &mut Part,
        verb: &mut Option<usize>,
        rng: &mut R,
    ) -> (r: Result<String, EmptyCategoryError>)
        ensures
            *old(part) == Part::Begin ==> (r is Ok <==> self.verb@.len() > 0),
            *old(part) == Part::HasVerb ==> *final(verb) == *old(verb) && (self.bindeord@.len() > 0
                ==> r is Ok),
            r is Err ==> *final(part) == *old(part) && *final(verb) == *old(verb),
            r matches Result::Ok(t) ==> (if *old(part) == Part::Begin {
                &&& *final(part) == Part::HasVerb
                &&& (*final(verb) matches Option::Some(i) && i < self.verb@.len() && t@
                    == self.verb@[i as int].0@)
            } else {
                &&& *final(part) == Part::Begin
                &&& *final(verb) == *old(verb)
                &&& is_eop_token(*self, t@)
            }),
            old(rng).pinned() ==> final(rng).pinned() && ({
                let m = could_verb_spec(*self, *old(part), *old(verb), old(rng).draws());
                &&& final(rng).draws() == m.1
                &&& (match (r, m.0) {
                    (Result::Ok(t), Result::Ok(p)) => t@ == p.0 && *final(part) == p.1
                        && *final(verb) == p.2,
                    (Result::Err(_), Result::Err(_)) => true,
                    _ => false,
                })
            }),
    {
        if *part == Part::Begin {
            match sample_idx(self.verb.len(), rng) {
                Result::Ok(index) => {
                    *part = Part::HasVerb;
                    *verb = Option::Some(index);
                    Result::Ok(self.verb[index].0.clone())
                },
                Result::Err(e) => Result::Err(e),
            }
        } else {
            match self.end_of_part(rng) {
                Result::Ok(t) => {
                    *part = Part::Begin;
                    Result::Ok(t)
                },
                Result::Err(e) => Result::Err(e),
            }
        }
    }
}

/// Finds the first valency frame whose continuation set holds the token
/// verbatim.
fn find_frame(frames: &Vec<(Vec<String>, VerbExpects)>, token: &str) -> (r: Option<usize>)
    ensures
        crate::classify::opt_i(r) == lookup(frames@, frame_hit(token@)),
{
    let mut i: usize = 0;
    while i < frames.len()
        invariant
            i <= frames@.len(),
            forall|j: int| 0 <= j < i ==> !frame_matches(#[trigger] frames@[j], token@),
        decreases frames@.len() - i,
    {
        let group = &frames[i].0;
        let mut k: usize = 0;
        let mut found = false;
        while k < group.len()
            invariant
                k <= group@.len(),
                group@ == frames@[i as int].0@,
                i < frames@.len(),
                found == exists|l: int| 0 <= l < k && (#[trigger] group@[l])@ == token@,
            decreases group@.len() - k,
        {
            if crate::classify::str_eq(group[k].as_str(), token) {
                found = true;
            }
            k = k + 1;
        }
        if found {
            proof {
                assert(frame_matches(frames@[i as int], token@));
                assert forall|j: int| 0 <= j < i implies !(frame_hit(token@)(frames@[j])) by {
                    assert(frame_hit(token@)(frames@[j]) == frame_matches(frames@[j], token@));
                }
                lemma_lookup_prefix(frames@, frame_hit(token@), i as int);
                assert(frame_hit(token@)(frames@[i as int]));
            }
            return Option::Some(i);
        }
        proof {
            assert(!frame_matches(frames@[i as int], token@));
        }
        i = i + 1;
    }
    proof {
        assert forall|j: int| 0 <= j < frames@.len() implies !(frame_hit(token@)(frames@[j])) by {
            assert(frame_hit(token@)(frames@[j]) == frame_matches(frames@[j], token@));
        }
        lemma_lookup_prefix(frames@, frame_hit(token@), frames@.len() as int);
    }
    Option::None
}

/// The attempt-verb branch shared by the noun, subject-pronoun, proper-noun
/// and temporal-adverb classifications.
fn gen_attempt<R: RandomSource>(words: &Words, info: Info, rng: &mut R) -> (r: Result<
    (String, Info),
    EmptyCategoryError,
>)
    requires
        info_wf(*words, info),
    ensures
        words.verb@.len() > 0 && words.bindeord@.len() > 0 ==> r is Ok,
        r matches Result::Ok(p) ==> ({
            &&& info_wf(*words, p.1)
            &&& p.1.bestamd == info.bestamd
            &&& (info.part == Part::Begin ==> p.1.part == Part::HasVerb && (p.1.verb
                matches Option::Some(i) && i < words.verb@.len() && p.0@
                == words.verb@[i as int].0@))
            &&& (info.part == Part::HasVerb ==> p.1.part == Part::Begin && p.1.verb == info.verb
                && is_eop_token(*words, p.0@))
        }),
        old(rng).pinned() ==> final(rng).pinned() && ({
            let m = attempt_spec(*words, info, old(rng).draws());
            &&& final(rng).draws() == m.1
            &&& turn_matches(r, m.0)
        }),
{
    let mut part = info.part;
    let mut verb = info.verb;
    match words.could_verb(&mut part, &mut verb, rng) {
        Result::Ok(t) => Result::Ok((t, Info { part, bestamd: info.bestamd, verb })),
        Result::Err(e) => Result::Err(e),
    }
}

/// The adjective branch: the lowered token's matched form picks the
/// agreement class of the noun to emit; any other match emits a definite
/// form instead.
fn gen_adjektiv<R: RandomSource>(
    words: &Words,
    i: usize,
    token: &str,
    info: Info,
    rng: &mut R,
) -> (r: Result<(String, Info), EmptyCategoryError>)
    requires
        i < words.adjektiv@.len(),
    ensures
        generator_ready(*words) ==> r is Ok,
        r matches Result::Ok(p) ==> p.1 == info && agreement_on_adjektiv(
            *words,
            (Category::Adjektiv, Option::Some(i)),
            token@,
            p.0@,
        ),
        old(rng).pinned() ==> final(rng).pinned() && ({
            let m = adjektiv_spec(*words, i as int, token@, info, old(rng).draws());
            &&& final(rng).draws() == m.1
            &&& turn_matches(r, m.0)
        }),
{
    let lowered = crate::classify::lowercase(token);
    if words.adjektiv[i].0 == lowered {
        match words.random_gendered_substantiv(Genus::N, rng) {
            Result::Ok(n) => Result::Ok((n.0.clone(), info)),
            Result::Err(e) => Result::Err(e),
        }
    } else if words.adjektiv[i].1 == lowered {
        match words.random_gendered_substantiv(Genus::T, rng) {
            Result::Ok(n) => Result::Ok((n.0.clone(), info)),
            Result::Err(e) => Result::Err(e),
        }
    } else {
        match words.random_substantiv(rng) {
            Result::Ok(n) => Result::Ok((n.1.clone(), info)),
            Result::Err(e) => Result::Err(e),
        }
    }
}

/// The known-verb branch: record the verb as active, draw one of its frames
/// and one continuation, and resolve the empty sentinel by complement kind.
fn gen_verb_known<R: RandomSource>(words: &Words, vi: usize, info: Info, rng: &mut R) -> (r: Result<
    (String, Info),
    EmptyCategoryError,
>)
    requires
        vi < words.verb@.len(),
    ensures
        generator_ready(*words) ==> r is Ok,
        r matches Result::Ok(p) ==> p.1.part == Part::HasVerb && p.1.verb == Option::Some(vi),
        old(rng).pinned() ==> final(rng).pinned() && ({
            let m = verb_known_spec(*words, vi as int, info, old(rng).draws());
            &&& final(rng).draws() == m.1
            &&& turn_matches(r, m.0)
        }),
{
    let frames = &words.verb[vi].1;
    match sample_idx(frames.len(), rng) {
        Result::Ok(fi) => {
            match sample_idx(frames[fi].0.len(), rng) {
                Result::Ok(ci) => {
                    if !frames[fi].0[ci].as_str().is_empty() {
                        Result::Ok(
                            (
                                frames[fi].0[ci].clone(),
                                Info {
                                    part: Part::HasVerb,
                                    bestamd: info.bestamd,
                                    verb: Option::Some(vi),
                                },
                            ),
                        )
                    } else {
                        let mut bestamd = info.bestamd;
                        match words.resolve(frames[fi].1, &mut bestamd, rng) {
                            Result::Ok(t) => Result::Ok(
                                (
                                    t,
                                    Info {
                                        part: Part::HasVerb,
                                        bestamd,
                                        verb: Option::Some(vi),
                                    },
                                ),
                            ),
                            Result::Err(e) => Result::Err(e),
                        }
                    }
                },
                Result::Err(e) => Result::Err(e),
            }
        },
        Result::Err(e) => Result::Err(e),
    }
}

/// The unknown-verb branch: an object phrase, with the clause marked as
/// having its verb and no active-verb index recorded.
fn gen_verb_unknown<R: RandomSource>(words: &Words, info: Info, rng: &mut R) -> (r: Result<
    (String, Info),
    EmptyCategoryError,
>)
    ensures
        generator_ready(*words) ==> r is Ok,
        r matches Result::Ok(p) ==> p.1.part == Part::HasVerb && p.1.verb == Option::<usize>::None,
        old(rng).pinned() ==> final(rng).pinned() && ({
            let m = verb_unknown_spec(*words, info, old(rng).draws());
            &&& final(rng).draws() == m.1
            &&& turn_matches(r, m.0)
        }),
{
    let mut bestamd = info.bestamd;
    match words.random_objekt(&mut bestamd, rng) {
        Result::Ok(t) => Result::Ok((t, Info { part: Part::HasVerb, bestamd, verb: Option::None })),
        Result::Err(e) => Result::Err(e),
    }
}

/// The conjunction branch: clause reset, then a subject phrase.
fn gen_bindeord<R: RandomSource>(words: &Words, info: Info, rng: &mut R) -> (r: Result<
    (String, Info),
    EmptyCategoryError,
>)
    ensures
        generator_ready(*words) ==> r is Ok,
        r matches Result::Ok(p) ==> p.1.part == Part::Begin && p.1.verb == info.verb
            && is_phrase_token(*words, words.pronomen@, p.0@) && bestamd_update_ok(
            *words,
            p.0@,
            info.bestamd,
            p.1.bestamd,
        ),
        old(rng).pinned() ==> final(rng).pinned() && ({
            let m = bindeord_spec(*words, info, old(rng).draws());
            &&& final(rng).draws() == m.1
            &&& turn_matches(r, m.0)
        }),
{
    let mut bestamd = info.bestamd;
    match words.random_subjekt(&mut bestamd, rng) {
        Result::Ok(t) => Result::Ok((t, Info { part: Part::Begin, bestamd, verb: info.verb })),
        Result::Err(e) => Result::Err(e),
    }
}

/// The sentence-terminator and object-pronoun branches: clause reset, then
/// an even split between a temporal adverb and a subject phrase.
fn gen_terminator<R: RandomSource>(words: &Words, info: Info, rng: &mut R) -> (r: Result<
    (String, Info),
    EmptyCategoryError,
>)
    ensures
        generator_ready(*words) ==> r is Ok,
        r matches Result::Ok(p) ==> p.1.part == Part::Begin && p.1.verb == info.verb && (
        is_surface_of(words.tidsord@, p.0@) || is_phrase_token(*words, words.pronomen@, p.0@))
            && bestamd_update_ok(*words, p.0@, info.bestamd, p.1.bestamd),
        old(rng).pinned() ==> final(rng).pinned() && ({
            let m = terminator_spec(*words, info, old(rng).draws());
            &&& final(rng).draws() == m.1
            &&& turn_matches(r, m.0)
        }),
{
    if rng.coin(1, 2) {
        match words.random_tidsord(rng) {
            Result::Ok(o) => Result::Ok(
                (o.0.clone(), Info { part: Part::Begin, bestamd: info.bestamd, verb: info.verb }),
            ),
            Result::Err(e) => Result::Err(e),
        }
    } else {
        let mut bestamd = info.bestamd;
        match words.random_subjekt(&mut bestamd, rng) {
            Result::Ok(t) => Result::Ok((t, Info { part: Part::Begin, bestamd, verb: info.verb })),
            Result::Err(e) => Result::Err(e),
        }
    }
}

/// The comma branch: clause reset, then an even split between a subject
/// phrase and a conjunction.
fn gen_komma<R: RandomSource>(words: &Words, info: Info, rng: &mut R) -> (r: Result<
    (String, Info),
    EmptyCategoryError,
>)
    ensures
        generator_ready(*words) ==> r is Ok,
        r matches Result::Ok(p) ==> p.1.part == Part::Begin && p.1.verb == info.verb && (
        is_phrase_token(*words, words.pronomen@, p.0@) || is_surface_of(words.bindeord@, p.0@))
            && bestamd_update_ok(*words, p.0@, info.bestamd, p.1.bestamd),
        old(rng).pinned() ==> final(rng).pinned() && ({
            let m = komma_spec(*words, info, old(rng).draws());
            &&& final(rng).draws() == m.1
            &&& turn_matches(r, m.0)
        }),
{
    if rng.coin(1, 2) {
        let mut bestamd = info.bestamd;
        match words.random_subjekt(&mut bestamd, rng) {
            Result::Ok(t) => Result::Ok((t, Info { part: Part::Begin, bestamd, verb: info.verb })),
            Result::Err(e) => Result::Err(e),
        }
    } else {
        match words.random_bindeord(rng) {
            Result::Ok(o) => Result::Ok(
                (o.0.clone(), Info { part: Part::Begin, bestamd: info.bestamd, verb: info.verb }),
            ),
            Result::Err(e) => Result::Err(e),
        }
    }
}

/// The possessive-pronoun branch: a noun of the entry's own agreement class,
/// in its indefinite form, with no state change.
fn gen_possessiv<R: RandomSource>(words: &Words, i: usize, info: Info, rng: &mut R) -> (r: Result<
    (String, Info),
    EmptyCategoryError,
>)
    requires
        i < words.pronomen_possessiv@.len(),
    ensures
        generator_ready(*words) ==> r is Ok,
        r matches Result::Ok(p) ==> p.1 == info && agreement_on_possessiv(
            *words,
            (Category::PronomenPossessiv, Option::Some(i)),
            p.0@,
        ),
        old(rng).pinned() ==> final(rng).pinned() && ({
            let m = possessiv_spec(*words, i as int, info, old(rng).draws());
            &&& final(rng).draws() == m.1
            &&& turn_matches(r, m.0)
        }),
{
    let g = words.pronomen_possessiv[i].1;
    proof {
        assert(g == Genus::N || g == Genus::T || g == Genus::B);
    }
    match words.random_gendered_substantiv(g, rng) {
        Result::Ok(n) => Result::Ok((n.0.clone(), info)),
        Result::Err(e) => Result::Err(e),
    }
}

/// The preposition branch: search the active verb's frames for the token
/// and resolve the first hit by its complement kind; with no hit or no
/// active verb, an object phrase.
fn gen_preposition<R: RandomSource>(
    words: &Words,
    token: &str,
    info: Info,
    rng: &mut R,
) -> (r: Result<(String, Info), EmptyCategoryError>)
    requires
        info_wf(*words, info),
    ensures
        generator_ready(*words) ==> r is Ok,
        r matches Result::Ok(p) ==> p.1.part == info.part && p.1.verb == info.verb,
        old(rng).pinned() ==> final(rng).pinned() && ({
            let m = preposition_spec(*words, token@, info, old(rng).draws());
            &&& final(rng).draws() == m.1
            &&& turn_matches(r, m.0)
        }),
{
    match info.verb {
        Option::Some(vi) => {
            let frames = &words.verb[vi].1;
            match find_frame(frames, token) {
                Option::Some(fi) => {
                    proof {
                        lemma_lookup_from(frames@, frame_hit(token@), 0);
                    }
                    let mut bestamd = info.bestamd;
                    match words.resolve(frames[fi].1, &mut bestamd, rng) {
                        Result::Ok(t) => Result::Ok(
                            (t, Info { part: info.part, bestamd, verb: info.verb }),
                        ),
                        Result::Err(e) => Result::Err(e),
                    }
                },
                Option::None => {
                    let mut bestamd = info.bestamd;
                    match words.random_objekt(&mut bestamd, rng) {
                        Result::Ok(t) => Result::Ok(
                            (t, Info { part: info.part, bestamd, verb: info.verb }),
                        ),
                        Result::Err(e) => Result::Err(e),
                    }
                },
            }
        },
        Option::None => {
            let mut bestamd = info.bestamd;
            match words.random_objekt(&mut bestamd, rng) {
                Result::Ok(t) => Result::Ok(
                    (t, Info { part: info.part, bestamd, verb: info.verb }),
                ),
                Result::Err(e) => Result::Err(e),
            }
        },
    }
}

/// The article branch: a noun of the article's agreement class, in the form
/// its definiteness selects, recording the pending definiteness.
fn gen_artikel<R: RandomSource>(words: &Words, i: usize, info: Info, rng: &mut R) -> (r: Result<
    (String, Info),
    EmptyCategoryError,
>)
    requires
        i < words.artiklar@.len(),
    ensures
        generator_ready(*words) ==> r is Ok,
        r matches Result::Ok(p) ==> p.1.part == info.part && p.1.verb == info.verb
            && agreement_on_artikel(*words, (Category::Artikel, Option::Some(i)), p.0@, p.1),
        old(rng).pinned() ==> final(rng).pinned() && ({
            let m = artikel_spec(*words, i as int, info, old(rng).draws());
            &&& final(rng).draws() == m.1
            &&& turn_matches(r, m.0)
        }),
{
    let g = words.artiklar[i].1;
    proof {
        assert(g == Genus::N || g == Genus::T || g == Genus::B);
    }
    if words.artiklar[i].2 == Bestamd::Definite {
        match words.random_gendered_substantiv(g, rng) {
            Result::Ok(n) => Result::Ok(
                (n.1.clone(), Info { part: info.part, bestamd: true, verb: info.verb }),
            ),
            Result::Err(e) => Result::Err(e),
        }
    } else {
        match words.random_gendered_substantiv(g, rng) {
            Result::Ok(n) => Result::Ok(
                (n.0.clone(), Info { part: info.part, bestamd: false, verb: info.verb }),
            ),
            Result::Err(e) => Result::Err(e),
        }
    }
}

/// One generation turn: from a classification, the raw token, the lexicon
/// and the conversation context, the next token and the updated context.
/// Total over every category once the lexicon is validated; on failure the
/// caller's context is untouched, so a retry is safe.
pub fn generate<R: RandomSource>(
    words: &Words,
    guess: (Category, Option<usize>),
    token: &str,
    info: Info,
    rng: &mut R,
) -> (r: Result<(String, Info), EmptyCategoryError>)
    requires
        guess_wf(*words, guess),
        info_wf(*words, info),
    ensures
        generator_ready(*words) ==> r is Ok,
        r matches Result::Ok(p) ==> info_wf(*words, p.1),
        r matches Result::Ok(p) ==> ({
            &&& (attempts_verb(guess.0) && info.part == Part::Begin ==> p.1.part == Part::HasVerb
                && (p.1.verb matches Option::Some(i) && i < words.verb@.len() && p.0@
                == words.verb@[i as int].0@))
            &&& (attempts_verb(guess.0) && info.part == Part::HasVerb ==> p.1.part == Part::Begin
                && p.1.verb == info.verb && is_eop_token(*words, p.0@))
            &&& (attempts_verb(guess.0) ==> p.1.bestamd == info.bestamd)
            &&& (guess.0 == Category::Verb ==> p.1.part == Part::HasVerb && p.1.verb == guess.1)
            &&& (resets_clause(guess.0) ==> p.1.part == Part::Begin && p.1.verb == info.verb
                && bestamd_update_ok(*words, p.0@, info.bestamd, p.1.bestamd))
            &&& (guess.0 == Category::Bindeord ==> is_phrase_token(*words, words.pronomen@, p.0@))
            &&& (guess.0 == Category::Punkt || guess.0 == Category::PronomenObjekt ==> (
            is_surface_of(words.tidsord@, p.0@) || is_phrase_token(*words, words.pronomen@, p.0@)))
            &&& (guess.0 == Category::Komma ==> (is_phrase_token(*words, words.pronomen@, p.0@)
                || is_surface_of(words.bindeord@, p.0@)))
            &&& (keeps_state(guess.0) ==> p.1.part == info.part && p.1.verb == info.verb)
            &&& (guess.0 == Category::Adjektiv || guess.0 == Category::PronomenPossessiv
                ==> p.1.bestamd == info.bestamd)
        }),
        r matches Result::Ok(p) ==> ({
            &&& (guess.0 == Category::Adjektiv ==> agreement_on_adjektiv(
                *words,
                guess,
                token@,
                p.0@,
            ))
            &&& (guess.0 == Category::PronomenPossessiv ==> agreement_on_possessiv(
                *words,
                guess,
                p.0@,
            ))
            &&& (guess.0 == Category::Artikel ==> agreement_on_artikel(*words, guess, p.0@, p.1))
        }),
        old(rng).pinned() ==> final(rng).pinned() && ({
            let m = generate_spec(*words, guess, token@, info, old(rng).draws());
            &&& final(rng).draws() == m.1
            &&& turn_matches(r, m.0)
        }),
{
    match guess.0 {
        Category::Substantiv | Category::Pronomen | Category::Namn | Category::Tidsord => gen_attempt(
            words,
            info,
            rng,
        ),
        Category::Adjektiv => match guess.1 {
            Option::Some(i) => gen_adjektiv(words, i, token, info, rng),
            Option::None => Result::Err(EmptyCategoryError),
        },
        Category::Verb => match guess.1 {
            Option::Some(vi) => gen_verb_known(words, vi, info, rng),
            Option::None => gen_verb_unknown(words, info, rng),
        },
        Category::Bindeord => gen_bindeord(words, info, rng),
        Category::Punkt | Category::PronomenObjekt => gen_terminator(words, info, rng),
        Category::PronomenPossessiv => match guess.1 {
            Option::Some(i) => gen_possessiv(words, i, info, rng),
            Option::None => Result::Err(EmptyCategoryError),
        },
        Category::Komma => gen_komma(words, info, rng),
        Category::Preposition => gen_preposition(words, token, info, rng),
        Category::Artikel => match guess.1 {
            Option::Some(i) => gen_artikel(words, i, info, rng),
            Option::None => Result::Err(EmptyCategoryError),
        },
    }
}

} // verus!
