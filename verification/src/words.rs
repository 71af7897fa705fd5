use vstd::prelude::*;

use crate::rng::{pick_of, rest_draws, take_draw, RandomSource};

verus! {

broadcast use vstd::seq_lib::group_filter_ensures;

/// Noun agreement class: `N` (common), `T` (neuter), or `B` — matching both.
#[derive(Clone, Copy, PartialEq, Eq, Structural, Debug)]
pub enum Genus {
    N,
    T,
    B,
}

/// Natural gender recorded for a proper noun.
#[derive(Clone, Copy, PartialEq, Eq, Structural, Debug)]
pub enum Gender {
    Male,
    Female,
}

/// Definite or indefinite form selection.
#[derive(Clone, Copy, PartialEq, Eq, Structural, Debug)]
pub enum Bestamd {
    Definite,
    Indefinite,
}

/// What may follow a verb (or a matched preposition) when a valency frame
/// resolves with its empty-continuation sentinel.
#[derive(Clone, Copy, PartialEq, Eq, Structural, Debug)]
pub enum VerbExpects {
    Ingen,
    Sub,
    SubOrAdj,
    NoneOrSub,
}

/// The grammatical role an input token is classified as.
#[derive(Clone, Copy, PartialEq, Eq, Structural, Debug)]
pub enum Category {
    Substantiv,
    Verb,
    Adjektiv,
    Pronomen,
    Namn,
    Bindeord,
    Tidsord,
    Punkt,
    PronomenObjekt,
    PronomenPossessiv,
    Komma,
    Preposition,
    Artikel,
}

/// A noun: indefinite singular, definite singular, oblique/plural form, and
/// its agreement class.
pub struct Substantiv(pub String, pub String, pub String, pub Genus);

/// An adjective: neuter form, "t"-form, and common form.
pub struct Adjektiv(pub String, pub String, pub String);

/// A proper noun and its natural gender; matched case-sensitively.
pub struct Namn(pub String, pub Gender);

/// A single-surface word: a pronoun, conjunction, temporal adverb or
/// preposition.
pub struct Ord(pub String);

/// A possessive pronoun and the agreement class of the noun it governs.
pub struct Possessiv(pub String, pub Genus);

/// A verb surface with its ordered valency frames: each frame is a set of
/// admissible continuations (an empty string is the sentinel for "resolve by
/// complement kind") and the complement kind it implies.
pub struct Verb(pub String, pub Vec<(Vec<String>, VerbExpects)>);

/// An article: surface, agreement class, and definiteness.
pub struct Artikel(pub String, pub Genus, pub Bestamd);

/// A grammar rule needed to sample from a category table that holds nothing.
#[derive(Clone, Copy, PartialEq, Eq, Structural, Debug)]
pub struct EmptyCategoryError;

/// The lexicon: one immutable table of entries per grammatical category.
pub struct Words {
    pub substantiv: Vec<Substantiv>,
    pub verb: Vec<Verb>,
    pub adjektiv: Vec<Adjektiv>,
    pub pronomen: Vec<Ord>,
    pub pronomen_objekt: Vec<Ord>,
    pub pronomen_possessiv: Vec<Possessiv>,
    pub namn: Vec<Namn>,
    pub bindeord: Vec<Ord>,
    pub tidsord: Vec<Ord>,
    pub prepositioner: Vec<Ord>,
    pub artiklar: Vec<Artikel>,
}

/// What one uniform draw selects from a table, and the script it leaves.
pub open spec fn sample_spec<T>(v: Seq<T>, d: Seq<u64>) -> (Result<T, EmptyCategoryError>, Seq<
    u64,
>) {
    if v.len() == 0 {
        (Result::Err(EmptyCategoryError), d)
    } else {
        (Result::Ok(v[pick_of(take_draw(d), v.len() as int)]), rest_draws(d))
    }
}

/// The result is a uniformly drawn entry of the table exactly when the table
/// holds one.
pub open spec fn uniform_sample_ok<T>(v: Seq<T>, r: Result<&T, EmptyCategoryError>) -> bool {
    &&& (r is Ok <==> v.len() > 0)
    &&& (r matches Result::Ok(x) ==> exists|i: int| 0 <= i < v.len() && *x == v[i])
}

/// Ties an executable draw to the replayable model: same selection, and the
/// script advanced by exactly the draws the model consumes.
pub open spec fn uniform_sample_model<T>(
    v: Seq<T>,
    r: Result<&T, EmptyCategoryError>,
    d0: Seq<u64>,
    d1: Seq<u64>,
) -> bool {
    let (m, rem) = sample_spec(v, d0);
    &&& d1 == rem
    &&& (r matches Result::Ok(x) ==> m matches Result::Ok(y) && *x == y)
    &&& (r is Err <==> m is Err)
}

/// The agreement-class test a gender-constrained draw filters by.
pub open spec fn gmatch(g: Genus) -> spec_fn(Substantiv) -> bool {
    |w: Substantiv| w.3 == g
}

/// The nouns of a table that carry the requested agreement class.
pub open spec fn matching(s: Seq<Substantiv>, g: Genus) -> Seq<Substantiv> {
    s.filter(gmatch(g))
}

/// What one gender-constrained draw selects: any noun for `B`, otherwise a
/// uniform draw among the matching nouns.
pub open spec fn gendered_spec(s: Seq<Substantiv>, g: Genus, d: Seq<u64>) -> (Result<
    Substantiv,
    EmptyCategoryError,
>, Seq<u64>) {
    if g == Genus::B {
        sample_spec(s, d)
    } else {
        sample_spec(matching(s, g), d)
    }
}

/// A filter over a sequence none of whose elements pass keeps nothing.
pub proof fn lemma_filter_misses_all<T>(s: Seq<T>, p: spec_fn(T) -> bool)
    requires
        forall|i: int| 0 <= i < s.len() ==> !p(#[trigger] s[i]),
    ensures
        s.filter(p).len() == 0,
    decreases s.len(),
{
    reveal(Seq::filter);
    if s.len() > 0 {
        assert(forall|i: int| 0 <= i < s.drop_last().len() ==> !p(#[trigger] s.drop_last()[i]));
        lemma_filter_misses_all(s.drop_last(), p);
    }
}

/// Every valency frame of the entry can be drawn from: the frame list is
/// non-empty and each continuation set holds at least one string.
pub open spec fn frames_ready(v: Verb) -> bool {
    v.1@.len() > 0 && forall|j: int| 0 <= j < v.1@.len() ==> (#[trigger] v.1@[j]).0@.len() > 0
}

/// Every category table a generation turn can reach is non-empty, nouns of
/// both fixed agreement classes exist, and every valency frame is usable: the
/// condition under which a turn never fails.
pub open spec fn generator_ready(w: Words) -> bool {
    &&& w.substantiv@.len() > 0
    &&& matching(w.substantiv@, Genus::N).len() > 0
    &&& matching(w.substantiv@, Genus::T).len() > 0
    &&& w.verb@.len() > 0
    &&& w.adjektiv@.len() > 0
    &&& w.pronomen@.len() > 0
    &&& w.pronomen_objekt@.len() > 0
    &&& w.pronomen_possessiv@.len() > 0
    &&& w.namn@.len() > 0
    &&& w.bindeord@.len() > 0
    &&& w.tidsord@.len() > 0
    &&& w.artiklar@.len() > 0
    &&& forall|i: int| 0 <= i < w.verb@.len() ==> frames_ready(#[trigger] w.verb@[i])
}

/// One uniform index draw from a table of the given length; fails on an empty
/// table without drawing.
pub(crate) fn sample_idx<R: RandomSource>(len: usize, rng: &mut R) -> (r: Result<
    usize,
    EmptyCategoryError,
>)
    ensures
        r is Ok <==> len > 0,
        r matches Result::Ok(i) ==> i < len,
        len == 0 ==> *final(rng) == *old(rng),
        old(rng).pinned() && len > 0 ==> final(rng).pinned() && final(rng).draws() == rest_draws(
            old(rng).draws(),
        ) && (r matches Result::Ok(i) && i as int == pick_of(take_draw(old(rng).draws()), len as int)),
{
    if len == 0 {
        Result::Err(EmptyCategoryError)
    } else {
        Result::Ok(rng.pick(len))
    }
}

impl Words {
    /// A uniformly random noun.
    pub fn random_substantiv<'a, R: RandomSource>(&'a self, rng: &mut R) -> (r: Result<
        &'a Substantiv,
        EmptyCategoryError,
    >)
        ensures
            uniform_sample_ok(self.substantiv@, r),
            r is Err ==> *final(rng) == *old(rng),
            old(rng).pinned() ==> final(rng).pinned() && uniform_sample_model(
                self.substantiv@,
                r,
                old(rng).draws(),
                final(rng).draws(),
            ),
    {
        match sample_idx(self.substantiv.len(), rng) {
            Result::Ok(i) => Result::Ok(&self.substantiv[i]),
            Result::Err(e) => Result::Err(e),
        }
    }

    /// A uniformly random verb entry.
    pub fn random_verb<'a, R: RandomSource>(&'a self, rng: &mut R) -> (r: Result<
        &'a Verb,
        EmptyCategoryError,
    >)
        ensures
            uniform_sample_ok(self.verb@, r),
            r is Err ==> *final(rng) == *old(rng),
            old(rng).pinned() ==> final(rng).pinned() && uniform_sample_model(
                self.verb@,
                r,
                old(rng).draws(),
                final(rng).draws(),
            ),
    {
        match sample_idx(self.verb.len(), rng) {
            Result::Ok(i) => Result::Ok(&self.verb[i]),
            Result::Err(e) => Result::Err(e),
        }
    }

    /// A uniformly random adjective.
    pub fn random_adjektiv<'a, R: RandomSource>(&'a self, rng: &mut R) -> (r: Result<
        &'a Adjektiv,
        EmptyCategoryError,
    >)
        ensures
            uniform_sample_ok(self.adjektiv@, r),
            r is Err ==> *final(rng) == *old(rng),
            old(rng).pinned() ==> final(rng).pinned() && uniform_sample_model(
                self.adjektiv@,
                r,
                old(rng).draws(),
                final(rng).draws(),
            ),
    {
        match sample_idx(self.adjektiv.len(), rng) {
            Result::Ok(i) => Result::Ok(&self.adjektiv[i]),
            Result::Err(e) => Result::Err(e),
        }
    }

    /// A uniformly random subject pronoun.
    pub fn random_pronomen<'a, R: RandomSource>(&'a self, rng: &mut R) -> (r: Result<
        &'a Ord,
        EmptyCategoryError,
    >)
        ensures
            uniform_sample_ok(self.pronomen@, r),
            r is Err ==> *final(rng) == *old(rng),
            old(rng).pinned() ==> final(rng).pinned() && uniform_sample_model(
                self.pronomen@,
                r,
                old(rng).draws(),
                final(rng).draws(),
            ),
    {
        match sample_idx(self.pronomen.len(), rng) {
            Result::Ok(i) => Result::Ok(&self.pronomen[i]),
            Result::Err(e) => Result::Err(e),
        }
    }

    /// A uniformly random proper noun.
    pub fn random_namn<'a, R: RandomSource>(&'a self, rng: &mut R) -> (r: Result<
        &'a Namn,
        EmptyCategoryError,
    >)
        ensures
            uniform_sample_ok(self.namn@, r),
            r is Err ==> *final(rng) == *old(rng),
            old(rng).pinned() ==> final(rng).pinned() && uniform_sample_model(
                self.namn@,
                r,
                old(rng).draws(),
                final(rng).draws(),
            ),
    {
        match sample_idx(self.namn.len(), rng) {
            Result::Ok(i) => Result::Ok(&self.namn[i]),
            Result::Err(e) => Result::Err(e),
        }
    }

    /// A uniformly random conjunction.
    pub fn random_bindeord<'a, R: RandomSource>(&'a self, rng: &mut R) -> (r: Result<
        &'a Ord,
        EmptyCategoryError,
    >)
        ensures
            uniform_sample_ok(self.bindeord@, r),
            r is Err ==> *final(rng) == *old(rng),
            old(rng).pinned() ==> final(rng).pinned() && uniform_sample_model(
                self.bindeord@,
                r,
                old(rng).draws(),
                final(rng).draws(),
            ),
    {
        match sample_idx(self.bindeord.len(), rng) {
            Result::Ok(i) => Result::Ok(&self.bindeord[i]),
            Result::Err(e) => Result::Err(e),
        }
    }

    /// A uniformly random temporal adverb.
    pub fn random_tidsord<'a, R: RandomSource>(&'a self, rng: &mut R) -> (r: Result<
        &'a Ord,
        EmptyCategoryError,
    >)
        ensures
            uniform_sample_ok(self.tidsord@, r),
            r is Err ==> *final(rng) == *old(rng),
            old(rng).pinned() ==> final(rng).pinned() && uniform_sample_model(
                self.tidsord@,
                r,
                old(rng).draws(),
                final(rng).draws(),
            ),
    {
        match sample_idx(self.tidsord.len(), rng) {
            Result::Ok(i) => Result::Ok(&self.tidsord[i]),
            Result::Err(e) => Result::Err(e),
        }
    }

    /// A uniformly random object pronoun.
    pub fn random_pronomen_objekt<'a, R: RandomSource>(&'a self, rng: &mut R) -> (r: Result<
        &'a Ord,
        EmptyCategoryError,
    >)
        ensures
            uniform_sample_ok(self.pronomen_objekt@, r),
            r is Err ==> *final(rng) == *old(rng),
            old(rng).pinned() ==> final(rng).pinned() && uniform_sample_model(
                self.pronomen_objekt@,
                r,
                old(rng).draws(),
                final(rng).draws(),
            ),
    {
        match sample_idx(self.pronomen_objekt.len(), rng) {
            Result::Ok(i) => Result::Ok(&self.pronomen_objekt[i]),
            Result::Err(e) => Result::Err(e),
        }
    }

    /// A uniformly random possessive pronoun.
    pub fn random_possessiv<'a, R: RandomSource>(&'a self, rng: &mut R) -> (r: Result<
        &'a Possessiv,
        EmptyCategoryError,
    >)
        ensures
            uniform_sample_ok(self.pronomen_possessiv@, r),
            r is Err ==> *final(rng) == *old(rng),
            old(rng).pinned() ==> final(rng).pinned() && uniform_sample_model(
                self.pronomen_possessiv@,
                r,
                old(rng).draws(),
                final(rng).draws(),
            ),
    {
        match sample_idx(self.pronomen_possessiv.len(), rng) {
            Result::Ok(i) => Result::Ok(&self.pronomen_possessiv[i]),
            Result::Err(e) => Result::Err(e),
        }
    }

    /// A noun sampled under an agreement-class constraint: any noun for `B`,
    /// otherwise a uniform draw among the nouns of the requested class.
    pub fn random_gendered_substantiv<'a, R: RandomSource>(&'a self, gender: Genus, rng: &mut R) -> (r:
        Result<&'a Substantiv, EmptyCategoryError>)
        ensures
            r is Ok <==> (if gender == Genus::B {
                self.substantiv@.len() > 0
            } else {
                matching(self.substantiv@, gender).len() > 0
            }),
            r matches Result::Ok(x) ==> exists|i: int|
                0 <= i < self.substantiv@.len() && *x == self.substantiv@[i],
            r matches Result::Ok(x) ==> gender == Genus::B || x.3 == gender,
            r is Err ==> *final(rng) == *old(rng),
            old(rng).pinned() ==> final(rng).pinned() && ({
                let (m, rem) = gendered_spec(self.substantiv@, gender, old(rng).draws());
                &&& final(rng).draws() == rem
                &&& (r matches Result::Ok(x) ==> m matches Result::Ok(y) && *x == y)
                &&& (r is Err <==> m is Err)
            }),
    {
        if gender == Genus::B {
            return self.random_substantiv(rng);
        }
        let ghost s = self.substantiv@;
        let mut idxs: Vec<usize> = Vec::new();
        let mut i: usize = 0;
        while i < self.substantiv.len()
            invariant
                i <= s.len(),
                s == self.substantiv@,
                idxs@.len() == s.take(i as int).filter(gmatch(gender)).len(),
                forall|j: int|
                    0 <= j < idxs@.len() ==> #[trigger] idxs@[j] < i && s[idxs@[j] as int]
                        == s.take(i as int).filter(gmatch(gender))[j],
            decreases s.len() - i,
    {
            proof {
                assert(s.take(i + 1).drop_last() =~= s.take(i as int));
                assert(s.take(i + 1).last() == s[i as int]);
                reveal(Seq::filter);
                let wrd = s[i as int];
                assert(gmatch(gender)(wrd) == (wrd.3 == gender));
            }
            if self.substantiv[i].3 == gender {
                idxs.push(i);
            }
            i = i + 1;
        }
        proof {
            assert(s.take(s.len() as int) =~= s);
        }
        if idxs.len() == 0 {
            return Result::Err(EmptyCategoryError);
        }
        let k = rng.pick(idxs.len());
        let idx = idxs[k];
        proof {
            assert(s[idxs@[k as int] as int] == matching(s, gender)[k as int]);
        }
        Result::Ok(&self.substantiv[idx])
    }

    /// Checks every table the generator can reach, so that a validated
    /// lexicon makes a turn total: each reachable category non-empty, a noun
    /// of each agreement class present, and every valency frame usable.
    pub fn validate(&self) -> (r: Result<(), EmptyCategoryError>)
        ensures
            r is Ok <==> generator_ready(*self),
    {
        if self.substantiv.len() == 0 || self.verb.len() == 0 || self.adjektiv.len() == 0
            || self.pronomen.len() == 0 || self.pronomen_objekt.len() == 0
            || self.pronomen_possessiv.len() == 0 || self.namn.len() == 0
            || self.bindeord.len() == 0 || self.tidsord.len() == 0 || self.artiklar.len() == 0 {
            return Result::Err(EmptyCategoryError);
        }
        let ghost s = self.substantiv@;
        let mut has_n = false;
        let mut has_t = false;
        let mut i: usize = 0;
        while i < self.substantiv.len()
            invariant
                i <= s.len(),
                s == self.substantiv@,
                has_n == exists|j: int| 0 <= j < i && (#[trigger] s[j]).3 == Genus::N,
                has_t == exists|j: int| 0 <= j < i && (#[trigger] s[j]).3 == Genus::T,
            decreases s.len() - i,
        {
            if self.substantiv[i].3 == Genus::N {
                has_n = true;
            }
            if self.substantiv[i].3 == Genus::T {
                has_t = true;
            }
            i = i + 1;
        }
        proof {
            if has_n {
                let j = choose|j: int| 0 <= j < s.len() && (#[trigger] s[j]).3 == Genus::N;
                assert(gmatch(Genus::N)(s[j]));
                assert(matching(s, Genus::N).contains(s[j]));
            } else {
                assert(forall|j: int| 0 <= j < s.len() ==> !(gmatch(Genus::N)(#[trigger] s[j])));
                lemma_filter_misses_all(s, gmatch(Genus::N));
            }
            if has_t {
                let j = choose|j: int| 0 <= j < s.len() && (#[trigger] s[j]).3 == Genus::T;
                assert(gmatch(Genus::T)(s[j]));
                assert(matching(s, Genus::T).contains(s[j]));
            } else {
                assert(forall|j: int| 0 <= j < s.len() ==> !(gmatch(Genus::T)(#[trigger] s[j])));
                lemma_filter_misses_all(s, gmatch(Genus::T));
            }
        }
        if !has_n || !has_t {
            return Result::Err(EmptyCategoryError);
        }
        let mut v: usize = 0;
        while v < self.verb.len()
            invariant
                v <= self.verb@.len(),
                forall|k: int| 0 <= k < v ==> frames_ready(#[trigger] self.verb@[k]),
            decreases self.verb@.len() - v,
        {
            let frames = &self.verb[v].1;
            if frames.len() == 0 {
                return Result::Err(EmptyCategoryError);
            }
            let mut f: usize = 0;
            while f < frames.len()
                invariant
                    f <= frames@.len(),
                    frames@ == self.verb@[v as int].1@,
                    v < self.verb@.len(),
                    forall|l: int| 0 <= l < f ==> (#[trigger] frames@[l]).0@.len() > 0,
                decreases frames@.len() - f,
            {
                if frames[f].0.len() == 0 {
                    return Result::Err(EmptyCategoryError);
                }
                f = f + 1;
            }
            v = v + 1;
        }
        Result::Ok(())
    }

    /// A uniformly random article.
    pub fn random_artikel<'a, R: RandomSource>(&'a self, rng: &mut R) -> (r: Result<
        &'a Artikel,
        EmptyCategoryError,
    >)
        ensures
            uniform_sample_ok(self.artiklar@, r),
            r is Err ==> *final(rng) == *old(rng),
            old(rng).pinned() ==> final(rng).pinned() && uniform_sample_model(
                self.artiklar@,
                r,
                old(rng).draws(),
                final(rng).draws(),
            ),
    {
        match sample_idx(self.artiklar.len(), rng) {
            Result::Ok(i) => Result::Ok(&self.artiklar[i]),
            Result::Err(e) => Result::Err(e),
        }
    }
}

} // verus!
