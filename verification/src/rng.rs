use vstd::prelude::*;

verus! {

/// The value the next draw yields: the head of the script, or 0 once the
/// script is spent.
pub open spec fn take_draw(d: Seq<u64>) -> u64 {
    if d.len() == 0 {
        0u64
    } else {
        d[0]
    }
}

/// The script left after one draw.
pub open spec fn rest_draws(d: Seq<u64>) -> Seq<u64> {
    if d.len() == 0 {
        d
    } else {
        d.drop_first()
    }
}

/// How one raw draw selects an index below `n`.
pub open spec fn pick_of(d: u64, n: int) -> int
    recommends
        n > 0,
{
    d as int % n
}

/// How one raw draw decides a weighted boolean with probability `num`/`den`.
pub open spec fn coin_of(d: u64, num: u64, den: u64) -> bool
    recommends
        den > 0,
{
    (d as int) % (den as int) < (num as int)
}

/// A supplier of uniform index draws and weighted-boolean draws.
///
/// A pinned source is replayable: every draw is a function of the remaining
/// script, so a whole turn driven by it is deterministic. An unpinned source
/// promises only the range of each draw.
pub trait RandomSource: Sized {
    spec fn pinned(&self) -> bool;

    spec fn draws(&self) -> Seq<u64>;

    /// A uniform draw from `0..n`.
    fn pick(&mut self, n: usize) -> (r: usize)
        requires
            n > 0,
        ensures
            r < n,
            old(self).pinned() ==> final(self).pinned() && final(self).draws() == rest_draws(
                old(self).draws(),
            ) && r as int == pick_of(take_draw(old(self).draws()), n as int),
    ;

    /// A boolean that is true with probability `num`/`den`.
    fn coin(&mut self, num: u64, den: u64) -> (r: bool)
        requires
            den > 0,
        ensures
            old(self).pinned() ==> final(self).pinned() && final(self).draws() == rest_draws(
                old(self).draws(),
            ) && r == coin_of(take_draw(old(self).draws()), num, den),
    ;
}

/// A replayable source: it consumes a fixed script of raw draws from the
/// front and behaves as if the script were padded with zeroes once spent.
pub struct ReplaySource {
    pub script: Vec<u64>,
    pub pos: usize,
}

impl ReplaySource {
    pub fn new(script: Vec<u64>) -> (r: ReplaySource)
        ensures
            r.pinned(),
            r.draws() == script@,
    {
        let r = ReplaySource { script, pos: 0 };
        proof {
            assert(r.draws() =~= r.script@);
        }
        r
    }

    fn next_draw(&mut self) -> (d: u64)
        ensures
            d == take_draw(old(self).draws()),
            final(self).draws() == rest_draws(old(self).draws()),
            final(self).pinned(),
    {
        if self.pos < self.script.len() {
            let d = self.script[self.pos];
            self.pos = self.pos + 1;
            proof {
                assert(final(self).draws() =~= rest_draws(old(self).draws()));
            }
            d
        } else {
            0
        }
    }
}

impl RandomSource for ReplaySource {
    open spec fn pinned(&self) -> bool {
        true
    }

    open spec fn draws(&self) -> Seq<u64> {
        if self.pos <= self.script@.len() {
            self.script@.skip(self.pos as int)
        } else {
            Seq::empty()
        }
    }

    fn pick(&mut self, n: usize) -> (r: usize) {
        let d = self.next_draw();
        let m = d % (n as u64);
        assert(m < n as u64);
        m as usize
    }

    fn coin(&mut self, num: u64, den: u64) -> (r: bool) {
        let d = self.next_draw();
        d % den < num
    }
}

/// An operating-system-backed source for live runs: each draw comes from the
/// process's entropy source, so nothing beyond its range is promised.
pub struct OsSource {}

impl OsSource {
    pub fn new() -> (r: OsSource) {
        OsSource {  }
    }
}

/// Relies on rand's `Rng::gen_range` over `rand::rngs::OsRng`: a uniform draw
/// from the range `0..n`, which is nonempty because `n > 0`, so the result
/// lies below `n`.
#[verifier::external_body]
fn os_below(n: u64) -> (r: u64)
    requires
        n > 0,
    ensures
        r < n,
{
    rand::Rng::gen_range(&mut rand::rngs::OsRng, 0..n)
}

impl RandomSource for OsSource {
    open spec fn pinned(&self) -> bool {
        false
    }

    open spec fn draws(&self) -> Seq<u64> {
        Seq::empty()
    }

    fn pick(&mut self, n: usize) -> (r: usize) {
        let m = os_below(n as u64);
        assert(m < n as u64);
        m as usize
    }

    fn coin(&mut self, num: u64, den: u64) -> (r: bool) {
        os_below(den) < num
    }
}

} // verus!
