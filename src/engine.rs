//! The live voice set of the audio callback: admission under a cap on
//! concurrent voices, with the oldest voice giving way, and expiry of each
//! voice on the sample at which its duration is reached.

use vstd::prelude::*;

use crate::pending::PendingQueue;
use crate::voice::{LiveVoice, VoiceCommand};

verus! {

/// `s` after `x` is added under a cap of `cap` items: when the cap is
/// reached the first (oldest) item leaves.
pub open spec fn keep_newest<A>(s: Seq<A>, cap: nat, x: A) -> Seq<A> {
    if s.len() >= cap {
        s.drop_first().push(x)
    } else {
        s.push(x)
    }
}

/// `s` after each item of `xs` is added in turn under a cap of `cap`.
pub open spec fn keep_newest_all<A>(s: Seq<A>, cap: nat, xs: Seq<A>) -> Seq<A>
    decreases xs.len(),
{
    if xs.len() == 0 {
        s
    } else {
        keep_newest(keep_newest_all(s, cap, xs.drop_last()), cap, xs.last())
    }
}

/// The live voices after one sample: each has aged by one, and those that
/// reached their duration are gone. The order is kept.
pub open spec fn advanced(s: Seq<LiveVoice>) -> Seq<LiveVoice>
    decreases s.len(),
{
    if s.len() == 0 {
        s
    } else {
        let rest = advanced(s.drop_last());
        if s.last().survives_tick() {
            rest.push(s.last().aged())
        } else {
            rest
        }
    }
}

/// The voices that `cmds` become when admitted, numbered from `first_id`.
pub open spec fn fresh_voices(cmds: Seq<VoiceCommand>, first_id: nat) -> Seq<LiveVoice> {
    Seq::new(
        cmds.len(),
        |i: int| LiveVoice { id: (first_id + i) as u64, command: cmds[i], elapsed: 0 },
    )
}

/// Every voice of `s` is still short of its duration.
pub open spec fn all_sounding(s: Seq<LiveVoice>) -> bool {
    forall|i: int| 0 <= i < s.len() ==> #[trigger] s[i].elapsed < s[i].command.duration
}

/// The voices that sound now, in the order they were admitted.
pub struct Engine {
    voices: Vec<LiveVoice>,
    cap: usize,
    next_id: u64,
}

impl Engine {
    pub closed spec fn live(&self) -> Seq<LiveVoice> {
        self.voices@
    }

    pub closed spec fn cap_spec(&self) -> nat {
        self.cap as nat
    }

    pub closed spec fn next_id_spec(&self) -> nat {
        self.next_id as nat
    }

    /// At most `cap` voices live, and none has reached its duration.
    pub open spec fn wf(&self) -> bool {
        &&& 0 < self.cap_spec()
        &&& self.live().len() <= self.cap_spec()
        &&& all_sounding(self.live())
    }

    /// An empty voice set for at most `cap` concurrent voices.
    pub fn new(cap: usize) -> (r: Engine)
        requires
            cap > 0,
        ensures
            r.wf(),
            r.live() == Seq::<LiveVoice>::empty(),
            r.cap_spec() == cap,
            r.next_id_spec() == 0,
    {
        Engine { voices: Vec::with_capacity(cap), cap, next_id: 0 }
    }

    /// Admits `cmd` as a new voice numbered `next_id`. If the cap is
    /// reached, the oldest voice is evicted first and returned.
    pub fn add_voice(&mut self, cmd: VoiceCommand) -> (evicted: Option<LiveVoice>)
        requires
            old(self).wf(),
            cmd.valid(),
            old(self).next_id_spec() < u64::MAX,
        ensures
            final(self).wf(),
            final(self).cap_spec() == old(self).cap_spec(),
            final(self).next_id_spec() == old(self).next_id_spec() + 1,
            final(self).live() == keep_newest(
                old(self).live(),
                old(self).cap_spec(),
                LiveVoice { id: old(self).next_id_spec() as u64, command: cmd, elapsed: 0 },
            ),
            evicted == if old(self).live().len() >= old(self).cap_spec() {
                Some(old(self).live()[0])
            } else {
                None::<LiveVoice>
            },
    {
        let evicted = if self.voices.len() >= self.cap {
            Some(self.voices.remove(0))
        } else {
            None
        };
        let voice = LiveVoice { id: self.next_id, command: cmd, elapsed: 0 };
        self.voices.push(voice);
        self.next_id = self.next_id + 1;
        proof {
            let s = old(self).voices@;
            if s.len() >= self.cap {
                assert(s.remove(0) =~= s.drop_first());
            }
            assert(all_sounding(self.voices@)) by {
                assert forall|i: int| 0 <= i < self.voices@.len() implies #[trigger]
                    self.voices@[i].elapsed < self.voices@[i].command.duration by {
                    if i < self.voices@.len() - 1 {
                        if s.len() >= self.cap {
                            assert(self.voices@[i] == s[i + 1]);
                        } else {
                            assert(self.voices@[i] == s[i]);
                        }
                    }
                }
            }
        }
        evicted
    }

    /// Admits every waiting command of `queue`, oldest first, each under
    /// the cap as `add_voice` does, and empties the queue. The work is bounded
    /// by the queue's capacity.
    pub fn admit_pending(&mut self, queue: &mut PendingQueue)
        requires
            old(self).wf(),
            old(queue).wf(),
            old(self).next_id_spec() + old(queue).items().len() <= u64::MAX,
        ensures
            final(self).wf(),
            final(self).cap_spec() == old(self).cap_spec(),
            final(self).next_id_spec() == old(self).next_id_spec() + old(queue).items().len(),
            final(self).live() == keep_newest_all(
                old(self).live(),
                old(self).cap_spec(),
                fresh_voices(old(queue).items(), old(self).next_id_spec()),
            ),
            final(queue).wf(),
            final(queue).items() == Seq::<VoiceCommand>::empty(),
            final(queue).capacity_spec() == old(queue).capacity_spec(),
            final(queue).dropped_spec() == old(queue).dropped_spec(),
    {
        let n = queue.len();
        let ghost cmds = queue.items();
        let ghost first = self.next_id_spec();
        let ghost start = self.live();
        let mut i: usize = 0;
        while i < n
            invariant
                0 <= i <= n,
                n == cmds.len(),
                queue.items() == cmds,
                queue.wf(),
                self.wf(),
                self.cap_spec() == old(self).cap_spec(),
                self.next_id_spec() == first + i,
                first + n <= u64::MAX,
                self.live() == keep_newest_all(
                    start,
                    self.cap_spec(),
                    fresh_voices(cmds, first).subrange(0, i as int),
                ),
            decreases n - i,
        {
            let cmd = queue.command(i);
            self.add_voice(cmd);
            proof {
                let fresh = fresh_voices(cmds, first);
                assert(fresh.subrange(0, i + 1).drop_last() =~= fresh.subrange(0, i as int));
                assert(fresh.subrange(0, i + 1).last() == fresh[i as int]);
            }
            i = i + 1;
        }
        proof {
            assert(fresh_voices(cmds, first).subrange(0, n as int) =~= fresh_voices(cmds, first));
        }
        queue.clear();
    }

    /// The live voices, oldest first.
    pub fn voices(&self) -> (r: &Vec<LiveVoice>)
        ensures
            r@ == self.live(),
    {
        &self.voices
    }

    /// Number of live voices.
    pub fn len(&self) -> (r: usize)
        ensures
            r == self.live().len(),
    {
        self.voices.len()
    }

    /// Whether no voice is live.
    pub fn is_empty(&self) -> (r: bool)
        ensures
            r == (self.live().len() == 0),
    {
        self.voices.len() == 0
    }

    /// Most voices that may sound at once.
    pub fn cap(&self) -> (r: usize)
        ensures
            r == self.cap_spec(),
    {
        self.cap
    }

    /// Serial number that the next admitted voice gets.
    pub fn next_id(&self) -> (r: u64)
        ensures
            r == self.next_id_spec(),
    {
        self.next_id
    }

    /// Advances every voice by one sample and removes, in the same step,
    /// each voice that has reached its duration.
    pub fn tick(&mut self)
        requires
            old(self).wf(),
        ensures
            final(self).wf(),
            final(self).cap_spec() == old(self).cap_spec(),
            final(self).next_id_spec() == old(self).next_id_spec(),
            final(self).live() == advanced(old(self).live()),
    {
        let ghost orig = self.voices@;
        let n = self.voices.len();
        let mut i: usize = 0;
        let mut k: usize = 0;
        while k < n
            invariant
                0 <= k <= n,
                n == orig.len(),
                orig == old(self).voices@,
                all_sounding(orig),
                i == advanced(orig.subrange(0, k as int)).len(),
                i <= k,
                self.voices@ == advanced(orig.subrange(0, k as int)) + orig.subrange(
                    k as int,
                    n as int,
                ),
                self.cap == old(self).cap,
                self.next_id == old(self).next_id,
            decreases n - k,
        {
            let ghost pre = orig.subrange(0, k as int);
            proof {
                assert(orig.subrange(0, k + 1).drop_last() =~= pre);
                assert(orig.subrange(0, k + 1).last() == orig[k as int]);
                assert(self.voices@[i as int] == orig[k as int]);
            }
            let v = self.voices[i];
            if v.elapsed + 1 < v.command.duration {
                self.voices.set(i, LiveVoice { elapsed: v.elapsed + 1, ..v });
                proof {
                    assert(self.voices@ =~= advanced(orig.subrange(0, k + 1)) + orig.subrange(
                        k + 1,
                        n as int,
                    ));
                }
                i = i + 1;
            } else {
                self.voices.remove(i);
                proof {
                    assert(self.voices@ =~= advanced(orig.subrange(0, k + 1)) + orig.subrange(
                        k + 1,
                        n as int,
                    ));
                }
            }
            k = k + 1;
        }
        proof {
            assert(orig.subrange(0, n as int) =~= orig);
            assert(orig.subrange(n as int, n as int) =~= Seq::<LiveVoice>::empty());
            assert(self.voices@ =~= advanced(orig));
            lemma_advanced_sounding(orig);
        }
    }
}

/// Every voice left after a tick is still short of its duration, and no
/// more voices are left than there were.
pub proof fn lemma_advanced_sounding(s: Seq<LiveVoice>)
    requires
        all_sounding(s),
    ensures
        all_sounding(advanced(s)),
        advanced(s).len() <= s.len(),
    decreases s.len(),
{
    if s.len() > 0 {
        lemma_advanced_sounding(s.drop_last());
    }
}

/// The live voices after `k` samples.
pub open spec fn advanced_by(s: Seq<LiveVoice>, k: nat) -> Seq<LiveVoice>
    decreases k,
{
    if k == 0 {
        s
    } else {
        advanced(advanced_by(s, (k - 1) as nat))
    }
}

/// A voice that is live and still short of its duration after one more
/// sample is live after the tick, one sample older.
pub proof fn lemma_advanced_keeps(s: Seq<LiveVoice>, v: LiveVoice)
    requires
        s.contains(v),
        v.survives_tick(),
    ensures
        advanced(s).contains(v.aged()),
    decreases s.len(),
{
    let rest = s.drop_last();
    if s.last() == v {
        assert(advanced(s).last() == v.aged());
    } else {
        let i = choose|i: int| 0 <= i < s.len() && s[i] == v;
        assert(rest[i] == v);
        lemma_advanced_keeps(rest, v);
        let j = choose|j: int| 0 <= j < advanced(rest).len() && advanced(rest)[j] == v.aged();
        if s.last().survives_tick() {
            assert(advanced(s)[j] == v.aged());
        }
    }
}

/// Each voice left after a tick came from a voice that was live before.
pub proof fn lemma_advanced_from(s: Seq<LiveVoice>, w: LiveVoice)
    requires
        advanced(s).contains(w),
    ensures
        exists|u: LiveVoice| #[trigger] s.contains(u) && u.survives_tick() && w == u.aged(),
    decreases s.len(),
{
    let rest = s.drop_last();
    if s.last().survives_tick() && w == s.last().aged() {
        assert(s.contains(s.last()));
    } else {
        let j = choose|j: int| 0 <= j < advanced(s).len() && advanced(s)[j] == w;
        assert(advanced(rest)[j] == w);
        lemma_advanced_from(rest, w);
        let u = choose|u: LiveVoice| #[trigger] rest.contains(u) && u.survives_tick() && w == u.aged();
        let i = choose|i: int| 0 <= i < rest.len() && rest[i] == u;
        assert(s[i] == u);
        assert(s.contains(u));
    }
}

/// Expiry on one sample: a voice short of its duration is live after a
/// tick, one sample older, exactly when it was live before and had more than one sample left; and
/// every voice then live is short of its duration.
pub proof fn lemma_tick_expires(s: Seq<LiveVoice>, v: LiveVoice)
    requires
        v.elapsed < v.command.duration,
    ensures
        advanced(s).contains(v.aged()) <==> (s.contains(v) && v.survives_tick()),
        all_sounding(advanced(s)),
{
    if s.contains(v) && v.survives_tick() {
        lemma_advanced_keeps(s, v);
    }
    if advanced(s).contains(v.aged()) {
        lemma_advanced_from(s, v.aged());
        let u = choose|u: LiveVoice| #[trigger] s.contains(u) && u.survives_tick() && v.aged() == u.aged();
        assert(u.id == v.id && u.command == v.command);
        assert(u.aged().elapsed == u.elapsed + 1);
        assert(v.aged().elapsed == v.elapsed + 1);
        assert(u == v);
    }
    lemma_all_advanced_sounding(s);
}

/// Every voice left after a tick is short of its duration, whatever came
/// before.
pub proof fn lemma_all_advanced_sounding(s: Seq<LiveVoice>)
    ensures
        all_sounding(advanced(s)),
    decreases s.len(),
{
    if s.len() > 0 {
        lemma_all_advanced_sounding(s.drop_last());
    }
}

/// A voice's lifetime: of a set of live voices, a voice `k` samples later
/// is still live, `k` samples older, if and only if its elapsed time plus
/// `k` is short of its duration. So it is gone on the sample at which its
/// duration is reached, and on every later one.
pub proof fn lemma_voice_lifetime(s: Seq<LiveVoice>, v: LiveVoice, k: nat)
    requires
        all_sounding(s),
        s.contains(v),
    ensures
        (exists|w: LiveVoice|
            #[trigger] advanced_by(s, k).contains(w) && w.id == v.id && w.command == v.command
                && w.elapsed == v.elapsed + k) <==> v.elapsed + k < v.command.duration,
    decreases k,
{
    lemma_advanced_by_sounding(s, k);
    if k == 0 {
        if v.elapsed + k < v.command.duration {
            assert(advanced_by(s, 0).contains(v));
        }
    } else {
        if v.elapsed + k < v.command.duration {
            lemma_voice_lifetime(s, v, (k - 1) as nat);
            let w = choose|w: LiveVoice|
                #[trigger] advanced_by(s, (k - 1) as nat).contains(w) && w.id == v.id && w.command
                    == v.command && w.elapsed == v.elapsed + (k - 1);
            lemma_advanced_keeps(advanced_by(s, (k - 1) as nat), w);
            assert(advanced_by(s, k).contains(w.aged()));
        }
    }
    if exists|w: LiveVoice|
        #[trigger] advanced_by(s, k).contains(w) && w.id == v.id && w.command == v.command
            && w.elapsed == v.elapsed + k {
        let w = choose|w: LiveVoice|
            #[trigger] advanced_by(s, k).contains(w) && w.id == v.id && w.command == v.command
                && w.elapsed == v.elapsed + k;
        let j = choose|j: int| 0 <= j < advanced_by(s, k).len() && advanced_by(s, k)[j] == w;
        assert(advanced_by(s, k)[j].elapsed < advanced_by(s, k)[j].command.duration);
    }
}

/// Any number of samples later every live voice is short of its duration.
pub proof fn lemma_advanced_by_sounding(s: Seq<LiveVoice>, k: nat)
    requires
        all_sounding(s),
    ensures
        all_sounding(advanced_by(s, k)),
    decreases k,
{
    if k > 0 {
        lemma_advanced_by_sounding(s, (k - 1) as nat);
        lemma_all_advanced_sounding(advanced_by(s, (k - 1) as nat));
    }
}

/// The cap on concurrent voices: adding the items `xs` in turn to `s`
/// under a cap of `cap` leaves exactly the last `cap` items of `s` followed
/// by `xs` (all of them if there are fewer), so the oldest leave first.
pub proof fn lemma_cap_keeps_newest<A>(s: Seq<A>, cap: nat, xs: Seq<A>)
    requires
        0 < cap,
        s.len() <= cap,
    ensures
        keep_newest_all(s, cap, xs) == (s + xs).subrange(
            if s.len() + xs.len() > cap { s.len() + xs.len() - cap } else { 0int },
            s.len() + xs.len() as int,
        ),
        keep_newest_all(s, cap, xs).len() == if s.len() + xs.len() > cap {
            cap
        } else {
            s.len() + xs.len()
        },
    decreases xs.len(),
{
    let t = s + xs;
    let m = s.len() + xs.len();
    if xs.len() == 0 {
        assert(t.subrange(0, m as int) =~= s);
    } else {
        let ys = xs.drop_last();
        lemma_cap_keeps_newest(s, cap, ys);
        let u = s + ys;
        let lo = if u.len() > cap { u.len() - cap } else { 0 };
        assert(u =~= t.subrange(0, m - 1));
        let prev = keep_newest_all(s, cap, ys);
        assert(prev == u.subrange(lo, u.len() as int));
        if prev.len() >= cap {
            assert(prev.drop_first().push(xs.last()) =~= t.subrange(m - cap, m as int));
        } else {
            assert(prev.push(xs.last()) =~= t.subrange(0, m as int));
        }
    }
}

} // verus!
