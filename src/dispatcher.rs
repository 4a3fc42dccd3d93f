use crate::response::Error;
use crate::snapshot::{whole_secs, Snapshot, NANOS_PER_SEC};
use crate::state::State;
use vstd::prelude::*;

verus! {

/// Names of the timers in a set, in the set's order.
pub open spec fn names<H>(v: Seq<(Seq<char>, H)>) -> Seq<Seq<char>> {
    v.map_values(|e: (Seq<char>, H)| e.0)
}

/// No name stands twice.
pub open spec fn unique_names<H>(v: Seq<(Seq<char>, H)>) -> bool {
    forall|i: int, j: int| 0 <= i < j < v.len() ==> v[i].0 != v[j].0
}

pub open spec fn has_name<H>(v: Seq<(Seq<char>, H)>, name: Seq<char>) -> bool {
    exists|i: int| 0 <= i < v.len() && v[i].0 == name
}

/// How an `Add` of `name` with these durations ends on the set `v`: a
/// duration or step under a second is refused first, then a name that is
/// already live.
pub open spec fn add_outcome<H>(
    v: Seq<(Seq<char>, H)>,
    name: Seq<char>,
    duration: u128,
    step: u128,
) -> Result<(), Error> {
    if whole_secs(duration) == 0 || whole_secs(step) == 0 {
        Err(Error::InvalidDuration)
    } else if has_name(v, name) {
        Err(Error::NameExists)
    } else {
        Ok(())
    }
}

/// The live timers, by name, each with its handle. Entries leave only when
/// their timer has announced that it halted.
pub struct TimerSet<H> {
    entries: Vec<(String, H)>,
}

impl<H> View for TimerSet<H> {
    type V = Seq<(Seq<char>, H)>;

    closed spec fn view(&self) -> Seq<(Seq<char>, H)> {
        self.entries@.map_values(|e: (String, H)| (e.0@, e.1))
    }
}

impl<H> TimerSet<H> {
    /// Names are unique among live timers.
    pub open spec fn wf(&self) -> bool {
        unique_names(self@)
    }

    pub fn new() -> (r: TimerSet<H>)
        ensures
            r@ == Seq::<(Seq<char>, H)>::empty(),
            r.wf(),
    {
        let r = TimerSet { entries: Vec::new() };
        assert(r@ =~= Seq::<(Seq<char>, H)>::empty());
        r
    }

    pub fn len(&self) -> (r: usize)
        ensures
            r == self@.len(),
    {
        self.entries.len()
    }

    /// The position of the timer called `name`.
    fn find(&self, name: &String) -> (r: Option<usize>)
        ensures
            match r {
                Some(i) => i < self@.len() && self@[i as int].0 == name@,
                None => !has_name(self@, name@),
            },
    {
        let mut i: usize = 0;
        while i < self.entries.len()
            invariant
                i <= self.entries@.len(),
                forall|k: int| 0 <= k < i ==> self@[k].0 != name@,
            decreases self.entries@.len() - i,
        {
            if self.entries[i].0 == *name {
                return Some(i);
            }
            i += 1;
        }
        None
    }

    pub fn contains(&self, name: &String) -> (r: bool)
        ensures
            r == has_name(self@, name@),
    {
        self.find(name).is_some()
    }

    /// Adds a timer: checks the request, and only when it is accepted calls
    /// `spawn` for the new timer's handle.
    pub fn add<F: FnOnce() -> H>(&mut self, name: String, duration: u128, step: u128, spawn: F) -> (r:
        Result<(), Error>)
        requires
            old(self).wf(),
            spawn.requires(()),
        ensures
            final(self).wf(),
            r == add_outcome(old(self)@, name@, duration, step),
            r is Ok ==> exists|h: H|
                spawn.ensures((), h) && final(self)@ == old(self)@.push((name@, h)),
            r is Err ==> final(self)@ == old(self)@,
    {
        if duration / NANOS_PER_SEC == 0 || step / NANOS_PER_SEC == 0 {
            return Err(Error::InvalidDuration);
        }
        if self.contains(&name) {
            return Err(Error::NameExists);
        }
        let h = spawn();
        let ghost old_view = self@;
        self.entries.push((name, h));
        assert(self@ =~= old_view.push((name@, h)));
        assert(names(self@) == names(old_view).push(name@));
        Ok(())
    }

    /// The handle of the timer called `name`.
    pub fn lookup(&self, name: &String) -> (r: Result<&H, Error>)
        ensures
            match r {
                Ok(h) => exists|i: int| 0 <= i < self@.len() && self@[i] == (name@, *h),
                Err(e) => e == Error::NameNotExists && !has_name(self@, name@),
            },
    {
        match self.find(name) {
            Some(i) => Ok(&self.entries[i].1),
            None => Err(Error::NameNotExists),
        }
    }

    /// The handle at position `i`.
    pub fn handle_at(&self, i: usize) -> (r: &H)
        requires
            i < self@.len(),
        ensures
            *r == self@[i as int].1,
    {
        &self.entries[i].1
    }

    /// Takes out the timer called `name`, once it has announced that it
    /// halted. The others stay, in their order.
    pub fn remove(&mut self, name: &String) -> (r: Option<H>)
        requires
            old(self).wf(),
        ensures
            final(self).wf(),
            match r {
                Some(h) => exists|i: int|
                    0 <= i < old(self)@.len() && old(self)@[i] == (name@, h) && final(self)@
                        == old(self)@.remove(i),
                None => !has_name(old(self)@, name@) && final(self)@ == old(self)@,
            },
    {
        match self.find(name) {
            Some(i) => {
                let ghost old_view = self@;
                let (_, h) = self.entries.remove(i);
                assert(self@ =~= old_view.remove(i as int));
                Some(h)
            },
            None => None,
        }
    }

    /// All handles, in the set's order.
    pub fn into_handles(self) -> (r: Vec<H>)
        ensures
            r@ == self@.map_values(|e: (Seq<char>, H)| e.1),
    {
        let ghost v = self@;
        let mut entries = self.entries;
        let mut r: Vec<H> = Vec::new();
        assert(v.skip(0) =~= v);
        while entries.len() > 0
            invariant
                r@.len() <= v.len(),
                entries@.map_values(|e: (String, H)| (e.0@, e.1)) == v.skip(r@.len() as int),
                r@ == v.take(r@.len() as int).map_values(|e: (Seq<char>, H)| e.1),
            decreases entries.len(),
        {
            let ghost k = r@.len() as int;
            let ghost before = entries@;
            proof {
                let m = before.map_values(|e: (String, H)| (e.0@, e.1));
                assert(m.len() == before.len());
                assert(v.skip(k).len() == v.len() - k);
                assert(m[0] == v.skip(k)[0]);
            }
            let (_, h) = entries.remove(0);
            r.push(h);
            proof {
                assert(entries@ =~= before.subrange(1, before.len() as int));
                let m = before.map_values(|e: (String, H)| (e.0@, e.1));
                assert(h == v[k].1);
                assert(entries@.map_values(|e: (String, H)| (e.0@, e.1)) =~= m.subrange(
                    1,
                    m.len() as int,
                ));
                assert(v.skip(k + 1) =~= v.skip(k).subrange(1, v.skip(k).len() as int));
                assert(r@ =~= v.take(k + 1).map_values(|e: (Seq<char>, H)| e.1));
            }
        }
        assert(v.take(r@.len() as int) =~= v);
        r
    }
}

/// Names of the snapshots, in order.
pub open spec fn report_names(r: Seq<Snapshot>) -> Seq<Seq<char>> {
    r.map_values(|x: Snapshot| x.name@)
}

/// The report made of the timers' replies, in order: replies of halted timers
/// are left out, and of several replies with one name only the first stays.
pub open spec fn report_of(replies: Seq<Snapshot>) -> Seq<Snapshot>
    decreases replies.len(),
{
    if replies.len() == 0 {
        Seq::empty()
    } else {
        let r = report_of(replies.drop_last());
        let x = replies.last();
        if x.state != State::Halted && !report_names(r).contains(x.name@) {
            r.push(x)
        } else {
            r
        }
    }
}

fn has_snapshot_named(v: &Vec<Snapshot>, name: &String) -> (r: bool)
    ensures
        r == report_names(v@).contains(name@),
{
    let mut i: usize = 0;
    while i < v.len()
        invariant
            i <= v@.len(),
            forall|k: int| 0 <= k < i ==> v@[k].name@ != name@,
        decreases v@.len() - i,
    {
        if v[i].name == *name {
            assert(report_names(v@)[i as int] == name@);
            return true;
        }
        i += 1;
    }
    assert(forall|k: int| 0 <= k < v@.len() ==> report_names(v@)[k] != name@);
    false
}

/// Builds a report from the replies that the timers sent to a `Report`.
pub fn collect_report(replies: &Vec<Snapshot>) -> (r: Vec<Snapshot>)
    ensures
        r@ == report_of(replies@),
{
    let mut r: Vec<Snapshot> = Vec::new();
    let mut i: usize = 0;
    assert(replies@.take(0) =~= Seq::<Snapshot>::empty());
    while i < replies.len()
        invariant
            i <= replies@.len(),
            r@ == report_of(replies@.take(i as int)),
        decreases replies@.len() - i,
    {
        let x = &replies[i];
        assert(replies@.take(i + 1).drop_last() =~= replies@.take(i as int));
        assert(replies@.take(i + 1).last() == replies@[i as int]);
        if !x.state.is_halted() && !has_snapshot_named(&r, &x.name) {
            r.push(x.clone());
        }
        i += 1;
    }
    assert(replies@.take(i as int) =~= replies@);
    r
}

/// A report holds no halted timer and no name twice, and each of its
/// snapshots is one of the replies.
pub proof fn lemma_report_is_live_and_unique(replies: Seq<Snapshot>)
    ensures
        forall|k: int| 0 <= k < report_of(replies).len() ==> report_of(replies)[k].state
            != State::Halted,
        forall|j: int, k: int|
            0 <= j < k < report_of(replies).len() ==> report_of(replies)[j].name@ != report_of(
                replies,
            )[k].name@,
        forall|k: int| 0 <= k < report_of(replies).len() ==> replies.contains(report_of(replies)[k]),
    decreases replies.len(),
{
    if replies.len() > 0 {
        let rest = replies.drop_last();
        lemma_report_is_live_and_unique(rest);
        let r = report_of(rest);
        let x = replies.last();
        assert forall|k: int| 0 <= k < r.len() implies replies.contains(r[k]) by {
            let m = choose|m: int| 0 <= m < rest.len() && rest[m] == r[k];
            assert(replies[m] == r[k]);
        }
        assert(replies[replies.len() - 1] == x);
        if x.state != State::Halted && !report_names(r).contains(x.name@) {
            assert forall|j: int| 0 <= j < r.len() implies r[j].name@ != x.name@ by {
                assert(report_names(r)[j] == r[j].name@);
            }
        }
    }
}

/// One step of the shutdown that a `Quit` starts. Timers are named by their
/// position among the handles.
#[derive(Clone, Copy, PartialEq, Eq, Structural, Debug)]
pub enum Step {
    Halt(usize),
    ConfirmHalt(usize),
    Join(usize),
    QuitUpdater,
    JoinUpdater,
    Acknowledge,
}

pub open spec fn touches_timer(s: Step) -> bool {
    s is Halt || s is ConfirmHalt || s is Join
}

/// The shutdown of `n` timers: halt each, confirm each halt, join each thread,
/// then stop and join the updater, then answer the client.
pub open spec fn shutdown_plan(n: nat) -> Seq<Step> {
    Seq::new(n, |i: int| Step::Halt(i as usize)) + Seq::new(n, |i: int| Step::ConfirmHalt(i as usize))
        + Seq::new(n, |i: int| Step::Join(i as usize)) + seq![
        Step::QuitUpdater,
        Step::JoinUpdater,
        Step::Acknowledge,
    ]
}

/// The steps by which the daemon shuts down with `n` live timers.
pub fn quit_plan(n: usize) -> (r: Vec<Step>)
    ensures
        r@ == shutdown_plan(n as nat),
{
    let mut r: Vec<Step> = Vec::new();
    let mut i: usize = 0;
    while i < n
        invariant
            i <= n,
            r@ == Seq::new(i as nat, |k: int| Step::Halt(k as usize)),
        decreases n - i,
    {
        r.push(Step::Halt(i));
        i += 1;
        assert(r@ =~= Seq::new(i as nat, |k: int| Step::Halt(k as usize)));
    }
    let ghost halts = r@;
    i = 0;
    while i < n
        invariant
            i <= n,
            r@ == halts + Seq::new(i as nat, |k: int| Step::ConfirmHalt(k as usize)),
        decreases n - i,
    {
        r.push(Step::ConfirmHalt(i));
        i += 1;
        assert(r@ =~= halts + Seq::new(i as nat, |k: int| Step::ConfirmHalt(k as usize)));
    }
    let ghost confirms = r@;
    i = 0;
    while i < n
        invariant
            i <= n,
            r@ == confirms + Seq::new(i as nat, |k: int| Step::Join(k as usize)),
        decreases n - i,
    {
        r.push(Step::Join(i));
        i += 1;
        assert(r@ =~= confirms + Seq::new(i as nat, |k: int| Step::Join(k as usize)));
    }
    r.push(Step::QuitUpdater);
    r.push(Step::JoinUpdater);
    r.push(Step::Acknowledge);
    assert(r@ =~= shutdown_plan(n as nat));
    r
}

/// Two-phase quit: every timer is halted, then has its halt confirmed, then
/// its thread joined; only when all timer threads are joined is the updater
/// told to quit, and nothing touches a timer after that; the acknowledgment
/// to the client comes last, after the updater's thread is joined.
pub proof fn lemma_quit_order(n: nat)
    ensures
        ({
            let p = shutdown_plan(n);
            &&& p.len() == 3 * n + 3
            &&& forall|k: int| 0 <= k < n ==> #[trigger] p[k] == Step::Halt(k as usize)
            &&& forall|k: int|
                n <= k < 2 * n ==> #[trigger] p[k] == Step::ConfirmHalt((k - n) as usize)
            &&& forall|k: int|
                2 * n <= k < 3 * n ==> #[trigger] p[k] == Step::Join((k - 2 * n) as usize)
            &&& p[3 * n as int] == Step::QuitUpdater
            &&& p[3 * n as int + 1] == Step::JoinUpdater
            &&& p[3 * n as int + 2] == Step::Acknowledge
            &&& forall|j: int, k: int|
                0 <= j < k < p.len() && p[j] == Step::QuitUpdater ==> !touches_timer(p[k])
            &&& forall|k: int| 0 <= k < p.len() && p[k] == Step::Acknowledge ==> k == p.len() - 1
        }),
{
    let p = shutdown_plan(n);
    assert forall|k: int| 0 <= k < p.len() && (p[k] == Step::QuitUpdater) implies k == 3 * n by {}
    assert forall|k: int| 0 <= k < p.len() && (p[k] == Step::Acknowledge) implies k == 3 * n + 2 by {}
}

/// An accepted `Add` with a new name grows the set by exactly one timer, and
/// an `Add` of the same name while that timer is live is then refused with
/// `NameExists`, whatever its durations.
pub proof fn lemma_add_then_same_name<H>(
    v: Seq<(Seq<char>, H)>,
    name: Seq<char>,
    duration: u128,
    step: u128,
    h: H,
    duration2: u128,
    step2: u128,
)
    requires
        unique_names(v),
        whole_secs(duration) > 0,
        whole_secs(step) > 0,
        !has_name(v, name),
        whole_secs(duration2) > 0,
        whole_secs(step2) > 0,
    ensures
        add_outcome(v, name, duration, step) == Ok::<(), Error>(()),
        v.push((name, h)).len() == v.len() + 1,
        unique_names(v.push((name, h))),
        add_outcome(v.push((name, h)), name, duration2, step2) == Err::<(), Error>(
            Error::NameExists,
        ),
{
    let w = v.push((name, h));
    assert(w[v.len() as int].0 == name);
}

/// Once a halted timer has been taken out of the set, its name is unknown:
/// commands to it are refused with `NameNotExists`, and the other timers stay.
pub proof fn lemma_removed_name_is_unknown<H>(v: Seq<(Seq<char>, H)>, i: int)
    requires
        unique_names(v),
        0 <= i < v.len(),
    ensures
        !has_name(v.remove(i), v[i].0),
        unique_names(v.remove(i)),
        v.remove(i).len() == v.len() - 1,
{
    let w = v.remove(i);
    assert forall|k: int| 0 <= k < w.len() implies w[k].0 != v[i].0 by {
        if k < i {
            assert(w[k] == v[k]);
        } else {
            assert(w[k] == v[k + 1]);
        }
    }
}

} // verus!
