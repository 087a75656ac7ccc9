use vstd::prelude::*;
use crate::asset::{
    assets_view, line_of, price_line, read_price, reply_outcome, separator, separator_line, Asset,
    AssetView, Reply,
};
use crate::json::PollError;

verus! {

/// Seconds of sleep between the end of one cycle and the start of the next.
pub const POLL_SECONDS: u64 = 10;

/// Where a poller stands: about to fetch asset `i`, waiting for the lines of asset `i`
/// to be written, asleep between cycles, or stopped by an error.
#[derive(Clone, Copy, Debug, PartialEq, Eq, Structural)]
pub enum Phase {
    Fetching(usize),
    Writing(usize),
    Sleeping,
    Halted(PollError),
}

/// What the poller asks its driver to do next.
#[derive(Clone, Debug)]
pub enum Action {
    /// Fetch this URL and hand back the reply.
    Get(String),
    /// Append these lines to the log, in order, and say whether that worked.
    Append(Vec<String>),
    /// Sleep this many seconds, then wake the poller.
    Sleep(u64),
    /// Stop: the error ends the run.
    Halt(PollError),
}

/// An action as the contracts see it.
pub enum Step {
    Get(Seq<char>),
    Append(Seq<Seq<char>>),
    Sleep(nat),
    Halt(PollError),
}

impl View for Action {
    type V = Step;

    open spec fn view(&self) -> Step {
        match self {
            Action::Get(url) => Step::Get(url@),
            Action::Append(lines) => Step::Append(lines@.map_values(|l: String| l@)),
            Action::Sleep(secs) => Step::Sleep(*secs as nat),
            Action::Halt(e) => Step::Halt(*e),
        }
    }
}

/// The abstract state of a poller: its phase, the lines handed out for writing and
/// not yet confirmed, and every line confirmed written since it started.
pub struct PollerState {
    pub phase: Phase,
    pub pending: Seq<Seq<char>>,
    pub written: Seq<Seq<char>>,
}

/// Where a cycle starts: at the first asset, or asleep when there is none.
pub open spec fn start_phase(n: nat) -> Phase {
    if n > 0 {
        Phase::Fetching(0)
    } else {
        Phase::Sleeping
    }
}

/// A new poller: at the start of a cycle, with nothing pending or written.
pub open spec fn initial_state(assets: Seq<AssetView>) -> PollerState {
    PollerState { phase: start_phase(assets.len()), pending: Seq::empty(), written: Seq::empty() }
}

/// The asset index of the phase is in the list, and lines are pending only while
/// they wait to be written.
pub open spec fn well_formed(assets: Seq<AssetView>, s: PollerState) -> bool {
    match s.phase {
        Phase::Fetching(i) => i < assets.len() && s.pending.len() == 0,
        Phase::Writing(i) => i < assets.len(),
        _ => s.pending.len() == 0,
    }
}

/// The lines that the reading `price` of asset `i` adds: its own line, and after the
/// last asset of the list the separator that closes the cycle.
pub open spec fn lines_for(assets: Seq<AssetView>, i: int, price: Seq<char>) -> Seq<Seq<char>> {
    if i + 1 == assets.len() {
        seq![line_of(assets[i].name, price), separator()]
    } else {
        seq![line_of(assets[i].name, price)]
    }
}

/// The state after the fetch of the current asset gave `outcome`.
pub open spec fn after_reply(
    assets: Seq<AssetView>,
    s: PollerState,
    outcome: Result<Seq<char>, PollError>,
) -> PollerState {
    match s.phase {
        Phase::Fetching(i) => match outcome {
            Ok(price) => PollerState {
                phase: Phase::Writing(i),
                pending: lines_for(assets, i as int, price),
                written: s.written,
            },
            Err(e) => PollerState { phase: Phase::Halted(e), pending: Seq::empty(), written: s.written },
        },
        _ => s,
    }
}

/// The state after the pending lines were written (`ok`) or could not be.
pub open spec fn after_write(assets: Seq<AssetView>, s: PollerState, ok: bool) -> PollerState {
    match s.phase {
        Phase::Writing(i) => if ok {
            PollerState {
                phase: if i + 1 < assets.len() {
                    Phase::Fetching((i + 1) as usize)
                } else {
                    Phase::Sleeping
                },
                pending: Seq::empty(),
                written: s.written + s.pending,
            }
        } else {
            PollerState {
                phase: Phase::Halted(PollError::FileError),
                pending: Seq::empty(),
                written: s.written,
            }
        },
        _ => s,
    }
}

/// The state after the sleep between cycles ended: the next cycle begins.
pub open spec fn after_wake(assets: Seq<AssetView>, s: PollerState) -> PollerState {
    match s.phase {
        Phase::Sleeping => PollerState { phase: start_phase(assets.len()), ..s },
        _ => s,
    }
}

/// What a poller in state `s` asks for.
pub open spec fn step_of(assets: Seq<AssetView>, s: PollerState) -> Step {
    match s.phase {
        Phase::Fetching(i) => Step::Get(assets[i as int].endpoint),
        Phase::Writing(_) => Step::Append(s.pending),
        Phase::Sleeping => Step::Sleep(POLL_SECONDS as nat),
        Phase::Halted(e) => Step::Halt(e),
    }
}

/// Drives the cycle: fetch each asset in list order, write its lines, sleep, repeat.
/// Any failed fetch or write halts it.
pub struct Poller {
    assets: Vec<Asset>,
    phase: Phase,
    pending: Vec<String>,
    written: Ghost<Seq<Seq<char>>>,
}

impl View for Poller {
    type V = PollerState;

    closed spec fn view(&self) -> PollerState {
        PollerState {
            phase: self.phase,
            pending: self.pending@.map_values(|l: String| l@),
            written: self.written@,
        }
    }
}

impl Poller {
    /// The assets that this poller cycles through, in order.
    pub closed spec fn assets_view(&self) -> Seq<AssetView> {
        assets_view(self.assets@)
    }

    /// The poller's state is well formed for its assets.
    pub open spec fn inv(&self) -> bool {
        well_formed(self.assets_view(), self@)
    }

    /// A poller at the start of its first cycle.
    pub fn new(assets: Vec<Asset>) -> (r: Poller)
        ensures
            r.assets_view() == assets_view(assets@),
            r@ == initial_state(assets_view(assets@)),
            r.inv(),
    {
        let phase = if assets.len() > 0 {
            Phase::Fetching(0)
        } else {
            Phase::Sleeping
        };
        let r = Poller { assets, phase, pending: Vec::new(), written: Ghost(Seq::empty()) };
        assert(r@.pending =~= Seq::<Seq<char>>::empty());
        r
    }

    /// The phase the poller is in.
    pub fn phase(&self) -> (r: Phase)
        ensures
            r == self@.phase,
    {
        self.phase
    }

    /// Takes the reply to the fetch of the current asset. A price hands out the lines
    /// for it; an error halts the poller and writes nothing.
    pub fn on_reply(&mut self, reply: &Reply) -> (r: Action)
        requires
            old(self).inv(),
            old(self)@.phase is Fetching,
        ensures
            final(self).inv(),
            final(self).assets_view() == old(self).assets_view(),
            old(self)@.phase matches Phase::Fetching(i) && final(self)@ == after_reply(
                old(self).assets_view(),
                old(self)@,
                reply_outcome(old(self).assets_view()[i as int].path, *reply),
            ),
            r@ == step_of(final(self).assets_view(), final(self)@),
    {
        if let Phase::Fetching(i) = self.phase {
            let n: usize = self.assets.len();
            assert(self.assets_view().len() == n);
            let next: usize = i + 1;
            match read_price(&self.assets[i], reply) {
                Ok(price) => {
                    let mut lines: Vec<String> = Vec::new();
                    lines.push(price_line(&self.assets[i].name, &price));
                    if next == n {
                        lines.push(separator_line());
                    }
                    self.pending = lines;
                    self.phase = Phase::Writing(i);
                    assert(self@.pending =~= lines_for(self.assets_view(), i as int, price@));
                },
                Err(e) => {
                    self.pending = Vec::new();
                    self.phase = Phase::Halted(e);
                    assert(self@.pending =~= Seq::<Seq<char>>::empty());
                },
            }
        }
        self.action()
    }

    /// Takes the outcome of writing the pending lines. Success moves on to the next
    /// asset, or to sleep after the last one; failure halts the poller.
    pub fn on_written(&mut self, ok: bool) -> (r: Action)
        requires
            old(self).inv(),
            old(self)@.phase is Writing,
        ensures
            final(self).inv(),
            final(self).assets_view() == old(self).assets_view(),
            final(self)@ == after_write(old(self).assets_view(), old(self)@, ok),
            r@ == step_of(final(self).assets_view(), final(self)@),
    {
        if let Phase::Writing(i) = self.phase {
            let n: usize = self.assets.len();
            assert(self.assets_view().len() == n);
            let next: usize = i + 1;
            if ok {
                self.written = Ghost(self.written@ + self.pending@.map_values(|l: String| l@));
                self.phase = if next < n {
                    Phase::Fetching(next)
                } else {
                    Phase::Sleeping
                };
            } else {
                self.phase = Phase::Halted(PollError::FileError);
            }
            self.pending = Vec::new();
            assert(self@.pending =~= Seq::<Seq<char>>::empty());
        }
        self.action()
    }

    /// Ends the sleep between cycles: the next cycle starts with the first asset.
    pub fn on_woken(&mut self) -> (r: Action)
        requires
            old(self).inv(),
            old(self)@.phase is Sleeping,
        ensures
            final(self).inv(),
            final(self).assets_view() == old(self).assets_view(),
            final(self)@ == after_wake(old(self).assets_view(), old(self)@),
            r@ == step_of(final(self).assets_view(), final(self)@),
    {
        self.phase = if self.assets.len() > 0 {
            Phase::Fetching(0)
        } else {
            Phase::Sleeping
        };
        self.action()
    }

    /// What the poller asks its driver to do now.
    pub fn action(&self) -> (r: Action)
        requires
            self.inv(),
        ensures
            r@ == step_of(self.assets_view(), self@),
    {
        match self.phase {
            Phase::Fetching(i) => Action::Get(self.assets[i].endpoint.clone()),
            Phase::Writing(_) => {
                let mut lines: Vec<String> = Vec::new();
                let mut j: usize = 0;
                while j < self.pending.len()
                    invariant
                        j <= self.pending@.len(),
                        lines@.len() == j,
                        forall|k: int| 0 <= k < j ==> lines@[k]@ == self.pending@[k]@,
                    decreases self.pending@.len() - j,
                {
                    lines.push(self.pending[j].clone());
                    j = j + 1;
                }
                assert(lines@.map_values(|l: String| l@) =~= self.pending@.map_values(
                    |l: String| l@,
                ));
                Action::Append(lines)
            },
            Phase::Sleeping => Action::Sleep(POLL_SECONDS),
            Phase::Halted(e) => Action::Halt(e),
        }
    }
}

} // verus!
