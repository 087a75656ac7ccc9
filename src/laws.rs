use vstd::prelude::*;
use crate::asset::{is_success, line_of, reply_outcome, separator, AssetView, Reply};
use crate::json::{is_unsigned, parsed_numbers, pointer_of, PollError};
use crate::poller::{
    after_reply, after_wake, after_write, step_of, well_formed, Phase, PollerState, Step,
    POLL_SECONDS,
};

verus! {

/// The state reached from `s` when each price of `prices` in turn is fetched and its
/// lines are written.
pub open spec fn run_readings(
    assets: Seq<AssetView>,
    s: PollerState,
    prices: Seq<Seq<char>>,
) -> PollerState
    decreases prices.len(),
{
    if prices.len() == 0 {
        s
    } else {
        run_readings(
            assets,
            after_write(assets, after_reply(assets, s, Ok(prices[0])), true),
            prices.drop_first(),
        )
    }
}

/// The lines of one cycle: one per asset, in list order, then the separator.
pub open spec fn cycle_lines(assets: Seq<AssetView>, prices: Seq<Seq<char>>) -> Seq<Seq<char>> {
    Seq::new(assets.len(), |i: int| line_of(assets[i].name, prices[i])).push(separator())
}

proof fn lemma_rest_of_cycle(
    assets: Seq<AssetView>,
    s: PollerState,
    prices: Seq<Seq<char>>,
    i: usize,
)
    requires
        assets.len() <= usize::MAX,
        i < assets.len(),
        s.phase == Phase::Fetching(i),
        well_formed(assets, s),
        prices.len() == assets.len() - i,
    ensures
        run_readings(assets, s, prices).phase == Phase::Sleeping,
        run_readings(assets, s, prices).pending.len() == 0,
        run_readings(assets, s, prices).written == s.written + Seq::new(
            (assets.len() - i) as nat,
            |j: int| line_of(assets[i + j].name, prices[j]),
        ).push(separator()),
    decreases prices.len(),
{
    let s1 = after_write(assets, after_reply(assets, s, Ok(prices[0])), true);
    let rest = prices.drop_first();
    assert(prices.len() > 0);
    if i + 1 < assets.len() {
        lemma_rest_of_cycle(assets, s1, rest, (i + 1) as usize);
        assert(s1.written =~= s.written + seq![line_of(assets[i as int].name, prices[0])]);
        assert(Seq::new(
            (assets.len() - i) as nat,
            |j: int| line_of(assets[i + j].name, prices[j]),
        ).push(separator()) =~= seq![line_of(assets[i as int].name, prices[0])] + Seq::new(
            (assets.len() - (i + 1)) as nat,
            |j: int| line_of(assets[i + 1 + j].name, rest[j]),
        ).push(separator()));
        assert(run_readings(assets, s, prices) == run_readings(assets, s1, rest));
    } else {
        assert(rest.len() == 0);
        assert(run_readings(assets, s, prices) == run_readings(assets, s1, rest));
        assert(s1.written =~= s.written + Seq::new(
            (assets.len() - i) as nat,
            |j: int| line_of(assets[i + j].name, prices[j]),
        ).push(separator()));
    }
}

/// A cycle in which every fetch and every write succeeds adds exactly the cycle's
/// lines to the log, one per asset in list order and then the separator, and ends
/// asleep for the poll interval.
pub proof fn one_cycle_appends_its_lines(
    assets: Seq<AssetView>,
    s: PollerState,
    prices: Seq<Seq<char>>,
)
    requires
        0 < assets.len() <= usize::MAX,
        s.phase == Phase::Fetching(0),
        well_formed(assets, s),
        prices.len() == assets.len(),
    ensures
        run_readings(assets, s, prices).written == s.written + cycle_lines(assets, prices),
        run_readings(assets, s, prices).phase == Phase::Sleeping,
        run_readings(assets, s, prices).pending.len() == 0,
        step_of(assets, run_readings(assets, s, prices)) == Step::Sleep(POLL_SECONDS as nat),
{
    lemma_rest_of_cycle(assets, s, prices, 0);
    assert(Seq::new((assets.len() - 0) as nat, |j: int| line_of(assets[0 + j].name, prices[j]))
        =~= Seq::new(assets.len(), |i: int| line_of(assets[i].name, prices[i])));
}

/// Two successful cycles with a sleep between them add both cycles' lines, one after
/// the other: nothing earlier is dropped, rewritten or merged.
pub proof fn two_cycles_append_both(
    assets: Seq<AssetView>,
    s: PollerState,
    first: Seq<Seq<char>>,
    second: Seq<Seq<char>>,
)
    requires
        0 < assets.len() <= usize::MAX,
        s.phase == Phase::Fetching(0),
        well_formed(assets, s),
        first.len() == assets.len(),
        second.len() == assets.len(),
    ensures
        run_readings(assets, after_wake(assets, run_readings(assets, s, first)), second).written
            == s.written + cycle_lines(assets, first) + cycle_lines(assets, second),
        run_readings(
            assets,
            after_wake(assets, run_readings(assets, s, first)),
            second,
        ).written.len() == s.written.len() + 2 * (assets.len() + 1),
{
    one_cycle_appends_its_lines(assets, s, first);
    let mid = after_wake(assets, run_readings(assets, s, first));
    one_cycle_appends_its_lines(assets, mid, second);
    assert(s.written + cycle_lines(assets, first) + cycle_lines(assets, second) =~= mid.written
        + cycle_lines(assets, second));
}

/// Every transition keeps the log written so far as it is, and at most adds lines
/// after it.
pub proof fn transitions_only_append(
    assets: Seq<AssetView>,
    s: PollerState,
    outcome: Result<Seq<char>, PollError>,
    ok: bool,
)
    requires
        well_formed(assets, s),
    ensures
        after_reply(assets, s, outcome).written == s.written,
        after_wake(assets, s).written == s.written,
        after_write(assets, s, ok).written.len() >= s.written.len(),
        after_write(assets, s, ok).written.take(s.written.len() as int) == s.written,
{
    assert(after_write(assets, s, ok).written.take(s.written.len() as int) =~= s.written);
}

/// A fetch that fails halts the poller with its error and adds no line: a status
/// outside 2xx (or no answer) gives `NetworkError`, a body without a number at the
/// asset's path, or with a negative one there, gives `ParseError`.
pub proof fn failed_fetch_writes_nothing(assets: Seq<AssetView>, s: PollerState, reply: Reply)
    requires
        well_formed(assets, s),
        s.phase is Fetching,
    ensures
        ({
            let i = s.phase->Fetching_0 as int;
            let outcome = reply_outcome(assets[i].path, reply);
            let next = after_reply(assets, s, outcome);
            &&& (reply matches Reply::Answered { status, body } && !is_success(status)) ==> outcome
                == Err::<Seq<char>, PollError>(PollError::NetworkError)
            &&& reply is Unreachable ==> outcome == Err::<Seq<char>, PollError>(
                PollError::NetworkError,
            )
            &&& (reply matches Reply::Answered { status, body } && is_success(status) && (
            parsed_numbers(body@) is None || !parsed_numbers(body@)->Some_0.contains_key(
                pointer_of(assets[i].path),
            ) || !is_unsigned(parsed_numbers(body@)->Some_0[pointer_of(assets[i].path)])))
                ==> outcome == Err::<Seq<char>, PollError>(PollError::ParseError)
            &&& outcome matches Err(e) ==> next.phase == Phase::Halted(e) && next.written
                == s.written && next.pending.len() == 0 && step_of(assets, next) == Step::Halt(e)
        }),
{
}

/// The poller never stops of its own accord: from any state that is not halted, a
/// successful fetch, a successful write or the end of a sleep leads to a state that is
/// not halted, a full cycle ends in a sleep of the fixed interval, and waking from it
/// starts the next cycle at the first asset.
pub proof fn runs_until_an_error(assets: Seq<AssetView>, s: PollerState, price: Seq<char>)
    requires
        well_formed(assets, s),
        !(s.phase is Halted),
    ensures
        !(after_reply(assets, s, Ok(price)).phase is Halted),
        !(after_write(assets, s, true).phase is Halted),
        !(after_wake(assets, s).phase is Halted),
        well_formed(assets, after_reply(assets, s, Ok(price))),
        well_formed(assets, after_write(assets, s, true)),
        well_formed(assets, after_wake(assets, s)),
        s.phase is Sleeping ==> step_of(assets, s) == Step::Sleep(POLL_SECONDS as nat),
        s.phase is Sleeping && assets.len() > 0 ==> after_wake(assets, s).phase == Phase::Fetching(
            0,
        ),
        POLL_SECONDS == 10,
{
}

} // verus!
