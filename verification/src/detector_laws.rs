//! What holds of every run of a detector.
use crate::detector::{
    from_first_new, shard_ids, DetectorAction, DetectorActionView, DetectorEvent, DetectorPhaseView,
    DetectorView,
};
use vstd::multiset::Multiset;
use vstd::prelude::*;

verus! {

impl DetectorView {
    /// The state after the events, one after the other.
    pub open spec fn after(self, events: Seq<DetectorEvent>) -> DetectorView
        decreases events.len(),
    {
        if events.len() == 0 {
            self
        } else {
            self.after(events.drop_last()).step(events.last()).0
        }
    }

    /// Whether each event answers what the detector had asked before it.
    pub open spec fn fits(self, events: Seq<DetectorEvent>) -> bool
        decreases events.len(),
    {
        events.len() == 0 || (self.fits(events.drop_last()) && self.after(
            events.drop_last(),
        ).accepts(events.last()))
    }

    /// What the detector asks for after event `i`.
    pub open spec fn action_at(self, events: Seq<DetectorEvent>, i: int) -> DetectorActionView {
        self.after(events.take(i)).step(events[i]).1
    }

    /// Whether the answer to a shard on its way comes with event `i`.
    pub open spec fn answered_at(
        self,
        events: Seq<DetectorEvent>,
        i: int,
        shard: Seq<char>,
    ) -> bool {
        &&& 0 <= i < events.len()
        &&& events[i] is Sent
        &&& self.after(events.take(i)).phase matches DetectorPhaseView::Sending { rest }
        &&& rest[0] == shard
    }

    /// Whether the receive loop takes the shard with event `i`.
    pub open spec fn handed_out_at(
        self,
        events: Seq<DetectorEvent>,
        i: int,
        shard: Seq<char>,
    ) -> bool {
        self.answered_at(events, i, shard) && events[i]->Sent_0 is Ok
    }
}

/// Whether the shard is reported as finished with event `i`.
pub open spec fn finished_at(events: Seq<DetectorEvent>, i: int, shard: Seq<char>) -> bool {
    &&& 0 <= i < events.len()
    &&& events[i] matches DetectorEvent::Finished(Some(finished))
    &&& finished@ == shard
}

/// Whether the shard was handed out with event `i` and has not finished since.
pub open spec fn runs_since(
    start: DetectorView,
    events: Seq<DetectorEvent>,
    i: int,
    shard: Seq<char>,
) -> bool {
    &&& start.handed_out_at(events, i, shard)
    &&& forall|k: int| i < k < events.len() ==> !#[trigger] finished_at(events, k, shard)
}

proof fn lemma_from_first_new(running: Set<Seq<char>>, listed: Seq<Seq<char>>)
    ensures
        ({
            let rest = from_first_new(running, listed);
            &&& rest.len() <= listed.len()
            &&& rest.len() > 0 ==> !running.contains(rest[0])
            &&& forall|shard: Seq<char>| #[trigger]
                listed.contains(shard) ==> running.contains(shard) || rest.contains(shard)
            &&& forall|shard: Seq<char>| #[trigger] rest.contains(shard) ==> listed.contains(shard)
        }),
    decreases listed.len(),
{
    if listed.len() > 0 && running.contains(listed[0]) {
        let tail = listed.drop_first();
        lemma_from_first_new(running, tail);
        assert forall|shard: Seq<char>| #[trigger] listed.contains(shard) implies running.contains(
            shard,
        ) || from_first_new(running, listed).contains(shard) by {
            let i = choose|i: int| 0 <= i < listed.len() && listed[i] == shard;
            if i > 0 {
                assert(tail[i - 1] == shard);
                assert(tail.contains(shard));
            }
        }
        assert forall|shard: Seq<char>| #[trigger]
            from_first_new(running, listed).contains(shard) implies listed.contains(shard) by {
            assert(tail.contains(shard));
            let i = choose|i: int| 0 <= i < tail.len() && tail[i] == shard;
            assert(listed[i + 1] == shard);
        }
    }
}

proof fn lemma_prefix(start: DetectorView, events: Seq<DetectorEvent>, i: int)
    requires
        0 <= i < events.len(),
    ensures
        start.after(events.take(i + 1)) == start.after(events.take(i)).step(events[i]).0,
        start.fits(events.take(i + 1)) == (start.fits(events.take(i)) && start.after(
            events.take(i),
        ).accepts(events[i])),
{
    assert(events.take(i + 1).drop_last() =~= events.take(i));
}

proof fn lemma_fits_prefix(start: DetectorView, events: Seq<DetectorEvent>, i: int)
    requires
        start.fits(events),
        0 <= i <= events.len(),
    ensures
        start.fits(events.take(i)),
        i < events.len() ==> start.after(events.take(i)).accepts(events[i]),
    decreases events.len() - i,
{
    if i == events.len() {
        assert(events.take(i) =~= events);
    } else {
        lemma_fits_prefix(start, events, i + 1);
        lemma_prefix(start, events, i);
    }
}

/// Every step keeps a detector well-formed: what it hands out is not running.
pub proof fn law_step_keeps_well_formed(detector: DetectorView, event: DetectorEvent)
    requires
        detector.well_formed(),
        detector.accepts(event),
    ensures
        detector.step(event).0.well_formed(),
        detector.step(event).1 matches DetectorActionView::SendShard { shard_id }
            ==> !detector.step(event).0.running_shards.contains(shard_id),
{
    match event {
        DetectorEvent::Listed(Ok(Some(shards))) => {
            lemma_from_first_new(detector.running_shards, shard_ids(shards@));
        },
        DetectorEvent::Sent(sent) => {
            let rest = detector.phase->rest;
            lemma_from_first_new(detector.running_shards, rest.drop_first());
            lemma_from_first_new(detector.running_shards.insert(rest[0]), rest.drop_first());
        },
        _ => {},
    }
}

proof fn lemma_run_well_formed(start: DetectorView, events: Seq<DetectorEvent>)
    requires
        start.well_formed(),
        start.fits(events),
    ensures
        start.after(events).well_formed(),
    decreases events.len(),
{
    if events.len() > 0 {
        lemma_run_well_formed(start, events.drop_last());
        law_step_keeps_well_formed(start.after(events.drop_last()), events.last());
    }
}

/// A detector never comes to an end: in every state some event answers what it
/// asked last.
pub proof fn law_detector_always_goes_on(detector: DetectorView)
    ensures
        exists|event: DetectorEvent| detector.accepts(event),
{
    let answer = match detector.phase {
        DetectorPhaseView::Created => DetectorEvent::Started,
        DetectorPhaseView::Checking => DetectorEvent::NoneFinished,
        DetectorPhaseView::Listing => DetectorEvent::Listed(Ok(None)),
        DetectorPhaseView::Sending { rest } => DetectorEvent::Sent(Ok(())),
        DetectorPhaseView::Waiting => DetectorEvent::Waited,
    };
    assert(detector.accepts(answer));
}

/// What a detector was made for never changes.
pub proof fn law_settings_are_kept(detector: DetectorView, event: DetectorEvent)
    ensures
        detector.step(event).0.component_id == detector.component_id,
        detector.step(event).0.stream_arn == detector.stream_arn,
        detector.step(event).0.detector_poll_millis == detector.detector_poll_millis,
{
}

/// Only two events change which shards are running: a finished shard leaves,
/// and a shard that the receive loop took joins.
pub proof fn law_running_shards_change(detector: DetectorView, event: DetectorEvent)
    ensures
        detector.step(event).0.running_shards == match event {
            DetectorEvent::Finished(Some(shard)) => detector.running_shards.remove(shard@),
            DetectorEvent::Sent(Ok(_)) => detector.running_shards.insert(detector.phase->rest[0]),
            _ => detector.running_shards,
        },
{
}

/// In every run of a new detector, the running shards are exactly those that
/// were handed out and have not finished since.
pub proof fn law_running_shards_are_those_handed_out(
    start: DetectorView,
    events: Seq<DetectorEvent>,
    shard: Seq<char>,
)
    requires
        start.phase is Created,
        start.running_shards == Set::<Seq<char>>::empty(),
        start.fits(events),
    ensures
        start.after(events).running_shards.contains(shard) <==> exists|i: int|
            runs_since(start, events, i, shard),
    decreases events.len(),
{
    if events.len() == 0 {
        assert forall|i: int| !runs_since(start, events, i, shard) by {}
    } else {
        let n = events.len() - 1;
        let before = events.drop_last();
        law_running_shards_are_those_handed_out(start, before, shard);
        law_running_shards_change(start.after(before), events.last());
        assert(events.take(n) =~= before);
        assert forall|i: int| 0 <= i < n implies #[trigger] start.handed_out_at(before, i, shard)
            == start.handed_out_at(events, i, shard) by {
            assert(before.take(i) =~= events.take(i));
        }
        assert forall|k: int| 0 <= k < n implies #[trigger] finished_at(before, k, shard)
            == finished_at(events, k, shard) by {}
        if start.after(events).running_shards.contains(shard) {
            if start.handed_out_at(events, n, shard) {
                assert(runs_since(start, events, n, shard));
            } else {
                assert(start.after(before).running_shards.contains(shard));
                let i = choose|i: int| runs_since(start, before, i, shard);
                assert(start.handed_out_at(before, i, shard));
                assert(start.handed_out_at(events, i, shard));
                assert(!finished_at(events, n, shard));
                assert forall|k: int| i < k < events.len() implies !#[trigger] finished_at(
                    events,
                    k,
                    shard,
                ) by {
                    if k < n {
                        assert(!finished_at(before, k, shard));
                    }
                }
                assert(runs_since(start, events, i, shard));
            }
        }
        if exists|i: int| runs_since(start, events, i, shard) {
            let i = choose|i: int| runs_since(start, events, i, shard);
            assert(start.handed_out_at(events, i, shard));
            if i < n {
                assert(start.handed_out_at(before, i, shard));
                assert forall|k: int| i < k < before.len() implies !#[trigger] finished_at(
                    before,
                    k,
                    shard,
                ) by {
                    assert(!finished_at(events, k, shard));
                }
                assert(runs_since(start, before, i, shard));
                assert(!finished_at(events, n, shard));
            }
        }
    }
}

/// A shard is never handed out twice without being reported as finished in
/// between.
pub proof fn law_no_shard_is_handed_out_twice(
    start: DetectorView,
    events: Seq<DetectorEvent>,
    shard: Seq<char>,
    first: int,
    second: int,
)
    requires
        start.phase is Created,
        start.running_shards == Set::<Seq<char>>::empty(),
        start.fits(events),
        first < second,
        start.handed_out_at(events, first, shard),
        start.handed_out_at(events, second, shard),
    ensures
        exists|k: int| first < k < second && finished_at(events, k, shard),
{
    let before = events.take(second);
    lemma_fits_prefix(start, events, second);
    lemma_run_well_formed(start, before);
    assert(!start.after(before).running_shards.contains(shard));
    law_running_shards_are_those_handed_out(start, before, shard);
    assert(before.take(first) =~= events.take(first));
    assert(start.handed_out_at(before, first, shard));
    assert(!runs_since(start, before, first, shard));
    let k = choose|k: int| first < k < before.len() && finished_at(before, k, shard);
    assert(finished_at(events, k, shard));
}

/// The shards with a processor that has not been reported as finished: each
/// shard once for every such processor. One starts when a shard is handed out.
pub open spec fn followed(start: DetectorView, events: Seq<DetectorEvent>) -> Multiset<Seq<char>>
    decreases events.len(),
{
    if events.len() == 0 {
        Multiset::empty()
    } else {
        let before = followed(start, events.drop_last());
        match events.last() {
            DetectorEvent::Sent(Ok(_)) => before.insert(
                start.after(events.drop_last()).phase->rest[0],
            ),
            DetectorEvent::Finished(Some(shard)) => before.remove(shard@),
            _ => before,
        }
    }
}

/// In every run of a new detector, a shard has one processor while it is running
/// and none otherwise: no two processors ever follow one shard.
pub proof fn law_one_processor_per_shard(
    start: DetectorView,
    events: Seq<DetectorEvent>,
    shard: Seq<char>,
)
    requires
        start.phase is Created,
        start.running_shards == Set::<Seq<char>>::empty(),
        start.fits(events),
    ensures
        followed(start, events).count(shard) == if start.after(events).running_shards.contains(
            shard,
        ) {
            1nat
        } else {
            0nat
        },
    decreases events.len(),
{
    if events.len() > 0 {
        let before = events.drop_last();
        law_one_processor_per_shard(start, before, shard);
        lemma_run_well_formed(start, before);
        law_running_shards_change(start.after(before), events.last());
    }
}

/// The shards that a round of handing out has not come past.
spec fn still_to_send(detector: DetectorView) -> Seq<Seq<char>> {
    match detector.phase {
        DetectorPhaseView::Sending { rest } => rest,
        _ => Seq::empty(),
    }
}

/// What one round of handing out does, up to where it has come.
spec fn round_so_far(
    detector: DetectorView,
    listed: Seq<Seq<char>>,
    answers: Seq<DetectorEvent>,
) -> bool {
    let round = detector.send_from(listed).0;
    let now = round.after(answers);
    let rest = still_to_send(now);
    &&& now.phase is Sending ==> rest.len() > 0
    &&& answers.len() + rest.len() <= listed.len()
    &&& now.phase is Sending || now.phase is Waiting
    &&& forall|shard: Seq<char>| #[trigger]
        listed.contains(shard) ==> now.running_shards.contains(shard) || rest.contains(shard)
            || exists|i: int| refused_at(round, answers, i, shard)
    &&& forall|shard: Seq<char>| #[trigger] rest.contains(shard) ==> listed.contains(shard)
    &&& forall|shard: Seq<char>| #[trigger]
        now.running_shards.contains(shard) ==> detector.running_shards.contains(shard)
            || listed.contains(shard)
    &&& detector.running_shards.subset_of(now.running_shards)
}

/// Whether the receive loop refuses the shard with event `i`.
pub open spec fn refused_at(
    start: DetectorView,
    events: Seq<DetectorEvent>,
    i: int,
    shard: Seq<char>,
) -> bool {
    start.answered_at(events, i, shard) && events[i]->Sent_0 is Err
}

proof fn lemma_round_so_far(
    detector: DetectorView,
    listed: Seq<Seq<char>>,
    answers: Seq<DetectorEvent>,
)
    requires
        forall|i: int| 0 <= i < answers.len() ==> #[trigger] answers[i] is Sent,
        detector.send_from(listed).0.fits(answers),
    ensures
        round_so_far(detector, listed, answers),
    decreases answers.len(),
{
    let round = detector.send_from(listed).0;
    lemma_from_first_new(detector.running_shards, listed);
    if answers.len() > 0 {
        let n = answers.len() - 1;
        let before = answers.drop_last();
        assert forall|i: int| 0 <= i < before.len() implies #[trigger] before[i] is Sent by {
            assert(answers[i] is Sent);
        }
        lemma_round_so_far(detector, listed, before);
        let then = round.after(before);
        assert(answers[n] is Sent);
        assert(then.accepts(answers[n]));
        assert(answers.take(n) =~= before);
        let sent = then.phase->rest[0];
        let tail = then.phase->rest.drop_first();
        let running = if answers[n]->Sent_0 is Ok {
            then.running_shards.insert(sent)
        } else {
            then.running_shards
        };
        lemma_from_first_new(running, tail);
        let now = round.after(answers);
        let rest = from_first_new(running, tail);
        assert(still_to_send(then) == then.phase->rest);
        assert(still_to_send(now) == rest);
        assert(now.running_shards == running);
        assert(then.phase->rest.contains(sent));
        assert forall|shard: Seq<char>| #[trigger]
            tail.contains(shard) implies then.phase->rest.contains(shard) by {
            let i = choose|i: int| 0 <= i < tail.len() && tail[i] == shard;
            assert(then.phase->rest[i + 1] == shard);
        }
        assert forall|shard: Seq<char>| #[trigger] listed.contains(shard) implies running.contains(
            shard,
        ) || rest.contains(shard) || exists|i: int| refused_at(round, answers, i, shard) by {
            if then.running_shards.contains(shard) {
            } else if then.phase->rest.contains(shard) {
                let i = choose|i: int|
                    0 <= i < then.phase->rest.len() && then.phase->rest[i] == shard;
                if i == 0 {
                    if answers[n]->Sent_0 is Err {
                        assert(refused_at(round, answers, n, shard));
                    }
                } else {
                    assert(tail[i - 1] == shard);
                    assert(tail.contains(shard));
                }
            } else {
                let i = choose|i: int| refused_at(round, before, i, shard);
                assert(before.take(i) =~= answers.take(i));
                assert(refused_at(round, answers, i, shard));
            }
        }
    }
}

/// A round of handing out covers the whole list: when the detector goes to
/// sleep after it, every listed shard is running, except one that the receive
/// loop refused; no running shard was lost, and nothing else was started. The
/// round takes no more answers than shards were listed.
pub proof fn law_every_listed_shard_is_followed(
    detector: DetectorView,
    listed: Seq<Seq<char>>,
    answers: Seq<DetectorEvent>,
)
    requires
        forall|i: int| 0 <= i < answers.len() ==> #[trigger] answers[i] is Sent,
        detector.send_from(listed).0.fits(answers),
        detector.send_from(listed).0.after(answers).phase is Waiting,
    ensures
        answers.len() <= listed.len(),
        forall|shard: Seq<char>| #[trigger]
            listed.contains(shard) ==> detector.send_from(listed).0.after(
                answers,
            ).running_shards.contains(shard) || exists|i: int|
                refused_at(detector.send_from(listed).0, answers, i, shard),
        detector.running_shards.subset_of(
            detector.send_from(listed).0.after(answers).running_shards,
        ),
        forall|shard: Seq<char>| #[trigger]
            detector.send_from(listed).0.after(answers).running_shards.contains(shard)
                ==> detector.running_shards.contains(shard) || listed.contains(shard),
{
    lemma_round_so_far(detector, listed, answers);
}

proof fn lemma_started_in_run(start: DetectorView, events: Seq<DetectorEvent>, shard: Seq<char>)
    requires
        start.fits(events),
        !start.running_shards.contains(shard),
        start.after(events).running_shards.contains(shard),
    ensures
        exists|i: int| start.handed_out_at(events, i, shard),
    decreases events.len(),
{
    if events.len() > 0 {
        let n = events.len() - 1;
        let before = events.drop_last();
        assert(events.take(n) =~= before);
        if start.after(before).running_shards.contains(shard) {
            lemma_started_in_run(start, before, shard);
            let i = choose|i: int| start.handed_out_at(before, i, shard);
            assert(before.take(i) =~= events.take(i));
            assert(start.handed_out_at(events, i, shard));
        } else {
            assert(start.handed_out_at(events, n, shard));
        }
    }
}

/// A listed shard that is not running, be it new or finished, is offered to the
/// receive loop before the detector goes to sleep.
pub proof fn law_listed_shard_without_processor_is_offered(
    detector: DetectorView,
    listed: Seq<Seq<char>>,
    answers: Seq<DetectorEvent>,
    shard: Seq<char>,
)
    requires
        forall|i: int| 0 <= i < answers.len() ==> #[trigger] answers[i] is Sent,
        detector.send_from(listed).0.fits(answers),
        detector.send_from(listed).0.after(answers).phase is Waiting,
        listed.contains(shard),
        !detector.running_shards.contains(shard),
    ensures
        exists|i: int| detector.send_from(listed).0.answered_at(answers, i, shard),
{
    let round = detector.send_from(listed).0;
    law_every_listed_shard_is_followed(detector, listed, answers);
    if round.after(answers).running_shards.contains(shard) {
        lemma_started_in_run(round, answers, shard);
        let i = choose|i: int| round.handed_out_at(answers, i, shard);
        assert(round.answered_at(answers, i, shard));
    } else {
        let i = choose|i: int| refused_at(round, answers, i, shard);
        assert(round.answered_at(answers, i, shard));
    }
}

/// The listed shards that are not running, each one where it is listed first.
pub open spec fn new_shards(running: Set<Seq<char>>, listed: Seq<Seq<char>>) -> Seq<Seq<char>>
    decreases listed.len(),
{
    if listed.len() == 0 {
        Seq::empty()
    } else if running.contains(listed[0]) {
        new_shards(running, listed.drop_first())
    } else {
        seq![listed[0]] + new_shards(running.insert(listed[0]), listed.drop_first())
    }
}

/// The shards that the events answer, in order.
pub open spec fn answered(start: DetectorView, events: Seq<DetectorEvent>) -> Seq<Seq<char>> {
    Seq::new(events.len(), |i: int| start.after(events.take(i)).phase->rest[0])
}

proof fn lemma_new_shards(running: Set<Seq<char>>, listed: Seq<Seq<char>>)
    ensures
        new_shards(running, from_first_new(running, listed)) == new_shards(running, listed),
    decreases listed.len(),
{
    if listed.len() > 0 && running.contains(listed[0]) {
        lemma_new_shards(running, listed.drop_first());
    }
}

proof fn lemma_round_order(
    detector: DetectorView,
    listed: Seq<Seq<char>>,
    answers: Seq<DetectorEvent>,
)
    requires
        forall|i: int| 0 <= i < answers.len() ==> (#[trigger] answers[i]) is Sent,
        forall|i: int| 0 <= i < answers.len() ==> (#[trigger] answers[i])->Sent_0 is Ok,
        detector.send_from(listed).0.fits(answers),
    ensures
        ({
            let round = detector.send_from(listed).0;
            let now = round.after(answers);
            answered(round, answers) + new_shards(now.running_shards, still_to_send(now))
                == new_shards(detector.running_shards, listed)
        }),
    decreases answers.len(),
{
    let round = detector.send_from(listed).0;
    lemma_new_shards(detector.running_shards, listed);
    lemma_from_first_new(detector.running_shards, listed);
    if answers.len() == 0 {
        assert(answered(round, answers) =~= Seq::empty());
        assert(still_to_send(round) == from_first_new(detector.running_shards, listed));
        assert(Seq::empty() + new_shards(round.running_shards, still_to_send(round)) =~= new_shards(
            round.running_shards,
            still_to_send(round),
        ));
    } else {
        let n = answers.len() - 1;
        let before = answers.drop_last();
        assert forall|i: int| 0 <= i < before.len() implies (#[trigger] before[i]) is Sent
            && before[i]->Sent_0 is Ok by {
            assert(answers[i] is Sent);
        }
        lemma_round_order(detector, listed, before);
        lemma_round_so_far(detector, listed, before);
        let then = round.after(before);
        assert(answers[n] is Sent && answers[n]->Sent_0 is Ok);
        assert(then.accepts(answers[n]));
        let rest = then.phase->rest;
        let running = then.running_shards.insert(rest[0]);
        lemma_pending_shard_is_new(detector, listed, before);
        lemma_new_shards(running, rest.drop_first());
        let now = round.after(answers);
        assert(now.running_shards == running);
        assert(still_to_send(then) == rest);
        assert(still_to_send(now) =~= from_first_new(running, rest.drop_first()));
        assert(new_shards(then.running_shards, rest) == seq![rest[0]] + new_shards(
            running,
            rest.drop_first(),
        ));
        assert(answers.take(n) =~= before);
        assert forall|i: int| 0 <= i < n implies before.take(i) == answers.take(i) by {
            assert(before.take(i) =~= answers.take(i));
        }
        assert(answered(round, answers) =~= answered(round, before) + seq![rest[0]]);
        assert(answered(round, before) + (seq![rest[0]] + new_shards(running, rest.drop_first()))
            =~= answered(round, before) + seq![rest[0]] + new_shards(running, rest.drop_first()));
    }
}

proof fn lemma_pending_shard_is_new(
    detector: DetectorView,
    listed: Seq<Seq<char>>,
    answers: Seq<DetectorEvent>,
)
    requires
        detector.send_from(listed).0.fits(answers),
    ensures
        detector.send_from(listed).0.after(answers).well_formed(),
{
    lemma_from_first_new(detector.running_shards, listed);
    lemma_run_well_formed(detector.send_from(listed).0, answers);
}

/// Where the receive loop takes every shard, a round hands out the listed
/// shards that are not running, once each and in the order of the list.
pub proof fn law_new_shards_are_handed_out_in_order(
    detector: DetectorView,
    listed: Seq<Seq<char>>,
    answers: Seq<DetectorEvent>,
)
    requires
        forall|i: int| 0 <= i < answers.len() ==> (#[trigger] answers[i]) is Sent,
        forall|i: int| 0 <= i < answers.len() ==> (#[trigger] answers[i])->Sent_0 is Ok,
        detector.send_from(listed).0.fits(answers),
        detector.send_from(listed).0.after(answers).phase is Waiting,
    ensures
        answered(detector.send_from(listed).0, answers) == new_shards(
            detector.running_shards,
            listed,
        ),
{
    let round = detector.send_from(listed).0;
    lemma_round_order(detector, listed, answers);
    assert(answered(round, answers) + Seq::empty() =~= answered(round, answers));
}

/// The listed shards that are not running, in the order of the list.
pub open spec fn without_running(running: Set<Seq<char>>, listed: Seq<Seq<char>>) -> Seq<Seq<char>>
    decreases listed.len(),
{
    if listed.len() == 0 {
        Seq::empty()
    } else if running.contains(listed[0]) {
        without_running(running, listed.drop_first())
    } else {
        seq![listed[0]] + without_running(running, listed.drop_first())
    }
}

proof fn lemma_without_running(
    running: Set<Seq<char>>,
    now: Set<Seq<char>>,
    listed: Seq<Seq<char>>,
)
    requires
        listed.no_duplicates(),
        forall|shard: Seq<char>| #[trigger]
            listed.contains(shard) ==> (running.contains(shard) <==> now.contains(shard)),
    ensures
        without_running(running, from_first_new(now, listed)) == without_running(running, listed),
        from_first_new(now, listed).no_duplicates(),
    decreases listed.len(),
{
    if listed.len() > 0 && now.contains(listed[0]) {
        let tail = listed.drop_first();
        assert(listed.contains(listed[0]));
        assert forall|shard: Seq<char>| #[trigger] tail.contains(shard) implies (running.contains(
            shard,
        ) <==> now.contains(shard)) by {
            let i = choose|i: int| 0 <= i < tail.len() && tail[i] == shard;
            assert(listed[i + 1] == shard);
            assert(listed.contains(shard));
        }
        lemma_without_running(running, now, tail);
    }
}

proof fn lemma_distinct_round_order(
    detector: DetectorView,
    listed: Seq<Seq<char>>,
    answers: Seq<DetectorEvent>,
)
    requires
        listed.no_duplicates(),
        forall|i: int| 0 <= i < answers.len() ==> (#[trigger] answers[i]) is Sent,
        detector.send_from(listed).0.fits(answers),
    ensures
        ({
            let round = detector.send_from(listed).0;
            let now = round.after(answers);
            let rest = still_to_send(now);
            &&& rest.no_duplicates()
            &&& forall|shard: Seq<char>| #[trigger]
                rest.contains(shard) ==> (detector.running_shards.contains(shard)
                    <==> now.running_shards.contains(shard))
            &&& answered(round, answers) + without_running(detector.running_shards, rest)
                == without_running(detector.running_shards, listed)
        }),
    decreases answers.len(),
{
    let round = detector.send_from(listed).0;
    let running = detector.running_shards;
    lemma_without_running(running, running, listed);
    lemma_from_first_new(running, listed);
    if answers.len() == 0 {
        let rest = still_to_send(round);
        assert(rest =~= from_first_new(running, listed));
        assert(answered(round, answers) + without_running(running, rest) =~= without_running(
            running,
            rest,
        ));
    } else {
        let n = answers.len() - 1;
        let before = answers.drop_last();
        assert forall|i: int| 0 <= i < before.len() implies (#[trigger] before[i]) is Sent by {
            assert(answers[i] is Sent);
        }
        lemma_distinct_round_order(detector, listed, before);
        lemma_round_so_far(detector, listed, before);
        lemma_pending_shard_is_new(detector, listed, before);
        let then = round.after(before);
        let now = round.after(answers);
        assert(answers[n] is Sent);
        assert(then.accepts(answers[n]));
        let rest = then.phase->rest;
        let tail = rest.drop_first();
        assert(still_to_send(then) == rest);
        assert(rest.contains(rest[0]));
        assert forall|shard: Seq<char>| #[trigger] tail.contains(shard) implies (running.contains(
            shard,
        ) <==> now.running_shards.contains(shard)) by {
            let i = choose|i: int| 0 <= i < tail.len() && tail[i] == shard;
            assert(rest[i + 1] == shard);
            assert(rest.contains(shard));
            assert(shard != rest[0]);
        }
        lemma_without_running(running, now.running_shards, tail);
        lemma_from_first_new(now.running_shards, tail);
        assert(still_to_send(now) =~= from_first_new(now.running_shards, tail));
        assert(without_running(running, rest) == seq![rest[0]] + without_running(running, tail));
        assert(answers.take(n) =~= before);
        assert forall|i: int| 0 <= i < n implies before.take(i) == answers.take(i) by {
            assert(before.take(i) =~= answers.take(i));
        }
        assert(answered(round, answers) =~= answered(round, before) + seq![rest[0]]);
        assert(answered(round, before) + (seq![rest[0]] + without_running(running, tail))
            =~= answered(round, before) + seq![rest[0]] + without_running(running, tail));
    }
}

/// Where no shard is listed twice, a round offers the listed shards that are not
/// running, once each and in the order of the list, whether the receive loop
/// takes them or not.
pub proof fn law_distinct_shards_are_offered_in_order(
    detector: DetectorView,
    listed: Seq<Seq<char>>,
    answers: Seq<DetectorEvent>,
)
    requires
        listed.no_duplicates(),
        forall|i: int| 0 <= i < answers.len() ==> (#[trigger] answers[i]) is Sent,
        detector.send_from(listed).0.fits(answers),
        detector.send_from(listed).0.after(answers).phase is Waiting,
    ensures
        answered(detector.send_from(listed).0, answers) == without_running(
            detector.running_shards,
            listed,
        ),
{
    let round = detector.send_from(listed).0;
    lemma_distinct_round_order(detector, listed, answers);
    assert(answered(round, answers) + Seq::empty() =~= answered(round, answers));
}

/// The ids of listed shards are those that the list holds: all of them, in order.
pub proof fn law_ids_are_those_listed(shards: Seq<String>, i: int)
    requires
        0 <= i < shards.len(),
    ensures
        shard_ids(shards).len() == shards.len(),
        shard_ids(shards)[i] == shards[i]@,
{
}

/// When the detector goes to sleep after a listing, every shard on the list, at
/// whatever place, is running, except one that the receive loop refused.
pub proof fn law_listing_reaches_every_shard(
    detector: DetectorView,
    shards: Vec<String>,
    answers: Seq<DetectorEvent>,
    i: int,
)
    requires
        detector.phase is Listing,
        forall|k: int| 0 <= k < answers.len() ==> #[trigger] answers[k] is Sent,
        detector.step(DetectorEvent::Listed(Ok(Some(shards)))).0.fits(answers),
        detector.step(DetectorEvent::Listed(Ok(Some(shards)))).0.after(answers).phase is Waiting,
        0 <= i < shards@.len(),
    ensures
        ({
            let round = detector.step(DetectorEvent::Listed(Ok(Some(shards)))).0;
            ||| round.after(answers).running_shards.contains(shards@[i]@)
            ||| exists|k: int| refused_at(round, answers, k, shards@[i]@)
        }),
{
    let listed = shard_ids(shards@);
    law_every_listed_shard_is_followed(detector, listed, answers);
    assert(listed[i] == shards@[i]@);
    assert(listed.contains(shards@[i]@));
}

/// A listing stops no shard that was running, and starts none that is not on the
/// list; and it takes no more answers than there are shards on the list.
pub proof fn law_listing_touches_no_other_shard(
    detector: DetectorView,
    shards: Vec<String>,
    answers: Seq<DetectorEvent>,
    shard: Seq<char>,
)
    requires
        detector.phase is Listing,
        forall|k: int| 0 <= k < answers.len() ==> #[trigger] answers[k] is Sent,
        detector.step(DetectorEvent::Listed(Ok(Some(shards)))).0.fits(answers),
    ensures
        answers.len() <= shards@.len(),
        ({
            let running = detector.step(DetectorEvent::Listed(Ok(Some(shards)))).0.after(
                answers,
            ).running_shards;
            &&& detector.running_shards.contains(shard) ==> running.contains(shard)
            &&& running.contains(shard) ==> detector.running_shards.contains(shard) || exists|i: int|
                0 <= i < shards@.len() && (#[trigger] shards@[i])@ == shard
        }),
{
    let listed = shard_ids(shards@);
    lemma_round_so_far(detector, listed, answers);
    if listed.contains(shard) {
        let i = choose|i: int| 0 <= i < listed.len() && listed[i] == shard;
        assert(shards@[i]@ == shard);
    }
}

proof fn lemma_without_running_is_filter(
    running: Set<Seq<char>>,
    listed: Seq<Seq<char>>,
    is_new: spec_fn(Seq<char>) -> bool,
)
    requires
        forall|shard: Seq<char>| #[trigger] is_new(shard) == !running.contains(shard),
    ensures
        without_running(running, listed) == listed.filter(is_new),
    decreases listed.len(),
{
    reveal(Seq::filter);
    if listed.len() > 0 {
        let tail = listed.drop_first();
        let first = seq![listed[0]];
        lemma_without_running_is_filter(running, tail, is_new);
        assert(listed =~= first + tail);
        Seq::filter_distributes_over_add(first, tail, is_new);
        assert(first.drop_last() =~= Seq::empty());
        assert(first.drop_last().filter(is_new) =~= Seq::empty());
        if is_new(listed[0]) {
            assert(first.filter(is_new) =~= first);
        } else {
            assert(first.filter(is_new) =~= Seq::empty());
            assert(Seq::empty() + tail.filter(is_new) =~= tail.filter(is_new));
        }
    }
}

/// Where no shard is listed twice, what the detector asks for after a listing is
/// to take the shards of the list that were not running before, each of them
/// once and in the order of the list, whether they are taken or not; and then it
/// sleeps for its own time.
pub proof fn law_new_shards_of_a_listing_are_sent_in_order(
    detector: DetectorView,
    shards: Vec<String>,
    answers: Seq<DetectorEvent>,
    k: int,
)
    requires
        detector.phase is Listing,
        forall|i: int, j: int|
            0 <= i < j < shards@.len() ==> (#[trigger] shards@[i])@ != (#[trigger] shards@[j])@,
        forall|i: int| 0 <= i < answers.len() ==> #[trigger] answers[i] is Sent,
        detector.step(DetectorEvent::Listed(Ok(Some(shards)))).0.fits(answers),
        detector.step(DetectorEvent::Listed(Ok(Some(shards)))).0.after(answers).phase is Waiting,
        0 <= k <= answers.len(),
    ensures
        ({
            let round = detector.step(DetectorEvent::Listed(Ok(Some(shards))));
            let new = Seq::new(shards@.len(), |i: int| shards@[i]@).filter(
                |shard: Seq<char>| !detector.running_shards.contains(shard),
            );
            let asked = if k == 0 {
                round.1
            } else {
                round.0.action_at(answers, k - 1)
            };
            &&& answers.len() == new.len()
            &&& asked == if k < new.len() {
                DetectorActionView::SendShard { shard_id: new[k] }
            } else {
                DetectorActionView::Wait { wait: detector.detector_poll_millis }
            }
        }),
{
    let listed = shard_ids(shards@);
    let round = detector.step(DetectorEvent::Listed(Ok(Some(shards)))).0;
    let is_new = |shard: Seq<char>| !detector.running_shards.contains(shard);
    assert(Seq::new(shards@.len(), |i: int| shards@[i]@) =~= listed);
    assert(listed.no_duplicates()) by {
        assert forall|i: int, j: int|
            0 <= i < listed.len() && 0 <= j < listed.len() && i != j implies listed[i]
            != listed[j] by {
            assert(listed[i] == shards@[i]@ && listed[j] == shards@[j]@);
        }
    }
    law_distinct_shards_are_offered_in_order(detector, listed, answers);
    lemma_without_running_is_filter(detector.running_shards, listed, is_new);
    let new = listed.filter(is_new);
    assert(answered(round, answers) == new);
    lemma_settings_of_run(round, answers.take(k));
    if k < answers.len() {
        assert(new[k] == round.after(answers.take(k)).phase->rest[0]);
        lemma_fits_prefix(round, answers, k);
        assert(answers[k] is Sent);
        assert(round.after(answers.take(k)).phase is Sending);
    } else {
        assert(answers.take(k) =~= answers);
    }
    if k > 0 {
        lemma_prefix(round, answers, k - 1);
        lemma_settings_of_run(round, answers.take(k - 1));
        law_detector_asks_for_what_it_waits_for(round.after(answers.take(k - 1)), answers[k - 1]);
    } else {
        assert(answers.take(0) =~= Seq::empty());
        law_detector_asks_for_what_it_waits_for(
            detector,
            DetectorEvent::Listed(Ok(Some(shards))),
        );
    }
}

/// The shards that a round of handing out offers: those of the list, in order,
/// except one that is running by then, because it was before or because it was
/// offered earlier in the round and taken.
pub open spec fn offered(
    running: Set<Seq<char>>,
    listed: Seq<Seq<char>>,
    taken: Seq<bool>,
) -> Seq<Seq<char>>
    decreases listed.len(),
{
    if listed.len() == 0 {
        Seq::empty()
    } else if running.contains(listed[0]) {
        offered(running, listed.drop_first(), taken)
    } else {
        seq![listed[0]] + offered(
            if taken[0] {
                running.insert(listed[0])
            } else {
                running
            },
            listed.drop_first(),
            taken.drop_first(),
        )
    }
}

proof fn lemma_offered(running: Set<Seq<char>>, listed: Seq<Seq<char>>, taken: Seq<bool>)
    ensures
        offered(running, from_first_new(running, listed), taken) == offered(running, listed, taken),
    decreases listed.len(),
{
    if listed.len() > 0 && running.contains(listed[0]) {
        lemma_offered(running, listed.drop_first(), taken);
    }
}

proof fn lemma_offered_so_far(
    detector: DetectorView,
    listed: Seq<Seq<char>>,
    answers: Seq<DetectorEvent>,
    taken: Seq<bool>,
    k: int,
)
    requires
        forall|i: int| 0 <= i < answers.len() ==> #[trigger] answers[i] is Sent,
        detector.send_from(listed).0.fits(answers),
        taken.len() == answers.len(),
        forall|i: int|
            0 <= i < answers.len() ==> #[trigger] taken[i] == (answers[i]->Sent_0 is Ok),
        0 <= k <= answers.len(),
    ensures
        ({
            let round = detector.send_from(listed).0;
            let now = round.after(answers.take(k));
            answered(round, answers).take(k) + offered(
                now.running_shards,
                still_to_send(now),
                taken.skip(k),
            ) == offered(detector.running_shards, listed, taken)
        }),
    decreases k,
{
    let round = detector.send_from(listed).0;
    let all = answered(round, answers);
    if k == 0 {
        lemma_offered(detector.running_shards, listed, taken);
        assert(answers.take(0) =~= Seq::empty());
        assert(taken.skip(0) =~= taken);
        assert(still_to_send(round) =~= from_first_new(detector.running_shards, listed));
        assert(all.take(0) + offered(round.running_shards, still_to_send(round), taken)
            =~= offered(round.running_shards, still_to_send(round), taken));
    } else {
        let n = k - 1;
        lemma_offered_so_far(detector, listed, answers, taken, n);
        lemma_fits_prefix(round, answers, n);
        lemma_prefix(round, answers, n);
        let then = round.after(answers.take(n));
        let now = round.after(answers.take(k));
        assert(answers[n] is Sent);
        assert(taken[n] == (answers[n]->Sent_0 is Ok));
        lemma_pending_shard_is_new(detector, listed, answers.take(n));
        let rest = then.phase->rest;
        let tail = rest.drop_first();
        assert(still_to_send(then) == rest);
        assert(taken.skip(n)[0] == taken[n]);
        assert(taken.skip(n).drop_first() =~= taken.skip(k));
        lemma_offered(now.running_shards, tail, taken.skip(k));
        assert(still_to_send(now) =~= from_first_new(now.running_shards, tail));
        let after = offered(now.running_shards, tail, taken.skip(k));
        assert(offered(then.running_shards, rest, taken.skip(n)) == seq![rest[0]] + after);
        assert(all[n] == rest[0]);
        assert(all.take(n) + (seq![rest[0]] + after) =~= all.take(k) + after);
    }
}

/// Whatever is on the list, and whatever the receive loop takes of it, the
/// detector offers the shards of a listing in order, leaving out those that are
/// running by then and no others.
pub proof fn law_listed_shards_are_offered_until_taken(
    detector: DetectorView,
    shards: Vec<String>,
    answers: Seq<DetectorEvent>,
)
    requires
        detector.phase is Listing,
        forall|i: int| 0 <= i < answers.len() ==> #[trigger] answers[i] is Sent,
        detector.step(DetectorEvent::Listed(Ok(Some(shards)))).0.fits(answers),
        detector.step(DetectorEvent::Listed(Ok(Some(shards)))).0.after(answers).phase is Waiting,
    ensures
        answered(detector.step(DetectorEvent::Listed(Ok(Some(shards)))).0, answers) == offered(
            detector.running_shards,
            Seq::new(shards@.len(), |i: int| shards@[i]@),
            Seq::new(answers.len(), |i: int| answers[i]->Sent_0 is Ok),
        ),
{
    let listed = shard_ids(shards@);
    let round = detector.step(DetectorEvent::Listed(Ok(Some(shards)))).0;
    let taken = Seq::new(answers.len(), |i: int| answers[i]->Sent_0 is Ok);
    assert(Seq::new(shards@.len(), |i: int| shards@[i]@) =~= listed);
    lemma_offered_so_far(detector, listed, answers, taken, answers.len() as int);
    assert(answers.take(answers.len() as int) =~= answers);
    assert(answered(round, answers).take(answers.len() as int) + Seq::empty() =~= answered(
        round,
        answers,
    ));
}

/// The detector asks for exactly what it then waits for, and where that is the
/// sleep, it is as long as the detector was made with.
pub proof fn law_detector_asks_for_what_it_waits_for(detector: DetectorView, event: DetectorEvent)
    ensures
        detector.step(event).1 == match detector.step(event).0.phase {
            DetectorPhaseView::Created => detector.step(event).1,
            DetectorPhaseView::Checking => DetectorActionView::CheckFinished,
            DetectorPhaseView::Listing => DetectorActionView::ListShards {
                stream_arn: detector.stream_arn,
            },
            DetectorPhaseView::Sending { rest } => DetectorActionView::SendShard {
                shard_id: rest[0],
            },
            DetectorPhaseView::Waiting => DetectorActionView::Wait {
                wait: detector.detector_poll_millis,
            },
        },
        !(detector.step(event).0.phase is Created),
{
}

/// An answer of the kind that was asked for is accepted whatever it holds, and no
/// other is.
pub proof fn law_detector_hears_what_it_asked(
    detector: DetectorView,
    event: DetectorEvent,
    answer: DetectorEvent,
)
    ensures
        detector.step(event).0.accepts(answer) <==> match detector.step(event).1 {
            DetectorActionView::CheckFinished => answer is NoneFinished || answer is Finished,
            DetectorActionView::ListShards { .. } => answer is Listed,
            DetectorActionView::SendShard { .. } => answer is Sent,
            DetectorActionView::Wait { .. } => answer is Waited,
        },
        detector.phase is Created ==> (detector.accepts(answer) <==> answer is Started),
{
}

/// The round of a detector: at its start, after its sleep and after every word
/// of the channel of finished shards it looks for finished shards; when there
/// are none it lists the stream; and a listing that fails or names no shards
/// sends it to sleep.
pub proof fn law_detector_goes_its_round(detector: DetectorView, event: DetectorEvent)
    requires
        detector.accepts(event),
    ensures
        detector.step(event).1 is CheckFinished <==> event is Started || event is Waited
            || event is Finished,
        event is NoneFinished ==> detector.step(event).1 == (DetectorActionView::ListShards {
            stream_arn: detector.stream_arn,
        }),
        event matches DetectorEvent::Listed(Err(_)) ==> detector.step(event).1 == (
        DetectorActionView::Wait { wait: detector.detector_poll_millis }),
        event matches DetectorEvent::Listed(Ok(None)) ==> detector.step(event).1 == (
        DetectorActionView::Wait { wait: detector.detector_poll_millis }),
{
}

/// A shard that the detector asks to be taken is running once it is taken, and is
/// not where it is refused; no other shard changes.
pub proof fn law_taken_shard_is_running(
    detector: DetectorView,
    event: DetectorEvent,
    refusal: String,
)
    requires
        detector.accepts(event),
        detector.step(event).1 is SendShard,
    ensures
        ({
            let asking = detector.step(event).0;
            let shard_id = detector.step(event).1->shard_id;
            &&& asking.step(DetectorEvent::Sent(Ok(()))).0.running_shards
                == asking.running_shards.insert(shard_id)
            &&& asking.step(DetectorEvent::Sent(Err(refusal))).0.running_shards
                == asking.running_shards
        }),
{
}

/// An action shows what is in it.
pub proof fn law_detector_action_shows_its_request(action: DetectorAction)
    ensures
        match action {
            DetectorAction::CheckFinished => action@ == DetectorActionView::CheckFinished,
            DetectorAction::ListShards { stream_arn } => action@ == (
            DetectorActionView::ListShards { stream_arn: stream_arn@ }),
            DetectorAction::SendShard { shard_id } => action@ == (DetectorActionView::SendShard {
                shard_id: shard_id@,
            }),
            DetectorAction::Wait { wait } => action@ == (DetectorActionView::Wait { wait }),
        },
{
}

/// The shards are listed exactly when no finished shard is waiting to be taken
/// note of, and it is the detector's own stream that is listed.
pub proof fn law_finished_shards_come_first(detector: DetectorView, event: DetectorEvent)
    requires
        detector.accepts(event),
    ensures
        detector.step(event).1 is ListShards <==> event is NoneFinished,
        detector.step(event).1 matches DetectorActionView::ListShards { stream_arn }
            ==> stream_arn == detector.stream_arn,
{
}

pub(crate) proof fn lemma_settings_of_run(start: DetectorView, events: Seq<DetectorEvent>)
    ensures
        start.after(events).component_id == start.component_id,
        start.after(events).stream_arn == start.stream_arn,
        start.after(events).detector_poll_millis == start.detector_poll_millis,
    decreases events.len(),
{
    if events.len() > 0 {
        lemma_settings_of_run(start, events.drop_last());
    }
}

proof fn lemma_listing_goes_on(
    start: DetectorView,
    events: Seq<DetectorEvent>,
    first: int,
    end: int,
)
    requires
        start.fits(events),
        0 <= first < end <= events.len(),
        start.action_at(events, first) is ListShards,
        forall|k: int| first < k < end ==> !(#[trigger] start.action_at(events, k) is Wait),
    ensures
        start.after(events.take(end)).phase is Listing || start.after(events.take(end)).phase is Sending,
    decreases end,
{
    lemma_fits_prefix(start, events, end - 1);
    lemma_prefix(start, events, end - 1);
    if end - 1 > first {
        lemma_listing_goes_on(start, events, first, end - 1);
        assert(!(start.action_at(events, end - 1) is Wait));
    }
}

/// Between two listings of the stream the detector sleeps for the configured
/// time.
pub proof fn law_detector_waits_between_listings(
    start: DetectorView,
    events: Seq<DetectorEvent>,
    first: int,
    second: int,
)
    requires
        start.fits(events),
        0 <= first < second < events.len(),
        start.action_at(events, first) is ListShards,
        start.action_at(events, second) is ListShards,
    ensures
        exists|k: int|
            first < k < second && #[trigger] start.action_at(events, k) == (
            DetectorActionView::Wait { wait: start.detector_poll_millis }),
{
    if forall|k: int| first < k < second ==> !(#[trigger] start.action_at(events, k) is Wait) {
        lemma_listing_goes_on(start, events, first, second);
        lemma_fits_prefix(start, events, second);
    }
    let k = choose|k: int| first < k < second && (#[trigger] start.action_at(events, k) is Wait);
    lemma_settings_of_run(start, events.take(k));
}

proof fn lemma_checking_goes_on(
    start: DetectorView,
    events: Seq<DetectorEvent>,
    slept: int,
    end: int,
)
    requires
        start.fits(events),
        0 <= slept < end <= events.len(),
        start.action_at(events, slept) is Wait,
        forall|k: int| slept < k < end ==> !(#[trigger] start.action_at(events, k) is ListShards),
    ensures
        start.after(events.take(end)).phase is Waiting || start.after(
            events.take(end),
        ).phase is Checking,
    decreases end,
{
    lemma_fits_prefix(start, events, end - 1);
    lemma_prefix(start, events, end - 1);
    if end - 1 > slept {
        lemma_checking_goes_on(start, events, slept, end - 1);
        assert(!(start.action_at(events, end - 1) is ListShards));
    }
}

/// Between a listing and the next one the detector sleeps exactly once.
pub proof fn law_detector_waits_once_between_listings(
    start: DetectorView,
    events: Seq<DetectorEvent>,
    first: int,
    second: int,
)
    requires
        start.fits(events),
        0 <= first < second < events.len(),
        start.action_at(events, first) is ListShards,
        start.action_at(events, second) is ListShards,
        forall|k: int|
            first < k < second ==> !(#[trigger] start.action_at(events, k) is ListShards),
    ensures
        exists|slept: int|
            first < slept < second && #[trigger] start.action_at(events, slept) == (
            DetectorActionView::Wait { wait: start.detector_poll_millis }) && (forall|k: int|
                first < k < second && k != slept ==> !(#[trigger] start.action_at(
                    events,
                    k,
                ) is Wait)),
{
    law_detector_waits_between_listings(start, events, first, second);
    let slept = choose|k: int|
        first < k < second && #[trigger] start.action_at(events, k) == (DetectorActionView::Wait {
            wait: start.detector_poll_millis,
        });
    assert forall|k: int| first < k < second && k != slept implies !(#[trigger] start.action_at(
        events,
        k,
    ) is Wait) by {
        if start.action_at(events, k) is Wait {
            let earlier = if k < slept {
                k
            } else {
                slept
            };
            let later = if k < slept {
                slept
            } else {
                k
            };
            lemma_checking_goes_on(start, events, earlier, later);
            lemma_fits_prefix(start, events, later);
        }
    }
}

} // verus!
