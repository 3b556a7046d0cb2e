//! What creators are shown of the use of their skills.

use vstd::prelude::*;

use crate::listing::{arranged, lemma_order_covers, order_of, orders_indices, Ordered};
use crate::record_laws::lemma_filter_counts;
use crate::reports::lemma_filter_push;
use crate::state::AppState;
use crate::text::same_text;
use crate::types::{CreatorEvent, CreatorEventView, Timestamp};

verus! {

/// The use of one skill. The average duration is `total_duration_ms` over `timed_events`, where
/// there are any.
#[derive(Debug)]
pub struct SkillMetrics {
    pub skill_name: String,
    pub total_events: usize,
    pub success_events: usize,
    pub timed_events: usize,
    pub total_duration_ms: u128,
    pub last_seen_at: Timestamp,
}

/// The contents of a `SkillMetrics`.
pub struct SkillMetricsView {
    pub skill_name: Seq<char>,
    pub total_events: nat,
    pub success_events: nat,
    pub timed_events: nat,
    pub total_duration_ms: nat,
    pub last_seen_at: Timestamp,
}

impl View for SkillMetrics {
    type V = SkillMetricsView;

    open spec fn view(&self) -> SkillMetricsView {
        SkillMetricsView {
            skill_name: self.skill_name@,
            total_events: self.total_events as nat,
            success_events: self.success_events as nat,
            timed_events: self.timed_events as nat,
            total_duration_ms: self.total_duration_ms as nat,
            last_seen_at: self.last_seen_at,
        }
    }
}

impl Clone for SkillMetrics {
    fn clone(&self) -> (r: Self)
        ensures
            r == *self,
    {
        SkillMetrics {
            skill_name: self.skill_name.clone(),
            total_events: self.total_events,
            success_events: self.success_events,
            timed_events: self.timed_events,
            total_duration_ms: self.total_duration_ms,
            last_seen_at: self.last_seen_at,
        }
    }
}

/// The use of all skills. The success rate is `success_events` over `total_events`, where there
/// are any.
#[derive(Debug)]
pub struct CreatorMetricSummary {
    pub total_events: usize,
    pub success_events: usize,
    pub per_skill: Vec<SkillMetrics>,
}

/// The events of one skill.
pub open spec fn events_of(events: Seq<CreatorEventView>, skill_name: Seq<char>) -> Seq<
    CreatorEventView,
> {
    events.filter(|event: CreatorEventView| event.skill_name == skill_name)
}

/// The events that were successes.
pub open spec fn successes(events: Seq<CreatorEventView>) -> Seq<CreatorEventView> {
    events.filter(|event: CreatorEventView| event.success)
}

/// The events of which it is known how long they took.
pub open spec fn timed(events: Seq<CreatorEventView>) -> Seq<CreatorEventView> {
    events.filter(|event: CreatorEventView| event.duration_ms is Some)
}

/// How long events took together, as far as that is known.
pub open spec fn total_duration(events: Seq<CreatorEventView>) -> nat
    decreases events.len(),
{
    if events.len() == 0 {
        0
    } else {
        total_duration(events.drop_last()) + match events.last().duration_ms {
            Some(duration) => duration as nat,
            None => 0,
        }
    }
}

/// When the latest of events took place.
pub open spec fn last_seen(events: Seq<CreatorEventView>) -> Timestamp
    decreases events.len(),
{
    if events.len() <= 1 {
        events[0].created_at
    } else {
        let before = last_seen(events.drop_last());
        if before.at_most(events.last().created_at) {
            events.last().created_at
        } else {
            before
        }
    }
}

/// The use of one skill.
pub open spec fn skill_metrics(
    events: Seq<CreatorEventView>,
    skill_name: Seq<char>,
) -> SkillMetricsView {
    let own = events_of(events, skill_name);
    SkillMetricsView {
        skill_name,
        total_events: own.len(),
        success_events: successes(own).len(),
        timed_events: timed(own).len(),
        total_duration_ms: total_duration(own),
        last_seen_at: last_seen(own),
    }
}

/// Whether a skill has an event.
pub open spec fn occurs(events: Seq<CreatorEventView>, skill_name: Seq<char>) -> bool {
    exists|i: int| 0 <= i < events.len() && #[trigger] events[i].skill_name == skill_name
}

/// The contents of each `SkillMetrics` of a list.
pub open spec fn skill_views(list: Seq<SkillMetrics>) -> Seq<SkillMetricsView> {
    list.map_values(|skill: SkillMetrics| skill@)
}

/// The names of skills.
pub open spec fn skill_names(list: Seq<SkillMetricsView>) -> Seq<Seq<char>> {
    list.map_values(|skill: SkillMetricsView| skill.skill_name)
}

/// Whether a list holds the use of each skill that has an event, once, and nothing else.
pub open spec fn covers_skills(
    list: Seq<SkillMetricsView>,
    events: Seq<CreatorEventView>,
) -> bool {
    &&& skill_names(list).no_duplicates()
    &&& forall|i: int|
        0 <= i < list.len() ==> {
            &&& occurs(events, (#[trigger] list[i]).skill_name)
            &&& list[i] == skill_metrics(events, list[i].skill_name)
        }
    &&& forall|i: int|
        0 <= i < events.len() ==> skill_names(list).contains((#[trigger] events[i]).skill_name)
}

/// Whether one skill may be shown before another: by more events, or as many and a later last one.
pub open spec fn shown_before(a: SkillMetricsView, b: SkillMetricsView) -> bool {
    a.total_events > b.total_events || (a.total_events == b.total_events && b.last_seen_at.at_most(
        a.last_seen_at,
    ))
}

/// Whether a list of skills is in the order in which they are shown.
pub open spec fn in_show_order(list: Seq<SkillMetricsView>) -> bool {
    forall|i: int, j: int|
        0 <= i < j < list.len() ==> shown_before(#[trigger] list[i], #[trigger] list[j])
}

impl CreatorMetricSummary {
    /// Whether the summary is of some events: of how many there are, how many of them were
    /// successes, and the use of each skill in the order in which skills are shown.
    pub open spec fn sums_up(self, events: Seq<CreatorEventView>) -> bool {
        &&& self.total_events == events.len()
        &&& self.success_events == successes(events).len()
        &&& covers_skills(skill_views(self.per_skill@), events)
        &&& in_show_order(skill_views(self.per_skill@))
    }
}

/// The place of a skill among others.
pub struct SkillRank {
    pub total_events: usize,
    pub last_seen_at: Timestamp,
}

impl Ordered for SkillRank {
    open spec fn may_precede(self, other: Self) -> bool {
        self.total_events > other.total_events || (self.total_events == other.total_events
            && other.last_seen_at.at_most(self.last_seen_at))
    }

    proof fn lemma_total(a: Self, b: Self) {
    }

    proof fn lemma_transitive(a: Self, b: Self, c: Self) {
    }

    fn precedes(&self, other: &Self) -> (r: bool) {
        self.total_events > other.total_events || (self.total_events == other.total_events
            && other.last_seen_at.is_at_most(&self.last_seen_at))
    }
}

/// The list of skills in the order in which they are shown.
fn ranked(list: &Vec<SkillMetrics>, Ghost(events): Ghost<Seq<CreatorEventView>>) -> (r: Vec<
    SkillMetrics,
>)
    requires
        covers_skills(skill_views(list@), events),
    ensures
        covers_skills(skill_views(r@), events),
        in_show_order(skill_views(r@)),
{
    let mut ranks: Vec<SkillRank> = Vec::new();
    let mut i: usize = 0;
    while i < list.len()
        invariant
            i <= list.len(),
            ranks@.len() == i,
            forall|j: int|
                0 <= j < i ==> (#[trigger] ranks@[j]).total_events == list@[j].total_events
                    && ranks@[j].last_seen_at == list@[j].last_seen_at,
        decreases list.len() - i,
    {
        ranks.push(
            SkillRank { total_events: list[i].total_events, last_seen_at: list[i].last_seen_at },
        );
        i = i + 1;
    }
    let order: Vec<usize> = order_of(&ranks);
    let mut r: Vec<SkillMetrics> = Vec::new();
    let mut n: usize = 0;
    while n < order.len()
        invariant
            n <= order.len(),
            orders_indices(order@, list@.len()),
            r@.len() == n,
            forall|j: int| 0 <= j < n ==> #[trigger] r@[j] == list@[order@[j] as int],
        decreases order.len() - n,
    {
        assert(order@[n as int] < list@.len());
        r.push(list[order[n]].clone());
        n = n + 1;
    }
    proof {
        let before = skill_views(list@);
        let after = skill_views(r@);
        assert forall|i: int| 0 <= i < after.len() implies #[trigger] after[i]
            == before[order@[i] as int] by {
            assert(r@[i] == list@[order@[i] as int]);
        }
        assert forall|i: int, j: int| 0 <= i < j < after.len() implies shown_before(
            #[trigger] after[i],
            #[trigger] after[j],
        ) by {
            let placed = arranged(order@, ranks@);
            assert(placed[i].may_precede(placed[j]));
        }
        assert forall|i: int, j: int|
            0 <= i < after.len() && 0 <= j < after.len() && i != j implies skill_names(after)[i]
            != skill_names(after)[j] by {
            assert(order@[i] != order@[j]);
            assert(skill_names(before)[order@[i] as int] != skill_names(
                before,
            )[order@[j] as int]);
            assert(after[i] == before[order@[i] as int]);
            assert(after[j] == before[order@[j] as int]);
        }
        assert forall|i: int| 0 <= i < events.len() implies skill_names(after).contains(
            (#[trigger] events[i]).skill_name,
        ) by {
            let name = events[i].skill_name;
            assert(skill_names(before).contains(name));
            let k = choose|k: int|
                0 <= k < skill_names(before).len() && skill_names(before)[k] == name;
            lemma_order_covers(order@, list@.len(), k);
            let m = choose|m: int| 0 <= m < order@.len() && order@[m] == k as usize;
            assert(after[m] == before[k]);
            assert(skill_names(after)[m] == name);
        }
    }
    r
}

/// Events take at most the longest duration each.
proof fn lemma_duration_bound(events: Seq<CreatorEventView>)
    ensures
        total_duration(events) <= events.len() * u64::MAX,
    decreases events.len(),
{
    if events.len() > 0 {
        lemma_duration_bound(events.drop_last());
        assert((events.len() - 1) * u64::MAX + u64::MAX == events.len() * u64::MAX)
            by (nonlinear_arith);
    }
}

/// One more event counts for its own skill.
proof fn lemma_own_event(events: Seq<CreatorEventView>, event: CreatorEventView)
    ensures
        skill_metrics(events.push(event), event.skill_name) == ({
            let before = skill_metrics(events, event.skill_name);
            SkillMetricsView {
                skill_name: event.skill_name,
                total_events: before.total_events + 1,
                success_events: if event.success {
                    before.success_events + 1
                } else {
                    before.success_events
                },
                timed_events: if event.duration_ms is Some {
                    before.timed_events + 1
                } else {
                    before.timed_events
                },
                total_duration_ms: before.total_duration_ms + match event.duration_ms {
                    Some(duration) => duration as nat,
                    None => 0,
                },
                last_seen_at: if before.total_events > 0 && !before.last_seen_at.at_most(
                    event.created_at,
                ) {
                    before.last_seen_at
                } else {
                    event.created_at
                },
            }
        }),
{
    let own = events_of(events, event.skill_name);
    lemma_filter_push(events, event, |e: CreatorEventView| e.skill_name == event.skill_name);
    assert(events_of(events.push(event), event.skill_name) == own.push(event));
    lemma_filter_push(own, event, |e: CreatorEventView| e.success);
    lemma_filter_push(own, event, |e: CreatorEventView| e.duration_ms is Some);
    assert(own.push(event).drop_last() =~= own);
}

/// One more event changes nothing for other skills.
proof fn lemma_other_event(
    events: Seq<CreatorEventView>,
    event: CreatorEventView,
    skill_name: Seq<char>,
)
    requires
        skill_name != event.skill_name,
    ensures
        skill_metrics(events.push(event), skill_name) == skill_metrics(events, skill_name),
{
    lemma_filter_push(events, event, |e: CreatorEventView| e.skill_name == skill_name);
}

/// A skill has an event where some of its events are found.
proof fn lemma_occurs(events: Seq<CreatorEventView>, skill_name: Seq<char>)
    ensures
        occurs(events, skill_name) == (events_of(events, skill_name).len() > 0),
    decreases events.len(),
{
    reveal(Seq::filter);
    if events.len() > 0 {
        let fewer = events.drop_last();
        lemma_occurs(fewer, skill_name);
        if events.last().skill_name == skill_name {
            assert(events[events.len() - 1].skill_name == skill_name);
        } else if occurs(events, skill_name) {
            let i = choose|i: int|
                0 <= i < events.len() && #[trigger] events[i].skill_name == skill_name;
            assert(fewer[i].skill_name == skill_name);
        } else if occurs(fewer, skill_name) {
            let i = choose|i: int|
                0 <= i < fewer.len() && #[trigger] fewer[i].skill_name == skill_name;
            assert(events[i].skill_name == skill_name);
        }
    }
}

/// The use of a skill after one more event of it.
fn count_event(skill: &mut SkillMetrics, event: &CreatorEvent, Ghost(events): Ghost<
    Seq<CreatorEventView>,
>)
    requires
        old(skill)@ == skill_metrics(events, old(skill).skill_name@),
        old(skill).skill_name@ == event.skill_name@,
        old(skill).total_events > 0,
        events.len() < usize::MAX,
    ensures
        final(skill)@ == skill_metrics(events.push(event@), event.skill_name@),
{
    proof {
        let own = events_of(events, event.skill_name@);
        events.lemma_filter_len(|e: CreatorEventView| e.skill_name == event.skill_name@);
        own.lemma_filter_len(|e: CreatorEventView| e.success);
        own.lemma_filter_len(|e: CreatorEventView| e.duration_ms is Some);
        lemma_duration_bound(own);
        assert(own.len() * u64::MAX + u64::MAX <= u128::MAX) by (nonlinear_arith)
            requires
                0 <= own.len() < usize::MAX,
                usize::MAX <= 0xffff_ffff_ffff_ffff,
        ;
        lemma_own_event(events, event@);
    }
    skill.total_events = skill.total_events + 1;
    if event.success {
        skill.success_events = skill.success_events + 1;
    }
    if let Some(duration) = event.duration_ms {
        skill.timed_events = skill.timed_events + 1;
        skill.total_duration_ms = skill.total_duration_ms + duration as u128;
    }
    if skill.last_seen_at.is_at_most(&event.created_at) {
        skill.last_seen_at = event.created_at;
    }
}

/// The use of a skill after its first event.
fn first_event(event: &CreatorEvent, Ghost(events): Ghost<Seq<CreatorEventView>>) -> (r:
    SkillMetrics)
    requires
        !occurs(events, event.skill_name@),
    ensures
        r@ == skill_metrics(events.push(event@), event.skill_name@),
{
    proof {
        lemma_occurs(events, event.skill_name@);
        let own = events_of(events, event.skill_name@);
        own.lemma_filter_len(|e: CreatorEventView| e.success);
        own.lemma_filter_len(|e: CreatorEventView| e.duration_ms is Some);
        lemma_own_event(events, event@);
    }
    let (timed_events, total_duration_ms): (usize, u128) = match event.duration_ms {
        Some(duration) => (1, duration as u128),
        None => (0, 0),
    };
    SkillMetrics {
        skill_name: event.skill_name.clone(),
        total_events: 1,
        success_events: if event.success {
            1
        } else {
            0
        },
        timed_events,
        total_duration_ms,
        last_seen_at: event.created_at,
    }
}

/// Takes one more event into a list of the use of each skill.
fn note_event(list: &mut Vec<SkillMetrics>, event: &CreatorEvent, Ghost(events): Ghost<
    Seq<CreatorEventView>,
>)
    requires
        covers_skills(skill_views(old(list)@), events),
        events.len() < usize::MAX,
    ensures
        covers_skills(skill_views(final(list)@), events.push(event@)),
{
    let ghost before = skill_views(list@);
    let ghost all = events.push(event@);
    let mut i: usize = 0;
    while i < list.len() && !same_text(list[i].skill_name.as_str(), event.skill_name.as_str())
        invariant
            i <= list.len(),
            before == skill_views(list@),
            forall|j: int| 0 <= j < i ==> (#[trigger] before[j]).skill_name != event.skill_name@,
        decreases list.len() - i,
    {
        assert(before[i as int] == list@[i as int]@);
        i = i + 1;
    }
    if i < list.len() {
        assert(before[i as int] == list@[i as int]@);
        proof {
            lemma_occurs(events, before[i as int].skill_name);
        }
        let mut skill: SkillMetrics = list[i].clone();
        count_event(&mut skill, event, Ghost(events));
        list.set(i, skill);
    } else {
        assert(!occurs(events, event.skill_name@)) by {
            if occurs(events, event.skill_name@) {
                let k = choose|k: int|
                    0 <= k < events.len() && #[trigger] events[k].skill_name == event.skill_name@;
                assert(skill_names(before).contains(events[k].skill_name));
                let j = choose|j: int|
                    0 <= j < skill_names(before).len() && skill_names(before)[j]
                        == event.skill_name@;
                assert(before[j].skill_name == event.skill_name@);
            }
        }
        let skill: SkillMetrics = first_event(event, Ghost(events));
        list.push(skill);
    }
    proof {
        let after = skill_views(list@);
        assert(after[i as int].skill_name == event.skill_name@);
        assert forall|j: int| 0 <= j < after.len() && j != i implies after[j] == before[j]
            && before[j].skill_name != event.skill_name@ by {
            assert(list@[j] == old(list)@[j]);
            if i < before.len() {
                assert(skill_names(before)[j] != skill_names(before)[i as int]);
            }
        }
        assert forall|j: int| 0 <= j < after.len() implies occurs(
            all,
            (#[trigger] after[j]).skill_name,
        ) && after[j] == skill_metrics(all, after[j].skill_name) by {
            if j == i {
                assert(all[events.len() as int].skill_name == event.skill_name@);
            } else {
                assert(after[j] == before[j]);
                lemma_other_event(events, event@, before[j].skill_name);
                let k = choose|k: int|
                    0 <= k < events.len() && #[trigger] events[k].skill_name
                        == before[j].skill_name;
                assert(all[k].skill_name == before[j].skill_name);
            }
        }
        assert forall|m: int, n: int|
            0 <= m < after.len() && 0 <= n < after.len() && m != n implies skill_names(after)[m]
            != skill_names(after)[n] by {
            if m != i && n != i {
                assert(after[m] == before[m] && after[n] == before[n]);
                assert(skill_names(before)[m] != skill_names(before)[n]);
            } else if m == i {
                assert(after[n] == before[n]);
            } else {
                assert(after[m] == before[m]);
            }
        }
        assert forall|k: int| 0 <= k < all.len() implies skill_names(after).contains(
            (#[trigger] all[k]).skill_name,
        ) by {
            if k == events.len() {
                assert(skill_names(after)[i as int] == all[k].skill_name);
            } else {
                assert(skill_names(before).contains(events[k].skill_name));
                let j = choose|j: int|
                    0 <= j < skill_names(before).len() && skill_names(before)[j]
                        == events[k].skill_name;
                if j != i {
                    assert(after[j] == before[j]);
                }
                assert(skill_names(after)[j] == all[k].skill_name);
            }
        }
    }
}

impl AppState {
    /// What creators are shown of the use of their skills.
    pub fn creator_metrics(&self) -> (r: CreatorMetricSummary)
        ensures
            r.sums_up(self@.creator_events),
    {
        let ghost events = self@.creator_events;
        let mut success_events: usize = 0;
        let mut skills: Vec<SkillMetrics> = Vec::new();
        let mut i: usize = 0;
        proof {
            reveal(Seq::filter);
            assert(events.take(0) =~= Seq::empty());
        }
        while i < self.creator_events.len()
            invariant
                i <= self.creator_events.len(),
                events == self@.creator_events,
                success_events == successes(events.take(i as int)).len(),
                covers_skills(skill_views(skills@), events.take(i as int)),
            decreases self.creator_events.len() - i,
        {
            let event: &CreatorEvent = &self.creator_events[i];
            let ghost seen = events.take(i as int);
            proof {
                assert(events[i as int] == event@);
                assert(events.take(i + 1) =~= seen.push(event@));
                lemma_filter_push(seen, event@, |e: CreatorEventView| e.success);
                seen.lemma_filter_len(|e: CreatorEventView| e.success);
            }
            if event.success {
                success_events = success_events + 1;
            }
            note_event(&mut skills, event, Ghost(seen));
            i = i + 1;
        }
        assert(events.take(events.len() as int) =~= events);
        CreatorMetricSummary {
            total_events: self.creator_events.len(),
            success_events,
            per_skill: ranked(&skills, Ghost(events)),
        }
    }
}

/// What a skill was last seen at is the time of one of its events, and none came later.
pub proof fn law_last_seen_is_the_latest(events: Seq<CreatorEventView>)
    requires
        events.len() > 0,
    ensures
        exists|i: int|
            0 <= i < events.len() && #[trigger] events[i].created_at == last_seen(events),
        forall|i: int|
            0 <= i < events.len() ==> (#[trigger] events[i]).created_at.at_most(last_seen(events)),
    decreases events.len(),
{
    if events.len() == 1 {
        assert(events[0].created_at == last_seen(events));
    } else {
        let fewer = events.drop_last();
        law_last_seen_is_the_latest(fewer);
        let k = choose|k: int|
            0 <= k < fewer.len() && #[trigger] fewer[k].created_at == last_seen(fewer);
        assert(events[k] == fewer[k]);
        assert(events[events.len() - 1] == events.last());
        assert forall|i: int| 0 <= i < events.len() implies (
        #[trigger] events[i]).created_at.at_most(last_seen(events)) by {
            if i < fewer.len() {
                assert(fewer[i].created_at.at_most(last_seen(fewer)));
            }
        }
    }
}

/// The events of all skills of a list.
pub open spec fn summed_events(list: Seq<SkillMetricsView>) -> nat
    decreases list.len(),
{
    if list.len() == 0 {
        0
    } else {
        summed_events(list.drop_last()) + list.last().total_events
    }
}

/// The successes of all skills of a list.
pub open spec fn summed_successes(list: Seq<SkillMetricsView>) -> nat
    decreases list.len(),
{
    if list.len() == 0 {
        0
    } else {
        summed_successes(list.drop_last()) + list.last().success_events
    }
}

/// The events of some skills.
spec fn events_among(events: Seq<CreatorEventView>, names: Seq<Seq<char>>) -> Seq<
    CreatorEventView,
> {
    events.filter(|event: CreatorEventView| names.contains(event.skill_name))
}

/// One more skill adds its own events.
proof fn lemma_one_more_skill(
    events: Seq<CreatorEventView>,
    names: Seq<Seq<char>>,
    name: Seq<char>,
)
    requires
        !names.contains(name),
    ensures
        events_among(events, names.push(name)).len() == events_among(events, names).len()
            + events_of(events, name).len(),
    decreases events.len(),
{
    reveal(Seq::filter);
    if events.len() > 0 {
        lemma_one_more_skill(events.drop_last(), names, name);
        let found = events.last().skill_name;
        assert(names.push(name).contains(found) == (names.contains(found) || found == name)) by {
            if names.contains(found) {
                let i = choose|i: int| 0 <= i < names.len() && names[i] == found;
                assert(names.push(name)[i] == found);
            }
            if found == name {
                assert(names.push(name)[names.len() as int] == found);
            }
        }
    }
}

/// The successes of a skill are its events among the successes.
proof fn lemma_own_successes(events: Seq<CreatorEventView>, name: Seq<char>)
    ensures
        successes(events_of(events, name)) == events_of(successes(events), name),
    decreases events.len(),
{
    reveal(Seq::filter);
    if events.len() > 0 {
        let fewer = events.drop_last();
        let event = events.last();
        lemma_own_successes(fewer, name);
        let own = events_of(fewer, name);
        assert(own.push(event).drop_last() =~= own);
        let won = successes(fewer);
        assert(won.push(event).drop_last() =~= won);
    }
}

/// The events of the skills of a list are those that were counted for them, and so are the
/// successes.
proof fn lemma_summed_events(list: Seq<SkillMetricsView>, events: Seq<CreatorEventView>)
    requires
        skill_names(list).no_duplicates(),
        forall|i: int|
            0 <= i < list.len() ==> #[trigger] list[i] == skill_metrics(events, list[i].skill_name),
    ensures
        summed_events(list) == events_among(events, skill_names(list)).len(),
        summed_successes(list) == events_among(successes(events), skill_names(list)).len(),
    decreases list.len(),
{
    if list.len() == 0 {
        lemma_none_kept(events, skill_names(list));
        lemma_none_kept(successes(events), skill_names(list));
    } else {
        let fewer = list.drop_last();
        let name = list.last().skill_name;
        assert(skill_names(fewer) =~= skill_names(list).drop_last());
        assert(skill_names(list) =~= skill_names(fewer).push(name));
        assert(!skill_names(fewer).contains(name)) by {
            if skill_names(fewer).contains(name) {
                let i = choose|i: int|
                    0 <= i < skill_names(fewer).len() && skill_names(fewer)[i] == name;
                assert(skill_names(list)[i] == skill_names(list)[list.len() - 1]);
            }
        }
        lemma_summed_events(fewer, events);
        lemma_one_more_skill(events, skill_names(fewer), name);
        lemma_one_more_skill(successes(events), skill_names(fewer), name);
        lemma_own_successes(events, name);
        assert(list[list.len() - 1] == skill_metrics(events, name));
    }
}

/// No skills have no events.
proof fn lemma_none_kept(events: Seq<CreatorEventView>, names: Seq<Seq<char>>)
    requires
        names.len() == 0,
    ensures
        events_among(events, names).len() == 0,
    decreases events.len(),
{
    reveal(Seq::filter);
    if events.len() > 0 {
        lemma_none_kept(events.drop_last(), names);
    }
}

/// Skills that all events are of have all events.
proof fn lemma_all_kept(events: Seq<CreatorEventView>, names: Seq<Seq<char>>)
    requires
        forall|i: int| 0 <= i < events.len() ==> names.contains((#[trigger] events[i]).skill_name),
    ensures
        events_among(events, names).len() == events.len(),
    decreases events.len(),
{
    reveal(Seq::filter);
    if events.len() > 0 {
        let fewer = events.drop_last();
        assert forall|i: int| 0 <= i < fewer.len() implies names.contains(
            (#[trigger] fewer[i]).skill_name,
        ) by {
            assert(events[i] == fewer[i]);
        }
        lemma_all_kept(fewer, names);
        assert(names.contains(events[events.len() - 1].skill_name));
    }
}

/// Skills that all events are of are those of all successes.
proof fn lemma_successes_named(events: Seq<CreatorEventView>, names: Seq<Seq<char>>)
    requires
        forall|i: int| 0 <= i < events.len() ==> names.contains((#[trigger] events[i]).skill_name),
    ensures
        forall|i: int|
            0 <= i < successes(events).len() ==> names.contains(
                (#[trigger] successes(events)[i]).skill_name,
            ),
    decreases events.len(),
{
    reveal(Seq::filter);
    if events.len() > 0 {
        let fewer = events.drop_last();
        assert forall|i: int| 0 <= i < fewer.len() implies names.contains(
            (#[trigger] fewer[i]).skill_name,
        ) by {
            assert(events[i] == fewer[i]);
        }
        lemma_successes_named(fewer, names);
        assert(names.contains(events[events.len() - 1].skill_name));
    }
}

/// The events of the skills that are shown add up to all events, and their successes to all
/// successes.
pub proof fn law_skills_add_up(list: Seq<SkillMetricsView>, events: Seq<CreatorEventView>)
    requires
        covers_skills(list, events),
    ensures
        summed_events(list) == events.len(),
        summed_successes(list) == successes(events).len(),
{
    lemma_summed_events(list, events);
    lemma_all_kept(events, skill_names(list));
    lemma_successes_named(events, skill_names(list));
    lemma_all_kept(successes(events), skill_names(list));
}

/// What a filter keeps is what the list holds that is to be kept.
proof fn lemma_filter_members<T>(list: Seq<T>, keep: spec_fn(T) -> bool, item: T)
    ensures
        list.filter(keep).contains(item) == (list.contains(item) && keep(item)),
    decreases list.len(),
{
    reveal(Seq::filter);
    if list.len() > 0 {
        let fewer = list.drop_last();
        let last = list.last();
        let kept = fewer.filter(keep);
        lemma_filter_members(fewer, keep, item);
        assert(list.contains(item) == (fewer.contains(item) || item == last)) by {
            if fewer.contains(item) {
                let i = choose|i: int| 0 <= i < fewer.len() && fewer[i] == item;
                assert(list[i] == item);
            }
            if item == last {
                assert(list[list.len() - 1] == item);
            }
            if list.contains(item) && item != last {
                let i = choose|i: int| 0 <= i < list.len() && list[i] == item;
                assert(fewer[i] == item);
            }
        }
        if keep(last) {
            assert(kept.push(last).contains(item) == (kept.contains(item) || item == last)) by {
                if kept.contains(item) {
                    let i = choose|i: int| 0 <= i < kept.len() && kept[i] == item;
                    assert(kept.push(last)[i] == item);
                }
                if item == last {
                    assert(kept.push(last)[kept.len() as int] == item);
                }
                if kept.push(last).contains(item) && item != last {
                    let i = choose|i: int|
                        0 <= i < kept.push(last).len() && kept.push(last)[i] == item;
                    assert(kept[i] == item);
                }
            }
        }
    }
}

/// To filter twice keeps what both filters keep.
proof fn lemma_filter_twice<T>(
    list: Seq<T>,
    first: spec_fn(T) -> bool,
    second: spec_fn(T) -> bool,
)
    ensures
        list.filter(first).filter(second) == list.filter(|item: T| first(item) && second(item)),
    decreases list.len(),
{
    reveal(Seq::filter);
    if list.len() > 0 {
        let fewer = list.drop_last();
        lemma_filter_twice(fewer, first, second);
        if first(list.last()) {
            let kept = fewer.filter(first);
            assert(kept.push(list.last()).drop_last() =~= kept);
        }
    }
}

/// Skills are shown by their use: none stands behind one with fewer events, and of two with as many
/// events none stands behind one whose last event came earlier.
pub proof fn law_skills_are_shown_by_use(list: Seq<SkillMetricsView>)
    requires
        in_show_order(list),
    ensures
        forall|i: int, j: int|
            0 <= i < j < list.len() ==> {
                let a = #[trigger] list[i];
                let b = #[trigger] list[j];
                &&& a.total_events >= b.total_events
                &&& a.total_events == b.total_events ==> b.last_seen_at.secs < a.last_seen_at.secs
                    || (b.last_seen_at.secs == a.last_seen_at.secs && b.last_seen_at.nanos
                    <= a.last_seen_at.nanos)
            },
{
    assert forall|i: int, j: int| 0 <= i < j < list.len() implies {
        let a = #[trigger] list[i];
        let b = #[trigger] list[j];
        &&& a.total_events >= b.total_events
        &&& a.total_events == b.total_events ==> b.last_seen_at.secs < a.last_seen_at.secs || (
        b.last_seen_at.secs == a.last_seen_at.secs && b.last_seen_at.nanos <= a.last_seen_at.nanos)
    } by {
        assert(shown_before(list[i], list[j]));
    }
}

/// Each event has its skill in the list that is shown.
pub proof fn law_each_used_skill_is_shown(
    list: Seq<SkillMetricsView>,
    events: Seq<CreatorEventView>,
    k: int,
)
    requires
        covers_skills(list, events),
        0 <= k < events.len(),
    ensures
        exists|n: int|
            0 <= n < list.len() && (#[trigger] list[n]).skill_name == events[k].skill_name,
{
    let names = skill_names(list);
    assert(names.contains(events[k].skill_name));
    let n = choose|n: int| 0 <= n < names.len() && names[n] == events[k].skill_name;
    assert(list[n].skill_name == events[k].skill_name);
}

/// Each skill that is shown has an event, and is shown once.
pub proof fn law_shown_skills_were_used(
    list: Seq<SkillMetricsView>,
    events: Seq<CreatorEventView>,
    i: int,
)
    requires
        covers_skills(list, events),
        0 <= i < list.len(),
    ensures
        exists|m: int|
            0 <= m < events.len() && (#[trigger] events[m]).skill_name == list[i].skill_name,
        forall|n: int|
            0 <= n < list.len() && n != i ==> (#[trigger] list[n]).skill_name
                != list[i].skill_name,
{
    let names = skill_names(list);
    assert(occurs(events, list[i].skill_name));
    assert forall|n: int| 0 <= n < list.len() && n != i implies (#[trigger] list[n]).skill_name
        != list[i].skill_name by {
        assert(names[n] != names[i]);
    }
}

/// A skill counts the events that are of its name: all of them, those that were successes, and
/// those of which it is known how long they took. It was last seen when the latest of them took
/// place.
pub proof fn law_skill_counts_its_own_events(
    list: Seq<SkillMetricsView>,
    events: Seq<CreatorEventView>,
    i: int,
)
    requires
        covers_skills(list, events),
        0 <= i < list.len(),
    ensures
        ({
            let skill = list[i];
            &&& skill.total_events == Set::new(
                |k: int| 0 <= k < events.len() && events[k].skill_name == skill.skill_name,
            ).len()
            &&& skill.success_events == Set::new(
                |k: int|
                    0 <= k < events.len() && events[k].skill_name == skill.skill_name
                        && events[k].success,
            ).len()
            &&& skill.timed_events == Set::new(
                |k: int|
                    0 <= k < events.len() && events[k].skill_name == skill.skill_name
                        && events[k].duration_ms is Some,
            ).len()
            &&& exists|k: int|
                0 <= k < events.len() && (#[trigger] events[k]).skill_name == skill.skill_name
                    && events[k].created_at == skill.last_seen_at
            &&& forall|k: int|
                0 <= k < events.len() && (#[trigger] events[k]).skill_name == skill.skill_name ==> (
                events[k].created_at.secs < skill.last_seen_at.secs || (events[k].created_at.secs
                    == skill.last_seen_at.secs && events[k].created_at.nanos
                    <= skill.last_seen_at.nanos))
        }),
{
    let skill = list[i];
    let name = skill.skill_name;
    let own = events_of(events, name);
    assert(skill == skill_metrics(events, name));
    let of_skill = |event: CreatorEventView| event.skill_name == name;
    let won = |event: CreatorEventView| event.success;
    let clocked = |event: CreatorEventView| event.duration_ms is Some;
    lemma_filter_counts(events, of_skill);
    assert(Set::new(|k: int| 0 <= k < events.len() && events[k].skill_name == name) =~= Set::new(
        |k: int| 0 <= k < events.len() && of_skill(events[k]),
    ));
    lemma_filter_twice(events, of_skill, won);
    let both = |event: CreatorEventView| of_skill(event) && won(event);
    lemma_filter_counts(events, both);
    assert(Set::new(
        |k: int| 0 <= k < events.len() && events[k].skill_name == name && events[k].success,
    ) =~= Set::new(|k: int| 0 <= k < events.len() && both(events[k])));
    lemma_filter_twice(events, of_skill, clocked);
    let timed_own = |event: CreatorEventView| of_skill(event) && clocked(event);
    lemma_filter_counts(events, timed_own);
    assert(Set::new(
        |k: int|
            0 <= k < events.len() && events[k].skill_name == name && events[k].duration_ms is Some,
    ) =~= Set::new(|k: int| 0 <= k < events.len() && timed_own(events[k])));
    lemma_occurs(events, name);
    law_last_seen_is_the_latest(own);
    let latest = choose|k: int|
        0 <= k < own.len() && #[trigger] own[k].created_at == last_seen(own);
    lemma_filter_members(events, of_skill, own[latest]);
    assert(own.contains(own[latest]));
    let place = choose|k: int| 0 <= k < events.len() && events[k] == own[latest];
    assert(events[place].skill_name == name);
    assert forall|k: int|
        0 <= k < events.len() && (#[trigger] events[k]).skill_name == name implies (
    events[k].created_at.secs < skill.last_seen_at.secs || (events[k].created_at.secs
        == skill.last_seen_at.secs && events[k].created_at.nanos <= skill.last_seen_at.nanos)) by {
        lemma_filter_members(events, of_skill, events[k]);
        let m = choose|m: int| 0 <= m < own.len() && own[m] == events[k];
        assert(own[m].created_at.at_most(last_seen(own)));
    }
}

/// One more event adds itself to the use of its own skill, by its duration where that is known,
/// and leaves the others as they were.
pub proof fn law_event_counts_for_its_own_skill(
    before: Seq<SkillMetricsView>,
    after: Seq<SkillMetricsView>,
    events: Seq<CreatorEventView>,
    event: CreatorEventView,
    i: int,
    j: int,
)
    requires
        covers_skills(before, events),
        covers_skills(after, events.push(event)),
        0 <= i < before.len(),
        0 <= j < after.len(),
        before[i].skill_name == after[j].skill_name,
    ensures
        after[j].skill_name != event.skill_name ==> after[j] == before[i],
        after[j].skill_name == event.skill_name ==> {
            &&& after[j].total_events == before[i].total_events + 1
            &&& after[j].success_events == before[i].success_events + if event.success {
                1nat
            } else {
                0
            }
            &&& match event.duration_ms {
                Some(duration) => {
                    &&& after[j].timed_events == before[i].timed_events + 1
                    &&& after[j].total_duration_ms == before[i].total_duration_ms + duration
                },
                None => {
                    &&& after[j].timed_events == before[i].timed_events
                    &&& after[j].total_duration_ms == before[i].total_duration_ms
                },
            }
        },
{
    assert(before[i] == skill_metrics(events, before[i].skill_name));
    assert(after[j] == skill_metrics(events.push(event), after[j].skill_name));
    if after[j].skill_name == event.skill_name {
        lemma_own_event(events, event);
    } else {
        lemma_other_event(events, event, after[j].skill_name);
    }
}

/// The first event of a skill is all that its use shows.
pub proof fn law_first_event_starts_a_skill(
    after: Seq<SkillMetricsView>,
    events: Seq<CreatorEventView>,
    event: CreatorEventView,
    j: int,
)
    requires
        covers_skills(after, events.push(event)),
        forall|k: int|
            0 <= k < events.len() ==> (#[trigger] events[k]).skill_name != event.skill_name,
        0 <= j < after.len(),
        after[j].skill_name == event.skill_name,
    ensures
        after[j].total_events == 1,
        after[j].success_events == if event.success {
            1nat
        } else {
            0
        },
        match event.duration_ms {
            Some(duration) => after[j].timed_events == 1 && after[j].total_duration_ms == duration,
            None => after[j].timed_events == 0 && after[j].total_duration_ms == 0,
        },
        after[j].last_seen_at == event.created_at,
{
    assert(after[j] == skill_metrics(events.push(event), after[j].skill_name));
    lemma_occurs(events, event.skill_name);
    let own = events_of(events, event.skill_name);
    own.lemma_filter_len(|e: CreatorEventView| e.success);
    own.lemma_filter_len(|e: CreatorEventView| e.duration_ms is Some);
    lemma_own_event(events, event);
}

/// A summary of events counts all of them, and those that were successes. It shows each skill
/// once, none behind one with fewer events, and of two with as many events none behind one that was
/// last seen earlier.
pub proof fn law_summary_shows_the_use(
    summary: CreatorMetricSummary,
    events: Seq<CreatorEventView>,
)
    requires
        summary.sums_up(events),
    ensures
        summary.total_events == events.len(),
        summary.success_events == Set::new(
            |n: int| 0 <= n < events.len() && events[n].success,
        ).len(),
        forall|i: int, j: int|
            0 <= i < j < summary.per_skill@.len() ==> {
                let a = #[trigger] summary.per_skill@[i];
                let b = #[trigger] summary.per_skill@[j];
                &&& a.skill_name@ != b.skill_name@
                &&& a.total_events >= b.total_events
                &&& a.total_events == b.total_events ==> b.last_seen_at.secs < a.last_seen_at.secs
                    || (b.last_seen_at.secs == a.last_seen_at.secs && b.last_seen_at.nanos
                    <= a.last_seen_at.nanos)
            },
{
    let list = skill_views(summary.per_skill@);
    law_successes_are_counted(events);
    assert forall|i: int, j: int| 0 <= i < j < summary.per_skill@.len() implies {
        let a = #[trigger] summary.per_skill@[i];
        let b = #[trigger] summary.per_skill@[j];
        &&& a.skill_name@ != b.skill_name@
        &&& a.total_events >= b.total_events
        &&& a.total_events == b.total_events ==> b.last_seen_at.secs < a.last_seen_at.secs || (
        b.last_seen_at.secs == a.last_seen_at.secs && b.last_seen_at.nanos <= a.last_seen_at.nanos)
    } by {
        assert(list[i] == summary.per_skill@[i]@);
        assert(list[j] == summary.per_skill@[j]@);
        law_skills_are_shown_by_use(list);
        law_shown_skills_were_used(list, events, i);
        assert(list[j].skill_name != list[i].skill_name);
    }
}

/// A summary shows the skill of each event, by what its own events hold.
pub proof fn law_summary_shows_each_skill(
    summary: CreatorMetricSummary,
    events: Seq<CreatorEventView>,
    k: int,
)
    requires
        summary.sums_up(events),
        0 <= k < events.len(),
    ensures
        exists|i: int|
            {
                &&& 0 <= i < summary.per_skill@.len()
                &&& (#[trigger] summary.per_skill@[i]).skill_name@ == events[k].skill_name
                &&& summary.per_skill@[i].total_events == Set::new(
                    |n: int|
                        0 <= n < events.len() && events[n].skill_name == events[k].skill_name,
                ).len()
                &&& summary.per_skill@[i].success_events == Set::new(
                    |n: int|
                        0 <= n < events.len() && events[n].skill_name == events[k].skill_name
                            && events[n].success,
                ).len()
            },
{
    let list = skill_views(summary.per_skill@);
    law_each_used_skill_is_shown(list, events, k);
    let i = choose|i: int|
        0 <= i < list.len() && (#[trigger] list[i]).skill_name == events[k].skill_name;
    assert(list[i] == summary.per_skill@[i]@);
    law_skill_counts_its_own_events(list, events, i);
}

/// The successes of all skills together are the events that were successes.
pub proof fn law_successes_are_counted(events: Seq<CreatorEventView>)
    ensures
        successes(events).len() == Set::new(
            |k: int| 0 <= k < events.len() && events[k].success,
        ).len(),
{
    let won = |event: CreatorEventView| event.success;
    lemma_filter_counts(events, won);
    assert(Set::new(|k: int| 0 <= k < events.len() && events[k].success) =~= Set::new(
        |k: int| 0 <= k < events.len() && won(events[k]),
    ));
}

} // verus!
