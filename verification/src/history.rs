//! Bounded sample histories for trend graphs.
//!
//! A series keeps the most recent samples of one entity, oldest first. It
//! never holds more than the retention count: once full, every new sample
//! evicts the oldest one.

use vstd::prelude::*;
use crate::roster::{find_by_name, names_of, lemma_first_occurrence, Named};

verus! {

/// The recent samples of one entity, oldest first.
#[derive(Debug, Clone, PartialEq, Eq)]
pub struct HistorySeries {
    pub name: String,
    pub samples: Vec<i64>,
}

/// The mathematical value of a [`HistorySeries`].
pub struct HistorySeriesView {
    pub name: Seq<char>,
    pub samples: Seq<i64>,
}

impl View for HistorySeries {
    type V = HistorySeriesView;

    open spec fn view(&self) -> HistorySeriesView {
        HistorySeriesView { name: self.name@, samples: self.samples@ }
    }
}

impl Named for HistorySeries {
    open spec fn name_view(&self) -> Seq<char> {
        self.name@
    }

    fn name(&self) -> (n: &String) {
        &self.name
    }
}

/// The views of `items`, in order.
pub open spec fn history_views(items: Seq<HistorySeries>) -> Seq<HistorySeriesView> {
    Seq::new(items.len(), |i: int| items[i]@)
}

/// The entity names of `history`, in order.
pub open spec fn series_names(history: Seq<HistorySeriesView>) -> Seq<Seq<char>> {
    Seq::new(history.len(), |i: int| history[i].name)
}

/// `samples` with `sample` appended, and the oldest sample dropped if that
/// made the series longer than `retention`.
pub open spec fn push_bounded(samples: Seq<i64>, sample: i64, retention: nat) -> Seq<i64> {
    let grown = samples.push(sample);
    if grown.len() > retention {
        grown.drop_first()
    } else {
        grown
    }
}

/// The samples kept for `name`; none if the entity has no series yet.
pub open spec fn samples_of(history: Seq<HistorySeriesView>, name: Seq<char>) -> Seq<i64> {
    match series_names(history).index_of_first(name) {
        Some(i) => history[i].samples,
        None => Seq::empty(),
    }
}

/// `history` after one sample of the entity `name`: its series takes the
/// sample, and an entity seen for the first time gets a series at the end.
pub open spec fn recorded(
    history: Seq<HistorySeriesView>,
    name: Seq<char>,
    sample: i64,
    retention: nat,
) -> Seq<HistorySeriesView> {
    match series_names(history).index_of_first(name) {
        Some(i) => history.update(
            i,
            HistorySeriesView { name, samples: push_bounded(history[i].samples, sample, retention) },
        ),
        None => history.push(
            HistorySeriesView {
                name,
                samples: push_bounded(Seq::empty(), sample, retention),
            },
        ),
    }
}

/// No series of `history` is longer than `retention`.
pub open spec fn within_retention(history: Seq<HistorySeriesView>, retention: nat) -> bool {
    forall|i: int| 0 <= i < history.len() ==> (#[trigger] history[i]).samples.len() <= retention
}

/// What a series that starts empty holds after the samples `events`, taken
/// one after the other.
pub open spec fn replayed(events: Seq<i64>, retention: nat) -> Seq<i64>
    decreases events.len(),
{
    if events.len() == 0 {
        Seq::empty()
    } else {
        push_bounded(replayed(events.drop_last(), retention), events.last(), retention)
    }
}

impl HistorySeries {
    /// An empty series for the entity `name`.
    pub fn new(name: String) -> (series: HistorySeries)
        ensures
            series@ == (HistorySeriesView { name: name@, samples: Seq::empty() }),
    {
        HistorySeries { name, samples: Vec::new() }
    }

    /// Appends `sample`; evicts the oldest sample if the series then holds
    /// more than `retention`.
    pub fn record(&mut self, sample: i64, retention: usize)
        ensures
            final(self).name == old(self).name,
            final(self).samples@ == push_bounded(old(self).samples@, sample, retention as nat),
    {
        self.samples.push(sample);
        if self.samples.len() > retention {
            self.samples.remove(0);
        }
    }
}

/// Records one sample of the entity `name` in `history`.
pub fn record_sample(history: &mut Vec<HistorySeries>, name: &String, sample: i64, retention: usize)
    ensures
        history_views(final(history)@) == recorded(
            history_views(old(history)@),
            name@,
            sample,
            retention as nat,
        ),
{
    proof {
        assert(series_names(history_views(history@)) =~= names_of(history@));
    }
    match find_by_name(history, name) {
        Some(i) => {
            let mut series = history.remove(i);
            series.record(sample, retention);
            history.insert(i, series);
            proof {
                assert(history_views(history@) =~= recorded(
                    history_views(old(history)@),
                    name@,
                    sample,
                    retention as nat,
                ));
            }
        },
        None => {
            let mut series = HistorySeries::new(name.clone());
            series.record(sample, retention);
            history.push(series);
            proof {
                assert(history_views(history@) =~= recorded(
                    history_views(old(history)@),
                    name@,
                    sample,
                    retention as nat,
                ));
            }
        },
    }
}

/// History bound, one step: a series within the retention count stays
/// within it, and grows by one sample until it is full.
pub proof fn lemma_push_bounded_len(samples: Seq<i64>, sample: i64, retention: nat)
    requires
        samples.len() <= retention,
    ensures
        push_bounded(samples, sample, retention).len() <= retention,
        push_bounded(samples, sample, retention).len() == if samples.len() < retention {
            samples.len() + 1
        } else {
            retention
        },
{
}

/// First in, first out: a full series drops exactly its oldest sample and
/// ends with the new one; the samples in between keep their order.
pub proof fn lemma_push_bounded_evicts_oldest(samples: Seq<i64>, sample: i64, retention: nat)
    requires
        samples.len() == retention,
        retention > 0,
    ensures
        push_bounded(samples, sample, retention) == samples.drop_first().push(sample),
{
    assert(samples.push(sample).drop_first() =~= samples.drop_first().push(sample));
}

/// History bound, every run: after any sequence of samples a series that
/// started empty holds the last `retention` of them (all of them while
/// there are fewer), oldest first.
pub proof fn lemma_replayed_is_tail(events: Seq<i64>, retention: nat)
    ensures
        replayed(events, retention).len() == if events.len() <= retention {
            events.len()
        } else {
            retention
        },
        replayed(events, retention) == events.subrange(
            if events.len() <= retention {
                0
            } else {
                events.len() - retention
            },
            events.len() as int,
        ),
    decreases events.len(),
{
    if events.len() == 0 {
        assert(replayed(events, retention) =~= events.subrange(0, 0));
    } else {
        let earlier = events.drop_last();
        lemma_replayed_is_tail(earlier, retention);
        let start = if events.len() <= retention {
            0
        } else {
            events.len() - retention
        };
        assert(replayed(events, retention) =~= events.subrange(start, events.len() as int));
    }
}

/// Recording a sample keeps every series within the retention count.
pub proof fn lemma_recorded_within_retention(
    history: Seq<HistorySeriesView>,
    name: Seq<char>,
    sample: i64,
    retention: nat,
)
    requires
        within_retention(history, retention),
    ensures
        within_retention(recorded(history, name, sample, retention), retention),
{
    let names = series_names(history);
    names.index_of_first_ensures(name);
    let after = recorded(history, name, sample, retention);
    assert forall|i: int| 0 <= i < after.len() implies (#[trigger] after[i]).samples.len()
        <= retention by {
        match names.index_of_first(name) {
            Some(k) => {
                if i == k {
                    lemma_push_bounded_len(history[k].samples, sample, retention);
                } else {
                    assert(after[i] == history[i]);
                }
            },
            None => {
                if i == history.len() {
                    lemma_push_bounded_len(Seq::empty(), sample, retention);
                } else {
                    assert(after[i] == history[i]);
                }
            },
        }
    }
}

/// Recording a sample keeps the series in place: the entities known before
/// keep their positions, at most one entity is added at the end, and
/// entity names stay distinct.
pub proof fn lemma_recorded_names(
    history: Seq<HistorySeriesView>,
    name: Seq<char>,
    sample: i64,
    retention: nat,
)
    ensures
        series_names(recorded(history, name, sample, retention)) == if series_names(
            history,
        ).contains(name) {
            series_names(history)
        } else {
            series_names(history).push(name)
        },
        series_names(history).no_duplicates() ==> series_names(
            recorded(history, name, sample, retention),
        ).no_duplicates(),
{
    let names = series_names(history);
    names.index_of_first_ensures(name);
    let after = recorded(history, name, sample, retention);
    if names.contains(name) {
        assert(series_names(after) =~= names);
    } else {
        assert(series_names(after) =~= names.push(name));
    }
}

/// Recording a sample of one entity gives that entity's series the sample
/// and leaves the samples of every other entity as they were.
pub proof fn lemma_recorded_samples(
    history: Seq<HistorySeriesView>,
    name: Seq<char>,
    sample: i64,
    retention: nat,
    other: Seq<char>,
)
    ensures
        samples_of(recorded(history, name, sample, retention), name) == push_bounded(
            samples_of(history, name),
            sample,
            retention,
        ),
        other != name ==> samples_of(recorded(history, name, sample, retention), other)
            == samples_of(history, other),
{
    let names = series_names(history);
    let after = recorded(history, name, sample, retention);
    let after_names = series_names(after);
    lemma_recorded_names(history, name, sample, retention);
    names.index_of_first_ensures(name);
    names.index_of_first_ensures(other);
    after_names.index_of_first_ensures(name);
    after_names.index_of_first_ensures(other);
    match names.index_of_first(name) {
        Some(k) => {
            lemma_first_occurrence(after_names, name, k);
        },
        None => {
            lemma_first_occurrence(after_names, name, history.len() as int);
        },
    }
    if other != name {
        match names.index_of_first(other) {
            Some(m) => {
                lemma_first_occurrence(after_names, other, m);
            },
            None => {
                if after_names.contains(other) {
                    let w = choose|w: int| 0 <= w < after_names.len() && after_names[w] == other;
                    if w < names.len() {
                        assert(names[w] == other);
                    }
                }
            },
        }
    }
}

/// A record with a metric whose history is kept.
pub trait Charted: Named {
    /// The current value of the charted metric.
    spec fn charted_view(&self) -> i64;

    /// The current value of the charted metric.
    fn charted(&self) -> (value: i64)
        ensures
            value == self.charted_view(),
    ;
}

/// `history` after one round of sampling: every record of `items`, in
/// order, has had its charted metric recorded under its name.
pub open spec fn sampled<T: Charted>(
    history: Seq<HistorySeriesView>,
    items: Seq<T>,
    retention: nat,
) -> Seq<HistorySeriesView>
    decreases items.len(),
{
    if items.len() == 0 {
        history
    } else {
        recorded(
            sampled(history, items.drop_last(), retention),
            items.last().name_view(),
            items.last().charted_view(),
            retention,
        )
    }
}

/// Records the charted metric of every record of `items`.
pub fn sample_all<T: Charted>(history: &mut Vec<HistorySeries>, items: &Vec<T>, retention: usize)
    ensures
        history_views(final(history)@) == sampled(
            history_views(old(history)@),
            items@,
            retention as nat,
        ),
{
    let mut i: usize = 0;
    while i < items.len()
        invariant
            i <= items.len(),
            history_views(history@) == sampled(
                history_views(old(history)@),
                items@.take(i as int),
                retention as nat,
            ),
        decreases items.len() - i,
    {
        record_sample(history, items[i].name(), items[i].charted(), retention);
        proof {
            assert(items@.take(i + 1).drop_last() =~= items@.take(i as int));
        }
        i += 1;
    }
    proof {
        assert(items@.take(i as int) =~= items@);
    }
}

/// History bound: a round of sampling keeps every series within the
/// retention count and the entity names distinct.
pub proof fn lemma_sampled_bounded<T: Charted>(
    history: Seq<HistorySeriesView>,
    items: Seq<T>,
    retention: nat,
)
    ensures
        within_retention(history, retention) ==> within_retention(
            sampled(history, items, retention),
            retention,
        ),
        series_names(history).no_duplicates() ==> series_names(
            sampled(history, items, retention),
        ).no_duplicates(),
    decreases items.len(),
{
    if items.len() > 0 {
        let earlier = sampled(history, items.drop_last(), retention);
        lemma_sampled_bounded(history, items.drop_last(), retention);
        if within_retention(history, retention) {
            lemma_recorded_within_retention(
                earlier,
                items.last().name_view(),
                items.last().charted_view(),
                retention,
            );
        }
        lemma_recorded_names(
            earlier,
            items.last().name_view(),
            items.last().charted_view(),
            retention,
        );
    }
}

/// A round of sampling touches only the series of the records sampled: the
/// samples of an entity that is not among `items` stay as they were.
pub proof fn lemma_sampled_leaves_others<T: Charted>(
    history: Seq<HistorySeriesView>,
    items: Seq<T>,
    retention: nat,
    other: Seq<char>,
)
    requires
        !names_of(items).contains(other),
    ensures
        samples_of(sampled(history, items, retention), other) == samples_of(history, other),
    decreases items.len(),
{
    if items.len() > 0 {
        let earlier = sampled(history, items.drop_last(), retention);
        let last = items.last();
        assert(names_of(items)[items.len() - 1] == last.name_view());
        assert forall|k: int| 0 <= k < items.drop_last().len() implies names_of(
            items.drop_last(),
        )[k] != other by {
            assert(names_of(items)[k] == names_of(items.drop_last())[k]);
        }
        lemma_sampled_leaves_others(history, items.drop_last(), retention, other);
        lemma_recorded_samples(earlier, last.name_view(), last.charted_view(), retention, other);
    }
}

/// One sample per entity and round: where the records have distinct names,
/// a round of sampling appends to the series of record `i` exactly the
/// current value of its charted metric, evicting the oldest sample if the
/// series was full.
pub proof fn lemma_sampled_pushes_once<T: Charted>(
    history: Seq<HistorySeriesView>,
    items: Seq<T>,
    retention: nat,
    i: int,
)
    requires
        names_of(items).no_duplicates(),
        0 <= i < items.len(),
    ensures
        samples_of(sampled(history, items, retention), items[i].name_view()) == push_bounded(
            samples_of(history, items[i].name_view()),
            items[i].charted_view(),
            retention,
        ),
    decreases items.len(),
{
    let earlier_items = items.drop_last();
    let earlier = sampled(history, earlier_items, retention);
    let last = items.last();
    let name = items[i].name_view();
    assert(names_of(items)[i] == name);
    assert(names_of(items)[items.len() - 1] == last.name_view());
    assert forall|a: int, b: int|
        0 <= a < earlier_items.len() && 0 <= b < earlier_items.len() && a != b implies names_of(
        earlier_items,
    )[a] != names_of(earlier_items)[b] by {
        assert(names_of(items)[a] == names_of(earlier_items)[a]);
        assert(names_of(items)[b] == names_of(earlier_items)[b]);
    }
    if i == items.len() - 1 {
        assert forall|k: int| 0 <= k < earlier_items.len() implies names_of(earlier_items)[k]
            != name by {
            assert(names_of(items)[k] == names_of(earlier_items)[k]);
        }
        lemma_sampled_leaves_others(history, earlier_items, retention, name);
        lemma_recorded_samples(earlier, name, last.charted_view(), retention, name);
    } else {
        lemma_sampled_pushes_once(history, earlier_items, retention, i);
        lemma_recorded_samples(earlier, last.name_view(), last.charted_view(), retention, name);
    }
}

/// Whether no series of `history` is longer than `retention`.
pub fn fits_retention(history: &Vec<HistorySeries>, retention: usize) -> (fits: bool)
    ensures
        fits == within_retention(history_views(history@), retention as nat),
{
    let mut i: usize = 0;
    while i < history.len()
        invariant
            i <= history.len(),
            forall|k: int| 0 <= k < i ==> (#[trigger] history@[k]).samples@.len() <= retention,
        decreases history.len() - i,
    {
        if history[i].samples.len() > retention {
            proof {
                assert(history_views(history@)[i as int].samples.len() > retention);
            }
            return false;
        }
        i += 1;
    }
    proof {
        assert forall|k: int| 0 <= k < history_views(history@).len() implies (
        #[trigger] history_views(history@)[k]).samples.len() <= retention by {
            assert(history@[k].samples@.len() <= retention);
        }
    }
    true
}

} // verus!
