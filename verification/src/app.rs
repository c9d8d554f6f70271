//! The live state of the dashboard: the records on display, their
//! histories, the connection status, and what the user has selected.
//!
//! The state is driven from one loop. Each tick advances the counter and,
//! at the sampling cadence, the histories; each reconciliation merges a
//! fetch or lets the records drift; each key press is one of the
//! navigation commands. None of them adds, removes or reorders a record.

use vstd::prelude::*;
use crate::config::Config;
use crate::drift::{NodeDrift, ServiceDrift};
use crate::history::{
    fits_retention, history_views, lemma_sampled_bounded, sample_all, sampled, series_names,
    within_retention, HistorySeries, HistorySeriesView,
};
use crate::mock_data::{
    copy_nodes, copy_services, generate_mock_metrics, mock_nodes, mock_services, node_names,
    node_views, service_names, service_views, NodeMetrics, NodeMetricsView, ServiceMetrics,
    ServiceMetricsView,
};
use crate::prometheus_client::{
    fetch_due, resolved_nodes, resolved_services, PrometheusClient, QueryResults,
};
use crate::reconcile::{
    drift_nodes, drift_services, drifted_nodes, drifted_services, lemma_reconciled_nodes_stable,
    lemma_reconciled_services_stable, merge_nodes, merge_services, merged_nodes, merged_services,
    node_steps_in_range, service_steps_in_range, NodeEvent, ServiceEvent,
};
use crate::roster::{has_unique_names, names_of, unique_names};
use crate::selection::{
    clamp_index, clamped_index, lemma_navigation_in_range, lemma_toggled_flips, next_index,
    previous_index, step_down, step_up, toggle_pin, toggled,
};
use crate::text::{contains, is_substring, texts};
use crate::theme::{palette, Theme, ThemeColors};

verus! {

/// The tab on display.
#[derive(Debug, Clone, Copy, PartialEq, Eq, Structural)]
pub enum CurrentTab {
    Overview,
    Nodes,
    Services,
    Compare,
}

/// The panel that takes the navigation keys.
#[derive(Debug, Clone, Copy, PartialEq, Eq, Structural)]
pub enum ActivePanel {
    Nodes,
    Services,
}

/// The free-text filters on the lists.
#[derive(Debug, Clone, PartialEq, Eq)]
pub struct FilterState {
    pub enabled: bool,
    pub selected_node: Option<String>,
    pub selected_namespace: Option<String>,
    pub selected_service: Option<String>,
}

/// Whether the backend is there.
#[derive(Debug, Clone, PartialEq, Eq)]
pub enum ConnectionStatus {
    Connected,
    /// The backend is away, for the reason given.
    Disconnected(String),
    Connecting,
}

/// `text` passes the filter `pattern`: there is no pattern, or the pattern
/// occurs in the text.
pub open spec fn passes(pattern: Option<String>, text: Seq<char>) -> bool {
    match pattern {
        Some(p) => is_substring(p@, text),
        None => true,
    }
}

impl FilterState {
    /// No filter is set.
    pub fn new() -> (filter: FilterState)
        ensures
            !filter.enabled,
            filter.selected_node is None,
            filter.selected_namespace is None,
            filter.selected_service is None,
    {
        FilterState {
            enabled: false,
            selected_node: None,
            selected_namespace: None,
            selected_service: None,
        }
    }

    /// The node passes the node filter.
    pub open spec fn admits_node(&self, node: NodeMetricsView) -> bool {
        passes(self.selected_node, node.name)
    }

    /// The service passes the namespace filter and the service filter.
    pub open spec fn admits_service(&self, service: ServiceMetricsView) -> bool {
        passes(self.selected_namespace, service.namespace) && passes(
            self.selected_service,
            service.name,
        )
    }
}

/// The names of the nodes that pass the filter, in display order.
pub open spec fn visible_nodes(nodes: Seq<NodeMetricsView>, filter: FilterState) -> Seq<Seq<char>> {
    nodes.filter_map(
        |node: NodeMetricsView|
            if filter.admits_node(node) {
                Some(node.name)
            } else {
                None
            },
    )
}

/// The names of the services that pass the filters, in display order.
pub open spec fn visible_services(services: Seq<ServiceMetricsView>, filter: FilterState) -> Seq<
    Seq<char>,
> {
    services.filter_map(
        |service: ServiceMetricsView|
            if filter.admits_service(service) {
                Some(service.name)
            } else {
                None
            },
    )
}

/// The live state of the dashboard.
#[derive(Debug)]
pub struct App {
    pub title: String,
    pub should_quit: bool,
    pub current_tab: CurrentTab,
    pub active_panel: ActivePanel,
    /// Selected row among the visible nodes.
    pub selected_node_index: usize,
    /// Selected row among the visible services.
    pub selected_service_index: usize,
    /// Selected row among the entities of the current tab.
    pub selected_item_index: usize,
    pub filter: FilterState,
    /// Names of the entities the user has pinned, in the order of pinning.
    pub selected_items: Vec<String>,
    pub tick_count: u64,
    pub current_theme: Theme,
    pub theme_colors: ThemeColors,
    pub config: Config,
    pub prometheus_client: PrometheusClient,
    pub connection_status: ConnectionStatus,
    /// The nodes, in display order.
    pub nodes: Vec<NodeMetrics>,
    /// The services, in display order.
    pub services: Vec<ServiceMetrics>,
    /// CPU history per node.
    pub node_history: Vec<HistorySeries>,
    /// CPU history per service.
    pub service_history: Vec<HistorySeries>,
}

/// How the dashboard came up: with the candidates of the adapter and the
/// status connected if the probe was answered and the adapter has taken a
/// fetch; with the synthetic snapshot and the status disconnected in every
/// other case.
pub open spec fn seeded(
    probe: Result<bool, String>,
    client: PrometheusClient,
    nodes: Seq<NodeMetricsView>,
    services: Seq<ServiceMetricsView>,
    status: ConnectionStatus,
) -> bool {
    match probe {
        Ok(answered) => if answered && client.last_update() is Some {
            &&& nodes == client.nodes()
            &&& services == client.services()
            &&& status == ConnectionStatus::Connected
        } else {
            &&& nodes == mock_nodes()
            &&& services == mock_services()
            &&& status matches ConnectionStatus::Disconnected(reason)
            &&& reason@ == "No response"@
        },
        Err(reason) => {
            &&& nodes == mock_nodes()
            &&& services == mock_services()
            &&& status == ConnectionStatus::Disconnected(reason)
        },
    }
}

impl App {
    /// The state is well formed: names are distinct within the nodes, the
    /// services, each set of histories and the pinned names; no history
    /// series is longer than the retention count; and the palette is that
    /// of the theme.
    pub open spec fn wf(&self) -> bool {
        &&& unique_names(self.nodes@)
        &&& unique_names(self.services@)
        &&& unique_names(self.node_history@)
        &&& unique_names(self.service_history@)
        &&& texts(self.selected_items@).no_duplicates()
        &&& within_retention(
            history_views(self.node_history@),
            self.config.general.history_retention as nat,
        )
        &&& within_retention(
            history_views(self.service_history@),
            self.config.general.history_retention as nat,
        )
        &&& self.theme_colors == palette(self.current_theme)
    }

    /// Whether the state is well formed. Every operation of the dashboard
    /// keeps it so; the check is for a state whose fields were written to
    /// from outside.
    pub fn is_well_formed(&self) -> (ok: bool)
        ensures
            ok == self.wf(),
    {
        proof {
            assert(names_of(self.selected_items@) =~= texts(self.selected_items@));
        }
        has_unique_names(&self.nodes) && has_unique_names(&self.services) && has_unique_names(
            &self.node_history,
        ) && has_unique_names(&self.service_history) && has_unique_names(&self.selected_items)
            && fits_retention(
            &self.node_history,
            self.config.general.history_retention,
        ) && fits_retention(&self.service_history, self.config.general.history_retention)
            && self.theme_colors == ThemeColors::from_theme(self.current_theme)
    }

    /// Brings the dashboard up.
    ///
    /// `probe` is the outcome of the connection test: `Ok(true)` if the
    /// backend answered, `Ok(false)` if it gave an empty answer, and the
    /// reason if the test or the first fetch failed. The records are taken
    /// from the backend only if the backend answered and the adapter has
    /// taken a fetch; if the adapter never took one, they are seeded from
    /// the synthetic snapshot. Either way this is the one place where the
    /// set and the order of the records are fixed.
    pub fn new_with_config(
        config: Config,
        prometheus_client: PrometheusClient,
        probe: Result<bool, String>,
    ) -> (app: App)
        ensures
            app.wf(),
            seeded(
                probe,
                prometheus_client,
                node_views(app.nodes@),
                service_views(app.services@),
                app.connection_status,
            ),
            app.config == config,
            app.prometheus_client == prometheus_client,
            app.current_theme == Theme::named(config.general.theme@),
            app.title@ == "Monitorium - Homelab Monitoring"@,
            !app.should_quit,
            app.current_tab == CurrentTab::Overview,
            app.active_panel == ActivePanel::Nodes,
            app.selected_node_index == 0,
            app.selected_service_index == 0,
            app.selected_item_index == 0,
            !app.filter.enabled,
            app.filter.selected_node is None,
            app.filter.selected_namespace is None,
            app.filter.selected_service is None,
            app.selected_items@.len() == 0,
            app.tick_count == 0,
            app.node_history@.len() == 0,
            app.service_history@.len() == 0,
    {
        let theme = Theme::from_config_name(config.general.theme.as_str());
        let theme_colors = ThemeColors::from_theme(theme);
        let (nodes, services, connection_status) = match probe {
            Ok(answered) => {
                if answered && prometheus_client.has_fetched() {
                    let fetched_nodes = prometheus_client.get_nodes();
                    let fetched_services = prometheus_client.get_services();
                    let nodes = copy_nodes(fetched_nodes);
                    let services = copy_services(fetched_services);
                    (nodes, services, ConnectionStatus::Connected)
                } else {
                    let (nodes, services) = generate_mock_metrics();
                    (nodes, services, ConnectionStatus::Disconnected("No response".to_string()))
                }
            },
            Err(reason) => {
                let (nodes, services) = generate_mock_metrics();
                (nodes, services, ConnectionStatus::Disconnected(reason))
            },
        };
        App {
            title: "Monitorium - Homelab Monitoring".to_string(),
            should_quit: false,
            current_tab: CurrentTab::Overview,
            active_panel: ActivePanel::Nodes,
            selected_node_index: 0,
            selected_service_index: 0,
            selected_item_index: 0,
            filter: FilterState::new(),
            selected_items: Vec::new(),
            tick_count: 0,
            current_theme: theme,
            theme_colors,
            config,
            prometheus_client,
            connection_status,
            nodes,
            services,
            node_history: Vec::new(),
            service_history: Vec::new(),
        }
    }
}

/// The number of ticks between two history samples: the least number of
/// redraw periods that make up a second, and never less than one.
pub open spec fn history_interval(refresh_rate_ms: u64) -> int {
    1000int / (refresh_rate_ms as int) + if 1000int % (refresh_rate_ms as int) == 0 {
        0int
    } else {
        1int
    }
}

/// Whether the tick that brought the counter to `tick_count` takes a
/// history sample.
pub open spec fn sample_due(tick_count: u64, refresh_rate_ms: u64) -> bool {
    tick_count as int % history_interval(refresh_rate_ms) == 0
}

/// The interval is the ceiling of a second over the redraw period: that
/// many periods cover a second, and one period less does not.
pub proof fn lemma_history_interval_is_ceiling(refresh_rate_ms: u64)
    requires
        refresh_rate_ms > 0,
    ensures
        history_interval(refresh_rate_ms) >= 1,
        history_interval(refresh_rate_ms) * refresh_rate_ms >= 1000,
        (history_interval(refresh_rate_ms) - 1) * refresh_rate_ms < 1000,
{
    let r: int = refresh_rate_ms as int;
    vstd::arithmetic::div_mod::lemma_fundamental_div_mod(1000, r);
    let q: int = 1000int / r;
    let m: int = 1000int % r;
    assert(0 <= m < r);
    assert(q >= 0) by (nonlinear_arith)
        requires
            1000 == r * q + m,
            0 <= m < r,
            r > 0,
    ;
    assert(q * r == r * q) by (nonlinear_arith);
    assert((q + 1) * r == q * r + r) by (nonlinear_arith);
    assert((q - 1) * r == q * r - r) by (nonlinear_arith);
}

/// The number of ticks between two history samples.
pub fn history_interval_ticks(refresh_rate_ms: u64) -> (ticks: u64)
    requires
        refresh_rate_ms > 0,
    ensures
        ticks == history_interval(refresh_rate_ms),
        ticks >= 1,
{
    proof {
        lemma_history_interval_is_ceiling(refresh_rate_ms);
    }
    let whole: u64 = 1000 / refresh_rate_ms;
    if 1000 % refresh_rate_ms == 0 {
        whole
    } else {
        whole + 1
    }
}

impl App {
    /// The histories after a round of sampling on the current records.
    pub open spec fn sampled_node_history(&self) -> Seq<HistorySeriesView> {
        sampled(
            history_views(self.node_history@),
            self.nodes@,
            self.config.general.history_retention as nat,
        )
    }

    /// The histories after a round of sampling on the current records.
    pub open spec fn sampled_service_history(&self) -> Seq<HistorySeriesView> {
        sampled(
            history_views(self.service_history@),
            self.services@,
            self.config.general.history_retention as nat,
        )
    }

    /// This state is what one tick makes of `before`: the counter stands
    /// one higher; if it then stands at a multiple of the sampling
    /// interval, the histories have taken one sample of every record, and
    /// otherwise they are as they were. Nothing else differs.
    pub open spec fn ticked_from(&self, before: App) -> bool {
        &&& self.tick_count == before.tick_count + 1
        &&& *self == (App {
            tick_count: self.tick_count,
            node_history: self.node_history,
            service_history: self.service_history,
            ..before
        })
        &&& history_views(self.node_history@) == if sample_due(
            self.tick_count,
            before.config.ui.refresh_rate_ms,
        ) {
            before.sampled_node_history()
        } else {
            history_views(before.node_history@)
        }
        &&& history_views(self.service_history@) == if sample_due(
            self.tick_count,
            before.config.ui.refresh_rate_ms,
        ) {
            before.sampled_service_history()
        } else {
            history_views(before.service_history@)
        }
    }

    /// Advances the tick counter and, on every tick that completes a
    /// sampling interval, appends the current CPU load of every node and
    /// service to its history.
    ///
    /// Nothing but the counter and the histories changes. A series that is
    /// full evicts its oldest sample, so no series ever outgrows the
    /// retention count.
    pub fn on_tick(&mut self)
        requires
            old(self).tick_count < u64::MAX,
            old(self).config.ui.refresh_rate_ms > 0,
        ensures
            final(self).ticked_from(*old(self)),
            old(self).wf() ==> final(self).wf(),
    {
        self.tick_count += 1;
        self.update_history();
    }

    /// Takes a history sample if the tick counter stands at a multiple of
    /// the sampling interval.
    pub fn update_history(&mut self)
        requires
            old(self).config.ui.refresh_rate_ms > 0,
        ensures
            old(self).wf() ==> final(self).wf(),
            *final(self) == (App {
                node_history: final(self).node_history,
                service_history: final(self).service_history,
                ..*old(self)
            }),
            history_views(final(self).node_history@) == if sample_due(
                old(self).tick_count,
                old(self).config.ui.refresh_rate_ms,
            ) {
                old(self).sampled_node_history()
            } else {
                history_views(old(self).node_history@)
            },
            history_views(final(self).service_history@) == if sample_due(
                old(self).tick_count,
                old(self).config.ui.refresh_rate_ms,
            ) {
                old(self).sampled_service_history()
            } else {
                history_views(old(self).service_history@)
            },
    {
        let max_history: usize = self.config.general.history_retention;
        let update_interval: u64 = history_interval_ticks(self.config.ui.refresh_rate_ms);
        if self.tick_count % update_interval != 0 {
            return ;
        }
        proof {
            assert(series_names(history_views(self.node_history@)) =~= names_of(
                self.node_history@,
            ));
            assert(series_names(history_views(self.service_history@)) =~= names_of(
                self.service_history@,
            ));
            lemma_sampled_bounded(
                history_views(self.node_history@),
                self.nodes@,
                max_history as nat,
            );
            lemma_sampled_bounded(
                history_views(self.service_history@),
                self.services@,
                max_history as nat,
            );
        }
        sample_all(&mut self.node_history, &self.nodes, max_history);
        sample_all(&mut self.service_history, &self.services, max_history);
        proof {
            assert(series_names(history_views(self.node_history@)) =~= names_of(
                self.node_history@,
            ));
            assert(series_names(history_views(self.service_history@)) =~= names_of(
                self.service_history@,
            ));
        }
    }
}

impl App {
    /// This state is what a successful fetch at `now_ms` makes of
    /// `before`: the adapter holds the candidates resolved from `results`,
    /// every record that is among them shows their live metrics, and the
    /// status is connected. Nothing else differs.
    pub open spec fn refreshed_from(&self, before: App, now_ms: u64, results: QueryResults) -> bool {
        &&& *self == (App {
            prometheus_client: self.prometheus_client,
            nodes: self.nodes,
            services: self.services,
            connection_status: ConnectionStatus::Connected,
            ..before
        })
        &&& self.prometheus_client.config() == before.prometheus_client.config()
        &&& self.prometheus_client.last_update() == Some(now_ms)
        &&& self.prometheus_client.nodes() == resolved_nodes(results)
        &&& self.prometheus_client.services() == resolved_services(results)
        &&& node_views(self.nodes@) == merged_nodes(node_views(before.nodes@), resolved_nodes(results))
        &&& service_views(self.services@) == merged_services(
            service_views(before.services@),
            resolved_services(results),
        )
    }

    /// This state is what one drift step of every record makes of
    /// `before`: each record has moved by offsets from its step intervals.
    /// Nothing but the records differs.
    pub open spec fn drifted_from(&self, before: App) -> bool {
        &&& *self == (App { nodes: self.nodes, services: self.services, ..before })
        &&& exists|by: Seq<NodeDrift>|
            {
                &&& by.len() == before.nodes@.len()
                &&& node_steps_in_range(by)
                &&& node_views(self.nodes@) == #[trigger] drifted_nodes(
                    node_views(before.nodes@),
                    by,
                )
            }
        &&& exists|by: Seq<ServiceDrift>|
            {
                &&& by.len() == before.services@.len()
                &&& service_steps_in_range(by)
                &&& service_views(self.services@) == #[trigger] drifted_services(
                    service_views(before.services@),
                    by,
                )
            }
    }

    /// This state is what the reconciliation with the outcome `fetched` of
    /// a fetch at `now_ms` makes of `before`:
    ///
    /// * nothing, if the fetch came back but fell into the throttle window;
    /// * a refresh, if it was due and at least one query was answered;
    /// * a drift under the status disconnected, if it was due and no query
    ///   was answered, or if it did not come back at all. The reason in the
    ///   status is that of the failure.
    pub open spec fn reconciled_from(
        &self,
        before: App,
        now_ms: u64,
        fetched: Result<QueryResults, String>,
    ) -> bool {
        match fetched {
            Ok(results) => if !fetch_due(
                before.prometheus_client.last_update(),
                before.prometheus_client.config().query_interval_secs,
                now_ms,
            ) {
                *self == before
            } else if results.has_answer() {
                self.refreshed_from(before, now_ms, results)
            } else {
                &&& self.connection_status matches ConnectionStatus::Disconnected(reason)
                &&& reason@ == results.failure_text()
                &&& self.drifted_from(App { connection_status: self.connection_status, ..before })
            },
            Err(reason) => self.drifted_from(
                App { connection_status: ConnectionStatus::Disconnected(reason), ..before },
            ),
        }
    }

    /// Reconciles the state with the outcome of a fetch made at `now_ms`.
    ///
    /// * The fetch came back but fell into the throttle window: nothing
    ///   changes.
    /// * The fetch was due and at least one query was answered: the adapter
    ///   rebuilds its candidates from the answers, every record that is
    ///   among the candidates takes their live metrics, and the status
    ///   becomes connected.
    /// * The fetch failed, because it was due and no query was answered or
    ///   because it did not come back at all: the adapter keeps its
    ///   candidates, the status becomes disconnected with the reason of the
    ///   failure, and every record drifts by one bounded step.
    ///
    /// In no case is a record added, removed or moved, and in no case does
    /// a record's identity or static descriptor change.
    pub fn update_prometheus_metrics(&mut self, now_ms: u64, fetched: Result<QueryResults, String>)
        ensures
            final(self).reconciled_from(*old(self), now_ms, fetched),
            old(self).wf() ==> final(self).wf(),
            names_of(final(self).nodes@) == names_of(old(self).nodes@),
            names_of(final(self).services@) == names_of(old(self).services@),
    {
        match fetched {
            Ok(results) => {
                match self.prometheus_client.update_metrics(now_ms, &results) {
                    Ok(true) => {
                        let new_nodes = self.prometheus_client.get_nodes();
                        let new_services = self.prometheus_client.get_services();
                        merge_nodes(&mut self.nodes, new_nodes);
                        merge_services(&mut self.services, new_services);
                        self.connection_status = ConnectionStatus::Connected;
                        proof {
                            lemma_reconciled_nodes_stable(
                                node_views(old(self).nodes@),
                                NodeEvent::Refreshed(resolved_nodes(results)),
                            );
                            lemma_reconciled_services_stable(
                                service_views(old(self).services@),
                                ServiceEvent::Refreshed(resolved_services(results)),
                            );
                            lemma_names_by_view(old(self).nodes@, self.nodes@);
                            lemma_service_names_by_view(old(self).services@, self.services@);
                        }
                    },
                    Ok(false) => {},
                    Err(reason) => {
                        self.connection_status = ConnectionStatus::Disconnected(reason);
                        let _ = self.update_mock_metrics();
                    },
                }
            },
            Err(reason) => {
                self.connection_status = ConnectionStatus::Disconnected(reason);
                let _ = self.update_mock_metrics();
            },
        }
    }

    /// Lets every node and every service drift by one bounded step, with
    /// offsets drawn afresh for each record, and returns the offsets drawn.
    ///
    /// Only the drifting metrics move, each by its offset and never out of
    /// its clamp range; set, order and identity of the records stay.
    pub fn update_mock_metrics(&mut self) -> (drawn: (Vec<NodeDrift>, Vec<ServiceDrift>))
        ensures
            old(self).wf() ==> final(self).wf(),
            final(self).drifted_from(*old(self)),
            names_of(final(self).nodes@) == names_of(old(self).nodes@),
            names_of(final(self).services@) == names_of(old(self).services@),
            drawn.0@.len() == old(self).nodes@.len(),
            drawn.1@.len() == old(self).services@.len(),
            node_steps_in_range(drawn.0@),
            service_steps_in_range(drawn.1@),
            node_views(final(self).nodes@) == drifted_nodes(node_views(old(self).nodes@), drawn.0@),
            service_views(final(self).services@) == drifted_services(
                service_views(old(self).services@),
                drawn.1@,
            ),
    {
        let node_steps = drift_nodes(&mut self.nodes);
        let service_steps = drift_services(&mut self.services);
        proof {
            lemma_reconciled_nodes_stable(
                node_views(old(self).nodes@),
                NodeEvent::Drifted(node_steps@),
            );
            lemma_reconciled_services_stable(
                service_views(old(self).services@),
                ServiceEvent::Drifted(service_steps@),
            );
            lemma_names_by_view(old(self).nodes@, self.nodes@);
            lemma_service_names_by_view(old(self).services@, self.services@);
        }
        (node_steps, service_steps)
    }
}

/// Records whose views carry the same names carry the same names.
proof fn lemma_names_by_view(before: Seq<NodeMetrics>, after: Seq<NodeMetrics>)
    requires
        node_names(node_views(after)) == node_names(node_views(before)),
    ensures
        names_of(after) == names_of(before),
{
    assert(names_of(after) =~= node_names(node_views(after)));
    assert(names_of(before) =~= node_names(node_views(before)));
}

/// Records whose views carry the same names carry the same names.
proof fn lemma_service_names_by_view(before: Seq<ServiceMetrics>, after: Seq<ServiceMetrics>)
    requires
        service_names(service_views(after)) == service_names(service_views(before)),
    ensures
        names_of(after) == names_of(before),
{
    assert(names_of(after) =~= service_names(service_views(after)));
    assert(names_of(before) =~= service_names(service_views(before)));
}

impl CurrentTab {
    /// The tab to the right; after the last comes the first.
    pub open spec fn successor(self) -> CurrentTab {
        match self {
            CurrentTab::Overview => CurrentTab::Nodes,
            CurrentTab::Nodes => CurrentTab::Services,
            CurrentTab::Services => CurrentTab::Compare,
            CurrentTab::Compare => CurrentTab::Overview,
        }
    }

    /// The tab to the left; before the first comes the last.
    pub open spec fn predecessor(self) -> CurrentTab {
        match self {
            CurrentTab::Overview => CurrentTab::Compare,
            CurrentTab::Nodes => CurrentTab::Overview,
            CurrentTab::Services => CurrentTab::Nodes,
            CurrentTab::Compare => CurrentTab::Services,
        }
    }
}

impl ActivePanel {
    /// The other panel.
    pub open spec fn other(self) -> ActivePanel {
        match self {
            ActivePanel::Nodes => ActivePanel::Services,
            ActivePanel::Services => ActivePanel::Nodes,
        }
    }
}

fn passes_filter(pattern: &Option<String>, text: &String) -> (ok: bool)
    ensures
        ok == passes(*pattern, text@),
{
    match pattern {
        Some(p) => contains(text.as_str(), p.as_str()),
        None => true,
    }
}

impl App {
    /// The names of the rows of the node panel: the nodes that pass the
    /// filter, in display order.
    pub open spec fn node_rows(&self) -> Seq<Seq<char>> {
        visible_nodes(node_views(self.nodes@), self.filter)
    }

    /// The names of the rows of the service panel: the services that pass
    /// the filters, in display order.
    pub open spec fn service_rows(&self) -> Seq<Seq<char>> {
        visible_services(service_views(self.services@), self.filter)
    }

    /// The names of the entities of the current tab, unfiltered.
    pub open spec fn tab_items(&self) -> Seq<Seq<char>> {
        match self.current_tab {
            CurrentTab::Nodes => names_of(self.nodes@),
            CurrentTab::Services => names_of(self.services@),
            _ => Seq::empty(),
        }
    }

    /// The names of the rows of the node panel.
    pub fn visible_node_names(&self) -> (names: Vec<String>)
        ensures
            texts(names@) == self.node_rows(),
    {
        let ghost views = node_views(self.nodes@);
        let ghost pick = |node: NodeMetricsView|
            if self.filter.admits_node(node) {
                Some(node.name)
            } else {
                None
            };
        let mut names: Vec<String> = Vec::new();
        let mut i: usize = 0;
        proof {
            assert(views.take(0).filter_map(pick) =~= Seq::<Seq<char>>::empty());
        }
        while i < self.nodes.len()
            invariant
                i <= self.nodes.len(),
                views == node_views(self.nodes@),
                pick == |node: NodeMetricsView|
                    if self.filter.admits_node(node) {
                        Some(node.name)
                    } else {
                        None
                    },
                texts(names@) =~= views.take(i as int).filter_map(pick),
            decreases self.nodes.len() - i,
        {
            let node = &self.nodes[i];
            proof {
                views.lemma_filter_map_take_succ(pick, i as int);
            }
            if passes_filter(&self.filter.selected_node, &node.name) {
                names.push(node.name.clone());
            }
            i += 1;
        }
        proof {
            assert(views.take(i as int) =~= views);
        }
        names
    }

    /// The names of the rows of the service panel.
    pub fn visible_service_names(&self) -> (names: Vec<String>)
        ensures
            texts(names@) == self.service_rows(),
    {
        let ghost views = service_views(self.services@);
        let ghost pick = |service: ServiceMetricsView|
            if self.filter.admits_service(service) {
                Some(service.name)
            } else {
                None
            };
        let mut names: Vec<String> = Vec::new();
        let mut i: usize = 0;
        proof {
            assert(views.take(0).filter_map(pick) =~= Seq::<Seq<char>>::empty());
        }
        while i < self.services.len()
            invariant
                i <= self.services.len(),
                views == service_views(self.services@),
                pick == |service: ServiceMetricsView|
                    if self.filter.admits_service(service) {
                        Some(service.name)
                    } else {
                        None
                    },
                texts(names@) =~= views.take(i as int).filter_map(pick),
            decreases self.services.len() - i,
        {
            let service = &self.services[i];
            proof {
                views.lemma_filter_map_take_succ(pick, i as int);
            }
            if passes_filter(&self.filter.selected_namespace, &service.namespace) && passes_filter(
                &self.filter.selected_service,
                &service.name,
            ) {
                names.push(service.name.clone());
            }
            i += 1;
        }
        proof {
            assert(views.take(i as int) =~= views);
        }
        names
    }

    /// The names that the current tab lists: the visible nodes on the node
    /// tab, the visible services on the service tab, nothing elsewhere.
    pub fn get_filtered_items(&self) -> (items: Vec<String>)
        ensures
            texts(items@) == match self.current_tab {
                CurrentTab::Nodes => self.node_rows(),
                CurrentTab::Services => self.service_rows(),
                _ => Seq::empty(),
            },
    {
        match self.current_tab {
            CurrentTab::Nodes => self.visible_node_names(),
            CurrentTab::Services => self.visible_service_names(),
            _ => {
                let items: Vec<String> = Vec::new();
                proof {
                    assert(texts(items@) =~= Seq::<Seq<char>>::empty());
                }
                items
            },
        }
    }

    /// Moves the node selection one row down, from the last row to the
    /// first.
    pub fn next_node(&mut self)
        ensures
            *final(self) == (App {
                selected_node_index: final(self).selected_node_index,
                ..*old(self)
            }),
            final(self).selected_node_index == next_index(
                old(self).selected_node_index as int,
                old(self).node_rows().len() as int,
            ),
    {
        let node_count: usize = self.visible_node_names().len();
        self.selected_node_index = step_down(self.selected_node_index, node_count);
    }

    /// Moves the node selection one row up, from the first row to the
    /// last.
    pub fn previous_node(&mut self)
        ensures
            *final(self) == (App {
                selected_node_index: final(self).selected_node_index,
                ..*old(self)
            }),
            final(self).selected_node_index == previous_index(
                old(self).selected_node_index as int,
                old(self).node_rows().len() as int,
            ),
    {
        let node_count: usize = self.visible_node_names().len();
        self.selected_node_index = step_up(self.selected_node_index, node_count);
    }

    /// Moves the service selection one row down, from the last row to the
    /// first.
    pub fn next_service(&mut self)
        ensures
            *final(self) == (App {
                selected_service_index: final(self).selected_service_index,
                ..*old(self)
            }),
            final(self).selected_service_index == next_index(
                old(self).selected_service_index as int,
                old(self).service_rows().len() as int,
            ),
    {
        let service_count: usize = self.visible_service_names().len();
        self.selected_service_index = step_down(self.selected_service_index, service_count);
    }

    /// Moves the service selection one row up, from the first row to the
    /// last.
    pub fn previous_service(&mut self)
        ensures
            *final(self) == (App {
                selected_service_index: final(self).selected_service_index,
                ..*old(self)
            }),
            final(self).selected_service_index == previous_index(
                old(self).selected_service_index as int,
                old(self).service_rows().len() as int,
            ),
    {
        let service_count: usize = self.visible_service_names().len();
        self.selected_service_index = step_up(self.selected_service_index, service_count);
    }

    /// Hands the navigation keys to the other panel.
    pub fn switch_panel(&mut self)
        ensures
            *final(self) == (App { active_panel: old(self).active_panel.other(), ..*old(self) }),
    {
        match self.active_panel {
            ActivePanel::Nodes => {
                self.active_panel = ActivePanel::Services;
            },
            ActivePanel::Services => {
                self.active_panel = ActivePanel::Nodes;
            },
        }
    }

    /// Moves the selection of the active panel one row up.
    pub fn navigate_up(&mut self)
        ensures
            match old(self).active_panel {
                ActivePanel::Nodes => {
                    &&& *final(self) == (App {
                        selected_node_index: final(self).selected_node_index,
                        ..*old(self)
                    })
                    &&& final(self).selected_node_index == previous_index(
                        old(self).selected_node_index as int,
                        old(self).node_rows().len() as int,
                    )
                },
                ActivePanel::Services => {
                    &&& *final(self) == (App {
                        selected_service_index: final(self).selected_service_index,
                        ..*old(self)
                    })
                    &&& final(self).selected_service_index == previous_index(
                        old(self).selected_service_index as int,
                        old(self).service_rows().len() as int,
                    )
                },
            },
    {
        match self.active_panel {
            ActivePanel::Nodes => self.previous_node(),
            ActivePanel::Services => self.previous_service(),
        }
    }

    /// Moves the selection of the active panel one row down.
    pub fn navigate_down(&mut self)
        ensures
            match old(self).active_panel {
                ActivePanel::Nodes => {
                    &&& *final(self) == (App {
                        selected_node_index: final(self).selected_node_index,
                        ..*old(self)
                    })
                    &&& final(self).selected_node_index == next_index(
                        old(self).selected_node_index as int,
                        old(self).node_rows().len() as int,
                    )
                },
                ActivePanel::Services => {
                    &&& *final(self) == (App {
                        selected_service_index: final(self).selected_service_index,
                        ..*old(self)
                    })
                    &&& final(self).selected_service_index == next_index(
                        old(self).selected_service_index as int,
                        old(self).service_rows().len() as int,
                    )
                },
            },
    {
        match self.active_panel {
            ActivePanel::Nodes => self.next_node(),
            ActivePanel::Services => self.next_service(),
        }
    }

    /// Shows the tab to the right.
    pub fn next_tab(&mut self)
        ensures
            *final(self) == (App { current_tab: old(self).current_tab.successor(), ..*old(self) }),
    {
        self.current_tab = match self.current_tab {
            CurrentTab::Overview => CurrentTab::Nodes,
            CurrentTab::Nodes => CurrentTab::Services,
            CurrentTab::Services => CurrentTab::Compare,
            CurrentTab::Compare => CurrentTab::Overview,
        };
    }

    /// Shows the tab to the left.
    pub fn previous_tab(&mut self)
        ensures
            *final(self) == (App { current_tab: old(self).current_tab.predecessor(), ..*old(self) }),
    {
        self.current_tab = match self.current_tab {
            CurrentTab::Overview => CurrentTab::Compare,
            CurrentTab::Nodes => CurrentTab::Overview,
            CurrentTab::Services => CurrentTab::Nodes,
            CurrentTab::Compare => CurrentTab::Services,
        };
    }

    /// Switches the filter mark on or off.
    pub fn toggle_filter(&mut self)
        ensures
            *final(self) == (App {
                filter: FilterState { enabled: !old(self).filter.enabled, ..old(self).filter },
                ..*old(self)
            }),
    {
        self.filter.enabled = !self.filter.enabled;
    }

    /// Pins the selected entity of the current tab, or unpins it if it is
    /// pinned. Without a selected entity nothing happens.
    pub fn toggle_selection(&mut self)
        ensures
            *final(self) == (App { selected_items: final(self).selected_items, ..*old(self) }),
            texts(final(self).selected_items@) == if old(self).selected_item_index < old(
                self,
            ).tab_items().len() {
                toggled(
                    texts(old(self).selected_items@),
                    old(self).tab_items()[old(self).selected_item_index as int],
                )
            } else {
                texts(old(self).selected_items@)
            },
    {
        match self.current_tab {
            CurrentTab::Nodes => {
                if self.selected_item_index < self.nodes.len() {
                    toggle_pin(&mut self.selected_items, &self.nodes[self.selected_item_index].name);
                }
            },
            CurrentTab::Services => {
                if self.selected_item_index < self.services.len() {
                    toggle_pin(
                        &mut self.selected_items,
                        &self.services[self.selected_item_index].name,
                    );
                }
            },
            _ => {},
        }
    }

    /// Switches to the next theme and its palette.
    pub fn next_theme(&mut self)
        ensures
            *final(self) == (App {
                current_theme: old(self).current_theme.successor(),
                theme_colors: palette(old(self).current_theme.successor()),
                ..*old(self)
            }),
    {
        self.current_theme = self.current_theme.next();
        self.theme_colors = ThemeColors::from_theme(self.current_theme);
    }

    /// Switches to the previous theme and its palette.
    pub fn previous_theme(&mut self)
        ensures
            *final(self) == (App {
                current_theme: old(self).current_theme.predecessor(),
                theme_colors: palette(old(self).current_theme.predecessor()),
                ..*old(self)
            }),
    {
        self.current_theme = self.current_theme.previous();
        self.theme_colors = ThemeColors::from_theme(self.current_theme);
    }

    /// Brings every selection back into its list, as is due before each
    /// frame: a selection that points beyond the last row moves to the
    /// last row, and a selection in an empty list moves to the first
    /// position. A selection that points at a row stays.
    pub fn clamp_selection(&mut self)
        ensures
            *final(self) == (App {
                selected_node_index: final(self).selected_node_index,
                selected_service_index: final(self).selected_service_index,
                selected_item_index: final(self).selected_item_index,
                ..*old(self)
            }),
            final(self).selected_node_index == clamped_index(
                old(self).selected_node_index as int,
                old(self).node_rows().len() as int,
            ),
            final(self).selected_service_index == clamped_index(
                old(self).selected_service_index as int,
                old(self).service_rows().len() as int,
            ),
            final(self).selected_item_index == clamped_index(
                old(self).selected_item_index as int,
                old(self).tab_items().len() as int,
            ),
    {
        let node_count: usize = self.visible_node_names().len();
        let service_count: usize = self.visible_service_names().len();
        let item_count: usize = match self.current_tab {
            CurrentTab::Nodes => self.nodes.len(),
            CurrentTab::Services => self.services.len(),
            _ => 0,
        };
        self.selected_node_index = clamp_index(self.selected_node_index, node_count);
        self.selected_service_index = clamp_index(self.selected_service_index, service_count);
        self.selected_item_index = clamp_index(self.selected_item_index, item_count);
    }
}

/// What the user can ask of the dashboard.
#[derive(Debug, Clone, Copy, PartialEq, Eq, Structural)]
pub enum Command {
    NavigateUp,
    NavigateDown,
    SwitchPanel,
    NextTab,
    PreviousTab,
    ToggleFilter,
    ToggleSelection,
    NextTheme,
    PreviousTheme,
    Quit,
}

impl App {
    /// The selection of the active panel stands at `index`, and nothing
    /// else differs from `before`.
    pub open spec fn selects(&self, before: App, index: int) -> bool {
        match before.active_panel {
            ActivePanel::Nodes => {
                &&& *self == (App { selected_node_index: self.selected_node_index, ..before })
                &&& self.selected_node_index == index
            },
            ActivePanel::Services => {
                &&& *self == (App { selected_service_index: self.selected_service_index, ..before })
                &&& self.selected_service_index == index
            },
        }
    }

    /// The selection and the number of rows of the active panel.
    pub open spec fn active_selection(&self) -> (int, int) {
        match self.active_panel {
            ActivePanel::Nodes => (self.selected_node_index as int, self.node_rows().len() as int),
            ActivePanel::Services => (
                self.selected_service_index as int,
                self.service_rows().len() as int,
            ),
        }
    }

    /// This state is what `command` makes of `before`.
    pub open spec fn commanded(&self, before: App, command: Command) -> bool {
        match command {
            Command::NavigateUp => self.selects(
                before,
                previous_index(before.active_selection().0, before.active_selection().1),
            ),
            Command::NavigateDown => self.selects(
                before,
                next_index(before.active_selection().0, before.active_selection().1),
            ),
            Command::SwitchPanel => *self == (App {
                active_panel: before.active_panel.other(),
                ..before
            }),
            Command::NextTab => *self == (App {
                current_tab: before.current_tab.successor(),
                ..before
            }),
            Command::PreviousTab => *self == (App {
                current_tab: before.current_tab.predecessor(),
                ..before
            }),
            Command::ToggleFilter => *self == (App {
                filter: FilterState { enabled: !before.filter.enabled, ..before.filter },
                ..before
            }),
            Command::ToggleSelection => {
                &&& *self == (App { selected_items: self.selected_items, ..before })
                &&& texts(self.selected_items@) == if before.selected_item_index
                    < before.tab_items().len() {
                    toggled(
                        texts(before.selected_items@),
                        before.tab_items()[before.selected_item_index as int],
                    )
                } else {
                    texts(before.selected_items@)
                }
            },
            Command::NextTheme => *self == (App {
                current_theme: before.current_theme.successor(),
                theme_colors: palette(before.current_theme.successor()),
                ..before
            }),
            Command::PreviousTheme => *self == (App {
                current_theme: before.current_theme.predecessor(),
                theme_colors: palette(before.current_theme.predecessor()),
                ..before
            }),
            Command::Quit => *self == (App { should_quit: true, ..before }),
        }
    }

    /// Carries out one command of the user.
    pub fn apply(&mut self, command: Command)
        ensures
            final(self).commanded(*old(self), command),
    {
        match command {
            Command::NavigateUp => self.navigate_up(),
            Command::NavigateDown => self.navigate_down(),
            Command::SwitchPanel => self.switch_panel(),
            Command::NextTab => self.next_tab(),
            Command::PreviousTab => self.previous_tab(),
            Command::ToggleFilter => self.toggle_filter(),
            Command::ToggleSelection => self.toggle_selection(),
            Command::NextTheme => self.next_theme(),
            Command::PreviousTheme => self.previous_theme(),
            Command::Quit => {
                self.should_quit = true;
            },
        }
    }
}

/// A command is a matter of navigation and selection only: it leaves the
/// records, their histories, the tick counter, the connection status, the
/// adapter and the configuration as they are, and a well-formed state well
/// formed.
pub proof fn lemma_command_keeps_model(before: App, after: App, command: Command)
    requires
        after.commanded(before, command),
    ensures
        after.nodes == before.nodes,
        after.services == before.services,
        after.node_history == before.node_history,
        after.service_history == before.service_history,
        after.tick_count == before.tick_count,
        after.connection_status == before.connection_status,
        after.prometheus_client == before.prometheus_client,
        after.config == before.config,
        before.wf() ==> after.wf(),
{
    if command == Command::ToggleSelection && before.selected_item_index
        < before.tab_items().len() && before.wf() {
        lemma_toggled_flips(
            texts(before.selected_items@),
            before.tab_items()[before.selected_item_index as int],
        );
    }
}

/// Selection clamp: whatever the selection was, in range or not, after a
/// step up or down in a panel that has rows the selection of that panel
/// points at one of them.
pub proof fn lemma_navigation_lands_on_row(before: App, after: App, command: Command)
    requires
        command == Command::NavigateUp || command == Command::NavigateDown,
        after.commanded(before, command),
        before.active_selection().1 > 0,
    ensures
        after.active_panel == before.active_panel,
        after.active_selection().1 == before.active_selection().1,
        0 <= after.active_selection().0 < after.active_selection().1,
{
    lemma_navigation_in_range(before.active_selection().0, before.active_selection().1);
}

} // verus!
