//! Application state and its reconciliation with data that arrives from the
//! network actor: the filtered view, the selection and the statistics.

use vstd::prelude::*;
use vstd::string::StrSliceExecFns;
use vstd::string::StringExecFns;
use crate::config::Config;
use crate::debounce::Debounce;
use crate::model::{Deployment, Project, Status, sat_sub};
use crate::network::{NetworkEvent, clone_opt, opt_view};
use crate::text::{contains, contains_seq, lower_of, str_eq, to_lower};

verus! {

/// The pane that has the keyboard focus.
#[derive(Clone, Copy, Debug, PartialEq, Eq, Structural)]
pub enum ActivePane {
    Deployments,
    Logs,
}

/// A destructive action awaiting its confirming second press, with the
/// deployment it targets and the time (in milliseconds) of the first press.
#[derive(Debug)]
pub enum ConfirmationState {
    Idle,
    RedeployPending(String, u64),
    CancelPending(String, u64),
}

/// The menu opened on a deployment by a right click.
#[derive(Debug)]
pub struct ContextMenu {
    pub position: (u16, u16),
    pub deployment_id: String,
    pub selected_index: usize,
    pub options: Vec<String>,
}

/// The time window that the list and the statistics cover.
#[derive(Clone, Copy, Debug, PartialEq, Eq, Structural)]
pub enum StatPeriod {
    Last24h,
    Last7d,
    Last30d,
    All,
}

/// Milliseconds in a day.
pub const DAY_MS: u64 = 86_400_000;

/// The length of a window in milliseconds; the unbounded window has none.
pub open spec fn period_ms(p: StatPeriod) -> nat {
    match p {
        StatPeriod::Last24h => DAY_MS as nat,
        StatPeriod::Last7d => 7 * DAY_MS as nat,
        StatPeriod::Last30d => 30 * DAY_MS as nat,
        StatPeriod::All => 0,
    }
}

/// The window after `p`, cycling back to the first.
pub open spec fn next_period(p: StatPeriod) -> StatPeriod {
    match p {
        StatPeriod::Last24h => StatPeriod::Last7d,
        StatPeriod::Last7d => StatPeriod::Last30d,
        StatPeriod::Last30d => StatPeriod::All,
        StatPeriod::All => StatPeriod::Last24h,
    }
}

/// The label of a window.
pub open spec fn period_label(p: StatPeriod) -> Seq<char> {
    match p {
        StatPeriod::Last24h => "Last 24h"@,
        StatPeriod::Last7d => "Last 7d"@,
        StatPeriod::Last30d => "Last 30d"@,
        StatPeriod::All => "All Time"@,
    }
}

/// The window that a settings value names; anything unknown is a day.
pub open spec fn period_named(s: Seq<char>) -> StatPeriod {
    if s == "7d"@ {
        StatPeriod::Last7d
    } else if s == "30d"@ {
        StatPeriod::Last30d
    } else if s == "all"@ {
        StatPeriod::All
    } else {
        StatPeriod::Last24h
    }
}

/// The settings value that names a window.
pub open spec fn period_setting(p: StatPeriod) -> Seq<char> {
    match p {
        StatPeriod::Last24h => "24h"@,
        StatPeriod::Last7d => "7d"@,
        StatPeriod::Last30d => "30d"@,
        StatPeriod::All => "all"@,
    }
}

impl StatPeriod {
    /// The next window in the cycle.
    pub fn next(&self) -> (r: Self)
        ensures
            r == next_period(*self),
    {
        match self {
            StatPeriod::Last24h => StatPeriod::Last7d,
            StatPeriod::Last7d => StatPeriod::Last30d,
            StatPeriod::Last30d => StatPeriod::All,
            StatPeriod::All => StatPeriod::Last24h,
        }
    }

    /// The label shown for the window.
    pub fn display_text(&self) -> (r: &'static str)
        ensures
            r@ == period_label(*self),
    {
        match self {
            StatPeriod::Last24h => "Last 24h",
            StatPeriod::Last7d => "Last 7d",
            StatPeriod::Last30d => "Last 30d",
            StatPeriod::All => "All Time",
        }
    }

    /// The window that a settings value names.
    pub fn from_setting(s: &str) -> (r: Self)
        ensures
            r == period_named(s@),
    {
        if str_eq(s, "7d") {
            StatPeriod::Last7d
        } else if str_eq(s, "30d") {
            StatPeriod::Last30d
        } else if str_eq(s, "all") {
            StatPeriod::All
        } else {
            StatPeriod::Last24h
        }
    }

    /// The settings value that names the window.
    pub fn setting(&self) -> (r: String)
        ensures
            r@ == period_setting(*self),
    {
        match self {
            StatPeriod::Last24h => String::from_str("24h"),
            StatPeriod::Last7d => String::from_str("7d"),
            StatPeriod::Last30d => String::from_str("30d"),
            StatPeriod::All => String::from_str("all"),
        }
    }

    /// The length of the window in milliseconds; zero for the unbounded one.
    pub fn millis(&self) -> (r: u64)
        ensures
            r == period_ms(*self),
    {
        match self {
            StatPeriod::Last24h => DAY_MS,
            StatPeriod::Last7d => 7 * DAY_MS,
            StatPeriod::Last30d => 30 * DAY_MS,
            StatPeriod::All => 0,
        }
    }
}

/// Whether a deployment created at `created` falls in window `p` at `now`.
pub open spec fn in_window(created: u64, p: StatPeriod, now: u64) -> bool {
    p == StatPeriod::All || sat_sub(now, created) < period_ms(p)
}

/// Whether a branch matches a query: an empty query matches everything,
/// otherwise the lower-cased query must occur in the lower-cased branch.
pub open spec fn matches_query(branch: Seq<char>, query: Seq<char>) -> bool {
    query.len() == 0 || contains_seq(lower_of(branch), lower_of(query))
}

/// Whether a deployment belongs in the filtered view.
pub open spec fn visible(d: Deployment, p: StatPeriod, now: u64, query: Seq<char>) -> bool {
    in_window(d.timestamp, p, now) && matches_query(d.branch@, query)
}

/// The filtered view of `s`: its visible deployments, in order.
pub open spec fn filter_view(s: Seq<Deployment>, p: StatPeriod, now: u64, query: Seq<char>) -> Seq<Deployment>
    decreases s.len(),
{
    if s.len() == 0 {
        Seq::empty()
    } else {
        let rest = filter_view(s.drop_last(), p, now, query);
        if visible(s.last(), p, now, query) {
            rest.push(s.last())
        } else {
            rest
        }
    }
}

/// Whether a deployment created at `created` falls in window `p` at `now`.
pub fn within_window(created: u64, p: StatPeriod, now: u64) -> (r: bool)
    ensures
        r == in_window(created, p, now),
{
    match p {
        StatPeriod::All => true,
        _ => now.saturating_sub(created) < p.millis(),
    }
}

/// The filtered view of `all` for window `p` at `now` and branch `query`.
pub fn filter_deployments(all: &Vec<Deployment>, p: StatPeriod, now: u64, query: &str) -> (r: Vec<Deployment>)
    ensures
        r@ == filter_view(all@, p, now, query@),
{
    let has_query = query.unicode_len() > 0;
    let q = to_lower(query);
    let mut out: Vec<Deployment> = Vec::new();
    let mut i: usize = 0;
    while i < all.len()
        invariant
            0 <= i <= all@.len(),
            has_query == (query@.len() > 0),
            q@ == lower_of(query@),
            out@ == filter_view(all@.take(i as int), p, now, query@),
        decreases all@.len() - i,
    {
        let d = &all[i];
        let keep = within_window(d.timestamp, p, now) && (!has_query || {
            let b = to_lower(d.branch.as_str());
            contains(b.as_str(), q.as_str())
        });
        assert(all@.take(i + 1).drop_last() =~= all@.take(i as int));
        if keep {
            out.push(d.duplicate());
        }
        i = i + 1;
    }
    assert(all@.take(all@.len() as int) =~= all@);
    out
}

/// Application state.
#[derive(Debug)]
pub struct App {
    /// All deployments of the last successful refresh.
    pub deployments: Vec<Deployment>,
    pub should_quit: bool,
    /// Position of the selected row of the filtered view.
    pub selected: Option<usize>,
    /// Frame counter of the loading spinner.
    pub spinner_frame: usize,
    pub theme_name: String,
    pub theme_selected: Option<usize>,
    pub show_theme_selector: bool,
    pub show_project_selector: bool,
    pub project_selected: Option<usize>,
    pub projects: Vec<Project>,
    pub current_project: String,
    pub current_project_id: Option<String>,
    /// Branch query of the filtered view.
    pub filter_query: String,
    pub is_filter_mode: bool,
    /// The deployments in the window that match the query, in order.
    pub filtered_deployments: Vec<Deployment>,
    /// Log lines of the selected deployment.
    pub logs: Vec<String>,
    pub is_loading_logs: bool,
    pub error_message: Option<String>,
    pub log_selected: Option<usize>,
    pub active_pane: ActivePane,
    pub show_legend: bool,
    pub enable_mouse: bool,
    pub is_transparent: bool,
    pub scroll_offset: usize,
    pub avg_duration_s: u64,
    /// Percentage of successful deployments.
    pub success_rate: u8,
    pub total_builds: usize,
    pub active_builds: usize,
    pub error_count: usize,
    pub stat_period: StatPeriod,
    pub confirmation_mode: ConfirmationState,
    pub context_menu: Option<ContextMenu>,
    /// A passing notice and the time at which it was raised.
    pub toast_message: Option<(String, u64)>,
    /// The deferred log fetch for the selected row.
    pub debounce: Debounce,
    /// Time and cell of the last click on a deployment.
    pub last_click: Option<(u64, u16, u16)>,
}

/// Name shown for the view over all projects.
pub const ALL_PROJECTS: &'static str = "All Projects";

/// Position of the first deployment of `s` whose id is `id`.
pub open spec fn first_with_id(s: Seq<Deployment>, id: Seq<char>) -> Option<int>
    decreases s.len(),
{
    if s.len() == 0 {
        None
    } else if s[0].id@ == id {
        Some(0)
    } else {
        match first_with_id(s.drop_first(), id) {
            Some(k) => Some(k + 1),
            None => None,
        }
    }
}

/// The row to select in view `v` for the previously selected id `id`: that
/// id's row where it is still shown, else the first row, else none.
pub open spec fn reselect(v: Seq<Deployment>, id: Option<Seq<char>>) -> Option<int> {
    match id {
        Some(x) if first_with_id(v, x) is Some => first_with_id(v, x),
        _ => if v.len() > 0 {
            Some(0)
        } else {
            None
        },
    }
}

/// The id of the selected row of view `v`, if a row is selected.
pub open spec fn selected_id(v: Seq<Deployment>, sel: Option<usize>) -> Option<Seq<char>> {
    match sel {
        Some(i) if i < v.len() => Some(v[i as int].id@),
        _ => None,
    }
}

pub(crate) proof fn lemma_first_with_id(s: Seq<Deployment>, id: Seq<char>)
    ensures
        match first_with_id(s, id) {
            Some(k) => 0 <= k < s.len() && s[k].id@ == id && forall|j: int|
                0 <= j < k ==> (#[trigger] s[j]).id@ != id,
            None => forall|j: int| 0 <= j < s.len() ==> (#[trigger] s[j]).id@ != id,
        },
    decreases s.len(),
{
    if s.len() > 0 {
        lemma_first_with_id(s.drop_first(), id);
        assert forall|j: int| 1 <= j < s.len() implies s[j] == s.drop_first()[j - 1] by {}
    }
}

/// Selection continuity: when the whole list is replaced by `list`, and the
/// id that was selected in the old view `old_view` is shown in the new
/// filtered view, the row selected afterwards shows that very id, wherever it
/// now stands.
pub proof fn lemma_selection_continuity(
    old_view: Seq<Deployment>,
    sel: Option<usize>,
    list: Seq<Deployment>,
    p: StatPeriod,
    now: u64,
    query: Seq<char>,
)
    requires
        selected_id(old_view, sel) is Some,
        exists|k: int|
            0 <= k < filter_view(list, p, now, query).len() && (#[trigger] filter_view(
                list,
                p,
                now,
                query,
            )[k]).id@ == selected_id(old_view, sel)->0,
    ensures
        reselect(filter_view(list, p, now, query), selected_id(old_view, sel)) matches Some(j) && 0
            <= j < filter_view(list, p, now, query).len() && filter_view(list, p, now, query)[j].id@
            == selected_id(old_view, sel)->0,
{
    lemma_first_with_id(filter_view(list, p, now, query), selected_id(old_view, sel)->0);
}

/// A copy of the id of the selected row.
fn selected_id_exec(v: &Vec<Deployment>, sel: Option<usize>) -> (r: Option<String>)
    ensures
        opt_view(r) == selected_id(v@, sel),
{
    match sel {
        Some(i) => if i < v.len() {
            Some(v[i].id.clone())
        } else {
            None
        },
        None => None,
    }
}

/// Position of the first deployment of `v` whose id is `id`.
pub(crate) fn position_of(v: &Vec<Deployment>, id: &String) -> (r: Option<usize>)
    ensures
        r matches Some(k) ==> k < v@.len() && first_with_id(v@, id@) == Some(k as int),
        r is None ==> first_with_id(v@, id@) is None,
{
    proof {
        lemma_first_with_id(v@, id@);
    }
    let mut i: usize = 0;
    while i < v.len()
        invariant
            0 <= i <= v@.len(),
            forall|j: int| 0 <= j < i ==> (#[trigger] v@[j]).id@ != id@,
            match first_with_id(v@, id@) {
                Some(k) => 0 <= k < v@.len() && v@[k].id@ == id@ && forall|j: int|
                    0 <= j < k ==> (#[trigger] v@[j]).id@ != id@,
                None => forall|j: int| 0 <= j < v@.len() ==> (#[trigger] v@[j]).id@ != id@,
            },
        decreases v@.len() - i,
    {
        if v[i].id == *id {
            return Some(i);
        }
        i = i + 1;
    }
    None
}

/// The row to select in `v` for the previously selected id `id`.
pub fn reselect_index(v: &Vec<Deployment>, id: &Option<String>) -> (r: Option<usize>)
    ensures
        match r {
            Some(k) => reselect(v@, opt_view(*id)) == Some(k as int),
            None => reselect(v@, opt_view(*id)) is None,
        },
{
    match id {
        Some(x) => match position_of(v, x) {
            Some(k) => {
                return Some(k);
            },
            None => {},
        },
        None => {},
    }
    if v.len() > 0 {
        Some(0)
    } else {
        None
    }
}

/// The project name whose deployments the statistics cover: that of the
/// selected row (the first row where none is selected), none where that row
/// does not exist.
pub open spec fn stats_target(v: Seq<Deployment>, sel: Option<usize>) -> Option<Seq<char>> {
    let i: int = match sel {
        Some(i) => i as int,
        None => 0,
    };
    if 0 <= i < v.len() {
        Some(v[i].name@)
    } else {
        None
    }
}

/// Whether a deployment counts in the statistics.
pub open spec fn in_group(d: Deployment, target: Option<Seq<char>>, p: StatPeriod, now: u64) -> bool {
    in_window(d.timestamp, p, now) && match target {
        Some(n) => d.name@ == n,
        None => true,
    }
}

/// The deployments of `s` that the statistics cover, in order.
pub open spec fn group_of(s: Seq<Deployment>, target: Option<Seq<char>>, p: StatPeriod, now: u64) -> Seq<Deployment>
    decreases s.len(),
{
    if s.len() == 0 {
        Seq::empty()
    } else {
        let rest = group_of(s.drop_last(), target, p, now);
        if in_group(s.last(), target, p, now) {
            rest.push(s.last())
        } else {
            rest
        }
    }
}

/// How many deployments of `s` have status `st`.
pub open spec fn count_status(s: Seq<Deployment>, st: Status) -> nat
    decreases s.len(),
{
    if s.len() == 0 {
        0
    } else {
        count_status(s.drop_last(), st) + if s.last().status == st {
            1nat
        } else {
            0nat
        }
    }
}

/// Total build time, in milliseconds, of the successful deployments of `s`.
pub open spec fn ready_ms(s: Seq<Deployment>) -> nat
    decreases s.len(),
{
    if s.len() == 0 {
        0
    } else {
        ready_ms(s.drop_last()) + if s.last().status == Status::Ready {
            s.last().duration_ms as nat
        } else {
            0nat
        }
    }
}

/// Whether `a` holds the statistics of group `g`: its size, the share of
/// successes in whole percent, the mean build time of successes in whole
/// seconds, and the counts of builds under way and of failures. An empty
/// group has all of them zero.
pub open spec fn stats_of(a: App, g: Seq<Deployment>) -> bool {
    let ready = count_status(g, Status::Ready);
    &&& a.total_builds == g.len()
    &&& a.active_builds == count_status(g, Status::Building)
    &&& a.error_count == count_status(g, Status::Error)
    &&& a.success_rate == if g.len() > 0 {
        ready * 100 / g.len()
    } else {
        0
    }
    &&& a.avg_duration_s == if ready > 0 {
        ready_ms(g) / 1000 / ready
    } else {
        0
    }
}

/// The deployments that the statistics of `a` cover at `now`: none while
/// its filtered view is empty.
pub open spec fn stats_group(a: App, now: u64) -> Seq<Deployment> {
    if a.filtered_deployments@.len() == 0 {
        Seq::empty()
    } else {
        group_of(a.deployments@, stats_target(a.filtered_deployments@, a.selected), a.stat_period, now)
    }
}

/// Largest `u64`.
pub const U64_MAX: u128 = 0xFFFF_FFFF_FFFF_FFFF;

proof fn lemma_counts_bounded(s: Seq<Deployment>)
    ensures
        count_status(s, Status::Ready) + count_status(s, Status::Building)
            + count_status(s, Status::Error) <= s.len(),
        ready_ms(s) <= count_status(s, Status::Ready) * (U64_MAX as nat),
    decreases s.len(),
{
    if s.len() > 0 {
        lemma_counts_bounded(s.drop_last());
    }
}

impl App {
    /// The id of the selected deployment, if a row is selected.
    pub fn get_selected_deployment_id(&self) -> (r: Option<String>)
        ensures
            opt_view(r) == selected_id(self.filtered_deployments@, self.selected),
    {
        selected_id_exec(&self.filtered_deployments, self.selected)
    }

    /// Selects the row of `id` in the filtered view; where it is not shown,
    /// the first row, or nothing in an empty view.
    pub fn select_deployment_by_id(&mut self, id: Option<String>)
        ensures
            *final(self) == (App { selected: final(self).selected, ..*old(self) }),
            match final(self).selected {
                Some(k) => reselect(old(self).filtered_deployments@, opt_view(id)) == Some(k as int),
                None => reselect(old(self).filtered_deployments@, opt_view(id)) is None,
            },
    {
        self.selected = reselect_index(&self.filtered_deployments, &id);
    }

    /// Recomputes the filtered view from all deployments for the window and
    /// the query, as of `now`.
    pub fn update_filter_at(&mut self, now: u64)
        ensures
            *final(self) == (App { filtered_deployments: final(self).filtered_deployments, ..*old(self) }),
            final(self).filtered_deployments@ == filter_view(
                old(self).deployments@,
                old(self).stat_period,
                now,
                old(self).filter_query@,
            ),
    {
        self.filtered_deployments = filter_deployments(
            &self.deployments,
            self.stat_period,
            now,
            self.filter_query.as_str(),
        );
    }

    /// Recomputes the filtered view as of the current time.
    pub fn update_filter(&mut self)
        ensures
            *final(self) == (App { filtered_deployments: final(self).filtered_deployments, ..*old(self) }),
            exists|now: u64|
                final(self).filtered_deployments@ == filter_view(
                    old(self).deployments@,
                    old(self).stat_period,
                    now,
                    old(self).filter_query@,
                ),
    {
        let now = crate::clock::now_millis();
        self.update_filter_at(now);
    }

    fn reset_stats(&mut self)
        ensures
            *final(self) == (App {
                total_builds: 0,
                avg_duration_s: 0,
                success_rate: 0,
                active_builds: 0,
                error_count: 0,
                ..*old(self)
            }),
    {
        self.total_builds = 0;
        self.avg_duration_s = 0;
        self.success_rate = 0;
        self.active_builds = 0;
        self.error_count = 0;
    }

    /// Recomputes the statistics as of `now` over the deployments in the
    /// window that share the selected row's project name; all zero while the
    /// filtered view is empty.
    pub fn update_stats_at(&mut self, now: u64)
        ensures
            *final(self) == (App {
                total_builds: final(self).total_builds,
                avg_duration_s: final(self).avg_duration_s,
                success_rate: final(self).success_rate,
                active_builds: final(self).active_builds,
                error_count: final(self).error_count,
                ..*old(self)
            }),
            stats_of(*final(self), stats_group(*old(self), now)),
    {
        if self.filtered_deployments.len() == 0 {
            self.reset_stats();
            return;
        }
        let idx: usize = match self.selected {
            Some(i) => i,
            None => 0,
        };
        let target: Option<&String> = if idx < self.filtered_deployments.len() {
            Some(&self.filtered_deployments[idx].name)
        } else {
            None
        };
        let ghost tv: Option<Seq<char>> = match target {
            Some(n) => Some(n@),
            None => None,
        };
        assert(tv == stats_target(self.filtered_deployments@, self.selected));
        let p = self.stat_period;
        let ghost all = self.deployments@;
        let mut total: usize = 0;
        let mut ready: usize = 0;
        let mut building: usize = 0;
        let mut errors: usize = 0;
        let mut sum: u128 = 0;
        let mut i: usize = 0;
        while i < self.deployments.len()
            invariant
                all == self.deployments@,
                0 <= i <= all.len(),
                p == self.stat_period,
                tv == match target {
                    Some(n) => Some(n@),
                    None => None,
                },
                ({
                    let g = group_of(all.take(i as int), tv, p, now);
                    &&& total == g.len()
                    &&& ready == count_status(g, Status::Ready)
                    &&& building == count_status(g, Status::Building)
                    &&& errors == count_status(g, Status::Error)
                    &&& sum == ready_ms(g)
                    &&& g.len() <= i
                }),
            decreases all.len() - i,
        {
            let d = &self.deployments[i];
            let ghost g0 = group_of(all.take(i as int), tv, p, now);
            assert(all.take(i + 1).drop_last() =~= all.take(i as int));
            let member = within_window(d.timestamp, p, now) && match target {
                Some(n) => d.name == *n,
                None => true,
            };
            assert(all.take(i + 1).last() == *d);
            assert(member == in_group(*d, tv, p, now));
            if member {
                proof {
                    lemma_counts_bounded(g0);
                    assert(g0.push(*d).drop_last() =~= g0);
                }
                total = total + 1;
                match d.status {
                    Status::Ready => {
                        ready = ready + 1;
                        sum = sum + d.duration_ms as u128;
                        assert((sum as int) <= (ready as int) * (U64_MAX as int)) by (nonlinear_arith)
                            requires
                                (sum as int) <= ((ready as int) - 1) * (U64_MAX as int) + U64_MAX as int,
                                (ready as int) >= 1;
                    },
                    Status::Building => {
                        building = building + 1;
                    },
                    Status::Error => {
                        errors = errors + 1;
                    },
                    _ => {},
                }
            }
            i = i + 1;
        }
        assert(all.take(all.len() as int) =~= all);
        if total == 0 {
            self.reset_stats();
            return;
        }
        proof {
            lemma_counts_bounded(group_of(all, tv, p, now));
        }
        self.total_builds = total;
        self.active_builds = building;
        self.error_count = errors;
        assert((ready as int) * 100 / (total as int) <= 100) by (nonlinear_arith)
            requires
                (ready as int) <= (total as int),
                (total as int) > 0;
        self.success_rate = (ready as u128 * 100 / total as u128) as u8;
        if ready > 0 {
            assert((sum as int) / 1000 / (ready as int) <= U64_MAX as int) by (nonlinear_arith)
                requires
                    (sum as int) <= (ready as int) * (U64_MAX as int),
                    (ready as int) > 0;
            self.avg_duration_s = (sum / 1000 / ready as u128) as u64;
        } else {
            self.avg_duration_s = 0;
        }
    }

    /// Recomputes the statistics as of the current time.
    pub fn update_stats(&mut self)
        ensures
            *final(self) == (App {
                total_builds: final(self).total_builds,
                avg_duration_s: final(self).avg_duration_s,
                success_rate: final(self).success_rate,
                active_builds: final(self).active_builds,
                error_count: final(self).error_count,
                ..*old(self)
            }),
            exists|now: u64|
                #[trigger] stats_of(*final(self), stats_group(*old(self), now)),
    {
        let now = crate::clock::now_millis();
        let ghost before = *self;
        self.update_stats_at(now);
        assert(stats_of(*self, stats_group(before, now)));
    }
}

/// Whether `sel` is the row that `r` names.
pub open spec fn names_row(sel: Option<usize>, r: Option<int>) -> bool {
    match sel {
        Some(k) => r == Some(k as int),
        None => r is None,
    }
}

/// Whether row `sel` of view `v` shows the deployment `id`.
pub open spec fn shows(v: Seq<Deployment>, sel: Option<usize>, id: Seq<char>) -> bool {
    selected_id(v, sel) == Some(id)
}

/// Whether `b` is `a` after taking in event `ev` at `now`.
pub open spec fn applied(a: App, ev: NetworkEvent, now: u64, b: App) -> bool {
    match ev {
        NetworkEvent::Deployments(list) => {
            &&& b == App {
                deployments: list,
                filtered_deployments: b.filtered_deployments,
                selected: b.selected,
                error_message: None,
                ..a
            }
            &&& b.filtered_deployments@ == filter_view(list@, a.stat_period, now, a.filter_query@)
            &&& names_row(
                b.selected,
                reselect(b.filtered_deployments@, selected_id(a.filtered_deployments@, a.selected)),
            )
        },
        NetworkEvent::Projects(list) => b == App { projects: list, ..a },
        NetworkEvent::Logs(id, lines) => if shows(a.filtered_deployments@, a.selected, id@) {
            b == App { logs: lines, is_loading_logs: false, ..a }
        } else {
            b == a
        },
        NetworkEvent::LogChunk(id, lines) => if shows(a.filtered_deployments@, a.selected, id@) {
            &&& b == App { logs: b.logs, ..a }
            &&& b.logs@ == a.logs@ + lines@
        } else {
            b == a
        },
        NetworkEvent::Info(msg) => b == App {
            toast_message: Some((msg, now)),
            error_message: None,
            ..a
        },
        NetworkEvent::Error(msg) => b == App {
            error_message: Some(msg),
            is_loading_logs: false,
            ..a
        },
    }
}

impl App {
    /// A fresh state with the settings of `config`: nothing listed, nothing
    /// selected, the window that the settings name.
    pub fn new(config: &Config) -> (r: App)
        ensures
            r.deployments@.len() == 0,
            r.filtered_deployments@.len() == 0,
            r.projects@.len() == 0,
            r.logs@.len() == 0,
            r.selected is None,
            r.theme_name == config.theme_name,
            r.is_transparent == config.is_transparent,
            r.enable_mouse == config.enable_mouse,
            r.stat_period == period_named(config.stat_period@),
            r.current_project@ == match config.last_project_name {
                Some(n) => n@,
                None => ALL_PROJECTS@,
            },
            r.current_project_id == config.last_project_id,
            r.confirmation_mode is Idle,
            r.active_pane == ActivePane::Deployments,
            r.filter_query@.len() == 0,
            r.debounce.last_index is None,
            r.debounce.deadline is None,
            r.total_builds == 0,
            r.success_rate == 0,
            r.avg_duration_s == 0,
            r.active_builds == 0,
            r.error_count == 0,
            r.error_message is None,
    {
        App {
            deployments: Vec::new(),
            should_quit: false,
            selected: None,
            spinner_frame: 0,
            theme_name: config.theme_name.clone(),
            theme_selected: None,
            show_theme_selector: false,
            show_project_selector: false,
            project_selected: None,
            projects: Vec::new(),
            current_project: match &config.last_project_name {
                Some(n) => n.clone(),
                None => String::from_str(ALL_PROJECTS),
            },
            current_project_id: clone_opt(&config.last_project_id),
            filter_query: String::new(),
            is_filter_mode: false,
            filtered_deployments: Vec::new(),
            logs: Vec::new(),
            is_loading_logs: false,
            error_message: None,
            log_selected: None,
            active_pane: ActivePane::Deployments,
            show_legend: false,
            enable_mouse: config.enable_mouse,
            is_transparent: config.is_transparent,
            scroll_offset: 0,
            avg_duration_s: 0,
            success_rate: 0,
            total_builds: 0,
            active_builds: 0,
            error_count: 0,
            stat_period: StatPeriod::from_setting(config.stat_period.as_str()),
            confirmation_mode: ConfirmationState::Idle,
            context_menu: None,
            toast_message: None,
            debounce: Debounce::new(),
            last_click: None,
        }
    }

    /// Writes the settings that persist into `config`: theme, transparency,
    /// project, mouse and window; the view over all projects stores no
    /// project name. The credential is left as it was.
    pub fn save_config(&self, config: &mut Config)
        ensures
            final(config).theme_name == self.theme_name,
            final(config).is_transparent == self.is_transparent,
            final(config).last_project_id == self.current_project_id,
            final(config).enable_mouse == self.enable_mouse,
            final(config).stat_period@ == period_setting(self.stat_period),
            final(config).last_project_name == (if self.current_project@ == ALL_PROJECTS@ {
                None
            } else {
                Some(self.current_project)
            }),
            final(config).vercel_token == old(config).vercel_token,
    {
        config.theme_name = self.theme_name.clone();
        config.is_transparent = self.is_transparent;
        config.last_project_id = clone_opt(&self.current_project_id);
        config.enable_mouse = self.enable_mouse;
        config.stat_period = self.stat_period.setting();
        if str_eq(self.current_project.as_str(), ALL_PROJECTS) {
            config.last_project_name = None;
        } else {
            config.last_project_name = Some(self.current_project.clone());
        }
    }

    /// Advances the spinner by one frame, wrapping around.
    pub fn on_tick(&mut self)
        ensures
            *final(self) == (App {
                spinner_frame: (if old(self).spinner_frame == usize::MAX {
                    0
                } else {
                    (old(self).spinner_frame + 1) as usize
                }),
                ..*old(self)
            }),
    {
        self.spinner_frame = self.spinner_frame.wrapping_add(1);
    }

    /// Whether the selected row shows deployment `id`.
    fn selection_shows(&self, id: &String) -> (r: bool)
        ensures
            r == shows(self.filtered_deployments@, self.selected, id@),
    {
        match self.selected {
            Some(i) => i < self.filtered_deployments.len() && self.filtered_deployments[i].id == *id,
            None => false,
        }
    }

    /// Takes in an event from the network actor at `now`. A new list replaces
    /// the old one whole; the filtered view is recomputed and the selection
    /// follows the selected id to its new row. Logs are taken only for the
    /// deployment that is still selected.
    pub fn apply_event(&mut self, ev: NetworkEvent, now: u64)
        ensures
            applied(*old(self), ev, now, *final(self)),
    {
        match ev {
            NetworkEvent::Deployments(list) => {
                self.error_message = None;
                let current = self.get_selected_deployment_id();
                self.deployments = list;
                self.update_filter_at(now);
                self.select_deployment_by_id(current);
            },
            NetworkEvent::Projects(list) => {
                self.projects = list;
            },
            NetworkEvent::Logs(id, lines) => {
                if self.selection_shows(&id) {
                    self.logs = lines;
                    self.is_loading_logs = false;
                }
            },
            NetworkEvent::LogChunk(id, lines) => {
                if self.selection_shows(&id) {
                    let mut more = lines;
                    self.logs.append(&mut more);
                }
            },
            NetworkEvent::Info(msg) => {
                self.toast_message = Some((msg, now));
                self.error_message = None;
            },
            NetworkEvent::Error(msg) => {
                self.error_message = Some(msg);
                self.is_loading_logs = false;
            },
        }
    }
}

} // verus!
