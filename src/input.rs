//! Input handling on the application state: navigation, the confirmation
//! presses, the deferred log fetch, query typing, mouse clicks, the project
//! selector and the context menu.

use vstd::prelude::*;
use vstd::string::StringExecFns;
use crate::app::{
    first_with_id, filter_view, lemma_first_with_id, names_row, next_period, position_of,
    reselect, selected_id, ActivePane, App, ConfirmationState, ContextMenu, StatPeriod,
};
use crate::debounce::{after_poll, after_select, fires, is_change};
use crate::gate::{press_command, press_state, Destructive};
use crate::model::{Deployment, Status};
use crate::network::{opt_view, NetworkCommand};
use crate::text::{pop_char, push_char, str_eq};

verus! {

impl App {
    /// Notes the current selection at `now`: a change of row clears the
    /// shown logs, marks them loading and (re)arms the deferred fetch.
    pub fn track_selection(&mut self, now: u64)
        ensures
            is_change(old(self).debounce, old(self).selected, old(self).filtered_deployments@.len() as usize) ==> {
                &&& *final(self) == (App {
                    logs: final(self).logs,
                    is_loading_logs: true,
                    debounce: final(self).debounce,
                    ..*old(self)
                })
                &&& final(self).logs@.len() == 0
            },
            !is_change(old(self).debounce, old(self).selected, old(self).filtered_deployments@.len() as usize) ==> *final(self) == (App { debounce: final(self).debounce, ..*old(self) }),
            final(self).debounce == after_select(
                old(self).debounce,
                old(self).selected,
                old(self).filtered_deployments@.len() as usize,
                now,
            ),
    {
        let len = self.filtered_deployments.len();
        if self.debounce.on_selection(self.selected, len, now) {
            self.logs = Vec::new();
            self.is_loading_logs = true;
        }
    }

    /// The commands that the deferred fetch issues at `now`: once it is due,
    /// a stream start and a full fetch of the logs of the row selected then
    /// (nothing where no row is).
    pub fn due_log_fetch(&mut self, now: u64) -> (r: Vec<NetworkCommand>)
        ensures
            *final(self) == (App { debounce: after_poll(old(self).debounce, now), ..*old(self) }),
            !fires(old(self).debounce, now) ==> r@.len() == 0,
            fires(old(self).debounce, now) ==> match selected_id(old(self).filtered_deployments@, old(self).selected) {
                Some(id) => r@.len() == 2 && (r@[0] matches NetworkCommand::StartStream(x) && x@ == id)
                    && (r@[1] matches NetworkCommand::Logs(y) && y@ == id),
                None => r@.len() == 0,
            },
    {
        let mut out: Vec<NetworkCommand> = Vec::new();
        if self.debounce.poll(now) {
            match self.get_selected_deployment_id() {
                Some(id) => {
                    out.push(NetworkCommand::StartStream(id.clone()));
                    out.push(NetworkCommand::Logs(id));
                },
                None => {},
            }
        }
        out
    }

    /// Presses the redeploy trigger at `now` on the selected deployment,
    /// while the list has the focus: the first press makes it pending, a second
    /// one on the same deployment issues the redeploy.
    pub fn press_redeploy(&mut self, now: u64) -> (r: Option<NetworkCommand>)
        ensures
            match (old(self).active_pane, selected_id(old(self).filtered_deployments@, old(self).selected)) {
                (ActivePane::Deployments, Some(id)) => exists|t: String| t@ == id && {
                    &&& *final(self) == (App {
                        confirmation_mode: press_state(old(self).confirmation_mode, Destructive::Redeploy, t, now),
                        ..*old(self)
                    })
                    &&& r == press_command(old(self).confirmation_mode, Destructive::Redeploy, t)
                },
                _ => *final(self) == *old(self) && r is None,
            },
    {
        if self.active_pane != ActivePane::Deployments {
            return None;
        }
        match self.get_selected_deployment_id() {
            Some(id) => self.confirmation_mode.press(Destructive::Redeploy, id, now),
            None => None,
        }
    }

    /// Moves the selection of the focused pane one row up (from the first
    /// deployment to the last) and abandons any pending confirmation.
    pub fn move_up(&mut self)
        ensures
            final(self).confirmation_mode is Idle,
            old(self).active_pane == ActivePane::Deployments ==> {
                &&& *final(self) == (App { selected: final(self).selected, confirmation_mode: final(self).confirmation_mode, ..*old(self) })
                &&& final(self).selected == Some(match old(self).selected {
                    Some(i) => if i == 0 {
                        if old(self).filtered_deployments@.len() > 0 {
                            (old(self).filtered_deployments@.len() - 1) as usize
                        } else {
                            0
                        }
                    } else {
                        (i - 1) as usize
                    },
                    None => 0,
                })
            },
            old(self).active_pane == ActivePane::Logs ==> {
                &&& *final(self) == (App { log_selected: final(self).log_selected, confirmation_mode: final(self).confirmation_mode, ..*old(self) })
                &&& final(self).log_selected == if old(self).logs@.len() == 0 {
                    old(self).log_selected
                } else {
                    Some(match old(self).log_selected {
                        Some(i) => if i == 0 { 0 } else { (i - 1) as usize },
                        None => (old(self).logs@.len() - 1) as usize,
                    })
                }
            },
    {
        match self.active_pane {
            ActivePane::Deployments => {
                let i = match self.selected {
                    Some(i) => if i == 0 {
                        self.filtered_deployments.len().saturating_sub(1)
                    } else {
                        i - 1
                    },
                    None => 0,
                };
                self.selected = Some(i);
            },
            ActivePane::Logs => {
                if self.logs.len() > 0 {
                    let i = match self.log_selected {
                        Some(i) => if i == 0 {
                            0
                        } else {
                            i - 1
                        },
                        None => self.logs.len() - 1,
                    };
                    self.log_selected = Some(i);
                }
            },
        }
        self.confirmation_mode.reset();
    }

    /// Moves the selection of the focused pane one row down (from the last
    /// deployment back to the first; logs stop at their end) and abandons any
    /// pending confirmation.
    pub fn move_down(&mut self)
        ensures
            final(self).confirmation_mode is Idle,
            old(self).active_pane == ActivePane::Deployments ==> {
                &&& *final(self) == (App { selected: final(self).selected, confirmation_mode: final(self).confirmation_mode, ..*old(self) })
                &&& final(self).selected == Some(match old(self).selected {
                    Some(i) => if i + 1 >= old(self).filtered_deployments@.len() {
                        0
                    } else {
                        (i + 1) as usize
                    },
                    None => 0,
                })
            },
            old(self).active_pane == ActivePane::Logs ==> {
                &&& *final(self) == (App { log_selected: final(self).log_selected, confirmation_mode: final(self).confirmation_mode, ..*old(self) })
                &&& final(self).log_selected == if old(self).logs@.len() == 0 {
                    old(self).log_selected
                } else {
                    Some(match old(self).log_selected {
                        Some(i) => if i + 1 >= old(self).logs@.len() {
                            (old(self).logs@.len() - 1) as usize
                        } else {
                            (i + 1) as usize
                        },
                        None => 0,
                    })
                }
            },
    {
        match self.active_pane {
            ActivePane::Deployments => {
                let i = match self.selected {
                    Some(i) => if i >= self.filtered_deployments.len().saturating_sub(1) {
                        0
                    } else {
                        i + 1
                    },
                    None => 0,
                };
                self.selected = Some(i);
            },
            ActivePane::Logs => {
                if self.logs.len() > 0 {
                    let last = self.logs.len() - 1;
                    let i = match self.log_selected {
                        Some(i) => if i >= last {
                            last
                        } else {
                            i + 1
                        },
                        None => 0,
                    };
                    self.log_selected = Some(i);
                }
            },
        }
        self.confirmation_mode.reset();
    }

    /// The kill key at `now`: on a selected deployment that is building,
    /// while the list has the focus, it presses the cancel trigger (a second
    /// press on the same deployment issues the cancel); otherwise it moves
    /// up.
    pub fn press_kill(&mut self, now: u64) -> (r: Option<NetworkCommand>)
        ensures
            ({
                let a = *old(self);
                let building = match a.selected {
                    Some(i) => i < a.filtered_deployments@.len() && a.filtered_deployments@[i as int].status == Status::Building,
                    None => false,
                };
                if a.active_pane == ActivePane::Deployments && building {
                    exists|t: String| t@ == selected_id(a.filtered_deployments@, a.selected)->0 && {
                        &&& *final(self) == (App {
                            confirmation_mode: press_state(a.confirmation_mode, Destructive::Cancel, t, now),
                            ..a
                        })
                        &&& r == press_command(a.confirmation_mode, Destructive::Cancel, t)
                    }
                } else {
                    r is None && final(self).confirmation_mode is Idle
                }
            }),
    {
        if self.active_pane == ActivePane::Deployments {
            match self.selected {
                Some(i) => if i < self.filtered_deployments.len() {
                    if self.filtered_deployments[i].status == Status::Building {
                        let id = self.filtered_deployments[i].id.clone();
                        return self.confirmation_mode.press(Destructive::Cancel, id, now);
                    }
                },
                None => {},
            }
        }
        self.move_up();
        None
    }

    /// The escape key: dismisses the error and abandons any pending
    /// confirmation.
    pub fn dismiss(&mut self)
        ensures
            *final(self) == (App { error_message: None, confirmation_mode: ConfirmationState::Idle, ..*old(self) }),
    {
        self.error_message = None;
        self.confirmation_mode.reset();
    }

    /// Switches to the next time window as of `now`, recomputing the filtered
    /// view and keeping the selected deployment selected where it is still
    /// shown.
    pub fn cycle_period(&mut self, now: u64)
        ensures
            *final(self) == (App {
                stat_period: next_period(old(self).stat_period),
                filtered_deployments: final(self).filtered_deployments,
                selected: final(self).selected,
                ..*old(self)
            }),
            final(self).filtered_deployments@ == filter_view(
                old(self).deployments@,
                next_period(old(self).stat_period),
                now,
                old(self).filter_query@,
            ),
            names_row(
                final(self).selected,
                reselect(final(self).filtered_deployments@, selected_id(old(self).filtered_deployments@, old(self).selected)),
            ),
    {
        self.stat_period = self.stat_period.next();
        let current = self.get_selected_deployment_id();
        self.update_filter_at(now);
        self.select_deployment_by_id(current);
    }

    /// The enter key: clears the shown logs of the selected deployment and
    /// asks for all of them afresh.
    pub fn open_logs(&mut self) -> (r: Option<NetworkCommand>)
        ensures
            match selected_id(old(self).filtered_deployments@, old(self).selected) {
                Some(id) => {
                    &&& *final(self) == (App { logs: final(self).logs, is_loading_logs: true, log_selected: None, ..*old(self) })
                    &&& final(self).logs@.len() == 0
                    &&& r matches Some(NetworkCommand::Logs(x)) && x@ == id
                },
                None => *final(self) == *old(self) && r is None,
            },
    {
        match self.get_selected_deployment_id() {
            Some(id) => {
                self.logs = Vec::new();
                self.is_loading_logs = true;
                self.log_selected = None;
                Some(NetworkCommand::Logs(id))
            },
            None => None,
        }
    }

    /// Types `c` into the branch query as of `now`: the view is recomputed
    /// and its first row selected.
    pub fn filter_push(&mut self, c: char, now: u64)
        ensures
            *final(self) == (App {
                filter_query: final(self).filter_query,
                filtered_deployments: final(self).filtered_deployments,
                selected: Some(0),
                ..*old(self)
            }),
            final(self).filter_query@ == old(self).filter_query@.push(c),
            final(self).filtered_deployments@ == filter_view(
                old(self).deployments@,
                old(self).stat_period,
                now,
                final(self).filter_query@,
            ),
    {
        push_char(&mut self.filter_query, c);
        self.update_filter_at(now);
        self.selected = Some(0);
    }

    /// Erases the last character of the branch query as of `now`: the view
    /// is recomputed and its first row selected.
    pub fn filter_pop(&mut self, now: u64)
        ensures
            *final(self) == (App {
                filter_query: final(self).filter_query,
                filtered_deployments: final(self).filtered_deployments,
                selected: Some(0),
                ..*old(self)
            }),
            final(self).filter_query@ == if old(self).filter_query@.len() > 0 {
                old(self).filter_query@.drop_last()
            } else {
                old(self).filter_query@
            },
            final(self).filtered_deployments@ == filter_view(
                old(self).deployments@,
                old(self).stat_period,
                now,
                final(self).filter_query@,
            ),
    {
        let _ = pop_char(&mut self.filter_query);
        self.update_filter_at(now);
        self.selected = Some(0);
    }

    /// Leaves query input, dropping the query, as of `now`: the view is
    /// recomputed and its first row selected.
    pub fn filter_escape(&mut self, now: u64)
        ensures
            *final(self) == (App {
                is_filter_mode: false,
                filter_query: final(self).filter_query,
                filtered_deployments: final(self).filtered_deployments,
                selected: Some(0),
                ..*old(self)
            }),
            final(self).filter_query@.len() == 0,
            final(self).filtered_deployments@ == filter_view(
                old(self).deployments@,
                old(self).stat_period,
                now,
                Seq::empty(),
            ),
    {
        self.is_filter_mode = false;
        self.filter_query = String::new();
        self.update_filter_at(now);
        self.selected = Some(0);
    }

    /// The deployment row under a click at line `row` of the list area, each
    /// deployment taking six lines below a one-line border.
    pub fn row_at(&self, row: u16) -> (r: Option<usize>)
        ensures
            r == (if row > 0 && self.scroll_offset + row / 6 < self.filtered_deployments@.len() {
                Some((self.scroll_offset + row / 6) as usize)
            } else {
                None::<usize>
            }),
    {
        if row == 0 {
            return None;
        }
        let k: usize = (row / 6) as usize;
        let len = self.filtered_deployments.len();
        if self.scroll_offset < len && k < len - self.scroll_offset {
            Some(self.scroll_offset + k)
        } else {
            None
        }
    }

    /// A left click at `now` on cell (`x`, `y`), line `row` of the list
    /// area: selects the row under it and focuses the list. Says whether it
    /// completes a double click on the same cell within half a second, which
    /// opens the deployment.
    pub fn click(&mut self, row: u16, x: u16, y: u16, now: u64) -> (r: bool)
        ensures
            ({
                let a = *old(self);
                let target = if row > 0 && a.scroll_offset + row / 6 < a.filtered_deployments@.len() {
                    Some((a.scroll_offset + row / 6) as usize)
                } else {
                    None::<usize>
                };
                let double = match a.last_click {
                    Some((t, lx, ly)) => now >= t && now - t < 500 && lx == x && ly == y,
                    None => false,
                };
                match target {
                    Some(i) => {
                        &&& r == double
                        &&& *final(self) == (App {
                            selected: Some(i),
                            active_pane: ActivePane::Deployments,
                            last_click: if double {
                                None
                            } else {
                                Some((now, x, y))
                            },
                            ..a
                        })
                    },
                    None => !r && *final(self) == a,
                }
            }),
    {
        match self.row_at(row) {
            Some(i) => {
                self.selected = Some(i);
                self.active_pane = ActivePane::Deployments;
                let double = match self.last_click {
                    Some((t, lx, ly)) => now >= t && now - t < 500 && lx == x && ly == y,
                    None => false,
                };
                if double {
                    self.last_click = None;
                } else {
                    self.last_click = Some((now, x, y));
                }
                double
            },
            None => false,
        }
    }

    /// A click outside the list: forgets the last click, closes the menu and
    /// abandons any pending confirmation.
    pub fn click_outside(&mut self)
        ensures
            *final(self) == (App {
                last_click: None,
                context_menu: None,
                confirmation_mode: ConfirmationState::Idle,
                ..*old(self)
            }),
    {
        self.last_click = None;
        self.context_menu = None;
        self.confirmation_mode = ConfirmationState::Idle;
    }

    /// Moves the project selector one entry up, wrapping to the last.
    pub fn project_up(&mut self)
        ensures
            *final(self) == (App { project_selected: final(self).project_selected, ..*old(self) }),
            old(self).projects@.len() == 0 ==> final(self).project_selected == old(self).project_selected,
            old(self).projects@.len() > 0 ==> final(self).project_selected == Some(match old(self).project_selected {
                Some(i) => if i == 0 {
                    (old(self).projects@.len() - 1) as usize
                } else {
                    (i - 1) as usize
                },
                None => 0,
            }),
    {
        let len = self.projects.len();
        if len > 0 {
            let i = match self.project_selected {
                Some(i) => if i == 0 {
                    len - 1
                } else {
                    i - 1
                },
                None => 0,
            };
            self.project_selected = Some(i);
        }
    }

    /// Moves the project selector one entry down, wrapping to the first.
    pub fn project_down(&mut self)
        ensures
            *final(self) == (App { project_selected: final(self).project_selected, ..*old(self) }),
            old(self).projects@.len() == 0 ==> final(self).project_selected == old(self).project_selected,
            old(self).projects@.len() > 0 ==> final(self).project_selected == Some(match old(self).project_selected {
                Some(i) => if i + 1 >= old(self).projects@.len() {
                    0
                } else {
                    (i + 1) as usize
                },
                None => 0,
            }),
    {
        let len = self.projects.len();
        if len > 0 {
            let i = match self.project_selected {
                Some(i) => if i >= len - 1 {
                    0
                } else {
                    i + 1
                },
                None => 0,
            };
            self.project_selected = Some(i);
        }
    }

    /// Confirms the project selector: the chosen project becomes current,
    /// the window opens to all time, what was shown is dropped, and its
    /// deployments are asked for. The selector closes either way.
    pub fn choose_project(&mut self) -> (r: Option<NetworkCommand>)
        ensures
            ({
                let a = *old(self);
                match a.project_selected {
                    Some(i) if i < a.projects@.len() => {
                        let p = a.projects@[i as int];
                        &&& *final(self) == (App {
                            current_project: final(self).current_project,
                            current_project_id: final(self).current_project_id,
                            stat_period: StatPeriod::All,
                            deployments: final(self).deployments,
                            filtered_deployments: final(self).filtered_deployments,
                            logs: final(self).logs,
                            selected: None,
                            show_project_selector: false,
                            ..a
                        })
                        &&& final(self).current_project@ == p.name@
                        &&& opt_view(final(self).current_project_id) == Some(p.id@)
                        &&& final(self).deployments@.len() == 0
                        &&& final(self).filtered_deployments@.len() == 0
                        &&& final(self).logs@.len() == 0
                        &&& r matches Some(NetworkCommand::Deployments(Some(x))) && x@ == p.id@
                    },
                    _ => r is None && *final(self) == (App { show_project_selector: false, ..a }),
                }
            }),
    {
        let mut out: Option<NetworkCommand> = None;
        match self.project_selected {
            Some(i) => if i < self.projects.len() {
                let name = self.projects[i].name.clone();
                let id = self.projects[i].id.clone();
                let sent = self.projects[i].id.clone();
                self.current_project = name;
                self.current_project_id = Some(id);
                self.stat_period = StatPeriod::All;
                self.deployments = Vec::new();
                self.filtered_deployments = Vec::new();
                self.logs = Vec::new();
                self.selected = None;
                out = Some(NetworkCommand::Deployments(Some(sent)));
            },
            None => {},
        }
        self.show_project_selector = false;
        out
    }

    /// Opens the context menu at cell (`x`, `y`) on row `index` of the view,
    /// selecting that row and focusing the list; nothing happens past the
    /// last row.
    pub fn open_context_menu(&mut self, index: usize, x: u16, y: u16)
        ensures
            index >= old(self).filtered_deployments@.len() ==> *final(self) == *old(self),
            index < old(self).filtered_deployments@.len() ==> {
                &&& *final(self) == (App {
                    selected: Some(index),
                    active_pane: ActivePane::Deployments,
                    context_menu: final(self).context_menu,
                    ..*old(self)
                })
                &&& final(self).context_menu matches Some(m) && m.position == (x, y)
                    && m.deployment_id@ == old(self).filtered_deployments@[index as int].id@
                    && m.selected_index == 0 && menu_labels(m.options@)
            },
    {
        if index < self.filtered_deployments.len() {
            self.selected = Some(index);
            self.active_pane = ActivePane::Deployments;
            let mut options: Vec<String> = Vec::new();
            options.push(String::from_str(MENU_OPEN));
            options.push(String::from_str(MENU_REDEPLOY));
            options.push(String::from_str(MENU_KILL));
            self.context_menu = Some(ContextMenu {
                position: (x, y),
                deployment_id: self.filtered_deployments[index].id.clone(),
                selected_index: 0,
                options,
            });
        }
    }

    /// Moves the context menu's highlight one entry up, stopping at the first.
    pub fn menu_up(&mut self)
        ensures
            *final(self) == (App { context_menu: final(self).context_menu, ..*old(self) }),
            match old(self).context_menu {
                Some(m) => final(self).context_menu == Some(ContextMenu {
                    selected_index: if m.selected_index > 0 { (m.selected_index - 1) as usize } else { 0 },
                    ..m
                }),
                None => final(self).context_menu is None,
            },
    {
        match &mut self.context_menu {
            Some(m) => {
                if m.selected_index > 0 {
                    m.selected_index = m.selected_index - 1;
                }
            },
            None => {},
        }
    }

    /// Moves the context menu's highlight one entry down, stopping at the
    /// last.
    pub fn menu_down(&mut self)
        ensures
            *final(self) == (App { context_menu: final(self).context_menu, ..*old(self) }),
            match old(self).context_menu {
                Some(m) => final(self).context_menu == Some(ContextMenu {
                    selected_index: if m.selected_index + 1 < m.options@.len() {
                        (m.selected_index + 1) as usize
                    } else {
                        m.selected_index
                    },
                    ..m
                }),
                None => final(self).context_menu is None,
            },
    {
        match &mut self.context_menu {
            Some(m) => {
                if m.selected_index < m.options.len() && m.options.len() - m.selected_index > 1 {
                    m.selected_index = m.selected_index + 1;
                }
            },
            None => {},
        }
    }

    /// Takes the highlighted entry of the context menu at `now` and closes
    /// the menu. Opening gives the address to show in the browser;
    /// redeploying makes the deployment pending confirmation; killing does so
    /// only for a deployment that is building.
    pub fn choose_menu_entry(&mut self, now: u64) -> (r: Option<String>)
        ensures
            final(self).context_menu is None,
            ({
                let a = *old(self);
                match a.context_menu {
                    Some(m) if m.selected_index < m.options@.len() => {
                        let label = m.options@[m.selected_index as int]@;
                        let found = first_with_id(a.deployments@, m.deployment_id@);
                        if label == MENU_OPEN@ {
                            &&& *final(self) == (App { context_menu: None, ..a })
                            &&& match found {
                                Some(k) => r matches Some(u) && u@ == "https://"@ + a.deployments@[k].domain@,
                                None => r is None,
                            }
                        } else if label == MENU_REDEPLOY@ {
                            &&& r is None
                            &&& *final(self) == (App {
                                context_menu: None,
                                confirmation_mode: ConfirmationState::RedeployPending(m.deployment_id, now),
                                ..a
                            })
                        } else if label == MENU_KILL@ {
                            &&& r is None
                            &&& match found {
                                Some(k) if a.deployments@[k].status == Status::Building => {
                                    &&& *final(self) == (App {
                                        context_menu: None,
                                        confirmation_mode: final(self).confirmation_mode,
                                        ..a
                                    })
                                    &&& (final(self).confirmation_mode matches ConfirmationState::CancelPending(x, t)
                                        && x@ == m.deployment_id@ && t == now)
                                },
                                _ => *final(self) == (App { context_menu: None, ..a }),
                            }
                        } else {
                            r is None && *final(self) == (App { context_menu: None, ..a })
                        }
                    },
                    _ => r is None && *final(self) == (App { context_menu: None, ..a }),
                }
            }),
    {
        let menu = self.context_menu.take();
        let mut out: Option<String> = None;
        match menu {
            Some(m) => if m.selected_index < m.options.len() {
                let label = m.options[m.selected_index].as_str();
                let found = position_of(&self.deployments, &m.deployment_id);
                proof {
                    lemma_first_with_id(self.deployments@, m.deployment_id@);
                }
                if str_eq(label, MENU_OPEN) {
                    match found {
                        Some(k) => {
                            out = Some(browser_url(&self.deployments[k]));
                        },
                        None => {},
                    }
                } else if str_eq(label, MENU_REDEPLOY) {
                    self.confirmation_mode = ConfirmationState::RedeployPending(m.deployment_id, now);
                } else if str_eq(label, MENU_KILL) {
                    match found {
                        Some(k) => if self.deployments[k].status == Status::Building {
                            let id = self.deployments[k].id.clone();
                            self.confirmation_mode = ConfirmationState::CancelPending(id, now);
                        },
                        None => {},
                    }
                }
            },
            None => {},
        }
        out
    }

    /// Jumps to the first row of the focused pane and abandons any pending
    /// confirmation.
    pub fn jump_top(&mut self)
        ensures
            old(self).active_pane == ActivePane::Deployments ==> *final(self) == (App {
                selected: Some(0),
                confirmation_mode: ConfirmationState::Idle,
                ..*old(self)
            }),
            old(self).active_pane == ActivePane::Logs ==> *final(self) == (App {
                log_selected: Some(0),
                confirmation_mode: ConfirmationState::Idle,
                ..*old(self)
            }),
    {
        match self.active_pane {
            ActivePane::Deployments => self.selected = Some(0),
            ActivePane::Logs => self.log_selected = Some(0),
        }
        self.confirmation_mode = ConfirmationState::Idle;
    }

    /// Jumps to the last row of the focused pane (the first of an empty
    /// one) and abandons any pending confirmation.
    pub fn jump_bottom(&mut self)
        ensures
            old(self).active_pane == ActivePane::Deployments ==> *final(self) == (App {
                selected: Some(if old(self).filtered_deployments@.len() > 0 {
                    (old(self).filtered_deployments@.len() - 1) as usize
                } else {
                    0
                }),
                confirmation_mode: ConfirmationState::Idle,
                ..*old(self)
            }),
            old(self).active_pane == ActivePane::Logs ==> *final(self) == (App {
                log_selected: Some(if old(self).logs@.len() > 0 {
                    (old(self).logs@.len() - 1) as usize
                } else {
                    0
                }),
                confirmation_mode: ConfirmationState::Idle,
                ..*old(self)
            }),
    {
        match self.active_pane {
            ActivePane::Deployments => self.selected = Some(self.filtered_deployments.len().saturating_sub(1)),
            ActivePane::Logs => self.log_selected = Some(self.logs.len().saturating_sub(1)),
        }
        self.confirmation_mode = ConfirmationState::Idle;
    }
}

/// Context menu entry that opens the deployment in the browser.
pub const MENU_OPEN: &'static str = "Open in Browser";

/// Context menu entry that asks to redeploy.
pub const MENU_REDEPLOY: &'static str = "Redeploy";

/// Context menu entry that asks to cancel a build.
pub const MENU_KILL: &'static str = "Kill";

/// Whether `o` lists the context menu's entries in order.
pub open spec fn menu_labels(o: Seq<String>) -> bool {
    o.len() == 3 && o[0]@ == MENU_OPEN@ && o[1]@ == MENU_REDEPLOY@ && o[2]@ == MENU_KILL@
}

/// The address at which a deployment is served.
pub fn browser_url(d: &Deployment) -> (r: String)
    ensures
        r@ == "https://"@ + d.domain@,
{
    let mut u = String::from_str("https://");
    u.append(d.domain.as_str());
    u
}

} // verus!
