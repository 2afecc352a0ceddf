use vstd::prelude::*;
use crate::action::{Action, ActionView};
use crate::components::keys::Key;

verus! {

/// A service that the home screen offers, and the action that opens it.
pub struct Service {
    name: String,
    description: String,
    action: Action,
}

pub struct ServiceView {
    pub name: Seq<char>,
    pub description: Seq<char>,
    pub action: ActionView,
}

impl View for Service {
    type V = ServiceView;

    closed spec fn view(&self) -> ServiceView {
        ServiceView { name: self.name@, description: self.description@, action: self.action@ }
    }
}

pub open spec fn services_view(v: Seq<Service>) -> Seq<ServiceView> {
    v.map_values(|s: Service| s@)
}

/// The home screen: a list of services, one of them selected.
pub struct Home {
    action_handler_registered: bool,
    aws_config_registered: bool,
    selected_service: usize,
    services: Vec<Service>,
    list_selected: Option<usize>,
}

pub struct HomeView {
    pub action_handler_registered: bool,
    pub aws_config_registered: bool,
    pub selected_service: usize,
    pub services: Seq<ServiceView>,
    pub list_selected: Option<usize>,
}

impl View for Home {
    type V = HomeView;

    closed spec fn view(&self) -> HomeView {
        HomeView {
            action_handler_registered: self.action_handler_registered,
            aws_config_registered: self.aws_config_registered,
            selected_service: self.selected_service,
            services: services_view(self.services@),
            list_selected: self.list_selected,
        }
    }
}

impl HomeView {
    /// The selection lies within the list, or at its start where the list is empty,
    /// and the highlighted row is the selected service.
    pub open spec fn wf(self) -> bool {
        &&& (self.services.len() == 0 ==> self.selected_service == 0)
        &&& (self.services.len() > 0 ==> self.selected_service < self.services.len())
        &&& self.list_selected == Some(self.selected_service)
    }
}

/// Whether a key moves the selection up: Up or `k`.
pub open spec fn is_up_key(key: Key) -> bool {
    key == Key::Up || key == Key::Char('k')
}

/// Whether a key moves the selection down: Down or `j`.
pub open spec fn is_down_key(key: Key) -> bool {
    key == Key::Down || key == Key::Char('j')
}

/// The selected service after a key: one up (stopping at the first) or one down
/// (stopping at the last); unchanged in an empty list and for other keys.
pub open spec fn home_selection(len: nat, selected: usize, key: Key) -> usize {
    if len == 0 {
        selected
    } else if is_up_key(key) {
        if selected > 0 {
            (selected - 1) as usize
        } else {
            0
        }
    } else if is_down_key(key) {
        if selected + 1 < len - 1 {
            (selected + 1) as usize
        } else {
            (len - 1) as usize
        }
    } else {
        selected
    }
}

/// The answer to a key: a redraw after moving, the selected service's action on
/// Enter where there is one, and nothing otherwise.
pub open spec fn home_reply(h: HomeView, key: Key) -> Option<ActionView> {
    if is_up_key(key) || is_down_key(key) {
        Some(ActionView::Render)
    } else if key == Key::Enter && h.selected_service < h.services.len() {
        Some(h.services[h.selected_service as int].action)
    } else {
        None
    }
}

pub open spec fn opt_action_view(a: Option<Action>) -> Option<ActionView> {
    match a {
        Some(x) => Some(x@),
        None => None,
    }
}

/// Navigation keeps the home screen's selection inside its list of services.
pub proof fn lemma_home_selection_stays_in_list(len: nat, selected: usize, key: Key)
    requires
        len <= usize::MAX,
        len == 0 ==> selected == 0,
        len > 0 ==> selected < len,
    ensures
        len == 0 ==> home_selection(len, selected, key) == 0,
        len > 0 ==> home_selection(len, selected, key) < len,
{
}

/// Down then Up comes back to the same service away from the last one; Up stays
/// at the first service and Down at the last.
pub proof fn lemma_home_down_then_up_returns(len: nat, selected: usize)
    requires
        selected < len <= usize::MAX,
    ensures
        selected + 1 < len ==> home_selection(
            len,
            home_selection(len, selected, Key::Down),
            Key::Up,
        ) == selected,
        home_selection(len, 0, Key::Up) == 0,
        home_selection(len, (len - 1) as usize, Key::Down) == len - 1,
{
}

/// In a non-empty list, Down and `j` move the selection to the next service,
/// stopping at the last: the new selection is the smaller of the old one plus one
/// and the last position. Up and `k` move it to the previous service, stopping at
/// the first. The two keys of each direction act alike from every position.
pub proof fn lemma_home_keys_move_by_one(len: nat, selected: usize, key: Key)
    requires
        0 < len <= usize::MAX,
        selected < len,
    ensures
        (key == Key::Down || key == Key::Char('j')) ==> home_selection(len, selected, key) == (
        if selected + 1 <= len - 1 {
            selected + 1
        } else {
            len - 1
        }),
        (key == Key::Up || key == Key::Char('k')) ==> home_selection(len, selected, key) == (
        if selected >= 1 {
            selected - 1
        } else {
            0
        }),
        home_selection(len, selected, Key::Char('j')) == home_selection(len, selected, Key::Down),
        home_selection(len, selected, Key::Char('k')) == home_selection(len, selected, Key::Up),
        !(key == Key::Down || key == Key::Char('j') || key == Key::Up || key == Key::Char('k'))
            ==> home_selection(len, selected, key) == selected,
{
}

/// What the home screen shows.
pub struct HomeScreen {
    pub title: String,
    /// Per service, its name and its indented description.
    pub items: Vec<(String, String)>,
    pub highlight_symbol: String,
    pub selected: Option<usize>,
}

pub struct HomeScreenView {
    pub title: Seq<char>,
    pub items: Seq<(Seq<char>, Seq<char>)>,
    pub highlight_symbol: Seq<char>,
    pub selected: Option<usize>,
}

impl View for HomeScreen {
    type V = HomeScreenView;

    open spec fn view(&self) -> HomeScreenView {
        HomeScreenView {
            title: self.title@,
            items: self.items@.map_values(|p: (String, String)| (p.0@, p.1@)),
            highlight_symbol: self.highlight_symbol@,
            selected: self.selected,
        }
    }
}

/// A service's entry in the list: its name, and its description after two spaces.
pub open spec fn service_item(s: ServiceView) -> (Seq<char>, Seq<char>) {
    (s.name, "  "@ + s.description)
}

/// What a home screen shows.
pub open spec fn home_screen(h: HomeView) -> HomeScreenView {
    HomeScreenView {
        title: "Bototui"@,
        items: h.services.map_values(|s: ServiceView| service_item(s)),
        highlight_symbol: "> "@,
        selected: h.list_selected,
    }
}

fn service(name: &str, description: &str, action: Action) -> (r: Service)
    ensures
        r@ == (ServiceView { name: name@, description: description@, action: action@ }),
{
    Service { name: name.to_string(), description: description.to_string(), action }
}

impl Default for Home {
    /// A home screen without services, with the first entry selected.
    fn default() -> (r: Home)
        ensures
            r@ == (HomeView {
                action_handler_registered: false,
                aws_config_registered: false,
                selected_service: 0,
                services: Seq::empty(),
                list_selected: Some(0),
            }),
            r@.wf(),
    {
        let r = Home {
            action_handler_registered: false,
            aws_config_registered: false,
            selected_service: 0,
            services: Vec::new(),
            list_selected: Some(0),
        };
        proof {
            assert(services_view(r.services@) =~= Seq::<ServiceView>::empty());
        }
        r
    }
}

impl Home {
    #[verifier::type_invariant]
    closed spec fn inv(self) -> bool {
        self@.wf()
    }

    /// The home screen with its services: AWS Batch, then the logs.
    pub fn new() -> (r: Home)
        ensures
            r@ == (HomeView {
                action_handler_registered: false,
                aws_config_registered: false,
                selected_service: 0,
                services: seq![
                    ServiceView {
                        name: "AWS Batch"@,
                        description: "Manage AWS Batch jobs and job queues"@,
                        action: ActionView::NavigateToBatch,
                    },
                    ServiceView {
                        name: "Logs"@,
                        description: "View application logs"@,
                        action: ActionView::NavigateToLogger,
                    },
                ],
                list_selected: Some(0),
            }),
            r@.wf(),
    {
        let services = vec![
            service("AWS Batch", "Manage AWS Batch jobs and job queues", Action::NavigateToBatch),
            service("Logs", "View application logs", Action::NavigateToLogger),
        ];
        let r = Home {
            action_handler_registered: false,
            aws_config_registered: false,
            selected_service: 0,
            services,
            list_selected: Some(0),
        };
        proof {
            assert(services_view(services@) =~= seq![
                ServiceView {
                    name: "AWS Batch"@,
                    description: "Manage AWS Batch jobs and job queues"@,
                    action: ActionView::NavigateToBatch,
                },
                ServiceView {
                    name: "Logs"@,
                    description: "View application logs"@,
                    action: ActionView::NavigateToLogger,
                },
            ]);
        }
        r
    }

    /// Records that actions can now be sent back to the application.
    pub fn register_action_handler(&mut self)
        ensures
            final(self)@ == (HomeView { action_handler_registered: true, ..old(self)@ }),
            old(self)@.wf(),
            final(self)@.wf(),
    {
        proof {
            use_type_invariant(&*self);
        }
        self.action_handler_registered = true;
    }

    /// Records the AWS configuration.
    pub fn register_aws_config_handler(&mut self)
        ensures
            final(self)@ == (HomeView { aws_config_registered: true, ..old(self)@ }),
            old(self)@.wf(),
            final(self)@.wf(),
    {
        proof {
            use_type_invariant(&*self);
        }
        self.aws_config_registered = true;
    }

    /// Selects the service at `selected`, in the list and on the screen.
    fn select(&mut self, selected: usize)
        requires
            selected < old(self)@.services.len(),
        ensures
            final(self)@ == (HomeView {
                selected_service: selected,
                list_selected: Some(selected),
                ..old(self)@
            }),
    {
        let mut current = Home::default();
        std::mem::swap(&mut current, self);
        let Home { action_handler_registered, aws_config_registered, services, .. } = current;
        *self = Home {
            action_handler_registered,
            aws_config_registered,
            selected_service: selected,
            services,
            list_selected: Some(selected),
        };
    }

    /// Moves the selection with Up/`k` and Down/`j`, and answers Enter with the
    /// selected service's action.
    pub fn handle_key_event(&mut self, key: Key) -> (r: Option<Action>)
        ensures
            final(self)@ == (HomeView {
                selected_service: home_selection(
                    old(self)@.services.len(),
                    old(self)@.selected_service,
                    key,
                ),
                list_selected: Some(
                    home_selection(old(self)@.services.len(), old(self)@.selected_service, key),
                ),
                ..old(self)@
            }),
            opt_action_view(r) == home_reply(old(self)@, key),
            old(self)@.wf(),
            final(self)@.wf(),
    {
        proof {
            use_type_invariant(&*self);
        }
        if key == Key::Up || key == Key::Char('k') {
            if !self.services.is_empty() {
                let selected: usize = self.selected_service.saturating_sub(1);
                self.select(selected);
            }
            Some(Action::Render)
        } else if key == Key::Down || key == Key::Char('j') {
            if !self.services.is_empty() {
                let last: usize = self.services.len() - 1;
                let next: usize = self.selected_service + 1;
                let selected: usize = if next < last {
                    next
                } else {
                    last
                };
                self.select(selected);
            }
            Some(Action::Render)
        } else if key == Key::Enter {
            if self.selected_service < self.services.len() {
                Some(self.services[self.selected_service].action.duplicate())
            } else {
                None
            }
        } else {
            None
        }
    }

    /// Applies an action; the home screen keeps its state and answers nothing.
    pub fn update(&mut self, action: Action) -> (r: Option<Action>)
        ensures
            r is None,
            final(self)@ == old(self)@,
            old(self)@.wf(),
    {
        proof {
            use_type_invariant(&*self);
        }
        None
    }

    /// What the home screen shows: its title, each service's name and indented
    /// description, and the highlighted entry. The screen is well formed.
    pub fn screen(&self) -> (r: HomeScreen)
        ensures
            r@ == home_screen(self@),
            self@.wf(),
    {
        proof {
            use_type_invariant(self);
        }
        let mut items: Vec<(String, String)> = Vec::new();
        let mut i: usize = 0;
        while i < self.services.len()
            invariant
                i <= self.services.len(),
                items@.map_values(|p: (String, String)| (p.0@, p.1@)) == services_view(
                    self.services@.take(i as int),
                ).map_values(|s: ServiceView| service_item(s)),
            decreases self.services.len() - i,
        {
            let s = &self.services[i];
            let item = (s.name.clone(), "  ".to_string().concat(s.description.as_str()));
            let ghost before = items@;
            items.push(item);
            proof {
                assert(items@.map_values(|p: (String, String)| (p.0@, p.1@)) =~= before.map_values(
                    |p: (String, String)| (p.0@, p.1@),
                ).push(service_item(s@)));
                assert(services_view(self.services@.take(i + 1)) =~= services_view(
                    self.services@.take(i as int),
                ).push(s@));
                assert(services_view(self.services@.take(i + 1)).map_values(
                    |s: ServiceView| service_item(s),
                ) =~= services_view(self.services@.take(i as int)).map_values(
                    |s: ServiceView| service_item(s),
                ).push(service_item(s@)));
            }
            i = i + 1;
        }
        proof {
            assert(self.services@.take(self.services.len() as int) == self.services@);
        }
        HomeScreen {
            title: "Bototui".to_string(),
            items,
            highlight_symbol: "> ".to_string(),
            selected: self.list_selected,
        }
    }
}

} // verus!
