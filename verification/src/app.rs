//! The state of the application, and the decisions taken while a user is
//! being registered on a bridge.

use vstd::prelude::*;

use crate::bridge::Bridge;
use crate::config::User;
use crate::errors::BridgeError;
use crate::ui::TabsState;

verus! {

/// How many times the registration of a user is tried before giving up.
pub const DISCOVERY_ATTEMPTS: u32 = 25;

/// Seconds of pause after a failed registration attempt.
pub const DISCOVERY_PAUSE_SECS: u64 = 3;

/// How much the discovery loader advances after each failed attempt.
pub const LOADER_STEP: u32 = 4;

/// The page that the application shows.
#[derive(Clone, Debug, PartialEq, Eq)]
pub enum Page {
    /// Bridges were found; a user is being registered on them.
    Discovery(Vec<Bridge>),
    Rooms,
    Lights,
    /// Bridges are being looked for.
    Search,
}

/// The state of the application.
#[derive(Clone, Debug)]
pub struct App {
    pub user: Option<User>,
    pub tabstate: TabsState,
    pub active_page: Page,
    pub discovery_loader: u32,
    pub discovery_task_spawned: bool,
}

/// What to do after one attempt to register a user.
#[derive(Debug)]
pub enum DiscoveryAction {
    /// A user was registered: store it and stop trying.
    SaveUser(User),
    /// The attempt failed and attempts are left: pause, then try again.
    PauseThenRetry,
    /// The last attempt failed: pause, then give up.
    PauseThenStop,
}

/// How many attempts of a run fail before one succeeds (all of them when
/// none does); `succeeded[i]` tells whether attempt `i` registered a user.
pub open spec fn leading_failures(succeeded: Seq<bool>) -> nat
    decreases succeeded.len(),
{
    if succeeded.len() == 0 || succeeded[0] {
        0
    } else {
        1 + leading_failures(succeeded.drop_first())
    }
}

/// The page shown first: the rooms for a known user, the bridge search otherwise.
pub open spec fn start_page(user: Option<User>) -> Page {
    if user is Some {
        Page::Rooms
    } else {
        Page::Search
    }
}

impl App {
    /// The state after one failed registration attempt: the loader has
    /// advanced and the registration task is known to run.
    pub open spec fn after_failed_attempt(self) -> App {
        App {
            user: self.user,
            tabstate: self.tabstate,
            active_page: self.active_page,
            discovery_loader: (self.discovery_loader + LOADER_STEP) as u32,
            discovery_task_spawned: true,
        }
    }

    /// The state after a run of registration attempts, taken in order until
    /// one succeeds: each failure advances the state, and a success leaves it.
    pub open spec fn after_attempts(self, succeeded: Seq<bool>) -> App
        decreases succeeded.len(),
    {
        if succeeded.len() == 0 || succeeded[0] {
            self
        } else {
            self.after_failed_attempt().after_attempts(succeeded.drop_first())
        }
    }

    /// The state after `k` failed registration attempts in a row.
    pub open spec fn after_failed_attempts(self, k: nat) -> App
        decreases k,
    {
        if k == 0 {
            self
        } else {
            self.after_failed_attempts((k - 1) as nat).after_failed_attempt()
        }
    }

    /// The state at start, given the user loaded from the configuration, if
    /// any: the tabs at their start, the loader at zero, and the rooms page
    /// for a known user or the bridge search otherwise.
    pub fn new(user: Option<User>) -> (app: App)
        ensures
            app.user == user,
            app.active_page == start_page(user),
            app.tabstate.pages@.len() == 3,
            app.tabstate.pages@[0]@ == "Rooms"@,
            app.tabstate.pages@[1]@ == "Lights"@,
            app.tabstate.pages@[2]@ == "Groups"@,
            app.tabstate.index == 0,
            app.discovery_loader == 0,
            !app.discovery_task_spawned,
    {
        let active_page = if user.is_some() {
            Page::Rooms
        } else {
            Page::Search
        };
        App {
            user,
            tabstate: TabsState::new(),
            active_page,
            discovery_loader: 0,
            discovery_task_spawned: false,
        }
    }

    /// Replaces the user by the one loaded again from the configuration.
    pub fn update_user(&mut self, loaded: Option<User>)
        ensures
            *final(self) == (App { user: loaded, ..*old(self) }),
    {
        self.user = loaded;
    }

    /// Whether a user is known.
    pub fn authorized(&self) -> (b: bool)
        ensures
            b == self.user is Some,
    {
        self.user.is_some()
    }

    /// Advances the discovery loader by one step.
    pub fn increment_loader(&mut self)
        requires
            old(self).discovery_loader + LOADER_STEP <= u32::MAX,
        ensures
            *final(self) == (App {
                discovery_loader: (old(self).discovery_loader + LOADER_STEP) as u32,
                ..*old(self)
            }),
    {
        self.discovery_loader += LOADER_STEP;
    }

    /// Runs on every tick of the event loop; the state stays as it is.
    pub fn update_on_tick(&self) {
    }

    /// Shows the bridges that the search found.
    pub fn show_bridges(&mut self, bridges: Vec<Bridge>)
        ensures
            *final(self) == (App { active_page: Page::Discovery(bridges), ..*old(self) }),
    {
        self.active_page = Page::Discovery(bridges);
    }

    /// Takes the outcome of registration attempt number `attempt` (counted
    /// from zero): a registered user is to be saved, and the state stays as
    /// it is; a failure advances the loader, marks the registration task as
    /// running, and asks for a pause, after which the task tries again unless
    /// this was its last attempt.
    pub fn after_discovery_attempt(&mut self, attempt: u32, outcome: Result<User, BridgeError>) -> (action:
        DiscoveryAction)
        requires
            outcome is Err ==> old(self).discovery_loader + LOADER_STEP <= u32::MAX,
        ensures
            outcome matches Ok(u) ==> action == DiscoveryAction::SaveUser(u) && *final(self)
                == *old(self),
            outcome is Err ==> *final(self) == old(self).after_failed_attempt(),
            outcome is Err && attempt + 1 < DISCOVERY_ATTEMPTS ==> action is PauseThenRetry,
            outcome is Err && attempt + 1 >= DISCOVERY_ATTEMPTS ==> action is PauseThenStop,
    {
        match outcome {
            Ok(user) => DiscoveryAction::SaveUser(user),
            Err(_) => {
                self.increment_loader();
                self.discovery_task_spawned = true;
                if attempt < DISCOVERY_ATTEMPTS - 1 {
                    DiscoveryAction::PauseThenRetry
                } else {
                    DiscoveryAction::PauseThenStop
                }
            },
        }
    }
}

/// The application starts on the rooms page exactly when it knows a user,
/// that is when it is authorized; otherwise it starts on the bridge search.
pub proof fn lemma_start_page_follows_user(user: Option<User>)
    ensures
        (start_page(user) is Rooms) == (user is Some),
        (start_page(user) is Search) == (user is None),
{
}

/// Each failed registration attempt advances the loader by the same step
/// and marks the task as running, and changes nothing else: after `k` of
/// them the loader stands `k` steps further.
pub proof fn lemma_loader_counts_failures(app: App, k: nat)
    requires
        app.discovery_loader + LOADER_STEP * k <= u32::MAX,
    ensures
        app.after_failed_attempts(k) == (App {
            discovery_loader: (app.discovery_loader + LOADER_STEP * k) as u32,
            discovery_task_spawned: app.discovery_task_spawned || k > 0,
            ..app
        }),
    decreases k,
{
    if k > 0 {
        lemma_loader_counts_failures(app, (k - 1) as nat);
    }
}

/// A run of registration attempts, taken in order until one succeeds,
/// leaves the state as that many failures do, and no more than the number of
/// attempts made.
proof fn lemma_attempts_are_failures(app: App, succeeded: Seq<bool>)
    requires
        app.discovery_loader + LOADER_STEP * succeeded.len() <= u32::MAX,
    ensures
        leading_failures(succeeded) <= succeeded.len(),
        app.after_attempts(succeeded) == app.after_failed_attempts(leading_failures(succeeded)),
    decreases succeeded.len(),
{
    if succeeded.len() > 0 && !succeeded[0] {
        let next = app.after_failed_attempt();
        lemma_attempts_are_failures(next, succeeded.drop_first());
        let f = leading_failures(succeeded.drop_first());
        lemma_loader_counts_failures(next, f);
        lemma_loader_counts_failures(app, f + 1);
    }
}

/// The whole registration task: over at most `DISCOVERY_ATTEMPTS` attempts,
/// taken until one succeeds, the loader advances by one step per failure, so
/// by at most one hundred; the task is marked as running once an attempt has
/// failed; the user, the tabs and the page are left as they were.
pub proof fn lemma_discovery_task_effect(app: App, succeeded: Seq<bool>)
    requires
        succeeded.len() <= DISCOVERY_ATTEMPTS,
        app.discovery_loader + 100 <= u32::MAX,
    ensures
        leading_failures(succeeded) <= DISCOVERY_ATTEMPTS,
        app.after_attempts(succeeded) == (App {
            discovery_loader: (app.discovery_loader + LOADER_STEP * leading_failures(succeeded)) as u32,
            discovery_task_spawned: app.discovery_task_spawned || leading_failures(succeeded) > 0,
            ..app
        }),
        app.after_attempts(succeeded).discovery_loader <= app.discovery_loader + 100,
{
    lemma_attempts_are_failures(app, succeeded);
    lemma_loader_counts_failures(app, leading_failures(succeeded));
}

/// A registration that fails on every attempt fills the loader from zero to
/// exactly one hundred.
pub proof fn lemma_loader_fills_on_last_attempt(app: App)
    requires
        app.discovery_loader == 0,
    ensures
        app.after_failed_attempts(DISCOVERY_ATTEMPTS as nat).discovery_loader == 100,
        forall|k: nat|
            k <= DISCOVERY_ATTEMPTS ==> #[trigger] app.after_failed_attempts(k).discovery_loader
                <= 100,
{
    lemma_loader_counts_failures(app, DISCOVERY_ATTEMPTS as nat);
    assert forall|k: nat| k <= DISCOVERY_ATTEMPTS implies #[trigger] app.after_failed_attempts(
        k,
    ).discovery_loader <= 100 by {
        lemma_loader_counts_failures(app, k);
    }
}

} // verus!
