//! What the desktop client keeps of the events it receives: the outcome of
//! the last Docker action and its notifications, the alerts, the recent
//! resource history and the list of environments.
use vstd::prelude::*;
use crate::system::{Alert, NetworkInfo};
use crate::text::{chars_of, concat3, string_eq};
use crate::virtenv::VirtualEnvironment;

verus! {

#[derive(Clone, Copy, Debug, PartialEq, Eq)]
pub enum ToastType {
    Success,
    Error,
    Info,
}

impl ToastType {
    /// The icon a notification of this kind is shown with.
    pub fn icon(&self) -> (r: &'static str)
        ensures
            r@ == match *self {
                ToastType::Success => "\u{2713}"@,
                ToastType::Error => "\u{2715}"@,
                ToastType::Info => "\u{2139}"@,
            },
    {
        match self {
            ToastType::Success => "\u{2713}",
            ToastType::Error => "\u{2715}",
            ToastType::Info => "\u{2139}",
        }
    }

    /// The class a notification of this kind is shown with.
    pub fn class_name(&self) -> (r: &'static str)
        ensures
            r@ == match *self {
                ToastType::Success => "toast toast-success"@,
                ToastType::Error => "toast toast-error"@,
                ToastType::Info => "toast toast-info"@,
            },
    {
        match self {
            ToastType::Success => "toast toast-success",
            ToastType::Error => "toast toast-error",
            ToastType::Info => "toast toast-info",
        }
    }
}

#[derive(Clone, Debug, PartialEq)]
pub struct Toast {
    pub id: u64,
    pub message: String,
    pub toast_type: ToastType,
    pub timestamp: u64,
}

/// At most this many notifications are shown.
pub const TOAST_LIMIT: usize = 5;

/// At most this many alerts are kept.
pub const ALERT_LIMIT: usize = 50;

/// The resource history keeps this many samples.
pub const HISTORY_POINTS: usize = 60;

/// `s` without its first item when it is longer than `cap`.
pub open spec fn capped<A>(s: Seq<A>, cap: nat) -> Seq<A> {
    if s.len() > cap {
        s.drop_first()
    } else {
        s
    }
}

/// Appends `x`, dropping the oldest item when the vector grows past `cap`.
pub fn push_capped<T>(v: &mut Vec<T>, x: T, cap: usize)
    ensures
        final(v)@ == capped(old(v)@.push(x), cap as nat),
{
    v.push(x);
    if v.len() > cap {
        v.remove(0);
    }
}

#[derive(Clone, Debug, PartialEq)]
pub struct DockerActionState {
    pub in_progress: bool,
    pub last_action: Option<String>,
    pub last_ok: Option<bool>,
    pub message: Option<String>,
}

/// The notification text for a finished action: that it completed, or its
/// message (else that it failed).
pub open spec fn toast_text(action: Seq<char>, ok: bool, message: Option<Seq<char>>) -> Seq<char> {
    if ok {
        action + " completed successfully"@
    } else {
        match message {
            Some(m) => m,
            None => action + " failed"@,
        }
    }
}

#[derive(Clone, Copy, Debug, PartialEq, Eq)]
pub enum Theme {
    Light,
    Dark,
}

/// The other theme.
pub open spec fn other_theme(t: Theme) -> Theme {
    match t {
        Theme::Light => Theme::Dark,
        Theme::Dark => Theme::Light,
    }
}

/// Switching the theme twice brings back the theme one started from.
pub proof fn toggling_twice_restores_the_theme(t: Theme)
    ensures
        other_theme(other_theme(t)) == t,
        other_theme(t) != t,
{
}

impl Theme {
    /// The other theme.
    pub fn toggled(self) -> (r: Theme)
        ensures
            r == other_theme(self),
    {
        match self {
            Theme::Light => Theme::Dark,
            Theme::Dark => Theme::Light,
        }
    }

    /// The icon of the button that switches away from this theme.
    pub fn toggle_icon(self) -> (r: &'static str)
        ensures
            r@ == (match self {
                Theme::Light => "\u{1f319}"@,
                Theme::Dark => "\u{2600}\u{fe0f}"@,
            }),
    {
        match self {
            Theme::Light => "\u{1f319}",
            Theme::Dark => "\u{2600}\u{fe0f}",
        }
    }
}

/// The client's record of what it was told.
pub struct ClientState {
    pub action: DockerActionState,
    pub toasts: Vec<Toast>,
    pub alerts: Vec<Alert>,
    pub memory_history: Vec<u64>,
    pub network_rx_history: Vec<u64>,
    pub network_tx_history: Vec<u64>,
    pub environments: Vec<VirtualEnvironment>,
    pub env_total: usize,
    pub env_active: usize,
}

/// The number of environments marked active.
pub open spec fn active_count(s: Seq<VirtualEnvironment>) -> nat
    decreases s.len(),
{
    if s.len() == 0 {
        0
    } else {
        active_count(s.drop_last()) + if s.last().is_active {
            1nat
        } else {
            0nat
        }
    }
}

pub open spec fn ids_of(s: Seq<VirtualEnvironment>) -> Seq<Seq<char>> {
    s.map_values(|e: VirtualEnvironment| e.id@)
}

/// The environments other than the one with this id.
pub open spec fn without_id(s: Seq<VirtualEnvironment>, id: Seq<char>) -> Seq<VirtualEnvironment>
    decreases s.len(),
{
    if s.len() == 0 {
        s
    } else if s.last().id@ == id {
        without_id(s.drop_last(), id)
    } else {
        without_id(s.drop_last(), id).push(s.last())
    }
}

fn has_id(envs: &Vec<VirtualEnvironment>, id: &String) -> (r: bool)
    ensures
        r == ids_of(envs@).contains(id@),
{
    let mut i: usize = 0;
    while i < envs.len()
        invariant
            i <= envs.len(),
            forall|k: int| 0 <= k < i ==> envs@[k].id@ != id@,
        decreases envs.len() - i,
    {
        if string_eq(&envs[i].id, id) {
            assert(ids_of(envs@)[i as int] == id@);
            return true;
        }
        i = i + 1;
    }
    assert(!ids_of(envs@).contains(id@)) by {
        if ids_of(envs@).contains(id@) {
            let k = choose|k: int| 0 <= k < ids_of(envs@).len() && ids_of(envs@)[k] == id@;
            assert(envs@[k].id@ == id@);
        }
    }
    false
}

/// The total-sum of received and sent bytes over the networks.
pub open spec fn traffic(ns: Seq<NetworkInfo>) -> (int, int)
    decreases ns.len(),
{
    if ns.len() == 0 {
        (0, 0)
    } else {
        let t = traffic(ns.drop_last());
        (t.0 + ns.last().received, t.1 + ns.last().transmitted)
    }
}

proof fn lemma_active_count_le(s: Seq<VirtualEnvironment>)
    ensures
        active_count(s) <= s.len(),
    decreases s.len(),
{
    if s.len() > 0 {
        lemma_active_count_le(s.drop_last());
    }
}

proof fn lemma_traffic_grows(ns: Seq<NetworkInfo>)
    ensures
        traffic(ns).0 >= 0,
        traffic(ns).1 >= 0,
    decreases ns.len(),
{
    if ns.len() > 0 {
        lemma_traffic_grows(ns.drop_last());
    }
}

fn count_active(s: &Vec<VirtualEnvironment>) -> (r: usize)
    ensures
        r == active_count(s@),
{
    let mut n: usize = 0;
    let mut i: usize = 0;
    while i < s.len()
        invariant
            i <= s.len(),
            n == active_count(s@.take(i as int)),
            n <= i,
        decreases s.len() - i,
    {
        assert(s@.take(i + 1).drop_last() =~= s@.take(i as int));
        if s[i].is_active {
            n = n + 1;
        }
        i = i + 1;
    }
    assert(s@.take(s.len() as int) =~= s@);
    n
}

/// The notifications shown for less than five seconds at `now` (in
/// milliseconds), in order.
pub open spec fn live_toasts(s: Seq<Toast>, now: u64) -> Seq<Toast>
    decreases s.len(),
{
    if s.len() == 0 {
        s
    } else {
        let rest = live_toasts(s.drop_last(), now);
        if now - s.last().timestamp < 5000 {
            rest.push(s.last())
        } else {
            rest
        }
    }
}

proof fn lemma_live_toasts_len(s: Seq<Toast>, now: u64)
    ensures
        live_toasts(s, now).len() <= s.len(),
    decreases s.len(),
{
    if s.len() > 0 {
        lemma_live_toasts_len(s.drop_last(), now);
    }
}

impl ClientState {
    /// The caps hold and the environment counts match the list.
    pub open spec fn wf(&self) -> bool {
        &&& self.toasts@.len() <= TOAST_LIMIT
        &&& self.alerts@.len() <= ALERT_LIMIT
        &&& self.memory_history@.len() <= HISTORY_POINTS
        &&& self.network_rx_history@.len() <= HISTORY_POINTS
        &&& self.network_tx_history@.len() <= HISTORY_POINTS
        &&& self.env_total == self.environments@.len()
        &&& self.env_active == active_count(self.environments@)
    }

    pub fn new() -> (r: ClientState)
        ensures
            r.wf(),
            r.toasts@.len() == 0,
            r.alerts@.len() == 0,
            r.environments@.len() == 0,
            r.memory_history@.len() == 0,
            r.network_rx_history@.len() == 0,
            r.network_tx_history@.len() == 0,
            r.env_total == 0,
            r.env_active == 0,
            r.action == (DockerActionState { in_progress: false, last_action: None, last_ok: None, message: None }),
    {
        ClientState {
            action: DockerActionState { in_progress: false, last_action: None, last_ok: None, message: None },
            toasts: Vec::new(),
            alerts: Vec::new(),
            memory_history: Vec::new(),
            network_rx_history: Vec::new(),
            network_tx_history: Vec::new(),
            environments: Vec::new(),
            env_total: 0,
            env_active: 0,
        }
    }

    /// A Docker action was sent and awaits its result.
    pub fn begin_action(&mut self, action: String)
        ensures
            final(self).action == (DockerActionState { in_progress: true, last_action: Some(action), last_ok: None, message: old(self).action.message }),
            final(self).toasts == old(self).toasts,
            final(self).alerts == old(self).alerts,
            final(self).environments == old(self).environments,
            final(self).env_total == old(self).env_total,
            final(self).env_active == old(self).env_active,
            final(self).memory_history == old(self).memory_history,
            final(self).network_rx_history == old(self).network_rx_history,
            final(self).network_tx_history == old(self).network_tx_history,
    {
        self.action.in_progress = true;
        self.action.last_action = Some(action);
        self.action.last_ok = None;
    }

    /// A Docker action finished: it is recorded, and a notification with
    /// id and time `now_ms` is shown (the oldest of six dropped).
    pub fn on_docker_action(&mut self, action: String, ok: bool, message: Option<String>, now_ms: u64)
        requires
            old(self).wf(),
        ensures
            final(self).wf(),
            final(self).action.in_progress == false,
            final(self).action.last_action == Some(action),
            final(self).action.last_ok == Some(ok),
            final(self).action.message == message,
            final(self).toasts@.len() > 0,
            final(self).toasts@.last().message@ == toast_text(action@, ok, match message {
                Some(m) => Some(m@),
                None => None,
            }),
            final(self).toasts@.last().toast_type == (if ok {
                ToastType::Success
            } else {
                ToastType::Error
            }),
            final(self).toasts@.last().id == now_ms,
            final(self).toasts@.last().timestamp == now_ms,
            final(self).alerts == old(self).alerts,
            final(self).environments == old(self).environments,
    {
        proof {
            reveal_strlit("");
        }
        let text = if ok {
            concat3("", &action, " completed successfully")
        } else {
            match &message {
                Some(m) => m.clone(),
                None => concat3("", &action, " failed"),
            }
        };
        let toast = Toast {
            id: now_ms,
            message: text,
            toast_type: if ok {
                ToastType::Success
            } else {
                ToastType::Error
            },
            timestamp: now_ms,
        };
        self.action.in_progress = false;
        self.action.last_action = Some(action);
        self.action.last_ok = Some(ok);
        self.action.message = message;
        push_capped(&mut self.toasts, toast, TOAST_LIMIT);
    }

    /// A new alert; the oldest is dropped past fifty.
    pub fn on_alert(&mut self, alert: Alert)
        requires
            old(self).wf(),
        ensures
            final(self).wf(),
            final(self).alerts@ == capped(old(self).alerts@.push(alert), ALERT_LIMIT as nat),
            final(self).toasts == old(self).toasts,
            final(self).environments == old(self).environments,
    {
        push_capped(&mut self.alerts, alert, ALERT_LIMIT);
    }

    /// A resource snapshot: its memory use and the traffic summed over the
    /// networks join the history (each keeping the last sixty samples).
    /// The sums must fit in `u64`.
    pub fn on_snapshot(&mut self, memory_used: u64, networks: &Vec<NetworkInfo>)
        requires
            old(self).wf(),
            traffic(networks@).0 <= u64::MAX,
            traffic(networks@).1 <= u64::MAX,
        ensures
            final(self).wf(),
            final(self).memory_history@ == capped(old(self).memory_history@.push(memory_used), HISTORY_POINTS as nat),
            final(self).network_rx_history@ == capped(
                old(self).network_rx_history@.push(traffic(networks@).0 as u64),
                HISTORY_POINTS as nat,
            ),
            final(self).network_tx_history@ == capped(
                old(self).network_tx_history@.push(traffic(networks@).1 as u64),
                HISTORY_POINTS as nat,
            ),
            final(self).toasts == old(self).toasts,
            final(self).alerts == old(self).alerts,
            final(self).environments == old(self).environments,
    {
        let mut rx: u64 = 0;
        let mut tx: u64 = 0;
        let mut i: usize = 0;
        while i < networks.len()
            invariant
                i <= networks.len(),
                traffic(networks@).0 <= u64::MAX,
                traffic(networks@).1 <= u64::MAX,
                rx == traffic(networks@.take(i as int)).0,
                tx == traffic(networks@.take(i as int)).1,
            decreases networks.len() - i,
        {
            assert(networks@.take(i + 1).drop_last() =~= networks@.take(i as int));
            proof {
                lemma_traffic_prefix(networks@, i + 1);
            }
            rx = rx + networks[i].received;
            tx = tx + networks[i].transmitted;
            i = i + 1;
        }
        assert(networks@.take(networks.len() as int) =~= networks@);
        push_capped(&mut self.memory_history, memory_used, HISTORY_POINTS);
        push_capped(&mut self.network_rx_history, rx, HISTORY_POINTS);
        push_capped(&mut self.network_tx_history, tx, HISTORY_POINTS);
    }

    fn recount(&mut self)
        ensures
            final(self).env_total == old(self).environments@.len(),
            final(self).env_active == active_count(old(self).environments@),
            final(self).environments == old(self).environments,
            final(self).toasts == old(self).toasts,
            final(self).alerts == old(self).alerts,
            final(self).action == old(self).action,
            final(self).memory_history == old(self).memory_history,
            final(self).network_rx_history == old(self).network_rx_history,
            final(self).network_tx_history == old(self).network_tx_history,
    {
        self.env_total = self.environments.len();
        self.env_active = count_active(&self.environments);
    }

    /// The package count shown for an environment of a new list: a count of
    /// 0 is repaired to the number of listed packages when there are any.
    pub fn repaired_package_count(count: usize, environment: &VirtualEnvironment) -> (r: usize)
        ensures
            r == (if count == 0 && environment.packages@.len() > 0 {
                environment.packages@.len()
            } else {
                count as nat
            }),
    {
        if count == 0 && environment.packages.len() > 0 {
            environment.packages.len()
        } else {
            count
        }
    }

    /// Notifications disappear five seconds after they were shown; `now_ms`
    /// is the time in milliseconds, no earlier than any notification.
    pub fn expire_toasts(&mut self, now_ms: u64)
        requires
            old(self).wf(),
            forall|i: int| 0 <= i < old(self).toasts@.len() ==> #[trigger] old(self).toasts@[i].timestamp <= now_ms,
        ensures
            final(self).wf(),
            final(self).toasts@ == live_toasts(old(self).toasts@, now_ms),
            final(self).action == old(self).action,
            final(self).alerts == old(self).alerts,
            final(self).environments == old(self).environments,
            final(self).env_total == old(self).env_total,
            final(self).env_active == old(self).env_active,
            final(self).memory_history == old(self).memory_history,
            final(self).network_rx_history == old(self).network_rx_history,
            final(self).network_tx_history == old(self).network_tx_history,
    {
        let mut kept: Vec<Toast> = Vec::new();
        let mut rest: Vec<Toast> = Vec::new();
        std::mem::swap(&mut rest, &mut self.toasts);
        let ghost all = rest@;
        let n = rest.len();
        let mut i: usize = 0;
        while i < n
            invariant
                i <= n,
                n == all.len(),
                rest@.len() == n - i,
                forall|k: int| 0 <= k < rest@.len() ==> rest@[k] == all[i + k],
                forall|k: int| 0 <= k < all.len() ==> #[trigger] all[k].timestamp <= now_ms,
                kept@ == live_toasts(all.take(i as int), now_ms),
            decreases n - i,
        {
            let t = rest.remove(0);
            assert(t == all[i as int]);
            assert(all.take(i + 1).drop_last() =~= all.take(i as int));
            if now_ms - t.timestamp < 5000 {
                kept.push(t);
            }
            i = i + 1;
        }
        assert(all.take(n as int) =~= all);
        proof {
            lemma_live_toasts_len(all, now_ms);
        }
        self.toasts = kept;
    }

    /// The full list of environments.
    pub fn on_env_list(&mut self, environments: Vec<VirtualEnvironment>)
        requires
            old(self).wf(),
        ensures
            final(self).wf(),
            final(self).environments@ == environments@,
            final(self).toasts == old(self).toasts,
            final(self).alerts == old(self).alerts,
    {
        self.environments = environments;
        self.recount();
    }

    /// A new environment joins the list, unless one with its id is there.
    pub fn on_env_created(&mut self, environment: VirtualEnvironment)
        requires
            old(self).wf(),
        ensures
            final(self).wf(),
            ids_of(old(self).environments@).contains(environment.id@) ==> final(self).environments == old(self).environments,
            !ids_of(old(self).environments@).contains(environment.id@) ==> final(self).environments@ == old(self).environments@.push(environment),
            final(self).toasts == old(self).toasts,
            final(self).alerts == old(self).alerts,
    {
        if has_id(&self.environments, &environment.id) {
            return;
        }
        self.environments.push(environment);
        self.recount();
    }

    /// The environment with this id leaves the list.
    pub fn on_env_deleted(&mut self, id: &String)
        requires
            old(self).wf(),
        ensures
            final(self).wf(),
            final(self).environments@ == without_id(old(self).environments@, id@),
            final(self).toasts == old(self).toasts,
            final(self).alerts == old(self).alerts,
    {
        let mut src: Vec<VirtualEnvironment> = Vec::new();
        std::mem::swap(&mut src, &mut self.environments);
        let ghost s = src@;
        let ghost n: usize = src.len();
        let mut kept: Vec<VirtualEnvironment> = Vec::new();
        let mut i: usize = 0;
        assert(s.skip(0) =~= s);
        while src.len() > 0
            invariant
                i <= s.len(),
                s.len() == n,
                src@ == s.skip(i as int),
                kept@ == without_id(s.take(i as int), id@),
            decreases src.len(),
        {
            assert(s.take(i + 1).drop_last() =~= s.take(i as int));
            assert(i < s.len());
            let e = src.remove(0);
            assert(e == s[i as int]);
            if !string_eq(&e.id, id) {
                kept.push(e);
            }
            i = i + 1;
            assert(src@ =~= s.skip(i as int));
        }
        assert(s.take(s.len() as int) =~= s);
        self.environments = kept;
        self.recount();
    }
}

proof fn lemma_traffic_prefix(ns: Seq<NetworkInfo>, k: int)
    requires
        0 <= k <= ns.len(),
    ensures
        traffic(ns.take(k)).0 <= traffic(ns).0,
        traffic(ns.take(k)).1 <= traffic(ns).1,
    decreases ns.len() - k,
{
    if k < ns.len() {
        lemma_traffic_prefix(ns, k + 1);
        assert(ns.take(k + 1).drop_last() =~= ns.take(k));
    } else {
        assert(ns.take(k) =~= ns);
    }
}

/// Adding a created environment never gives two environments one id.
pub proof fn created_keeps_ids_unique(s: Seq<VirtualEnvironment>, e: VirtualEnvironment)
    requires
        crate::virtenv::ids_unique(s),
    ensures
        crate::virtenv::ids_unique(if ids_of(s).contains(e.id@) {
            s
        } else {
            s.push(e)
        }),
{
    if !ids_of(s).contains(e.id@) {
        let t = s.push(e);
        assert forall|i: int, j: int| 0 <= i < j < t.len() implies t[i].id@ != t[j].id@ by {
            if j == s.len() {
                if t[i].id@ == e.id@ {
                    assert(ids_of(s)[i] == e.id@);
                }
            }
        }
    }
}

/// After a deletion no environment with the deleted id is left, and every
/// other environment stays.
pub proof fn deleted_env_is_gone(s: Seq<VirtualEnvironment>, id: Seq<char>)
    ensures
        !ids_of(without_id(s, id)).contains(id),
        forall|k: int| 0 <= k < s.len() && s[k].id@ != id ==> without_id(s, id).contains(s[k]),
    decreases s.len(),
{
    if s.len() > 0 {
        deleted_env_is_gone(s.drop_last(), id);
        let r = without_id(s.drop_last(), id);
        if s.last().id@ != id {
            assert forall|k: int| 0 <= k < r.push(s.last()).len() implies ids_of(r.push(s.last()))[k] != id by {
                if k < r.len() {
                    assert(ids_of(r)[k] == ids_of(r.push(s.last()))[k]);
                }
            }
            assert forall|k: int| 0 <= k < s.len() && s[k].id@ != id implies r.push(s.last()).contains(s[k]) by {
                if k < s.len() - 1 {
                    assert(s.drop_last()[k] == s[k]);
                    let m = choose|m: int| 0 <= m < r.len() && r[m] == s[k];
                    assert(r.push(s.last())[m] == s[k]);
                } else {
                    assert(r.push(s.last())[r.len() as int] == s[k]);
                }
            }
        } else {
            assert forall|k: int| 0 <= k < s.len() && s[k].id@ != id implies r.contains(s[k]) by {
                assert(s.drop_last()[k] == s[k]);
            }
        }
    }
}

} // verus!
