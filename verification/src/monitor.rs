//! Watching a TARI.Miner process: its status, its health and when to give it up.
use crate::gpu::{GpuMinerAlgorithm, GpuMinerStatus, GpuMinerStatusView, GpuMinerType};
use crate::speed::{speed_at, TariMinerSpeedTracker};
use vstd::prelude::*;

verus! {

/// A miner that was unhealthy for more than this many seconds is given up for another one.
pub const FALLBACK_AFTER_SECS: u64 = 180;

/// Whether a process does what it is there for.
#[derive(Debug, Clone, Copy, PartialEq, Eq, Structural)]
pub enum HealthStatus {
    Healthy,
    Unhealthy,
}

/// What the watcher of an unhealthy process does next.
#[derive(Debug, Clone, Copy, PartialEq, Eq, Structural)]
pub enum HandleUnhealthyResult {
    Continue,
    Stop,
}

/// What to do about a miner that is unhealthy.
#[derive(Debug, Clone, Copy, PartialEq, Eq, Structural)]
pub enum UnhealthyAction {
    /// Keep watching it.
    KeepWatching,
    /// Try to fall back to another miner.
    FallBack,
}

/// Remembers whether the fallback to another miner has already happened.
/// We want to avoid triggering it multiple times per session.
#[derive(Debug, Clone, Copy)]
pub struct MinerFallback {
    was_triggered: bool,
}

impl View for MinerFallback {
    type V = bool;

    /// Whether the fallback has happened.
    closed spec fn view(&self) -> bool {
        self.was_triggered
    }
}

impl Default for MinerFallback {
    fn default() -> (fallback: Self)
        ensures
            !fallback@,
    {
        MinerFallback { was_triggered: false }
    }
}

/// What to do about a miner that is unhealthy for that long, given whether there was a fallback.
pub open spec fn unhealthy_action(was_triggered: bool, unhealthy_secs: u64) -> UnhealthyAction {
    if unhealthy_secs > FALLBACK_AFTER_SECS && !was_triggered {
        UnhealthyAction::FallBack
    } else {
        UnhealthyAction::KeepWatching
    }
}

/// Whether the fallback has happened once another one was tried.
pub open spec fn triggered_after(was_triggered: bool, succeeded: bool) -> bool {
    was_triggered || succeeded
}

/// Whether the fallback has happened once others were tried one after another.
pub open spec fn triggered_after_all(was_triggered: bool, outcomes: Seq<bool>) -> bool
    decreases outcomes.len(),
{
    if outcomes.len() == 0 {
        was_triggered
    } else {
        triggered_after(triggered_after_all(was_triggered, outcomes.drop_last()), outcomes.last())
    }
}

/// What a watcher does after a fallback was tried.
pub open spec fn result_of_fallback(succeeded: bool) -> HandleUnhealthyResult {
    if succeeded {
        HandleUnhealthyResult::Stop
    } else {
        HandleUnhealthyResult::Continue
    }
}

/// What a watcher of an unhealthy miner does: it stops exactly when the action was to fall back
/// and a fallback succeeded.
pub open spec fn unhealthy_result(
    action: UnhealthyAction,
    fallback_succeeded: Option<bool>,
) -> HandleUnhealthyResult {
    if action == UnhealthyAction::FallBack && fallback_succeeded == Some(true) {
        HandleUnhealthyResult::Stop
    } else {
        HandleUnhealthyResult::Continue
    }
}

impl MinerFallback {
    /// Answers for an unhealthy miner once the action was taken. The outcome is that of the
    /// fallback, where one was tried; it is recorded where the action was to fall back.
    pub fn conclude(
        &mut self,
        action: UnhealthyAction,
        fallback_succeeded: Option<bool>,
    ) -> (result: HandleUnhealthyResult)
        ensures
            result == unhealthy_result(action, fallback_succeeded),
            final(self)@ == triggered_after(
                old(self)@,
                action == UnhealthyAction::FallBack && fallback_succeeded == Some(true),
            ),
    {
        match action {
            UnhealthyAction::KeepWatching => HandleUnhealthyResult::Continue,
            UnhealthyAction::FallBack => match fallback_succeeded {
                Some(succeeded) => self.fallback_tried(succeeded),
                None => HandleUnhealthyResult::Continue,
            },
        }
    }

    /// Records how a fallback that was tried ended, and says whether the watcher goes on.
    pub fn fallback_tried(&mut self, succeeded: bool) -> (result: HandleUnhealthyResult)
        ensures
            final(self)@ == triggered_after(old(self)@, succeeded),
            result == result_of_fallback(succeeded),
    {
        if succeeded {
            self.was_triggered = true;
            HandleUnhealthyResult::Stop
        } else {
            HandleUnhealthyResult::Continue
        }
    }
}

/// Watches a TARI.Miner process through the speed that it reports.
#[derive(Debug)]
pub struct TariMinerGpuMinerStatusMonitor {
    pub speed_tracker: TariMinerSpeedTracker,
}

/// The status of a miner whose latest speed is that.
pub open spec fn status_for(speed: Option<Seq<char>>) -> GpuMinerStatusView {
    match speed {
        Some(hash_rate) => GpuMinerStatusView {
            is_mining: true,
            hash_rate,
            estimated_earnings: 0,
            algorithm: GpuMinerAlgorithm::C29,
        },
        None => GpuMinerStatus::idle(GpuMinerAlgorithm::C29),
    }
}

/// The health of a miner: it is healthy as long as it mines.
pub open spec fn health_for(is_mining: bool) -> HealthStatus {
    if is_mining {
        HealthStatus::Healthy
    } else {
        HealthStatus::Unhealthy
    }
}

impl TariMinerGpuMinerStatusMonitor {
    /// A monitor that has seen no report yet.
    pub fn new() -> (monitor: Self)
        ensures
            monitor.speed_tracker@ is None,
    {
        TariMinerGpuMinerStatusMonitor { speed_tracker: TariMinerSpeedTracker::default() }
    }

    /// What the miner is doing at a given time.
    pub fn status(&self, now: u128) -> (status: GpuMinerStatus)
        ensures
            status@ == status_for(speed_at(self.speed_tracker@, now)),
    {
        match self.speed_tracker.latest_speed(now) {
            Some(hash_rate) => GpuMinerStatus {
                is_mining: true,
                hash_rate,
                estimated_earnings: 0,
                algorithm: GpuMinerType::TariMiner.main_algorithm(),
            },
            None => GpuMinerStatus::default_with_algorithm(
                GpuMinerType::TariMiner.main_algorithm(),
            ),
        }
    }

    /// The status to send at a given time, with the health that it stands for.
    pub fn check_health(&self, now: u128) -> (check: (GpuMinerStatus, HealthStatus))
        ensures
            check.0@ == status_for(speed_at(self.speed_tracker@, now)),
            check.1 == health_for(speed_at(self.speed_tracker@, now) is Some),
    {
        let status = self.status(now);
        let health = if status.is_mining {
            HealthStatus::Healthy
        } else {
            HealthStatus::Unhealthy
        };
        (status, health)
    }

    /// Whether the manager has to mark its miner as healthy again: it mines, and the manager takes
    /// it for unhealthy.
    pub fn needs_healthy_mark(health: HealthStatus, is_current_miner_healthy: bool) -> (needed: bool)
        ensures
            needed == (health == HealthStatus::Healthy && !is_current_miner_healthy),
    {
        health == HealthStatus::Healthy && !is_current_miner_healthy
    }

    /// What to do about the miner once it is unhealthy for that long.
    pub fn handle_unhealthy(
        &self,
        fallback: &MinerFallback,
        secs_since_last_healthy_status: u64,
    ) -> (action: UnhealthyAction)
        ensures
            action == unhealthy_action(fallback@, secs_since_last_healthy_status),
    {
        if secs_since_last_healthy_status > FALLBACK_AFTER_SECS && !fallback.was_triggered {
            UnhealthyAction::FallBack
        } else {
            UnhealthyAction::KeepWatching
        }
    }
}

/// Whatever fallbacks are tried one after another, in any number: once one of them succeeded there
/// is no other one, however long a miner is unhealthy. While none did, a miner is handled as if
/// none had been tried.
pub proof fn law_fallback_happens_once(
    was_triggered: bool,
    outcomes: Seq<bool>,
    unhealthy_secs: u64,
)
    ensures
        triggered_after_all(was_triggered, outcomes) == (was_triggered || outcomes.contains(true)),
        outcomes.contains(true) ==> unhealthy_action(
            triggered_after_all(was_triggered, outcomes),
            unhealthy_secs,
        ) == UnhealthyAction::KeepWatching,
        !outcomes.contains(true) ==> unhealthy_action(
            triggered_after_all(was_triggered, outcomes),
            unhealthy_secs,
        ) == unhealthy_action(was_triggered, unhealthy_secs),
    decreases outcomes.len(),
{
    if outcomes.len() > 0 {
        let front = outcomes.drop_last();
        law_fallback_happens_once(was_triggered, front, unhealthy_secs);
        if front.contains(true) {
            let i = choose|i: int| 0 <= i < front.len() && front[i] == true;
            assert(outcomes[i] == true);
        }
        if outcomes.contains(true) && outcomes.last() != true {
            let i = choose|i: int| 0 <= i < outcomes.len() && outcomes[i] == true;
            assert(front[i] == true);
        }
    }
}

/// The watcher stops exactly when the miner was unhealthy for too long, no fallback had happened
/// yet, and the one that is tried now succeeds. Otherwise it goes on.
pub proof fn law_watching_stops_after_a_fallback(
    was_triggered: bool,
    unhealthy_secs: u64,
    fallback_succeeded: Option<bool>,
)
    ensures
        unhealthy_result(unhealthy_action(was_triggered, unhealthy_secs), fallback_succeeded)
            == HandleUnhealthyResult::Stop <==> unhealthy_secs > FALLBACK_AFTER_SECS
            && !was_triggered && fallback_succeeded == Some(true),
{
}

/// A miner is healthy exactly while it reports that it is mining.
pub proof fn law_healthy_means_mining(speed: Option<Seq<char>>)
    ensures
        health_for(speed is Some) == health_for(status_for(speed).is_mining),
        status_for(speed).is_mining <==> speed is Some,
{
}

} // verus!
