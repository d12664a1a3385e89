//! One user's tick as a state machine. The caller owns the ticker, the
//! radio and the network; it tells the agent what happened and the agent
//! tells it what to do next. Within a tick the steps come in a fixed
//! order, each at most once: rotate, broadcast, observe, change shard,
//! fetch, report.

use crate::clock::{TimeSpan, UnixTime};
use crate::keys::{spec_tcn, ReportAuthorizationKey, TemporaryContactNumber};
use crate::simulation::{fetch_due, Schedule};
use crate::user::{
    spec_broadcast, spec_change_shard, spec_fetch_plan, spec_hear, spec_planned, spec_rotate,
    spec_selected, FetchRequest, Observation, Received, Submission, User, UserModel,
};
use vstd::prelude::*;

verus! {

/// What the agent is waiting for.
#[derive(Debug, Clone, Copy, PartialEq, Eq, Structural)]
pub enum Phase {
    /// The next tick.
    Idle,
    /// Word that the contact number was sent.
    Sending,
    /// The next receive.
    Observing,
    /// Word that the new shard's channel is tuned in.
    Subscribing,
    /// Word that the fetches were made.
    Fetching,
    /// Word that the reports were submitted.
    Submitting,
    /// Nothing: the agent has failed.
    Stopped,
}

/// Why an agent stopped.
#[derive(Debug, Clone, Copy, PartialEq, Eq, Structural)]
pub enum Failure {
    /// The broadcast channel closed unexpectedly.
    ChannelClosed,
    /// The contact key cannot be ratcheted any further.
    RatchetExhausted,
    /// No report can be made with the schedule's keys per authorization key.
    CannotReport,
    /// The caller told of something the agent was not waiting for.
    OutOfTurn,
}

/// What the caller tells the agent.
#[derive(Debug, Clone, Copy)]
pub enum Event {
    /// The ticker fired.
    Tick {
        /// A freshly drawn authorization key, used if rotation is due.
        next_rak: ReportAuthorizationKey,
        /// The draw of the report probability, used if rotation is due.
        report_draw: bool,
        /// The draw of the shard change probability.
        change_draw: bool,
        /// The time by the system clock.
        now: UnixTime,
        /// The time gone by since the last fetch.
        since_last_fetch: TimeSpan,
    },
    /// The contact number was sent.
    Sent,
    /// A receive came back; `heard` is the draw of the contact probability.
    Received { received: Received, heard: bool },
    /// The channel of the new shard is tuned in.
    Subscribed,
    /// The fetches were made.
    Fetched,
    /// The reports were submitted.
    Submitted,
}

/// What the agent tells the caller to do.
#[derive(Debug)]
pub enum Action {
    /// Send this contact number on the current shard's channel.
    Send(TemporaryContactNumber),
    /// Receive once from the current shard's channel, without blocking.
    Receive,
    /// Tune in to the channel of this shard.
    Subscribe(u64),
    /// Make these fetches and match every batch that comes back.
    Fetch(Vec<FetchRequest>),
    /// Make these submissions.
    Submit(Vec<Submission>),
    /// Wait for the next tick.
    Wait,
    /// Give up.
    Stop(Failure),
}

/// Mathematical model of an agent.
pub struct AgentModel {
    pub user: UserModel,
    pub schedule: Schedule,
    pub num_shards: u64,
    pub server_batch_interval: u64,
    pub phase: Phase,
    /// Whether this tick ends with a report.
    pub report: bool,
    /// Whether this tick changes the shard.
    pub change: bool,
    /// Whether this tick fetches.
    pub fetch: bool,
    /// The time of this tick, in nanoseconds since the epoch.
    pub now: nat,
}

/// What an agent goes by: the schedule of the run, the number of shards,
/// which is not zero, and the server's batch interval in seconds, which is
/// not zero either.
#[derive(Debug, Clone, Copy)]
pub struct Settings {
    schedule: Schedule,
    num_shards: u64,
    server_batch_interval: u64,
}

/// A user driven through its ticks.
pub struct Agent {
    user: User,
    settings: Settings,
    phase: Phase,
    report: bool,
    change: bool,
    fetch: bool,
    now: UnixTime,
}

impl View for Agent {
    type V = AgentModel;

    closed spec fn view(&self) -> AgentModel {
        AgentModel {
            user: self.user@,
            schedule: self.settings.schedule,
            num_shards: self.settings.num_shards,
            server_batch_interval: self.settings.server_batch_interval,
            phase: self.phase,
            report: self.report,
            change: self.change,
            fetch: self.fetch,
            now: self.now@,
        }
    }
}

/// The last step of a tick: the report, if one is due. A report needs at
/// least one key per authorization key.
pub open spec fn spec_report_step(a: AgentModel, post: AgentModel, action: Action) -> bool {
    if !a.report {
        post == (AgentModel { phase: Phase::Idle, ..a }) && action is Wait
    } else if a.schedule.tcks_per_rak >= 1 {
        &&& post == (AgentModel { phase: Phase::Submitting, ..a })
        &&& action matches Action::Submit(plan)
        &&& spec_planned(
            spec_selected(a.user.raks, a.schedule.raks_to_report as nat),
            a.schedule.tcks_per_rak,
            plan@,
        )
    } else {
        post == (AgentModel { phase: Phase::Stopped, ..a }) && action == Action::Stop(
            Failure::CannotReport,
        )
    }
}

/// The step before: the fetch, if one is due; else on to the report.
pub open spec fn spec_fetch_step(a: AgentModel, post: AgentModel, action: Action) -> bool {
    if a.fetch {
        &&& post == (AgentModel { phase: Phase::Fetching, ..a })
        &&& action matches Action::Fetch(plan)
        &&& plan@ == spec_fetch_plan(a.user.shard_hist, a.now, a.server_batch_interval)
    } else {
        spec_report_step(a, post, action)
    }
}

/// The step before that: the shard change, if one was drawn, to one of
/// the shards there are; else on to the fetch.
pub open spec fn spec_change_step(a: AgentModel, post: AgentModel, action: Action) -> bool {
    if a.change {
        &&& action matches Action::Subscribe(shard)
        &&& shard < a.num_shards
        &&& post == (AgentModel {
            phase: Phase::Subscribing,
            user: spec_change_shard(a.user, shard),
            ..a
        })
    } else {
        spec_fetch_step(a, post, action)
    }
}

/// The beginning of a tick: rotation if due, with the report draw deciding
/// whether to report, then the broadcast.
pub open spec fn spec_tick(
    a: AgentModel,
    next_rak: ReportAuthorizationKey,
    report_draw: bool,
    change_draw: bool,
    now: UnixTime,
    since_last_fetch: TimeSpan,
    post: AgentModel,
    action: Action,
) -> bool {
    let due = a.user.tck.index > a.schedule.tcks_per_rak;
    let user = if due {
        spec_rotate(a.user, next_rak@)
    } else {
        a.user
    };
    let begun = AgentModel {
        user,
        report: due && report_draw,
        change: change_draw,
        fetch: since_last_fetch@ > a.server_batch_interval * 1_000_000_000,
        now: now@,
        ..a
    };
    if user.tck.index < u16::MAX {
        &&& action matches Action::Send(tcn)
        &&& tcn@ == spec_tcn(user.tck)
        &&& post == (AgentModel { phase: Phase::Sending, user: spec_broadcast(user), ..begun })
    } else {
        post == (AgentModel { phase: Phase::Stopped, ..begun }) && action == Action::Stop(
            Failure::RatchetExhausted,
        )
    }
}

/// What one receive leads to.
pub open spec fn spec_received(
    a: AgentModel,
    received: Received,
    heard: bool,
    post: AgentModel,
    action: Action,
) -> bool {
    match received {
        Received::Number(tcn) => action is Receive && post == (AgentModel {
            user: if heard {
                spec_hear(a.user, tcn@)
            } else {
                a.user
            },
            ..a
        }),
        Received::Lagged(_) => action is Receive && post == a,
        Received::Closed => post == (AgentModel { phase: Phase::Stopped, ..a }) && action
            == Action::Stop(Failure::ChannelClosed),
        Received::Empty => spec_change_step(a, post, action),
    }
}

/// Whether `action` and `post` are what the agent may answer `event` with
/// in the state `pre`. What comes out of turn stops nothing and changes
/// nothing; it is answered with `Stop(OutOfTurn)`.
pub open spec fn spec_advance(pre: AgentModel, event: Event, post: AgentModel, action: Action) -> bool {
    match (pre.phase, event) {
        (Phase::Idle, Event::Tick { next_rak, report_draw, change_draw, now, since_last_fetch }) => spec_tick(
            pre,
            next_rak,
            report_draw,
            change_draw,
            now,
            since_last_fetch,
            post,
            action,
        ),
        (Phase::Sending, Event::Sent) => post == (AgentModel { phase: Phase::Observing, ..pre })
            && action is Receive,
        (Phase::Observing, Event::Received { received, heard }) => spec_received(
            pre,
            received,
            heard,
            post,
            action,
        ),
        (Phase::Subscribing, Event::Subscribed) => spec_fetch_step(pre, post, action),
        (Phase::Fetching, Event::Fetched) => spec_report_step(pre, post, action),
        (Phase::Submitting, Event::Submitted) => post == (AgentModel { phase: Phase::Idle, ..pre })
            && action is Wait,
        _ => post == pre && action == Action::Stop(Failure::OutOfTurn),
    }
}

impl Settings {
    #[verifier::type_invariant]
    spec fn well_formed(self) -> bool {
        self.num_shards > 0 && self.server_batch_interval > 0
    }

    /// The schedule of the run.
    pub closed spec fn spec_schedule(&self) -> Schedule {
        self.schedule
    }

    /// The number of shards.
    pub closed spec fn spec_num_shards(&self) -> u64 {
        self.num_shards
    }

    /// The server's batch interval, in seconds.
    pub closed spec fn spec_server_batch_interval(&self) -> u64 {
        self.server_batch_interval
    }

    /// Settings with `num_shards` shards and a batch interval of
    /// `server_batch_interval` seconds. There are none without a shard to
    /// be in or with a batch interval of zero.
    pub fn new(schedule: Schedule, num_shards: u64, server_batch_interval: u64) -> (settings:
        Option<Settings>)
        ensures
            settings is Some <==> num_shards > 0 && server_batch_interval > 0,
            settings is Some ==> settings->0.spec_schedule() == schedule
                && settings->0.spec_num_shards() == num_shards
                && settings->0.spec_server_batch_interval() == server_batch_interval,
    {
        if num_shards == 0 || server_batch_interval == 0 {
            None
        } else {
            Some(Settings { schedule, num_shards, server_batch_interval })
        }
    }

    /// The schedule of the run.
    pub fn schedule(&self) -> (schedule: Schedule)
        ensures
            schedule == self.spec_schedule(),
    {
        self.schedule
    }

    /// The number of shards, which is not zero.
    pub fn num_shards(&self) -> (num_shards: u64)
        ensures
            num_shards == self.spec_num_shards(),
            num_shards > 0,
    {
        proof {
            use_type_invariant(self);
        }
        self.num_shards
    }

    /// The server's batch interval in seconds, which is not zero.
    pub fn server_batch_interval(&self) -> (interval: u64)
        ensures
            interval == self.spec_server_batch_interval(),
            interval > 0,
    {
        proof {
            use_type_invariant(self);
        }
        self.server_batch_interval
    }
}

impl Agent {
    /// An agent for `user`, idle.
    pub fn new(user: User, settings: Settings) -> (agent: Agent)
        ensures
            agent@.user == user@,
            agent@.schedule == settings.spec_schedule(),
            agent@.num_shards == settings.spec_num_shards(),
            agent@.server_batch_interval == settings.spec_server_batch_interval(),
            agent@.phase == Phase::Idle,
    {
        Agent {
            user,
            settings,
            phase: Phase::Idle,
            report: false,
            change: false,
            fetch: false,
            now: UnixTime::from_secs(0),
        }
    }

    /// The user this agent drives.
    pub fn user(&self) -> (user: &User)
        ensures
            user@ == self@.user,
    {
        &self.user
    }

    /// What the agent is waiting for.
    pub fn phase(&self) -> (phase: Phase)
        ensures
            phase == self@.phase,
    {
        self.phase
    }

    fn report_step(&mut self) -> (action: Action)
        ensures
            spec_report_step(old(self)@, final(self)@, action),
    {
        if !self.report {
            self.phase = Phase::Idle;
            Action::Wait
        } else {
            match self.user.plan_reports(
                self.settings.schedule().raks_to_report,
                self.settings.schedule().tcks_per_rak,
            ) {
                Ok(plan) => {
                    self.phase = Phase::Submitting;
                    Action::Submit(plan)
                },
                Err(_) => {
                    self.phase = Phase::Stopped;
                    Action::Stop(Failure::CannotReport)
                },
            }
        }
    }

    fn fetch_step(&mut self) -> (action: Action)
        ensures
            spec_fetch_step(old(self)@, final(self)@, action),
    {
        if self.fetch {
            self.phase = Phase::Fetching;
            Action::Fetch(self.user.fetch_plan(self.now, self.settings.server_batch_interval()))
        } else {
            self.report_step()
        }
    }

    fn change_step(&mut self) -> (action: Action)
        ensures
            spec_change_step(old(self)@, final(self)@, action),
    {
        match self.user.change_shard(self.settings.num_shards(), self.change) {
            Some(shard) => {
                self.phase = Phase::Subscribing;
                Action::Subscribe(shard)
            },
            None => self.fetch_step(),
        }
    }

    /// Takes in what happened and says what to do next.
    pub fn advance(&mut self, event: Event) -> (action: Action)
        ensures
            spec_advance(old(self)@, event, final(self)@, action),
    {
        match (self.phase, event) {
            (
                Phase::Idle,
                Event::Tick { next_rak, report_draw, change_draw, now, since_last_fetch },
            ) => {
                self.report = self.user.begin_tick(
                    self.settings.schedule().tcks_per_rak,
                    next_rak,
                    report_draw,
                );
                self.change = change_draw;
                self.fetch = fetch_due(&since_last_fetch, self.settings.server_batch_interval());
                self.now = now;
                match self.user.broadcast() {
                    Some(tcn) => {
                        self.phase = Phase::Sending;
                        Action::Send(tcn)
                    },
                    None => {
                        self.phase = Phase::Stopped;
                        Action::Stop(Failure::RatchetExhausted)
                    },
                }
            },
            (Phase::Sending, Event::Sent) => {
                self.phase = Phase::Observing;
                Action::Receive
            },
            (Phase::Observing, Event::Received { received, heard }) => {
                match self.user.observe(received, heard) {
                    Observation::Continue => Action::Receive,
                    Observation::Failed => {
                        self.phase = Phase::Stopped;
                        Action::Stop(Failure::ChannelClosed)
                    },
                    Observation::Finished => self.change_step(),
                }
            },
            (Phase::Subscribing, Event::Subscribed) => self.fetch_step(),
            (Phase::Fetching, Event::Fetched) => self.report_step(),
            (Phase::Submitting, Event::Submitted) => {
                self.phase = Phase::Idle;
                Action::Wait
            },
            _ => Action::Stop(Failure::OutOfTurn),
        }
    }
}

/// A schedule that rotates in time keeps the ratchet going. If there is
/// at least one key per authorization key, there are fewer of them than
/// the ratchet has indices, and the contact key has run at most one past them, a tick never ends in
/// `RatchetExhausted`, and leaves the contact key within the same bound.
pub proof fn law_rotation_keeps_the_ratchet_going(
    a: AgentModel,
    next_rak: ReportAuthorizationKey,
    report_draw: bool,
    change_draw: bool,
    now: UnixTime,
    since_last_fetch: TimeSpan,
    post: AgentModel,
    action: Action,
)
    requires
        1 <= a.schedule.tcks_per_rak < u16::MAX,
        1 <= a.user.tck.index <= a.schedule.tcks_per_rak + 1,
        spec_tick(a, next_rak, report_draw, change_draw, now, since_last_fetch, post, action),
    ensures
        action is Send,
        post.phase == Phase::Sending,
        1 <= post.user.tck.index <= post.schedule.tcks_per_rak + 1,
{
    crate::keys::lemma_key_at(next_rak@, 1);
}

} // verus!
