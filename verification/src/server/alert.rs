//! The alerter: it takes the releases that the watcher found changed and
//! hands each of them to every enabled provider.

pub mod slack;
pub mod wechat;

use crate::db::{Release, ReleaseView};
use crate::server::limiter::Limiter;
use vstd::prelude::*;

verus! {

/// How many deliveries may be under way at a time.
pub const ALERT_PERMITS: usize = 4;

/// How many releases the queue between the watcher and the alerter holds.
pub const ALERT_QUEUE_CAPACITY: usize = 32;

/// Seconds after which a delivery is given up.
pub const DELIVERY_TIMEOUT_SECS: u64 = 5;

/// The text that `serde_json` writes for a JSON string with this content:
/// the content between double quotes, with the characters escaped that JSON
/// does not take as they are.
pub uninterp spec fn json_string(text: Seq<char>) -> Seq<char>;

/// Renders `text` as a JSON string.  The body hands a `serde_json::Value`
/// of the string kind to its `Display` impl, which writes the compact form;
/// that what it writes is a function of the text alone is what the contract
/// claims, and it gives that text a name.
#[verifier::external_body]
pub(crate) fn json_quote(text: &str) -> (quoted: String)
    ensures
        quoted@ == json_string(text@),
{
    serde_json::Value::String(text.to_owned()).to_string()
}

/// Mathematical value of a [`Config`].
pub struct ConfigView {
    pub slack: slack::AlertProviderView,
    pub wechat: wechat::AlertProviderView,
}

/// The alert providers, each with its webhook.
#[derive(Debug)]
pub struct Config {
    pub slack: slack::AlertProvider,
    pub wechat: wechat::AlertProvider,
}

impl View for Config {
    type V = ConfigView;

    open spec fn view(&self) -> ConfigView {
        ConfigView { slack: self.slack@, wechat: self.wechat@ }
    }
}

impl Clone for Config {
    fn clone(&self) -> (copy: Self)
        ensures
            copy == *self,
    {
        Config { slack: self.slack.clone(), wechat: self.wechat.clone() }
    }
}

impl Default for Config {
    /// No provider has an address: none is enabled.
    fn default() -> (config: Self)
        ensures
            config@.slack.webhook_url == Seq::<char>::empty(),
            config@.wechat.webhook_url == Seq::<char>::empty(),
    {
        Config { slack: slack::AlertProvider::default(), wechat: wechat::AlertProvider::default() }
    }
}

/// The providers there are.
#[derive(Clone, Copy, Debug, PartialEq, Eq, Structural)]
pub enum Provider {
    Slack,
    Wechat,
}

/// Mathematical value of a [`Delivery`].
pub struct DeliveryView {
    pub provider: Provider,
    pub repo: Seq<char>,
    pub webhook_url: Seq<char>,
    pub body: Seq<char>,
}

/// One unit of work of the alerter: a body to post to the webhook of one
/// provider, as JSON, giving up after [`DELIVERY_TIMEOUT_SECS`].
#[derive(Debug)]
pub struct Delivery {
    pub provider: Provider,
    /// The name of the repository the alert is about.
    pub repo: String,
    pub webhook_url: String,
    pub body: String,
}

impl View for Delivery {
    type V = DeliveryView;

    open spec fn view(&self) -> DeliveryView {
        DeliveryView {
            provider: self.provider,
            repo: self.repo@,
            webhook_url: self.webhook_url@,
            body: self.body@,
        }
    }
}

/// The values of a list of deliveries.
pub open spec fn delivery_views(list: Seq<Delivery>) -> Seq<DeliveryView> {
    Seq::new(list.len(), |i: int| list[i]@)
}

/// The deliveries that a release calls for: one for each enabled provider,
/// Slack before WeChat Work.
pub open spec fn planned(config: ConfigView, release: ReleaseView) -> Seq<DeliveryView> {
    let to_slack = if config.slack.webhook_url.len() > 0 {
        seq![
            DeliveryView {
                provider: Provider::Slack,
                repo: release.name,
                webhook_url: config.slack.webhook_url,
                body: slack::body(release),
            },
        ]
    } else {
        Seq::<DeliveryView>::empty()
    };
    let to_wechat = if config.wechat.webhook_url.len() > 0 {
        seq![
            DeliveryView {
                provider: Provider::Wechat,
                repo: release.name,
                webhook_url: config.wechat.webhook_url,
                body: wechat::body(release),
            },
        ]
    } else {
        Seq::<DeliveryView>::empty()
    };
    to_slack + to_wechat
}

impl Config {
    /// Plans the deliveries of a release: one for each enabled provider.
    pub fn deliveries(&self, release: &Release) -> (list: Vec<Delivery>)
        ensures
            delivery_views(list@) == planned(self@, release@),
    {
        let mut list: Vec<Delivery> = Vec::new();
        if self.slack.is_enabled() {
            list.push(
                Delivery {
                    provider: Provider::Slack,
                    repo: release.name.clone(),
                    webhook_url: self.slack.webhook_url.clone(),
                    body: slack::AlertProvider::build_http_body(release),
                },
            );
        }
        if self.wechat.is_enabled() {
            list.push(
                Delivery {
                    provider: Provider::Wechat,
                    repo: release.name.clone(),
                    webhook_url: self.wechat.webhook_url.clone(),
                    body: wechat::AlertProvider::build_http_body(release),
                },
            );
        }
        assert(delivery_views(list@) =~= planned(self@, release@));
        list
    }
}

/// Why a delivery failed.
#[derive(Clone, Copy, Debug, PartialEq, Eq, Structural)]
pub enum DeliveryError {
    /// No response came: the request timed out or the connection failed.
    Transport,
    /// The provider answered with a status outside the success class.
    Status(u16),
}

/// The verdict on a delivery: it succeeded where a response came whose
/// status is in the success class, 200 to 299.
pub open spec fn verdict(response: Option<u16>) -> Result<(), DeliveryError> {
    match response {
        None => Err(DeliveryError::Transport),
        Some(status) => if 200 <= status < 300 {
            Ok(())
        } else {
            Err(DeliveryError::Status(status))
        },
    }
}

/// Judges a delivery by the status of the response, or by there being none.
pub fn delivery_result(response: Option<u16>) -> (outcome: Result<(), DeliveryError>)
    ensures
        outcome == verdict(response),
{
    match response {
        None => Err(DeliveryError::Transport),
        Some(status) => {
            if 200 <= status && status < 300 {
                Ok(())
            } else {
                Err(DeliveryError::Status(status))
            }
        },
    }
}

/// Whether the alerter still takes releases from the queue.
#[derive(Clone, Copy, Debug, PartialEq, Eq, Structural)]
pub enum Intake {
    /// The queue is open and no termination signal was seen.
    Open,
    /// Every sender of the queue is gone: what was taken is still delivered.
    Drained,
    /// The termination signal was seen: no delivery is started any more.
    Halted,
}

/// Mathematical value of a [`Dispatcher`].
pub struct DispatcherView {
    pub config: ConfigView,
    /// The deliveries of the release last taken that have not started.
    pub backlog: Seq<DeliveryView>,
    /// The number of deliveries under way.
    pub in_flight: nat,
    /// The number of deliveries that may be under way at a time.
    pub permits: nat,
    pub intake: Intake,
}

/// What the alerter has to do next.
#[derive(Debug)]
pub enum DispatchStep {
    /// Start this delivery; it holds a permit until [`Dispatcher::on_delivered`]
    /// is told that it has ended.
    Start(Delivery),
    /// Wait until a delivery under way has ended, or the termination signal
    /// fires.
    AwaitDelivery,
    /// Wait for the next release from the queue, for the queue to close, for
    /// a delivery to end, or for the termination signal.
    Receive,
    /// Nothing is under way and nothing will come: return.
    Exit,
}

/// Mathematical value of a [`DispatchStep`].
pub enum DispatchStepView {
    Start(DeliveryView),
    AwaitDelivery,
    Receive,
    Exit,
}

impl View for DispatchStep {
    type V = DispatchStepView;

    open spec fn view(&self) -> DispatchStepView {
        match self {
            DispatchStep::Start(delivery) => DispatchStepView::Start(delivery@),
            DispatchStep::AwaitDelivery => DispatchStepView::AwaitDelivery,
            DispatchStep::Receive => DispatchStepView::Receive,
            DispatchStep::Exit => DispatchStepView::Exit,
        }
    }
}

/// The alerter before it has taken anything.
pub open spec fn initial_dispatcher(config: ConfigView, permits: nat) -> DispatcherView {
    DispatcherView { config, backlog: Seq::empty(), in_flight: 0, permits, intake: Intake::Open }
}

/// Whether the alerter takes a release now: the queue is open to it and the
/// deliveries of the release before have all started.
pub open spec fn takes(state: DispatcherView) -> bool {
    state.intake == Intake::Open && state.backlog.len() == 0
}

/// The alerter after it was handed a release.
pub open spec fn took(state: DispatcherView, release: ReleaseView) -> DispatcherView {
    if takes(state) {
        DispatcherView { backlog: planned(state.config, release), ..state }
    } else {
        state
    }
}

/// The alerter after the queue has closed.
pub open spec fn drained(state: DispatcherView) -> DispatcherView {
    if state.intake == Intake::Open {
        DispatcherView { intake: Intake::Drained, ..state }
    } else {
        state
    }
}

/// The alerter after the termination signal: what has not started is
/// dropped.
pub open spec fn halted(state: DispatcherView) -> DispatcherView {
    DispatcherView { intake: Intake::Halted, backlog: Seq::empty(), ..state }
}

/// The alerter after a delivery has ended.  How it ended plays no part.
pub open spec fn delivered(
    state: DispatcherView,
    outcome: Result<(), DeliveryError>,
) -> DispatcherView {
    DispatcherView { in_flight: if state.in_flight > 0 { (state.in_flight - 1) as nat } else { 0 }, ..state }
}

/// What the alerter does when nothing is left to start.
pub open spec fn wind_down(state: DispatcherView) -> DispatchStepView {
    if state.in_flight > 0 {
        DispatchStepView::AwaitDelivery
    } else {
        DispatchStepView::Exit
    }
}

/// The next step of the alerter, and its state once the step is handed out.
pub open spec fn next_step(state: DispatcherView) -> (DispatcherView, DispatchStepView) {
    if state.intake == Intake::Halted {
        (state, wind_down(state))
    } else if state.backlog.len() > 0 {
        if state.in_flight < state.permits {
            (
                DispatcherView {
                    backlog: state.backlog.drop_first(),
                    in_flight: state.in_flight + 1,
                    ..state
                },
                DispatchStepView::Start(state.backlog.first()),
            )
        } else {
            (state, DispatchStepView::AwaitDelivery)
        }
    } else if state.intake == Intake::Open {
        (state, DispatchStepView::Receive)
    } else {
        (state, wind_down(state))
    }
}

/// The alerter: what it has taken and not yet started, and how many
/// deliveries are under way.
#[derive(Debug)]
pub struct Dispatcher {
    config: Config,
    backlog: Vec<Delivery>,
    limiter: Limiter,
    intake: Intake,
}

impl View for Dispatcher {
    type V = DispatcherView;

    closed spec fn view(&self) -> DispatcherView {
        DispatcherView {
            config: self.config@,
            backlog: delivery_views(self.backlog@),
            in_flight: self.limiter.held(),
            permits: self.limiter.permits(),
            intake: self.intake,
        }
    }
}

impl Dispatcher {
    /// An alerter for these providers, with this many permits.
    pub fn new(config: Config, permits: usize) -> (dispatcher: Dispatcher)
        ensures
            dispatcher@ == initial_dispatcher(config@, permits as nat),
    {
        let dispatcher = Dispatcher {
            config,
            backlog: Vec::new(),
            limiter: Limiter::new(permits),
            intake: Intake::Open,
        };
        assert(delivery_views(dispatcher.backlog@) =~= Seq::<DeliveryView>::empty());
        dispatcher
    }

    /// Hands the alerter a release from the queue.  It plans one delivery
    /// for each enabled provider.  The answer is `false`, and nothing
    /// changes, where the alerter was not ready to take a release.
    pub fn on_release(&mut self, release: &Release) -> (taken: bool)
        ensures
            taken == takes(old(self)@),
            final(self)@ == took(old(self)@, release@),
    {
        match self.intake {
            Intake::Open => {
                if self.backlog.len() == 0 {
                    self.backlog = self.config.deliveries(release);
                    true
                } else {
                    false
                }
            },
            _ => false,
        }
    }

    /// Tells the alerter that every sender of the queue is gone.
    pub fn on_closed(&mut self)
        ensures
            final(self)@ == drained(old(self)@),
    {
        match self.intake {
            Intake::Open => {
                self.intake = Intake::Drained;
            },
            _ => {},
        }
    }

    /// Tells the alerter of the termination signal.
    pub fn on_shutdown(&mut self)
        ensures
            final(self)@ == halted(old(self)@),
    {
        self.intake = Intake::Halted;
        self.backlog.clear();
        assert(delivery_views(self.backlog@) =~= Seq::<DeliveryView>::empty());
    }

    /// Tells the alerter that a delivery has ended, and how.  Its permit is
    /// free again; a failed delivery is not tried again.
    pub fn on_delivered(&mut self, outcome: Result<(), DeliveryError>)
        ensures
            final(self)@ == delivered(old(self)@, outcome),
    {
        let _ = self.limiter.release();
    }

    /// Says what to do next.
    pub fn next(&mut self) -> (step: DispatchStep)
        ensures
            final(self)@ == next_step(old(self)@).0,
            step@ == next_step(old(self)@).1,
    {
        let in_flight = self.limiter.in_use();
        match self.intake {
            Intake::Halted => {
                if in_flight > 0 {
                    DispatchStep::AwaitDelivery
                } else {
                    DispatchStep::Exit
                }
            },
            _ => {
                if self.backlog.len() > 0 {
                    if self.limiter.try_acquire() {
                        let ghost before = self.backlog@;
                        let delivery = self.backlog.remove(0);
                        assert(delivery_views(self.backlog@) =~= delivery_views(
                            before,
                        ).drop_first());
                        DispatchStep::Start(delivery)
                    } else {
                        DispatchStep::AwaitDelivery
                    }
                } else {
                    match self.intake {
                        Intake::Open => DispatchStep::Receive,
                        _ => {
                            if in_flight > 0 {
                                DispatchStep::AwaitDelivery
                            } else {
                                DispatchStep::Exit
                            }
                        },
                    }
                }
            },
        }
    }
}

/// Independent delivery: how a delivery ends changes nothing for the
/// others.  The alerter is in the same state after a failure as after a
/// success, so what it starts next, for the same release and for those that
/// follow, is the same.
pub proof fn law_outcome_plays_no_part(
    state: DispatcherView,
    one: Result<(), DeliveryError>,
    other: Result<(), DeliveryError>,
)
    ensures
        delivered(state, one) == delivered(state, other),
        next_step(delivered(state, one)) == next_step(delivered(state, other)),
{
}

/// Independent delivery, for a release with both providers enabled: the
/// delivery to Slack is started first, and once it has ended, however it
/// ended, the delivery to WeChat Work is started, with the body and the
/// address that the release and the configuration give it.
pub proof fn law_second_provider_is_served(
    state: DispatcherView,
    release: ReleaseView,
    outcome: Result<(), DeliveryError>,
)
    requires
        takes(state),
        state.in_flight < state.permits,
        state.config.slack.webhook_url.len() > 0,
        state.config.wechat.webhook_url.len() > 0,
    ensures
        ({
            let (first, one) = next_step(took(state, release));
            let (second, two) = next_step(delivered(first, outcome));
            &&& one == DispatchStepView::Start(
                DeliveryView {
                    provider: Provider::Slack,
                    repo: release.name,
                    webhook_url: state.config.slack.webhook_url,
                    body: slack::body(release),
                },
            )
            &&& two == DispatchStepView::Start(
                DeliveryView {
                    provider: Provider::Wechat,
                    repo: release.name,
                    webhook_url: state.config.wechat.webhook_url,
                    body: wechat::body(release),
                },
            )
            &&& second.backlog.len() == 0
        }),
{
    let plan = planned(state.config, release);
    assert(plan.len() == 2);
    assert(plan.drop_first().len() == 1);
    assert(plan.drop_first().first() == plan[1]);
}

/// No more deliveries are under way than there are permits, and the step
/// that starts one is handed out only while a permit is free.
pub proof fn law_deliveries_are_bounded(state: DispatcherView)
    requires
        state.in_flight <= state.permits,
    ensures
        next_step(state).0.in_flight <= state.permits,
        next_step(state).1 is Start ==> state.in_flight < state.permits,
        next_step(state).1 is Start ==> next_step(state).0.in_flight == state.in_flight + 1,
{
}

/// After the termination signal no delivery is started: the alerter waits
/// for what is under way and then returns.
pub proof fn law_no_delivery_after_shutdown(state: DispatcherView)
    ensures
        !(next_step(halted(state)).1 is Start),
        !(next_step(halted(state)).1 is Receive),
        next_step(halted(state)).0 == halted(state),
        halted(state).in_flight == 0 ==> next_step(halted(state)).1 == DispatchStepView::Exit,
{
}

} // verus!
