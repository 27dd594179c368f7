//! Dispatch of task snapshots to registered webhooks. The transport
//! itself lives outside the library; what is here is the capability
//! the handler consumes and the delivery plan computed from the
//! registered configs.

use vstd::prelude::*;
use crate::core_types::{Task, clone_opt_string};
use crate::errors::A2AError;
use crate::models::PushNotificationConfig;
use crate::views::PushConfigView;

verus! {

/// The sender capability: best-effort delivery of one task snapshot
/// to every webhook registered for it. Individual delivery failures
/// are swallowed by design, so nothing is promised of the outcome.
pub trait PushNotificationSender: Sized {
    fn send_notification(&mut self, task: &Task) -> Result<(), A2AError>;
}

/// One delivery: where to post, and the token for the notification
/// header if one was registered.
pub struct TargetView {
    pub url: Seq<char>,
    pub token: Option<Seq<char>>,
}

pub struct NotificationTarget {
    pub url: String,
    pub token: Option<String>,
}

impl View for NotificationTarget {
    type V = TargetView;

    open spec fn view(&self) -> TargetView {
        TargetView { url: self.url@, token: self.token.deep_view() }
    }
}

impl DeepView for NotificationTarget {
    type V = TargetView;

    open spec fn deep_view(&self) -> TargetView {
        self.view()
    }
}

/// Each registered config yields exactly one delivery, in order.
pub open spec fn targets_of(s: Seq<PushConfigView>) -> Seq<TargetView> {
    s.map_values(|c: PushConfigView| TargetView { url: c.url, token: c.token })
}

/// The delivery plan for one task's registered configs.
#[verifier::loop_isolation(false)]
pub fn notification_targets(configs: &Vec<PushNotificationConfig>) -> (r: Vec<NotificationTarget>)
    ensures
        r.deep_view() == targets_of(configs.deep_view()),
{
    let ghost s = configs.deep_view();
    let ghost f = |c: PushConfigView| TargetView { url: c.url, token: c.token };
    let mut out: Vec<NotificationTarget> = Vec::new();
    let mut i: usize = 0;
    while i < configs.len()
        invariant
            i <= configs.len(),
            out.deep_view() =~= s.take(i as int).map_values(f),
        decreases configs.len() - i,
    {
        out.push(NotificationTarget {
            url: configs[i].url.clone(),
            token: clone_opt_string(&configs[i].token),
        });
        proof {
            assert(s.take(i as int + 1).map_values(f) =~= s.take(i as int).map_values(f).push(
                f(s[i as int]),
            ));
            assert(out.deep_view() =~= s.take(i as int + 1).map_values(f));
        }
        i += 1;
    }
    proof {
        assert(s.take(s.len() as int) =~= s);
        assert(out.deep_view() =~= targets_of(s));
    }
    out
}

/// Delivered means a 2xx response.
pub fn is_success_status(code: u16) -> (r: bool)
    ensures
        r == (200 <= code < 300),
{
    200 <= code && code < 300
}

/// Whether any dispatch of a fan-out failed; the aggregate result is
/// success either way, this only drives the warning.
#[verifier::loop_isolation(false)]
pub fn any_failed(results: &Vec<bool>) -> (r: bool)
    ensures
        r == (exists|i: int| 0 <= i < results@.len() && !results@[i]),
{
    let mut i: usize = 0;
    while i < results.len()
        invariant
            i <= results.len(),
            forall|j: int| 0 <= j < i ==> results@[j],
        decreases results.len() - i,
    {
        if !results[i] {
            return true;
        }
        i += 1;
    }
    false
}

} // verus!
