//! The check-and-notify protocol of one run, as a state machine: the caller
//! performs each action and hands back what came of it.

use vstd::prelude::*;
use crate::config::{Config, SmtpConfig, configured, opt_view, previous_address};
use crate::notifier::{NotificationEvent, subject_text, body_text};

verus! {

/// Why a run ended without doing its work.
#[derive(PartialEq, Eq, Structural, Clone, Copy, Debug)]
pub enum RunError {
    /// No configuration could be read, nor a template written in its place.
    ConfigMissing,
    /// The login or the password is empty (also right after a template was written).
    ConfigIncomplete,
    /// No candidate endpoint yielded a local IPv6 address.
    AddressUndetectable,
    /// The notification could not be built or delivered; nothing was stored.
    DeliveryFailed,
    /// The notification went out but the new address could not be stored.
    PersistenceFailed,
}


/// How a run that did its work ended.
#[derive(PartialEq, Eq, Structural, Clone, Copy, Debug)]
pub enum Outcome {
    /// The address is the one last reported: nothing was sent or stored.
    Unchanged,
    /// The operator was notified and the new address stored.
    Notified,
}

/// What came of the last action.
pub enum Event {
    /// There is no configuration file.
    ConfigAbsent,
    /// The template was (`true`) or could not be (`false`) written.
    TemplateWritten(bool),
    /// The configuration file exists but could not be read as a configuration.
    ConfigUnreadable,
    ConfigLoaded(Config),
    /// The probe's result: the host's global IPv6 address, if any.
    AddressProbed(Option<String>),
    /// The notification was (`true`) or was not (`false`) delivered.
    Delivered(bool),
    /// The configuration was (`true`) or was not (`false`) stored.
    Persisted(bool),
}

/// What the caller does next.
pub enum Action {
    LoadConfig,
    WriteTemplate,
    Probe,
    /// Deliver the notification through this relay.
    Send(SmtpConfig, NotificationEvent),
    /// Store this configuration, replacing the whole record.
    Save(Config),
    /// The run is over.
    Finish(Result<Outcome, RunError>),
}

/// Where a run stands.
pub enum Stage {
    Loading,
    CreatingTemplate,
    Probing(Config),
    Sending(Config, String),
    Saving,
    Done,
}

/// The event the stage waits for.
pub open spec fn accepts(stage: Stage, event: Event) -> bool {
    match stage {
        Stage::Loading => event is ConfigAbsent || event is ConfigUnreadable || event is ConfigLoaded,
        Stage::CreatingTemplate => event is TemplateWritten,
        Stage::Probing(_) => event is AddressProbed,
        Stage::Sending(_, _) => event is Delivered,
        Stage::Saving => event is Persisted,
        Stage::Done => false,
    }
}

/// The notification for a change of `c`'s last address to `current`.
pub open spec fn is_notice_for(n: NotificationEvent, c: Config, current: Seq<char>) -> bool {
    &&& opt_view(n.previous) == previous_address(c)
    &&& n.current@ == current
    &&& n.subject@ == subject_text()
    &&& n.body@ == body_text(previous_address(c), current)
}

/// One step of the protocol: load, check the credentials, probe, compare with
/// the last address, and only on a change notify, then store the new address
/// once delivery succeeded.
pub open spec fn transition(stage: Stage, event: Event, next: Stage, action: Action) -> bool {
    match stage {
        Stage::Loading => match event {
            Event::ConfigAbsent => next is CreatingTemplate && action is WriteTemplate,
            Event::ConfigUnreadable => next is Done && action == Action::Finish(
                Err(RunError::ConfigMissing),
            ),
            Event::ConfigLoaded(c) => if configured(c) {
                next == Stage::Probing(c) && action is Probe
            } else {
                next is Done && action == Action::Finish(Err(RunError::ConfigIncomplete))
            },
            _ => false,
        },
        Stage::CreatingTemplate => match event {
            Event::TemplateWritten(w) => next is Done && action == Action::Finish(
                Err(if w {
                    RunError::ConfigIncomplete
                } else {
                    RunError::ConfigMissing
                }),
            ),
            _ => false,
        },
        Stage::Probing(c) => match event {
            Event::AddressProbed(None) => next is Done && action == Action::Finish(
                Err(RunError::AddressUndetectable),
            ),
            Event::AddressProbed(Some(a)) => if previous_address(c) == Some(a@) {
                next is Done && action == Action::Finish(Ok(Outcome::Unchanged))
            } else {
                &&& next == Stage::Sending(c, a)
                &&& action is Send
                &&& action->Send_0 == c.smtp
                &&& is_notice_for(action->Send_1, c, a@)
            },
            _ => false,
        },
        Stage::Sending(c, a) => match event {
            Event::Delivered(true) => next is Saving && action == Action::Save(
                Config { smtp: c.smtp, ipv6: Some(a) },
            ),
            Event::Delivered(false) => next is Done && action == Action::Finish(
                Err(RunError::DeliveryFailed),
            ),
            _ => false,
        },
        Stage::Saving => match event {
            Event::Persisted(ok) => next is Done && action == Action::Finish(
                if ok {
                    Ok(Outcome::Notified)
                } else {
                    Err(RunError::PersistenceFailed)
                },
            ),
            _ => false,
        },
        Stage::Done => false,
    }
}

/// The start of a run: load the configuration.
pub fn begin() -> (r: (Stage, Action))
    ensures
        r.0 is Loading,
        r.1 is LoadConfig,
{
    (Stage::Loading, Action::LoadConfig)
}

/// Whether `stage` waits for `event`.
pub fn accepts_event(stage: &Stage, event: &Event) -> (r: bool)
    ensures
        r == accepts(*stage, *event),
{
    match stage {
        Stage::Loading => match event {
            Event::ConfigAbsent | Event::ConfigUnreadable | Event::ConfigLoaded(_) => true,
            _ => false,
        },
        Stage::CreatingTemplate => match event {
            Event::TemplateWritten(_) => true,
            _ => false,
        },
        Stage::Probing(_) => match event {
            Event::AddressProbed(_) => true,
            _ => false,
        },
        Stage::Sending(_, _) => match event {
            Event::Delivered(_) => true,
            _ => false,
        },
        Stage::Saving => match event {
            Event::Persisted(_) => true,
            _ => false,
        },
        Stage::Done => false,
    }
}

/// Advances the run by one event, giving the next stage and the action to perform.
pub fn step(stage: Stage, event: Event) -> (r: (Stage, Action))
    requires
        accepts(stage, event),
    ensures
        transition(stage, event, r.0, r.1),
{
    match stage {
        Stage::Loading => match event {
            Event::ConfigAbsent => (Stage::CreatingTemplate, Action::WriteTemplate),
            Event::ConfigLoaded(c) => if c.is_configured() {
                (Stage::Probing(c), Action::Probe)
            } else {
                (Stage::Done, Action::Finish(Err(RunError::ConfigIncomplete)))
            },
            _ => (Stage::Done, Action::Finish(Err(RunError::ConfigMissing))),
        },
        Stage::CreatingTemplate => match event {
            Event::TemplateWritten(true) => (
                Stage::Done,
                Action::Finish(Err(RunError::ConfigIncomplete)),
            ),
            _ => (Stage::Done, Action::Finish(Err(RunError::ConfigMissing))),
        },
        Stage::Probing(c) => match event {
            Event::AddressProbed(Some(a)) => {
                let last = c.last_observed();
                let same = match &last {
                    Some(l) => *l == a,
                    None => false,
                };
                if same {
                    (Stage::Done, Action::Finish(Ok(Outcome::Unchanged)))
                } else {
                    let notice = NotificationEvent::new(last, a.clone());
                    let relay = c.smtp.duplicate();
                    (Stage::Sending(c, a), Action::Send(relay, notice))
                }
            },
            _ => (Stage::Done, Action::Finish(Err(RunError::AddressUndetectable))),
        },
        Stage::Sending(c, a) => match event {
            Event::Delivered(true) => (Stage::Saving, Action::Save(c.with_observed(a))),
            _ => (Stage::Done, Action::Finish(Err(RunError::DeliveryFailed))),
        },
        Stage::Saving => match event {
            Event::Persisted(true) => (Stage::Done, Action::Finish(Ok(Outcome::Notified))),
            _ => (Stage::Done, Action::Finish(Err(RunError::PersistenceFailed))),
        },
        // `accepts` rules this arm out.
        Stage::Done => (Stage::Done, Action::Finish(Err(RunError::ConfigMissing))),
    }
}

/// Two runs in a row that see the same address notify at most once: the first
/// either finds it unchanged or, once the notice is delivered and the
/// configuration it saves is loaded again, the second run finds it unchanged.
pub proof fn lemma_repeat_run_is_unchanged(
    c: Config,
    a: String,
    s1: Stage,
    act1: Action,
    s2: Stage,
    act2: Action,
    s3: Stage,
    act3: Action,
    s4: Stage,
    act4: Action,
)
    requires
        configured(c),
        a@.len() > 0,
        transition(Stage::Probing(c), Event::AddressProbed(Some(a)), s1, act1),
        act1 is Send ==> transition(s1, Event::Delivered(true), s2, act2),
        act1 is Send ==> transition(Stage::Loading, Event::ConfigLoaded(act2->Save_0), s3, act3),
        act1 is Send ==> transition(s3, Event::AddressProbed(Some(a)), s4, act4),
    ensures
        act1 is Send || act1 == Action::Finish(Ok(Outcome::Unchanged)),
        act1 is Send ==> act2 is Save && act3 is Probe && act4 == Action::Finish(Ok(Outcome::Unchanged)),
{
    if act1 is Send {
        let c2 = act2->Save_0;
        assert(c2.smtp == c.smtp);
        assert(configured(c2));
        assert(previous_address(c2) == Some(a@));
    }
}

/// When delivery fails the run ends at once with that error, before any
/// configuration is stored.
pub proof fn lemma_failed_delivery_stores_nothing(c: Config, a: String, next: Stage, action: Action)
    requires
        transition(Stage::Sending(c, a), Event::Delivered(false), next, action),
    ensures
        action == Action::Finish(Err(RunError::DeliveryFailed)),
        next is Done,
        forall|e: Event| !accepts(next, e),
{
}

/// The configuration is stored only in reply to a delivered notification,
/// and what is stored is the loaded configuration with the new address.
pub proof fn lemma_save_only_after_delivery(stage: Stage, event: Event, next: Stage, action: Action)
    requires
        transition(stage, event, next, action),
        action is Save,
    ensures
        stage is Sending,
        event == Event::Delivered(true),
        action->Save_0 == (Config { smtp: stage->Sending_0.smtp, ipv6: Some(stage->Sending_1) }),
{
}

/// With no address on record, whatever address is detected is reported as
/// a change, naming no previous address.
pub proof fn lemma_first_observation_notifies(c: Config, a: String, next: Stage, action: Action)
    requires
        previous_address(c) is None,
        transition(Stage::Probing(c), Event::AddressProbed(Some(a)), next, action),
    ensures
        action is Send,
        action->Send_1.previous is None,
        action->Send_1.body@ == body_text(None, a@),
        next == Stage::Sending(c, a),
{
}

} // verus!
