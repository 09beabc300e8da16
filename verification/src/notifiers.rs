//! Which notifiers to construct from the settings.
use vstd::prelude::*;
use crate::settings::Settings;

verus! {

/// The notification backends.
#[derive(Clone, Copy, Debug, PartialEq, Eq, Structural)]
pub enum Backend {
    Slack,
    Batsign,
    Command,
    Println,
}

/// One notifier to construct: its backend, and its index among those of
/// that backend, which is also the index of its URL or command in the
/// backend's settings.
#[derive(Clone, Copy, Debug, PartialEq, Eq, Structural)]
pub struct NotifierSpec {
    pub backend: Backend,
    pub index: usize,
}

/// The notifiers to construct, in order.
pub struct NotifierPlan {
    pub notifiers: Vec<NotifierSpec>,
    /// Whether every backend was enabled because none was and this is a dry
    /// run.
    pub all_enabled_for_dry_run: bool,
}

/// Whether no backend is enabled in the settings.
pub open spec fn none_enabled(s: Settings) -> bool {
    !s.slack.enabled && !s.batsign.enabled && !s.command.enabled && !s.println.enabled
}

/// Whether every backend is to be used regardless of the settings: none is
/// enabled, and this is a dry run.
pub open spec fn enable_all(s: Settings) -> bool {
    none_enabled(s) && s.dry_run
}

/// The notifiers of backend `b` when it is enabled with `n` URLs or commands:
/// one per URL or command, in order.
pub open spec fn backend_run(b: Backend, n: nat) -> Seq<NotifierSpec> {
    Seq::new(n, |i: int| NotifierSpec { backend: b, index: i as usize })
}

/// `run` if `enabled`, else nothing.
pub open spec fn when_enabled(enabled: bool, run: Seq<NotifierSpec>) -> Seq<NotifierSpec> {
    if enabled { run } else { Seq::empty() }
}

/// The notifiers the settings call for: Slack, Batsign and command notifiers,
/// one per URL or command of each enabled backend, then one printing
/// notifier if that backend is enabled. With no backend enabled on a dry
/// run, all backends count as enabled.
pub open spec fn spec_plan(s: Settings) -> Seq<NotifierSpec> {
    let all = enable_all(s);
    when_enabled(all || s.slack.enabled, backend_run(Backend::Slack, s.slack.urls.len() as nat))
        + when_enabled(all || s.batsign.enabled, backend_run(Backend::Batsign, s.batsign.urls.len() as nat))
        + when_enabled(all || s.command.enabled, backend_run(Backend::Command, s.command.commands.len() as nat))
        + when_enabled(all || s.println.enabled, backend_run(Backend::Println, 1))
}

/// Appends one notifier of backend `b` for each of `n` targets.
fn push_backend_run(v: &mut Vec<NotifierSpec>, b: Backend, n: usize)
    ensures
        final(v)@ == old(v)@ + backend_run(b, n as nat),
{
    let mut i: usize = 0;
    while i < n
        invariant
            i <= n,
            v@ == old(v)@ + backend_run(b, i as nat),
        decreases n - i,
    {
        v.push(NotifierSpec { backend: b, index: i });
        i = i + 1;
    }
}

/// Decides which notifiers to construct (see `spec_plan`).
pub fn plan_notifiers(settings: &Settings) -> (plan: NotifierPlan)
    ensures
        plan.notifiers@ == spec_plan(*settings),
        plan.all_enabled_for_dry_run == enable_all(*settings),
        plan.all_enabled_for_dry_run == (!settings.slack.enabled && !settings.batsign.enabled
            && !settings.command.enabled && !settings.println.enabled && settings.dry_run),
{
    let all = !settings.slack.enabled && !settings.batsign.enabled && !settings.command.enabled
        && !settings.println.enabled && settings.dry_run;
    let mut notifiers: Vec<NotifierSpec> = Vec::new();
    if all || settings.slack.enabled {
        push_backend_run(&mut notifiers, Backend::Slack, settings.slack.urls.len());
    }
    if all || settings.batsign.enabled {
        push_backend_run(&mut notifiers, Backend::Batsign, settings.batsign.urls.len());
    }
    if all || settings.command.enabled {
        push_backend_run(&mut notifiers, Backend::Command, settings.command.commands.len());
    }
    if all || settings.println.enabled {
        push_backend_run(&mut notifiers, Backend::Println, 1);
    }
    NotifierPlan { notifiers, all_enabled_for_dry_run: all }
}

/// Whether `n` names an existing target of its backend in the settings: a
/// URL or command by its index, or the single printing notifier.
pub open spec fn addresses_target(s: Settings, n: NotifierSpec) -> bool {
    match n.backend {
        Backend::Slack => n.index < s.slack.urls.len(),
        Backend::Batsign => n.index < s.batsign.urls.len(),
        Backend::Command => n.index < s.command.commands.len(),
        Backend::Println => n.index == 0,
    }
}

/// How many notifiers the settings call for: one per URL or command of each
/// enabled backend, plus one if printing is enabled.
pub proof fn law_plan_size(s: Settings)
    ensures
        spec_plan(s).len() == (if enable_all(s) || s.slack.enabled { s.slack.urls.len() as int } else { 0 })
            + (if enable_all(s) || s.batsign.enabled { s.batsign.urls.len() as int } else { 0 })
            + (if enable_all(s) || s.command.enabled { s.command.commands.len() as int } else { 0 })
            + (if enable_all(s) || s.println.enabled { 1int } else { 0 }),
{
}

/// Every planned notifier names an existing URL or command of its backend,
/// so constructing it cannot index out of bounds.
pub proof fn law_plan_addresses_targets(s: Settings)
    ensures
        forall|i: int| 0 <= i < spec_plan(s).len() ==> addresses_target(s, #[trigger] spec_plan(s)[i]),
{
}

/// With no backend enabled and no dry run, there is no notifier at all.
pub proof fn law_nothing_enabled_nothing_planned(s: Settings)
    requires
        none_enabled(s),
        !s.dry_run,
    ensures
        spec_plan(s).len() == 0,
{
}

/// A dry run with no backend enabled uses every backend, so it always has
/// at least the printing notifier, which comes last.
pub proof fn law_dry_run_uses_every_backend(s: Settings)
    requires
        none_enabled(s),
        s.dry_run,
    ensures
        spec_plan(s).len() == s.slack.urls.len() + s.batsign.urls.len() + s.command.commands.len() + 1,
        spec_plan(s).last() == (NotifierSpec { backend: Backend::Println, index: 0 }),
{
}

/// Every backend is switched on exactly when none of the four (printing
/// included) is enabled and it is a dry run.
pub proof fn law_enable_all_exactly_when_nothing_enabled(s: Settings)
    ensures
        enable_all(s) <==> (!s.slack.enabled && !s.batsign.enabled && !s.command.enabled
            && !s.println.enabled && s.dry_run),
{
}

/// Whether backend `b` is enabled in the settings.
pub open spec fn backend_enabled(s: Settings, b: Backend) -> bool {
    match b {
        Backend::Slack => s.slack.enabled,
        Backend::Batsign => s.batsign.enabled,
        Backend::Command => s.command.enabled,
        Backend::Println => s.println.enabled,
    }
}

/// With any backend enabled, the plan holds only notifiers of enabled
/// backends, and one for every URL or command of each enabled backend.
pub proof fn law_plan_keeps_explicit_choice(s: Settings)
    requires
        s.slack.enabled || s.batsign.enabled || s.command.enabled || s.println.enabled,
    ensures
        forall|i: int| 0 <= i < spec_plan(s).len() ==> backend_enabled(s, #[trigger] spec_plan(s)[i].backend),
        spec_plan(s).len() == (if s.slack.enabled { s.slack.urls.len() as int } else { 0 })
            + (if s.batsign.enabled { s.batsign.urls.len() as int } else { 0 })
            + (if s.command.enabled { s.command.commands.len() as int } else { 0 })
            + (if s.println.enabled { 1int } else { 0 }),
{
    let r1 = when_enabled(s.slack.enabled, backend_run(Backend::Slack, s.slack.urls.len() as nat));
    let r2 = when_enabled(s.batsign.enabled, backend_run(Backend::Batsign, s.batsign.urls.len() as nat));
    let r3 = when_enabled(s.command.enabled, backend_run(Backend::Command, s.command.commands.len() as nat));
    let r4 = when_enabled(s.println.enabled, backend_run(Backend::Println, 1));
    let p = spec_plan(s);
    assert(p == r1 + r2 + r3 + r4);
    assert forall|i: int| 0 <= i < p.len() implies backend_enabled(s, #[trigger] p[i].backend) by {
        if i < r1.len() {
            assert(p[i] == r1[i]);
        } else if i < r1.len() + r2.len() {
            assert(p[i] == r2[i - r1.len()]);
        } else if i < r1.len() + r2.len() + r3.len() {
            assert(p[i] == r3[i - r1.len() - r2.len()]);
        } else {
            assert(p[i] == r4[i - r1.len() - r2.len() - r3.len()]);
        }
    }
}

} // verus!
