//! The application pipeline: the ordered sequence of irreversible
//! OS-mutation actions that one submitted configuration demands, and the
//! runner that performs them against a collaborator, stopping at the first
//! failure.
//!
//! The pipeline itself only decides; the OS mutations are side effects of
//! the collaborator that performs each [`Action`]. [`spec_plan`] is the
//! ordering contract: hostname, locale, user creation, hardware-clock mode,
//! then — only when a swap file was requested — swap-file creation and its
//! mount-table entry, then — only when a full name was given — the
//! full-name field, then the timezone, and last the machine-id
//! regeneration. A failed run has no rollback: completed steps stay
//! applied, and the caller restarts from scratch.

use vstd::prelude::*;

use crate::config::{CommandError, ConfigView, OobeConfig};

verus! {

/// One OS-mutation step, carrying the plain values handed to the
/// collaborator that performs it.
#[derive(Debug, PartialEq, Eq)]
pub enum Action {
    /// Set the system hostname.
    SetHostname(String),
    /// Set the system locale.
    SetLocale(String),
    /// Create the user account (name, secret).
    AddNewUser(String, String),
    /// Set the hardware-clock mode: local time when true, UTC when false.
    SetHwclockLocaltime(bool),
    /// Allocate and register a swap file of this many bytes at the system
    /// root path.
    CreateSwapfile(u64),
    /// Append the swap entry to the filesystem mount table.
    WriteSwapFstabEntry,
    /// Set the account's display-name field (full name, account name).
    SetFullname(String, String),
    /// Apply the timezone naming this zoneinfo entry.
    SetZoneinfo(String),
    /// Regenerate the machine identifier by running the external
    /// machine-id setup program with no arguments and no extra environment.
    RunMachineIdSetup,
}

/// The mathematical content of an action: each string as its character
/// sequence.
pub enum ActionView {
    SetHostname(Seq<char>),
    SetLocale(Seq<char>),
    AddNewUser(Seq<char>, Seq<char>),
    SetHwclockLocaltime(bool),
    CreateSwapfile(u64),
    WriteSwapFstabEntry,
    SetFullname(Seq<char>, Seq<char>),
    SetZoneinfo(Seq<char>),
    RunMachineIdSetup,
}

impl View for Action {
    type V = ActionView;

    open spec fn view(&self) -> ActionView {
        match self {
            Action::SetHostname(h) => ActionView::SetHostname(h@),
            Action::SetLocale(l) => ActionView::SetLocale(l@),
            Action::AddNewUser(u, p) => ActionView::AddNewUser(u@, p@),
            Action::SetHwclockLocaltime(b) => ActionView::SetHwclockLocaltime(*b),
            Action::CreateSwapfile(s) => ActionView::CreateSwapfile(*s),
            Action::WriteSwapFstabEntry => ActionView::WriteSwapFstabEntry,
            Action::SetFullname(f, u) => ActionView::SetFullname(f@, u@),
            Action::SetZoneinfo(t) => ActionView::SetZoneinfo(t@),
            Action::RunMachineIdSetup => ActionView::RunMachineIdSetup,
        }
    }
}

/// The contents of a recorded action sequence.
pub open spec fn views_of(s: Seq<Action>) -> Seq<ActionView> {
    s.map_values(|a: Action| a@)
}

/// The exact ordered action sequence that one configuration demands. The
/// swap-file steps appear only when a swap file was requested, the
/// full-name step only when a full name was given; every other step always
/// appears, in this fixed order.
pub open spec fn spec_plan(c: ConfigView) -> Seq<ActionView> {
    seq![
        ActionView::SetHostname(c.hostname),
        ActionView::SetLocale(c.locale),
        ActionView::AddNewUser(c.user, c.pwd),
        ActionView::SetHwclockLocaltime(c.rtc_as_localtime),
    ] + (if c.swap_size != 0 {
        seq![ActionView::CreateSwapfile(c.swap_size), ActionView::WriteSwapFstabEntry]
    } else {
        Seq::empty()
    }) + (match c.fullname {
        Option::Some(f) => seq![ActionView::SetFullname(f, c.user)],
        Option::None => Seq::empty(),
    }) + seq![ActionView::SetZoneinfo(c.timezone), ActionView::RunMachineIdSetup]
}

/// Turns one configuration into the ordered list of actions a front end
/// must perform, exactly as [`spec_plan`] lays them out.
pub fn plan_actions(config: OobeConfig) -> (r: Vec<Action>)
    ensures
        views_of(r@) == spec_plan(config@),
{
    let OobeConfig { locale, user, pwd, fullname, hostname, rtc_as_localtime, timezone, swapfile } =
        config;
    let user_again = user.clone();
    let mut r: Vec<Action> = Vec::new();
    r.push(Action::SetHostname(hostname));
    r.push(Action::SetLocale(locale.locale));
    r.push(Action::AddNewUser(user, pwd));
    r.push(Action::SetHwclockLocaltime(rtc_as_localtime));
    if swapfile.size != 0 {
        r.push(Action::CreateSwapfile(swapfile.size));
        r.push(Action::WriteSwapFstabEntry);
    }
    if let Some(f) = fullname {
        r.push(Action::SetFullname(f, user_again));
    }
    r.push(Action::SetZoneinfo(timezone.data));
    r.push(Action::RunMachineIdSetup);
    proof {
        assert(views_of(r@) =~= spec_plan(config@));
    }
    r
}

/// An in-memory collaborator double: it records, in order, every action it
/// is asked to perform, and fails exactly at the scripted call index with
/// the scripted message. With no scripted index every action succeeds.
pub struct Recorder {
    /// Every action performed so far, in call order.
    pub calls: Vec<Action>,
    /// The call index (counting from zero) at which to fail, if any.
    pub fail_at: Option<usize>,
    /// The message handed back by the failing call.
    pub fail_msg: String,
}

impl Recorder {
    /// A recorder on which every action succeeds.
    pub fn new() -> (r: Recorder)
        ensures
            r.calls@ == Seq::<Action>::empty(),
            r.fail_at is None,
    {
        Recorder { calls: Vec::new(), fail_at: None, fail_msg: String::new() }
    }

    /// A recorder scripted to fail at the `index`-th performed action,
    /// counting from zero, with the message `msg`.
    pub fn failing(index: usize, msg: String) -> (r: Recorder)
        ensures
            r.calls@ == Seq::<Action>::empty(),
            r.fail_at == Some(index),
            r.fail_msg@ == msg@,
    {
        Recorder { calls: Vec::new(), fail_at: Some(index), fail_msg: msg }
    }

    /// Performs one action: the call is recorded whatever happens, and the
    /// scripted failure index alone decides between success and the
    /// scripted error.
    pub fn perform(&mut self, action: Action) -> (r: Result<(), CommandError>)
        ensures
            final(self).calls@ == old(self).calls@.push(action),
            final(self).fail_at == old(self).fail_at,
            final(self).fail_msg@ == old(self).fail_msg@,
            match r {
                Result::Ok(_) => old(self).fail_at != Some(old(self).calls@.len() as usize),
                Result::Err(e) => old(self).fail_at == Some(old(self).calls@.len() as usize)
                    && e.0@ == old(self).fail_msg@,
            },
    {
        let index = self.calls.len();
        self.calls.push(action);
        let fail = match self.fail_at {
            Some(k) => k == index,
            None => false,
        };
        if fail {
            Err(CommandError(self.fail_msg.clone()))
        } else {
            Ok(())
        }
    }
}

/// Applies one configuration: performs its planned actions in order
/// against the collaborator, stops at the first failure and propagates its
/// message unchanged, and never retries or rolls back. On success the
/// collaborator has performed exactly the planned sequence; on failure it
/// has performed exactly the plan up to and including the failing step.
pub fn apply(config: OobeConfig, collab: &mut Recorder) -> (r: Result<(), CommandError>)
    ensures
        final(collab).fail_at == old(collab).fail_at,
        final(collab).fail_msg@ == old(collab).fail_msg@,
        ({
            let plan = spec_plan(config@);
            let pre = views_of(old(collab).calls@);
            let post = views_of(final(collab).calls@);
            match r {
                Result::Ok(_) => post == pre + plan && (match old(collab).fail_at {
                    Option::Some(k) => !(pre.len() <= k < pre.len() + plan.len()),
                    Option::None => true,
                }),
                Result::Err(e) => (match old(collab).fail_at {
                    Option::Some(k) => pre.len() <= k < pre.len() + plan.len() && post == pre
                        + plan.take(k - pre.len() + 1) && e.0@ == old(collab).fail_msg@,
                    Option::None => false,
                }),
            }
        }),
{
    let ghost plan_v = spec_plan(config@);
    let ghost pre = views_of(old(collab).calls@);
    let mut rest = plan_actions(config);
    proof {
        assert(plan_v.skip(0) =~= plan_v);
        assert(pre + plan_v.take(0) =~= pre);
    }
    while rest.len() > 0
        invariant
            views_of(rest@) == plan_v.skip(plan_v.len() - rest@.len()),
            rest@.len() <= plan_v.len(),
            views_of(collab.calls@) == pre + plan_v.take(plan_v.len() - rest@.len()),
            pre == views_of(old(collab).calls@),
            plan_v == spec_plan(config@),
            collab.fail_at == old(collab).fail_at,
            collab.fail_msg@ == old(collab).fail_msg@,
            match old(collab).fail_at {
                Option::Some(k) => !(pre.len() <= k < pre.len() + plan_v.len() - rest@.len()),
                Option::None => true,
            },
        decreases rest@.len(),
    {
        let ghost done = plan_v.len() - rest@.len();
        let ghost rest0 = rest@;
        let a = rest.remove(0);
        proof {
            assert(a@ == views_of(rest0)[0]);
            assert(a@ == plan_v.skip(done)[0]);
            assert(a@ == plan_v[done]);
            assert forall|j: int| 0 <= j < rest@.len() implies views_of(rest@)[j] == plan_v.skip(
                done + 1,
            )[j] by {
                assert(rest@[j] == rest0[j + 1]);
                assert(views_of(rest0)[j + 1] == rest0[j + 1]@);
            }
            assert(views_of(rest@) =~= plan_v.skip(done + 1));
        }
        let idx = collab.calls.len();
        proof {
            assert(views_of(collab.calls@).len() == collab.calls@.len());
            assert(plan_v.take(done).len() == done);
            assert(idx == pre.len() + done);
        }
        let res = collab.perform(a);
        proof {
            assert(views_of(collab.calls@) =~= (pre + plan_v.take(done)).push(plan_v[done]));
            assert((pre + plan_v.take(done)).push(plan_v[done]) =~= pre + plan_v.take(done + 1));
        }
        if let Err(e) = res {
            proof {
                assert(collab.fail_at == Some(idx));
                assert(plan_v.take(done + 1) == plan_v.take(idx - pre.len() + 1));
            }
            return Err(e);
        }
    }
    proof {
        assert(plan_v.take(plan_v.len() as int) =~= plan_v);
    }
    Ok(())
}

// ---------------------------------------------------------------------------
// Ordering and short-circuit laws
// ---------------------------------------------------------------------------

/// The planned sequence spelled out position by position: whatever the
/// configuration, the collaborator observes hostname, locale, user
/// creation and hardware clock first, then the optional swap-file pair,
/// then the optional full name, then the timezone and the machine-id
/// regeneration last.
pub proof fn lemma_plan_order(c: ConfigView)
    ensures
        spec_plan(c).len() == 6 + (if c.swap_size != 0 {
            2int
        } else {
            0int
        }) + (if c.fullname is Some {
            1int
        } else {
            0int
        }),
        spec_plan(c)[0] == ActionView::SetHostname(c.hostname),
        spec_plan(c)[1] == ActionView::SetLocale(c.locale),
        spec_plan(c)[2] == ActionView::AddNewUser(c.user, c.pwd),
        spec_plan(c)[3] == ActionView::SetHwclockLocaltime(c.rtc_as_localtime),
        c.swap_size != 0 ==> spec_plan(c)[4] == ActionView::CreateSwapfile(c.swap_size)
            && spec_plan(c)[5] == ActionView::WriteSwapFstabEntry,
        c.fullname matches Some(f) ==> spec_plan(c)[if c.swap_size != 0 {
            6int
        } else {
            4int
        }] == ActionView::SetFullname(f, c.user),
        spec_plan(c)[spec_plan(c).len() - 2] == ActionView::SetZoneinfo(c.timezone),
        spec_plan(c)[spec_plan(c).len() - 1] == ActionView::RunMachineIdSetup,
{
}

/// Short-circuit at user creation: the user-creation action stands at
/// index 2 of every plan, so a run whose third performed action fails has
/// performed exactly the hostname, locale and user-creation actions —
/// neither the clock, swap, full-name or timezone action nor the
/// machine-id regeneration was reached.
pub proof fn lemma_user_creation_prefix(c: ConfigView)
    ensures
        spec_plan(c).take(3) == seq![
            ActionView::SetHostname(c.hostname),
            ActionView::SetLocale(c.locale),
            ActionView::AddNewUser(c.user, c.pwd),
        ],
{
    assert(spec_plan(c).take(3) =~= seq![
        ActionView::SetHostname(c.hostname),
        ActionView::SetLocale(c.locale),
        ActionView::AddNewUser(c.user, c.pwd),
    ]);
}

} // verus!
