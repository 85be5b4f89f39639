//! The snapshot-policy form: the pure state machine behind the policy
//! editor.  Field edits, filesystem selection (with its defaults copied
//! from the known policy of the chosen filesystem) and the submission
//! variables are computed here; fetching the policy cache and sending the
//! submission are the runtime's business.

use vstd::prelude::*;

use crate::commands::decimal_of;
use crate::commands::u64_decimal;
use crate::util::string_eq;

verus! {

broadcast use vstd::seq_lib::group_seq_lib_default;

/// The submission variables of one policy, as the transport sends them.
#[derive(Clone, Debug, PartialEq)]
pub struct PolicyVars {
    pub filesystem: String,
    pub interval: String,
    pub start: Option<String>,
    pub barrier: Option<bool>,
    pub keep: i32,
    pub daily: Option<i32>,
    pub weekly: Option<i32>,
    pub monthly: Option<i32>,
}

/// Spec-level image of [`PolicyVars`].
pub struct PolicyVarsView {
    pub filesystem: Seq<char>,
    pub interval: Seq<char>,
    pub start: Option<Seq<char>>,
    pub barrier: Option<bool>,
    pub keep: i32,
    pub daily: Option<i32>,
    pub weekly: Option<i32>,
    pub monthly: Option<i32>,
}

impl DeepView for PolicyVars {
    type V = PolicyVarsView;

    open spec fn deep_view(&self) -> PolicyVarsView {
        PolicyVarsView {
            filesystem: self.filesystem@,
            interval: self.interval@,
            start: self.start.deep_view(),
            barrier: self.barrier,
            keep: self.keep,
            daily: self.daily,
            weekly: self.weekly,
            monthly: self.monthly,
        }
    }
}

/// One known snapshot policy, as the form needs it: the interval in
/// seconds and the start time already rendered to text by the edge.
#[derive(Clone, Debug, PartialEq)]
pub struct KnownPolicy {
    pub filesystem: String,
    pub interval_seconds: u64,
    pub start: Option<String>,
    pub barrier: bool,
    pub keep: i32,
    pub daily: i32,
    pub weekly: i32,
    pub monthly: i32,
}

/// Spec-level image of [`KnownPolicy`].
pub struct KnownPolicyView {
    pub filesystem: Seq<char>,
    pub interval_seconds: u64,
    pub start: Option<Seq<char>>,
    pub barrier: bool,
    pub keep: i32,
    pub daily: i32,
    pub weekly: i32,
    pub monthly: i32,
}

impl DeepView for KnownPolicy {
    type V = KnownPolicyView;

    open spec fn deep_view(&self) -> KnownPolicyView {
        KnownPolicyView {
            filesystem: self.filesystem@,
            interval_seconds: self.interval_seconds,
            start: self.start.deep_view(),
            barrier: self.barrier,
            keep: self.keep,
            daily: self.daily,
            weekly: self.weekly,
            monthly: self.monthly,
        }
    }
}

/// One edit of the policy form.
#[derive(Clone, Debug, PartialEq)]
pub enum PolicyInput {
    Filesystem(String),
    Interval(u64),
    IntervalUnit(String),
    Start(String),
    ToggleBarrier,
    Keep(i32),
    Daily(Option<i32>),
    Weekly(Option<i32>),
    Monthly(Option<i32>),
}

/// Spec-level image of [`PolicyInput`].
pub enum PolicyInputView {
    Filesystem(Seq<char>),
    Interval(u64),
    IntervalUnit(Seq<char>),
    Start(Seq<char>),
    ToggleBarrier,
    Keep(i32),
    Daily(Option<i32>),
    Weekly(Option<i32>),
    Monthly(Option<i32>),
}

impl DeepView for PolicyInput {
    type V = PolicyInputView;

    open spec fn deep_view(&self) -> PolicyInputView {
        match self {
            PolicyInput::Filesystem(s) => PolicyInputView::Filesystem(s@),
            PolicyInput::Interval(i) => PolicyInputView::Interval(*i),
            PolicyInput::IntervalUnit(s) => PolicyInputView::IntervalUnit(s@),
            PolicyInput::Start(s) => PolicyInputView::Start(s@),
            PolicyInput::ToggleBarrier => PolicyInputView::ToggleBarrier,
            PolicyInput::Keep(i) => PolicyInputView::Keep(*i),
            PolicyInput::Daily(i) => PolicyInputView::Daily(*i),
            PolicyInput::Weekly(i) => PolicyInputView::Weekly(*i),
            PolicyInput::Monthly(i) => PolicyInputView::Monthly(*i),
        }
    }
}

/// The policy form's state: the known policies, the variables to submit,
/// and the interval and start fields as edited.
#[derive(Clone, Debug, PartialEq)]
pub struct PolicyForm {
    pub policies: Vec<KnownPolicy>,
    pub vars: PolicyVars,
    pub interval: u64,
    pub interval_unit: String,
    pub start: String,
}

/// Spec-level image of [`PolicyForm`].
pub struct PolicyFormView {
    pub policies: Seq<KnownPolicyView>,
    pub vars: PolicyVarsView,
    pub interval: u64,
    pub interval_unit: Seq<char>,
    pub start: Seq<char>,
}

impl DeepView for PolicyForm {
    type V = PolicyFormView;

    open spec fn deep_view(&self) -> PolicyFormView {
        PolicyFormView {
            policies: self.policies.deep_view(),
            vars: self.vars.deep_view(),
            interval: self.interval,
            interval_unit: self.interval_unit@,
            start: self.start@,
        }
    }
}

/// The first known policy of the named filesystem, if any.
pub open spec fn policy_lookup(policies: Seq<KnownPolicyView>, fs: Seq<char>) -> Option<
    KnownPolicyView,
>
    decreases policies.len(),
{
    if policies.len() == 0 {
        None
    } else if policies.first().filesystem == fs {
        Some(policies.first())
    } else {
        policy_lookup(policies.drop_first(), fs)
    }
}

/// The form after a filesystem is chosen: the variables take the known
/// policy's values when one exists, or the defaults for a fresh policy,
/// and the chosen name is recorded.
pub open spec fn select_filesystem(state: PolicyFormView, fs: Seq<char>) -> PolicyFormView {
    match policy_lookup(state.policies, fs) {
        Some(p) => PolicyFormView {
            vars: PolicyVarsView {
                filesystem: fs,
                keep: p.keep,
                daily: Some(p.daily),
                weekly: Some(p.weekly),
                monthly: Some(p.monthly),
                barrier: Some(p.barrier),
                ..state.vars
            },
            interval: p.interval_seconds / 60,
            interval_unit: "m"@,
            start: match p.start {
                Some(s) => s,
                None => Seq::empty(),
            },
            ..state
        },
        None => PolicyFormView {
            vars: PolicyVarsView {
                filesystem: fs,
                interval: Seq::empty(),
                start: None,
                barrier: None,
                keep: 32,
                daily: None,
                weekly: None,
                monthly: None,
            },
            interval: 60,
            interval_unit: "m"@,
            start: Seq::empty(),
            ..state
        },
    }
}

/// The form after one edit.
pub open spec fn apply_input_spec(state: PolicyFormView, input: PolicyInputView) -> PolicyFormView {
    match input {
        PolicyInputView::Filesystem(fs) => select_filesystem(state, fs),
        PolicyInputView::Interval(i) => PolicyFormView { interval: i, ..state },
        PolicyInputView::IntervalUnit(u) => PolicyFormView { interval_unit: u, ..state },
        PolicyInputView::Start(s) => PolicyFormView { start: s, ..state },
        PolicyInputView::ToggleBarrier => PolicyFormView {
            vars: PolicyVarsView {
                barrier: match state.vars.barrier {
                    Some(b) => Some(!b),
                    None => Some(true),
                },
                ..state.vars
            },
            ..state
        },
        PolicyInputView::Keep(i) => PolicyFormView {
            vars: PolicyVarsView { keep: i, ..state.vars },
            ..state
        },
        PolicyInputView::Daily(i) => PolicyFormView {
            vars: PolicyVarsView { daily: i, ..state.vars },
            ..state
        },
        PolicyInputView::Weekly(i) => PolicyFormView {
            vars: PolicyVarsView { weekly: i, ..state.vars },
            ..state
        },
        PolicyInputView::Monthly(i) => PolicyFormView {
            vars: PolicyVarsView { monthly: i, ..state.vars },
            ..state
        },
    }
}

/// The variables as submission freezes them: the interval rendered with
/// its unit appended, and the start either absent (left empty) or
/// suffixed into a full timestamp.
pub open spec fn submit_vars_spec(state: PolicyFormView) -> PolicyVarsView {
    PolicyVarsView {
        interval: decimal_of(state.interval as int) + state.interval_unit,
        start: if state.start.len() == 0 {
            None
        } else {
            Some(state.start + ":00Z"@)
        },
        ..state.vars
    }
}

impl PolicyForm {
    /// Apply one edit to the form.
    pub fn apply_input(&mut self, input: PolicyInput)
        ensures
            final(self).deep_view() == apply_input_spec(old(self).deep_view(), input.deep_view()),
    {
        match input {
            PolicyInput::Filesystem(fs) => {
                let found = lookup_policy_exec(&self.policies, &fs);
                match found {
                    Some(p) => {
                        self.vars.keep = p.keep;
                        self.vars.daily = Some(p.daily);
                        self.vars.weekly = Some(p.weekly);
                        self.vars.monthly = Some(p.monthly);
                        self.vars.barrier = Some(p.barrier);
                        self.start = match p.start {
                            Some(s) => s,
                            None => String::new(),
                        };
                        self.interval = p.interval_seconds / 60;
                        self.interval_unit = "m".to_owned();
                    },
                    None => {
                        self.vars = PolicyVars {
                            filesystem: String::new(),
                            interval: String::new(),
                            start: None,
                            barrier: None,
                            keep: 32,
                            daily: None,
                            weekly: None,
                            monthly: None,
                        };
                        self.interval = 60;
                        self.interval_unit = "m".to_owned();
                        self.start = String::new();
                    },
                }
                self.vars.filesystem = fs;
            },
            PolicyInput::Interval(i) => {
                self.interval = i;
            },
            PolicyInput::IntervalUnit(u) => {
                self.interval_unit = u;
            },
            PolicyInput::Start(s) => {
                self.start = s;
            },
            PolicyInput::ToggleBarrier => {
                self.vars.barrier = match self.vars.barrier {
                    Some(b) => Some(!b),
                    None => Some(true),
                };
            },
            PolicyInput::Keep(i) => {
                self.vars.keep = i;
            },
            PolicyInput::Daily(i) => {
                self.vars.daily = i;
            },
            PolicyInput::Weekly(i) => {
                self.vars.weekly = i;
            },
            PolicyInput::Monthly(i) => {
                self.vars.monthly = i;
            },
        }
    }

    /// Freeze the form into its submission variables.
    pub fn submit_vars(&self) -> (r: PolicyVars)
        ensures
            r.deep_view() == submit_vars_spec(self.deep_view()),
    {
        let mut interval = u64_decimal(self.interval);
        interval.append(self.interval_unit.as_str());
        let start: Option<String> = if self.start.as_str().unicode_len() == 0 {
            None
        } else {
            let mut s = self.start.clone();
            s.append(":00Z");
            Some(s)
        };
        PolicyVars {
            filesystem: self.vars.filesystem.clone(),
            interval,
            start,
            barrier: self.vars.barrier,
            keep: self.vars.keep,
            daily: self.vars.daily,
            weekly: self.vars.weekly,
            monthly: self.vars.monthly,
        }
    }
}

/// The first known policy of the named filesystem, copied out.
fn lookup_policy_exec(policies: &Vec<KnownPolicy>, fs: &String) -> (r: Option<KnownPolicy>)
    ensures
        r.deep_view() == policy_lookup(policies.deep_view(), fs@),
{
    let mut i: usize = 0;
    proof {
        assert(policies.deep_view().skip(0) =~= policies.deep_view());
    }
    while i < policies.len()
        invariant
            i <= policies.len(),
            policy_lookup(policies.deep_view(), fs@) == policy_lookup(
                policies.deep_view().skip(i as int),
                fs@,
            ),
        decreases policies.len() - i,
    {
        let p = &policies[i];
        proof {
            let suffix = policies.deep_view().skip(i as int);
            assert(suffix.first() == policies.deep_view()[i as int]);
            assert(suffix.drop_first() =~= policies.deep_view().skip(i + 1 as int));
        }
        if string_eq(&p.filesystem, fs) {
            let copy = KnownPolicy {
                filesystem: p.filesystem.clone(),
                interval_seconds: p.interval_seconds,
                start: match &p.start {
                    Some(s) => Some(s.clone()),
                    None => None,
                },
                barrier: p.barrier,
                keep: p.keep,
                daily: p.daily,
                weekly: p.weekly,
                monthly: p.monthly,
            };
            proof {
                assert(copy.deep_view() == policies.deep_view()[i as int]);
            }
            return Some(copy);
        }
        i += 1;
    }
    proof {
        assert(policies.deep_view().skip(policies.deep_view().len() as int) =~= Seq::<
            KnownPolicyView,
        >::empty());
    }
    None
}

} // verus!
