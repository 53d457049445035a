use vstd::prelude::*;

use crate::text::views;

verus! {

/// Global control file of the dynamic-boost flag.
pub const HWP_DYNAMIC_BOOST_PATH: &'static str = "/sys/devices/system/cpu/intel_pstate/hwp_dynamic_boost";

/// Global control file of the turbo-disable flag.
pub const NO_TURBO_PATH: &'static str = "/sys/devices/system/cpu/intel_pstate/no_turbo";

/// Directory that holds one policy directory per frequency domain.
pub const CPUFREQ_POLICIES_DIR: &'static str = "/sys/devices/system/cpu/cpufreq/";

/// File of a policy directory that selects the scaling governor.
pub const SCALING_GOVERNOR_FILE: &'static str = "/scaling_governor";

/// File of a policy directory that holds the energy-performance preference.
pub const EPP_FILE: &'static str = "/energy_performance_preference";

/// A named bundle of optional CPU power settings.
#[derive(Debug)]
pub struct Preset {
    pub epp: Option<String>,
    pub hwp_dynamic_boost: Option<bool>,
    pub no_turbo: Option<bool>,
    pub scaling_governor: Option<String>,
}

/// The setting of a preset that a write carries.
#[derive(Debug, Clone, Copy, PartialEq, Eq, Structural)]
pub enum Setting {
    HwpDynamicBoost,
    NoTurbo,
    ScalingGovernor,
    Epp,
}

/// One write of a value to an OS control file.
#[derive(Debug)]
pub struct ControlWrite {
    pub setting: Setting,
    pub path: String,
    pub value: String,
}

impl View for ControlWrite {
    type V = (Setting, Seq<char>, Seq<char>);

    open spec fn view(&self) -> (Setting, Seq<char>, Seq<char>) {
        (self.setting, self.path@, self.value@)
    }
}

/// What a control file holds for a flag.
pub open spec fn flag_text(b: bool) -> Seq<char> {
    if b {
        "1"@
    } else {
        "0"@
    }
}

/// The writes to the global control files, in order.
pub open spec fn global_writes(p: Preset) -> Seq<(Setting, Seq<char>, Seq<char>)> {
    (match p.hwp_dynamic_boost {
        Some(b) => seq![(Setting::HwpDynamicBoost, HWP_DYNAMIC_BOOST_PATH@, flag_text(b))],
        None => Seq::empty(),
    }) + (match p.no_turbo {
        Some(b) => seq![(Setting::NoTurbo, NO_TURBO_PATH@, flag_text(b))],
        None => Seq::empty(),
    })
}

/// The writes to one policy directory: the governor, then the preference.
pub open spec fn policy_writes(p: Preset, dir: Seq<char>) -> Seq<(Setting, Seq<char>, Seq<char>)> {
    (match p.scaling_governor {
        Some(g) => seq![(Setting::ScalingGovernor, dir + SCALING_GOVERNOR_FILE@, g@)],
        None => Seq::empty(),
    }) + (match p.epp {
        Some(e) => seq![(Setting::Epp, dir + EPP_FILE@, e@)],
        None => Seq::empty(),
    })
}

/// The writes to every policy directory, one directory after another.
pub open spec fn all_policy_writes(p: Preset, dirs: Seq<Seq<char>>) -> Seq<(Setting, Seq<char>, Seq<char>)>
    decreases dirs.len(),
{
    if dirs.len() == 0 {
        Seq::empty()
    } else {
        all_policy_writes(p, dirs.drop_last()) + policy_writes(p, dirs.last())
    }
}

/// Every write that applying `p` makes, in order, given the policy
/// directories `dirs`.
pub open spec fn plan_spec(p: Preset, dirs: Seq<Seq<char>>) -> Seq<(Setting, Seq<char>, Seq<char>)> {
    global_writes(p) + all_policy_writes(p, dirs)
}

pub open spec fn write_views(ws: Seq<ControlWrite>) -> Seq<(Setting, Seq<char>, Seq<char>)> {
    ws.map_values(|w: ControlWrite| w@)
}

/// A write that was attempted, with what it returned.
#[derive(Debug)]
pub struct Attempt<E> {
    pub write: ControlWrite,
    pub result: Result<(), E>,
}

/// With both a governor and a preference set, each policy directory gets its
/// governor written and then, right after it, its preference.
pub proof fn lemma_governor_before_epp(p: Preset, dirs: Seq<Seq<char>>)
    requires
        p.scaling_governor is Some,
        p.epp is Some,
    ensures
        plan_spec(p, dirs).len() == global_writes(p).len() + 2 * dirs.len(),
        forall|k: int|
            #![trigger dirs[k]]
            0 <= k < dirs.len() ==> {
                let g = global_writes(p).len() + 2 * k;
                &&& plan_spec(p, dirs)[g] == (
                    Setting::ScalingGovernor,
                    dirs[k] + SCALING_GOVERNOR_FILE@,
                    p.scaling_governor->0@,
                )
                &&& plan_spec(p, dirs)[g + 1] == (Setting::Epp, dirs[k] + EPP_FILE@, p.epp->0@)
            },
{
    lemma_policy_writes_both(p, dirs);
}

proof fn lemma_policy_writes_both(p: Preset, dirs: Seq<Seq<char>>)
    requires
        p.scaling_governor is Some,
        p.epp is Some,
    ensures
        all_policy_writes(p, dirs).len() == 2 * dirs.len(),
        forall|k: int|
            #![trigger dirs[k]]
            0 <= k < dirs.len() ==> {
                &&& all_policy_writes(p, dirs)[2 * k] == (
                    Setting::ScalingGovernor,
                    dirs[k] + SCALING_GOVERNOR_FILE@,
                    p.scaling_governor->0@,
                )
                &&& all_policy_writes(p, dirs)[2 * k + 1] == (Setting::Epp, dirs[k] + EPP_FILE@, p.epp->0@)
            },
    decreases dirs.len(),
{
    if dirs.len() > 0 {
        let prev = dirs.drop_last();
        lemma_policy_writes_both(p, prev);
        assert forall|k: int| 0 <= k < dirs.len() - 1 implies #[trigger] dirs[k] == prev[k] by {}
    }
}

fn flag_string(b: bool) -> (r: String)
    ensures
        r@ == flag_text(b),
{
    if b {
        String::from_str("1")
    } else {
        String::from_str("0")
    }
}

fn push_write(out: &mut Vec<ControlWrite>, setting: Setting, path: String, value: String)
    ensures
        write_views(final(out)@) == write_views(old(out)@).push((setting, path@, value@)),
{
    let ghost before = out@;
    out.push(ControlWrite { setting, path, value });
    assert(write_views(out@) =~= write_views(before).push((setting, path@, value@)));
}

impl Preset {
    /// The writes that applying this preset makes, in order, given the policy
    /// directories found on the system.
    pub fn plan(&self, policy_dirs: &Vec<String>) -> (r: Vec<ControlWrite>)
        ensures
            write_views(r@) == plan_spec(*self, views(policy_dirs@)),
    {
        let mut out: Vec<ControlWrite> = Vec::new();
        if let Some(b) = self.hwp_dynamic_boost {
            push_write(&mut out, Setting::HwpDynamicBoost, String::from_str(HWP_DYNAMIC_BOOST_PATH), flag_string(b));
        }
        if let Some(b) = self.no_turbo {
            push_write(&mut out, Setting::NoTurbo, String::from_str(NO_TURBO_PATH), flag_string(b));
        }
        assert(write_views(out@) =~= global_writes(*self));
        let ghost dirs = views(policy_dirs@);
        let mut i: usize = 0;
        while i < policy_dirs.len()
            invariant
                i <= policy_dirs.len(),
                dirs == views(policy_dirs@),
                write_views(out@) == global_writes(*self) + all_policy_writes(*self, dirs.subrange(0, i as int)),
            decreases policy_dirs.len() - i,
        {
            let ghost prev = write_views(out@);
            let dir = &policy_dirs[i];
            if let Some(g) = &self.scaling_governor {
                push_write(&mut out, Setting::ScalingGovernor, dir.clone().concat(SCALING_GOVERNOR_FILE), g.clone());
            }
            if let Some(e) = &self.epp {
                push_write(&mut out, Setting::Epp, dir.clone().concat(EPP_FILE), e.clone());
            }
            assert(dirs.subrange(0, i + 1).drop_last() =~= dirs.subrange(0, i as int));
            assert(write_views(out@) =~= prev + policy_writes(*self, dirs[i as int]));
            i = i + 1;
        }
        assert(dirs.subrange(0, i as int) =~= dirs);
        out
    }

    /// Makes every write of the plan, in order, each through `write`. A write
    /// that fails does not stop the ones after it: every planned write is
    /// attempted, and the result of each is returned beside it.
    pub fn apply<E, W>(&self, policy_dirs: &Vec<String>, write: &W) -> (r: Vec<Attempt<E>>) where
        W: Fn(&ControlWrite) -> Result<(), E>,

        requires
            forall|w: ControlWrite| call_requires(*write, (&w,)),
        ensures
            r.len() == plan_spec(*self, views(policy_dirs@)).len(),
            forall|i: int|
                #![trigger r[i]]
                0 <= i < r.len() ==> r[i].write@ == plan_spec(*self, views(policy_dirs@))[i]
                    && call_ensures(*write, (&r[i].write,), r[i].result),
    {
        let mut plan = self.plan(policy_dirs);
        let ghost planned = write_views(plan@);
        let mut out: Vec<Attempt<E>> = Vec::new();
        while plan.len() > 0
            invariant
                forall|w: ControlWrite| call_requires(*write, (&w,)),
                planned == plan_spec(*self, views(policy_dirs@)),
                out.len() + plan.len() == planned.len(),
                forall|i: int|
                    #![trigger out[i]]
                    0 <= i < out.len() ==> out[i].write@ == planned[i]
                        && call_ensures(*write, (&out[i].write,), out[i].result),
                forall|j: int| #![trigger plan[j]] 0 <= j < plan.len() ==> plan[j]@ == planned[out.len() + j],
            decreases plan.len(),
        {
            let w = plan.remove(0);
            let result = write(&w);
            out.push(Attempt { write: w, result });
        }
        out
    }
}

} // verus!
