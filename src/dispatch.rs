use vstd::prelude::*;
use vstd::string::*;
use crate::keys::KeyCode;
use crate::profile::{decode, decode_spec, Binding, DispatchError, Profile};
use crate::toggle::{flipped, ToggleState};

verus! {

/// One call on the virtual keyboard.
#[derive(Clone, Copy, Debug, PartialEq, Eq, Structural)]
pub enum SinkCall {
    Click(KeyCode),
    KeyDown(KeyCode),
    KeyUp(KeyCode),
    /// Flushes the pending events to the host as one batch.
    Synchronize,
}

/// What a profile switch does to the keys that toggle bindings hold.
#[derive(Clone, Copy, Debug, PartialEq, Eq, Structural)]
pub enum TogglePolicy {
    /// Forget every held key.
    ResetOnSwitch,
    /// Keep the held keys as they are.
    CarryOver,
}

/// The mutable part of a dispatcher: which profile is active and which
/// keys are held.
pub struct DispatchModel {
    pub active: int,
    pub held: Set<KeyCode>,
}

/// The keyboard calls a binding produces, given the held keys.
pub open spec fn calls_for(b: Binding, held: Set<KeyCode>) -> Seq<SinkCall> {
    match b {
        Binding::PressKey(k) => seq![SinkCall::Click(k), SinkCall::Synchronize],
        Binding::ToggleKey(k) => if held.contains(k) {
            seq![SinkCall::KeyUp(k), SinkCall::Synchronize]
        } else {
            seq![SinkCall::KeyDown(k), SinkCall::Synchronize]
        },
        _ => seq![],
    }
}

/// Profile `i` is registered under `name`.
pub open spec fn named(profiles: Seq<Profile>, name: Seq<char>, i: int) -> bool {
    0 <= i < profiles.len() && profiles[i].spec_name() == name
}

pub open spec fn names_unique(profiles: Seq<Profile>) -> bool {
    forall|i: int, j: int|
        0 <= i < profiles.len() && 0 <= j < profiles.len() && i != j
            ==> profiles[i].spec_name() != profiles[j].spec_name()
}

/// The state after one notification, and what it produces.
pub open spec fn next(
    profiles: Seq<Profile>,
    policy: TogglePolicy,
    m: DispatchModel,
    payload: Seq<u8>,
) -> (DispatchModel, Result<Seq<SinkCall>, DispatchError>) {
    match decode_spec(payload) {
        Err(e) => (m, Err(e)),
        Ok(c) => {
            let b = profiles[m.active].spec_bindings()[c as int];
            match b {
                Binding::ToggleKey(k) => (
                    DispatchModel { active: m.active, held: flipped(m.held, k) },
                    Ok(calls_for(b, m.held)),
                ),
                Binding::SwitchProfile(name) => if exists|i: int| named(profiles, name@, i) {
                    (
                        DispatchModel {
                            active: choose|i: int| named(profiles, name@, i),
                            held: if policy == TogglePolicy::ResetOnSwitch {
                                Set::empty()
                            } else {
                                m.held
                            },
                        },
                        Ok(seq![]),
                    )
                } else {
                    (m, Err(DispatchError::UnknownProfile))
                },
                _ => (m, Ok(calls_for(b, m.held))),
            }
        },
    }
}

pub open spec fn calls_view(r: Result<Vec<SinkCall>, DispatchError>) -> Result<
    Seq<SinkCall>,
    DispatchError,
> {
    match r {
        Ok(v) => Ok(v@),
        Err(e) => Err(e),
    }
}

fn same_text(a: &str, b: &str) -> (r: bool)
    ensures
        r == (a@ == b@),
{
    let n = a.unicode_len();
    if n != b.unicode_len() {
        return false;
    }
    let mut i: usize = 0;
    while i < n
        invariant
            n == a@.len(),
            n == b@.len(),
            i <= n,
            forall|j: int| 0 <= j < i ==> a@[j] == b@[j],
        decreases n - i,
    {
        if a.get_char(i) != b.get_char(i) {
            return false;
        }
        i += 1;
    }
    proof {
        assert(a@ =~= b@);
    }
    true
}

fn find_named(profiles: &Vec<Profile>, name: &str) -> (r: Option<usize>)
    ensures
        match r {
            Some(i) => named(profiles@, name@, i as int),
            None => !exists|i: int| named(profiles@, name@, i),
        },
{
    let mut i: usize = 0;
    while i < profiles.len()
        invariant
            i <= profiles@.len(),
            forall|j: int| 0 <= j < i ==> !named(profiles@, name@, j),
        decreases profiles@.len() - i,
    {
        if same_text(profiles[i].name().as_str(), name) {
            return Some(i);
        }
        i += 1;
    }
    None
}

fn distinct_names(profiles: &Vec<Profile>) -> (r: bool)
    ensures
        r == names_unique(profiles@),
{
    let n = profiles.len();
    let mut i: usize = 0;
    while i < n
        invariant
            n == profiles@.len(),
            i <= n,
            forall|a: int, b: int|
                0 <= a < i && 0 <= b < n && a != b
                    ==> profiles@[a].spec_name() != profiles@[b].spec_name(),
        decreases n - i,
    {
        let mut j: usize = 0;
        while j < n
            invariant
                n == profiles@.len(),
                i < n,
                j <= n,
                forall|a: int, b: int|
                    0 <= a < i && 0 <= b < n && a != b
                        ==> profiles@[a].spec_name() != profiles@[b].spec_name(),
                forall|b: int|
                    0 <= b < j && i != b ==> profiles@[i as int].spec_name()
                        != profiles@[b].spec_name(),
            decreases n - j,
        {
            if i != j && same_text(profiles[i].name().as_str(), profiles[j].name().as_str()) {
                return false;
            }
            j += 1;
        }
        i += 1;
    }
    true
}

/// A chord bound to `PressKey(k)` produces one click of `k` followed by one
/// synchronize, and leaves the state as it was.
pub proof fn lemma_press_key_clicks_then_syncs(
    profiles: Seq<Profile>,
    policy: TogglePolicy,
    m: DispatchModel,
    payload: Seq<u8>,
    c: u8,
    k: KeyCode,
)
    requires
        decode_spec(payload) == Ok::<u8, DispatchError>(c),
        profiles[m.active].spec_bindings()[c as int] == Binding::PressKey(k),
    ensures
        next(profiles, policy, m, payload).0 == m,
        next(profiles, policy, m, payload).1 == Ok::<Seq<SinkCall>, DispatchError>(
            seq![SinkCall::Click(k), SinkCall::Synchronize],
        ),
{
}

/// A chord bound to `Empty` produces no keyboard call and leaves the state
/// as it was.
pub proof fn lemma_empty_is_silent(
    profiles: Seq<Profile>,
    policy: TogglePolicy,
    m: DispatchModel,
    payload: Seq<u8>,
    c: u8,
)
    requires
        decode_spec(payload) == Ok::<u8, DispatchError>(c),
        profiles[m.active].spec_bindings()[c as int] == Binding::Empty,
    ensures
        next(profiles, policy, m, payload).0 == m,
        next(profiles, policy, m, payload).1 == Ok::<Seq<SinkCall>, DispatchError>(seq![]),
{
}

/// Two chords bound to `ToggleKey(k)` in a row, with no switch between them,
/// press `k` and then release it (or the other way round when `k` was held),
/// each followed by a synchronize; afterwards the held keys are as before.
pub proof fn lemma_toggle_alternates(
    profiles: Seq<Profile>,
    policy: TogglePolicy,
    m: DispatchModel,
    first: Seq<u8>,
    second: Seq<u8>,
    c1: u8,
    c2: u8,
    k: KeyCode,
)
    requires
        decode_spec(first) == Ok::<u8, DispatchError>(c1),
        decode_spec(second) == Ok::<u8, DispatchError>(c2),
        profiles[m.active].spec_bindings()[c1 as int] == Binding::ToggleKey(k),
        profiles[m.active].spec_bindings()[c2 as int] == Binding::ToggleKey(k),
    ensures
        ({
            let (m1, r1) = next(profiles, policy, m, first);
            let (m2, r2) = next(profiles, policy, m1, second);
            &&& !m.held.contains(k) ==> r1 == Ok::<Seq<SinkCall>, DispatchError>(
                seq![SinkCall::KeyDown(k), SinkCall::Synchronize],
            ) && r2 == Ok::<Seq<SinkCall>, DispatchError>(
                seq![SinkCall::KeyUp(k), SinkCall::Synchronize],
            )
            &&& m.held.contains(k) ==> r1 == Ok::<Seq<SinkCall>, DispatchError>(
                seq![SinkCall::KeyUp(k), SinkCall::Synchronize],
            ) && r2 == Ok::<Seq<SinkCall>, DispatchError>(
                seq![SinkCall::KeyDown(k), SinkCall::Synchronize],
            )
            &&& m2.active == m.active
            &&& m2.held == m.held
        }),
{
    assert(flipped(flipped(m.held, k), k) =~= m.held);
}

/// After a chord bound to `SwitchProfile(name)`, with a profile registered
/// under `name`, that profile is active and the next chord resolves against
/// its table.
pub proof fn lemma_switch_then_resolve(
    profiles: Seq<Profile>,
    policy: TogglePolicy,
    m: DispatchModel,
    switch: Seq<u8>,
    later: Seq<u8>,
    c1: u8,
    c2: u8,
    name: String,
    j: int,
)
    requires
        names_unique(profiles),
        decode_spec(switch) == Ok::<u8, DispatchError>(c1),
        decode_spec(later) == Ok::<u8, DispatchError>(c2),
        profiles[m.active].spec_bindings()[c1 as int] == Binding::SwitchProfile(name),
        named(profiles, name@, j),
        !(profiles[j].spec_bindings()[c2 as int] is SwitchProfile),
    ensures
        ({
            let (m1, r1) = next(profiles, policy, m, switch);
            &&& r1 == Ok::<Seq<SinkCall>, DispatchError>(seq![])
            &&& m1.active == j
            &&& next(profiles, policy, m1, later).1 == Ok::<Seq<SinkCall>, DispatchError>(
                calls_for(profiles[j].spec_bindings()[c2 as int], m1.held),
            )
        }),
{
    let i = choose|i: int| named(profiles, name@, i);
    assert(i == j);
}

/// Turns notifications into keyboard calls through the active profile.
pub struct Dispatcher {
    profiles: Vec<Profile>,
    active: usize,
    toggles: ToggleState,
    policy: TogglePolicy,
}

impl Dispatcher {
    pub closed spec fn wf(&self) -> bool {
        &&& self.active < self.profiles@.len()
        &&& self.toggles.wf()
        &&& names_unique(self.profiles@)
    }

    pub closed spec fn profiles(&self) -> Seq<Profile> {
        self.profiles@
    }

    pub closed spec fn policy(&self) -> TogglePolicy {
        self.policy
    }

    pub closed spec fn model(&self) -> DispatchModel {
        DispatchModel { active: self.active as int, held: self.toggles@ }
    }

    /// A dispatcher over registered profiles, the first one active and no key
    /// held; `None` where there is no profile or two share a name.
    pub fn new(profiles: Vec<Profile>, policy: TogglePolicy) -> (r: Option<Dispatcher>)
        ensures
            r is Some <==> (profiles@.len() > 0 && names_unique(profiles@)),
            r matches Some(d) ==> {
                &&& d.wf()
                &&& d.profiles() == profiles@
                &&& d.policy() == policy
                &&& d.model().active == 0
                &&& d.model().held == Set::<KeyCode>::empty()
            },
    {
        if profiles.len() == 0 || !distinct_names(&profiles) {
            return None;
        }
        Some(Dispatcher { profiles, active: 0, toggles: ToggleState::new(), policy })
    }

    /// The name of the active profile.
    pub fn active_name(&self) -> (r: &String)
        requires
            self.wf(),
        ensures
            r@ == self.profiles()[self.model().active].spec_name(),
    {
        self.profiles[self.active].name()
    }

    /// Whether a toggle binding holds `k` down.
    pub fn is_held(&self, k: KeyCode) -> (r: bool)
        ensures
            r == self.model().held.contains(k),
    {
        self.toggles.is_on(k)
    }

    /// Handles one notification: decodes its chord code, looks it up in the
    /// active profile and carries the binding out.
    pub fn handle(&mut self, payload: &[u8]) -> (r: Result<Vec<SinkCall>, DispatchError>)
        requires
            old(self).wf(),
        ensures
            final(self).wf(),
            final(self).profiles() == old(self).profiles(),
            final(self).policy() == old(self).policy(),
            (final(self).model(), calls_view(r)) == next(
                old(self).profiles(),
                old(self).policy(),
                old(self).model(),
                payload@,
            ),
    {
        let code = match decode(payload) {
            Ok(c) => c,
            Err(e) => {
                return Err(e);
            },
        };
        let b = self.profiles[self.active].binding(code);
        match b {
            Binding::PressKey(k) => {
                let mut v: Vec<SinkCall> = Vec::new();
                v.push(SinkCall::Click(*k));
                v.push(SinkCall::Synchronize);
                proof {
                    assert(v@ =~= calls_for(*b, self.toggles@));
                }
                Ok(v)
            },
            Binding::ToggleKey(k) => {
                let k = *k;
                let on = self.toggles.toggle(k);
                let mut v: Vec<SinkCall> = Vec::new();
                if on {
                    v.push(SinkCall::KeyDown(k));
                } else {
                    v.push(SinkCall::KeyUp(k));
                }
                v.push(SinkCall::Synchronize);
                proof {
                    assert(v@ =~= calls_for(Binding::ToggleKey(k), old(self).toggles@));
                }
                Ok(v)
            },
            Binding::SwitchProfile(name) => {
                match find_named(&self.profiles, name.as_str()) {
                    Some(i) => {
                        proof {
                            let j = choose|j: int| named(self.profiles@, name@, j);
                            assert(j == i as int);
                        }
                        self.active = i;
                        if self.policy == TogglePolicy::ResetOnSwitch {
                            self.toggles.clear();
                        }
                        Ok(Vec::new())
                    },
                    None => Err(DispatchError::UnknownProfile),
                }
            },
            Binding::Macro => Ok(Vec::new()),
            Binding::Empty => Ok(Vec::new()),
        }
    }
}

} // verus!
