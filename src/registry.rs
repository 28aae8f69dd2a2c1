use vstd::prelude::*;
use crate::ident::{contains_id, first_fresh, random_draws, MAX_DRAWS};
use crate::keys::HotKey;
use crate::trigger::{to_trigger, trigger_of};

verus! {

/// Whether a shortcut was pressed or released.
#[derive(Clone, Copy, Debug, PartialEq, Eq, Structural)]
pub enum HotKeyState {
    Pressed,
    Released,
}

/// An activation or deactivation of a bound shortcut, for the event sink.
#[derive(Clone, Copy, Debug, PartialEq, Eq, Structural)]
pub struct GlobalHotKeyEvent {
    pub id: u32,
    pub state: HotKeyState,
}

/// Why one register or unregister operation failed.
#[derive(Clone, Copy, Debug, PartialEq, Eq, Structural)]
pub enum Error {
    /// The key has no name in the shortcut grammar.
    UnsupportedKey(HotKey),
    /// The hot key is bound already: a second registration is refused.
    AlreadyRegistered(HotKey),
    /// The hot key is not bound.
    NotRegistered(HotKey),
    /// No identifier outside the active set was found.
    IdentifiersExhausted,
    /// The identifier of a registration is in the active set already.
    IdentifierInUse(u32),
    /// The backend refused the binding.
    BackendRejected(HotKey),
    /// The dispatcher could not be reached, or did not answer.
    Disconnected,
}

/// A registration that the backend has yet to accept: the hot key, the
/// identifier chosen for it, and the trigger to bind.
pub struct Pending {
    pub hotkey: HotKey,
    pub id: u32,
    pub trigger: String,
}

/// The shortcuts bound in one backend session: `ids` is the active identifier
/// set, and `hotkeys[i]` is the hot key bound under `ids[i]`.
pub struct Registry {
    ids: Vec<u32>,
    hotkeys: Vec<HotKey>,
}

impl Registry {
    pub closed spec fn id_seq(&self) -> Seq<u32> {
        self.ids@
    }

    pub closed spec fn hotkey_seq(&self) -> Seq<HotKey> {
        self.hotkeys@
    }

    /// One identifier per hot key, and neither repeats.
    pub open spec fn wf(&self) -> bool {
        &&& self.id_seq().len() == self.hotkey_seq().len()
        &&& self.id_seq().no_duplicates()
        &&& self.hotkey_seq().no_duplicates()
    }

    /// The active identifier set.
    pub open spec fn active(&self) -> Set<u32> {
        self.id_seq().to_set()
    }

    pub open spec fn is_bound(&self, hotkey: HotKey) -> bool {
        self.hotkey_seq().contains(hotkey)
    }

    /// The event published when the backend reports `id` in `state`.
    pub open spec fn event_for(&self, id: u32, state: HotKeyState) -> Option<GlobalHotKeyEvent> {
        if self.active().contains(id) {
            Some(GlobalHotKeyEvent { id, state })
        } else {
            None
        }
    }

    /// The error with which a registration of `hotkey` is refused before any
    /// identifier is drawn, if it is.
    pub open spec fn register_refusal(&self, hotkey: HotKey) -> Option<Error> {
        if trigger_of(hotkey.mods, hotkey.key) is None {
            Some(Error::UnsupportedKey(hotkey))
        } else if self.is_bound(hotkey) {
            Some(Error::AlreadyRegistered(hotkey))
        } else {
            None
        }
    }

    pub fn new() -> (r: Registry)
        ensures
            r.wf(),
            r.id_seq().len() == 0,
            r.active() == Set::<u32>::empty(),
    {
        let r = Registry { ids: Vec::new(), hotkeys: Vec::new() };
        assert(r.active() =~= Set::<u32>::empty());
        r
    }

    pub fn len(&self) -> (r: usize)
        ensures
            r == self.id_seq().len(),
    {
        self.ids.len()
    }

    pub fn is_active_id(&self, id: u32) -> (r: bool)
        ensures
            r == self.active().contains(id),
    {
        contains_id(&self.ids, id)
    }

    pub fn is_registered(&self, hotkey: &HotKey) -> (r: bool)
        ensures
            r == self.is_bound(*hotkey),
    {
        let mut i: usize = 0;
        while i < self.hotkeys.len()
            invariant
                i <= self.hotkeys.len(),
                forall|j: int| 0 <= j < i ==> self.hotkeys@[j] != *hotkey,
            decreases self.hotkeys.len() - i,
        {
            if self.hotkeys[i] == *hotkey {
                assert(self.hotkeys@[i as int] == *hotkey);
                return true;
            }
            i = i + 1;
        }
        false
    }

    /// The first step of a registration, with the identifier taken from
    /// `draws`: the key must have a name, the hot key must not be bound, and
    /// one of `draws` must lie outside the active set.
    pub fn prepare_register_from(&self, hotkey: &HotKey, draws: &Vec<u32>) -> (r: Result<
        Pending,
        Error,
    >)
        requires
            self.wf(),
        ensures
            self.register_refusal(*hotkey) matches Some(e) ==> r == Err::<Pending, Error>(e),
            self.register_refusal(*hotkey) is None ==> (r is Ok
                <==> exists|i: int| 0 <= i < draws@.len() && !self.active().contains(draws@[i])),
            self.register_refusal(*hotkey) is None && r is Err ==> r == Err::<Pending, Error>(
                Error::IdentifiersExhausted,
            ),
            r matches Ok(p) ==> p.hotkey == *hotkey && p.trigger@ == trigger_of(
                hotkey.mods,
                hotkey.key,
            )->Some_0 && !self.active().contains(p.id),
            r matches Ok(p) ==> exists|i: int|
                0 <= i < draws@.len() && draws@[i] == p.id && forall|j: int|
                    0 <= j < i ==> self.active().contains(#[trigger] draws@[j]),
    {
        let trigger = match to_trigger(hotkey) {
            Some(t) => t,
            None => {
                return Err(Error::UnsupportedKey(*hotkey));
            },
        };
        if self.is_registered(hotkey) {
            return Err(Error::AlreadyRegistered(*hotkey));
        }
        match first_fresh(&self.ids, draws) {
            Some(id) => {
                assert forall|j: int| 0 <= j < draws@.len() && self.ids@.contains(#[trigger] draws@[j])
                    implies self.active().contains(draws@[j]) by {}
                Ok(Pending { hotkey: *hotkey, id, trigger })
            },
            None => {
                assert forall|i: int| 0 <= i < draws@.len() implies self.active().contains(
                    draws@[i],
                ) by {
                    assert(self.ids@.contains(draws@[i]));
                }
                Err(Error::IdentifiersExhausted)
            },
        }
    }

    /// The first step of a registration, with an identifier drawn at random:
    /// what the backend is then asked to bind.
    pub fn prepare_register(&self, hotkey: &HotKey) -> (r: Result<Pending, Error>)
        requires
            self.wf(),
        ensures
            self.register_refusal(*hotkey) matches Some(e) ==> r == Err::<Pending, Error>(e),
            self.register_refusal(*hotkey) is None && self.id_seq().len() == 0 ==> r is Ok,
            self.register_refusal(*hotkey) is None && r is Err ==> r == Err::<Pending, Error>(
                Error::IdentifiersExhausted,
            ),
            r matches Ok(p) ==> p.hotkey == *hotkey && p.trigger@ == trigger_of(
                hotkey.mods,
                hotkey.key,
            )->Some_0 && !self.active().contains(p.id),
    {
        let draws = random_draws(MAX_DRAWS);
        proof {
            if self.id_seq().len() == 0 {
                assert(!self.active().contains(draws@[0]));
            }
        }
        self.prepare_register_from(hotkey, &draws)
    }

    /// The second step of a registration, once the backend has answered:
    /// when it accepted, the binding joins the registry. A registration whose
    /// hot key was bound, or whose identifier was taken, in the meantime is
    /// refused.
    pub fn complete_register(&mut self, pending: Pending, accepted: bool) -> (r: Result<(), Error>)
        requires
            old(self).wf(),
        ensures
            final(self).wf(),
            old(self).is_bound(pending.hotkey) ==> r == Err::<(), Error>(
                Error::AlreadyRegistered(pending.hotkey),
            ),
            !old(self).is_bound(pending.hotkey) && old(self).active().contains(pending.id) ==> r
                == Err::<(), Error>(Error::IdentifierInUse(pending.id)),
            !old(self).is_bound(pending.hotkey) && !old(self).active().contains(pending.id)
                && !accepted ==> r == Err::<(), Error>(Error::BackendRejected(pending.hotkey)),
            r is Ok <==> accepted && !old(self).is_bound(pending.hotkey) && !old(
                self,
            ).active().contains(pending.id),
            r is Ok ==> final(self).id_seq() == old(self).id_seq().push(pending.id)
                && final(self).hotkey_seq() == old(self).hotkey_seq().push(pending.hotkey),
            r is Ok ==> final(self).active() == old(self).active().insert(pending.id)
                && final(self).is_bound(pending.hotkey),
            r is Err ==> final(self).id_seq() == old(self).id_seq() && final(self).hotkey_seq()
                == old(self).hotkey_seq(),
    {
        if self.is_registered(&pending.hotkey) {
            return Err(Error::AlreadyRegistered(pending.hotkey));
        }
        if self.is_active_id(pending.id) {
            return Err(Error::IdentifierInUse(pending.id));
        }
        if !accepted {
            return Err(Error::BackendRejected(pending.hotkey));
        }
        self.ids.push(pending.id);
        self.hotkeys.push(pending.hotkey);
        proof {
            assert(self.ids@.last() == pending.id);
            assert(self.hotkeys@.last() == pending.hotkey);
            old(self).ids@.lemma_push_to_set_commute(pending.id);
        }
        Ok(())
    }

    /// Position of `hotkey` in the registry, if it is bound.
    fn find(&self, hotkey: &HotKey) -> (r: Option<usize>)
        ensures
            r matches Some(i) ==> i < self.hotkey_seq().len() && self.hotkey_seq()[i as int]
                == *hotkey,
            r is None ==> !self.is_bound(*hotkey),
    {
        let mut i: usize = 0;
        while i < self.hotkeys.len()
            invariant
                i <= self.hotkeys.len(),
                forall|j: int| 0 <= j < i ==> self.hotkeys@[j] != *hotkey,
            decreases self.hotkeys.len() - i,
        {
            if self.hotkeys[i] == *hotkey {
                return Some(i);
            }
            i = i + 1;
        }
        None
    }

    /// Releases the binding of `hotkey` and hands back its identifier, which
    /// leaves the active set: its events are no longer published.
    pub fn unregister(&mut self, hotkey: &HotKey) -> (r: Result<u32, Error>)
        requires
            old(self).wf(),
        ensures
            final(self).wf(),
            trigger_of(hotkey.mods, hotkey.key) is None ==> r == Err::<u32, Error>(
                Error::UnsupportedKey(*hotkey),
            ),
            trigger_of(hotkey.mods, hotkey.key) is Some && !old(self).is_bound(*hotkey) ==> r
                == Err::<u32, Error>(Error::NotRegistered(*hotkey)),
            trigger_of(hotkey.mods, hotkey.key) is Some && old(self).is_bound(*hotkey) ==> r is Ok,
            r is Err ==> final(self).id_seq() == old(self).id_seq() && final(self).hotkey_seq()
                == old(self).hotkey_seq(),
            r matches Ok(id) ==> exists|i: int|
                0 <= i < old(self).id_seq().len() && old(self).id_seq()[i] == id && old(
                    self,
                ).hotkey_seq()[i] == *hotkey && final(self).id_seq() == old(self).id_seq().remove(
                    i,
                ) && final(self).hotkey_seq() == old(self).hotkey_seq().remove(i),
            r matches Ok(id) ==> final(self).active() == old(self).active().remove(id)
                && !final(self).active().contains(id) && !final(self).is_bound(*hotkey),
    {
        if to_trigger(hotkey).is_none() {
            return Err(Error::UnsupportedKey(*hotkey));
        }
        let i = match self.find(hotkey) {
            Some(i) => i,
            None => {
                return Err(Error::NotRegistered(*hotkey));
            },
        };
        let ghost old_ids = self.ids@;
        let ghost old_keys = self.hotkeys@;
        let id = self.ids.remove(i);
        self.hotkeys.remove(i);
        proof {
            old_ids.remove_ensures(i as int);
            old_keys.remove_ensures(i as int);
            assert(self.ids@ == old_ids.remove(i as int));
            assert(self.hotkeys@ == old_keys.remove(i as int));
            assert forall|a: int, b: int|
                0 <= a < self.ids@.len() && 0 <= b < self.ids@.len() && a != b implies self.ids@[a]
                != self.ids@[b] by {
                let a2 = if a < i { a } else { a + 1 };
                let b2 = if b < i { b } else { b + 1 };
                assert(self.ids@[a] == old_ids[a2]);
                assert(self.ids@[b] == old_ids[b2]);
            }
            assert forall|a: int, b: int|
                0 <= a < self.hotkeys@.len() && 0 <= b < self.hotkeys@.len() && a != b implies self.hotkeys@[a]
                != self.hotkeys@[b] by {
                let a2 = if a < i { a } else { a + 1 };
                let b2 = if b < i { b } else { b + 1 };
                assert(self.hotkeys@[a] == old_keys[a2]);
                assert(self.hotkeys@[b] == old_keys[b2]);
            }
            assert forall|x: u32| self.ids@.contains(x) <==> (old_ids.contains(x) && x != id) by {
                if self.ids@.contains(x) {
                    let k = choose|k: int| 0 <= k < self.ids@.len() && self.ids@[k] == x;
                    let k2 = if k < i { k } else { k + 1 };
                    assert(old_ids[k2] == x);
                }
                if old_ids.contains(x) && x != id {
                    let k = choose|k: int| 0 <= k < old_ids.len() && old_ids[k] == x;
                    if k < i {
                        assert(self.ids@[k] == x);
                    } else {
                        assert(k != i);
                        assert(self.ids@[k - 1] == x);
                    }
                }
            }
            assert(self.active() =~= old(self).active().remove(id));
            assert forall|k: int| 0 <= k < self.hotkeys@.len() implies self.hotkeys@[k] != *hotkey by {
                let k2 = if k < i { k } else { k + 1 };
                assert(old_keys[k2] == self.hotkeys@[k]);
            }
        }
        Ok(id)
    }

    /// The event to publish when the backend reports `id` pressed: none for an
    /// identifier outside the active set.
    pub fn on_activated(&self, id: u32) -> (r: Option<GlobalHotKeyEvent>)
        ensures
            r == self.event_for(id, HotKeyState::Pressed),
    {
        if self.is_active_id(id) {
            Some(GlobalHotKeyEvent { id, state: HotKeyState::Pressed })
        } else {
            None
        }
    }

    /// The event to publish when the backend reports `id` released: none for
    /// an identifier outside the active set.
    pub fn on_deactivated(&self, id: u32) -> (r: Option<GlobalHotKeyEvent>)
        ensures
            r == self.event_for(id, HotKeyState::Released),
    {
        if self.is_active_id(id) {
            Some(GlobalHotKeyEvent { id, state: HotKeyState::Released })
        } else {
            None
        }
    }

    /// Empties the registry at session teardown and hands back every
    /// identifier that was bound, in the order of binding.
    pub fn release_all(&mut self) -> (r: Vec<u32>)
        requires
            old(self).wf(),
        ensures
            final(self).wf(),
            r@ == old(self).id_seq(),
            final(self).id_seq().len() == 0,
            final(self).active() == Set::<u32>::empty(),
    {
        let ids = self.ids.clone();
        self.ids = Vec::new();
        self.hotkeys = Vec::new();
        assert(self.active() =~= Set::<u32>::empty());
        ids
    }
}

/// The failures among the results of a batch, each with its position.
pub open spec fn failures_of(results: Seq<Result<(), Error>>) -> Seq<(usize, Error)>
    decreases results.len(),
{
    if results.len() == 0 {
        Seq::empty()
    } else {
        let rest = failures_of(results.drop_last());
        match results.last() {
            Ok(_) => rest,
            Err(e) => rest.push(((results.len() - 1) as usize, e)),
        }
    }
}

/// Every failure of a batch, in order, with its position: a batch reports
/// each element's outcome, not only the last one.
pub fn collect_failures(results: &Vec<Result<(), Error>>) -> (r: Vec<(usize, Error)>)
    ensures
        r@ == failures_of(results@),
{
    let mut failures: Vec<(usize, Error)> = Vec::new();
    let mut i: usize = 0;
    while i < results.len()
        invariant
            i <= results.len(),
            failures@ == failures_of(results@.subrange(0, i as int)),
        decreases results.len() - i,
    {
        assert(results@.subrange(0, i as int + 1).drop_last() =~= results@.subrange(0, i as int));
        match &results[i] {
            Ok(_) => {},
            Err(e) => {
                failures.push((i, *e));
            },
        }
        i = i + 1;
    }
    assert(results@.subrange(0, results@.len() as int) =~= results@);
    failures
}

/// A batch succeeds when none of its elements failed; otherwise it fails
/// with the list of every failure.
pub fn batch_outcome(results: &Vec<Result<(), Error>>) -> (r: Result<(), Vec<(usize, Error)>>)
    ensures
        r is Ok <==> failures_of(results@).len() == 0,
        r matches Err(f) ==> f@ == failures_of(results@),
{
    let failures = collect_failures(results);
    if failures.len() == 0 {
        Ok(())
    } else {
        Err(failures)
    }
}

/// Registering a hot key that is bound already is refused: once a
/// registration of a named key has been accepted, the hot key is bound, and a
/// second registration of it fails with `AlreadyRegistered` (at either step)
/// until it is unregistered; nothing is added for it.
pub proof fn law_second_registration_refused(before: Registry, after: Registry, hotkey: HotKey, id: u32)
    requires
        trigger_of(hotkey.mods, hotkey.key) is Some,
        after.id_seq() == before.id_seq().push(id),
        after.hotkey_seq() == before.hotkey_seq().push(hotkey),
    ensures
        after.is_bound(hotkey),
        after.register_refusal(hotkey) == Some(Error::AlreadyRegistered(hotkey)),
{
    assert(after.hotkey_seq().last() == hotkey);
}

/// Once a binding is unregistered, its identifier is out of the active set,
/// and a later activation or deactivation of it publishes no event; every
/// other identifier stays active and its events are still published.
pub proof fn law_unregistered_id_is_silent(before: Registry, after: Registry, id: u32)
    requires
        after.active() == before.active().remove(id),
    ensures
        !after.active().contains(id),
        after.event_for(id, HotKeyState::Pressed) is None,
        after.event_for(id, HotKeyState::Released) is None,
        forall|x: u32|
            x != id && #[trigger] before.active().contains(x) ==> after.active().contains(x)
                && after.event_for(x, HotKeyState::Pressed) == Some(
                GlobalHotKeyEvent { id: x, state: HotKeyState::Pressed },
            ),
{
}

} // verus!
