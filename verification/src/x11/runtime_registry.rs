//! Where the application leaves its runtime for those who forward X11. The
//! registry refers to the runtime that was installed last, and does not keep it
//! alive.

use vstd::prelude::*;

use crate::x11::error::{X11ErrorView, X11ForwardingError, X11Result};
use crate::x11::runtime;
use crate::x11::runtime::installed_runtime;

verus! {

/// The registry. It holds a reference to the runtime that was installed last.
pub struct RuntimeRegistry<W> {
    latest: Option<W>,
}

impl<W> View for RuntimeRegistry<W> {
    type V = Option<W>;

    closed spec fn view(&self) -> Option<W> {
        self.latest
    }
}

impl<W> RuntimeRegistry<W> {
    /// A registry in which nothing was installed.
    pub fn new() -> (registry: Self)
        ensures
            registry@ is None,
    {
        RuntimeRegistry { latest: None }
    }

    /// Installs a runtime in place of any other.
    pub fn install(&mut self, reference: W)
        ensures
            final(self)@ == Some(reference),
    {
        self.latest = Some(reference);
    }

    /// The runtime that was installed last. `upgrade` follows a reference, and
    /// gives nothing if the owner of the runtime has let it go. Only the latest
    /// reference is followed.
    pub fn installed<R, F: Fn(&W) -> Option<R>>(&self, upgrade: F) -> (result: X11Result<R>)
        requires
            self@ matches Some(reference) ==> call_requires(upgrade, (&reference,)),
        ensures
            match self@ {
                None => (result matches Err(error) && error@ == runtime::owner_not_installed()),
                Some(reference) => match result {
                    Ok(owner) => call_ensures(upgrade, (&reference,), Some(owner)),
                    Err(error) => error@ == runtime::owner_not_installed() && call_ensures(
                        upgrade,
                        (&reference,),
                        None,
                    ),
                },
            },
            result matches Err(error) ==> {
                &&& error matches X11ForwardingError::ManagedRuntimeUnavailable(text)
                &&& text@ == "the application runtime owner is not installed"@
            },
    {
        match &self.latest {
            Some(reference) => installed_runtime(upgrade(reference)),
            None => installed_runtime(None),
        }
    }
}

/// Something that happens to the runtimes of an application.
pub enum OwnerEvent<W> {
    /// A runtime is made and installed.
    Installed(W),
    /// The last owner of a runtime lets it go.
    Dropped(W),
}

/// The latest reference, and the runtimes that are alive.
#[verifier::reject_recursive_types(W)]
pub struct OwnersView<W> {
    pub latest: Option<W>,
    pub alive: Set<W>,
}

/// What an event makes of the registry and the runtimes: letting a runtime go
/// leaves the registry as it is.
pub open spec fn after_event<W>(owners: OwnersView<W>, event: OwnerEvent<W>) -> OwnersView<W> {
    match event {
        OwnerEvent::Installed(reference) => OwnersView {
            latest: Some(reference),
            alive: owners.alive.insert(reference),
        },
        OwnerEvent::Dropped(reference) => OwnersView {
            latest: owners.latest,
            alive: owners.alive.remove(reference),
        },
    }
}

/// The registry and the runtimes after a series of events.
pub open spec fn after_events<W>(events: Seq<OwnerEvent<W>>) -> OwnersView<W>
    decreases events.len(),
{
    if events.len() == 0 {
        OwnersView { latest: None, alive: Set::empty() }
    } else {
        after_event(after_events(events.drop_last()), events.last())
    }
}

/// What a caller who asks for the runtime is given.
pub open spec fn runtime_found<W>(owners: OwnersView<W>) -> Result<W, X11ErrorView> {
    match owners.latest {
        Some(reference) => if owners.alive.contains(reference) {
            Ok(reference)
        } else {
            Err(runtime::owner_not_installed())
        },
        None => Err(runtime::owner_not_installed()),
    }
}

/// Whether an event is the last installation of a series.
pub open spec fn is_last_install<W>(events: Seq<OwnerEvent<W>>, index: int) -> bool {
    &&& 0 <= index < events.len()
    &&& events[index] is Installed
    &&& forall|i: int| index < i < events.len() ==> !((#[trigger] events[i]) is Installed)
}

/// Whether a runtime is let go at some event behind another.
pub open spec fn is_dropped_behind<W>(
    events: Seq<OwnerEvent<W>>,
    index: int,
    reference: W,
) -> bool {
    exists|i: int|
        index < i < events.len() && #[trigger] events[i] == OwnerEvent::Dropped(reference)
}

/// Whatever was installed and let go, in whatever order: a caller is given the
/// runtime that was installed last, unless that was let go since. An earlier
/// runtime is never given, even while it is alive.
pub proof fn lemma_latest_install_counts<W>(events: Seq<OwnerEvent<W>>)
    ensures
        (forall|i: int| 0 <= i < events.len() ==> !((#[trigger] events[i]) is Installed))
            ==> runtime_found(after_events(events)) == Err::<W, X11ErrorView>(
            runtime::owner_not_installed(),
        ),
        forall|k: int| #[trigger]
            is_last_install(events, k) ==> {
                let reference = events[k]->Installed_0;
                runtime_found(after_events(events)) == if is_dropped_behind(events, k, reference) {
                    Err::<W, X11ErrorView>(runtime::owner_not_installed())
                } else {
                    Ok::<W, X11ErrorView>(reference)
                }
            },
{
    if forall|i: int| 0 <= i < events.len() ==> !((#[trigger] events[i]) is Installed) {
        lemma_nothing_installed(events);
    }
    assert forall|k: int| #[trigger] is_last_install(events, k) implies {
        let reference = events[k]->Installed_0;
        runtime_found(after_events(events)) == if is_dropped_behind(events, k, reference) {
            Err::<W, X11ErrorView>(runtime::owner_not_installed())
        } else {
            Ok::<W, X11ErrorView>(reference)
        }
    } by {
        lemma_last_install(events, k);
    }
}

/// Without an installation the registry is empty.
proof fn lemma_nothing_installed<W>(events: Seq<OwnerEvent<W>>)
    requires
        forall|i: int| 0 <= i < events.len() ==> !((#[trigger] events[i]) is Installed),
    ensures
        after_events(events).latest is None,
    decreases events.len(),
{
    if events.len() > 0 {
        let before = events.drop_last();
        assert forall|i: int| 0 <= i < before.len() implies !((
        #[trigger] before[i]) is Installed) by {
            assert(before[i] == events[i]);
        }
        lemma_nothing_installed(before);
        assert(events[events.len() - 1] !is Installed);
    }
}

/// Behind the last installation the registry refers to its runtime, which is
/// alive unless it was let go.
proof fn lemma_last_install<W>(events: Seq<OwnerEvent<W>>, index: int)
    requires
        is_last_install(events, index),
    ensures
        after_events(events).latest == Some(events[index]->Installed_0),
        after_events(events).alive.contains(events[index]->Installed_0) <==> !is_dropped_behind(
            events,
            index,
            events[index]->Installed_0,
        ),
    decreases events.len(),
{
    let reference = events[index]->Installed_0;
    let before = events.drop_last();
    let last = events.len() - 1;
    if index < last {
        assert(before[index] == events[index]);
        assert forall|i: int| index < i < before.len() implies !((
        #[trigger] before[i]) is Installed) by {
            assert(before[i] == events[i]);
        }
        lemma_last_install(before, index);
        assert(events[last] !is Installed);
        if is_dropped_behind(before, index, reference) {
            let i = choose|i: int|
                index < i < before.len() && #[trigger] before[i] == OwnerEvent::Dropped(reference);
            assert(events[i] == OwnerEvent::Dropped(reference));
        }
        if is_dropped_behind(events, index, reference) && events[last] != OwnerEvent::Dropped(
            reference,
        ) {
            let i = choose|i: int|
                index < i < events.len() && #[trigger] events[i] == OwnerEvent::Dropped(reference);
            assert(before[i] == OwnerEvent::Dropped(reference));
        }
    }
}

} // verus!
