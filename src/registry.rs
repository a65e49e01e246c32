use vstd::prelude::*;

verus! {

/// A second registration was attempted; the first one stays in place.
#[derive(Clone, Copy, PartialEq, Eq, Structural, Debug, Hash)]
pub struct AlreadyRegistered;

/// A write-once slot for the handle through which any thread can post events
/// into the main loop. The first registration wins; later ones fail and leave
/// the slot as it was.
pub struct EventProxyRegistry<T> {
    slot: Option<T>,
}

/// What the slot holds after a registration attempt on `slot`.
pub open spec fn registered_after<T>(slot: Option<T>, proxy: T) -> Option<T> {
    match slot {
        Some(first) => Some(first),
        None => Some(proxy),
    }
}

/// The slot after registration attempts with each of `proxies`, in order.
pub open spec fn register_all<T>(slot: Option<T>, proxies: Seq<T>) -> Option<T>
    decreases proxies.len(),
{
    if proxies.len() == 0 {
        slot
    } else {
        registered_after(register_all(slot, proxies.drop_last()), proxies.last())
    }
}

impl<T> View for EventProxyRegistry<T> {
    type V = Option<T>;

    closed spec fn view(&self) -> Option<T> {
        self.slot
    }
}

impl<T> EventProxyRegistry<T> {
    /// An empty registry.
    pub fn new() -> (r: Self)
        ensures
            r@ == None::<T>,
    {
        EventProxyRegistry { slot: None }
    }

    /// Registers `proxy` if nothing is registered yet; otherwise fails and
    /// changes nothing.
    pub fn register(&mut self, proxy: T) -> (r: Result<(), AlreadyRegistered>)
        ensures
            r is Ok <==> old(self)@ is None,
            final(self)@ == registered_after(old(self)@, proxy),
    {
        if self.slot.is_some() {
            Err(AlreadyRegistered)
        } else {
            self.slot = Some(proxy);
            Ok(())
        }
    }

    /// The registered handle, if any.
    pub fn get(&self) -> (r: Option<&T>)
        ensures
            r is Some <==> self@ is Some,
            r is Some ==> self@ == Some(*r.unwrap()),
    {
        match &self.slot {
            Some(proxy) => Some(proxy),
            None => None,
        }
    }

    /// Whether a handle has been registered.
    pub fn is_registered(&self) -> (r: bool)
        ensures
            r == self@ is Some,
    {
        self.slot.is_some()
    }
}

/// Starting from an empty slot, the first of any number of registration
/// attempts is the one that stays, and every later attempt fails.
pub proof fn lemma_first_registration_wins<T>(proxies: Seq<T>)
    requires
        proxies.len() > 0,
    ensures
        register_all(None, proxies) == Some(proxies[0]),
        forall|i: int|
            1 <= i < proxies.len() ==> #[trigger] register_all(None, proxies.subrange(0, i)) is Some,
    decreases proxies.len(),
{
    if proxies.len() > 1 {
        let prefix = proxies.drop_last();
        lemma_first_registration_wins(prefix);
        assert(prefix[0] == proxies[0]);
        assert forall|i: int| 1 <= i < proxies.len() implies #[trigger] register_all(
            None,
            proxies.subrange(0, i),
        ) is Some by {
            if i < prefix.len() {
                assert(proxies.subrange(0, i) =~= prefix.subrange(0, i));
            } else {
                assert(proxies.subrange(0, i) =~= prefix);
            }
        }
    } else {
        assert(proxies.drop_last() =~= Seq::<T>::empty());
        assert(register_all(None, proxies.drop_last()) == None::<T>);
    }
}

} // verus!
