use vstd::prelude::*;

verus! {

/// What the library knows of a native log handle: the handle's value and
/// whether it is still held, that is, not yet released.
pub struct HandleState {
    pub raw: usize,
    pub live: bool,
}

/// The native handle could not be created: the backend returned a null handle.
#[derive(Clone, Copy, Debug, PartialEq, Eq, Structural)]
pub struct CreateError;

/// A native log handle, owned by one bridge and released at most once.
pub struct OsLog {
    raw: usize,
    live: bool,
}

impl View for OsLog {
    type V = HandleState;

    closed spec fn view(&self) -> HandleState {
        HandleState { raw: self.raw, live: self.live }
    }
}

/// The state of a handle after a release request.
pub open spec fn after_release(s: HandleState) -> HandleState {
    HandleState { raw: s.raw, live: false }
}

/// The handle that a release request hands to the native release call, if any:
/// the handle itself while it is held, nothing once it has been released.
pub open spec fn release_call(s: HandleState) -> Option<usize> {
    if s.live {
        Some(s.raw)
    } else {
        None
    }
}

impl OsLog {
    /// Takes ownership of the handle that the backend returned for a new log
    /// object. A null handle means that the backend could not create one.
    pub fn new(raw: usize) -> (r: Result<OsLog, CreateError>)
        ensures
            r is Ok <==> raw != 0,
            r matches Ok(h) ==> h@ == (HandleState { raw, live: true }),
    {
        if raw == 0 {
            Err(CreateError)
        } else {
            Ok(OsLog { raw, live: true })
        }
    }

    /// The native handle, while it has not been released.
    pub fn handle(&self) -> (r: Option<usize>)
        ensures
            r == release_call(self@),
    {
        if self.live {
            Some(self.raw)
        } else {
            None
        }
    }

    /// Whether the handle is still held.
    pub fn is_live(&self) -> (r: bool)
        ensures
            r == self@.live,
    {
        self.live
    }

    /// Gives the handle up. The first call returns the handle, which the caller
    /// must pass to the native release call; every later call returns `None`.
    pub fn release(&mut self) -> (r: Option<usize>)
        ensures
            r == release_call(old(self)@),
            final(self)@ == after_release(old(self)@),
    {
        if self.live {
            self.live = false;
            Some(self.raw)
        } else {
            None
        }
    }
}

/// The native release calls that one release request on each of `hs`, in
/// order, gives rise to.
pub open spec fn release_calls(hs: Seq<HandleState>) -> Seq<usize>
    decreases hs.len(),
{
    if hs.len() == 0 {
        Seq::empty()
    } else {
        let rest = release_calls(hs.drop_last());
        match release_call(hs.last()) {
            Some(raw) => rest.push(raw),
            None => rest,
        }
    }
}

proof fn lemma_release_calls_of_live(hs: Seq<HandleState>)
    requires
        forall|i: int| 0 <= i < hs.len() ==> #[trigger] hs[i].live,
    ensures
        release_calls(hs) == hs.map_values(|s: HandleState| s.raw),
    decreases hs.len(),
{
    if hs.len() > 0 {
        let init = hs.drop_last();
        assert forall|i: int| 0 <= i < init.len() implies #[trigger] init[i].live by {
            assert(init[i] == hs[i]);
        }
        lemma_release_calls_of_live(init);
        assert(release_calls(hs) =~= hs.map_values(|s: HandleState| s.raw));
    }
}

proof fn lemma_release_calls_of_released(hs: Seq<HandleState>)
    requires
        forall|i: int| 0 <= i < hs.len() ==> !(#[trigger] hs[i].live),
    ensures
        release_calls(hs) == Seq::<usize>::empty(),
    decreases hs.len(),
{
    if hs.len() > 0 {
        let init = hs.drop_last();
        assert forall|i: int| 0 <= i < init.len() implies !(#[trigger] init[i].live) by {
            assert(init[i] == hs[i]);
        }
        lemma_release_calls_of_released(init);
    }
}

/// Tearing down bridges releases each handle exactly once: for `n` freshly
/// created handles, one release request each makes exactly `n` native release
/// calls, one per handle and in order, each on a handle that was still held
/// (so the calls are on distinct handles whenever the handles are distinct);
/// a further release request on each of them makes no native call at all.
pub proof fn lemma_each_handle_released_once(hs: Seq<HandleState>)
    requires
        forall|i: int| 0 <= i < hs.len() ==> #[trigger] hs[i].live,
    ensures
        release_calls(hs).len() == hs.len(),
        forall|i: int|
            0 <= i < hs.len() ==> #[trigger] release_calls(hs)[i] == hs[i].raw
                && release_call(hs[i]) == Some(hs[i].raw),
        (forall|i: int, j: int| 0 <= i < j < hs.len() ==> hs[i].raw != hs[j].raw)
            ==> release_calls(hs).no_duplicates(),
        release_calls(hs.map_values(|s: HandleState| after_release(s))) == Seq::<usize>::empty(),
{
    lemma_release_calls_of_live(hs);
    let after = hs.map_values(|s: HandleState| after_release(s));
    assert forall|i: int| 0 <= i < after.len() implies !(#[trigger] after[i].live) by {}
    lemma_release_calls_of_released(after);
    let calls = release_calls(hs);
    if forall|i: int, j: int| 0 <= i < j < hs.len() ==> hs[i].raw != hs[j].raw {
        assert forall|i: int, j: int|
            0 <= i < calls.len() && 0 <= j < calls.len() && i != j implies calls[i] != calls[j] by {
            if i < j {
                assert(hs[i].raw != hs[j].raw);
            } else {
                assert(hs[j].raw != hs[i].raw);
            }
        }
    }
}

} // verus!
