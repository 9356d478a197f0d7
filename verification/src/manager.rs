//! The provider manager: the registry and supervisor of running provider
//! instances. It maps each configuration fingerprint to at most one
//! running instance, tracks the subscriber identities per fingerprint,
//! creates an instance on its first subscriber, tears it down on the last
//! unsubscribe, and decides for every refresh result whether and to whom
//! an emission is fanned out, de-duplicating consecutive identical
//! payloads.
//!
//! The manager is the decision core: the surrounding process performs the
//! spawning, the stop signalling and the channel sends that its returned
//! actions call for.

use vstd::prelude::*;

use crate::config::{ProviderConfig, ThreadingType};
use crate::errors::{ManagerError, RefreshError};
use crate::outputs::{ProviderOutput, ProviderOutputView};

verus! {

/// What a successful `create` asks of the caller: a freshly registered
/// instance whose loop must now be spawned under the given runtime model,
/// or an existing instance that merely gained a subscriber.
#[derive(Debug, Clone, Copy, PartialEq, Eq, Structural)]
pub enum CreateAction {
    Spawned(ThreadingType),
    Subscribed,
}

/// What a successful `destroy` asks of the caller: the subscriber was
/// removed, or it was the last one and the instance's loop must now be
/// stopped and joined.
#[derive(Debug, Clone, Copy, PartialEq, Eq, Structural)]
pub enum DestroyAction {
    Removed,
    Stopped,
}

/// What the manager decides for one refresh result: fan the new output
/// out to the listed subscribers, suppress it as a duplicate, or retain
/// the previous output after a transient refresh failure.
#[derive(Debug, Clone)]
pub enum EmitDecision {
    Emit(Vec<u64>),
    Suppressed,
    Retained,
}

/// Mathematical view of `EmitDecision`.
pub enum EmitDecisionView {
    Emit(Seq<u64>),
    Suppressed,
    Retained,
}

impl View for EmitDecision {
    type V = EmitDecisionView;

    open spec fn view(&self) -> EmitDecisionView {
        match self {
            EmitDecision::Emit(subs) => EmitDecisionView::Emit(subs@),
            EmitDecision::Suppressed => EmitDecisionView::Suppressed,
            EmitDecision::Retained => EmitDecisionView::Retained,
        }
    }
}

/// The manager's handle to one running provider instance: its immutable
/// configuration, its runtime-model tag, its current subscriber set, and
/// the last emitted output, kept for de-duplication.
#[derive(Debug)]
pub struct ProviderRef {
    fingerprint: u64,
    config: ProviderConfig,
    threading_type: ThreadingType,
    subscribers: Vec<u64>,
    last_emitted: Option<ProviderOutput>,
}

/// Mathematical view of `ProviderRef`.
pub struct ProviderRefView {
    pub config: ProviderConfig,
    pub threading_type: ThreadingType,
    pub subscribers: Seq<u64>,
    pub last_emitted: Option<ProviderOutputView>,
}

impl View for ProviderRef {
    type V = ProviderRefView;

    closed spec fn view(&self) -> ProviderRefView {
        ProviderRefView {
            config: self.config,
            threading_type: self.threading_type,
            subscribers: self.subscribers@,
            last_emitted: match self.last_emitted {
                Some(o) => Some(o@),
                None => None,
            },
        }
    }
}

/// Whether a subscriber list holds no identity twice.
pub open spec fn distinct_ids(s: Seq<u64>) -> bool {
    forall|i: int, j: int| 0 <= i < j < s.len() ==> s[i] != s[j]
}

/// Well-formedness of one registered handle: a valid configuration, the
/// runtime tag intrinsic to its kind, and a non-empty, duplicate-free
/// subscriber set — an instance is registered only while someone
/// subscribes to it.
pub open spec fn ref_view_wf(rv: ProviderRefView) -> bool {
    &&& rv.config.is_valid()
    &&& rv.threading_type == rv.config.spec_kind().spec_threading_type()
    &&& rv.subscribers.len() >= 1
    &&& distinct_ids(rv.subscribers)
}

/// A subscriber set grown by one identity: unchanged when the identity is
/// already present, appended otherwise.
pub open spec fn sub_added(s: Seq<u64>, id: u64) -> Seq<u64> {
    if s.contains(id) {
        s
    } else {
        s.push(id)
    }
}

/// The index of the first occurrence of `id` in `s`, or the length of `s`
/// if it does not occur.
pub open spec fn id_first_index(s: Seq<u64>, id: u64) -> int
    decreases s.len(),
{
    if s.len() == 0 {
        0
    } else if s[0] == id {
        0
    } else {
        1 + id_first_index(s.drop_first(), id)
    }
}

/// A subscriber set with the first occurrence of one identity removed.
pub open spec fn sub_removed(s: Seq<u64>, id: u64) -> Seq<u64> {
    s.remove(id_first_index(s, id))
}

/// The handle after a subscriber was added.
pub open spec fn ref_with_sub_added(rv: ProviderRefView, id: u64) -> ProviderRefView {
    ProviderRefView { subscribers: sub_added(rv.subscribers, id), ..rv }
}

/// The handle after a subscriber was removed.
pub open spec fn ref_with_sub_removed(rv: ProviderRefView, id: u64) -> ProviderRefView {
    ProviderRefView { subscribers: sub_removed(rv.subscribers, id), ..rv }
}

/// The handle after an output was recorded as last emitted.
pub open spec fn ref_with_last(rv: ProviderRefView, out: ProviderOutputView) -> ProviderRefView {
    ProviderRefView { last_emitted: Some(out), ..rv }
}

/// A freshly registered handle: the configuration's runtime tag, one
/// subscriber, and no output emitted yet.
pub open spec fn fresh_ref_view(config: ProviderConfig, id: u64) -> ProviderRefView {
    ProviderRefView {
        config,
        threading_type: config.spec_kind().spec_threading_type(),
        subscribers: seq![id],
        last_emitted: None,
    }
}

/// The registry a sequence of handles denotes: each handle under its
/// fingerprint.
spec fn refs_map(s: Seq<ProviderRef>) -> Map<u64, ProviderRefView>
    decreases s.len(),
{
    if s.len() == 0 {
        Map::empty()
    } else {
        refs_map(s.drop_last()).insert(s.last().fingerprint, s.last()@)
    }
}

/// Whether no two handles share a fingerprint.
spec fn distinct_fps(s: Seq<ProviderRef>) -> bool {
    forall|i: int, j: int| 0 <= i < j < s.len() ==> s[i].fingerprint != s[j].fingerprint
}

/// The registry/supervisor: at most one running provider instance per
/// configuration fingerprint.
#[derive(Debug)]
pub struct ProviderManager {
    refs: Vec<ProviderRef>,
}

impl View for ProviderManager {
    type V = Map<u64, ProviderRefView>;

    closed spec fn view(&self) -> Map<u64, ProviderRefView> {
        refs_map(self.refs@)
    }
}

/// A fingerprint is in the denoted registry exactly when some handle
/// carries it.
proof fn lemma_rm_contains(s: Seq<ProviderRef>, fp: u64)
    ensures
        refs_map(s).contains_key(fp) <==> exists|i: int|
            0 <= i < s.len() && #[trigger] s[i].fingerprint == fp,
    decreases s.len(),
{
    if s.len() > 0 {
        lemma_rm_contains(s.drop_last(), fp);
        if s.last().fingerprint == fp {
            assert(s[s.len() - 1].fingerprint == fp);
        } else {
            if refs_map(s).contains_key(fp) {
                let i = choose|i: int|
                    0 <= i < s.drop_last().len() && #[trigger] s.drop_last()[i].fingerprint == fp;
                assert(s[i].fingerprint == fp);
            }
            if exists|i: int| 0 <= i < s.len() && #[trigger] s[i].fingerprint == fp {
                let i = choose|i: int| 0 <= i < s.len() && #[trigger] s[i].fingerprint == fp;
                assert(i < s.len() - 1);
                assert(s.drop_last()[i].fingerprint == fp);
            }
        }
    }
}

/// With distinct fingerprints, each handle is what the denoted registry
/// holds under its fingerprint.
proof fn lemma_rm_index(s: Seq<ProviderRef>, i: int)
    requires
        distinct_fps(s),
        0 <= i < s.len(),
    ensures
        refs_map(s).contains_key(s[i].fingerprint),
        refs_map(s)[s[i].fingerprint] == s[i]@,
    decreases s.len(),
{
    if i == s.len() - 1 {
    } else {
        assert(distinct_fps(s.drop_last()));
        assert(s.drop_last()[i] == s[i]);
        lemma_rm_index(s.drop_last(), i);
        assert(s[i].fingerprint != s.last().fingerprint);
    }
}

/// Appending a handle inserts it into the denoted registry.
proof fn lemma_rm_push(s: Seq<ProviderRef>, r: ProviderRef)
    ensures
        refs_map(s.push(r)) == refs_map(s).insert(r.fingerprint, r@),
{
    assert(s.push(r).drop_last() =~= s);
    assert(s.push(r).last() == r);
}

/// Replacing the handle at one position, fingerprint unchanged,
/// re-inserts it into the denoted registry.
proof fn lemma_rm_update(s: Seq<ProviderRef>, i: int, r: ProviderRef)
    requires
        distinct_fps(s),
        0 <= i < s.len(),
        r.fingerprint == s[i].fingerprint,
    ensures
        refs_map(s.update(i, r)) == refs_map(s).insert(r.fingerprint, r@),
    decreases s.len(),
{
    let t = s.update(i, r);
    let fp = r.fingerprint;
    if i == s.len() - 1 {
        assert(t.drop_last() =~= s.drop_last());
        assert(t.last() == r);
        assert(refs_map(s.drop_last()).insert(fp, s.last()@).insert(fp, r@) =~= refs_map(
            s.drop_last(),
        ).insert(fp, r@));
    } else {
        assert(distinct_fps(s.drop_last()));
        assert(s.drop_last()[i] == s[i]);
        lemma_rm_update(s.drop_last(), i, r);
        assert(t.drop_last() =~= s.drop_last().update(i, r));
        assert(t.last() == s.last());
        assert(fp != s.last().fingerprint);
        assert(refs_map(s.drop_last()).insert(fp, r@).insert(s.last().fingerprint, s.last()@)
            =~= refs_map(s.drop_last()).insert(s.last().fingerprint, s.last()@).insert(fp, r@));
    }
}

/// Removing the handle at one position removes its fingerprint from the
/// denoted registry.
proof fn lemma_rm_remove(s: Seq<ProviderRef>, i: int)
    requires
        distinct_fps(s),
        0 <= i < s.len(),
    ensures
        refs_map(s.remove(i)) == refs_map(s).remove(s[i].fingerprint),
    decreases s.len(),
{
    let t = s.remove(i);
    let fp = s[i].fingerprint;
    if i == s.len() - 1 {
        assert(t =~= s.drop_last());
        lemma_rm_contains(s.drop_last(), fp);
        assert(forall|j: int|
            0 <= j < s.drop_last().len() ==> #[trigger] s.drop_last()[j].fingerprint != fp);
        assert(!refs_map(s.drop_last()).contains_key(fp));
        assert(refs_map(s.drop_last()).insert(fp, s.last()@).remove(fp) =~= refs_map(
            s.drop_last(),
        ));
    } else {
        assert(distinct_fps(s.drop_last()));
        assert(s.drop_last()[i] == s[i]);
        lemma_rm_remove(s.drop_last(), i);
        assert(t.drop_last() =~= s.drop_last().remove(i));
        assert(t.last() == s.last());
        assert(fp != s.last().fingerprint);
        assert(refs_map(s.drop_last()).remove(fp).insert(s.last().fingerprint, s.last()@)
            =~= refs_map(s.drop_last()).insert(s.last().fingerprint, s.last()@).remove(fp));
    }
}

/// Any index with the first-occurrence properties is `id_first_index`.
pub proof fn lemma_id_first_index_unique(s: Seq<u64>, id: u64, i: int)
    requires
        0 <= i <= s.len(),
        forall|j: int| 0 <= j < i ==> s[j] != id,
        i < s.len() ==> s[i] == id,
    ensures
        id_first_index(s, id) == i,
    decreases s.len(),
{
    if s.len() > 0 && s[0] != id {
        assert(i >= 1);
        lemma_id_first_index_unique(s.drop_first(), id, i - 1);
    }
}

/// What one `create` call does to the registry. An existing instance for
/// the fingerprint only gains the subscriber; otherwise a valid
/// configuration registers a fresh instance whose loop is to be spawned,
/// and an invalid one is rejected before anything is registered.
pub open spec fn create_transition(
    pre: Map<u64, ProviderRefView>,
    post: Map<u64, ProviderRefView>,
    fp: u64,
    config: ProviderConfig,
    id: u64,
    r: Result<CreateAction, ManagerError>,
) -> bool {
    if pre.contains_key(fp) {
        &&& r == Ok::<CreateAction, ManagerError>(CreateAction::Subscribed)
        &&& post == pre.insert(fp, ref_with_sub_added(pre[fp], id))
    } else if !config.is_valid() {
        &&& r == Err::<CreateAction, ManagerError>(ManagerError::ConfigError)
        &&& post == pre
    } else {
        &&& r == Ok::<CreateAction, ManagerError>(
            CreateAction::Spawned(config.spec_kind().spec_threading_type()),
        )
        &&& post == pre.insert(fp, fresh_ref_view(config, id))
    }
}

/// What one `destroy` call does to the registry. An unknown fingerprint
/// or subscriber is an error and changes nothing; the last subscriber
/// removes the whole instance, to be stopped; any other subscriber just
/// leaves the set.
pub open spec fn destroy_transition(
    pre: Map<u64, ProviderRefView>,
    post: Map<u64, ProviderRefView>,
    fp: u64,
    id: u64,
    r: Result<DestroyAction, ManagerError>,
) -> bool {
    if !pre.contains_key(fp) || !pre[fp].subscribers.contains(id) {
        &&& r == Err::<DestroyAction, ManagerError>(ManagerError::NotFoundError)
        &&& post == pre
    } else if pre[fp].subscribers.len() == 1 {
        &&& r == Ok::<DestroyAction, ManagerError>(DestroyAction::Stopped)
        &&& post == pre.remove(fp)
    } else {
        &&& r == Ok::<DestroyAction, ManagerError>(DestroyAction::Removed)
        &&& post == pre.insert(fp, ref_with_sub_removed(pre[fp], id))
    }
}

/// What one refresh result does to the registry and to the emission. A
/// failed refresh retains the previous output; a duplicate of the last
/// output of a de-duplicating kind is suppressed; any other output is
/// recorded and fanned out to exactly the current subscribers.
pub open spec fn refresh_transition(
    pre: Map<u64, ProviderRefView>,
    post: Map<u64, ProviderRefView>,
    fp: u64,
    result: Result<ProviderOutputView, RefreshError>,
    r: Result<EmitDecisionView, ManagerError>,
) -> bool {
    if !pre.contains_key(fp) {
        &&& r == Err::<EmitDecisionView, ManagerError>(ManagerError::NotFoundError)
        &&& post == pre
    } else {
        match result {
            Err(_) => {
                &&& r == Ok::<EmitDecisionView, ManagerError>(EmitDecisionView::Retained)
                &&& post == pre
            },
            Ok(out) => {
                if pre[fp].config.spec_kind().spec_dedup_enabled() && pre[fp].last_emitted == Some(
                    out,
                ) {
                    &&& r == Ok::<EmitDecisionView, ManagerError>(EmitDecisionView::Suppressed)
                    &&& post == pre
                } else {
                    &&& r == Ok::<EmitDecisionView, ManagerError>(
                        EmitDecisionView::Emit(pre[fp].subscribers),
                    )
                    &&& post == pre.insert(fp, ref_with_last(pre[fp], out))
                }
            },
        }
    }
}

impl ProviderManager {
    /// Well-formedness of the registry: every handle is well-formed and
    /// no two handles share a fingerprint.
    pub closed spec fn wf(self) -> bool {
        &&& distinct_fps(self.refs@)
        &&& forall|i: int| 0 <= i < self.refs@.len() ==> ref_view_wf(#[trigger] self.refs@[i]@)
    }

    /// Every registered handle of a well-formed manager is well-formed;
    /// in particular its subscriber set is non-empty: an instance is
    /// registered exactly while it has subscribers.
    pub proof fn lemma_wf_refs(self)
        requires
            self.wf(),
        ensures
            forall|fp: u64| self@.contains_key(fp) ==> ref_view_wf(#[trigger] self@[fp]),
    {
        assert forall|fp: u64| self@.contains_key(fp) implies ref_view_wf(self@[fp]) by {
            lemma_rm_contains(self.refs@, fp);
            let i = choose|i: int|
                0 <= i < self.refs@.len() && #[trigger] self.refs@[i].fingerprint == fp;
            lemma_rm_index(self.refs@, i);
        }
    }

    /// Creates an empty registry.
    pub fn new() -> (m: ProviderManager)
        ensures
            m.wf(),
            m@ == Map::<u64, ProviderRefView>::empty(),
    {
        let m = ProviderManager { refs: Vec::new() };
        proof {
            assert(m.refs@.len() == 0);
        }
        m
    }

    /// Finds the position of the handle for a fingerprint.
    fn find_index(&self, fp: u64) -> (r: Option<usize>)
        ensures
            (match r {
                Some(i) => i < self.refs@.len() && self.refs@[i as int].fingerprint == fp,
                None => !self@.contains_key(fp),
            }),
    {
        let n = self.refs.len();
        for i in 0..n
            invariant
                n == self.refs@.len(),
                forall|j: int| 0 <= j < i ==> self.refs@[j].fingerprint != fp,
        {
            if self.refs[i].fingerprint == fp {
                return Some(i);
            }
        }
        proof {
            lemma_rm_contains(self.refs@, fp);
        }
        None
    }

    /// Registers a subscriber: adds it to the existing instance for the
    /// fingerprint, or validates the configuration and registers a fresh
    /// instance whose loop the caller must spawn. No second instance is
    /// ever created for a registered fingerprint.
    pub fn create(
        &mut self,
        fingerprint: u64,
        config: ProviderConfig,
        subscriber_id: u64,
    ) -> (r: Result<CreateAction, ManagerError>)
        requires
            old(self).wf(),
        ensures
            final(self).wf(),
            create_transition(old(self)@, final(self)@, fingerprint, config, subscriber_id, r),
    {
        let found = self.find_index(fingerprint);
        match found {
            Some(i) => {
                proof {
                    lemma_rm_index(self.refs@, i as int);
                }
                let entry = ref_at_mut(&mut self.refs, i);
                let already = contains_id(&entry.subscribers, subscriber_id);
                if !already {
                    entry.subscribers.push(subscriber_id);
                }
                proof {
                    let s0 = old(self).refs@;
                    let e1 = final(self).refs@[i as int];
                    assert(final(self).refs@ =~= s0.update(i as int, e1));
                    assert(e1@ == ref_with_sub_added(s0[i as int]@, subscriber_id));
                    lemma_rm_update(s0, i as int, e1);
                    assert forall|k: int|
                        0 <= k < final(self).refs@.len() implies ref_view_wf(
                        #[trigger] final(self).refs@[k]@,
                    ) by {
                        assert(ref_view_wf(s0[k]@));
                        if k == i {
                            let subs0 = s0[k]@.subscribers;
                            if !subs0.contains(subscriber_id) {
                                assert forall|a: int, b: int|
                                    0 <= a < b < subs0.push(subscriber_id).len() implies subs0.push(
                                    subscriber_id,
                                )[a] != subs0.push(subscriber_id)[b] by {
                                    if b < subs0.len() {
                                    } else {
                                        assert(subs0.push(subscriber_id)[a] == subs0[a]);
                                        assert(subs0.contains(subs0[a]));
                                    }
                                }
                            }
                        }
                    }
                }
                Ok(CreateAction::Subscribed)
            },
            None => {
                if !config.validate() {
                    return Err(ManagerError::ConfigError);
                }
                let threading_type = config.kind().threading_type();
                let mut subscribers: Vec<u64> = Vec::new();
                subscribers.push(subscriber_id);
                let fresh = ProviderRef {
                    fingerprint,
                    config,
                    threading_type,
                    subscribers,
                    last_emitted: None,
                };
                proof {
                    assert(fresh@.subscribers =~= seq![subscriber_id]);
                    assert(fresh@ == fresh_ref_view(config, subscriber_id));
                    lemma_rm_push(old(self).refs@, fresh);
                    lemma_rm_contains(old(self).refs@, fingerprint);
                }
                self.refs.push(fresh);
                proof {
                    let s1 = final(self).refs@;
                    assert forall|a: int, b: int|
                        0 <= a < b < s1.len() implies s1[a].fingerprint != s1[b].fingerprint by {
                        if b == s1.len() - 1 {
                            assert(s1[a] == old(self).refs@[a]);
                        }
                    }
                }
                Ok(CreateAction::Spawned(threading_type))
            },
        }
    }

    /// Completes a spawn the caller attempted for a freshly registered
    /// fingerprint. A failed spawn rolls the registration back and
    /// surfaces as `SpawnError`, so no half-started instance stays
    /// registered; the caller may then retry `create`.
    pub fn complete_spawn(&mut self, fingerprint: u64, spawned: bool) -> (r: Result<
        (),
        ManagerError,
    >)
        requires
            old(self).wf(),
        ensures
            final(self).wf(),
            (if !old(self)@.contains_key(fingerprint) {
                r == Err::<(), ManagerError>(ManagerError::NotFoundError) && final(self)@ == old(
                    self,
                )@
            } else if spawned {
                r == Ok::<(), ManagerError>(()) && final(self)@ == old(self)@
            } else {
                r == Err::<(), ManagerError>(ManagerError::SpawnError) && final(self)@ == old(
                    self,
                )@.remove(fingerprint)
            }),
    {
        let found = self.find_index(fingerprint);
        match found {
            None => Err(ManagerError::NotFoundError),
            Some(i) => {
                proof {
                    lemma_rm_index(self.refs@, i as int);
                }
                if spawned {
                    Ok(())
                } else {
                    proof {
                        lemma_rm_remove(self.refs@, i as int);
                    }
                    self.refs.remove(i);
                    proof {
                        let s0 = old(self).refs@;
                        let s1 = final(self).refs@;
                        assert forall|a: int, b: int|
                            0 <= a < b < s1.len() implies s1[a].fingerprint != s1[b].fingerprint by {
                            assert(s1[a] == if a < i as int {
                                s0[a]
                            } else {
                                s0[a + 1]
                            });
                            assert(s1[b] == if b < i as int {
                                s0[b]
                            } else {
                                s0[b + 1]
                            });
                        }
                        assert forall|k: int| 0 <= k < s1.len() implies ref_view_wf(
                            #[trigger] s1[k]@,
                        ) by {
                            assert(s1[k] == if k < i as int {
                                s0[k]
                            } else {
                                s0[k + 1]
                            });
                        }
                    }
                    Err(ManagerError::SpawnError)
                }
            },
        }
    }

    /// Removes a subscriber from the fingerprint's instance. When the set
    /// becomes empty the instance is deregistered and the caller must
    /// stop and join its loop. An unknown fingerprint or subscriber is a
    /// caller programming error, always reported, never retried.
    pub fn destroy(&mut self, fingerprint: u64, subscriber_id: u64) -> (r: Result<
        DestroyAction,
        ManagerError,
    >)
        requires
            old(self).wf(),
        ensures
            final(self).wf(),
            destroy_transition(old(self)@, final(self)@, fingerprint, subscriber_id, r),
    {
        let found = self.find_index(fingerprint);
        match found {
            None => Err(ManagerError::NotFoundError),
            Some(i) => {
                proof {
                    lemma_rm_index(self.refs@, i as int);
                }
                let pos = find_id(&self.refs[i].subscribers, subscriber_id);
                match pos {
                    None => Err(ManagerError::NotFoundError),
                    Some(j) => {
                        if self.refs[i].subscribers.len() == 1 {
                            proof {
                                lemma_rm_remove(self.refs@, i as int);
                            }
                            self.refs.remove(i);
                            proof {
                                let s0 = old(self).refs@;
                                let s1 = final(self).refs@;
                                assert forall|a: int, b: int|
                                    0 <= a < b < s1.len() implies s1[a].fingerprint
                                    != s1[b].fingerprint by {
                                    assert(s1[a] == if a < i as int {
                                        s0[a]
                                    } else {
                                        s0[a + 1]
                                    });
                                    assert(s1[b] == if b < i as int {
                                        s0[b]
                                    } else {
                                        s0[b + 1]
                                    });
                                }
                                assert forall|k: int| 0 <= k < s1.len() implies ref_view_wf(
                                    #[trigger] s1[k]@,
                                ) by {
                                    assert(s1[k] == if k < i as int {
                                        s0[k]
                                    } else {
                                        s0[k + 1]
                                    });
                                }
                            }
                            Ok(DestroyAction::Stopped)
                        } else {
                            proof {
                                let subs = self.refs@[i as int]@.subscribers;
                                lemma_id_first_index_unique(subs, subscriber_id, j as int);
                            }
                            let entry = ref_at_mut(&mut self.refs, i);
                            entry.subscribers.remove(j);
                            proof {
                                let s0 = old(self).refs@;
                                let e1 = final(self).refs@[i as int];
                                assert(final(self).refs@ =~= s0.update(i as int, e1));
                                assert(e1@ == ref_with_sub_removed(s0[i as int]@, subscriber_id));
                                lemma_rm_update(s0, i as int, e1);
                                assert forall|k: int|
                                    0 <= k < final(self).refs@.len() implies ref_view_wf(
                                    #[trigger] final(self).refs@[k]@,
                                ) by {
                                    assert(ref_view_wf(s0[k]@));
                                    if k == i {
                                        let subs0 = s0[k]@.subscribers;
                                        let subs1 = subs0.remove(j as int);
                                        assert forall|a: int, b: int|
                                            0 <= a < b < subs1.len() implies subs1[a] != subs1[b] by {
                                            assert(subs1[a] == if a < j as int {
                                                subs0[a]
                                            } else {
                                                subs0[a + 1]
                                            });
                                            assert(subs1[b] == if b < j as int {
                                                subs0[b]
                                            } else {
                                                subs0[b + 1]
                                            });
                                        }
                                    }
                                }
                            }
                            Ok(DestroyAction::Removed)
                        }
                    },
                }
            },
        }
    }

    /// Decides what one refresh result means for the fingerprint's
    /// instance: a transient failure retains the previous output; a
    /// duplicate of the last output of a de-duplicating kind is
    /// suppressed; any other output is recorded and fanned out to every
    /// current subscriber.
    pub fn handle_refresh(
        &mut self,
        fingerprint: u64,
        result: Result<ProviderOutput, RefreshError>,
    ) -> (r: Result<EmitDecision, ManagerError>)
        requires
            old(self).wf(),
        ensures
            final(self).wf(),
            refresh_transition(
                old(self)@,
                final(self)@,
                fingerprint,
                (match result {
                    Ok(out) => Ok(out@),
                    Err(e) => Err(e),
                }),
                (match r {
                    Ok(d) => Ok(d@),
                    Err(e) => Err(e),
                }),
            ),
    {
        let found = self.find_index(fingerprint);
        match found {
            None => Err(ManagerError::NotFoundError),
            Some(i) => {
                proof {
                    lemma_rm_index(self.refs@, i as int);
                }
                match result {
                    Err(_) => Ok(EmitDecision::Retained),
                    Ok(out) => {
                        let dedup = self.refs[i].config.kind().dedup_enabled();
                        let duplicate = dedup && (match &self.refs[i].last_emitted {
                            Some(last) => last.same_as(&out),
                            None => false,
                        });
                        if duplicate {
                            Ok(EmitDecision::Suppressed)
                        } else {
                            let subscribers = clone_ids(&self.refs[i].subscribers);
                            let entry = ref_at_mut(&mut self.refs, i);
                            entry.last_emitted = Some(out);
                            proof {
                                let s0 = old(self).refs@;
                                let e1 = final(self).refs@[i as int];
                                assert(final(self).refs@ =~= s0.update(i as int, e1));
                                assert(e1@ == ref_with_last(
                                    s0[i as int]@,
                                    (match result {
                                        Ok(o) => o@,
                                        Err(_) => arbitrary(),
                                    }),
                                ));
                                lemma_rm_update(s0, i as int, e1);
                                assert forall|k: int|
                                    0 <= k < final(self).refs@.len() implies ref_view_wf(
                                    #[trigger] final(self).refs@[k]@,
                                ) by {
                                    assert(ref_view_wf(s0[k]@));
                                }
                            }
                            Ok(EmitDecision::Emit(subscribers))
                        }
                    },
                }
            },
        }
    }

    /// Whether an instance is registered for the fingerprint.
    pub fn contains(&self, fingerprint: u64) -> (b: bool)
        ensures
            b == self@.contains_key(fingerprint),
    {
        let found = self.find_index(fingerprint);
        match found {
            Some(i) => {
                proof {
                    lemma_rm_contains(self.refs@, fingerprint);
                }
                true
            },
            None => false,
        }
    }

    /// The number of subscribers of the fingerprint's instance, if one is
    /// registered.
    pub fn subscriber_count(&self, fingerprint: u64) -> (r: Option<usize>)
        requires
            self.wf(),
        ensures
            (match r {
                Some(n) => self@.contains_key(fingerprint) && n == self@[
                    fingerprint
                ].subscribers.len(),
                None => !self@.contains_key(fingerprint),
            }),
    {
        let found = self.find_index(fingerprint);
        match found {
            Some(i) => {
                proof {
                    lemma_rm_index(self.refs@, i as int);
                }
                Some(self.refs[i].subscribers.len())
            },
            None => None,
        }
    }
}

/// Mutable access to one handle of the registry vector.
fn ref_at_mut(v: &mut Vec<ProviderRef>, i: usize) -> (element: &mut ProviderRef)
    requires
        i < old(v).len(),
    ensures
        *element == old(v)@[i as int],
        final(v)@ == old(v)@.update(i as int, *final(element)),
{
    &mut v[i]
}

/// Whether the identity occurs in the list.
fn contains_id(v: &Vec<u64>, id: u64) -> (b: bool)
    ensures
        b == v@.contains(id),
{
    let n = v.len();
    for i in 0..n
        invariant
            n == v@.len(),
            forall|j: int| 0 <= j < i ==> v@[j] != id,
    {
        if v[i] == id {
            return true;
        }
    }
    false
}

/// The position of the first occurrence of the identity, if any.
fn find_id(v: &Vec<u64>, id: u64) -> (r: Option<usize>)
    ensures
        (match r {
            Some(i) => i < v@.len() && v@[i as int] == id && forall|j: int|
                0 <= j < i ==> v@[j] != id,
            None => !v@.contains(id),
        }),
{
    let n = v.len();
    for i in 0..n
        invariant
            n == v@.len(),
            forall|j: int| 0 <= j < i ==> v@[j] != id,
    {
        if v[i] == id {
            return Some(i);
        }
    }
    None
}

/// A copy of the subscriber list, handed out for fan-out.
fn clone_ids(v: &Vec<u64>) -> (r: Vec<u64>)
    ensures
        r@ == v@,
{
    let mut r: Vec<u64> = Vec::new();
    let n = v.len();
    for i in 0..n
        invariant
            n == v@.len(),
            r@ =~= v@.take(i as int),
    {
        r.push(v[i]);
    }
    proof {
        assert(v@.take(n as int) =~= v@);
    }
    r
}

/// Singleton per fingerprint: once a `create` has spawned the one
/// instance for a fingerprint, any further `create` for it spawns
/// nothing: it keeps the registry's keys, the instance's configuration,
/// runtime tag and last output, and only grows its subscriber set.
pub proof fn lemma_singleton_per_fingerprint(
    pre: Map<u64, ProviderRefView>,
    mid: Map<u64, ProviderRefView>,
    post: Map<u64, ProviderRefView>,
    fp: u64,
    config1: ProviderConfig,
    config2: ProviderConfig,
    id1: u64,
    id2: u64,
    r1: Result<CreateAction, ManagerError>,
    r2: Result<CreateAction, ManagerError>,
)
    requires
        create_transition(pre, mid, fp, config1, id1, r1),
        r1 matches Ok(CreateAction::Spawned(_)),
        create_transition(mid, post, fp, config2, id2, r2),
    ensures
        r2 == Ok::<CreateAction, ManagerError>(CreateAction::Subscribed),
        post.dom() == mid.dom(),
        post[fp].config == mid[fp].config,
        post[fp].threading_type == mid[fp].threading_type,
        post[fp].last_emitted == mid[fp].last_emitted,
        forall|id: u64| mid[fp].subscribers.contains(id) ==> post[fp].subscribers.contains(id),
        post[fp].subscribers.contains(id2),
{
    assert(mid.contains_key(fp));
    assert(post == mid.insert(fp, ref_with_sub_added(mid[fp], id2)));
    assert(post.dom() =~= mid.dom());
    let subs = mid[fp].subscribers;
    if !subs.contains(id2) {
        assert(post[fp].subscribers == subs.push(id2));
        assert forall|id: u64| subs.contains(id) implies post[fp].subscribers.contains(id) by {
            let k = choose|k: int| 0 <= k < subs.len() && subs[k] == id;
            assert(subs.push(id2)[k] == id);
        }
        assert(subs.push(id2)[subs.len() as int] == id2);
    }
}

/// Teardown on empty: a `destroy` by the last subscriber removes the
/// fingerprint's instance from the registry, and the caller is told to
/// stop its loop.
pub proof fn lemma_teardown_on_empty(
    pre: Map<u64, ProviderRefView>,
    post: Map<u64, ProviderRefView>,
    fp: u64,
    id: u64,
    r: Result<DestroyAction, ManagerError>,
)
    requires
        destroy_transition(pre, post, fp, id, r),
        pre.contains_key(fp),
        pre[fp].subscribers == seq![id],
    ensures
        r == Ok::<DestroyAction, ManagerError>(DestroyAction::Stopped),
        !post.contains_key(fp),
{
    assert(pre[fp].subscribers[0] == id);
    assert(pre[fp].subscribers.contains(id));
}

/// De-duplication: when two consecutive refreshes of a de-duplicating
/// kind produce identical payloads, the first is emitted and the second
/// suppressed — exactly one emission, and the registry is unchanged by
/// the duplicate.
pub proof fn lemma_dedup_suppresses_identical(
    pre: Map<u64, ProviderRefView>,
    mid: Map<u64, ProviderRefView>,
    post: Map<u64, ProviderRefView>,
    fp: u64,
    out: ProviderOutputView,
    r1: Result<EmitDecisionView, ManagerError>,
    r2: Result<EmitDecisionView, ManagerError>,
)
    requires
        pre.contains_key(fp),
        pre[fp].config.spec_kind().spec_dedup_enabled(),
        pre[fp].last_emitted != Some(out),
        refresh_transition(pre, mid, fp, Ok(out), r1),
        refresh_transition(mid, post, fp, Ok(out), r2),
    ensures
        r1 == Ok::<EmitDecisionView, ManagerError>(EmitDecisionView::Emit(pre[fp].subscribers)),
        r2 == Ok::<EmitDecisionView, ManagerError>(EmitDecisionView::Suppressed),
        post == mid,
{
    assert(mid == pre.insert(fp, ref_with_last(pre[fp], out)));
    assert(mid.contains_key(fp));
    assert(mid[fp].last_emitted == Some(out));
}

} // verus!
