//! Session registry: the orchestrator.
//!
//! The registry owns the set of active recording sessions, the hardware
//! stream counter and its advisory cap. It is modelled as a finite map from
//! session id to the session's record; the hardware counter always equals
//! the number of registered sessions that hold a hardware slot. The caller
//! serialises access (one lock around the registry value for the full
//! critical section of every operation), so each operation here describes
//! one atomic step of that protected state.
//!
//! A start request is split around the host runtime: `plan_start` makes
//! every decision (duplicate check, tier selection, capacity warning,
//! pipeline description), the caller instantiates and starts the described
//! pipeline, and `commit_start` registers the running session. A failed
//! instantiation therefore never leaves a partial entry in the registry.

use vstd::prelude::*;
use crate::MediaError;
use crate::encoder::EncoderProbe;
use crate::encoder::EncoderTier;
use crate::encoder::spec_best_tier;
use crate::encoder::spec_is_hardware;
use crate::pipeline::RecordingSpec;
use crate::pipeline::build_recording_spec;
use crate::platform::Platform;
use crate::platform::spec_zero_copy_hint;
use crate::platform::zero_copy_hint;
use crate::text::str_eq;

verus! {

/// What the registry records of a session, apart from its id.
#[derive(Clone, Copy, Debug, PartialEq, Eq, Structural)]
pub struct SessionInfo {
    /// The encoder tier the session records with.
    pub tier: EncoderTier,
    /// Whether the session occupies one of the hardware stream slots.
    pub uses_hardware_slot: bool,
    /// The caller's token for the running pipeline behind this session.
    pub handle: u64,
}

/// One running recording session, owned by the registry from a successful
/// start until the matching stop.
#[derive(Clone, Debug)]
pub struct Session {
    /// Caller-supplied id, unique among active sessions.
    pub id: String,
    /// The encoder tier the session records with.
    pub tier: EncoderTier,
    /// Whether the session occupies one of the hardware stream slots;
    /// derived from the tier at registration.
    pub uses_hardware_slot: bool,
    /// The caller's token for the running pipeline behind this session.
    pub handle: u64,
}

impl Session {
    /// The session's record, as the registry's map holds it.
    pub open spec fn info(self) -> SessionInfo {
        SessionInfo { tier: self.tier, uses_hardware_slot: self.uses_hardware_slot, handle: self.handle }
    }
}

/// No two sessions share an id.
pub open spec fn ids_unique(s: Seq<Session>) -> bool {
    forall|i: int, j: int| 0 <= i < j < s.len() ==> s[i].id@ != s[j].id@
}

/// How many of the sessions hold a hardware slot.
pub open spec fn hw_count(s: Seq<Session>) -> nat
    decreases s.len(),
{
    if s.len() == 0 {
        0
    } else {
        hw_count(s.drop_last()) + if s.last().uses_hardware_slot {
            1nat
        } else {
            0nat
        }
    }
}

/// The sessions as a map from id to record.
pub open spec fn table_of(s: Seq<Session>) -> Map<Seq<char>, SessionInfo>
    decreases s.len(),
{
    if s.len() == 0 {
        Map::empty()
    } else {
        table_of(s.drop_last()).insert(s.last().id@, s.last().info())
    }
}

/// An id is in the table exactly when some session carries it.
pub proof fn lemma_table_contains(s: Seq<Session>, id: Seq<char>)
    ensures
        table_of(s).dom().contains(id) <==> exists|i: int|
            0 <= i < s.len() && s[i].id@ == id,
    decreases s.len(),
{
    if s.len() > 0 {
        lemma_table_contains(s.drop_last(), id);
        if s.last().id@ == id {
            assert(s[s.len() - 1].id@ == id);
        }
        if table_of(s.drop_last()).dom().contains(id) {
            let i = choose|i: int| 0 <= i < s.drop_last().len() && s.drop_last()[i].id@ == id;
            assert(s[i].id@ == id);
        }
        if exists|i: int| 0 <= i < s.len() && s[i].id@ == id {
            let i = choose|i: int| 0 <= i < s.len() && s[i].id@ == id;
            if i < s.len() - 1 {
                assert(s.drop_last()[i].id@ == id);
            }
        }
    }
}

/// With unique ids, the table maps each session's id to that session's
/// record.
pub proof fn lemma_table_index(s: Seq<Session>, i: int)
    requires
        ids_unique(s),
        0 <= i < s.len(),
    ensures
        table_of(s).dom().contains(s[i].id@),
        table_of(s)[s[i].id@] == s[i].info(),
    decreases s.len(),
{
    if i == s.len() - 1 {
    } else {
        assert(ids_unique(s.drop_last()));
        assert(s.drop_last()[i] == s[i]);
        lemma_table_index(s.drop_last(), i);
        assert(s[i].id@ != s.last().id@);
    }
}

/// Appending a session with a fresh id inserts its record into the table
/// and grows the hardware count accordingly.
pub proof fn lemma_table_push(s: Seq<Session>, x: Session)
    ensures
        table_of(s.push(x)) == table_of(s).insert(x.id@, x.info()),
        hw_count(s.push(x)) == hw_count(s) + if x.uses_hardware_slot {
            1nat
        } else {
            0nat
        },
{
    assert(s.push(x).drop_last() =~= s);
    assert(s.push(x).last() == x);
}

/// Removing the session at `i` removes its id from the table and shrinks
/// the hardware count accordingly; uniqueness of ids is preserved.
pub proof fn lemma_table_remove(s: Seq<Session>, i: int)
    requires
        ids_unique(s),
        0 <= i < s.len(),
    ensures
        table_of(s.remove(i)) == table_of(s).remove(s[i].id@),
        hw_count(s) == hw_count(s.remove(i)) + if s[i].uses_hardware_slot {
            1nat
        } else {
            0nat
        },
        ids_unique(s.remove(i)),
    decreases s.len(),
{
    assert forall|a: int, b: int| 0 <= a < b < s.remove(i).len() implies s.remove(i)[a].id@
        != s.remove(i)[b].id@ by {
        if a < i {
            if b < i {
                assert(s[a].id@ != s[b].id@);
            } else {
                assert(s[a].id@ != s[b + 1].id@);
            }
        } else {
            assert(s[a + 1].id@ != s[b + 1].id@);
        }
    }
    if i == s.len() - 1 {
        assert(s.remove(i) =~= s.drop_last());
        lemma_table_contains(s.drop_last(), s[i].id@);
        assert(!table_of(s.drop_last()).dom().contains(s[i].id@));
        assert(table_of(s).remove(s[i].id@) =~= table_of(s.drop_last()));
    } else {
        let t = s.remove(i);
        assert(t.last() == s.last());
        assert(t.drop_last() =~= s.drop_last().remove(i));
        assert(ids_unique(s.drop_last()));
        lemma_table_remove(s.drop_last(), i);
        assert(s.drop_last()[i] == s[i]);
        assert(table_of(t) == table_of(s.drop_last().remove(i)).insert(
            s.last().id@,
            s.last().info(),
        ));
        assert(s[i].id@ != s.last().id@);
        assert(table_of(s.drop_last()).remove(s[i].id@).insert(s.last().id@, s.last().info())
            =~= table_of(s.drop_last()).insert(s.last().id@, s.last().info()).remove(s[i].id@));
    }
}

/// With unique ids the table holds exactly one record per session: its
/// domain is finite, with one id for each registered session.
pub proof fn lemma_table_cardinality(s: Seq<Session>)
    requires
        ids_unique(s),
    ensures
        table_of(s).dom().finite(),
        table_of(s).dom().len() == s.len(),
    decreases s.len(),
{
    if s.len() > 0 {
        assert(ids_unique(s.drop_last()));
        lemma_table_cardinality(s.drop_last());
        lemma_table_contains(s.drop_last(), s.last().id@);
        if table_of(s.drop_last()).dom().contains(s.last().id@) {
            let i = choose|i: int|
                0 <= i < s.drop_last().len() && s.drop_last()[i].id@ == s.last().id@;
            assert(s[i].id@ == s[s.len() - 1].id@);
        }
        assert(table_of(s).dom() =~= table_of(s.drop_last()).dom().insert(s.last().id@));
    }
}

/// The registry's protected state: the session map, the hardware stream
/// counter and the advisory cap.
pub struct Registry {
    sessions: Vec<Session>,
    active_hardware_streams: u32,
    max_hardware_streams: u32,
}

impl Registry {
    /// The registered sessions, in registration order.
    pub closed spec fn entries(self) -> Seq<Session> {
        self.sessions@
    }

    /// The registry as a map from session id to record.
    pub open spec fn table(self) -> Map<Seq<char>, SessionInfo> {
        table_of(self.entries())
    }

    /// The hardware stream counter.
    pub closed spec fn hw_counter(self) -> u32 {
        self.active_hardware_streams
    }

    /// The advisory cap on simultaneous hardware streams.
    pub closed spec fn hw_cap(self) -> u32 {
        self.max_hardware_streams
    }

    /// How many registered sessions hold a hardware slot.
    pub open spec fn hw_sessions(self) -> nat {
        hw_count(self.entries())
    }

    /// Well-formedness: ids are unique, every session's slot flag is
    /// derived from its tier, and the counter equals the number of
    /// registered hardware sessions.
    pub open spec fn wf(self) -> bool {
        &&& ids_unique(self.entries())
        &&& forall|i: int|
            0 <= i < self.entries().len() ==> (#[trigger] self.entries()[i]).uses_hardware_slot
                == spec_is_hardware(self.entries()[i].tier)
        &&& self.hw_counter() as nat == hw_count(self.entries())
    }
}

/// The hardware counter of a well-formed registry equals the number of
/// currently registered sessions whose tier is hardware-backed, and as an
/// unsigned counter it never falls below zero.
pub proof fn lemma_hardware_accounting(r: Registry)
    requires
        r.wf(),
    ensures
        r.hw_counter() as nat == r.hw_sessions(),
        r.hw_counter() >= 0,
{
}

/// A well-formed registry holds exactly one record per registered id.
pub proof fn lemma_one_record_per_id(r: Registry)
    requires
        r.wf(),
    ensures
        r.table().dom().finite(),
        r.table().dom().len() == r.entries().len(),
{
    lemma_table_cardinality(r.entries());
}

/// The listing and the table agree in a well-formed registry: every
/// registered session's id is in the table, and every id in the table
/// belongs to some registered session.
pub proof fn lemma_listing_matches_table(r: Registry)
    requires
        r.wf(),
    ensures
        forall|i: int|
            0 <= i < r.entries().len() ==> r.table().dom().contains(
                #[trigger] r.entries()[i].id@,
            ),
        forall|id: Seq<char>|
            #[trigger] r.table().dom().contains(id) ==> exists|i: int|
                0 <= i < r.entries().len() && r.entries()[i].id@ == id,
{
    assert forall|i: int| 0 <= i < r.entries().len() implies r.table().dom().contains(
        #[trigger] r.entries()[i].id@,
    ) by {
        lemma_table_index(r.entries(), i);
    }
    assert forall|id: Seq<char>| #[trigger] r.table().dom().contains(id) implies exists|i: int|
        0 <= i < r.entries().len() && r.entries()[i].id@ == id by {
        lemma_table_contains(r.entries(), id);
    }
}

/// What registering a session under `id` returns against table `t`.
pub open spec fn spec_register_result(t: Map<Seq<char>, SessionInfo>, id: Seq<char>) -> Result<
    (),
    MediaError,
> {
    if t.dom().contains(id) {
        Err(MediaError::DuplicateSession)
    } else {
        Ok(())
    }
}

/// What stopping the session under `id` returns against table `t`.
pub open spec fn spec_stop_result(t: Map<Seq<char>, SessionInfo>, id: Seq<char>) -> Result<
    SessionInfo,
    MediaError,
> {
    if t.dom().contains(id) {
        Ok(t[id])
    } else {
        Err(MediaError::SessionNotFound)
    }
}

/// A plan for one start request: the tier that will be used, whether the
/// advisory hardware capacity was already exhausted when the plan was made,
/// and the pipeline description to instantiate.
#[derive(Clone, Debug)]
pub struct StartPlan {
    /// The best usable encoder tier at planning time.
    pub tier: EncoderTier,
    /// True when the tier is hardware-backed and the hardware counter had
    /// already reached the cap. The start still proceeds: the cap is
    /// advisory capacity accounting, never a hard admission gate.
    pub capacity_warning: bool,
    /// The fully-resolved pipeline description for this session.
    pub description: RecordingSpec,
}

impl Registry {
    /// An empty registry with the default advisory cap of four simultaneous
    /// hardware streams.
    pub fn new() -> (r: Registry)
        ensures
            r.wf(),
            r.entries() == Seq::<Session>::empty(),
            r.table() == Map::<Seq<char>, SessionInfo>::empty(),
            r.hw_counter() == 0,
            r.hw_cap() == 4,
    {
        Registry { sessions: Vec::new(), active_hardware_streams: 0, max_hardware_streams: 4 }
    }

    /// An empty registry with a chosen advisory hardware-stream cap.
    pub fn with_max_hardware_streams(max: u32) -> (r: Registry)
        ensures
            r.wf(),
            r.entries() == Seq::<Session>::empty(),
            r.table() == Map::<Seq<char>, SessionInfo>::empty(),
            r.hw_counter() == 0,
            r.hw_cap() == max,
    {
        Registry { sessions: Vec::new(), active_hardware_streams: 0, max_hardware_streams: max }
    }

    /// The current value of the hardware stream counter.
    pub fn active_hardware_streams(&self) -> (r: u32)
        ensures
            r == self.hw_counter(),
    {
        self.active_hardware_streams
    }

    /// The advisory cap on simultaneous hardware streams.
    pub fn max_hardware_streams(&self) -> (r: u32)
        ensures
            r == self.hw_cap(),
    {
        self.max_hardware_streams
    }

    /// How many sessions are registered.
    pub fn session_count(&self) -> (r: usize)
        ensures
            r == self.entries().len(),
    {
        self.sessions.len()
    }

    /// The index of the session carrying `id`, if any.
    fn find_index(&self, id: &str) -> (r: Option<usize>)
        ensures
            match r {
                Some(i) => i < self.entries().len() && self.entries()[i as int].id@ == id@,
                None => forall|i: int|
                    0 <= i < self.entries().len() ==> self.entries()[i].id@ != id@,
            },
    {
        let n = self.sessions.len();
        let mut k: usize = 0;
        while k < n
            invariant
                k <= n,
                n == self.entries().len(),
                forall|i: int| 0 <= i < k ==> self.entries()[i].id@ != id@,
            decreases n - k,
        {
            if str_eq(self.sessions[k].id.as_str(), id) {
                return Some(k);
            }
            k = k + 1;
        }
        None
    }

    /// Whether a session with this id is currently registered.
    pub fn contains_session(&self, id: &str) -> (r: bool)
        ensures
            r == self.table().dom().contains(id@),
    {
        proof {
            lemma_table_contains(self.entries(), id@);
        }
        match self.find_index(id) {
            Some(_) => true,
            None => false,
        }
    }

    /// Plans a start request: rejects a duplicate id, otherwise selects the
    /// best usable encoder tier for the probe result, notes whether the
    /// advisory hardware capacity is already exhausted, and builds the
    /// pipeline description. The registry itself is not changed; the caller
    /// instantiates the described pipeline and then registers it with
    /// `commit_start`, so a failed instantiation leaves no entry behind.
    pub fn plan_start(
        &self,
        id: &str,
        probe: &EncoderProbe,
        platform: Platform,
        sink_path: String,
    ) -> (r: Result<StartPlan, MediaError>)
        ensures
            r is Err <==> self.table().dom().contains(id@),
            r is Err ==> r == Err::<StartPlan, MediaError>(MediaError::DuplicateSession),
            r matches Ok(p) ==> {
                &&& p.tier == spec_best_tier(*probe)
                &&& p.capacity_warning == (spec_is_hardware(p.tier) && self.hw_counter()
                    >= self.hw_cap())
                &&& p.description.encoder == p.tier
                &&& p.description.capture_cursor == true
                &&& p.description.caps@ == spec_zero_copy_hint(platform)
                &&& p.description.encode_queue_depth == 1
                &&& p.description.bitrate_kbps == 4000
                &&& p.description.sink_path@ == sink_path@
                &&& p.description.tap_name@ == "snapshot_sink"@
                &&& p.description.tap_depth == 1
            },
    {
        proof {
            lemma_table_contains(self.entries(), id@);
        }
        if self.find_index(id).is_some() {
            return Err(MediaError::DuplicateSession);
        }
        let tier = crate::encoder::select_best_encoder(probe);
        let warning = tier.is_hardware() && self.active_hardware_streams
            >= self.max_hardware_streams;
        let hint = zero_copy_hint(platform);
        let description = build_recording_spec(tier, hint, sink_path);
        Ok(StartPlan { tier, capacity_warning: warning, description })
    }

    /// Registers a running session under `id`. Returns `DuplicateSession`
    /// and leaves the registry unchanged when the id is already present
    /// (of racing starts with one id, serialised by the caller's lock,
    /// exactly one registers); otherwise inserts the session's record,
    /// derives its hardware-slot flag from the tier, and increments the
    /// hardware counter exactly when that flag is set.
    pub fn commit_start(&mut self, id: String, tier: EncoderTier, handle: u64) -> (r: Result<
        (),
        MediaError,
    >)
        requires
            old(self).wf(),
            old(self).hw_sessions() < u32::MAX,
        ensures
            final(self).wf(),
            final(self).hw_cap() == old(self).hw_cap(),
            r == spec_register_result(old(self).table(), id@),
            r is Err ==> {
                &&& final(self).table() == old(self).table()
                &&& final(self).hw_counter() == old(self).hw_counter()
                &&& final(self).entries() == old(self).entries()
            },
            r is Ok ==> {
                &&& final(self).table() == old(self).table().insert(
                    id@,
                    (SessionInfo { tier, uses_hardware_slot: spec_is_hardware(tier), handle }),
                )
                &&& final(self).hw_counter() as int == old(self).hw_counter() as int + (
                    if spec_is_hardware(tier) { 1int } else { 0int })
                &&& final(self).entries().len() == old(self).entries().len() + 1
            },
    {
        proof {
            lemma_table_contains(self.entries(), id@);
        }
        match self.find_index(id.as_str()) {
            Some(_) => Err(MediaError::DuplicateSession),
            None => {
                let uses_hw = tier.is_hardware();
                let session = Session { id, tier, uses_hardware_slot: uses_hw, handle };
                proof {
                    lemma_table_push(self.entries(), session);
                }
                self.sessions.push(session);
                if uses_hw {
                    self.active_hardware_streams = self.active_hardware_streams + 1;
                }
                Ok(())
            },
        }
    }

    /// Stops the session under `id`. Returns `SessionNotFound` and leaves
    /// the registry unchanged when no such session exists; otherwise
    /// removes the entry, decrements the hardware counter exactly when the
    /// session held a hardware slot (never past zero), and hands the
    /// removed session back so the caller can tear its pipeline down.
    pub fn stop(&mut self, id: &str) -> (r: Result<Session, MediaError>)
        requires
            old(self).wf(),
        ensures
            final(self).wf(),
            final(self).hw_cap() == old(self).hw_cap(),
            r is Err <==> !old(self).table().dom().contains(id@),
            r is Err ==> {
                &&& r == Err::<Session, MediaError>(MediaError::SessionNotFound)
                &&& final(self).table() == old(self).table()
                &&& final(self).hw_counter() == old(self).hw_counter()
                &&& final(self).entries() == old(self).entries()
            },
            r matches Ok(s) ==> {
                &&& s.id@ == id@
                &&& s.info() == old(self).table()[id@]
                &&& spec_stop_result(old(self).table(), id@) == Ok::<SessionInfo, MediaError>(s.info())
                &&& final(self).table() == old(self).table().remove(id@)
                &&& final(self).hw_counter() as int == old(self).hw_counter() as int - (
                    if old(self).table()[id@].uses_hardware_slot { 1int } else { 0int })
                &&& final(self).entries().len() == old(self).entries().len() - 1
            },
    {
        proof {
            lemma_table_contains(self.entries(), id@);
        }
        match self.find_index(id) {
            None => Err(MediaError::SessionNotFound),
            Some(i) => {
                proof {
                    lemma_table_index(self.entries(), i as int);
                    lemma_table_remove(self.entries(), i as int);
                }
                let session = self.sessions.remove(i);
                if session.uses_hardware_slot {
                    self.active_hardware_streams = self.active_hardware_streams - 1;
                }
                Ok(session)
            },
        }
    }

    /// The pipeline token of the session under `id`, for pulling a live
    /// snapshot from its tap. Returns `SessionNotFound` when no such
    /// session exists. A read-only lookup: no registry state changes.
    pub fn snapshot_source(&self, id: &str) -> (r: Result<u64, MediaError>)
        requires
            self.wf(),
        ensures
            r is Err <==> !self.table().dom().contains(id@),
            r is Err ==> r == Err::<u64, MediaError>(MediaError::SessionNotFound),
            r matches Ok(h) ==> self.table().dom().contains(id@) && h == self.table()[id@].handle,
    {
        proof {
            lemma_table_contains(self.entries(), id@);
        }
        match self.find_index(id) {
            None => Err(MediaError::SessionNotFound),
            Some(i) => {
                proof {
                    lemma_table_index(self.entries(), i as int);
                }
                Ok(self.sessions[i].handle)
            },
        }
    }

    /// The ids of all registered sessions, in registration order. A
    /// snapshot read with no side effects.
    pub fn list_active(&self) -> (r: Vec<String>)
        ensures
            r@.len() == self.entries().len(),
            forall|i: int| 0 <= i < r@.len() ==> r@[i]@ == self.entries()[i].id@,
    {
        let n = self.sessions.len();
        let mut out: Vec<String> = Vec::new();
        let mut k: usize = 0;
        while k < n
            invariant
                k <= n,
                n == self.entries().len(),
                out@.len() == k,
                forall|i: int| 0 <= i < k ==> out@[i]@ == self.entries()[i].id@,
            decreases n - k,
        {
            out.push(self.sessions[k].id.clone());
            k = k + 1;
        }
        out
    }
}

/// Interprets the outcome of pulling the most recent buffer from a
/// session's live tap: a missing buffer — none queued yet, or the bounded
/// pull timed out — is `SnapshotUnavailable`, never a panic or an
/// indefinite block; a present buffer is returned as the frame's bytes.
pub fn interpret_snapshot(pull: Option<Vec<u8>>) -> (r: Result<Vec<u8>, MediaError>)
    ensures
        r is Ok <==> pull is Some,
        pull matches Some(bytes) ==> (r matches Ok(b) && b@ == bytes@),
        pull is None ==> r == Err::<Vec<u8>, MediaError>(MediaError::SnapshotUnavailable),
{
    match pull {
        Some(bytes) => Ok(bytes),
        None => Err(MediaError::SnapshotUnavailable),
    }
}

/// Starting a session under an id and then, with no intervening stop,
/// starting again under the same id: the first registration succeeds, the
/// second is rejected with `DuplicateSession`, and the registry still holds
/// exactly the one record that the first start inserted.
pub proof fn lemma_second_start_rejected(
    t: Map<Seq<char>, SessionInfo>,
    id: Seq<char>,
    info: SessionInfo,
)
    requires
        !t.dom().contains(id),
    ensures
        spec_register_result(t, id) == Ok::<(), MediaError>(()),
        spec_register_result(t.insert(id, info), id) == Err::<(), MediaError>(
            MediaError::DuplicateSession,
        ),
        t.insert(id, info)[id] == info,
{
}

/// Stopping an id that was never started fails with `SessionNotFound`.
pub proof fn lemma_stop_unknown_id(t: Map<Seq<char>, SessionInfo>, id: Seq<char>)
    requires
        !t.dom().contains(id),
    ensures
        spec_stop_result(t, id) == Err::<SessionInfo, MediaError>(MediaError::SessionNotFound),
{
}

/// Two stops of one hardware session, serialised by the registry's lock:
/// the first succeeds and surrenders the hardware slot, the second finds
/// no session and fails with `SessionNotFound` — so the counter is
/// decremented exactly once.
pub proof fn lemma_stop_twice_releases_once(t: Map<Seq<char>, SessionInfo>, id: Seq<char>)
    requires
        t.dom().contains(id),
        t[id].uses_hardware_slot,
    ensures
        spec_stop_result(t, id) == Ok::<SessionInfo, MediaError>(t[id]),
        spec_stop_result(t.remove(id), id) == Err::<SessionInfo, MediaError>(
            MediaError::SessionNotFound,
        ),
{
}

} // verus!
