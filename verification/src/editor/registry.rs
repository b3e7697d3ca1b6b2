//! The active edit sessions.
use vstd::prelude::*;

use crate::editor::identity::{session_id, session_id_for};
use crate::editor::paths::{
    instance_dir, instance_dir_path, instance_dirs_are_unique, local_file, local_file_path,
    PathStyle,
};
use crate::text::same_text;

verus! {

/// One remote file that is being edited. `C` is what the host stops its sync loop with.
pub struct EditSession<C> {
    pub connection_id: String,
    pub remote_path: String,
    pub file_name: String,
    pub local_path: String,
    pub temp_dir: String,
    pub cancel: C,
}

/// A session with its texts taken by their characters.
pub ghost struct EditSessionView<C> {
    pub connection_id: Seq<char>,
    pub remote_path: Seq<char>,
    pub file_name: Seq<char>,
    pub local_path: Seq<char>,
    pub temp_dir: Seq<char>,
    pub cancel: C,
}

impl<C> View for EditSession<C> {
    type V = EditSessionView<C>;

    open spec fn view(&self) -> EditSessionView<C> {
        EditSessionView {
            connection_id: self.connection_id@,
            remote_path: self.remote_path@,
            file_name: self.file_name@,
            local_path: self.local_path@,
            temp_dir: self.temp_dir@,
            cancel: self.cancel,
        }
    }
}

/// What the host shows of a session.
#[derive(Debug, PartialEq, Eq)]
pub struct EditSessionInfo {
    pub session_id: String,
    pub connection_id: String,
    pub remote_path: String,
    pub file_name: String,
    pub local_path: String,
}

/// What is shown of a session, with its texts taken by their characters.
pub ghost struct EditSessionInfoView {
    pub session_id: Seq<char>,
    pub connection_id: Seq<char>,
    pub remote_path: Seq<char>,
    pub file_name: Seq<char>,
    pub local_path: Seq<char>,
}

impl View for EditSessionInfo {
    type V = EditSessionInfoView;

    open spec fn view(&self) -> EditSessionInfoView {
        EditSessionInfoView {
            session_id: self.session_id@,
            connection_id: self.connection_id@,
            remote_path: self.remote_path@,
            file_name: self.file_name@,
            local_path: self.local_path@,
        }
    }
}

impl Clone for EditSessionInfo {
    fn clone(&self) -> (copy: Self)
        ensures
            copy@ == self@,
    {
        EditSessionInfo {
            session_id: self.session_id.clone(),
            connection_id: self.connection_id.clone(),
            remote_path: self.remote_path.clone(),
            file_name: self.file_name.clone(),
            local_path: self.local_path.clone(),
        }
    }
}

/// What is shown of the session that is registered under an id.
pub open spec fn info_of<C>(id: Seq<char>, session: EditSessionView<C>) -> EditSessionInfoView {
    EditSessionInfoView {
        session_id: id,
        connection_id: session.connection_id,
        remote_path: session.remote_path,
        file_name: session.file_name,
        local_path: session.local_path,
    }
}

/// The session of a file that is opened as the given instance.
pub open spec fn new_session<C>(
    temp_root: Seq<char>,
    style: PathStyle,
    instance: u64,
    connection_id: Seq<char>,
    remote_path: Seq<char>,
    file_name: Seq<char>,
    cancel: C,
) -> EditSessionView<C> {
    let temp_dir = instance_dir(
        temp_root,
        style,
        session_id(connection_id, remote_path),
        instance,
    );
    EditSessionView {
        connection_id,
        remote_path,
        file_name,
        local_path: local_file(temp_dir, style, file_name),
        temp_dir,
        cancel,
    }
}

/// The sessions after a file was opened as the given instance: a session that is there stays as
/// it is, and a new one is registered where there is none.
pub open spec fn sessions_after_open<C>(
    sessions: Map<Seq<char>, EditSessionView<C>>,
    id: Seq<char>,
    opened: EditSessionView<C>,
) -> Map<Seq<char>, EditSessionView<C>> {
    if sessions.contains_key(id) {
        sessions
    } else {
        sessions.insert(id, opened)
    }
}

/// The sessions after the session of an id was taken back by the open that the directory belongs
/// to: only that open's own session goes.
pub open spec fn sessions_after_take_back<C>(
    sessions: Map<Seq<char>, EditSessionView<C>>,
    id: Seq<char>,
    temp_dir: Seq<char>,
) -> Map<Seq<char>, EditSessionView<C>> {
    if sessions.contains_key(id) && sessions[id].temp_dir == temp_dir {
        sessions.remove(id)
    } else {
        sessions
    }
}

/// The number of the instance after `instance`. The count starts over after the largest number.
pub open spec fn instance_after(instance: u64) -> u64 {
    if instance == u64::MAX {
        0
    } else {
        (instance + 1) as u64
    }
}

/// A session and the id it is registered under.
struct Entry<C> {
    id: String,
    session: EditSession<C>,
}

/// Whether entry `i` is registered under `id`.
spec fn is_at<C>(entries: Seq<Entry<C>>, id: Seq<char>, i: int) -> bool {
    0 <= i < entries.len() && entries[i].id@ == id
}

/// Registry of the active edit sessions.
pub struct EditSessionRegistry<C> {
    entries: Vec<Entry<C>>,
    /// Counts the opens, so that each gets a directory of its own even where the id is reused.
    next_instance: u64,
}

impl<C> EditSessionRegistry<C> {
    /// The sessions by their ids.
    pub closed spec fn sessions(self) -> Map<Seq<char>, EditSessionView<C>> {
        Map::new(
            |id: Seq<char>| exists|i: int| is_at(self.entries@, id, i),
            |id: Seq<char>| self.entries@[choose|i: int| is_at(self.entries@, id, i)].session@,
        )
    }

    /// The number of the next instance.
    pub closed spec fn next_instance(self) -> u64 {
        self.next_instance
    }

    /// No id is registered twice.
    pub closed spec fn has_distinct_ids(self) -> bool {
        forall|i: int, j: int|
            0 <= i < j < self.entries@.len() ==> #[trigger] self.entries@[i].id@
                != #[trigger] self.entries@[j].id@
    }

    /// No id is registered twice, and there are finitely many.
    pub open spec fn wf(self) -> bool {
        &&& self.has_distinct_ids()
        &&& self.sessions().dom().finite()
    }

    /// Every session is registered under the id of its file.
    pub open spec fn keyed_by_file(self) -> bool {
        forall|id: Seq<char>| #[trigger]
            self.sessions().contains_key(id) ==> id == session_id(
                self.sessions()[id].connection_id,
                self.sessions()[id].remote_path,
            )
    }

    proof fn lemma_entry(self, i: int)
        requires
            self.has_distinct_ids(),
            0 <= i < self.entries@.len(),
        ensures
            self.sessions().contains_key(self.entries@[i].id@),
            self.sessions()[self.entries@[i].id@] == self.entries@[i].session@,
    {
        let id = self.entries@[i].id@;
        assert(is_at(self.entries@, id, i));
        let k = choose|k: int| is_at(self.entries@, id, k);
        assert(k == i) by {
            if k < i {
                assert(self.entries@[k].id@ != self.entries@[i].id@);
            } else if i < k {
                assert(self.entries@[i].id@ != self.entries@[k].id@);
            }
        }
    }

    /// A registry without sessions.
    pub fn new() -> (registry: Self)
        ensures
            registry.wf(),
            registry.keyed_by_file(),
            registry.sessions() == Map::<Seq<char>, EditSessionView<C>>::empty(),
            registry.next_instance() == 0,
    {
        let registry = EditSessionRegistry { entries: Vec::new(), next_instance: 0 };
        proof {
            assert(registry.sessions() == Map::<Seq<char>, EditSessionView<C>>::empty());
        }
        registry
    }

    /// Where the session of an id stands.
    fn find(&self, id: &str) -> (found: Option<usize>)
        ensures
            match found {
                Some(i) => is_at(self.entries@, id@, i as int),
                None => !self.sessions().contains_key(id@),
            },
    {
        let mut i: usize = 0;
        while i < self.entries.len()
            invariant
                i <= self.entries@.len(),
                forall|j: int| 0 <= j < i ==> !#[trigger] is_at(self.entries@, id@, j),
            decreases self.entries@.len() - i,
        {
            if same_text(self.entries[i].id.as_str(), id) {
                return Some(i);
            }
            i = i + 1;
        }
        None
    }

    proof fn lemma_key(self, id: Seq<char>) -> (i: int)
        requires
            self.has_distinct_ids(),
            self.sessions().contains_key(id),
        ensures
            is_at(self.entries@, id, i),
            self.sessions()[id] == self.entries@[i].session@,
    {
        let i = choose|i: int| is_at(self.entries@, id, i);
        self.lemma_entry(i);
        i
    }

    /// Registers a session under an id that is not taken.
    fn insert(&mut self, id: String, session: EditSession<C>)
        requires
            old(self).wf(),
            !old(self).sessions().contains_key(id@),
        ensures
            final(self).wf(),
            final(self).sessions() == old(self).sessions().insert(id@, session@),
            final(self).next_instance() == old(self).next_instance(),
    {
        let ghost before = *self;
        let ghost entry = Entry { id, session };
        self.entries.push(Entry { id, session });
        proof {
            let after = *self;
            assert(after.entries@ == before.entries@.push(entry));
            assert forall|i: int, j: int| 0 <= i < j < after.entries@.len() implies
                #[trigger] after.entries@[i].id@ != #[trigger] after.entries@[j].id@ by {
                before.lemma_entry(i);
                if j < before.entries@.len() {
                    assert(before.entries@[i].id@ != before.entries@[j].id@);
                }
            }
            let expected = before.sessions().insert(entry.id@, entry.session@);
            assert forall|key: Seq<char>|
                #![trigger after.sessions().dom().contains(key)]
                #![trigger expected.dom().contains(key)]
                #![trigger after.sessions()[key]]
                after.sessions().dom().contains(key) == expected.dom().contains(key) && (
                after.sessions().dom().contains(key) ==> after.sessions()[key] == expected[key]) by {
                if after.sessions().contains_key(key) {
                    let k = after.lemma_key(key);
                    if k < before.entries@.len() {
                        assert(before.entries@[k] == after.entries@[k]);
                        before.lemma_entry(k);
                    }
                }
                if before.sessions().contains_key(key) {
                    let k = before.lemma_key(key);
                    assert(before.entries@[k] == after.entries@[k]);
                    after.lemma_entry(k);
                }
                after.lemma_entry(before.entries@.len() as int);
            }
            assert(after.sessions() =~= expected);
        }
    }

    /// Takes the session of an id out of the registry.
    pub fn remove(&mut self, id: &str) -> (removed: Option<EditSession<C>>)
        requires
            old(self).wf(),
        ensures
            final(self).wf(),
            old(self).keyed_by_file() ==> final(self).keyed_by_file(),
            final(self).sessions() == old(self).sessions().remove(id@),
            final(self).next_instance() == old(self).next_instance(),
            match removed {
                Some(session) => {
                    &&& old(self).sessions().contains_key(id@)
                    &&& session@ == old(self).sessions()[id@]
                },
                None => !old(self).sessions().contains_key(id@),
            },
    {
        let ghost before = *self;
        match self.find(id) {
            None => {
                assert(before.sessions().remove(id@) =~= before.sessions());
                None
            },
            Some(at) => {
                let entry = self.entries.remove(at);
                proof {
                    let after = *self;
                    let k = at as int;
                    before.lemma_entry(k);
                    assert forall|i: int| 0 <= i < after.entries@.len() implies
                        #[trigger] after.entries@[i] == before.entries@[if i < k {
                        i
                    } else {
                        i + 1
                    }] by {}
                    assert forall|i: int, j: int| 0 <= i < j < after.entries@.len() implies
                        #[trigger] after.entries@[i].id@ != #[trigger] after.entries@[j].id@ by {
                        let m = if i < k {
                            i
                        } else {
                            i + 1
                        };
                        let n = if j < k {
                            j
                        } else {
                            j + 1
                        };
                        assert(before.entries@[m].id@ != before.entries@[n].id@);
                    }
                    let expected = before.sessions().remove(id@);
                    assert forall|key: Seq<char>|
                        #![trigger after.sessions().dom().contains(key)]
                        #![trigger expected.dom().contains(key)]
                        #![trigger after.sessions()[key]]
                        after.sessions().dom().contains(key) == expected.dom().contains(key) && (
                        after.sessions().dom().contains(key) ==> after.sessions()[key]
                            == expected[key]) by {
                        if after.sessions().contains_key(key) {
                            let i = after.lemma_key(key);
                            let m = if i < k {
                                i
                            } else {
                                i + 1
                            };
                            before.lemma_entry(m);
                            if m < k {
                                assert(before.entries@[m].id@ != before.entries@[k].id@);
                            } else {
                                assert(before.entries@[k].id@ != before.entries@[m].id@);
                            }
                        }
                        if before.sessions().contains_key(key) && key != id@ {
                            let i = before.lemma_key(key);
                            let m = if i < k {
                                i
                            } else {
                                i - 1
                            };
                            assert(after.entries@[m] == before.entries@[i]);
                            after.lemma_entry(m);
                        }
                    }
                    assert(after.sessions() =~= expected);
                }
                Some(entry.session)
            },
        }
    }

    /// Takes the session of an id out of the registry where it is the one that lies in the given
    /// directory. The session of another open of the same file is left alone.
    pub fn take_back(&mut self, id: &str, temp_dir: &str)
        requires
            old(self).wf(),
        ensures
            final(self).wf(),
            old(self).keyed_by_file() ==> final(self).keyed_by_file(),
            final(self).sessions() == sessions_after_take_back(
                old(self).sessions(),
                id@,
                temp_dir@,
            ),
            final(self).next_instance() == old(self).next_instance(),
    {
        if let Some(at) = self.find(id) {
            proof {
                self.lemma_entry(at as int);
            }
            if same_text(self.entries[at].session.temp_dir.as_str(), temp_dir) {
                let _ = self.remove(id);
            }
        }
    }

    /// The path of the file of the session registered under an id.
    fn local_path_of(&self, id: &str) -> (path: Option<String>)
        requires
            self.wf(),
        ensures
            match path {
                Some(found) => {
                    &&& self.sessions().contains_key(id@)
                    &&& found@ == self.sessions()[id@].local_path
                },
                None => !self.sessions().contains_key(id@),
            },
    {
        match self.find(id) {
            None => None,
            Some(at) => {
                proof {
                    self.lemma_entry(at as int);
                }
                Some(self.entries[at].session.local_path.clone())
            },
        }
    }

    /// Finds the session of a remote file, or registers a new one. Every call uses up an
    /// instance number, also where a session is found.
    pub fn reserve(
        &mut self,
        temp_root: &str,
        style: PathStyle,
        connection_id: String,
        remote_path: String,
        file_name: String,
        cancel: C,
    ) -> (reservation: Reservation)
        requires
            old(self).wf(),
        ensures
            final(self).wf(),
            old(self).keyed_by_file() ==> final(self).keyed_by_file(),
            final(self).next_instance() == instance_after(old(self).next_instance()),
            ({
                let id = session_id(connection_id@, remote_path@);
                let session = new_session(
                    temp_root@,
                    style,
                    old(self).next_instance(),
                    connection_id@,
                    remote_path@,
                    file_name@,
                    cancel,
                );
                &&& final(self).sessions() == sessions_after_open(old(self).sessions(), id, session)
                &&& match reservation {
                    Reservation::Existing { session_id, local_path } => {
                        &&& old(self).sessions().contains_key(id)
                        &&& session_id@ == id
                        &&& local_path@ == old(self).sessions()[id].local_path
                    },
                    Reservation::Created { session_id, temp_dir, local_path } => {
                        &&& !old(self).sessions().contains_key(id)
                        &&& session_id@ == id
                        &&& temp_dir@ == session.temp_dir
                        &&& local_path@ == session.local_path
                    },
                }
            }),
    {
        let id = session_id_for(connection_id.as_str(), remote_path.as_str());
        let instance: u64 = self.next_instance;
        self.next_instance = if instance == u64::MAX {
            0
        } else {
            instance + 1
        };
        assert(self.sessions() == old(self).sessions());
        let temp_dir = instance_dir_path(temp_root, style, id.as_str(), instance);
        let local_path = local_file_path(temp_dir.as_str(), style, file_name.as_str());
        match self.local_path_of(id.as_str()) {
            Some(existing) => Reservation::Existing { session_id: id, local_path: existing },
            None => {
                self.insert(
                    id.clone(),
                    EditSession {
                        connection_id,
                        remote_path,
                        file_name,
                        local_path: local_path.clone(),
                        temp_dir: temp_dir.clone(),
                        cancel,
                    },
                );
                Reservation::Created { session_id: id, temp_dir, local_path }
            },
        }
    }
}

impl<C> Default for EditSessionRegistry<C> {
    fn default() -> (registry: Self)
        ensures
            registry.wf(),
            registry.keyed_by_file(),
            registry.sessions() == Map::<Seq<char>, EditSessionView<C>>::empty(),
            registry.next_instance() == 0,
    {
        EditSessionRegistry::new()
    }
}

/// What came of asking for the session of a remote file.
#[derive(Debug, PartialEq, Eq)]
pub enum Reservation {
    /// There was one.
    Existing { session_id: String, local_path: String },
    /// There is one now.
    Created { session_id: String, temp_dir: String, local_path: String },
}

/// Takes a session out of the registry and hands over what stops its sync loop. An id that is
/// not registered changes nothing.
pub fn close_external_editor_session<C>(
    registry: &mut EditSessionRegistry<C>,
    session_id: &str,
) -> (cancel: Option<C>)
    requires
        old(registry).wf(),
    ensures
        final(registry).wf(),
        old(registry).keyed_by_file() ==> final(registry).keyed_by_file(),
        final(registry).sessions() == old(registry).sessions().remove(session_id@),
        final(registry).next_instance() == old(registry).next_instance(),
        cancel == if old(registry).sessions().contains_key(session_id@) {
            Some(old(registry).sessions()[session_id@].cancel)
        } else {
            None
        },
{
    match registry.remove(session_id) {
        Some(session) => Some(session.cancel),
        None => None,
    }
}

/// Whether a listing shows every session of a registry once, and nothing else.
pub open spec fn lists<C>(
    infos: Seq<EditSessionInfo>,
    sessions: Map<Seq<char>, EditSessionView<C>>,
) -> bool {
    &&& infos.len() == sessions.dom().len()
    &&& forall|i: int|
        0 <= i < infos.len() ==> {
            &&& sessions.contains_key((#[trigger] infos[i]).session_id@)
            &&& infos[i]@ == info_of(infos[i].session_id@, sessions[infos[i].session_id@])
        }
    &&& forall|i: int, j: int|
        0 <= i < j < infos.len() ==> (#[trigger] infos[i]).session_id@ != (
        #[trigger] infos[j]).session_id@
    &&& forall|id: Seq<char>| #[trigger]
        sessions.contains_key(id) ==> exists|i: int|
            0 <= i < infos.len() && (#[trigger] infos[i]).session_id@ == id
}

/// Lists the active sessions, in no particular order.
pub fn list_external_editor_sessions<C>(registry: &EditSessionRegistry<C>) -> (infos: Vec<
    EditSessionInfo,
>)
    requires
        registry.wf(),
    ensures
        lists(infos@, registry.sessions()),
{
    let mut infos: Vec<EditSessionInfo> = Vec::new();
    let mut i: usize = 0;
    while i < registry.entries.len()
        invariant
            registry.wf(),
            infos@.len() == i <= registry.entries@.len(),
            forall|j: int|
                0 <= j < i ==> (#[trigger] infos@[j])@ == info_of(
                    registry.entries@[j].id@,
                    registry.entries@[j].session@,
                ),
        decreases registry.entries@.len() - i,
    {
        let entry = &registry.entries[i];
        infos.push(
            EditSessionInfo {
                session_id: entry.id.clone(),
                connection_id: entry.session.connection_id.clone(),
                remote_path: entry.session.remote_path.clone(),
                file_name: entry.session.file_name.clone(),
                local_path: entry.session.local_path.clone(),
            },
        );
        i = i + 1;
    }
    proof {
        let sessions = registry.sessions();
        let ids = infos@.map_values(|info: EditSessionInfo| info.session_id@);
        assert forall|j: int| 0 <= j < infos@.len() implies {
            &&& sessions.contains_key((#[trigger] infos@[j]).session_id@)
            &&& infos@[j].session_id@ == registry.entries@[j].id@
            &&& infos@[j]@ == info_of(infos@[j].session_id@, sessions[infos@[j].session_id@])
        } by {
            registry.lemma_entry(j);
            assert(infos@[j]@.session_id == registry.entries@[j].id@);
        }
        assert forall|id: Seq<char>| #[trigger] sessions.contains_key(id) implies exists|j: int|
            0 <= j < infos@.len() && (#[trigger] infos@[j]).session_id@ == id by {
            let j = registry.lemma_key(id);
            assert(infos@[j].session_id@ == id);
        }
        assert(ids.no_duplicates());
        ids.unique_seq_to_set();
        assert(ids.to_set() =~= sessions.dom()) by {
            assert forall|id: Seq<char>| ids.to_set().contains(id) == #[trigger] sessions.dom().contains(
                id,
            ) by {
                if ids.contains(id) {
                    let j = choose|j: int| 0 <= j < ids.len() && ids[j] == id;
                    assert(infos@[j].session_id@ == id);
                }
                if sessions.contains_key(id) {
                    let j = choose|j: int|
                        0 <= j < infos@.len() && (#[trigger] infos@[j]).session_id@ == id;
                    assert(ids[j] == id);
                }
            }
        }
    }
    infos
}

/// A remote file has at most one session.
pub proof fn one_session_per_file<C>(registry: EditSessionRegistry<C>, a: Seq<char>, b: Seq<char>)
    requires
        registry.keyed_by_file(),
        registry.sessions().contains_key(a),
        registry.sessions().contains_key(b),
        registry.sessions()[a].connection_id == registry.sessions()[b].connection_id,
        registry.sessions()[a].remote_path == registry.sessions()[b].remote_path,
    ensures
        a == b,
{
}

/// Opening a file again finds the session that is already there: the id is the same, and
/// nothing is registered anew, whatever the second open brings.
pub proof fn opening_again_finds_the_session<C>(
    sessions: Map<Seq<char>, EditSessionView<C>>,
    temp_root: Seq<char>,
    style: PathStyle,
    connection_id: Seq<char>,
    remote_path: Seq<char>,
    first: (u64, Seq<char>, C),
    second: (u64, Seq<char>, C),
)
    ensures
        ({
            let id = session_id(connection_id, remote_path);
            let (instance, name, cancel) = first;
            let opened = sessions_after_open(
                sessions,
                id,
                new_session(temp_root, style, instance, connection_id, remote_path, name, cancel),
            );
            let (instance, name, cancel) = second;
            let again = sessions_after_open(
                opened,
                id,
                new_session(temp_root, style, instance, connection_id, remote_path, name, cancel),
            );
            &&& opened.contains_key(id)
            &&& again == opened
        }),
{
}

/// Whether every session lies where an open with this root puts it.
pub open spec fn placed_below<C>(
    sessions: Map<Seq<char>, EditSessionView<C>>,
    temp_root: Seq<char>,
    style: PathStyle,
) -> bool {
    forall|id: Seq<char>| #[trigger]
        sessions.contains_key(id) ==> {
            let session = sessions[id];
            &&& id == session_id(session.connection_id, session.remote_path)
            &&& session.local_path == local_file(session.temp_dir, style, session.file_name)
            &&& exists|instance: u64|
                session.temp_dir == #[trigger] instance_dir(temp_root, style, id, instance)
        }
}

/// Opening and closing keep every session where it belongs.
pub proof fn sessions_stay_placed<C>(
    sessions: Map<Seq<char>, EditSessionView<C>>,
    temp_root: Seq<char>,
    style: PathStyle,
    instance: u64,
    connection_id: Seq<char>,
    remote_path: Seq<char>,
    file_name: Seq<char>,
    cancel: C,
    closed: Seq<char>,
)
    requires
        placed_below(sessions, temp_root, style),
    ensures
        placed_below(
            sessions_after_open(
                sessions,
                session_id(connection_id, remote_path),
                new_session(
                    temp_root,
                    style,
                    instance,
                    connection_id,
                    remote_path,
                    file_name,
                    cancel,
                ),
            ),
            temp_root,
            style,
        ),
        placed_below(sessions.remove(closed), temp_root, style),
{
    let id = session_id(connection_id, remote_path);
    let opened = new_session(
        temp_root,
        style,
        instance,
        connection_id,
        remote_path,
        file_name,
        cancel,
    );
    let after = sessions_after_open(sessions, id, opened);
    assert forall|key: Seq<char>| #[trigger] after.contains_key(key) implies {
        let session = after[key];
        &&& key == session_id(session.connection_id, session.remote_path)
        &&& session.local_path == local_file(session.temp_dir, style, session.file_name)
        &&& exists|n: u64| session.temp_dir == #[trigger] instance_dir(temp_root, style, key, n)
    } by {
        if sessions.contains_key(key) {
            assert(after[key] == sessions[key]);
        } else {
            assert(after[key].temp_dir == instance_dir(temp_root, style, key, instance));
        }
    }
    assert forall|key: Seq<char>| #[trigger] sessions.remove(closed).contains_key(key) implies {
        let session = sessions.remove(closed)[key];
        &&& key == session_id(session.connection_id, session.remote_path)
        &&& session.local_path == local_file(session.temp_dir, style, session.file_name)
        &&& exists|n: u64| session.temp_dir == #[trigger] instance_dir(temp_root, style, key, n)
    } by {
        assert(sessions.contains_key(key));
    }
}

/// No two sessions share a directory, so cleaning up after one cannot touch another.
pub proof fn sessions_have_their_own_directories<C>(
    sessions: Map<Seq<char>, EditSessionView<C>>,
    temp_root: Seq<char>,
    style: PathStyle,
    a: Seq<char>,
    b: Seq<char>,
)
    requires
        placed_below(sessions, temp_root, style),
        sessions.contains_key(a),
        sessions.contains_key(b),
        a != b,
    ensures
        sessions[a].temp_dir != sessions[b].temp_dir,
{
    let m = choose|n: u64|
        sessions[a].temp_dir == #[trigger] instance_dir(temp_root, style, a, n);
    let n = choose|n: u64|
        sessions[b].temp_dir == #[trigger] instance_dir(temp_root, style, b, n);
    if sessions[a].temp_dir == sessions[b].temp_dir {
        instance_dirs_are_unique(
            temp_root,
            style,
            sessions[a].connection_id,
            sessions[a].remote_path,
            m,
            sessions[b].connection_id,
            sessions[b].remote_path,
            n,
        );
    }
}

/// Opening and closing one file leaves the sessions of all others alone.
pub proof fn other_sessions_are_left_alone<C>(
    sessions: Map<Seq<char>, EditSessionView<C>>,
    id: Seq<char>,
    opened: EditSessionView<C>,
    other: Seq<char>,
)
    requires
        other != id,
    ensures
        sessions_after_open(sessions, id, opened).contains_key(other) == sessions.contains_key(
            other,
        ),
        sessions.remove(id).contains_key(other) == sessions.contains_key(other),
        sessions.contains_key(other) ==> sessions_after_open(sessions, id, opened)[other]
            == sessions[other],
        sessions.contains_key(other) ==> sessions.remove(id)[other] == sessions[other],
{
}

/// Closing a session that was just created brings back the sessions from before, and what
/// stops the loop is what the session was created with.
pub proof fn closing_undoes_creating<C>(
    sessions: Map<Seq<char>, EditSessionView<C>>,
    id: Seq<char>,
    opened: EditSessionView<C>,
)
    requires
        !sessions.contains_key(id),
    ensures
        sessions_after_open(sessions, id, opened).remove(id) == sessions,
        sessions_after_open(sessions, id, opened)[id].cancel == opened.cancel,
{
    assert(sessions_after_open(sessions, id, opened).remove(id) =~= sessions);
}

/// The number of an instance after `n` further opens.
pub open spec fn instance_after_opens(instance: u64, n: nat) -> u64
    decreases n,
{
    if n == 0 {
        instance
    } else {
        instance_after(instance_after_opens(instance, (n - 1) as nat))
    }
}

proof fn lemma_instance_after_opens(instance: u64, n: nat)
    requires
        n <= u64::MAX,
    ensures
        instance_after_opens(instance, n) == if instance + n <= u64::MAX {
            instance + n
        } else {
            instance + n - u64::MAX - 1
        },
    decreases n,
{
    if n > 0 {
        lemma_instance_after_opens(instance, (n - 1) as nat);
    }
}

/// Every open has a directory of its own: any two opens, of the same file or of different ones,
/// have different directories, as long as the instance numbers have not run through.
pub proof fn every_open_has_its_own_directory(
    temp_root: Seq<char>,
    style: PathStyle,
    instance: u64,
    later: nat,
    connection_a: Seq<char>,
    path_a: Seq<char>,
    connection_b: Seq<char>,
    path_b: Seq<char>,
)
    requires
        0 < later <= u64::MAX,
    ensures
        instance_dir(temp_root, style, session_id(connection_a, path_a), instance) != instance_dir(
            temp_root,
            style,
            session_id(connection_b, path_b),
            instance_after_opens(instance, later),
        ),
{
    lemma_instance_after_opens(instance, later);
    let reopened = instance_after_opens(instance, later);
    if instance_dir(temp_root, style, session_id(connection_a, path_a), instance) == instance_dir(
        temp_root,
        style,
        session_id(connection_b, path_b),
        reopened,
    ) {
        instance_dirs_are_unique(
            temp_root,
            style,
            connection_a,
            path_a,
            instance,
            connection_b,
            path_b,
            reopened,
        );
    }
}

/// A file that is opened again after its session was closed gets a directory that no earlier
/// open of it had, as long as the instance numbers have not run through.
pub proof fn reopening_uses_a_new_directory<C>(
    temp_root: Seq<char>,
    style: PathStyle,
    instance: u64,
    later: nat,
    connection_id: Seq<char>,
    remote_path: Seq<char>,
    file_name: Seq<char>,
    first: C,
    second: C,
)
    requires
        0 < later <= u64::MAX,
    ensures
        new_session(temp_root, style, instance, connection_id, remote_path, file_name, first).temp_dir
            != new_session(
            temp_root,
            style,
            instance_after_opens(instance, later),
            connection_id,
            remote_path,
            file_name,
            second,
        ).temp_dir,
{
    every_open_has_its_own_directory(
        temp_root,
        style,
        instance,
        later,
        connection_id,
        remote_path,
        connection_id,
        remote_path,
    );
}

/// A session is seen as it is: no character of it is lost or changed in the view of it.
pub proof fn a_session_is_seen_as_it_is<C>(session: EditSession<C>, info: EditSessionInfo)
    ensures
        session@.connection_id == session.connection_id@,
        session@.remote_path == session.remote_path@,
        session@.file_name == session.file_name@,
        session@.local_path == session.local_path@,
        session@.temp_dir == session.temp_dir@,
        session@.cancel == session.cancel,
        info@.session_id == info.session_id@,
        info@.connection_id == info.connection_id@,
        info@.remote_path == info.remote_path@,
        info@.file_name == info.file_name@,
        info@.local_path == info.local_path@,
{
}

/// A new session keeps what it is opened with, whatever that is: the connection, the path, the
/// name and what stops its loop. Its directory is that of its file's id and its instance, and
/// its file lies there.
pub proof fn a_new_session_keeps_what_it_is_opened_with<C>(
    temp_root: Seq<char>,
    style: PathStyle,
    instance: u64,
    connection_id: Seq<char>,
    remote_path: Seq<char>,
    file_name: Seq<char>,
    cancel: C,
)
    ensures
        ({
            let session = new_session(
                temp_root,
                style,
                instance,
                connection_id,
                remote_path,
                file_name,
                cancel,
            );
            &&& session.connection_id == connection_id
            &&& session.remote_path == remote_path
            &&& session.file_name == file_name
            &&& session.cancel == cancel
            &&& session.temp_dir == instance_dir(
                temp_root,
                style,
                session_id(connection_id, remote_path),
                instance,
            )
            &&& session.local_path == local_file(session.temp_dir, style, file_name)
        }),
{
}

/// An open registers its session where the file has none, however many sessions there are, and
/// changes nothing where it has one.
pub proof fn an_open_registers_what_is_missing<C>(
    sessions: Map<Seq<char>, EditSessionView<C>>,
    id: Seq<char>,
    opened: EditSessionView<C>,
    key: Seq<char>,
)
    ensures
        ({
            let after = sessions_after_open(sessions, id, opened);
            &&& after.contains_key(key) <==> sessions.contains_key(key) || key == id
            &&& sessions.contains_key(key) ==> after[key] == sessions[key]
            &&& !sessions.contains_key(id) ==> after[id] == opened
        }),
{
}

/// Taking back removes the session of the id where it lies in the given directory, and nothing
/// else.
pub proof fn taking_back_removes_only_its_own<C>(
    sessions: Map<Seq<char>, EditSessionView<C>>,
    id: Seq<char>,
    temp_dir: Seq<char>,
    key: Seq<char>,
)
    ensures
        ({
            let after = sessions_after_take_back(sessions, id, temp_dir);
            &&& after.contains_key(key) <==> sessions.contains_key(key) && !(key == id
                && sessions[id].temp_dir == temp_dir)
            &&& after.contains_key(key) ==> after[key] == sessions[key]
        }),
{
}

/// Instances are counted one by one, and from zero again after the largest number.
pub proof fn instances_are_counted(instance: u64)
    ensures
        instance_after(instance) == (instance + 1) % 0x1_0000_0000_0000_0000,
{
}

/// A listing shows every session, with all that is to be shown of it.
pub proof fn a_listing_shows_every_session<C>(
    infos: Seq<EditSessionInfo>,
    sessions: Map<Seq<char>, EditSessionView<C>>,
    id: Seq<char>,
) -> (i: int)
    requires
        lists(infos, sessions),
        sessions.contains_key(id),
    ensures
        0 <= i < infos.len(),
        infos[i].session_id@ == id,
        infos[i].connection_id@ == sessions[id].connection_id,
        infos[i].remote_path@ == sessions[id].remote_path,
        infos[i].file_name@ == sessions[id].file_name,
        infos[i].local_path@ == sessions[id].local_path,
        forall|j: int| 0 <= j < infos.len() && j != i ==> (#[trigger] infos[j]).session_id@ != id,
{
    let i = choose|i: int| 0 <= i < infos.len() && (#[trigger] infos[i]).session_id@ == id;
    assert(infos[i]@ == info_of(id, sessions[id]));
    i
}

/// A listing shows nothing but sessions that are there, and as many as there are.
pub proof fn a_listing_shows_nothing_else<C>(
    infos: Seq<EditSessionInfo>,
    sessions: Map<Seq<char>, EditSessionView<C>>,
    i: int,
)
    requires
        lists(infos, sessions),
        0 <= i < infos.len(),
    ensures
        sessions.contains_key(infos[i].session_id@),
        infos.len() == sessions.dom().len(),
{
}

} // verus!
