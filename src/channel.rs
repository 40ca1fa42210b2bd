//! A channel: the shared document, its version, the member roster, and what the
//! channel's actor decides for each request. Queues and tasks live with the caller;
//! the document itself is opaque here and is edited by the document engine.
use crate::ids::UserID;
use crate::text::{decimal, json_quoted, json_string, push_char, push_decimal, push_str};
use vstd::prelude::*;

verus! {

/// Configuration for a user: the fields that a client asks to change
#[derive(Debug, Clone)]
pub struct UserConfig {
    /// When the name changed, this is `Some(..)` with the new name
    pub name: Option<String>,
    /// When the audio changed, this is `Some(..)` with the new audio setting
    pub audio: Option<bool>,
}

/// The reply to an initialization message
#[derive(Debug, Clone)]
pub struct InitReply {
    /// The last complete state of the doc, as JSON
    pub doc: String,
    /// The peers that are currently in the channel, as JSON
    pub j_peers: String,
}

/// A message from the channel to all clients
#[derive(Debug, Clone)]
pub enum Broadcast {
    /// A new user joined the channel
    NewUser {
        /// The ID of the new user
        remote_id: UserID,
        /// The JSON payload for the new user
        data: String,
    },
    /// A user left the channel
    UserLeft(UserID),
    /// A user changed their settings
    Update(UserID, UserConfig),
    /// The shared document has been updated with new steps
    Steps(String),
    /// A user sent a chat message
    ChatMessage(UserID, String),
}

/// A kind of signal from one client to another
#[derive(Debug, Clone)]
pub enum SignalKind {
    /// A WebRTC signal, as JSON text
    WebRTC(String),
}

/// A signal from one client to another
#[derive(Debug, Clone)]
pub struct Signal {
    /// The sender of this signal
    pub sender: UserID,
    /// The reciever of this signal
    pub reciever: UserID,
    /// The kind of this signal
    pub kind: SignalKind,
}

/// Data for a client that is public
#[derive(Debug, Clone)]
pub struct PublicMemberData {
    /// The name of the user
    pub name: String,
    /// Whether the user has audio enabled
    pub audio: bool,
}

/// The data that represents a user in a channel
#[derive(Debug, Clone)]
pub struct Member {
    /// The ID of the user
    pub id: UserID,
    /// The name of the user
    pub name: String,
    /// Whether the user has audio enabled
    pub audio: bool,
}

impl Member {
    /// Get the subset of that data that is public
    pub fn public(&self) -> (r: PublicMemberData)
        ensures
            r.name@ == self.name@,
            r.audio == self.audio,
    {
        PublicMemberData { name: self.name.clone(), audio: self.audio }
    }
}

/// `true` or `false` in JSON.
pub open spec fn bool_json(b: bool) -> Seq<char> {
    if b {
        "true"@
    } else {
        "false"@
    }
}

/// The public data of a member as a JSON object.
pub open spec fn public_json(name: Seq<char>, audio: bool) -> Seq<char> {
    "{\"name\":"@ + json_quoted(name) + ",\"audio\":"@ + bool_json(audio) + "}"@
}

/// One entry of the roster object.
pub open spec fn roster_entry(m: Member) -> Seq<char> {
    "\""@ + decimal(m.id.0 as nat) + "\":"@ + public_json(m.name@, m.audio)
}

/// The entries of the roster object, separated by commas.
pub open spec fn roster_entries(ms: Seq<Member>) -> Seq<char>
    decreases ms.len(),
{
    if ms.len() == 0 {
        Seq::empty()
    } else if ms.len() == 1 {
        roster_entry(ms[0])
    } else {
        roster_entries(ms.drop_last()) + ","@ + roster_entry(ms.last())
    }
}

/// The roster as a JSON object from user ID to public data.
pub open spec fn roster_json(ms: Seq<Member>) -> Seq<char> {
    "{"@ + roster_entries(ms) + "}"@
}

/// The document state sent on init: the document's JSON and the version.
pub open spec fn doc_state_json(doc: Seq<char>, version: nat) -> Seq<char> {
    "{\"doc\":"@ + doc + ",\"version\":"@ + decimal(version) + "}"@
}

/// A batch of steps as broadcast: a one-element array of `{src, steps}`.
pub open spec fn batch_json(src: UserID, steps: Seq<char>) -> Seq<char> {
    "[{\"src\":"@ + decimal(src.0 as nat) + ",\"steps\":"@ + steps + "}]"@
}

/// The name a user gets who does not choose one.
pub open spec fn default_name(id: UserID) -> Seq<char> {
    "Bear #"@ + decimal(id.0 as nat)
}

/// The index of the first member with ID `id`, if any.
pub open spec fn member_index(ms: Seq<Member>, id: UserID) -> Option<int>
    decreases ms.len(),
{
    if ms.len() == 0 {
        None
    } else {
        match member_index(ms.drop_last(), id) {
            Some(i) => Some(i),
            None => if ms.last().id == id {
                Some(ms.len() - 1)
            } else {
                None
            },
        }
    }
}

/// No two members share an ID.
pub open spec fn ids_unique(ms: Seq<Member>) -> bool {
    forall|i: int, j: int| 0 <= i < j < ms.len() ==> (#[trigger] ms[i]).id != (#[trigger] ms[j]).id
}

/// The sum of a sequence of counts.
pub open spec fn total(s: Seq<nat>) -> nat
    decreases s.len(),
{
    if s.len() == 0 {
        0
    } else {
        total(s.drop_last()) + s.last()
    }
}

/// The member record after `cfg` is applied: only the supplied fields change.
pub open spec fn updated(m: Member, cfg: UserConfig) -> Member {
    Member {
        id: m.id,
        name: match cfg.name {
            Some(n) => n,
            None => m.name,
        },
        audio: match cfg.audio {
            Some(a) => a,
            None => m.audio,
        },
    }
}

proof fn lemma_member_index(s: Seq<Member>, id: UserID, k: int)
    requires
        0 <= k <= s.len(),
        member_index(s.take(k), id) is Some,
    ensures
        member_index(s, id) == member_index(s.take(k), id),
    decreases s.len() - k,
{
    if k < s.len() {
        assert(s.drop_last().take(k) =~= s.take(k));
        lemma_member_index(s.drop_last(), id, k);
    } else {
        assert(s.take(k) =~= s);
    }
}

fn find_member(ms: &Vec<Member>, id: UserID) -> (r: Option<usize>)
    ensures
        match r {
            Some(j) => j < ms@.len() && member_index(ms@, id) == Some(j as int) && ms@[j as int].id == id,
            None => member_index(ms@, id) is None && forall|k: int| 0 <= k < ms@.len() ==> (#[trigger] ms@[k]).id != id,
        },
{
    let mut i: usize = 0;
    while i < ms.len()
        invariant
            i <= ms@.len(),
            member_index(ms@.take(i as int), id) is None,
            forall|k: int| 0 <= k < i ==> (#[trigger] ms@[k]).id != id,
        decreases ms@.len() - i,
    {
        assert(ms@.take(i + 1).drop_last() =~= ms@.take(i as int));
        if ms[i].id == id {
            proof {
                lemma_member_index(ms@, id, i + 1);
            }
            return Some(i);
        }
        i = i + 1;
    }
    assert(ms@.take(i as int) =~= ms@);
    None
}

fn push_bool_json(s: &mut String, b: bool)
    ensures
        final(s)@ == old(s)@ + bool_json(b),
{
    if b {
        push_str(s, "true");
    } else {
        push_str(s, "false");
    }
}

/// The public data of a member as a JSON object.
pub fn member_json(name: &str, audio: bool) -> (r: String)
    ensures
        r@ == public_json(name@, audio),
{
    let mut out = String::new();
    push_str(&mut out, "{\"name\":");
    let q = json_string(name);
    push_str(&mut out, q.as_str());
    push_str(&mut out, ",\"audio\":");
    push_bool_json(&mut out, audio);
    push_str(&mut out, "}");
    out
}

/// The roster as a JSON object from user ID to public data, in roster order.
pub fn peers_json(ms: &Vec<Member>) -> (r: String)
    ensures
        r@ == roster_json(ms@),
{
    let mut out = String::new();
    push_str(&mut out, "{");
    let ghost start = out@;
    let mut i: usize = 0;
    while i < ms.len()
        invariant
            i <= ms@.len(),
            start == "{"@,
            out@ == start + roster_entries(ms@.take(i as int)),
        decreases ms@.len() - i,
    {
        let ghost before = out@;
        if i > 0 {
            push_str(&mut out, ",");
        }
        let ghost mid = out@;
        push_str(&mut out, "\"");
        push_decimal(&mut out, ms[i].id.0);
        push_str(&mut out, "\":");
        let entry = member_json(ms[i].name.as_str(), ms[i].audio);
        push_str(&mut out, entry.as_str());
        proof {
            let t = ms@.take(i + 1);
            assert(t.drop_last() =~= ms@.take(i as int));
            assert(t.last() == ms@[i as int]);
            assert(out@ =~= mid + roster_entry(ms@[i as int]));
            if i == 0 {
                assert(t.len() == 1);
                assert(ms@.take(0) =~= Seq::<Member>::empty());
                assert(mid == start);
                assert(out@ =~= start + roster_entries(t));
            } else {
                assert(mid == before + ","@);
                assert(out@ =~= start + roster_entries(t));
            }
        }
        i = i + 1;
    }
    assert(ms@.take(ms@.len() as int) =~= ms@);
    push_str(&mut out, "}");
    out
}

/// The state of a channel: its document, how many steps were applied to it since
/// it was loaded, and its members.
pub struct ChannelState<D> {
    doc: D,
    version: usize,
    members: Vec<Member>,
    accepted: Ghost<Seq<nat>>,
}

impl<D> ChannelState<D> {
    /// The current document.
    pub closed spec fn spec_doc(&self) -> D {
        self.doc
    }

    /// The current version.
    pub closed spec fn spec_version(&self) -> nat {
        self.version as nat
    }

    /// The members, in the order they joined.
    pub closed spec fn spec_members(&self) -> Seq<Member> {
        self.members@
    }

    /// The lengths of the step batches accepted since the document was loaded.
    pub closed spec fn spec_accepted(&self) -> Seq<nat> {
        self.accepted@
    }

    /// The version counts every step accepted since the document was loaded.
    pub closed spec fn wf(&self) -> bool {
        &&& self.version as nat == total(self.accepted@)
        &&& ids_unique(self.members@)
    }

    /// Whether a batch of `count` steps against `declared` would be applied:
    /// its version is the current one, it is not empty, and the new version fits.
    pub open spec fn spec_accepts(&self, declared: usize, count: usize) -> bool {
        &&& declared as nat == self.spec_version()
        &&& count > 0
        &&& self.spec_version() + count <= usize::MAX
    }

    /// A fresh channel state around a loaded document: version 0, no members.
    pub fn new(doc: D) -> (r: Self)
        ensures
            r.wf(),
            r.spec_doc() == doc,
            r.spec_version() == 0,
            r.spec_members().len() == 0,
            r.spec_accepted().len() == 0,
    {
        ChannelState { doc, version: 0, members: Vec::new(), accepted: Ghost(Seq::empty()) }
    }

    /// The current document.
    pub fn doc(&self) -> (r: &D)
        ensures
            *r == self.spec_doc(),
    {
        &self.doc
    }

    /// The current version.
    pub fn version(&self) -> (r: usize)
        ensures
            r as nat == self.spec_version(),
    {
        self.version
    }

    /// The members, in the order they joined.
    pub fn members(&self) -> (r: &Vec<Member>)
        ensures
            r@ == self.spec_members(),
    {
        &self.members
    }

    /// The version always equals the total length of the accepted batches.
    pub proof fn lemma_version_is_total(&self)
        requires
            self.wf(),
        ensures
            self.spec_version() == total(self.spec_accepted()),
    {
    }

    /// No two members of a channel share an ID.
    pub proof fn lemma_ids_unique(&self)
        requires
            self.wf(),
        ensures
            ids_unique(self.spec_members()),
    {
    }

    /// Whether a batch of `count` steps declared against version `declared` is to
    /// be applied.
    pub fn accepts(&self, declared: usize, count: usize) -> (r: bool)
        ensures
            r == self.spec_accepts(declared, count),
    {
        declared == self.version && count > 0 && count <= usize::MAX - self.version
    }

    /// Admits user `id`: records the member (named `name`, or `Bear #<id>`, with
    /// audio off), and returns the reply for the user, with the document state and
    /// the roster that includes them, and the announcement for everyone.
    /// `doc_json` is the current document as JSON.
    pub fn init_member(&mut self, id: UserID, name: Option<String>, doc_json: &str) -> (r: (
        InitReply,
        Broadcast,
    ))
        requires
            old(self).wf(),
        ensures
            final(self).wf(),
            final(self).spec_doc() == old(self).spec_doc(),
            final(self).spec_version() == old(self).spec_version(),
            final(self).spec_accepted() == old(self).spec_accepted(),
            ({
                let new_name = match name {
                    Some(n) => n@,
                    None => default_name(id),
                };
                let ms = old(self).spec_members();
                let ms2 = final(self).spec_members();
                &&& match member_index(ms, id) {
                    Some(j) => ms2 == ms.update(j, Member { id, name: ms2[j].name, audio: false }),
                    None => ms2 == ms.push(Member { id, name: ms2.last().name, audio: false }),
                }
                &&& member_index(ms2, id) matches Some(k) && ms2[k].name@ == new_name
                &&& r.0.doc@ == doc_state_json(doc_json@, old(self).spec_version())
                &&& r.0.j_peers@ == roster_json(ms2)
                &&& r.1 matches Broadcast::NewUser { remote_id, data } && remote_id == id && data@
                    == public_json(new_name, false)
            }),
    {
        let new_name = match name {
            Some(n) => n,
            None => {
                let mut s = String::new();
                push_str(&mut s, "Bear #");
                push_decimal(&mut s, id.0);
                s
            },
        };
        let mut doc = String::new();
        push_str(&mut doc, "{\"doc\":");
        push_str(&mut doc, doc_json);
        push_str(&mut doc, ",\"version\":");
        push_decimal(&mut doc, self.version as u64);
        push_str(&mut doc, "}");
        let data = member_json(new_name.as_str(), false);
        let member = Member { id, name: new_name, audio: false };
        match find_member(&self.members, id) {
            Some(j) => {
                self.members.set(j, member);
                proof {
                    let ms2 = self.members@;
                    assert(ms2.take(j as int + 1).drop_last() =~= old(self).members@.take(j as int));
                    lemma_member_index(old(self).members@, id, j as int + 1);
                    assert(member_index(ms2.take(j as int + 1), id) == Some(j as int)) by {
                        assert(ms2.take(j as int + 1).drop_last() =~= old(self).members@.take(
                            j as int + 1,
                        ).drop_last());
                    }
                    lemma_member_index(ms2, id, j as int + 1);
                    assert forall|a: int, b: int| 0 <= a < b < ms2.len() implies (#[trigger] ms2[a]).id
                        != (#[trigger] ms2[b]).id by {
                        assert(old(self).members@[a].id != old(self).members@[b].id);
                    }
                }
            },
            None => {
                self.members.push(member);
                proof {
                    let ms2 = self.members@;
                    assert(ms2.drop_last() =~= old(self).members@);
                    assert forall|a: int, b: int| 0 <= a < b < ms2.len() implies (#[trigger] ms2[a]).id
                        != (#[trigger] ms2[b]).id by {
                        if b < ms2.len() - 1 {
                            assert(old(self).members@[a].id != old(self).members@[b].id);
                        }
                    }
                }
            },
        }
        let j_peers = peers_json(&self.members);
        (InitReply { doc, j_peers }, Broadcast::NewUser { remote_id: id, data })
    }

    /// A chat message from `id`, for everyone.
    pub fn chat(&self, id: UserID, text: String) -> (r: Broadcast)
        ensures
            r matches Broadcast::ChatMessage(src, t) && src == id && t == text,
    {
        Broadcast::ChatMessage(id, text)
    }

    /// Applies the supplied fields of `cfg` to member `id` and announces them; a
    /// user who is not a member is ignored.
    pub fn update_member(&mut self, id: UserID, cfg: UserConfig) -> (r: Option<Broadcast>)
        requires
            old(self).wf(),
        ensures
            final(self).wf(),
            final(self).spec_doc() == old(self).spec_doc(),
            final(self).spec_version() == old(self).spec_version(),
            final(self).spec_accepted() == old(self).spec_accepted(),
            match member_index(old(self).spec_members(), id) {
                Some(j) => {
                    &&& final(self).spec_members() == old(self).spec_members().update(
                        j,
                        updated(old(self).spec_members()[j], cfg),
                    )
                    &&& r matches Some(Broadcast::Update(src, c)) && src == id && c == cfg
                },
                None => final(self).spec_members() == old(self).spec_members() && r is None,
            },
    {
        match find_member(&self.members, id) {
            Some(j) => {
                let old_member = &self.members[j];
                let name = match &cfg.name {
                    Some(n) => n.clone(),
                    None => old_member.name.clone(),
                };
                let audio = match cfg.audio {
                    Some(a) => a,
                    None => old_member.audio,
                };
                let m = Member { id: old_member.id, name, audio };
                assert(m == updated(old(self).members@[j as int], cfg));
                self.members.set(j, m);
                assert forall|a: int, b: int| 0 <= a < b < self.members@.len() implies (
                #[trigger] self.members@[a]).id != (#[trigger] self.members@[b]).id by {
                    assert(old(self).members@[a].id != old(self).members@[b].id);
                }
                Some(Broadcast::Update(id, cfg))
            },
            None => None,
        }
    }

    /// Whether a signal to `receiver` has anyone to go to.
    pub fn has_member(&self, receiver: UserID) -> (r: bool)
        ensures
            r == (member_index(self.spec_members(), receiver) is Some),
    {
        find_member(&self.members, receiver).is_some()
    }

    /// Removes member `id` and announces that they left.
    pub fn close_member(&mut self, id: UserID) -> (r: Broadcast)
        requires
            old(self).wf(),
        ensures
            final(self).wf(),
            final(self).spec_doc() == old(self).spec_doc(),
            final(self).spec_version() == old(self).spec_version(),
            final(self).spec_accepted() == old(self).spec_accepted(),
            match member_index(old(self).spec_members(), id) {
                Some(j) => final(self).spec_members() == old(self).spec_members().remove(j),
                None => final(self).spec_members() == old(self).spec_members(),
            },
            forall|i: int|
                0 <= i < final(self).spec_members().len() ==> (#[trigger] final(self).spec_members()[i]).id
                    != id,
            r matches Broadcast::UserLeft(u) && u == id,
    {
        match find_member(&self.members, id) {
            Some(j) => {
                self.members.remove(j);
                proof {
                    let ms = old(self).members@;
                    let ms2 = self.members@;
                    assert(ms2 =~= ms.remove(j as int));
                    assert forall|a: int, b: int| 0 <= a < b < ms2.len() implies (#[trigger] ms2[a]).id
                        != (#[trigger] ms2[b]).id by {
                        if b < j {
                            assert(ms[a].id != ms[b].id);
                        } else if a < j {
                            assert(ms[a].id != ms[b + 1].id);
                        } else {
                            assert(ms[a + 1].id != ms[b + 1].id);
                        }
                    }
                    assert forall|i: int| 0 <= i < ms2.len() implies (#[trigger] ms2[i]).id != id by {
                        if i < j {
                            assert(ms[i].id != ms[j as int].id);
                        } else {
                            assert(ms[j as int].id != ms[i + 1].id);
                        }
                    }
                }
            },
            None => {},
        }
        Broadcast::UserLeft(id)
    }

    /// Takes a batch of `count` steps by `src`, declared against version
    /// `declared`. `outcome` is the document after the whole batch was applied to
    /// the current one, or `None` where a step failed. A batch that is not accepted
    /// (see `accepts`) or that failed leaves everything as it was and is not
    /// announced; otherwise the document is replaced, the version grows by
    /// `count`, and `steps` (the batch as JSON) is announced with its author.
    pub fn apply_steps(
        &mut self,
        src: UserID,
        declared: usize,
        count: usize,
        outcome: Option<D>,
        steps: &str,
    ) -> (r: Option<Broadcast>)
        requires
            old(self).wf(),
        ensures
            final(self).wf(),
            final(self).spec_members() == old(self).spec_members(),
            match outcome {
                Some(d) if old(self).spec_accepts(declared, count) => {
                    &&& final(self).spec_doc() == d
                    &&& final(self).spec_version() == old(self).spec_version() + count
                    &&& final(self).spec_accepted() == old(self).spec_accepted().push(count as nat)
                    &&& r matches Some(Broadcast::Steps(t)) && t@ == batch_json(src, steps@)
                },
                _ => {
                    &&& *final(self) == *old(self)
                    &&& r is None
                },
            },
    {
        if !self.accepts(declared, count) {
            return None;
        }
        match outcome {
            None => None,
            Some(d) => {
                self.doc = d;
                self.version = self.version + count;
                self.accepted = Ghost(self.accepted@.push(count as nat));
                assert(self.accepted@.drop_last() =~= old(self).accepted@);
                let mut text = String::new();
                push_str(&mut text, "[{\"src\":");
                push_decimal(&mut text, src.0);
                push_str(&mut text, ",\"steps\":");
                push_str(&mut text, steps);
                push_str(&mut text, "}]");
                Some(Broadcast::Steps(text))
            },
        }
    }
}

} // verus!
