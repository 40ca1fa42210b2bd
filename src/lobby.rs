//! The lobby: which channels are live, the file each one keeps, how many clients
//! are attached to each, and what happens when one joins or leaves.
use crate::folder::{channel_file, file_for, resolve, Folder, PathValidity, Resolution};
use crate::ids::{ChannelID, Counter, UserID};
use vstd::prelude::*;

verus! {

/// Error when joining
#[derive(Debug, Clone)]
pub enum JoinError {
    /// The path names no file of the folder tree (or a file with an empty name)
    InvalidPath(String),
    /// The path names a folder, with its directory
    IsFolder(String),
    /// No fresh ID is left to hand out
    OutOfIds,
}

/// What a successful join amounts to.
#[derive(Debug, Clone)]
pub enum Joined {
    /// The client joins a live channel
    Existing {
        /// The channel
        channel: ChannelID,
        /// The ID the client gets in it
        user: UserID,
    },
    /// A channel is created for the client, who is its first member
    Created {
        /// The new channel
        channel: ChannelID,
        /// The file it keeps its document in
        path: String,
        /// The ID the client gets in it
        user: UserID,
    },
}

/// What the lobby does when a channel reports that a member left.
#[derive(Debug, Clone, Copy, PartialEq, Eq, Structural)]
pub enum EndAction {
    /// Other members remain: nothing more to do
    Continue,
    /// That was the last member: the channel was removed and is to be told to terminate
    Terminate,
    /// The channel is not known, or its count is broken: the lobby stops
    Break,
}

/// A live channel as the lobby sees it.
#[derive(Debug)]
pub struct LobbyChannel {
    /// The ID of the channel
    pub id: ChannelID,
    /// The file the channel keeps its document in
    pub path: String,
    /// How many clients are attached
    pub count: u64,
    /// The IDs for the channel's users
    pub users: Counter<UserID>,
}

/// The registry of live channels.
pub struct LobbyState {
    next_id: Counter<ChannelID>,
    channels: Vec<LobbyChannel>,
    joins: Ghost<spec_fn(ChannelID) -> nat>,
    ends: Ghost<spec_fn(ChannelID) -> nat>,
}

/// Whether `chs` holds an entry for channel `c`.
pub open spec fn has_entry(chs: Seq<LobbyChannel>, c: ChannelID) -> bool {
    exists|i: int| 0 <= i < chs.len() && (#[trigger] chs[i]).id == c
}

/// No two live channels keep the same file.
pub open spec fn paths_unique(chs: Seq<LobbyChannel>) -> bool {
    forall|i: int, j: int| 0 <= i < j < chs.len() ==> (#[trigger] chs[i]).path@ != (#[trigger] chs[j]).path@
}

/// `new` is `old` with entry `k` changed in its count and user counter only: by
/// `dc` and `du`.
pub open spec fn entry_changed(old: Seq<LobbyChannel>, new: Seq<LobbyChannel>, k: int, dc: int, du: int) -> bool {
    &&& new.len() == old.len()
    &&& forall|i: int| 0 <= i < old.len() && i != k ==> #[trigger] new[i] == old[i]
    &&& new[k].id == old[k].id
    &&& new[k].path == old[k].path
    &&& new[k].count == old[k].count + dc
    &&& new[k].users.spec_value() == old[k].users.spec_value() + du
}

/// `f` with one more at `c`.
pub open spec fn bump(f: spec_fn(ChannelID) -> nat, c: ChannelID) -> spec_fn(ChannelID) -> nat {
    |x: ChannelID| if x == c { f(x) + 1 } else { f(x) }
}

fn find_channel(chs: &Vec<LobbyChannel>, c: ChannelID) -> (r: Option<usize>)
    ensures
        match r {
            Some(j) => j < chs@.len() && chs@[j as int].id == c,
            None => !has_entry(chs@, c),
        },
{
    let mut i: usize = 0;
    while i < chs.len()
        invariant
            i <= chs@.len(),
            forall|k: int| 0 <= k < i ==> (#[trigger] chs@[k]).id != c,
        decreases chs@.len() - i,
    {
        if chs[i].id == c {
            return Some(i);
        }
        i = i + 1;
    }
    None
}

fn find_path(chs: &Vec<LobbyChannel>, p: &String) -> (r: Option<usize>)
    ensures
        match r {
            Some(j) => j < chs@.len() && chs@[j as int].path@ == p@,
            None => forall|k: int| 0 <= k < chs@.len() ==> (#[trigger] chs@[k]).path@ != p@,
        },
{
    let mut i: usize = 0;
    while i < chs.len()
        invariant
            i <= chs@.len(),
            forall|k: int| 0 <= k < i ==> (#[trigger] chs@[k]).path@ != p@,
        decreases chs@.len() - i,
    {
        if crate::text::same_str(chs[i].path.as_str(), p.as_str()) {
            return Some(i);
        }
        i = i + 1;
    }
    None
}

impl LobbyState {
    /// The live channels.
    pub closed spec fn spec_channels(&self) -> Seq<LobbyChannel> {
        self.channels@
    }

    /// How many clients joined channel `c` so far.
    pub closed spec fn spec_joins(&self, c: ChannelID) -> nat {
        (self.joins@)(c)
    }

    /// How many departures from channel `c` the lobby processed so far.
    pub closed spec fn spec_ends(&self, c: ChannelID) -> nat {
        (self.ends@)(c)
    }

    /// The ID that the next new channel gets.
    pub closed spec fn spec_next_channel(&self) -> u64 {
        self.next_id.spec_value()
    }

    /// The registry is consistent: each channel's count is its joins minus its
    /// departures, and a channel has an entry exactly while that is positive.
    pub closed spec fn wf(&self) -> bool {
        let chs = self.channels@;
        &&& forall|c: ChannelID| #[trigger] (self.joins@)(c) >= (self.ends@)(c)
        &&& forall|c: ChannelID|
            #![trigger has_entry(chs, c)]
            #![trigger (self.joins@)(c)]
            has_entry(chs, c) <==> (self.joins@)(c) > (self.ends@)(c)
        &&& forall|c: ChannelID| c.0 >= self.next_id.spec_value() ==> #[trigger] (self.joins@)(c) == 0
        &&& forall|i: int|
            0 <= i < chs.len() ==> {
                &&& (#[trigger] chs[i]).count == (self.joins@)(chs[i].id) - (self.ends@)(chs[i].id)
                &&& (self.joins@)(chs[i].id) == chs[i].users.spec_value()
            }
        &&& forall|i: int, j: int| 0 <= i < j < chs.len() ==> (#[trigger] chs[i]).id != (#[trigger] chs[j]).id
        &&& paths_unique(chs)
    }

    /// An empty registry.
    pub fn new() -> (r: LobbyState)
        ensures
            r.wf(),
            r.spec_channels().len() == 0,
            forall|c: ChannelID| r.spec_joins(c) == 0 && r.spec_ends(c) == 0,
    {
        LobbyState {
            next_id: Counter::new(),
            channels: Vec::new(),
            joins: Ghost(|c: ChannelID| 0nat),
            ends: Ghost(|c: ChannelID| 0nat),
        }
    }

    /// The live channels.
    pub fn channels(&self) -> (r: &Vec<LobbyChannel>)
        ensures
            r@ == self.spec_channels(),
    {
        &self.channels
    }

    /// For every channel, the lobby's count of attached clients is the number that
    /// joined minus the number whose departure was processed, and the channel has
    /// an entry exactly while that number is positive.
    pub proof fn lemma_refcount(&self, c: ChannelID)
        requires
            self.wf(),
        ensures
            self.spec_joins(c) >= self.spec_ends(c),
            has_entry(self.spec_channels(), c) <==> self.spec_joins(c) > self.spec_ends(c),
            forall|i: int|
                0 <= i < self.spec_channels().len() && (#[trigger] self.spec_channels()[i]).id == c
                    ==> self.spec_channels()[i].count == self.spec_joins(c) - self.spec_ends(c),
    {
        assert(has_entry(self.channels@, c) <==> (self.joins@)(c) > (self.ends@)(c));
    }

    /// A file is kept by at most one live channel, and no two live channels share
    /// an ID.
    pub proof fn lemma_registry_unique(&self)
        requires
            self.wf(),
        ensures
            paths_unique(self.spec_channels()),
            forall|i: int, j: int|
                0 <= i < j < self.spec_channels().len() ==> (#[trigger] self.spec_channels()[i]).id
                    != (#[trigger] self.spec_channels()[j]).id,
    {
    }

    /// Handles a request to join `path`: resolves it in `folder` (with `base_dir`
    /// as the directory of folders that set none), then attaches the client to the
    /// live channel of that file, or creates one for it.
    pub fn handle_join_request(&mut self, folder: &Folder, path: &str, base_dir: String) -> (r:
        Result<Joined, JoinError>)
        requires
            old(self).wf(),
        ensures
            final(self).wf(),
            match resolve(*folder, path@, base_dir@) {
                Resolution::Invalid => r matches Err(JoinError::InvalidPath(p)) && p@ == path@
                    && *final(self) == *old(self),
                Resolution::Folder(d) => r matches Err(JoinError::IsFolder(s)) && s@ == d
                    && *final(self) == *old(self),
                Resolution::File(dir, name) => match r {
                    Err(JoinError::InvalidPath(p)) => p@ == path@ && crate::folder::slug_of(name).len() == 0
                        && *final(self) == *old(self),
                    Err(JoinError::OutOfIds) => {
                        &&& *final(self) == *old(self)
                        &&& crate::folder::slug_of(name).len() > 0
                        &&& {
                            ||| exists|i: int|
                                0 <= i < old(self).spec_channels().len()
                                    && (#[trigger] old(self).spec_channels()[i]).path@ == channel_file(dir, name)
                                    && old(self).spec_channels()[i].users.spec_value() == u64::MAX
                            ||| (forall|i: int|
                                0 <= i < old(self).spec_channels().len() ==> (#[trigger] old(
                                    self,
                                ).spec_channels()[i]).path@ != channel_file(dir, name))
                                && old(self).spec_next_channel() == u64::MAX
                        }
                    },
                    Err(JoinError::IsFolder(_)) => false,
                    Ok(Joined::Existing { channel, user }) => {
                        &&& exists|i: int|
                            0 <= i < old(self).spec_channels().len() && (#[trigger] old(
                                self,
                            ).spec_channels()[i]).id == channel
                                && old(self).spec_channels()[i].path@ == channel_file(dir, name)
                                && user.0 == old(self).spec_channels()[i].users.spec_value()
                                && entry_changed(old(self).spec_channels(), final(self).spec_channels(), i, 1, 1)
                        &&& final(self).spec_next_channel() == old(self).spec_next_channel()
                        &&& final(self).spec_joins(channel) == old(self).spec_joins(channel) + 1
                        &&& forall|c: ChannelID| c != channel ==> final(self).spec_joins(c) == old(self).spec_joins(c)
                        &&& forall|c: ChannelID| final(self).spec_ends(c) == old(self).spec_ends(c)
                    },
                Ok(Joined::Created { channel, path: file, user }) => {
                        &&& file@ == channel_file(dir, name)
                        &&& user.0 == 0
                        &&& channel.0 == old(self).spec_next_channel()
                        &&& forall|k: int| 0 <= k < old(self).spec_channels().len() ==> (#[trigger] old(
                            self,
                        ).spec_channels()[k]).path@ != file@
                        &&& final(self).spec_channels().drop_last() == old(self).spec_channels()
                        &&& final(self).spec_channels().len() == old(self).spec_channels().len() + 1
                        &&& final(self).spec_channels().last().id == channel
                        &&& final(self).spec_channels().last().path@ == file@
                        &&& final(self).spec_channels().last().count == 1
                        &&& final(self).spec_channels().last().users.spec_value() == 1
                        &&& final(self).spec_next_channel() == old(self).spec_next_channel() + 1
                        &&& final(self).spec_joins(channel) == 1
                        &&& forall|c: ChannelID| c != channel ==> final(self).spec_joins(c) == old(self).spec_joins(c)
                        &&& forall|c: ChannelID| final(self).spec_ends(c) == old(self).spec_ends(c)
                    },
                },
            },
    {
        let (dir, name) = match folder.check_name(path, base_dir) {
            PathValidity::Invalid => {
                return Err(JoinError::InvalidPath(path.to_owned()));
            },
            PathValidity::Folder(d) => {
                return Err(JoinError::IsFolder(d));
            },
            PathValidity::File(d, n) => (d, n),
        };
        let file = match file_for(&dir, &name) {
            Some(f) => f,
            None => {
                return Err(JoinError::InvalidPath(path.to_owned()));
            },
        };
        match find_path(&self.channels, &file) {
            Some(k) => {
                if !self.channels[k].users.has_next() {
                    assert(old(self).spec_channels()[k as int].path@ == channel_file(dir@, name@));
                    return Err(JoinError::OutOfIds);
                }
                let ghost c = self.channels@[k as int].id;
                let ghost old_chs = self.channels@;
                let ghost first_user = self.channels@[k as int].users.spec_value();
                let mut entry = self.channels.remove(k);
                let user: UserID = entry.users.next();
                assert(user.0 == first_user);
                entry.count = entry.count + 1;
                let channel = entry.id;
                self.channels.insert(k, entry);
                self.joins = Ghost(bump(self.joins@, c));
                proof {
                    let chs = self.channels@;
                    assert(chs =~= old_chs.update(k as int, chs[k as int]));
                    assert forall|x: ChannelID| has_entry(chs, x) <==> has_entry(old_chs, x) by {
                        if has_entry(old_chs, x) {
                            let i = choose|i: int| 0 <= i < old_chs.len() && (#[trigger] old_chs[i]).id == x;
                            assert(chs[i].id == x);
                        }
                        if has_entry(chs, x) {
                            let i = choose|i: int| 0 <= i < chs.len() && (#[trigger] chs[i]).id == x;
                            assert(old_chs[i].id == x);
                        }
                    }
                    assert forall|i: int| 0 <= i < chs.len() implies {
                        &&& (#[trigger] chs[i]).count == (self.joins@)(chs[i].id) - (self.ends@)(chs[i].id)
                        &&& (self.joins@)(chs[i].id) == chs[i].users.spec_value()
                    } by {
                        if i != k {
                            assert(old_chs[i].id != c);
                        }
                    }
                    assert forall|i: int, j: int| 0 <= i < j < chs.len() implies (#[trigger] chs[i]).id
                        != (#[trigger] chs[j]).id by {
                        assert(old_chs[i].id != old_chs[j].id);
                    }
                }
                assert(old_chs[k as int].id == channel && old_chs[k as int].path@ == file@
                    && user.0 == old_chs[k as int].users.spec_value());
                assert(self.spec_joins(channel) == old(self).spec_joins(channel) + 1);
                assert(forall|x: ChannelID| x != channel ==> self.spec_joins(x) == old(self).spec_joins(x));
                assert(forall|x: ChannelID| self.spec_ends(x) == old(self).spec_ends(x));
                assert(file@ == channel_file(dir@, name@));
                assert(old(self).spec_channels()[k as int] == old_chs[k as int]);
                Ok(Joined::Existing { channel, user })
            },
            None => {
                if !self.next_id.has_next() {
                    return Err(JoinError::OutOfIds);
                }
                let channel: ChannelID = self.next_id.next();
                let mut users: Counter<UserID> = Counter::new();
                let user: UserID = users.next();
                let ghost old_chs = self.channels@;
                self.channels.push(LobbyChannel { id: channel, path: file.clone(), count: 1, users });
                self.joins = Ghost(bump(self.joins@, channel));
                proof {
                    let chs = self.channels@;
                    assert(chs.drop_last() =~= old_chs);
                    assert(!has_entry(old_chs, channel)) by {
                        if has_entry(old_chs, channel) {
                            let i = choose|i: int| 0 <= i < old_chs.len() && (#[trigger] old_chs[i]).id == channel;
                            assert((old(self).joins@)(channel) == 0);
                        }
                    }
                    assert forall|x: ChannelID| has_entry(chs, x) <==> (self.joins@)(x) > (self.ends@)(x) by {
                        if x != channel {
                            if has_entry(old_chs, x) {
                                let i = choose|i: int| 0 <= i < old_chs.len() && (#[trigger] old_chs[i]).id == x;
                                assert(chs[i].id == x);
                            }
                            if has_entry(chs, x) {
                                let i = choose|i: int| 0 <= i < chs.len() && (#[trigger] chs[i]).id == x;
                                assert(i < old_chs.len());
                                assert(old_chs[i].id == x);
                            }
                        } else {
                            assert(chs[chs.len() - 1].id == x);
                        }
                    }
                    assert forall|i: int| 0 <= i < chs.len() implies {
                        &&& (#[trigger] chs[i]).count == (self.joins@)(chs[i].id) - (self.ends@)(chs[i].id)
                        &&& (self.joins@)(chs[i].id) == chs[i].users.spec_value()
                    } by {
                        if i < old_chs.len() {
                            assert(old_chs[i].id != channel) by {
                                assert(has_entry(old_chs, old_chs[i].id));
                            }
                        }
                    }
                    assert forall|i: int, j: int| 0 <= i < j < chs.len() implies (#[trigger] chs[i]).id
                        != (#[trigger] chs[j]).id by {
                        if j == chs.len() - 1 {
                            assert(has_entry(old_chs, old_chs[i].id));
                        } else {
                            assert(old_chs[i].id != old_chs[j].id);
                        }
                    }
                }
                assert(file@ == channel_file(dir@, name@));
                assert(user.0 == 0);
                assert(channel.0 == old(self).spec_next_channel());
                assert(self.spec_joins(channel) == 1);
                assert(forall|x: ChannelID| x != channel ==> self.spec_joins(x) == old(self).spec_joins(x));
                assert(forall|x: ChannelID| self.spec_ends(x) == old(self).spec_ends(x));
                assert(self.wf());
                Ok(Joined::Created { channel, path: file, user })
            },
        }
    }

    /// Handles the report of channel `c` that one of its members left: with more
    /// members attached the count goes down by one; for the last one the entry is
    /// removed and the channel is to terminate; an unknown channel stops the lobby.
    pub fn handle_end(&mut self, c: ChannelID) -> (r: EndAction)
        requires
            old(self).wf(),
        ensures
            final(self).wf(),
            has_entry(old(self).spec_channels(), c) ==> {
                &&& final(self).spec_ends(c) == old(self).spec_ends(c) + 1
                &&& forall|x: ChannelID| x != c ==> final(self).spec_ends(x) == old(self).spec_ends(x)
                &&& forall|x: ChannelID| final(self).spec_joins(x) == old(self).spec_joins(x)
                &&& (r == EndAction::Terminate) == (old(self).spec_joins(c) == old(self).spec_ends(c) + 1)
                &&& r != EndAction::Break
                &&& final(self).spec_next_channel() == old(self).spec_next_channel()
                &&& exists|k: int|
                    0 <= k < old(self).spec_channels().len() && (#[trigger] old(self).spec_channels()[k]).id == c
                        && if r == EndAction::Terminate {
                        final(self).spec_channels() == old(self).spec_channels().remove(k)
                    } else {
                        entry_changed(old(self).spec_channels(), final(self).spec_channels(), k, -1, 0)
                    }
            },
            !has_entry(old(self).spec_channels(), c) ==> r == EndAction::Break && *final(self) == *old(self),
    {
        let k = match find_channel(&self.channels, c) {
            Some(k) => k,
            None => {
                return EndAction::Break;
            },
        };
        let ghost old_chs = self.channels@;
        assert(has_entry(old_chs, c));
        if self.channels[k].count < 1 {
            return EndAction::Break;
        } else if self.channels[k].count == 1 {
            self.channels.remove(k);
            self.ends = Ghost(bump(self.ends@, c));
            proof {
                let chs = self.channels@;
                assert(chs =~= old_chs.remove(k as int));
                assert(!has_entry(chs, c)) by {
                    if has_entry(chs, c) {
                        let i = choose|i: int| 0 <= i < chs.len() && (#[trigger] chs[i]).id == c;
                        if i < k {
                            assert(old_chs[i].id != old_chs[k as int].id);
                        } else {
                            assert(old_chs[k as int].id != old_chs[i + 1].id);
                        }
                    }
                }
                assert forall|x: ChannelID| x != c implies (has_entry(chs, x) <==> has_entry(old_chs, x)) by {
                    if has_entry(old_chs, x) {
                        let i = choose|i: int| 0 <= i < old_chs.len() && (#[trigger] old_chs[i]).id == x;
                        if i < k {
                            assert(chs[i].id == x);
                        } else {
                            assert(i != k);
                            assert(chs[i - 1].id == x);
                        }
                    }
                    if has_entry(chs, x) {
                        let i = choose|i: int| 0 <= i < chs.len() && (#[trigger] chs[i]).id == x;
                        if i < k {
                            assert(old_chs[i].id == x);
                        } else {
                            assert(old_chs[i + 1].id == x);
                        }
                    }
                }
                assert forall|x: ChannelID| has_entry(chs, x) <==> (self.joins@)(x) > (self.ends@)(x) by {
                    if x != c {
                        assert(has_entry(chs, x) <==> has_entry(old_chs, x));
                    }
                }
                assert forall|i: int| 0 <= i < chs.len() implies {
                    &&& (#[trigger] chs[i]).count == (self.joins@)(chs[i].id) - (self.ends@)(chs[i].id)
                    &&& (self.joins@)(chs[i].id) == chs[i].users.spec_value()
                } by {
                    if i < k {
                        assert(old_chs[i].id != c);
                    } else {
                        assert(old_chs[i + 1].id != c);
                    }
                }
                assert forall|i: int, j: int| 0 <= i < j < chs.len() implies (#[trigger] chs[i]).id
                    != (#[trigger] chs[j]).id by {
                    if j < k {
                        assert(old_chs[i].id != old_chs[j].id);
                    } else if i < k {
                        assert(old_chs[i].id != old_chs[j + 1].id);
                    } else {
                        assert(old_chs[i + 1].id != old_chs[j + 1].id);
                    }
                }
            }
            EndAction::Terminate
        } else {
            let mut entry = self.channels.remove(k);
            entry.count = entry.count - 1;
            self.channels.insert(k, entry);
            self.ends = Ghost(bump(self.ends@, c));
            proof {
                let chs = self.channels@;
                assert(chs =~= old_chs.update(k as int, chs[k as int]));
                assert forall|x: ChannelID| has_entry(chs, x) <==> has_entry(old_chs, x) by {
                    if has_entry(old_chs, x) {
                        let i = choose|i: int| 0 <= i < old_chs.len() && (#[trigger] old_chs[i]).id == x;
                        assert(chs[i].id == x);
                    }
                    if has_entry(chs, x) {
                        let i = choose|i: int| 0 <= i < chs.len() && (#[trigger] chs[i]).id == x;
                        assert(old_chs[i].id == x);
                    }
                }
                assert forall|i: int| 0 <= i < chs.len() implies {
                    &&& (#[trigger] chs[i]).count == (self.joins@)(chs[i].id) - (self.ends@)(chs[i].id)
                    &&& (self.joins@)(chs[i].id) == chs[i].users.spec_value()
                } by {
                    if i != k {
                        assert(old_chs[i].id != c);
                    }
                }
                assert forall|i: int, j: int| 0 <= i < j < chs.len() implies (#[trigger] chs[i]).id
                    != (#[trigger] chs[j]).id by {
                    assert(old_chs[i].id != old_chs[j].id);
                }
            }
            EndAction::Continue
        }
    }
}

} // verus!
