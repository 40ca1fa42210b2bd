//! The tree of configured folders, and how a URL path resolves against it.
use crate::text::{chars_of, push_char, push_str, same_str, string_from};
use vstd::prelude::*;

verus! {

/// A folder in the system
#[derive(Debug)]
pub struct Folder {
    /// The directory to save the files to; inherited from the parent when unset
    pub save_dir: Option<String>,
    /// The subfolders from this folder, by name
    pub sub: Vec<SubFolder>,
}

/// A named subfolder
#[derive(Debug)]
pub struct SubFolder {
    /// The path segment that selects this folder
    pub name: String,
    /// The folder itself
    pub folder: Folder,
}

/// What a resolved path is, as plain values.
pub enum Resolution {
    /// The path is not valid
    Invalid,
    /// The path names a folder, with its directory
    Folder(Seq<char>),
    /// The path names a file: its directory and its name
    File(Seq<char>, Seq<char>),
}

/// The type of file
#[derive(Debug, Clone)]
pub enum PathValidity {
    /// The path is not valid
    Invalid,
    /// The path is a file (shared text document): its directory and its name
    File(String, String),
    /// The path is a folder (choose a file): its directory
    Folder(String),
}

impl View for PathValidity {
    type V = Resolution;

    open spec fn view(&self) -> Resolution {
        match self {
            PathValidity::Invalid => Resolution::Invalid,
            PathValidity::File(d, f) => Resolution::File(d@, f@),
            PathValidity::Folder(d) => Resolution::Folder(d@),
        }
    }
}

/// `s` split at every `sep`.
pub open spec fn split_on(s: Seq<char>, sep: char) -> Seq<Seq<char>>
    decreases s.len(),
{
    if s.len() == 0 {
        seq![Seq::empty()]
    } else {
        let rest = split_on(s.drop_last(), sep);
        if s.last() == sep {
            rest.push(Seq::empty())
        } else {
            rest.update(rest.len() - 1, rest.last().push(s.last()))
        }
    }
}

/// The directory `dir` with the entry `name` below it.
pub open spec fn join(dir: Seq<char>, name: Seq<char>) -> Seq<char> {
    dir + seq!['/'] + name
}

/// The index of the first subfolder called `name`, if any.
pub open spec fn sub_index(sub: Seq<SubFolder>, name: Seq<char>) -> Option<int>
    decreases sub.len(),
{
    if sub.len() == 0 {
        None
    } else {
        match sub_index(sub.drop_last(), name) {
            Some(i) => Some(i),
            None => if sub.last().name@ == name {
                Some(sub.len() - 1)
            } else {
                None
            },
        }
    }
}

/// No two subfolders share a name.
pub open spec fn names_unique(sub: Seq<SubFolder>) -> bool {
    forall|i: int, j: int| 0 <= i < j < sub.len() ==> (#[trigger] sub[i]).name@ != (#[trigger] sub[j]).name@
}

/// The directory that `f` saves to, given the one inherited from its parent.
pub open spec fn dir_of(f: Folder, inherited: Seq<char>) -> Seq<char> {
    match f.save_dir {
        Some(d) => d@,
        None => inherited,
    }
}

/// Resolves the segments `segs[i..]` in folder `f`, whose parent's directory is `dir`.
pub open spec fn walk(f: Folder, segs: Seq<Seq<char>>, i: int, dir: Seq<char>) -> Resolution
    decreases segs.len() - i,
{
    let d = dir_of(f, dir);
    if i + 1 < segs.len() {
        match sub_index(f.sub@, segs[i]) {
            Some(j) => walk(f.sub@[j].folder, segs, i + 1, join(d, segs[i])),
            None => Resolution::Invalid,
        }
    } else if i + 1 == segs.len() {
        if segs[i].len() == 0 {
            Resolution::Folder(d)
        } else {
            Resolution::File(d, segs[i])
        }
    } else {
        Resolution::Invalid
    }
}

/// Resolves `path` against the folder `f`, with `base` as the directory of a
/// folder that sets none.
pub open spec fn resolve(f: Folder, path: Seq<char>, base: Seq<char>) -> Resolution {
    let segs = split_on(path, '/');
    if segs.len() >= 2 && segs[0].len() == 0 {
        walk(f, segs, 1, base)
    } else {
        Resolution::Invalid
    }
}

proof fn lemma_split_on_nonempty(s: Seq<char>, sep: char)
    ensures
        split_on(s, sep).len() >= 1,
    decreases s.len(),
{
    if s.len() > 0 {
        lemma_split_on_nonempty(s.drop_last(), sep);
    }
}

proof fn lemma_sub_index(s: Seq<SubFolder>, name: Seq<char>, k: int)
    requires
        0 <= k <= s.len(),
        sub_index(s.take(k), name) is Some,
    ensures
        sub_index(s, name) == sub_index(s.take(k), name),
    decreases s.len() - k,
{
    if k < s.len() {
        assert(s.drop_last().take(k) =~= s.take(k));
        lemma_sub_index(s.drop_last(), name, k);
    } else {
        assert(s.take(k) =~= s);
    }
}

proof fn lemma_sub_index_found(s: Seq<SubFolder>, name: Seq<char>)
    ensures
        sub_index(s, name) matches Some(j) ==> 0 <= j < s.len() && s[j].name@ == name,
    decreases s.len(),
{
    if s.len() > 0 {
        lemma_sub_index_found(s.drop_last(), name);
    }
}

/// Splits `s` at every `/`.
pub fn split_slash(s: &str) -> (r: Vec<String>)
    ensures
        r@.len() == split_on(s@, '/').len(),
        forall|k: int| 0 <= k < r@.len() ==> #[trigger] r@[k]@ == split_on(s@, '/')[k],
{
    let cs = chars_of(s);
    let mut segs: Vec<String> = Vec::new();
    let mut cur: Vec<char> = Vec::new();
    let mut i: usize = 0;
    while i < cs.len()
        invariant
            cs@ == s@,
            i <= cs.len(),
            split_on(cs@.take(i as int), '/').len() == segs@.len() + 1,
            forall|k: int| 0 <= k < segs@.len() ==> #[trigger] segs@[k]@ == split_on(cs@.take(i as int), '/')[k],
            cur@ == split_on(cs@.take(i as int), '/').last(),
        decreases cs.len() - i,
    {
        let c = cs[i];
        let ghost prev = split_on(cs@.take(i as int), '/');
        assert(cs@.take(i + 1).drop_last() =~= cs@.take(i as int));
        if c == '/' {
            let piece = string_from(&cur, 0, cur.len());
            segs.push(piece);
            cur = Vec::new();
            assert(split_on(cs@.take(i + 1), '/') == prev.push(Seq::<char>::empty()));
        } else {
            cur.push(c);
            proof {
                lemma_split_on_nonempty(cs@.take(i as int), '/');
            }
            assert(split_on(cs@.take(i + 1), '/') == prev.update(prev.len() - 1, prev.last().push(c)));
        }
        i = i + 1;
    }
    assert(cs@.take(cs.len() as int) =~= cs@);
    let last = string_from(&cur, 0, cur.len());
    segs.push(last);
    segs
}

/// The path of `name` inside the directory `dir`.
pub fn join_path(dir: &String, name: &String) -> (r: String)
    ensures
        r@ == join(dir@, name@),
{
    let mut out = dir.clone();
    push_char(&mut out, '/');
    push_str(&mut out, name.as_str());
    out
}

impl Folder {
    /// A folder without subfolders.
    pub fn new(save_dir: Option<String>) -> (r: Folder)
        ensures
            r.save_dir == save_dir,
            r.sub@.len() == 0,
            names_unique(r.sub@),
    {
        Folder { save_dir, sub: Vec::new() }
    }

    /// The subfolder called `name`, if any.
    pub fn find_sub(&self, name: &String) -> (r: Option<usize>)
        ensures
            match r {
                Some(j) => j < self.sub@.len() && sub_index(self.sub@, name@) == Some(j as int),
                None => sub_index(self.sub@, name@) is None && forall|k: int|
                    0 <= k < self.sub@.len() ==> (#[trigger] self.sub@[k]).name@ != name@,
            },
    {
        let mut i: usize = 0;
        while i < self.sub.len()
            invariant
                i <= self.sub@.len(),
                sub_index(self.sub@.take(i as int), name@) is None,
                forall|k: int| 0 <= k < i ==> (#[trigger] self.sub@[k]).name@ != name@,
            decreases self.sub@.len() - i,
        {
            assert(self.sub@.take(i + 1).drop_last() =~= self.sub@.take(i as int));
            if same_str(self.sub[i].name.as_str(), name.as_str()) {
                proof {
                    lemma_sub_index(self.sub@, name@, i + 1);
                }
                return Some(i);
            }
            i = i + 1;
        }
        assert(self.sub@.take(i as int) =~= self.sub@);
        None
    }

    /// Adds `folder` under `name`, replacing a subfolder of that name.
    pub fn add_sub(&mut self, name: String, folder: Folder)
        ensures
            final(self).save_dir == old(self).save_dir,
            match sub_index(old(self).sub@, name@) {
                Some(j) => final(self).sub@ == old(self).sub@.update(j, SubFolder { name, folder }),
                None => final(self).sub@ == old(self).sub@.push(SubFolder { name, folder }),
            },
            names_unique(old(self).sub@) ==> names_unique(final(self).sub@),
    {
        match self.find_sub(&name) {
            Some(j) => {
                proof {
                    lemma_sub_index_found(self.sub@, name@);
                }
                self.sub.set(j, SubFolder { name, folder });
                assert forall|a: int, b: int|
                    names_unique(old(self).sub@) && 0 <= a < b < self.sub@.len() implies (
                    #[trigger] self.sub@[a]).name@ != (#[trigger] self.sub@[b]).name@ by {
                    assert(old(self).sub@[a].name@ != old(self).sub@[b].name@);
                }
            },
            None => {
                self.sub.push(SubFolder { name, folder });
                assert forall|a: int, b: int|
                    names_unique(old(self).sub@) && 0 <= a < b < self.sub@.len() implies (
                    #[trigger] self.sub@[a]).name@ != (#[trigger] self.sub@[b]).name@ by {
                    if b < old(self).sub@.len() {
                        assert(old(self).sub@[a].name@ != old(self).sub@[b].name@);
                    }
                }
            },
        }
    }

    /// Check a provided path against this folder; `base_dir` is the directory of a
    /// folder that configures none.
    pub fn check_name(&self, path: &str, base_dir: String) -> (r: PathValidity)
        ensures
            r@ == resolve(*self, path@, base_dir@),
    {
        let segs = split_slash(path);
        assert(segs@.map_values(|s: String| s@) =~= split_on(path@, '/'));
        if segs.len() >= 2 && segs[0].as_str().is_empty() {
            self.check_name_iter(&segs, 1, base_dir)
        } else {
            PathValidity::Invalid
        }
    }

    /// Resolves `segs[i..]` in this folder, whose parent saves to `base_dir`.
    pub fn check_name_iter(&self, segs: &Vec<String>, i: usize, base_dir: String) -> (r: PathValidity)
        requires
            i < segs@.len(),
        ensures
            r@ == walk(*self, segs@.map_values(|s: String| s@), i as int, base_dir@),
        decreases segs@.len() - i,
    {
        let ghost views = segs@.map_values(|s: String| s@);
        let dir = match &self.save_dir {
            Some(d) => d.clone(),
            None => base_dir,
        };
        let curr = &segs[i];
        if i < segs.len() - 1 {
            match self.find_sub(curr) {
                Some(j) => {
                    proof {
                        lemma_sub_index_found(self.sub@, curr@);
                    }
                    let next_dir = join_path(&dir, curr);
                    self.sub[j].folder.check_name_iter(segs, i + 1, next_dir)
                },
                None => PathValidity::Invalid,
            }
        } else if curr.as_str().is_empty() {
            PathValidity::Folder(dir)
        } else {
            PathValidity::File(dir, curr.clone())
        }
    }
}

/// A character that may stand in a slug.
pub open spec fn is_slug_char(c: char) -> bool {
    ('a' <= c && c <= 'z') || ('0' <= c && c <= '9') || c == '-'
}

/// A slug: lower-case ASCII letters, digits and `-`, with no `-` at either end
/// and never two in a row.
pub open spec fn is_slug(s: Seq<char>) -> bool {
    &&& forall|i: int| 0 <= i < s.len() ==> is_slug_char(#[trigger] s[i])
    &&& s.len() > 0 ==> s[0] != '-' && s.last() != '-'
    &&& forall|i: int| 0 <= i < s.len() - 1 ==> !(#[trigger] s[i] == '-' && s[i + 1] == '-')
}

/// Every character of `s` is ASCII.
pub open spec fn is_ascii_text(s: Seq<char>) -> bool {
    forall|i: int| 0 <= i < s.len() ==> (#[trigger] s[i] as u32) < 128
}

/// The lower-case letter for an upper-case ASCII letter.
pub open spec fn ascii_lower(c: char) -> char {
    seq!['a', 'b', 'c', 'd', 'e', 'f', 'g', 'h', 'i', 'j', 'k', 'l', 'm', 'n', 'o', 'p', 'q', 'r', 's',
        't', 'u', 'v', 'w', 'x', 'y', 'z'][(c as u32 - 'A' as u32) as int]
}

/// The slug built from the ASCII text `s` so far, and whether it ends in a
/// separator (or is still empty): letters and digits are kept, upper case turned
/// to lower case, and each run of other characters becomes one `-`.
pub open spec fn slug_pass(s: Seq<char>) -> (Seq<char>, bool)
    decreases s.len(),
{
    if s.len() == 0 {
        (Seq::empty(), true)
    } else {
        let (out, dash) = slug_pass(s.drop_last());
        let c = s.last();
        if ('a' <= c && c <= 'z') || ('0' <= c && c <= '9') {
            (out.push(c), false)
        } else if 'A' <= c && c <= 'Z' {
            (out.push(ascii_lower(c)), false)
        } else if !dash {
            (out.push('-'), true)
        } else {
            (out, dash)
        }
    }
}

/// The slug of an ASCII text: `slug_pass` without a trailing `-`.
pub open spec fn ascii_slug(s: Seq<char>) -> Seq<char> {
    let out = slug_pass(s).0;
    if out.len() > 0 && out.last() == '-' {
        out.drop_last()
    } else {
        out
    }
}

/// The slug of a text.
pub uninterp spec fn slug_of(s: Seq<char>) -> Seq<char>;

/// Relies on `slug::slugify`: its result is a slug, and an ASCII text is read
/// byte by byte as `ascii_slug` states (other characters are transliterated
/// first).
#[verifier::external_body]
fn slugify_text(s: &str) -> (r: String)
    ensures
        r@ == slug_of(s@),
        is_slug(r@),
        is_ascii_text(s@) ==> r@ == ascii_slug(s@),
{
    ::slug::slugify(s)
}

proof fn lemma_slug_pass_of_slug(t: Seq<char>, i: int)
    requires
        is_slug(t),
        0 <= i <= t.len(),
    ensures
        slug_pass(t.take(i)) == (t.take(i), i == 0 || t[i - 1] == '-'),
    decreases i,
{
    if i > 0 {
        lemma_slug_pass_of_slug(t, i - 1);
        assert(t.take(i).drop_last() =~= t.take(i - 1));
        assert(t.take(i - 1).push(t[i - 1]) =~= t.take(i));
        let c = t[i - 1];
        assert(is_slug_char(c));
        if c == '-' {
            assert(i - 1 != 0);
            assert(!(t[i - 2] == '-' && t[i - 1] == '-'));
        }
    }
}

/// A slug is its own slug: slugification is idempotent.
pub proof fn lemma_slug_fixed_point(t: Seq<char>)
    requires
        is_slug(t),
    ensures
        is_ascii_text(t),
        ascii_slug(t) == t,
{
    assert forall|i: int| 0 <= i < t.len() implies (#[trigger] t[i] as u32) < 128 by {
        assert(is_slug_char(t[i]));
    }
    lemma_slug_pass_of_slug(t, t.len() as int);
    assert(t.take(t.len() as int) =~= t);
}

/// Turns a path segment into a file-system-safe name. Applied to a slug it
/// gives that slug back, so applying it twice gives what applying it once gives.
pub fn slugify(s: &str) -> (r: String)
    ensures
        r@ == slug_of(s@),
        is_slug(r@),
        is_slug(s@) ==> r@ == s@,
{
    let r = slugify_text(s);
    proof {
        if is_slug(s@) {
            lemma_slug_fixed_point(s@);
        }
    }
    r
}

/// The file that holds the document called `name` in the directory `dir`.
pub open spec fn channel_file(dir: Seq<char>, name: Seq<char>) -> Seq<char> {
    join(dir, slug_of(name) + ".md"@)
}

/// The file that the document called `name` in directory `dir` is kept in, or
/// `None` where the name has an empty slug.
pub fn file_for(dir: &String, name: &String) -> (r: Option<String>)
    ensures
        match r {
            Some(f) => slug_of(name@).len() > 0 && f@ == channel_file(dir@, name@),
            None => slug_of(name@).len() == 0,
        },
{
    let mut s = slugify(name.as_str());
    if s.as_str().is_empty() {
        return None;
    }
    push_str(&mut s, ".md");
    Some(join_path(dir, &s))
}

} // verus!
