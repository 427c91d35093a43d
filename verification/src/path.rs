//! Paths as sequences of components.
//!
//! A path is held as the list of its components, root first. Two paths are
//! compared component by component, never character by character: `/a/bc` does
//! not start with `/a/b`.

use vstd::prelude::*;
use vstd::string::*;

verus! {

/// The position of the last `.` in `name`, or -1 where there is none.
pub open spec fn last_dot(name: Seq<char>) -> int
    decreases name.len(),
{
    if name.len() == 0 {
        -1
    } else if name.last() == '.' {
        name.len() - 1
    } else {
        last_dot(name.drop_last())
    }
}

/// Where the extension of a file name is cut off: at its last `.`, unless the
/// name has none, begins with its only one, or is `..`.
pub open spec fn stem_len(name: Seq<char>) -> int {
    if last_dot(name) <= 0 || name == seq!['.', '.'] {
        name.len() as int
    } else {
        last_dot(name)
    }
}

/// The extension of a file name: what follows its last `.`.
pub open spec fn extension_of(name: Seq<char>) -> Option<Seq<char>> {
    if stem_len(name) == name.len() {
        None
    } else {
        Some(name.subrange(stem_len(name) + 1, name.len() as int))
    }
}

/// A file name with its extension replaced by `ext`, or with `ext` added where
/// it had none. An empty `ext` only removes the extension.
pub open spec fn name_with_extension(name: Seq<char>, ext: Seq<char>) -> Seq<char> {
    if ext.len() == 0 {
        name.subrange(0, stem_len(name))
    } else {
        name.subrange(0, stem_len(name)) + seq!['.'] + ext
    }
}

/// `base` is the beginning of `path`, component by component.
pub open spec fn path_prefix(base: Seq<Seq<char>>, path: Seq<Seq<char>>) -> bool {
    base.len() <= path.len() && path.subrange(0, base.len() as int) == base
}

/// `last_dot` gives -1 exactly where no `.` occurs, and else the position of a
/// `.` after which none follows.
pub proof fn lemma_last_dot(name: Seq<char>)
    ensures
        -1 <= last_dot(name) < name.len(),
        last_dot(name) >= 0 ==> name[last_dot(name)] == '.',
        forall|i: int| last_dot(name) < i < name.len() ==> name[i] != '.',
    decreases name.len(),
{
    if name.len() > 0 && name.last() != '.' {
        lemma_last_dot(name.drop_last());
        assert forall|i: int| last_dot(name) < i < name.len() implies name[i] != '.' by {
            if i < name.len() - 1 {
                assert(name.drop_last()[i] == name[i]);
            }
        }
    }
}

/// A path: its components, root first.
#[derive(Debug)]
pub struct FsPath {
    /// The components.
    pub parts: Vec<String>,
}

impl View for FsPath {
    type V = Seq<Seq<char>>;

    open spec fn view(&self) -> Seq<Seq<char>> {
        Seq::new(self.parts@.len(), |i: int| self.parts@[i]@)
    }
}

impl Clone for FsPath {
    fn clone(&self) -> (r: FsPath)
        ensures
            r@ == self@,
    {
        let mut parts: Vec<String> = Vec::new();
        let mut i: usize = 0;
        while i < self.parts.len()
            invariant
                i <= self.parts@.len(),
                parts@.len() == i,
                forall|j: int| 0 <= j < i ==> parts@[j]@ == self.parts@[j]@,
            decreases self.parts@.len() - i,
        {
            parts.push(self.parts[i].clone());
            i += 1;
        }
        let r = FsPath { parts };
        assert(r@ =~= self@);
        r
    }
}

impl FsPath {
    /// The path without components.
    pub fn new() -> (r: FsPath)
        ensures
            r@ == Seq::<Seq<char>>::empty(),
    {
        let r = FsPath { parts: Vec::new() };
        assert(r@ =~= Seq::<Seq<char>>::empty());
        r
    }

    /// The path with the given components.
    pub fn from_parts(parts: Vec<String>) -> (r: FsPath)
        ensures
            r.parts == parts,
    {
        FsPath { parts }
    }

    /// This path with one more component.
    pub fn join(&self, name: &str) -> (r: FsPath)
        ensures
            r@ == self@.push(name@),
    {
        let mut r = self.clone();
        r.parts.push(String::from_str(name));
        assert(r@ =~= self@.push(name@));
        r
    }

    /// This path followed by the components of `tail`.
    pub fn join_path(&self, tail: &FsPath) -> (r: FsPath)
        ensures
            r@ == self@ + tail@,
    {
        let mut r = self.clone();
        let mut i: usize = 0;
        while i < tail.parts.len()
            invariant
                i <= tail.parts@.len(),
                r@ == self@ + tail@.subrange(0, i as int),
            decreases tail.parts@.len() - i,
        {
            let ghost before = r@;
            r.parts.push(tail.parts[i].clone());
            assert(r@ =~= before.push(tail@[i as int]));
            assert(r@ =~= self@ + tail@.subrange(0, i + 1));
            i += 1;
        }
        assert(tail@.subrange(0, tail@.len() as int) =~= tail@);
        r
    }

    /// Do the two paths have the same components?
    pub fn same(&self, other: &FsPath) -> (r: bool)
        ensures
            r == (self@ == other@),
    {
        if self.parts.len() != other.parts.len() {
            assert(self@.len() != other@.len());
            return false;
        }
        let mut i: usize = 0;
        while i < self.parts.len()
            invariant
                i <= self.parts@.len(),
                self.parts@.len() == other.parts@.len(),
                forall|j: int| 0 <= j < i ==> self@[j] == other@[j],
            decreases self.parts@.len() - i,
        {
            if self.parts[i] != other.parts[i] {
                assert(self@[i as int] != other@[i as int]);
                return false;
            }
            i += 1;
        }
        assert(self@ =~= other@);
        true
    }

    /// Does this path lie at or under `base`?
    pub fn starts_with(&self, base: &FsPath) -> (r: bool)
        ensures
            r == path_prefix(base@, self@),
    {
        if base.parts.len() > self.parts.len() {
            return false;
        }
        let mut i: usize = 0;
        while i < base.parts.len()
            invariant
                i <= base.parts@.len() <= self.parts@.len(),
                forall|j: int| 0 <= j < i ==> self@[j] == base@[j],
            decreases base.parts@.len() - i,
        {
            if self.parts[i] != base.parts[i] {
                assert(self@.subrange(0, base@.len() as int)[i as int] == self@[i as int]);
                return false;
            }
            i += 1;
        }
        assert(self@.subrange(0, base@.len() as int) =~= base@);
        true
    }

    /// The last component, where there is one.
    pub fn file_name(&self) -> (r: Option<&String>)
        ensures
            self@.len() == 0 <==> r is None,
            r matches Some(name) ==> name@ == self@.last(),
    {
        if self.parts.len() == 0 {
            None
        } else {
            Some(&self.parts[self.parts.len() - 1])
        }
    }

    /// The path without its last component; `None` for the path without
    /// components.
    pub fn parent(&self) -> (r: Option<FsPath>)
        ensures
            self@.len() == 0 <==> r is None,
            r matches Some(p) ==> p@ == self@.drop_last(),
    {
        if self.parts.len() == 0 {
            return None;
        }
        let mut parts: Vec<String> = Vec::new();
        let mut i: usize = 0;
        while i < self.parts.len() - 1
            invariant
                self.parts@.len() > 0,
                i <= self.parts@.len() - 1,
                parts@.len() == i,
                forall|j: int| 0 <= j < i ==> parts@[j]@ == self.parts@[j]@,
            decreases self.parts@.len() - i,
        {
            parts.push(self.parts[i].clone());
            i += 1;
        }
        let p = FsPath { parts };
        assert(p@ =~= self@.drop_last());
        Some(p)
    }

    /// What is left of this path below `base`; `None` where it does not lie at
    /// or under `base`.
    pub fn strip_prefix(&self, base: &FsPath) -> (r: Option<FsPath>)
        ensures
            path_prefix(base@, self@) <==> r is Some,
            r matches Some(rest) ==> rest@ == self@.subrange(
                base@.len() as int,
                self@.len() as int,
            ),
    {
        if !self.starts_with(base) {
            return None;
        }
        let mut parts: Vec<String> = Vec::new();
        let start: usize = base.parts.len();
        let mut i: usize = start;
        while i < self.parts.len()
            invariant
                start == base.parts@.len(),
                start <= i <= self.parts@.len(),
                parts@.len() == i - start,
                forall|j: int| 0 <= j < i - start ==> parts@[j]@ == self.parts@[start + j]@,
            decreases self.parts@.len() - i,
        {
            parts.push(self.parts[i].clone());
            i += 1;
        }
        let rest = FsPath { parts };
        assert(rest@ =~= self@.subrange(base@.len() as int, self@.len() as int));
        Some(rest)
    }

    /// This path with the extension of its last component replaced by `ext`.
    /// A path without components is returned as it is.
    pub fn with_extension(&self, ext: &str) -> (r: FsPath)
        ensures
            self@.len() == 0 ==> r@ == self@,
            self@.len() > 0 ==> r@ == self@.drop_last().push(
                name_with_extension(self@.last(), ext@),
            ),
    {
        match self.parent() {
            None => self.clone(),
            Some(dir) => {
                let name = &self.parts[self.parts.len() - 1];
                let renamed = with_extension(name.as_str(), ext);
                let mut r = dir;
                r.parts.push(renamed);
                assert(r@ =~= self@.drop_last().push(name_with_extension(self@.last(), ext@)));
                r
            },
        }
    }
}

/// The position of the last `.` in `name`.
fn find_last_dot(name: &str) -> (r: Option<usize>)
    ensures
        r is None <==> last_dot(name@) == -1,
        r matches Some(at) ==> at == last_dot(name@),
{
    let n: usize = name.unicode_len();
    let mut i: usize = n;
    assert(name@.subrange(0, n as int) =~= name@);
    while i > 0
        invariant
            i <= n,
            n == name@.len(),
            last_dot(name@) == last_dot(name@.subrange(0, i as int)),
        decreases i,
    {
        let ghost head = name@.subrange(0, i as int);
        if name.get_char(i - 1) == '.' {
            assert(head.last() == '.');
            return Some(i - 1);
        }
        assert(head.drop_last() =~= name@.subrange(0, i - 1));
        i -= 1;
    }
    assert(name@.subrange(0, 0).len() == 0);
    None
}

/// The number of characters of `name` before its extension.
fn stem_length(name: &str) -> (r: usize)
    ensures
        r == stem_len(name@),
{
    let n: usize = name.unicode_len();
    proof {
        lemma_last_dot(name@);
        reveal_strlit("..");
    }
    match find_last_dot(name) {
        None => n,
        Some(at) => {
            if at == 0 {
                n
            } else if n == 2 && name.get_char(0) == '.' {
                assert(name@ =~= seq!['.', '.']);
                n
            } else {
                assert(name@ != seq!['.', '.']) by {
                    if name@ == seq!['.', '.'] {
                        assert(name@.len() == 2);
                        assert(name@[0] == '.');
                    }
                }
                at
            }
        },
    }
}

/// The extension of a file name.
pub fn extension(name: &str) -> (r: Option<&str>)
    ensures
        r is Some <==> extension_of(name@) is Some,
        r matches Some(ext) ==> extension_of(name@) == Some(ext@),
{
    let n: usize = name.unicode_len();
    let cut: usize = stem_length(name);
    proof {
        lemma_last_dot(name@);
    }
    if cut == n {
        None
    } else {
        Some(name.substring_char(cut + 1, n))
    }
}

/// A file name with its extension replaced by `ext`.
pub fn with_extension(name: &str, ext: &str) -> (r: String)
    ensures
        r@ == name_with_extension(name@, ext@),
{
    let cut: usize = stem_length(name);
    proof {
        lemma_last_dot(name@);
        reveal_strlit(".");
    }
    let stem = name.substring_char(0, cut);
    if ext.unicode_len() == 0 {
        String::from_str(stem)
    } else {
        let r = String::from_str(stem).concat(".").concat(ext);
        assert("."@ =~= seq!['.']);
        assert(r@ =~= name_with_extension(name@, ext@));
        r
    }
}

} // verus!
