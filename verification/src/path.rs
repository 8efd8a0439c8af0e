//! Paths as sequences of component names.
//!
//! A path is held as the list of its components, so that one path lying under
//! another is a statement about whole components: `foo2/a` does not lie under
//! `foo`.

use vstd::prelude::*;

verus! {

/// A path as the list of its component names, outermost first.
#[derive(Debug, PartialEq, Eq)]
pub struct PathParts {
    pub components: Vec<String>,
}

impl View for PathParts {
    type V = Seq<Seq<char>>;

    open spec fn view(&self) -> Seq<Seq<char>> {
        self.components.deep_view()
    }
}

/// `base` is a component-wise prefix of `path` (the two may be equal).
pub open spec fn is_prefix(base: Seq<Seq<char>>, path: Seq<Seq<char>>) -> bool {
    &&& base.len() <= path.len()
    &&& forall|i: int| 0 <= i < base.len() ==> base[i] == path[i]
}

/// `path` lies under `base`: `base` is a component-wise prefix of `path` and
/// `path` has at least one component more.
pub open spec fn is_under(base: Seq<Seq<char>>, path: Seq<Seq<char>>) -> bool {
    base.len() < path.len() && is_prefix(base, path)
}

/// What is left of `path` when its first `base.len()` components are taken off.
pub open spec fn relative_to(base: Seq<Seq<char>>, path: Seq<Seq<char>>) -> Seq<Seq<char>> {
    path.skip(base.len() as int)
}

/// The components joined into one text, with `/` between them.
pub open spec fn joined(parts: Seq<Seq<char>>) -> Seq<char>
    decreases parts.len(),
{
    if parts.len() == 0 {
        Seq::empty()
    } else if parts.len() == 1 {
        parts[0]
    } else {
        joined(parts.drop_last()) + seq!['/'] + parts.last()
    }
}

/// The text of the full path of what lies at `relative` under a root: the
/// text of the root, a `/` unless that text is empty or ends with one, and
/// the components with `/` between them.
pub open spec fn full_path_of(root: Seq<char>, relative: Seq<Seq<char>>) -> Seq<char> {
    if root.len() == 0 || root.last() == '/' {
        root + joined(relative)
    } else {
        root + seq!['/'] + joined(relative)
    }
}

impl Clone for PathParts {
    fn clone(&self) -> (copy: Self)
        ensures
            copy@ == self@,
    {
        let copy = PathParts { components: self.components.clone() };
        assert(copy@ =~= self@);
        copy
    }
}

impl PathParts {
    /// The path with no component: the base itself.
    pub fn empty() -> (path: Self)
        ensures
            path@ == Seq::<Seq<char>>::empty(),
    {
        let path = PathParts { components: Vec::new() };
        assert(path@ =~= Seq::<Seq<char>>::empty());
        path
    }

    /// The path made of the given components.
    pub fn new(components: Vec<String>) -> (path: Self)
        ensures
            path@ == components.deep_view(),
            path.components == components,
    {
        PathParts { components }
    }

    /// The number of components.
    pub fn len(&self) -> (n: usize)
        ensures
            n == self@.len(),
    {
        self.components.len()
    }

    /// Whether both paths have the same components.
    pub fn same_as(&self, other: &PathParts) -> (same: bool)
        ensures
            same == (self@ == other@),
    {
        if self.components.len() != other.components.len() {
            assert(self@.len() != other@.len());
            return false;
        }
        let mut i: usize = 0;
        while i < self.components.len()
            invariant
                i <= self.components.len(),
                self.components.len() == other.components.len(),
                forall|j: int| 0 <= j < i ==> self@[j] == other@[j],
            decreases self.components.len() - i,
        {
            if self.components[i] != other.components[i] {
                assert(self@[i as int] != other@[i as int]);
                return false;
            }
            i += 1;
        }
        assert(self@ =~= other@);
        true
    }

    /// Whether `base` is a component-wise prefix of this path.
    pub fn starts_with(&self, base: &PathParts) -> (found: bool)
        ensures
            found == is_prefix(base@, self@),
    {
        if base.components.len() > self.components.len() {
            return false;
        }
        let mut i: usize = 0;
        while i < base.components.len()
            invariant
                i <= base.components.len(),
                base.components.len() <= self.components.len(),
                forall|j: int| 0 <= j < i ==> base@[j] == self@[j],
            decreases base.components.len() - i,
        {
            if base.components[i] != self.components[i] {
                assert(base@[i as int] != self@[i as int]);
                return false;
            }
            i += 1;
        }
        true
    }

    /// Whether this path lies under `base`, at least one component deeper.
    pub fn is_under(&self, base: &PathParts) -> (found: bool)
        ensures
            found == is_under(base@, self@),
    {
        base.components.len() < self.components.len() && self.starts_with(base)
    }

    /// This path without the components of `base` in front of it, if `base`
    /// is a prefix of it.
    pub fn strip_prefix(&self, base: &PathParts) -> (rest: Option<PathParts>)
        ensures
            rest is Some <==> is_prefix(base@, self@),
            rest matches Some(r) ==> r@ == relative_to(base@, self@),
    {
        if !self.starts_with(base) {
            return None;
        }
        let mut components: Vec<String> = Vec::new();
        let mut i: usize = base.components.len();
        while i < self.components.len()
            invariant
                base.components.len() <= i <= self.components.len(),
                components.len() == i - base.components.len(),
                forall|j: int|
                    0 <= j < components.len() ==> components[j]@ == self@[base.components.len()
                        + j],
            decreases self.components.len() - i,
        {
            components.push(self.components[i].clone());
            i += 1;
        }
        let rest = PathParts { components };
        assert(rest@ =~= relative_to(base@, self@));
        Some(rest)
    }

    /// This path followed by the components of `tail`.
    pub fn join(&self, tail: &PathParts) -> (whole: PathParts)
        ensures
            whole@ == self@ + tail@,
    {
        let mut components: Vec<String> = self.components.clone();
        assert(components.deep_view() =~= self@);
        let mut i: usize = 0;
        while i < tail.components.len()
            invariant
                i <= tail.components.len(),
                components.deep_view() == self@ + tail@.take(i as int),
            decreases tail.components.len() - i,
        {
            let ghost before = components.deep_view();
            components.push(tail.components[i].clone());
            assert(components.deep_view() =~= before.push(tail@[i as int]));
            assert(tail@.take(i + 1) =~= tail@.take(i as int).push(tail@[i as int]));
            i += 1;
        }
        assert(tail@.take(i as int) =~= tail@);
        PathParts { components }
    }

    /// This path followed by one more component.
    pub fn child(&self, name: &str) -> (whole: PathParts)
        ensures
            whole@ == self@.push(name@),
    {
        let mut components: Vec<String> = self.components.clone();
        assert(components.deep_view() =~= self@);
        components.push(String::from_str(name));
        assert(components.deep_view() =~= self@.push(name@));
        PathParts { components }
    }

    /// The last component, if there is one.
    pub fn file_name(&self) -> (name: Option<String>)
        ensures
            name is Some <==> self@.len() > 0,
            name matches Some(n) ==> n@ == self@.last(),
    {
        let n = self.components.len();
        if n == 0 {
            None
        } else {
            Some(self.components[n - 1].clone())
        }
    }

    /// The text of the path: its components with `/` between them.
    pub fn display(&self) -> (text: String)
        ensures
            text@ == joined(self@),
    {
        let mut text = String::new();
        let mut i: usize = 0;
        while i < self.components.len()
            invariant
                i <= self.components.len(),
                text@ == joined(self@.take(i as int)),
            decreases self.components.len() - i,
        {
            if i > 0 {
                text.append("/");
            }
            text.append(self.components[i].as_str());
            proof {
                reveal_strlit("/");
                let before = self@.take(i as int);
                let after = self@.take(i + 1);
                assert(after.drop_last() =~= before);
                assert(after.last() == self@[i as int]);
                assert("/"@ =~= seq!['/']);
                if i == 0 {
                    assert(text@ =~= self@[0]);
                }
            }
            i += 1;
        }
        assert(self@.take(i as int) =~= self@);
        text
    }
}

/// The text of the full path of what lies at `relative` under the root.
pub fn full_path_text(root_dir: &str, relative: &PathParts) -> (text: String)
    ensures
        text@ == full_path_of(root_dir@, relative@),
{
    let mut text = String::from_str(root_dir);
    let n = root_dir.unicode_len();
    if n > 0 && root_dir.get_char(n - 1) != '/' {
        text.append("/");
    }
    text.append(relative.display().as_str());
    proof {
        reveal_strlit("/");
        assert("/"@ =~= seq!['/']);
    }
    text
}

} // verus!
