//! Paths as lists of parts.
//!
//! A path is held as the sequence of its parts: the root `/` where the path
//! is absolute, then one text for every directory or file name, with `..`
//! for a step to the parent and a leading `.` for the current directory.
//! Which characters separate the parts on a platform is no concern of this
//! module.

use vstd::prelude::*;
use crate::text::{chars_of, string_of, text_eq, views};

verus! {

/// A path, part by part.
#[derive(Debug, Clone)]
pub struct FilePath {
    /// The parts, the outermost first.
    pub parts: Vec<String>,
}

/// A part that names a file or a directory: any part but the root, `.`
/// and `..`.
pub open spec fn is_name(part: Seq<char>) -> bool {
    part.len() > 0 && part != "/"@ && part != "."@ && part != ".."@
}

/// The parts of a path that begins with the parts of `base`, without these.
pub open spec fn without_prefix(path: Seq<Seq<char>>, base: Seq<Seq<char>>) -> Option<
    Seq<Seq<char>>,
> {
    if base.is_prefix_of(path) {
        Some(path.skip(base.len() as int))
    } else {
        None
    }
}

/// The parts of `other` appended to those of `base`; an absolute `other`
/// stands for itself.
pub open spec fn joined_parts(base: Seq<Seq<char>>, other: Seq<Seq<char>>) -> Seq<Seq<char>> {
    if other.len() > 0 && other[0] == "/"@ {
        other
    } else {
        base + other
    }
}

/// The name of the file or directory that a path ends in, if it ends in
/// one.
pub open spec fn last_name(path: Seq<Seq<char>>) -> Option<Seq<char>> {
    if path.len() > 0 && is_name(path.last()) {
        Some(path.last())
    } else {
        None
    }
}

/// The position of the last `.` before `to`, or -1 when there is none.
pub open spec fn last_dot(name: Seq<char>, to: int) -> int
    decreases to,
{
    if to <= 0 || to > name.len() {
        -1
    } else if name[to - 1] == '.' {
        to - 1
    } else {
        last_dot(name, to - 1)
    }
}

/// The extension of a file name: what follows its last `.`, unless that is
/// the first character of the name or the name has none.
pub open spec fn extension_of(name: Seq<char>) -> Option<Seq<char>> {
    let dot = last_dot(name, name.len() as int);
    if dot <= 0 {
        None
    } else {
        Some(name.subrange(dot + 1, name.len() as int))
    }
}

/// The directory that a path lies in: the path without its last part. The
/// empty path and the root lie in none.
pub open spec fn parent_of(path: Seq<Seq<char>>) -> Option<Seq<Seq<char>>> {
    if path.len() == 0 || path.last() == "/"@ {
        None
    } else {
        Some(path.drop_last())
    }
}

/// A path written with `/` between its parts.
pub open spec fn path_text(path: Seq<Seq<char>>) -> Seq<char>
    decreases path.len(),
{
    if path.len() == 0 {
        Seq::empty()
    } else if path.len() == 1 {
        path[0]
    } else if path.drop_last() == seq!["/"@] {
        "/"@ + path.last()
    } else {
        path_text(path.drop_last()) + "/"@ + path.last()
    }
}

/// The parts that a text has read so far, with the part that was being read
/// closed: an empty part counts for nothing, nor does a `.` that is not the
/// first part.
pub open spec fn with_part(parts: Seq<Seq<char>>, part: Seq<char>) -> Seq<Seq<char>> {
    if part.len() == 0 || (part == "."@ && parts.len() > 0) {
        parts
    } else {
        parts.push(part)
    }
}

/// The parts of the text from position `at` on, after `parts` and the
/// beginning `part` of a part have been read.
pub open spec fn parts_from(text: Seq<char>, at: int, parts: Seq<Seq<char>>, part: Seq<char>) -> Seq<
    Seq<char>,
>
    decreases text.len() - at,
{
    if at < 0 || at >= text.len() {
        with_part(parts, part)
    } else if text[at] == '/' {
        parts_from(text, at + 1, with_part(parts, part), Seq::empty())
    } else {
        parts_from(text, at + 1, parts, part.push(text[at]))
    }
}

/// The parts of a path written with `/` between them. A leading `/` is the
/// root; repeated and trailing `/` and inner `.` parts count for nothing.
pub open spec fn parts_of_text(text: Seq<char>) -> Seq<Seq<char>> {
    if text.len() > 0 && text[0] == '/' {
        parts_from(text, 0, seq!["/"@], Seq::empty())
    } else {
        parts_from(text, 0, Seq::empty(), Seq::empty())
    }
}

impl View for FilePath {
    type V = Seq<Seq<char>>;

    open spec fn view(&self) -> Seq<Seq<char>> {
        views(self.parts@)
    }
}

/// Closes the part `chars[from..to]` that was being read.

fn push_part(parts: &mut Vec<String>, chars: &Vec<char>, from: usize, to: usize)
    requires
        from <= to <= chars.len(),
    ensures
        views(final(parts)@) == with_part(
            views(old(parts)@),
            chars@.subrange(from as int, to as int),
        ),
{
    let ghost part = chars@.subrange(from as int, to as int);
    if from == to {
        return ;
    }
    let text = string_of(chars, from, to);
    if parts.len() > 0 && text_eq(text.as_str(), ".") {
        return ;
    }
    let ghost before = parts@;
    parts.push(text);
    assert(views(parts@) =~= views(before).push(part));
}

impl FilePath {
    /// The path without parts.
    pub fn new() -> (path: Self)
        ensures
            path@.len() == 0,
    {
        FilePath { parts: Vec::new() }
    }

    /// Reads a path written with `/` between its parts.
    pub fn parse(text: &str) -> (path: Self)
        ensures
            path@ == parts_of_text(text@),
    {
        let chars = chars_of(text);
        let mut parts: Vec<String> = Vec::new();
        if chars.len() > 0 && chars[0] == '/' {
            parts.push("/".to_string());
            assert(views(parts@) =~= seq!["/"@]);
        } else {
            assert(views(parts@) =~= Seq::<Seq<char>>::empty());
        }
        let mut start: usize = 0;
        let mut at: usize = 0;
        assert(text@.subrange(0, 0) =~= Seq::<char>::empty());
        while at < chars.len()
            invariant
                start <= at <= chars.len(),
                chars@ == text@,
                parts_of_text(text@) == parts_from(
                    text@,
                    at as int,
                    views(parts@),
                    text@.subrange(start as int, at as int),
                ),
            decreases chars.len() - at,
        {
            if chars[at] == '/' {
                push_part(&mut parts, &chars, start, at);
                start = at + 1;
                assert(text@.subrange(start as int, at + 1) =~= Seq::<char>::empty());
            } else {
                assert(text@.subrange(start as int, at + 1) =~= text@.subrange(
                    start as int,
                    at as int,
                ).push(text@[at as int]));
            }
            at += 1;
        }
        push_part(&mut parts, &chars, start, at);
        FilePath { parts }
    }

    /// Whether `self` and `other` have the same parts.
    pub fn same_as(&self, other: &FilePath) -> (r: bool)
        ensures
            r == (self@ == other@),
    {
        if self.parts.len() != other.parts.len() {
            assert(self@.len() != other@.len());
            return false;
        }
        let mut i: usize = 0;
        while i < self.parts.len()
            invariant
                i <= self.parts.len(),
                self.parts.len() == other.parts.len(),
                forall|k: int| 0 <= k < i ==> self@[k] == other@[k],
            decreases self.parts.len() - i,
        {
            if self.parts[i] != other.parts[i] {
                assert(self@[i as int] != other@[i as int]);
                return false;
            }
            i += 1;
        }
        assert(self@ =~= other@);
        true
    }

    /// Whether the parts of `self` begin with all the parts of `base`: the
    /// path is `base` itself or lies under it.
    pub fn starts_with(&self, base: &FilePath) -> (r: bool)
        ensures
            r == base@.is_prefix_of(self@),
    {
        if base.parts.len() > self.parts.len() {
            return false;
        }
        let mut i: usize = 0;
        while i < base.parts.len()
            invariant
                i <= base.parts.len() <= self.parts.len(),
                forall|k: int| 0 <= k < i ==> self@[k] == base@[k],
            decreases base.parts.len() - i,
        {
            if self.parts[i] != base.parts[i] {
                assert(self@.subrange(0, base@.len() as int)[i as int] != base@[i as int]);
                return false;
            }
            i += 1;
        }
        assert(self@.subrange(0, base@.len() as int) =~= base@);
        true
    }

    /// The path from `from` on, as a path of its own.
    fn tail(&self, from: usize) -> (rest: FilePath)
        requires
            from <= self.parts.len(),
        ensures
            rest@ == self@.skip(from as int),
    {
        let mut parts: Vec<String> = Vec::new();
        let mut i: usize = from;
        while i < self.parts.len()
            invariant
                from <= i <= self.parts.len(),
                views(parts@) == self@.subrange(from as int, i as int),
            decreases self.parts.len() - i,
        {
            let ghost before = parts@;
            parts.push(self.parts[i].clone());
            assert(views(parts@) =~= views(before).push(self@[i as int]));
            assert(views(parts@) =~= self@.subrange(from as int, i + 1));
            i += 1;
        }
        assert(self@.subrange(from as int, self@.len() as int) =~= self@.skip(from as int));
        FilePath { parts }
    }

    /// A copy of the path.
    pub fn duplicate(&self) -> (copy: FilePath)
        ensures
            copy@ == self@,
    {
        let copy = self.tail(0);
        assert(self@.skip(0) =~= self@);
        copy
    }

    /// The path relative to `base`, when it is `base` or lies under it.
    pub fn strip_prefix(&self, base: &FilePath) -> (rest: Option<FilePath>)
        ensures
            match rest {
                Some(r) => without_prefix(self@, base@) == Some(r@),
                None => without_prefix(self@, base@) is None,
            },
    {
        if self.starts_with(base) {
            Some(self.tail(base.parts.len()))
        } else {
            None
        }
    }

    /// The path `other` seen from `self`: `other` itself when it is
    /// absolute, and else the parts of `self` followed by those of `other`.
    pub fn join(&self, other: &FilePath) -> (path: FilePath)
        ensures
            path@ == joined_parts(self@, other@),
    {
        if other.parts.len() > 0 && text_eq(other.parts[0].as_str(), "/") {
            return other.duplicate();
        }
        let mut path = self.duplicate();
        let mut i: usize = 0;
        while i < other.parts.len()
            invariant
                i <= other.parts.len(),
                path@ == self@ + other@.take(i as int),
            decreases other.parts.len() - i,
        {
            let ghost before = path.parts@;
            path.parts.push(other.parts[i].clone());
            assert(views(path.parts@) =~= views(before).push(other@[i as int]));
            assert(path@ =~= self@ + other@.take(i + 1));
            i += 1;
        }
        assert(other@.take(i as int) =~= other@);
        path
    }

    /// The path with one more name at its end.
    pub fn child(&self, name: &str) -> (path: FilePath)
        ensures
            path@ == self@.push(name@),
    {
        let mut path = self.duplicate();
        let ghost before = path.parts@;
        path.parts.push(name.to_string());
        assert(views(path.parts@) =~= views(before).push(name@));
        path
    }

    /// The name of the file or directory that the path ends in.
    pub fn file_name(&self) -> (name: Option<String>)
        ensures
            match name {
                Some(n) => last_name(self@) == Some(n@),
                None => last_name(self@) is None,
            },
    {
        if self.parts.len() == 0 {
            return None;
        }
        let last = &self.parts[self.parts.len() - 1];
        assert(last@ == self@.last());
        if last.as_str().is_empty() || text_eq(last.as_str(), "/") || text_eq(last.as_str(), ".")
            || text_eq(last.as_str(), "..") {
            None
        } else {
            Some(last.clone())
        }
    }

    /// The directory that the path lies in.
    pub fn parent(&self) -> (dir: Option<FilePath>)
        ensures
            match dir {
                Some(d) => parent_of(self@) == Some(d@),
                None => parent_of(self@) is None,
            },
    {
        if self.parts.len() == 0 {
            return None;
        }
        let last = &self.parts[self.parts.len() - 1];
        assert(last@ == self@.last());
        if text_eq(last.as_str(), "/") {
            return None;
        }
        let mut parts: Vec<String> = Vec::new();
        let mut i: usize = 0;
        while i < self.parts.len() - 1
            invariant
                i <= self.parts.len() - 1,
                views(parts@) == self@.take(i as int),
            decreases self.parts.len() - 1 - i,
        {
            let ghost before = parts@;
            parts.push(self.parts[i].clone());
            assert(views(parts@) =~= views(before).push(self@[i as int]));
            assert(views(parts@) =~= self@.take(i + 1));
            i += 1;
        }
        assert(self@.take(i as int) =~= self@.drop_last());
        Some(FilePath { parts })
    }

    /// Whether a part of the path steps up to a parent directory.
    pub fn has_parent_part(&self) -> (r: bool)
        ensures
            r == self@.contains(".."@),
    {
        let mut i: usize = 0;
        while i < self.parts.len()
            invariant
                i <= self.parts.len(),
                forall|k: int| 0 <= k < i ==> self@[k] != ".."@,
            decreases self.parts.len() - i,
        {
            if text_eq(self.parts[i].as_str(), "..") {
                assert(self@[i as int] == ".."@);
                return true;
            }
            i += 1;
        }
        false
    }

    /// The path written with `/` between its parts.
    pub fn to_text(&self) -> (text: String)
        ensures
            text@ == path_text(self@),
    {
        let mut text = String::new();
        let mut i: usize = 0;
        while i < self.parts.len()
            invariant
                i <= self.parts.len(),
                text@ == path_text(self@.take(i as int)),
            decreases self.parts.len() - i,
        {
            let ghost before = self@.take(i as int);
            let ghost after = self@.take(i + 1);
            proof {
                assert(after.drop_last() =~= before);
                assert(after.last() == self@[i as int]);
                if i == 1 {
                    assert(before =~= seq![self@[0]]);
                }
            }
            if i == 1 && text_eq(self.parts[0].as_str(), "/") {
                assert(before =~= seq!["/"@]);
            } else if i > 0 {
                assert(before.len() == 1 ==> before != seq!["/"@]) by {
                    if before.len() == 1 && before == seq!["/"@] {
                        assert(before[0] == "/"@);
                    }
                }
                text.append("/");
            }
            text.append(self.parts[i].as_str());
            assert(text@ =~= path_text(after));
            i += 1;
        }
        assert(self@.take(i as int) =~= self@);
        text
    }
}

/// The extension of a file name.
pub fn extension(name: &str) -> (ext: Option<String>)
    ensures
        match ext {
            Some(e) => extension_of(name@) == Some(e@),
            None => extension_of(name@) is None,
        },
{
    let chars = chars_of(name);
    let mut to: usize = chars.len();
    while to > 0 && chars[to - 1] != '.'
        invariant
            to <= chars.len(),
            chars@ == name@,
            last_dot(name@, name@.len() as int) == last_dot(name@, to as int),
        decreases to,
    {
        to -= 1;
    }
    if to <= 1 {
        None
    } else {
        Some(string_of(&chars, to, chars.len()))
    }
}

} // verus!
