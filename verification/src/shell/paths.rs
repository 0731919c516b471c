//! Folders by their paths: the way to a folder, its parent and its children.
use vstd::prelude::*;
use vstd::string::*;

use crate::shell::projects::{Crumb, FolderEntry, FolderListing};
use crate::text::chars_of;
use crate::wire::{opt, texts};

verus! {

/// The folders that a path names, in order; slashes stand between them, and more
/// than one counts as one.
pub open spec fn segments(path: Seq<char>) -> Seq<Seq<char>>
    decreases path.len(),
{
    if path.len() == 0 {
        Seq::empty()
    } else {
        let before = segments(path.drop_last());
        let c = path.last();
        if c == '/' {
            before
        } else if path.len() == 1 || path[path.len() - 2] == '/' {
            before.push(seq![c])
        } else {
            before.update(before.len() - 1, before.last().push(c))
        }
    }
}

/// The path of the folder that the first `n` segments lead to.
pub open spec fn path_to(segs: Seq<Seq<char>>, n: int) -> Seq<char>
    decreases n,
{
    if n <= 0 {
        Seq::empty()
    } else {
        path_to(segs, n - 1).push('/') + segs[n - 1]
    }
}

/// Whether some crumbs are the way to a path: the root, and then every folder
/// that it names.
pub open spec fn is_way(crumbs: Seq<Crumb>, path: Seq<char>) -> bool {
    let segs = segments(path);
    &&& crumbs.len() == segs.len() + 1
    &&& crumbs[0].label@ == seq!['/'] && crumbs[0].full_path@ == seq!['/']
    &&& forall|i: int|
        1 <= i < crumbs.len() ==> (#[trigger] crumbs[i]).label@ == segs[i - 1]
            && crumbs[i].full_path@ == path_to(segs, i)
}

proof fn a_name_is_open(path: Seq<char>)
    requires
        path.len() > 0,
        path.last() != '/',
    ensures
        segments(path).len() > 0,
    decreases path.len(),
{
    if path.len() > 1 && path[path.len() - 2] != '/' {
        a_name_is_open(path.drop_last());
    }
}

fn split(path: &str) -> (r: Vec<String>)
    ensures
        texts(r@) == segments(path@),
{
    let cs: Vec<char> = chars_of(path);
    let mut r: Vec<String> = Vec::new();
    let mut i: usize = 0;
    assert(texts(r@) =~= segments(cs@.take(0)));
    while i < cs.len()
        invariant
            i <= cs@.len(),
            texts(r@) == segments(cs@.take(i as int)),
        decreases cs@.len() - i,
    {
        let ghost had = r@;
        let ghost now = cs@.take(i + 1);
        let c: char = cs[i];
        proof {
            assert(now.drop_last() =~= cs@.take(i as int));
            assert(now.last() == c);
        }
        if c != '/' {
            let fresh: bool = i == 0 || cs[i - 1] == '/';
            if fresh {
                let mut s: String = String::new();
                s.push(c);
                assert(s@ =~= seq![c]);
                r.push(s);
                assert(texts(r@) =~= texts(had).push(seq![c]));
            } else {
                proof {
                    assert(now[now.len() - 2] == cs@[i - 1]);
                    a_name_is_open(cs@.take(i as int));
                    assert(texts(had).len() == had.len());
                }
                let last: Option<String> = r.pop();
                if let Some(name) = last {
                    let mut s: String = name;
                    s.push(c);
                    r.push(s);
                }
                assert(texts(r@) =~= texts(had).update(
                    had.len() - 1,
                    texts(had).last().push(c),
                ));
            }
        }
        i += 1;
    }
    assert(cs@.take(i as int) =~= path@);
    r
}

/// The way to a path.
pub fn breadcrumbs(path: &str) -> (crumbs: Vec<Crumb>)
    ensures
        is_way(crumbs@, path@),
{
    let segs: Vec<String> = split(path);
    let ghost names = texts(segs@);
    let mut crumbs: Vec<Crumb> = Vec::new();
    let mut full: String = String::new();
    proof {
        reveal_strlit("/");
        assert("/"@ =~= seq!['/']);
        assert(full@ =~= path_to(names, 0));
    }
    crumbs.push(Crumb { label: "/".to_owned(), full_path: "/".to_owned() });
    let mut i: usize = 0;
    while i < segs.len()
        invariant
            i <= segs@.len(),
            names == texts(segs@),
            full@ == path_to(names, i as int),
            crumbs@.len() == i + 1,
            crumbs@[0].label@ == seq!['/'] && crumbs@[0].full_path@ == seq!['/'],
            forall|k: int|
                1 <= k <= i ==> (#[trigger] crumbs@[k]).label@ == names[k - 1]
                    && crumbs@[k].full_path@ == path_to(names, k),
        decreases segs@.len() - i,
    {
        let ghost had = crumbs@;
        full.push('/');
        full.append(segs[i].as_str());
        assert(names[i as int] == segs@[i as int]@);
        crumbs.push(Crumb { label: segs[i].clone(), full_path: full.clone() });
        i += 1;
        assert forall|k: int| 1 <= k <= i implies (#[trigger] crumbs@[k]).label@ == names[k - 1]
            && crumbs@[k].full_path@ == path_to(names, k) by {
            if k < i {
                assert(crumbs@[k] == had[k]);
            }
        }
    }
    crumbs
}

/// The parent of a path; the root has none.
pub open spec fn parent_path(path: Seq<char>) -> Option<Seq<char>> {
    let segs = segments(path);
    if segs.len() == 0 {
        None
    } else if segs.len() == 1 {
        Some(seq!['/'])
    } else {
        Some(path_to(segs, segs.len() - 1))
    }
}

/// The path of a folder in another.
pub open spec fn child_of_path(base: Seq<char>, name: Seq<char>) -> Seq<char> {
    if base.len() > 0 && base.last() == '/' {
        base + name
    } else {
        base.push('/') + name
    }
}

/// The path of a folder in another.
pub fn child_path(base: &str, name: &str) -> (s: String)
    ensures
        s@ == child_of_path(base@, name@),
{
    let cs: Vec<char> = chars_of(base);
    let mut s: String = base.to_owned();
    if !(cs.len() > 0 && cs[cs.len() - 1] == '/') {
        s.push('/');
    }
    s.append(name);
    s
}

/// A subfolder, by its name.
#[derive(Debug)]
pub struct FolderName {
    pub name: String,
    pub is_repo: bool,
}

/// Whether entries are the folders with some names in a folder.
pub open spec fn entries_of(
    entries: Seq<FolderEntry>,
    path: Seq<char>,
    names: Seq<FolderName>,
) -> bool {
    &&& entries.len() == names.len()
    &&& forall|i: int|
        0 <= i < entries.len() ==> (#[trigger] entries[i]).name == names[i].name
            && entries[i].is_repo == names[i].is_repo && entries[i].full_path@ == child_of_path(
            path,
            names[i].name@,
        )
}

/// The folder at a path with the given subfolders.
pub fn listing(path: String, names: &Vec<FolderName>) -> (l: FolderListing)
    ensures
        l.path == path,
        is_way(l.crumbs@, path@),
        opt(l.parent) == parent_path(path@),
        entries_of(l.folders@, path@, names@),
{
    let crumbs: Vec<Crumb> = breadcrumbs(path.as_str());
    let n: usize = crumbs.len();
    let parent: Option<String> = if n >= 2 {
        Some(crumbs[n - 2].full_path.clone())
    } else {
        None
    };
    let mut folders: Vec<FolderEntry> = Vec::new();
    let mut i: usize = 0;
    while i < names.len()
        invariant
            i <= names@.len(),
            folders@.len() == i,
            forall|k: int|
                0 <= k < i ==> (#[trigger] folders@[k]).name == names@[k].name
                    && folders@[k].is_repo == names@[k].is_repo && folders@[k].full_path@
                    == child_of_path(path@, names@[k].name@),
        decreases names@.len() - i,
    {
        let ghost had = folders@;
        folders.push(
            FolderEntry {
                name: names[i].name.clone(),
                full_path: child_path(path.as_str(), names[i].name.as_str()),
                is_repo: names[i].is_repo,
            },
        );
        i += 1;
        assert forall|k: int| 0 <= k < i implies (#[trigger] folders@[k]).name == names@[k].name
            && folders@[k].is_repo == names@[k].is_repo && folders@[k].full_path@ == child_of_path(
            path@,
            names@[k].name@,
        ) by {
            if k < i - 1 {
                assert(folders@[k] == had[k]);
            }
        }
    }
    FolderListing { path, parent, crumbs, folders }
}

}
