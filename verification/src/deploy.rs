//! Deploying a file into the container root's staging area.
//!
//! Before a run, a command is placed under the fixed `bin` subdirectory of
//! the prepared root. The library computes where a source file lands —
//! the staging path joined with the source's base name, the part after its
//! last `/` — and models the staging area itself, so that what a deploy
//! leaves there is pinned down: the unverified runner only performs the
//! byte copy the computed destination asks for.

use vstd::prelude::*;

verus! {

/// The fixed staging directory, as bytes: `newroot/bin`.
pub open spec fn staging_bin() -> Seq<u8> {
    seq![110u8, 101u8, 119u8, 114u8, 111u8, 111u8, 116u8, 47u8, 98u8, 105u8, 110u8]
}

/// Where the base name of `p` begins: just past the last `/`, or at the
/// start when `p` holds no `/`.
pub open spec fn base_name_start(p: Seq<u8>) -> int
    decreases p.len(),
{
    if p.len() == 0 {
        0
    } else if p.last() == 47 {
        p.len() as int
    } else {
        base_name_start(p.drop_last())
    }
}

/// The base name of the path `p`: everything after its last `/`. Empty
/// exactly when `p` is empty or ends with `/`.
pub open spec fn spec_base_name(p: Seq<u8>) -> Seq<u8> {
    p.subrange(base_name_start(p), p.len() as int)
}

/// Where a source path's file lands when deployed: the fixed staging
/// directory joined with the source's base name.
pub open spec fn spec_destination(p: Seq<u8>) -> Seq<u8> {
    staging_bin() + seq![47u8] + spec_base_name(p)
}

pub proof fn lemma_base_name_start_bounds(p: Seq<u8>)
    ensures
        0 <= base_name_start(p) <= p.len(),
        forall|k: int| base_name_start(p) <= k < p.len() ==> p[k] != 47,
        base_name_start(p) > 0 ==> p[base_name_start(p) - 1] == 47,
    decreases p.len(),
{
    if p.len() != 0 && p.last() != 47 {
        lemma_base_name_start_bounds(p.drop_last());
        assert forall|k: int| base_name_start(p) <= k < p.len() implies p[k] != 47 by {
            if k < p.len() - 1 {
                assert(p.drop_last()[k] == p[k]);
            } else {
                assert(p[k] == p.last());
            }
        }
    }
}

/// Whether two byte strings hold the same bytes.
pub fn bytes_eq(a: &Vec<u8>, b: &Vec<u8>) -> (r: bool)
    ensures
        r == (a@ == b@),
{
    if a.len() != b.len() {
        return false;
    }
    let n = a.len();
    let mut i: usize = 0;
    while i < n
        invariant
            i <= n == a@.len() == b@.len(),
            forall|k: int| 0 <= k < i ==> a@[k] == b@[k],
        decreases n - i,
    {
        if a[i] != b[i] {
            return false;
        }
        i = i + 1;
    }
    proof {
        assert(a@ =~= b@);
    }
    true
}

/// The base name of `path`: the bytes after its last `/`. `None` exactly
/// when that name is empty — an empty path or one ending in `/` names no
/// file that could be deployed.
pub fn base_name(path: &Vec<u8>) -> (r: Option<Vec<u8>>)
    ensures
        match r {
            Option::Some(name) => name@ == spec_base_name(path@) && name@.len() > 0,
            Option::None => spec_base_name(path@).len() == 0,
        },
{
    let n = path.len();
    proof {
        assert(path@.take(n as int) =~= path@);
    }
    let mut start = n;
    while start > 0 && path[start - 1] != 47
        invariant
            start <= n == path@.len(),
            base_name_start(path@) == base_name_start(path@.take(start as int)),
        decreases start,
    {
        proof {
            assert(path@.take(start as int).drop_last() =~= path@.take(start as int - 1));
        }
        start = start - 1;
    }
    proof {
        if start == 0 {
            assert(path@.take(0).len() == 0);
        } else {
            assert(path@.take(start as int).last() == path@[start as int - 1]);
        }
        assert(base_name_start(path@) == start as int);
    }
    if start == n {
        return None;
    }
    let mut name: Vec<u8> = Vec::new();
    let mut i = start;
    while i < n
        invariant
            start <= i <= n == path@.len(),
            name@ == path@.subrange(start as int, i as int),
        decreases n - i,
    {
        name.push(path[i]);
        proof {
            assert(name@ =~= path@.subrange(start as int, i as int + 1));
        }
        i = i + 1;
    }
    Some(name)
}

/// The fixed staging directory path, `newroot/bin`, as bytes.
pub fn staging_bin_path() -> (r: Vec<u8>)
    ensures
        r@ == staging_bin(),
{
    let mut v: Vec<u8> = Vec::new();
    v.push(110);
    v.push(101);
    v.push(119);
    v.push(114);
    v.push(111);
    v.push(111);
    v.push(116);
    v.push(47);
    v.push(98);
    v.push(105);
    v.push(110);
    proof {
        assert(v@ =~= staging_bin());
    }
    v
}

/// Where the file named by `path` lands when deployed: the staging
/// directory joined with the path's base name. `None` exactly when `path`
/// names no file.
pub fn deploy_destination(path: &Vec<u8>) -> (r: Option<Vec<u8>>)
    ensures
        match r {
            Option::Some(dest) => dest@ == spec_destination(path@) && spec_base_name(path@).len()
                > 0,
            Option::None => spec_base_name(path@).len() == 0,
        },
{
    let name = match base_name(path) {
        Option::Some(name) => name,
        Option::None => { return None },
    };
    let mut dest = staging_bin_path();
    dest.push(47);
    let mut i: usize = 0;
    let n = name.len();
    while i < n
        invariant
            i <= n == name@.len(),
            dest@ == staging_bin() + seq![47u8] + name@.subrange(0, i as int),
        decreases n - i,
    {
        dest.push(name[i]);
        proof {
            assert(dest@ =~= staging_bin() + seq![47u8] + name@.subrange(0, i as int + 1));
        }
        i = i + 1;
    }
    proof {
        assert(dest@ =~= staging_bin() + seq![47u8] + name@);
    }
    Some(dest)
}

/// One file of the staging area: its name within the staging directory and
/// its byte content.
pub struct StagedFile {
    /// The file's name within the staging directory.
    pub name: Vec<u8>,
    /// The file's byte content.
    pub content: Vec<u8>,
}

impl View for StagedFile {
    type V = (Seq<u8>, Seq<u8>);

    open spec fn view(&self) -> (Seq<u8>, Seq<u8>) {
        (self.name@, self.content@)
    }
}

/// The staged files as pairs of name and content, in order.
pub open spec fn staged_view(files: Seq<StagedFile>) -> Seq<(Seq<u8>, Seq<u8>)> {
    files.map_values(|f: StagedFile| f@)
}

/// Some file of `files` bears the name `name`.
pub open spec fn stage_has(files: Seq<(Seq<u8>, Seq<u8>)>, name: Seq<u8>) -> bool {
    exists|i: int| 0 <= i < files.len() && (#[trigger] files[i].0) == name
}

/// No two files of `files` bear the same name.
pub open spec fn names_unique(files: Seq<(Seq<u8>, Seq<u8>)>) -> bool {
    forall|a: int, b: int|
        0 <= a < b < files.len() ==> (#[trigger] files[a].0) != (#[trigger] files[b].0)
}

/// A model of the staging area: the deployed files, in deployment order,
/// each name held at most once.
pub struct StagingArea {
    files: Vec<StagedFile>,
}

impl View for StagingArea {
    type V = Seq<(Seq<u8>, Seq<u8>)>;

    closed spec fn view(&self) -> Seq<(Seq<u8>, Seq<u8>)> {
        staged_view(self.files@)
    }
}

impl StagingArea {
    /// No two files of the area bear the same name.
    pub open spec fn wf(&self) -> bool {
        names_unique(self@)
    }

    /// An empty staging area.
    pub fn empty() -> (r: StagingArea)
        ensures
            r@ =~= Seq::<(Seq<u8>, Seq<u8>)>::empty(),
            r.wf(),
    {
        StagingArea { files: Vec::new() }
    }

    /// How many files the area holds.
    pub fn file_count(&self) -> (r: usize)
        ensures
            r == self@.len(),
    {
        self.files.len()
    }

    /// The content of the file named `name`, if one was deployed.
    #[verifier::loop_isolation(false)]
    pub fn content_of(&self, name: &Vec<u8>) -> (r: Option<&Vec<u8>>)
        ensures
            match r {
                Option::Some(c) => stage_has(self@, name@) && (exists|i: int|
                    0 <= i < self@.len() && self@[i] == (name@, c@)),
                Option::None => !stage_has(self@, name@),
            },
    {
        let n = self.files.len();
        let mut i: usize = 0;
        while i < n
            invariant
                i <= n == self@.len(),
                self@.len() == self.files@.len(),
                forall|k: int| 0 <= k < i ==> self@[k].0 != name@,
            decreases n - i,
        {
            if bytes_eq(&self.files[i].name, name) {
                proof {
                    assert(self@[i as int] == self.files@[i as int]@);
                    assert(self@[i as int].0 == name@);
                    assert(self@[i as int] == (name@, self.files@[i as int].content@));
                    assert(stage_has(self@, name@));
                }
                return Some(&self.files[i].content);
            }
            proof {
                assert(self@[i as int] == self.files@[i as int]@);
            }
            i = i + 1;
        }
        None
    }

    /// Deploy `content` under `name`: a fresh name is added at the end,
    /// and a name already present has its content replaced — the one file
    /// of that name then holds exactly the deployed bytes, and every other
    /// file is untouched.
    #[verifier::loop_isolation(false)]
    pub fn deploy_file(self, name: Vec<u8>, content: Vec<u8>) -> (r: StagingArea)
        requires
            self.wf(),
        ensures
            r.wf(),
            !stage_has(self@, name@) ==> r@ == self@.push((name@, content@)),
            stage_has(self@, name@) ==> (exists|i: int|
                0 <= i < self@.len() && self@[i].0 == name@ && r@ == self@.update(
                    i,
                    (name@, content@),
                )),
    {
        let mut files = self.files;
        let ghost orig = self@;
        proof {
            assert(names_unique(orig));
        }
        let n = files.len();
        let mut i: usize = 0;
        while i < n
            invariant
                i <= n == files@.len(),
                staged_view(files@) == orig,
                forall|k: int| 0 <= k < i ==> orig[k].0 != name@,
            decreases n - i,
        {
            if bytes_eq(&files[i].name, &name) {
                let ghost ii = i as int;
                proof {
                    assert(orig[ii] == files@[ii]@);
                    assert(orig[ii].0 == name@);
                    assert(stage_has(orig, name@));
                }
                files.remove(i);
                files.insert(i, StagedFile { name, content });
                let ghost upd = orig.update(ii, (name@, content@));
                proof {
                    assert(staged_view(files@) =~= upd);
                }
                let r = StagingArea { files };
                proof {
                    assert(r@ == upd);
                    assert forall|a: int, b: int| 0 <= a < b < r@.len() implies (#[trigger] r@[a].0)
                        != (#[trigger] r@[b].0) by {
                        assert(r@[a] == if a == ii {
                            (name@, content@)
                        } else {
                            orig[a]
                        });
                        assert(r@[b] == if b == ii {
                            (name@, content@)
                        } else {
                            orig[b]
                        });
                        assert(orig[a].0 != orig[b].0);
                        if a == ii {
                            assert(orig[ii].0 != orig[b].0);
                        }
                        if b == ii {
                            assert(orig[a].0 != orig[ii].0);
                        }
                    }
                    assert(names_unique(r@));
                }
                return r;
            }
            proof {
                assert(orig[i as int] == files@[i as int]@);
            }
            i = i + 1;
        }
        files.push(StagedFile { name, content });
        proof {
            assert(staged_view(files@) =~= orig.push((name@, content@)));
        }
        let r = StagingArea { files };
        proof {
            assert(!stage_has(orig, name@));
            assert(r@ == orig.push((name@, content@)));
            assert forall|a: int, b: int| 0 <= a < b < r@.len() implies (#[trigger] r@[a].0)
                != (#[trigger] r@[b].0) by {
                if b < orig.len() {
                    assert(r@[a] == orig[a] && r@[b] == orig[b]);
                    assert(orig[a].0 != orig[b].0);
                } else {
                    assert(r@[b] == (name@, content@));
                    assert(r@[a] == orig[a]);
                    assert(orig[a].0 != name@);
                }
            }
            assert(names_unique(r@));
        }
        r
    }
}

} // verus!
