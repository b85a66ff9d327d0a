//! Ownership receipts: the record of which branches are rwv's.
//!
//! A branch is rwv's by record, never by the shape of its name.

use vstd::prelude::*;
use crate::lists::{
    flat_map_contains, flat_map_holds, flat_map_member, joined_lists_contain, single_contains,
};
use crate::model::{lookup, value_of};
use crate::order::{
    arranged, arranging_keeps_everything, distinct, distinct_keeps_each_once, note, order_of,
    sort_order,
};
use crate::scan_text::starts_with;
use crate::text::chars_of;
use crate::violation::{CheckViolation, PathText, ProjectName, RevisionId, WorkweaveName};
use crate::violation_view::CheckViolationView;

verus! {

/// Where a branch points.
#[derive(Debug)]
pub enum TipReading {
    Unreadable,
    Absent,
    At { revision: RevisionId },
}

/// What a [`TipReading`] says.
pub enum TipView {
    Unreadable,
    Absent,
    At { revision: Seq<char> },
}

impl DeepView for TipReading {
    type V = TipView;

    open spec fn deep_view(&self) -> TipView {
        match *self {
            TipReading::Unreadable => TipView::Unreadable,
            TipReading::Absent => TipView::Absent,
            TipReading::At { revision } => TipView::At { revision: revision@ },
        }
    }
}

/// A receipt, and what was found of the branch it names.
#[derive(Debug)]
pub struct ReceiptReading {
    pub store: PathText,
    pub name: String,
    pub store_is_repo: bool,
    pub tip: TipReading,
    /// Whether the store's own tip is readable and carries the branch's tip.
    pub merged: bool,
}

/// A name that a workweave on disk goes by, and whether it is a usable name.
#[derive(Debug)]
pub struct LiveName {
    pub name: String,
    pub usable: bool,
}

/// A project's receipts (`None` where they cannot be read) and the names of
/// its workweaves on disk.
#[derive(Debug)]
pub struct ReceiptsReading {
    pub project: ProjectName,
    pub receipts: Option<Vec<ReceiptReading>>,
    pub live: Vec<LiveName>,
}

/// The branch a workweave's checkouts stand on.
pub open spec fn minted(project: Seq<char>, workweave: Seq<char>) -> Seq<char> {
    project + "--"@ + workweave
}

/// Whether `name` is in the namespace of the branch `flat`, as branches of the
/// retired nested shape are.
pub open spec fn claimed_under(flat: Seq<char>, name: Seq<char>) -> bool {
    starts_with(name, flat + "/"@) && name.len() > flat.len() + 1
}

/// The branch a workweave's checkouts stand on.
pub fn mint(project: &ProjectName, workweave: &WorkweaveName) -> (name: String)
    ensures
        name@ == minted(project@, workweave@),
{
    project.clone().concat("--").concat(workweave)
}

/// Whether `name` is in the namespace of the branch `flat`.
pub fn claim(flat: &String, name: &String) -> (claimed: bool)
    ensures
        claimed == claimed_under(flat@, name@),
{
    let prefix: String = flat.clone().concat("/");
    proof {
        reveal_strlit("/");
    }
    let have: usize = name.as_str().unicode_len();
    let need: usize = prefix.as_str().unicode_len();
    if have <= need {
        return false;
    }
    let head: String = name.as_str().substring_char(0, need).to_owned();
    assert(head@ =~= name@.take(need as int));
    head == prefix
}

/// A branch cannot be both the minted one and in its namespace.
pub proof fn minted_branch_is_not_nested(flat: Seq<char>)
    ensures
        !claimed_under(flat, flat),
{
}

/// The branch a live workweave of a project stands on. No branch is minted for
/// a name that is not usable.
pub open spec fn live_pair(project: Seq<char>) -> spec_fn(LiveName) -> Seq<(Seq<char>, Seq<char>)> {
    |l: LiveName|
        if l.usable {
            seq![(minted(project, l.name@), l.name@)]
        } else {
            Seq::empty()
        }
}

/// The names of the branches the live workweaves of a project stand on.
pub open spec fn live_pairs(project: Seq<char>, live: Seq<LiveName>) -> Seq<
    (Seq<char>, Seq<char>),
> {
    live.flat_map(live_pair(project))
}

/// Names the branches the live workweaves of a project stand on.
fn mint_live(project: &ProjectName, live: &Vec<LiveName>) -> (pairs: Vec<(String, WorkweaveName)>)
    ensures
        pairs@.map_values(|l: (String, WorkweaveName)| (l.0@, l.1@)) == live_pairs(project@, live@),
{
    let ghost f = live_pair(project@);
    let ghost said = |l: (String, WorkweaveName)| (l.0@, l.1@);
    let mut pairs: Vec<(String, WorkweaveName)> = Vec::new();
    let mut i: usize = 0;
    assert(pairs@.map_values(said) =~= live@.take(0).flat_map(f));
    while i < live.len()
        invariant
            0 <= i <= live.len(),
            f == live_pair(project@),
            said == (|l: (String, WorkweaveName)| (l.0@, l.1@)),
            pairs@.map_values(said) == live@.take(i as int).flat_map(f),
        decreases live.len() - i,
    {
        let ghost prior = pairs@.map_values(said);
        if live[i].usable {
            pairs.push((mint(project, &live[i].name), live[i].name.clone()));
        }
        proof {
            live@.lemma_flat_map_take_append(f, i as int);
            assert(pairs@.map_values(said) =~= prior + f(live@[i as int]));
        }
        i = i + 1;
    }
    assert(live@.take(i as int) =~= live@);
    pairs
}

/// A project that holds receipts.
#[derive(Debug)]
pub struct RecordedProject {
    pub name: ProjectName,
    /// Each branch a live workweave stands on, with the workweave's name.
    pub live_ref_names: Vec<(String, WorkweaveName)>,
    pub receipts: Vec<ReceiptReading>,
}

/// One receipt as the scans use it.
#[derive(Debug)]
pub struct RecordedRef<'a> {
    pub project: &'a ProjectName,
    pub receipt: &'a ReceiptReading,
    /// The workweave on disk that stands on the branch, if there is one.
    pub live_workweave: Option<&'a WorkweaveName>,
}

/// What a [`RecordedRef`] says.
pub struct RecordedRefView {
    pub project: Seq<char>,
    pub store: Seq<char>,
    pub name: Seq<char>,
    pub store_is_repo: bool,
    pub live: Option<Seq<char>>,
    pub tip: TipView,
    pub merged: bool,
}

impl<'a> RecordedRef<'a> {
    /// What the receipt says.
    pub open spec fn model(self) -> RecordedRefView {
        RecordedRefView {
            project: self.project@,
            store: self.receipt.store@,
            name: self.receipt.name@,
            store_is_repo: self.receipt.store_is_repo,
            live: match self.live_workweave {
                Some(w) => Some(w@),
                None => None,
            },
            tip: self.receipt.tip.deep_view(),
            merged: self.receipt.merged,
        }
    }
}

/// What a list of receipts says.
pub open spec fn models(refs: Seq<RecordedRef<'_>>) -> Seq<RecordedRefView> {
    refs.map_values(|r: RecordedRef<'_>| r.model())
}

/// The receipts of the projects that hold any.
#[derive(Debug)]
pub struct RecordedRefs {
    pub projects: Vec<RecordedProject>,
}

/// The workweave whose branch is `name`, among the live ones.
pub open spec fn live_owner(p: RecordedProject, name: Seq<char>) -> Option<Seq<char>> {
    match value_of(p.live_ref_names@, name) {
        Some(w) => Some(w@),
        None => None,
    }
}

/// A receipt of a project, where it is for the store.
pub open spec fn receipt_in(p: RecordedProject, store: Seq<char>) -> spec_fn(ReceiptReading) -> Seq<
    RecordedRefView,
> {
    |r: ReceiptReading|
        if r.store@ == store {
            seq![
                RecordedRefView {
                    project: p.name@,
                    store: r.store@,
                    name: r.name@,
                    store_is_repo: r.store_is_repo,
                    live: live_owner(p, r.name@),
                    tip: r.tip.deep_view(),
                    merged: r.merged,
                },
            ]
        } else {
            Seq::empty()
        }
}

/// A project's receipts for a store.
pub open spec fn project_refs(store: Seq<char>) -> spec_fn(RecordedProject) -> Seq<RecordedRefView> {
    |p: RecordedProject| p.receipts@.flat_map(receipt_in(p, store))
}

/// The receipts for a store, whichever project holds them.
pub open spec fn store_refs(recorded: RecordedRefs, store: Seq<char>) -> Seq<RecordedRefView> {
    recorded.projects@.flat_map(project_refs(store))
}

/// Whether a project's live workweave stands on the branch `name`.
pub open spec fn minted_live(recorded: RecordedRefs, project: Seq<char>, name: Seq<char>) -> bool {
    exists|i: int|
        0 <= i < recorded.projects@.len() && (#[trigger] recorded.projects@[i]).name@ == project
            && live_owner(recorded.projects@[i], name) is Some
}

/// Whether a reading contributes receipts.
pub open spec fn has_receipts(r: ReceiptsReading) -> bool {
    r.receipts matches Some(list) && list@.len() > 0
}

/// Whether a project is what a reading says.
pub open spec fn arranges(p: RecordedProject, r: ReceiptsReading) -> bool {
    &&& p.name == r.project
    &&& r.receipts == Some(p.receipts)
    &&& p.live_ref_names@.map_values(|l: (String, WorkweaveName)| (l.0@, l.1@)) == live_pairs(
        r.project@,
        r.live@,
    )
}

impl RecordedRefs {
    /// Arranges the receipts of the projects that hold any, in order.
    pub fn new(readings: Vec<ReceiptsReading>) -> (recorded: RecordedRefs)
        ensures
            ({
                let kept = readings@.filter(|r: ReceiptsReading| has_receipts(r));
                &&& recorded.projects@.len() == kept.len()
                &&& forall|i: int|
                    0 <= i < kept.len() ==> arranges(#[trigger] recorded.projects@[i], kept[i])
            }),
    {
        let ghost keep = |r: ReceiptsReading| has_receipts(r);
        let mut projects: Vec<RecordedProject> = Vec::new();
        assert(readings@.take(0).filter(keep).len() == 0) by {
            reveal(Seq::filter);
        }
        for r in it: readings
            invariant
                it.seq() == readings@,
                keep == (|r: ReceiptsReading| has_receipts(r)),
                projects@.len() == readings@.take(it.index()).filter(keep).len(),
                forall|i: int|
                    0 <= i < projects@.len() ==> arranges(
                        #[trigger] projects@[i],
                        readings@.take(it.index()).filter(keep)[i],
                    ),
        {
            let ghost at = it.index();
            let ghost whole = r;
            proof {
                assert(readings@.take(at + 1) =~= readings@.take(at).push(readings@[at]));
                readings@.take(at).lemma_filter_push(readings@[at], keep);
            }
            if let Some(receipts) = r.receipts {
                if receipts.len() > 0 {
                    let live_ref_names: Vec<(String, WorkweaveName)> = mint_live(
                        &r.project,
                        &r.live,
                    );
                    projects.push(RecordedProject { name: r.project, live_ref_names, receipts });
                }
            }
        }
        assert(readings@.take(readings@.len() as int) =~= readings@);
        RecordedRefs { projects }
    }

    /// Whether a live workweave of `project` stands on the branch `name`.
    pub fn mints_for_a_live_workweave(&self, project: &ProjectName, name: &String) -> (minted: bool)
        ensures
            minted == minted_live(*self, project@, name@),
    {
        let mut i: usize = 0;
        while i < self.projects.len()
            invariant
                0 <= i <= self.projects.len(),
                forall|k: int|
                    0 <= k < i ==> !((#[trigger] self.projects@[k]).name@ == project@ && live_owner(
                        self.projects@[k],
                        name@,
                    ) is Some),
            decreases self.projects.len() - i,
        {
            if self.projects[i].name == *project {
                if lookup(&self.projects[i].live_ref_names, name).is_some() {
                    assert(live_owner(self.projects@[i as int], name@) is Some);
                    return true;
                }
            }
            i = i + 1;
        }
        false
    }

    /// The receipts for a store, whichever project holds them.
    pub fn for_store<'a>(&'a self, store: &PathText) -> (refs: Vec<RecordedRef<'a>>)
        ensures
            models(refs@) == store_refs(*self, store@),
    {
        let ghost f = project_refs(store@);
        let mut refs: Vec<RecordedRef<'a>> = Vec::new();
        let mut i: usize = 0;
        assert(models(refs@) =~= self.projects@.take(0).flat_map(f));
        while i < self.projects.len()
            invariant
                0 <= i <= self.projects.len(),
                f == project_refs(store@),
                models(refs@) == self.projects@.take(i as int).flat_map(f),
            decreases self.projects.len() - i,
        {
            let ghost before = models(refs@);
            let p: &'a RecordedProject = &self.projects[i];
            let ghost g = receipt_in(*p, store@);
            let mut k: usize = 0;
            assert(models(refs@) =~= before + p.receipts@.take(0).flat_map(g));
            while k < p.receipts.len()
                invariant
                    0 <= k <= p.receipts.len(),
                    g == receipt_in(*p, store@),
                    models(refs@) == before + p.receipts@.take(k as int).flat_map(g),
                decreases p.receipts.len() - k,
            {
                let ghost prior = models(refs@);
                let receipt: &'a ReceiptReading = &p.receipts[k];
                if receipt.store == *store {
                    let live_workweave: Option<&'a WorkweaveName> = lookup(
                        &p.live_ref_names,
                        &receipt.name,
                    );
                    refs.push(RecordedRef { project: &p.name, receipt, live_workweave });
                }
                proof {
                    p.receipts@.lemma_flat_map_take_append(g, k as int);
                    assert(models(refs@) =~= prior + g(p.receipts@[k as int]));
                    assert(models(refs@) =~= before + p.receipts@.take(k as int + 1).flat_map(g));
                }
                k = k + 1;
            }
            proof {
                assert(p.receipts@.take(k as int) =~= p.receipts@);
                self.projects@.lemma_flat_map_take_append(f, i as int);
            }
            i = i + 1;
        }
        assert(self.projects@.take(i as int) =~= self.projects@);
        refs
    }
}

/// A workweave directory: the name it goes by, whether that is a usable name,
/// and the project its marker names where that can be read.
#[derive(Debug)]
pub struct WorkweaveDirReading {
    pub name: String,
    pub usable: bool,
    pub marker_project: Option<ProjectName>,
}

/// A workweave a registry records: its name, whether that is a usable name,
/// and whether its directory is there.
#[derive(Debug)]
pub struct IndexDirReading {
    pub name: String,
    pub usable: bool,
    pub is_dir: bool,
}

/// A project and the workweaves its registry records.
#[derive(Debug)]
pub struct ProjectIndexReading {
    pub project: ProjectName,
    pub entries: Vec<IndexDirReading>,
}

/// The name of a directory whose marker names the project.
pub open spec fn marked_name(project: Seq<char>) -> spec_fn(WorkweaveDirReading) -> Seq<Seq<char>> {
    |d: WorkweaveDirReading|
        match d.marker_project {
            Some(p) => if p@ == project {
                seq![d.name@]
            } else {
                Seq::empty()
            },
            None => Seq::empty(),
        }
}

/// The name of a recorded workweave whose directory is there.
pub open spec fn present_name() -> spec_fn(IndexDirReading) -> Seq<Seq<char>> {
    |e: IndexDirReading| if e.is_dir { seq![e.name@] } else { Seq::empty() }
}

/// Every name a live workweave of the project goes by, in order, once.
pub open spec fn live_names(
    project: Seq<char>,
    dirs: Seq<WorkweaveDirReading>,
    entries: Seq<IndexDirReading>,
) -> Seq<Seq<char>> {
    let names = distinct(dirs.flat_map(marked_name(project)) + entries.flat_map(present_name()));
    arranged(names, names)
}

/// The workweaves of a project that are on disk: those whose marker names it,
/// and those its registry records. They are given in order, each once.
pub fn live_workweave_names(
    project: &ProjectName,
    dirs: &Vec<WorkweaveDirReading>,
    entries: &Vec<IndexDirReading>,
) -> (names: Vec<String>)
    ensures
        names.deep_view() == live_names(project@, dirs@, entries@),
{
    let ghost f = marked_name(project@);
    let ghost g = present_name();
    let mut found: Vec<String> = Vec::new();
    let mut i: usize = 0;
    assert(dirs@.take(0).flat_map(f) =~= Seq::empty());
    assert(found.deep_view() =~= distinct(dirs@.take(0).flat_map(f)));
    while i < dirs.len()
        invariant
            0 <= i <= dirs.len(),
            f == marked_name(project@),
            found.deep_view() == distinct(dirs@.take(i as int).flat_map(f)),
        decreases dirs.len() - i,
    {
        let ghost told = dirs@.take(i as int).flat_map(f);
        proof {
            dirs@.lemma_flat_map_take_append(f, i as int);
        }
        let mine: bool = match &dirs[i].marker_project {
            Some(p) => *p == *project,
            None => false,
        };
        if mine {
            let _new: bool = note(&mut found, &dirs[i].name);
            proof {
                let now = dirs@.take(i as int + 1).flat_map(f);
                assert(now =~= told.push(dirs@[i as int].name@));
                assert(now.drop_last() =~= told);
            }
        } else {
            assert(dirs@.take(i as int + 1).flat_map(f) =~= told);
        }
        i = i + 1;
    }
    assert(dirs@.take(i as int) =~= dirs@);
    let ghost first = dirs@.flat_map(f);
    let mut k: usize = 0;
    assert(first + entries@.take(0).flat_map(g) =~= first);
    while k < entries.len()
        invariant
            0 <= k <= entries.len(),
            g == present_name(),
            found.deep_view() == distinct(first + entries@.take(k as int).flat_map(g)),
        decreases entries.len() - k,
    {
        let ghost told = first + entries@.take(k as int).flat_map(g);
        proof {
            entries@.lemma_flat_map_take_append(g, k as int);
        }
        if entries[k].is_dir {
            let _new: bool = note(&mut found, &entries[k].name);
            proof {
                let now = first + entries@.take(k as int + 1).flat_map(g);
                assert(now =~= told.push(entries@[k as int].name@));
                assert(now.drop_last() =~= told);
            }
        } else {
            assert(first + entries@.take(k as int + 1).flat_map(g) =~= told);
        }
        k = k + 1;
    }
    assert(entries@.take(k as int) =~= entries@);
    sorted_names(found)
}

/// Puts names in order.
pub fn sorted_names(names: Vec<String>) -> (sorted: Vec<String>)
    ensures
        sorted.deep_view() == arranged(names.deep_view(), names.deep_view()),
{
    let ghost ns = names.deep_view();
    let mut keys: Vec<Vec<char>> = Vec::new();
    let mut n: usize = 0;
    while n < names.len()
        invariant
            0 <= n <= names.len(),
            ns == names.deep_view(),
            keys@.len() == n,
            forall|k: int| 0 <= k < n ==> (#[trigger] keys@[k])@ == ns[k],
        decreases names.len() - n,
    {
        assert(ns[n as int] == names@[n as int]@);
        keys.push(chars_of(&names[n]));
        n = n + 1;
    }
    proof {
        assert forall|k: int| 0 <= k < keys@.len() implies keys.deep_view()[k] == ns[k] by {
            assert(keys.deep_view()[k] =~= keys@[k]@);
        }
        assert(keys.deep_view() =~= ns);
    }
    let order: Vec<usize> = sort_order(&keys);
    let mut sorted: Vec<String> = Vec::new();
    let mut k: usize = 0;
    while k < order.len()
        invariant
            0 <= k <= order.len(),
            ns == names.deep_view(),
            sorted@.len() == k,
            order@.map_values(|i: usize| i as int) == order_of(ns),
            forall|m: int| 0 <= m < order@.len() ==> (#[trigger] order@[m]) < names@.len(),
            forall|m: int| 0 <= m < k ==> (#[trigger] sorted@[m])@ == ns[order_of(ns)[m]],
        decreases order.len() - k,
    {
        proof {
            assert(order_of(ns)[k as int] == order@[k as int] as int);
            assert(ns[order@[k as int] as int] == names@[order@[k as int] as int]@);
        }
        sorted.push(names[order[k]].clone());
        k = k + 1;
    }
    assert(sorted.deep_view() =~= arranged(ns, ns));
    sorted
}

/// The branch of a directory whose marker can be read.
pub open spec fn dir_branch() -> spec_fn(WorkweaveDirReading) -> Seq<Seq<char>> {
    |d: WorkweaveDirReading|
        match d.marker_project {
            Some(p) => if d.usable {
                seq![minted(p@, d.name@)]
            } else {
                Seq::empty()
            },
            None => Seq::empty(),
        }
}

/// The branch of a recorded workweave whose directory is there.
pub open spec fn entry_branch(project: Seq<char>) -> spec_fn(IndexDirReading) -> Seq<Seq<char>> {
    |e: IndexDirReading|
        if e.is_dir && e.usable {
            seq![minted(project, e.name@)]
        } else {
            Seq::empty()
        }
}

/// The branches of the workweaves a project's registry records.
pub open spec fn index_branches() -> spec_fn(ProjectIndexReading) -> Seq<Seq<char>> {
    |p: ProjectIndexReading| p.entries@.flat_map(entry_branch(p.project@))
}

/// The branches every workweave on disk stands on.
pub open spec fn live_branches(
    dirs: Seq<WorkweaveDirReading>,
    projects: Seq<ProjectIndexReading>,
) -> Seq<Seq<char>> {
    dirs.flat_map(dir_branch()) + projects.flat_map(index_branches())
}

/// Names the branch every workweave on disk stands on.
pub fn live_minted_ref_names(
    dirs: &Vec<WorkweaveDirReading>,
    projects: &Vec<ProjectIndexReading>,
) -> (names: Vec<String>)
    ensures
        names.deep_view() == live_branches(dirs@, projects@),
{
    let ghost f = dir_branch();
    let mut names: Vec<String> = Vec::new();
    let mut i: usize = 0;
    assert(names.deep_view() =~= dirs@.take(0).flat_map(f));
    while i < dirs.len()
        invariant
            0 <= i <= dirs.len(),
            f == dir_branch(),
            names.deep_view() == dirs@.take(i as int).flat_map(f),
        decreases dirs.len() - i,
    {
        let ghost prior = names.deep_view();
        if let Some(p) = &dirs[i].marker_project {
            if dirs[i].usable {
                names.push(mint(p, &dirs[i].name));
            }
        }
        proof {
            dirs@.lemma_flat_map_take_append(f, i as int);
            assert(names.deep_view() =~= prior + f(dirs@[i as int]));
        }
        i = i + 1;
    }
    assert(dirs@.take(i as int) =~= dirs@);
    let ghost first = names.deep_view();
    let ghost g = index_branches();
    let mut j: usize = 0;
    assert(names.deep_view() =~= first + projects@.take(0).flat_map(g));
    while j < projects.len()
        invariant
            0 <= j <= projects.len(),
            g == index_branches(),
            names.deep_view() == first + projects@.take(j as int).flat_map(g),
        decreases projects.len() - j,
    {
        let ghost before = names.deep_view();
        let p: &ProjectIndexReading = &projects[j];
        let ghost h = entry_branch(p.project@);
        let mut k: usize = 0;
        assert(names.deep_view() =~= before + p.entries@.take(0).flat_map(h));
        while k < p.entries.len()
            invariant
                0 <= k <= p.entries.len(),
                h == entry_branch(p.project@),
                names.deep_view() == before + p.entries@.take(k as int).flat_map(h),
            decreases p.entries.len() - k,
        {
            let ghost prior = names.deep_view();
            if p.entries[k].is_dir && p.entries[k].usable {
                names.push(mint(&p.project, &p.entries[k].name));
            }
            proof {
                p.entries@.lemma_flat_map_take_append(h, k as int);
                assert(names.deep_view() =~= prior + h(p.entries@[k as int]));
                assert(names.deep_view() =~= before + p.entries@.take(k as int + 1).flat_map(h));
            }
            k = k + 1;
        }
        proof {
            assert(p.entries@.take(k as int) =~= p.entries@);
            projects@.lemma_flat_map_take_append(g, j as int);
            assert(names.deep_view() =~= first + projects@.take(j as int + 1).flat_map(g));
        }
        j = j + 1;
    }
    assert(projects@.take(j as int) =~= projects@);
    names
}

/// Whether a project is looked at: all are, unless one is active.
pub open spec fn in_focus(active: Option<Seq<char>>, project: Seq<char>) -> bool {
    active is None || active == Some(project)
}

/// Whether a project is looked at.
pub fn focused(active: &Option<ProjectName>, project: &ProjectName) -> (focus: bool)
    ensures
        focus == in_focus(active.deep_view(), project@),
{
    match active {
        Some(a) => *a == *project,
        None => true,
    }
}

/// What a receipt raises for want of its branch.
pub open spec fn dangling_rule(project: Seq<char>) -> spec_fn(ReceiptReading) -> Seq<
    CheckViolationView,
> {
    |r: ReceiptReading|
        if r.store_is_repo && r.tip is Absent {
            seq![
                CheckViolationView::DanglingRefReceipt {
                    project,
                    store_path: r.store@,
                    ref_name: r.name@,
                },
            ]
        } else {
            Seq::empty()
        }
}

/// The receipts of a project that is looked at.
pub open spec fn focused_receipts(active: Option<Seq<char>>, r: ReceiptsReading) -> Seq<
    ReceiptReading,
> {
    match r.receipts {
        Some(list) => if in_focus(active, r.project@) {
            list@
        } else {
            Seq::empty()
        },
        None => Seq::empty(),
    }
}

/// What a project's receipts raise for want of their branches.
pub open spec fn dangling_receipt_rule(active: Option<Seq<char>>) -> spec_fn(
    ReceiptsReading,
) -> Seq<CheckViolationView> {
    |r: ReceiptsReading| focused_receipts(active, r).flat_map(dangling_rule(r.project@))
}

/// Reports the receipts whose branch is not there. A store that is no repo, or
/// a branch that cannot be read, raises nothing.
pub fn scan_dangling_receipts(
    readings: &Vec<ReceiptsReading>,
    active: &Option<ProjectName>,
) -> (violations: Vec<CheckViolation>)
    ensures
        violations.deep_view() == readings@.flat_map(dangling_receipt_rule(active.deep_view())),
{
    let ghost f = dangling_receipt_rule(active.deep_view());
    let mut violations: Vec<CheckViolation> = Vec::new();
    let mut i: usize = 0;
    assert(violations.deep_view() =~= readings@.take(0).flat_map(f));
    while i < readings.len()
        invariant
            0 <= i <= readings.len(),
            f == dangling_receipt_rule(active.deep_view()),
            violations.deep_view() == readings@.take(i as int).flat_map(f),
        decreases readings.len() - i,
    {
        let ghost before = violations.deep_view();
        let r: &ReceiptsReading = &readings[i];
        let ghost g = dangling_rule(r.project@);
        let ghost list_model = focused_receipts(active.deep_view(), *r);
        let on: bool = focused(active, &r.project);
        if on && r.receipts.is_some() {
            if let Some(list) = &r.receipts {
                let mut k: usize = 0;
                assert(violations.deep_view() =~= before + list@.take(0).flat_map(g));
                while k < list.len()
                    invariant
                        0 <= k <= list.len(),
                        g == dangling_rule(r.project@),
                        violations.deep_view() == before + list@.take(k as int).flat_map(g),
                    decreases list.len() - k,
                {
                    let ghost prior = violations.deep_view();
                    let absent: bool = match &list[k].tip {
                        TipReading::Absent => true,
                        _ => false,
                    };
                    if list[k].store_is_repo && absent {
                        violations.push(
                            CheckViolation::DanglingRefReceipt {
                                project: r.project.clone(),
                                store_path: list[k].store.clone(),
                                ref_name: list[k].name.clone(),
                            },
                        );
                    }
                    proof {
                        list@.lemma_flat_map_take_append(g, k as int);
                        assert(violations.deep_view() =~= prior + g(list@[k as int]));
                        assert(violations.deep_view() =~= before + list@.take(
                            k as int + 1,
                        ).flat_map(g));
                    }
                    k = k + 1;
                }
                assert(list@.take(k as int) =~= list@);
            }
        } else {
            assert(list_model.flat_map(g) =~= Seq::empty());
        }
        proof {
            readings@.lemma_flat_map_take_append(f, i as int);
            assert(violations.deep_view() =~= before + f(readings@[i as int]));
        }
        i = i + 1;
    }
    assert(readings@.take(i as int) =~= readings@);
    violations
}

/// Whether a recorded name is of the retired nested shape.
pub open spec fn pre_flat(name: Seq<char>) -> bool {
    name.contains('/')
}

/// Whether a recorded name is of the retired nested shape.
pub fn receipt_names_a_pre_flat_ref(name: &str) -> (is: bool)
    ensures
        is == pre_flat(name@),
{
    let chars: Vec<char> = chars_of(name);
    let mut i: usize = 0;
    while i < chars.len()
        invariant
            0 <= i <= chars.len(),
            chars@ == name@,
            forall|k: int| 0 <= k < i ==> name@[k] != '/',
        decreases chars.len() - i,
    {
        if chars[i] == '/' {
            assert(name@[i as int] == '/');
            return true;
        }
        i = i + 1;
    }
    false
}

/// What a receipt of the retired shape raises, unless a live workweave stands
/// on a branch of that very name.
pub open spec fn pre_flat_rule(recorded: RecordedRefs, project: Seq<char>) -> spec_fn(
    ReceiptReading,
) -> Seq<CheckViolationView> {
    |r: ReceiptReading|
        if pre_flat(r.name@) && !minted_live(recorded, project, r.name@) {
            seq![
                CheckViolationView::PreFlatRefReceipt {
                    project,
                    store_path: r.store@,
                    ref_name: r.name@,
                },
            ]
        } else {
            Seq::empty()
        }
}

/// What a project's receipts of the retired shape raise.
pub open spec fn pre_flat_receipt_rule(
    recorded: RecordedRefs,
    active: Option<Seq<char>>,
) -> spec_fn(RecordedProject) -> Seq<CheckViolationView> {
    |p: RecordedProject|
        if in_focus(active, p.name@) {
            p.receipts@.flat_map(pre_flat_rule(recorded, p.name@))
        } else {
            Seq::empty()
        }
}

/// Reports the receipts whose name is of the retired nested shape.
pub fn scan_pre_flat_receipts(
    recorded: &RecordedRefs,
    active: &Option<ProjectName>,
) -> (violations: Vec<CheckViolation>)
    ensures
        violations.deep_view() == recorded.projects@.flat_map(
            pre_flat_receipt_rule(*recorded, active.deep_view()),
        ),
{
    let ghost f = pre_flat_receipt_rule(*recorded, active.deep_view());
    let mut violations: Vec<CheckViolation> = Vec::new();
    let mut i: usize = 0;
    assert(violations.deep_view() =~= recorded.projects@.take(0).flat_map(f));
    while i < recorded.projects.len()
        invariant
            0 <= i <= recorded.projects.len(),
            f == pre_flat_receipt_rule(*recorded, active.deep_view()),
            violations.deep_view() == recorded.projects@.take(i as int).flat_map(f),
        decreases recorded.projects.len() - i,
    {
        let ghost before = violations.deep_view();
        let p: &RecordedProject = &recorded.projects[i];
        let ghost g = pre_flat_rule(*recorded, p.name@);
        if focused(active, &p.name) {
            let mut k: usize = 0;
            assert(violations.deep_view() =~= before + p.receipts@.take(0).flat_map(g));
            while k < p.receipts.len()
                invariant
                    0 <= k <= p.receipts.len(),
                    g == pre_flat_rule(*recorded, p.name@),
                    violations.deep_view() == before + p.receipts@.take(k as int).flat_map(g),
                decreases p.receipts.len() - k,
            {
                let ghost prior = violations.deep_view();
                let r: &ReceiptReading = &p.receipts[k];
                if receipt_names_a_pre_flat_ref(&r.name) && !recorded.mints_for_a_live_workweave(
                    &p.name,
                    &r.name,
                ) {
                    violations.push(
                        CheckViolation::PreFlatRefReceipt {
                            project: p.name.clone(),
                            store_path: r.store.clone(),
                            ref_name: r.name.clone(),
                        },
                    );
                }
                proof {
                    p.receipts@.lemma_flat_map_take_append(g, k as int);
                    assert(violations.deep_view() =~= prior + g(p.receipts@[k as int]));
                    assert(violations.deep_view() =~= before + p.receipts@.take(
                        k as int + 1,
                    ).flat_map(g));
                }
                k = k + 1;
            }
            assert(p.receipts@.take(k as int) =~= p.receipts@);
        }
        proof {
            recorded.projects@.lemma_flat_map_take_append(f, i as int);
            assert(violations.deep_view() =~= before + f(recorded.projects@[i as int]));
        }
        i = i + 1;
    }
    assert(recorded.projects@.take(i as int) =~= recorded.projects@);
    violations
}

/// A receipt is said to lack its branch only where its store is there and the
/// branch is known not to be.
pub proof fn only_absent_branches_dangle(project: Seq<char>, r: ReceiptReading)
    ensures
        dangling_rule(project)(r).len() > 0 <==> r.store_is_repo && r.tip is Absent,
{
}

/// The receipt of a workweave on disk is never retracted for its name, not
/// even where the name holds a slash.
pub proof fn live_receipts_keep_their_names(
    recorded: RecordedRefs,
    project: Seq<char>,
    r: ReceiptReading,
)
    requires
        minted_live(recorded, project, r.name@),
    ensures
        pre_flat_rule(recorded, project)(r).len() == 0,
{
}

/// The branch of a workweave is named after its project and itself, so two
/// workweaves of one project, or of one name, never share one.
pub proof fn minted_names_tell_workweaves_apart(p: Seq<char>, a: Seq<char>, b: Seq<char>)
    ensures
        p.is_prefix_of(minted(p, a)),
        a.is_suffix_of(minted(p, a)),
        minted(p, a).len() == p.len() + 2 + a.len(),
        minted(p, a) == minted(p, b) ==> a == b,
        minted(a, p) == minted(b, p) ==> a == b,
{
    reveal_strlit("--");
    if minted(p, a) == minted(p, b) {
        assert(minted(p, a).skip(p.len() as int + 2) =~= a);
        assert(minted(p, b).skip(p.len() as int + 2) =~= b);
    }
    if minted(a, p) == minted(b, p) {
        assert(minted(a, p).take(minted(a, p).len() - p.len() - 2) =~= a);
        assert(minted(b, p).take(minted(b, p).len() - p.len() - 2) =~= b);
    }
}

/// A branch is claimed under another's name where it lies below it.
pub proof fn nested_names_are_claimed(flat: Seq<char>, rest: Seq<char>, other: Seq<char>)
    ensures
        claimed_under(flat, flat + "/"@ + rest) <==> rest.len() > 0,
        claimed_under(flat, other) ==> other == flat + "/"@ + other.skip(flat.len() as int + 1),
{
    reveal_strlit("/");
    assert((flat + "/"@ + rest).take(flat.len() as int + 1) =~= flat + "/"@);
    if claimed_under(flat, other) {
        assert(other =~= other.take(flat.len() as int + 1) + other.skip(flat.len() as int + 1));
    }
}

/// A workweave that can carry a branch is live under the branch minted for it.
pub proof fn usable_workweaves_have_live_branches(project: Seq<char>, live: Seq<LiveName>, i: int)
    requires
        0 <= i < live.len(),
    ensures
        live[i].usable ==> live_pairs(project, live).contains(
            (minted(project, live[i].name@), live[i].name@),
        ),
        forall|k: int|
            0 <= k < live_pairs(project, live).len() ==> (#[trigger] live_pairs(project, live)[k]).0
                == minted(project, live_pairs(project, live)[k].1),
{
    let f = live_pair(project);
    if live[i].usable {
        assert(f(live[i])[0] == (minted(project, live[i].name@), live[i].name@));
        flat_map_holds(live, f, i, (minted(project, live[i].name@), live[i].name@));
    }
    assert forall|k: int| 0 <= k < live_pairs(project, live).len() implies (
    #[trigger] live_pairs(project, live)[k]).0 == minted(
        project,
        live_pairs(project, live)[k].1,
    ) by {
        let n = flat_map_member(live, f, k);
        assert(f(live[n]).contains(live_pairs(project, live)[k]));
    }
}

/// The receipts of a store are all that name it, each with its own project,
/// branch and tip.
pub proof fn stores_get_their_receipts(recorded: RecordedRefs, store: Seq<char>, v: RecordedRefView)
    ensures
        store_refs(recorded, store).contains(v) <==> v.store == store && exists|i: int, k: int|
            #![trigger recorded.projects@[i].receipts@[k]]
            0 <= i < recorded.projects@.len() && 0 <= k < recorded.projects@[i].receipts@.len()
                && v.project == recorded.projects@[i].name@ && v.store
                == recorded.projects@[i].receipts@[k].store@ && v.name
                == recorded.projects@[i].receipts@[k].name@ && v.store_is_repo
                == recorded.projects@[i].receipts@[k].store_is_repo && v.tip
                == recorded.projects@[i].receipts@[k].tip.deep_view() && v.merged
                == recorded.projects@[i].receipts@[k].merged && v.live == live_owner(
                recorded.projects@[i],
                v.name,
            ),
{
    let f = project_refs(store);
    flat_map_contains(recorded.projects@, f, v);
    if store_refs(recorded, store).contains(v) {
        let i = choose|i: int|
            0 <= i < recorded.projects@.len() && (#[trigger] f(recorded.projects@[i])).contains(v);
        let p = recorded.projects@[i];
        let g = receipt_in(p, store);
        flat_map_contains(p.receipts@, g, v);
        let k = choose|k: int|
            0 <= k < p.receipts@.len() && (#[trigger] g(p.receipts@[k])).contains(v);
        assert(v == g(p.receipts@[k])[0]);
        assert(recorded.projects@[i].receipts@[k] == p.receipts@[k]);
    }
    assert forall|i: int, k: int|
        #![trigger recorded.projects@[i].receipts@[k]]
        0 <= i < recorded.projects@.len() && 0 <= k < recorded.projects@[i].receipts@.len()
            && v.store == store && v.project == recorded.projects@[i].name@ && v.store
            == recorded.projects@[i].receipts@[k].store@ && v.name
            == recorded.projects@[i].receipts@[k].name@ && v.store_is_repo
            == recorded.projects@[i].receipts@[k].store_is_repo && v.tip
            == recorded.projects@[i].receipts@[k].tip.deep_view() && v.merged
            == recorded.projects@[i].receipts@[k].merged && v.live == live_owner(
            recorded.projects@[i],
            v.name,
        ) implies store_refs(recorded, store).contains(v) by {
        let p = recorded.projects@[i];
        let g = receipt_in(p, store);
        assert(g(p.receipts@[k])[0] == v);
        flat_map_holds(p.receipts@, g, k, v);
        flat_map_holds(recorded.projects@, f, i, v);
    }
}

/// A workweave's name is live where a directory's marker gives it to the
/// project, or the index has a directory for it; the names are sorted and none
/// is listed twice.
pub proof fn live_names_are_found(
    project: Seq<char>,
    dirs: Seq<WorkweaveDirReading>,
    entries: Seq<IndexDirReading>,
    name: Seq<char>,
)
    ensures
        live_names(project, dirs, entries).contains(name) <==> {
            ||| exists|i: int|
                0 <= i < dirs.len() && (#[trigger] dirs[i]).name@ == name && (
                dirs[i].marker_project matches Some(p) && p@ == project)
            ||| exists|i: int|
                0 <= i < entries.len() && (#[trigger] entries[i]).name@ == name && entries[i].is_dir
        },
{
    let f = marked_name(project);
    let g = present_name();
    let a = dirs.flat_map(f);
    let b = entries.flat_map(g);
    let names = distinct(a + b);
    arranging_keeps_everything(names, names, name);
    distinct_keeps_each_once(a + b);
    joined_lists_contain(a, b, name);
    flat_map_contains(dirs, f, name);
    flat_map_contains(entries, g, name);
    if a.contains(name) {
        let i = choose|i: int| 0 <= i < dirs.len() && (#[trigger] f(dirs[i])).contains(name);
        assert(dirs[i].name@ == name);
    }
    if b.contains(name) {
        let i = choose|i: int| 0 <= i < entries.len() && (#[trigger] g(entries[i])).contains(name);
        assert(entries[i].name@ == name);
    }
    assert forall|i: int|
        0 <= i < dirs.len() && (#[trigger] dirs[i]).name@ == name && (
        dirs[i].marker_project matches Some(p) && p@ == project) implies a.contains(name) by {
        assert(f(dirs[i])[0] == name);
        assert(f(dirs[i]).contains(name));
    }
    assert forall|i: int|
        0 <= i < entries.len() && (#[trigger] entries[i]).name@ == name && entries[i].is_dir implies
        b.contains(name) by {
        assert(g(entries[i])[0] == name);
        assert(g(entries[i]).contains(name));
    }
}

/// A branch is live where it is minted for a marked directory or for an index
/// entry whose directory is there, and the name can carry a branch.
pub proof fn live_branches_are_minted(
    dirs: Seq<WorkweaveDirReading>,
    projects: Seq<ProjectIndexReading>,
    branch: Seq<char>,
)
    ensures
        live_branches(dirs, projects).contains(branch) <==> {
            ||| exists|i: int|
                0 <= i < dirs.len() && (#[trigger] dirs[i]).usable && (
                dirs[i].marker_project matches Some(p) && branch == minted(p@, dirs[i].name@))
            ||| exists|i: int, k: int|
                #![trigger projects[i].entries@[k]]
                0 <= i < projects.len() && 0 <= k < projects[i].entries@.len()
                    && projects[i].entries@[k].is_dir && projects[i].entries@[k].usable && branch
                    == minted(projects[i].project@, projects[i].entries@[k].name@)
        },
{
    let f = dir_branch();
    let g = index_branches();
    let a = dirs.flat_map(f);
    let b = projects.flat_map(g);
    joined_lists_contain(a, b, branch);
    flat_map_contains(dirs, f, branch);
    flat_map_contains(projects, g, branch);
    if a.contains(branch) {
        let i = choose|i: int| 0 <= i < dirs.len() && (#[trigger] f(dirs[i])).contains(branch);
        assert(dirs[i].usable);
    }
    if b.contains(branch) {
        let i = choose|i: int| 0 <= i < projects.len() && (#[trigger] g(projects[i])).contains(
            branch,
        );
        let h = entry_branch(projects[i].project@);
        flat_map_contains(projects[i].entries@, h, branch);
        let k = choose|k: int|
            0 <= k < projects[i].entries@.len() && (#[trigger] h(
                projects[i].entries@[k],
            )).contains(branch);
        assert(projects[i].entries@[k].is_dir);
    }
    assert forall|i: int|
        0 <= i < dirs.len() && (#[trigger] dirs[i]).usable && (
        dirs[i].marker_project matches Some(p) && branch == minted(p@, dirs[i].name@)) implies
        a.contains(branch) by {
        assert(f(dirs[i])[0] == branch);
        assert(f(dirs[i]).contains(branch));
    }
    assert forall|i: int, k: int|
        #![trigger projects[i].entries@[k]]
        0 <= i < projects.len() && 0 <= k < projects[i].entries@.len()
            && projects[i].entries@[k].is_dir && projects[i].entries@[k].usable && branch == minted(
            projects[i].project@,
            projects[i].entries@[k].name@,
        ) implies b.contains(branch) by {
        let h = entry_branch(projects[i].project@);
        assert(h(projects[i].entries@[k])[0] == branch);
        flat_map_holds(projects[i].entries@, h, k, branch);
        assert(g(projects[i]).contains(branch));
    }
}

/// A receipt dangles exactly where its store is a repo that does not have its
/// branch, and its project is in scope.
pub proof fn dangling_receipts_are_told(
    active: Option<Seq<char>>,
    r: ReceiptsReading,
    v: CheckViolationView,
)
    ensures
        dangling_receipt_rule(active)(r).contains(v) <==> (active matches Some(a) ==> a
            == r.project@) && (r.receipts matches Some(list) && exists|i: int|
            #![trigger list@[i]]
            0 <= i < list@.len() && list@[i].store_is_repo && list@[i].tip is Absent && v == (
            CheckViolationView::DanglingRefReceipt {
                project: r.project@,
                store_path: list@[i].store@,
                ref_name: list@[i].name@,
            })),
{
    let f = dangling_rule(r.project@);
    let held = focused_receipts(active, r);
    flat_map_contains(held, f, v);
    assert forall|i: int| 0 <= i < held.len() implies (#[trigger] f(held[i])).contains(v) == (f(
        held[i],
    ).len() == 1 && f(held[i])[0] == v) by {
        if f(held[i]).len() == 1 {
            single_contains(f(held[i])[0], v);
            assert(f(held[i]) =~= seq![f(held[i])[0]]);
        }
    }
    assert forall|i: int| 0 <= i < held.len() implies #[trigger] held[i] == held[i] && f(
        held[i],
    ).len() <= 1 by {}
}

/// A receipt of the nested form is told exactly where its name holds a slash,
/// no live workweave is minted under it, and its project is in scope.
pub proof fn nested_receipts_are_told(
    recorded: RecordedRefs,
    active: Option<Seq<char>>,
    p: RecordedProject,
    v: CheckViolationView,
)
    ensures
        pre_flat_receipt_rule(recorded, active)(p).contains(v) <==> (active matches Some(a) ==> a
            == p.name@) && exists|i: int|
            #![trigger p.receipts@[i]]
            0 <= i < p.receipts@.len() && p.receipts@[i].name@.contains('/') && !minted_live(
                recorded,
                p.name@,
                p.receipts@[i].name@,
            ) && v == (CheckViolationView::PreFlatRefReceipt {
                project: p.name@,
                store_path: p.receipts@[i].store@,
                ref_name: p.receipts@[i].name@,
            }),
{
    let f = pre_flat_rule(recorded, p.name@);
    let held = p.receipts@;
    flat_map_contains(held, f, v);
    assert forall|i: int| 0 <= i < held.len() implies (#[trigger] f(held[i])).contains(v) == (f(
        held[i],
    ).len() == 1 && f(held[i])[0] == v) by {
        if f(held[i]).len() == 1 {
            single_contains(f(held[i])[0], v);
            assert(f(held[i]) =~= seq![f(held[i])[0]]);
        }
    }
    assert forall|i: int| 0 <= i < held.len() implies #[trigger] held[i] == held[i] && f(
        held[i],
    ).len() <= 1 by {}
}

} // verus!
