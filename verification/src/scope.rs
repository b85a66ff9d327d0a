//! Which findings belong to the active project.

use vstd::prelude::*;
use crate::model::{lookup, value_of};
use crate::paths::{below, slashed, strip_dir, with_slashes};
use crate::text::{holds, join_path, joined};
use crate::violation::{CheckViolation, PathText, ProjectName, RepoPath};
use crate::violation_view::CheckViolationView;

verus! {

/// Whether a path in a workweave container belongs to the active project: the
/// workweave's marker names it.
pub open spec fn in_active_workweave(
    container: Seq<char>,
    rest: Seq<Seq<char>>,
    markers: Seq<(PathText, ProjectName)>,
    active: Seq<char>,
) -> bool {
    rest.len() > 0 && match value_of(markers, joined(container, rest[0])) {
        Some(project) => project@ == active,
        None => false,
    }
}

/// Whether a path in the workspace belongs to the active project: it is that
/// project's own directory, or a repo the loaded manifests list.
pub open spec fn in_active_weave(
    root: Seq<char>,
    path: Seq<char>,
    active: Seq<char>,
    known: Seq<Seq<char>>,
) -> bool {
    match below(root, path) {
        Some(rel) => if rel.len() > 0 && rel[0] == "projects"@ {
            slashed(rel.skip(1)) == active
        } else {
            known.contains(slashed(rel))
        },
        None => false,
    }
}

/// Whether a path belongs to the active project. The first container it is in
/// decides; outside of all of them the workspace does.
pub open spec fn path_in_scope(
    containers: Seq<Seq<char>>,
    markers: Seq<(PathText, ProjectName)>,
    root: Seq<char>,
    path: Seq<char>,
    active: Seq<char>,
    known: Seq<Seq<char>>,
) -> bool
    decreases containers.len(),
{
    if containers.len() == 0 {
        in_active_weave(root, path, active, known)
    } else {
        match below(containers[0], path) {
            Some(rest) => in_active_workweave(containers[0], rest, markers, active),
            None => path_in_scope(containers.drop_first(), markers, root, path, active, known),
        }
    }
}

/// What decides whether a path belongs to the active project: the workweave
/// containers, the directories in them with a readable marker and the project
/// each names, the workspace root, and the repos the loaded manifests list.
#[derive(Debug)]
pub struct ScopeReading {
    pub containers: Vec<PathText>,
    pub markers: Vec<(PathText, ProjectName)>,
    pub root: PathText,
    pub known_repos: Vec<RepoPath>,
}

/// Whether a path belongs to the active project.
pub open spec fn scope_holds(s: ScopeReading, path: Seq<char>, active: Seq<char>) -> bool {
    path_in_scope(
        s.containers.deep_view(),
        s.markers@,
        s.root@,
        path,
        active,
        s.known_repos.deep_view(),
    )
}

/// Whether a finding belongs to the active project. Only branch-discipline
/// findings are narrowed here.
pub open spec fn finding_in_scope(s: ScopeReading, v: CheckViolationView, active: Seq<char>) -> bool {
    match v {
        CheckViolationView::BranchDiscipline { repo_path, .. } => scope_holds(
            s,
            repo_path,
            active,
        ),
        _ => true,
    }
}

/// Whether a path belongs to the active project.
pub fn path_belongs(s: &ScopeReading, path: &PathText, active: &ProjectName) -> (belongs: bool)
    ensures
        belongs == scope_holds(*s, path@, active@),
{
    let ghost all = s.containers.deep_view();
    let mut i: usize = 0;
    assert(all.skip(0) =~= all);
    while i < s.containers.len()
        invariant
            0 <= i <= s.containers.len(),
            all == s.containers.deep_view(),
            scope_holds(*s, path@, active@) == path_in_scope(
                all.skip(i as int),
                s.markers@,
                s.root@,
                path@,
                active@,
                s.known_repos.deep_view(),
            ),
        decreases s.containers.len() - i,
    {
        let container: &PathText = &s.containers[i];
        proof {
            assert(all.skip(i as int)[0] == container@);
            assert(all.skip(i as int).drop_first() =~= all.skip(i as int + 1));
        }
        if let Some(rest) = strip_dir(container, path) {
            if rest.len() == 0 {
                return false;
            }
            assert(rest.deep_view()[0] == rest@[0]@);
            let dir: PathText = join_path(container, &rest[0]);
            return match lookup(&s.markers, &dir) {
                Some(project) => *project == *active,
                None => false,
            };
        }
        i = i + 1;
    }
    assert(all.skip(i as int) =~= Seq::empty());
    match strip_dir(&s.root, path) {
        Some(rel) => {
            proof {
                if rel@.len() > 0 {
                    assert(rel.deep_view()[0] == rel@[0]@);
                }
                assert(rel.deep_view().skip(0) =~= rel.deep_view());
            }
            if rel.len() > 0 && rel[0] == "projects".to_owned() {
                with_slashes(&rel, 1) == *active
            } else {
                holds(&s.known_repos, &with_slashes(&rel, 0))
            }
        },
        None => false,
    }
}

/// Whether a finding belongs to the active project.
pub fn branch_discipline_in_scope(
    violation: &CheckViolation,
    s: &ScopeReading,
    active: &ProjectName,
) -> (belongs: bool)
    ensures
        belongs == finding_in_scope(*s, violation.deep_view(), active@),
{
    match violation {
        CheckViolation::BranchDiscipline { repo_path, .. } => path_belongs(s, repo_path, active),
        _ => true,
    }
}

/// A path in a workweave belongs to the active project exactly where the
/// marker of that workweave names it. The first container it lies in decides.
pub proof fn paths_belong_to_their_project(
    s: ScopeReading,
    path: Seq<char>,
    active: Seq<char>,
    rest: Seq<Seq<char>>,
    i: int,
)
    requires
        0 <= i < s.containers@.len(),
        below(s.containers@[i]@, path) == Some(rest),
        forall|j: int| 0 <= j < i ==> below((#[trigger] s.containers@[j])@, path) is None,
    ensures
        scope_holds(s, path, active) <==> rest.len() > 0 && (value_of(
            s.markers@,
            joined(s.containers@[i]@, rest[0]),
        ) matches Some(project) && project@ == active),
{
    let all = s.containers.deep_view();
    assert forall|j: int| 0 <= j < all.len() implies #[trigger] all[j] == s.containers@[j]@ by {}
    container_decides(all, s.markers@, s.root@, path, active, s.known_repos.deep_view(), i, rest);
}

proof fn container_decides(
    containers: Seq<Seq<char>>,
    markers: Seq<(PathText, ProjectName)>,
    root: Seq<char>,
    path: Seq<char>,
    active: Seq<char>,
    known: Seq<Seq<char>>,
    i: int,
    rest: Seq<Seq<char>>,
)
    requires
        0 <= i < containers.len(),
        below(containers[i], path) == Some(rest),
        forall|j: int| 0 <= j < i ==> below(#[trigger] containers[j], path) is None,
    ensures
        path_in_scope(containers, markers, root, path, active, known) == in_active_workweave(
            containers[i],
            rest,
            markers,
            active,
        ),
    decreases containers.len(),
{
    if i > 0 {
        let tail = containers.drop_first();
        assert(below(containers[0], path) is None);
        assert forall|j: int| 0 <= j < i - 1 implies below(#[trigger] tail[j], path) is None by {
            assert(tail[j] == containers[j + 1]);
        }
        container_decides(tail, markers, root, path, active, known, i - 1, rest);
    }
}

/// Outside every container, a path of the weave belongs to the active project
/// exactly where it is the project's own directory or a repo it lists.
pub proof fn weave_paths_belong_to_their_project(s: ScopeReading, path: Seq<char>, active: Seq<char>)
    requires
        forall|j: int| 0 <= j < s.containers@.len() ==> below((#[trigger] s.containers@[j])@, path)
            is None,
    ensures
        scope_holds(s, path, active) <==> (below(s.root@, path) matches Some(rel) && {
            ||| rel.len() > 0 && rel[0] == "projects"@ && slashed(rel.skip(1)) == active
            ||| !(rel.len() > 0 && rel[0] == "projects"@) && exists|k: int|
                0 <= k < s.known_repos@.len() && (#[trigger] s.known_repos@[k])@ == slashed(rel)
        }),
{
    let all = s.containers.deep_view();
    let known = s.known_repos.deep_view();
    assert forall|j: int| 0 <= j < all.len() implies below(#[trigger] all[j], path) is None by {
        assert(all[j] == s.containers@[j]@);
    }
    no_container_decides(all, s.markers@, s.root@, path, active, known);
    assert forall|k: int| 0 <= k < known.len() implies #[trigger] known[k]
        == s.known_repos@[k]@ by {}
    if let Some(rel) = below(s.root@, path) {
        if known.contains(slashed(rel)) {
            let k = choose|k: int| 0 <= k < known.len() && known[k] == slashed(rel);
            assert(s.known_repos@[k]@ == slashed(rel));
        }
        assert forall|k: int|
            0 <= k < s.known_repos@.len() && (#[trigger] s.known_repos@[k])@ == slashed(rel) implies
            known.contains(slashed(rel)) by {
            assert(known[k] == slashed(rel));
        }
    }
}

proof fn no_container_decides(
    containers: Seq<Seq<char>>,
    markers: Seq<(PathText, ProjectName)>,
    root: Seq<char>,
    path: Seq<char>,
    active: Seq<char>,
    known: Seq<Seq<char>>,
)
    requires
        forall|j: int| 0 <= j < containers.len() ==> below(#[trigger] containers[j], path) is None,
    ensures
        path_in_scope(containers, markers, root, path, active, known) == in_active_weave(
            root,
            path,
            active,
            known,
        ),
    decreases containers.len(),
{
    if containers.len() > 0 {
        let tail = containers.drop_first();
        assert(below(containers[0], path) is None);
        assert forall|j: int| 0 <= j < tail.len() implies below(#[trigger] tail[j], path)
            is None by {
            assert(tail[j] == containers[j + 1]);
        }
        no_container_decides(tail, markers, root, path, active, known);
    }
}

/// Findings of branches are narrowed by where they are; no other finding is.
pub proof fn only_branch_findings_are_narrowed(
    s: ScopeReading,
    v: CheckViolationView,
    active: Seq<char>,
)
    ensures
        !(v is BranchDiscipline) ==> finding_in_scope(s, v, active),
        v matches CheckViolationView::BranchDiscipline { repo_path, .. } ==> (finding_in_scope(
            s,
            v,
            active,
        ) <==> scope_holds(s, repo_path, active)),
{
}

} // verus!
