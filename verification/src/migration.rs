//! Repairs of the branch model: migrating and adopting branches, deleting the
//! ones left behind, reattaching stores and retracting receipts.
//!
//! Each repair that takes several steps is a protocol: a step names the work
//! that is to be done next, and `advance` says which step follows the reply.

use vstd::prelude::*;
use crate::branches::{
    branch_finding, checkout_branch_findings, counterpart, deletable, deletable_at,
    discipline_findings, first_named, flat_present, head_kind, legacy_refs, reattaches,
    refs_in_workweave_namespace, safe_findings_are_the_deletable_branches, store_head_kind,
    BranchObservation, CheckoutReading, HeadReading, StoreReading,
};
use crate::consent::{AdoptDetachedConsent, ReattachConsent};
use crate::lists::{flat_map_contains, flat_map_holds, flat_map_member};
use crate::receipts::{
    claim, claimed_under, focused, in_focus, minted_branch_is_not_nested, store_refs,
    RecordedRefView, TipReading, TipView,
};
use crate::scope::{
    branch_discipline_in_scope, finding_in_scope, path_belongs, scope_holds, ScopeReading,
};
use crate::text::{decimal, decimal_text, quote_all, quoted_list, telling, tells};
use crate::violation::{BranchDisciplineKind, CheckViolation, PathText, ProjectName, RevisionId};
use crate::violation_view::{BranchDisciplineKindView, CheckViolationView};

verus! {

/// A branch that went away before it could be migrated.
pub open spec fn vanished_migrating_text(legacy: Seq<char>) -> Seq<char> {
    "branch `"@ + legacy + "` vanished before it could be migrated"@
}

/// Words it: a branch that went away before it could be migrated.
fn vanished_migrating(legacy: &String) -> (text: String)
    ensures
        text@ == vanished_migrating_text(legacy@),
{
    "branch `".to_owned().concat(legacy).concat("` vanished before it could be migrated")
}

/// A branch that moved while it was being migrated.
pub open spec fn moved_migrating_text(legacy: Seq<char>, at: Seq<char>) -> Seq<char> {
    "branch `"@
        + legacy
        + "` moved while it was being migrated (recorded at "@
        + at
        + "); re-run `rwv doctor --fix`"@
}

/// Words it: a branch that moved while it was being migrated.
fn moved_migrating(legacy: &String, at: &String) -> (text: String)
    ensures
        text@ == moved_migrating_text(legacy@, at@),
{
    "branch `".to_owned()
        .concat(legacy)
        .concat("` moved while it was being migrated (recorded at ")
        .concat(at)
        .concat("); re-run `rwv doctor --fix`")
}

/// A branch that was renamed to its workweave's name.
pub open spec fn migrated_text(legacy: Seq<char>, flat: Seq<char>, store: Seq<char>) -> Seq<char> {
    "migrated `"@ + legacy + "` → `"@ + flat + "` in "@ + store
}

/// Words it: a branch that was renamed to its workweave's name.
fn migrated(legacy: &String, flat: &String, store: &String) -> (text: String)
    ensures
        text@ == migrated_text(legacy@, flat@, store@),
{
    "migrated `".to_owned()
        .concat(legacy)
        .concat("` → `")
        .concat(flat)
        .concat("` in ")
        .concat(store)
}

/// A branch that was renamed while its old receipt stayed behind.
pub open spec fn migrated_unretracted_text(legacy: Seq<char>, flat: Seq<char>, store: Seq<char>, error: Seq<char>) -> Seq<char> {
    "migrated `"@
        + legacy
        + "` → `"@
        + flat
        + "` in "@
        + store
        + " (its old ownership receipt could not be retracted: "@
        + error
        + "; `rwv doctor --fix` will clear it)"@
}

/// Words it: a branch that was renamed while its old receipt stayed behind.
fn migrated_unretracted(legacy: &String, flat: &String, store: &String, error: &String) -> (text: String)
    ensures
        text@ == migrated_unretracted_text(legacy@, flat@, store@, error@),
{
    "migrated `".to_owned()
        .concat(legacy)
        .concat("` → `")
        .concat(flat)
        .concat("` in ")
        .concat(store)
        .concat(" (its old ownership receipt could not be retracted: ")
        .concat(error)
        .concat("; `rwv doctor --fix` will clear it)")
}

/// A branch that went away before it could be adopted.
pub open spec fn vanished_adopting_text(flat: Seq<char>) -> Seq<char> {
    "branch `"@ + flat + "` vanished before it could be adopted"@
}

/// Words it: a branch that went away before it could be adopted.
fn vanished_adopting(flat: &String) -> (text: String)
    ensures
        text@ == vanished_adopting_text(flat@),
{
    "branch `".to_owned().concat(flat).concat("` vanished before it could be adopted")
}

/// A branch that was adopted.
pub open spec fn adopted_text(flat: Seq<char>, store: Seq<char>, tip: Seq<char>) -> Seq<char> {
    "adopted `"@
        + flat
        + "` in "@
        + store
        + " at "@
        + tip
        + " (rwv now holds an ownership receipt for it)"@
}

/// Words it: a branch that was adopted.
fn adopted(flat: &String, store: &String, tip: &String) -> (text: String)
    ensures
        text@ == adopted_text(flat@, store@, tip@),
{
    "adopted `".to_owned()
        .concat(flat)
        .concat("` in ")
        .concat(store)
        .concat(" at ")
        .concat(tip)
        .concat(" (rwv now holds an ownership receipt for it)")
}

/// A branch that went away before it could be given up.
pub open spec fn vanished_giving_up_text(legacy: Seq<char>) -> Seq<char> {
    "branch `"@ + legacy + "` vanished before it could be given up"@
}

/// Words it: a branch that went away before it could be given up.
fn vanished_giving_up(legacy: &String) -> (text: String)
    ensures
        text@ == vanished_giving_up_text(legacy@),
{
    "branch `".to_owned().concat(legacy).concat("` vanished before it could be given up")
}

/// A branch that was given up for another, all its commits carried by HEAD.
pub open spec fn gave_up_text(legacy: Seq<char>, flat: Seq<char>, store: Seq<char>) -> Seq<char> {
    "gave up `"@ + legacy + "` in "@ + store + " to make room for `"@ + flat + "`"@
}

/// Words it: a branch that was given up for another, all its commits carried by HEAD.
fn gave_up(legacy: &String, flat: &String, store: &String) -> (text: String)
    ensures
        text@ == gave_up_text(legacy@, flat@, store@),
{
    "gave up `".to_owned()
        .concat(legacy)
        .concat("` in ")
        .concat(store)
        .concat(" to make room for `")
        .concat(flat)
        .concat("`")
}

/// A branch that was given up for another, with commits only it named.
pub open spec fn gave_up_stranding_text(legacy: Seq<char>, flat: Seq<char>, store: Seq<char>, tip: Seq<char>) -> Seq<char> {
    "gave up `"@
        + legacy
        + "` in "@
        + store
        + " to make room for `"@
        + flat
        + "` — WARNING: this STRANDED the commits at "@
        + tip
        + ", which HEAD does not carry; they are reachable only through "@
        + store
        + "'s reflog"@
}

/// Words it: a branch that was given up for another, with commits only it named.
fn gave_up_stranding(legacy: &String, flat: &String, store: &String, tip: &String) -> (text: String)
    ensures
        text@ == gave_up_stranding_text(legacy@, flat@, store@, tip@),
{
    "gave up `".to_owned()
        .concat(legacy)
        .concat("` in ")
        .concat(store)
        .concat(" to make room for `")
        .concat(flat)
        .concat("` — WARNING: this STRANDED the commits at ")
        .concat(tip)
        .concat(", which HEAD does not carry; they are reachable only through ")
        .concat(store)
        .concat("'s reflog")
}

/// A detached checkout that was put on its workweave's branch.
pub open spec fn adopted_checkout_text(checkout: Seq<char>, flat: Seq<char>) -> Seq<char> {
    "adopted the detached checkout at "@ + checkout + " onto `"@ + flat + "`"@
}

/// Words it: a detached checkout that was put on its workweave's branch.
fn adopted_checkout(checkout: &String, flat: &String) -> (text: String)
    ensures
        text@ == adopted_checkout_text(checkout@, flat@),
{
    "adopted the detached checkout at ".to_owned()
        .concat(checkout)
        .concat(" onto `")
        .concat(flat)
        .concat("`")
}

/// A namespace with too many branches to migrate.
pub open spec fn crowded_text(store: Seq<char>, flat: Seq<char>, refs: Seq<Seq<char>>) -> Seq<char> {
    store
        + ": skipped the branch-model migration for `"@
        + flat
        + "` — "@
        + decimal_text(refs.len())
        + " refs share that namespace ("@
        + quoted_list(refs)
        + "), and git cannot create the ref `"@
        + flat
        + "` while any ref exists under `"@
        + flat
        + "/`. rwv recorded no ownership receipt for `"@
        + flat
        + "` and renamed nothing here; the rest of the migration is unaffected. Which of those \
           refs is this workweave's branch, and where the others belong, is not rwv's call to \
           make — leave at most one ref under `"@
        + flat
        + "/`, then re-run `rwv doctor --fix` to migrate it"@
}

/// Words it: a namespace with too many branches to migrate.
fn crowded(store: &String, flat: &String, refs: &Vec<String>) -> (text: String)
    ensures
        text@ == crowded_text(store@, flat@, refs.deep_view()),
{
    store.clone()
        .concat(": skipped the branch-model migration for `")
        .concat(flat)
        .concat("` — ")
        .concat(&decimal(refs.len()))
        .concat(" refs share that namespace (")
        .concat(&quote_all(refs))
        .concat("), and git cannot create the ref `")
        .concat(flat)
        .concat("` while any ref exists under `")
        .concat(flat)
        .concat("/`. rwv recorded no ownership receipt for `")
        .concat(flat)
        .concat(
            "` and renamed nothing here; the rest of the migration is unaffected. Which of \
             those refs is this workweave's branch, and where the others belong, is not \
             rwv's call to make — leave at most one ref under `",
        )
        .concat(flat)
        .concat("/`, then re-run `rwv doctor --fix` to migrate it")
}

/// A workweave with an operation in flight.
pub open spec fn op_in_flight_text(dir: Seq<char>, error: Seq<char>) -> Seq<char> {
    dir
        + ": skipped the branch-model migration — an operation is in flight ("@
        + error
        + "). Resolve or `rwv abort` it, then re-run `rwv doctor --fix`"@
}

/// Words it: a workweave with an operation in flight.
fn op_in_flight(dir: &String, error: &String) -> (text: String)
    ensures
        text@ == op_in_flight_text(dir@, error@),
{
    dir.clone()
        .concat(": skipped the branch-model migration — an operation is in flight (")
        .concat(error)
        .concat("). Resolve or `rwv abort` it, then re-run `rwv doctor --fix`")
}

/// A workweave whose name cannot be used.
pub open spec fn unusable_workweave_text(dir: Seq<char>, error: Seq<char>) -> Seq<char> {
    dir + ": skipped the branch-model migration — "@ + error
}

/// Words it: a workweave whose name cannot be used.
fn unusable_workweave(dir: &String, error: &String) -> (text: String)
    ensures
        text@ == unusable_workweave_text(dir@, error@),
{
    dir.clone().concat(": skipped the branch-model migration — ").concat(error)
}

/// A failure at a checkout.
pub open spec fn at_checkout_text(path: Seq<char>, error: Seq<char>) -> Seq<char> {
    path + ": "@ + error
}

/// Words it: a failure at a checkout.
pub fn at_checkout(path: &String, error: &String) -> (text: String)
    ensures
        text@ == at_checkout_text(path@, error@),
{
    path.clone().concat(": ").concat(error)
}

/// A deletion refused for want of a receipt.
pub open spec fn unreceipted_text(branch: Seq<char>, store: Seq<char>) -> Seq<char> {
    "refusing to delete stale ephemeral branch `"@
        + branch
        + "` in "@
        + store
        + ": rwv holds no ownership receipt for it — a ref that looks like rwv's is not rwv's"@
}

/// Words it: a deletion refused for want of a receipt.
fn unreceipted(branch: &String, store: &String) -> (text: String)
    ensures
        text@ == unreceipted_text(branch@, store@),
{
    "refusing to delete stale ephemeral branch `".to_owned()
        .concat(branch)
        .concat("` in ")
        .concat(store)
        .concat(": rwv holds no ownership receipt for it — a ref that looks like rwv's is not rwv's")
}

/// A deletion refused because the store's tip cannot be read.
pub open spec fn tipless_text(branch: Seq<char>, store: Seq<char>) -> Seq<char> {
    "refusing to delete stale ephemeral branch `"@
        + branch
        + "` in "@
        + store
        + ": the store's own tip is unreadable, so no merged warrant can be established"@
}

/// Words it: a deletion refused because the store's tip cannot be read.
fn tipless(branch: &String, store: &String) -> (text: String)
    ensures
        text@ == tipless_text(branch@, store@),
{
    "refusing to delete stale ephemeral branch `".to_owned()
        .concat(branch)
        .concat("` in ")
        .concat(store)
        .concat(": the store's own tip is unreadable, so no merged warrant can be established")
}

/// A deletion refused because the branch has commits of its own.
pub open spec fn unmerged_text(branch: Seq<char>, store: Seq<char>) -> Seq<char> {
    "refusing to delete stale ephemeral branch `"@
        + branch
        + "` in "@
        + store
        + ": its tip is not an ancestor of the store's tip, so it carries commits nothing else \
           names"@
}

/// Words it: a deletion refused because the branch has commits of its own.
fn unmerged(branch: &String, store: &String) -> (text: String)
    ensures
        text@ == unmerged_text(branch@, store@),
{
    "refusing to delete stale ephemeral branch `".to_owned()
        .concat(branch)
        .concat("` in ")
        .concat(store)
        .concat(
            ": its tip is not an ancestor of the store's tip, so it carries commits nothing \
             else names",
        )
}

/// A deletion that failed.
pub open spec fn undeleted_text(branch: Seq<char>, store: Seq<char>, error: Seq<char>) -> Seq<char> {
    "failed to delete safe-class stale ephemeral branch `"@
        + branch
        + "` in "@
        + store
        + ": "@
        + error
}

/// Words it: a deletion that failed.
fn undeleted(branch: &String, store: &String, error: &String) -> (text: String)
    ensures
        text@ == undeleted_text(branch@, store@, error@),
{
    "failed to delete safe-class stale ephemeral branch `".to_owned()
        .concat(branch)
        .concat("` in ")
        .concat(store)
        .concat(": ")
        .concat(error)
}

/// A deletion whose receipt stayed behind.
pub open spec fn unretracted_text(branch: Seq<char>, store: Seq<char>, error: Seq<char>) -> Seq<char> {
    "deleted stale ephemeral branch `"@
        + branch
        + "` in "@
        + store
        + " but could not retract its ownership receipt: "@
        + error
}

/// Words it: a deletion whose receipt stayed behind.
fn unretracted(branch: &String, store: &String, error: &String) -> (text: String)
    ensures
        text@ == unretracted_text(branch@, store@, error@),
{
    "deleted stale ephemeral branch `".to_owned()
        .concat(branch)
        .concat("` in ")
        .concat(store)
        .concat(" but could not retract its ownership receipt: ")
        .concat(error)
}

/// A reattachment that failed.
pub open spec fn unreattached_text(store: Seq<char>, label: Seq<char>, error: Seq<char>) -> Seq<char> {
    "failed to reattach detached canonical "@ + store + " to `"@ + label + "`: "@ + error
}

/// Words it: a reattachment that failed.
fn unreattached(store: &String, label: &String, error: &String) -> (text: String)
    ensures
        text@ == unreattached_text(store@, label@, error@),
{
    "failed to reattach detached canonical ".to_owned()
        .concat(store)
        .concat(" to `")
        .concat(label)
        .concat("`: ")
        .concat(error)
}

/// A receipt without a branch that could not be retracted.
pub open spec fn dangling_unretracted_text(ref_name: Seq<char>, store: Seq<char>, error: Seq<char>) -> Seq<char> {
    "failed to retract dangling ownership receipt for `"@
        + ref_name
        + "` in "@
        + store
        + ": "@
        + error
}

/// Words it: a receipt without a branch that could not be retracted.
fn dangling_unretracted(ref_name: &String, store: &String, error: &String) -> (text: String)
    ensures
        text@ == dangling_unretracted_text(ref_name@, store@, error@),
{
    "failed to retract dangling ownership receipt for `".to_owned()
        .concat(ref_name)
        .concat("` in ")
        .concat(store)
        .concat(": ")
        .concat(error)
}

/// A receipt of the retired shape that could not be retracted.
pub open spec fn pre_flat_unretracted_text(ref_name: Seq<char>, store: Seq<char>, error: Seq<char>) -> Seq<char> {
    "failed to retract the ownership receipt for `"@
        + ref_name
        + "` in "@
        + store
        + ": "@
        + error
}

/// Words it: a receipt of the retired shape that could not be retracted.
fn pre_flat_unretracted(ref_name: &String, store: &String, error: &String) -> (text: String)
    ensures
        text@ == pre_flat_unretracted_text(ref_name@, store@, error@),
{
    "failed to retract the ownership receipt for `".to_owned()
        .concat(ref_name)
        .concat("` in ")
        .concat(store)
        .concat(": ")
        .concat(error)
}

/// What the outside answered to a step.
#[derive(Debug)]
pub enum Reply {
    Done,
    Failed { error: String },
    /// Where a branch points, or that it is not there.
    Tip { at: Option<RevisionId> },
    /// The revision a receipt was recorded at, or that there is none.
    Receipt { at: Option<RevisionId> },
    Answer { yes: bool },
}

/// The branch a migration renames, the name it gets, and the store it is in.
#[derive(Debug)]
pub struct Migration {
    pub store: PathText,
    pub legacy: String,
    pub flat: String,
}

/// The next step of a migration.
#[derive(Debug)]
pub enum MigrationStep {
    /// Check that the checkout still stands on the branch.
    VerifyAttachment,
    ResolveTip,
    /// Look for a receipt under the old name.
    LookUpReceipt { tip: RevisionId },
    /// Drop a receipt that was recorded at another revision.
    RetractStale { tip: RevisionId },
    /// Record a receipt for the old name at the tip.
    AdoptLegacy { tip: RevisionId },
    /// Record a receipt for the new name.
    RecordFlat { at: RevisionId },
    /// Check that the branch has not moved since.
    CheckUnmoved { at: RevisionId },
    Rename,
    /// Drop the receipt for the old name.
    RetractOld,
    Finished { message: String },
    Stopped { error: String },
}

/// Whether a reply answers a migration step.
pub open spec fn answers_migration(step: MigrationStep, reply: Reply) -> bool {
    match step {
        MigrationStep::VerifyAttachment
        | MigrationStep::RetractStale { .. }
        | MigrationStep::RecordFlat { .. }
        | MigrationStep::Rename
        | MigrationStep::RetractOld => reply is Done || reply is Failed,
        MigrationStep::ResolveTip => reply is Tip || reply is Failed,
        MigrationStep::LookUpReceipt { .. } => reply is Receipt || reply is Failed,
        MigrationStep::AdoptLegacy { .. } => {
            reply is Failed || (reply matches Reply::Receipt { at } && at is Some)
        },
        MigrationStep::CheckUnmoved { .. } => reply is Answer,
        MigrationStep::Finished { .. } | MigrationStep::Stopped { .. } => false,
    }
}

/// Whether `next` is the step that follows a reply.
pub open spec fn migration_follows(
    m: Migration,
    step: MigrationStep,
    reply: Reply,
    next: MigrationStep,
) -> bool {
    match (step, reply) {
        (MigrationStep::RetractOld, Reply::Done) => {
            next matches MigrationStep::Finished { message } && message@ == migrated_text(
                m.legacy@,
                m.flat@,
                m.store@,
            )
        },
        (MigrationStep::RetractOld, Reply::Failed { error }) => {
            next matches MigrationStep::Finished { message } && message@
                == migrated_unretracted_text(m.legacy@, m.flat@, m.store@, error@)
        },
        (_, Reply::Failed { error }) => next == (MigrationStep::Stopped { error }),
        (MigrationStep::VerifyAttachment, _) => next is ResolveTip,
        (MigrationStep::ResolveTip, Reply::Tip { at }) => match at {
            Some(tip) => next == (MigrationStep::LookUpReceipt { tip }),
            None => next matches MigrationStep::Stopped { error } && error@
                == vanished_migrating_text(m.legacy@),
        },
        (MigrationStep::LookUpReceipt { tip }, Reply::Receipt { at }) => match at {
            Some(found) => if found@ != tip@ {
                next == (MigrationStep::RetractStale { tip })
            } else {
                next == (MigrationStep::AdoptLegacy { tip })
            },
            None => next == (MigrationStep::AdoptLegacy { tip }),
        },
        (MigrationStep::RetractStale { tip }, _) => next == (MigrationStep::AdoptLegacy { tip }),
        (MigrationStep::AdoptLegacy { .. }, Reply::Receipt { at }) => at matches Some(r) && next
            == (MigrationStep::RecordFlat { at: r }),
        (MigrationStep::RecordFlat { at }, _) => next == (MigrationStep::CheckUnmoved { at }),
        (MigrationStep::CheckUnmoved { at }, Reply::Answer { yes }) => if yes {
            next is Rename
        } else {
            next matches MigrationStep::Stopped { error } && error@ == moved_migrating_text(
                m.legacy@,
                at@,
            )
        },
        (MigrationStep::Rename, _) => next is RetractOld,
        _ => false,
    }
}

/// Renames a branch of the retired shape to its workweave's name: says which
/// step follows a reply. A migration starts at
/// [`MigrationStep::VerifyAttachment`].
pub fn migrate_legacy_ref(m: &Migration, step: MigrationStep, reply: Reply) -> (next: MigrationStep)
    requires
        answers_migration(step, reply),
    ensures
        migration_follows(*m, step, reply, next),
{
    match (step, reply) {
        (MigrationStep::RetractOld, Reply::Done) => MigrationStep::Finished {
            message: migrated(&m.legacy, &m.flat, &m.store),
        },
        (MigrationStep::RetractOld, Reply::Failed { error }) => MigrationStep::Finished {
            message: migrated_unretracted(&m.legacy, &m.flat, &m.store, &error),
        },
        (_, Reply::Failed { error }) => MigrationStep::Stopped { error },
        (MigrationStep::VerifyAttachment, _) => MigrationStep::ResolveTip,
        (MigrationStep::ResolveTip, Reply::Tip { at }) => match at {
            Some(tip) => MigrationStep::LookUpReceipt { tip },
            None => MigrationStep::Stopped { error: vanished_migrating(&m.legacy) },
        },
        (MigrationStep::LookUpReceipt { tip }, Reply::Receipt { at }) => match at {
            Some(found) => {
                if found != tip {
                    MigrationStep::RetractStale { tip }
                } else {
                    MigrationStep::AdoptLegacy { tip }
                }
            },
            None => MigrationStep::AdoptLegacy { tip },
        },
        (MigrationStep::RetractStale { tip }, _) => MigrationStep::AdoptLegacy { tip },
        (MigrationStep::AdoptLegacy { tip }, Reply::Receipt { at }) => match at {
            Some(r) => MigrationStep::RecordFlat { at: r },
            None => MigrationStep::AdoptLegacy { tip },
        },
        (MigrationStep::RecordFlat { at }, _) => MigrationStep::CheckUnmoved { at },
        (MigrationStep::CheckUnmoved { at }, Reply::Answer { yes }) => {
            if yes {
                MigrationStep::Rename
            } else {
                MigrationStep::Stopped { error: moved_migrating(&m.legacy, &at) }
            }
        },
        (MigrationStep::Rename, _) => MigrationStep::RetractOld,
        (other, _) => other,
    }
}

/// A branch is renamed only after a receipt for its new name was recorded and
/// the branch was seen not to have moved: a crash leaves a receipt without a
/// branch, never a branch without a receipt.
pub proof fn receipt_precedes_rename(
    m: Migration,
    step: MigrationStep,
    reply: Reply,
    next: MigrationStep,
)
    requires
        answers_migration(step, reply),
        migration_follows(m, step, reply, next),
    ensures
        next is Rename ==> step is CheckUnmoved && reply == (Reply::Answer { yes: true }),
        next is CheckUnmoved ==> step is RecordFlat && reply is Done,
        next is RecordFlat ==> step is AdoptLegacy && reply is Receipt,
        next is RetractOld ==> step is Rename && reply is Done,
{
}

/// Until the rename, a failure of any step ends the migration with that
/// failure and renames nothing.
pub proof fn failed_step_ends_migration(
    m: Migration,
    step: MigrationStep,
    error: String,
    next: MigrationStep,
)
    requires
        answers_migration(step, Reply::Failed { error }),
        migration_follows(m, step, Reply::Failed { error }, next),
        !(step is RetractOld),
    ensures
        next == (MigrationStep::Stopped { error }),
{
}

/// How many steps a migration can still take.
pub open spec fn migration_rank(step: MigrationStep) -> nat {
    match step {
        MigrationStep::VerifyAttachment => 9,
        MigrationStep::ResolveTip => 8,
        MigrationStep::LookUpReceipt { .. } => 7,
        MigrationStep::RetractStale { .. } => 6,
        MigrationStep::AdoptLegacy { .. } => 5,
        MigrationStep::RecordFlat { .. } => 4,
        MigrationStep::CheckUnmoved { .. } => 3,
        MigrationStep::Rename => 2,
        MigrationStep::RetractOld => 1,
        MigrationStep::Finished { .. } => 0,
        MigrationStep::Stopped { .. } => 0,
    }
}

/// Every reply brings a migration closer to its end.
pub proof fn migration_ends(m: Migration, step: MigrationStep, reply: Reply, next: MigrationStep)
    requires
        answers_migration(step, reply),
        migration_follows(m, step, reply, next),
    ensures
        migration_rank(next) < migration_rank(step),
{
}

/// The next step of adopting a branch that has no receipt.
#[derive(Debug)]
pub enum AdoptionStep {
    ResolveTip,
    /// Record a receipt for the branch at its tip.
    Record { tip: RevisionId },
    Finished { message: String },
    Stopped { error: String },
}

/// Whether a reply answers an adoption step.
pub open spec fn answers_adoption(step: AdoptionStep, reply: Reply) -> bool {
    match step {
        AdoptionStep::ResolveTip => reply is Tip || reply is Failed,
        AdoptionStep::Record { .. } => reply is Done || reply is Failed,
        _ => false,
    }
}

/// Whether `next` is the step that follows a reply.
pub open spec fn adoption_follows(
    store: Seq<char>,
    flat: Seq<char>,
    step: AdoptionStep,
    reply: Reply,
    next: AdoptionStep,
) -> bool {
    match (step, reply) {
        (_, Reply::Failed { error }) => next == (AdoptionStep::Stopped { error }),
        (AdoptionStep::ResolveTip, Reply::Tip { at }) => match at {
            Some(tip) => next == (AdoptionStep::Record { tip }),
            None => next matches AdoptionStep::Stopped { error } && error@
                == vanished_adopting_text(flat),
        },
        (AdoptionStep::Record { tip }, _) => next matches AdoptionStep::Finished { message }
            && message@ == adopted_text(flat, store, tip@),
        _ => false,
    }
}

/// Adopts a workweave's branch that has no receipt, at its tip: says which
/// step follows a reply. An adoption starts at [`AdoptionStep::ResolveTip`].
pub fn adopt_flat_ref(store: &PathText, flat: &String, step: AdoptionStep, reply: Reply) -> (next:
    AdoptionStep)
    requires
        answers_adoption(step, reply),
    ensures
        adoption_follows(store@, flat@, step, reply, next),
{
    match (step, reply) {
        (_, Reply::Failed { error }) => AdoptionStep::Stopped { error },
        (AdoptionStep::ResolveTip, Reply::Tip { at }) => match at {
            Some(tip) => AdoptionStep::Record { tip },
            None => AdoptionStep::Stopped { error: vanished_adopting(flat) },
        },
        (AdoptionStep::Record { tip }, _) => AdoptionStep::Finished {
            message: adopted(flat, store, &tip),
        },
        (other, _) => other,
    }
}

/// A detached checkout that is put on its workweave's branch, and the branch
/// of the retired shape that is in the way, if any.
#[derive(Debug)]
pub struct DetachedAdoption {
    pub store: PathText,
    pub checkout: PathText,
    pub at: RevisionId,
    pub flat: String,
    pub legacy: Option<String>,
}

/// The next step of adopting a detached checkout.
#[derive(Debug)]
pub enum DetachedStep {
    /// Find where the branch in the way points.
    ResolveLegacy { legacy: String },
    /// Record a receipt for the branch in the way.
    AdoptLegacy { legacy: String, tip: RevisionId },
    /// Ask whether HEAD carries everything the branch in the way names.
    CheckMerged { legacy: String, tip: RevisionId },
    /// Delete the branch in the way; `stranding` says that the operator's
    /// consent is the warrant, for want of a better one.
    DeleteLegacy { legacy: String, tip: RevisionId, stranding: bool },
    /// Drop the receipt of the branch that was given up.
    RetractLegacy { legacy: String, told: String },
    /// Record a receipt for the workweave's branch at HEAD.
    RecordFlat { told: Option<String> },
    /// Create the branch at HEAD and attach the checkout to it.
    AdoptCheckout { told: Option<String> },
    Finished { messages: Vec<String> },
    Stopped { error: String },
}

/// Whether a reply answers a step of adopting a detached checkout.
pub open spec fn answers_detached(step: DetachedStep, reply: Reply) -> bool {
    match step {
        DetachedStep::ResolveLegacy { .. } => reply is Tip || reply is Failed,
        DetachedStep::CheckMerged { .. } => reply is Answer,
        DetachedStep::AdoptLegacy { .. }
        | DetachedStep::DeleteLegacy { .. }
        | DetachedStep::RetractLegacy { .. }
        | DetachedStep::RecordFlat { .. }
        | DetachedStep::AdoptCheckout { .. } => reply is Done || reply is Failed,
        DetachedStep::Finished { .. } | DetachedStep::Stopped { .. } => false,
    }
}

/// What is told of the branch that was given up.
pub open spec fn given_up_text(d: DetachedAdoption, legacy: Seq<char>, tip: Seq<char>, stranding: bool) -> Seq<
    char,
> {
    if stranding {
        gave_up_stranding_text(legacy, d.flat@, d.store@, tip)
    } else {
        gave_up_text(legacy, d.flat@, d.store@)
    }
}

/// What is told of the whole adoption.
pub open spec fn detached_messages(d: DetachedAdoption, told: Option<String>) -> Seq<Seq<char>> {
    (match told {
        Some(t) => seq![t@],
        None => Seq::empty(),
    }).push(adopted_checkout_text(d.checkout@, d.flat@))
}

/// Whether `next` is the step that follows a reply.
pub open spec fn detached_follows(
    d: DetachedAdoption,
    step: DetachedStep,
    reply: Reply,
    next: DetachedStep,
) -> bool {
    match (step, reply) {
        (DetachedStep::RetractLegacy { told, .. }, _) => {
            next == (DetachedStep::RecordFlat { told: Some(told) })
        },
        (_, Reply::Failed { error }) => next == (DetachedStep::Stopped { error }),
        (DetachedStep::ResolveLegacy { legacy }, Reply::Tip { at }) => match at {
            Some(tip) => next == (DetachedStep::AdoptLegacy { legacy, tip }),
            None => next matches DetachedStep::Stopped { error } && error@
                == vanished_giving_up_text(legacy@),
        },
        (DetachedStep::AdoptLegacy { legacy, tip }, _) => {
            next == (DetachedStep::CheckMerged { legacy, tip })
        },
        (DetachedStep::CheckMerged { legacy, tip }, Reply::Answer { yes }) => {
            next == (DetachedStep::DeleteLegacy { legacy, tip, stranding: !yes })
        },
        (DetachedStep::DeleteLegacy { legacy, tip, stranding }, _) => {
            next matches DetachedStep::RetractLegacy { legacy: l, told } && l == legacy && told@
                == given_up_text(d, legacy@, tip@, stranding)
        },
        (DetachedStep::RecordFlat { told }, _) => next == (DetachedStep::AdoptCheckout { told }),
        (DetachedStep::AdoptCheckout { told }, _) => {
            next matches DetachedStep::Finished { messages } && messages.deep_view()
                == detached_messages(d, told)
        },
        _ => false,
    }
}

/// The first step of adopting a detached checkout: a branch of the retired
/// shape in the way is given up first.
pub fn start_detached_adoption(d: &DetachedAdoption) -> (step: DetachedStep)
    ensures
        match d.legacy {
            Some(legacy) => step == (DetachedStep::ResolveLegacy { legacy }),
            None => step == (DetachedStep::RecordFlat { told: None }),
        },
{
    match &d.legacy {
        Some(legacy) => DetachedStep::ResolveLegacy { legacy: legacy.clone() },
        None => DetachedStep::RecordFlat { told: None },
    }
}

/// Puts a detached checkout on its workweave's branch, which is created where
/// HEAD is: says which step follows a reply. The consent is what lets a branch
/// with commits of its own be given up.
pub fn adopt_detached_workweave_checkout(
    d: &DetachedAdoption,
    step: DetachedStep,
    reply: Reply,
    consent: &AdoptDetachedConsent,
) -> (next: DetachedStep)
    requires
        answers_detached(step, reply),
    ensures
        detached_follows(*d, step, reply, next),
{
    match (step, reply) {
        (DetachedStep::RetractLegacy { told, .. }, _) => DetachedStep::RecordFlat {
            told: Some(told),
        },
        (_, Reply::Failed { error }) => DetachedStep::Stopped { error },
        (DetachedStep::ResolveLegacy { legacy }, Reply::Tip { at }) => match at {
            Some(tip) => DetachedStep::AdoptLegacy { legacy, tip },
            None => DetachedStep::Stopped { error: vanished_giving_up(&legacy) },
        },
        (DetachedStep::AdoptLegacy { legacy, tip }, _) => DetachedStep::CheckMerged { legacy, tip },
        (DetachedStep::CheckMerged { legacy, tip }, Reply::Answer { yes }) => {
            DetachedStep::DeleteLegacy { legacy, tip, stranding: !yes }
        },
        (DetachedStep::DeleteLegacy { legacy, tip, stranding }, _) => {
            let told: String = if stranding {
                gave_up_stranding(&legacy, &d.flat, &d.store, &tip)
            } else {
                gave_up(&legacy, &d.flat, &d.store)
            };
            DetachedStep::RetractLegacy { legacy, told }
        },
        (DetachedStep::RecordFlat { told }, _) => DetachedStep::AdoptCheckout { told },
        (DetachedStep::AdoptCheckout { told }, _) => {
            let ghost expected = detached_messages(*d, told);
            let mut messages: Vec<String> = Vec::new();
            if let Some(t) = told {
                messages.push(t);
            }
            messages.push(adopted_checkout(&d.checkout, &d.flat));
            assert(messages.deep_view() =~= expected);
            DetachedStep::Finished { messages }
        },
        (other, _) => other,
    }
}

/// A branch in the way is deleted only after a receipt for it was recorded and
/// it was asked whether HEAD carries it, and a checkout is moved only after a
/// receipt for its branch was recorded.
pub proof fn receipts_precede_detached_adoption(
    d: DetachedAdoption,
    step: DetachedStep,
    reply: Reply,
    next: DetachedStep,
)
    requires
        answers_detached(step, reply),
        detached_follows(d, step, reply, next),
    ensures
        next is DeleteLegacy ==> step is CheckMerged,
        next is CheckMerged ==> step is AdoptLegacy && reply is Done,
        next is AdoptCheckout ==> step is RecordFlat && reply is Done,
        next matches DetachedStep::DeleteLegacy { stranding, .. } ==> stranding == (reply == (
        Reply::Answer { yes: false })),
{
}

/// The branch of the retired shape a checkout stands on, if any.
pub open spec fn claimed_branch(flat: Seq<char>, head: HeadReading) -> Option<Seq<char>> {
    match head {
        HeadReading::Attached { branch } => if claimed_under(flat, branch@) {
            Some(branch@)
        } else {
            None
        },
        _ => None,
    }
}

/// What the migration does at a checkout.
#[derive(Debug)]
pub enum MigrationDecision {
    Leave,
    Blocked { error: String },
    Migrate { legacy: String },
    AdoptFlat,
    AdoptDetached { at: RevisionId, legacy: Option<String> },
}

/// Whether a decision is the right one at a checkout.
pub open spec fn decided(
    flat: Seq<char>,
    c: CheckoutReading,
    flat_recorded: bool,
    consented: bool,
    decision: MigrationDecision,
) -> bool {
    let legacy = legacy_refs(flat, c.namespace);
    if legacy.len() > 1 {
        decision matches MigrationDecision::Blocked { error } && error@ == crowded_text(
            c.store@,
            flat,
            legacy,
        )
    } else if claimed_branch(flat, c.head) is Some {
        decision matches MigrationDecision::Migrate { legacy: l } && claimed_branch(flat, c.head)
            == Some(l@)
    } else if !(c.head is Unreadable) && flat_present(flat, c.namespace) && !flat_recorded {
        decision is AdoptFlat
    } else {
        match c.head {
            HeadReading::Detached { at } => if consented {
                decision matches MigrationDecision::AdoptDetached { at: a, legacy: l } && a@ == at@
                    && l.deep_view() == (if legacy.len() == 1 {
                    Some(legacy[0])
                } else {
                    None
                })
            } else {
                decision is Leave
            },
            _ => decision is Leave,
        }
    }
}

/// Decides what the migration does at a checkout. `flat_recorded` says whether
/// a receipt is held for the workweave's branch.
pub fn decide_migration(
    flat: &String,
    c: &CheckoutReading,
    flat_recorded: bool,
    adopt_detached: &Option<AdoptDetachedConsent>,
) -> (decision: MigrationDecision)
    ensures
        decided(flat@, *c, flat_recorded, adopt_detached is Some, decision),
{
    let (present, legacy): (bool, Vec<String>) = refs_in_workweave_namespace(flat, &c.namespace);
    if legacy.len() > 1 {
        return MigrationDecision::Blocked { error: crowded(&c.store, flat, &legacy) };
    }
    match &c.head {
        HeadReading::Attached { branch } => {
            if claim(flat, branch) {
                return MigrationDecision::Migrate { legacy: branch.clone() };
            }
            if present && !flat_recorded {
                MigrationDecision::AdoptFlat
            } else {
                MigrationDecision::Leave
            }
        },
        HeadReading::Detached { at } => {
            if present && !flat_recorded {
                MigrationDecision::AdoptFlat
            } else if adopt_detached.is_some() {
                let first: Option<String> = if legacy.len() == 1 {
                    assert(legacy.deep_view()[0] == legacy@[0]@);
                    Some(legacy[0].clone())
                } else {
                    None
                };
                MigrationDecision::AdoptDetached { at: at.clone(), legacy: first }
            } else {
                MigrationDecision::Leave
            }
        },
        HeadReading::Unborn { .. } => {
            if present && !flat_recorded {
                MigrationDecision::AdoptFlat
            } else {
                MigrationDecision::Leave
            }
        },
        HeadReading::Unreadable => MigrationDecision::Leave,
    }
}

/// The report and the repair agree: where the scan promises a rename the
/// repair makes it, where the scan reports a crowded namespace the repair
/// leaves it alone, and a detached checkout is moved only with consent.
pub proof fn repair_does_what_the_report_promises(
    refs: Seq<RecordedRefView>,
    flat: Seq<char>,
    c: CheckoutReading,
    consented: bool,
    decision: MigrationDecision,
)
    requires
        decided(flat, c, first_named(refs, flat) is Some, consented, decision),
    ensures
        head_kind(refs, flat, c) matches Some(kind) ==> {
            &&& kind is UnmigratedEphemeralBranch ==> decision is Migrate
            &&& kind is BlockedEphemeralNamespace ==> decision is Blocked
            &&& kind is BlockedDetachedNamespace ==> decision is Blocked
        },
        decision is Migrate ==> (head_kind(refs, flat, c) matches Some(kind)
            && kind is UnmigratedEphemeralBranch),
        decision is AdoptDetached ==> consented && (head_kind(refs, flat, c) matches Some(kind)
            && kind is Detached),
        decision is AdoptFlat ==> checkout_branch_findings(refs, flat, c).contains(
            branch_finding(
                c.path@,
                BranchDisciplineKindView::UnrecordedEphemeralBranch { branch: flat },
            ),
        ),
{
    if decision is AdoptFlat {
        assert(checkout_branch_findings(refs, flat, c)[0] == branch_finding(
            c.path@,
            BranchDisciplineKindView::UnrecordedEphemeralBranch { branch: flat },
        ));
    }
    minted_branch_is_not_nested(flat);
}

/// What a migration pass did, in order: what was applied and what went wrong.
#[derive(Debug)]
pub struct MigrationLog {
    pub applied: Vec<String>,
    pub errors: Vec<String>,
}

/// What came of a protocol at a checkout: what is told of it, or why it
/// stopped.
pub open spec fn settled_rightly(
    before: MigrationLog,
    after: MigrationLog,
    checkout: Seq<char>,
    outcome: Result<Vec<String>, String>,
) -> bool {
    match outcome {
        Ok(messages) => {
            &&& after.applied.deep_view() == before.applied.deep_view() + messages.deep_view()
            &&& after.errors.deep_view() == before.errors.deep_view()
        },
        Err(e) => {
            &&& after.applied.deep_view() == before.applied.deep_view()
            &&& after.errors.deep_view() == before.errors.deep_view().push(
                at_checkout_text(checkout, e@),
            )
        },
    }
}

impl MigrationLog {
    /// An empty log.
    pub fn new() -> (log: MigrationLog)
        ensures
            log.applied.deep_view() == Seq::<Seq<char>>::empty(),
            log.errors.deep_view() == Seq::<Seq<char>>::empty(),
    {
        let log = MigrationLog { applied: Vec::new(), errors: Vec::new() };
        assert(log.applied.deep_view() =~= Seq::empty());
        assert(log.errors.deep_view() =~= Seq::empty());
        log
    }

    /// Logs what came of a protocol at a checkout.
    pub fn settle(&mut self, checkout: &PathText, outcome: Result<Vec<String>, String>)
        ensures
            settled_rightly(*old(self), *final(self), checkout@, outcome),
    {
        match outcome {
            Ok(told) => {
                let mut messages: Vec<String> = told;
                let ghost mv = messages.deep_view();
                self.applied.append(&mut messages);
                assert(self.applied.deep_view() =~= old(self).applied.deep_view() + mv);
            },
            Err(e) => {
                let text: String = at_checkout(checkout, &e);
                self.errors.push(text);
                assert(self.errors.deep_view() =~= old(self).errors.deep_view().push(
                    at_checkout_text(checkout@, e@),
                ));
            },
        }
    }

    /// Logs why a workweave or a checkout was refused.
    pub fn refuse(&mut self, error: String)
        ensures
            final(self).applied.deep_view() == old(self).applied.deep_view(),
            final(self).errors.deep_view() == old(self).errors.deep_view().push(error@),
    {
        self.errors.push(error);
        assert(self.errors.deep_view() =~= old(self).errors.deep_view().push(error@));
    }
}

/// A workweave on disk as the migration meets it.
#[derive(Debug)]
pub struct MigrationCandidate {
    pub dir: PathText,
    /// The project its marker names, where that can be read.
    pub project: Option<ProjectName>,
    /// Why an operation is in flight there, where one is.
    pub op_in_flight: Option<String>,
    /// Why its name cannot be used, where it cannot.
    pub name_refused: Option<String>,
}

/// Whether the migration visits a workweave.
#[derive(Debug)]
pub enum Visit {
    Pass,
    Refuse { error: String },
    Enter,
}

/// Whether a visit is the right one.
pub open spec fn visited_rightly(
    active: Option<Seq<char>>,
    w: MigrationCandidate,
    visit: Visit,
) -> bool {
    match w.project {
        None => visit is Pass,
        Some(project) => if !in_focus(active, project@) {
            visit is Pass
        } else {
            match (w.op_in_flight, w.name_refused) {
                (Some(e), _) => visit matches Visit::Refuse { error } && error@
                    == op_in_flight_text(w.dir@, e@),
                (None, Some(e)) => visit matches Visit::Refuse { error } && error@
                    == unusable_workweave_text(w.dir@, e@),
                (None, None) => visit is Enter,
            }
        },
    }
}

/// Decides whether the migration visits a workweave. One without a readable
/// marker, or of a project that is not looked at, is passed over; one with an
/// operation in flight, or without a usable name, is refused.
pub fn fix_branch_model_migration(active: &Option<ProjectName>, w: &MigrationCandidate) -> (visit:
    Visit)
    ensures
        visited_rightly(active.deep_view(), *w, visit),
{
    match &w.project {
        None => Visit::Pass,
        Some(project) => {
            if !focused(active, project) {
                return Visit::Pass;
            }
            match &w.op_in_flight {
                Some(e) => Visit::Refuse { error: op_in_flight(&w.dir, e) },
                None => match &w.name_refused {
                    Some(e) => Visit::Refuse { error: unusable_workweave(&w.dir, e) },
                    None => Visit::Enter,
                },
            }
        },
    }
}

/// What a pass of repairs did, in order: what was repaired, by path and name,
/// and what went wrong.
#[derive(Debug)]
pub struct RepairLog {
    pub repaired: Vec<(PathText, String)>,
    pub errors: Vec<String>,
}

/// Whether `after` is `before` with one more repair, one more error, both or
/// neither.
pub open spec fn log_extended(
    before: RepairLog,
    after: RepairLog,
    repaired: Option<(Seq<char>, Seq<char>)>,
    error: Option<Seq<char>>,
) -> bool {
    &&& after.repaired.deep_view() == match repaired {
        Some(r) => before.repaired.deep_view().push(r),
        None => before.repaired.deep_view(),
    }
    &&& after.errors.deep_view() == match error {
        Some(e) => before.errors.deep_view().push(e),
        None => before.errors.deep_view(),
    }
}

impl RepairLog {
    /// An empty log.
    pub fn new() -> (log: RepairLog)
        ensures
            log.repaired.deep_view() == Seq::<(Seq<char>, Seq<char>)>::empty(),
            log.errors.deep_view() == Seq::<Seq<char>>::empty(),
    {
        let log = RepairLog { repaired: Vec::new(), errors: Vec::new() };
        assert(log.repaired.deep_view() =~= Seq::empty());
        assert(log.errors.deep_view() =~= Seq::empty());
        log
    }

    /// Adds a repair, an error, both or neither.
    fn extend(&mut self, repaired: Option<(PathText, String)>, error: Option<String>)
        ensures
            log_extended(*old(self), *final(self), repaired.deep_view(), error.deep_view()),
    {
        if let Some(r) = repaired {
            self.repaired.push(r);
            assert(self.repaired.deep_view() =~= old(self).repaired.deep_view().push(r.deep_view()));
        }
        if let Some(e) = error {
            self.errors.push(e);
            assert(self.errors.deep_view() =~= old(self).errors.deep_view().push(e@));
        }
    }
}

/// The branch a finding offers for deletion, with its store: a branch left
/// behind whose commits are merged, where the finding is looked at.
pub open spec fn deletion_rule(scope: ScopeReading, active: Option<Seq<char>>) -> spec_fn(
    CheckViolationView,
) -> Seq<(Seq<char>, Seq<char>)> {
    |v: CheckViolationView|
        match v {
            CheckViolationView::BranchDiscipline {
                repo_path,
                sub_kind: BranchDisciplineKindView::StaleEphemeralBranchSafe { branch, .. },
            } => if active matches Some(a) ==> finding_in_scope(scope, v, a) {
                seq![(repo_path, branch)]
            } else {
                Seq::empty()
            },
            _ => Seq::empty(),
        }
}

/// Lists the branches left behind that are to be deleted, each with its store.
/// Nothing but what the scan calls safe is ever listed.
pub fn fix_stale_ephemeral_branches(
    violations: &Vec<CheckViolation>,
    scope: &ScopeReading,
    active: &Option<ProjectName>,
) -> (branches: Vec<(PathText, String)>)
    ensures
        branches.deep_view() == violations.deep_view().flat_map(
            deletion_rule(*scope, active.deep_view()),
        ),
{
    let ghost all = violations.deep_view();
    let ghost f = deletion_rule(*scope, active.deep_view());
    let mut branches: Vec<(PathText, String)> = Vec::new();
    let mut i: usize = 0;
    assert(branches.deep_view() =~= all.take(0).flat_map(f));
    while i < violations.len()
        invariant
            0 <= i <= violations.len(),
            all == violations.deep_view(),
            f == deletion_rule(*scope, active.deep_view()),
            branches.deep_view() == all.take(i as int).flat_map(f),
        decreases violations.len() - i,
    {
        let ghost prior = branches.deep_view();
        proof {
            all.lemma_flat_map_take_append(f, i as int);
            assert(all[i as int] == violations@[i as int].deep_view());
        }
        if let CheckViolation::BranchDiscipline {
            repo_path,
            sub_kind: BranchDisciplineKind::StaleEphemeralBranchSafe { branch, .. },
        } = &violations[i] {
            let looked_at: bool = match active {
                Some(a) => branch_discipline_in_scope(&violations[i], scope, a),
                None => true,
            };
            if looked_at {
                branches.push((repo_path.clone(), branch.clone()));
            }
        }
        assert(branches.deep_view() =~= prior + f(all[i as int]));
        i = i + 1;
    }
    assert(all.take(i as int) =~= all);
    branches
}

/// What was found of a branch just before it is to be deleted.
#[derive(Debug, Clone, Copy)]
pub struct BranchInspection {
    /// Whether a receipt is held for the branch in its store.
    pub receipted: bool,
    /// Whether the store's own tip can be read.
    pub tip_readable: bool,
    /// Whether the store's tip carries the branch's tip.
    pub merged: bool,
}

/// The next step of deleting a branch left behind.
#[derive(Debug)]
pub enum DeletionStep {
    /// Look once more at what allows the deletion.
    Inspect,
    /// Delete the branch.
    Delete,
    /// Retract its receipt.
    Retract,
    Finished { end: DeletionEnd },
}

/// How the deletion of a branch ended.
#[derive(Debug)]
pub enum DeletionEnd {
    /// The branch is still there.
    Kept { error: String },
    /// The branch is gone; `error` says why its receipt is not.
    Deleted { error: Option<String> },
}

/// What the outside answered to a step of a deletion.
#[derive(Debug)]
pub enum DeletionReply {
    Inspected { found: BranchInspection },
    Done,
    Failed { error: String },
}

/// Why a branch may not be deleted, where it may not.
pub open spec fn deletion_refusal(
    store: Seq<char>,
    branch: Seq<char>,
    found: BranchInspection,
) -> Option<Seq<char>> {
    if !found.receipted {
        Some(unreceipted_text(branch, store))
    } else if !found.tip_readable {
        Some(tipless_text(branch, store))
    } else if !found.merged {
        Some(unmerged_text(branch, store))
    } else {
        None
    }
}

/// Whether a reply is one to a step.
pub open spec fn answers_deletion(step: DeletionStep, reply: DeletionReply) -> bool {
    match step {
        DeletionStep::Inspect => reply is Inspected,
        DeletionStep::Delete | DeletionStep::Retract => !(reply is Inspected),
        DeletionStep::Finished { .. } => false,
    }
}

/// Whether a deletion ends with the branch kept, for this reason.
pub open spec fn kept_for(step: DeletionStep, reason: Seq<char>) -> bool {
    step matches DeletionStep::Finished { end: DeletionEnd::Kept { error } } && error@ == reason
}

/// Whether a deletion ends with the branch gone, with this to be told.
pub open spec fn deleted_with(step: DeletionStep, told: Option<Seq<char>>) -> bool {
    step matches DeletionStep::Finished { end: DeletionEnd::Deleted { error } }
        && error.deep_view() == told
}

/// Whether `next` is the step that follows a reply.
pub open spec fn deletion_follows(
    store: Seq<char>,
    branch: Seq<char>,
    step: DeletionStep,
    reply: DeletionReply,
    next: DeletionStep,
) -> bool {
    match (step, reply) {
        (DeletionStep::Inspect, DeletionReply::Inspected { found }) => match deletion_refusal(
            store,
            branch,
            found,
        ) {
            Some(reason) => kept_for(next, reason),
            None => next is Delete,
        },
        (DeletionStep::Delete, DeletionReply::Done) => next is Retract,
        (DeletionStep::Delete, DeletionReply::Failed { error }) => kept_for(
            next,
            undeleted_text(branch, store, error@),
        ),
        (DeletionStep::Retract, DeletionReply::Done) => deleted_with(next, None),
        (DeletionStep::Retract, DeletionReply::Failed { error }) => deleted_with(
            next,
            Some(unretracted_text(branch, store, error@)),
        ),
        _ => false,
    }
}

/// The step of a deletion that follows a reply. A branch is deleted only
/// against a receipt, and only where the store's tip carries its commits; it
/// counts as deleted also where its receipt could not be retracted.
pub fn advance_deletion(
    store: &PathText,
    branch: &String,
    step: DeletionStep,
    reply: DeletionReply,
) -> (next: DeletionStep)
    requires
        answers_deletion(step, reply),
    ensures
        deletion_follows(store@, branch@, step, reply, next),
{
    match (step, reply) {
        (DeletionStep::Inspect, DeletionReply::Inspected { found }) => {
            if !found.receipted {
                DeletionStep::Finished {
                    end: DeletionEnd::Kept { error: unreceipted(branch, store) },
                }
            } else if !found.tip_readable {
                DeletionStep::Finished { end: DeletionEnd::Kept { error: tipless(branch, store) } }
            } else if !found.merged {
                DeletionStep::Finished { end: DeletionEnd::Kept { error: unmerged(branch, store) } }
            } else {
                DeletionStep::Delete
            }
        },
        (DeletionStep::Delete, DeletionReply::Failed { error }) => DeletionStep::Finished {
            end: DeletionEnd::Kept { error: undeleted(branch, store, &error) },
        },
        (DeletionStep::Delete, _) => DeletionStep::Retract,
        (DeletionStep::Retract, DeletionReply::Failed { error }) => DeletionStep::Finished {
            end: DeletionEnd::Deleted { error: Some(unretracted(branch, store, &error)) },
        },
        (_, _) => DeletionStep::Finished { end: DeletionEnd::Deleted { error: None } },
    }
}

/// A branch is deleted only where a receipt is held for it and the store's tip,
/// which can be read, carries its commits.
pub proof fn deletion_needs_receipt_and_merge(
    store: Seq<char>,
    branch: Seq<char>,
    step: DeletionStep,
    reply: DeletionReply,
    next: DeletionStep,
)
    requires
        deletion_follows(store, branch, step, reply, next),
        next is Delete,
    ensures
        step is Inspect,
        reply matches DeletionReply::Inspected { found } && found.receipted && found.tip_readable
            && found.merged,
{
}

/// A branch that was deleted ends up as deleted, whatever becomes of its
/// receipt, and no other branch does.
pub proof fn only_deleted_branches_end_as_deleted(
    store: Seq<char>,
    branch: Seq<char>,
    step: DeletionStep,
    reply: DeletionReply,
    next: DeletionStep,
)
    requires
        deletion_follows(store, branch, step, reply, next),
    ensures
        next is Retract <==> step is Delete && reply is Done,
        (next matches DeletionStep::Finished { end } && end is Deleted) <==> step is Retract,
{
}

/// What the outside answers to the steps of a deletion.
pub struct DeletionAnswers {
    pub found: BranchInspection,
    pub deleted: Result<(), String>,
    pub retracted: Result<(), String>,
}

/// The reply that an answer makes.
pub open spec fn reply_of(answer: Result<(), String>) -> DeletionReply {
    match answer {
        Ok(_) => DeletionReply::Done,
        Err(error) => DeletionReply::Failed { error },
    }
}

/// The reply to a step.
pub open spec fn reply_to(step: DeletionStep, answers: DeletionAnswers) -> DeletionReply {
    match step {
        DeletionStep::Inspect => DeletionReply::Inspected { found: answers.found },
        DeletionStep::Delete => reply_of(answers.deleted),
        _ => reply_of(answers.retracted),
    }
}

/// Whether the answers lead to the branch's deletion.
pub open spec fn leads_to_deletion(answers: DeletionAnswers) -> bool {
    answers.found.receipted && answers.found.tip_readable && answers.found.merged
        && answers.deleted is Ok
}

/// A deletion ends after three steps at most, and the branch is gone exactly
/// where the answers lead to that.
pub proof fn deletion_ends(
    store: Seq<char>,
    branch: Seq<char>,
    answers: DeletionAnswers,
    first: DeletionStep,
    second: DeletionStep,
    third: DeletionStep,
)
    requires
        deletion_follows(
            store,
            branch,
            DeletionStep::Inspect,
            reply_to(DeletionStep::Inspect, answers),
            first,
        ),
        first is Finished ==> second == first,
        !(first is Finished) ==> deletion_follows(
            store,
            branch,
            first,
            reply_to(first, answers),
            second,
        ),
        second is Finished ==> third == second,
        !(second is Finished) ==> deletion_follows(
            store,
            branch,
            second,
            reply_to(second, answers),
            third,
        ),
    ensures
        third matches DeletionStep::Finished { end } && (end is Deleted <==> leads_to_deletion(
            answers,
        )),
{
}

/// What the end of a deletion adds to the errors.
pub open spec fn deletion_errors() -> spec_fn(DeletionEnd) -> Seq<Seq<char>> {
    |end: DeletionEnd|
        match end {
            DeletionEnd::Kept { error } => seq![error@],
            DeletionEnd::Deleted { error: Some(error) } => seq![error@],
            DeletionEnd::Deleted { error: None } => Seq::empty(),
        }
}

/// The chosen branches whose deletion ended with the branch gone.
pub open spec fn deleted_among(
    chosen: Seq<(Seq<char>, Seq<char>)>,
    ends: Seq<DeletionEnd>,
) -> Seq<(Seq<char>, Seq<char>)>
    decreases ends.len(),
{
    if ends.len() == 0 {
        Seq::empty()
    } else {
        let before = deleted_among(chosen, ends.drop_last());
        if ends.last() is Deleted {
            before.push(chosen[ends.len() - 1])
        } else {
            before
        }
    }
}

/// Logs the deletions of the chosen branches, in order.
pub fn settle_deletions(chosen: &Vec<(PathText, String)>, ends: Vec<DeletionEnd>) -> (log: RepairLog)
    requires
        ends@.len() == chosen@.len(),
    ensures
        log.repaired.deep_view() == deleted_among(chosen.deep_view(), ends@),
        log.errors.deep_view() == ends@.flat_map(deletion_errors()),
{
    let ghost f = deletion_errors();
    let ghost cv = chosen.deep_view();
    let mut log: RepairLog = RepairLog::new();
    let count: usize = chosen.len();
    let mut i: usize = 0;
    assert(ends@.take(0).flat_map(f) =~= Seq::empty());
    for end in it: ends
        invariant
            it.seq() == ends@,
            i == it.index(),
            count == chosen@.len(),
            ends@.len() == count,
            f == deletion_errors(),
            cv == chosen.deep_view(),
            log.repaired.deep_view() == deleted_among(cv, ends@.take(it.index())),
            log.errors.deep_view() == ends@.take(it.index()).flat_map(f),
    {
        let ghost at = it.index();
        proof {
            ends@.lemma_flat_map_take_append(f, at);
            assert(ends@.take(at + 1).drop_last() =~= ends@.take(at));
            assert(ends@.take(at + 1).last() == ends@[at]);
            assert(cv[i as int] == chosen@[i as int].deep_view());
        }
        let ghost errors = log.errors.deep_view();
        let pair: &(PathText, String) = &chosen[i];
        match end {
            DeletionEnd::Kept { error } => log.extend(None, Some(error)),
            DeletionEnd::Deleted { error } => log.extend(
                Some((pair.0.clone(), pair.1.clone())),
                error,
            ),
        }
        assert(log.errors.deep_view() =~= errors + f(ends@[at]));
        i = i + 1;
    }
    assert(ends@.take(ends@.len() as int) =~= ends@);
    log
}

/// The chosen branches that the answers lead to the deletion of.
pub open spec fn deleted_by(
    chosen: Seq<(Seq<char>, Seq<char>)>,
    answers: spec_fn((Seq<char>, Seq<char>)) -> DeletionAnswers,
) -> Seq<(Seq<char>, Seq<char>)> {
    chosen.filter(|b: (Seq<char>, Seq<char>)| leads_to_deletion(answers(b)))
}

/// The log of a run lists exactly the chosen branches that were deleted, in
/// order.
pub proof fn the_log_lists_what_was_deleted(
    chosen: Seq<(Seq<char>, Seq<char>)>,
    ends: Seq<DeletionEnd>,
    answers: spec_fn((Seq<char>, Seq<char>)) -> DeletionAnswers,
)
    requires
        ends.len() == chosen.len(),
        forall|i: int|
            0 <= i < ends.len() ==> (#[trigger] ends[i] is Deleted <==> leads_to_deletion(
                answers(chosen[i]),
            )),
    ensures
        deleted_among(chosen, ends) == deleted_by(chosen, answers),
    decreases ends.len(),
{
    let goes = |b: (Seq<char>, Seq<char>)| leads_to_deletion(answers(b));
    reveal(Seq::filter);
    if ends.len() > 0 {
        let init = ends.drop_last();
        let first = chosen.drop_last();
        assert forall|i: int| 0 <= i < init.len() implies (#[trigger] init[i] is Deleted
            <==> leads_to_deletion(answers(first[i]))) by {
            assert(init[i] == ends[i]);
            assert(first[i] == chosen[i]);
        }
        the_log_lists_what_was_deleted(first, init, answers);
        deletions_go_by_place(chosen, first, init);
        assert(ends.last() == ends[ends.len() - 1]);
    }
}

/// Only the places of the ends count.
proof fn deletions_go_by_place(
    chosen: Seq<(Seq<char>, Seq<char>)>,
    first: Seq<(Seq<char>, Seq<char>)>,
    ends: Seq<DeletionEnd>,
)
    requires
        ends.len() <= first.len() <= chosen.len(),
        first == chosen.take(first.len() as int),
    ensures
        deleted_among(chosen, ends) == deleted_among(first, ends),
    decreases ends.len(),
{
    if ends.len() > 0 {
        deletions_go_by_place(chosen, first, ends.drop_last());
        assert(first[ends.len() - 1] == chosen[ends.len() - 1]);
    }
}

/// The branches a run is to delete.
pub open spec fn chosen_branches(
    o: BranchObservation,
    scope: ScopeReading,
    active: Option<Seq<char>>,
) -> Seq<(Seq<char>, Seq<char>)> {
    discipline_findings(o).flat_map(deletion_rule(scope, active))
}

/// The project whose receipt a chosen branch is deleted against.
proof fn chosen_branch_is_deletable(
    o: BranchObservation,
    scope: ScopeReading,
    active: Option<Seq<char>>,
    store: Seq<char>,
    branch: Seq<char>,
) -> (project: Seq<char>)
    requires
        chosen_branches(o, scope, active).contains((store, branch)),
    ensures
        deletable(o, store, branch, project),
        active matches Some(a) ==> scope_holds(scope, store, a),
{
    let f = deletion_rule(scope, active);
    let all = discipline_findings(o);
    let chosen = chosen_branches(o, scope, active);
    let k = choose|k: int| 0 <= k < chosen.len() && chosen[k] == (store, branch);
    let i = flat_map_member(all, f, k);
    let v = all[i];
    assert(f(v).contains((store, branch)));
    assert(v is BranchDiscipline);
    let sub_kind = v->BranchDiscipline_sub_kind;
    assert(sub_kind is StaleEphemeralBranchSafe);
    let project = sub_kind->StaleEphemeralBranchSafe_project;
    assert(f(v)[0] == (store, branch));
    assert(v == branch_finding(
        store,
        BranchDisciplineKindView::StaleEphemeralBranchSafe { branch, project },
    ));
    assert(all.contains(v));
    safe_findings_are_the_deletable_branches(o, store, branch, project);
    project
}

/// A branch that is deleted was chosen against a receipt that a project holds
/// for it in that store, no workweave on disk stands on it, no worktree holds
/// it, and its commits are carried by the store's tip, both when it was chosen
/// and just before it is deleted.
pub proof fn deletions_lose_nothing(
    o: BranchObservation,
    scope: ScopeReading,
    active: Option<Seq<char>>,
    store: Seq<char>,
    branch: Seq<char>,
    step: DeletionStep,
    reply: DeletionReply,
    next: DeletionStep,
)
    requires
        chosen_branches(o, scope, active).contains((store, branch)),
        deletion_follows(store, branch, step, reply, next),
        next is Delete,
    ensures
        exists|project: Seq<char>| deletable(o, store, branch, project),
        reply matches DeletionReply::Inspected { found } && found.receipted && found.tip_readable
            && found.merged,
{
    let project = chosen_branch_is_deletable(o, scope, active, store, branch);
    assert(deletable(o, store, branch, project));
}

/// Whether `after` is what is left of `before` once the branches `deleted` are
/// gone and nothing else has changed: the stores are the same, and every
/// receipt is one from before whose branch was not deleted, or names a branch
/// that is no longer there.
pub open spec fn left_by_deletion(
    before: BranchObservation,
    after: BranchObservation,
    deleted: Seq<(Seq<char>, Seq<char>)>,
) -> bool {
    &&& after.stores@.len() == before.stores@.len()
    &&& forall|i: int|
        0 <= i < after.stores@.len() ==> {
            let s = #[trigger] after.stores@[i];
            let t = before.stores@[i];
            s.store.path@ == t.store.path@ && s.head == t.head && s.held.deep_view()
                == t.held.deep_view()
        }
    &&& forall|store: Seq<char>, k: int|
        0 <= k < store_refs(after.recorded, store).len() ==> {
            let r = #[trigger] store_refs(after.recorded, store)[k];
            r.tip is Absent || (store_refs(before.recorded, store).contains(r) && !deleted.contains(
                (store, r.name),
            ))
        }
}

/// A second run over what the first left deletes nothing, where the outside
/// answers as it did before: what the first run chose and did not delete, the
/// second does not delete either, and it chooses nothing else.
pub proof fn a_second_run_deletes_nothing(
    before: BranchObservation,
    after: BranchObservation,
    scope: ScopeReading,
    active: Option<Seq<char>>,
    answers: spec_fn((Seq<char>, Seq<char>)) -> DeletionAnswers,
)
    requires
        left_by_deletion(before, after, deleted_by(chosen_branches(before, scope, active), answers)),
    ensures
        deleted_by(chosen_branches(after, scope, active), answers).len() == 0,
        forall|b: (Seq<char>, Seq<char>)| #[trigger]
            chosen_branches(after, scope, active).contains(b) ==> chosen_branches(
                before,
                scope,
                active,
            ).contains(b) && !leads_to_deletion(answers(b)),
{
    let goes = |b: (Seq<char>, Seq<char>)| leads_to_deletion(answers(b));
    let first = chosen_branches(before, scope, active);
    let second = chosen_branches(after, scope, active);
    let deleted = deleted_by(first, answers);
    assert forall|b: (Seq<char>, Seq<char>)| #[trigger] second.contains(b) implies first.contains(b)
        && !leads_to_deletion(answers(b)) by {
        remaining_choices_were_made_before(before, after, scope, active, deleted, b);
        if goes(b) {
            let n = choose|n: int| 0 <= n < first.len() && first[n] == b;
            first.lemma_filter_contains(goes, n);
        }
    }
    let again = deleted_by(second, answers);
    if again.len() > 0 {
        assert(again.contains(again[0]));
        second.lemma_filter_contains_rev(goes, again[0]);
        second.lemma_filter_pred(goes, 0);
    }
}

/// What is chosen after a run was chosen before it, and was not deleted.
proof fn remaining_choices_were_made_before(
    before: BranchObservation,
    after: BranchObservation,
    scope: ScopeReading,
    active: Option<Seq<char>>,
    deleted: Seq<(Seq<char>, Seq<char>)>,
    b: (Seq<char>, Seq<char>),
)
    requires
        left_by_deletion(before, after, deleted),
        chosen_branches(after, scope, active).contains(b),
    ensures
        chosen_branches(before, scope, active).contains(b),
        !deleted.contains(b),
{
    let (store, branch) = b;
    let project = chosen_branch_is_deletable(after, scope, active, store, branch);
    let refs = store_refs(after.recorded, store);
    let old_refs = store_refs(before.recorded, store);
    let (i, k) = choose|i: int, k: int|
        0 <= i < after.stores@.len() && 0 <= k < store_refs(after.recorded, store).len()
            && deletable_at(
            #[trigger] after.stores@[i],
            #[trigger] store_refs(after.recorded, store)[k],
            store,
            branch,
            project,
        );
    let r = refs[k];
    assert(old_refs.contains(r));
    let n = choose|n: int| 0 <= n < old_refs.len() && old_refs[n] == r;
    assert(after.stores@[i].held.deep_view() == before.stores@[i].held.deep_view());
    assert(deletable_at(before.stores@[i], old_refs[n], store, branch, project));
    assert(deletable(before, store, branch, project));
    safe_findings_are_the_deletable_branches(before, store, branch, project);
    let v = branch_finding(
        store,
        BranchDisciplineKindView::StaleEphemeralBranchSafe { branch, project },
    );
    let f = deletion_rule(scope, active);
    let all = discipline_findings(before);
    let m = choose|m: int| 0 <= m < all.len() && all[m] == v;
    assert(f(v)[0] == b);
    assert(f(all[m]).contains(b));
    flat_map_holds(all, f, m, b);
}

/// The branch a detached store goes back to: its counterpart, where that
/// points at the very commit HEAD is at and the store is looked at.
pub open spec fn reattachment(
    s: StoreReading,
    scope: ScopeReading,
    active: Option<Seq<char>>,
) -> Option<Seq<char>> {
    match s.head {
        HeadReading::Detached { at } => if (active matches Some(a) ==> scope_holds(
            scope,
            s.store.path@,
            a,
        )) && reattaches(s, at@) {
            counterpart(s.store.tracking, s.remote_default)
        } else {
            None
        },
        _ => None,
    }
}

/// The branch a detached store is reattached to, with the operator's consent.
/// A store is never moved to another commit.
pub fn fix_detached_canonicals(
    s: &StoreReading,
    scope: &ScopeReading,
    active: &Option<ProjectName>,
    consent: &ReattachConsent,
) -> (label: Option<String>)
    ensures
        label.deep_view() == reattachment(*s, *scope, active.deep_view()),
{
    match &s.head {
        HeadReading::Detached { at } => {
            if let Some(a) = active {
                if !path_belongs(scope, &s.store.path, a) {
                    return None;
                }
            }
            let same: bool = match &s.counterpart_tip {
                TipReading::At { revision } => *revision == *at,
                _ => false,
            };
            if same {
                s.store.local_counterpart(&s.remote_default)
            } else {
                None
            }
        },
        _ => None,
    }
}

/// Where every project is looked at, a store is reattached exactly where the
/// report calls it reattachable.
pub proof fn reattachment_matches_report(
    s: StoreReading,
    scope: ScopeReading,
    refs: Seq<RecordedRefView>,
)
    ensures
        reattachment(s, scope, None) is Some <==> (store_head_kind(refs, s) matches Some(
            BranchDisciplineKindView::CanonicalDetached { reattachable, .. },
        ) && reattachable),
{
}

/// Logs a reattachment.
pub fn settle_reattachment(
    log: &mut RepairLog,
    store: &PathText,
    label: &String,
    reply: Result<(), String>,
)
    ensures
        log_extended(
            *old(log),
            *final(log),
            if reply is Ok {
                Some((store@, label@))
            } else {
                None
            },
            match reply {
                Ok(_) => None,
                Err(e) => Some(unreattached_text(store@, label@, e@)),
            },
        ),
{
    match reply {
        Ok(()) => log.extend(Some((store.clone(), label.clone())), None),
        Err(e) => log.extend(None, Some(unreattached(store, label, &e))),
    }
}

/// The receipt a finding names: its project, its store and its branch.
pub open spec fn dangling_rule() -> spec_fn(CheckViolationView) -> Seq<
    (Seq<char>, Seq<char>, Seq<char>),
> {
    |v: CheckViolationView|
        match v {
            CheckViolationView::DanglingRefReceipt { project, store_path, ref_name } => seq![
                (project, store_path, ref_name),
            ],
            _ => Seq::empty(),
        }
}

/// The receipt of the retired shape a finding names.
pub open spec fn pre_flat_rule() -> spec_fn(CheckViolationView) -> Seq<
    (Seq<char>, Seq<char>, Seq<char>),
> {
    |v: CheckViolationView|
        match v {
            CheckViolationView::PreFlatRefReceipt { project, store_path, ref_name } => seq![
                (project, store_path, ref_name),
            ],
            _ => Seq::empty(),
        }
}

/// Lists the receipts without a branch that are to be retracted: the project,
/// the store and the branch of each.
pub fn fix_dangling_receipts(violations: &Vec<CheckViolation>) -> (receipts: Vec<
    (ProjectName, PathText, String),
>)
    ensures
        receipts.deep_view() == violations.deep_view().flat_map(dangling_rule()),
{
    let ghost all = violations.deep_view();
    let ghost f = dangling_rule();
    let mut receipts: Vec<(ProjectName, PathText, String)> = Vec::new();
    let mut i: usize = 0;
    assert(receipts.deep_view() =~= all.take(0).flat_map(f));
    while i < violations.len()
        invariant
            0 <= i <= violations.len(),
            all == violations.deep_view(),
            f == dangling_rule(),
            receipts.deep_view() == all.take(i as int).flat_map(f),
        decreases violations.len() - i,
    {
        let ghost prior = receipts.deep_view();
        proof {
            all.lemma_flat_map_take_append(f, i as int);
            assert(all[i as int] == violations@[i as int].deep_view());
        }
        if let CheckViolation::DanglingRefReceipt { project, store_path, ref_name } = &violations[i] {
            receipts.push((project.clone(), store_path.clone(), ref_name.clone()));
        }
        assert(receipts.deep_view() =~= prior + f(all[i as int]));
        i = i + 1;
    }
    assert(all.take(i as int) =~= all);
    receipts
}

/// Lists the receipts of the retired shape that are to be retracted. The
/// branches they name are not touched.
pub fn fix_pre_flat_receipts(violations: &Vec<CheckViolation>) -> (receipts: Vec<
    (ProjectName, PathText, String),
>)
    ensures
        receipts.deep_view() == violations.deep_view().flat_map(pre_flat_rule()),
{
    let ghost all = violations.deep_view();
    let ghost f = pre_flat_rule();
    let mut receipts: Vec<(ProjectName, PathText, String)> = Vec::new();
    let mut i: usize = 0;
    assert(receipts.deep_view() =~= all.take(0).flat_map(f));
    while i < violations.len()
        invariant
            0 <= i <= violations.len(),
            all == violations.deep_view(),
            f == pre_flat_rule(),
            receipts.deep_view() == all.take(i as int).flat_map(f),
        decreases violations.len() - i,
    {
        let ghost prior = receipts.deep_view();
        proof {
            all.lemma_flat_map_take_append(f, i as int);
            assert(all[i as int] == violations@[i as int].deep_view());
        }
        if let CheckViolation::PreFlatRefReceipt { project, store_path, ref_name } = &violations[i] {
            receipts.push((project.clone(), store_path.clone(), ref_name.clone()));
        }
        assert(receipts.deep_view() =~= prior + f(all[i as int]));
        i = i + 1;
    }
    assert(all.take(i as int) =~= all);
    receipts
}

/// What came of the retraction of a receipt: whether it was still there, or
/// why it failed.
pub open spec fn retracted_pair(
    reply: Result<bool, String>,
    store: Seq<char>,
    ref_name: Seq<char>,
) -> Option<(Seq<char>, Seq<char>)> {
    match reply {
        Ok(done) => if done {
            Some((store, ref_name))
        } else {
            None
        },
        Err(_) => None,
    }
}

/// Logs the retraction of a receipt without a branch. One that was gone
/// already is neither a repair nor an error.
pub fn settle_dangling_receipt(
    log: &mut RepairLog,
    store: &PathText,
    ref_name: &String,
    reply: Result<bool, String>,
)
    ensures
        log_extended(
            *old(log),
            *final(log),
            retracted_pair(reply, store@, ref_name@),
            match reply {
                Ok(_) => None,
                Err(e) => Some(dangling_unretracted_text(ref_name@, store@, e@)),
            },
        ),
{
    match reply {
        Ok(done) => {
            if done {
                log.extend(Some((store.clone(), ref_name.clone())), None);
            }
        },
        Err(e) => log.extend(None, Some(dangling_unretracted(ref_name, store, &e))),
    }
}

/// Logs the retraction of a receipt of the retired shape.
pub fn settle_pre_flat_receipt(
    log: &mut RepairLog,
    store: &PathText,
    ref_name: &String,
    reply: Result<bool, String>,
)
    ensures
        log_extended(
            *old(log),
            *final(log),
            retracted_pair(reply, store@, ref_name@),
            match reply {
                Ok(_) => None,
                Err(e) => Some(pre_flat_unretracted_text(ref_name@, store@, e@)),
            },
        ),
{
    match reply {
        Ok(done) => {
            if done {
                log.extend(Some((store.clone(), ref_name.clone())), None);
            }
        },
        Err(e) => log.extend(None, Some(pre_flat_unretracted(ref_name, store, &e))),
    }
}

/// The tip that a migration found, on its way to the receipt.
pub open spec fn carried_tip(step: MigrationStep) -> Option<RevisionId> {
    match step {
        MigrationStep::LookUpReceipt { tip }
        | MigrationStep::RetractStale { tip }
        | MigrationStep::AdoptLegacy { tip } => Some(tip),
        _ => None,
    }
}

/// A migration works on the tip it found: it is carried unchanged to the
/// receipt, and the branch is renamed at the revision the receipt was recorded
/// at. A receipt is dropped exactly where it was recorded at another revision.
pub proof fn migrations_keep_their_tip(
    m: Migration,
    step: MigrationStep,
    reply: Reply,
    next: MigrationStep,
)
    requires
        answers_migration(step, reply),
        migration_follows(m, step, reply, next),
    ensures
        carried_tip(next) is Some ==> carried_tip(next) == (match reply {
            Reply::Tip { at } => at,
            _ => carried_tip(step),
        }),
        next matches MigrationStep::RecordFlat { at } ==> reply == (Reply::Receipt { at: Some(at) }),
        next matches MigrationStep::CheckUnmoved { at } ==> step == (MigrationStep::RecordFlat {
            at,
        }),
        next is RetractStale <==> (step matches MigrationStep::LookUpReceipt { tip } && (
        reply matches Reply::Receipt { at: Some(found) } && found@ != tip@)),
        next is AdoptLegacy <==> (step is RetractStale && reply is Done) || (
        step matches MigrationStep::LookUpReceipt { tip } && (reply matches Reply::Receipt { at }
            && (at matches Some(found) ==> found@ == tip@))),
{
}

/// A migration finishes only once the branch is renamed, whatever becomes of
/// the old receipt, and stops only where a step failed, the branch is gone, or
/// it moved.
pub proof fn migrations_finish_renamed(
    m: Migration,
    step: MigrationStep,
    reply: Reply,
    next: MigrationStep,
)
    requires
        answers_migration(step, reply),
        migration_follows(m, step, reply, next),
    ensures
        next is Finished <==> step is RetractOld,
        next is Stopped <==> !(step is RetractOld) && {
            ||| reply is Failed
            ||| step is ResolveTip && reply == (Reply::Tip { at: None })
            ||| step is CheckUnmoved && reply == (Reply::Answer { yes: false })
        },
{
}

/// A branch is adopted at the tip that was found, and only what could be
/// recorded counts as adopted.
pub proof fn adoptions_record_the_tip(
    store: Seq<char>,
    flat: Seq<char>,
    step: AdoptionStep,
    reply: Reply,
    next: AdoptionStep,
)
    requires
        answers_adoption(step, reply),
        adoption_follows(store, flat, step, reply, next),
    ensures
        next matches AdoptionStep::Record { tip } ==> step is ResolveTip && reply == (Reply::Tip {
            at: Some(tip),
        }),
        next is Finished <==> step is Record && reply is Done,
        next is Stopped <==> reply is Failed || reply == (Reply::Tip { at: None }),
{
}

/// The branch in the way, while a detached checkout is adopted.
pub open spec fn branch_in_the_way(step: DetachedStep) -> Option<String> {
    match step {
        DetachedStep::ResolveLegacy { legacy }
        | DetachedStep::AdoptLegacy { legacy, .. }
        | DetachedStep::CheckMerged { legacy, .. }
        | DetachedStep::DeleteLegacy { legacy, .. }
        | DetachedStep::RetractLegacy { legacy, .. } => Some(legacy),
        _ => None,
    }
}

/// Where the branch in the way points.
pub open spec fn tip_in_the_way(step: DetachedStep) -> Option<RevisionId> {
    match step {
        DetachedStep::AdoptLegacy { tip, .. }
        | DetachedStep::CheckMerged { tip, .. }
        | DetachedStep::DeleteLegacy { tip, .. } => Some(tip),
        _ => None,
    }
}

/// The branch in the way is the same from the first step to the last, and so is
/// the tip that was found; it is deleted only after it was asked whether HEAD
/// carries it, and the deletion says so where it does not. What was told of it
/// is told at the end.
pub proof fn detached_adoptions_stay_on_course(
    d: DetachedAdoption,
    step: DetachedStep,
    reply: Reply,
    next: DetachedStep,
)
    requires
        answers_detached(step, reply),
        detached_follows(d, step, reply, next),
    ensures
        branch_in_the_way(next) is Some ==> branch_in_the_way(next) == branch_in_the_way(step),
        tip_in_the_way(next) is Some ==> tip_in_the_way(next) == (match reply {
            Reply::Tip { at } => at,
            _ => tip_in_the_way(step),
        }),
        next is RetractLegacy ==> step is DeleteLegacy && reply is Done,
        next matches DetachedStep::AdoptCheckout { told } ==> step == (DetachedStep::RecordFlat {
            told,
        }),
        next is Finished <==> step is AdoptCheckout && reply is Done,
        next is Stopped <==> !(step is RetractLegacy) && (reply is Failed || reply == (Reply::Tip {
            at: None,
        })),
        step is RetractLegacy ==> next is RecordFlat,
        next matches DetachedStep::Finished { messages } ==> (step
            matches DetachedStep::AdoptCheckout { told } && messages.deep_view().len() == (if told
            is Some {
            2int
        } else {
            1
        }) && (told matches Some(t) ==> messages.deep_view()[0] == t@)),
{
}

/// What is decided at a checkout: a crowded namespace blocks; a checkout on a
/// branch below its own is migrated, with that branch; the workweave's own
/// branch is adopted where it has no receipt; and a detached checkout is
/// adopted with consent alone, together with the one branch in the way.
pub proof fn decisions_follow_the_checkout(
    flat: Seq<char>,
    c: CheckoutReading,
    flat_recorded: bool,
    consented: bool,
    decision: MigrationDecision,
)
    requires
        decided(flat, c, flat_recorded, consented, decision),
    ensures
        ({
            let crowd = legacy_refs(flat, c.namespace).len();
            let below = c.head matches HeadReading::Attached { branch } && claimed_under(
                flat,
                branch@,
            );
            let unrecorded = !(c.head is Unreadable) && flat_present(flat, c.namespace)
                && !flat_recorded;
            &&& decision is Blocked <==> crowd > 1
            &&& decision is Migrate <==> crowd <= 1 && below
            &&& decision is AdoptFlat <==> crowd <= 1 && !below && unrecorded
            &&& decision is AdoptDetached <==> crowd <= 1 && !unrecorded && c.head is Detached
                && consented
            &&& decision matches MigrationDecision::Migrate { legacy } ==> (
            c.head matches HeadReading::Attached { branch } && branch@ == legacy@)
            &&& decision matches MigrationDecision::AdoptDetached { at, legacy } ==> (
            c.head matches HeadReading::Detached { at: found } && found@ == at@ && (legacy is Some
                <==> crowd == 1) && (legacy matches Some(l) ==> l@ == legacy_refs(
                flat,
                c.namespace,
            )[0]))
        }),
{
}

/// A workweave is entered exactly where its project is in scope, no operation
/// is in flight there and its name can be used; one that is out of scope is
/// passed by in silence.
pub proof fn quiet_workweaves_are_entered(
    active: Option<Seq<char>>,
    w: MigrationCandidate,
    visit: Visit,
)
    requires
        visited_rightly(active, w, visit),
    ensures
        ({
            let ours = w.project matches Some(project) && (active matches Some(a) ==> a
                == project@);
            &&& visit is Enter <==> ours && w.op_in_flight is None && w.name_refused is None
            &&& visit is Refuse <==> ours && (w.op_in_flight is Some || w.name_refused is Some)
            &&& visit is Pass <==> !ours
            &&& visit matches Visit::Refuse { error } ==> w.dir@.is_prefix_of(error@)
        }),
{
}

/// The branches chosen for deletion are those of the findings that call them
/// safe, in the store of the finding, as far as they are in scope.
pub proof fn safe_branches_are_chosen(
    vs: Seq<CheckViolationView>,
    scope: ScopeReading,
    active: Option<Seq<char>>,
    store: Seq<char>,
    branch: Seq<char>,
)
    ensures
        vs.flat_map(deletion_rule(scope, active)).contains((store, branch)) <==> exists|i: int|
            0 <= i < vs.len() && (#[trigger] vs[i] matches CheckViolationView::BranchDiscipline {
                repo_path,
                sub_kind: BranchDisciplineKindView::StaleEphemeralBranchSafe { branch: b, .. },
            } && repo_path == store && b == branch && (active matches Some(a) ==> scope_holds(
                scope,
                store,
                a,
            ))),
{
    let f = deletion_rule(scope, active);
    flat_map_contains(vs, f, (store, branch));
    if vs.flat_map(f).contains((store, branch)) {
        let i = choose|i: int|
            0 <= i < vs.len() && (#[trigger] f(vs[i])).contains((store, branch));
        assert(f(vs[i])[0] == (store, branch));
        assert(vs[i] is BranchDiscipline);
    }
    assert forall|i: int|
        0 <= i < vs.len() && (#[trigger] vs[i] matches CheckViolationView::BranchDiscipline {
            repo_path,
            sub_kind: BranchDisciplineKindView::StaleEphemeralBranchSafe { branch: b, .. },
        } && repo_path == store && b == branch && (active matches Some(a) ==> scope_holds(
            scope,
            store,
            a,
        ))) implies vs.flat_map(f).contains((store, branch)) by {
        assert(f(vs[i])[0] == (store, branch));
        assert(f(vs[i]).contains((store, branch)));
    }
}

/// A deletion is refused where anything is missing of what warrants it: the
/// receipt, the store's own tip, or that the tip carries the branch.
pub proof fn deletions_need_every_warrant(
    store: Seq<char>,
    branch: Seq<char>,
    found: BranchInspection,
)
    ensures
        deletion_refusal(store, branch, found) is None <==> found.receipted && found.tip_readable
            && found.merged,
{
}

/// Whatever went wrong with a deletion is told, and what went right adds no
/// error.
pub proof fn deletion_errors_are_told(ends: Seq<DeletionEnd>, i: int)
    requires
        0 <= i < ends.len(),
    ensures
        ends[i] matches DeletionEnd::Kept { error } ==> ends.flat_map(deletion_errors()).contains(
            error@,
        ),
        ends[i] matches DeletionEnd::Deleted { error: Some(error) } ==> ends.flat_map(
            deletion_errors(),
        ).contains(error@),
        ends[i] == (DeletionEnd::Deleted { error: None }) ==> deletion_errors()(ends[i]).len() == 0,
{
    let f = deletion_errors();
    if f(ends[i]).len() > 0 {
        let e = f(ends[i])[0];
        assert(f(ends[i]).contains(e));
        flat_map_holds(ends, f, i, e);
    }
}

/// A store is reattached exactly where it is detached at the tip of the branch
/// it is expected on, in scope, and to that branch.
pub proof fn stores_are_reattached_in_place(
    s: StoreReading,
    scope: ScopeReading,
    active: Option<Seq<char>>,
    label: Seq<char>,
)
    ensures
        reattachment(s, scope, active) == Some(label) <==> (s.head matches HeadReading::Detached {
            at,
        } && (active matches Some(a) ==> scope_holds(scope, s.store.path@, a)) && counterpart(
            s.store.tracking,
            s.remote_default,
        ) == Some(label) && s.counterpart_tip.deep_view() == (TipView::At { revision: at@ })),
        reattachment(s, scope, active) is Some ==> s.head is Detached,
{
}

/// The receipts that are retracted are those of the findings, each with its
/// project, store and name.
pub proof fn reported_receipts_are_retracted(
    vs: Seq<CheckViolationView>,
    r: (Seq<char>, Seq<char>, Seq<char>),
)
    ensures
        vs.flat_map(dangling_rule()).contains(r) <==> vs.contains(
            CheckViolationView::DanglingRefReceipt {
                project: r.0,
                store_path: r.1,
                ref_name: r.2,
            },
        ),
        vs.flat_map(pre_flat_rule()).contains(r) <==> vs.contains(
            CheckViolationView::PreFlatRefReceipt {
                project: r.0,
                store_path: r.1,
                ref_name: r.2,
            },
        ),
{
    let f = dangling_rule();
    let g = pre_flat_rule();
    let a = CheckViolationView::DanglingRefReceipt {
        project: r.0,
        store_path: r.1,
        ref_name: r.2,
    };
    let b = CheckViolationView::PreFlatRefReceipt {
        project: r.0,
        store_path: r.1,
        ref_name: r.2,
    };
    flat_map_contains(vs, f, r);
    flat_map_contains(vs, g, r);
    if vs.flat_map(f).contains(r) {
        let i = choose|i: int| 0 <= i < vs.len() && (#[trigger] f(vs[i])).contains(r);
        assert(f(vs[i])[0] == r);
        assert(vs[i] == a);
    }
    if vs.flat_map(g).contains(r) {
        let i = choose|i: int| 0 <= i < vs.len() && (#[trigger] g(vs[i])).contains(r);
        assert(g(vs[i])[0] == r);
        assert(vs[i] == b);
    }
    if vs.contains(a) {
        let i = choose|i: int| 0 <= i < vs.len() && vs[i] == a;
        assert(f(vs[i])[0] == r);
        assert(f(vs[i]).contains(r));
    }
    if vs.contains(b) {
        let i = choose|i: int| 0 <= i < vs.len() && vs[i] == b;
        assert(g(vs[i])[0] == r);
        assert(g(vs[i]).contains(r));
    }
}

/// A retraction counts as a repair exactly where it was done.
pub proof fn done_retractions_are_repairs(
    reply: Result<bool, String>,
    store: Seq<char>,
    name: Seq<char>,
)
    ensures
        retracted_pair(reply, store, name) is Some <==> reply == Ok::<bool, String>(true),
        retracted_pair(reply, store, name) matches Some(pair) ==> pair == (store, name),
{
}

/// What a migration tells names the branch, the store and whatever else it is
/// about, in the order it is read.
pub proof fn messages_name_their_subjects(
    legacy: Seq<char>,
    at: Seq<char>,
    flat: Seq<char>,
    store: Seq<char>,
    error: Seq<char>,
    tip: Seq<char>,
    checkout: Seq<char>,
    refs: Seq<Seq<char>>,
    dir: Seq<char>,
    path: Seq<char>,
    branch: Seq<char>,
    label: Seq<char>,
    ref_name: Seq<char>,
)
    ensures
        tells(vanished_migrating_text(legacy), seq![legacy]),
        tells(moved_migrating_text(legacy, at), seq![legacy].push(at)),
        tells(migrated_text(legacy, flat, store), seq![legacy].push(flat).push(store)),
        tells(
            migrated_unretracted_text(legacy, flat, store, error),
            seq![legacy].push(flat).push(store).push(error),
        ),
        tells(vanished_adopting_text(flat), seq![flat]),
        tells(adopted_text(flat, store, tip), seq![flat].push(store).push(tip)),
        tells(vanished_giving_up_text(legacy), seq![legacy]),
        tells(gave_up_text(legacy, flat, store), seq![legacy].push(store).push(flat)),
        tells(
            gave_up_stranding_text(legacy, flat, store, tip),
            seq![legacy].push(store).push(flat).push(tip).push(store),
        ),
        tells(adopted_checkout_text(checkout, flat), seq![checkout].push(flat)),
        tells(
            crowded_text(store, flat, refs),
            seq![store].push(flat).push(decimal_text(refs.len())).push(quoted_list(refs)),
        ),
        tells(op_in_flight_text(dir, error), seq![dir].push(error)),
        tells(unusable_workweave_text(dir, error), seq![dir].push(error)),
        tells(at_checkout_text(path, error), seq![path].push(error)),
        tells(unreceipted_text(branch, store), seq![branch].push(store)),
        tells(tipless_text(branch, store), seq![branch].push(store)),
        tells(unmerged_text(branch, store), seq![branch].push(store)),
        tells(undeleted_text(branch, store, error), seq![branch].push(store).push(error)),
        tells(unretracted_text(branch, store, error), seq![branch].push(store).push(error)),
        tells(unreattached_text(store, label, error), seq![store].push(label).push(error)),
        tells(
            dangling_unretracted_text(ref_name, store, error),
            seq![ref_name].push(store).push(error),
        ),
        tells(
            pre_flat_unretracted_text(ref_name, store, error),
            seq![ref_name].push(store).push(error),
        ),
{
    broadcast use telling;
}

/// A refused deletion is told with the first warrant that is missing.
pub proof fn refused_deletions_tell_what_is_missing(
    store: Seq<char>,
    branch: Seq<char>,
    found: BranchInspection,
)
    ensures
        deletion_refusal(store, branch, found) matches Some(told) ==> tells(
            told,
            seq![branch].push(store),
        ),
        !found.receipted ==> tells(
            deletion_refusal(store, branch, found)->0,
            seq![
                ": rwv holds no ownership receipt for it — a ref that looks like rwv's is not rwv's"@,
            ],
        ),
        found.receipted && !found.tip_readable ==> tells(
            deletion_refusal(store, branch, found)->0,
            seq![
                ": the store's own tip is unreadable, so no merged warrant can be established"@,
            ],
        ),
        found.receipted && found.tip_readable && !found.merged ==> tells(
            deletion_refusal(store, branch, found)->0,
            seq![
                ": its tip is not an ancestor of the store's tip, so it carries commits nothing else \
           names"@,
            ],
        ),
{
    broadcast use telling;
}

/// Giving a branch up is told with the branch, the store and the branch it made
/// room for, and, where that stranded commits, with the tip they are at.
pub proof fn given_up_branches_are_told(
    d: DetachedAdoption,
    legacy: Seq<char>,
    tip: Seq<char>,
    stranding: bool,
)
    ensures
        tells(
            given_up_text(d, legacy, tip, stranding),
            seq![legacy].push(d.store@).push(d.flat@),
        ),
        stranding ==> tells(
            given_up_text(d, legacy, tip, stranding),
            seq![legacy].push(d.store@).push(d.flat@).push(tip),
        ),
{
    broadcast use telling;
}

/// A log only grows: what was told before is told still, and what came of a
/// checkout is put behind it, as done or as an error of that checkout.
pub proof fn logs_only_grow(
    before: MigrationLog,
    after: MigrationLog,
    checkout: Seq<char>,
    outcome: Result<Vec<String>, String>,
)
    requires
        settled_rightly(before, after, checkout, outcome),
    ensures
        before.applied.deep_view().is_prefix_of(after.applied.deep_view()),
        before.errors.deep_view().is_prefix_of(after.errors.deep_view()),
        outcome is Ok <==> after.errors.deep_view() == before.errors.deep_view(),
        outcome matches Ok(messages) ==> messages.deep_view().is_suffix_of(
            after.applied.deep_view(),
        ),
        outcome matches Err(e) ==> tells(after.errors.deep_view().last(), seq![checkout].push(e@)),
{
    broadcast use telling;
    if let Err(e) = outcome {
        assert(after.errors.deep_view().len() == before.errors.deep_view().len() + 1);
    }
}

/// A repair adds to the log what it repaired and what went wrong, and nothing
/// is taken from it.
pub proof fn repairs_are_logged(
    before: RepairLog,
    after: RepairLog,
    repaired: Option<(Seq<char>, Seq<char>)>,
    error: Option<Seq<char>>,
)
    requires
        log_extended(before, after, repaired, error),
    ensures
        before.repaired.deep_view().is_prefix_of(after.repaired.deep_view()),
        before.errors.deep_view().is_prefix_of(after.errors.deep_view()),
        repaired is None ==> after.repaired.deep_view() == before.repaired.deep_view(),
        error is None ==> after.errors.deep_view() == before.errors.deep_view(),
        repaired matches Some(r) ==> after.repaired.deep_view().last() == r
            && after.repaired.deep_view().len() == before.repaired.deep_view().len() + 1,
        error matches Some(e) ==> after.errors.deep_view().last() == e
            && after.errors.deep_view().len() == before.errors.deep_view().len() + 1,
{
}

} // verus!
