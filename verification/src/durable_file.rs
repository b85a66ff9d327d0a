//! Publishing a whole file, so that no reader sees it half-written and a crash
//! cannot lose what was said to have landed.
//!
//! The bytes are written to a temporary file beside the target and brought to
//! the disk, then published in one step, and then the directory is brought to
//! the disk. A publication is a protocol: a step names the work to be done
//! next, and [`advance`] says which step follows the reply.

use vstd::prelude::*;
use crate::paths::{
    dir_above, entries_lie_in_their_directory, file_name, name_of, names_entry, parent_dir,
    trimmed_path,
};
use crate::text::{decimal, decimal_text, digit_text, join_path, joined, telling, tells};
use crate::violation::PathText;

verus! {

/// A write that could not be staged.
pub open spec fn stage_failed_text(path: Seq<char>) -> Seq<char> {
    "failed to stage a write of "@ + path
}

/// Words it: a write that could not be staged.
fn stage_failed(path: &String) -> (text: String)
    ensures
        text@ == stage_failed_text(path@),
{
    "failed to stage a write of ".to_owned().concat(path)
}

/// A rename that failed.
pub open spec fn rename_failed_text(temp: Seq<char>, path: Seq<char>) -> Seq<char> {
    "failed to rename "@ + temp + " to "@ + path
}

/// Words it: a rename that failed.
fn rename_failed(temp: &String, path: &String) -> (text: String)
    ensures
        text@ == rename_failed_text(temp@, path@),
{
    "failed to rename ".to_owned().concat(temp).concat(" to ").concat(path)
}

/// A directory that could not be brought to the disk.
pub open spec fn sync_failed_text(dir: Seq<char>) -> Seq<char> {
    "failed to fsync directory "@ + dir
}

/// Words it: a directory that could not be brought to the disk.
fn sync_failed(dir: &String) -> (text: String)
    ensures
        text@ == sync_failed_text(dir@),
{
    "failed to fsync directory ".to_owned().concat(dir)
}

/// What publishing means where something is at the target already.
#[derive(Debug, Clone, Copy, PartialEq, Eq, Structural)]
pub enum Publication {
    /// It is replaced.
    Replace,
    /// The publication is refused.
    CreateNew,
}

/// Why a new file was not published.
#[derive(Debug)]
pub enum CreateNewError {
    /// Something is at the target.
    AlreadyExists,
    Io { error: String },
}

/// The directory a file is in; `.` where its path has none above it.
pub open spec fn parent_of_text(path: Seq<char>) -> Seq<char> {
    match parent_dir(path) {
        Some(dir) => dir,
        None => "."@,
    }
}

/// The directory a file is in.
pub fn parent_of(path: &PathText) -> (dir: PathText)
    ensures
        dir@ == parent_of_text(path@),
{
    match dir_above(path) {
        Some(dir) => dir,
        None => ".".to_owned(),
    }
}

/// The name of a file; `durable-file` where its path names none.
pub open spec fn file_name_text(path: Seq<char>) -> Seq<char> {
    match file_name(path) {
        Some(name) => name,
        None => "durable-file"@,
    }
}

/// What sets a temporary file's name apart: the process and the serial number
/// of the write in it. No clock is read: two writes can see the same time.
pub open spec fn temp_suffix(pid: nat, serial: nat) -> Seq<char> {
    decimal_text(pid) + "."@ + decimal_text(serial)
}

/// Where the bytes are staged.
pub open spec fn temp_path_text(path: Seq<char>, pid: nat, serial: nat) -> Seq<char> {
    joined(parent_of_text(path), file_name_text(path) + ".tmp."@ + temp_suffix(pid, serial))
}

/// Where the bytes are staged: beside the target, under a name no other write
/// uses.
pub fn temp_path(path: &PathText, pid: usize, serial: usize) -> (temp: PathText)
    ensures
        temp@ == temp_path_text(path@, pid as nat, serial as nat),
{
    let name: String = match name_of(path) {
        Some(name) => name,
        None => "durable-file".to_owned(),
    };
    let suffix: String = decimal(pid).concat(".").concat(&decimal(serial));
    join_path(&parent_of(path), &name.concat(".tmp.").concat(&suffix))
}

proof fn digits_only(n: nat)
    ensures
        decimal_text(n).len() > 0,
        !decimal_text(n).contains('.'),
    decreases n,
{
    reveal_strlit("0");
    reveal_strlit("1");
    reveal_strlit("2");
    reveal_strlit("3");
    reveal_strlit("4");
    reveal_strlit("5");
    reveal_strlit("6");
    reveal_strlit("7");
    reveal_strlit("8");
    reveal_strlit("9");
    let d = digit_text(n % 10);
    assert(d.len() == 1 && d[0] != '.');
    if n >= 10 {
        digits_only(n / 10);
        let s = decimal_text(n);
        let head = decimal_text(n / 10);
        assert(s == head + d);
        assert forall|i: int| 0 <= i < s.len() implies s[i] != '.' by {
            if i < head.len() {
                assert(s[i] == head[i]);
            }
        }
    } else {
        assert(decimal_text(n) == digit_text(n));
    }
}

proof fn digit_code(d: nat)
    requires
        d < 10,
    ensures
        digit_text(d)[0] as int == '0' as int + d,
{
    reveal_strlit("0");
    reveal_strlit("1");
    reveal_strlit("2");
    reveal_strlit("3");
    reveal_strlit("4");
    reveal_strlit("5");
    reveal_strlit("6");
    reveal_strlit("7");
    reveal_strlit("8");
    reveal_strlit("9");
    assert("0"@[0] == '0');
    assert("1"@[0] == '1');
    assert("2"@[0] == '2');
    assert("3"@[0] == '3');
    assert("4"@[0] == '4');
    assert("5"@[0] == '5');
    assert("6"@[0] == '6');
    assert("7"@[0] == '7');
    assert("8"@[0] == '8');
    assert("9"@[0] == '9');
}

proof fn digits_differ(a: nat, b: nat)
    requires
        a < 10,
        b < 10,
        digit_text(a) == digit_text(b),
    ensures
        a == b,
{
    digit_code(a);
    digit_code(b);
}

proof fn digit_len(a: nat)
    ensures
        digit_text(a).len() == 1,
{
    reveal_strlit("0");
    reveal_strlit("1");
    reveal_strlit("2");
    reveal_strlit("3");
    reveal_strlit("4");
    reveal_strlit("5");
    reveal_strlit("6");
    reveal_strlit("7");
    reveal_strlit("8");
    reveal_strlit("9");
}

/// Different numbers are spelled differently.
pub proof fn decimals_differ(a: nat, b: nat)
    requires
        decimal_text(a) == decimal_text(b),
    ensures
        a == b,
    decreases a + b,
{
    digit_len(a % 10);
    digit_len(b % 10);
    digit_len(a);
    digit_len(b);
    digits_only(a / 10);
    digits_only(b / 10);
    if a < 10 && b < 10 {
        digits_differ(a, b);
    } else if a >= 10 && b >= 10 {
        let x = decimal_text(a);
        let y = decimal_text(b);
        assert(x.drop_last() =~= decimal_text(a / 10));
        assert(y.drop_last() =~= decimal_text(b / 10));
        decimals_differ(a / 10, b / 10);
        assert(x.subrange(x.len() - 1, x.len() as int) =~= digit_text(a % 10));
        assert(y.subrange(y.len() - 1, y.len() as int) =~= digit_text(b % 10));
        digits_differ(a % 10, b % 10);
    }
}

/// Two writes are staged under the same suffix only where they are the same
/// write of the same process.
pub proof fn temp_suffixes_differ(pid_a: nat, serial_a: nat, pid_b: nat, serial_b: nat)
    requires
        temp_suffix(pid_a, serial_a) == temp_suffix(pid_b, serial_b),
    ensures
        pid_a == pid_b,
        serial_a == serial_b,
{
    reveal_strlit(".");
    let x = decimal_text(pid_a);
    let y = decimal_text(pid_b);
    let s = temp_suffix(pid_a, serial_a);
    let t = temp_suffix(pid_b, serial_b);
    digits_only(pid_a);
    digits_only(pid_b);
    assert(s[x.len() as int] == '.');
    assert(t[y.len() as int] == '.');
    if x.len() < y.len() {
        assert(t[x.len() as int] == y[x.len() as int]);
        assert(y.contains('.'));
    }
    if y.len() < x.len() {
        assert(s[y.len() as int] == x[y.len() as int]);
        assert(x.contains('.'));
    }
    assert(x.len() == y.len());
    assert(s.take(x.len() as int) =~= x);
    assert(t.take(y.len() as int) =~= y);
    decimals_differ(pid_a, pid_b);
    assert(s.skip(x.len() as int + 1) =~= decimal_text(serial_a));
    assert(t.skip(y.len() as int + 1) =~= decimal_text(serial_b));
    decimals_differ(serial_a, serial_b);
}

/// A file that is published.
#[derive(Debug)]
pub struct PublishJob {
    pub publication: Publication,
    pub path: PathText,
    pub temp: PathText,
}

/// The next step of a publication.
#[derive(Debug)]
pub enum PublishStep {
    /// Create the temporary file, which must not be there, write the bytes and
    /// bring them to the disk.
    Stage,
    /// Move the temporary file over the target.
    Rename,
    /// Link the temporary file to the target, which must not be there.
    Link,
    /// Remove the temporary file; whether that works does not matter.
    Remove { then: AfterRemoval },
    /// Bring the directory to the disk.
    SyncDir { dir: PathText },
    Finished,
    Occupied,
    Stopped { error: String },
}

/// What follows once the temporary file is removed.
#[derive(Debug)]
pub enum AfterRemoval {
    SyncDir,
    Occupied,
    Stopped { error: String },
}

/// What the outside answered to a step.
#[derive(Debug)]
pub enum PublishReply {
    Done,
    /// Something is at the target.
    Occupied,
    Failed { error: String },
}

/// Whether a reply answers a step.
pub open spec fn answers_publication(step: PublishStep, reply: PublishReply) -> bool {
    match step {
        PublishStep::Stage | PublishStep::Rename | PublishStep::SyncDir { .. } => {
            reply is Done || reply is Failed
        },
        PublishStep::Link => true,
        PublishStep::Remove { .. } => reply is Done || reply is Failed,
        _ => false,
    }
}

/// What a failure of a replacement is told with; a new file's failure is told
/// as it is.
pub open spec fn told_as(job: PublishJob, text: Seq<char>, error: Seq<char>) -> Seq<char> {
    match job.publication {
        Publication::Replace => text,
        Publication::CreateNew => error,
    }
}

/// Whether `next` is the step that follows a reply.
pub open spec fn publication_follows(
    job: PublishJob,
    step: PublishStep,
    reply: PublishReply,
    next: PublishStep,
) -> bool {
    match (step, reply) {
        (PublishStep::Stage, PublishReply::Failed { error }) => {
            next matches PublishStep::Remove { then: AfterRemoval::Stopped { error: e } } && e@
                == told_as(job, stage_failed_text(job.path@), error@)
        },
        (PublishStep::Stage, PublishReply::Done) => match job.publication {
            Publication::Replace => next is Rename,
            Publication::CreateNew => next is Link,
        },
        (PublishStep::Rename, PublishReply::Failed { .. }) => {
            next matches PublishStep::Remove { then: AfterRemoval::Stopped { error: e } } && e@
                == rename_failed_text(job.temp@, job.path@)
        },
        (PublishStep::Rename, PublishReply::Done) => {
            next matches PublishStep::SyncDir { dir } && dir@ == parent_of_text(job.path@)
        },
        (PublishStep::Link, PublishReply::Done) => {
            next == (PublishStep::Remove { then: AfterRemoval::SyncDir })
        },
        (PublishStep::Link, PublishReply::Occupied) => {
            next == (PublishStep::Remove { then: AfterRemoval::Occupied })
        },
        (PublishStep::Link, PublishReply::Failed { error }) => {
            next == (PublishStep::Remove { then: AfterRemoval::Stopped { error } })
        },
        (PublishStep::Remove { then }, _) => match then {
            AfterRemoval::SyncDir => {
                next matches PublishStep::SyncDir { dir } && dir@ == parent_of_text(job.path@)
            },
            AfterRemoval::Occupied => next is Occupied,
            AfterRemoval::Stopped { error } => next == (PublishStep::Stopped { error }),
        },
        (PublishStep::SyncDir { dir }, PublishReply::Failed { error }) => {
            next matches PublishStep::Stopped { error: e } && e@ == told_as(
                job,
                sync_failed_text(dir@),
                error@,
            )
        },
        (PublishStep::SyncDir { .. }, PublishReply::Done) => next is Finished,
        _ => false,
    }
}

/// Publishes a file: says which step follows a reply. A publication starts at
/// [`PublishStep::Stage`].
pub fn advance(job: &PublishJob, step: PublishStep, reply: PublishReply) -> (next: PublishStep)
    requires
        answers_publication(step, reply),
    ensures
        publication_follows(*job, step, reply, next),
{
    let replaces: bool = match job.publication {
        Publication::Replace => true,
        Publication::CreateNew => false,
    };
    match (step, reply) {
        (PublishStep::Stage, PublishReply::Failed { error }) => {
            let told: String = if replaces {
                stage_failed(&job.path)
            } else {
                error
            };
            PublishStep::Remove { then: AfterRemoval::Stopped { error: told } }
        },
        (PublishStep::Stage, _) => {
            if replaces {
                PublishStep::Rename
            } else {
                PublishStep::Link
            }
        },
        (PublishStep::Rename, PublishReply::Failed { .. }) => PublishStep::Remove {
            then: AfterRemoval::Stopped { error: rename_failed(&job.temp, &job.path) },
        },
        (PublishStep::Rename, _) => PublishStep::SyncDir { dir: parent_of(&job.path) },
        (PublishStep::Link, PublishReply::Done) => PublishStep::Remove {
            then: AfterRemoval::SyncDir,
        },
        (PublishStep::Link, PublishReply::Occupied) => PublishStep::Remove {
            then: AfterRemoval::Occupied,
        },
        (PublishStep::Link, PublishReply::Failed { error }) => PublishStep::Remove {
            then: AfterRemoval::Stopped { error },
        },
        (PublishStep::Remove { then }, _) => match then {
            AfterRemoval::SyncDir => PublishStep::SyncDir { dir: parent_of(&job.path) },
            AfterRemoval::Occupied => PublishStep::Occupied,
            AfterRemoval::Stopped { error } => PublishStep::Stopped { error },
        },
        (PublishStep::SyncDir { dir }, PublishReply::Failed { error }) => {
            let told: String = if replaces {
                sync_failed(&dir)
            } else {
                error
            };
            PublishStep::Stopped { error: told }
        },
        (PublishStep::SyncDir { .. }, _) => PublishStep::Finished,
        (other, _) => other,
    }
}

/// Starts the publication of a file that replaces what is at its path.
pub fn replace(path: &PathText, pid: usize, serial: usize) -> (job: PublishJob)
    ensures
        job.publication is Replace,
        job.path@ == path@,
        job.temp@ == temp_path_text(path@, pid as nat, serial as nat),
{
    PublishJob {
        publication: Publication::Replace,
        path: path.clone(),
        temp: temp_path(path, pid, serial),
    }
}

/// Starts the publication of a file that must not be there.
pub fn create_new(path: &PathText, pid: usize, serial: usize) -> (job: PublishJob)
    ensures
        job.publication is CreateNew,
        job.path@ == path@,
        job.temp@ == temp_path_text(path@, pid as nat, serial as nat),
{
    PublishJob {
        publication: Publication::CreateNew,
        path: path.clone(),
        temp: temp_path(path, pid, serial),
    }
}

/// What a publication of a new file came to, once it is at its end.
pub fn create_new_outcome(step: PublishStep) -> (outcome: Option<Result<(), CreateNewError>>)
    ensures
        match step {
            PublishStep::Finished => outcome matches Some(r) && r is Ok,
            PublishStep::Occupied => outcome matches Some(r) && r matches Err(e)
                && e is AlreadyExists,
            PublishStep::Stopped { error } => outcome matches Some(r) && r matches Err(e) && e
                == (CreateNewError::Io { error }),
            _ => outcome is None,
        },
{
    match step {
        PublishStep::Finished => Some(Ok(())),
        PublishStep::Occupied => Some(Err(CreateNewError::AlreadyExists)),
        PublishStep::Stopped { error } => Some(Err(CreateNewError::Io { error })),
        _ => None,
    }
}

/// A file is published only once its bytes are on the disk, and is said to
/// have landed only once its directory is too.
pub proof fn bytes_land_before_the_name(
    job: PublishJob,
    step: PublishStep,
    reply: PublishReply,
    next: PublishStep,
)
    requires
        answers_publication(step, reply),
        publication_follows(job, step, reply, next),
    ensures
        next is Rename || next is Link ==> step is Stage && reply is Done,
        next is Finished ==> step is SyncDir && reply is Done,
        next is SyncDir ==> (step is Rename && reply is Done) || step == (PublishStep::Remove {
            then: AfterRemoval::SyncDir,
        }),
        next == (PublishStep::Remove { then: AfterRemoval::SyncDir }) ==> step is Link
            && reply is Done,
{
}

/// A new file never takes the place of another: where something is at its
/// path, it is refused.
pub proof fn new_files_replace_nothing(
    job: PublishJob,
    step: PublishStep,
    reply: PublishReply,
    next: PublishStep,
)
    requires
        job.publication is CreateNew,
        answers_publication(step, reply),
        publication_follows(job, step, reply, next),
    ensures
        !(next is Rename),
        step is Link && reply is Occupied ==> next == (PublishStep::Remove {
            then: AfterRemoval::Occupied,
        }),
{
}

/// Whether the temporary file is gone: it is until it is staged, once it was
/// renamed, and once it was removed.
pub open spec fn no_temp_left(step: PublishStep) -> bool {
    step is SyncDir || step is Finished || step is Occupied || step is Stopped
}

/// No publication ends with its temporary file left: each passes its rename or
/// its removal first.
pub proof fn publications_leave_no_temp(
    job: PublishJob,
    step: PublishStep,
    reply: PublishReply,
    next: PublishStep,
)
    requires
        answers_publication(step, reply),
        publication_follows(job, step, reply, next),
        no_temp_left(next),
        !no_temp_left(step),
    ensures
        step is Remove || (step is Rename && reply is Done),
{
}

/// A temporary file lies in the directory of the file it is for, under a name
/// that starts with that file's.
pub proof fn temporaries_lie_beside_their_file(dir: Seq<char>, name: Seq<char>, pid: nat, serial: nat)
    requires
        dir.len() > 0,
        dir.last() != '/',
        trimmed_path(dir) == dir,
        names_entry(name),
    ensures
        temp_path_text(dir + "/"@ + name, pid, serial) == dir + "/"@ + (name + ".tmp."@
            + decimal_text(pid) + "."@ + decimal_text(serial)),
        parent_of_text(dir + "/"@ + name) == dir,
        temp_path_text(dir + "/"@ + name, pid, serial) != dir + "/"@ + name,
{
    reveal_strlit("/");
    reveal_strlit(".tmp.");
    entries_lie_in_their_directory(dir, name);
    let leaf = name + ".tmp."@ + temp_suffix(pid, serial);
    assert(leaf =~= name + ".tmp."@ + decimal_text(pid) + "."@ + decimal_text(serial));
    assert(leaf[0] == name[0]);
    assert(name[0] != '/');
    assert((dir + "/"@ + leaf).len() > (dir + "/"@ + name).len());
}

/// A publication that fails ends as stopped, with the temporary file removed
/// where it was not yet published; what it replaces or creates stays as it was.
pub proof fn failures_stop_a_publication(
    job: PublishJob,
    step: PublishStep,
    reply: PublishReply,
    next: PublishStep,
)
    requires
        answers_publication(step, reply),
        publication_follows(job, step, reply, next),
    ensures
        reply is Failed && (step is Stage || step is Rename || step is Link) ==> (
        next matches PublishStep::Remove { then } && then is Stopped),
        reply is Failed && step is SyncDir ==> next is Stopped,
        next is Stopped ==> (reply is Failed && step is SyncDir) || (
        step matches PublishStep::Remove { then } && then is Stopped),
        next is Occupied <==> step == (PublishStep::Remove { then: AfterRemoval::Occupied }),
        next == (PublishStep::Remove { then: AfterRemoval::Occupied }) <==> step is Link && reply
            is Occupied,
        step matches PublishStep::Remove { then: AfterRemoval::Stopped { error } } ==> next == (
        PublishStep::Stopped { error }),
{
}

/// A replacement moves its bytes over the target, and never refuses one that is
/// there.
pub proof fn replacements_take_the_target(
    job: PublishJob,
    step: PublishStep,
    reply: PublishReply,
    next: PublishStep,
)
    requires
        job.publication is Replace,
        answers_publication(step, reply),
        publication_follows(job, step, reply, next),
    ensures
        step is Stage && reply is Done ==> next is Rename,
        !(next is Link),
        next matches PublishStep::SyncDir { dir } ==> dir@ == parent_of_text(job.path@),
{
}

/// A failed publication names the files it was about.
pub proof fn messages_name_their_subjects(path: Seq<char>, temp: Seq<char>, dir: Seq<char>)
    ensures
        tells(stage_failed_text(path), seq![path]),
        tells(rename_failed_text(temp, path), seq![temp].push(path)),
        tells(sync_failed_text(dir), seq![dir]),
{
    broadcast use telling;
}

/// What went wrong is told in the publication's own words where a file is
/// replaced, and as the outside told it where one is created.
pub proof fn failures_are_told_to_their_caller(job: PublishJob, text: Seq<char>, error: Seq<char>)
    ensures
        job.publication == Publication::Replace ==> told_as(job, text, error) == text,
        job.publication == Publication::CreateNew ==> told_as(job, text, error) == error,
{
}

} // verus!
