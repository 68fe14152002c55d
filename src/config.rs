use vstd::prelude::*;
use vstd::string::*;

use crate::error::ConfigError;
use crate::json::{json_accepts, json_error_message, parse_json};
use crate::paths::{config_dir_of, config_path_of, join_path, joined};
use crate::text::{decimal, decimal_text};

verus! {

/// The configuration file as it was read.
pub struct ReadConfigResponse {
    pub path: String,
    pub exists: bool,
    pub content: String,
}

/// Where a configuration write went, and the backup it made, if any.
pub struct WriteConfigResponse {
    pub path: String,
    pub backup_path: Option<String>,
}

/// The paths a configuration write uses.
pub struct ConfigWritePlan {
    /// The directory of the configuration file.
    pub dir: String,
    /// The configuration file.
    pub path: String,
    /// The staging file the new content is written to first.
    pub tmp_path: String,
}

/// One change to a file, in the order a write performs them.
pub enum FileStep {
    /// Copy the file `from` to `to`.
    Copy { from: String, to: String },
    /// Write `content` to the file `path`.
    Write { path: String, content: String },
    /// Remove the file `path`.
    Remove { path: String },
    /// Move the file `from` to `to`.
    Rename { from: String, to: String },
}

/// The content of a [`FileStep`].
pub enum FileStepView {
    Copy { from: Seq<char>, to: Seq<char> },
    Write { path: Seq<char>, content: Seq<char> },
    Remove { path: Seq<char> },
    Rename { from: Seq<char>, to: Seq<char> },
}

impl View for FileStep {
    type V = FileStepView;

    open spec fn view(&self) -> FileStepView {
        match self {
            FileStep::Copy { from, to } => FileStepView::Copy { from: from@, to: to@ },
            FileStep::Write { path, content } => FileStepView::Write {
                path: path@,
                content: content@,
            },
            FileStep::Remove { path } => FileStepView::Remove { path: path@ },
            FileStep::Rename { from, to } => FileStepView::Rename { from: from@, to: to@ },
        }
    }
}

/// The content a missing configuration reads as: an empty JSON object.
pub const EMPTY_CONFIG: &'static str = "{\n}\n";

/// The name of the staging file beside the configuration.
pub open spec fn tmp_name() -> Seq<char> {
    "config.json.tmp"@
}

/// The name of the backup made at `unix_secs` seconds after the epoch.
pub open spec fn backup_name(unix_secs: u64) -> Seq<char> {
    "config.json.bak-"@ + decimal(unix_secs as nat)
}

/// The staging file of the configuration under a home directory.
pub open spec fn tmp_path_of(home: Seq<char>) -> Seq<char> {
    joined(config_dir_of(home), tmp_name())
}

/// The backup of the configuration under a home directory made at `unix_secs`.
pub open spec fn backup_path_of(home: Seq<char>, unix_secs: u64) -> Seq<char> {
    joined(config_dir_of(home), backup_name(unix_secs))
}

/// The steps that write `content` to `path` through the staging file `tmp`,
/// copying the old file to `backup` first where one is given.
pub open spec fn write_steps(
    path: Seq<char>,
    tmp: Seq<char>,
    backup: Option<Seq<char>>,
    content: Seq<char>,
) -> Seq<FileStepView> {
    match backup {
        Some(b) => seq![
            FileStepView::Copy { from: path, to: b },
            FileStepView::Write { path: tmp, content },
            FileStepView::Remove { path },
            FileStepView::Rename { from: tmp, to: path },
        ],
        None => seq![
            FileStepView::Write { path: tmp, content },
            FileStepView::Rename { from: tmp, to: path },
        ],
    }
}

/// The steps of writing `content` as the configuration under `home`;
/// `backup_stamp` is the time of the backup, given exactly when a
/// configuration file is already there.
pub open spec fn config_steps(home: Seq<char>, content: Seq<char>, backup_stamp: Option<u64>) -> Seq<
    FileStepView,
> {
    let backup = match backup_stamp {
        Some(ts) => Some(backup_path_of(home, ts)),
        None => None,
    };
    write_steps(config_path_of(home), tmp_path_of(home), backup, content)
}

/// The files, by path, after one step.
pub open spec fn step_effect(files: Map<Seq<char>, Seq<char>>, step: FileStepView) -> Map<
    Seq<char>,
    Seq<char>,
> {
    match step {
        FileStepView::Copy { from, to } => files.insert(to, files[from]),
        FileStepView::Write { path, content } => files.insert(path, content),
        FileStepView::Remove { path } => files.remove(path),
        FileStepView::Rename { from, to } => files.remove(from).insert(to, files[from]),
    }
}

/// The files, by path, after the steps in order.
pub open spec fn steps_effect(files: Map<Seq<char>, Seq<char>>, steps: Seq<FileStepView>) -> Map<
    Seq<char>,
    Seq<char>,
>
    decreases steps.len(),
{
    if steps.len() == 0 {
        files
    } else {
        step_effect(steps_effect(files, steps.drop_last()), steps.last())
    }
}

/// Answers a read of the configuration at `path`: `stored` is the file's
/// content, or `None` where there is no file, which reads as an empty object.
pub fn read_config(path: String, stored: Option<String>) -> (r: ReadConfigResponse)
    ensures
        r.path@ == path@,
        r.exists == stored.is_some(),
        stored.is_some() ==> r.content@ == stored->0@,
        stored.is_none() ==> r.content@ == EMPTY_CONFIG@,
{
    match stored {
        Some(content) => ReadConfigResponse { path, exists: true, content },
        None => ReadConfigResponse { path, exists: false, content: String::from_str(EMPTY_CONFIG) },
    }
}

/// Checks a new configuration before anything is written: the home directory
/// must be known and `content` must be JSON. Gives the paths the write uses.
pub fn prepare_config_write(content: &str, home: &Option<String>) -> (r: Result<
    ConfigWritePlan,
    ConfigError,
>)
    ensures
        home.is_none() ==> r == Err::<ConfigWritePlan, ConfigError>(ConfigError::NoHomeDirectory),
        home.is_some() && !json_accepts(content@) ==> r matches Err(ConfigError::InvalidJson(_)),
        home.is_some() && json_accepts(content@) ==> match r {
            Ok(p) => p.dir@ == config_dir_of(home->0@) && p.path@ == config_path_of(home->0@)
                && p.tmp_path@ == tmp_path_of(home->0@),
            Err(_) => false,
        },
{
    let h = match home {
        Some(h) => h,
        None => {
            return Err(ConfigError::NoHomeDirectory);
        },
    };
    match parse_json(content) {
        Ok(()) => {},
        Err(e) => {
            return Err(ConfigError::InvalidJson(json_error_message(&e)));
        },
    }
    let dir = join_path(h.as_str(), ".neovate");
    let path = join_path(dir.as_str(), "config.json");
    let tmp_path = join_path(dir.as_str(), "config.json.tmp");
    Ok(ConfigWritePlan { dir, path, tmp_path })
}

/// The backup path for a configuration overwritten at `unix_secs` seconds
/// after the epoch: `config.json.bak-<unix_secs>` beside it.
pub fn backup_path(dir: &str, unix_secs: u64) -> (r: String)
    ensures
        r@ == joined(dir@, backup_name(unix_secs)),
{
    let digits = decimal_text(unix_secs);
    let name = String::from_str("config.json.bak-").concat(digits.as_str());
    join_path(dir, name.as_str())
}

/// Lists the file steps that put `content` in place as the configuration,
/// and the answer to give once they are done. `backup_stamp` is the time in
/// seconds since the epoch, given exactly when a configuration file is
/// already there: it is then first copied to its backup.
pub fn config_write_steps(plan: &ConfigWritePlan, content: &str, backup_stamp: Option<u64>) -> (r: (
    Vec<FileStep>,
    WriteConfigResponse,
))
    ensures
        r.0@.map_values(|s: FileStep| s@) == write_steps(
            plan.path@,
            plan.tmp_path@,
            match backup_stamp {
                Some(ts) => Some(joined(plan.dir@, backup_name(ts))),
                None => None,
            },
            content@,
        ),
        r.1.path@ == plan.path@,
        r.1.backup_path.is_some() == backup_stamp.is_some(),
        backup_stamp.is_some() ==> r.1.backup_path->0@ == joined(
            plan.dir@,
            backup_name(backup_stamp->0),
        ),
{
    let mut steps: Vec<FileStep> = Vec::new();
    let backup = match backup_stamp {
        Some(ts) => {
            let b = backup_path(plan.dir.as_str(), ts);
            steps.push(FileStep::Copy { from: plan.path.clone(), to: b.clone() });
            Some(b)
        },
        None => None,
    };
    steps.push(FileStep::Write { path: plan.tmp_path.clone(), content: String::from_str(content) });
    if backup_stamp.is_some() {
        steps.push(FileStep::Remove { path: plan.path.clone() });
    }
    steps.push(FileStep::Rename { from: plan.tmp_path.clone(), to: plan.path.clone() });
    let ghost expected = write_steps(
        plan.path@,
        plan.tmp_path@,
        match backup_stamp {
            Some(ts) => Some(joined(plan.dir@, backup_name(ts))),
            None => None,
        },
        content@,
    );
    assert(steps@.map_values(|s: FileStep| s@) =~= expected);
    (steps, WriteConfigResponse { path: plan.path.clone(), backup_path: backup })
}

/// Paths made by joining one directory with two different relative names
/// are different.
pub proof fn lemma_join_distinct(dir: Seq<char>, a: Seq<char>, b: Seq<char>)
    requires
        a != b,
        !(a.len() > 0 && a[0] == '/'),
        !(b.len() > 0 && b[0] == '/'),
    ensures
        joined(dir, a) != joined(dir, b),
{
    let p = if dir.len() == 0 || dir.last() == '/' {
        dir
    } else {
        dir + seq!['/']
    };
    assert(joined(dir, a) =~= p + a);
    assert(joined(dir, b) =~= p + b);
    if joined(dir, a) == joined(dir, b) {
        assert((p + a).subrange(p.len() as int, (p + a).len() as int) =~= a);
        assert((p + b).subrange(p.len() as int, (p + b).len() as int) =~= b);
    }
}

/// The configuration, its staging file and its backups are distinct files.
pub proof fn lemma_config_files_distinct(home: Seq<char>, unix_secs: u64)
    ensures
        config_path_of(home) != tmp_path_of(home),
        config_path_of(home) != backup_path_of(home, unix_secs),
        tmp_path_of(home) != backup_path_of(home, unix_secs),
{
    reveal_strlit("config.json");
    reveal_strlit("config.json.tmp");
    reveal_strlit("config.json.bak-");
    let d = config_dir_of(home);
    let main = "config.json"@;
    let tmp = tmp_name();
    let bak = backup_name(unix_secs);
    assert(decimal(unix_secs as nat).len() >= 1);
    assert(main.len() != tmp.len());
    assert(main.len() != bak.len());
    assert(tmp[12] != bak[12]);
    lemma_join_distinct(d, main, tmp);
    lemma_join_distinct(d, main, bak);
    lemma_join_distinct(d, tmp, bak);
}

/// Writing the configuration leaves it holding exactly the new content, so a
/// read afterwards finds that content; where a file was already there, its
/// old content is kept in exactly one new backup file; the staging file is
/// gone and every other file is as it was.
pub proof fn lemma_config_write_outcome(
    files: Map<Seq<char>, Seq<char>>,
    home: Seq<char>,
    content: Seq<char>,
    backup_stamp: Option<u64>,
)
    requires
        files.contains_key(config_path_of(home)) == backup_stamp.is_some(),
    ensures
        steps_effect(files, config_steps(home, content, backup_stamp)) == match backup_stamp {
            Some(ts) => files.remove(tmp_path_of(home)).insert(
                backup_path_of(home, ts),
                files[config_path_of(home)],
            ).insert(config_path_of(home), content),
            None => files.remove(tmp_path_of(home)).insert(config_path_of(home), content),
        },
        steps_effect(files, config_steps(home, content, backup_stamp))[config_path_of(home)]
            == content,
{
    let path = config_path_of(home);
    let tmp = tmp_path_of(home);
    let steps = config_steps(home, content, backup_stamp);
    match backup_stamp {
        Some(ts) => {
            let b = backup_path_of(home, ts);
            lemma_config_files_distinct(home, ts);
            let s3 = steps.drop_last();
            let s2 = s3.drop_last();
            let s1 = s2.drop_last();
            let s0 = s1.drop_last();
            assert(s0 =~= seq![]);
            assert(s1.last() == FileStepView::Copy { from: path, to: b });
            assert(s2.last() == FileStepView::Write { path: tmp, content });
            assert(s3.last() == FileStepView::Remove { path });
            assert(steps_effect(files, s0) == files);
            let f1 = files.insert(b, files[path]);
            let f2 = f1.insert(tmp, content);
            let f3 = f2.remove(path);
            let f4 = f3.remove(tmp).insert(path, f3[tmp]);
            assert(steps_effect(files, steps.drop_last().drop_last().drop_last()) == f1);
            assert(steps_effect(files, steps.drop_last().drop_last()) == f2);
            assert(steps_effect(files, steps.drop_last()) == f3);
            assert(f4 =~= files.remove(tmp).insert(b, files[path]).insert(path, content));
        },
        None => {
            lemma_config_files_distinct(home, 0);
            let s1 = steps.drop_last();
            let s0 = s1.drop_last();
            assert(s0 =~= seq![]);
            assert(s1.last() == FileStepView::Write { path: tmp, content });
            assert(steps_effect(files, s0) == files);
            let f1 = files.insert(tmp, content);
            let f2 = f1.remove(tmp).insert(path, f1[tmp]);
            assert(steps_effect(files, steps.drop_last()) == f1);
            assert(f2 =~= files.remove(tmp).insert(path, content));
        },
    }
}

} // verus!
