use vstd::prelude::*;
use vstd::string::*;

use crate::error::ConfigError;
use crate::paths::{expand_tilde, join_path, joined, needs_home, tilde_expanded};
use crate::text::{same_text, starts_with_char, trim_of, trim_text};

verus! {

/// One unit of migration work: a file or directory of the source and the
/// place it goes to under the target.
pub struct SkillsMigrationItem {
    pub name: String,
    pub source: String,
    pub target: String,
    /// Whether the target path is already occupied.
    pub exists: bool,
    /// Whether the source is a directory subtree rather than one file.
    pub is_dir: bool,
}

/// The items of a migration, in listing order, and how many of them conflict.
pub struct SkillsMigrationPlan {
    pub items: Vec<SkillsMigrationItem>,
    pub conflict_count: usize,
}

/// How many items a migration copied fresh, skipped, and replaced.
#[derive(Debug, Clone, Copy, PartialEq, Eq, Structural)]
pub struct SkillsMigrationResult {
    pub copied: usize,
    pub skipped: usize,
    pub replaced: usize,
}

/// One direct child of the source directory.
pub struct SourceEntry {
    pub name: String,
    pub is_dir: bool,
}

/// What a look at the migration source found.
pub struct SourceListing {
    /// The source path exists.
    pub exists: bool,
    /// The source path is a directory.
    pub is_dir: bool,
    /// The source directory directly holds a regular file named `SKILL.md`.
    pub has_skill_file: bool,
    /// The final component of the source path, where it has one.
    pub base_name: Option<String>,
    /// The direct children of the source directory, in listing order.
    pub entries: Vec<SourceEntry>,
}

/// How conflicting items are resolved.
#[derive(Debug, Clone, Copy, PartialEq, Eq, Structural)]
pub enum MigrationMode {
    /// Remove the occupied target, then copy the source over it.
    Replace,
    /// Leave the occupied target untouched.
    Skip,
}

/// What is done with one item.
#[derive(Debug, Clone, Copy, PartialEq, Eq, Structural)]
pub enum ItemAction {
    /// The target is free: copy the source there.
    Copy,
    /// The target is occupied and left as it is.
    Skip,
    /// The target is occupied: remove it, then copy the source there.
    Replace,
}

/// The content of a migration item.
pub struct MigrationItemView {
    pub name: Seq<char>,
    pub source: Seq<char>,
    pub target: Seq<char>,
    pub exists: bool,
    pub is_dir: bool,
}

impl View for SkillsMigrationItem {
    type V = MigrationItemView;

    open spec fn view(&self) -> MigrationItemView {
        MigrationItemView {
            name: self.name@,
            source: self.source@,
            target: self.target@,
            exists: self.exists,
            is_dir: self.is_dir,
        }
    }
}

/// The contents of a sequence of items.
pub open spec fn items_view(items: Seq<SkillsMigrationItem>) -> Seq<MigrationItemView> {
    items.map_values(|i: SkillsMigrationItem| i@)
}

/// Whether a name is hidden (starts with a dot) and so left out of a migration.
pub open spec fn is_hidden(name: Seq<char>) -> bool {
    name.len() > 0 && name[0] == '.'
}

/// Whether the target directory already has something of this name.
pub open spec fn occupied_by(occupied: Seq<String>, name: Seq<char>) -> bool {
    exists|k: int| 0 <= k < occupied.len() && occupied[k]@ == name
}

/// The item that migrates `source` to `<target>/<name>`.
pub open spec fn item_of(
    name: Seq<char>,
    source: Seq<char>,
    target: Seq<char>,
    occupied: Seq<String>,
    is_dir: bool,
) -> MigrationItemView {
    MigrationItemView {
        name,
        source,
        target: joined(target, name),
        exists: occupied_by(occupied, name),
        is_dir,
    }
}

/// One item for each entry that is not hidden, in order.
pub open spec fn entry_items(
    entries: Seq<SourceEntry>,
    source: Seq<char>,
    target: Seq<char>,
    occupied: Seq<String>,
) -> Seq<MigrationItemView>
    decreases entries.len(),
{
    if entries.len() == 0 {
        seq![]
    } else {
        let rest = entry_items(entries.drop_last(), source, target, occupied);
        let e = entries.last();
        if is_hidden(e.name@) {
            rest
        } else {
            rest.push(item_of(e.name@, joined(source, e.name@), target, occupied, e.is_dir))
        }
    }
}

/// The items of migrating `source` into `target`: the source directory as a
/// whole where it holds `SKILL.md`, else each of its visible children.
pub open spec fn planned_items(
    source: Seq<char>,
    target: Seq<char>,
    listing: SourceListing,
    occupied: Seq<String>,
) -> Result<Seq<MigrationItemView>, ConfigError> {
    if !listing.is_dir {
        Err(ConfigError::SourceNotDirectory)
    } else if listing.has_skill_file {
        match listing.base_name {
            Some(n) => Ok(seq![item_of(n@, source, target, occupied, true)]),
            None => Err(ConfigError::SourceNameUnavailable),
        }
    } else {
        Ok(entry_items(listing.entries@, source, target, occupied))
    }
}

/// The number of items whose target is occupied.
pub open spec fn conflict_total(items: Seq<MigrationItemView>) -> nat
    decreases items.len(),
{
    if items.len() == 0 {
        0
    } else {
        conflict_total(items.drop_last()) + if items.last().exists {
            1nat
        } else {
            0nat
        }
    }
}

/// What happens to an item with the given occupancy under a mode.
pub open spec fn action_for(exists: bool, mode: MigrationMode) -> ItemAction {
    if !exists {
        ItemAction::Copy
    } else {
        match mode {
            MigrationMode::Skip => ItemAction::Skip,
            MigrationMode::Replace => ItemAction::Replace,
        }
    }
}

/// The counts that migrating these items under `mode` reports.
pub open spec fn tally(items: Seq<MigrationItemView>, mode: MigrationMode) -> (nat, nat, nat) {
    let c = conflict_total(items);
    match mode {
        MigrationMode::Skip => ((items.len() - c) as nat, c, 0),
        MigrationMode::Replace => ((items.len() - c) as nat, 0, c),
    }
}

/// The mode a (trimmed) mode name stands for.
pub open spec fn mode_named(m: Seq<char>) -> Option<MigrationMode> {
    if m == "replace"@ {
        Some(MigrationMode::Replace)
    } else if m == "skip"@ {
        Some(MigrationMode::Skip)
    } else {
        None
    }
}

/// Whether `r` is what parsing the mode text `m` gives.
pub open spec fn parsed_mode(r: Result<MigrationMode, ConfigError>, m: Seq<char>) -> bool {
    match mode_named(trim_of(m)) {
        Some(md) => r == Ok::<MigrationMode, ConfigError>(md),
        None => match r {
            Err(ConfigError::InvalidMode(s)) => s@ == trim_of(m),
            _ => false,
        },
    }
}

pub proof fn lemma_conflicts_bounded(items: Seq<MigrationItemView>)
    ensures
        conflict_total(items) <= items.len(),
    decreases items.len(),
{
    if items.len() > 0 {
        lemma_conflicts_bounded(items.drop_last());
    }
}

fn is_occupied(occupied: &Vec<String>, name: &String) -> (r: bool)
    ensures
        r == occupied_by(occupied@, name@),
{
    let mut k: usize = 0;
    while k < occupied.len()
        invariant
            k <= occupied.len(),
            forall|j: int| 0 <= j < k ==> occupied@[j]@ != name@,
        decreases occupied.len() - k,
    {
        if occupied[k] == *name {
            return true;
        }
        k += 1;
    }
    false
}

/// Lists the items of migrating `source` into `target`.
///
/// `listing` is what was found at `source`, and `occupied` the names already
/// taken in the target directory. A source that holds `SKILL.md` is one item,
/// named after the source itself; otherwise each child whose name does not
/// start with a dot is one item, in listing order.
pub fn build_skills_plan(
    source: &str,
    target: &str,
    listing: &SourceListing,
    occupied: &Vec<String>,
) -> (r: Result<Vec<SkillsMigrationItem>, ConfigError>)
    ensures
        match r {
            Ok(v) => planned_items(source@, target@, *listing, occupied@) == Ok::<
                Seq<MigrationItemView>,
                ConfigError,
            >(items_view(v@)),
            Err(e) => planned_items(source@, target@, *listing, occupied@) == Err::<
                Seq<MigrationItemView>,
                ConfigError,
            >(e),
        },
{
    if !listing.is_dir {
        return Err(ConfigError::SourceNotDirectory);
    }
    let mut items: Vec<SkillsMigrationItem> = Vec::new();
    if listing.has_skill_file {
        match &listing.base_name {
            Some(n) => {
                let name = n.clone();
                let dst = join_path(target, name.as_str());
                let exists = is_occupied(occupied, &name);
                items.push(
                    SkillsMigrationItem {
                        name,
                        source: String::from_str(source),
                        target: dst,
                        exists,
                        is_dir: true,
                    },
                );
                assert(items_view(items@) =~= seq![
                    item_of(n@, source@, target@, occupied@, true),
                ]);
                return Ok(items);
            },
            None => {
                return Err(ConfigError::SourceNameUnavailable);
            },
        }
    }
    let ghost entries = listing.entries@;
    let mut i: usize = 0;
    while i < listing.entries.len()
        invariant
            i <= entries.len(),
            entries == listing.entries@,
            items_view(items@) == entry_items(entries.take(i as int), source@, target@, occupied@),
        decreases entries.len() - i,
    {
        let entry = &listing.entries[i];
        proof {
            assert(entries.take(i + 1).drop_last() =~= entries.take(i as int));
            assert(entries.take(i + 1).last() == entries[i as int]);
        }
        if !starts_with_char(entry.name.as_str(), '.') {
            let name = entry.name.clone();
            let src = join_path(source, name.as_str());
            let dst = join_path(target, name.as_str());
            let exists = is_occupied(occupied, &name);
            let ghost before = items@;
            items.push(SkillsMigrationItem { name, source: src, target: dst, exists, is_dir: entry.is_dir });
            assert(items_view(items@) =~= items_view(before).push(items@.last()@));
        }
        i += 1;
    }
    assert(entries.take(entries.len() as int) =~= entries);
    Ok(items)
}

fn count_conflicts(items: &Vec<SkillsMigrationItem>) -> (r: usize)
    ensures
        r == conflict_total(items_view(items@)),
{
    let ghost views = items_view(items@);
    let mut n: usize = 0;
    let mut i: usize = 0;
    while i < items.len()
        invariant
            i <= items.len(),
            views == items_view(items@),
            n == conflict_total(views.take(i as int)),
            n <= i,
        decreases items.len() - i,
    {
        proof {
            assert(views.take(i + 1).drop_last() =~= views.take(i as int));
        }
        if items[i].exists {
            n += 1;
        }
        i += 1;
    }
    assert(views.take(items.len() as int) =~= views);
    n
}

/// Plans migrating `source` into `target`: the items, as `build_skills_plan`
/// lists them, and how many of them have an occupied target. A source that
/// does not exist is refused first.
pub fn plan_skills_migration(
    source: &str,
    target: &str,
    listing: &SourceListing,
    occupied: &Vec<String>,
) -> (r: Result<SkillsMigrationPlan, ConfigError>)
    ensures
        !listing.exists ==> r == Err::<SkillsMigrationPlan, ConfigError>(
            ConfigError::SourceMissing,
        ),
        listing.exists ==> match r {
            Ok(p) => planned_items(source@, target@, *listing, occupied@) == Ok::<
                Seq<MigrationItemView>,
                ConfigError,
            >(items_view(p.items@)) && p.conflict_count == conflict_total(items_view(p.items@)),
            Err(e) => planned_items(source@, target@, *listing, occupied@) == Err::<
                Seq<MigrationItemView>,
                ConfigError,
            >(e),
        },
{
    if !listing.exists {
        return Err(ConfigError::SourceMissing);
    }
    let items = build_skills_plan(source, target, listing, occupied)?;
    let conflict_count = count_conflicts(&items);
    Ok(SkillsMigrationPlan { items, conflict_count })
}

/// Reads a migration mode: `replace` or `skip`, whitespace aside.
pub fn parse_migration_mode(mode: &str) -> (r: Result<MigrationMode, ConfigError>)
    ensures
        parsed_mode(r, mode@),
{
    let m = trim_text(mode);
    if same_text(m.as_str(), "replace") {
        Ok(MigrationMode::Replace)
    } else if same_text(m.as_str(), "skip") {
        Ok(MigrationMode::Skip)
    } else {
        Err(ConfigError::InvalidMode(m))
    }
}

/// Checks a request to apply a migration before anything is touched: the
/// source must exist, then the mode must be valid.
pub fn check_apply_request(source_exists: bool, mode: &str) -> (r: Result<
    MigrationMode,
    ConfigError,
>)
    ensures
        !source_exists ==> r == Err::<MigrationMode, ConfigError>(ConfigError::SourceMissing),
        source_exists ==> parsed_mode(r, mode@),
{
    if !source_exists {
        return Err(ConfigError::SourceMissing);
    }
    parse_migration_mode(mode)
}

/// Decides what happens to each item under `mode`, in order, and the counts
/// the migration reports: a free target is copied to, an occupied one is
/// skipped or replaced as the mode says.
pub fn apply_skills_migration_core(items: &Vec<SkillsMigrationItem>, mode: MigrationMode) -> (r: (
    Vec<ItemAction>,
    SkillsMigrationResult,
))
    ensures
        r.0.len() == items.len(),
        forall|i: int| 0 <= i < items.len() ==> r.0@[i] == action_for(items@[i].exists, mode),
        (r.1.copied as nat, r.1.skipped as nat, r.1.replaced as nat) == tally(
            items_view(items@),
            mode,
        ),
{
    let ghost views = items_view(items@);
    let mut actions: Vec<ItemAction> = Vec::new();
    let mut copied: usize = 0;
    let mut skipped: usize = 0;
    let mut replaced: usize = 0;
    let mut i: usize = 0;
    while i < items.len()
        invariant
            i <= items.len(),
            views == items_view(items@),
            actions.len() == i,
            forall|j: int| 0 <= j < i ==> actions@[j] == action_for(items@[j].exists, mode),
            (copied as nat, skipped as nat, replaced as nat) == tally(views.take(i as int), mode),
            copied + skipped + replaced == i,
        decreases items.len() - i,
    {
        proof {
            assert(views.take(i + 1).drop_last() =~= views.take(i as int));
            lemma_conflicts_bounded(views.take(i as int));
        }
        let action = if !items[i].exists {
            copied += 1;
            ItemAction::Copy
        } else {
            match mode {
                MigrationMode::Skip => {
                    skipped += 1;
                    ItemAction::Skip
                },
                MigrationMode::Replace => {
                    replaced += 1;
                    ItemAction::Replace
                },
            }
        };
        actions.push(action);
        i += 1;
    }
    assert(views.take(items.len() as int) =~= views);
    (actions, SkillsMigrationResult { copied, skipped, replaced })
}

/// Resolves the source and target of a migration request: each is trimmed,
/// then has its leading `~` expanded against the home directory (`None` when
/// it could not be resolved).
pub fn resolve_migration_paths(source_path: &str, target_path: &str, home: &Option<String>) -> (r:
    Result<(String, String), ConfigError>)
    ensures
        match r {
            Ok((s, t)) => s@ == expanded_or_same(trim_of(source_path@), *home) && t@
                == expanded_or_same(trim_of(target_path@), *home),
            Err(e) => e == ConfigError::NoHomeDirectory && home.is_none() && (needs_home(
                trim_of(source_path@),
            ) || needs_home(trim_of(target_path@))),
        },
        home.is_some() ==> r is Ok,
        !needs_home(trim_of(source_path@)) && !needs_home(trim_of(target_path@)) ==> r is Ok,
{
    let s = trim_text(source_path);
    let t = trim_text(target_path);
    let source = expand_tilde(s.as_str(), home)?;
    let target = expand_tilde(t.as_str(), home)?;
    Ok((source, target))
}

/// A path as expansion leaves it: expanded where it needs the home directory
/// and one is known, unchanged where it needs none.
pub open spec fn expanded_or_same(p: Seq<char>, home: Option<String>) -> Seq<char> {
    match home {
        Some(h) => if needs_home(p) {
            tilde_expanded(p, h@)
        } else {
            p
        },
        None => p,
    }
}

/// Hidden entries never become migration items: every item listed from a
/// source's children has a name that does not start with a dot, and is one of
/// those children.
pub proof fn lemma_hidden_entries_skipped(
    entries: Seq<SourceEntry>,
    source: Seq<char>,
    target: Seq<char>,
    occupied: Seq<String>,
)
    ensures
        forall|j: int|
            0 <= j < entry_items(entries, source, target, occupied).len() ==> !is_hidden(
                #[trigger] entry_items(entries, source, target, occupied)[j].name,
            ) && exists|k: int|
                0 <= k < entries.len() && entries[k].name@ == entry_items(
                    entries,
                    source,
                    target,
                    occupied,
                )[j].name,
    decreases entries.len(),
{
    if entries.len() > 0 {
        let rest = entries.drop_last();
        lemma_hidden_entries_skipped(rest, source, target, occupied);
        let items = entry_items(entries, source, target, occupied);
        let prev = entry_items(rest, source, target, occupied);
        assert forall|j: int| 0 <= j < items.len() implies !is_hidden(#[trigger] items[j].name)
            && exists|k: int| 0 <= k < entries.len() && entries[k].name@ == items[j].name by {
            if j < prev.len() {
                assert(items[j] == prev[j]);
                let k = choose|k: int| 0 <= k < rest.len() && rest[k].name@ == prev[j].name;
                assert(entries[k] == rest[k]);
            } else {
                assert(entries[entries.len() - 1] == entries.last());
            }
        }
    }
}

/// Applying a plan accounts for every item once, and the items skipped or
/// replaced are exactly the plan's conflicts: all are skipped under `Skip`,
/// all replaced under `Replace`, and the rest are copied.
pub proof fn lemma_apply_accounts_for_plan(items: Seq<MigrationItemView>, mode: MigrationMode)
    ensures
        tally(items, mode).0 + tally(items, mode).1 + tally(items, mode).2 == items.len(),
        tally(items, mode).1 + tally(items, mode).2 == conflict_total(items),
        mode == MigrationMode::Skip ==> tally(items, mode).2 == 0,
        mode == MigrationMode::Replace ==> tally(items, mode).1 == 0,
{
    lemma_conflicts_bounded(items);
}

} // verus!
