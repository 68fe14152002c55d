use neovate_config::error::ConfigError;
use neovate_config::skills::{
    apply_skills_migration_core, build_skills_plan, check_apply_request, parse_migration_mode,
    plan_skills_migration, resolve_migration_paths, ItemAction, MigrationMode, SkillsMigrationItem,
    SourceEntry, SourceListing,
};

fn entry(name: &str, is_dir: bool) -> SourceEntry {
    SourceEntry { name: name.to_string(), is_dir }
}

fn container(entries: Vec<SourceEntry>) -> SourceListing {
    SourceListing { exists: true, is_dir: true, has_skill_file: false, base_name: Some("src".to_string()), entries }
}

fn occupied(names: &[&str]) -> Vec<String> {
    names.iter().map(|n| n.to_string()).collect()
}

fn item(name: &str, exists: bool, is_dir: bool) -> SkillsMigrationItem {
    SkillsMigrationItem {
        name: name.to_string(),
        source: format!("/s/{name}"),
        target: format!("/t/{name}"),
        exists,
        is_dir,
    }
}

#[test]
fn plan_counts_conflicts_and_skips_hidden() {
    let listing = container(vec![entry("a", false), entry("b", true), entry(".DS_Store", false)]);
    let plan = plan_skills_migration("/s", "/t", &listing, &occupied(&["b"])).unwrap();
    assert_eq!(plan.items.len(), 2);
    assert_eq!(plan.conflict_count, 1);
    let a = &plan.items[0];
    assert_eq!((a.name.as_str(), a.source.as_str(), a.target.as_str(), a.exists, a.is_dir), ("a", "/s/a", "/t/a", false, false));
    let b = &plan.items[1];
    assert_eq!((b.name.as_str(), b.source.as_str(), b.target.as_str(), b.exists, b.is_dir), ("b", "/s/b", "/t/b", true, true));
    assert!(plan.items.iter().all(|i| i.name != ".DS_Store"));
}

#[test]
fn plan_of_direct_skill_is_one_item() {
    let listing = SourceListing {
        exists: true,
        is_dir: true,
        has_skill_file: true,
        base_name: Some("my-skill".to_string()),
        entries: vec![entry("SKILL.md", false), entry("run.sh", false), entry("lib", true)],
    };
    let plan = plan_skills_migration("/s/my-skill", "/t", &listing, &occupied(&[])).unwrap();
    assert_eq!(plan.items.len(), 1);
    let i = &plan.items[0];
    assert_eq!(i.name, "my-skill");
    assert_eq!(i.source, "/s/my-skill");
    assert_eq!(i.target, "/t/my-skill");
    assert!(i.is_dir);
    assert!(!i.exists);
    assert_eq!(plan.conflict_count, 0);
}

#[test]
fn plan_of_direct_skill_sees_conflict() {
    let listing = SourceListing {
        exists: true,
        is_dir: true,
        has_skill_file: true,
        base_name: Some("my-skill".to_string()),
        entries: vec![],
    };
    let plan = plan_skills_migration("/s/my-skill", "/t/", &listing, &occupied(&["other", "my-skill"])).unwrap();
    assert_eq!(plan.items[0].target, "/t/my-skill");
    assert_eq!(plan.conflict_count, 1);
}

#[test]
fn plan_refuses_missing_source() {
    let mut listing = container(vec![]);
    listing.exists = false;
    listing.is_dir = false;
    assert_eq!(plan_skills_migration("/s", "/t", &listing, &vec![]).err(), Some(ConfigError::SourceMissing));
}

#[test]
fn plan_refuses_source_file() {
    let mut listing = container(vec![]);
    listing.is_dir = false;
    assert_eq!(plan_skills_migration("/s", "/t", &listing, &vec![]).err(), Some(ConfigError::SourceNotDirectory));
    assert_eq!(build_skills_plan("/s", "/t", &listing, &vec![]).err(), Some(ConfigError::SourceNotDirectory));
}

#[test]
fn plan_refuses_direct_skill_without_name() {
    let listing = SourceListing { exists: true, is_dir: true, has_skill_file: true, base_name: None, entries: vec![] };
    assert_eq!(build_skills_plan("/", "/t", &listing, &vec![]).err(), Some(ConfigError::SourceNameUnavailable));
}

#[test]
fn plan_of_empty_source_is_empty() {
    let plan = plan_skills_migration("/s", "/t", &container(vec![]), &vec![]).unwrap();
    assert!(plan.items.is_empty());
    assert_eq!(plan.conflict_count, 0);
}

#[test]
fn apply_skip_leaves_conflict() {
    let items = vec![item("b", true, true)];
    let (actions, result) = apply_skills_migration_core(&items, MigrationMode::Skip);
    assert_eq!(actions, vec![ItemAction::Skip]);
    assert_eq!((result.copied, result.skipped, result.replaced), (0, 1, 0));
}

#[test]
fn apply_replace_overwrites_conflict() {
    let items = vec![item("b", true, true)];
    let (actions, result) = apply_skills_migration_core(&items, MigrationMode::Replace);
    assert_eq!(actions, vec![ItemAction::Replace]);
    assert_eq!((result.copied, result.skipped, result.replaced), (0, 0, 1));
}

#[test]
fn apply_copies_free_targets() {
    let items = vec![item("a", false, false), item("b", true, true), item("c", false, true)];
    let (actions, result) = apply_skills_migration_core(&items, MigrationMode::Skip);
    assert_eq!(actions, vec![ItemAction::Copy, ItemAction::Skip, ItemAction::Copy]);
    assert_eq!((result.copied, result.skipped, result.replaced), (2, 1, 0));
}

#[test]
fn mode_parsing() {
    assert_eq!(parse_migration_mode("replace"), Ok(MigrationMode::Replace));
    assert_eq!(parse_migration_mode(" skip\n"), Ok(MigrationMode::Skip));
    assert_eq!(parse_migration_mode("merge"), Err(ConfigError::InvalidMode("merge".to_string())));
    assert_eq!(parse_migration_mode("Skip"), Err(ConfigError::InvalidMode("Skip".to_string())));
    assert_eq!(parse_migration_mode(""), Err(ConfigError::InvalidMode("".to_string())));
}

#[test]
fn invalid_mode_is_refused_before_any_work() {
    assert_eq!(check_apply_request(true, "merge"), Err(ConfigError::InvalidMode("merge".to_string())));
    assert_eq!(check_apply_request(false, "merge"), Err(ConfigError::SourceMissing));
    assert_eq!(check_apply_request(true, "replace"), Ok(MigrationMode::Replace));
}

#[test]
fn migration_paths_are_trimmed_and_expanded() {
    let home = Some("/home/ada".to_string());
    assert_eq!(
        resolve_migration_paths("  ~/.agents/skills ", "~", &home),
        Ok(("/home/ada/.agents/skills".to_string(), "/home/ada".to_string()))
    );
    assert_eq!(resolve_migration_paths("/s", "/t", &None), Ok(("/s".to_string(), "/t".to_string())));
    assert_eq!(resolve_migration_paths("/s", " ~/t", &None), Err(ConfigError::NoHomeDirectory));
}
