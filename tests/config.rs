use std::collections::HashMap;

use neovate_config::config::{
    backup_path, config_write_steps, prepare_config_write, read_config, FileStep, EMPTY_CONFIG,
};
use neovate_config::error::ConfigError;

fn config_home() -> Option<String> {
    Some("/home/ada".to_string())
}

fn run_steps(files: &mut HashMap<String, String>, steps: &[FileStep]) {
    for step in steps {
        match step {
            FileStep::Copy { from, to } => {
                let c = files[from].clone();
                files.insert(to.clone(), c);
            }
            FileStep::Write { path, content } => {
                files.insert(path.clone(), content.clone());
            }
            FileStep::Remove { path } => {
                files.remove(path);
            }
            FileStep::Rename { from, to } => {
                let c = files.remove(from).unwrap();
                files.insert(to.clone(), c);
            }
        }
    }
}

fn write_through(files: &mut HashMap<String, String>, content: &str, now: u64) -> Result<Option<String>, ConfigError> {
    let plan = prepare_config_write(content, &config_home())?;
    let stamp = if files.contains_key(&plan.path) { Some(now) } else { None };
    let (steps, resp) = config_write_steps(&plan, content, stamp);
    run_steps(files, &steps);
    Ok(resp.backup_path)
}

#[test]
fn read_missing_config_gives_empty_object() {
    let r = read_config("/home/ada/.neovate/config.json".to_string(), None);
    assert_eq!(r.path, "/home/ada/.neovate/config.json");
    assert!(!r.exists);
    assert_eq!(r.content, "{\n}\n");
    assert_eq!(EMPTY_CONFIG, "{\n}\n");
}

#[test]
fn read_existing_config_gives_content() {
    let r = read_config("/p".to_string(), Some("{\"a\":1}".to_string()));
    assert!(r.exists);
    assert_eq!(r.content, "{\"a\":1}");
}

#[test]
fn prepare_write_rejects_invalid_json() {
    assert!(matches!(prepare_config_write("{", &config_home()), Err(ConfigError::InvalidJson(_))));
    assert!(matches!(prepare_config_write("", &config_home()), Err(ConfigError::InvalidJson(_))));
    assert!(matches!(prepare_config_write("{} {}", &config_home()), Err(ConfigError::InvalidJson(_))));
}

#[test]
fn prepare_write_accepts_any_json_value() {
    for text in ["{}", "[1, 2]", "3", "\"s\"", "null", " {\"a\": {\"b\": true}}\n"] {
        let plan = prepare_config_write(text, &config_home()).unwrap();
        assert_eq!(plan.dir, "/home/ada/.neovate");
        assert_eq!(plan.path, "/home/ada/.neovate/config.json");
        assert_eq!(plan.tmp_path, "/home/ada/.neovate/config.json.tmp");
    }
}

#[test]
fn prepare_write_needs_home() {
    assert_eq!(prepare_config_write("{}", &None).err(), Some(ConfigError::NoHomeDirectory));
}

#[test]
fn backup_path_carries_timestamp() {
    assert_eq!(backup_path("/home/ada/.neovate", 1700000000), "/home/ada/.neovate/config.json.bak-1700000000");
}

#[test]
fn write_steps_without_existing_file() {
    let plan = prepare_config_write("{}", &config_home()).unwrap();
    let (steps, resp) = config_write_steps(&plan, "{}", None);
    assert_eq!(resp.path, "/home/ada/.neovate/config.json");
    assert_eq!(resp.backup_path, None);
    assert_eq!(steps.len(), 2);
    assert!(matches!(&steps[0], FileStep::Write { path, content } if path == "/home/ada/.neovate/config.json.tmp" && content == "{}"));
    assert!(matches!(&steps[1], FileStep::Rename { from, to } if from == "/home/ada/.neovate/config.json.tmp" && to == "/home/ada/.neovate/config.json"));
}

#[test]
fn write_steps_with_existing_file_back_it_up_first() {
    let plan = prepare_config_write("{}", &config_home()).unwrap();
    let (steps, resp) = config_write_steps(&plan, "{}", Some(42));
    let bak = "/home/ada/.neovate/config.json.bak-42".to_string();
    assert_eq!(resp.backup_path, Some(bak.clone()));
    assert_eq!(steps.len(), 4);
    assert!(matches!(&steps[0], FileStep::Copy { from, to } if from == "/home/ada/.neovate/config.json" && *to == bak));
    assert!(matches!(&steps[2], FileStep::Remove { path } if path == "/home/ada/.neovate/config.json"));
}

#[test]
fn config_round_trip() {
    let mut files = HashMap::new();
    let content = "{\n  \"model\": \"x\"\n}\n";
    assert_eq!(write_through(&mut files, content, 100), Ok(None));
    let path = "/home/ada/.neovate/config.json".to_string();
    let r = read_config(path.clone(), files.get(&path).cloned());
    assert!(r.exists);
    assert_eq!(r.content, content);
    assert_eq!(files.len(), 1);
}

#[test]
fn invalid_json_leaves_file_unchanged() {
    let mut files = HashMap::new();
    let path = "/home/ada/.neovate/config.json".to_string();
    files.insert(path.clone(), "{\"old\": 1}".to_string());
    assert!(matches!(write_through(&mut files, "{not json", 100), Err(ConfigError::InvalidJson(_))));
    assert_eq!(files.len(), 1);
    assert_eq!(files[&path], "{\"old\": 1}");
}

#[test]
fn overwrite_makes_one_backup_of_old_content() {
    let mut files = HashMap::new();
    let path = "/home/ada/.neovate/config.json".to_string();
    files.insert(path.clone(), "{\"old\": 1}".to_string());
    let backup = write_through(&mut files, "{\"new\": 2}", 1700000000).unwrap().unwrap();
    assert_eq!(backup, "/home/ada/.neovate/config.json.bak-1700000000");
    assert_eq!(files.len(), 2);
    assert_eq!(files[&backup], "{\"old\": 1}");
    assert_eq!(files[&path], "{\"new\": 2}");
}

#[test]
fn first_write_makes_no_backup() {
    let mut files = HashMap::new();
    assert_eq!(write_through(&mut files, "[]", 5), Ok(None));
    assert_eq!(files.len(), 1);
}
