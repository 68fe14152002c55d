use vstd::prelude::*;
use vstd::string::*;

use crate::config::{steps_effect, FileStep, FileStepView};
use crate::error::ConfigError;
use crate::text::{same_text, trim_of, trim_text};

verus! {

/// The answer to an install: the plugin, where it lives, and whether this
/// call wrote it.
pub struct InstallBuiltinPluginResponse {
    pub id: String,
    pub path: String,
    pub wrote: bool,
}

/// A built-in plugin that is to be installed.
pub struct PluginInstall {
    /// The plugin's identifier.
    pub id: String,
    /// Where it goes, relative to the application's local data directory.
    pub relative_path: String,
    /// The script to write there.
    pub content: String,
}

/// The identifier of the notification plugin.
pub const NOTIFY_PLUGIN_ID: &'static str = "notify";

/// Where the notification plugin goes, relative to the application's local
/// data directory.
pub const NOTIFY_PLUGIN_PATH: &'static str = "plugins/notify.js";

/// The script of the notification plugin.
pub const BUILTIN_NOTIFY_PLUGIN_JS: &'static str = "// Built-in notify plugin: raises a desktop notification when a session\n// finishes, so a long task can run in the background.\nmodule.exports = function notifyPlugin() {\n  return {\n    name: 'notify',\n    stop(context) {\n      const title = 'Neovate';\n      const body = (context && context.summary) || 'Task finished';\n      if (typeof context?.notify === 'function') {\n        context.notify({ title, body });\n      }\n    },\n  };\n};\n";

/// Whether `id` names a built-in plugin.
pub open spec fn is_builtin(id: Seq<char>) -> bool {
    id == NOTIFY_PLUGIN_ID@
}

/// Whether `r` is the unknown-plugin error for `id`.
pub open spec fn unknown_plugin(r: Result<&'static str, ConfigError>, id: Seq<char>) -> bool {
    match r {
        Err(ConfigError::UnknownPlugin(s)) => s@ == id,
        _ => false,
    }
}

/// The steps that install `content` at `dest`: none where something is
/// already there, else one write.
pub open spec fn install_steps(dest: Seq<char>, content: Seq<char>, dest_exists: bool) -> Seq<
    FileStepView,
> {
    if dest_exists {
        seq![]
    } else {
        seq![FileStepView::Write { path: dest, content }]
    }
}

/// The script bundled for a built-in plugin.
pub fn builtin_plugin_content(id: &str) -> (r: Result<&'static str, ConfigError>)
    ensures
        is_builtin(id@) ==> (r matches Ok(c) && c@ == BUILTIN_NOTIFY_PLUGIN_JS@),
        !is_builtin(id@) ==> unknown_plugin(r, id@),
{
    if same_text(id, NOTIFY_PLUGIN_ID) {
        Ok(BUILTIN_NOTIFY_PLUGIN_JS)
    } else {
        Err(ConfigError::UnknownPlugin(String::from_str(id)))
    }
}

/// Where a built-in plugin goes, relative to the application's local data
/// directory.
pub fn builtin_plugin_relative_path(id: &str) -> (r: Result<&'static str, ConfigError>)
    ensures
        is_builtin(id@) ==> (r matches Ok(p) && p@ == NOTIFY_PLUGIN_PATH@),
        !is_builtin(id@) ==> unknown_plugin(r, id@),
{
    if same_text(id, NOTIFY_PLUGIN_ID) {
        Ok(NOTIFY_PLUGIN_PATH)
    } else {
        Err(ConfigError::UnknownPlugin(String::from_str(id)))
    }
}

/// Checks an install request: the identifier, trimmed, must be non-empty and
/// name a built-in plugin. Gives what is to be installed where.
pub fn prepare_plugin_install(id: &str) -> (r: Result<PluginInstall, ConfigError>)
    ensures
        trim_of(id@).len() == 0 ==> r == Err::<PluginInstall, ConfigError>(
            ConfigError::EmptyPluginId,
        ),
        trim_of(id@).len() > 0 && !is_builtin(trim_of(id@)) ==> match r {
            Err(ConfigError::UnknownPlugin(s)) => s@ == trim_of(id@),
            _ => false,
        },
        trim_of(id@).len() > 0 && is_builtin(trim_of(id@)) ==> match r {
            Ok(p) => p.id@ == trim_of(id@) && p.relative_path@ == NOTIFY_PLUGIN_PATH@
                && p.content@ == BUILTIN_NOTIFY_PLUGIN_JS@,
            Err(_) => false,
        },
{
    let id = trim_text(id);
    if id.unicode_len() == 0 {
        return Err(ConfigError::EmptyPluginId);
    }
    let relative_path = builtin_plugin_relative_path(id.as_str())?;
    let content = builtin_plugin_content(id.as_str())?;
    Ok(
        PluginInstall {
            id,
            relative_path: String::from_str(relative_path),
            content: String::from_str(content),
        },
    )
}

/// Decides an install once its destination `dest` is known: an existing
/// file is never overwritten. Gives the answer and the steps to perform.
pub fn install_builtin_plugin(plugin: &PluginInstall, dest: String, dest_exists: bool) -> (r: (
    InstallBuiltinPluginResponse,
    Vec<FileStep>,
))
    ensures
        r.0.id@ == plugin.id@,
        r.0.path@ == dest@,
        r.0.wrote == !dest_exists,
        r.1@.map_values(|s: FileStep| s@) == install_steps(dest@, plugin.content@, dest_exists),
{
    let mut steps: Vec<FileStep> = Vec::new();
    if !dest_exists {
        steps.push(FileStep::Write { path: dest.clone(), content: plugin.content.clone() });
    }
    assert(steps@.map_values(|s: FileStep| s@) =~= install_steps(
        dest@,
        plugin.content@,
        dest_exists,
    ));
    (InstallBuiltinPluginResponse { id: plugin.id.clone(), path: dest, wrote: !dest_exists }, steps)
}

/// The files after installing `content` at `dest`, which writes only where
/// `dest` is free.
pub open spec fn install_effect(files: Map<Seq<char>, Seq<char>>, dest: Seq<char>, content: Seq<char>) -> Map<
    Seq<char>,
    Seq<char>,
> {
    steps_effect(files, install_steps(dest, content, files.contains_key(dest)))
}

/// Installing is idempotent: an install onto a free destination writes the
/// bundled content there, an install onto an occupied destination leaves
/// every file as it was, and so a second install changes nothing.
pub proof fn lemma_install_idempotent(
    files: Map<Seq<char>, Seq<char>>,
    dest: Seq<char>,
    content: Seq<char>,
)
    ensures
        !files.contains_key(dest) ==> install_effect(files, dest, content) == files.insert(
            dest,
            content,
        ),
        files.contains_key(dest) ==> install_effect(files, dest, content) == files,
        install_effect(install_effect(files, dest, content), dest, content) == install_effect(
            files,
            dest,
            content,
        ),
{
    let one = install_steps(dest, content, false);
    assert(one.drop_last() =~= seq![]);
    assert(steps_effect(files, one.drop_last()) == files);
    assert(install_steps(dest, content, true) =~= seq![]);
    assert(install_effect(files, dest, content).contains_key(dest));
}

} // verus!
