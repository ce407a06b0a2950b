//! How the editor is configured at start: from environment variables, then
//! from command-line arguments, which take precedence.
use crate::asset_scan::parent_text;
use crate::text::{all_whitespace, str_eq, trim, trim_str, is_blank};
use vstd::prelude::*;

verus! {

/// The environment variables the editor reads, as they were found.
#[derive(Debug, Clone, PartialEq, Eq, Default)]
pub struct AppEnvironment {
    pub project_path: Option<String>,
    pub project_create_path: Option<String>,
    pub project_name: Option<String>,
    pub recent_projects_path: Option<String>,
    pub adapter_exe: Option<String>,
    pub adapter_project_path: Option<String>,
    pub adapter_auto_connect: Option<String>,
}

/// A flag variable is set by `1`, `true`, `TRUE`, `yes` or `YES`.
pub open spec fn flag_set(value: Option<Seq<char>>) -> bool {
    match value {
        Some(v) => v == "1"@ || v == "true"@ || v == "TRUE"@ || v == "yes"@ || v == "YES"@,
        None => false,
    }
}

pub fn env_flag(value: Option<&str>) -> (r: bool)
    ensures
        r == flag_set(
            match value {
                Some(v) => Some(v@),
                None => None,
            },
        ),
{
    match value {
        Some(v) => str_eq(v, "1") || str_eq(v, "true") || str_eq(v, "TRUE") || str_eq(v, "yes")
            || str_eq(v, "YES"),
        None => false,
    }
}

/// Which project to open or create, where recent projects are kept, and
/// which adapter to run.
#[derive(Debug, Clone, PartialEq, Eq)]
pub struct AppProjectConfig {
    pub open_path: Option<String>,
    pub create_root: Option<String>,
    pub create_name: Option<String>,
    pub recent_store_path: Option<String>,
    pub adapter_executable: Option<String>,
    pub adapter_project_path: Option<String>,
    pub auto_connect_adapter: bool,
}

pub struct ConfigView {
    pub open_path: Option<Seq<char>>,
    pub create_root: Option<Seq<char>>,
    pub create_name: Option<Seq<char>>,
    pub recent_store_path: Option<Seq<char>>,
    pub adapter_executable: Option<Seq<char>>,
    pub adapter_project_path: Option<Seq<char>>,
    pub auto_connect_adapter: bool,
}

pub open spec fn text_of(o: Option<String>) -> Option<Seq<char>> {
    match o {
        Some(s) => Some(s@),
        None => None,
    }
}

impl View for AppProjectConfig {
    type V = ConfigView;

    open spec fn view(&self) -> ConfigView {
        ConfigView {
            open_path: text_of(self.open_path),
            create_root: text_of(self.create_root),
            create_name: text_of(self.create_name),
            recent_store_path: text_of(self.recent_store_path),
            adapter_executable: text_of(self.adapter_executable),
            adapter_project_path: text_of(self.adapter_project_path),
            auto_connect_adapter: self.auto_connect_adapter,
        }
    }
}

/// The configuration the environment gives: each variable as found, and
/// automatic connection when its flag is set or an adapter is named.
pub open spec fn config_from_env(env: AppEnvironment) -> ConfigView {
    ConfigView {
        open_path: text_of(env.project_path),
        create_root: text_of(env.project_create_path),
        create_name: text_of(env.project_name),
        recent_store_path: text_of(env.recent_projects_path),
        adapter_executable: text_of(env.adapter_exe),
        adapter_project_path: text_of(env.adapter_project_path),
        auto_connect_adapter: flag_set(text_of(env.adapter_auto_connect)) || env.adapter_exe is Some,
    }
}

/// The configuration after the arguments from position `i` on: each option
/// that takes a value sets it when a value follows and is skipped
/// otherwise; unknown arguments are skipped.
pub open spec fn apply_args(c: ConfigView, args: Seq<Seq<char>>, i: int) -> ConfigView
    decreases args.len() - i,
{
    if i < 0 || i >= args.len() {
        c
    } else {
        let a = args[i];
        let has_value = i + 1 < args.len();
        if a == "--project"@ && has_value {
            apply_args(ConfigView { open_path: Some(args[i + 1]), ..c }, args, i + 2)
        } else if a == "--create-project"@ && has_value {
            apply_args(ConfigView { create_root: Some(args[i + 1]), ..c }, args, i + 2)
        } else if a == "--project-name"@ && has_value {
            apply_args(ConfigView { create_name: Some(args[i + 1]), ..c }, args, i + 2)
        } else if a == "--adapter"@ && has_value {
            apply_args(
                ConfigView {
                    adapter_executable: Some(args[i + 1]),
                    auto_connect_adapter: true,
                    ..c
                },
                args,
                i + 2,
            )
        } else if a == "--adapter-project"@ && has_value {
            apply_args(ConfigView { adapter_project_path: Some(args[i + 1]), ..c }, args, i + 2)
        } else if a == "--auto-connect-adapter"@ {
            apply_args(ConfigView { auto_connect_adapter: true, ..c }, args, i + 1)
        } else {
            apply_args(c, args, i + 1)
        }
    }
}

fn copy_option(o: &Option<String>) -> (r: Option<String>)
    ensures
        text_of(r) == text_of(*o),
{
    match o {
        Some(s) => Some(s.clone()),
        None => None,
    }
}

impl AppProjectConfig {
    /// The configuration from the environment, then the arguments after the
    /// program's name.
    pub fn from_env_and_args(env: &AppEnvironment, args: &[String]) -> (r: Self)
        ensures
            r@ == apply_args(
                config_from_env(*env),
                args@.map_values(|a: String| a@),
                1,
            ),
    {
        let ghost all = args@.map_values(|a: String| a@);
        let auto = env_flag(
            match &env.adapter_auto_connect {
                Some(v) => Some(v.as_str()),
                None => None,
            },
        );
        let mut config = AppProjectConfig {
            open_path: copy_option(&env.project_path),
            create_root: copy_option(&env.project_create_path),
            create_name: copy_option(&env.project_name),
            recent_store_path: copy_option(&env.recent_projects_path),
            adapter_executable: copy_option(&env.adapter_exe),
            adapter_project_path: copy_option(&env.adapter_project_path),
            auto_connect_adapter: auto,
        };
        if config.adapter_executable.is_some() {
            config.auto_connect_adapter = true;
        }
        assert(config@ == config_from_env(*env));
        let n = args.len();
        let mut index: usize = 1;
        while index < n
            invariant
                n == args@.len(),
                all == args@.map_values(|a: String| a@),
                1 <= index,
                apply_args(config@, all, index as int) == apply_args(
                    config_from_env(*env),
                    all,
                    1,
                ),
            decreases n - index,
        {
            let a = args[index].as_str();
            assert(a@ == all[index as int]);
            let has_value = index + 1 < n;
            if has_value {
                assert(args@[index + 1]@ == all[index + 1]);
            }
            if str_eq(a, "--project") && has_value {
                config.open_path = Some(args[index + 1].clone());
                index = index + 2;
            } else if str_eq(a, "--create-project") && has_value {
                config.create_root = Some(args[index + 1].clone());
                index = index + 2;
            } else if str_eq(a, "--project-name") && has_value {
                config.create_name = Some(args[index + 1].clone());
                index = index + 2;
            } else if str_eq(a, "--adapter") && has_value {
                config.adapter_executable = Some(args[index + 1].clone());
                config.auto_connect_adapter = true;
                index = index + 2;
            } else if str_eq(a, "--adapter-project") && has_value {
                config.adapter_project_path = Some(args[index + 1].clone());
                index = index + 2;
            } else if str_eq(a, "--auto-connect-adapter") {
                config.auto_connect_adapter = true;
                index = index + 1;
            } else {
                index = index + 1;
            }
        }
        config
    }

    pub fn default_recent_store_path() -> (r: String)
        ensures
            r@ == ".elcarax/recent-projects.toml"@,
    {
        String::from_str(".elcarax/recent-projects.toml")
    }

    /// Where recent projects are kept: the configured path or the default.
    pub fn recent_store_path(&self) -> (r: String)
        ensures
            r@ == match self@.recent_store_path {
                Some(p) => p,
                None => ".elcarax/recent-projects.toml"@,
            },
    {
        match &self.recent_store_path {
            Some(p) => p.clone(),
            None => Self::default_recent_store_path(),
        }
    }

    /// The name for a new project: the configured one, trimmed, unless it
    /// is blank; else the default name.
    pub fn create_name(&self) -> (r: String)
        ensures
            r@ == match self@.create_name {
                Some(n) => if all_whitespace(n) {
                    "My Elcarax Project"@
                } else {
                    trim(n)
                },
                None => "My Elcarax Project"@,
            },
    {
        match &self.create_name {
            Some(n) => {
                if is_blank(n.as_str()) {
                    String::from_str("My Elcarax Project")
                } else {
                    trim_str(n.as_str())
                }
            },
            None => String::from_str("My Elcarax Project"),
        }
    }

    /// Where a new project goes: the configured root, else the directory
    /// holding the project to open.
    pub fn create_root_or_open_parent(&self) -> (r: Option<String>)
        ensures
            text_of(r) == match self@.create_root {
                Some(root) => Some(root),
                None => match self@.open_path {
                    Some(p) => parent_text(p),
                    None => None,
                },
            },
    {
        match &self.create_root {
            Some(root) => Some(root.clone()),
            None => match &self.open_path {
                Some(p) => crate::asset_scan::parent_str(p.as_str()),
                None => None,
            },
        }
    }
}

/// Where a project comes from: a path, or a picker that was cancelled.
#[derive(Debug, Clone, PartialEq, Eq)]
pub enum ProjectPathResolution {
    Resolved(String),
    Cancelled,
}

/// What a folder picker's answer resolves to.
pub fn picked_project_path(picked: Option<String>) -> (r: ProjectPathResolution)
    ensures
        match picked {
            Some(p) => r == ProjectPathResolution::Resolved(p),
            None => r == ProjectPathResolution::Cancelled,
        },
{
    match picked {
        Some(p) => ProjectPathResolution::Resolved(p),
        None => ProjectPathResolution::Cancelled,
    }
}

/// The project to open when one is configured; `None` says to ask a
/// folder picker, whose answer `picked_project_path` resolves.
pub fn resolve_open_project_path(config: &AppProjectConfig) -> (r: Option<ProjectPathResolution>)
    ensures
        match config@.open_path {
            Some(p) => r matches Some(ProjectPathResolution::Resolved(q)) && q@ == p,
            None => r is None,
        },
{
    match &config.open_path {
        Some(p) => Some(ProjectPathResolution::Resolved(p.clone())),
        None => None,
    }
}

/// The root of a new project when one is configured; `None` says to ask a
/// folder picker, whose answer `picked_project_path` resolves.
pub fn resolve_create_project_root(config: &AppProjectConfig) -> (r: Option<ProjectPathResolution>)
    ensures
        match config@.create_root {
            Some(p) => r matches Some(ProjectPathResolution::Resolved(q)) && q@ == p,
            None => r is None,
        },
{
    match &config.create_root {
        Some(p) => Some(ProjectPathResolution::Resolved(p.clone())),
        None => None,
    }
}

impl Default for AppProjectConfig {
    fn default() -> (r: Self)
        ensures
            r@.open_path is None,
            r@.create_root is None,
            r@.create_name is None,
            r@.recent_store_path is None,
            r@.adapter_executable is None,
            r@.adapter_project_path is None,
            !r@.auto_connect_adapter,
    {
        AppProjectConfig {
            open_path: None,
            create_root: None,
            create_name: None,
            recent_store_path: None,
            adapter_executable: None,
            adapter_project_path: None,
            auto_connect_adapter: false,
        }
    }
}

} // verus!
