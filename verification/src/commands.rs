//! The decisions of the command-line commands: what `clean` removes, what
//! `init` writes, how `build` overrides the configuration.
use vstd::prelude::*;
use crate::config::{Config, DockerConfig};
use crate::paths::{join_path, path_join};
use crate::text::{
    char_views, chars_of, contains_str, contains_sub, ends_with, is_prefix, is_suffix, owned,
    split, split_str, starts_with, str_eq,
};

verus! {

broadcast use vstd::string::group_string_axioms;

/// `name` matches `pattern`: a pattern with exactly one `*` matches, as a
/// glob, the names made of the text before it, any text, and the text after
/// it (so the two may not overlap); any other pattern matches only itself.
pub open spec fn pattern_matches(name: Seq<char>, pattern: Seq<char>) -> bool {
    let parts = split(pattern, "*"@);
    if contains_sub(pattern, "*"@) && parts.len() == 2 {
        name.len() >= parts[0].len() + parts[1].len() && is_prefix(parts[0], name) && is_suffix(
            parts[1],
            name,
        )
    } else {
        name == pattern
    }
}

/// A cache entry of the packager's scripts: its name mentions
/// `colcon-deb`, `debian-preparer` or `scanner`.
pub open spec fn is_cache_entry_name(name: Seq<char>) -> bool {
    contains_sub(name, "colcon-deb"@) || contains_sub(name, "debian-preparer"@) || contains_sub(
        name,
        "scanner"@,
    )
}

/// What `clean` removes under an output directory.
pub struct CleanupPlan {
    /// Patterns of the files removed.
    pub file_patterns: Vec<String>,
    /// Patterns of the directories removed.
    pub directory_patterns: Vec<String>,
    /// The repository directory, removed whole.
    pub repository_dir: String,
}

/// Clean command implementation
pub struct CleanCommand {
    config_path: Option<String>,
    clean_all: bool,
}

impl CleanCommand {
    /// The configuration file, if one was given.
    pub closed spec fn config(&self) -> Option<String> {
        self.config_path
    }

    /// Whether Docker artifacts and caches are cleaned too.
    pub closed spec fn all(&self) -> bool {
        self.clean_all
    }

    /// A clean command.
    pub fn new(config_path: Option<String>, clean_all: bool) -> (r: Self)
        ensures
            r.config() == config_path,
            r.all() == clean_all,
    {
        CleanCommand { config_path, clean_all }
    }

    /// The configuration file, if one was given.
    pub fn config_path(&self) -> (r: &Option<String>)
        ensures
            *r == self.config(),
    {
        &self.config_path
    }

    /// Whether Docker artifacts and caches are cleaned too.
    pub fn clean_all(&self) -> (r: bool)
        ensures
            r == self.all(),
    {
        self.clean_all
    }

    /// Simple glob matching with one `*` wildcard.
    pub fn matches_pattern(name: &str, pattern: &str) -> (r: bool)
        ensures
            r == pattern_matches(name@, pattern@),
    {
        let p = chars_of(pattern);
        if contains_str(&p, "*") {
            proof {
                reveal_strlit("*");
            }
            let parts = split_str(&p, "*");
            if parts.len() == 2 {
                let n = chars_of(name);
                assert(char_views(parts@)[0] == parts@[0]@);
                assert(char_views(parts@)[1] == parts@[1]@);
                return n.len() >= parts[0].len() && n.len() - parts[0].len() >= parts[1].len()
                    && starts_with(&n, &parts[0]) && ends_with(&n, &parts[1]);
            }
        }
        str_eq(name, pattern)
    }

    /// Whether a rust-script cache entry belongs to the packager.
    pub fn is_cache_entry(name: &str) -> (r: bool)
        ensures
            r == is_cache_entry_name(name@),
    {
        let n = chars_of(name);
        contains_str(&n, "colcon-deb") || contains_str(&n, "debian-preparer") || contains_str(
            &n,
            "scanner",
        )
    }

    /// The output directory to clean: the configured one when a
    /// configuration was loaded, else `./build` when it exists.
    pub fn output_dir_to_clean(configured: Option<&str>, default_exists: bool) -> (r: Option<String>)
        ensures
            match configured {
                Some(d) => r matches Some(o) && o@ == d@,
                None => if default_exists {
                    r matches Some(o) && o@ == "./build"@
                } else {
                    r is None
                },
            },
    {
        match configured {
            Some(d) => Some(owned(d)),
            None => if default_exists {
                Some(owned("./build"))
            } else {
                None
            },
        }
    }

    /// What is removed under `output_dir`: `*.deb` and `*.log` files,
    /// `debian_*` directories and the `repository` directory.
    pub fn cleanup_plan(output_dir: &str) -> (r: CleanupPlan)
        ensures
            r.file_patterns@.len() == 2,
            r.file_patterns@[0]@ == "*.deb"@,
            r.file_patterns@[1]@ == "*.log"@,
            r.directory_patterns@.len() == 1,
            r.directory_patterns@[0]@ == "debian_*"@,
            r.repository_dir@ == path_join(output_dir@, "repository"@),
    {
        let mut file_patterns: Vec<String> = Vec::new();
        file_patterns.push(owned("*.deb"));
        file_patterns.push(owned("*.log"));
        let mut directory_patterns: Vec<String> = Vec::new();
        directory_patterns.push(owned("debian_*"));
        CleanupPlan {
            file_patterns,
            directory_patterns,
            repository_dir: join_path(output_dir, "repository"),
        }
    }

    /// The rust-script cache directory: `<home>/.cargo/script-cache`, with
    /// `.` for an unknown home.
    pub fn cache_directory(home: Option<&str>) -> (r: String)
        ensures
            r@ == path_join(
                path_join(
                    match home {
                        Some(h) => h@,
                        None => "."@,
                    },
                    ".cargo"@,
                ),
                "script-cache"@,
            ),
    {
        let h = match home {
            Some(h) => h,
            None => ".",
        };
        let c = join_path(h, ".cargo");
        join_path(c.as_str(), "script-cache")
    }
}

/// Init command implementation
pub struct InitCommand {
    output_path: String,
    force: bool,
}

impl InitCommand {
    /// Where the configuration is written.
    pub closed spec fn path(&self) -> Seq<char> {
        self.output_path@
    }

    /// Whether an existing file is overwritten.
    pub closed spec fn forced(&self) -> bool {
        self.force
    }

    /// An init command.
    pub fn new(output_path: String, force: bool) -> (r: Self)
        ensures
            r.path() == output_path@,
            r.forced() == force,
    {
        InitCommand { output_path, force }
    }

    /// Where the configuration is written.
    pub fn output_path(&self) -> (r: &str)
        ensures
            r@ == self.path(),
    {
        self.output_path.as_str()
    }

    /// Refuses to overwrite an existing file unless forced.
    pub fn check_overwrite(&self, exists: bool) -> (r: Result<(), String>)
        ensures
            exists && !self.forced() ==> (r matches Err(m) && m@ == "Configuration file already exists: "@
                + self.path() + ". Use --force to overwrite."@),
            !(exists && !self.forced()) ==> r is Ok,
    {
        if exists && !self.force {
            let mut m = owned("Configuration file already exists: ");
            m.append(self.output_path.as_str());
            m.append(". Use --force to overwrite.");
            return Err(m);
        }
        Ok(())
    }

    /// The default configuration for a workspace at `current_dir`.
    pub fn create_default_config(current_dir: &str) -> (r: Config)
        ensures
            r.colcon_repo@ == current_dir@,
            r.debian_dirs@ == path_join(current_dir@, "debian_dirs"@),
            r.docker matches DockerConfig::Image { image } && image@ == "ros:loong-ros-base"@,
            r.ros_distro matches Some(d) && d@ == "loong"@,
            r.output_dir@ == path_join(current_dir@, "output"@),
            r.parallel_jobs == 4,
    {
        Config {
            colcon_repo: owned(current_dir),
            debian_dirs: join_path(current_dir, "debian_dirs"),
            docker: DockerConfig::Image { image: owned("ros:loong-ros-base") },
            ros_distro: Some(owned("loong")),
            output_dir: join_path(current_dir, "output"),
            parallel_jobs: 4,
        }
    }
}

/// Validate command implementation
pub struct ValidateCommand {
    config_path: String,
}

impl ValidateCommand {
    /// The configuration file checked.
    pub closed spec fn path(&self) -> Seq<char> {
        self.config_path@
    }

    /// A validate command.
    pub fn new(config_path: String) -> (r: Self)
        ensures
            r.path() == config_path@,
    {
        ValidateCommand { config_path }
    }

    /// The configuration file checked.
    pub fn config_path(&self) -> (r: &str)
        ensures
            r@ == self.path(),
    {
        self.config_path.as_str()
    }
}

/// Build command implementation
pub struct BuildCommand {
    config_path: String,
    output_dir: Option<String>,
    parallel_jobs: Option<usize>,
    agiros_distro: Option<String>,
}

impl BuildCommand {
    /// The configuration file.
    pub closed spec fn path(&self) -> Seq<char> {
        self.config_path@
    }

    /// The output directory given on the command line.
    pub closed spec fn output(&self) -> Option<String> {
        self.output_dir
    }

    /// The job count given on the command line.
    pub closed spec fn jobs(&self) -> Option<usize> {
        self.parallel_jobs
    }

    /// The distribution given on the command line.
    pub closed spec fn distro(&self) -> Option<String> {
        self.agiros_distro
    }

    /// A build command.
    pub fn new(config_path: String, output_dir: Option<String>, parallel_jobs: Option<usize>, agiros_distro: Option<String>) -> (r: Self)
        ensures
            r.path() == config_path@,
            r.output() == output_dir,
            r.jobs() == parallel_jobs,
            r.distro() == agiros_distro,
    {
        BuildCommand { config_path, output_dir, parallel_jobs, agiros_distro }
    }

    /// The configuration file.
    pub fn config_path(&self) -> (r: &str)
        ensures
            r@ == self.path(),
    {
        self.config_path.as_str()
    }

    /// The loaded configuration with the command-line options in force:
    /// each option given replaces the configured value.
    pub fn apply_overrides(&self, config: Config) -> (r: Config)
        ensures
            r.output_dir == match self.output() {
                Some(o) => o,
                None => config.output_dir,
            },
            r.parallel_jobs == match self.jobs() {
                Some(j) => j,
                None => config.parallel_jobs,
            },
            r.ros_distro == match self.distro() {
                Some(d) => Some(d),
                None => config.ros_distro,
            },
            r.colcon_repo == config.colcon_repo,
            r.debian_dirs == config.debian_dirs,
            r.docker == config.docker,
    {
        let mut config = config;
        match &self.output_dir {
            Some(o) => {
                config.output_dir = o.clone();
            },
            None => {},
        }
        match self.parallel_jobs {
            Some(j) => {
                config.parallel_jobs = j;
            },
            None => {},
        }
        match &self.agiros_distro {
            Some(d) => {
                config.ros_distro = Some(d.clone());
            },
            None => {},
        }
        config
    }
}


/// The pattern `*` matches every name.
pub proof fn law_star_matches_everything(name: Seq<char>)
    ensures
        pattern_matches(name, "*"@),
{
    reveal_strlit("*");
    let e = Seq::<char>::empty();
    let star = "*"@;
    assert(e + star + e =~= star);
    assert forall|k: int| 0 <= k < e.len() implies !crate::text::occurs_at(e + star + e, star, k) by {}
    assert forall|k: int| e.len() + star.len() <= k implies !crate::text::occurs_at(e + star + e, star, k) by {}
    crate::text::lemma_split_two(e, star, e);
    assert(crate::text::occurs_at(star, star, 0)) by {
        assert(star.subrange(0, 1) =~= star);
    }
    assert(is_prefix(e, name)) by {
        assert(name.subrange(0, 0) =~= e);
    }
    assert(is_suffix(e, name)) by {
        assert(name.subrange(name.len() as int, name.len() as int) =~= e);
    }
}

/// A pattern without `*` matches only itself.
pub proof fn law_plain_pattern_exact(name: Seq<char>, pattern: Seq<char>)
    requires
        !contains_sub(pattern, "*"@),
    ensures
        pattern_matches(name, pattern) == (name == pattern),
{
}
} // verus!
