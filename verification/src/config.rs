//! The effective serving configuration and the rules that build it.
//!
//! A `Config` is assembled in two phases: an optional persisted base (or the
//! hardcoded defaults), then command-line overrides applied field by field.
//! An override always wins when present; list-valued overrides replace the
//! base list wholesale. The result is only served once `root_dir` and
//! `listen` are known from at least one source.

use vstd::prelude::*;
use vstd::seq_lib::*;

verus! {

/// The effective serving configuration. The access-control policy that
/// interprets the lists is owned by the file-serving engine; this layer only
/// builds and transports the struct. The four name and extension lists stand
/// for sets: their order and multiplicity carry no meaning, and the views
/// below say so.
pub struct Config {
    /// Path of the directory to serve. Required from file or command line.
    pub root_dir: String,
    /// Address to bind. Required from file or command line.
    pub listen: String,
    /// When true, the allow/deny filtering is bypassed.
    pub allow_all: bool,
    /// Exact file names that may be served.
    pub allowed_file_names: Vec<String>,
    /// File extensions that may be served.
    pub allowed_extensions: Vec<String>,
    /// Exact file names that must never be served.
    pub blocked_file_names: Vec<String>,
    /// File extensions rendered as Markdown.
    pub markdown: Vec<String>,
}

/// The mathematical value of a `Config`: the two required strings, the
/// bypass flag, and the four lists read as sets.
pub struct ConfigView {
    pub root_dir: Seq<char>,
    pub listen: Seq<char>,
    pub allow_all: bool,
    pub allowed_file_names: Set<Seq<char>>,
    pub allowed_extensions: Set<Seq<char>>,
    pub blocked_file_names: Set<Seq<char>>,
    pub markdown: Set<Seq<char>>,
}

/// The set of names a list of strings stands for.
pub open spec fn name_set(names: Seq<String>) -> Set<Seq<char>> {
    names.map_values(|s: String| s@).to_set()
}

impl View for Config {
    type V = ConfigView;

    open spec fn view(&self) -> ConfigView {
        ConfigView {
            root_dir: self.root_dir@,
            listen: self.listen@,
            allow_all: self.allow_all,
            allowed_file_names: name_set(self.allowed_file_names@),
            allowed_extensions: name_set(self.allowed_extensions@),
            blocked_file_names: name_set(self.blocked_file_names@),
            markdown: name_set(self.markdown@),
        }
    }
}

/// The command-line overrides for a `Config`: one optional value per field.
/// A `None` means the flag was not given and the base value is kept.
pub struct Overrides {
    pub root_dir: Option<String>,
    pub listen: Option<String>,
    /// The flag is either given or not; giving it can only switch the
    /// bypass on, never off.
    pub allow_all: bool,
    pub allowed_file_names: Option<Vec<String>>,
    pub allowed_extensions: Option<Vec<String>>,
    pub blocked_file_names: Option<Vec<String>>,
    pub markdown: Option<Vec<String>>,
}

/// The mathematical value of an `Overrides`.
pub struct OverridesView {
    pub root_dir: Option<Seq<char>>,
    pub listen: Option<Seq<char>>,
    pub allow_all: bool,
    pub allowed_file_names: Option<Set<Seq<char>>>,
    pub allowed_extensions: Option<Set<Seq<char>>>,
    pub blocked_file_names: Option<Set<Seq<char>>>,
    pub markdown: Option<Set<Seq<char>>>,
}

/// The set an optional list of strings stands for, when it is given.
pub open spec fn opt_name_set(names: Option<Vec<String>>) -> Option<Set<Seq<char>>> {
    match names {
        Some(v) => Some(name_set(v@)),
        None => None,
    }
}

impl View for Overrides {
    type V = OverridesView;

    open spec fn view(&self) -> OverridesView {
        OverridesView {
            root_dir: self.root_dir.deep_view(),
            listen: self.listen.deep_view(),
            allow_all: self.allow_all,
            allowed_file_names: opt_name_set(self.allowed_file_names),
            allowed_extensions: opt_name_set(self.allowed_extensions),
            blocked_file_names: opt_name_set(self.blocked_file_names),
            markdown: opt_name_set(self.markdown),
        }
    }
}

/// The hardcoded default configuration: the required fields absent, nothing
/// bypassed, no names allowed or blocked beyond the engine's own policy, and
/// the `md` extension rendered as Markdown.
pub open spec fn spec_default_config() -> ConfigView {
    ConfigView {
        root_dir: Seq::empty(),
        listen: Seq::empty(),
        allow_all: false,
        allowed_file_names: Set::empty(),
        allowed_extensions: Set::empty(),
        blocked_file_names: Set::empty(),
        markdown: Set::empty().insert("md"@),
    }
}

/// Field-by-field merge: a present override replaces the base value
/// unconditionally, list values wholesale; `allow_all` can only be switched
/// on by the command line, never off.
pub open spec fn spec_merge(base: ConfigView, o: OverridesView) -> ConfigView {
    ConfigView {
        root_dir: if o.root_dir is Some {
            o.root_dir->Some_0
        } else {
            base.root_dir
        },
        listen: if o.listen is Some {
            o.listen->Some_0
        } else {
            base.listen
        },
        allow_all: base.allow_all || o.allow_all,
        allowed_file_names: if o.allowed_file_names is Some {
            o.allowed_file_names->Some_0
        } else {
            base.allowed_file_names
        },
        allowed_extensions: if o.allowed_extensions is Some {
            o.allowed_extensions->Some_0
        } else {
            base.allowed_extensions
        },
        blocked_file_names: if o.blocked_file_names is Some {
            o.blocked_file_names->Some_0
        } else {
            base.blocked_file_names
        },
        markdown: if o.markdown is Some {
            o.markdown->Some_0
        } else {
            base.markdown
        },
    }
}

/// A configuration may be served only when both required fields are present;
/// an empty string stands for an absent value.
pub open spec fn config_complete(c: ConfigView) -> bool {
    c.root_dir.len() > 0 && c.listen.len() > 0
}

/// Why a merged configuration cannot be served.
#[derive(Clone, Copy, PartialEq, Eq, Structural, Debug)]
pub enum ConfigError {
    /// `root_dir` came from neither the file nor the command line.
    MissingRootDir,
    /// `listen` came from neither the file nor the command line.
    MissingListen,
}

impl Default for Config {
    /// The starting point when no config file is given.
    fn default() -> (c: Config)
        ensures
            c@ == spec_default_config(),
    {
        let mut markdown: Vec<String> = Vec::new();
        markdown.push("md".to_owned());
        let c = Config {
            root_dir: String::new(),
            listen: String::new(),
            allow_all: false,
            allowed_file_names: Vec::new(),
            allowed_extensions: Vec::new(),
            blocked_file_names: Vec::new(),
            markdown,
        };
        proof {
            assert(c@.allowed_file_names =~= Set::<Seq<char>>::empty());
            assert(c@.allowed_extensions =~= Set::<Seq<char>>::empty());
            assert(c@.blocked_file_names =~= Set::<Seq<char>>::empty());
            let names = c.markdown@.map_values(|s: String| s@);
            assert(names =~= seq!["md"@]);
            assert(names[0] == "md"@);
            assert(c@.markdown =~= spec_default_config().markdown);
        }
        c
    }
}

impl Config {
    /// Apply command-line overrides to a base configuration: any value the
    /// command line supplies replaces the base value; list-valued flags
    /// replace the whole list; `allow_all` is switched on when the flag is
    /// given.
    pub fn merge(self, o: Overrides) -> (c: Config)
        ensures
            c@ == spec_merge(self@, o@),
    {
        let mut c = self;
        if let Some(v) = o.root_dir {
            c.root_dir = v;
        }
        if let Some(v) = o.listen {
            c.listen = v;
        }
        if o.allow_all {
            c.allow_all = true;
        }
        if let Some(v) = o.allowed_file_names {
            c.allowed_file_names = v;
        }
        if let Some(v) = o.allowed_extensions {
            c.allowed_extensions = v;
        }
        if let Some(v) = o.blocked_file_names {
            c.blocked_file_names = v;
        }
        if let Some(v) = o.markdown {
            c.markdown = v;
        }
        c
    }

    /// Gate between configuration and serving: succeeds exactly when both
    /// required fields are present, and says which one is missing otherwise
    /// (`root_dir` is reported first).
    pub fn validated(self) -> (r: Result<Config, ConfigError>)
        ensures
            r is Ok <==> config_complete(self@),
            r is Ok ==> r->Ok_0@ == self@,
            !config_complete(self@) && self@.root_dir.len() == 0 ==> r == Result::<
                Config,
                ConfigError,
            >::Err(ConfigError::MissingRootDir),
            !config_complete(self@) && self@.root_dir.len() > 0 ==> r == Result::<
                Config,
                ConfigError,
            >::Err(ConfigError::MissingListen),
    {
        if self.root_dir.as_str().is_empty() {
            Err(ConfigError::MissingRootDir)
        } else if self.listen.as_str().is_empty() {
            Err(ConfigError::MissingListen)
        } else {
            Ok(self)
        }
    }
}

/// Law: when the command line supplies `root_dir`, the merged configuration
/// carries the command-line value, whatever the base said.
pub proof fn lemma_cli_override_wins(base: ConfigView, o: OverridesView)
    requires
        o.root_dir is Some,
    ensures
        spec_merge(base, o).root_dir == o.root_dir->Some_0,
{
}

/// Law: when the command line is silent on `root_dir`, the merged
/// configuration keeps the base value.
pub proof fn lemma_base_value_kept(base: ConfigView, o: OverridesView)
    requires
        o.root_dir is None,
    ensures
        spec_merge(base, o).root_dir == base.root_dir,
{
}

/// Law: starting from the defaults, overrides that name neither `root_dir`
/// nor `listen` merge into a configuration that fails validation, so startup
/// stops before any socket is bound.
pub proof fn lemma_unconfigured_rejected(o: OverridesView)
    requires
        o.root_dir is None,
        o.listen is None,
    ensures
        !config_complete(spec_merge(spec_default_config(), o)),
{
}

} // verus!
