//! The environment configurator: accumulates environment-variable overrides
//! and a working directory for the child process that will run the queued
//! `npm` sub-commands.
//!
//! [`NpmEnv`] is a single-use linear builder: each method consumes it and
//! returns the updated configurator, and [`NpmEnv::init_env`] finally freezes
//! the configuration into an [`crate::Npm`] command builder.
//!
//! The configured environment is modelled as an ordered sequence of
//! `(key, value)` writes together with a `cleared` flag. The mapping the
//! child process finally sees is [`env_map_of`] over those writes: later
//! writes overwrite earlier ones for the same key.

use vstd::prelude::*;

use crate::npm::Npm;

verus! {

/// The abstract state of an environment configurator: the shell interpreter
/// and its inline-execution flag, the working directory override (`None`
/// means the caller's current directory), the recorded environment-variable
/// writes in order, and whether the inherited environment was discarded.
#[verifier::ext_equal]
pub ghost struct EnvModel {
    pub shell: Seq<char>,
    pub flag: Seq<char>,
    pub cwd: Option<Seq<char>>,
    pub entries: Seq<(Seq<char>, Seq<char>)>,
    pub cleared: bool,
}

impl EnvModel {
    /// The state of a freshly created configurator: no working-directory
    /// override, no environment writes, inherited environment kept.
    pub open spec fn init(shell: Seq<char>, flag: Seq<char>) -> EnvModel {
        EnvModel { shell, flag, cwd: None, entries: Seq::empty(), cleared: false }
    }
}

/// The environment-variable mapping produced by a sequence of writes:
/// each write inserts its value under its key, so a later write for the
/// same key overwrites an earlier one.
pub open spec fn env_map_of(entries: Seq<(Seq<char>, Seq<char>)>) -> Map<Seq<char>, Seq<char>>
    decreases entries.len(),
{
    if entries.len() == 0 {
        Map::empty()
    } else {
        env_map_of(entries.drop_last()).insert(entries.last().0, entries.last().1)
    }
}

/// The writes of `entries` whose key differs from `key`, in order.
pub open spec fn remove_key(entries: Seq<(Seq<char>, Seq<char>)>, key: Seq<char>) -> Seq<
    (Seq<char>, Seq<char>),
>
    decreases entries.len(),
{
    if entries.len() == 0 {
        Seq::empty()
    } else if entries.last().0 == key {
        remove_key(entries.drop_last(), key)
    } else {
        remove_key(entries.drop_last(), key).push(entries.last())
    }
}

/// Dropping every write for `key` removes exactly `key` from the configured
/// mapping and changes nothing else.
pub proof fn lemma_remove_key_map(entries: Seq<(Seq<char>, Seq<char>)>, key: Seq<char>)
    ensures
        env_map_of(remove_key(entries, key)) == env_map_of(entries).remove(key),
    decreases entries.len(),
{
    if entries.len() == 0 {
        assert(env_map_of(remove_key(entries, key)) =~= env_map_of(entries).remove(key));
    } else {
        let front = entries.drop_last();
        let last = entries.last();
        lemma_remove_key_map(front, key);
        if last.0 == key {
            assert(env_map_of(front).remove(key) =~= env_map_of(front).insert(
                last.0,
                last.1,
            ).remove(key));
        } else {
            let kept = remove_key(front, key).push(last);
            assert(kept.drop_last() =~= remove_key(front, key));
            assert(kept.last() == last);
            assert(env_map_of(front).remove(key).insert(last.0, last.1) =~= env_map_of(
                front,
            ).insert(last.0, last.1).remove(key));
        }
    }
}

/// Setting an environment variable and then removing it by key leaves the
/// mapping for that key absent from the final configured environment,
/// whatever was configured before.
pub proof fn lemma_set_then_remove_absent(
    entries: Seq<(Seq<char>, Seq<char>)>,
    key: Seq<char>,
    val: Seq<char>,
)
    ensures
        !env_map_of(remove_key(entries.push((key, val)), key)).contains_key(key),
{
    lemma_remove_key_map(entries.push((key, val)), key);
}

/// Clearing the environment and then adding one variable leaves exactly that
/// variable in the configured environment: nothing is inherited, and no
/// other key is present.
pub proof fn lemma_clear_then_set_single(key: Seq<char>, val: Seq<char>)
    ensures
        env_map_of(Seq::empty().push((key, val))).dom() =~= set![key],
        env_map_of(Seq::empty().push((key, val)))[key] == val,
{
    let entries = Seq::<(Seq<char>, Seq<char>)>::empty().push((key, val));
    assert(entries.last() == (key, val));
    assert(entries.drop_last() =~= Seq::<(Seq<char>, Seq<char>)>::empty());
    assert(env_map_of(Seq::<(Seq<char>, Seq<char>)>::empty()) == Map::<Seq<char>, Seq<char>>::empty());
    assert(env_map_of(entries) =~= Map::<Seq<char>, Seq<char>>::empty().insert(key, val));
    assert(env_map_of(entries).dom() =~= set![key]);
}

/// The desired value of the `NODE_ENV` environment variable.
pub enum NodeEnv {
    Development,
    Production,
    Custom(String),
}

impl NodeEnv {
    /// The string value this choice assigns to `NODE_ENV`.
    pub open spec fn value_spec(&self) -> Seq<char> {
        match self {
            NodeEnv::Development => "development"@,
            NodeEnv::Production => "production"@,
            NodeEnv::Custom(c) => c@,
        }
    }

    /// Classifies a Cargo `PROFILE` value: `debug` maps to development,
    /// `release` to production, and any other profile is kept verbatim.
    pub fn from_cargo_profile(profile: &str) -> (r: Self)
        ensures
            profile@ == "debug"@ ==> r == NodeEnv::Development,
            profile@ == "release"@ ==> r == NodeEnv::Production,
            profile@ != "debug"@ && profile@ != "release"@ ==> (r matches NodeEnv::Custom(c)
                && c@ == profile@),
    {
        proof {
            reveal_strlit("debug");
            reveal_strlit("release");
            assert("debug"@.len() == 5);
            assert("release"@.len() == 7);
        }
        let p = profile.to_owned();
        if p == "debug".to_owned() {
            NodeEnv::Development
        } else if p == "release".to_owned() {
            NodeEnv::Production
        } else {
            NodeEnv::Custom(p)
        }
    }
}

impl Default for NodeEnv {
    /// The default `NODE_ENV` choice is development.
    fn default() -> (r: Self)
        ensures
            r == NodeEnv::Development,
    {
        NodeEnv::Development
    }
}

/// Configures the environment in which `npm` will execute commands: the
/// shell interpreter, a working directory, and environment-variable
/// overrides on top of the caller's inherited process environment.
///
/// After configuration, [`NpmEnv::init_env`] transfers the frozen state into
/// an [`Npm`] command builder; no further environment mutation is possible
/// through the builder.
pub struct NpmEnv {
    pub(crate) shell: String,
    pub(crate) flag: String,
    pub(crate) cwd: Option<String>,
    pub(crate) vars: Vec<(String, String)>,
    pub(crate) cleared: bool,
}

impl View for NpmEnv {
    type V = EnvModel;

    closed spec fn view(&self) -> EnvModel {
        EnvModel {
            shell: self.shell@,
            flag: self.flag@,
            cwd: self.cwd.deep_view(),
            entries: self.vars.deep_view(),
            cleared: self.cleared,
        }
    }
}

impl NpmEnv {
    /// How the abstract state reads off the concrete fields; lets the
    /// command builder relate the frozen configuration to its own model.
    pub(crate) proof fn fields_view(&self)
        ensures
            self@ == (EnvModel {
                shell: self.shell@,
                flag: self.flag@,
                cwd: self.cwd.deep_view(),
                entries: self.vars.deep_view(),
                cleared: self.cleared,
            }),
    {
    }

    /// Creates a configurator for the given shell interpreter and its
    /// inline-execution flag, with no overrides recorded yet.
    pub fn new(shell: &str, flag: &str) -> (r: Self)
        ensures
            r@ == EnvModel::init(shell@, flag@),
    {
        let r = NpmEnv {
            shell: shell.to_owned(),
            flag: flag.to_owned(),
            cwd: None,
            vars: Vec::new(),
            cleared: false,
        };
        proof {
            assert(r@.entries =~= Seq::<(Seq<char>, Seq<char>)>::empty());
            assert(r@ =~= EnvModel::init(shell@, flag@));
        }
        r
    }

    /// Inserts or updates the `NODE_ENV` environment variable.
    pub fn with_node_env(self, node_env: &NodeEnv) -> (r: Self)
        ensures
            r@ == (EnvModel {
                entries: self@.entries.push(("NODE_ENV"@, node_env.value_spec())),
                ..self@
            }),
    {
        match node_env {
            NodeEnv::Development => self.with_env("NODE_ENV", "development"),
            NodeEnv::Production => self.with_env("NODE_ENV", "production"),
            NodeEnv::Custom(c) => self.with_env("NODE_ENV", c.as_str()),
        }
    }

    /// Inserts or updates one environment-variable mapping.
    pub fn with_env(self, key: &str, val: &str) -> (r: Self)
        ensures
            r@ == (EnvModel { entries: self@.entries.push((key@, val@)), ..self@ }),
    {
        let mut this = self;
        let ghost before = this@;
        this.vars.push((key.to_owned(), val.to_owned()));
        proof {
            assert(this@.entries =~= before.entries.push((key@, val@)));
            assert(this@ =~= (EnvModel { entries: before.entries.push((key@, val@)), ..before }));
        }
        this
    }

    /// Inserts or updates multiple environment-variable mappings, in order;
    /// a later pair for the same key overwrites an earlier one.
    pub fn with_envs(self, vars: Vec<(String, String)>) -> (r: Self)
        ensures
            r@ == (EnvModel { entries: self@.entries + vars.deep_view(), ..self@ }),
    {
        let mut this = self;
        let ghost before = this@;
        let mut i: usize = 0;
        while i < vars.len()
            invariant
                i <= vars.len(),
                this@ == (EnvModel {
                    entries: before.entries + vars.deep_view().take(i as int),
                    ..before
                }),
            decreases vars.len() - i,
        {
            let entry = &vars[i];
            let ghost mid = this@;
            this.vars.push((entry.0.clone(), entry.1.clone()));
            proof {
                assert(this@.entries =~= mid.entries.push(vars.deep_view()[i as int]));
                assert(before.entries + vars.deep_view().take(i as int + 1) =~= (before.entries
                    + vars.deep_view().take(i as int)).push(vars.deep_view()[i as int]));
                assert(this@ =~= (EnvModel {
                    entries: before.entries + vars.deep_view().take(i as int + 1),
                    ..before
                }));
            }
            i = i + 1;
        }
        proof {
            assert(vars.deep_view().take(vars.len() as int) =~= vars.deep_view());
            assert(this@ =~= (EnvModel { entries: before.entries + vars.deep_view(), ..before }));
        }
        this
    }

    /// Discards the inherited environment and every previously recorded
    /// write: from this point the child process receives no environment
    /// variables unless some are added afterwards.
    pub fn clear_envs(self) -> (r: Self)
        ensures
            r@ == (EnvModel {
                entries: Seq::<(Seq<char>, Seq<char>)>::empty(),
                cleared: true,
                ..self@
            }),
    {
        let mut this = self;
        let ghost before = this@;
        this.vars = Vec::new();
        this.cleared = true;
        proof {
            assert(this@.entries =~= Seq::<(Seq<char>, Seq<char>)>::empty());
            assert(this@ =~= (EnvModel {
                entries: Seq::<(Seq<char>, Seq<char>)>::empty(),
                cleared: true,
                ..before
            }));
        }
        this
    }

    /// Removes every recorded write for one environment variable; a no-op if
    /// the key is absent.
    pub fn remove_env(self, key: &str) -> (r: Self)
        ensures
            r@ == (EnvModel { entries: remove_key(self@.entries, key@), ..self@ }),
    {
        let mut this = self;
        let ghost before = this@;
        let k = key.to_owned();
        let mut kept: Vec<(String, String)> = Vec::new();
        let ghost all = this.vars.deep_view();
        proof {
            assert(kept.deep_view() =~= remove_key(all.take(0), key@));
        }
        let mut i: usize = 0;
        while i < this.vars.len()
            invariant
                i <= this.vars.len(),
                all == this.vars.deep_view(),
                k@ == key@,
                kept.deep_view() == remove_key(all.take(i as int), key@),
            decreases this.vars.len() - i,
        {
            let entry = &this.vars[i];
            let ghost kept_before = kept.deep_view();
            proof {
                assert(all[i as int] == (entry.0@, entry.1@));
                assert(all.take(i as int + 1).drop_last() =~= all.take(i as int));
                assert(all.take(i as int + 1).last() == all[i as int]);
            }
            if !(entry.0 == k) {
                kept.push((entry.0.clone(), entry.1.clone()));
                proof {
                    assert(kept.deep_view() =~= kept_before.push(all[i as int]));
                }
            }
            i = i + 1;
        }
        proof {
            assert(all.take(this.vars.len() as int) =~= all);
        }
        this.vars = kept;
        proof {
            assert(this@ =~= (EnvModel { entries: remove_key(before.entries, key@), ..before }));
        }
        this
    }

    /// Overrides the working directory for the child process. The path is
    /// not validated here: a bad path surfaces only when the child is
    /// spawned.
    pub fn set_path(self, path: &str) -> (r: Self)
        ensures
            r@ == (EnvModel { cwd: Some(path@), ..self@ }),
    {
        let mut this = self;
        let ghost before = this@;
        this.cwd = Some(path.to_owned());
        proof {
            assert(this@ =~= (EnvModel { cwd: Some(path@), ..before }));
        }
        this
    }

    /// Freezes this configuration and hands it to a new [`Npm`] command
    /// builder with an empty sub-command sequence. The configurator is
    /// consumed: no further environment mutation is possible.
    pub fn init_env(self) -> (r: Npm)
        ensures
            r@.env == self@,
            r@.fragments == Seq::<Seq<char>>::empty(),
    {
        Npm::from_env(self)
    }
}

impl Clone for NpmEnv {
    /// An independent configurator with the same configuration.
    fn clone(&self) -> (r: Self)
        ensures
            r@ == self@,
    {
        let cwd = match &self.cwd {
            Some(p) => Some(p.clone()),
            None => None,
        };
        let mut vars: Vec<(String, String)> = Vec::new();
        let mut i: usize = 0;
        while i < self.vars.len()
            invariant
                i <= self.vars.len(),
                vars.deep_view() == self.vars.deep_view().take(i as int),
            decreases self.vars.len() - i,
        {
            let entry = &self.vars[i];
            let ghost prev = vars.deep_view();
            vars.push((entry.0.clone(), entry.1.clone()));
            proof {
                assert(self.vars.deep_view()[i as int] == (entry.0@, entry.1@));
                assert(vars.deep_view() =~= prev.push((entry.0@, entry.1@)));
                assert(self.vars.deep_view().take(i as int + 1) =~= self.vars.deep_view().take(
                    i as int,
                ).push((entry.0@, entry.1@)));
            }
            i = i + 1;
        }
        let r = NpmEnv {
            shell: self.shell.clone(),
            flag: self.flag.clone(),
            cwd,
            vars,
            cleared: self.cleared,
        };
        proof {
            assert(self.vars.deep_view().take(self.vars.len() as int) =~= self.vars.deep_view());
            assert(r@ =~= self@);
        }
        r
    }
}

impl Default for NpmEnv {
    /// A configurator for the default shell invocation (`bash -c`), with the
    /// child running in the caller's current directory.
    fn default() -> (r: Self)
        ensures
            r@ == EnvModel::init("bash"@, "-c"@),
    {
        NpmEnv::new("bash", "-c")
    }
}

} // verus!
