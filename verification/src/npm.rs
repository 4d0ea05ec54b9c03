//! The command builder: queues `npm` sub-commands against a frozen
//! environment configuration and finally assembles them into one shell
//! invocation.
//!
//! [`Npm`] is a single-use linear builder: each append method consumes it
//! and returns the updated builder, and [`Npm::exec`] finally joins the
//! queued fragments with `" && "` into the [`Invocation`] to hand to the
//! shell, so that a later sub-command runs only if every earlier one
//! succeeded.

use vstd::prelude::*;

use crate::env::EnvModel;
use crate::env::NpmEnv;
use crate::fragment::join_with;
use crate::fragment::npm_fragment;
use crate::fragment::opt_args;
use crate::fragment::lemma_join_with_push;

verus! {

/// The abstract state of a command builder: the frozen environment
/// configuration and the queued sub-command fragments in call order.
#[verifier::ext_equal]
pub ghost struct NpmModel {
    pub env: EnvModel,
    pub fragments: Seq<Seq<char>>,
}

/// Executes `npm` sub-commands in a previously configured environment.
///
/// Built from an [`NpmEnv`] via [`NpmEnv::init_env`] (or [`Npm::default`]
/// for the default environment). Queue sub-commands with the append
/// methods, then assemble the single shell invocation with [`Npm::exec`].
pub struct Npm {
    pub(crate) cmd: NpmEnv,
    pub(crate) args: Vec<String>,
}

impl View for Npm {
    type V = NpmModel;

    closed spec fn view(&self) -> NpmModel {
        NpmModel { env: self.cmd@, fragments: self.args.deep_view() }
    }
}

/// Everything the shell needs to run the queued sub-commands: the program
/// to spawn, its inline-execution flag, the joined command string, the
/// working directory, and the environment-variable configuration.
///
/// The process-spawning boundary itself lies outside this library: a caller
/// spawns `program` with the two arguments `flag` and `command`, in
/// `working_dir` (or its own current directory when that is `None`), with
/// the inherited environment first discarded when `env_cleared` holds and
/// the pairs of `env_vars` then applied in order.
pub struct Invocation {
    pub program: String,
    pub flag: String,
    pub command: String,
    pub working_dir: Option<String>,
    pub env_cleared: bool,
    pub env_vars: Vec<(String, String)>,
}

impl Npm {
    /// Wraps a frozen environment configuration with an empty sub-command
    /// sequence.
    pub(crate) fn from_env(env: NpmEnv) -> (r: Self)
        ensures
            r@.env == env@,
            r@.fragments == Seq::<Seq<char>>::empty(),
    {
        let r = Npm { cmd: env, args: Vec::new() };
        proof {
            assert(r@.fragments =~= Seq::<Seq<char>>::empty());
        }
        r
    }

    /// Queues the fragment `npm <npm_cmd> <chain...>`.
    fn npm_append(&mut self, npm_cmd: &str, chain: &[&str])
        ensures
            final(self)@ == (NpmModel {
                fragments: old(self)@.fragments.push(npm_fragment(npm_cmd@, chain.deep_view())),
                ..old(self)@
            }),
    {
        let ghost parts = seq!["npm"@, npm_cmd@] + chain.deep_view();
        let mut s = String::new();
        s.append("npm");
        s.append(" ");
        s.append(npm_cmd);
        proof {
            let head = parts.take(2);
            assert(head =~= seq!["npm"@, npm_cmd@]);
            assert(head.drop_last() =~= seq!["npm"@]);
            assert(head.last() == npm_cmd@);
            assert(join_with(seq!["npm"@], " "@) == "npm"@);
            assert(s@ =~= join_with(head, " "@));
        }
        let mut i: usize = 0;
        while i < chain.len()
            invariant
                i <= chain.len(),
                parts == seq!["npm"@, npm_cmd@] + chain.deep_view(),
                parts.len() == 2 + chain.deep_view().len(),
                s@ == join_with(parts.take(2 + i as int), " "@),
            decreases chain.len() - i,
        {
            s.append(" ");
            s.append(chain[i]);
            proof {
                let prefix = parts.take(2 + i as int);
                assert(parts.take(2 + i as int + 1) =~= prefix.push(chain.deep_view()[i as int]));
                lemma_join_with_push(prefix, " "@, chain.deep_view()[i as int]);
                assert(s@ =~= join_with(parts.take(2 + i as int + 1), " "@));
            }
            i = i + 1;
        }
        let ghost before = old(self)@;
        let ghost frag = s@;
        self.args.push(s);
        proof {
            assert(parts.take(2 + chain.len() as int) =~= parts);
            assert(frag == npm_fragment(npm_cmd@, chain.deep_view()));
            assert(self@.fragments =~= before.fragments.push(frag));
            assert(self@ =~= (NpmModel { fragments: before.fragments.push(frag), ..before }));
        }
    }

    /// Queues `npm init -y`: initializes a package, creating a default
    /// `package.json`.
    pub fn init(self) -> (r: Self)
        ensures
            r@ == (NpmModel {
                fragments: self@.fragments.push(npm_fragment("init"@, seq!["-y"@])),
                ..self@
            }),
    {
        let mut this = self;
        let mut chain: Vec<&str> = Vec::new();
        chain.push("-y");
        proof {
            assert(chain.deep_view() =~= seq!["-y"@]);
        }
        this.npm_append("init", chain.as_slice());
        this
    }

    /// Queues an install: with no argument list (or an empty one) it
    /// installs every dependency listed in the manifest, otherwise exactly
    /// the named packages.
    pub fn install(self, args: Option<&[&str]>) -> (r: Self)
        ensures
            r@ == (NpmModel {
                fragments: self@.fragments.push(npm_fragment("install"@, opt_args(args))),
                ..self@
            }),
    {
        let mut this = self;
        let empty: Vec<&str> = Vec::new();
        let chain: &[&str] = match args {
            Some(a) => a,
            None => empty.as_slice(),
        };
        proof {
            assert(empty.deep_view() =~= Seq::<Seq<char>>::empty());
            assert(chain.deep_view() == opt_args(args));
        }
        this.npm_append("install", chain);
        this
    }

    /// Queues an uninstall of exactly the named packages.
    pub fn uninstall(self, pkg: &[&str]) -> (r: Self)
        ensures
            r@ == (NpmModel {
                fragments: self@.fragments.push(npm_fragment("uninstall"@, pkg.deep_view())),
                ..self@
            }),
    {
        let mut this = self;
        this.npm_append("uninstall", pkg);
        this
    }

    /// Queues an update: with no argument list (or an empty one) it updates
    /// every local dependency, otherwise exactly the named packages.
    pub fn update(self, pkg: Option<&[&str]>) -> (r: Self)
        ensures
            r@ == (NpmModel {
                fragments: self@.fragments.push(npm_fragment("update"@, opt_args(pkg))),
                ..self@
            }),
    {
        let mut this = self;
        let empty: Vec<&str> = Vec::new();
        let chain: &[&str] = match pkg {
            Some(a) => a,
            None => empty.as_slice(),
        };
        proof {
            assert(empty.deep_view() =~= Seq::<Seq<char>>::empty());
            assert(chain.deep_view() == opt_args(pkg));
        }
        this.npm_append("update", chain);
        this
    }

    /// Queues `npm run <command>`: runs the named script from the
    /// manifest's `scripts` object.
    pub fn run(self, command: &str) -> (r: Self)
        ensures
            r@ == (NpmModel {
                fragments: self@.fragments.push(npm_fragment("run"@, seq![command@])),
                ..self@
            }),
    {
        let mut this = self;
        let mut chain: Vec<&str> = Vec::new();
        chain.push(command);
        proof {
            assert(chain.deep_view() =~= seq![command@]);
        }
        this.npm_append("run", chain.as_slice());
        this
    }

    /// Queues an arbitrary sub-command `npm <command> [args...]`, for
    /// anything not otherwise exposed.
    pub fn custom(self, command: &str, args: Option<&[&str]>) -> (r: Self)
        ensures
            r@ == (NpmModel {
                fragments: self@.fragments.push(npm_fragment(command@, opt_args(args))),
                ..self@
            }),
    {
        let mut this = self;
        let empty: Vec<&str> = Vec::new();
        let chain: &[&str] = match args {
            Some(a) => a,
            None => empty.as_slice(),
        };
        proof {
            assert(empty.deep_view() =~= Seq::<Seq<char>>::empty());
            assert(chain.deep_view() == opt_args(args));
        }
        this.npm_append(command, chain);
        this
    }

    /// Assembles the single shell invocation for the queued sub-commands:
    /// the fragments in call order joined by `" && "`, so that a later
    /// fragment runs only if every earlier one succeeded, together with the
    /// frozen environment configuration. Consumes the builder. With zero
    /// queued fragments the command string is empty.
    pub fn exec(self) -> (r: Invocation)
        ensures
            r.program@ == self@.env.shell,
            r.flag@ == self@.env.flag,
            r.command@ == join_with(self@.fragments, " && "@),
            r.working_dir.deep_view() == self@.env.cwd,
            r.env_cleared == self@.env.cleared,
            r.env_vars.deep_view() == self@.env.entries,
    {
        let ghost frags = self@.fragments;
        let mut s = String::new();
        proof {
            assert(s@ == join_with(frags.take(0), " && "@));
        }
        let mut i: usize = 0;
        while i < self.args.len()
            invariant
                i <= self.args.len(),
                frags == self.args.deep_view(),
                s@ == join_with(frags.take(i as int), " && "@),
            decreases self.args.len() - i,
        {
            if i > 0 {
                s.append(" && ");
            }
            let frag = &self.args[i];
            s.append(frag.as_str());
            proof {
                let prefix = frags.take(i as int);
                assert(frags.take(i as int + 1) =~= prefix.push(frags[i as int]));
                lemma_join_with_push(prefix, " && "@, frags[i as int]);
                assert(s@ =~= join_with(frags.take(i as int + 1), " && "@));
            }
            i = i + 1;
        }
        proof {
            assert(frags.take(self.args.len() as int) =~= frags);
            self.cmd.fields_view();
        }
        let Npm { cmd, args: _ } = self;
        let NpmEnv { shell, flag, cwd, vars, cleared } = cmd;
        Invocation {
            program: shell,
            flag,
            command: s,
            working_dir: cwd,
            env_cleared: cleared,
            env_vars: vars,
        }
    }
}

impl Default for Npm {
    /// A command builder over the default environment configuration.
    fn default() -> (r: Self)
        ensures
            r@.env == EnvModel::init("bash"@, "-c"@),
            r@.fragments == Seq::<Seq<char>>::empty(),
    {
        NpmEnv::default().init_env()
    }
}

} // verus!
