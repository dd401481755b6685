//! A command about to be spawned, as a plain value: program and arguments,
//! environment edits, whether the child starts its own session, and the
//! display form used for logging. The unverified front end turns one of
//! these into an actual process.

use vstd::prelude::*;
use vstd::string::StrSliceExecFns;
use vstd::string::StringExecFns;
use crate::store::has_prefix;
use crate::store::str_eq;
use crate::store::str_has_prefix;

verus! {

/// One edit to the child's environment, applied in order.
pub enum EnvOp {
    SetVar { key: String, val: String },
    RemoveVar { key: String },
    ClearAll,
}

/// The mathematical form of an environment edit.
pub enum OpView {
    SetVar { key: Seq<char>, val: Seq<char> },
    RemoveVar { key: Seq<char> },
    ClearAll,
}

/// An environment edit, viewed.
pub open spec fn op_view(op: EnvOp) -> OpView {
    match op {
        EnvOp::SetVar { key, val } => OpView::SetVar { key: key@, val: val@ },
        EnvOp::RemoveVar { key } => OpView::RemoveVar { key: key@ },
        EnvOp::ClearAll => OpView::ClearAll,
    }
}

/// A list of environment edits, viewed.
pub open spec fn ops_view(ops: Seq<EnvOp>) -> Seq<OpView> {
    ops.map_values(|op: EnvOp| op_view(op))
}

/// A command to spawn. `argv` is what is executed (program first);
/// `display_args` is what is logged for it.
pub struct Command {
    pub argv: Vec<String>,
    pub display_args: Vec<String>,
    pub env_ops: Vec<EnvOp>,
    pub new_session: bool,
    pub show_cmd_on_spawn: bool,
}

/// Two commands agree on everything but their argument lists.
pub open spec fn same_modifiers(a: Command, b: Command) -> bool {
    &&& ops_view(a.env_ops@) == ops_view(b.env_ops@)
    &&& a.new_session == b.new_session
    &&& a.show_cmd_on_spawn == b.show_cmd_on_spawn
}

/// Two commands agree on their argument lists and display form.
pub open spec fn same_args(a: Command, b: Command) -> bool {
    &&& a.argv@ == b.argv@
    &&& a.display_args@ == b.display_args@
}

impl Command {
    /// A fresh command from a non-empty argument vector (program first).
    /// Every argument also makes up the display form.
    pub fn new(args: Vec<String>) -> (c: Command)
        requires
            args@.len() >= 1,
        ensures
            c.argv@ == args@,
            c.display_args@ == args@,
            c.env_ops@.len() == 0,
            c.new_session == false,
            c.show_cmd_on_spawn == true,
    {
        let display_args = args.clone();
        proof {
            assert(display_args@ =~= args@);
        }
        Command {
            argv: args,
            display_args,
            env_ops: Vec::new(),
            new_session: false,
            show_cmd_on_spawn: true,
        }
    }

    /// A shell command: the script runs under `/bin/bash` with `pipefail`
    /// set, and only the script itself is displayed.
    pub fn new_shell(script: &str) -> (c: Command)
        ensures
            c.argv@.len() == 5,
            c.argv@[0]@ == "/bin/bash"@,
            c.argv@[1]@ == "-o"@,
            c.argv@[2]@ == "pipefail"@,
            c.argv@[3]@ == "-c"@,
            c.argv@[4]@ == script@,
            c.display_args@.len() == 1,
            c.display_args@[0]@ == script@,
            c.env_ops@.len() == 0,
            c.new_session == false,
            c.show_cmd_on_spawn == true,
    {
        let mut argv: Vec<String> = Vec::new();
        argv.push(String::from_str("/bin/bash"));
        argv.push(String::from_str("-o"));
        argv.push(String::from_str("pipefail"));
        argv.push(String::from_str("-c"));
        argv.push(String::from_str(script));
        let mut display_args: Vec<String> = Vec::new();
        display_args.push(String::from_str(script));
        Command {
            argv,
            display_args,
            env_ops: Vec::new(),
            new_session: false,
            show_cmd_on_spawn: true,
        }
    }

    /// The display form of one argument.
    pub fn arg_for_display(arg: &str) -> (r: String)
        ensures
            r@ == arg@,
    {
        String::from_str(arg)
    }

    /// Appends one argument, to the command and to its display form.
    pub fn arg(&mut self, arg: String)
        ensures
            final(self).argv@ == old(self).argv@.push(arg),
            final(self).display_args@ == old(self).display_args@.push(arg),
            same_modifiers(*final(self), *old(self)),
    {
        let display = arg.clone();
        self.display_args.push(display);
        self.argv.push(arg);
    }

    /// Appends each argument in turn.
    pub fn args(&mut self, args: Vec<String>)
        ensures
            final(self).argv@ == old(self).argv@ + args@,
            final(self).display_args@ == old(self).display_args@ + args@,
            same_modifiers(*final(self), *old(self)),
    {
        let n = args.len();
        let mut i: usize = 0;
        while i < n
            invariant
                i <= n,
                n == args@.len(),
                self.argv@ == old(self).argv@ + args@.subrange(0, i as int),
                self.display_args@ == old(self).display_args@ + args@.subrange(0, i as int),
                same_modifiers(*self, *old(self)),
            decreases n - i,
        {
            let a = args[i].clone();
            proof {
                assert(a@ == args@[i as int]@);
            }
            self.arg(a);
            proof {
                assert(self.argv@ =~= old(self).argv@ + args@.subrange(0, i as int + 1));
                assert(self.display_args@ =~= old(self).display_args@ + args@.subrange(
                    0,
                    i as int + 1,
                ));
            }
            i += 1;
        }
        proof {
            assert(args@.subrange(0, n as int) =~= args@);
        }
    }

    /// Records that the child is to call `setsid` before exec, starting its
    /// own session and process group.
    pub fn setsid(&mut self)
        ensures
            final(self).new_session == true,
            final(self).show_cmd_on_spawn == old(self).show_cmd_on_spawn,
            ops_view(final(self).env_ops@) == ops_view(old(self).env_ops@),
            same_args(*final(self), *old(self)),
    {
        self.new_session = true;
    }

    /// Chooses whether spawning this command logs its display form.
    pub fn show_cmd_on_spawn(&mut self, value: bool)
        ensures
            final(self).show_cmd_on_spawn == value,
            final(self).new_session == old(self).new_session,
            ops_view(final(self).env_ops@) == ops_view(old(self).env_ops@),
            same_args(*final(self), *old(self)),
    {
        self.show_cmd_on_spawn = value;
    }

    /// Sets one environment variable for the child.
    pub fn env(&mut self, key: String, val: String)
        ensures
            ops_view(final(self).env_ops@) == ops_view(old(self).env_ops@).push(
                OpView::SetVar { key: key@, val: val@ },
            ),
            final(self).new_session == old(self).new_session,
            final(self).show_cmd_on_spawn == old(self).show_cmd_on_spawn,
            same_args(*final(self), *old(self)),
    {
        self.env_ops.push(EnvOp::SetVar { key, val });
        proof {
            assert(ops_view(self.env_ops@) =~= ops_view(old(self).env_ops@).push(
                op_view(self.env_ops@[self.env_ops@.len() - 1]),
            ));
        }
    }

    /// Sets each given environment variable in turn.
    pub fn envs(&mut self, vars: Vec<(String, String)>)
        ensures
            ops_view(final(self).env_ops@) == ops_view(old(self).env_ops@) + vars@.map_values(
                |e: (String, String)| OpView::SetVar { key: e.0@, val: e.1@ },
            ),
            final(self).new_session == old(self).new_session,
            final(self).show_cmd_on_spawn == old(self).show_cmd_on_spawn,
            same_args(*final(self), *old(self)),
    {
        let ghost setvars = vars@.map_values(
            |e: (String, String)| OpView::SetVar { key: e.0@, val: e.1@ },
        );
        let n = vars.len();
        let mut i: usize = 0;
        while i < n
            invariant
                i <= n,
                n == vars@.len(),
                setvars == vars@.map_values(
                    |e: (String, String)| OpView::SetVar { key: e.0@, val: e.1@ },
                ),
                ops_view(self.env_ops@) == ops_view(old(self).env_ops@) + setvars.subrange(
                    0,
                    i as int,
                ),
                self.new_session == old(self).new_session,
                self.show_cmd_on_spawn == old(self).show_cmd_on_spawn,
                same_args(*self, *old(self)),
            decreases n - i,
        {
            let key = vars[i].0.clone();
            let val = vars[i].1.clone();
            proof {
                assert(key@ == vars@[i as int].0@);
                assert(val@ == vars@[i as int].1@);
            }
            self.env(key, val);
            proof {
                assert(ops_view(self.env_ops@) =~= ops_view(old(self).env_ops@)
                    + setvars.subrange(0, i as int + 1));
            }
            i += 1;
        }
        proof {
            assert(setvars.subrange(0, n as int) =~= setvars);
        }
    }

    /// Removes one environment variable from the child's environment.
    pub fn env_remove(&mut self, key: String)
        ensures
            ops_view(final(self).env_ops@) == ops_view(old(self).env_ops@).push(
                OpView::RemoveVar { key: key@ },
            ),
            final(self).new_session == old(self).new_session,
            final(self).show_cmd_on_spawn == old(self).show_cmd_on_spawn,
            same_args(*final(self), *old(self)),
    {
        self.env_ops.push(EnvOp::RemoveVar { key });
        proof {
            assert(ops_view(self.env_ops@) =~= ops_view(old(self).env_ops@).push(
                op_view(self.env_ops@[self.env_ops@.len() - 1]),
            ));
        }
    }

    /// Clears the child's inherited environment.
    pub fn env_clear(&mut self)
        ensures
            ops_view(final(self).env_ops@) == ops_view(old(self).env_ops@).push(OpView::ClearAll),
            final(self).new_session == old(self).new_session,
            final(self).show_cmd_on_spawn == old(self).show_cmd_on_spawn,
            same_args(*final(self), *old(self)),
    {
        self.env_ops.push(EnvOp::ClearAll);
        proof {
            assert(ops_view(self.env_ops@) =~= ops_view(old(self).env_ops@).push(
                op_view(self.env_ops@[self.env_ops@.len() - 1]),
            ));
        }
    }
}

/// The display form of a whole command: its display arguments joined by
/// single spaces.
pub open spec fn join_spaces(parts: Seq<String>) -> Seq<char>
    decreases parts.len(),
{
    if parts.len() == 0 {
        Seq::empty()
    } else if parts.len() == 1 {
        parts[0]@
    } else {
        parts[0]@ + " "@ + join_spaces(parts.drop_first())
    }
}

/// Joining one more part appends a space and that part.
proof fn lemma_join_spaces_push(parts: Seq<String>, x: String)
    requires
        parts.len() >= 1,
    ensures
        join_spaces(parts.push(x)) == join_spaces(parts) + " "@ + x@,
    decreases parts.len(),
{
    if parts.len() == 1 {
        assert(parts.push(x).drop_first() =~= seq![x]);
        assert(join_spaces(seq![x]) == x@);
    } else {
        assert(parts.push(x).drop_first() =~= parts.drop_first().push(x));
        lemma_join_spaces_push(parts.drop_first(), x);
        assert(parts.push(x)[0] == parts[0]);
        assert(parts[0]@ + " "@ + (join_spaces(parts.drop_first()) + " "@ + x@) =~= (parts[0]@
            + " "@ + join_spaces(parts.drop_first())) + " "@ + x@);
    }
}

impl Command {
    /// The string logged for this command.
    pub fn display_cmd(&self) -> (r: String)
        ensures
            r@ == join_spaces(self.display_args@),
    {
        let mut r = String::new();
        let n = self.display_args.len();
        if n == 0 {
            return r;
        }
        r.append(self.display_args[0].as_str());
        let mut i: usize = 1;
        while i < n
            invariant
                1 <= i <= n,
                n == self.display_args@.len(),
                r@ == join_spaces(self.display_args@.subrange(0, i as int)),
            decreases n - i,
        {
            r.append(" ");
            r.append(self.display_args[i].as_str());
            proof {
                lemma_join_spaces_push(
                    self.display_args@.subrange(0, i as int),
                    self.display_args@[i as int],
                );
                assert(self.display_args@.subrange(0, i as int).push(
                    self.display_args@[i as int],
                ) =~= self.display_args@.subrange(0, i as int + 1));
            }
            i += 1;
        }
        proof {
            assert(self.display_args@.subrange(0, n as int) =~= self.display_args@);
        }
        r
    }
}

/// The environment edits one supervisor environment entry contributes to
/// the application's command: the dedicated path variables are stripped and
/// substituted, injection variables are propagated under their bare name,
/// and everything else contributes nothing.
pub open spec fn entry_ops_view(key: Seq<char>, val: Seq<char>) -> Seq<OpView> {
    if key == "FF_APP_PATH"@ {
        seq![OpView::RemoveVar { key }, OpView::SetVar { key: "PATH"@, val }]
    } else if key == "FF_APP_LD_LIBRARY_PATH"@ {
        seq![OpView::RemoveVar { key }, OpView::SetVar { key: "LD_LIBRARY_PATH"@, val }]
    } else if has_prefix(key, "FF_APP_INJECT_"@) {
        seq![
            OpView::SetVar {
                key: key.subrange("FF_APP_INJECT_"@.len() as int, key.len() as int),
                val,
            },
        ]
    } else {
        seq![]
    }
}

/// The edits a whole supervisor environment contributes, in order.
pub open spec fn env_plan_view(env: Seq<(String, String)>) -> Seq<OpView>
    decreases env.len(),
{
    if env.len() == 0 {
        Seq::empty()
    } else {
        entry_ops_view(env[0].0@, env[0].1@) + env_plan_view(env.drop_first())
    }
}

/// One more environment entry contributes its edits at the end of the plan.
proof fn lemma_env_plan_push(env: Seq<(String, String)>, e: (String, String))
    ensures
        env_plan_view(env.push(e)) == env_plan_view(env) + entry_ops_view(e.0@, e.1@),
    decreases env.len(),
{
    if env.len() == 0 {
        let single = env.push(e);
        assert(single.drop_first().len() == 0);
        assert(env_plan_view(single.drop_first()) == Seq::<OpView>::empty());
        assert(single[0] == e);
        assert(env_plan_view(single) == entry_ops_view(e.0@, e.1@) + Seq::<OpView>::empty());
        assert(env_plan_view(env) == Seq::<OpView>::empty());
        assert(entry_ops_view(e.0@, e.1@) + Seq::<OpView>::empty() =~= Seq::<OpView>::empty()
            + entry_ops_view(e.0@, e.1@));
    } else {
        assert(env.push(e).drop_first() =~= env.drop_first().push(e));
        lemma_env_plan_push(env.drop_first(), e);
        assert(env.push(e)[0] == env[0]);
        assert(entry_ops_view(env[0].0@, env[0].1@) + (env_plan_view(env.drop_first())
            + entry_ops_view(e.0@, e.1@)) =~= (entry_ops_view(env[0].0@, env[0].1@)
            + env_plan_view(env.drop_first())) + entry_ops_view(e.0@, e.1@));
    }
}

/// Applies one supervisor environment entry to the application command.
pub fn plan_env_entry(cmd: &mut Command, key: &String, val: &String)
    ensures
        ops_view(final(cmd).env_ops@) == ops_view(old(cmd).env_ops@) + entry_ops_view(key@, val@),
        final(cmd).new_session == old(cmd).new_session,
        final(cmd).show_cmd_on_spawn == old(cmd).show_cmd_on_spawn,
        same_args(*final(cmd), *old(cmd)),
{
    if str_eq(key.as_str(), "FF_APP_PATH") {
        cmd.env_remove(key.clone());
        cmd.env(String::from_str("PATH"), val.clone());
        proof {
            assert(ops_view(cmd.env_ops@) =~= ops_view(old(cmd).env_ops@) + entry_ops_view(
                key@,
                val@,
            ));
        }
    } else if str_eq(key.as_str(), "FF_APP_LD_LIBRARY_PATH") {
        cmd.env_remove(key.clone());
        cmd.env(String::from_str("LD_LIBRARY_PATH"), val.clone());
        proof {
            assert(ops_view(cmd.env_ops@) =~= ops_view(old(cmd).env_ops@) + entry_ops_view(
                key@,
                val@,
            ));
        }
    } else if str_has_prefix(key.as_str(), "FF_APP_INJECT_") {
        let prefix_len = "FF_APP_INJECT_".unicode_len();
        let bare = key.as_str().substring_char(prefix_len, key.as_str().unicode_len());
        cmd.env(String::from_str(bare), val.clone());
        proof {
            assert(ops_view(cmd.env_ops@) =~= ops_view(old(cmd).env_ops@) + entry_ops_view(
                key@,
                val@,
            ));
        }
    } else {
        proof {
            assert(ops_view(cmd.env_ops@) =~= ops_view(old(cmd).env_ops@) + entry_ops_view(
                key@,
                val@,
            ));
        }
    }
}

/// Applies the whole supervisor environment, entry by entry in order, to
/// the application command: this is how a cold start prepares the child's
/// `PATH`, `LD_LIBRARY_PATH`, and injected variables.
pub fn plan_app_env(cmd: &mut Command, env: &Vec<(String, String)>)
    ensures
        ops_view(final(cmd).env_ops@) == ops_view(old(cmd).env_ops@) + env_plan_view(env@),
        final(cmd).new_session == old(cmd).new_session,
        final(cmd).show_cmd_on_spawn == old(cmd).show_cmd_on_spawn,
        same_args(*final(cmd), *old(cmd)),
{
    let n = env.len();
    let mut i: usize = 0;
    proof {
        assert(env@.subrange(0, 0) =~= Seq::<(String, String)>::empty());
        assert(ops_view(cmd.env_ops@) =~= ops_view(old(cmd).env_ops@) + env_plan_view(
            env@.subrange(0, 0),
        ));
    }
    while i < n
        invariant
            i <= n,
            n == env@.len(),
            ops_view(cmd.env_ops@) == ops_view(old(cmd).env_ops@) + env_plan_view(
                env@.subrange(0, i as int),
            ),
            cmd.new_session == old(cmd).new_session,
            cmd.show_cmd_on_spawn == old(cmd).show_cmd_on_spawn,
            same_args(*cmd, *old(cmd)),
        decreases n - i,
    {
        let (key, val) = &env[i];
        plan_env_entry(cmd, key, val);
        proof {
            let pref = env@.subrange(0, i as int);
            let pref1 = env@.subrange(0, i as int + 1);
            assert(pref1 =~= pref.push(env@[i as int]));
            lemma_env_plan_push(pref, env@[i as int]);
            assert(ops_view(cmd.env_ops@) =~= ops_view(old(cmd).env_ops@) + env_plan_view(pref1));
        }
        i += 1;
    }
    proof {
        assert(env@.subrange(0, n as int) =~= env@);
    }
}

} // verus!
