//! What to run when a terminal session starts: the program, its arguments,
//! the environment changes in the order they apply, and the working directory.

use vstd::prelude::*;

verus! {

/// A program with its arguments, as configuration or the command line give it.
pub struct Shell {
    pub program: String,
    pub args: Vec<String>,
}

/// One change to the child's environment: set `key` to `value`, or remove
/// `key` when `value` is `None`.
pub struct EnvOp {
    pub key: String,
    pub value: Option<String>,
}

/// Everything the spawn needs to know besides the terminal's descriptors.
pub struct LaunchPlan {
    pub program: String,
    pub args: Vec<String>,
    /// Changes to the inherited environment; a later change of a key wins.
    pub env: Vec<EnvOp>,
    pub working_dir: Option<String>,
}

/// A shell as a program text and a sequence of argument texts.
pub open spec fn shell_view(s: &Shell) -> (Seq<char>, Seq<Seq<char>>) {
    (s.program@, s.args@.map_values(|a: String| a@))
}

pub open spec fn op_view(op: EnvOp) -> (Seq<char>, Option<Seq<char>>) {
    (
        op.key@,
        match op.value {
            Some(v) => Some(v@),
            None => None,
        },
    )
}

pub open spec fn ops_view(ops: Seq<EnvOp>) -> Seq<(Seq<char>, Option<Seq<char>>)> {
    ops.map_values(|op: EnvOp| op_view(op))
}

/// Configured overrides as environment changes, in the order given.
pub open spec fn overrides_view(env: Seq<(String, String)>) -> Seq<(Seq<char>, Option<Seq<char>>)> {
    env.map_values(|kv: (String, String)| (kv.0@, Some(kv.1@)))
}

/// The decimal digit for `d` (below ten).
pub open spec fn digit_char(d: nat) -> char {
    if d == 0 { '0' }
    else if d == 1 { '1' }
    else if d == 2 { '2' }
    else if d == 3 { '3' }
    else if d == 4 { '4' }
    else if d == 5 { '5' }
    else if d == 6 { '6' }
    else if d == 7 { '7' }
    else if d == 8 { '8' }
    else { '9' }
}

/// `n` written in decimal, without sign or leading zeros.
pub open spec fn decimal(n: nat) -> Seq<char>
    decreases n,
{
    if n < 10 {
        seq![digit_char(n)]
    } else {
        decimal(n / 10).push(digit_char(n % 10))
    }
}

/// The name of the terminal-type variable.
pub open spec fn term_key() -> Seq<char> {
    seq!['T', 'E', 'R', 'M']
}

/// The terminal type the child is told by default.
pub open spec fn term_default() -> Seq<char> {
    seq!['x', 't', 'e', 'r', 'm', '-', '2', '5', '6', 'c', 'o', 'l', 'o', 'r']
}

/// The name of the window-id variable.
pub open spec fn window_id_key() -> Seq<char> {
    seq!['W', 'I', 'N', 'D', 'O', 'W', 'I', 'D']
}

/// The environment changes made before the configured overrides: the
/// terminal type, then the window id if one is known, else its removal.
pub open spec fn base_env(window_id: Option<usize>) -> Seq<(Seq<char>, Option<Seq<char>>)> {
    seq![
        (term_key(), Some(term_default())),
        (
            window_id_key(),
            match window_id {
                Some(id) => Some(decimal(id as nat)),
                None => None,
            },
        ),
    ]
}

/// What a sequence of changes leaves for `key`: `None` when no change names
/// it (the inherited value stands), else the last change that does.
pub open spec fn env_effect(
    ops: Seq<(Seq<char>, Option<Seq<char>>)>,
    key: Seq<char>,
) -> Option<Option<Seq<char>>>
    decreases ops.len(),
{
    if ops.len() == 0 {
        None
    } else if ops.last().0 == key {
        Some(ops.last().1)
    } else {
        env_effect(ops.drop_last(), key)
    }
}

/// The last change to a key in `a + b` is its last change in `b`, if `b`
/// names it, else its last change in `a`.
proof fn lemma_env_effect_append(
    a: Seq<(Seq<char>, Option<Seq<char>>)>,
    b: Seq<(Seq<char>, Option<Seq<char>>)>,
    key: Seq<char>,
)
    ensures
        env_effect(a + b, key) == match env_effect(b, key) {
            Some(x) => Some(x),
            None => env_effect(a, key),
        },
    decreases b.len(),
{
    if b.len() == 0 {
        assert(a + b =~= a);
    } else {
        assert((a + b).drop_last() =~= a + b.drop_last());
        lemma_env_effect_append(a, b.drop_last(), key);
    }
}

/// Changes that never name a key leave it as it was.
proof fn lemma_env_effect_untouched(ops: Seq<(Seq<char>, Option<Seq<char>>)>, key: Seq<char>)
    requires
        forall|i: int| 0 <= i < ops.len() ==> #[trigger] ops[i].0 != key,
    ensures
        env_effect(ops, key) == None::<Option<Seq<char>>>,
    decreases ops.len(),
{
    if ops.len() > 0 {
        assert(ops.last().0 != key);
        lemma_env_effect_untouched(ops.drop_last(), key);
    }
}

/// Where the configuration does not set the window-id variable, a launch
/// with a window id sets it to the id in decimal, and a launch without one
/// removes it, so the child never sees a window id that is not its own.
pub proof fn lemma_window_id_propagation(config_env: Seq<(String, String)>, window_id: Option<usize>)
    requires
        forall|i: int| 0 <= i < config_env.len() ==> #[trigger] config_env[i].0@ != window_id_key(),
    ensures
        env_effect(base_env(window_id) + overrides_view(config_env), window_id_key()) == Some(
            match window_id {
                Some(id) => Some(decimal(id as nat)),
                None => None::<Seq<char>>,
            },
        ),
{
    let o = overrides_view(config_env);
    assert forall|i: int| 0 <= i < o.len() implies #[trigger] o[i].0 != window_id_key() by {
        assert(o[i].0 == config_env[i].0@);
    }
    lemma_env_effect_untouched(o, window_id_key());
    lemma_env_effect_append(base_env(window_id), o, window_id_key());
}

/// Where the configuration does not set the terminal type, the child is told
/// the default one.
pub proof fn lemma_term_default(config_env: Seq<(String, String)>, window_id: Option<usize>)
    requires
        forall|i: int| 0 <= i < config_env.len() ==> #[trigger] config_env[i].0@ != term_key(),
    ensures
        env_effect(base_env(window_id) + overrides_view(config_env), term_key()) == Some(
            Some(term_default()),
        ),
{
    let o = overrides_view(config_env);
    assert forall|i: int| 0 <= i < o.len() implies #[trigger] o[i].0 != term_key() by {
        assert(o[i].0 == config_env[i].0@);
    }
    lemma_env_effect_untouched(o, term_key());
    lemma_env_effect_append(base_env(window_id), o, term_key());
    assert(term_key() != window_id_key()) by {
        assert(term_key().len() != window_id_key().len());
    }
    let b = base_env(window_id);
    assert(b.drop_last() =~= seq![(term_key(), Some(term_default()))]);
    assert(env_effect(b.drop_last(), term_key()) == Some(Some(term_default())));
    assert(env_effect(b, term_key()) == Some(Some(term_default())));
}

/// A configured override is what the child sees for its key, when no later
/// override names the same key: configured values win over the defaults.
pub proof fn lemma_configured_value_wins(
    config_env: Seq<(String, String)>,
    window_id: Option<usize>,
    i: int,
)
    requires
        0 <= i < config_env.len(),
        forall|j: int| i < j < config_env.len() ==> #[trigger] config_env[j].0@ != config_env[i].0@,
    ensures
        env_effect(base_env(window_id) + overrides_view(config_env), config_env[i].0@) == Some(
            Some(config_env[i].1@),
        ),
{
    let key = config_env[i].0@;
    let o = overrides_view(config_env);
    let head = o.take(i + 1);
    let tail = o.skip(i + 1);
    assert(o =~= head + tail);
    assert forall|j: int| 0 <= j < tail.len() implies #[trigger] tail[j].0 != key by {
        assert(tail[j].0 == config_env[i + 1 + j].0@);
    }
    lemma_env_effect_untouched(tail, key);
    lemma_env_effect_append(head, tail, key);
    assert(head.last() == (key, Some(config_env[i].1@)));
    lemma_env_effect_append(base_env(window_id), o, key);
}

/// Relies on `usize`'s `Display` (through `to_string`): plain decimal digits.
#[verifier::external_body]
fn decimal_text(n: usize) -> (r: String)
    ensures
        r@ == decimal(n as nat),
{
    n.to_string()
}

/// Decides what to run for a new session.
///
/// The command given on the command line, when there is one, replaces the
/// configured shell. The environment changes are: the terminal type, the
/// window id (or, without one, the removal of an inherited window id), then
/// every configured override in order, so that configured values win.
pub fn plan_launch(
    shell: Shell,
    command: Option<Shell>,
    config_env: &Vec<(String, String)>,
    working_dir: Option<String>,
    window_id: Option<usize>,
) -> (r: LaunchPlan)
    ensures
        (r.program@, r.args@.map_values(|a: String| a@)) == match command {
            Some(c) => shell_view(&c),
            None => shell_view(&shell),
        },
        ops_view(r.env@) == base_env(window_id) + overrides_view(config_env@),
        r.working_dir == working_dir,
{
    let chosen = match command {
        Some(c) => c,
        None => shell,
    };
    let mut env: Vec<EnvOp> = Vec::new();
    let term = "TERM".to_owned();
    let term_value = "xterm-256color".to_owned();
    let window_key = "WINDOWID".to_owned();
    proof {
        reveal_strlit("TERM");
        reveal_strlit("xterm-256color");
        reveal_strlit("WINDOWID");
        assert(term@ =~= term_key());
        assert(term_value@ =~= term_default());
        assert(window_key@ =~= window_id_key());
    }
    env.push(EnvOp { key: term, value: Some(term_value) });
    let window_value = match window_id {
        Some(id) => Some(decimal_text(id)),
        None => None,
    };
    env.push(EnvOp { key: window_key, value: window_value });
    proof {
        assert(ops_view(env@) =~= base_env(window_id));
    }
    let mut i: usize = 0;
    while i < config_env.len()
        invariant
            i <= config_env@.len(),
            ops_view(env@) =~= base_env(window_id) + overrides_view(config_env@.take(i as int)),
        decreases config_env@.len() - i,
    {
        let key = config_env[i].0.clone();
        let value = config_env[i].1.clone();
        let ghost before = env@;
        env.push(EnvOp { key, value: Some(value) });
        proof {
            assert(config_env@.take(i + 1) =~= config_env@.take(i as int).push(config_env@[i as int]));
            assert(ops_view(env@) =~= ops_view(before).push(op_view(env@.last())));
            assert(overrides_view(config_env@.take(i + 1)) =~= overrides_view(
                config_env@.take(i as int),
            ).push((config_env@[i as int].0@, Some(config_env@[i as int].1@))));
        }
        i = i + 1;
    }
    proof {
        assert(config_env@.take(i as int) =~= config_env@);
    }
    LaunchPlan { program: chosen.program, args: chosen.args, env, working_dir }
}

} // verus!
