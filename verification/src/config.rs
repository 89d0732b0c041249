//! The configuration kept with each container, and the environment that a
//! login derives from it.

use vstd::prelude::*;
use vstd::string::*;
use crate::protocol::{push_step, Failure, Policy, Request, RequestView, Step, StepView};
use crate::utils::{join, joined};

verus! {

/// The shell that a login starts: its executable and one argument string.
#[derive(Clone, Debug, PartialEq, Eq)]
pub struct Shell {
    pub main: String,
    pub args: String,
}

/// The configuration that belongs to one container root.
#[derive(Clone, Debug, PartialEq, Eq)]
pub struct Config {
    pub user: String,
    pub shell: Shell,
    pub home: String,
    pub envs: Vec<(String, String)>,
}

/// What a [`Shell`] holds, as text.
pub struct ShellView {
    pub main: Seq<char>,
    pub args: Seq<char>,
}

/// What a [`Config`] holds: its texts, and its environment as a sequence of
/// pairs in stored order.
pub struct ConfigView {
    pub user: Seq<char>,
    pub shell: ShellView,
    pub home: Seq<char>,
    pub envs: Seq<(Seq<char>, Seq<char>)>,
}

impl View for Shell {
    type V = ShellView;

    open spec fn view(&self) -> ShellView {
        ShellView { main: self.main@, args: self.args@ }
    }
}

impl DeepView for Shell {
    type V = ShellView;

    open spec fn deep_view(&self) -> ShellView {
        self@
    }
}

impl View for Config {
    type V = ConfigView;

    open spec fn view(&self) -> ConfigView {
        ConfigView {
            user: self.user@,
            shell: self.shell@,
            home: self.home@,
            envs: self.envs.deep_view(),
        }
    }
}

impl DeepView for Config {
    type V = ConfigView;

    open spec fn deep_view(&self) -> ConfigView {
        self@
    }
}

/// The shell of a fresh container: `bash -l`.
pub open spec fn default_shell() -> ShellView {
    ShellView { main: "bash"@, args: "-l"@ }
}

/// The environment of a fresh container.
pub open spec fn default_envs() -> Seq<(Seq<char>, Seq<char>)> {
    seq![
        ("PATH"@, "/usr/local/bin:/usr/bin:/bin"@),
        ("TERM"@, "xterm-256color"@),
        ("SHELL"@, "/bin/bash"@),
        ("LANG"@, "C.UTF-8"@),
    ]
}

/// The configuration of a fresh container: user `root` with home `/root`.
pub open spec fn default_config() -> ConfigView {
    ConfigView { user: "root"@, shell: default_shell(), home: "/root"@, envs: default_envs() }
}

/// Where the configuration of the container at `root` is stored.
pub open spec fn config_path(root: Seq<char>) -> Seq<char> {
    joined(root, "config.toml"@)
}

/// The two steps that give the container at `root` its configuration: look
/// whether one is stored, and only where none is, store the default. A
/// configuration that is there is never written over.
pub open spec fn init_steps(root: Seq<char>) -> Seq<StepView> {
    seq![
        StepView {
            request: RequestView::Probe { path: config_path(root) },
            policy: Policy::SkipNextIf(true),
        },
        StepView {
            request: RequestView::WriteConfig { path: config_path(root), config: default_config() },
            policy: Policy::Required(Failure::Io),
        },
    ]
}

/// The step that reads the configuration of the container at `root`. A
/// configuration that is missing or malformed ends the operation.
pub open spec fn read_step(root: Seq<char>) -> StepView {
    StepView { request: RequestView::ReadConfig { path: config_path(root) }, policy: Policy::Load }
}

/// Whether `key` names one of the two variables that carry the identity of the
/// user who logs in.
pub open spec fn is_identity_key(key: Seq<char>) -> bool {
    key == "USER"@ || key == "HOME"@
}

/// `envs` without the pairs that set `USER` or `HOME`, the others in their order.
pub open spec fn without_identity(envs: Seq<(Seq<char>, Seq<char>)>) -> Seq<
    (Seq<char>, Seq<char>),
>
    decreases envs.len(),
{
    if envs.len() == 0 {
        Seq::empty()
    } else {
        let before = without_identity(envs.drop_last());
        if is_identity_key(envs.last().0) {
            before
        } else {
            before.push(envs.last())
        }
    }
}

/// The environment of a login: `USER` and `HOME` from the configuration, then
/// the stored pairs in their order, except those that would set either again.
pub open spec fn login_envs(config: ConfigView) -> Seq<(Seq<char>, Seq<char>)> {
    seq![("USER"@, config.user), ("HOME"@, config.home)] + without_identity(config.envs)
}

/// The variables that result from setting `pairs` in order on top of `base`:
/// where a key occurs twice, the later pair wins.
pub open spec fn applied(base: Map<Seq<char>, Seq<char>>, pairs: Seq<(Seq<char>, Seq<char>)>) -> Map<
    Seq<char>,
    Seq<char>,
>
    decreases pairs.len(),
{
    if pairs.len() == 0 {
        base
    } else {
        applied(base, pairs.drop_last()).insert(pairs.last().0, pairs.last().1)
    }
}

/// Whether `base` and `other` agree on `key`: both lack it, or both hold the
/// same value for it.
pub open spec fn agree_on(
    base: Map<Seq<char>, Seq<char>>,
    other: Map<Seq<char>, Seq<char>>,
    key: Seq<char>,
) -> bool {
    base.dom().contains(key) == other.dom().contains(key) && (base.dom().contains(key)
        ==> base[key] == other[key])
}

/// Setting `first` and then `second` is the same as setting the two in one go.
pub proof fn lemma_applied_in_turn(
    base: Map<Seq<char>, Seq<char>>,
    first: Seq<(Seq<char>, Seq<char>)>,
    second: Seq<(Seq<char>, Seq<char>)>,
)
    ensures
        applied(base, first + second) == applied(applied(base, first), second),
    decreases second.len(),
{
    if second.len() == 0 {
        assert(first + second =~= first);
    } else {
        lemma_applied_in_turn(base, first, second.drop_last());
        assert((first + second).drop_last() =~= first + second.drop_last());
        assert((first + second).last() == second.last());
    }
}

/// What `pairs` makes of a variable depends only on what was there for that
/// variable before.
pub proof fn lemma_applied_by_key(
    base: Map<Seq<char>, Seq<char>>,
    other: Map<Seq<char>, Seq<char>>,
    pairs: Seq<(Seq<char>, Seq<char>)>,
    key: Seq<char>,
)
    requires
        agree_on(base, other, key),
    ensures
        agree_on(applied(base, pairs), applied(other, pairs), key),
    decreases pairs.len(),
{
    if pairs.len() > 0 {
        lemma_applied_by_key(base, other, pairs.drop_last(), key);
    }
}

/// A variable that no pair of `pairs` names is left as it was.
pub proof fn lemma_applied_leaves_others(
    base: Map<Seq<char>, Seq<char>>,
    pairs: Seq<(Seq<char>, Seq<char>)>,
    key: Seq<char>,
)
    requires
        forall|i: int| 0 <= i < pairs.len() ==> (#[trigger] pairs[i]).0 != key,
    ensures
        agree_on(applied(base, pairs), base, key),
    decreases pairs.len(),
{
    if pairs.len() > 0 {
        lemma_applied_leaves_others(base, pairs.drop_last(), key);
        assert(pairs.last() == pairs[pairs.len() - 1]);
    }
}

/// None of the pairs that `without_identity` keeps sets `USER` or `HOME`.
pub proof fn lemma_without_identity_keys(envs: Seq<(Seq<char>, Seq<char>)>)
    ensures
        forall|i: int|
            0 <= i < without_identity(envs).len() ==> !is_identity_key(
                (#[trigger] without_identity(envs)[i]).0,
            ),
    decreases envs.len(),
{
    if envs.len() > 0 {
        lemma_without_identity_keys(envs.drop_last());
        let before = without_identity(envs.drop_last());
        let kept = without_identity(envs);
        assert forall|i: int| 0 <= i < kept.len() implies !is_identity_key((#[trigger] kept[i]).0) by {
            if i < before.len() {
                assert(kept[i] == before[i]);
            }
        }
    }
}

/// Dropping the pairs for `USER` and `HOME` changes no other variable.
pub proof fn lemma_without_identity_keeps_others(
    base: Map<Seq<char>, Seq<char>>,
    envs: Seq<(Seq<char>, Seq<char>)>,
    key: Seq<char>,
)
    requires
        !is_identity_key(key),
    ensures
        agree_on(applied(base, without_identity(envs)), applied(base, envs), key),
    decreases envs.len(),
{
    if envs.len() > 0 {
        lemma_without_identity_keeps_others(base, envs.drop_last(), key);
        if !is_identity_key(envs.last().0) {
            let kept = without_identity(envs);
            assert(kept.drop_last() =~= without_identity(envs.drop_last()));
            assert(kept.last() == envs.last());
        }
    }
}

/// The names `USER` and `HOME` differ.
pub proof fn lemma_identity_keys_differ()
    ensures
        "USER"@ != "HOME"@,
{
    reveal_strlit("USER");
    reveal_strlit("HOME");
    assert("USER"@[0] == 'U');
    assert("HOME"@[0] == 'H');
}

/// The identity of a login cannot be overridden by the stored environment:
/// whatever the configuration stores and whatever was set before, after a login's
/// environment has been set `USER` holds the configured user and `HOME` the
/// configured home.
pub proof fn login_identity_comes_from_config(
    base: Map<Seq<char>, Seq<char>>,
    config: ConfigView,
)
    ensures
        applied(base, login_envs(config)).contains_pair("USER"@, config.user),
        applied(base, login_envs(config)).contains_pair("HOME"@, config.home),
{
    let head = seq![("USER"@, config.user), ("HOME"@, config.home)];
    let tail = without_identity(config.envs);
    lemma_identity_keys_differ();
    lemma_applied_in_turn(base, head, tail);
    lemma_without_identity_keys(config.envs);
    lemma_applied_leaves_others(applied(base, head), tail, "USER"@);
    lemma_applied_leaves_others(applied(base, head), tail, "HOME"@);
    lemma_applied_head(base, config);
}

/// What the two leading pairs of a login's environment make of `base`.
proof fn lemma_applied_head(base: Map<Seq<char>, Seq<char>>, config: ConfigView)
    ensures
        applied(base, seq![("USER"@, config.user), ("HOME"@, config.home)]) == base.insert(
            "USER"@,
            config.user,
        ).insert("HOME"@, config.home),
{
    let head = seq![("USER"@, config.user), ("HOME"@, config.home)];
    let first = seq![("USER"@, config.user)];
    assert(head.drop_last() =~= first);
    assert(first.drop_last() =~= Seq::<(Seq<char>, Seq<char>)>::empty());
    assert(applied(base, first) == applied(base, first.drop_last()).insert(
        first.last().0,
        first.last().1,
    ));
    assert(applied(base, head) == applied(base, head.drop_last()).insert(
        head.last().0,
        head.last().1,
    ));
}

/// Every variable other than `USER` and `HOME` comes out of a login exactly as
/// replaying the stored environment in its order would leave it.
pub proof fn login_replays_stored_environment(
    base: Map<Seq<char>, Seq<char>>,
    config: ConfigView,
    key: Seq<char>,
)
    requires
        !is_identity_key(key),
    ensures
        agree_on(applied(base, login_envs(config)), applied(base, config.envs), key),
{
    let head = seq![("USER"@, config.user), ("HOME"@, config.home)];
    let tail = without_identity(config.envs);
    lemma_applied_in_turn(base, head, tail);
    lemma_applied_head(base, config);
    assert(agree_on(applied(base, head), base, key));
    lemma_applied_by_key(applied(base, head), base, tail, key);
    lemma_without_identity_keeps_others(base, config.envs, key);
}

impl Default for Shell {
    fn default() -> (shell: Shell)
        ensures
            shell@ == default_shell(),
    {
        Shell { main: String::from_str("bash"), args: String::from_str("-l") }
    }
}

impl Default for Config {
    fn default() -> (config: Config)
        ensures
            config@ == default_config(),
    {
        let mut envs: Vec<(String, String)> = Vec::new();
        envs.push((String::from_str("PATH"), String::from_str("/usr/local/bin:/usr/bin:/bin")));
        envs.push((String::from_str("TERM"), String::from_str("xterm-256color")));
        envs.push((String::from_str("SHELL"), String::from_str("/bin/bash")));
        envs.push((String::from_str("LANG"), String::from_str("C.UTF-8")));
        assert(envs.deep_view() =~= default_envs());
        Config {
            user: String::from_str("root"),
            shell: Shell::default(),
            home: String::from_str("/root"),
            envs,
        }
    }
}

/// A copy of `pairs`, text for text.
pub fn copy_pairs(pairs: &Vec<(String, String)>) -> (copy: Vec<(String, String)>)
    ensures
        copy.deep_view() == pairs.deep_view(),
{
    let mut copy: Vec<(String, String)> = Vec::new();
    let mut i: usize = 0;
    while i < pairs.len()
        invariant
            i <= pairs.len(),
            copy.len() == i,
            forall|j: int| 0 <= j < i ==> copy[j].deep_view() == pairs[j].deep_view(),
        decreases pairs.len() - i,
    {
        copy.push((pairs[i].0.clone(), pairs[i].1.clone()));
        i += 1;
    }
    assert(copy.deep_view() =~= pairs.deep_view());
    copy
}

impl Shell {
    /// A copy of this shell, text for text.
    pub fn duplicate(&self) -> (copy: Shell)
        ensures
            copy@ == self@,
    {
        Shell { main: self.main.clone(), args: self.args.clone() }
    }
}

impl Config {
    /// Lays out the creation of the configuration of the container at
    /// `target`, with the defaults, unless it has one.
    pub fn init(target: &str) -> (steps: Vec<Step>)
        ensures
            steps.deep_view() == init_steps(target@),
    {
        let path = join(target, "config.toml");
        let mut steps: Vec<Step> = Vec::new();
        push_step(
            &mut steps,
            Step { request: Request::Probe { path: path.clone() }, policy: Policy::SkipNextIf(true) },
        );
        push_step(
            &mut steps,
            Step {
                request: Request::WriteConfig { path, config: Config::default() },
                policy: Policy::Required(Failure::Io),
            },
        );
        assert(steps.deep_view() =~= init_steps(target@));
        steps
    }

    /// The step that reads the configuration of the container at `target`.
    pub fn read_config(target: &str) -> (step: Step)
        ensures
            step@ == read_step(target@),
    {
        Step {
            request: Request::ReadConfig { path: join(target, "config.toml") },
            policy: Policy::Load,
        }
    }

    /// A copy of this configuration, text for text.
    pub fn duplicate(&self) -> (copy: Config)
        ensures
            copy@ == self@,
    {
        Config {
            user: self.user.clone(),
            shell: self.shell.duplicate(),
            home: self.home.clone(),
            envs: copy_pairs(&self.envs),
        }
    }

    /// The environment that a login into this container sets, in the order in
    /// which it is set.
    pub fn login_envs(&self) -> (envs: Vec<(String, String)>)
        ensures
            envs.deep_view() == login_envs(self@),
    {
        let user_key = String::from_str("USER");
        let home_key = String::from_str("HOME");
        let mut envs: Vec<(String, String)> = Vec::new();
        envs.push((user_key.clone(), self.user.clone()));
        envs.push((home_key.clone(), self.home.clone()));
        let ghost head = seq![("USER"@, self.user@), ("HOME"@, self.home@)];
        assert(envs.deep_view() =~= head);
        let mut i: usize = 0;
        assert(self.envs.deep_view().take(0) =~= Seq::empty());
        while i < self.envs.len()
            invariant
                i <= self.envs.len(),
                user_key@ == "USER"@,
                home_key@ == "HOME"@,
                head == seq![("USER"@, self.user@), ("HOME"@, self.home@)],
                envs.deep_view() == head + without_identity(self.envs.deep_view().take(i as int)),
            decreases self.envs.len() - i,
        {
            let ghost stored = self.envs.deep_view();
            let ghost before = envs.deep_view();
            assert(stored.take(i + 1).drop_last() =~= stored.take(i as int));
            assert(stored.take(i + 1).last() == stored[i as int]);
            assert(stored[i as int] == self.envs[i as int].deep_view());
            let key = &self.envs[i].0;
            if !(*key == user_key || *key == home_key) {
                envs.push((key.clone(), self.envs[i].1.clone()));
                assert(envs.deep_view() =~= before.push(stored[i as int]));
                assert(before.push(stored[i as int]) =~= head + without_identity(
                    stored.take(i as int),
                ).push(stored[i as int]));
            }
            i += 1;
        }
        assert(self.envs.deep_view().take(i as int) =~= self.envs.deep_view());
        envs
    }
}

} // verus!
