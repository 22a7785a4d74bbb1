//! Command lines: a base command, its parameters, and the overrides that a profile makes.

use crate::outside::{are_plain_words, shell_words, split_words};
use crate::text::{
    copy_strings, join, joined, same_optional_text, same_text, same_texts, text_of, texts,
};
use vstd::prelude::*;
use vstd::std_specs::cmp::PartialEqSpec;

verus! {

/// What a profile changes of a command.
#[derive(Clone, Debug)]
pub struct CmdOverrides {
    /// Stands in place of the base command.
    pub base_command_override: Option<String>,
    /// Parameters added behind the others. Joined by spaces, they are read as a shell reads them.
    pub additional_params: Option<Vec<String>>,
    /// Environment variables, each a name and a value. A later one wins over an earlier one.
    pub env: Option<Vec<(String, String)>>,
}

impl Default for CmdOverrides {
    /// No change.
    fn default() -> (overrides: Self)
        ensures
            overrides.base_command_override is None,
            overrides.additional_params is None,
            overrides.env is None,
    {
        CmdOverrides { base_command_override: None, additional_params: None, env: None }
    }
}

/// Why a command line could not be put together.
#[derive(Clone, Debug, PartialEq, Eq)]
pub enum CommandBuildError {
    /// The base command cannot be read as a shell reads it.
    InvalidBase(String),
    /// There is not one word to run.
    EmptyCommand,
    /// The additional parameters, joined by spaces, cannot be read as a shell reads them.
    InvalidShellParams(String),
}

/// A command under construction.
#[derive(Clone, Debug, PartialEq, Eq)]
pub struct CommandBuilder {
    /// The base command, one text of one or more words.
    pub base: String,
    /// The parameters behind the base command, one word each.
    pub params: Vec<String>,
}

/// The texts that a `CommandBuilder` holds.
#[verifier::ext_equal]
pub struct CommandView {
    pub base: Seq<char>,
    pub params: Seq<Seq<char>>,
}

impl View for CommandBuilder {
    type V = CommandView;

    open spec fn view(&self) -> CommandView {
        CommandView { base: self.base@, params: texts(self.params@) }
    }
}

impl CommandView {
    /// The words of the whole command line, with `extra` behind the parameters. There are none
    /// where the base command is malformed.
    pub open spec fn words(self, extra: Seq<Seq<char>>) -> Option<Seq<Seq<char>>> {
        match shell_words(self.base) {
            Some(base) => Some(base + self.params + extra),
            None => None,
        }
    }

    /// The command after the overrides, where the additional parameters can be read.
    pub open spec fn overridden(self, overrides: CmdOverrides) -> Option<CommandView> {
        let base = match overrides.base_command_override {
            Some(base) => base@,
            None => self.base,
        };
        match overrides.additional_params {
            Some(extra) => match shell_words(joined(texts(extra@), seq![' '])) {
                Some(words) => Some(CommandView { base, params: self.params + words }),
                None => None,
            },
            None => Some(CommandView { base, params: self.params }),
        }
    }
}

/// A program and its arguments.
#[derive(Clone, Debug, PartialEq, Eq)]
pub struct CommandParts {
    pub program: String,
    pub args: Vec<String>,
}

impl CommandParts {
    /// The program and the arguments as one list.
    pub open spec fn words(&self) -> Seq<Seq<char>> {
        seq![self.program@] + texts(self.args@)
    }
}

impl CommandBuilder {
    /// The base command alone.
    pub fn new(base: &str) -> (builder: Self)
        ensures
            builder@ == (CommandView { base: base@, params: Seq::empty() }),
            builder.base@ == base@,
            builder.params@.len() == 0,
    {
        let builder = CommandBuilder { base: base.to_string(), params: Vec::new() };
        assert(builder@.params == Seq::<Seq<char>>::empty());
        builder
    }

    /// The command with `more` behind its parameters.
    pub fn extend_params(self, more: Vec<String>) -> (builder: Self)
        ensures
            builder@ == (CommandView { base: self@.base, params: self@.params + texts(more@) }),
            builder.base == self.base,
            builder.params@ == self.params@ + more@,
    {
        let mut params = self.params;
        let mut added = more;
        params.append(&mut added);
        let builder = CommandBuilder { base: self.base, params };
        assert(builder@.params == self@.params + texts(more@));
        builder
    }

    /// The command with another base.
    pub fn override_base(self, base: String) -> (builder: Self)
        ensures
            builder@ == (CommandView { base: base@, params: self@.params }),
            builder.base == base,
            builder.params == self.params,
    {
        CommandBuilder { base, params: self.params }
    }

    /// The program and arguments of a first run.
    pub fn build_initial(&self) -> (parts: Result<CommandParts, CommandBuildError>)
        ensures
            self.built(Seq::empty(), parts),
            parts matches Ok(parts) ==> shell_words(self.base@) is Some && seq![parts.program@]
                + texts(parts.args@) == shell_words(self.base@)->0 + texts(self.params@),
            shell_words(self.base@) is None <==> parts matches Err(
                CommandBuildError::InvalidBase(_),
            ),
            forall|plain: Seq<Seq<char>>|
                are_plain_words(plain) && self@.base == #[trigger] joined(plain, seq![' '])
                    ==> shell_words(self@.base) == Some(plain),
    {
        let none: Vec<String> = Vec::new();
        assert(texts(none@) == Seq::<Seq<char>>::empty());
        self.build_follow_up(&none)
    }

    /// What `build_follow_up` returns for `extra`: the words of the command line, or the error
    /// that says why there are none.
    pub open spec fn built(
        &self,
        extra: Seq<Seq<char>>,
        parts: Result<CommandParts, CommandBuildError>,
    ) -> bool {
        match self@.words(extra) {
            None => parts matches Err(CommandBuildError::InvalidBase(base)) && base@ == self@.base,
            Some(words) => if words.len() == 0 {
                parts matches Err(CommandBuildError::EmptyCommand)
            } else {
                parts matches Ok(parts) && parts.words() == words
            },
        }
    }

    /// The program and arguments of a later run, with `additional_args` behind the parameters.
    pub fn build_follow_up(&self, additional_args: &Vec<String>) -> (parts: Result<
        CommandParts,
        CommandBuildError,
    >)
        ensures
            self.built(texts(additional_args@), parts),
            parts matches Ok(parts) ==> shell_words(self.base@) is Some && seq![parts.program@]
                + texts(parts.args@) == shell_words(self.base@)->0 + texts(self.params@) + texts(
                additional_args@,
            ),
            shell_words(self.base@) is None <==> parts matches Err(
                CommandBuildError::InvalidBase(_),
            ),
            parts matches Err(CommandBuildError::EmptyCommand) <==> (shell_words(self.base@)
                matches Some(base) && base.len() + self.params@.len() + additional_args@.len()
                == 0),
            forall|plain: Seq<Seq<char>>|
                are_plain_words(plain) && self@.base == #[trigger] joined(plain, seq![' '])
                    ==> shell_words(self@.base) == Some(plain),
    {
        match split_words(self.base.as_str()) {
            None => Err(CommandBuildError::InvalidBase(self.base.clone())),
            Some(base) => {
                let mut words = base;
                let mut params = copy_strings(&self.params);
                let mut extra = copy_strings(additional_args);
                let ghost base_words = texts(words@);
                words.append(&mut params);
                words.append(&mut extra);
                assert(texts(words@) == base_words + texts(self.params@) + texts(additional_args@));
                if words.len() == 0 {
                    return Err(CommandBuildError::EmptyCommand);
                }
                let ghost all = words@;
                let program = words.remove(0);
                let parts = CommandParts { program, args: words };
                assert(parts.words() == texts(all));
                Ok(parts)
            },
        }
    }
}

/// The command after the overrides: another base if there is one, and the additional parameters
/// behind the others.
pub fn apply_overrides(builder: CommandBuilder, overrides: &CmdOverrides) -> (result: Result<
    CommandBuilder,
    CommandBuildError,
>)
    ensures
        match builder@.overridden(*overrides) {
            Some(command) => result matches Ok(b) && b@ == command,
            None => result matches Err(CommandBuildError::InvalidShellParams(text))
                && overrides.additional_params matches Some(extra)
                && text@ == joined(texts(extra@), seq![' ']),
        },
        result is Err <==> (overrides.additional_params matches Some(extra) && shell_words(
            joined(texts(extra@), seq![' ']),
        ) is None),
        result matches Ok(b) ==> ({
            &&& b.base@ == match overrides.base_command_override {
                Some(base) => base@,
                None => builder.base@,
            }
            &&& texts(b.params@) == texts(builder.params@) + match overrides.additional_params {
                Some(extra) => shell_words(joined(texts(extra@), seq![' ']))->0,
                None => Seq::empty(),
            }
        }),
        overrides.additional_params matches Some(extra) ==> (are_plain_words(texts(extra@))
            ==> shell_words(joined(texts(extra@), seq![' '])) == Some(texts(extra@))),
{
    let builder = match &overrides.base_command_override {
        Some(base) => builder.override_base(base.clone()),
        None => builder,
    };
    match &overrides.additional_params {
        None => Ok(builder),
        Some(extra) => {
            proof {
                reveal_strlit(" ");
                assert(" "@ == seq![' ']);
            }
            let line = join(extra, " ");
            match split_words(line.as_str()) {
                Some(words) => Ok(builder.extend_params(words)),
                None => Err(CommandBuildError::InvalidShellParams(line)),
            }
        },
    }
}

/// The environment variables that a program is started with.
#[derive(Clone, Debug)]
pub struct ExecutionEnv {
    /// Each a name and a value. A later one wins over an earlier one.
    pub vars: Vec<(String, String)>,
}

/// The texts of a list of variables.
pub open spec fn pairs(vars: Seq<(String, String)>) -> Seq<(Seq<char>, Seq<char>)> {
    vars.map_values(|var: (String, String)| (var.0@, var.1@))
}

/// The value that each name ends up with.
pub open spec fn bindings(vars: Seq<(Seq<char>, Seq<char>)>) -> Map<Seq<char>, Seq<char>>
    decreases vars.len(),
{
    if vars.len() == 0 {
        Map::empty()
    } else {
        bindings(vars.drop_last()).insert(vars.last().0, vars.last().1)
    }
}

/// The variables that a profile sets.
pub open spec fn profile_pairs(cmd: CmdOverrides) -> Seq<(Seq<char>, Seq<char>)> {
    match cmd.env {
        Some(vars) => pairs(vars@),
        None => Seq::empty(),
    }
}

/// The texts of an optional list of strings.
pub open spec fn optional_texts(strings: Option<Vec<String>>) -> Option<Seq<Seq<char>>> {
    match strings {
        Some(strings) => Some(texts(strings@)),
        None => None,
    }
}

/// Two profiles say the same: the same base, the same parameters, and the same value for each
/// variable that they set, in whatever order they set them.
pub open spec fn equal_overrides(a: CmdOverrides, b: CmdOverrides) -> bool {
    &&& text_of(a.base_command_override) == text_of(b.base_command_override)
    &&& optional_texts(a.additional_params) == optional_texts(b.additional_params)
    &&& a.env is Some <==> b.env is Some
    &&& bindings(profile_pairs(a)) == bindings(profile_pairs(b))
}

/// A name has a value exactly where a variable of that name is set.
pub proof fn bound_names_are_set(vars: Seq<(Seq<char>, Seq<char>)>, name: Seq<char>)
    ensures
        bindings(vars).contains_key(name) <==> exists|i: int|
            0 <= i < vars.len() && (#[trigger] vars[i]).0 == name,
    decreases vars.len(),
{
    if vars.len() > 0 {
        let earlier = vars.drop_last();
        bound_names_are_set(earlier, name);
        if vars.last().0 == name {
            assert(vars[vars.len() - 1].0 == name);
        } else if bindings(earlier).contains_key(name) {
            let i = choose|i: int| 0 <= i < earlier.len() && (#[trigger] earlier[i]).0 == name;
            assert(vars[i].0 == name);
        } else if exists|i: int| 0 <= i < vars.len() && (#[trigger] vars[i]).0 == name {
            let i = choose|i: int| 0 <= i < vars.len() && (#[trigger] vars[i]).0 == name;
            assert(earlier[i].0 == name);
        }
    }
}

/// The value that `name` ends up with, if it is set.
fn value_of<'a>(vars: &'a Vec<(String, String)>, name: &str) -> (value: Option<&'a str>)
    ensures
        match value {
            Some(text) => bindings(pairs(vars@)).contains_key(name@) && bindings(
                pairs(vars@),
            )[name@] == text@,
            None => !bindings(pairs(vars@)).contains_key(name@),
        },
{
    let ghost all = pairs(vars@);
    let mut i: usize = vars.len();
    assert(all.take(i as int) == all);
    while i > 0
        invariant
            i <= vars@.len(),
            all == pairs(vars@),
            bindings(all).contains_key(name@) == bindings(all.take(i as int)).contains_key(name@),
            bindings(all).contains_key(name@) ==> bindings(all)[name@] == bindings(
                all.take(i as int),
            )[name@],
        decreases i,
    {
        let var = &vars[i - 1];
        assert(all.take(i as int).drop_last() == all.take(i - 1));
        assert(all.take(i as int).last() == (var.0@, var.1@));
        if same_text(var.0.as_str(), name) {
            return Some(var.1.as_str());
        }
        i = i - 1;
    }
    None
}

/// Whether each name that `a` gives a value has the same value in `b`.
fn agrees_with(a: &Vec<(String, String)>, b: &Vec<(String, String)>) -> (yes: bool)
    ensures
        yes == (forall|name: Seq<char>| #[trigger]
            bindings(pairs(a@)).contains_key(name) ==> bindings(pairs(b@)).contains_key(name)
                && bindings(pairs(b@))[name] == bindings(pairs(a@))[name]),
{
    let ghost left = bindings(pairs(a@));
    let ghost right = bindings(pairs(b@));
    let mut i: usize = 0;
    while i < a.len()
        invariant
            i <= a@.len(),
            left == bindings(pairs(a@)),
            right == bindings(pairs(b@)),
            forall|j: int|
                0 <= j < i ==> right.contains_key((#[trigger] pairs(a@)[j]).0)
                    && right[pairs(a@)[j].0] == left[pairs(a@)[j].0],
        decreases a@.len() - i,
    {
        let name = a[i].0.as_str();
        proof {
            assert(pairs(a@)[i as int].0 == name@);
            bound_names_are_set(pairs(a@), name@);
            assert(left.contains_key(name@));
        }
        let same = match (value_of(a, name), value_of(b, name)) {
            (Some(here), Some(there)) => same_text(here, there),
            _ => false,
        };
        if !same {
            return false;
        }
        i = i + 1;
    }
    assert forall|name: Seq<char>| #[trigger] left.contains_key(name) implies right.contains_key(
        name,
    ) && right[name] == left[name] by {
        bound_names_are_set(pairs(a@), name);
        let j = choose|j: int| 0 <= j < pairs(a@).len() && (#[trigger] pairs(a@)[j]).0 == name;
        assert(pairs(a@)[j].0 == name);
    }
    true
}

/// Whether two lists of variables give the same names the same values.
fn same_bindings(a: &Vec<(String, String)>, b: &Vec<(String, String)>) -> (same: bool)
    ensures
        same == (bindings(pairs(a@)) == bindings(pairs(b@))),
{
    let same = agrees_with(a, b) && agrees_with(b, a);
    proof {
        if same {
            let left = bindings(pairs(a@));
            let right = bindings(pairs(b@));
            assert forall|name: Seq<char>| left.contains_key(name) == right.contains_key(name) by {
                if left.contains_key(name) {
                    assert(right.contains_key(name));
                }
                if right.contains_key(name) {
                    assert(left.contains_key(name));
                }
            }
            assert(left =~= right);
        }
    }
    same
}

/// Whether two profiles say the same.
pub fn same_overrides(a: &CmdOverrides, b: &CmdOverrides) -> (same: bool)
    ensures
        same == equal_overrides(*a, *b),
{
    let same_params = match (&a.additional_params, &b.additional_params) {
        (Some(left), Some(right)) => same_texts(left, right),
        (None, None) => true,
        _ => false,
    };
    let same_env = match (&a.env, &b.env) {
        (Some(left), Some(right)) => same_bindings(left, right),
        (None, None) => true,
        _ => false,
    };
    same_params && same_env && same_optional_text(
        &a.base_command_override,
        &b.base_command_override,
    )
}

impl PartialEq for CmdOverrides {
    /// Whether two profiles say the same.
    fn eq(&self, other: &CmdOverrides) -> (equal: bool) {
        same_overrides(self, other)
    }
}

impl vstd::std_specs::cmp::PartialEqSpecImpl for CmdOverrides {
    open spec fn obeys_eq_spec() -> bool {
        true
    }

    open spec fn eq_spec(&self, other: &CmdOverrides) -> bool {
        equal_overrides(*self, *other)
    }
}

impl PartialEq for ExecutionEnv {
    /// Whether the same names have the same values.
    fn eq(&self, other: &ExecutionEnv) -> (equal: bool) {
        same_bindings(&self.vars, &other.vars)
    }
}

impl vstd::std_specs::cmp::PartialEqSpecImpl for ExecutionEnv {
    open spec fn obeys_eq_spec() -> bool {
        true
    }

    open spec fn eq_spec(&self, other: &ExecutionEnv) -> bool {
        bindings(pairs(self.vars@)) == bindings(pairs(other.vars@))
    }
}

/// Of two lists of variables set one after the other, the second wins.
pub proof fn bindings_of_later_win(
    first: Seq<(Seq<char>, Seq<char>)>,
    second: Seq<(Seq<char>, Seq<char>)>,
)
    ensures
        bindings(first + second) == bindings(first).union_prefer_right(bindings(second)),
    decreases second.len(),
{
    if second.len() == 0 {
        assert(first + second == first);
    } else {
        bindings_of_later_win(first, second.drop_last());
        assert((first + second).drop_last() == first + second.drop_last());
        assert((first + second).last() == second.last());
    }
    assert(bindings(first + second) =~= bindings(first).union_prefer_right(bindings(second)));
}

/// The variables of `source` behind those of `target`.
fn add_vars(target: &mut Vec<(String, String)>, source: &Vec<(String, String)>)
    ensures
        pairs(final(target)@) == pairs(old(target)@) + pairs(source@),
{
    let mut i: usize = 0;
    assert(pairs(target@) == pairs(target@) + pairs(source@).take(0));
    while i < source.len()
        invariant
            i <= source@.len(),
            pairs(target@) == pairs(old(target)@) + pairs(source@).take(i as int),
        decreases source@.len() - i,
    {
        let var = &source[i];
        let ghost before = target@;
        target.push((var.0.clone(), var.1.clone()));
        assert(pairs(target@) == pairs(before).push((var.0@, var.1@)));
        assert(pairs(source@).take(i + 1) == pairs(source@).take(i as int).push(
            (var.0@, var.1@),
        ));
        assert(pairs(target@) == pairs(old(target)@) + pairs(source@).take(i + 1));
        i = i + 1;
    }
    assert(pairs(source@).take(i as int) == pairs(source@));
}

impl ExecutionEnv {
    /// The environment with the variables of a profile set last.
    pub fn with_profile(&self, cmd: &CmdOverrides) -> (env: ExecutionEnv)
        ensures
            pairs(env.vars@) == pairs(self.vars@) + profile_pairs(*cmd),
            pairs(env.vars@) == pairs(self.vars@) + match cmd.env {
                Some(vars) => pairs(vars@),
                None => Seq::empty(),
            },
            bindings(pairs(env.vars@)) == bindings(pairs(self.vars@)).union_prefer_right(
                bindings(profile_pairs(*cmd)),
            ),
    {
        let mut vars: Vec<(String, String)> = Vec::new();
        add_vars(&mut vars, &self.vars);
        assert(pairs(vars@) == pairs(self.vars@));
        match &cmd.env {
            Some(profile) => add_vars(&mut vars, profile),
            None => {},
        }
        proof {
            assert(pairs(vars@) == pairs(self.vars@) + profile_pairs(*cmd));
            bindings_of_later_win(pairs(self.vars@), profile_pairs(*cmd));
        }
        ExecutionEnv { vars }
    }
}

/// A profile that says nothing changes nothing of the command.
pub proof fn no_overrides_change_nothing(command: CommandView, overrides: CmdOverrides)
    requires
        overrides.base_command_override is None,
        overrides.additional_params is None,
    ensures
        command.overridden(overrides) == Some(command),
{
}

/// Equal profiles change a command in the same way.
pub proof fn equal_overrides_change_alike(command: CommandView, a: CmdOverrides, b: CmdOverrides)
    requires
        equal_overrides(a, b),
    ensures
        command.overridden(a) == command.overridden(b),
        bindings(profile_pairs(a)) == bindings(profile_pairs(b)),
{
}

/// The texts of a list of variables are those of the variables, one by one.
pub proof fn pairs_keep_the_variables(vars: Seq<(String, String)>, i: int)
    requires
        0 <= i < vars.len(),
    ensures
        pairs(vars).len() == vars.len(),
        pairs(vars)[i].0 == vars[i].0@,
        pairs(vars)[i].1 == vars[i].1@,
{
}

/// The variable that is set last under a name gives the name its value.
pub proof fn last_variable_wins(vars: Seq<(Seq<char>, Seq<char>)>, i: int)
    requires
        0 <= i < vars.len(),
        forall|j: int| i < j < vars.len() ==> (#[trigger] vars[j]).0 != vars[i].0,
    ensures
        bindings(vars).contains_key(vars[i].0),
        bindings(vars)[vars[i].0] == vars[i].1,
    decreases vars.len(),
{
    if i < vars.len() - 1 {
        let earlier = vars.drop_last();
        assert(vars.last() == vars[vars.len() - 1]);
        assert forall|j: int| i < j < earlier.len() implies (#[trigger] earlier[j]).0
            != earlier[i].0 by {
            assert(earlier[j] == vars[j]);
        }
        last_variable_wins(earlier, i);
    }
}

/// The words of a command line are those of the base command, then the parameters, then what goes
/// behind them. There are none where the base command cannot be read.
pub proof fn line_is_put_together_in_order(command: CommandView, extra: Seq<Seq<char>>)
    ensures
        shell_words(command.base) is None <==> command.words(extra) is None,
        command.words(extra) matches Some(words) ==> {
            let base = shell_words(command.base)->0;
            let params = command.params;
            &&& words.len() == base.len() + params.len() + extra.len()
            &&& words.take(base.len() as int) == base
            &&& words.skip(base.len() as int).take(params.len() as int) == params
            &&& words.skip(base.len() as int).skip(params.len() as int) == extra
        },
{
}

/// A profile gives the base command where it names one, keeps every parameter in its place, and adds
/// its own parameters, read as a shell reads them, behind those. Only parameters that cannot be read
/// make the command fail.
pub proof fn overrides_add_behind(command: CommandView, overrides: CmdOverrides)
    ensures
        command.overridden(overrides) is None <==> (overrides.additional_params matches Some(extra)
            && shell_words(joined(texts(extra@), seq![' '])) is None),
        command.overridden(overrides) matches Some(changed) ==> {
            &&& overrides.base_command_override matches Some(base) ==> changed.base == base@
            &&& overrides.base_command_override is None ==> changed.base == command.base
            &&& command.params.len() <= changed.params.len()
            &&& changed.params.take(command.params.len() as int) == command.params
            &&& match overrides.additional_params {
                Some(extra) => shell_words(joined(texts(extra@), seq![' '])) == Some(
                    changed.params.skip(command.params.len() as int),
                ),
                None => changed.params.len() == command.params.len(),
            }
        },
{
    if let Some(changed) = command.overridden(overrides) {
        let len = command.params.len() as int;
        if overrides.additional_params is Some {
            let words = shell_words(
                joined(texts(overrides.additional_params->0@), seq![' ']),
            )->0;
            assert(changed.params.skip(len) == words);
        }
        assert(changed.params.take(len) == command.params);
    }
}

/// Profiles are equal exactly where their base commands are, their parameters are one by one, both
/// set variables or neither does, and each name ends up with the same value.
pub proof fn profiles_are_equal_part_by_part(a: CmdOverrides, b: CmdOverrides)
    ensures
        equal_overrides(a, b) <==> {
            &&& match (a.base_command_override, b.base_command_override) {
                (Some(left), Some(right)) => left@ == right@,
                (None, None) => true,
                _ => false,
            }
            &&& match (a.additional_params, b.additional_params) {
                (Some(left), Some(right)) => {
                    &&& left@.len() == right@.len()
                    &&& forall|i: int|
                        0 <= i < left@.len() ==> (#[trigger] left@[i])@ == right@[i]@
                },
                (None, None) => true,
                _ => false,
            }
            &&& match (a.env, b.env) {
                (Some(left), Some(right)) => bindings(pairs(left@)) == bindings(pairs(right@)),
                (None, None) => true,
                _ => false,
            }
        },
{
    if a.additional_params is Some && b.additional_params is Some {
        let left = a.additional_params->0;
        let right = b.additional_params->0;
        if texts(left@) == texts(right@) {
            assert(texts(left@).len() == texts(right@).len());
            assert forall|i: int| 0 <= i < left@.len() implies (#[trigger] left@[i])@
                == right@[i]@ by {
                assert(texts(left@)[i] == texts(right@)[i]);
            }
        } else if left@.len() == right@.len() && forall|i: int|
            0 <= i < left@.len() ==> (#[trigger] left@[i])@ == right@[i]@ {
            assert(texts(left@) =~= texts(right@));
        }
    }
}

/// Two environments are equal exactly where each name is set in both, to the same value, or in
/// neither.
pub proof fn environments_are_equal_by_value(a: ExecutionEnv, b: ExecutionEnv)
    ensures
        a.eq_spec(&b) <==> forall|name: Seq<char>|
            {
                &&& #[trigger] bindings(pairs(a.vars@)).contains_key(name) == bindings(
                    pairs(b.vars@),
                ).contains_key(name)
                &&& bindings(pairs(a.vars@)).contains_key(name) ==> bindings(pairs(a.vars@))[name]
                    == bindings(pairs(b.vars@))[name]
            },
{
    let left = bindings(pairs(a.vars@));
    let right = bindings(pairs(b.vars@));
    if forall|name: Seq<char>| #[trigger]
        left.contains_key(name) == right.contains_key(name) && (left.contains_key(name)
            ==> left[name] == right[name]) {
        assert(left =~= right);
    }
}

/// Two profiles are told equal exactly where they say the same.
pub proof fn profiles_are_told_equal(a: CmdOverrides, b: CmdOverrides)
    ensures
        a.eq_spec(&b) <==> equal_overrides(a, b),
{
}

} // verus!
