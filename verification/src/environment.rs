//! The environment the bridge is configured by.

use vstd::prelude::*;

use crate::text::{join, optional_text, same_text, text_or_error};

verus! {

/// The variables of a process, as they were when it started.
pub struct Environment {
    vars: Vec<(String, String)>,
}

/// The names and values behind a list of variables.
pub open spec fn variables(vars: Seq<(String, String)>) -> Seq<(Seq<char>, Seq<char>)> {
    vars.map_values(|v: (String, String)| (v.0@, v.1@))
}

/// The variables by name. Where a name is listed twice, the first one counts.
pub open spec fn by_name(vars: Seq<(Seq<char>, Seq<char>)>) -> Map<Seq<char>, Seq<char>>
    decreases vars.len(),
{
    if vars.len() == 0 {
        Map::empty()
    } else {
        by_name(vars.drop_first()).insert(vars[0].0, vars[0].1)
    }
}

/// The value of a variable that is set.
pub open spec fn value_of(env: Map<Seq<char>, Seq<char>>, name: Seq<char>) -> Option<Seq<char>> {
    if env.contains_key(name) {
        Some(env[name])
    } else {
        None
    }
}

/// The error for a variable that has to be set and is not.
pub open spec fn missing(name: Seq<char>) -> Seq<char> {
    name + " must be set (see README/provision.md)"@
}

/// The value of a variable that has to be set.
pub open spec fn required(env: Map<Seq<char>, Seq<char>>, name: Seq<char>) -> Result<
    Seq<char>,
    Seq<char>,
> {
    match value_of(env, name) {
        Some(value) => Ok(value),
        None => Err(missing(name)),
    }
}

/// The value of a variable that may be absent. One that is empty counts as absent.
pub open spec fn provided(env: Map<Seq<char>, Seq<char>>, name: Seq<char>) -> Option<Seq<char>> {
    match value_of(env, name) {
        Some(value) if value.len() > 0 => Some(value),
        _ => None,
    }
}

/// The value of a variable, or `default` where it is not set.
pub open spec fn value_or(
    env: Map<Seq<char>, Seq<char>>,
    name: Seq<char>,
    default: Seq<char>,
) -> Seq<char> {
    match value_of(env, name) {
        Some(value) => value,
        None => default,
    }
}

impl View for Environment {
    type V = Map<Seq<char>, Seq<char>>;

    closed spec fn view(&self) -> Map<Seq<char>, Seq<char>> {
        by_name(variables(self.vars@))
    }
}

impl Environment {
    /// Takes the names and values of the variables.
    pub fn new(vars: Vec<(String, String)>) -> (r: Environment)
        ensures
            r@ == by_name(variables(vars@)),
    {
        Environment { vars }
    }

    /// The value of a variable, if it is set.
    pub fn get(&self, name: &str) -> (r: Option<String>)
        ensures
            optional_text(r) == value_of(self@, name@),
    {
        let ghost all = variables(self.vars@);
        assert(all.skip(0) =~= all);
        let mut k: usize = 0;
        while k < self.vars.len()
            invariant
                k <= self.vars.len(),
                all == variables(self.vars@),
                value_of(by_name(all.skip(k as int)), name@) == value_of(by_name(all), name@),
            decreases self.vars.len() - k,
        {
            let ghost rest = all.skip(k as int);
            assert(rest[0] == (self.vars@[k as int].0@, self.vars@[k as int].1@));
            assert(rest.drop_first() =~= all.skip(k + 1));
            if same_text(self.vars[k].0.as_str(), name) {
                return Some(self.vars[k].1.clone());
            }
            k += 1;
        }
        assert(all.skip(k as int).len() == 0);
        None
    }
}

/// The value of a variable that has to be set, or an error that names it.
pub fn required_env(env: &Environment, name: &str) -> (r: Result<String, String>)
    ensures
        text_or_error(r) == required(env@, name@),
{
    match env.get(name) {
        Some(value) => Ok(value),
        None => Err(join(name, " must be set (see README/provision.md)")),
    }
}

/// The value of a variable that may be absent: a scenario that is not provisioned yet must not
/// keep the others from being served. An empty value counts as none.
pub fn optional_env(env: &Environment, name: &str) -> (r: Option<String>)
    ensures
        optional_text(r) == provided(env@, name@),
{
    match env.get(name) {
        Some(value) => if value.as_str().is_empty() {
            None
        } else {
            Some(value)
        },
        None => None,
    }
}

/// The `ct-agent` binary to run.
pub fn ct_agent_bin(env: &Environment) -> (r: String)
    ensures
        r@ == value_or(env@, "CT_AGENT_BIN"@, "ct-agent"@),
{
    match env.get("CT_AGENT_BIN") {
        Some(value) => value,
        None => "ct-agent".to_owned(),
    }
}

/// The address to serve the dashboard on.
pub fn listen_addr(env: &Environment) -> (r: String)
    ensures
        r@ == value_or(env@, "A2A_BRIDGE_LISTEN"@, "0.0.0.0:8790"@),
{
    match env.get("A2A_BRIDGE_LISTEN") {
        Some(value) => value,
        None => "0.0.0.0:8790".to_owned(),
    }
}

/// The error for a missing variable names the variable.
pub proof fn missing_names_the_variable(name: Seq<char>)
    ensures
        crate::text::has_text(missing(name), name),
{
    assert(missing(name).subrange(0, name.len() as int) =~= name);
    assert(crate::text::occurs_at(missing(name), name, 0));
}

/// A variable that is listed is set, and its value is the one that stands first.
pub proof fn the_first_of_a_name_counts(
    vars: Seq<(Seq<char>, Seq<char>)>,
    name: Seq<char>,
    k: int,
)
    requires
        0 <= k < vars.len(),
        vars[k].0 == name,
        forall|i: int| 0 <= i < k ==> (#[trigger] vars[i]).0 != name,
    ensures
        by_name(vars).contains_key(name),
        by_name(vars)[name] == vars[k].1,
    decreases vars.len(),
{
    if k > 0 {
        let rest = vars.drop_first();
        assert(vars[0].0 != name);
        assert(rest[k - 1] == vars[k]);
        assert forall|i: int| 0 <= i < k - 1 implies (#[trigger] rest[i]).0 != name by {
            assert(rest[i] == vars[i + 1]);
        }
        the_first_of_a_name_counts(rest, name, k - 1);
    }
}

/// A variable that is not listed is not set.
pub proof fn nothing_else_is_set(vars: Seq<(Seq<char>, Seq<char>)>, name: Seq<char>)
    requires
        forall|i: int| 0 <= i < vars.len() ==> (#[trigger] vars[i]).0 != name,
    ensures
        !by_name(vars).contains_key(name),
    decreases vars.len(),
{
    if vars.len() > 0 {
        let rest = vars.drop_first();
        assert(vars[0].0 != name);
        assert forall|i: int| 0 <= i < rest.len() implies (#[trigger] rest[i]).0 != name by {
            assert(rest[i] == vars[i + 1]);
        }
        nothing_else_is_set(rest, name);
    }
}

/// A lookup gives the value that is set, whole, and nothing where none is.
pub proof fn lookups_give_what_is_set(env: Map<Seq<char>, Seq<char>>, name: Seq<char>)
    ensures
        value_of(env, name) is Some <==> env.contains_key(name),
        env.contains_key(name) ==> value_of(env, name) == Some(env[name]),
{
}

/// A required variable gives its value, empty or not, and only one that is not set gives an error:
/// its name and where to read about it.
pub proof fn required_variables_have_a_value_or_an_error(
    env: Map<Seq<char>, Seq<char>>,
    name: Seq<char>,
)
    ensures
        env.contains_key(name) ==> required(env, name) == Ok::<Seq<char>, Seq<char>>(env[name]),
        !env.contains_key(name) ==> required(env, name) == Err::<Seq<char>, Seq<char>>(
            name + " must be set (see README/provision.md)"@,
        ),
{
}

/// An optional variable counts exactly if it is set to something.
pub proof fn optional_variables_count_if_set_to_something(
    env: Map<Seq<char>, Seq<char>>,
    name: Seq<char>,
)
    ensures
        env.contains_key(name) && env[name].len() > 0 ==> provided(env, name) == Some(env[name]),
        !env.contains_key(name) || env[name].len() == 0 ==> provided(env, name) is None,
{
}

/// A default is used exactly where nothing is set.
pub proof fn defaults_stand_in_for_what_is_not_set(
    env: Map<Seq<char>, Seq<char>>,
    name: Seq<char>,
    default: Seq<char>,
)
    ensures
        env.contains_key(name) ==> value_or(env, name, default) == env[name],
        !env.contains_key(name) ==> value_or(env, name, default) == default,
{
}

} // verus!
