//! The key/value environment overlay: explicit configuration overrides
//! handed to the compiler as a flat `KEY=VALUE` list, read-only to the
//! core.
use vstd::prelude::*;

use crate::errors::NixpacksError;
use crate::strutil::find_char;

verus! {

/// One named environment variable.
#[derive(Clone, Debug, PartialEq, Eq)]
pub struct EnvVar {
    pub name: String,
    pub value: String,
}

/// The value bound to `name`, with later bindings shadowing earlier ones.
pub open spec fn spec_env_lookup(vars: Seq<EnvVar>, name: Seq<char>) -> Option<Seq<char>>
    decreases vars.len(),
{
    if vars.len() == 0 {
        Option::None
    } else if vars.last().name@ == name {
        Option::Some(vars.last().value@)
    } else {
        spec_env_lookup(vars.drop_last(), name)
    }
}

/// `s` split at its first `=`: the part before and the part after, or
/// nothing when `s` holds no `=`.
pub open spec fn spec_split_eq(s: Seq<char>) -> Option<(Seq<char>, Seq<char>)>
    decreases s.len(),
{
    if s.len() == 0 {
        Option::None
    } else if s[0] == '=' {
        Option::Some((Seq::empty(), s.skip(1)))
    } else {
        match spec_split_eq(s.skip(1)) {
            Option::None => Option::None,
            Option::Some(kv) => Option::Some((seq![s[0]] + kv.0, kv.1)),
        }
    }
}

proof fn lemma_split_eq_at(s: Seq<char>, i: int)
    requires
        0 <= i < s.len(),
        s[i] == '=',
        forall|j: int| 0 <= j < i ==> s[j] != '=',
    ensures
        spec_split_eq(s) == Option::Some((s.take(i), s.skip(i + 1))),
    decreases i,
{
    if i == 0 {
        assert(s.take(0) =~= Seq::<char>::empty());
    } else {
        let t = s.skip(1);
        assert(t[i - 1] == s[i]);
        assert(forall|j: int| 0 <= j < i - 1 ==> t[j] == s[j + 1] && t[j] != '=');
        lemma_split_eq_at(t, i - 1);
        assert(seq![s[0]] + t.take(i - 1) =~= s.take(i));
        assert(t.skip(i) =~= s.skip(i + 1));
    }
}

proof fn lemma_split_eq_none(s: Seq<char>)
    requires
        forall|j: int| 0 <= j < s.len() ==> s[j] != '=',
    ensures
        spec_split_eq(s) is None,
    decreases s.len(),
{
    if s.len() > 0 {
        let t = s.skip(1);
        assert(forall|j: int| 0 <= j < t.len() ==> t[j] == s[j + 1] && t[j] != '=');
        lemma_split_eq_none(t);
    }
}

/// `var` holds exactly the key and value that `entry` spells as
/// `KEY=VALUE`.
pub open spec fn spec_env_entry(entry: Seq<char>, var: EnvVar) -> bool {
    spec_split_eq(entry) matches Some(kv) && var.name@ == kv.0 && var.value@ == kv.1
}

/// Every entry of the override list is of the form `KEY=VALUE`.
pub open spec fn spec_all_envs_parse(entries: Seq<Seq<char>>) -> bool {
    forall|i: int| 0 <= i < entries.len() ==> spec_split_eq(#[trigger] entries[i]) is Some
}

/// `env` holds exactly the variables the override list spells, in
/// order.
pub open spec fn spec_env_parses(entries: Seq<Seq<char>>, env: Environment) -> bool {
    env.variables@.len() == entries.len() && forall|i: int|
        0 <= i < entries.len() ==> spec_env_entry(entries[i], #[trigger] env.variables@[i])
}

/// The read-only configuration overlay a compilation runs against.
#[derive(Clone, Debug, PartialEq, Eq)]
pub struct Environment {
    pub variables: Vec<EnvVar>,
}

impl Default for Environment {
    /// An environment with no variables at all.
    fn default() -> (r: Environment)
        ensures
            r.variables@.len() == 0,
    {
        Environment { variables: Vec::new() }
    }
}

impl Environment {
    /// An environment holding exactly the given variables.
    pub fn new(variables: Vec<EnvVar>) -> (r: Environment)
        ensures
            r.variables == variables,
    {
        Environment { variables }
    }

    /// Parses a flat `KEY=VALUE` list into an environment; an entry
    /// without `=` is rejected with `InvalidEnvironmentVariable`.
    pub fn from_envs(envs: Vec<&str>) -> (r: Result<Environment, NixpacksError>)
        ensures
            r is Ok <==> spec_all_envs_parse(envs.deep_view()),
            r matches Ok(env) ==> spec_env_parses(envs.deep_view(), env),
            r matches Err(e) ==> exists|i: int|
                {
                    &&& 0 <= i < envs.deep_view().len()
                    &&& spec_split_eq(#[trigger] envs.deep_view()[i]) is None
                    &&& e matches NixpacksError::InvalidEnvironmentVariable(v) && v@
                        == envs.deep_view()[i]
                },
    {
        let ghost ev: Seq<Seq<char>> = envs.deep_view();
        let mut variables: Vec<EnvVar> = Vec::new();
        let mut i: usize = 0;
        while i < envs.len()
            invariant
                0 <= i <= envs.len(),
                variables@.len() == i,
                forall|j: int| 0 <= j < i ==> spec_env_entry(ev[j], #[trigger] variables@[j]),
            decreases envs.len() - i,
        {
            let entry: &str = envs[i];
            assert(entry@ == ev[i as int]);
            match find_char(entry, '=') {
                Option::Some(k) => {
                    proof {
                        lemma_split_eq_at(entry@, k as int);
                    }
                    let elen = entry.unicode_len();
                    let name = entry.substring_char(0, k);
                    let value = entry.substring_char(k + 1, elen);
                    assert(name@ =~= entry@.take(k as int));
                    assert(value@ =~= entry@.skip(k as int + 1));
                    variables.push(EnvVar { name: name.to_owned(), value: value.to_owned() });
                    assert(variables@[i as int].name@ == entry@.take(k as int));
                    assert(variables@[i as int].value@ == entry@.skip(k as int + 1));
                    assert(spec_env_entry(ev[i as int], variables@[i as int]));
                },
                Option::None => {
                    proof {
                        lemma_split_eq_none(entry@);
                    }
                    return Result::Err(
                        NixpacksError::InvalidEnvironmentVariable(entry.to_owned()),
                    );
                },
            }
            i = i + 1;
        }
        proof {
            assert forall|j: int| 0 <= j < envs@.len() implies spec_split_eq(ev[j]) is Some by {
                assert(spec_env_entry(ev[j], variables@[j]));
            }
        }
        Result::Ok(Environment { variables })
    }

    /// The value bound to `name`, the latest binding winning.
    pub fn get_variable(&self, name: &str) -> (r: Option<String>)
        ensures
            r.deep_view() == spec_env_lookup(self.variables@, name@),
    {
        let ghost vars = self.variables@;
        assert(vars.take(vars.len() as int) =~= vars);
        let mut i: usize = self.variables.len();
        while i > 0
            invariant
                0 <= i <= self.variables.len(),
                spec_env_lookup(vars, name@) == spec_env_lookup(vars.take(i as int), name@),
            decreases i,
        {
            let ghost seg = vars.take(i as int);
            assert(seg.last() == vars[i - 1]);
            let x: String = self.variables[i - 1].name.clone();
            let n: String = name.to_owned();
            if x == n {
                let v: String = self.variables[i - 1].value.clone();
                return Option::Some(v);
            }
            assert(seg.drop_last() =~= vars.take(i - 1));
            i = i - 1;
        }
        assert(vars.take(0) =~= Seq::<EnvVar>::empty());
        Option::None
    }

    /// The configuration override `NIXPACKS_<name>`, if set.
    pub fn get_config_variable(&self, name: &str) -> (r: Option<String>)
        ensures
            r.deep_view() == spec_env_lookup(self.variables@, "NIXPACKS_"@ + name@),
    {
        let mut full: String = String::from_str("NIXPACKS_");
        full.append(name);
        self.get_variable(full.as_str())
    }

    /// True when the configuration override `NIXPACKS_<name>` is set to
    /// `1` or `true`.
    pub fn is_config_variable_truthy(&self, name: &str) -> (r: bool)
        ensures
            r == match spec_env_lookup(self.variables@, "NIXPACKS_"@ + name@) {
                Option::Some(v) => v == "1"@ || v == "true"@,
                Option::None => false,
            },
    {
        match self.get_config_variable(name) {
            Option::Some(v) => {
                let one: String = "1".to_owned();
                let tru: String = "true".to_owned();
                v == one || v == tru
            },
            Option::None => false,
        }
    }
}

} // verus!
