use vstd::prelude::*;

verus! {

/// One configured generator: an optional command with its arguments, and the
/// glob patterns of the files it owns.
pub struct Generator {
    pub command: Option<String>,
    pub args: Option<Vec<String>>,
    pub patterns: Option<Vec<String>>,
}

/// The whole configuration: generators in the order in which they run.
pub struct Config {
    pub generators: Vec<Generator>,
}

/// Why a configuration was refused.
#[derive(PartialEq, Eq, Structural, Debug, Clone, Copy)]
pub enum ConfigError {
    /// The configuration lists no generator.
    NoGenerators,
}

/// The patterns of one generator; none when it lists no patterns.
pub open spec fn patterns_of(g: Generator) -> Seq<String> {
    match g.patterns {
        Some(v) => v@,
        None => Seq::empty(),
    }
}

/// All patterns of the given generators, generator by generator, each
/// generator's patterns in their order.
pub open spec fn all_patterns(gens: Seq<Generator>) -> Seq<String>
    decreases gens.len(),
{
    if gens.len() == 0 {
        Seq::empty()
    } else {
        all_patterns(gens.drop_last()) + patterns_of(gens.last())
    }
}

/// A configuration is usable when it lists at least one generator.
pub open spec fn config_is_valid(c: Config) -> bool {
    c.generators@.len() > 0
}

/// Copies a list of strings.
pub fn clone_strings(v: &Vec<String>) -> (r: Vec<String>)
    ensures
        r@ == v@,
{
    let mut r: Vec<String> = Vec::new();
    let mut i: usize = 0;
    while i < v.len()
        invariant
            i <= v@.len(),
            r@ == v@.subrange(0, i as int),
        decreases v@.len() - i,
    {
        r.push(v[i].clone());
        i = i + 1;
    }
    assert(r@ =~= v@);
    r
}

/// Accepts the configuration when it lists a generator, refuses it otherwise.
pub fn validate_config(config: Config) -> (r: Result<Config, ConfigError>)
    ensures
        config_is_valid(config) ==> r == Ok::<Config, ConfigError>(config),
        !config_is_valid(config) ==> r == Err::<Config, ConfigError>(ConfigError::NoGenerators),
{
    if config.generators.len() == 0 {
        Err(ConfigError::NoGenerators)
    } else {
        Ok(config)
    }
}

/// Every pattern of the configuration, generator by generator: the files that
/// are protected by the check and staged after generation.
pub fn protected_patterns(config: &Config) -> (r: Vec<String>)
    ensures
        r@ == all_patterns(config.generators@),
{
    let gens = &config.generators;
    let mut r: Vec<String> = Vec::new();
    let mut i: usize = 0;
    while i < gens.len()
        invariant
            i <= gens@.len(),
            r@ == all_patterns(gens@.subrange(0, i as int)),
        decreases gens@.len() - i,
    {
        let ghost before = r@;
        match &gens[i].patterns {
            Some(ps) => {
                let mut j: usize = 0;
                while j < ps.len()
                    invariant
                        j <= ps@.len(),
                        r@ == before + ps@.subrange(0, j as int),
                    decreases ps@.len() - j,
                {
                    r.push(ps[j].clone());
                    j = j + 1;
                }
                assert(ps@.subrange(0, j as int) =~= ps@);
            },
            None => {
                assert(r@ =~= before + Seq::<String>::empty());
            },
        }
        assert(gens@.subrange(0, i + 1).drop_last() =~= gens@.subrange(0, i as int));
        i = i + 1;
    }
    assert(gens@.subrange(0, i as int) =~= gens@);
    r
}

/// The nearest directory that holds the marker, given for the current
/// directory and then each of its ancestors up to the root whether it holds
/// the marker: the first index that does, or none.
pub fn nearest_ancestor(has_marker: &Vec<bool>) -> (r: Option<usize>)
    ensures
        r matches Some(i) ==> i < has_marker@.len() && has_marker@[i as int] && forall|k: int|
            0 <= k < i ==> !has_marker@[k],
        r is None ==> forall|k: int| 0 <= k < has_marker@.len() ==> !has_marker@[k],
{
    let mut i: usize = 0;
    while i < has_marker.len()
        invariant
            i <= has_marker@.len(),
            forall|k: int| 0 <= k < i ==> !has_marker@[k],
        decreases has_marker@.len() - i,
    {
        if has_marker[i] {
            return Some(i);
        }
        i = i + 1;
    }
    None
}

} // verus!
