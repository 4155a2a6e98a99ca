//! The environment variables that the worker process is given.

use vstd::prelude::*;

use crate::config::Config;
use crate::config::ConfigView;
use crate::text::same_text;

verus! {

/// Where the Hugging Face cache is by default.
pub const DEFAULT_HF_HOME: &'static str = ".layad/hf";

/// Environment variables. No two of them have the same name.
#[derive(Debug)]
pub struct Environment {
    entries: Vec<(String, String)>,
}

impl Environment {
    #[verifier::type_invariant]
    spec fn names_are_distinct(self) -> bool {
        forall|i: int, j: int|
            0 <= i < j < self.entries@.len() ==> #[trigger] self.entries@[i].0@
                != #[trigger] self.entries@[j].0@
    }

    spec fn holds(self, i: int, name: Seq<char>) -> bool {
        0 <= i < self.entries@.len() && self.entries@[i].0@ == name
    }

    /// The names and values of the variables, in order.
    pub closed spec fn pairs(self) -> Seq<(Seq<char>, Seq<char>)> {
        Seq::new(self.entries@.len(), |i: int| (self.entries@[i].0@, self.entries@[i].1@))
    }
}

impl View for Environment {
    type V = Map<Seq<char>, Seq<char>>;

    closed spec fn view(&self) -> Map<Seq<char>, Seq<char>> {
        Map::new(
            |name: Seq<char>| exists|i: int| #[trigger] self.holds(i, name),
            |name: Seq<char>| self.entries@[choose|i: int| #[trigger] self.holds(i, name)].1@,
        )
    }
}

impl Environment {
    proof fn lemma_value(self, i: int)
        requires
            self.names_are_distinct(),
            0 <= i < self.entries@.len(),
        ensures
            self@.contains_key(self.entries@[i].0@),
            self@[self.entries@[i].0@] == self.entries@[i].1@,
    {
        let name = self.entries@[i].0@;
        assert(self.holds(i, name));
        let j = choose|j: int| #[trigger] self.holds(j, name);
        if j < i {
            assert(self.entries@[j].0@ != self.entries@[i].0@);
        } else if i < j {
            assert(self.entries@[i].0@ != self.entries@[j].0@);
        }
    }

    /// No variables.
    pub fn new() -> (res: Self)
        ensures
            res.pairs() == Seq::<(Seq<char>, Seq<char>)>::empty(),
            res@ == Map::<Seq<char>, Seq<char>>::empty(),
    {
        let res = Environment { entries: Vec::new() };
        assert(res.pairs() =~= Seq::empty());
        assert(res@ =~= Map::empty());
        res
    }

    /// The number of variables; each of them has a position below it.
    pub fn len(&self) -> (res: usize)
        ensures
            res == self.pairs().len(),
            forall|name: Seq<char>| #[trigger]
                self@.contains_key(name) ==> exists|i: int|
                    0 <= i < res && (#[trigger] self.pairs()[i]).0 == name,
    {
        proof {
            assert forall|name: Seq<char>| #[trigger] self@.contains_key(name) implies exists|i: int|
                0 <= i < self.pairs().len() && (#[trigger] self.pairs()[i]).0 == name by {
                let i = choose|i: int| #[trigger] self.holds(i, name);
                assert(self.pairs()[i].0 == name);
            }
        }
        self.entries.len()
    }

    /// The name of the variable at position `i`.
    pub fn name_at(&self, i: usize) -> (res: &str)
        requires
            i < self.pairs().len(),
        ensures
            res@ == self.pairs()[i as int].0,
            self@.contains_key(res@),
    {
        proof {
            use_type_invariant(self);
            self.lemma_value(i as int);
        }
        self.entries[i].0.as_str()
    }

    /// The value of the variable at position `i`.
    pub fn value_at(&self, i: usize) -> (res: &str)
        requires
            i < self.pairs().len(),
        ensures
            res@ == self.pairs()[i as int].1,
            res@ == self@[self.pairs()[i as int].0],
    {
        proof {
            use_type_invariant(self);
            self.lemma_value(i as int);
        }
        self.entries[i].1.as_str()
    }

    fn position(&self, name: &str) -> (res: Option<usize>)
        ensures
            match res {
                Some(i) => self.holds(i as int, name@),
                None => forall|i: int| !#[trigger] self.holds(i, name@),
            },
    {
        let mut i: usize = 0;
        while i < self.entries.len()
            invariant
                i <= self.entries@.len(),
                forall|j: int| 0 <= j < i ==> !#[trigger] self.holds(j, name@),
            decreases self.entries@.len() - i,
        {
            if same_text(self.entries[i].0.as_str(), name) {
                assert(self.holds(i as int, name@));
                return Some(i);
            }
            i = i + 1;
        }
        None
    }

    /// The value of the variable `name`, if it is set.
    pub fn get(&self, name: &str) -> (res: Option<&str>)
        ensures
            match res {
                Some(value) => self@.contains_key(name@) && self@[name@] == value@,
                None => !self@.contains_key(name@),
            },
    {
        proof {
            use_type_invariant(self);
        }
        match self.position(name) {
            Some(i) => {
                proof {
                    self.lemma_value(i as int);
                }
                Some(self.entries[i].1.as_str())
            },
            None => None,
        }
    }

    /// Sets a variable; a value that it had before is gone.
    pub fn set(&mut self, name: &str, value: &str)
        ensures
            final(self)@ == old(self)@.insert(name@, value@),
    {
        let ghost before = *self;
        proof {
            use_type_invariant(&*self);
        }
        let place = self.position(name);
        let mut entries: Vec<(String, String)> = Vec::new();
        std::mem::swap(&mut entries, &mut self.entries);
        match place {
            Some(i) => {
                assert(before.holds(i as int, name@));
                entries.set(i, (name.to_owned(), value.to_owned()));
            },
            None => {
                assert forall|i: int| 0 <= i < before.entries@.len() implies
                    #[trigger] before.entries@[i].0@ != name@ by {
                    assert(!before.holds(i, name@));
                }
                entries.push((name.to_owned(), value.to_owned()));
            },
        }
        let ghost place = match place {
            Some(i) => i as int,
            None => before.entries@.len() as int,
        };
        self.entries = entries;
        proof {
            assert forall|k: Seq<char>|
                self@.contains_key(k) <==> before@.insert(name@, value@).contains_key(k) by {
                if self@.contains_key(k) && k != name@ {
                    let i = choose|i: int| #[trigger] self.holds(i, k);
                    assert(before.holds(i, k));
                }
                if before@.contains_key(k) && k != name@ {
                    let i = choose|i: int| #[trigger] before.holds(i, k);
                    assert(self.holds(i, k));
                }
                if k == name@ {
                    assert(self.holds(place, k));
                }
            }
            assert forall|k: Seq<char>| self@.contains_key(k) implies self@[k] == before@.insert(
                name@,
                value@,
            )[k] by {
                let i = choose|i: int| #[trigger] self.holds(i, k);
                self.lemma_value(i);
                if k == name@ {
                    self.lemma_value(place);
                } else {
                    assert(before.holds(i, k));
                    before.lemma_value(i);
                }
            }
            assert(self@ =~= before@.insert(name@, value@));
        }
    }
}

/// The variables with those of a list set on top, the later ones last.
pub open spec fn overlaid(
    base: Map<Seq<char>, Seq<char>>,
    pairs: Seq<(Seq<char>, Seq<char>)>,
) -> Map<Seq<char>, Seq<char>>
    decreases pairs.len(),
{
    if pairs.len() == 0 {
        base
    } else {
        overlaid(base, pairs.drop_last()).insert(pairs.last().0, pairs.last().1)
    }
}

/// The variables that the worker has by default; `hf_home` is where the daemon's own
/// environment says that the Hugging Face cache is.
pub open spec fn base_environment(config: ConfigView, hf_home: Option<Seq<char>>) -> Map<
    Seq<char>,
    Seq<char>,
> {
    Map::<Seq<char>, Seq<char>>::empty().insert("PYTHONUNBUFFERED"@, "1"@).insert(
        "PYTHONIOENCODING"@,
        "utf-8"@,
    ).insert("LAYAD_MODEL"@, config.model).insert("LAYAD_DEVICE"@, config.device.name()).insert(
        "LAYAD_CHECKPOINT"@,
        config.checkpoint.name(),
    ).insert(
        "HF_HOME"@,
        match hf_home {
            Some(path) => path,
            None => DEFAULT_HF_HOME@,
        },
    )
}

/// The variables that the worker process is given.
pub open spec fn worker_environment(config: ConfigView, hf_home: Option<Seq<char>>) -> Map<
    Seq<char>,
    Seq<char>,
> {
    overlaid(base_environment(config, hf_home), config.python_env)
}

/// Environment the worker is given on top of what it inherits; `hf_home` is the value of
/// `HF_HOME` in the daemon's own environment.
pub fn worker_env(config: &Config, hf_home: Option<&str>) -> (res: Environment)
    ensures
        res@ == worker_environment(
            config@,
            match hf_home {
                Some(path) => Some(path@),
                None => None,
            },
        ),
{
    let home = match hf_home {
        Some(path) => path,
        None => DEFAULT_HF_HOME,
    };
    let mut env = Environment::new();
    env.set("PYTHONUNBUFFERED", "1");
    env.set("PYTHONIOENCODING", "utf-8");
    env.set("LAYAD_MODEL", config.model.as_str());
    env.set("LAYAD_DEVICE", config.device.as_str());
    env.set("LAYAD_CHECKPOINT", config.checkpoint.as_str());
    env.set("HF_HOME", home);
    let ghost base = env@;
    let ghost all = config@.python_env;
    let mut i: usize = 0;
    assert(all.take(0) =~= Seq::empty());
    while i < config.python_env.len()
        invariant
            i <= config.python_env@.len(),
            all == config@.python_env,
            env@ == overlaid(base, all.take(i as int)),
        decreases config.python_env@.len() - i,
    {
        assert(all.take(i + 1).drop_last() =~= all.take(i as int));
        assert(all.take(i + 1).last() == all[i as int]);
        env.set(config.python_env[i].0.as_str(), config.python_env[i].1.as_str());
        i = i + 1;
    }
    assert(all.take(i as int) =~= all);
    env
}

/// A variable of the list has the value that the list gives it last, and every other variable
/// is as it was.
pub proof fn lemma_overlaid(
    base: Map<Seq<char>, Seq<char>>,
    pairs: Seq<(Seq<char>, Seq<char>)>,
    name: Seq<char>,
)
    ensures
        (forall|i: int| 0 <= i < pairs.len() ==> (#[trigger] pairs[i]).0 != name) ==> (overlaid(
            base,
            pairs,
        ).contains_key(name) <==> base.contains_key(name)) && overlaid(base, pairs)[name]
            == base[name],
        forall|i: int|
            0 <= i < pairs.len() && (#[trigger] pairs[i]).0 == name && (forall|j: int|
                i < j < pairs.len() ==> (#[trigger] pairs[j]).0 != name) ==> overlaid(
                base,
                pairs,
            ).contains_key(name) && overlaid(base, pairs)[name] == pairs[i].1,
    decreases pairs.len(),
{
    if pairs.len() > 0 {
        let front = pairs.drop_last();
        lemma_overlaid(base, front, name);
        assert(pairs.last() == pairs[pairs.len() - 1]);
        assert forall|i: int| 0 <= i < front.len() implies front[i] == pairs[i] by {}
        if pairs.last().0 != name {
            assert forall|i: int|
                0 <= i < pairs.len() && (#[trigger] pairs[i]).0 == name && (forall|j: int|
                    i < j < pairs.len() ==> (#[trigger] pairs[j]).0 != name) implies overlaid(
                base,
                pairs,
            ).contains_key(name) && overlaid(base, pairs)[name] == pairs[i].1 by {
                assert(front[i].0 == name);
            }
        }
    }
}

/// What the operator sets for the worker wins over every default, `HF_HOME` among them.
pub proof fn lemma_operator_variables_win(
    config: ConfigView,
    hf_home: Option<Seq<char>>,
    at: int,
)
    requires
        0 <= at < config.python_env.len(),
        forall|j: int|
            at < j < config.python_env.len() ==> (#[trigger] config.python_env[j]).0
                != config.python_env[at].0,
    ensures
        worker_environment(config, hf_home).contains_key(config.python_env[at].0),
        worker_environment(config, hf_home)[config.python_env[at].0] == config.python_env[at].1,
{
    lemma_overlaid(base_environment(config, hf_home), config.python_env, config.python_env[at].0);
}

/// Unless the operator sets it for the worker, the Hugging Face cache is where the daemon's own
/// environment says, or else in the project; and the worker is told the selected checkpoint.
pub proof fn lemma_worker_defaults(config: ConfigView, hf_home: Option<Seq<char>>)
    requires
        forall|i: int|
            0 <= i < config.python_env.len() ==> (#[trigger] config.python_env[i]).0 != "HF_HOME"@
                && config.python_env[i].0 != "LAYAD_CHECKPOINT"@,
    ensures
        ({
            let env = worker_environment(config, hf_home);
            &&& env.contains_key("HF_HOME"@)
            &&& env["HF_HOME"@] == match hf_home {
                Some(path) => path,
                None => DEFAULT_HF_HOME@,
            }
            &&& env.contains_key("LAYAD_CHECKPOINT"@)
            &&& env["LAYAD_CHECKPOINT"@] == config.checkpoint.name()
        }),
{
    let base = base_environment(config, hf_home);
    lemma_overlaid(base, config.python_env, "HF_HOME"@);
    lemma_overlaid(base, config.python_env, "LAYAD_CHECKPOINT"@);
    reveal_strlit("HF_HOME");
    reveal_strlit("LAYAD_CHECKPOINT");
    assert("HF_HOME"@.len() != "LAYAD_CHECKPOINT"@.len());
}

/// The worker is given exactly the six variables that it has by default and those that the
/// operator sets. Unless the operator sets it, each of the six has its default: output that is not
/// held back, UTF-8, the configured model, device and checkpoint, and the place of the cache.
pub proof fn lemma_worker_environment_is_complete(
    config: ConfigView,
    hf_home: Option<Seq<char>>,
    name: Seq<char>,
)
    ensures
        ({
            let env = worker_environment(config, hf_home);
            let set = exists|i: int|
                0 <= i < config.python_env.len() && (#[trigger] config.python_env[i]).0 == name;
            let known = name == "PYTHONUNBUFFERED"@ || name == "PYTHONIOENCODING"@ || name
                == "LAYAD_MODEL"@ || name == "LAYAD_DEVICE"@ || name == "LAYAD_CHECKPOINT"@ || name
                == "HF_HOME"@;
            &&& env.contains_key(name) <==> set || known
            &&& !set && name == "PYTHONUNBUFFERED"@ ==> env[name] == "1"@
            &&& !set && name == "PYTHONIOENCODING"@ ==> env[name] == "utf-8"@
            &&& !set && name == "LAYAD_MODEL"@ ==> env[name] == config.model
            &&& !set && name == "LAYAD_DEVICE"@ ==> env[name] == config.device.name()
            &&& !set && name == "LAYAD_CHECKPOINT"@ ==> env[name] == config.checkpoint.name()
            &&& !set && name == "HF_HOME"@ ==> env[name] == match hf_home {
                Some(path) => path,
                None => ".layad/hf"@,
            }
        }),
{
    reveal_strlit("PYTHONUNBUFFERED");
    reveal_strlit("PYTHONIOENCODING");
    reveal_strlit("LAYAD_MODEL");
    reveal_strlit("LAYAD_DEVICE");
    reveal_strlit("LAYAD_CHECKPOINT");
    reveal_strlit("HF_HOME");
    assert("PYTHONUNBUFFERED"@.len() == 16 && "PYTHONIOENCODING"@.len() == 16);
    assert("LAYAD_MODEL"@.len() == 11 && "LAYAD_DEVICE"@.len() == 12);
    assert("LAYAD_CHECKPOINT"@.len() == 16 && "HF_HOME"@.len() == 7);
    assert("PYTHONUNBUFFERED"@[6] == 'U' && "PYTHONIOENCODING"@[6] == 'I');
    assert("LAYAD_CHECKPOINT"@[6] == 'C');
    let base = base_environment(config, hf_home);
    lemma_overlaid(base, config.python_env, name);
    let set = exists|i: int|
        0 <= i < config.python_env.len() && (#[trigger] config.python_env[i]).0 == name;
    if set {
        lemma_listed_is_set(base, config.python_env, name);
    } else {
        assert(forall|i: int|
            0 <= i < config.python_env.len() ==> (#[trigger] config.python_env[i]).0 != name);
    }
}

proof fn lemma_listed_is_set(
    base: Map<Seq<char>, Seq<char>>,
    pairs: Seq<(Seq<char>, Seq<char>)>,
    name: Seq<char>,
)
    requires
        exists|i: int| 0 <= i < pairs.len() && (#[trigger] pairs[i]).0 == name,
    ensures
        overlaid(base, pairs).contains_key(name),
    decreases pairs.len(),
{
    let i = choose|i: int| 0 <= i < pairs.len() && (#[trigger] pairs[i]).0 == name;
    if pairs.last().0 != name {
        assert(pairs.drop_last()[i].0 == name);
        lemma_listed_is_set(base, pairs.drop_last(), name);
    }
}

} // verus!
