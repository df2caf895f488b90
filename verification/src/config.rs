//! The `.now.yaml` data model: named commands, each a single step or a
//! pipeline of steps.
use vstd::prelude::*;

verus! {

/// One step of a configured command: a shell script run either on the host
/// or inside a container of the given image.
#[derive(Debug, Clone, PartialEq, Eq)]
pub struct Step {
    pub image: Option<String>,
    pub run: String,
    pub host: bool,
}

/// A configured command: one step, or a pipeline of steps run in order.
#[derive(Debug, Clone, PartialEq, Eq)]
pub enum Command {
    Single(Step),
    Pipeline { steps: Vec<Step> },
}

impl Command {
    /// The steps of a command, in the order they run.
    pub open spec fn spec_steps(&self) -> Seq<Step> {
        match self {
            Command::Single(step) => seq![*step],
            Command::Pipeline { steps } => steps@,
        }
    }

    /// Unfolds a command into the steps it runs, in order.
    pub fn into_steps(self) -> (r: Vec<Step>)
        ensures
            r@ == self.spec_steps(),
            match self {
                Command::Single(step) => r@.len() == 1 && r@[0] == step,
                Command::Pipeline { steps } => r@.len() == steps@.len() && forall|i: int|
                    0 <= i < steps@.len() ==> #[trigger] r@[i] == steps@[i],
            },
    {
        match self {
            Command::Single(step) => {
                let mut steps: Vec<Step> = Vec::new();
                steps.push(step);
                assert(steps@ =~= seq![step]);
                steps
            },
            Command::Pipeline { steps } => steps,
        }
    }
}

/// The plain values of a step: its image, its script, and whether it runs
/// on the host.
pub open spec fn step_view(s: Step) -> (Option<Seq<char>>, Seq<char>, bool) {
    (
        match s.image {
            Some(image) => Some(image@),
            None => None,
        },
        s.run@,
        s.host,
    )
}

/// The plain values of a command: whether it is a single step, and the
/// plain values of its steps in order.
pub open spec fn command_view(c: Command) -> (bool, Seq<(Option<Seq<char>>, Seq<char>, bool)>) {
    (c is Single, c.spec_steps().map_values(|s: Step| step_view(s)))
}

/// A copy of a step.
fn copy_step(s: &Step) -> (r: Step)
    ensures
        step_view(r) == step_view(*s),
{
    let image = match &s.image {
        Some(image) => Some(image.clone()),
        None => None,
    };
    Step { image, run: s.run.clone(), host: s.host }
}

/// A copy of a command.
fn copy_command(c: &Command) -> (r: Command)
    ensures
        command_view(r) == command_view(*c),
{
    match c {
        Command::Single(step) => {
            let r = Command::Single(copy_step(step));
            assert(command_view(r).1 =~= command_view(*c).1);
            r
        },
        Command::Pipeline { steps } => {
            let mut copied: Vec<Step> = Vec::new();
            let mut i: usize = 0;
            while i < steps.len()
                invariant
                    i <= steps@.len(),
                    copied@.len() == i,
                    forall|j: int| 0 <= j < i ==> #[trigger] step_view(copied@[j]) == step_view(steps@[j]),
                decreases steps@.len() - i,
            {
                copied.push(copy_step(&steps[i]));
                i = i + 1;
            }
            let r = Command::Pipeline { steps: copied };
            assert(command_view(r).1 =~= command_view(*c).1);
            r
        },
    }
}

/// The parsed contents of `.now.yaml`: commands by name.
///
/// No name occurs twice, so the entries form a map from names to commands.
#[derive(Debug)]
pub struct NowConfig {
    commands: Vec<(String, Command)>,
}

impl NowConfig {
    #[verifier::type_invariant]
    spec fn names_distinct(self) -> bool {
        forall|i: int, j: int|
            0 <= i < j < self.commands@.len() ==> #[trigger] self.commands@[i].0@
                != #[trigger] self.commands@[j].0@
    }

    /// Whether `name` is the name of the entry at index `i`.
    spec fn names_at(self, i: int, name: Seq<char>) -> bool {
        0 <= i < self.commands@.len() && self.commands@[i].0@ == name
    }

    /// The commands by name.
    pub closed spec fn view(&self) -> Map<Seq<char>, Command> {
        Map::new(
            |name: Seq<char>| exists|i: int| self.names_at(i, name),
            |name: Seq<char>| self.commands@[choose|i: int| self.names_at(i, name)].1,
        )
    }

    /// A configuration without commands.
    pub fn new() -> (r: NowConfig)
        ensures
            r.view() == Map::<Seq<char>, Command>::empty(),
    {
        let r = NowConfig { commands: Vec::new() };
        assert(r.view() =~= Map::<Seq<char>, Command>::empty());
        r
    }

    fn index_of(&self, name: &String) -> (r: Option<usize>)
        ensures
            match r {
                Some(i) => self.names_at(i as int, name@),
                None => forall|i: int| !self.names_at(i, name@),
            },
    {
        let mut i: usize = 0;
        while i < self.commands.len()
            invariant
                i <= self.commands@.len(),
                forall|j: int| 0 <= j < i ==> !self.names_at(j, name@),
            decreases self.commands@.len() - i,
        {
            if self.commands[i].0 == *name {
                return Some(i);
            }
            i = i + 1;
        }
        None
    }

    /// Sets the command of a name, replacing any command it had.
    pub fn insert(&mut self, name: String, command: Command)
        ensures
            final(self).view() == old(self).view().insert(name@, command),
    {
        proof {
            use_type_invariant(&*self);
        }
        let ghost old_self = *self;
        let ghost key = name@;
        let found = self.index_of(&name);
        let mut commands: Vec<(String, Command)> = Vec::new();
        std::mem::swap(&mut commands, &mut self.commands);
        let ghost old_commands = commands@;
        match found {
            Some(i) => {
                commands.set(i, (name, command));
                proof {
                    assert(commands@ == old_commands.update(i as int, (name, command)));
                    assert forall|a: int, b: int|
                        0 <= a < b < commands@.len() implies #[trigger] commands@[a].0@
                        != #[trigger] commands@[b].0@ by {
                        assert(old_self.commands@[a].0@ != old_self.commands@[b].0@);
                    }
                }
                self.commands = commands;
                assert(self.names_at(i as int, key));
            },
            None => {
                commands.push((name, command));
                proof {
                    assert(commands@ == old_commands.push((name, command)));
                    assert forall|a: int, b: int|
                        0 <= a < b < commands@.len() implies #[trigger] commands@[a].0@
                        != #[trigger] commands@[b].0@ by {
                        if b < old_commands.len() {
                            assert(old_self.commands@[a].0@ != old_self.commands@[b].0@);
                        } else {
                            assert(!old_self.names_at(a, key));
                        }
                    }
                }
                self.commands = commands;
                assert(self.names_at(old_commands.len() as int, key));
            },
        }
        proof {
            Self::lemma_view_insert(old_self, *self, key, command);
        }
    }

    /// When the entries of `new` are those of `old` with the entry of `key`
    /// set to `command`, the view of `new` is that of `old` updated so.
    proof fn lemma_view_insert(old_cfg: NowConfig, new_cfg: NowConfig, key: Seq<char>, command: Command)
        requires
            old_cfg.names_distinct(),
            new_cfg.names_distinct(),
            exists|i: int| #[trigger] new_cfg.names_at(i, key) && new_cfg.commands@[i].1 == command,
            forall|k: Seq<char>, i: int|
                k != key ==> (#[trigger] new_cfg.names_at(i, k) <==> old_cfg.names_at(i, k)),
            forall|k: Seq<char>, i: int|
                k != key && #[trigger] new_cfg.names_at(i, k) ==> new_cfg.commands@[i].1
                    == old_cfg.commands@[i].1,
        ensures
            new_cfg.view() == old_cfg.view().insert(key, command),
    {
        let m = old_cfg.view().insert(key, command);
        assert forall|k: Seq<char>| new_cfg.view().contains_key(k) <==> m.contains_key(k) by {
            if k != key {
                if new_cfg.view().contains_key(k) {
                    let i = choose|i: int| new_cfg.names_at(i, k);
                    assert(old_cfg.names_at(i, k));
                }
                if old_cfg.view().contains_key(k) {
                    let i = choose|i: int| old_cfg.names_at(i, k);
                    assert(new_cfg.names_at(i, k));
                }
            }
        }
        assert forall|k: Seq<char>| new_cfg.view().contains_key(k) implies new_cfg.view()[k] == m[k] by {
            let i = choose|i: int| new_cfg.names_at(i, k);
            if k == key {
                let w = choose|w: int| #[trigger] new_cfg.names_at(w, key) && new_cfg.commands@[w].1 == command;
                if i != w {
                    if i < w {
                        assert(new_cfg.commands@[i].0@ != new_cfg.commands@[w].0@);
                    } else {
                        assert(new_cfg.commands@[w].0@ != new_cfg.commands@[i].0@);
                    }
                }
            } else {
                let j = choose|j: int| old_cfg.names_at(j, k);
                assert(old_cfg.names_at(i, k));
                if i != j {
                    if i < j {
                        assert(old_cfg.commands@[i].0@ != old_cfg.commands@[j].0@);
                    } else {
                        assert(old_cfg.commands@[j].0@ != old_cfg.commands@[i].0@);
                    }
                }
            }
        }
        assert(new_cfg.view() =~= m);
    }

    /// The command of a name, if the configuration has one.
    pub fn get(&self, name: &String) -> (r: Option<&Command>)
        ensures
            match r {
                Some(command) => self.view().contains_key(name@) && *command == self.view()[name@],
                None => !self.view().contains_key(name@),
            },
    {
        proof {
            use_type_invariant(self);
        }
        match self.index_of(name) {
            Some(i) => {
                proof {
                    assert(self.names_at(i as int, name@));
                }
                Some(&self.commands[i].1)
            },
            None => None,
        }
    }

    /// The names that have a command, each once.
    pub fn names(&self) -> (r: Vec<String>)
        ensures
            forall|i: int, j: int| 0 <= i < j < r@.len() ==> r@[i]@ != r@[j]@,
            forall|name: Seq<char>|
                self.view().contains_key(name) <==> exists|i: int|
                    0 <= i < r@.len() && #[trigger] r@[i]@ == name,
    {
        proof {
            use_type_invariant(self);
        }
        let mut r: Vec<String> = Vec::new();
        let mut i: usize = 0;
        while i < self.commands.len()
            invariant
                i <= self.commands@.len(),
                r@.len() == i,
                forall|j: int| 0 <= j < i ==> #[trigger] r@[j]@ == self.commands@[j].0@,
                forall|a: int, b: int|
                    0 <= a < b < self.commands@.len() ==> #[trigger] self.commands@[a].0@
                        != #[trigger] self.commands@[b].0@,
            decreases self.commands@.len() - i,
        {
            r.push(self.commands[i].0.clone());
            i = i + 1;
        }
        proof {
            assert forall|name: Seq<char>|
                self.view().contains_key(name) implies exists|i: int|
                    0 <= i < r@.len() && #[trigger] r@[i]@ == name by {
                let k = choose|k: int| self.names_at(k, name);
                assert(r@[k]@ == name);
            }
            assert forall|name: Seq<char>|
                (exists|i: int| 0 <= i < r@.len() && #[trigger] r@[i]@ == name) implies self.view().contains_key(name) by {
                let k = choose|k: int| 0 <= k < r@.len() && #[trigger] r@[k]@ == name;
                assert(self.names_at(k, name));
            }
        }
        r
    }
}

impl Clone for NowConfig {
    /// A copy of the configuration: the same names, each with a copy of its
    /// command.
    fn clone(&self) -> (r: Self)
        ensures
            forall|name: Seq<char>| r.view().contains_key(name) == self.view().contains_key(name),
            forall|name: Seq<char>|
                self.view().contains_key(name) ==> command_view(#[trigger] r.view()[name])
                    == command_view(self.view()[name]),
    {
        proof {
            use_type_invariant(self);
        }
        let mut commands: Vec<(String, Command)> = Vec::new();
        let mut i: usize = 0;
        while i < self.commands.len()
            invariant
                i <= self.commands@.len(),
                commands@.len() == i,
                forall|j: int| 0 <= j < i ==> #[trigger] commands@[j].0@ == self.commands@[j].0@,
                forall|j: int| 0 <= j < i ==> command_view(#[trigger] commands@[j].1) == command_view(self.commands@[j].1),
                self.names_distinct(),
            decreases self.commands@.len() - i,
        {
            commands.push((self.commands[i].0.clone(), copy_command(&self.commands[i].1)));
            i = i + 1;
        }
        proof {
            assert forall|a: int, b: int|
                0 <= a < b < commands@.len() implies #[trigger] commands@[a].0@
                != #[trigger] commands@[b].0@ by {
                assert(self.commands@[a].0@ != self.commands@[b].0@);
            }
        }
        let r = NowConfig { commands };
        proof {
            assert forall|name: Seq<char>, k: int| #[trigger] r.names_at(k, name) == self.names_at(k, name) by {}
            assert forall|name: Seq<char>| r.view().contains_key(name) == self.view().contains_key(name) by {
                if r.view().contains_key(name) {
                    let k = choose|k: int| r.names_at(k, name);
                    assert(self.names_at(k, name));
                }
                if self.view().contains_key(name) {
                    let k = choose|k: int| self.names_at(k, name);
                    assert(r.names_at(k, name));
                }
            }
            assert forall|name: Seq<char>| self.view().contains_key(name) implies command_view(#[trigger] r.view()[name])
                == command_view(self.view()[name]) by {
                let a = choose|k: int| r.names_at(k, name);
                let b = choose|k: int| self.names_at(k, name);
                assert(r.names_at(b, name));
                assert(r.names_at(a, name));
                if a != b {
                    if a < b {
                        assert(r.commands@[a].0@ != r.commands@[b].0@);
                    } else {
                        assert(r.commands@[b].0@ != r.commands@[a].0@);
                    }
                }
            }
        }
        r
    }
}

/// Setting the command of a name makes the name give that command and
/// leaves every other name as it was.
pub proof fn law_lookup_after_insert(
    before: NowConfig,
    after: NowConfig,
    name: Seq<char>,
    command: Command,
    other: Seq<char>,
)
    requires
        after.view() == before.view().insert(name, command),
        other != name,
    ensures
        after.view().contains_key(name),
        after.view()[name] == command,
        after.view().contains_key(other) == before.view().contains_key(other),
        before.view().contains_key(other) ==> after.view()[other] == before.view()[other],
{
}

/// A command runs exactly its own steps, in order: a single step is the
/// one step run, and a pipeline runs every one of its steps, each at its
/// own position, and nothing else.
pub proof fn law_command_runs_all_its_steps(c: Command)
    ensures
        match c {
            Command::Single(step) => c.spec_steps().len() == 1 && c.spec_steps()[0] == step,
            Command::Pipeline { steps } => c.spec_steps().len() == steps@.len() && forall|i: int|
                0 <= i < steps@.len() ==> #[trigger] c.spec_steps()[i] == steps@[i],
        },
{
}

} // verus!
