//! The parts of a scripted procedure: its steps, the store of values that
//! the steps pass to one another, and the account of what a script found
//! missing before it ran.

use vstd::hash_map::StringHashMap;
use vstd::prelude::*;
use vstd::slice::slice_to_vec;

verus! {

/// A step in a scripted procedure: a label, the action to perform, and the
/// commands that the action expects to launch.
pub struct ScriptStep<A> {
    label: &'static str,
    action: A,
    prereq_commands: Vec<&'static str>,
}

/// A step as its label, its action and the commands that it expects to
/// launch.
pub struct StepView<A> {
    pub label: Seq<char>,
    pub action: A,
    pub commands: Seq<Seq<char>>,
}

impl<A> View for ScriptStep<A> {
    type V = StepView<A>;

    open spec fn view(&self) -> StepView<A> {
        StepView {
            label: self.label_view(),
            action: self.action_view(),
            commands: self.commands_view(),
        }
    }
}

/// The steps of a script, each as its label, action and commands.
pub open spec fn script_view<A>(steps: Seq<ScriptStep<A>>) -> Seq<StepView<A>> {
    Seq::new(steps.len(), |i: int| steps[i]@)
}

impl<A> ScriptStep<A> {
    /// The step's label.
    pub closed spec fn label_view(&self) -> Seq<char> {
        self.label@
    }

    /// The step's action.
    pub closed spec fn action_view(&self) -> A {
        self.action
    }

    /// The commands that the step expects to launch, in the order given.
    pub closed spec fn commands_view(&self) -> Seq<Seq<char>> {
        self.prereq_commands.deep_view()
    }

    /// A step that launches no commands.
    pub fn new(label: &'static str, action: A) -> (step: Self)
        ensures
            step.label_view() == label@,
            step.action_view() == action,
            step.commands_view() == Seq::<Seq<char>>::empty(),
    {
        let step = ScriptStep { label, action, prereq_commands: Vec::new() };
        assert(step.prereq_commands.deep_view() =~= Seq::<Seq<char>>::empty());
        step
    }

    /// A step that expects to launch `commands`.
    pub fn with_prereqs(label: &'static str, action: A, commands: &[&'static str]) -> (step: Self)
        ensures
            step.label_view() == label@,
            step.action_view() == action,
            step.commands_view() == commands.deep_view(),
    {
        let step = ScriptStep { label, action, prereq_commands: slice_to_vec(commands) };
        assert(step.prereq_commands.deep_view() =~= commands.deep_view());
        step
    }

    /// The commands that the step expects to launch.
    pub fn prereq_commands(&self) -> (commands: &[&'static str])
        ensures
            commands.deep_view() == self.commands_view(),
    {
        let commands = self.prereq_commands.as_slice();
        assert(commands.deep_view() =~= self.prereq_commands.deep_view());
        commands
    }

    /// The step's label.
    pub fn label(&self) -> (label: &'static str)
        ensures
            label@ == self.label_view(),
    {
        self.label
    }

    /// The step's action.
    pub fn action(&self) -> (action: &A)
        ensures
            *action == self.action_view(),
    {
        &self.action
    }

    /// Runs the step: hands its action to `perform` and returns what
    /// `perform` makes of it.
    pub fn run<R, F: FnOnce(&A) -> R>(&self, perform: F) -> (result: R)
        requires
            call_requires(perform, (&self.action_view(),)),
        ensures
            call_ensures(perform, (&self.action_view(),), result),
    {
        perform(&self.action)
    }
}

/// What a script found missing before it ran.
#[derive(Debug)]
pub struct MissingPrerequisites {
    /// Conditions that keep the script from working at all.
    errors: Vec<String>,
    /// Conditions that may keep the script from working as intended, but
    /// that the user may have meant.
    warnings: Vec<String>,
}

/// What to do with a script once its prerequisites have been checked.
#[derive(Clone, Copy, Debug, PartialEq, Eq, Structural)]
pub enum Verdict {
    /// Nothing is missing: run the script.
    Proceed,
    /// There are warnings only: show them and run the script.
    ProceedWithWarnings,
    /// There are errors: show them, and the warnings if there are any, and
    /// do not run the script.
    Abort,
}

impl MissingPrerequisites {
    /// The errors, in the order in which they were added.
    pub closed spec fn errors_view(&self) -> Seq<Seq<char>> {
        self.errors.deep_view()
    }

    /// The warnings, in the order in which they were added.
    pub closed spec fn warnings_view(&self) -> Seq<Seq<char>> {
        self.warnings.deep_view()
    }

    /// An account with the given errors and warnings.
    pub fn from_messages(errors: Vec<String>, warnings: Vec<String>) -> (missing: Self)
        ensures
            missing.errors_view() == errors.deep_view(),
            missing.warnings_view() == warnings.deep_view(),
    {
        MissingPrerequisites { errors, warnings }
    }

    /// Adds an error after those already there.
    pub fn add_error(&mut self, error: String)
        ensures
            final(self).errors_view() == old(self).errors_view().push(error@),
            final(self).warnings_view() == old(self).warnings_view(),
    {
        self.errors.push(error);
        assert(self.errors.deep_view() =~= old(self).errors.deep_view().push(error@));
    }

    /// Adds a warning after those already there.
    pub fn add_warning(&mut self, warning: String)
        ensures
            final(self).warnings_view() == old(self).warnings_view().push(warning@),
            final(self).errors_view() == old(self).errors_view(),
    {
        self.warnings.push(warning);
        assert(self.warnings.deep_view() =~= old(self).warnings.deep_view().push(warning@));
    }

    /// The errors.
    pub fn errors(&self) -> (errors: &Vec<String>)
        ensures
            errors.deep_view() == self.errors_view(),
    {
        &self.errors
    }

    /// The warnings.
    pub fn warnings(&self) -> (warnings: &Vec<String>)
        ensures
            warnings.deep_view() == self.warnings_view(),
    {
        &self.warnings
    }

    /// What to do with the script: errors stop it, warnings alone do not.
    pub fn verdict(&self) -> (verdict: Verdict)
        ensures
            verdict == if self.errors_view().len() > 0 {
                Verdict::Abort
            } else if self.warnings_view().len() > 0 {
                Verdict::ProceedWithWarnings
            } else {
                Verdict::Proceed
            },
    {
        if self.errors.len() > 0 {
            Verdict::Abort
        } else if self.warnings.len() > 0 {
            Verdict::ProceedWithWarnings
        } else {
            Verdict::Proceed
        }
    }
}

impl Default for MissingPrerequisites {
    /// An account with nothing missing.
    fn default() -> (missing: Self)
        ensures
            missing.errors_view() == Seq::<Seq<char>>::empty(),
            missing.warnings_view() == Seq::<Seq<char>>::empty(),
    {
        let missing = MissingPrerequisites { errors: Vec::new(), warnings: Vec::new() };
        assert(missing.errors.deep_view() =~= Seq::<Seq<char>>::empty());
        assert(missing.warnings.deep_view() =~= Seq::<Seq<char>>::empty());
        missing
    }
}

/// The store of named values that the steps of a running script share. A
/// step leaves values in it for the steps that follow.
pub struct Context {
    vars: StringHashMap<String>,
}

impl View for Context {
    type V = Map<Seq<char>, Seq<char>>;

    closed spec fn view(&self) -> Map<Seq<char>, Seq<char>> {
        self.vars@.map_values(|value: String| value@)
    }
}

impl Context {
    /// A store without values.
    pub fn new() -> (ctx: Self)
        ensures
            ctx@ == Map::<Seq<char>, Seq<char>>::empty(),
    {
        let ctx = Context { vars: StringHashMap::new() };
        assert(ctx@ =~= Map::<Seq<char>, Seq<char>>::empty());
        ctx
    }

    /// The value of `var`, or `None` if the store has none.
    pub fn get_var(&self, var: &str) -> (value: Option<&str>)
        ensures
            match value {
                Some(value) => self@.contains_key(var@) && value@ == self@[var@],
                None => !self@.contains_key(var@),
            },
    {
        match self.vars.get(var) {
            Some(value) => Some(value.as_str()),
            None => None,
        }
    }

    /// Sets the value of `var` to `value`, and returns the value that `var`
    /// had before, if it had one.
    pub fn set_var(&mut self, var: &str, value: String) -> (previous: Option<String>)
        ensures
            final(self)@ == old(self)@.insert(var@, value@),
            match previous {
                Some(previous) => old(self)@.contains_key(var@) && previous@ == old(self)@[var@],
                None => !old(self)@.contains_key(var@),
            },
    {
        let previous = match self.vars.get(var) {
            Some(held) => Some(held.clone()),
            None => None,
        };
        self.vars.insert(var.to_owned(), value);
        assert(self@ =~= old(self)@.insert(var@, value@));
        previous
    }
}

/// A value that a step needs and the store does not hold.
#[derive(Debug)]
pub struct MissingVar {
    /// The name of the value.
    pub name: String,
}

/// The first of `names` for which `vars` holds no value.
pub open spec fn first_missing(vars: Map<Seq<char>, Seq<char>>, names: Seq<Seq<char>>) -> Option<
    Seq<char>,
>
    decreases names.len(),
{
    if names.len() == 0 {
        None
    } else if !vars.contains_key(names[0]) {
        Some(names[0])
    } else {
        first_missing(vars, names.drop_first())
    }
}

impl Context {
    /// The value of `var`, or the complaint that the store has none.
    pub fn require(&self, var: &str) -> (value: Result<&str, MissingVar>)
        ensures
            match value {
                Ok(value) => self@.contains_key(var@) && value@ == self@[var@],
                Err(missing) => !self@.contains_key(var@) && missing.name@ == var@,
            },
    {
        match self.get_var(var) {
            Some(value) => Ok(value),
            None => Err(MissingVar { name: var.to_owned() }),
        }
    }
}

/// A command to launch: the program and its arguments.
#[derive(Debug)]
pub struct CommandLine {
    pub program: String,
    pub arguments: Vec<String>,
}

/// A command as the text of its program and of its arguments.
pub struct CommandView {
    pub program: Seq<char>,
    pub arguments: Seq<Seq<char>>,
}

impl DeepView for CommandLine {
    type V = CommandView;

    open spec fn deep_view(&self) -> CommandView {
        CommandView { program: self.program@, arguments: self.arguments.deep_view() }
    }
}

/// What a step does that comes down to one command: the directories to
/// make before it, the command, and the values to leave in the store once
/// the command has succeeded.
#[derive(Debug)]
pub struct Plan {
    /// The directories to create first, with their parents.
    pub directories: Vec<String>,
    /// The command to launch and wait for.
    pub command: CommandLine,
    /// The names and values to set in the store after the command.
    pub outcome: Vec<(String, String)>,
}

/// A plan as the text of its parts.
pub struct PlanView {
    pub directories: Seq<Seq<char>>,
    pub command: CommandView,
    pub outcome: Seq<(Seq<char>, Seq<char>)>,
}

impl DeepView for Plan {
    type V = PlanView;

    open spec fn deep_view(&self) -> PlanView {
        PlanView {
            directories: self.directories.deep_view(),
            command: self.command.deep_view(),
            outcome: Seq::new(
                self.outcome.len() as nat,
                |i: int| (self.outcome[i].0@, self.outcome[i].1@),
            ),
        }
    }
}

/// The plan that only launches `program` with `arguments`.
pub open spec fn just(program: Seq<char>, arguments: Seq<Seq<char>>) -> PlanView {
    PlanView {
        directories: Seq::empty(),
        command: CommandView { program, arguments },
        outcome: Seq::empty(),
    }
}

/// The plan that makes `directory`, launches `program` with `arguments`,
/// and then sets `name` to `directory` in the store.
pub open spec fn in_new_directory(
    directory: Seq<char>,
    program: Seq<char>,
    arguments: Seq<Seq<char>>,
    name: Seq<char>,
) -> PlanView {
    PlanView {
        directories: seq![directory],
        command: CommandView { program, arguments },
        outcome: seq![(name, directory)],
    }
}

/// The plan that launches `program` with `arguments` and then sets `name`
/// to `value` in the store.
pub open spec fn leaving(
    program: Seq<char>,
    arguments: Seq<Seq<char>>,
    name: Seq<char>,
    value: Seq<char>,
) -> PlanView {
    PlanView {
        directories: Seq::empty(),
        command: CommandView { program, arguments },
        outcome: seq![(name, value)],
    }
}

impl Plan {
    /// The plan that only launches `program` with `arguments`.
    pub fn just(program: &str, arguments: Vec<String>) -> (plan: Plan)
        ensures
            plan.deep_view() == just(program@, arguments.deep_view()),
    {
        let plan = Plan {
            directories: Vec::new(),
            command: CommandLine { program: program.to_owned(), arguments },
            outcome: Vec::new(),
        };
        assert(plan.deep_view().directories =~= Seq::<Seq<char>>::empty());
        assert(plan.deep_view().outcome =~= Seq::<(Seq<char>, Seq<char>)>::empty());
        plan
    }

    /// The plan that makes `directory`, launches `program` with
    /// `arguments`, and then sets `name` to `directory` in the store.
    pub fn in_new_directory(
        directory: String,
        program: &str,
        arguments: Vec<String>,
        name: &str,
    ) -> (plan: Plan)
        ensures
            plan.deep_view() == in_new_directory(
                directory@,
                program@,
                arguments.deep_view(),
                name@,
            ),
    {
        let mut directories: Vec<String> = Vec::new();
        directories.push(directory.clone());
        let mut outcome: Vec<(String, String)> = Vec::new();
        outcome.push((name.to_owned(), directory));
        let plan = Plan {
            directories,
            command: CommandLine { program: program.to_owned(), arguments },
            outcome,
        };
        assert(plan.deep_view().directories =~= seq![directory@]);
        assert(plan.deep_view().outcome =~= seq![(name@, directory@)]);
        plan
    }

    /// The plan that launches `program` with `arguments` and then sets
    /// `name` to `value` in the store.
    pub fn leaving(program: &str, arguments: Vec<String>, name: &str, value: String) -> (plan:
        Plan)
        ensures
            plan.deep_view() == leaving(program@, arguments.deep_view(), name@, value@),
    {
        let mut outcome: Vec<(String, String)> = Vec::new();
        outcome.push((name.to_owned(), value));
        let plan = Plan {
            directories: Vec::new(),
            command: CommandLine { program: program.to_owned(), arguments },
            outcome,
        };
        assert(plan.deep_view().directories =~= Seq::<Seq<char>>::empty());
        assert(plan.deep_view().outcome =~= seq![(name@, value@)]);
        plan
    }

    /// Leaves the values of the plan's outcome in the store, in their
    /// order.
    pub fn record(&self, ctx: &mut Context)
        ensures
            final(ctx)@ == recorded(old(ctx)@, self.deep_view().outcome, self.outcome.len() as int),
    {
        let mut i: usize = 0;
        while i < self.outcome.len()
            invariant
                i <= self.outcome.len(),
                ctx@ == recorded(old(ctx)@, self.deep_view().outcome, i as int),
            decreases self.outcome.len() - i,
        {
            ctx.set_var(self.outcome[i].0.as_str(), self.outcome[i].1.clone());
            i += 1;
        }
    }
}

/// The store `vars` after the first `n` of `outcome` have been set in it.
pub open spec fn recorded(
    vars: Map<Seq<char>, Seq<char>>,
    outcome: Seq<(Seq<char>, Seq<char>)>,
    n: int,
) -> Map<Seq<char>, Seq<char>>
    decreases n,
{
    if n <= 0 {
        vars
    } else {
        recorded(vars, outcome, n - 1).insert(outcome[n - 1].0, outcome[n - 1].1)
    }
}

/// What the runner asks of a script.
pub trait Script {
    /// What a step of the script stands for.
    type Action;

    /// The script's steps, in the order in which they run.
    fn steps(&self) -> &[ScriptStep<Self::Action>];

    /// The files without which the script cannot run.
    fn required_files(&self) -> Vec<String>;

    /// The files that the script can do without.
    fn optional_files(&self) -> Vec<String>;

    /// The store with which the script starts.
    fn initial_context(&self) -> Context;
}

} // verus!
