//! Answering a notification: which scripts to run for a sensor, in which
//! order, and what to reply.
//!
//! The scripts run outside this library, one at a time. A [`Dispatch`] is
//! the state of one notification between two runs. It says what to do next
//! ([`Dispatch::next_action`]) and takes the result of each run
//! ([`Dispatch::record`]). What it asks for depends on the configuration and
//! on the sensor alone: a script that fails to start, or ends with any exit
//! code, changes neither the scripts that follow nor the reply.

use vstd::prelude::*;
use crate::config::config_of;
use crate::config::matching;
use crate::config::refused;
use crate::config::script_path;
use crate::config::ConfigView;
use crate::config::EntryView;
use crate::config::SensorConfig;
use crate::config::SensorEntry;
use crate::config::well_shaped;
use crate::document::parsed_shape;
use crate::document::DocumentShape;
use crate::error::ConfigMalformed;
use crate::runner::log_text;
use crate::runner::ExecutionResult;
use crate::runner::ResultView;
use crate::text::text_of;

verus! {

/// The body of the reply to a notification for the sensor `id`.
pub open spec fn response_text(id: Seq<char>) -> Seq<char> {
    "Sensor: "@ + id
}

/// The status of every reply: success.
pub const STATUS_OK: u16 = 200;

/// The reply to a notification. It is the same whatever the scripts did.
#[derive(Clone, Debug, PartialEq, Eq)]
pub struct DispatchResponse {
    /// The HTTP status.
    pub status: u16,
    /// The body, as plain text.
    pub body: String,
}

/// The mathematical value of a [`DispatchResponse`].
pub struct ResponseView {
    pub status: u16,
    pub body: Seq<char>,
}

impl View for DispatchResponse {
    type V = ResponseView;

    open spec fn view(&self) -> ResponseView {
        ResponseView { status: self.status, body: self.body@ }
    }
}

/// The reply to a notification for the sensor `id`: success, and the
/// sensor named in the body.
pub open spec fn response_of(id: Seq<char>) -> ResponseView {
    ResponseView { status: STATUS_OK, body: response_text(id) }
}

/// One script to run: its name as configured, and the path to run it under.
#[derive(Clone, Debug, PartialEq, Eq)]
pub struct Invocation {
    pub script: String,
    pub path: String,
}

/// The mathematical value of an [`Invocation`].
pub struct InvocationView {
    pub script: Seq<char>,
    pub path: Seq<char>,
}

impl View for Invocation {
    type V = InvocationView;

    open spec fn view(&self) -> InvocationView {
        InvocationView { script: self.script@, path: self.path@ }
    }
}

/// The views of a sequence of invocations.
pub open spec fn invocation_views(plan: Seq<Invocation>) -> Seq<InvocationView> {
    plan.map_values(|invocation: Invocation| invocation@)
}

/// The views of a sequence of results.
pub open spec fn result_views(results: Seq<ExecutionResult>) -> Seq<ResultView> {
    results.map_values(|result: ExecutionResult| result@)
}

/// The invocations of one entry: its scripts in the order listed, each
/// under the scripts directory.
pub open spec fn entry_plan(scripts_directory: Seq<char>, entry: EntryView) -> Seq<InvocationView> {
    entry.scripts.map_values(
        |script: Seq<char>| InvocationView { script, path: script_path(scripts_directory, script) },
    )
}

/// The invocations for a sensor among the given entries: those of every
/// entry with that `id`, entry by entry in document order.
pub open spec fn plan_among(
    scripts_directory: Seq<char>,
    sensors: Seq<EntryView>,
    id: Seq<char>,
) -> Seq<InvocationView> {
    matching(sensors, id).flat_map(|entry: EntryView| entry_plan(scripts_directory, entry))
}

/// The invocations for a sensor under a configuration.
pub open spec fn plan_of(config: ConfigView, id: Seq<char>) -> Seq<InvocationView> {
    plan_among(config.scripts_directory, config.sensors, id)
}

/// What a dispatch asks for.
#[derive(Clone, Debug, PartialEq, Eq)]
pub enum Action {
    /// Run the script at `path`, then hand the result to
    /// [`Dispatch::record`]. `script` is its name as configured.
    Run { script: String, path: String },
    /// Every script has run: send this reply.
    Respond { response: DispatchResponse },
}

/// The mathematical value of an [`Action`].
pub enum ActionView {
    Run { script: Seq<char>, path: Seq<char> },
    Respond { response: ResponseView },
}

impl View for Action {
    type V = ActionView;

    open spec fn view(&self) -> ActionView {
        match *self {
            Action::Run { script, path } => ActionView::Run { script: script@, path: path@ },
            Action::Respond { response } => ActionView::Respond { response: response@ },
        }
    }
}

/// The action that asks for an invocation.
pub open spec fn run_action(invocation: InvocationView) -> ActionView {
    ActionView::Run { script: invocation.script, path: invocation.path }
}

/// The action that ends every dispatch for the sensor `id`: the reply.
pub open spec fn respond_action(id: Seq<char>) -> ActionView {
    ActionView::Respond { response: response_of(id) }
}

/// The mathematical value of a [`Dispatch`].
pub struct DispatchView {
    /// The sensor that the notification is for.
    pub id: Seq<char>,
    /// Every script to run for it, in order.
    pub plan: Seq<InvocationView>,
    /// The results of the scripts that have run, in order.
    pub results: Seq<ResultView>,
}

impl DispatchView {
    /// Whether a script is still to run.
    pub open spec fn outstanding(self) -> bool {
        self.results.len() < self.plan.len()
    }

    /// What the dispatch asks for in this state: the next script of the
    /// plan, or the reply once none is left.
    pub open spec fn action(self) -> ActionView {
        if self.outstanding() {
            run_action(self.plan[self.results.len() as int])
        } else {
            respond_action(self.id)
        }
    }

    /// The state after the script that was asked for has run with `result`.
    /// Whatever the result is, it is kept and the dispatch moves on. A
    /// result that was not asked for changes nothing.
    pub open spec fn record(self, result: ResultView) -> DispatchView {
        if self.outstanding() {
            DispatchView { id: self.id, plan: self.plan, results: self.results.push(result) }
        } else {
            self
        }
    }

    /// The line that is logged when `result` comes in, tagged with the name
    /// of the script that was asked for; `None` where none was.
    pub open spec fn log(self, result: ResultView) -> Option<Seq<char>> {
        if self.outstanding() {
            Some(log_text(self.plan[self.results.len() as int].script, result))
        } else {
            None
        }
    }
}

/// The state in which a notification for the sensor `id` starts.
pub open spec fn initial(config: ConfigView, id: Seq<char>) -> DispatchView {
    DispatchView { id, plan: plan_of(config, id), results: Seq::empty() }
}

/// The actions that a dispatch asks for, one after another, from `state` on
/// while the results in `results` come in: one action before the first
/// result and one after each.
pub open spec fn actions(state: DispatchView, results: Seq<ResultView>) -> Seq<ActionView>
    decreases results.len(),
{
    if results.len() == 0 {
        seq![state.action()]
    } else {
        seq![state.action()] + actions(state.record(results.first()), results.drop_first())
    }
}

/// Answers notifications under one configuration.
#[derive(Clone, Debug, PartialEq, Eq)]
pub struct Dispatcher {
    config: SensorConfig,
}

impl View for Dispatcher {
    type V = ConfigView;

    closed spec fn view(&self) -> ConfigView {
        self.config@
    }
}

/// The state of one notification: what is to run, and what has run.
#[derive(Clone, Debug, PartialEq, Eq)]
pub struct Dispatch {
    id: String,
    plan: Vec<Invocation>,
    results: Vec<ExecutionResult>,
}

impl View for Dispatch {
    type V = DispatchView;

    closed spec fn view(&self) -> DispatchView {
        DispatchView {
            id: self.id@,
            plan: invocation_views(self.plan@),
            results: result_views(self.results@),
        }
    }
}

/// Builds the reply to a notification for the sensor `id`.
pub fn response(id: &str) -> (response: DispatchResponse)
    ensures
        response@ == response_of(id@),
{
    DispatchResponse { status: STATUS_OK, body: "Sensor: ".to_owned().concat(id) }
}

/// Whether `outcome` is what starting the service on `document` gives: a
/// dispatcher under the configuration that the document stands for where
/// it is well shaped, and otherwise no dispatcher and the reason why.
pub open spec fn starts(
    scripts_directory: Seq<char>,
    document: DocumentShape,
    outcome: Result<Dispatcher, ConfigMalformed>,
) -> bool {
    match outcome {
        Ok(dispatcher) => well_shaped(document) && dispatcher@ == config_of(
            scripts_directory,
            document,
        ),
        Err(defect) => !well_shaped(document) && refused(document, defect),
    }
}

impl Dispatcher {
    /// Starts the service on a configuration text. There is a dispatcher,
    /// and so an answer to any notification, only where the text parses and
    /// its first document is well shaped.
    pub fn start(scripts_directory: String, text: &str) -> (outcome: Result<
        Dispatcher,
        ConfigMalformed,
    >)
        ensures
            match parsed_shape(text@) {
                Ok(document) => starts(scripts_directory@, document, outcome),
                Err(defect) => outcome == Err::<Dispatcher, ConfigMalformed>(defect),
            },
    {
        match SensorConfig::load(scripts_directory, text) {
            Ok(config) => Ok(Dispatcher::new(config)),
            Err(defect) => Err(defect),
        }
    }

    /// A dispatcher that answers under `config`.
    pub fn new(config: SensorConfig) -> (dispatcher: Dispatcher)
        ensures
            dispatcher@ == config@,
    {
        Dispatcher { config }
    }

    /// The configuration.
    pub fn config(&self) -> (config: &SensorConfig)
        ensures
            config@ == self@,
    {
        &self.config
    }

    /// Appends the invocations of one entry to `plan`.
    fn extend_plan(&self, entry: &SensorEntry, plan: &mut Vec<Invocation>)
        ensures
            invocation_views(final(plan)@) == invocation_views(old(plan)@) + entry_plan(
                self@.scripts_directory,
                entry@,
            ),
    {
        let ghost before = invocation_views(plan@);
        let ghost whole = entry_plan(self@.scripts_directory, entry@);
        let mut position: usize = 0;
        while position < entry.scripts.len()
            invariant
                position <= entry.scripts.len(),
                whole == entry_plan(self@.scripts_directory, entry@),
                invocation_views(plan@) == before + whole.take(position as int),
            decreases entry.scripts.len() - position,
        {
            let script = &entry.scripts[position];
            let invocation = Invocation {
                script: script.clone(),
                path: self.config.resolve(script.as_str()),
            };
            proof {
                assert(invocation_views(plan@.push(invocation)) =~= invocation_views(plan@).push(
                    invocation@,
                ));
            }
            plan.push(invocation);
            position += 1;
        }
    }

    /// Every script to run for the sensor `id`, in order: the scripts of
    /// each entry with that `id`, entry by entry in document order. For a
    /// sensor without an entry this is empty.
    pub fn plan(&self, id: &str) -> (plan: Vec<Invocation>)
        ensures
            invocation_views(plan@) == plan_of(self@, id@),
    {
        let found = self.config.lookup(id);
        let ghost entries = matching(self@.sensors, id@);
        let ghost each = |entry: EntryView| entry_plan(self@.scripts_directory, entry);
        let mut plan: Vec<Invocation> = Vec::new();
        let mut index: usize = 0;
        while index < found.len()
            invariant
                index <= found.len(),
                entries == crate::config::found_views(found@),
                each == |entry: EntryView| entry_plan(self@.scripts_directory, entry),
                invocation_views(plan@) == entries.take(index as int).flat_map(each),
            decreases found.len() - index,
        {
            proof {
                entries.lemma_flat_map_take_append(each, index as int);
            }
            self.extend_plan(found[index], &mut plan);
            index += 1;
        }
        assert(entries.take(index as int) =~= entries);
        plan
    }

    /// Starts answering a notification for the sensor `id`.
    pub fn begin(&self, id: &str) -> (dispatch: Dispatch)
        ensures
            dispatch@ == initial(self@, id@),
    {
        let dispatch = Dispatch { id: id.to_owned(), plan: self.plan(id), results: Vec::new() };
        assert(dispatch@.results =~= Seq::<ResultView>::empty());
        dispatch
    }
}

impl Dispatch {
    /// The sensor that the notification is for.
    pub fn id(&self) -> (id: &str)
        ensures
            id@ == self@.id,
    {
        self.id.as_str()
    }

    /// The results of the scripts that have run, in order.
    pub fn results(&self) -> (results: &Vec<ExecutionResult>)
        ensures
            result_views(results@) == self@.results,
    {
        &self.results
    }

    /// What to do next: run the next script of the plan, or reply once
    /// none is left.
    pub fn next_action(&self) -> (action: Action)
        ensures
            action@ == self@.action(),
    {
        let done = self.results.len();
        if done < self.plan.len() {
            let invocation = &self.plan[done];
            Action::Run { script: invocation.script.clone(), path: invocation.path.clone() }
        } else {
            Action::Respond { response: response(self.id.as_str()) }
        }
    }

    /// Takes the result of the script that was asked for and moves on to
    /// the next, whatever the result is. Returns the line to log for it.
    /// Where no script was asked for, nothing changes and nothing is logged.
    pub fn record(&mut self, result: ExecutionResult) -> (line: Option<String>)
        ensures
            final(self)@ == old(self)@.record(result@),
            text_of(line) == old(self)@.log(result@),
    {
        let done = self.results.len();
        if done < self.plan.len() {
            let line = result.log_line(self.plan[done].script.as_str());
            proof {
                assert(result_views(self.results@.push(result)) =~= result_views(
                    self.results@,
                ).push(result@));
            }
            self.results.push(result);
            Some(line)
        } else {
            None
        }
    }
}

/// The actions of a whole dispatch over `plan`: one run for each
/// invocation, in order, and then the reply.
pub open spec fn full_course(id: Seq<char>, plan: Seq<InvocationView>) -> Seq<ActionView> {
    plan.map_values(|invocation: InvocationView| run_action(invocation)).push(respond_action(id))
}

/// A dispatch with no script left to run asks for nothing but the reply,
/// whatever is handed to it.
pub proof fn finished_dispatch_only_replies(state: DispatchView, results: Seq<ResultView>)
    requires
        !state.outstanding(),
    ensures
        actions(state, results).len() == results.len() + 1,
        forall|k: int|
            0 <= k <= results.len() ==> #[trigger] actions(state, results)[k] == respond_action(
                state.id,
            ),
    decreases results.len(),
{
    if results.len() > 0 {
        finished_dispatch_only_replies(state, results.drop_first());
    }
}

/// A sensor without an entry is no error: nothing is to run for it, and
/// its dispatch asks for the reply and for nothing else.
pub proof fn unknown_sensor_runs_nothing(config: ConfigView, id: Seq<char>, results: Seq<ResultView>)
    requires
        forall|i: int| 0 <= i < config.sensors.len() ==> (#[trigger] config.sensors[i]).id != id,
    ensures
        matching(config.sensors, id) == Seq::<EntryView>::empty(),
        plan_of(config, id) == Seq::<InvocationView>::empty(),
        initial(config, id).action() == respond_action(id),
        forall|k: int|
            0 <= k <= results.len() ==> #[trigger] actions(initial(config, id), results)[k]
                == respond_action(id),
{
    let same = |entry: EntryView| entry.id == id;
    config.sensors.lemma_all_neg_filter_empty(same);
    finished_dispatch_only_replies(initial(config, id), results);
}

/// From any state, while one result comes in for each script that is still
/// to run, the dispatch asks for exactly those scripts, in the order of the
/// plan, and then for the reply. What the results hold plays no part.
pub proof fn remaining_scripts_run_in_order(state: DispatchView, results: Seq<ResultView>)
    requires
        state.results.len() <= state.plan.len(),
        results.len() == state.plan.len() - state.results.len(),
    ensures
        actions(state, results) == full_course(
            state.id,
            state.plan.skip(state.results.len() as int),
        ),
    decreases results.len(),
{
    if results.len() > 0 {
        remaining_scripts_run_in_order(state.record(results.first()), results.drop_first());
    }
}

/// Every script that is configured for a sensor runs, once and in the
/// configured order, whatever the results of the scripts before it are:
/// with one result for each script, the dispatch asks for each invocation
/// of the plan in turn and then for the reply.
pub proof fn every_script_runs_in_order(config: ConfigView, id: Seq<char>, results: Seq<ResultView>)
    requires
        results.len() == plan_of(config, id).len(),
    ensures
        actions(initial(config, id), results) == full_course(id, plan_of(config, id)),
        actions(initial(config, id), results).len() == plan_of(config, id).len() + 1,
        forall|k: int|
            0 <= k < plan_of(config, id).len() ==> #[trigger] actions(
                initial(config, id),
                results,
            )[k] == run_action(plan_of(config, id)[k]),
        actions(initial(config, id), results).last() == respond_action(id),
{
    remaining_scripts_run_in_order(initial(config, id), results);
}

/// Two dispatches for the same sensor under the same configuration ask for
/// the same runs and give the same reply, whatever the scripts do in the
/// one and in the other.
pub proof fn dispatch_is_repeatable(
    config: ConfigView,
    id: Seq<char>,
    first: Seq<ResultView>,
    second: Seq<ResultView>,
)
    requires
        first.len() == plan_of(config, id).len(),
        second.len() == plan_of(config, id).len(),
    ensures
        actions(initial(config, id), first) == actions(initial(config, id), second),
        actions(initial(config, id), first).last() == respond_action(id),
        actions(initial(config, id), second).last() == respond_action(id),
{
    every_script_runs_in_order(config, id, first);
    every_script_runs_in_order(config, id, second);
}

/// The plan for a single entry: its scripts, one invocation each and in
/// the order listed, where the entry is for the sensor; nothing otherwise.
pub proof fn plan_of_one_entry(scripts_directory: Seq<char>, entry: EntryView, id: Seq<char>)
    ensures
        entry.id == id ==> plan_among(scripts_directory, seq![entry], id) == entry_plan(
            scripts_directory,
            entry,
        ),
        entry.id != id ==> plan_among(scripts_directory, seq![entry], id) == Seq::<
            InvocationView,
        >::empty(),
        entry_plan(scripts_directory, entry).len() == entry.scripts.len(),
        forall|j: int|
            0 <= j < entry.scripts.len() ==> #[trigger] entry_plan(scripts_directory, entry)[j] == (
            InvocationView {
                script: entry.scripts[j],
                path: script_path(scripts_directory, entry.scripts[j]),
            }),
{
    let same = |entry: EntryView| entry.id == id;
    let each = |entry: EntryView| entry_plan(scripts_directory, entry);
    let none = Seq::<EntryView>::empty();
    reveal(Seq::filter);
    none.lemma_filter_push(entry, same);
    if entry.id == id {
        seq![entry].lemma_flat_map_singleton(each);
    }
}

/// The plan follows document order entry by entry: the plan for entries
/// that stand one after the other is the plan for the first followed by
/// the plan for the second.
pub proof fn plan_follows_document_order(
    scripts_directory: Seq<char>,
    first: Seq<EntryView>,
    second: Seq<EntryView>,
    id: Seq<char>,
)
    ensures
        plan_among(scripts_directory, first + second, id) == plan_among(
            scripts_directory,
            first,
            id,
        ) + plan_among(scripts_directory, second, id),
{
    let same = |entry: EntryView| entry.id == id;
    let each = |entry: EntryView| entry_plan(scripts_directory, entry);
    Seq::filter_distributes_over_add(first, second, same);
    flat_map_distributes(first.filter(same), second.filter(same), each);
}

/// Mapping and flattening two sequences one after the other is the same as
/// doing so to each and joining what comes out.
proof fn flat_map_distributes<A, B>(first: Seq<A>, second: Seq<A>, each: spec_fn(A) -> Seq<B>)
    ensures
        (first + second).flat_map(each) == first.flat_map(each) + second.flat_map(each),
    decreases second.len(),
{
    if second.len() > 0 {
        let front = second.drop_last();
        let last = second.last();
        flat_map_distributes(first, front, each);
        assert(second =~= front.push(last));
        (first + front).lemma_flat_map_push(each, last);
        front.lemma_flat_map_push(each, last);
    }
}

} // verus!
