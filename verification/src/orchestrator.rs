//! Planning and sequencing of one import run.
//!
//! A run walks the account topology in order: for each property, every meter
//! of every electricity meter point, then every meter of every gas meter
//! point, gets a consumption import; the property then gets one unit-rate
//! import. While the electricity meter points of a property are walked, each
//! one that has agreements overwrites the current tariff code with its last
//! agreement's code, so the property's rate import uses the last-processed
//! meter point's tariff (and the code carries over to later properties until
//! overwritten again). The product code for the rate import is extracted
//! from that tariff code; when nothing matches, the empty product code is
//! used.
//!
//! The plan is fixed by the topology alone. The only runtime decision is
//! made on write outcomes: the first failed write aborts the run, and no
//! further task is handed out.

use vstd::prelude::*;
use crate::MeterKind;
use crate::model::{Account, ElectricityMeterPoint, GasMeterPoint, Meter, Property};
use crate::pattern::extract_product_code;
use crate::pattern::extracted_product_code;

verus! {

/// One unit of work for the run: fetch one page and write the mapped points.
pub enum Task {
    /// Fetch a consumption page for one meter and write its points.
    ImportConsumption { meter_type: MeterKind, mpxn: String, serial: String },
    /// Fetch a unit-rate page for a product/tariff pair and write its points.
    ImportRates { product_code: String, tariff_code: String },
}

/// The mathematical value of a task.
#[verifier::ext_equal]
pub ghost enum TaskView {
    ImportConsumption { meter_type: MeterKind, mpxn: Seq<char>, serial: Seq<char> },
    ImportRates { product_code: Seq<char>, tariff_code: Seq<char> },
}

impl View for Task {
    type V = TaskView;

    open spec fn view(&self) -> TaskView {
        match self {
            Task::ImportConsumption { meter_type, mpxn, serial } => TaskView::ImportConsumption {
                meter_type: *meter_type,
                mpxn: mpxn@,
                serial: serial@,
            },
            Task::ImportRates { product_code, tariff_code } => TaskView::ImportRates {
                product_code: product_code@,
                tariff_code: tariff_code@,
            },
        }
    }
}

/// The values of a sequence of tasks.
pub open spec fn task_views(tasks: Seq<Task>) -> Seq<TaskView>
    decreases tasks.len(),
{
    if tasks.len() == 0 {
        Seq::empty()
    } else {
        task_views(tasks.drop_last()) + seq![tasks.last()@]
    }
}

/// Appending a task appends its value.
proof fn lemma_task_views_push(tasks: Seq<Task>, task: Task)
    ensures
        task_views(tasks.push(task)) == task_views(tasks) + seq![task@],
{
    assert(tasks.push(task).drop_last() =~= tasks);
    assert(tasks.push(task).last() == task);
}

/// A task sequence and its value sequence have the same length.
proof fn lemma_task_views_len(tasks: Seq<Task>)
    ensures
        task_views(tasks).len() == tasks.len(),
    decreases tasks.len(),
{
    if tasks.len() > 0 {
        lemma_task_views_len(tasks.drop_last());
    }
}

/// The value sequence of a task sequence is its values, position by position.
proof fn lemma_task_views_index(tasks: Seq<Task>, i: int)
    requires
        0 <= i < tasks.len(),
    ensures
        task_views(tasks).len() == tasks.len(),
        task_views(tasks)[i] == tasks[i]@,
    decreases tasks.len(),
{
    lemma_task_views_len(tasks);
    lemma_task_views_len(tasks.drop_last());
    if i < tasks.len() - 1 {
        lemma_task_views_index(tasks.drop_last(), i);
    }
}

/// The consumption tasks for the meters of one meter point, in order.
pub open spec fn meters_tasks(kind: MeterKind, mpxn: Seq<char>, meters: Seq<Meter>) -> Seq<
    TaskView,
>
    decreases meters.len(),
{
    if meters.len() == 0 {
        Seq::empty()
    } else {
        meters_tasks(kind, mpxn, meters.drop_last()) + seq![
            TaskView::ImportConsumption {
                meter_type: kind,
                mpxn: mpxn,
                serial: meters.last().serial_number@,
            },
        ]
    }
}

/// The consumption tasks for a property's electricity meter points, in order.
pub open spec fn electricity_tasks(emps: Seq<ElectricityMeterPoint>) -> Seq<TaskView>
    decreases emps.len(),
{
    if emps.len() == 0 {
        Seq::empty()
    } else {
        electricity_tasks(emps.drop_last()) + meters_tasks(
            MeterKind::Electricity,
            emps.last().mpan@,
            emps.last().meters@,
        )
    }
}

/// The consumption tasks for a property's gas meter points, in order.
pub open spec fn gas_tasks(gmps: Seq<GasMeterPoint>) -> Seq<TaskView>
    decreases gmps.len(),
{
    if gmps.len() == 0 {
        Seq::empty()
    } else {
        gas_tasks(gmps.drop_last()) + meters_tasks(
            MeterKind::Gas,
            gmps.last().mprn@,
            gmps.last().meters@,
        )
    }
}

/// The current tariff code after walking a property's electricity meter
/// points, starting from `tariff`: each meter point with agreements
/// overwrites it with its last agreement's code, so the last one wins.
pub open spec fn tariff_after_meter_points(
    emps: Seq<ElectricityMeterPoint>,
    tariff: Seq<char>,
) -> Seq<char>
    decreases emps.len(),
{
    if emps.len() == 0 {
        tariff
    } else if emps.last().agreements@.len() > 0 {
        emps.last().agreements@.last().tariff_code@
    } else {
        tariff_after_meter_points(emps.drop_last(), tariff)
    }
}

/// The tasks one property contributes, given the tariff code current when
/// the property is reached: all its consumption imports, then one rate
/// import for the tariff current after its electricity meter points.
pub open spec fn property_tasks(property: Property, tariff: Seq<char>) -> Seq<TaskView> {
    let tariff_after = tariff_after_meter_points(property.electricity_meter_points@, tariff);
    electricity_tasks(property.electricity_meter_points@) + gas_tasks(property.gas_meter_points@)
        + seq![
        TaskView::ImportRates {
            product_code: extracted_product_code(tariff_after),
            tariff_code: tariff_after,
        },
    ]
}

/// The current tariff code after walking a sequence of properties.
pub open spec fn tariff_after_properties(props: Seq<Property>, tariff: Seq<char>) -> Seq<char>
    decreases props.len(),
{
    if props.len() == 0 {
        tariff
    } else {
        tariff_after_meter_points(
            props.last().electricity_meter_points@,
            tariff_after_properties(props.drop_last(), tariff),
        )
    }
}

/// The tasks of a sequence of properties, threading the tariff code through
/// them in order.
pub open spec fn properties_tasks(props: Seq<Property>, tariff: Seq<char>) -> Seq<TaskView>
    decreases props.len(),
{
    if props.len() == 0 {
        Seq::empty()
    } else {
        properties_tasks(props.drop_last(), tariff) + property_tasks(
            props.last(),
            tariff_after_properties(props.drop_last(), tariff),
        )
    }
}

/// The full plan of a run over an account: the tasks of its properties in
/// order, starting with an empty tariff code.
pub open spec fn plan(account: Account) -> Seq<TaskView> {
    properties_tasks(account.properties@, Seq::empty())
}

/// Builds the plan of a run over `account`.
pub fn build_plan(account: &Account) -> (tasks: Vec<Task>)
    ensures
        task_views(tasks@) == plan(*account),
{
    let mut tasks: Vec<Task> = Vec::new();
    let mut tariff: String = String::new();
    let ghost props = account.properties@;
    let mut pi: usize = 0;
    while pi < account.properties.len()
        invariant
            props == account.properties@,
            pi <= props.len(),
            tariff@ == tariff_after_properties(props.subrange(0, pi as int), Seq::<char>::empty()),
            task_views(tasks@) == properties_tasks(
                props.subrange(0, pi as int),
                Seq::<char>::empty(),
            ),
        decreases props.len() - pi,
    {
        let property = &account.properties[pi];
        let ghost tariff_in = tariff@;
        let ghost emps = property.electricity_meter_points@;
        let ghost base = task_views(tasks@);

        let mut ei: usize = 0;
        while ei < property.electricity_meter_points.len()
            invariant
                emps == property.electricity_meter_points@,
                ei <= emps.len(),
                tariff@ == tariff_after_meter_points(emps.subrange(0, ei as int), tariff_in),
                task_views(tasks@) == base + electricity_tasks(emps.subrange(0, ei as int)),
            decreases emps.len() - ei,
        {
            let emp = &property.electricity_meter_points[ei];
            if emp.agreements.len() > 0 {
                tariff = emp.agreements[emp.agreements.len() - 1].tariff_code.clone();
            }
            let ghost inner_base = task_views(tasks@);
            let ghost meters = emp.meters@;
            let mut mi: usize = 0;
            while mi < emp.meters.len()
                invariant
                    meters == emp.meters@,
                    mi <= meters.len(),
                    task_views(tasks@) == inner_base + meters_tasks(
                        MeterKind::Electricity,
                        emp.mpan@,
                        meters.subrange(0, mi as int),
                    ),
                decreases meters.len() - mi,
            {
                let task = Task::ImportConsumption {
                    meter_type: MeterKind::Electricity,
                    mpxn: emp.mpan.clone(),
                    serial: emp.meters[mi].serial_number.clone(),
                };
                let ghost prev = tasks@;
                let ghost pushed = task;
                tasks.push(task);
                proof {
                    lemma_task_views_push(prev, pushed);
                    lemma_subrange_step_meter(meters, mi as int);
                    assert(task_views(tasks@) =~~= inner_base + meters_tasks(
                        MeterKind::Electricity,
                        emp.mpan@,
                        meters.subrange(0, mi as int + 1),
                    ));
                }
                mi = mi + 1;
            }
            proof {
                assert(meters.subrange(0, meters.len() as int) =~= meters);
                lemma_subrange_step_emp(emps, ei as int);
                assert(task_views(tasks@) =~~= base + electricity_tasks(
                    emps.subrange(0, ei as int + 1),
                ));
            }
            ei = ei + 1;
        }
        proof {
            assert(emps.subrange(0, emps.len() as int) =~= emps);
        }

        let ghost gmps = property.gas_meter_points@;
        let ghost gas_base = task_views(tasks@);
        let mut gi: usize = 0;
        while gi < property.gas_meter_points.len()
            invariant
                gmps == property.gas_meter_points@,
                gi <= gmps.len(),
                task_views(tasks@) == gas_base + gas_tasks(gmps.subrange(0, gi as int)),
            decreases gmps.len() - gi,
        {
            let gmp = &property.gas_meter_points[gi];
            let ghost inner_base = task_views(tasks@);
            let ghost meters = gmp.meters@;
            let mut mi: usize = 0;
            while mi < gmp.meters.len()
                invariant
                    meters == gmp.meters@,
                    mi <= meters.len(),
                    task_views(tasks@) == inner_base + meters_tasks(
                        MeterKind::Gas,
                        gmp.mprn@,
                        meters.subrange(0, mi as int),
                    ),
                decreases meters.len() - mi,
            {
                let task = Task::ImportConsumption {
                    meter_type: MeterKind::Gas,
                    mpxn: gmp.mprn.clone(),
                    serial: gmp.meters[mi].serial_number.clone(),
                };
                let ghost prev = tasks@;
                let ghost pushed = task;
                tasks.push(task);
                proof {
                    lemma_task_views_push(prev, pushed);
                    lemma_subrange_step_meter(meters, mi as int);
                    assert(task_views(tasks@) =~~= inner_base + meters_tasks(
                        MeterKind::Gas,
                        gmp.mprn@,
                        meters.subrange(0, mi as int + 1),
                    ));
                }
                mi = mi + 1;
            }
            proof {
                assert(meters.subrange(0, meters.len() as int) =~= meters);
                lemma_subrange_step_gmp(gmps, gi as int);
                assert(task_views(tasks@) =~~= gas_base + gas_tasks(gmps.subrange(0, gi as int + 1)));
            }
            gi = gi + 1;
        }
        proof {
            assert(gmps.subrange(0, gmps.len() as int) =~= gmps);
        }

        let product_code: String = match extract_product_code(tariff.as_str()) {
            Some(code) => code,
            None => String::new(),
        };
        let task = Task::ImportRates { product_code: product_code, tariff_code: tariff.clone() };
        let ghost prev = tasks@;
        let ghost pushed = task;
        tasks.push(task);
        proof {
            lemma_task_views_push(prev, pushed);
            lemma_subrange_step_property(props, pi as int);
            assert(task_views(tasks@) =~~= properties_tasks(
                props.subrange(0, pi as int + 1),
                Seq::<char>::empty(),
            ));
        }
        pi = pi + 1;
    }
    proof {
        assert(props.subrange(0, props.len() as int) =~= props);
    }
    tasks
}

/// A prefix of a meter sequence, one element longer, is the shorter prefix
/// with that element appended.
proof fn lemma_subrange_step_meter(meters: Seq<Meter>, i: int)
    requires
        0 <= i < meters.len(),
    ensures
        meters.subrange(0, i + 1).drop_last() =~= meters.subrange(0, i),
        meters.subrange(0, i + 1).last() == meters[i],
{
}

/// A prefix of an electricity-meter-point sequence, one element longer, is
/// the shorter prefix with that element appended.
proof fn lemma_subrange_step_emp(emps: Seq<ElectricityMeterPoint>, i: int)
    requires
        0 <= i < emps.len(),
    ensures
        emps.subrange(0, i + 1).drop_last() =~= emps.subrange(0, i),
        emps.subrange(0, i + 1).last() == emps[i],
{
}

/// A prefix of a gas-meter-point sequence, one element longer, is the
/// shorter prefix with that element appended.
proof fn lemma_subrange_step_gmp(gmps: Seq<GasMeterPoint>, i: int)
    requires
        0 <= i < gmps.len(),
    ensures
        gmps.subrange(0, i + 1).drop_last() =~= gmps.subrange(0, i),
        gmps.subrange(0, i + 1).last() == gmps[i],
{
}

/// A prefix of a property sequence, one element longer, is the shorter
/// prefix with that element appended.
proof fn lemma_subrange_step_property(props: Seq<Property>, i: int)
    requires
        0 <= i < props.len(),
    ensures
        props.subrange(0, i + 1).drop_last() =~= props.subrange(0, i),
        props.subrange(0, i + 1).last() == props[i],
{
}

/// The outcome the database sink reported for one batch write.
#[derive(Clone, Copy, PartialEq, Eq, Structural, Debug)]
pub enum WriteOutcome {
    Succeeded,
    Failed,
}

/// Drives one run: hands out the planned tasks in order and aborts the run
/// on the first failed write.
pub struct Orchestrator {
    tasks: Vec<Task>,
    next: usize,
    aborted: bool,
}

/// The mathematical state of a run: the planned tasks, how many have been
/// completed, and whether the run has aborted.
#[verifier::ext_equal]
pub ghost struct OrchestratorView {
    pub tasks: Seq<TaskView>,
    pub next: int,
    pub aborted: bool,
}

impl View for Orchestrator {
    type V = OrchestratorView;

    closed spec fn view(&self) -> OrchestratorView {
        OrchestratorView {
            tasks: task_views(self.tasks@),
            next: self.next as int,
            aborted: self.aborted,
        }
    }
}

impl Orchestrator {
    /// The run never stands past the end of its plan.
    pub open spec fn wf(&self) -> bool {
        0 <= self@.next <= self@.tasks.len()
    }

    /// Starts a run over `account`: the plan is fixed by the topology, no
    /// task is done yet, and the run is not aborted.
    pub fn new(account: &Account) -> (orchestrator: Orchestrator)
        ensures
            orchestrator.wf(),
            orchestrator@.tasks == plan(*account),
            orchestrator@.next == 0,
            !orchestrator@.aborted,
    {
        Orchestrator { tasks: build_plan(account), next: 0, aborted: false }
    }

    /// The next task to perform: `None` exactly when the run has aborted or
    /// every planned task is done.
    pub fn next_task(&self) -> (task: Option<Task>)
        requires
            self.wf(),
        ensures
            match task {
                Some(t) => !self@.aborted && self@.next < self@.tasks.len() && t@
                    == self@.tasks[self@.next],
                None => self@.aborted || self@.next == self@.tasks.len(),
            },
    {
        proof {
            lemma_task_views_len(self.tasks@);
        }
        if self.aborted || self.next >= self.tasks.len() {
            return None;
        }
        proof {
            lemma_task_views_index(self.tasks@, self.next as int);
        }
        let task = match &self.tasks[self.next] {
            Task::ImportConsumption { meter_type, mpxn, serial } => Task::ImportConsumption {
                meter_type: *meter_type,
                mpxn: mpxn.clone(),
                serial: serial.clone(),
            },
            Task::ImportRates { product_code, tariff_code } => Task::ImportRates {
                product_code: product_code.clone(),
                tariff_code: tariff_code.clone(),
            },
        };
        Some(task)
    }

    /// Records the write outcome of the current task. A successful write
    /// moves the run to the next task; a failed write aborts the run on the
    /// spot, so no further task is handed out and nothing else is written.
    pub fn advance(&mut self, outcome: WriteOutcome)
        requires
            old(self).wf(),
            !old(self)@.aborted,
            old(self)@.next < old(self)@.tasks.len(),
        ensures
            final(self).wf(),
            final(self)@.tasks == old(self)@.tasks,
            outcome == WriteOutcome::Succeeded ==> final(self)@.next == old(self)@.next + 1
                && !final(self)@.aborted,
            outcome == WriteOutcome::Failed ==> final(self)@.aborted
                && final(self)@.next == old(self)@.next,
    {
        proof {
            lemma_task_views_len(self.tasks@);
            assert(self.tasks.len() == self.tasks@.len());
        }
        match outcome {
            WriteOutcome::Succeeded => {
                self.next = self.next + 1;
            },
            WriteOutcome::Failed => {
                self.aborted = true;
            },
        }
    }

    /// Whether the run has aborted on a failed write.
    pub fn is_aborted(&self) -> (aborted: bool)
        ensures
            aborted == self@.aborted,
    {
        self.aborted
    }

    /// Whether every planned task was completed without an aborting write.
    pub fn is_complete(&self) -> (complete: bool)
        ensures
            complete == (!self@.aborted && self@.next == self@.tasks.len()),
    {
        proof {
            lemma_task_views_len(self.tasks@);
        }
        !self.aborted && self.next == self.tasks.len()
    }
}

} // verus!
