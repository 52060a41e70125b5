//! The controller: a fixed registry of device handles that share one
//! command queue.

use vstd::prelude::*;
use tokio::sync::mpsc;
use crate::handles::{motor_frame, scaled_frame, AnalogInput, ClearCoreMotor, Input, Output};
use crate::link::{clone_producer, command_queue, Message};

verus! {

/// Number of digital inputs on the controller.
pub const NO_DIGITAL_INPUTS: usize = 3;

/// Number of analog inputs on the controller.
pub const NO_ANALOG_INPUTS: usize = 4;

/// Number of digital outputs on the controller.
pub const NO_OUTPUTS: usize = 6;

/// The recipe of one motor: its id and its unit-conversion factor.
#[derive(Clone, Copy, Debug)]
pub struct MotorBuilder {
    pub id: u8,
    pub scale: usize,
}

/// The device handles of one physical controller. Each handle's position in
/// its collection is its public id.
pub struct Controller {
    motors: Vec<ClearCoreMotor>,
    digital_inputs: Vec<Input>,
    analog_inputs: Vec<AnalogInput>,
    outputs: Vec<Output>,
}

/// Whether `ids` are the positions `0..n` in order.
pub open spec fn positional(ids: Seq<u8>, n: nat) -> bool {
    ids.len() == n && forall|i: int| 0 <= i < n ==> ids[i] == i as u8
}

impl Controller {
    /// The fixed topology: three digital inputs, four analog inputs and six
    /// outputs, each numbered by its position.
    pub open spec fn wf(&self) -> bool {
        &&& positional(self.digital_inputs_view().map_values(|h: Input| h.id), NO_DIGITAL_INPUTS as nat)
        &&& positional(self.analog_inputs_view().map_values(|h: AnalogInput| h.id), NO_ANALOG_INPUTS as nat)
        &&& positional(self.outputs_view().map_values(|h: Output| h.id), NO_OUTPUTS as nat)
    }

    /// Whether the motor handles were made from `specs`, one for one and in
    /// order.
    pub open spec fn built_from(&self, specs: Seq<MotorBuilder>) -> bool {
        &&& self.motors_view().len() == specs.len()
        &&& forall|i: int| 0 <= i < specs.len() ==> {
            &&& (#[trigger] self.motors_view()[i]).id == specs[i].id
            &&& self.motors_view()[i].scale == specs[i].scale
        }
    }

    /// The motor handles, in order.
    pub closed spec fn motors_view(&self) -> Seq<ClearCoreMotor> {
        self.motors@
    }

    /// The digital input handles, in order.
    pub closed spec fn digital_inputs_view(&self) -> Seq<Input> {
        self.digital_inputs@
    }

    /// The analog input handles, in order.
    pub closed spec fn analog_inputs_view(&self) -> Seq<AnalogInput> {
        self.analog_inputs@
    }

    /// The output handles, in order.
    pub closed spec fn outputs_view(&self) -> Seq<Output> {
        self.outputs@
    }

    /// Builds the registry: motor `i` from `motors[i]`, and the fixed inputs
    /// and outputs numbered by position, every handle with a clone of `tx`.
    pub fn new(tx: mpsc::Sender<Message>, motors: &[MotorBuilder]) -> (r: Controller)
        ensures
            r.built_from(motors@),
            r.wf(),
    {
        let mut motor_handles: Vec<ClearCoreMotor> = Vec::new();
        let mut i: usize = 0;
        while i < motors.len()
            invariant
                i <= motors@.len(),
                motor_handles@.len() == i,
                forall|k: int| 0 <= k < i ==> {
                    &&& (#[trigger] motor_handles@[k]).id == motors@[k].id
                    &&& motor_handles@[k].scale == motors@[k].scale
                },
            decreases motors@.len() - i,
        {
            let recipe = motors[i];
            motor_handles.push(ClearCoreMotor::new(recipe.id, recipe.scale, clone_producer(&tx)));
            i = i + 1;
        }
        let mut digital_inputs: Vec<Input> = Vec::new();
        let mut i: usize = 0;
        while i < NO_DIGITAL_INPUTS
            invariant
                i <= NO_DIGITAL_INPUTS,
                digital_inputs@.len() == i,
                forall|k: int| 0 <= k < i ==> (#[trigger] digital_inputs@[k]).id == k as u8,
            decreases NO_DIGITAL_INPUTS - i,
        {
            digital_inputs.push(Input::new(i as u8, clone_producer(&tx)));
            i = i + 1;
        }
        let mut analog_inputs: Vec<AnalogInput> = Vec::new();
        let mut i: usize = 0;
        while i < NO_ANALOG_INPUTS
            invariant
                i <= NO_ANALOG_INPUTS,
                analog_inputs@.len() == i,
                forall|k: int| 0 <= k < i ==> (#[trigger] analog_inputs@[k]).id == k as u8,
            decreases NO_ANALOG_INPUTS - i,
        {
            analog_inputs.push(AnalogInput::new(i as u8, clone_producer(&tx)));
            i = i + 1;
        }
        let mut outputs: Vec<Output> = Vec::new();
        let mut i: usize = 0;
        while i < NO_OUTPUTS
            invariant
                i <= NO_OUTPUTS,
                outputs@.len() == i,
                forall|k: int| 0 <= k < i ==> (#[trigger] outputs@[k]).id == k as u8,
            decreases NO_OUTPUTS - i,
        {
            outputs.push(Output::new(i as u8, clone_producer(&tx)));
            i = i + 1;
        }
        let r = Controller { motors: motor_handles, digital_inputs, analog_inputs, outputs };
        proof {
            assert(r.digital_inputs_view().map_values(|h: Input| h.id) =~= Seq::new(3, |k: int| k as u8));
            assert(r.analog_inputs_view().map_values(|h: AnalogInput| h.id) =~= Seq::new(4, |k: int| k as u8));
            assert(r.outputs_view().map_values(|h: Output| h.id) =~= Seq::new(6, |k: int| k as u8));
        }
        r
    }

    /// Creates the command queue and the registry around it, and returns the
    /// queue's consuming side for the connection actor.
    pub fn with_queue(motors: &[MotorBuilder]) -> (r: (Controller, mpsc::Receiver<Message>))
        ensures
            r.0.built_from(motors@),
            r.0.wf(),
    {
        let (tx, rx) = command_queue();
        (Controller::new(tx, motors), rx)
    }

    /// The motor at position `id`, or `None` when `id` is out of range.
    pub fn get_motor(&self, id: usize) -> (r: Option<&ClearCoreMotor>)
        ensures
            id < self.motors_view().len() ==> r == Some(&self.motors_view()[id as int]),
            id >= self.motors_view().len() ==> r is None,
    {
        self.motors.get(id)
    }

    /// The digital input at position `id`, or `None` when `id` is out of range.
    pub fn get_digital_inputs(&self, id: usize) -> (r: Option<&Input>)
        ensures
            id < self.digital_inputs_view().len() ==> r == Some(&self.digital_inputs_view()[id as int]),
            id >= self.digital_inputs_view().len() ==> r is None,
    {
        self.digital_inputs.get(id)
    }

    /// The analog input at position `id`, or `None` when `id` is out of range.
    pub fn get_analog_input(&self, id: usize) -> (r: Option<&AnalogInput>)
        ensures
            id < self.analog_inputs_view().len() ==> r == Some(&self.analog_inputs_view()[id as int]),
            id >= self.analog_inputs_view().len() ==> r is None,
    {
        self.analog_inputs.get(id)
    }

    /// The output at position `id`, or `None` when `id` is out of range.
    pub fn get_output(&self, id: usize) -> (r: Option<&Output>)
        ensures
            id < self.outputs_view().len() ==> r == Some(&self.outputs_view()[id as int]),
            id >= self.outputs_view().len() ==> r is None,
    {
        self.outputs.get(id)
    }
}

/// A motor looked up by a position inside the configured range encodes its
/// requests with exactly the id and the scale of the specification at that
/// position; a position outside the range finds no motor.
pub proof fn lemma_lookup_motor_follows_spec(c: Controller, specs: Seq<MotorBuilder>, id: int, op: Seq<u8>, amount: int)
    requires
        c.built_from(specs),
    ensures
        0 <= id < specs.len() ==> {
            &&& motor_frame(c.motors_view()[id].id, op) == motor_frame(specs[id].id, op)
            &&& scaled_frame(c.motors_view()[id].id, c.motors_view()[id].scale, op, amount)
                == scaled_frame(specs[id].id, specs[id].scale, op, amount)
        },
        id >= specs.len() ==> id >= c.motors_view().len(),
{
    if 0 <= id < specs.len() {
        assert(c.motors_view()[id].id == specs[id].id);
    }
}

} // verus!
