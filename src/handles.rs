//! Device handles: an id and a producer of the shared command queue. Each
//! builds the request frames of its device kind and decodes the responses.
//!
//! The two-letter operation codes, the scaled decimal amounts and the status
//! digits are this library's own placeholder layout (see `frame`), not a
//! statement of the controller firmware's command set.

use vstd::prelude::*;
use tokio::sync::mpsc;
use crate::frame::{
    build_frame, decode_reading, decode_state, frame_of, push_signed_decimal, reading_of,
    result_of, result_code, signed_decimal, state_of, ANALOG_TAG, INPUT_TAG, MOTOR_TAG,
    OUTPUT_TAG,
};
use crate::link::{CommandError, Message};

verus! {

/// A motor on the controller: its id, the factor that turns user units into
/// motor steps, and a producer of the command queue.
pub struct ClearCoreMotor {
    pub id: u8,
    pub scale: usize,
    pub tx: mpsc::Sender<Message>,
}

/// A digital input on the controller.
pub struct Input {
    pub id: u8,
    pub tx: mpsc::Sender<Message>,
}

/// An analog input on the controller.
pub struct AnalogInput {
    pub id: u8,
    pub tx: mpsc::Sender<Message>,
}

/// A digital output on the controller.
pub struct Output {
    pub id: u8,
    pub tx: mpsc::Sender<Message>,
}

/// Motor states a status response reports.
#[derive(PartialEq, Eq, Structural, Clone, Copy, Debug)]
pub enum MotorStatus {
    /// Not energised.
    Disabled,
    /// Energising, not yet ready.
    Enabling,
    /// Stopped on an alert.
    Faulted,
    /// Energised and idle.
    Ready,
    /// Executing a move.
    Moving,
}

/// The motor state named by a status byte, `'0'` to `'4'` (placeholder
/// layout).
pub open spec fn status_of(code: u8) -> Option<MotorStatus> {
    if code == 48 {
        Some(MotorStatus::Disabled)
    } else if code == 49 {
        Some(MotorStatus::Enabling)
    } else if code == 50 {
        Some(MotorStatus::Faulted)
    } else if code == 51 {
        Some(MotorStatus::Ready)
    } else if code == 52 {
        Some(MotorStatus::Moving)
    } else {
        None
    }
}

/// A motor request: the two-letter operation and its argument, if any.
pub open spec fn motor_frame(id: u8, op: Seq<u8>) -> Seq<u8> {
    frame_of(MOTOR_TAG, id as nat, op)
}

/// A motor request whose argument is `amount` user units, sent as motor steps.
pub open spec fn scaled_frame(id: u8, scale: usize, op: Seq<u8>, amount: int) -> Seq<u8> {
    motor_frame(id, op + signed_decimal(amount * scale))
}

/// Whether a response acknowledges a command: a frame that opens with the start
/// marker and reaches the result byte.
pub open spec fn acknowledged(resp: Seq<u8>) -> bool {
    result_of(resp) is Some
}

/// Accepts a response as an acknowledgement, or fails to decode it.
pub fn decode_ack(resp: &[u8]) -> (r: Result<(), CommandError>)
    ensures
        acknowledged(resp@) <==> r is Ok,
        r matches Err(e) ==> e == CommandError::Decode,
{
    match result_code(resp) {
        Some(_) => Ok(()),
        None => Err(CommandError::Decode),
    }
}

impl ClearCoreMotor {
    /// A handle for motor `id` that scales user units by `scale`.
    pub fn new(id: u8, scale: usize, tx: mpsc::Sender<Message>) -> (r: ClearCoreMotor)
        ensures
            r.id == id,
            r.scale == scale,
    {
        ClearCoreMotor { id, scale, tx }
    }

    fn op_frame(&self, a: u8, b: u8) -> (r: Vec<u8>)
        ensures
            r@ == motor_frame(self.id, seq![a, b]),
    {
        let op: [u8; 2] = [a, b];
        let r = build_frame(MOTOR_TAG, self.id, op.as_slice());
        proof {
            assert(op@ =~= seq![a, b]);
        }
        r
    }

    fn scaled_op_frame(&self, a: u8, b: u8, amount: i32) -> (r: Vec<u8>)
        ensures
            r@ == scaled_frame(self.id, self.scale, seq![a, b], amount as int),
    {
        let magnitude: u128 = if amount < 0 {
            (-(amount as i64)) as u128
        } else {
            amount as u128
        };
        assert(magnitude * (self.scale as u128) <= 0x8000_0000u128 * 0xffff_ffff_ffff_ffffu128)
            by (nonlinear_arith)
            requires
                magnitude <= 0x8000_0000u128,
                self.scale as u128 <= 0xffff_ffff_ffff_ffffu128,
        ;
        let steps: i128 = if amount < 0 {
            -((magnitude * (self.scale as u128)) as i128)
        } else {
            (magnitude * (self.scale as u128)) as i128
        };
        assert(steps == amount as int * self.scale as int) by (nonlinear_arith)
            requires
                amount < 0 ==> magnitude == -(amount as int),
                amount >= 0 ==> magnitude == amount as int,
                amount < 0 ==> steps == -(magnitude * self.scale),
                amount >= 0 ==> steps == magnitude * self.scale,
        ;
        let mut body: Vec<u8> = Vec::new();
        body.push(a);
        body.push(b);
        push_signed_decimal(&mut body, steps);
        proof {
            assert(body@ =~= seq![a, b] + signed_decimal(steps as int));
        }
        build_frame(MOTOR_TAG, self.id, body.as_slice())
    }

    /// The request that enables the motor.
    pub fn enable_request(&self) -> (r: Vec<u8>)
        ensures
            r@ == motor_frame(self.id, seq![69u8, 78u8]),
    {
        self.op_frame(69, 78)
    }

    /// The request that disables the motor.
    pub fn disable_request(&self) -> (r: Vec<u8>)
        ensures
            r@ == motor_frame(self.id, seq![68u8, 69u8]),
    {
        self.op_frame(68, 69)
    }

    /// The request that stops the motor.
    pub fn stop_request(&self) -> (r: Vec<u8>)
        ensures
            r@ == motor_frame(self.id, seq![83u8, 84u8]),
    {
        self.op_frame(83, 84)
    }

    /// The request that clears the motor's alerts.
    pub fn clear_alerts_request(&self) -> (r: Vec<u8>)
        ensures
            r@ == motor_frame(self.id, seq![67u8, 65u8]),
    {
        self.op_frame(67, 65)
    }

    /// The request that asks for the motor's status.
    pub fn status_request(&self) -> (r: Vec<u8>)
        ensures
            r@ == motor_frame(self.id, seq![71u8, 83u8]),
    {
        self.op_frame(71, 83)
    }

    /// The request that moves the motor to `position` user units.
    pub fn absolute_move_request(&self, position: i32) -> (r: Vec<u8>)
        ensures
            r@ == scaled_frame(self.id, self.scale, seq![65u8, 77u8], position as int),
    {
        self.scaled_op_frame(65, 77, position)
    }

    /// The request that moves the motor by `distance` user units.
    pub fn relative_move_request(&self, distance: i32) -> (r: Vec<u8>)
        ensures
            r@ == scaled_frame(self.id, self.scale, seq![82u8, 77u8], distance as int),
    {
        self.scaled_op_frame(82, 77, distance)
    }

    /// The request that sets the motor's velocity to `velocity` user units.
    pub fn set_velocity_request(&self, velocity: i32) -> (r: Vec<u8>)
        ensures
            r@ == scaled_frame(self.id, self.scale, seq![83u8, 86u8], velocity as int),
    {
        self.scaled_op_frame(83, 86, velocity)
    }

    /// Decodes a status response into the motor's state.
    pub fn decode_status(resp: &[u8]) -> (r: Result<MotorStatus, CommandError>)
        ensures
            r matches Ok(s) ==> result_of(resp@) matches Some(c) && status_of(c) == Some(s),
            r is Err <==> (result_of(resp@) matches Some(c) ==> status_of(c) is None),
            r matches Err(e) ==> e == CommandError::Decode,
    {
        match result_code(resp) {
            Some(c) => if c == 48 {
                Ok(MotorStatus::Disabled)
            } else if c == 49 {
                Ok(MotorStatus::Enabling)
            } else if c == 50 {
                Ok(MotorStatus::Faulted)
            } else if c == 51 {
                Ok(MotorStatus::Ready)
            } else if c == 52 {
                Ok(MotorStatus::Moving)
            } else {
                Err(CommandError::Decode)
            },
            None => Err(CommandError::Decode),
        }
    }
}

impl Input {
    /// A handle for digital input `id`.
    pub fn new(id: u8, tx: mpsc::Sender<Message>) -> (r: Input)
        ensures
            r.id == id,
    {
        Input { id, tx }
    }

    /// The request that reads the input's state.
    pub fn state_request(&self) -> (r: Vec<u8>)
        ensures
            r@ == frame_of(INPUT_TAG, self.id as nat, seq![]),
    {
        let r = build_frame(INPUT_TAG, self.id, &[]);
        proof {
            assert(r@ == frame_of(INPUT_TAG, self.id as nat, Seq::<u8>::empty()));
        }
        r
    }

    /// Decodes a state response: `true` when the input is on.
    pub fn decode_state(resp: &[u8]) -> (r: Result<bool, CommandError>)
        ensures
            state_of(resp@) matches Some(b) ==> r == Ok::<bool, CommandError>(b),
            state_of(resp@) is None ==> r == Err::<bool, CommandError>(CommandError::Decode),
    {
        match decode_state(resp) {
            Some(b) => Ok(b),
            None => Err(CommandError::Decode),
        }
    }
}

impl AnalogInput {
    /// A handle for analog input `id`.
    pub fn new(id: u8, tx: mpsc::Sender<Message>) -> (r: AnalogInput)
        ensures
            r.id == id,
    {
        AnalogInput { id, tx }
    }

    /// The request that reads the input's value.
    pub fn state_request(&self) -> (r: Vec<u8>)
        ensures
            r@ == frame_of(ANALOG_TAG, self.id as nat, seq![]),
    {
        let r = build_frame(ANALOG_TAG, self.id, &[]);
        proof {
            assert(r@ == frame_of(ANALOG_TAG, self.id as nat, Seq::<u8>::empty()));
        }
        r
    }

    /// Decodes a reading response into the input's value.
    pub fn decode_state(resp: &[u8]) -> (r: Result<u16, CommandError>)
        ensures
            reading_of(resp@) matches Some(v) ==> r == Ok::<u16, CommandError>(v),
            reading_of(resp@) is None ==> r == Err::<u16, CommandError>(CommandError::Decode),
    {
        match decode_reading(resp) {
            Some(v) => Ok(v),
            None => Err(CommandError::Decode),
        }
    }
}

impl Output {
    /// A handle for digital output `id`.
    pub fn new(id: u8, tx: mpsc::Sender<Message>) -> (r: Output)
        ensures
            r.id == id,
    {
        Output { id, tx }
    }

    /// The request that switches the output on or off.
    pub fn set_state_request(&self, on: bool) -> (r: Vec<u8>)
        ensures
            r@ == frame_of(OUTPUT_TAG, self.id as nat, seq![if on { 49u8 } else { 48u8 }]),
    {
        let body: [u8; 1] = [if on { 49u8 } else { 48u8 }];
        let r = build_frame(OUTPUT_TAG, self.id, body.as_slice());
        proof {
            assert(body@ =~= seq![if on { 49u8 } else { 48u8 }]);
        }
        r
    }
}

} // verus!
