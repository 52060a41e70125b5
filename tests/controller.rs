use clear_core::frame::{CR, STX};
use clear_core::{
    decode_ack, submit_outcome, ActorAction, ActorEvent, ClearCoreMotor, CommandError,
    ConnectionActor, Controller, Message, MotorBuilder,
};
use std::sync::Arc;
use tokio::io::{duplex, AsyncRead, AsyncReadExt, AsyncWrite, AsyncWriteExt};
use tokio::sync::mpsc::{channel, Receiver, Sender};
use tokio::sync::Mutex;

fn runtime() -> tokio::runtime::Runtime {
    tokio::runtime::Builder::new_current_thread().enable_all().build().unwrap()
}

fn four_motors() -> [MotorBuilder; 4] {
    [
        MotorBuilder { id: 0, scale: 800 },
        MotorBuilder { id: 1, scale: 800 },
        MotorBuilder { id: 2, scale: 800 },
        MotorBuilder { id: 3, scale: 800 },
    ]
}

async fn submit(tx: &Sender<Message>, request: Vec<u8>) -> Result<Vec<u8>, CommandError> {
    let (msg, waiter) = Message::new(request);
    if tx.send(msg).await.is_err() {
        return submit_outcome(false, None);
    }
    submit_outcome(true, waiter.await.ok())
}

async fn enable(motor: &ClearCoreMotor) -> Result<(), CommandError> {
    let resp = submit(&motor.tx, motor.enable_request()).await?;
    decode_ack(&resp)
}

async fn drive<S: AsyncRead + AsyncWrite + Unpin>(mut stream: S, mut rx: Receiver<Message>) {
    let mut actor = ConnectionActor::new();
    let mut action = ActorAction::Receive;
    loop {
        let event = match action {
            ActorAction::Receive => {
                let next = rx.recv().await;
                assert!(next.as_ref().map_or(true, |m| m.response.is_awaiting()));
                ActorEvent::Dequeued(next)
            }
            ActorAction::Write(bytes) => ActorEvent::Written(stream.write_all(&bytes).await.is_ok()),
            ActorAction::Read => {
                let mut buf = [0u8; 128];
                match stream.read(&mut buf).await {
                    Ok(n) if n > 0 => ActorEvent::ReadDone(Some(buf[..n].to_vec())),
                    _ => ActorEvent::ReadDone(None),
                }
            }
            ActorAction::Exit => return,
        };
        action = actor.on_event(event);
    }
}

#[test]
fn test_controller() {
    runtime().block_on(async {
        let (tx, mut rx) = channel::<Message>(100);
        let motors = four_motors();

        let mock_client = tokio::spawn(async move {
            if let Some(mut msg) = rx.recv().await {
                assert_eq!(*msg.buffer.get(0).unwrap(), 0x02);
                assert_eq!(*msg.buffer.get(1).unwrap(), b'M');
                let echo = msg.buffer.clone();
                msg.settle(Some(echo));
            }
        });

        let controller_task_1 = tokio::spawn(async move {
            let controller = Controller::new(tx, motors.as_slice());
            let motor0 = controller.get_motor(0).unwrap();
            enable(motor0).await.expect("Invalid Message");
        });

        mock_client.await.unwrap();
        controller_task_1.await.unwrap();
    });
}

#[test]
fn test_controller_with_client() {
    runtime().block_on(async {
        let motors = four_motors();
        // The transport is an in-memory stream pair: one end stands for the
        // listener's accepted connection, the other for the actor's socket.
        let (stream, mut server_end) = duplex(128);
        let server_task = tokio::spawn(async move {
            let mut reply_buffer = [0u8; 128];
            let stream = &mut server_end;
            stream.read(reply_buffer.as_mut_slice()).await.unwrap();
            assert_eq!(reply_buffer[0], 0x02);
            assert_eq!(reply_buffer[1], b'M');
            let reply = [2, reply_buffer[1], reply_buffer[2], b'_'];
            stream.write_all(reply.as_slice()).await.unwrap();
        });

        let (controller, rx) = Controller::with_queue(motors.as_slice());
        let cc1 = Arc::new(Mutex::from(controller));
        let task_1_cc_1 = cc1.clone();
        let controller_task_1 = tokio::spawn(async move {
            if let Some(motor) = task_1_cc_1.lock().await.get_motor(0) {
                enable(motor).await.expect("motor 0 enables");
            }
        });
        let controller_task_2 = tokio::spawn(async move {
            if let Some(input) = cc1.lock().await.get_digital_inputs(0) {
                let _ = submit(&input.tx, input.state_request()).await;
            }
        });
        let client = tokio::spawn(drive(stream, rx));
        controller_task_1.await.unwrap();
        controller_task_2.await.unwrap();
        server_task.await.unwrap();
        client.await.unwrap();
    });
}

#[test]
fn lookup_in_and_out_of_range() {
    let (tx, _rx) = channel::<Message>(100);
    let specs = [MotorBuilder { id: 7, scale: 3 }, MotorBuilder { id: 2, scale: 800 }];
    let c = Controller::new(tx, &specs);
    let m = c.get_motor(1).unwrap();
    assert_eq!((m.id, m.scale), (2, 800));
    assert!(c.get_motor(2).is_none());
    assert_eq!(c.get_digital_inputs(2).unwrap().id, 2);
    assert!(c.get_digital_inputs(3).is_none());
    assert_eq!(c.get_analog_input(3).unwrap().id, 3);
    assert!(c.get_analog_input(4).is_none());
    assert_eq!(c.get_output(5).unwrap().id, 5);
    assert!(c.get_output(6).is_none());
    assert!(c.get_output(usize::MAX).is_none());
}

#[test]
fn lookup_with_no_motors() {
    let (tx, _rx) = channel::<Message>(1);
    let c = Controller::new(tx, &[]);
    assert!(c.get_motor(0).is_none());
    assert!(c.get_digital_inputs(0).is_some());
}

#[test]
fn motor_requests_carry_id_and_scale() {
    let (tx, _rx) = channel::<Message>(1);
    let c = Controller::new(tx, &[MotorBuilder { id: 0, scale: 1 }, MotorBuilder { id: 12, scale: 800 }]);
    let m = c.get_motor(1).unwrap();
    assert_eq!(m.enable_request(), vec![STX, b'M', b'1', b'2', b'E', b'N', CR]);
    assert_eq!(m.disable_request(), vec![2, b'M', b'1', b'2', b'D', b'E', 13]);
    assert_eq!(m.absolute_move_request(5), b"\x02M12AM4000\r".to_vec());
    assert_eq!(m.relative_move_request(-3), b"\x02M12RM-2400\r".to_vec());
    assert_eq!(m.set_velocity_request(0), b"\x02M12SV0\r".to_vec());
    assert_eq!(m.stop_request(), b"\x02M12ST\r".to_vec());
    assert_eq!(m.clear_alerts_request(), b"\x02M12CA\r".to_vec());
    assert_eq!(m.status_request(), b"\x02M12GS\r".to_vec());
}

#[test]
fn scaled_extremes_do_not_overflow() {
    let (tx, _rx) = channel::<Message>(1);
    let m = ClearCoreMotor::new(3, usize::MAX, tx);
    let expected = format!("\x02M3AM{}\r", (i32::MIN as i128) * (usize::MAX as i128));
    assert_eq!(m.absolute_move_request(i32::MIN), expected.into_bytes());
}

#[test]
fn io_requests() {
    let (tx, _rx) = channel::<Message>(1);
    let c = Controller::new(tx, &[]);
    assert_eq!(c.get_digital_inputs(1).unwrap().state_request(), b"\x02I1\r".to_vec());
    assert_eq!(c.get_analog_input(3).unwrap().state_request(), b"\x02A3\r".to_vec());
    assert_eq!(c.get_output(4).unwrap().set_state_request(true), b"\x02O41\r".to_vec());
    assert_eq!(c.get_output(0).unwrap().set_state_request(false), b"\x02O00\r".to_vec());
}
