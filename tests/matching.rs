use sans_io::{Driver, Error, Progress, SansIo, SansIoFuture, Step, Task};

#[derive(Debug)]
enum Api {
    Args(usize, String),
    Return(bool),
}

impl Api {
    fn handle(&self) -> Self {
        if let Self::Args(u, s) = self {
            Self::Return(format!("{u}") == *s)
        } else {
            panic!("Invalid handle call.")
        }
    }
}

/// Asks whether 42 matches "42", then whether 84 matches "42".
struct MakeCall {
    stage: u8,
    pending: Option<SansIoFuture>,
}

impl MakeCall {
    fn answer(&mut self, sio: &mut SansIo<Api>) -> bool {
        let fut = self.pending.take().expect("a request is outstanding");
        match fut.poll(sio) {
            Some(Api::Return(ret)) => ret,
            _ => panic!("Invalid return value."),
        }
    }
}

impl Task<Api, Api, Result<usize, Error>> for MakeCall {
    fn resume(&mut self, sio: &mut SansIo<Api>) -> Progress<Result<usize, Error>> {
        match self.stage {
            0 => {
                self.stage = 1;
                match sio.invoke(Api::Args(42, "42".into())) {
                    Ok(fut) => {
                        self.pending = Some(fut);
                        Progress::Suspended
                    }
                    Err(e) => Progress::Finished(Err(e)),
                }
            }
            1 => {
                assert!(self.answer(sio));
                self.stage = 2;
                match sio.invoke(Api::Args(84, "42".into())) {
                    Ok(fut) => {
                        self.pending = Some(fut);
                        Progress::Suspended
                    }
                    Err(e) => Progress::Finished(Err(e)),
                }
            }
            _ => {
                assert!(!self.answer(sio));
                Progress::Finished(Ok(42))
            }
        }
    }
}

#[test]
fn matching_scenario_returns_42() {
    let mut sm: SansIo<Api> = SansIo::new();
    let mut driver = Driver::new(MakeCall { stage: 0, pending: None });
    let mut calls = 0;
    let ret = loop {
        match driver.step(&mut sm).unwrap() {
            Step::Next(call) => {
                calls += 1;
                sm.respond(call.handle()).unwrap();
            }
            Step::Return(ret) => break ret,
        }
    };
    assert_eq!(calls, 2);
    assert_eq!(ret, Ok(42));
}

#[test]
fn handler_marks_match_and_mismatch() {
    assert!(matches!(Api::Args(42, "42".into()).handle(), Api::Return(true)));
    assert!(matches!(Api::Args(84, "42".into()).handle(), Api::Return(false)));
}
