use std::cell::RefCell;

use corophage::coproduct::{CNil, Coproduct, Here, There};
use corophage::effect::{Effect, Start};
use corophage::hlist::{HCons, HNil};
use corophage::run::{start_signal, step, step_stateful, take_resume, yield_signal, GeneratorState, Step};
use corophage::{Cancelled, Control, Never};

struct Cancel;

impl Effect for Cancel {
    type Resume<'r> = Never;
}

struct Log(&'static str);

impl Effect for Log {
    type Resume<'r> = ();
}

struct FileRead(String);

impl Effect for FileRead {
    type Resume<'r> = String;
}

struct GetState;

impl Effect for GetState {
    type Resume<'r> = u64;
}

struct SetState(u64);

impl Effect for SetState {
    type Resume<'r> = ();
}

type Effs = Coproduct<Cancel, Coproduct<Log, Coproduct<FileRead, Coproduct<GetState, Coproduct<SetState, CNil>>>>>;
type Rs = Coproduct<Never, Coproduct<(), Coproduct<String, Coproduct<u64, Coproduct<(), CNil>>>>>;
type I0 = Here;
type I1 = There<I0>;
type I2 = There<I1>;
type I3 = There<I2>;
type I4 = There<I3>;
type Idx = HCons<(I0, I0), HCons<(I1, I1), HCons<(I2, I2), HCons<(I3, I3), HCons<(I4, I4), HNil>>>>>;
type Input = Coproduct<Start, Rs>;
type Yield = GeneratorState<Coproduct<Start, Effs>, ()>;

/// The computation of the example program: log, read a file, double the
/// state, read it again, then cancel.
struct Example {
    stage: u32,
    text: Option<String>,
    seen: Vec<u64>,
}

impl Example {
    fn resume(&mut self, input: Input) -> Yield {
        let stage = self.stage;
        self.stage += 1;
        match stage {
            0 => GeneratorState::Yielded(yield_signal::<Effs, Log, I1>(Log("Hello, world!"))),
            1 => GeneratorState::Yielded(yield_signal::<Effs, FileRead, I2>(FileRead("example.txt".to_string()))),
            2 => {
                self.text = take_resume::<Rs, String, I2>(input);
                GeneratorState::Yielded(yield_signal::<Effs, GetState, I3>(GetState))
            }
            3 => {
                let s = take_resume::<Rs, u64, I3>(input).unwrap();
                self.seen.push(s);
                GeneratorState::Yielded(yield_signal::<Effs, SetState, I4>(SetState(s * 2)))
            }
            4 => GeneratorState::Yielded(yield_signal::<Effs, GetState, I3>(GetState)),
            5 => {
                let s = take_resume::<Rs, u64, I3>(input).unwrap();
                self.seen.push(s);
                GeneratorState::Yielded(yield_signal::<Effs, Cancel, I0>(Cancel))
            }
            _ => GeneratorState::Complete(()),
        }
    }
}

#[test]
fn sync_run_mut() {
    let state = RefCell::new(42u64);
    let mut logged: Vec<&'static str> = Vec::new();
    let mut handlers = HCons {
        head: |_: Cancel| Control::<Never>::cancel(),
        tail: HCons {
            head: |Log(msg): Log| {
                logged.push(msg);
                Control::resume(())
            },
            tail: HCons {
                head: |FileRead(_): FileRead| Control::resume("file content".to_string()),
                tail: HCons {
                    head: |_: GetState| Control::resume(*state.borrow()),
                    tail: HCons {
                        head: |SetState(x): SetState| {
                            *state.borrow_mut() = x;
                            Control::resume(())
                        },
                        tail: HNil,
                    },
                },
            },
        },
    };
    let mut example = Example { stage: 0, text: None, seen: Vec::new() };
    let mut input: Input = start_signal();
    let result = loop {
        let g = example.resume(input);
        match step::<Effs, (), _, Idx>(g, &mut handlers) {
            Step::Done(r) => break r,
            Step::Resume(x) => input = x,
        }
    };
    assert_eq!(result, Err(Cancelled));
    assert_eq!(*state.borrow(), 84);
    assert_eq!(example.text, Some("file content".to_string()));
    assert_eq!(example.seen, vec![42, 84]);
    assert_eq!(example.stage, 6);
    drop(handlers);
    assert_eq!(logged, vec!["Hello, world!"]);
}

#[derive(Debug, PartialEq, Eq)]
struct State {
    x: u64,
}

#[test]
fn sync_run_stateful() {
    let mut state = State { x: 42 };
    let handlers = HCons {
        head: |_: &mut State, _: Cancel| Control::<Never>::cancel(),
        tail: HCons {
            head: |_: &mut State, Log(_): Log| Control::resume(()),
            tail: HCons {
                head: |_: &mut State, FileRead(_): FileRead| Control::resume("file content".to_string()),
                tail: HCons {
                    head: |s: &mut State, _: GetState| Control::resume(s.x),
                    tail: HCons {
                        head: |s: &mut State, SetState(x): SetState| {
                            s.x = x;
                            Control::resume(())
                        },
                        tail: HNil,
                    },
                },
            },
        },
    };
    let mut example = Example { stage: 0, text: None, seen: Vec::new() };
    let mut input: Input = start_signal();
    let result = loop {
        let g = example.resume(input);
        match step_stateful::<Effs, (), _, State, Idx>(g, &mut state, &handlers) {
            Step::Done(r) => break r,
            Step::Resume(x) => input = x,
        }
    };
    assert_eq!(result, Err(Cancelled));
    assert_eq!(state, State { x: 84 });
    assert_eq!(example.seen, vec![42, 84]);
}
