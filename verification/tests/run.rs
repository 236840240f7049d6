use corophage::coproduct::{CNil, CoprodInjector, Coproduct, Here, There};
use corophage::effect::{Effect, Start};
use corophage::hlist::{HCons, HNil};
use corophage::run::{
    forward_resume, forward_yield, on_control, on_yield, start_signal, step, step_stateful,
    take_resume, yield_signal, GeneratorState, Step, Yielded,
};
use corophage::{Cancelled, CoControl, Control};

struct Ask(&'static str);

impl Effect for Ask {
    type Resume<'r> = &'static str;
}

struct Trigger;

impl Effect for Trigger {
    type Resume<'r> = u8;
}

type Effs = Coproduct<Ask, Coproduct<Trigger, CNil>>;
type Rs = Coproduct<&'static str, Coproduct<u8, CNil>>;
type Signal = Coproduct<Start, Effs>;
type Input = Coproduct<Start, Rs>;
type Idx = HCons<(Here, Here), HCons<(There<Here>, There<Here>), HNil>>;

/// A hand-written computation: asks three questions and returns the answers,
/// or triggers first when `trigger_first` is set.
struct Script {
    asked: Vec<&'static str>,
    answers: Vec<&'static str>,
    trigger_first: bool,
}

impl Script {
    fn resume(&mut self, input: Input) -> GeneratorState<Signal, (&'static str, &'static str, &'static str)> {
        match input {
            Coproduct::Inl(Start) => {
                if self.trigger_first {
                    return GeneratorState::Yielded(yield_signal::<Effs, Trigger, There<Here>>(Trigger));
                }
            }
            Coproduct::Inr(r) => {
                let a: &'static str = take_resume::<Rs, &'static str, Here>(Coproduct::Inr(r)).unwrap();
                self.answers.push(a);
            }
        }
        let questions = ["q1", "q2", "q3"];
        if self.answers.len() < 3 {
            let q = questions[self.answers.len()];
            self.asked.push(q);
            GeneratorState::Yielded(yield_signal::<Effs, Ask, Here>(Ask(q)))
        } else {
            GeneratorState::Complete((self.answers[0], self.answers[1], self.answers[2]))
        }
    }
}

#[test]
fn sync_runner_resumes_with_handler_values() {
    let mut script = Script { asked: vec![], answers: vec![], trigger_first: false };
    let mut n = 0u32;
    let mut handlers = HCons {
        head: |_: Ask| {
            n += 1;
            Control::resume(match n {
                1 => "one",
                2 => "two",
                _ => "three",
            })
        },
        tail: HCons { head: |_: Trigger| Control::resume(0u8), tail: HNil },
    };
    let mut input: Input = start_signal();
    let result = loop {
        let g = script.resume(input);
        match step::<Effs, _, _, Idx>(g, &mut handlers) {
            Step::Done(r) => break r,
            Step::Resume(x) => input = x,
        }
    };
    assert_eq!(result, Ok(("one", "two", "three")));
    assert_eq!(script.asked, vec!["q1", "q2", "q3"]);
}

#[test]
fn sync_runner_cancel_ends_with_cancelled() {
    let mut script = Script { asked: vec![], answers: vec![], trigger_first: true };
    let mut handlers = HCons {
        head: |_: Ask| Control::resume("never"),
        tail: HCons { head: |_: Trigger| Control::cancel(), tail: HNil },
    };
    let input: Input = start_signal();
    let g = script.resume(input);
    let s = step::<Effs, _, _, Idx>(g, &mut handlers);
    assert_eq!(s, Step::Done(Err(Cancelled)));
    assert!(script.asked.is_empty());
}

#[test]
fn stateful_step_counts_in_state() {
    let handlers = HCons {
        head: |s: &mut u32, _: Ask| {
            *s += 1;
            Control::resume("a")
        },
        tail: HCons { head: |_: &mut u32, _: Trigger| Control::cancel(), tail: HNil },
    };
    let mut state = 0u32;
    let g: GeneratorState<Signal, ()> = GeneratorState::Yielded(Coproduct::Inr(Coproduct::Inl(Ask("x"))));
    let s = step_stateful::<Effs, (), _, u32, Idx>(g, &mut state, &handlers);
    assert_eq!(s, Step::Resume(Coproduct::Inr(Coproduct::Inl("a"))));
    assert_eq!(state, 1);
    let done: GeneratorState<Signal, ()> = GeneratorState::Complete(());
    let s = step_stateful::<Effs, (), _, u32, Idx>(done, &mut state, &handlers);
    assert_eq!(s, Step::Done(Ok(())));
    assert_eq!(state, 1);
}

#[test]
fn start_signal_is_first_position() {
    let s: Input = start_signal();
    assert_eq!(s, Coproduct::Inl(Start));
}

#[test]
fn on_yield_and_on_control_decide() {
    let g: GeneratorState<Coproduct<Start, u8>, &str> = GeneratorState::Complete("done");
    assert_eq!(on_yield(g), Yielded::Finished("done"));
    let g: GeneratorState<Coproduct<Start, u8>, &str> = GeneratorState::Yielded(Coproduct::Inr(3));
    assert_eq!(on_yield(g), Yielded::Effect(3));
    let c: CoControl<'static, Effs> = CoControl::Cancel;
    assert_eq!(on_control::<Effs, ()>(c), Step::Done(Err(Cancelled)));
    let c: CoControl<'static, Effs> = CoControl::Resume(Coproduct::Inr(Coproduct::Inl(5)));
    assert_eq!(
        on_control::<Effs, ()>(c),
        Step::Resume(Coproduct::Inr(Coproduct::Inr(Coproduct::Inl(5))))
    );
}

#[test]
fn yield_signal_and_take_resume_use_effect_index() {
    let s = yield_signal::<Effs, Trigger, There<Here>>(Trigger);
    assert!(matches!(s, Coproduct::Inr(Coproduct::Inr(Coproduct::Inl(Trigger)))));
    let r: Rs = <Rs as CoprodInjector<u8, There<Here>>>::inject(9);
    let v: Option<u8> = take_resume::<Rs, u8, There<Here>>(Coproduct::Inr(r));
    assert_eq!(v, Some(9));
    let r: Rs = <Rs as CoprodInjector<u8, There<Here>>>::inject(9);
    let w: Option<&str> = take_resume::<Rs, &str, Here>(Coproduct::Inr(r));
    assert_eq!(w, None);
    let s: Option<u8> = take_resume::<Rs, u8, There<Here>>(Coproduct::Inl(Start));
    assert_eq!(s, None);
}

struct Log;

impl Effect for Log {
    type Resume<'r> = ();
}

type Outer = Coproduct<Log, Coproduct<Ask, Coproduct<Trigger, CNil>>>;
type OuterRs = Coproduct<(), Coproduct<&'static str, Coproduct<u8, CNil>>>;
type SubToOuter = HCons<There<Here>, HCons<There<There<Here>>, HNil>>;

#[test]
fn invoke_forwards_and_returns() {
    let g: GeneratorState<Signal, u32> = GeneratorState::Yielded(Coproduct::Inr(Coproduct::Inl(Ask("name?"))));
    let y: Yielded<Outer, u32> = forward_yield::<Effs, Outer, u32, SubToOuter>(g);
    assert!(matches!(y, Yielded::Effect(Coproduct::Inr(Coproduct::Inl(Ask("name?"))))));
    let outer: OuterRs = Coproduct::Inr(Coproduct::Inl("Alice"));
    let back: Option<Input> = forward_resume::<'static, Effs, OuterRs, SubToOuter>(outer);
    assert_eq!(back, Some(Coproduct::Inr(Coproduct::Inl("Alice"))));
    // The outer `Log` position is no sub-effect's: nothing to resume the sub-program with.
    let stray: OuterRs = Coproduct::Inl(());
    let none: Option<Input> = forward_resume::<'static, Effs, OuterRs, SubToOuter>(stray);
    assert_eq!(none, None);
    let g: GeneratorState<Signal, u32> = GeneratorState::Complete(30);
    let y: Yielded<Outer, u32> = forward_yield::<Effs, Outer, u32, SubToOuter>(g);
    assert!(matches!(y, Yielded::Finished(30)));
}

struct Counter;

impl Effect for Counter {
    type Resume<'r> = u64;
}

type CountEffs = Coproduct<Counter, CNil>;
type CountInput = Coproduct<Start, Coproduct<u64, CNil>>;
type CountIdx = HCons<(Here, Here), HNil>;

#[test]
fn shared_state_counts_yields() {
    // The computation yields `Counter` twice and returns the sum of the answers.
    let mut answers: Vec<u64> = Vec::new();
    let mut resume_co = |input: CountInput| -> GeneratorState<Coproduct<Start, CountEffs>, u64> {
        if let Coproduct::Inr(r) = input {
            answers.push(take_resume::<Coproduct<u64, CNil>, u64, Here>(Coproduct::Inr(r)).unwrap());
        }
        if answers.len() < 2 {
            GeneratorState::Yielded(yield_signal::<CountEffs, Counter, Here>(Counter))
        } else {
            GeneratorState::Complete(answers[0] + answers[1])
        }
    };
    let handlers = HCons {
        head: |s: &mut u64, _: Counter| {
            *s += 1;
            Control::resume(*s)
        },
        tail: HNil,
    };
    let mut count: u64 = 0;
    let mut input: CountInput = start_signal();
    let result = loop {
        let g = resume_co(input);
        match step_stateful::<CountEffs, u64, _, u64, CountIdx>(g, &mut count, &handlers) {
            Step::Done(r) => break r,
            Step::Resume(x) => input = x,
        }
    };
    assert_eq!(result, Ok(3));
    assert_eq!(count, 2);
}
