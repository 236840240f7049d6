use corophage::coproduct::{CNil, Coproduct, Here, There};
use corophage::dispatch::{co_control, EmbedEffect, HandleMut, HandleWith, ProjectResume};
use corophage::dyn_dispatch::resume;
use corophage::effect::{CovariantResume, Effect, InjectResume, ShortenResumes};
use corophage::hlist::{HCons, HNil};
use corophage::{CoControl, Control};

struct Ask(&'static str);

impl Effect for Ask {
    type Resume<'r> = &'static str;
}

struct Count;

impl Effect for Count {
    type Resume<'r> = u32;
}

impl CovariantResume for Ask {
    fn shorten_resume<'a: 'b, 'b>(resume: &'static str) -> &'static str {
        resume
    }
}

impl CovariantResume for Count {
    fn shorten_resume<'a: 'b, 'b>(resume: u32) -> u32 {
        resume
    }
}

struct Log(&'static str);

impl Effect for Log {
    type Resume<'r> = ();
}

type Effs = Coproduct<Ask, Coproduct<Count, CNil>>;
type Rs = Coproduct<&'static str, Coproduct<u32, CNil>>;
/// For each position of `Effs`: where its resume goes, and where its handler is.
type Idx = HCons<(Here, Here), HCons<(There<Here>, There<Here>), HNil>>;

fn resumed(c: CoControl<'static, Effs>) -> Option<Rs> {
    match c {
        CoControl::Resume(r) => Some(r),
        CoControl::Cancel => None,
    }
}

#[test]
fn inject_resume_uses_effect_position() {
    let r = <Effs as InjectResume<'static, Count, There<Here>>>::inject_resume(4);
    assert_eq!(r, Coproduct::Inr(Coproduct::Inl(4)));
    let r = <Effs as InjectResume<'static, Ask, Here>>::inject_resume("a");
    assert_eq!(r, Coproduct::Inl("a"));
}

#[test]
fn co_control_lifts_answers() {
    let c = co_control::<'static, Effs, Count, There<Here>>(Control::Resume(8));
    assert_eq!(resumed(c), Some(Coproduct::Inr(Coproduct::Inl(8))));
    let c = co_control::<'static, Effs, Count, There<Here>>(Control::Cancel);
    assert!(resumed(c).is_none());
}

#[test]
fn handle_mut_dispatches_to_handler_of_effect() {
    let mut asked: Vec<&'static str> = Vec::new();
    let mut counted = 0u32;
    {
        let mut handlers = HCons {
            head: |Ask(q): Ask| {
                asked.push(q);
                Control::resume("answer")
            },
            tail: HCons {
                head: |_: Count| {
                    counted += 1;
                    Control::resume(counted)
                },
                tail: HNil,
            },
        };
        let e: Effs = Coproduct::Inr(Coproduct::Inl(Count));
        let out = HandleMut::<'static, Effs, _, Idx>::handle_mut(e, &mut handlers);
        assert_eq!(resumed(out), Some(Coproduct::Inr(Coproduct::Inl(1))));
        let e: Effs = Coproduct::Inl(Ask("q"));
        let out = HandleMut::<'static, Effs, _, Idx>::handle_mut(e, &mut handlers);
        assert_eq!(resumed(out), Some(Coproduct::Inl("answer")));
    }
    assert_eq!(asked, vec!["q"]);
    assert_eq!(counted, 1);
}

#[test]
fn handle_mut_cancel_answer_cancels() {
    let mut handlers = HCons {
        head: |_: Ask| Control::cancel(),
        tail: HCons { head: |_: Count| Control::resume(0u32), tail: HNil },
    };
    let e: Effs = Coproduct::Inl(Ask("forbidden"));
    let out = HandleMut::<'static, Effs, _, Idx>::handle_mut(e, &mut handlers);
    assert!(resumed(out).is_none());
}

#[test]
fn handle_with_threads_state() {
    let handlers = HCons {
        head: |s: &mut u32, Ask(_): Ask| {
            *s += 10;
            Control::resume("ok")
        },
        tail: HCons {
            head: |s: &mut u32, _: Count| {
                *s += 1;
                Control::resume(*s)
            },
            tail: HNil,
        },
    };
    let mut state = 0u32;
    let e: Effs = Coproduct::Inr(Coproduct::Inl(Count));
    let out = HandleWith::<'static, Effs, _, u32, Idx>::handle_with(e, &mut state, &handlers);
    assert_eq!(resumed(out), Some(Coproduct::Inr(Coproduct::Inl(1))));
    let e: Effs = Coproduct::Inl(Ask("x"));
    let out = HandleWith::<'static, Effs, _, u32, Idx>::handle_with(e, &mut state, &handlers);
    assert_eq!(resumed(out), Some(Coproduct::Inl("ok")));
    assert_eq!(state, 11);
}

type Outer = Coproduct<Log, Coproduct<Ask, Coproduct<Count, CNil>>>;
type OuterRs = Coproduct<(), Coproduct<&'static str, Coproduct<u32, CNil>>>;
type SubToOuter = HCons<There<Here>, HCons<There<There<Here>>, HNil>>;

#[test]
fn embed_maps_sub_effect_to_outer_position() {
    let e: Effs = Coproduct::Inr(Coproduct::Inl(Count));
    let outer: Outer = EmbedEffect::<Outer, SubToOuter>::embed(e);
    assert!(matches!(outer, Coproduct::Inr(Coproduct::Inr(Coproduct::Inl(Count)))));
    let e: Effs = Coproduct::Inl(Ask("who"));
    let outer: Outer = EmbedEffect::<Outer, SubToOuter>::embed(e);
    assert!(matches!(outer, Coproduct::Inr(Coproduct::Inl(Ask("who")))));
}

#[test]
fn project_maps_outer_resume_back() {
    let r: OuterRs = Coproduct::Inr(Coproduct::Inr(Coproduct::Inl(12)));
    let sub: Rs = ProjectResume::<'static, Effs, SubToOuter>::project(r);
    assert_eq!(sub, Coproduct::Inr(Coproduct::Inl(12)));
    let r: OuterRs = Coproduct::Inr(Coproduct::Inl("name"));
    let sub: Rs = ProjectResume::<'static, Effs, SubToOuter>::project(r);
    assert_eq!(sub, Coproduct::Inl("name"));
}

#[test]
fn shorten_resumes_keeps_position() {
    let r: Rs = Coproduct::Inr(Coproduct::Inl(3));
    let s: Rs = <Effs as ShortenResumes>::shorten_resumes(r);
    assert_eq!(s, Coproduct::Inr(Coproduct::Inl(3)));
}

#[test]
fn dyn_resume_puts_value_at_effect_position() {
    let c: CoControl<'static, Effs> = resume::<'static, Effs, Count, There<Here>>(41);
    assert_eq!(resumed(c), Some(Coproduct::Inr(Coproduct::Inl(41))));
}

type Outermost = Coproduct<Count, Coproduct<Log, Coproduct<Ask, Coproduct<Count, CNil>>>>;
type OuterToOutermost = HCons<There<Here>, HCons<There<There<Here>>, HCons<There<There<There<Here>>>, HNil>>>;

#[test]
fn nested_embed_composes_positions() {
    let e: Effs = Coproduct::Inr(Coproduct::Inl(Count));
    let mid: Outer = EmbedEffect::<Outer, SubToOuter>::embed(e);
    let top: Outermost = EmbedEffect::<Outermost, OuterToOutermost>::embed(mid);
    assert!(matches!(top, Coproduct::Inr(Coproduct::Inr(Coproduct::Inr(Coproduct::Inl(Count))))));
    let e: Effs = Coproduct::Inl(Ask("who"));
    let mid: Outer = EmbedEffect::<Outer, SubToOuter>::embed(e);
    let top: Outermost = EmbedEffect::<Outermost, OuterToOutermost>::embed(mid);
    assert!(matches!(top, Coproduct::Inr(Coproduct::Inr(Coproduct::Inl(Ask("who"))))));
}

#[test]
fn try_project_refuses_unmapped_position() {
    let r: OuterRs = Coproduct::Inl(());
    let sub: Option<Rs> = ProjectResume::<'static, Effs, SubToOuter>::try_project(r);
    assert_eq!(sub, None);
    let r: OuterRs = Coproduct::Inr(Coproduct::Inr(Coproduct::Inl(5)));
    let sub: Option<Rs> = ProjectResume::<'static, Effs, SubToOuter>::try_project(r);
    assert_eq!(sub, Some(Coproduct::Inr(Coproduct::Inl(5))));
}

#[test]
fn handler_order_does_not_change_dispatch() {
    fn ask(_: Ask) -> Control<&'static str> {
        Control::resume("answer")
    }
    fn count(_: Count) -> Control<u32> {
        Control::resume(7)
    }
    let mut in_order = HCons { head: ask, tail: HCons { head: count, tail: HNil } };
    let mut reversed = HCons { head: count, tail: HCons { head: ask, tail: HNil } };
    type Reversed = HCons<(Here, There<Here>), HCons<(There<Here>, Here), HNil>>;
    let e1: Effs = Coproduct::Inl(Ask("q"));
    let e2: Effs = Coproduct::Inl(Ask("q"));
    let a = HandleMut::<'static, Effs, _, Idx>::handle_mut(e1, &mut in_order);
    let b = HandleMut::<'static, Effs, _, Reversed>::handle_mut(e2, &mut reversed);
    assert_eq!(resumed(a), Some(Coproduct::Inl("answer")));
    assert_eq!(resumed(b), Some(Coproduct::Inl("answer")));
    let c: Effs = Coproduct::Inr(Coproduct::Inl(Count));
    let d: Effs = Coproduct::Inr(Coproduct::Inl(Count));
    let a = HandleMut::<'static, Effs, _, Idx>::handle_mut(c, &mut in_order);
    let b = HandleMut::<'static, Effs, _, Reversed>::handle_mut(d, &mut reversed);
    assert_eq!(resumed(a), Some(Coproduct::Inr(Coproduct::Inl(7))));
    assert_eq!(resumed(b), Some(Coproduct::Inr(Coproduct::Inl(7))));
}
