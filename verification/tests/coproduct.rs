use corophage::coproduct::{
    CNil, CoprodAt, CoprodInjector, CoprodUninjector, Coproduct, Here, There,
};

type Abc = Coproduct<u8, Coproduct<bool, Coproduct<char, CNil>>>;

#[test]
fn inject_places_value_at_index() {
    let a: Abc = <Abc as CoprodInjector<u8, Here>>::inject(5);
    assert_eq!(a, Coproduct::Inl(5));
    let b: Abc = <Abc as CoprodInjector<bool, There<Here>>>::inject(true);
    assert_eq!(b, Coproduct::Inr(Coproduct::Inl(true)));
    let c: Abc = <Abc as CoprodInjector<char, There<There<Here>>>>::inject('x');
    assert_eq!(c, Coproduct::Inr(Coproduct::Inr(Coproduct::Inl('x'))));
}

#[test]
fn at_finds_value_or_hands_it_back() {
    let c: Abc = Coproduct::Inr(Coproduct::Inr(Coproduct::Inl('x')));
    assert_eq!(<Abc as CoprodAt<char, There<There<Here>>>>::at(c), Ok('x'));
    assert_eq!(<Abc as CoprodAt<u8, Here>>::at(c), Err(c));
    assert_eq!(<Abc as CoprodAt<bool, There<Here>>>::at(c), Err(c));
}

#[test]
fn uninject_closes_up_remaining_positions() {
    let c: Abc = Coproduct::Inr(Coproduct::Inr(Coproduct::Inl('x')));
    let r = <Abc as CoprodUninjector<bool, There<Here>>>::uninject(c);
    assert_eq!(r, Err(Coproduct::Inr(Coproduct::Inl('x'))));
    let a: Abc = Coproduct::Inl(9);
    let r = <Abc as CoprodUninjector<bool, There<Here>>>::uninject(a);
    assert_eq!(r, Err(Coproduct::Inl(9)));
    let b: Abc = Coproduct::Inr(Coproduct::Inl(false));
    assert_eq!(<Abc as CoprodUninjector<bool, There<Here>>>::uninject(b), Ok(false));
}

#[test]
fn inject_then_uninject_round_trip() {
    let v: Abc = <Abc as CoprodInjector<char, There<There<Here>>>>::inject('q');
    assert_eq!(<Abc as CoprodUninjector<char, There<There<Here>>>>::uninject(v), Ok('q'));
}
