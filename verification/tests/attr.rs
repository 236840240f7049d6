use corophage::attr::{
    classify_arg, collect_args, crate_path, leading_lifetime, parse_spread_dots, peek_spread,
    plan_expansion, ArgKind, ArgsError, EffectsShape, FoundCrate, Tok,
};

fn dot(joint: bool) -> Tok {
    Tok::Punct { ch: '.', joint }
}

fn comma() -> Tok {
    Tok::Punct { ch: ',', joint: false }
}

#[test]
fn spread_needs_three_joined_dots() {
    assert!(peek_spread(&vec![dot(true), dot(true), dot(false), Tok::Ident("A".to_string())]));
    assert!(!peek_spread(&vec![dot(true), dot(false), dot(false)]));
    assert!(!peek_spread(&vec![dot(true), dot(true)]));
    assert_eq!(parse_spread_dots(&vec![dot(false), dot(false), dot(false)]), Ok(3));
    assert_eq!(parse_spread_dots(&vec![dot(true), Tok::Other]), Err(1));
    assert_eq!(parse_spread_dots(&vec![dot(true)]), Err(1));
}

#[test]
fn classify_send_spread_effect() {
    assert!(classify_arg(&vec![Tok::Ident("send".to_string())]) == ArgKind::Send);
    assert!(classify_arg(&vec![Tok::Ident("send".to_string()), comma()]) == ArgKind::Send);
    assert!(classify_arg(&vec![Tok::Ident("send".to_string()), Tok::Other]) == ArgKind::Effect);
    assert!(classify_arg(&vec![Tok::Ident("Log".to_string())]) == ArgKind::Effect);
    assert!(classify_arg(&vec![dot(true), dot(true), dot(false), Tok::Ident("Io".to_string())]) == ArgKind::Spread);
}

#[test]
fn leading_lifetime_alone_or_before_comma() {
    assert!(leading_lifetime(&vec![Tok::Lifetime, comma(), Tok::Ident("A".to_string())]));
    assert!(leading_lifetime(&vec![Tok::Lifetime]));
    assert!(!leading_lifetime(&vec![Tok::Lifetime, Tok::Ident("A".to_string())]));
    assert!(!leading_lifetime(&vec![]));
    assert!(!leading_lifetime(&vec![Tok::Ident("A".to_string()), comma()]));
}

#[test]
fn collect_args_accepts_effects_spread_send() {
    let kinds = vec![ArgKind::Effect, ArgKind::Effect, ArgKind::Spread, ArgKind::Send];
    match collect_args(&kinds) {
        Ok(layout) => {
            assert_eq!(layout.effects, vec![0, 1]);
            assert_eq!(layout.spread, Some(2));
            assert!(layout.send);
        }
        Err(_) => panic!("refused"),
    }
    match collect_args(&vec![]) {
        Ok(layout) => {
            assert!(layout.effects.is_empty());
            assert_eq!(layout.spread, None);
            assert!(!layout.send);
        }
        Err(_) => panic!("refused"),
    }
}

#[test]
fn collect_args_refuses_effect_after_spread() {
    let kinds = vec![ArgKind::Spread, ArgKind::Send, ArgKind::Effect];
    assert!(matches!(collect_args(&kinds), Err(ArgsError::EffectAfterSpread(2))));
}

#[test]
fn collect_args_refuses_second_spread() {
    let kinds = vec![ArgKind::Effect, ArgKind::Spread, ArgKind::Spread];
    assert!(matches!(collect_args(&kinds), Err(ArgsError::SecondSpread(2))));
}

#[test]
fn plan_expansion_shapes() {
    assert!(plan_expansion(true, 1, false, false).is_err());
    let p = plan_expansion(false, 0, false, false).ok().unwrap();
    assert!(p.effects == EffectsShape::Empty && !p.sendable);
    let p = plan_expansion(false, 2, false, true).ok().unwrap();
    assert!(p.effects == EffectsShape::List && p.sendable);
    let p = plan_expansion(false, 0, true, false).ok().unwrap();
    assert!(p.effects == EffectsShape::ListWithSpread);
}

#[test]
fn crate_path_choices() {
    assert_eq!(crate_path(Ok(FoundCrate::Itself)), Ok("::corophage".to_string()));
    assert_eq!(crate_path(Ok(FoundCrate::Name("coro".to_string()))), Ok("::coro".to_string()));
    assert_eq!(
        crate_path(Err("no Cargo.toml found".to_string())),
        Err("failed to locate the `corophage` crate: no Cargo.toml found".to_string())
    );
}

#[test]
fn refusals_report_position_and_message() {
    let kinds = vec![ArgKind::Effect, ArgKind::Spread, ArgKind::Effect];
    match collect_args(&kinds) {
        Err(e) => {
            assert_eq!(e.position(), 2);
            assert_eq!(
                e.message(),
                "`...Spread` must be the last effect argument (before `send`); inline effects cannot follow a spread"
            );
        }
        Ok(_) => panic!("accepted"),
    }
    let kinds = vec![ArgKind::Spread, ArgKind::Spread];
    match collect_args(&kinds) {
        Err(e) => {
            assert_eq!(e.position(), 1);
            assert_eq!(e.message(), "only one `...Spread` is allowed per #[effectful] attribute");
        }
        Ok(_) => panic!("accepted"),
    }
    match plan_expansion(true, 0, false, false) {
        Err(refused) => assert_eq!(
            refused.message(),
            "#[effectful] cannot be applied to async functions; the macro already generates the async machinery internally"
        ),
        Ok(_) => panic!("accepted"),
    }
}
