//! The grammar of the `#[effectful(...)]` attribute's arguments and the shape
//! of the code that the attribute writes, over the tokens as plain values.
//!
//! The arguments are an optional leading lifetime followed by a comma, then a
//! comma-separated list of effect types, the keyword `send`, and at most one
//! `...Alias` spread, which must come after every effect type.
use vstd::prelude::*;

use vstd::string::StringExecFns;

verus! {

/// A token of the attribute's arguments, as far as the grammar looks at it.
pub enum Tok {
    /// A punctuation character, and whether the next punctuation is joined to it.
    Punct { ch: char, joint: bool },
    /// An identifier.
    Ident(String),
    /// A lifetime such as `'a`.
    Lifetime,
    /// Anything else (literals, groups).
    Other,
}

/// Whether `tok` is a `.` that a spread may continue after (`joint`) or end with.
pub open spec fn is_dot(tok: Tok, need_joint: bool) -> bool {
    match tok {
        Tok::Punct { ch, joint } => ch == '.' && (joint || !need_joint),
        _ => false,
    }
}

/// The tokens start with `...`: three dots, the first two joined to the next.
pub open spec fn starts_with_spread(toks: Seq<Tok>) -> bool {
    toks.len() >= 3 && is_dot(toks[0], true) && is_dot(toks[1], true) && is_dot(toks[2], false)
}

fn tok_is_dot(tok: &Tok, need_joint: bool) -> (b: bool)
    ensures
        b == is_dot(*tok, need_joint),
{
    match tok {
        Tok::Punct { ch, joint } => *ch == '.' && (*joint || !need_joint),
        _ => false,
    }
}

/// Whether the next tokens are the `...` of a spread.
pub fn peek_spread(toks: &Vec<Tok>) -> (b: bool)
    ensures
        b == starts_with_spread(toks@),
{
    let mut i: usize = 0;
    while i < 3
        invariant
            i <= 3,
            forall|k: int| 0 <= k < i ==> k < toks@.len() && is_dot(#[trigger] toks@[k], k < 2),
        decreases 3 - i,
    {
        if i >= toks.len() || !tok_is_dot(&toks[i], i < 2) {
            return false;
        }
        i = i + 1;
    }
    assert(is_dot(toks@[0], 0 < 2));
    assert(is_dot(toks@[1], 1 < 2));
    assert(is_dot(toks@[2], 2 < 2));
    true
}

/// Consume the three dots of a spread, whatever their spacing. On success,
/// the number of tokens consumed; otherwise the position of the first token
/// that is not a dot (the length, when the tokens run out).
pub fn parse_spread_dots(toks: &Vec<Tok>) -> (r: Result<usize, usize>)
    ensures
        match r {
            Ok(n) => n == 3 && toks@.len() >= 3 && forall|k: int| 0 <= k < 3 ==> is_dot(#[trigger] toks@[k], false),
            Err(p) => p < 3 && (forall|k: int| 0 <= k < p ==> is_dot(#[trigger] toks@[k], false)) && (p
                == toks@.len() || (p < toks@.len() && !is_dot(toks@[p as int], false))),
        },
{
    let mut i: usize = 0;
    while i < 3
        invariant
            i <= 3,
            forall|k: int| 0 <= k < i ==> k < toks@.len() && is_dot(#[trigger] toks@[k], false),
        decreases 3 - i,
    {
        if i >= toks.len() || !tok_is_dot(&toks[i], false) {
            if i > 0 {
                assert(is_dot(toks@[i - 1], false));
            }
            return Err(i);
        }
        i = i + 1;
    }
    assert(is_dot(toks@[2], false));
    assert(is_dot(toks@[1], false));
    assert(is_dot(toks@[0], false));
    Ok(3)
}

/// What one comma-separated argument is.
#[derive(PartialEq, Eq, Structural)]
pub enum ArgKind {
    /// The keyword `send`: the written program is `Send`.
    Send,
    /// An effect type.
    Effect,
    /// `...Alias`: the effects of an effect-set alias.
    Spread,
}

/// The argument that the tokens `toks` (an argument and all that follows it)
/// start with: a spread if they start with `...`; the keyword `send` if they
/// are the identifier `send` alone or followed by a comma; else an effect type.
pub open spec fn arg_kind(toks: Seq<Tok>) -> ArgKind {
    if starts_with_spread(toks) {
        ArgKind::Spread
    } else if toks.len() >= 1 && (toks[0] matches Tok::Ident(id) && id@ == "send"@) && (toks.len()
        == 1 || toks[1] matches Tok::Punct { ch: ',', .. }) {
        ArgKind::Send
    } else {
        ArgKind::Effect
    }
}

/// Only the keyword `send` is read as `send`: an argument is `Send` only when
/// its first token is the identifier `send`, alone or before a comma; an
/// argument that starts with any other identifier is an effect type; a spread
/// starts with a `.`.
pub proof fn law_send_only_for_keyword(toks: Seq<Tok>)
    ensures
        arg_kind(toks) == ArgKind::Send ==> toks.len() >= 1 && (toks[0] matches Tok::Ident(id)
            && id@ == "send"@),
        arg_kind(toks) == ArgKind::Send ==> toks.len() == 1 || toks[1] matches Tok::Punct {
            ch: ',',
            ..
        },
        toks.len() >= 1 && (toks[0] matches Tok::Ident(id) && id@ != "send"@) ==> arg_kind(toks)
            == ArgKind::Effect,
        toks.len() >= 1 && (toks[0] matches Tok::Ident(id) && id@ == "send"@) && (toks.len() == 1
            || toks[1] matches Tok::Punct { ch: ',', .. }) ==> arg_kind(toks) == ArgKind::Send,
        arg_kind(toks) == ArgKind::Spread ==> toks.len() >= 3 && (toks[0] matches Tok::Punct {
            ch: '.',
            ..
        }),
{
}

/// Classify the argument that the tokens start with.
pub fn classify_arg(toks: &Vec<Tok>) -> (k: ArgKind)
    ensures
        k == arg_kind(toks@),
        k == ArgKind::Send ==> toks@.len() >= 1 && (toks@[0] matches Tok::Ident(id) && id@
            == "send"@),
        toks@.len() >= 1 && (toks@[0] matches Tok::Ident(id) && id@ != "send"@) ==> k
            == ArgKind::Effect,
        toks@.len() >= 1 && (toks@[0] matches Tok::Ident(id) && id@ == "send"@) && (toks@.len()
            == 1 || toks@[1] matches Tok::Punct { ch: ',', .. }) ==> k == ArgKind::Send,
{
    proof {
        law_send_only_for_keyword(toks@);
    }
    if peek_spread(toks) {
        return ArgKind::Spread;
    }
    if toks.len() >= 1 {
        if let Tok::Ident(id) = &toks[0] {
            let send = String::from_str("send");
            proof {
                reveal_strlit("send");
            }
            if *id == send {
                let alone = toks.len() == 1;
                let then_comma = !alone && match &toks[1] {
                    Tok::Punct { ch, .. } => *ch == ',',
                    _ => false,
                };
                if alone || then_comma {
                    return ArgKind::Send;
                }
            }
        }
    }
    ArgKind::Effect
}

/// The arguments start with a lifetime that stands alone or is followed by a
/// comma: the lifetime is then the one the effects borrow for.
pub fn leading_lifetime(toks: &Vec<Tok>) -> (b: bool)
    ensures
        b == (toks@.len() >= 1 && toks@[0] is Lifetime && (toks@.len() == 1
            || toks@[1] matches Tok::Punct { ch: ',', .. })),
{
    if toks.len() < 1 {
        return false;
    }
    let lifetime = match &toks[0] {
        Tok::Lifetime => true,
        _ => false,
    };
    let alone_or_comma = toks.len() == 1 || match &toks[1] {
        Tok::Punct { ch, .. } => *ch == ',',
        _ => false,
    };
    lifetime && alone_or_comma
}

/// The arguments after the optional lifetime: the positions of the effect
/// types (in order), the position of the spread, and whether `send` was given.
pub struct ArgsLayout {
    pub effects: Vec<usize>,
    pub spread: Option<usize>,
    pub send: bool,
}

/// Why a list of arguments is refused, with the position of the offending argument.
pub enum ArgsError {
    /// An effect type after the spread.
    EffectAfterSpread(usize),
    /// A second spread.
    SecondSpread(usize),
}

impl ArgsError {
    /// The position of the refused argument.
    pub fn position(&self) -> (p: usize)
        ensures
            p == match *self {
                ArgsError::EffectAfterSpread(q) => q,
                ArgsError::SecondSpread(q) => q,
            },
    {
        match self {
            ArgsError::EffectAfterSpread(p) => *p,
            ArgsError::SecondSpread(p) => *p,
        }
    }

    /// The message reported for the refused argument.
    pub fn message(&self) -> (m: String)
        ensures
            *self is EffectAfterSpread ==> m@ == "`...Spread` must be the last effect argument (before `send`); inline effects cannot follow a spread"@,
            *self is SecondSpread ==> m@ == "only one `...Spread` is allowed per #[effectful] attribute"@,
    {
        match self {
            ArgsError::EffectAfterSpread(_) => String::from_str("`...Spread` must be the last effect argument (before `send`); inline effects cannot follow a spread"),
            ArgsError::SecondSpread(_) => String::from_str("only one `...Spread` is allowed per #[effectful] attribute"),
        }
    }
}

/// The position of the first spread in `kinds`, if any.
pub open spec fn first_spread(kinds: Seq<ArgKind>) -> Option<nat> {
    if exists|i: int| 0 <= i < kinds.len() && kinds[i] == ArgKind::Spread {
        Some(
            (choose|i: int|
                0 <= i < kinds.len() && kinds[i] == ArgKind::Spread && forall|j: int|
                    0 <= j < i ==> kinds[j] != ArgKind::Spread) as nat,
        )
    } else {
        None
    }
}

/// The positions of the effect types among the first `n` arguments, in order.
pub open spec fn effect_positions_upto(kinds: Seq<ArgKind>, n: nat) -> Seq<usize>
    decreases n,
{
    if n == 0 {
        Seq::empty()
    } else if kinds[n - 1] == ArgKind::Effect {
        effect_positions_upto(kinds, (n - 1) as nat).push((n - 1) as usize)
    } else {
        effect_positions_upto(kinds, (n - 1) as nat)
    }
}

/// The positions of the effect types, in order.
pub open spec fn effect_positions(kinds: Seq<ArgKind>) -> Seq<usize> {
    effect_positions_upto(kinds, kinds.len())
}

/// The positions of the effect types among the first `n` arguments are
/// positions of effect types, below `n`, strictly increasing, and every effect
/// type among the first `n` arguments has its position among them.
proof fn lemma_effect_positions_upto(kinds: Seq<ArgKind>, n: nat)
    requires
        n <= kinds.len(),
        kinds.len() <= usize::MAX,
    ensures
        forall|j: int|
            0 <= j < effect_positions_upto(kinds, n).len() ==> (#[trigger] effect_positions_upto(
                kinds,
                n,
            )[j]) < n && kinds[effect_positions_upto(kinds, n)[j] as int] == ArgKind::Effect,
        forall|j1: int, j2: int|
            0 <= j1 < j2 < effect_positions_upto(kinds, n).len() ==> (#[trigger] effect_positions_upto(
                kinds,
                n,
            )[j1]) < (#[trigger] effect_positions_upto(kinds, n)[j2]),
        forall|i: int|
            0 <= i < n && #[trigger] kinds[i] == ArgKind::Effect ==> effect_positions_upto(
                kinds,
                n,
            ).contains(i as usize),
    decreases n,
{
    if n > 0 {
        let m = (n - 1) as nat;
        lemma_effect_positions_upto(kinds, m);
        let prev = effect_positions_upto(kinds, m);
        if kinds[m as int] == ArgKind::Effect {
            let cur = prev.push(m as usize);
            assert(effect_positions_upto(kinds, n) == cur);
            assert forall|i: int| 0 <= i < n && #[trigger] kinds[i] == ArgKind::Effect implies cur.contains(
                i as usize,
            ) by {
                if i < m {
                    let k = choose|k: int| 0 <= k < prev.len() && prev[k] == i as usize;
                    assert(cur[k] == i as usize);
                } else {
                    assert(cur[prev.len() as int] == i as usize);
                }
            }
        } else {
            assert(effect_positions_upto(kinds, n) == prev);
            assert forall|i: int| 0 <= i < n && #[trigger] kinds[i] == ArgKind::Effect implies prev.contains(
                i as usize,
            ) by {
                assert(i != m);
            }
        }
    }
}

/// Every effect argument is kept, in order: the positions of the effect types
/// are exactly the positions `i` with `kinds[i] == ArgKind::Effect`, each once
/// and in increasing order.
pub proof fn law_effect_positions_exact(kinds: Seq<ArgKind>)
    requires
        kinds.len() <= usize::MAX,
    ensures
        forall|j: int|
            0 <= j < effect_positions(kinds).len() ==> (#[trigger] effect_positions(kinds)[j])
                < kinds.len() && kinds[effect_positions(kinds)[j] as int] == ArgKind::Effect,
        forall|j1: int, j2: int|
            0 <= j1 < j2 < effect_positions(kinds).len() ==> (#[trigger] effect_positions(kinds)[j1])
                < (#[trigger] effect_positions(kinds)[j2]),
        forall|i: int|
            0 <= i < kinds.len() && #[trigger] kinds[i] == ArgKind::Effect ==> effect_positions(
                kinds,
            ).contains(i as usize),
{
    lemma_effect_positions_upto(kinds, kinds.len());
}

/// Collect the arguments. They are accepted when no effect type and no second
/// spread follow a spread; otherwise the first argument after the spread that
/// is an effect type or a spread is refused.
pub fn collect_args(kinds: &Vec<ArgKind>) -> (r: Result<ArgsLayout, ArgsError>)
    requires
        kinds.len() < usize::MAX,
    ensures
        match r {
            Ok(layout) => {
                &&& layout.effects@ == effect_positions(kinds@)
                &&& forall|j: int|
                    0 <= j < layout.effects@.len() ==> (#[trigger] layout.effects@[j]) < kinds@.len()
                        && kinds@[layout.effects@[j] as int] == ArgKind::Effect
                &&& forall|j1: int, j2: int|
                    0 <= j1 < j2 < layout.effects@.len() ==> (#[trigger] layout.effects@[j1])
                        < (#[trigger] layout.effects@[j2])
                &&& forall|i: int|
                    0 <= i < kinds@.len() && #[trigger] kinds@[i] == ArgKind::Effect
                        ==> layout.effects@.contains(i as usize)
                &&& layout.send == (exists|i: int| 0 <= i < kinds@.len() && kinds@[i] == ArgKind::Send)
                &&& layout.spread == match first_spread(kinds@) {
                    Some(s) => Some(s as usize),
                    None => None::<usize>,
                }
                &&& forall|i: int|
                    #![trigger kinds@[i]]
                    0 <= i < kinds@.len() && (first_spread(kinds@) matches Some(s) && i > s)
                        ==> kinds@[i] == ArgKind::Send
            },
            Err(e) => {
                &&& first_spread(kinds@) matches Some(s)
                &&& exists|p: int|
                    #![trigger kinds@[p]]
                    s < p < kinds@.len() && kinds@[p] != ArgKind::Send && (forall|q: int|
                        s < q < p ==> kinds@[q] == ArgKind::Send) && match e {
                        ArgsError::EffectAfterSpread(pos) => pos == p && kinds@[p]
                            == ArgKind::Effect,
                        ArgsError::SecondSpread(pos) => pos == p && kinds@[p] == ArgKind::Spread,
                    }
            },
        },
{
    let mut effects: Vec<usize> = Vec::new();
    let mut spread: Option<usize> = None;
    let mut send = false;
    let mut i: usize = 0;
    while i < kinds.len()
        invariant
            i <= kinds.len(),
            kinds.len() < usize::MAX,
            effects@ == effect_positions_upto(kinds@, i as nat),
            send == (exists|k: int| 0 <= k < i && kinds@[k] == ArgKind::Send),
            match spread {
                None => forall|k: int| 0 <= k < i ==> kinds@[k] != ArgKind::Spread,
                Some(s) => s < i && kinds@[s as int] == ArgKind::Spread && (forall|k: int|
                    0 <= k < s ==> kinds@[k] != ArgKind::Spread) && (forall|k: int|
                    s < k < i ==> kinds@[k] == ArgKind::Send),
            },
        decreases kinds.len() - i,
    {
        match kinds[i] {
            ArgKind::Send => {
                send = true;
            },
            ArgKind::Effect => {
                if let Some(s) = spread {
                    proof {
                        assert(first_spread(kinds@) == Some(s as nat)) by {
                            lemma_first_spread_is(kinds@, s as int);
                        }
                        assert(kinds@[i as int] != ArgKind::Send);
                    }
                    return Err(ArgsError::EffectAfterSpread(i));
                }
                effects.push(i);
            },
            ArgKind::Spread => {
                if let Some(s) = spread {
                    proof {
                        assert(first_spread(kinds@) == Some(s as nat)) by {
                            lemma_first_spread_is(kinds@, s as int);
                        }
                        assert(kinds@[i as int] != ArgKind::Send);
                    }
                    return Err(ArgsError::SecondSpread(i));
                }
                spread = Some(i);
            },
        }
        i = i + 1;
    }
    proof {
        match spread {
            Some(s) => {
                lemma_first_spread_is(kinds@, s as int);
            },
            None => {},
        }
    }
    proof {
        law_effect_positions_exact(kinds@);
    }
    Ok(ArgsLayout { effects, spread, send })
}

proof fn lemma_first_spread_is(kinds: Seq<ArgKind>, s: int)
    requires
        0 <= s < kinds.len(),
        kinds[s] == ArgKind::Spread,
        forall|k: int| 0 <= k < s ==> kinds[k] != ArgKind::Spread,
    ensures
        first_spread(kinds) == Some(s as nat),
{
    let c = choose|i: int|
        0 <= i < kinds.len() && kinds[i] == ArgKind::Spread && forall|j: int|
            0 <= j < i ==> kinds[j] != ArgKind::Spread;
    if c < s {
        assert(kinds[c] != ArgKind::Spread);
    }
    if c > s {
        assert(kinds[s] != ArgKind::Spread);
    }
}

/// The effect set type that `#[effectful]` writes.
#[derive(PartialEq, Eq, Structural)]
pub enum EffectsShape {
    /// No effect at all: the empty coproduct.
    Empty,
    /// `Effects![E1, .., En]`.
    List,
    /// The inline effects followed by the spread alias's effects.
    ListWithSpread,
}

/// How the written body builds its program.
#[derive(PartialEq, Eq, Structural)]
pub enum ProgramConstructor {
    /// `Program::new`: a program that is not `Send`.
    New,
    /// `Program::new_send`: a `Send` program.
    NewSend,
}

/// Which method of the yielder the written `invoke!` calls to run a sub-program.
#[derive(PartialEq, Eq, Structural)]
pub enum InvokeMethod {
    /// `Yielder::invoke`.
    Invoke,
    /// `Yielder::invoke_send`, whose future keeps the program `Send`.
    InvokeSend,
}

/// The choices of the code that `#[effectful]` writes for a function.
pub struct ExpansionPlan {
    pub effects: EffectsShape,
    /// The written return type marks the program `Sendable`.
    pub sendable: bool,
    /// How the written body builds the program.
    pub constructor: ProgramConstructor,
    /// How the written `invoke!` runs a sub-program.
    pub invoke: InvokeMethod,
}

/// `#[effectful]` is refused on an `async fn`.
pub struct AsyncFnRefused;

impl AsyncFnRefused {
    /// The message reported for an `async fn`.
    pub fn message(&self) -> (m: String)
        ensures
            m@ == "#[effectful] cannot be applied to async functions; the macro already generates the async machinery internally"@,
    {
        String::from_str("#[effectful] cannot be applied to async functions; the macro already generates the async machinery internally")
    }
}

/// Decide the shape of the code written for a function with `n_effects` inline
/// effect types, a spread or not, and `send` or not.
pub fn plan_expansion(is_async: bool, n_effects: usize, has_spread: bool, send: bool) -> (r: Result<
    ExpansionPlan,
    AsyncFnRefused,
>)
    ensures
        is_async ==> r is Err,
        !is_async ==> (r matches Ok(plan) && plan.sendable == send && plan.effects == (
        if has_spread {
            EffectsShape::ListWithSpread
        } else if n_effects == 0 {
            EffectsShape::Empty
        } else {
            EffectsShape::List
        }) && plan.constructor == (if send {
            ProgramConstructor::NewSend
        } else {
            ProgramConstructor::New
        }) && plan.invoke == (if send {
            InvokeMethod::InvokeSend
        } else {
            InvokeMethod::Invoke
        })),
{
    if is_async {
        return Err(AsyncFnRefused);
    }
    let effects = if has_spread {
        EffectsShape::ListWithSpread
    } else if n_effects == 0 {
        EffectsShape::Empty
    } else {
        EffectsShape::List
    };
    let (constructor, invoke) = if send {
        (ProgramConstructor::NewSend, InvokeMethod::InvokeSend)
    } else {
        (ProgramConstructor::New, InvokeMethod::Invoke)
    };
    Ok(ExpansionPlan { effects, sendable: send, constructor, invoke })
}

/// Where the generated code finds this library, as the build tool reports it.
pub enum FoundCrate {
    /// The code is in this library itself.
    Itself,
    /// The library is a dependency under this name.
    Name(String),
}

/// The path prefix that generated code uses for this library: `::corophage`
/// within it, `::name` when it is a dependency called `name`, and an error
/// message when it cannot be found.
pub fn crate_path(found: Result<FoundCrate, String>) -> (r: Result<String, String>)
    ensures
        match found {
            Ok(FoundCrate::Itself) => r matches Ok(p) && p@ == "::corophage"@,
            Ok(FoundCrate::Name(n)) => r matches Ok(p) && p@ == "::"@ + n@,
            Err(e) => r matches Err(m) && m@ == "failed to locate the `corophage` crate: "@ + e@,
        },
{
    proof {
        reveal_strlit("::corophage");
        reveal_strlit("::");
        reveal_strlit("failed to locate the `corophage` crate: ");
    }
    match found {
        Ok(FoundCrate::Itself) => Ok(String::from_str("::corophage")),
        Ok(FoundCrate::Name(name)) => {
            let mut path = String::from_str("::");
            path.append(name.as_str());
            Ok(path)
        },
        Err(error) => {
            let mut msg = String::from_str("failed to locate the `corophage` crate: ");
            msg.append(error.as_str());
            Err(msg)
        },
    }
}

} // verus!
