//! The lifetime decisions of the `#[effect]` and `#[effectful]` attributes:
//! fresh lifetime names, which lifetime the effects of a function borrow for,
//! and adding it to the function's generics.
use vstd::prelude::*;

use vstd::string::StringExecFns;

verus! {

/// The character of the decimal digit `d`.
pub open spec fn digit_char(d: nat) -> char {
    if d == 0 {
        '0'
    } else if d == 1 {
        '1'
    } else if d == 2 {
        '2'
    } else if d == 3 {
        '3'
    } else if d == 4 {
        '4'
    } else if d == 5 {
        '5'
    } else if d == 6 {
        '6'
    } else if d == 7 {
        '7'
    } else if d == 8 {
        '8'
    } else {
        '9'
    }
}

/// The decimal representation of `n`, without leading zeros.
pub open spec fn decimal(n: nat) -> Seq<char>
    decreases n,
{
    if n < 10 {
        seq![digit_char(n)]
    } else {
        decimal(n / 10).push(digit_char(n % 10))
    }
}

/// Different numbers have different decimal representations.
pub proof fn lemma_decimal_injective(a: nat, b: nat)
    requires
        decimal(a) == decimal(b),
    ensures
        a == b,
    decreases a,
{
    lemma_decimal_len(a);
    lemma_decimal_len(b);
    if a >= 10 && b >= 10 {
        let da = decimal(a / 10);
        let db = decimal(b / 10);
        assert(decimal(a).last() == digit_char(a % 10));
        assert(decimal(b).last() == digit_char(b % 10));
        assert(da == decimal(a).drop_last());
        assert(db == decimal(b).drop_last());
        assert(a % 10 == b % 10);
        lemma_decimal_injective(a / 10, b / 10);
        assert(a == 10 * (a / 10) + a % 10);
        assert(b == 10 * (b / 10) + b % 10);
    } else if a < 10 && b < 10 {
        assert(decimal(a) == seq![digit_char(a)]);
        assert(decimal(b) == seq![digit_char(b)]);
        assert(decimal(a)[0] == digit_char(a));
        assert(decimal(b)[0] == digit_char(b));
        lemma_digit_injective(a, b);
    } else {
        assert(decimal(a).len() != decimal(b).len());
    }
}

proof fn lemma_digit_injective(a: nat, b: nat)
    requires
        a < 10,
        b < 10,
        digit_char(a) == digit_char(b),
    ensures
        a == b,
{
}

/// A decimal representation has at least one digit, and exactly one below ten.
pub proof fn lemma_decimal_len(n: nat)
    ensures
        decimal(n).len() >= 1,
        n < 10 <==> decimal(n).len() == 1,
    decreases n,
{
    if n >= 10 {
        lemma_decimal_len(n / 10);
    }
}

fn digit_str(d: usize) -> (s: &'static str)
    requires
        d < 10,
    ensures
        s@ == seq![digit_char(d as nat)],
{
    proof {
        reveal_strlit("0");
        reveal_strlit("1");
        reveal_strlit("2");
        reveal_strlit("3");
        reveal_strlit("4");
        reveal_strlit("5");
        reveal_strlit("6");
        reveal_strlit("7");
        reveal_strlit("8");
        reveal_strlit("9");
    }
    if d == 0 {
        "0"
    } else if d == 1 {
        "1"
    } else if d == 2 {
        "2"
    } else if d == 3 {
        "3"
    } else if d == 4 {
        "4"
    } else if d == 5 {
        "5"
    } else if d == 6 {
        "6"
    } else if d == 7 {
        "7"
    } else if d == 8 {
        "8"
    } else {
        "9"
    }
}

/// Append the decimal representation of `n` to `s`.
fn push_decimal(s: &mut String, n: usize)
    ensures
        final(s)@ == old(s)@ + decimal(n as nat),
    decreases n,
{
    if n < 10 {
        s.append(digit_str(n));
    } else {
        push_decimal(s, n / 10);
        s.append(digit_str(n % 10));
        assert(decimal(n as nat) == decimal((n / 10) as nat).push(digit_char((n % 10) as nat)));
    }
}

/// The name tried for a fresh lifetime: `base` itself, then `base_2`, `base_3`, ...
pub open spec fn candidate_name(base: Seq<char>, suffix: Option<nat>) -> Seq<char> {
    match suffix {
        None => base,
        Some(k) => base + "_"@ + decimal(k),
    }
}

/// The suffix of the `i`-th name tried: none first, then 2, 3, ...
pub open spec fn candidate_suffix(i: nat) -> Option<nat> {
    if i == 0 {
        None
    } else {
        Some(i + 1)
    }
}

/// Whether `name` is one of the names in `used`.
pub open spec fn name_used(used: Seq<String>, name: Seq<char>) -> bool {
    exists|i: int| 0 <= i < used.len() && #[trigger] used[i]@ == name
}

/// Different tries give different names.
proof fn lemma_candidates_distinct(base: Seq<char>, i: nat, j: nat)
    requires
        i != j,
    ensures
        candidate_name(base, candidate_suffix(i)) != candidate_name(base, candidate_suffix(j)),
{
    reveal_strlit("_");
    let ni = candidate_name(base, candidate_suffix(i));
    let nj = candidate_name(base, candidate_suffix(j));
    if i == 0 {
        lemma_decimal_len(j + 1);
        assert(nj.len() > base.len());
    } else if j == 0 {
        lemma_decimal_len(i + 1);
        assert(ni.len() > base.len());
    } else {
        if ni == nj {
            let p = base.len() + 1;
            assert(ni.subrange(p as int, ni.len() as int) == decimal(i + 1));
            assert(nj.subrange(p as int, nj.len() as int) == decimal(j + 1));
            lemma_decimal_injective(i + 1, j + 1);
        }
    }
}

/// The names of the first `t` tries, as a set.
spec fn tried(base: Seq<char>, t: nat) -> Seq<Seq<char>> {
    Seq::new(t, |i: int| candidate_name(base, candidate_suffix(i as nat)))
}

/// More distinct names cannot all be in `used` than `used` has entries.
proof fn lemma_tried_fit(base: Seq<char>, t: nat, used: Seq<String>)
    requires
        forall|i: nat| i < t ==> name_used(used, #[trigger] candidate_name(base, candidate_suffix(i))),
    ensures
        t <= used.len(),
{
    let names = tried(base, t);
    let views = used.map_values(|s: String| s@);
    assert(names.no_duplicates()) by {
        assert forall|i: int, j: int| 0 <= i < names.len() && 0 <= j < names.len() && i != j implies names[i]
            != names[j] by {
            lemma_candidates_distinct(base, i as nat, j as nat);
        }
    }
    names.unique_seq_to_set();
    assert(names.to_set().subset_of(views.to_set())) by {
        assert forall|n: Seq<char>| names.to_set().contains(n) implies views.to_set().contains(n) by {
            let i = choose|i: int| 0 <= i < names.len() && names[i] == n;
            assert(name_used(used, candidate_name(base, candidate_suffix(i as nat))));
            let k = choose|k: int| 0 <= k < used.len() && #[trigger] used[k]@ == n;
            assert(views[k] == n);
        }
    }
    views.lemma_cardinality_of_set();
    vstd::set_lib::lemma_len_subset(names.to_set(), views.to_set());
}

fn is_used(used: &Vec<String>, name: &String) -> (b: bool)
    ensures
        b == name_used(used@, name@),
{
    let mut i: usize = 0;
    while i < used.len()
        invariant
            i <= used.len(),
            forall|k: int| 0 <= k < i ==> used@[k]@ != name@,
        decreases used.len() - i,
    {
        if used[i] == *name {
            return true;
        }
        i = i + 1;
    }
    false
}

/// `name` is the first of `base`, `base_2`, `base_3`, ... that is not in `used`.
pub open spec fn first_free(base: Seq<char>, used: Seq<String>, name: Seq<char>) -> bool {
    &&& !name_used(used, name)
    &&& exists|i: nat|
        name == candidate_name(base, #[trigger] candidate_suffix(i)) && forall|k: nat|
            k < i ==> name_used(used, #[trigger] candidate_name(base, candidate_suffix(k)))
}

/// A lifetime name built on `base` that is not in `used`, which is then added
/// to `used`: `base` itself if it is free, else the first free one of
/// `base_2`, `base_3`, and so on.
pub fn fresh_lifetime(base: &str, used: &mut Vec<String>) -> (name: String)
    requires
        old(used).len() < usize::MAX - 2,
    ensures
        first_free(base@, old(used)@, name@),
        final(used)@ == old(used)@.push(name),
{
    let mut i: usize = 0;
    loop
        invariant
            i <= used.len(),
            used@ == old(used)@,
            used.len() < usize::MAX - 2,
            forall|k: nat| k < i ==> name_used(used@, #[trigger] candidate_name(base@, candidate_suffix(k))),
        decreases used.len() + 1 - i,
    {
        let mut name = String::from_str(base);
        if i > 0 {
            name.append("_");
            push_decimal(&mut name, i + 1);
            proof {
                reveal_strlit("_");
            }
        }
        assert(name@ == candidate_name(base@, candidate_suffix(i as nat)));
        if !is_used(used, &name) {
            used.push(name.clone());
            return name;
        }
        proof {
            lemma_tried_fit(base@, (i + 1) as nat, used@);
        }
        i = i + 1;
    }
}

/// The three lifetimes that `#[effect]` introduces in the `Effect` impl it
/// writes for a struct whose lifetime parameters are `struct_lifetimes`: the
/// resume lifetime, then the longer and the shorter lifetime of
/// `shorten_resume`. They differ from each other and from the struct's own.
pub fn effect_impl_lifetimes(struct_lifetimes: &Vec<String>) -> (names: (String, String, String))
    requires
        struct_lifetimes.len() < usize::MAX - 5,
    ensures
        !name_used(struct_lifetimes@, names.0@),
        !name_used(struct_lifetimes@, names.1@),
        !name_used(struct_lifetimes@, names.2@),
        names.0@ != names.1@,
        names.0@ != names.2@,
        names.1@ != names.2@,
        first_free("__corophage_resume"@, struct_lifetimes@, names.0@),
        first_free("__corophage_longer"@, struct_lifetimes@.push(names.0), names.1@),
        first_free("__corophage_shorter"@, struct_lifetimes@.push(names.0).push(names.1), names.2@),
{
    let mut used: Vec<String> = struct_lifetimes.clone();
    assert(used@ =~= struct_lifetimes@);
    let resume = fresh_lifetime("__corophage_resume", &mut used);
    let ghost after_resume = used@;
    let longer = fresh_lifetime("__corophage_longer", &mut used);
    let ghost after_longer = used@;
    let shorter = fresh_lifetime("__corophage_shorter", &mut used);
    proof {
        assert(after_resume[after_resume.len() - 1] == resume);
        assert(name_used(after_resume, resume@));
        assert(after_longer[after_longer.len() - 1] == longer);
        assert(after_longer[after_resume.len() - 1] == resume);
        assert(name_used(after_longer, resume@));
        assert(name_used(after_longer, longer@));
        assert forall|k: int| 0 <= k < struct_lifetimes.len() implies #[trigger] after_longer[k] == struct_lifetimes@[k] by {
            assert(after_resume[k] == struct_lifetimes@[k]);
        }
        if name_used(struct_lifetimes@, longer@) {
            let k = choose|k: int| 0 <= k < struct_lifetimes.len() && #[trigger] struct_lifetimes@[k]@ == longer@;
            assert(after_resume[k] == struct_lifetimes@[k]);
        }
        if name_used(struct_lifetimes@, shorter@) {
            let k = choose|k: int| 0 <= k < struct_lifetimes.len() && #[trigger] struct_lifetimes@[k]@ == shorter@;
            assert(after_longer[k] == struct_lifetimes@[k]);
        }
    }
    (resume, longer, shorter)
}

/// The lifetime that the effects of an `#[effectful]` function borrow for.
pub enum EffectLifetime {
    /// The lifetime given as the attribute's first argument.
    Explicit(String),
    /// The function has no lifetime parameter: a new one, `__eff`, is used.
    Generated(String),
    /// The function's only lifetime parameter.
    FromFunction(String),
}

/// The function has several lifetime parameters and the attribute names none.
pub struct AmbiguousLifetime;

impl AmbiguousLifetime {
    /// The message reported for the ambiguity.
    pub fn message(&self) -> (m: String)
        ensures
            m@ == "function has multiple lifetime parameters; please specify which lifetime to use for effects as the first argument: #[effectful('a, Eff1, Eff2)]"@,
    {
        String::from_str("function has multiple lifetime parameters; please specify which lifetime to use for effects as the first argument: #[effectful('a, Eff1, Eff2)]")
    }
}

/// Choose the lifetime of the effects: the explicit one if any; else the
/// function's only lifetime parameter; else `__eff` when it has none; it is an
/// error when it has several.
pub fn determine_lifetime(explicit: Option<String>, fn_lifetimes: &Vec<String>) -> (r: Result<
    EffectLifetime,
    AmbiguousLifetime,
>)
    ensures
        match explicit {
            Some(l) => r == Ok::<EffectLifetime, AmbiguousLifetime>(EffectLifetime::Explicit(l)),
            None => if fn_lifetimes.len() == 0 {
                r matches Ok(EffectLifetime::Generated(g)) && g@ == "__eff"@
            } else if fn_lifetimes.len() == 1 {
                r == Ok::<EffectLifetime, AmbiguousLifetime>(
                    EffectLifetime::FromFunction(fn_lifetimes@[0]),
                )
            } else {
                r is Err
            },
        },
{
    match explicit {
        Some(lt) => Ok(EffectLifetime::Explicit(lt)),
        None => {
            if fn_lifetimes.len() == 0 {
                Ok(EffectLifetime::Generated(String::from_str("__eff")))
            } else if fn_lifetimes.len() == 1 {
                Ok(EffectLifetime::FromFunction(fn_lifetimes[0].clone()))
            } else {
                Err(AmbiguousLifetime)
            }
        },
    }
}

/// A generic parameter of a function, as far as lifetimes are concerned.
pub enum GenericParamKind {
    Lifetime(String),
    Other,
}

/// Whether `param` is the lifetime parameter `lifetime`.
pub open spec fn is_lifetime(param: GenericParamKind, lifetime: Seq<char>) -> bool {
    match param {
        GenericParamKind::Lifetime(l) => l@ == lifetime,
        GenericParamKind::Other => false,
    }
}

/// Whether `params` has the lifetime parameter `lifetime`.
pub open spec fn has_lifetime(params: Seq<GenericParamKind>, lifetime: Seq<char>) -> bool {
    exists|i: int| 0 <= i < params.len() && is_lifetime(#[trigger] params[i], lifetime)
}

/// Make `lifetime` a generic parameter: put it first unless it already is one.
pub fn ensure_lifetime_in_generics(params: &mut Vec<GenericParamKind>, lifetime: &String)
    ensures
        has_lifetime(old(params)@, lifetime@) ==> final(params)@ == old(params)@,
        !has_lifetime(old(params)@, lifetime@) ==> final(params)@.len() == old(params)@.len() + 1
            && is_lifetime(final(params)@[0], lifetime@) && final(params)@.drop_first()
            == old(params)@,
        has_lifetime(final(params)@, lifetime@),
{
    let mut i: usize = 0;
    let mut exists = false;
    while i < params.len()
        invariant
            i <= params.len(),
            params@ == old(params)@,
            exists <==> (exists|k: int| 0 <= k < i && is_lifetime(#[trigger] params@[k], lifetime@)),
        decreases params.len() - i,
    {
        match &params[i] {
            GenericParamKind::Lifetime(l) => {
                if *l == *lifetime {
                    exists = true;
                }
            },
            GenericParamKind::Other => {},
        }
        i = i + 1;
    }
    if !exists {
        params.insert(0, GenericParamKind::Lifetime(lifetime.clone()));
        assert(is_lifetime(params@[0], lifetime@));
    }
}

/// The `'r` of a resume type names the resume lifetime of the impl: a lifetime
/// named `r` becomes `replacement`, any other stays.
pub fn rewrite_resume_lifetime(name: &String, replacement: &String) -> (out: String)
    ensures
        name@ == "r"@ ==> out@ == replacement@,
        name@ != "r"@ ==> out@ == name@,
{
    let r = String::from_str("r");
    proof {
        reveal_strlit("r");
    }
    if *name == r {
        replacement.clone()
    } else {
        name.clone()
    }
}

} // verus!
