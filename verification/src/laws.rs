//! The algebraic laws of the library, stated once over the specification
//! model and proved for every verified instance.
//!
//! The single-level laws follow from the proof obligations of
//! [`crate::focus::Optic`] and [`crate::focus::ReverseGet`], so they hold
//! of any container whose instances verify.  The composition laws show
//! that the derived accessors of [`crate::composites`] are themselves
//! lawful optics at every depth: composing lawful levels never produces
//! an unlawful composite.

use vstd::prelude::*;

use crate::composites::focus_fifth;
use crate::composites::focus_fourth;
use crate::composites::focus_second;
use crate::composites::focus_third;
use crate::composites::put_fifth;
use crate::composites::put_fourth;
use crate::composites::put_second;
use crate::composites::put_third;
use crate::focus::Get;
use crate::focus::GetOption;
use crate::focus::GetRef;
use crate::focus::Modify;
use crate::focus::ModifyOption;
use crate::focus::Optic;
use crate::focus::ReverseGet;
use crate::focus::SetOption;
use crate::focus::Setter;

verus! {

// ------------------------------------------------------------------
// Single-level laws.
// ------------------------------------------------------------------

/// Get-set law: for every container and value, reading right after
/// writing returns the value that was written.  `get(set(c, v)) == v`.
pub proof fn lemma_get_set<Container, Value>(container: Container, v: Value) where
    Container: Get<Value> + Setter<Value>,

    ensures
        container.put(v).focus() == Some(v),
{
    container.lemma_get_total();
    container.lemma_put_focus(v);
}

/// Set-set law: for every container and pair of values, writing twice is
/// the same as writing the second value once.
/// `set(set(c, v1), v2) == set(c, v2)`.
pub proof fn lemma_set_set<Container, Value>(container: Container, v1: Value, v2: Value) where
    Container: Setter<Value>,

    ensures
        container.put(v1).put(v2) == container.put(v2),
{
    container.lemma_put_put(v1, v2);
}

/// Set-get law: for every container, writing back the value read from it
/// leaves it unchanged.  `set(c, get_ref(c).clone()) == c`.
pub proof fn lemma_set_get<Container, Value>(container: Container) where
    Container: GetRef<Value> + Setter<Value>,

    ensures
        container.focus() is Some,
        container.focus() matches Some(value) ==> container.put(value) == container,
{
    container.lemma_get_ref_total();
    container.lemma_focus_put();
}

/// Modify-equivalence: for every container and value, `set(c, v)` is the
/// result that `modify(c, f)` is specified to produce when every value
/// `f` can return equals `v` — the match below is exactly the shape of
/// the `modify` contract with such a constant function.
pub proof fn lemma_set_is_modify_with_constant<Container, Value>(
    container: Container,
    v: Value,
) where Container: Setter<Value> + Modify<Value>
    ensures
        container.put(v) == (match container.focus() {
            Some(_) => container.put(v),
            None => container,
        }),
{
    container.lemma_put_absent(v);
}

/// Absence propagation: replacing through an absent position leaves the
/// container untouched, so `set_option` and `modify_option` discard an
/// unaltered original when they return `None`.
pub proof fn lemma_absence_propagation<Container, Value>(container: Container, v: Value) where
    Container: SetOption<Value> + ModifyOption<Value>,

    ensures
        container.focus() is None ==> container.put(v) == container,
{
    container.lemma_put_absent(v);
}

/// Prism round trip, construct then deconstruct: for every value, the
/// payload of a freshly built variant container is that value.
/// `get_option(reverse_get(v)) == Some(v)`.
pub proof fn lemma_prism_construct_deconstruct<Container, Value>(v: Value) where
    Container: ReverseGet<Value> + GetOption<Value>,

    ensures
        Container::wrap(v).focus() == Some(v),
{
    Container::lemma_wrap_focus(v);
}

/// Prism round trip, deconstruct then reconstruct: for every variant
/// container whose payload is present, rebuilding from the payload gives
/// the container back.  `get_option(c) == Some(v) ==> reverse_get(v) == c`.
pub proof fn lemma_prism_deconstruct_reconstruct<Container, Value>(container: Container) where
    Container: ReverseGet<Value> + GetOption<Value>,

    ensures
        container.focus() matches Some(value) ==> Container::wrap(value) == container,
{
    container.lemma_focus_wrap();
}

// ------------------------------------------------------------------
// Totality of composite reads: the read family is only available when
// every level is a product-type access, and then the target is always
// present — a total-looking composite read never hides a partial
// outcome.
// ------------------------------------------------------------------

/// A depth-two read through product levels always finds its target.
pub proof fn lemma_second_read_total<Outer, LevelOne, LevelTwo>(container: Outer) where
    Outer: Get<LevelOne>,
    LevelOne: Get<LevelTwo>,

    ensures
        focus_second::<Outer, LevelOne, LevelTwo>(container) is Some,
{
    container.lemma_get_total();
    if let Some(level_one) = container.focus() {
        level_one.lemma_get_total();
    }
}

/// A depth-three read through product levels always finds its target.
pub proof fn lemma_third_read_total<Outer, LevelOne, LevelTwo, LevelThree>(
    container: Outer,
) where Outer: Get<LevelOne>, LevelOne: Get<LevelTwo>, LevelTwo: Get<LevelThree>
    ensures
        focus_third::<Outer, LevelOne, LevelTwo, LevelThree>(container) is Some,
{
    container.lemma_get_total();
    if let Some(level_one) = container.focus() {
        lemma_second_read_total::<LevelOne, LevelTwo, LevelThree>(level_one);
    }
}

/// A depth-four read through product levels always finds its target.
pub proof fn lemma_fourth_read_total<Outer, LevelOne, LevelTwo, LevelThree, LevelFour>(
    container: Outer,
) where
    Outer: Get<LevelOne>,
    LevelOne: Get<LevelTwo>,
    LevelTwo: Get<LevelThree>,
    LevelThree: Get<LevelFour>,

    ensures
        focus_fourth::<Outer, LevelOne, LevelTwo, LevelThree, LevelFour>(container) is Some,
{
    container.lemma_get_total();
    if let Some(level_one) = container.focus() {
        lemma_third_read_total::<LevelOne, LevelTwo, LevelThree, LevelFour>(level_one);
    }
}

/// A depth-five read through product levels always finds its target.
pub proof fn lemma_fifth_read_total<Outer, LevelOne, LevelTwo, LevelThree, LevelFour, LevelFive>(
    container: Outer,
) where
    Outer: Get<LevelOne>,
    LevelOne: Get<LevelTwo>,
    LevelTwo: Get<LevelThree>,
    LevelThree: Get<LevelFour>,
    LevelFour: Get<LevelFive>,

    ensures
        focus_fifth::<Outer, LevelOne, LevelTwo, LevelThree, LevelFour, LevelFive>(
            container,
        ) is Some,
{
    container.lemma_get_total();
    if let Some(level_one) = container.focus() {
        lemma_fourth_read_total::<LevelOne, LevelTwo, LevelThree, LevelFour, LevelFive>(level_one);
    }
}

// ------------------------------------------------------------------
// Law preservation at depth two: the composite of two lawful optics
// satisfies the same four laws.
// ------------------------------------------------------------------

/// Get-set law for the depth-two composite.
pub proof fn lemma_second_put_focus<Outer, LevelOne, LevelTwo>(
    container: Outer,
    v: LevelTwo,
) where Outer: Optic<LevelOne>, LevelOne: Optic<LevelTwo>
    ensures
        focus_second::<Outer, LevelOne, LevelTwo>(container) is Some
            ==> focus_second::<Outer, LevelOne, LevelTwo>(
                put_second::<Outer, LevelOne, LevelTwo>(container, v),
            ) == Some(v),
{
    if let Some(level_one) = container.focus() {
        if level_one.focus() is Some {
            container.lemma_put_focus(level_one.put(v));
            level_one.lemma_put_focus(v);
        }
    }
}

/// Absence law for the depth-two composite.
pub proof fn lemma_second_put_absent<Outer, LevelOne, LevelTwo>(
    container: Outer,
    v: LevelTwo,
) where Outer: Optic<LevelOne>, LevelOne: Optic<LevelTwo>
    ensures
        focus_second::<Outer, LevelOne, LevelTwo>(container) is None
            ==> put_second::<Outer, LevelOne, LevelTwo>(container, v) == container,
{
    if let Some(level_one) = container.focus() {
        if level_one.focus() is None {
            level_one.lemma_put_absent(v);
            container.lemma_focus_put();
        }
    }
}

/// Set-set law for the depth-two composite.
pub proof fn lemma_second_put_put<Outer, LevelOne, LevelTwo>(
    container: Outer,
    v1: LevelTwo,
    v2: LevelTwo,
) where Outer: Optic<LevelOne>, LevelOne: Optic<LevelTwo>
    ensures
        put_second::<Outer, LevelOne, LevelTwo>(
            put_second::<Outer, LevelOne, LevelTwo>(container, v1),
            v2,
        ) == put_second::<Outer, LevelOne, LevelTwo>(container, v2),
{
    if let Some(level_one) = container.focus() {
        container.lemma_put_focus(level_one.put(v1));
        level_one.lemma_put_put(v1, v2);
        container.lemma_put_put(level_one.put(v1), level_one.put(v2));
    }
}

/// Set-get law for the depth-two composite.
pub proof fn lemma_second_focus_put<Outer, LevelOne, LevelTwo>(container: Outer) where
    Outer: Optic<LevelOne>,
    LevelOne: Optic<LevelTwo>,

    ensures
        focus_second::<Outer, LevelOne, LevelTwo>(container) matches Some(value)
            ==> put_second::<Outer, LevelOne, LevelTwo>(container, value) == container,
{
    if let Some(level_one) = container.focus() {
        if level_one.focus() is Some {
            level_one.lemma_focus_put();
            container.lemma_focus_put();
        }
    }
}

// ------------------------------------------------------------------
// Law preservation at depth three.
// ------------------------------------------------------------------

/// Get-set law for the depth-three composite.
pub proof fn lemma_third_put_focus<Outer, LevelOne, LevelTwo, LevelThree>(
    container: Outer,
    v: LevelThree,
) where Outer: Optic<LevelOne>, LevelOne: Optic<LevelTwo>, LevelTwo: Optic<LevelThree>
    ensures
        focus_third::<Outer, LevelOne, LevelTwo, LevelThree>(container) is Some
            ==> focus_third::<Outer, LevelOne, LevelTwo, LevelThree>(
                put_third::<Outer, LevelOne, LevelTwo, LevelThree>(container, v),
            ) == Some(v),
{
    if let Some(level_one) = container.focus() {
        if focus_second::<LevelOne, LevelTwo, LevelThree>(level_one) is Some {
            container.lemma_put_focus(put_second::<LevelOne, LevelTwo, LevelThree>(level_one, v));
            lemma_second_put_focus::<LevelOne, LevelTwo, LevelThree>(level_one, v);
        }
    }
}

/// Absence law for the depth-three composite.
pub proof fn lemma_third_put_absent<Outer, LevelOne, LevelTwo, LevelThree>(
    container: Outer,
    v: LevelThree,
) where Outer: Optic<LevelOne>, LevelOne: Optic<LevelTwo>, LevelTwo: Optic<LevelThree>
    ensures
        focus_third::<Outer, LevelOne, LevelTwo, LevelThree>(container) is None
            ==> put_third::<Outer, LevelOne, LevelTwo, LevelThree>(container, v) == container,
{
    if let Some(level_one) = container.focus() {
        if focus_second::<LevelOne, LevelTwo, LevelThree>(level_one) is None {
            lemma_second_put_absent::<LevelOne, LevelTwo, LevelThree>(level_one, v);
            container.lemma_focus_put();
        }
    }
}

/// Set-set law for the depth-three composite.
pub proof fn lemma_third_put_put<Outer, LevelOne, LevelTwo, LevelThree>(
    container: Outer,
    v1: LevelThree,
    v2: LevelThree,
) where Outer: Optic<LevelOne>, LevelOne: Optic<LevelTwo>, LevelTwo: Optic<LevelThree>
    ensures
        put_third::<Outer, LevelOne, LevelTwo, LevelThree>(
            put_third::<Outer, LevelOne, LevelTwo, LevelThree>(container, v1),
            v2,
        ) == put_third::<Outer, LevelOne, LevelTwo, LevelThree>(container, v2),
{
    if let Some(level_one) = container.focus() {
        let once = put_second::<LevelOne, LevelTwo, LevelThree>(level_one, v1);
        container.lemma_put_focus(once);
        lemma_second_put_put::<LevelOne, LevelTwo, LevelThree>(level_one, v1, v2);
        container.lemma_put_put(once, put_second::<LevelOne, LevelTwo, LevelThree>(level_one, v2));
    }
}

/// Set-get law for the depth-three composite.
pub proof fn lemma_third_focus_put<Outer, LevelOne, LevelTwo, LevelThree>(
    container: Outer,
) where Outer: Optic<LevelOne>, LevelOne: Optic<LevelTwo>, LevelTwo: Optic<LevelThree>
    ensures
        focus_third::<Outer, LevelOne, LevelTwo, LevelThree>(container) matches Some(value)
            ==> put_third::<Outer, LevelOne, LevelTwo, LevelThree>(container, value) == container,
{
    if let Some(level_one) = container.focus() {
        if focus_second::<LevelOne, LevelTwo, LevelThree>(level_one) is Some {
            lemma_second_focus_put::<LevelOne, LevelTwo, LevelThree>(level_one);
            container.lemma_focus_put();
        }
    }
}

// ------------------------------------------------------------------
// Law preservation at depth four.
// ------------------------------------------------------------------

/// Get-set law for the depth-four composite.
pub proof fn lemma_fourth_put_focus<Outer, LevelOne, LevelTwo, LevelThree, LevelFour>(
    container: Outer,
    v: LevelFour,
) where
    Outer: Optic<LevelOne>,
    LevelOne: Optic<LevelTwo>,
    LevelTwo: Optic<LevelThree>,
    LevelThree: Optic<LevelFour>,

    ensures
        focus_fourth::<Outer, LevelOne, LevelTwo, LevelThree, LevelFour>(container) is Some
            ==> focus_fourth::<Outer, LevelOne, LevelTwo, LevelThree, LevelFour>(
                put_fourth::<Outer, LevelOne, LevelTwo, LevelThree, LevelFour>(container, v),
            ) == Some(v),
{
    if let Some(level_one) = container.focus() {
        if focus_third::<LevelOne, LevelTwo, LevelThree, LevelFour>(level_one) is Some {
            container.lemma_put_focus(
                put_third::<LevelOne, LevelTwo, LevelThree, LevelFour>(level_one, v),
            );
            lemma_third_put_focus::<LevelOne, LevelTwo, LevelThree, LevelFour>(level_one, v);
        }
    }
}

/// Absence law for the depth-four composite.
pub proof fn lemma_fourth_put_absent<Outer, LevelOne, LevelTwo, LevelThree, LevelFour>(
    container: Outer,
    v: LevelFour,
) where
    Outer: Optic<LevelOne>,
    LevelOne: Optic<LevelTwo>,
    LevelTwo: Optic<LevelThree>,
    LevelThree: Optic<LevelFour>,

    ensures
        focus_fourth::<Outer, LevelOne, LevelTwo, LevelThree, LevelFour>(container) is None
            ==> put_fourth::<Outer, LevelOne, LevelTwo, LevelThree, LevelFour>(container, v)
                == container,
{
    if let Some(level_one) = container.focus() {
        if focus_third::<LevelOne, LevelTwo, LevelThree, LevelFour>(level_one) is None {
            lemma_third_put_absent::<LevelOne, LevelTwo, LevelThree, LevelFour>(level_one, v);
            container.lemma_focus_put();
        }
    }
}

/// Set-set law for the depth-four composite.
pub proof fn lemma_fourth_put_put<Outer, LevelOne, LevelTwo, LevelThree, LevelFour>(
    container: Outer,
    v1: LevelFour,
    v2: LevelFour,
) where
    Outer: Optic<LevelOne>,
    LevelOne: Optic<LevelTwo>,
    LevelTwo: Optic<LevelThree>,
    LevelThree: Optic<LevelFour>,

    ensures
        put_fourth::<Outer, LevelOne, LevelTwo, LevelThree, LevelFour>(
            put_fourth::<Outer, LevelOne, LevelTwo, LevelThree, LevelFour>(container, v1),
            v2,
        ) == put_fourth::<Outer, LevelOne, LevelTwo, LevelThree, LevelFour>(container, v2),
{
    if let Some(level_one) = container.focus() {
        let once = put_third::<LevelOne, LevelTwo, LevelThree, LevelFour>(level_one, v1);
        container.lemma_put_focus(once);
        lemma_third_put_put::<LevelOne, LevelTwo, LevelThree, LevelFour>(level_one, v1, v2);
        container.lemma_put_put(
            once,
            put_third::<LevelOne, LevelTwo, LevelThree, LevelFour>(level_one, v2),
        );
    }
}

/// Set-get law for the depth-four composite.
pub proof fn lemma_fourth_focus_put<Outer, LevelOne, LevelTwo, LevelThree, LevelFour>(
    container: Outer,
) where
    Outer: Optic<LevelOne>,
    LevelOne: Optic<LevelTwo>,
    LevelTwo: Optic<LevelThree>,
    LevelThree: Optic<LevelFour>,

    ensures
        focus_fourth::<Outer, LevelOne, LevelTwo, LevelThree, LevelFour>(container) matches Some(
            value,
        ) ==> put_fourth::<Outer, LevelOne, LevelTwo, LevelThree, LevelFour>(container, value)
            == container,
{
    if let Some(level_one) = container.focus() {
        if focus_third::<LevelOne, LevelTwo, LevelThree, LevelFour>(level_one) is Some {
            lemma_third_focus_put::<LevelOne, LevelTwo, LevelThree, LevelFour>(level_one);
            container.lemma_focus_put();
        }
    }
}

// ------------------------------------------------------------------
// Law preservation at depth five.
// ------------------------------------------------------------------

/// Get-set law for the depth-five composite.
pub proof fn lemma_fifth_put_focus<Outer, LevelOne, LevelTwo, LevelThree, LevelFour, LevelFive>(
    container: Outer,
    v: LevelFive,
) where
    Outer: Optic<LevelOne>,
    LevelOne: Optic<LevelTwo>,
    LevelTwo: Optic<LevelThree>,
    LevelThree: Optic<LevelFour>,
    LevelFour: Optic<LevelFive>,

    ensures
        focus_fifth::<Outer, LevelOne, LevelTwo, LevelThree, LevelFour, LevelFive>(
            container,
        ) is Some ==> focus_fifth::<Outer, LevelOne, LevelTwo, LevelThree, LevelFour, LevelFive>(
            put_fifth::<Outer, LevelOne, LevelTwo, LevelThree, LevelFour, LevelFive>(container, v),
        ) == Some(v),
{
    if let Some(level_one) = container.focus() {
        if focus_fourth::<LevelOne, LevelTwo, LevelThree, LevelFour, LevelFive>(
            level_one,
        ) is Some {
            container.lemma_put_focus(
                put_fourth::<LevelOne, LevelTwo, LevelThree, LevelFour, LevelFive>(level_one, v),
            );
            lemma_fourth_put_focus::<LevelOne, LevelTwo, LevelThree, LevelFour, LevelFive>(
                level_one,
                v,
            );
        }
    }
}

/// Absence law for the depth-five composite.
pub proof fn lemma_fifth_put_absent<Outer, LevelOne, LevelTwo, LevelThree, LevelFour, LevelFive>(
    container: Outer,
    v: LevelFive,
) where
    Outer: Optic<LevelOne>,
    LevelOne: Optic<LevelTwo>,
    LevelTwo: Optic<LevelThree>,
    LevelThree: Optic<LevelFour>,
    LevelFour: Optic<LevelFive>,

    ensures
        focus_fifth::<Outer, LevelOne, LevelTwo, LevelThree, LevelFour, LevelFive>(
            container,
        ) is None ==> put_fifth::<Outer, LevelOne, LevelTwo, LevelThree, LevelFour, LevelFive>(
            container,
            v,
        ) == container,
{
    if let Some(level_one) = container.focus() {
        if focus_fourth::<LevelOne, LevelTwo, LevelThree, LevelFour, LevelFive>(
            level_one,
        ) is None {
            lemma_fourth_put_absent::<LevelOne, LevelTwo, LevelThree, LevelFour, LevelFive>(
                level_one,
                v,
            );
            container.lemma_focus_put();
        }
    }
}

/// Set-set law for the depth-five composite.
pub proof fn lemma_fifth_put_put<Outer, LevelOne, LevelTwo, LevelThree, LevelFour, LevelFive>(
    container: Outer,
    v1: LevelFive,
    v2: LevelFive,
) where
    Outer: Optic<LevelOne>,
    LevelOne: Optic<LevelTwo>,
    LevelTwo: Optic<LevelThree>,
    LevelThree: Optic<LevelFour>,
    LevelFour: Optic<LevelFive>,

    ensures
        put_fifth::<Outer, LevelOne, LevelTwo, LevelThree, LevelFour, LevelFive>(
            put_fifth::<Outer, LevelOne, LevelTwo, LevelThree, LevelFour, LevelFive>(
                container,
                v1,
            ),
            v2,
        ) == put_fifth::<Outer, LevelOne, LevelTwo, LevelThree, LevelFour, LevelFive>(
            container,
            v2,
        ),
{
    if let Some(level_one) = container.focus() {
        let once = put_fourth::<LevelOne, LevelTwo, LevelThree, LevelFour, LevelFive>(
            level_one,
            v1,
        );
        container.lemma_put_focus(once);
        lemma_fourth_put_put::<LevelOne, LevelTwo, LevelThree, LevelFour, LevelFive>(
            level_one,
            v1,
            v2,
        );
        container.lemma_put_put(
            once,
            put_fourth::<LevelOne, LevelTwo, LevelThree, LevelFour, LevelFive>(level_one, v2),
        );
    }
}

/// Set-get law for the depth-five composite.
pub proof fn lemma_fifth_focus_put<Outer, LevelOne, LevelTwo, LevelThree, LevelFour, LevelFive>(
    container: Outer,
) where
    Outer: Optic<LevelOne>,
    LevelOne: Optic<LevelTwo>,
    LevelTwo: Optic<LevelThree>,
    LevelThree: Optic<LevelFour>,
    LevelFour: Optic<LevelFive>,

    ensures
        focus_fifth::<Outer, LevelOne, LevelTwo, LevelThree, LevelFour, LevelFive>(
            container,
        ) matches Some(value) ==> put_fifth::<
            Outer,
            LevelOne,
            LevelTwo,
            LevelThree,
            LevelFour,
            LevelFive,
        >(container, value) == container,
{
    if let Some(level_one) = container.focus() {
        if focus_fourth::<LevelOne, LevelTwo, LevelThree, LevelFour, LevelFive>(
            level_one,
        ) is Some {
            lemma_fourth_focus_put::<LevelOne, LevelTwo, LevelThree, LevelFour, LevelFive>(
                level_one,
            );
            container.lemma_focus_put();
        }
    }
}

} // verus!
