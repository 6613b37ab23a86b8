//! The composition algebra: accessors that reach two to five levels deep,
//! defined by structural recursion over the single-level traits.
//!
//! Reads chain the single-level reads.  Writes apply `set` only at the
//! innermost level and reach every outer level through `modify`, so the
//! targeted leaf is replaced and every ancestor is rebuilt exactly once.
//! Composing through a variant container at an intermediate level degrades
//! gracefully: a mismatching branch leaves the container unchanged instead
//! of corrupting it, which the `None` arms of the spec functions record.
//!
//! Each composite trait has a default body, so declaring participation is
//! an empty `impl` block binding the chain of intermediate types.  The
//! default bodies are verified here once, against contracts phrased over
//! the `focus_*` and `put_*` spec functions; [`crate::laws`] proves that
//! those spec functions satisfy the lens laws at every depth.

use vstd::prelude::*;

use crate::focus::Get;
use crate::focus::GetRef;
use crate::focus::Modify;
use crate::focus::Optic;
use crate::focus::Setter;

verus! {

// ------------------------------------------------------------------
// The composite model: focus and put, two to five levels deep.
// ------------------------------------------------------------------

/// The value two levels inside `container`, if every level is present.
pub open spec fn focus_second<Outer, LevelOne, LevelTwo>(container: Outer) -> Option<LevelTwo>
    where Outer: Optic<LevelOne>, LevelOne: Optic<LevelTwo>
{
    match container.focus() {
        Some(level_one) => level_one.focus(),
        None => None,
    }
}

/// `container` with the value two levels inside replaced by `v`, when
/// every level is present; any absent level leaves it unchanged.
pub open spec fn put_second<Outer, LevelOne, LevelTwo>(container: Outer, v: LevelTwo) -> Outer
    where Outer: Optic<LevelOne>, LevelOne: Optic<LevelTwo>
{
    match container.focus() {
        Some(level_one) => container.put(level_one.put(v)),
        None => container,
    }
}

/// The value three levels inside `container`, if every level is present.
pub open spec fn focus_third<Outer, LevelOne, LevelTwo, LevelThree>(
    container: Outer,
) -> Option<LevelThree>
    where Outer: Optic<LevelOne>, LevelOne: Optic<LevelTwo>, LevelTwo: Optic<LevelThree>
{
    match container.focus() {
        Some(level_one) => focus_second::<LevelOne, LevelTwo, LevelThree>(level_one),
        None => None,
    }
}

/// `container` with the value three levels inside replaced by `v`.
pub open spec fn put_third<Outer, LevelOne, LevelTwo, LevelThree>(
    container: Outer,
    v: LevelThree,
) -> Outer
    where Outer: Optic<LevelOne>, LevelOne: Optic<LevelTwo>, LevelTwo: Optic<LevelThree>
{
    match container.focus() {
        Some(level_one) => container.put(
            put_second::<LevelOne, LevelTwo, LevelThree>(level_one, v),
        ),
        None => container,
    }
}

/// The value four levels inside `container`, if every level is present.
pub open spec fn focus_fourth<Outer, LevelOne, LevelTwo, LevelThree, LevelFour>(
    container: Outer,
) -> Option<LevelFour>
    where
        Outer: Optic<LevelOne>,
        LevelOne: Optic<LevelTwo>,
        LevelTwo: Optic<LevelThree>,
        LevelThree: Optic<LevelFour>,
{
    match container.focus() {
        Some(level_one) => focus_third::<LevelOne, LevelTwo, LevelThree, LevelFour>(level_one),
        None => None,
    }
}

/// `container` with the value four levels inside replaced by `v`.
pub open spec fn put_fourth<Outer, LevelOne, LevelTwo, LevelThree, LevelFour>(
    container: Outer,
    v: LevelFour,
) -> Outer
    where
        Outer: Optic<LevelOne>,
        LevelOne: Optic<LevelTwo>,
        LevelTwo: Optic<LevelThree>,
        LevelThree: Optic<LevelFour>,
{
    match container.focus() {
        Some(level_one) => container.put(
            put_third::<LevelOne, LevelTwo, LevelThree, LevelFour>(level_one, v),
        ),
        None => container,
    }
}

/// The value five levels inside `container`, if every level is present.
pub open spec fn focus_fifth<Outer, LevelOne, LevelTwo, LevelThree, LevelFour, LevelFive>(
    container: Outer,
) -> Option<LevelFive>
    where
        Outer: Optic<LevelOne>,
        LevelOne: Optic<LevelTwo>,
        LevelTwo: Optic<LevelThree>,
        LevelThree: Optic<LevelFour>,
        LevelFour: Optic<LevelFive>,
{
    match container.focus() {
        Some(level_one) => focus_fourth::<LevelOne, LevelTwo, LevelThree, LevelFour, LevelFive>(
            level_one,
        ),
        None => None,
    }
}

/// `container` with the value five levels inside replaced by `v`.
pub open spec fn put_fifth<Outer, LevelOne, LevelTwo, LevelThree, LevelFour, LevelFive>(
    container: Outer,
    v: LevelFive,
) -> Outer
    where
        Outer: Optic<LevelOne>,
        LevelOne: Optic<LevelTwo>,
        LevelTwo: Optic<LevelThree>,
        LevelThree: Optic<LevelFour>,
        LevelFour: Optic<LevelFive>,
{
    match container.focus() {
        Some(level_one) => container.put(
            put_fourth::<LevelOne, LevelTwo, LevelThree, LevelFour, LevelFive>(level_one, v),
        ),
        None => container,
    }
}

// ------------------------------------------------------------------
// Shared write bodies.  Each depth wraps the previous one in a single
// outer `modify`, mirroring the recursive definition of the model.
// ------------------------------------------------------------------

fn set_at_second<Outer, LevelOne, LevelTwo>(container: Outer, new_value: LevelTwo) -> (updated:
    Outer) where Outer: Modify<LevelOne>, LevelOne: Setter<LevelTwo>
    ensures
        updated == put_second::<Outer, LevelOne, LevelTwo>(container, new_value),
{
    container.modify(|level_one: LevelOne| -> (r: LevelOne)
        ensures
            r == level_one.put(new_value),
        {
            level_one.set(new_value)
        })
}

fn set_at_third<Outer, LevelOne, LevelTwo, LevelThree>(
    container: Outer,
    new_value: LevelThree,
) -> (updated: Outer) where
    Outer: Modify<LevelOne>,
    LevelOne: Modify<LevelTwo>,
    LevelTwo: Setter<LevelThree>,

    ensures
        updated == put_third::<Outer, LevelOne, LevelTwo, LevelThree>(container, new_value),
{
    container.modify(|level_one: LevelOne| -> (r: LevelOne)
        ensures
            r == put_second::<LevelOne, LevelTwo, LevelThree>(level_one, new_value),
        {
            set_at_second(level_one, new_value)
        })
}

fn set_at_fourth<Outer, LevelOne, LevelTwo, LevelThree, LevelFour>(
    container: Outer,
    new_value: LevelFour,
) -> (updated: Outer) where
    Outer: Modify<LevelOne>,
    LevelOne: Modify<LevelTwo>,
    LevelTwo: Modify<LevelThree>,
    LevelThree: Setter<LevelFour>,

    ensures
        updated == put_fourth::<Outer, LevelOne, LevelTwo, LevelThree, LevelFour>(
            container,
            new_value,
        ),
{
    container.modify(|level_one: LevelOne| -> (r: LevelOne)
        ensures
            r == put_third::<LevelOne, LevelTwo, LevelThree, LevelFour>(level_one, new_value),
        {
            set_at_third(level_one, new_value)
        })
}

fn set_at_fifth<Outer, LevelOne, LevelTwo, LevelThree, LevelFour, LevelFive>(
    container: Outer,
    new_value: LevelFive,
) -> (updated: Outer) where
    Outer: Modify<LevelOne>,
    LevelOne: Modify<LevelTwo>,
    LevelTwo: Modify<LevelThree>,
    LevelThree: Modify<LevelFour>,
    LevelFour: Setter<LevelFive>,

    ensures
        updated == put_fifth::<Outer, LevelOne, LevelTwo, LevelThree, LevelFour, LevelFive>(
            container,
            new_value,
        ),
{
    container.modify(|level_one: LevelOne| -> (r: LevelOne)
        ensures
            r == put_fourth::<LevelOne, LevelTwo, LevelThree, LevelFour, LevelFive>(
                level_one,
                new_value,
            ),
        {
            set_at_fourth(level_one, new_value)
        })
}

fn modify_at_second<Outer, LevelOne, LevelTwo, F>(container: Outer, f: F) -> (updated: Outer) where
    Outer: Modify<LevelOne>,
    LevelOne: Modify<LevelTwo>,
    F: FnOnce(LevelTwo) -> LevelTwo,

    requires
        focus_second::<Outer, LevelOne, LevelTwo>(container) matches Some(value)
            ==> call_requires(f, (value,)),
    ensures
        (match focus_second::<Outer, LevelOne, LevelTwo>(container) {
            Some(value) => exists|w: LevelTwo|
                call_ensures(f, (value,), w)
                    && updated == put_second::<Outer, LevelOne, LevelTwo>(container, w),
            None => updated == container,
        }),
{
    let ghost snapshot = container;
    let inner = |level_one: LevelOne| -> (r: LevelOne)
        requires
            level_one.focus() matches Some(value) ==> call_requires(f, (value,)),
        ensures
            (match level_one.focus() {
                Some(value) => exists|w: LevelTwo|
                    call_ensures(f, (value,), w) && r == level_one.put(w),
                None => r == level_one,
            }),
        {
            level_one.modify(f)
        };
    let ghost inner_snapshot = inner;
    let updated = container.modify(inner);
    proof {
        if let Some(level_one) = snapshot.focus() {
            let w1 = choose|w1: LevelOne|
                call_ensures(inner_snapshot, (level_one,), w1) && updated == snapshot.put(w1);
            match level_one.focus() {
                Some(value) => {
                    let w = choose|w: LevelTwo|
                        call_ensures(f, (value,), w) && w1 == level_one.put(w);
                    assert(call_ensures(f, (value,), w)
                        && updated == put_second::<Outer, LevelOne, LevelTwo>(snapshot, w));
                },
                None => {
                    snapshot.lemma_focus_put();
                },
            }
        }
    }
    updated
}

fn modify_at_third<Outer, LevelOne, LevelTwo, LevelThree, F>(container: Outer, f: F) -> (updated:
    Outer) where
    Outer: Modify<LevelOne>,
    LevelOne: Modify<LevelTwo>,
    LevelTwo: Modify<LevelThree>,
    F: FnOnce(LevelThree) -> LevelThree,

    requires
        focus_third::<Outer, LevelOne, LevelTwo, LevelThree>(container) matches Some(value)
            ==> call_requires(f, (value,)),
    ensures
        (match focus_third::<Outer, LevelOne, LevelTwo, LevelThree>(container) {
            Some(value) => exists|w: LevelThree|
                call_ensures(f, (value,), w)
                    && updated == put_third::<Outer, LevelOne, LevelTwo, LevelThree>(container, w),
            None => updated == container,
        }),
{
    let ghost snapshot = container;
    let inner = |level_one: LevelOne| -> (r: LevelOne)
        requires
            focus_second::<LevelOne, LevelTwo, LevelThree>(level_one) matches Some(value)
                ==> call_requires(f, (value,)),
        ensures
            (match focus_second::<LevelOne, LevelTwo, LevelThree>(level_one) {
                Some(value) => exists|w: LevelThree|
                    call_ensures(f, (value,), w)
                        && r == put_second::<LevelOne, LevelTwo, LevelThree>(level_one, w),
                None => r == level_one,
            }),
        {
            modify_at_second(level_one, f)
        };
    let ghost inner_snapshot = inner;
    let updated = container.modify(inner);
    proof {
        if let Some(level_one) = snapshot.focus() {
            let w1 = choose|w1: LevelOne|
                call_ensures(inner_snapshot, (level_one,), w1) && updated == snapshot.put(w1);
            match focus_second::<LevelOne, LevelTwo, LevelThree>(level_one) {
                Some(value) => {
                    let w = choose|w: LevelThree|
                        call_ensures(f, (value,), w)
                            && w1 == put_second::<LevelOne, LevelTwo, LevelThree>(level_one, w);
                    assert(call_ensures(f, (value,), w)
                        && updated == put_third::<Outer, LevelOne, LevelTwo, LevelThree>(
                            snapshot,
                            w,
                        ));
                },
                None => {
                    snapshot.lemma_focus_put();
                },
            }
        }
    }
    updated
}

fn modify_at_fourth<Outer, LevelOne, LevelTwo, LevelThree, LevelFour, F>(
    container: Outer,
    f: F,
) -> (updated: Outer) where
    Outer: Modify<LevelOne>,
    LevelOne: Modify<LevelTwo>,
    LevelTwo: Modify<LevelThree>,
    LevelThree: Modify<LevelFour>,
    F: FnOnce(LevelFour) -> LevelFour,

    requires
        focus_fourth::<Outer, LevelOne, LevelTwo, LevelThree, LevelFour>(container) matches Some(
            value,
        ) ==> call_requires(f, (value,)),
    ensures
        (match focus_fourth::<Outer, LevelOne, LevelTwo, LevelThree, LevelFour>(container) {
            Some(value) => exists|w: LevelFour|
                call_ensures(f, (value,), w)
                    && updated == put_fourth::<Outer, LevelOne, LevelTwo, LevelThree, LevelFour>(
                        container,
                        w,
                    ),
            None => updated == container,
        }),
{
    let ghost snapshot = container;
    let inner = |level_one: LevelOne| -> (r: LevelOne)
        requires
            focus_third::<LevelOne, LevelTwo, LevelThree, LevelFour>(level_one) matches Some(value)
                ==> call_requires(f, (value,)),
        ensures
            (match focus_third::<LevelOne, LevelTwo, LevelThree, LevelFour>(level_one) {
                Some(value) => exists|w: LevelFour|
                    call_ensures(f, (value,), w)
                        && r == put_third::<LevelOne, LevelTwo, LevelThree, LevelFour>(
                            level_one,
                            w,
                        ),
                None => r == level_one,
            }),
        {
            modify_at_third(level_one, f)
        };
    let ghost inner_snapshot = inner;
    let updated = container.modify(inner);
    proof {
        if let Some(level_one) = snapshot.focus() {
            let w1 = choose|w1: LevelOne|
                call_ensures(inner_snapshot, (level_one,), w1) && updated == snapshot.put(w1);
            match focus_third::<LevelOne, LevelTwo, LevelThree, LevelFour>(level_one) {
                Some(value) => {
                    let w = choose|w: LevelFour|
                        call_ensures(f, (value,), w)
                            && w1 == put_third::<LevelOne, LevelTwo, LevelThree, LevelFour>(
                                level_one,
                                w,
                            );
                    assert(call_ensures(f, (value,), w)
                        && updated == put_fourth::<
                            Outer,
                            LevelOne,
                            LevelTwo,
                            LevelThree,
                            LevelFour,
                        >(snapshot, w));
                },
                None => {
                    snapshot.lemma_focus_put();
                },
            }
        }
    }
    updated
}

fn modify_at_fifth<Outer, LevelOne, LevelTwo, LevelThree, LevelFour, LevelFive, F>(
    container: Outer,
    f: F,
) -> (updated: Outer) where
    Outer: Modify<LevelOne>,
    LevelOne: Modify<LevelTwo>,
    LevelTwo: Modify<LevelThree>,
    LevelThree: Modify<LevelFour>,
    LevelFour: Modify<LevelFive>,
    F: FnOnce(LevelFive) -> LevelFive,

    requires
        focus_fifth::<Outer, LevelOne, LevelTwo, LevelThree, LevelFour, LevelFive>(
            container,
        ) matches Some(value) ==> call_requires(f, (value,)),
    ensures
        (match focus_fifth::<Outer, LevelOne, LevelTwo, LevelThree, LevelFour, LevelFive>(
            container,
        ) {
            Some(value) => exists|w: LevelFive|
                call_ensures(f, (value,), w)
                    && updated == put_fifth::<
                        Outer,
                        LevelOne,
                        LevelTwo,
                        LevelThree,
                        LevelFour,
                        LevelFive,
                    >(container, w),
            None => updated == container,
        }),
{
    let ghost snapshot = container;
    let inner = |level_one: LevelOne| -> (r: LevelOne)
        requires
            focus_fourth::<LevelOne, LevelTwo, LevelThree, LevelFour, LevelFive>(
                level_one,
            ) matches Some(value) ==> call_requires(f, (value,)),
        ensures
            (match focus_fourth::<LevelOne, LevelTwo, LevelThree, LevelFour, LevelFive>(
                level_one,
            ) {
                Some(value) => exists|w: LevelFive|
                    call_ensures(f, (value,), w)
                        && r == put_fourth::<LevelOne, LevelTwo, LevelThree, LevelFour, LevelFive>(
                            level_one,
                            w,
                        ),
                None => r == level_one,
            }),
        {
            modify_at_fourth(level_one, f)
        };
    let ghost inner_snapshot = inner;
    let updated = container.modify(inner);
    proof {
        if let Some(level_one) = snapshot.focus() {
            let w1 = choose|w1: LevelOne|
                call_ensures(inner_snapshot, (level_one,), w1) && updated == snapshot.put(w1);
            match focus_fourth::<LevelOne, LevelTwo, LevelThree, LevelFour, LevelFive>(level_one) {
                Some(value) => {
                    let w = choose|w: LevelFive|
                        call_ensures(f, (value,), w)
                            && w1 == put_fourth::<
                                LevelOne,
                                LevelTwo,
                                LevelThree,
                                LevelFour,
                                LevelFive,
                            >(level_one, w);
                    assert(call_ensures(f, (value,), w)
                        && updated == put_fifth::<
                            Outer,
                            LevelOne,
                            LevelTwo,
                            LevelThree,
                            LevelFour,
                            LevelFive,
                        >(snapshot, w));
                },
                None => {
                    snapshot.lemma_focus_put();
                },
            }
        }
    }
    updated
}

// ------------------------------------------------------------------
// Depth two.
// ------------------------------------------------------------------

/// A variant of [`Get`], reaching two levels deep in the data structure.
pub trait GetSecond<LevelOne, LevelTwo> where
    LevelOne: Get<LevelTwo>,
    Self: Get<LevelOne> + Sized,
{
    fn get_second(self) -> (value: LevelTwo)
        ensures
            focus_second::<Self, LevelOne, LevelTwo>(self) == Some(value),
    {
        self.get().get()
    }
}

/// A variant of [`GetRef`], reaching two levels deep in the data
/// structure.
pub trait GetRefSecond<LevelOne, LevelTwo> where
    LevelOne: GetRef<LevelTwo>,
    Self: GetRef<LevelOne> + Sized,
{
    fn get_ref_second<'a>(&'a self) -> (value: &'a LevelTwo) where LevelOne: 'a
        ensures
            focus_second::<Self, LevelOne, LevelTwo>(*self) == Some(*value),
    {
        self.get_ref().get_ref()
    }
}

/// A variant of [`Setter`], reaching two levels deep in the data
/// structure.
pub trait SetSecond<LevelOne, LevelTwo> where
    LevelOne: Setter<LevelTwo>,
    Self: Modify<LevelOne> + Sized,
{
    fn set_second(self, new_value: LevelTwo) -> (updated: Self)
        ensures
            updated == put_second::<Self, LevelOne, LevelTwo>(self, new_value),
    {
        set_at_second(self, new_value)
    }
}

/// A variant of [`Modify`], reaching two levels deep in the data
/// structure.
pub trait ModifySecond<LevelOne, LevelTwo> where
    LevelOne: Modify<LevelTwo>,
    Self: Modify<LevelOne> + Sized,
{
    fn modify_second<F: FnOnce(LevelTwo) -> LevelTwo>(self, f: F) -> (updated: Self)
        requires
            focus_second::<Self, LevelOne, LevelTwo>(self) matches Some(value)
                ==> call_requires(f, (value,)),
        ensures
            (match focus_second::<Self, LevelOne, LevelTwo>(self) {
                Some(value) => exists|w: LevelTwo|
                    call_ensures(f, (value,), w)
                        && updated == put_second::<Self, LevelOne, LevelTwo>(self, w),
                None => updated == self,
            }),
    {
        modify_at_second(self, f)
    }
}

// ------------------------------------------------------------------
// Depth three.
// ------------------------------------------------------------------

/// A variant of [`Get`], reaching three levels deep in the data
/// structure.
pub trait GetThird<LevelOne, LevelTwo, LevelThree> where
    LevelTwo: Get<LevelThree>,
    LevelOne: Get<LevelTwo>,
    Self: Get<LevelOne> + Sized,
{
    fn get_third(self) -> (value: LevelThree)
        ensures
            focus_third::<Self, LevelOne, LevelTwo, LevelThree>(self) == Some(value),
    {
        self.get().get().get()
    }
}

/// A variant of [`GetRef`], reaching three levels deep in the data
/// structure.
pub trait GetRefThird<LevelOne, LevelTwo, LevelThree> where
    LevelTwo: GetRef<LevelThree>,
    LevelOne: GetRef<LevelTwo>,
    Self: GetRef<LevelOne> + Sized,
{
    fn get_ref_third<'a>(&'a self) -> (value: &'a LevelThree) where
        LevelOne: 'a,
        LevelTwo: 'a,

        ensures
            focus_third::<Self, LevelOne, LevelTwo, LevelThree>(*self) == Some(*value),
    {
        self.get_ref().get_ref().get_ref()
    }
}

/// A variant of [`Setter`], reaching three levels deep in the data
/// structure.
pub trait SetThird<LevelOne, LevelTwo, LevelThree> where
    LevelTwo: Setter<LevelThree>,
    LevelOne: Modify<LevelTwo>,
    Self: Modify<LevelOne> + Sized,
{
    fn set_third(self, new_value: LevelThree) -> (updated: Self)
        ensures
            updated == put_third::<Self, LevelOne, LevelTwo, LevelThree>(self, new_value),
    {
        set_at_third(self, new_value)
    }
}

/// A variant of [`Modify`], reaching three levels deep in the data
/// structure.
pub trait ModifyThird<LevelOne, LevelTwo, LevelThree> where
    LevelTwo: Modify<LevelThree>,
    LevelOne: Modify<LevelTwo>,
    Self: Modify<LevelOne> + Sized,
{
    fn modify_third<F: FnOnce(LevelThree) -> LevelThree>(self, f: F) -> (updated: Self)
        requires
            focus_third::<Self, LevelOne, LevelTwo, LevelThree>(self) matches Some(value)
                ==> call_requires(f, (value,)),
        ensures
            (match focus_third::<Self, LevelOne, LevelTwo, LevelThree>(self) {
                Some(value) => exists|w: LevelThree|
                    call_ensures(f, (value,), w)
                        && updated == put_third::<Self, LevelOne, LevelTwo, LevelThree>(self, w),
                None => updated == self,
            }),
    {
        modify_at_third(self, f)
    }
}

// ------------------------------------------------------------------
// Depth four.
// ------------------------------------------------------------------

/// A variant of [`Get`], reaching four levels deep in the data structure.
pub trait GetFourth<LevelOne, LevelTwo, LevelThree, LevelFour> where
    LevelThree: Get<LevelFour>,
    LevelTwo: Get<LevelThree>,
    LevelOne: Get<LevelTwo>,
    Self: Get<LevelOne> + Sized,
{
    fn get_fourth(self) -> (value: LevelFour)
        ensures
            focus_fourth::<Self, LevelOne, LevelTwo, LevelThree, LevelFour>(self) == Some(value),
    {
        self.get().get().get().get()
    }
}

/// A variant of [`GetRef`], reaching four levels deep in the data
/// structure.
pub trait GetRefFourth<LevelOne, LevelTwo, LevelThree, LevelFour> where
    LevelThree: GetRef<LevelFour>,
    LevelTwo: GetRef<LevelThree>,
    LevelOne: GetRef<LevelTwo>,
    Self: GetRef<LevelOne> + Sized,
{
    fn get_ref_fourth<'a>(&'a self) -> (value: &'a LevelFour) where
        LevelOne: 'a,
        LevelTwo: 'a,
        LevelThree: 'a,

        ensures
            focus_fourth::<Self, LevelOne, LevelTwo, LevelThree, LevelFour>(*self) == Some(
                *value,
            ),
    {
        self.get_ref().get_ref().get_ref().get_ref()
    }
}

/// A variant of [`Setter`], reaching four levels deep in the data
/// structure.
pub trait SetFourth<LevelOne, LevelTwo, LevelThree, LevelFour> where
    LevelThree: Setter<LevelFour>,
    LevelTwo: Modify<LevelThree>,
    LevelOne: Modify<LevelTwo>,
    Self: Modify<LevelOne> + Sized,
{
    fn set_fourth(self, new_value: LevelFour) -> (updated: Self)
        ensures
            updated == put_fourth::<Self, LevelOne, LevelTwo, LevelThree, LevelFour>(
                self,
                new_value,
            ),
    {
        set_at_fourth(self, new_value)
    }
}

/// A variant of [`Modify`], reaching four levels deep in the data
/// structure.
pub trait ModifyFourth<LevelOne, LevelTwo, LevelThree, LevelFour> where
    LevelThree: Modify<LevelFour>,
    LevelTwo: Modify<LevelThree>,
    LevelOne: Modify<LevelTwo>,
    Self: Modify<LevelOne> + Sized,
{
    fn modify_fourth<F: FnOnce(LevelFour) -> LevelFour>(self, f: F) -> (updated: Self)
        requires
            focus_fourth::<Self, LevelOne, LevelTwo, LevelThree, LevelFour>(self) matches Some(
                value,
            ) ==> call_requires(f, (value,)),
        ensures
            (match focus_fourth::<Self, LevelOne, LevelTwo, LevelThree, LevelFour>(self) {
                Some(value) => exists|w: LevelFour|
                    call_ensures(f, (value,), w)
                        && updated == put_fourth::<Self, LevelOne, LevelTwo, LevelThree, LevelFour>(
                            self,
                            w,
                        ),
                None => updated == self,
            }),
    {
        modify_at_fourth(self, f)
    }
}

// ------------------------------------------------------------------
// Depth five.
// ------------------------------------------------------------------

/// A variant of [`Get`], reaching five levels deep in the data structure.
pub trait GetFifth<LevelOne, LevelTwo, LevelThree, LevelFour, LevelFive> where
    LevelFour: Get<LevelFive>,
    LevelThree: Get<LevelFour>,
    LevelTwo: Get<LevelThree>,
    LevelOne: Get<LevelTwo>,
    Self: Get<LevelOne> + Sized,
{
    fn get_fifth(self) -> (value: LevelFive)
        ensures
            focus_fifth::<Self, LevelOne, LevelTwo, LevelThree, LevelFour, LevelFive>(self)
                == Some(value),
    {
        self.get().get().get().get().get()
    }
}

/// A variant of [`GetRef`], reaching five levels deep in the data
/// structure.
pub trait GetRefFifth<LevelOne, LevelTwo, LevelThree, LevelFour, LevelFive> where
    LevelFour: GetRef<LevelFive>,
    LevelThree: GetRef<LevelFour>,
    LevelTwo: GetRef<LevelThree>,
    LevelOne: GetRef<LevelTwo>,
    Self: GetRef<LevelOne> + Sized,
{
    fn get_ref_fifth<'a>(&'a self) -> (value: &'a LevelFive) where
        LevelOne: 'a,
        LevelTwo: 'a,
        LevelThree: 'a,
        LevelFour: 'a,

        ensures
            focus_fifth::<Self, LevelOne, LevelTwo, LevelThree, LevelFour, LevelFive>(*self)
                == Some(*value),
    {
        self.get_ref().get_ref().get_ref().get_ref().get_ref()
    }
}

/// A variant of [`Setter`], reaching five levels deep in the data
/// structure.
pub trait SetFifth<LevelOne, LevelTwo, LevelThree, LevelFour, LevelFive> where
    LevelFour: Setter<LevelFive>,
    LevelThree: Modify<LevelFour>,
    LevelTwo: Modify<LevelThree>,
    LevelOne: Modify<LevelTwo>,
    Self: Modify<LevelOne> + Sized,
{
    fn set_fifth(self, new_value: LevelFive) -> (updated: Self)
        ensures
            updated == put_fifth::<Self, LevelOne, LevelTwo, LevelThree, LevelFour, LevelFive>(
                self,
                new_value,
            ),
    {
        set_at_fifth(self, new_value)
    }
}

/// A variant of [`Modify`], reaching five levels deep in the data
/// structure.
pub trait ModifyFifth<LevelOne, LevelTwo, LevelThree, LevelFour, LevelFive> where
    LevelFour: Modify<LevelFive>,
    LevelThree: Modify<LevelFour>,
    LevelTwo: Modify<LevelThree>,
    LevelOne: Modify<LevelTwo>,
    Self: Modify<LevelOne> + Sized,
{
    fn modify_fifth<F: FnOnce(LevelFive) -> LevelFive>(self, f: F) -> (updated: Self)
        requires
            focus_fifth::<Self, LevelOne, LevelTwo, LevelThree, LevelFour, LevelFive>(
                self,
            ) matches Some(value) ==> call_requires(f, (value,)),
        ensures
            (match focus_fifth::<Self, LevelOne, LevelTwo, LevelThree, LevelFour, LevelFive>(
                self,
            ) {
                Some(value) => exists|w: LevelFive|
                    call_ensures(f, (value,), w)
                        && updated == put_fifth::<
                            Self,
                            LevelOne,
                            LevelTwo,
                            LevelThree,
                            LevelFour,
                            LevelFive,
                        >(self, w),
                None => updated == self,
            }),
    {
        modify_at_fifth(self, f)
    }
}

} // verus!
