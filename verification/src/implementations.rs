//! Accessor instances for the standard partial-container type `Option`.
//!
//! An `Option<T>` is the smallest variant container: the `Some` branch
//! carries a `T` payload and the `None` branch carries nothing.  Its
//! setter and modifier are total in the style of the enum-derived ones:
//! on the wrong branch the original container comes back unchanged.

use vstd::prelude::*;

use crate::composites::ModifyFifth;
use crate::composites::ModifyFourth;
use crate::composites::ModifySecond;
use crate::composites::ModifyThird;
use crate::composites::SetFifth;
use crate::composites::SetFourth;
use crate::composites::SetSecond;
use crate::composites::SetThird;
use crate::focus::Modify;
use crate::focus::Optic;
use crate::focus::Setter;

verus! {

impl<T> Optic<T> for Option<T> {
    open spec fn focus(self) -> Option<T> {
        self
    }

    open spec fn put(self, v: T) -> Option<T> {
        match self {
            Some(_) => Some(v),
            None => None,
        }
    }

    proof fn lemma_put_focus(self, v: T) {
    }

    proof fn lemma_put_absent(self, v: T) {
    }

    proof fn lemma_put_put(self, v1: T, v2: T) {
    }

    proof fn lemma_focus_put(self) {
    }
}

impl<T> Setter<T> for Option<T> {
    fn set(self, new_value: T) -> (updated: Self) {
        match self {
            Some(_) => Some(new_value),
            None => None,
        }
    }
}

impl<T> Modify<T> for Option<T> {
    fn modify<F: FnOnce(T) -> T>(self, f: F) -> (updated: Self) {
        match self {
            Some(value) => {
                let w = f(value);
                // names the witness for the existential in the postcondition
                assert(call_ensures(f, (value,), w) && Some(w) == Option::<T>::Some(value).put(w));
                Some(w)
            },
            None => None,
        }
    }
}

impl<LevelOne, LevelTwo> SetSecond<LevelOne, LevelTwo> for Option<LevelOne> where
    LevelOne: Setter<LevelTwo>,
{

}

impl<LevelOne, LevelTwo, LevelThree> SetThird<LevelOne, LevelTwo, LevelThree> for Option<
    LevelOne,
> where LevelOne: Modify<LevelTwo>, LevelTwo: Setter<LevelThree> {

}

impl<LevelOne, LevelTwo, LevelThree, LevelFour> SetFourth<
    LevelOne,
    LevelTwo,
    LevelThree,
    LevelFour,
> for Option<LevelOne> where
    LevelOne: Modify<LevelTwo>,
    LevelTwo: Modify<LevelThree>,
    LevelThree: Setter<LevelFour>,
{

}

impl<LevelOne, LevelTwo, LevelThree, LevelFour, LevelFive> SetFifth<
    LevelOne,
    LevelTwo,
    LevelThree,
    LevelFour,
    LevelFive,
> for Option<LevelOne> where
    LevelOne: Modify<LevelTwo>,
    LevelTwo: Modify<LevelThree>,
    LevelThree: Modify<LevelFour>,
    LevelFour: Setter<LevelFive>,
{

}

impl<LevelOne, LevelTwo> ModifySecond<LevelOne, LevelTwo> for Option<LevelOne> where
    LevelOne: Modify<LevelTwo>,
{

}

impl<LevelOne, LevelTwo, LevelThree> ModifyThird<LevelOne, LevelTwo, LevelThree> for Option<
    LevelOne,
> where LevelOne: Modify<LevelTwo>, LevelTwo: Modify<LevelThree> {

}

impl<LevelOne, LevelTwo, LevelThree, LevelFour> ModifyFourth<
    LevelOne,
    LevelTwo,
    LevelThree,
    LevelFour,
> for Option<LevelOne> where
    LevelOne: Modify<LevelTwo>,
    LevelTwo: Modify<LevelThree>,
    LevelThree: Modify<LevelFour>,
{

}

impl<LevelOne, LevelTwo, LevelThree, LevelFour, LevelFive> ModifyFifth<
    LevelOne,
    LevelTwo,
    LevelThree,
    LevelFour,
    LevelFive,
> for Option<LevelOne> where
    LevelOne: Modify<LevelTwo>,
    LevelTwo: Modify<LevelThree>,
    LevelThree: Modify<LevelFour>,
    LevelFour: Modify<LevelFive>,
{

}

} // verus!
