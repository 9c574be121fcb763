//! Runtime semantics of the emitted methods.
//!
//! For a struct the generator accepts, the emitted `process3` and
//! `process4` methods chain two or three fallible transformation steps
//! over the wrapped optional value, short-circuiting on the first absent
//! result.  With `skip` set the emitted methods are stubs that yield no
//! value and run no step; with `timeout` set they also print an
//! announcement line.  This module states those semantics once, for every
//! attribute combination, over the step functions' own contracts.

use vstd::prelude::*;
use crate::digits::{announcement_text, timeout_announcement};

verus! {

/// An instance of an annotated struct together with the attribute values
/// its methods were generated under.
pub struct GeneratedPipeline<T> {
    /// The single `Option<T>` field's current value.
    pub value: Option<T>,
    /// Whether the methods were generated as stubs.
    pub skip: bool,
    /// The configured timeout in milliseconds, if any.
    pub timeout: Option<u64>,
}

/// What one method invocation produced: the timeout announcement line, if
/// one was printed, and the chained result.
pub struct ProcessOutput<T> {
    pub announcement: Option<String>,
    pub result: Option<T>,
}

/// The possible results of chaining two steps from `v`: an outcome is
/// reachable exactly when some intermediate values connect it to the
/// steps' own contracts, with later steps unreached after an absent
/// result.
pub open spec fn chain2_post<T, F1: FnOnce(T) -> Option<T>, F2: FnOnce(T) -> Option<T>>(
    f1: F1,
    f2: F2,
    v: T,
    out: Option<T>,
) -> bool {
    match out {
        Some(y) => exists|m: T|
            call_ensures(f1, (v,), Some(m)) && call_ensures(f2, (m,), Some(y)),
        None => call_ensures(f1, (v,), None) || exists|m: T|
            call_ensures(f1, (v,), Some(m)) && call_ensures(f2, (m,), None),
    }
}

/// The possible results of chaining three steps from `v`.
pub open spec fn chain3_post<
    T,
    F1: FnOnce(T) -> Option<T>,
    F2: FnOnce(T) -> Option<T>,
    F3: FnOnce(T) -> Option<T>,
>(f1: F1, f2: F2, f3: F3, v: T, out: Option<T>) -> bool {
    match out {
        Some(y) => exists|m1: T, m2: T|
            call_ensures(f1, (v,), Some(m1)) && call_ensures(f2, (m1,), Some(m2)) && call_ensures(
                f3,
                (m2,),
                Some(y),
            ),
        None => call_ensures(f1, (v,), None) || (exists|m1: T|
            call_ensures(f1, (v,), Some(m1)) && call_ensures(f2, (m1,), None)) || (exists|
            m1: T,
            m2: T,
        |
            call_ensures(f1, (v,), Some(m1)) && call_ensures(f2, (m1,), Some(m2)) && call_ensures(
                f3,
                (m2,),
                None,
            )),
    }
}

/// What the announcement of one invocation is: the timeout line exactly
/// when the methods are not stubs and a timeout is configured.
pub open spec fn announcement_post(skip: bool, timeout: Option<u64>, a: Option<String>) -> bool {
    if skip {
        a is None
    } else {
        match timeout {
            None => a is None,
            Some(t) => a matches Some(s) && s@ == announcement_text(t),
        }
    }
}

impl<T> GeneratedPipeline<T> {
    /// The emitted two-step chaining method: applies `f1` then `f2` to the
    /// wrapped value, short-circuiting on the first absent result; a stub
    /// yielding no value when `skip` is set.
    pub fn process3<F1: FnOnce(T) -> Option<T>, F2: FnOnce(T) -> Option<T>>(
        self,
        f1: F1,
        f2: F2,
    ) -> (out: ProcessOutput<T>)
        requires
            !self.skip ==> (self.value matches Some(v) ==> call_requires(f1, (v,))),
            forall|v: T, m: T|
                !self.skip && self.value == Some(v) && #[trigger] call_ensures(f1, (v,), Some(m))
                    ==> call_requires(f2, (m,)),
        ensures
            announcement_post(self.skip, self.timeout, out.announcement),
            self.skip ==> out.result is None,
            !self.skip && self.value is None ==> out.result is None,
            !self.skip ==> (self.value matches Some(v) ==> chain2_post(f1, f2, v, out.result)),
    {
        if self.skip {
            return ProcessOutput { announcement: None, result: None };
        }
        let announcement = timeout_announcement(&self.timeout);
        let result = match self.value {
            None => None,
            Some(v) => match f1(v) {
                None => None,
                Some(m) => f2(m),
            },
        };
        ProcessOutput { announcement, result }
    }

    /// The emitted three-step chaining method: applies `f1`, `f2`, then
    /// `f3` with the same short-circuit semantics.
    pub fn process4<
        F1: FnOnce(T) -> Option<T>,
        F2: FnOnce(T) -> Option<T>,
        F3: FnOnce(T) -> Option<T>,
    >(self, f1: F1, f2: F2, f3: F3) -> (out: ProcessOutput<T>)
        requires
            !self.skip ==> (self.value matches Some(v) ==> call_requires(f1, (v,))),
            forall|v: T, m: T|
                !self.skip && self.value == Some(v) && #[trigger] call_ensures(f1, (v,), Some(m))
                    ==> call_requires(f2, (m,)),
            forall|v: T, m1: T, m2: T|
                !self.skip && self.value == Some(v) && #[trigger] call_ensures(f1, (v,), Some(m1))
                    && #[trigger] call_ensures(f2, (m1,), Some(m2)) ==> call_requires(f3, (m2,)),
        ensures
            announcement_post(self.skip, self.timeout, out.announcement),
            self.skip ==> out.result is None,
            !self.skip && self.value is None ==> out.result is None,
            !self.skip ==> (self.value matches Some(v) ==> chain3_post(f1, f2, f3, v, out.result)),
    {
        if self.skip {
            return ProcessOutput { announcement: None, result: None };
        }
        let announcement = timeout_announcement(&self.timeout);
        let result = match self.value {
            None => None,
            Some(v) => match f1(v) {
                None => None,
                Some(m1) => match f2(m1) {
                    None => None,
                    Some(m2) => f3(m2),
                },
            },
        };
        ProcessOutput { announcement, result }
    }
}

/// When both steps are functional — each admits exactly one result on the
/// value it is handed — the two-step chain is their composition: from `v`
/// it yields `f2`'s result on `f1`'s output, and an absent result after
/// `f1` makes the whole chain absent without reaching `f2`.
pub proof fn lemma_chain2_functional<T, F1: FnOnce(T) -> Option<T>, F2: FnOnce(T) -> Option<T>>(
    f1: F1,
    f2: F2,
    v: T,
    r1: Option<T>,
    r2: Option<T>,
    out: Option<T>,
)
    requires
        chain2_post(f1, f2, v, out),
        forall|r: Option<T>| #[trigger] call_ensures(f1, (v,), r) ==> r == r1,
        forall|m: T, r: Option<T>|
            r1 == Some(m) && #[trigger] call_ensures(f2, (m,), r) ==> r == r2,
    ensures
        out == (if r1 is Some { r2 } else { None }),
{
    match out {
        Some(y) => {
            let m = choose|m: T|
                call_ensures(f1, (v,), Some(m)) && call_ensures(f2, (m,), Some(y));
            assert(Some(m) == r1);
            assert(Some(y) == r2);
        },
        None => {
            if call_ensures(f1, (v,), None) {
                assert(r1 == None::<T>);
            } else {
                let m = choose|m: T|
                    call_ensures(f1, (v,), Some(m)) && call_ensures(f2, (m,), None);
                assert(Some(m) == r1);
                assert(r2 == None::<T>);
            }
        },
    }
}

/// The three-step analogue of [`lemma_chain2_functional`]: with each step
/// admitting exactly one result on the value it is handed, the chain is
/// the steps' composition, and an absent result stops it where it occurs.
pub proof fn lemma_chain3_functional<
    T,
    F1: FnOnce(T) -> Option<T>,
    F2: FnOnce(T) -> Option<T>,
    F3: FnOnce(T) -> Option<T>,
>(f1: F1, f2: F2, f3: F3, v: T, r1: Option<T>, r2: Option<T>, r3: Option<T>, out: Option<T>)
    requires
        chain3_post(f1, f2, f3, v, out),
        forall|r: Option<T>| #[trigger] call_ensures(f1, (v,), r) ==> r == r1,
        forall|m: T, r: Option<T>|
            r1 == Some(m) && #[trigger] call_ensures(f2, (m,), r) ==> r == r2,
        forall|m: T, r: Option<T>|
            r1 is Some && r2 == Some(m) && #[trigger] call_ensures(f3, (m,), r) ==> r == r3,
    ensures
        out == (if r1 is None {
            None
        } else if r2 is None {
            None
        } else {
            r3
        }),
{
    match out {
        Some(y) => {
            let (m1, m2) = choose|m1: T, m2: T|
                call_ensures(f1, (v,), Some(m1)) && call_ensures(f2, (m1,), Some(m2))
                    && call_ensures(f3, (m2,), Some(y));
            assert(Some(m1) == r1);
            assert(Some(m2) == r2);
            assert(Some(y) == r3);
        },
        None => {
            if call_ensures(f1, (v,), None) {
                assert(r1 == None::<T>);
            } else if exists|m1: T|
                call_ensures(f1, (v,), Some(m1)) && call_ensures(f2, (m1,), None) {
                let m1 = choose|m1: T|
                    call_ensures(f1, (v,), Some(m1)) && call_ensures(f2, (m1,), None);
                assert(Some(m1) == r1);
                assert(r2 == None::<T>);
            } else {
                let (m1, m2) = choose|m1: T, m2: T|
                    call_ensures(f1, (v,), Some(m1)) && call_ensures(f2, (m1,), Some(m2))
                        && call_ensures(f3, (m2,), None);
                assert(Some(m1) == r1);
                assert(Some(m2) == r2);
                assert(r3 == None::<T>);
            }
        },
    }
}

} // verus!
