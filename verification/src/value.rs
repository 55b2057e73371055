//! The message payload: a JSON document held as plain values.

use vstd::prelude::*;

verus! {

/// A JSON value, the payload of one framed message.
///
/// Numbers are held exactly as 64-bit integers: `Int` covers the signed
/// range, `BigUInt` the unsigned values above it. Object members keep the
/// order in which they were written.
#[derive(Debug, PartialEq, Eq)]
pub enum Json {
    Null,
    Bool(bool),
    Int(i64),
    BigUInt(u64),
    Str(String),
    Arr(Vec<Json>),
    Obj(Vec<(String, Json)>),
}

/// The deepest container nesting the decoder accepts. serde_json's
/// deserializer counts a recursion budget of 128 and refuses the document
/// once a 128th nested array or object opens, so only values whose
/// containers stay within this many levels come back from their own
/// encoding.
pub const MAX_NESTING: u32 = 127;

/// Well-formedness within a nesting budget: every `BigUInt` really lies
/// above the signed range, no object has two members with the same key, and
/// each array or object spends one level of `d`.
pub open spec fn wf_within(v: Json, d: nat) -> bool
    decreases v,
{
    match v {
        Json::Null => true,
        Json::Bool(_) => true,
        Json::Int(_) => true,
        Json::BigUInt(u) => u > i64::MAX,
        Json::Str(_) => true,
        Json::Arr(xs) => {
            &&& d > 0
            &&& forall|i: int| 0 <= i < xs.len() ==> wf_within(#[trigger] xs[i], (d - 1) as nat)
        },
        Json::Obj(ps) => {
            &&& d > 0
            &&& forall|i: int| 0 <= i < ps.len() ==> wf_within(#[trigger] ps[i].1, (d - 1) as nat)
            &&& forall|i: int, j: int|
                0 <= i < j < ps.len() ==> (#[trigger] ps[i].0)@ != (#[trigger] ps[j].0)@
        },
    }
}

/// A well-formed value: `BigUInt` above the signed range, object keys
/// pairwise distinct, and containers nested within the decoder's limit.
/// Encoding such a value and decoding the text gives the value back
/// unchanged.
pub open spec fn wf_json(v: Json) -> bool {
    wf_within(v, MAX_NESTING as nat)
}

/// Decides `wf_within(*v, d as nat)`.
fn check_wf(v: &Json, d: u32) -> (r: bool)
    ensures
        r == wf_within(*v, d as nat),
    decreases *v,
{
    match v {
        Json::Null => true,
        Json::Bool(_) => true,
        Json::Int(_) => true,
        Json::BigUInt(u) => *u > i64::MAX as u64,
        Json::Str(_) => true,
        Json::Arr(xs) => {
            if d == 0 {
                return false;
            }
            let mut i: usize = 0;
            while i < xs.len()
                invariant
                    *v == Json::Arr(*xs),
                    d > 0,
                    i <= xs.len(),
                    forall|j: int| 0 <= j < i ==> wf_within(#[trigger] xs@[j], (d - 1) as nat),
                decreases xs.len() - i,
            {
                proof {
                    assert(decreases_to!(*v => v->Arr_0));
                    assert(decreases_to!(v->Arr_0 => v->Arr_0@));
                    assert(decreases_to!(v->Arr_0@ => v->Arr_0@[i as int]));
                    assert(xs@[i as int] == v->Arr_0@[i as int]);
                }
                if !check_wf(&xs[i], d - 1) {
                    proof {
                        if wf_within(*v, d as nat) {
                            assert(forall|k: int|
                                0 <= k < xs@.len() ==> wf_within(
                                    #[trigger] xs@[k],
                                    (d - 1) as nat,
                                ));
                            assert(false);
                        }
                    }
                    return false;
                }
                i = i + 1;
            }
            true
        },
        Json::Obj(ps) => {
            if d == 0 {
                return false;
            }
            let mut i: usize = 0;
            while i < ps.len()
                invariant
                    *v == Json::Obj(*ps),
                    d > 0,
                    i <= ps.len(),
                    forall|j: int| 0 <= j < i ==> wf_within(#[trigger] ps@[j].1, (d - 1) as nat),
                    forall|j1: int, j2: int|
                        0 <= j1 < j2 < i ==> (#[trigger] ps@[j1].0)@ != (#[trigger] ps@[j2].0)@,
                decreases ps.len() - i,
            {
                proof {
                    assert(decreases_to!(*v => v->Obj_0));
                    assert(decreases_to!(v->Obj_0 => v->Obj_0@));
                    assert(decreases_to!(v->Obj_0@ => v->Obj_0@[i as int]));
                    assert(decreases_to!(v->Obj_0@[i as int] => v->Obj_0@[i as int].1));
                    assert(ps@[i as int].1 == v->Obj_0@[i as int].1);
                }
                if !check_wf(&ps[i].1, d - 1) {
                    proof {
                        if wf_within(*v, d as nat) {
                            assert(forall|k: int|
                                0 <= k < ps@.len() ==> wf_within(
                                    #[trigger] ps@[k].1,
                                    (d - 1) as nat,
                                ));
                            assert(false);
                        }
                    }
                    return false;
                }
                let mut j: usize = 0;
                while j < i
                    invariant
                        *v == Json::Obj(*ps),
                        j <= i < ps.len(),
                        forall|k: int| 0 <= k < j ==> (#[trigger] ps@[k].0)@ != ps@[i as int].0@,
                    decreases i - j,
                {
                    if ps[j].0 == ps[i].0 {
                        proof {
                            if wf_within(*v, d as nat) {
                                assert(v->Obj_0 == *ps);
                                assert((ps@[j as int].0)@ != (ps@[i as int].0)@);
                                assert(false);
                            }
                        }
                        return false;
                    }
                    j = j + 1;
                }
                i = i + 1;
            }
            true
        },
    }
}

impl Json {
    /// Decides well-formedness; see `wf_json`. A value this function
    /// accepts is encoded and decoded without loss.
    pub fn is_wf(&self) -> (r: bool)
        ensures
            r == wf_json(*self),
    {
        check_wf(self, MAX_NESTING)
    }
}

} // verus!
