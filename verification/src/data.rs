//! The data context: a borrowed JSON value and the path lookup that the
//! `var`, `missing` and `missing_some` operators probe it with.
use crate::json::{evs, jv, jvs, lemma_jv_arr, lemma_jv_obj, Entry, Json, JsonV, Num, NumV};
use crate::logic::{num_str, num_to_str};
use crate::strings::{parse_index, parse_index_str, split_dots, split_dots_str};
use vstd::prelude::*;
use vstd::string::StrSliceExecFns;

verus! {

/// The value of the first entry with the given key, if any.
pub open spec fn obj_get(o: Seq<(Seq<char>, JsonV)>, key: Seq<char>) -> Option<JsonV>
    decreases o.len(),
{
    if o.len() == 0 {
        None
    } else if o[0].0 == key {
        Some(o[0].1)
    } else {
        obj_get(o.subrange(1, o.len() as int), key)
    }
}

/// Walks the steps of a string path: each step descends into an array by
/// index or into an object by key; a step may pick a character of a string,
/// but only as the final step.
pub open spec fn lookup_steps(cur: JsonV, segs: Seq<Seq<char>>) -> Option<JsonV>
    decreases segs.len(),
{
    if segs.len() == 0 {
        Some(cur)
    } else {
        let sg = segs[0];
        let rest = segs.subrange(1, segs.len() as int);
        match cur {
            JsonV::Arr(a) => match parse_index(sg) {
                Some(i) => if 0 <= i < a.len() {
                    lookup_steps(a[i], rest)
                } else {
                    None
                },
                None => None,
            },
            JsonV::Obj(o) => match obj_get(o, sg) {
                Some(v) => lookup_steps(v, rest),
                None => None,
            },
            JsonV::Str(s) => match parse_index(sg) {
                Some(i) => if 0 <= i < s.len() && segs.len() == 1 {
                    Some(JsonV::Str(seq![s[i]]))
                } else {
                    None
                },
                None => None,
            },
            _ => None,
        }
    }
}

/// A numeric path: an index into an array or a string, or the number's
/// decimal text as an object key.
pub open spec fn lookup_num(d: JsonV, n: NumV) -> Option<JsonV> {
    match d {
        JsonV::Arr(a) => match n {
            NumV::PosInt(u) => if u < a.len() {
                Some(a[u as int])
            } else {
                None
            },
            _ => None,
        },
        JsonV::Obj(o) => obj_get(o, num_str(n)),
        JsonV::Str(s) => match n {
            NumV::PosInt(u) => if u < s.len() {
                Some(JsonV::Str(seq![s[u as int]]))
            } else {
                None
            },
            _ => None,
        },
        _ => None,
    }
}

/// What a path finds in the data: a string path walks its dot-separated
/// steps, a number indexes directly, and any other path finds nothing.
pub open spec fn lookup(d: JsonV, path: JsonV) -> Option<JsonV> {
    match path {
        JsonV::Str(p) => lookup_steps(d, split_dots(p)),
        JsonV::Num(n) => lookup_num(d, n),
        _ => None,
    }
}

/// The null document an empty data context wraps.
const EMPTY_DATA: Json = Json::Null;

/// Contains a JSON value that is passed as data for the evaluation of a rule.
pub struct Data<'a> {
    pub value: &'a Json,
}

impl<'a> View for Data<'a> {
    type V = JsonV;

    open spec fn view(&self) -> JsonV {
        jv(*self.value)
    }
}

/// The value of the first entry with the given key, cloned.
fn obj_get_x(o: &Vec<Entry>, key: &String) -> (r: Option<Json>)
    ensures
        r matches Some(v) ==> obj_get(evs(o@), key@) == Some(v@),
        r is None ==> obj_get(evs(o@), key@) is None,
{
    let mut i: usize = 0;
    while i < o.len()
        invariant
            0 <= i <= o@.len(),
            forall|k: int| 0 <= k < i ==> evs(o@)[k].0 != key@,
        decreases o@.len() - i,
    {
        let hit = o[i].key == *key;
        proof {
            assert(evs(o@)[i as int].0 == o@[i as int].key@);
        }
        if hit {
            let r = o[i].value.clone();
            proof {
                lemma_obj_get_found(evs(o@), key@, i as int);
            }
            return Some(r);
        }
        i = i + 1;
    }
    proof {
        lemma_obj_get_misses(evs(o@), key@);
    }
    None
}

proof fn lemma_obj_get_found(o: Seq<(Seq<char>, JsonV)>, key: Seq<char>, i: int)
    requires
        0 <= i < o.len(),
        o[i].0 == key,
        forall|k: int| 0 <= k < i ==> o[k].0 != key,
    ensures
        obj_get(o, key) == Some(o[i].1),
    decreases i,
{
    if i > 0 {
        let rest = o.subrange(1, o.len() as int);
        lemma_obj_get_found(rest, key, i - 1);
    }
}

proof fn lemma_obj_get_misses(o: Seq<(Seq<char>, JsonV)>, key: Seq<char>)
    requires
        forall|k: int| 0 <= k < o.len() ==> o[k].0 != key,
    ensures
        obj_get(o, key) is None,
    decreases o.len(),
{
    if o.len() > 0 {
        lemma_obj_get_misses(o.subrange(1, o.len() as int), key);
    }
}

/// Walks the remaining steps of a string path from the current value.
fn walk_steps(cur: &Json, segs: &Vec<String>, at: usize) -> (r: Option<Json>)
    requires
        at <= segs@.len(),
    ensures
        r matches Some(v) ==> lookup_steps(cur@, segs_views(segs@).subrange(
            at as int,
            segs@.len() as int,
        )) == Some(v@),
        r is None ==> lookup_steps(cur@, segs_views(segs@).subrange(at as int, segs@.len() as int))
            is None,
    decreases segs@.len() - at,
{
    let ghost tail = segs_views(segs@).subrange(at as int, segs@.len() as int);
    if at == segs.len() {
        return Some(cur.clone());
    }
    let sg = &segs[at];
    proof {
        assert(tail[0] == segs@[at as int]@);
        assert(tail.subrange(1, tail.len() as int) =~= segs_views(segs@).subrange(
            at + 1,
            segs@.len() as int,
        ));
    }
    match cur {
        Json::Arr(a) => {
            proof {
                broadcast use lemma_jv_arr;

            }
            let alen = a.len();
            match parse_index_str(sg.as_str()) {
                Some(i) => if i < alen {
                    proof {
                        assert(jvs(a@)[i as int] == jv(a@[i as int]));
                    }
                    walk_steps(&a[i], segs, at + 1)
                } else {
                    None
                },
                None => None,
            }
        },
        Json::Obj(o) => {
            proof {
                broadcast use lemma_jv_obj;

            }
            match obj_get_x(o, sg) {
                Some(v) => walk_steps(&v, segs, at + 1),
                None => None,
            }
        },
        Json::Str(s) => {
            let slen = s.unicode_len();
            match parse_index_str(sg.as_str()) {
                Some(i) => {
                    if i < slen && at + 1 == segs.len() {
                        let c = s.as_str().substring_char(i, i + 1).to_owned();
                        proof {
                            assert(c@ =~= seq![s@[i as int]]);
                        }
                        Some(Json::Str(c))
                    } else {
                        None
                    }
                },
                None => None,
            }
        },
        _ => None,
    }
}

/// The view of each path segment.
pub open spec fn segs_views(segs: Seq<String>) -> Seq<Seq<char>> {
    Seq::new(segs.len(), |i: int| segs[i]@)
}

impl<'a> Data<'a> {
    /// Wraps the given JSON value as a data context.
    pub fn from_json(data: &Json) -> (r: Data<'_>)
        ensures
            r@ == data@,
    {
        Data { value: data }
    }

    /// An empty context, wrapping a null value.
    pub fn empty() -> (r: Data<'static>)
        ensures
            r@ == JsonV::Null,
    {
        Data { value: &EMPTY_DATA }
    }

    /// The plain JSON data this context wraps.
    pub fn get_plain(&self) -> (r: &'a Json)
        ensures
            r@ == self@,
    {
        self.value
    }

    /// Looks a value up by the given path: a dotted string or a number.
    /// `None` is a miss.
    pub fn get_value(&self, path: &Json) -> (r: Option<Json>)
        ensures
            r matches Some(v) ==> lookup(self@, path@) == Some(v@),
            r is None ==> lookup(self@, path@) is None,
    {
        match path {
            Json::Str(p) => {
                let segs = split_dots_str(p.as_str());
                proof {
                    assert(segs_views(segs@) =~= split_dots(p@));
                }
                let r = walk_steps(self.value, &segs, 0);
                proof {
                    assert(segs_views(segs@).subrange(0, segs@.len() as int) =~= split_dots(p@));
                }
                r
            },
            Json::Num(n) => self.by_number(n),
            _ => None,
        }
    }

    /// Looks a value up by numeric index: an element of an array, a
    /// character of a string, or the object entry keyed by the number's
    /// decimal text.
    fn by_number(&self, n: &Num) -> (r: Option<Json>)
        ensures
            r matches Some(v) ==> lookup_num(self@, n@) == Some(v@),
            r is None ==> lookup_num(self@, n@) is None,
    {
        match self.value {
            Json::Arr(a) => {
                proof {
                    broadcast use lemma_jv_arr;

                }
                match n {
                    Num::PosInt(u) => {
                        if *u < a.len() as u64 {
                            proof {
                                assert(jvs(a@)[*u as int] == jv(a@[*u as int]));
                            }
                            Some(a[*u as usize].clone())
                        } else {
                            None
                        }
                    },
                    _ => None,
                }
            },
            Json::Obj(o) => {
                proof {
                    broadcast use lemma_jv_obj;

                }
                let key = num_to_str(n);
                obj_get_x(o, &key)
            },
            Json::Str(s) => {
                match n {
                    Num::PosInt(u) => {
                        let len = s.unicode_len();
                        if *u < len as u64 {
                            let i = *u as usize;
                            let c = s.as_str().substring_char(i, i + 1).to_owned();
                            proof {
                                assert(c@ =~= seq![s@[*u as int]]);
                            }
                            Some(Json::Str(c))
                        } else {
                            None
                        }
                    },
                    _ => None,
                }
            },
            _ => None,
        }
    }
}

} // verus!
