use vstd::prelude::*;

verus! {

/// A JSON number. Integers keep the shape they had in the source document:
/// a non-negative integer, a negative integer, or a double. A double is
/// carried as its shortest round-trip decimal text, the same form in which
/// serde_json prints a float, so that printing it back is the identity.
#[derive(Debug, PartialEq)]
pub enum Num {
    PosInt(u64),
    NegInt(i64),
    Float(String),
}

/// One key/value entry of a JSON object.
#[derive(Debug, PartialEq)]
pub struct Entry {
    pub key: String,
    pub value: Json,
}

/// A JSON value. An object is an ordered list of key/value entries; a lookup
/// takes the first entry with a matching key.
#[derive(Debug, PartialEq)]
pub enum Json {
    Null,
    Bool(bool),
    Num(Num),
    Str(String),
    Arr(Vec<Json>),
    Obj(Vec<Entry>),
}

/// The mathematical shape of a `Num`.
#[verifier::ext_equal]
pub enum NumV {
    PosInt(u64),
    NegInt(i64),
    Float(Seq<char>),
}

/// The mathematical shape of a `Json` value: text as character sequences,
/// arrays and objects as sequences.
#[verifier::ext_equal]
pub enum JsonV {
    Null,
    Bool(bool),
    Num(NumV),
    Str(Seq<char>),
    Arr(Seq<JsonV>),
    Obj(Seq<(Seq<char>, JsonV)>),
}

/// The mathematical value of a `Json` tree.
pub open spec fn jv(j: Json) -> JsonV
    decreases j,
{
    match j {
        Json::Null => JsonV::Null,
        Json::Bool(b) => JsonV::Bool(b),
        Json::Num(n) => JsonV::Num(n@),
        Json::Str(s) => JsonV::Str(s@),
        Json::Arr(a) => JsonV::Arr(
            Seq::new(
                a@.len(),
                |i: int|
                    if 0 <= i < a@.len() {
                        jv(a@[i])
                    } else {
                        JsonV::Null
                    },
            ),
        ),
        Json::Obj(o) => JsonV::Obj(
            Seq::new(
                o@.len(),
                |i: int|
                    if 0 <= i < o@.len() {
                        (o@[i].key@, jv(o@[i].value))
                    } else {
                        (Seq::empty(), JsonV::Null)
                    },
            ),
        ),
    }
}

/// The mathematical value of each element of a sequence of `Json` trees.
pub open spec fn jvs(a: Seq<Json>) -> Seq<JsonV> {
    Seq::new(a.len(), |i: int| jv(a[i]))
}

/// The mathematical value of each entry of an object entry list.
pub open spec fn evs(o: Seq<Entry>) -> Seq<(Seq<char>, JsonV)> {
    Seq::new(o.len(), |i: int| (o[i].key@, jv(o[i].value)))
}

/// An array's value is the value of its elements, in order.
pub broadcast proof fn lemma_jv_arr(a: Vec<Json>)
    ensures
        #[trigger] jv(Json::Arr(a)) == JsonV::Arr(jvs(a@)),
{
    assert(jv(Json::Arr(a)) matches JsonV::Arr(s) && s =~= jvs(a@));
}

/// An object's value is the value of its entries, in order.
pub broadcast proof fn lemma_jv_obj(o: Vec<Entry>)
    ensures
        #[trigger] jv(Json::Obj(o)) == JsonV::Obj(evs(o@)),
{
    assert(jv(Json::Obj(o)) matches JsonV::Obj(s) && s =~= evs(o@));
}

impl View for Num {
    type V = NumV;

    open spec fn view(&self) -> NumV {
        match self {
            Num::PosInt(u) => NumV::PosInt(*u),
            Num::NegInt(i) => NumV::NegInt(*i),
            Num::Float(s) => NumV::Float(s@),
        }
    }
}

impl View for Json {
    type V = JsonV;

    open spec fn view(&self) -> JsonV {
        jv(*self)
    }
}

impl Clone for Num {
    fn clone(&self) -> (res: Self)
        ensures
            res@ == self@,
    {
        match self {
            Num::PosInt(u) => Num::PosInt(*u),
            Num::NegInt(i) => Num::NegInt(*i),
            Num::Float(s) => Num::Float(s.clone()),
        }
    }
}

impl Clone for Entry {
    fn clone(&self) -> (res: Self)
        ensures
            res.key@ == self.key@,
            res.value@ == self.value@,
        decreases self,
    {
        Entry { key: self.key.clone(), value: self.value.clone() }
    }
}

/// Clones every element of a list of JSON values.
pub(crate) fn clone_jsons(a: &Vec<Json>) -> (res: Vec<Json>)
    ensures
        jvs(res@) =~= jvs(a@),
        res@.len() == a@.len(),
    decreases a,
{
    let mut out: Vec<Json> = Vec::new();
    let mut i: usize = 0;
    while i < a.len()
        invariant
            i <= a.len(),
            out@.len() == i as int,
            forall|k: int| 0 <= k < i ==> jv(out@[k]) == jv(a@[k]),
        decreases a.len() - i,
    {
        out.push(a[i].clone());
        i = i + 1;
    }
    out
}

/// Clones every entry of an object entry list.
fn clone_entries(o: &Vec<Entry>) -> (res: Vec<Entry>)
    ensures
        evs(res@) =~= evs(o@),
        res@.len() == o@.len(),
    decreases o,
{
    let mut out: Vec<Entry> = Vec::new();
    let mut i: usize = 0;
    while i < o.len()
        invariant
            i <= o.len(),
            out@.len() == i as int,
            forall|k: int|
                0 <= k < i ==> out@[k].key@ == o@[k].key@ && jv(out@[k].value) == jv(o@[k].value),
        decreases o.len() - i,
    {
        out.push(o[i].clone());
        i = i + 1;
    }
    out
}

impl Clone for Json {
    fn clone(&self) -> (res: Self)
        ensures
            res@ == self@,
        decreases self,
    {
        match self {
            Json::Null => Json::Null,
            Json::Bool(b) => Json::Bool(*b),
            Json::Num(n) => Json::Num(n.clone()),
            Json::Str(s) => Json::Str(s.clone()),
            Json::Arr(a) => {
                let res = Json::Arr(clone_jsons(a));
                proof {
                    broadcast use lemma_jv_arr;

                    assert(res@ =~= self@);
                }
                res
            },
            Json::Obj(o) => {
                let res = Json::Obj(clone_entries(o));
                proof {
                    broadcast use lemma_jv_obj;

                    assert(res@ =~= self@);
                }
                res
            },
        }
    }
}

} // verus!
