//! The expression tree a rule parses into, and the parser itself.
use crate::data::Data;
use crate::json::{evs, jv, jvs, lemma_jv_arr, lemma_jv_obj, Json, JsonV};
use crate::sem::{sem_expr, sem_op};
use crate::operators::{op_of_str, Operator};
use crate::strings::eq_str;
use vstd::prelude::*;
use vstd::string::StrSliceExecFns;
use vstd::string::StringExecFns;

verus! {

broadcast use crate::json::lemma_jv_arr, crate::json::lemma_jv_obj;

/// A parsed rule: a constant to emit as-is, or an operator applied to
/// ordered child expressions.
#[derive(Debug, PartialEq)]
pub enum Expression {
    Constant(Json),
    Computed(Operator, Vec<Expression>),
}

/// The mathematical shape of an expression.
#[verifier::ext_equal]
pub enum ExprV {
    Const(JsonV),
    Comp(Operator, Seq<ExprV>),
}

/// The mathematical value of an expression tree.
pub open spec fn ev(e: Expression) -> ExprV
    decreases e,
{
    match e {
        Expression::Constant(v) => ExprV::Const(jv(v)),
        Expression::Computed(op, args) => ExprV::Comp(
            op,
            Seq::new(
                args@.len(),
                |i: int|
                    if 0 <= i < args@.len() {
                        ev(args@[i])
                    } else {
                        ExprV::Const(JsonV::Null)
                    },
            ),
        ),
    }
}

/// The mathematical value of each expression of a sequence.
pub open spec fn exprs_v(s: Seq<Expression>) -> Seq<ExprV> {
    Seq::new(s.len(), |i: int| ev(s[i]))
}

/// An operator node's value is its operator over its children's values.
pub broadcast proof fn lemma_ev_comp(op: Operator, args: Vec<Expression>)
    ensures
        #[trigger] ev(Expression::Computed(op, args)) == ExprV::Comp(op, exprs_v(args@)),
{
    assert(ev(Expression::Computed(op, args)) matches ExprV::Comp(o, s) && s =~= exprs_v(args@));
}

impl View for Expression {
    type V = ExprV;

    open spec fn view(&self) -> ExprV {
        ev(*self)
    }
}

/// What a JSON document parses to: a constant for anything that is not a
/// single-entry object; for a single-entry object, its key's operator over
/// the normalized argument list, or the unrecognized key as the error.
pub open spec fn parse_rule(v: JsonV) -> Result<ExprV, Seq<char>>
    decreases v,
{
    match v {
        JsonV::Obj(o) => {
            if o.len() != 1 {
                Ok(ExprV::Const(v))
            } else {
                let key = o[0].0;
                let arg = o[0].1;
                match op_of_str(key) {
                    None => Err(key),
                    Some(op) => match arg {
                        JsonV::Arr(a) => match parse_children(a) {
                            Ok(children) => Ok(ExprV::Comp(op, children)),
                            Err(k) => Err(k),
                        },
                        JsonV::Null => Ok(ExprV::Comp(op, Seq::empty())),
                        _ => match parse_rule(arg) {
                            Ok(child) => Ok(ExprV::Comp(op, seq![child])),
                            Err(k) => Err(k),
                        },
                    },
                }
            }
        },
        _ => Ok(ExprV::Const(v)),
    }
}

/// Parses each element of an argument array, stopping at the first error.
pub open spec fn parse_children(vals: Seq<JsonV>) -> Result<Seq<ExprV>, Seq<char>>
    decreases vals,
{
    if vals.len() == 0 {
        Ok(Seq::empty())
    } else {
        match parse_rule(vals[0]) {
            Err(k) => Err(k),
            Ok(head) => match parse_children(vals.subrange(1, vals.len() as int)) {
                Err(k) => Err(k),
                Ok(tail) => Ok(seq![head] + tail),
            },
        }
    }
}

/// The message a caller sees for an unknown operator key.
pub open spec fn unrecognized_msg(key: Seq<char>) -> Seq<char> {
    ("Unrecognized operation ")@ + key
}

/// Parses each element of an argument array, stopping at the first error.
fn children_from_json(vals: &Vec<Json>, at: usize) -> (r: Result<Vec<Expression>, String>)
    requires
        at <= vals@.len(),
    ensures
        r matches Ok(es) ==> parse_children(jvs(vals@).subrange(at as int, vals@.len() as int))
            == Ok::<_, Seq<char>>(exprs_v(es@)),
        r matches Err(m) ==> (parse_children(jvs(vals@).subrange(at as int, vals@.len() as int))
            matches Err(k) && m@ == unrecognized_msg(k)),
    decreases vals, vals@.len() - at,
{
    let ghost tail = jvs(vals@).subrange(at as int, vals@.len() as int);
    if at == vals.len() {
        let r: Vec<Expression> = Vec::new();
        proof {
            assert(exprs_v(r@) =~= Seq::<ExprV>::empty());
        }
        return Ok(r);
    }
    proof {
        assert(tail[0] == jv(vals@[at as int]));
        assert(tail.subrange(1, tail.len() as int) =~= jvs(vals@).subrange(
            at + 1,
            vals@.len() as int,
        ));
    }
    let head = match Expression::from_json(&vals[at]) {
        Ok(e) => e,
        Err(m) => {
            return Err(m);
        },
    };
    match children_from_json(vals, at + 1) {
        Ok(mut es) => {
            let ghost pre = es@;
            es.insert(0, head);
            proof {
                assert(es@.subrange(1, es@.len() as int) =~= pre);
                assert(exprs_v(es@) =~= seq![head@] + exprs_v(pre));
            }
            Ok(es)
        },
        Err(m) => Err(m),
    }
}

impl Expression {
    /// Computes the expression against an empty (null) data context.
    pub fn compute(&self) -> (r: Json)
        ensures
            r@ == sem_expr(self@, JsonV::Null),
    {
        let null = Json::Null;
        self.compute_with_data(&Data::from_json(&null))
    }

    /// Computes the expression and returns the value it evaluates to.
    pub fn compute_with_data(&self, data: &Data) -> (r: Json)
        ensures
            r@ == sem_expr(self@, data@),
        decreases self, 0int, 0int,
    {
        match self {
            Expression::Constant(value) => value.clone(),
            Expression::Computed(operator, args) => {
                proof {
                    broadcast use lemma_ev_comp;

                }
                (*operator).compute(args, data)
            },
        }
    }

    /// The distinct constant names that occur under `var` in this
    /// expression, each at its first occurrence, in traversal order.
    /// Fails where a `var` has no argument, a non-constant argument, or a
    /// constant non-string argument.
    pub fn get_variable_names(&self) -> (r: Result<Vec<String>, String>)
        ensures
            r matches Ok(names) ==> (var_names(self@) matches Ok(all) && strs_v(names@)
                == dedup_names(all)),
            r matches Err(m) ==> var_names(self@) == Err::<Seq<Seq<char>>, _>(m@),
    {
        let all = match collect_names(self) {
            Ok(v) => v,
            Err(m) => {
                return Err(m);
            },
        };
        let ghost allv = strs_v(all@);
        let mut out: Vec<String> = Vec::new();
        let mut i: usize = 0;
        while i < all.len()
            invariant
                0 <= i <= all@.len(),
                allv == strs_v(all@),
                strs_v(out@) == dedup_names(allv.subrange(0, i as int)),
            decreases all@.len() - i,
        {
            let ghost pre = allv.subrange(0, i as int);
            let ghost pre1 = allv.subrange(0, i + 1);
            proof {
                assert(pre1.drop_last() =~= pre);
                assert(pre1.last() == all@[i as int]@);
                lemma_dedup_contains(pre, all@[i as int]@);
            }
            if !contains_string(&out, &all[i]) {
                let ghost outv = strs_v(out@);
                out.push(all[i].clone());
                proof {
                    assert(strs_v(out@) =~= outv.push(all@[i as int]@));
                }
            }
            i = i + 1;
        }
        proof {
            assert(allv.subrange(0, allv.len() as int) =~= allv);
        }
        Ok(out)
    }

    /// Parses a JSON document into an expression tree. Fails exactly on an
    /// object whose single key is not an operator, naming that key.
    pub fn from_json(json: &Json) -> (r: Result<Expression, String>)
        ensures
            r matches Ok(e) ==> parse_rule(json@) == Ok::<_, Seq<char>>(e@),
            r matches Err(m) ==> (parse_rule(json@) matches Err(k) && m@ == unrecognized_msg(k)),
        decreases json, 0int,
    {
        let o = match json {
            Json::Obj(o) => o,
            _ => {
                return Ok(Expression::Constant(json.clone()));
            },
        };
        if o.len() != 1 {
            return Ok(Expression::Constant(json.clone()));
        }
        proof {
            assert(evs(o@)[0] == (o@[0].key@, jv(o@[0].value)));
        }
        let operator_key = &o[0].key;
        let value = &o[0].value;
        let operator = match Operator::from_str(operator_key.as_str()) {
            Some(op) => op,
            None => {
                let mut msg = String::from_str("Unrecognized operation ");
                msg.append(operator_key.as_str());
                return Err(msg);
            },
        };
        let arguments: Vec<Expression> = match value {
            Json::Arr(arr) => {
                proof {
                    assert(jvs(arr@).subrange(0, arr@.len() as int) =~= jvs(arr@));
                }
                let es = match children_from_json(arr, 0) {
                    Ok(es) => es,
                    Err(m) => {
                        return Err(m);
                    },
                };
                es
            },
            Json::Null => Vec::new(),
            _ => {
                let child = match Expression::from_json(value) {
                    Ok(e) => e,
                    Err(m) => {
                        return Err(m);
                    },
                };
                let mut es: Vec<Expression> = Vec::new();
                es.push(child);
                proof {
                    assert(exprs_v(es@) =~= seq![child@]);
                }
                es
            },
        };
        let r = Expression::Computed(operator, arguments);
        proof {
            broadcast use lemma_ev_comp;

            assert(exprs_v(Seq::<Expression>::empty()) =~= Seq::<ExprV>::empty());
        }
        Ok(r)
    }
}

/// The view of each name of a list.
pub open spec fn strs_v(names: Seq<String>) -> Seq<Seq<char>> {
    Seq::new(names.len(), |i: int| names[i]@)
}

/// The names reachable under `var` in traversal order, with repetitions;
/// or the error text for a `var` whose name cannot be read statically.
pub open spec fn var_names(e: ExprV) -> Result<Seq<Seq<char>>, Seq<char>>
    decreases e, 0int,
{
    match e {
        ExprV::Const(_) => Ok(Seq::empty()),
        ExprV::Comp(op, args) => {
            if op is Variable {
                if args.len() == 0 {
                    Err(("found Variable operator without arguments")@)
                } else {
                    match args[0] {
                        ExprV::Const(v) => match v {
                            JsonV::Str(s) => Ok(seq![s]),
                            _ => Err(("found Variable operator with non string argument")@),
                        },
                        _ => Err(("found Variable operator with non static argument")@),
                    }
                }
            } else {
                var_names_list(args, 0)
            }
        },
    }
}

/// The names under the expressions from `i` on, or the first error.
pub open spec fn var_names_list(args: Seq<ExprV>, i: int) -> Result<Seq<Seq<char>>, Seq<char>>
    decreases args, args.len() - i + 1,
{
    if !(0 <= i < args.len()) {
        Ok(Seq::empty())
    } else {
        match var_names(args[i]) {
            Err(m) => Err(m),
            Ok(head) => match var_names_list(args, i + 1) {
                Err(m) => Err(m),
                Ok(tail) => Ok(head + tail),
            },
        }
    }
}

/// The names with later repetitions dropped: each name keeps its first
/// occurrence only.
pub open spec fn dedup_names(s: Seq<Seq<char>>) -> Seq<Seq<char>>
    decreases s.len(),
{
    if s.len() == 0 {
        Seq::empty()
    } else {
        let front = dedup_names(s.drop_last());
        if s.drop_last().contains(s.last()) {
            front
        } else {
            front.push(s.last())
        }
    }
}

/// A deduplicated list holds a name exactly when the original does.
pub proof fn lemma_dedup_contains(s: Seq<Seq<char>>, x: Seq<char>)
    ensures
        dedup_names(s).contains(x) == s.contains(x),
    decreases s.len(),
{
    if s.len() > 0 {
        lemma_dedup_contains(s.drop_last(), x);
        let front = dedup_names(s.drop_last());
        if s.contains(x) {
            let i = choose|i: int| 0 <= i < s.len() && s[i] == x;
            if i < s.len() - 1 {
                assert(s.drop_last()[i] == x);
                assert(s.drop_last().contains(x));
            }
            if s.drop_last().contains(x) {
                assert(dedup_names(s).contains(x)) by {
                    if !s.drop_last().contains(s.last()) {
                        let j = choose|j: int| 0 <= j < front.len() && front[j] == x;
                        assert(dedup_names(s)[j] == x);
                    }
                }
            } else {
                assert(s.last() == x);
                assert(dedup_names(s).last() == x);
            }
        } else {
            if dedup_names(s).contains(x) {
                let j = choose|j: int| 0 <= j < dedup_names(s).len() && dedup_names(s)[j] == x;
                if j < front.len() {
                    assert(front.contains(x));
                    assert(s.drop_last().contains(x));
                    let k = choose|k: int| 0 <= k < s.drop_last().len() && s.drop_last()[k] == x;
                    assert(s[k] == x);
                } else {
                    assert(s.last() == x);
                    assert(s.contains(x)) by {
                        assert(s[s.len() - 1] == x);
                    }
                }
            }
        }
    }
}

/// Whether the list holds this name.
fn contains_string(v: &Vec<String>, x: &String) -> (r: bool)
    ensures
        r == strs_v(v@).contains(x@),
{
    let mut i: usize = 0;
    while i < v.len()
        invariant
            0 <= i <= v@.len(),
            forall|k: int| 0 <= k < i ==> strs_v(v@)[k] != x@,
        decreases v@.len() - i,
    {
        if v[i] == *x {
            proof {
                assert(strs_v(v@)[i as int] == x@);
            }
            return true;
        }
        i = i + 1;
    }
    proof {
        if strs_v(v@).contains(x@) {
            let j = choose|j: int| 0 <= j < strs_v(v@).len() && strs_v(v@)[j] == x@;
            assert(strs_v(v@)[j] != x@);
        }
    }
    false
}

/// The names under the expressions from `i` on, with repetitions, or the
/// first error.
fn collect_list(args: &Vec<Expression>, i: usize) -> (r: Result<Vec<String>, String>)
    requires
        i <= args@.len(),
    ensures
        r matches Ok(v) ==> var_names_list(exprs_v(args@), i as int) == Ok::<_, Seq<char>>(
            strs_v(v@),
        ),
        r matches Err(m) ==> var_names_list(exprs_v(args@), i as int) == Err::<
            Seq<Seq<char>>,
            _,
        >(m@),
    decreases args, args@.len() - i + 1,
{
    if i >= args.len() {
        let r: Vec<String> = Vec::new();
        proof {
            assert(strs_v(r@) =~= Seq::<Seq<char>>::empty());
        }
        return Ok(r);
    }
    proof {
        assert(exprs_v(args@)[i as int] == args@[i as int]@);
    }
    let mut head = match collect_names(&args[i]) {
        Ok(h) => h,
        Err(m) => {
            return Err(m);
        },
    };
    let ghost headv = strs_v(head@);
    match collect_list(args, i + 1) {
        Ok(mut tail) => {
            let ghost tailv = strs_v(tail@);
            head.append(&mut tail);
            proof {
                assert(strs_v(head@) =~= headv + tailv);
            }
            Ok(head)
        },
        Err(m) => Err(m),
    }
}

/// The names reachable under `var`, in traversal order with repetitions.
fn collect_names(e: &Expression) -> (r: Result<Vec<String>, String>)
    ensures
        r matches Ok(v) ==> var_names(e@) == Ok::<_, Seq<char>>(strs_v(v@)),
        r matches Err(m) ==> var_names(e@) == Err::<Seq<Seq<char>>, _>(m@),
    decreases e, 0int,
{
    match e {
        Expression::Constant(_) => {
            let r: Vec<String> = Vec::new();
            proof {
                assert(strs_v(r@) =~= Seq::<Seq<char>>::empty());
            }
            Ok(r)
        },
        Expression::Computed(op, args) => {
            proof {
                broadcast use lemma_ev_comp;

            }
            if *op == Operator::Variable {
                if args.len() == 0 {
                    return Err(String::from_str("found Variable operator without arguments"));
                }
                proof {
                    assert(exprs_v(args@)[0] == args@[0]@);
                }
                match &args[0] {
                    Expression::Constant(v) => match v {
                        Json::Str(s) => {
                            let mut out: Vec<String> = Vec::new();
                            out.push(s.clone());
                            proof {
                                assert(strs_v(out@) =~= seq![s@]);
                            }
                            Ok(out)
                        },
                        _ => Err(
                            String::from_str("found Variable operator with non string argument"),
                        ),
                    },
                    _ => Err(String::from_str("found Variable operator with non static argument")),
                }
            } else {
                collect_list(args, 0)
            }
        },
    }
}

/// The error and result surface of the static `var`-name analysis.
pub open spec fn variable_names_spec(rule: JsonV) -> Result<Seq<Seq<char>>, Seq<char>> {
    match parse_rule(rule) {
        Err(k) => Err(unrecognized_msg(k)),
        Ok(e) => match var_names(e) {
            Err(m) => Err(m),
            Ok(all) => Ok(dedup_names(all)),
        },
    }
}

} // verus!
