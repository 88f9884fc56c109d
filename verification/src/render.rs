//! Deterministic structural rendering of trees.
//!
//! Rendering is a pure function of the payload: locations never appear in
//! the output, every variant (including `Error`) has a defined textual form,
//! and composite forms render as ordered, labeled groupings. The spec
//! functions here state the exact text; the exec methods are proved to
//! return it.

use vstd::prelude::*;

use crate::ast::Ast;
use crate::ast::Const;
use crate::ast::Expr;
use crate::ast::Expr_;
use crate::ast::Loc;
use crate::ast::OpInfix;
use crate::ast::OpPostfix;
use crate::ast::OpPrefix;
use crate::ast::Stat;
use crate::ast::Stat_;

verus! {

/// The rendered tag of an infix operator.
pub open spec fn op_infix_text(op: OpInfix) -> Seq<char> {
    match op {
        OpInfix::Assign => "Assign"@,
        OpInfix::Range => "Range"@,
        OpInfix::Or => "Or"@,
        OpInfix::And => "And"@,
        OpInfix::Eq => "Eq"@,
        OpInfix::Ne => "Ne"@,
        OpInfix::Le => "Le"@,
        OpInfix::Lt => "Lt"@,
        OpInfix::Ge => "Ge"@,
        OpInfix::Gt => "Gt"@,
        OpInfix::Plus => "Plus"@,
        OpInfix::Minus => "Minus"@,
        OpInfix::Mul => "Mul"@,
        OpInfix::Div => "Div"@,
        OpInfix::DivFloor => "DivFloor"@,
        OpInfix::Mod => "Mod"@,
        OpInfix::Exp => "Exp"@,
        OpInfix::Comma => "Comma"@,
        OpInfix::Member => "Member"@,
    }
}

/// The rendered tag of a prefix operator.
pub open spec fn op_prefix_text(op: OpPrefix) -> Seq<char> {
    match op {
        OpPrefix::Not => "Not"@,
        OpPrefix::Neg => "Neg"@,
    }
}

/// The rendered tag of a postfix operator kind.
pub open spec fn op_postfix_text(op: OpPostfix) -> Seq<char> {
    match op {
        OpPostfix::Index => "Index"@,
        OpPostfix::Call => "Call"@,
    }
}

impl OpInfix {
    pub fn name(&self) -> (r: &'static str)
        ensures
            r@ == op_infix_text(*self),
    {
        match self {
            OpInfix::Assign => "Assign",
            OpInfix::Range => "Range",
            OpInfix::Or => "Or",
            OpInfix::And => "And",
            OpInfix::Eq => "Eq",
            OpInfix::Ne => "Ne",
            OpInfix::Le => "Le",
            OpInfix::Lt => "Lt",
            OpInfix::Ge => "Ge",
            OpInfix::Gt => "Gt",
            OpInfix::Plus => "Plus",
            OpInfix::Minus => "Minus",
            OpInfix::Mul => "Mul",
            OpInfix::Div => "Div",
            OpInfix::DivFloor => "DivFloor",
            OpInfix::Mod => "Mod",
            OpInfix::Exp => "Exp",
            OpInfix::Comma => "Comma",
            OpInfix::Member => "Member",
        }
    }
}

impl OpPrefix {
    pub fn name(&self) -> (r: &'static str)
        ensures
            r@ == op_prefix_text(*self),
    {
        match self {
            OpPrefix::Not => "Not",
            OpPrefix::Neg => "Neg",
        }
    }
}

impl OpPostfix {
    pub fn name(&self) -> (r: &'static str)
        ensures
            r@ == op_postfix_text(*self),
    {
        match self {
            OpPostfix::Index => "Index",
            OpPostfix::Call => "Call",
        }
    }
}

/// The rendered form of one decimal digit; `d` is meant to lie below ten.
pub open spec fn digit_text(d: nat) -> Seq<char> {
    if d == 0 {
        "0"@
    } else if d == 1 {
        "1"@
    } else if d == 2 {
        "2"@
    } else if d == 3 {
        "3"@
    } else if d == 4 {
        "4"@
    } else if d == 5 {
        "5"@
    } else if d == 6 {
        "6"@
    } else if d == 7 {
        "7"@
    } else if d == 8 {
        "8"@
    } else {
        "9"@
    }
}

/// The usual decimal rendering of a natural number, most significant digit
/// first, without leading zeros (a single `0` for zero).
pub open spec fn dec_text(n: nat) -> Seq<char>
    decreases n,
{
    if n < 10 {
        digit_text(n)
    } else {
        dec_text(n / 10) + digit_text(n % 10)
    }
}

/// The decimal rendering of an integer: a `-` sign for negative values,
/// then the magnitude.
pub open spec fn int_text(i: int) -> Seq<char> {
    if i < 0 {
        "-"@ + dec_text((-i) as nat)
    } else {
        dec_text(i as nat)
    }
}

/// The rendered form of a statement: its payload's form. The location is
/// never rendered.
pub open spec fn stat_text(s: Stat) -> Seq<char>
    decreases s, 2int,
{
    stat_val_text(s.val)
}

/// The rendered form of a statement payload.
pub open spec fn stat_val_text(v: Stat_) -> Seq<char>
    decreases v, 2int,
{
    match v {
        Stat_::Expr(e) => "(expr "@ + expr_text(e) + ")"@,
        Stat_::Continue => "(continue)"@,
        Stat_::Break => "(break)"@,
        Stat_::Return(opt) => match opt {
            Option::Some(e) => "(return "@ + expr_text(e) + ")"@,
            Option::None => "(return)"@,
        },
        Stat_::Class(name, fields, methods) => "(class "@ + name@ + " ["@ + fields_text(
            fields@,
            0,
        ) + "] ["@ + exprs_text(methods@, 0) + "])"@,
        Stat_::Loop(cond, body) => match cond {
            Option::Some(c) => "(loop "@ + expr_text(c) + " ["@ + stats_text(body@, 0) + "])"@,
            Option::None => "(loop ["@ + stats_text(body@, 0) + "])"@,
        },
        Stat_::For(vars, iter, body) => "(for "@ + expr_text(*vars) + " in "@ + expr_text(*iter)
            + " ["@ + stats_text(body@, 0) + "])"@,
        Stat_::Error => "(error)"@,
    }
}

/// The rendered form of an expression: its payload's form. The location is
/// never rendered.
pub open spec fn expr_text(e: Expr) -> Seq<char>
    decreases e, 2int,
{
    expr_val_text(e.val)
}

/// The rendered form of an expression payload. A named function definition
/// renders under the `def` label, an anonymous one under `lambda`, so the
/// two forms stay distinguishable.
pub open spec fn expr_val_text(v: Expr_) -> Seq<char>
    decreases v, 2int,
{
    match v {
        Expr_::Block(b) => "(block ["@ + stats_text(b@, 0) + "])"@,
        Expr_::If(chain) => "(if ["@ + exprs_text(chain@, 0) + "])"@,
        Expr_::Prefix(op, e) => "("@ + op_prefix_text(op) + " "@ + expr_text(*e) + ")"@,
        Expr_::Call(f, args) => "(call "@ + expr_text(*f) + " ["@ + exprs_text(args@, 0) + "])"@,
        Expr_::Index(t, i) => "(index "@ + expr_text(*t) + " "@ + expr_text(*i) + ")"@,
        Expr_::Infix(op, l, r) => "("@ + op_infix_text(op) + " "@ + expr_text(*l) + " "@
            + expr_text(*r) + ")"@,
        Expr_::Def(name, params, body, binds) => match name {
            Option::Some(n) => "(def "@ + n@ + " ["@ + names_text(params@, 0) + "] ["@
                + stats_text(body@, 0) + "] ["@ + binds_text(binds@, 0) + "])"@,
            Option::None => "(lambda ["@ + names_text(params@, 0) + "] ["@ + stats_text(body@, 0)
                + "] ["@ + binds_text(binds@, 0) + "])"@,
        },
        Expr_::Id(id) => "(id "@ + id@ + ")"@,
        Expr_::Parentheses(e) => "(paren "@ + expr_text(*e) + ")"@,
        Expr_::Const(c) => const_text(c),
        Expr_::Error => "(error)"@,
    }
}

/// The rendered form of a constant literal.
pub open spec fn const_text(c: Const) -> Seq<char>
    decreases c, 2int,
{
    match c {
        Const::Int(i) => int_text(i as int),
        Const::Float(bits) => "(float "@ + dec_text(bits as nat) + ")"@,
        Const::Str(s) => "(str "@ + s@ + ")"@,
        Const::Bool(b) => if b {
            "true"@
        } else {
            "false"@
        },
        Const::List(l) => "(list ["@ + exprs_text(l@, 0) + "])"@,
        Const::SetLit(l) => "(set ["@ + exprs_text(l@, 0) + "])"@,
        Const::Dict(keys, vals) => "(dict ["@ + exprs_text(keys@, 0) + "] ["@ + exprs_text(
            vals@,
            0,
        ) + "])"@,
        Const::Nil => "nil"@,
    }
}

/// The statements of `ss` from position `i` on, each rendered, joined by
/// `", "`.
pub open spec fn stats_text(ss: Seq<Stat>, i: nat) -> Seq<char>
    decreases ss, ss.len() - i,
{
    if i >= ss.len() {
        Seq::empty()
    } else if i + 1 == ss.len() {
        stat_text(ss[i as int])
    } else {
        stat_text(ss[i as int]) + ", "@ + stats_text(ss, i + 1)
    }
}

/// The expressions of `es` from position `i` on, each rendered, joined by
/// `", "`.
pub open spec fn exprs_text(es: Seq<Expr>, i: nat) -> Seq<char>
    decreases es, es.len() - i,
{
    if i >= es.len() {
        Seq::empty()
    } else if i + 1 == es.len() {
        expr_text(es[i as int])
    } else {
        expr_text(es[i as int]) + ", "@ + exprs_text(es, i + 1)
    }
}

/// The capture pairs of `bs` from position `i` on, each rendered as
/// `(bind name initializer)`, joined by `", "`.
pub open spec fn binds_text(bs: Seq<(String, Expr)>, i: nat) -> Seq<char>
    decreases bs, bs.len() - i,
{
    if i >= bs.len() {
        Seq::empty()
    } else if i + 1 == bs.len() {
        bind_text(bs[i as int])
    } else {
        bind_text(bs[i as int]) + ", "@ + binds_text(bs, i + 1)
    }
}

/// The rendered form of one capture pair.
pub open spec fn bind_text(b: (String, Expr)) -> Seq<char>
    decreases b, 2int,
{
    "(bind "@ + b.0@ + " "@ + expr_text(b.1) + ")"@
}

/// The names of `ns` from position `i` on, joined by `", "`.
pub open spec fn names_text(ns: Seq<String>, i: nat) -> Seq<char>
    decreases ns.len() - i,
{
    if i >= ns.len() {
        Seq::empty()
    } else if i + 1 == ns.len() {
        ns[i as int]@
    } else {
        ns[i as int]@ + ", "@ + names_text(ns, i + 1)
    }
}

/// The field names of `fs` from position `i` on, joined by `", "`. Only the
/// names are rendered; the per-field locations are not.
pub open spec fn fields_text(fs: Seq<(String, Loc)>, i: nat) -> Seq<char>
    decreases fs.len() - i,
{
    if i >= fs.len() {
        Seq::empty()
    } else if i + 1 == fs.len() {
        fs[i as int].0@
    } else {
        fs[i as int].0@ + ", "@ + fields_text(fs, i + 1)
    }
}

/// The rendered form of a whole tree: its top-level statements in source
/// order, joined by `", "`, inside brackets.
pub open spec fn ast_text(a: Ast) -> Seq<char> {
    "["@ + stats_text(a.statements@, 0) + "]"@
}

/// Rendering is deterministic: the rendered text is a pure function of the
/// tree, so rendering the same tree twice yields identical text. Since
/// `Ast::render` returns exactly `ast_text` of its input, any two renderings
/// of one tree agree.
pub proof fn lemma_render_deterministic(a: Ast, r1: Seq<char>, r2: Seq<char>)
    requires
        r1 == ast_text(a),
        r2 == ast_text(a),
    ensures
        r1 == r2,
{
}

/// An anonymous function definition (`name = None`) renders distinguishably
/// from every named one: the two forms never share a rendered text, whatever
/// their parameters, bodies and captures.
pub proof fn lemma_anonymous_def_distinct(
    params1: Vec<String>,
    body1: Vec<Stat>,
    binds1: Vec<(String, Expr)>,
    name: String,
    params2: Vec<String>,
    body2: Vec<Stat>,
    binds2: Vec<(String, Expr)>,
)
    ensures
        expr_val_text(Expr_::Def(Option::None, params1, body1, binds1)) != expr_val_text(
            Expr_::Def(Option::Some(name), params2, body2, binds2),
        ),
{
    reveal_strlit("(lambda [");
    reveal_strlit("(def ");
    let a = expr_val_text(Expr_::Def(Option::None, params1, body1, binds1));
    let b = expr_val_text(Expr_::Def(Option::Some(name), params2, body2, binds2));
    assert(a[1] == 'l');
    assert(b[1] == 'd');
}

fn digit_str(d: u64) -> (r: &'static str)
    requires
        d < 10,
    ensures
        r@ == digit_text(d as nat),
{
    if d == 0 {
        "0"
    } else if d == 1 {
        "1"
    } else if d == 2 {
        "2"
    } else if d == 3 {
        "3"
    } else if d == 4 {
        "4"
    } else if d == 5 {
        "5"
    } else if d == 6 {
        "6"
    } else if d == 7 {
        "7"
    } else if d == 8 {
        "8"
    } else {
        "9"
    }
}

fn render_u64(n: u64) -> (r: String)
    ensures
        r@ == dec_text(n as nat),
    decreases n,
{
    if n < 10 {
        String::from_str(digit_str(n))
    } else {
        let mut s = render_u64(n / 10);
        s.append(digit_str(n % 10));
        s
    }
}

fn render_i64(i: i64) -> (r: String)
    ensures
        r@ == int_text(i as int),
{
    if i >= 0 {
        render_u64(i as u64)
    } else {
        let mag: u64 = if i == i64::MIN {
            9223372036854775808u64
        } else {
            (-i) as u64
        };
        assert(mag as nat == (-(i as int)) as nat);
        let mut s = String::from_str("-");
        let digits = render_u64(mag);
        s.append(digits.as_str());
        s
    }
}

impl Stat {
    /// Renders this statement; the text is exactly `stat_text` of it.
    pub fn render(&self) -> (r: String)
        ensures
            r@ == stat_text(*self),
        decreases *self, 2int,
    {
        match &self.val {
            Stat_::Expr(e) => {
                let mut s = String::from_str("(expr ");
                let inner = e.render();
                s.append(inner.as_str());
                s.append(")");
                s
            },
            Stat_::Continue => String::from_str("(continue)"),
            Stat_::Break => String::from_str("(break)"),
            Stat_::Return(opt) => match opt {
                Option::Some(e) => {
                    let mut s = String::from_str("(return ");
                    let inner = e.render();
                    s.append(inner.as_str());
                    s.append(")");
                    s
                },
                Option::None => String::from_str("(return)"),
            },
            Stat_::Class(name, fields, methods) => {
                let mut s = String::from_str("(class ");
                s.append(name.as_str());
                s.append(" [");
                let fs = render_fields_from(fields, 0);
                s.append(fs.as_str());
                s.append("] [");
                let ms = render_exprs_from(methods, 0);
                s.append(ms.as_str());
                s.append("])");
                s
            },
            Stat_::Loop(cond, body) => match cond {
                Option::Some(c) => {
                    let mut s = String::from_str("(loop ");
                    let ct = c.render();
                    s.append(ct.as_str());
                    s.append(" [");
                    let bt = render_stats_from(body, 0);
                    s.append(bt.as_str());
                    s.append("])");
                    s
                },
                Option::None => {
                    let mut s = String::from_str("(loop [");
                    let bt = render_stats_from(body, 0);
                    s.append(bt.as_str());
                    s.append("])");
                    s
                },
            },
            Stat_::For(vars, iter, body) => {
                let mut s = String::from_str("(for ");
                let vt = vars.render();
                s.append(vt.as_str());
                s.append(" in ");
                let it = iter.render();
                s.append(it.as_str());
                s.append(" [");
                let bt = render_stats_from(body, 0);
                s.append(bt.as_str());
                s.append("])");
                s
            },
            Stat_::Error => String::from_str("(error)"),
        }
    }
}

impl Expr {
    /// Renders this expression; the text is exactly `expr_text` of it.
    pub fn render(&self) -> (r: String)
        ensures
            r@ == expr_text(*self),
        decreases *self, 2int,
    {
        match &self.val {
            Expr_::Block(b) => {
                let mut s = String::from_str("(block [");
                let bt = render_stats_from(b, 0);
                s.append(bt.as_str());
                s.append("])");
                s
            },
            Expr_::If(chain) => {
                let mut s = String::from_str("(if [");
                let ct = render_exprs_from(chain, 0);
                s.append(ct.as_str());
                s.append("])");
                s
            },
            Expr_::Prefix(op, e) => {
                let mut s = String::from_str("(");
                s.append(op.name());
                s.append(" ");
                let et = e.render();
                s.append(et.as_str());
                s.append(")");
                s
            },
            Expr_::Call(f, args) => {
                let mut s = String::from_str("(call ");
                let ft = f.render();
                s.append(ft.as_str());
                s.append(" [");
                let at = render_exprs_from(args, 0);
                s.append(at.as_str());
                s.append("])");
                s
            },
            Expr_::Index(t, i) => {
                let mut s = String::from_str("(index ");
                let tt = t.render();
                s.append(tt.as_str());
                s.append(" ");
                let it = i.render();
                s.append(it.as_str());
                s.append(")");
                s
            },
            Expr_::Infix(op, l, r) => {
                let mut s = String::from_str("(");
                s.append(op.name());
                s.append(" ");
                let lt = l.render();
                s.append(lt.as_str());
                s.append(" ");
                let rt = r.render();
                s.append(rt.as_str());
                s.append(")");
                s
            },
            Expr_::Def(name, params, body, binds) => match name {
                Option::Some(n) => {
                    let mut s = String::from_str("(def ");
                    s.append(n.as_str());
                    s.append(" [");
                    let pt = render_names_from(params, 0);
                    s.append(pt.as_str());
                    s.append("] [");
                    let bt = render_stats_from(body, 0);
                    s.append(bt.as_str());
                    s.append("] [");
                    let ct = render_binds_from(binds, 0);
                    s.append(ct.as_str());
                    s.append("])");
                    s
                },
                Option::None => {
                    let mut s = String::from_str("(lambda [");
                    let pt = render_names_from(params, 0);
                    s.append(pt.as_str());
                    s.append("] [");
                    let bt = render_stats_from(body, 0);
                    s.append(bt.as_str());
                    s.append("] [");
                    let ct = render_binds_from(binds, 0);
                    s.append(ct.as_str());
                    s.append("])");
                    s
                },
            },
            Expr_::Id(id) => {
                let mut s = String::from_str("(id ");
                s.append(id.as_str());
                s.append(")");
                s
            },
            Expr_::Parentheses(e) => {
                let mut s = String::from_str("(paren ");
                let et = e.render();
                s.append(et.as_str());
                s.append(")");
                s
            },
            Expr_::Const(c) => c.render(),
            Expr_::Error => String::from_str("(error)"),
        }
    }
}

impl Const {
    /// Renders this constant literal; the text is exactly `const_text` of it.
    pub fn render(&self) -> (r: String)
        ensures
            r@ == const_text(*self),
        decreases *self, 2int,
    {
        match self {
            Const::Int(i) => render_i64(*i),
            Const::Float(bits) => {
                let mut s = String::from_str("(float ");
                let bt = render_u64(*bits);
                s.append(bt.as_str());
                s.append(")");
                s
            },
            Const::Str(st) => {
                let mut s = String::from_str("(str ");
                s.append(st.as_str());
                s.append(")");
                s
            },
            Const::Bool(b) => if *b {
                String::from_str("true")
            } else {
                String::from_str("false")
            },
            Const::List(l) => {
                let mut s = String::from_str("(list [");
                let lt = render_exprs_from(l, 0);
                s.append(lt.as_str());
                s.append("])");
                s
            },
            Const::SetLit(l) => {
                let mut s = String::from_str("(set [");
                let lt = render_exprs_from(l, 0);
                s.append(lt.as_str());
                s.append("])");
                s
            },
            Const::Dict(keys, vals) => {
                let mut s = String::from_str("(dict [");
                let kt = render_exprs_from(keys, 0);
                s.append(kt.as_str());
                s.append("] [");
                let vt = render_exprs_from(vals, 0);
                s.append(vt.as_str());
                s.append("])");
                s
            },
            Const::Nil => String::from_str("nil"),
        }
    }
}

impl Ast {
    /// Renders the whole tree; the text is exactly `ast_text` of it.
    pub fn render(&self) -> (r: String)
        ensures
            r@ == ast_text(*self),
    {
        let mut s = String::from_str("[");
        let st = render_stats_from(&self.statements, 0);
        s.append(st.as_str());
        s.append("]");
        s
    }
}

fn render_stats_from(ss: &Vec<Stat>, i: usize) -> (r: String)
    ensures
        r@ == stats_text(ss@, i as nat),
    decreases ss@, ss@.len() - i,
{
    if i >= ss.len() {
        String::new()
    } else {
        let mut s = ss[i].render();
        if i + 1 < ss.len() {
            s.append(", ");
            let rest = render_stats_from(ss, i + 1);
            s.append(rest.as_str());
        }
        s
    }
}

fn render_exprs_from(es: &Vec<Expr>, i: usize) -> (r: String)
    ensures
        r@ == exprs_text(es@, i as nat),
    decreases es@, es@.len() - i,
{
    if i >= es.len() {
        String::new()
    } else {
        let mut s = es[i].render();
        if i + 1 < es.len() {
            s.append(", ");
            let rest = render_exprs_from(es, i + 1);
            s.append(rest.as_str());
        }
        s
    }
}

fn render_binds_from(bs: &Vec<(String, Expr)>, i: usize) -> (r: String)
    ensures
        r@ == binds_text(bs@, i as nat),
    decreases bs@, bs@.len() - i,
{
    if i >= bs.len() {
        String::new()
    } else {
        let pair = &bs[i];
        let mut s = String::from_str("(bind ");
        s.append(pair.0.as_str());
        s.append(" ");
        let et = pair.1.render();
        s.append(et.as_str());
        s.append(")");
        assert(s@ == bind_text(bs@[i as int]));
        if i + 1 < bs.len() {
            s.append(", ");
            let rest = render_binds_from(bs, i + 1);
            s.append(rest.as_str());
        }
        s
    }
}

fn render_names_from(ns: &Vec<String>, i: usize) -> (r: String)
    ensures
        r@ == names_text(ns@, i as nat),
    decreases ns@.len() - i,
{
    if i >= ns.len() {
        String::new()
    } else {
        let mut s = String::new();
        s.append(ns[i].as_str());
        if i + 1 < ns.len() {
            s.append(", ");
            let rest = render_names_from(ns, i + 1);
            s.append(rest.as_str());
        }
        s
    }
}

fn render_fields_from(fs: &Vec<(String, Loc)>, i: usize) -> (r: String)
    ensures
        r@ == fields_text(fs@, i as nat),
    decreases fs@.len() - i,
{
    if i >= fs.len() {
        String::new()
    } else {
        let mut s = String::new();
        s.append(fs[i].0.as_str());
        if i + 1 < fs.len() {
            s.append(", ");
            let rest = render_fields_from(fs, i + 1);
            s.append(rest.as_str());
        }
        s
    }
}

} // verus!
