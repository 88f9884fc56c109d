//! The tree's node types: statements, expressions, operators and literals.

use vstd::prelude::*;

verus! {

/// A source span, supplied by the producer (parser/lexer) when a node is
/// built and never recomputed by this module. It is carried for diagnostics
/// only and takes no part in rendering or structural comparison.
#[derive(Clone, Copy, Debug, PartialEq, Eq, Structural)]
pub struct Loc {
    pub start: usize,
    pub end: usize,
}

/// Statement payloads.
pub enum Stat_ {
    Expr(Expr),
    Continue,
    Break,
    Return(Option<Expr>),
    /// Name, fields in source order, methods in source order.
    Class(String, Vec<(String, Loc)>, Vec<Expr>),
    /// An optional break condition & a body.
    Loop(Option<Expr>, Vec<Stat>),
    /// Bound variables, iterable, body.
    For(Box<Expr>, Box<Expr>, Vec<Stat>),
    /// A statement the parser could not construct.
    Error,
}

/// A statement: a source location paired with a payload.
pub struct Stat {
    pub loc: Loc,
    pub val: Stat_,
}

impl Stat {
    pub fn new(val: Stat_, loc: Loc) -> (s: Stat)
        ensures
            s.val == val,
            s.loc == loc,
    {
        Stat { loc, val }
    }
}

/// Infix operators, pure tags: precedence and associativity live in the
/// producer, semantics in the consumer. `Assign`, `Member` and `Comma` share
/// the infix shape; consumers dispatch on the tag.
#[derive(Clone, Copy, Debug, PartialEq, Eq, Structural)]
pub enum OpInfix {
    Assign,
    Range,
    Or,
    And,
    Eq,
    Ne,
    Le,
    Lt,
    Ge,
    Gt,
    Plus,
    Minus,
    Mul,
    Div,
    DivFloor,
    Mod,
    Exp,
    Comma,
    Member,
}

/// Prefix operators, pure tags.
#[derive(Clone, Copy, Debug, PartialEq, Eq, Structural)]
pub enum OpPrefix {
    Not,
    Neg,
}

/// Postfix operator kinds, pure tags.
#[derive(Clone, Copy, Debug, PartialEq, Eq, Structural)]
pub enum OpPostfix {
    Index,
    Call,
}

/// Expression payloads.
pub enum Expr_ {
    /// An ordered sequence of statements; the backend decides which one, if
    /// any, is the block's value.
    Block(Vec<Stat>),
    /// An `if..then..elsif..then..else..end` flattened in order: condition,
    /// body, condition, body, ..., with an optional trailing else body.
    If(Vec<Expr>),
    Prefix(OpPrefix, Box<Expr>),
    Call(Box<Expr>, Vec<Expr>),
    Index(Box<Expr>, Box<Expr>),
    Infix(OpInfix, Box<Expr>, Box<Expr>),
    /// A function definition: optional name (`None` marks a lambda),
    /// parameter names, body statements, and explicit capture pairs binding
    /// an enclosing-scope name to its initializer.
    Def(Option<String>, Vec<String>, Vec<Stat>, Vec<(String, Expr)>),
    Id(String),
    /// Kept distinct from its inner expression so source-faithful rendering
    /// and grouping-sensitive consumers can tell the two apart.
    Parentheses(Box<Expr>),
    Const(Const),
    /// An expression the parser could not construct.
    Error,
}

/// An expression: a source location paired with a payload.
pub struct Expr {
    pub loc: Loc,
    pub val: Expr_,
}

impl Expr {
    pub fn new(val: Expr_, loc: Loc) -> (e: Expr)
        ensures
            e.val == val,
            e.loc == loc,
    {
        Expr { loc, val }
    }
}

/// Constant literals. A floating-point literal is carried as the IEEE 754
/// bit pattern of the value, so the tree itself stays in plain integers;
/// the embedding converts at the boundary.
pub enum Const {
    Int(i64),
    Float(u64),
    Str(String),
    Bool(bool),
    List(Vec<Expr>),
    /// A set literal; duplicates are syntactically permitted and kept, any
    /// de-duplication is a backend concern.
    SetLit(Vec<Expr>),
    /// Keys and values as two parallel sequences of equal length; source
    /// order and duplicate keys are preserved at this layer.
    Dict(Vec<Expr>, Vec<Expr>),
    Nil,
}

/// The tree root: top-level statements in source order.
pub struct Ast {
    pub statements: Vec<Stat>,
}

impl Default for Ast {
    fn default() -> (a: Ast)
        ensures
            a.statements@.len() == 0,
    {
        Ast { statements: Vec::new() }
    }
}

/// Whether this statement holds an `Error` node anywhere, itself included.
pub open spec fn stat_has_error(s: Stat) -> bool
    decreases s, 2int,
{
    stat_val_has_error(s.val)
}

pub open spec fn stat_val_has_error(v: Stat_) -> bool
    decreases v, 2int,
{
    match v {
        Stat_::Expr(e) => expr_has_error(e),
        Stat_::Continue => false,
        Stat_::Break => false,
        Stat_::Return(opt) => match opt {
            Option::Some(e) => expr_has_error(e),
            Option::None => false,
        },
        Stat_::Class(_, _, methods) => exprs_have_error(methods@, 0),
        Stat_::Loop(cond, body) => (match cond {
            Option::Some(c) => expr_has_error(c),
            Option::None => false,
        }) || stats_have_error(body@, 0),
        Stat_::For(vars, iter, body) => expr_has_error(*vars) || expr_has_error(*iter)
            || stats_have_error(body@, 0),
        Stat_::Error => true,
    }
}

/// Whether this expression holds an `Error` node anywhere, itself included.
pub open spec fn expr_has_error(e: Expr) -> bool
    decreases e, 2int,
{
    expr_val_has_error(e.val)
}

pub open spec fn expr_val_has_error(v: Expr_) -> bool
    decreases v, 2int,
{
    match v {
        Expr_::Block(b) => stats_have_error(b@, 0),
        Expr_::If(chain) => exprs_have_error(chain@, 0),
        Expr_::Prefix(_, e) => expr_has_error(*e),
        Expr_::Call(f, args) => expr_has_error(*f) || exprs_have_error(args@, 0),
        Expr_::Index(t, i) => expr_has_error(*t) || expr_has_error(*i),
        Expr_::Infix(_, l, r) => expr_has_error(*l) || expr_has_error(*r),
        Expr_::Def(_, _, body, binds) => stats_have_error(body@, 0) || binds_have_error(binds@, 0),
        Expr_::Id(_) => false,
        Expr_::Parentheses(e) => expr_has_error(*e),
        Expr_::Const(c) => const_has_error(c),
        Expr_::Error => true,
    }
}

/// Whether this literal holds an `Error` node in one of its element
/// expressions.
pub open spec fn const_has_error(c: Const) -> bool
    decreases c, 2int,
{
    match c {
        Const::Int(_) => false,
        Const::Float(_) => false,
        Const::Str(_) => false,
        Const::Bool(_) => false,
        Const::List(l) => exprs_have_error(l@, 0),
        Const::SetLit(l) => exprs_have_error(l@, 0),
        Const::Dict(keys, vals) => exprs_have_error(keys@, 0) || exprs_have_error(vals@, 0),
        Const::Nil => false,
    }
}

pub open spec fn stats_have_error(ss: Seq<Stat>, i: nat) -> bool
    decreases ss, ss.len() - i,
{
    if i >= ss.len() {
        false
    } else {
        stat_has_error(ss[i as int]) || stats_have_error(ss, i + 1)
    }
}

pub open spec fn exprs_have_error(es: Seq<Expr>, i: nat) -> bool
    decreases es, es.len() - i,
{
    if i >= es.len() {
        false
    } else {
        expr_has_error(es[i as int]) || exprs_have_error(es, i + 1)
    }
}

pub open spec fn binds_have_error(bs: Seq<(String, Expr)>, i: nat) -> bool
    decreases bs, bs.len() - i,
{
    if i >= bs.len() {
        false
    } else {
        expr_has_error(bs[i as int].1) || binds_have_error(bs, i + 1)
    }
}

/// Whether the tree holds an `Error` node anywhere.
pub open spec fn ast_has_error(a: Ast) -> bool {
    stats_have_error(a.statements@, 0)
}

/// An `Error` node at any position of a statement sequence makes the whole
/// sequence report an error.
pub proof fn lemma_stats_error_at(ss: Seq<Stat>, i: nat, j: int)
    requires
        i <= j < ss.len(),
        stat_has_error(ss[j]),
    ensures
        stats_have_error(ss, i),
    decreases ss.len() - i,
{
    if i < j {
        lemma_stats_error_at(ss, i + 1, j);
    }
}

/// An `Error` node at any position of an expression sequence (call
/// arguments, an if chain, literal elements, class methods) makes the whole
/// sequence report an error.
pub proof fn lemma_exprs_error_at(es: Seq<Expr>, i: nat, j: int)
    requires
        i <= j < es.len(),
        expr_has_error(es[j]),
    ensures
        exprs_have_error(es, i),
    decreases es.len() - i,
{
    if i < j {
        lemma_exprs_error_at(es, i + 1, j);
    }
}

/// A tree with an erroneous statement at any top-level position holds an
/// error, so the compiler-acceptance check rejects it — while rendering,
/// which asks nothing of its input, still walks it in full.
pub proof fn lemma_error_statement_rejects_tree(a: Ast, j: int)
    requires
        0 <= j < a.statements@.len(),
        stat_has_error(a.statements@[j]),
    ensures
        ast_has_error(a),
{
    lemma_stats_error_at(a.statements@, 0, j);
}

/// Structural well-formedness of a statement: every dict literal below it
/// carries as many keys as values.
pub open spec fn stat_wf(s: Stat) -> bool
    decreases s, 2int,
{
    stat_val_wf(s.val)
}

pub open spec fn stat_val_wf(v: Stat_) -> bool
    decreases v, 2int,
{
    match v {
        Stat_::Expr(e) => expr_wf(e),
        Stat_::Continue => true,
        Stat_::Break => true,
        Stat_::Return(opt) => match opt {
            Option::Some(e) => expr_wf(e),
            Option::None => true,
        },
        Stat_::Class(_, _, methods) => forall|j: int|
            0 <= j < methods@.len() ==> expr_wf(#[trigger] methods@[j]),
        Stat_::Loop(cond, body) => (match cond {
            Option::Some(c) => expr_wf(c),
            Option::None => true,
        }) && (forall|j: int| 0 <= j < body@.len() ==> stat_wf(#[trigger] body@[j])),
        Stat_::For(vars, iter, body) => expr_wf(*vars) && expr_wf(*iter) && (forall|j: int|
            0 <= j < body@.len() ==> stat_wf(#[trigger] body@[j])),
        Stat_::Error => true,
    }
}

/// Structural well-formedness of an expression: every dict literal below it
/// carries as many keys as values.
pub open spec fn expr_wf(e: Expr) -> bool
    decreases e, 2int,
{
    expr_val_wf(e.val)
}

pub open spec fn expr_val_wf(v: Expr_) -> bool
    decreases v, 2int,
{
    match v {
        Expr_::Block(b) => forall|j: int| 0 <= j < b@.len() ==> stat_wf(#[trigger] b@[j]),
        Expr_::If(chain) => forall|j: int| 0 <= j < chain@.len() ==> expr_wf(#[trigger] chain@[j]),
        Expr_::Prefix(_, e) => expr_wf(*e),
        Expr_::Call(f, args) => expr_wf(*f) && (forall|j: int|
            0 <= j < args@.len() ==> expr_wf(#[trigger] args@[j])),
        Expr_::Index(t, i) => expr_wf(*t) && expr_wf(*i),
        Expr_::Infix(_, l, r) => expr_wf(*l) && expr_wf(*r),
        Expr_::Def(_, _, body, binds) => (forall|j: int|
            0 <= j < body@.len() ==> stat_wf(#[trigger] body@[j])) && (forall|j: int|
            0 <= j < binds@.len() ==> expr_wf(#[trigger] binds@[j].1)),
        Expr_::Id(_) => true,
        Expr_::Parentheses(e) => expr_wf(*e),
        Expr_::Const(c) => const_wf(c),
        Expr_::Error => true,
    }
}

/// Structural well-formedness of a literal. A dict literal is well-formed
/// exactly when its two parallel sequences have the same length and its
/// elements are well-formed; nothing here de-duplicates keys.
pub open spec fn const_wf(c: Const) -> bool
    decreases c, 2int,
{
    match c {
        Const::Int(_) => true,
        Const::Float(_) => true,
        Const::Str(_) => true,
        Const::Bool(_) => true,
        Const::List(l) => forall|j: int| 0 <= j < l@.len() ==> expr_wf(#[trigger] l@[j]),
        Const::SetLit(l) => forall|j: int| 0 <= j < l@.len() ==> expr_wf(#[trigger] l@[j]),
        Const::Dict(keys, vals) => keys@.len() == vals@.len() && (forall|j: int|
            0 <= j < keys@.len() ==> expr_wf(#[trigger] keys@[j])) && (forall|j: int|
            0 <= j < vals@.len() ==> expr_wf(#[trigger] vals@[j])),
        Const::Nil => true,
    }
}

/// Structural well-formedness of a whole tree.
pub open spec fn ast_wf(a: Ast) -> bool {
    forall|j: int| 0 <= j < a.statements@.len() ==> stat_wf(#[trigger] a.statements@[j])
}

/// Every dict literal carries as many keys as values: the well-formedness
/// of a dict literal states exactly that of its own two sequences.
pub proof fn lemma_dict_wf_lengths(keys: Vec<Expr>, vals: Vec<Expr>)
    requires
        const_wf(Const::Dict(keys, vals)),
    ensures
        keys@.len() == vals@.len(),
{
}

impl Const {
    /// Builds a dict literal from its two parallel sequences. The sequences
    /// are stored exactly as given: source order and duplicate keys are
    /// preserved.
    pub fn dict(keys: Vec<Expr>, values: Vec<Expr>) -> (c: Const)
        requires
            keys@.len() == values@.len(),
        ensures
            c == Const::Dict(keys, values),
    {
        Const::Dict(keys, values)
    }
}

/// Flattens an `if/elsif/.../else` chain into the ordered sequence an
/// `Expr_::If` node carries: condition, body, condition, body, ..., then
/// the optional trailing else body. With `n` condition/body pairs the
/// sequence has length `2n + 1` when an else body is present and `2n`
/// without one.
pub fn if_chain(pairs: Vec<(Expr, Expr)>, else_body: Option<Expr>) -> (v: Vec<Expr>)
    ensures
        v@.len() == 2 * pairs@.len() + if else_body is Some {
            1int
        } else {
            0int
        },
        forall|j: int| 0 <= j < pairs@.len() ==> v@[2 * j] == #[trigger] pairs@[j].0,
        forall|j: int| 0 <= j < pairs@.len() ==> v@[2 * j + 1] == #[trigger] pairs@[j].1,
        else_body is Some ==> v@[v@.len() - 1] == else_body->0,
{
    let ghost orig = pairs@;
    let mut rest = pairs;
    let mut items: Vec<Expr> = Vec::new();
    while rest.len() > 0
        invariant
            rest@.len() <= orig.len(),
            forall|j: int|
                0 <= j < rest@.len() ==> #[trigger] rest@[j] == orig[orig.len() - rest@.len() + j],
            items@.len() == 2 * (orig.len() - rest@.len()),
            forall|j: int|
                0 <= j < orig.len() - rest@.len() ==> items@[2 * j] == #[trigger] orig[j].0,
            forall|j: int|
                0 <= j < orig.len() - rest@.len() ==> items@[2 * j + 1] == #[trigger] orig[j].1,
        decreases rest@.len(),
    {
        let (c, b) = rest.remove(0);
        items.push(c);
        items.push(b);
    }
    if let Option::Some(e) = else_body {
        items.push(e);
    }
    items
}

impl Stat {
    /// Whether an `Error` node stands anywhere below (or at) this statement.
    pub fn has_error(&self) -> (r: bool)
        ensures
            r == stat_has_error(*self),
        decreases *self, 2int,
    {
        match &self.val {
            Stat_::Expr(e) => e.has_error(),
            Stat_::Continue => false,
            Stat_::Break => false,
            Stat_::Return(opt) => match opt {
                Option::Some(e) => e.has_error(),
                Option::None => false,
            },
            Stat_::Class(_, _, methods) => exprs_have_error_from(methods, 0),
            Stat_::Loop(cond, body) => {
                let in_cond = match cond {
                    Option::Some(c) => c.has_error(),
                    Option::None => false,
                };
                in_cond || stats_have_error_from(body, 0)
            },
            Stat_::For(vars, iter, body) => vars.has_error() || iter.has_error()
                || stats_have_error_from(body, 0),
            Stat_::Error => true,
        }
    }
}

impl Expr {
    /// Whether an `Error` node stands anywhere below (or at) this
    /// expression.
    pub fn has_error(&self) -> (r: bool)
        ensures
            r == expr_has_error(*self),
        decreases *self, 2int,
    {
        match &self.val {
            Expr_::Block(b) => stats_have_error_from(b, 0),
            Expr_::If(chain) => exprs_have_error_from(chain, 0),
            Expr_::Prefix(_, e) => e.has_error(),
            Expr_::Call(f, args) => f.has_error() || exprs_have_error_from(args, 0),
            Expr_::Index(t, i) => t.has_error() || i.has_error(),
            Expr_::Infix(_, l, r) => l.has_error() || r.has_error(),
            Expr_::Def(_, _, body, binds) => stats_have_error_from(body, 0)
                || binds_have_error_from(binds, 0),
            Expr_::Id(_) => false,
            Expr_::Parentheses(e) => e.has_error(),
            Expr_::Const(c) => c.has_error(),
            Expr_::Error => true,
        }
    }
}

impl Const {
    /// Whether an `Error` node stands in one of this literal's element
    /// expressions.
    pub fn has_error(&self) -> (r: bool)
        ensures
            r == const_has_error(*self),
        decreases *self, 2int,
    {
        match self {
            Const::Int(_) => false,
            Const::Float(_) => false,
            Const::Str(_) => false,
            Const::Bool(_) => false,
            Const::List(l) => exprs_have_error_from(l, 0),
            Const::SetLit(l) => exprs_have_error_from(l, 0),
            Const::Dict(keys, vals) => exprs_have_error_from(keys, 0) || exprs_have_error_from(
                vals,
                0,
            ),
            Const::Nil => false,
        }
    }
}

impl Ast {
    /// Whether an `Error` node stands anywhere in the tree.
    pub fn has_error(&self) -> (r: bool)
        ensures
            r == ast_has_error(*self),
    {
        stats_have_error_from(&self.statements, 0)
    }

    /// The compiler-acceptance check: a tree is executable exactly when no
    /// `Error` node stands anywhere in it. A tree that fails this check is
    /// still renderable and walkable; it only must not be compiled into
    /// runnable output.
    pub fn is_executable(&self) -> (r: bool)
        ensures
            r == !ast_has_error(*self),
    {
        !self.has_error()
    }
}

impl Stat {
    /// Whether this statement is structurally well-formed: every dict
    /// literal below it carries as many keys as values.
    pub fn is_well_formed(&self) -> (r: bool)
        ensures
            r == stat_wf(*self),
        decreases *self, 2int,
    {
        match &self.val {
            Stat_::Expr(e) => e.is_well_formed(),
            Stat_::Continue => true,
            Stat_::Break => true,
            Stat_::Return(opt) => match opt {
                Option::Some(e) => e.is_well_formed(),
                Option::None => true,
            },
            Stat_::Class(_, _, methods) => exprs_wf_from(methods, 0),
            Stat_::Loop(cond, body) => {
                let cond_ok = match cond {
                    Option::Some(c) => c.is_well_formed(),
                    Option::None => true,
                };
                cond_ok && stats_wf_from(body, 0)
            },
            Stat_::For(vars, iter, body) => vars.is_well_formed() && iter.is_well_formed()
                && stats_wf_from(body, 0),
            Stat_::Error => true,
        }
    }
}

impl Expr {
    /// Whether this expression is structurally well-formed: every dict
    /// literal below it carries as many keys as values.
    pub fn is_well_formed(&self) -> (r: bool)
        ensures
            r == expr_wf(*self),
        decreases *self, 2int,
    {
        match &self.val {
            Expr_::Block(b) => stats_wf_from(b, 0),
            Expr_::If(chain) => exprs_wf_from(chain, 0),
            Expr_::Prefix(_, e) => e.is_well_formed(),
            Expr_::Call(f, args) => f.is_well_formed() && exprs_wf_from(args, 0),
            Expr_::Index(t, i) => t.is_well_formed() && i.is_well_formed(),
            Expr_::Infix(_, l, r) => l.is_well_formed() && r.is_well_formed(),
            Expr_::Def(_, _, body, binds) => stats_wf_from(body, 0) && binds_wf_from(binds, 0),
            Expr_::Id(_) => true,
            Expr_::Parentheses(e) => e.is_well_formed(),
            Expr_::Const(c) => c.is_well_formed(),
            Expr_::Error => true,
        }
    }
}

impl Const {
    /// Whether this literal is structurally well-formed. For a dict literal
    /// this checks that the key and value sequences have the same length.
    pub fn is_well_formed(&self) -> (r: bool)
        ensures
            r == const_wf(*self),
        decreases *self, 2int,
    {
        match self {
            Const::Int(_) => true,
            Const::Float(_) => true,
            Const::Str(_) => true,
            Const::Bool(_) => true,
            Const::List(l) => exprs_wf_from(l, 0),
            Const::SetLit(l) => exprs_wf_from(l, 0),
            Const::Dict(keys, vals) => keys.len() == vals.len() && exprs_wf_from(keys, 0)
                && exprs_wf_from(vals, 0),
            Const::Nil => true,
        }
    }
}

impl Ast {
    /// Whether the whole tree is structurally well-formed.
    pub fn is_well_formed(&self) -> (r: bool)
        ensures
            r == ast_wf(*self),
    {
        stats_wf_from(&self.statements, 0)
    }
}

fn stats_wf_from(ss: &Vec<Stat>, i: usize) -> (r: bool)
    ensures
        r == forall|j: int| i <= j < ss@.len() ==> stat_wf(#[trigger] ss@[j]),
    decreases ss@, ss@.len() - i,
{
    if i >= ss.len() {
        true
    } else {
        ss[i].is_well_formed() && stats_wf_from(ss, i + 1)
    }
}

fn exprs_wf_from(es: &Vec<Expr>, i: usize) -> (r: bool)
    ensures
        r == forall|j: int| i <= j < es@.len() ==> expr_wf(#[trigger] es@[j]),
    decreases es@, es@.len() - i,
{
    if i >= es.len() {
        true
    } else {
        es[i].is_well_formed() && exprs_wf_from(es, i + 1)
    }
}

fn binds_wf_from(bs: &Vec<(String, Expr)>, i: usize) -> (r: bool)
    ensures
        r == forall|j: int| i <= j < bs@.len() ==> expr_wf(#[trigger] bs@[j].1),
    decreases bs@, bs@.len() - i,
{
    if i >= bs.len() {
        true
    } else {
        bs[i].1.is_well_formed() && binds_wf_from(bs, i + 1)
    }
}

fn stats_have_error_from(ss: &Vec<Stat>, i: usize) -> (r: bool)
    ensures
        r == stats_have_error(ss@, i as nat),
    decreases ss@, ss@.len() - i,
{
    if i >= ss.len() {
        false
    } else {
        ss[i].has_error() || stats_have_error_from(ss, i + 1)
    }
}

fn exprs_have_error_from(es: &Vec<Expr>, i: usize) -> (r: bool)
    ensures
        r == exprs_have_error(es@, i as nat),
    decreases es@, es@.len() - i,
{
    if i >= es.len() {
        false
    } else {
        es[i].has_error() || exprs_have_error_from(es, i + 1)
    }
}

fn binds_have_error_from(bs: &Vec<(String, Expr)>, i: usize) -> (r: bool)
    ensures
        r == binds_have_error(bs@, i as nat),
    decreases bs@, bs@.len() - i,
{
    if i >= bs.len() {
        false
    } else {
        bs[i].1.has_error() || binds_have_error_from(bs, i + 1)
    }
}

} // verus!
