//! Tracebacks: the chain of context frames that led to an error, with an
//! optional captured expression, and the text they render to.
use vstd::prelude::*;
use crate::name::{Name, NameStore};
use crate::value::{Value, names_known, value_text, pretty_print};

verus! {

/// A single traceable event in either compilation or execution of code.
#[derive(Clone, Copy, Debug, PartialEq, Eq, Structural)]
pub enum TraceItem {
    /// Call to a code object; `(scope name, code name)`
    CallCode(Name, Name),
    /// Call to a code object generated by an expression
    CallExpr(Name),
    /// Call to an anonymous function
    CallLambda(Name),
    /// Call to a macro; `(scope name, macro name)`
    CallMacro(Name, Name),
    /// Expansion of an operator; `(scope name, operator name)`
    CallOperator(Name, Name),
    /// Call to a system function
    CallSys(Name),
    /// Definition of a named value; `(scope name, definition name)`
    Define(Name, Name),
    /// Definition of a constant value; `(scope name, const name)`
    DefineConst(Name, Name),
    /// Definition of an anonymous lambda
    DefineLambda(Name),
    /// Definition of a macro; `(scope name, macro name)`
    DefineMacro(Name, Name),
    /// Definition of a structure; `(scope name, struct name)`
    DefineStruct(Name, Name),
    /// Module import declaration; `(scope name, module name)`
    UseModule(Name, Name),
}

/// Abstract content of a trace: its items in order and its expression.
pub type TraceView = (Seq<TraceItem>, Option<Value>);

/// A series of items, beginning with the outermost context and culminating
/// with the context in which an error was generated.
pub struct Trace {
    items: Vec<TraceItem>,
    expr: Option<Value>,
}

impl View for Trace {
    type V = TraceView;

    closed spec fn view(&self) -> TraceView {
        (self.items@, self.expr)
    }
}

/// What `take_expr` returns from a trace whose content is `v`.
pub open spec fn take_expr_result(v: TraceView) -> Option<Value> {
    v.1
}

/// Content of a trace after `take_expr`.
pub open spec fn after_take_expr(v: TraceView) -> TraceView {
    (v.0, None)
}

/// Whether every name that `item` carries is an entry of `names`.
pub open spec fn item_names_known(item: TraceItem, names: NameStore) -> bool {
    match item {
        TraceItem::CallCode(m, n) => names.has(m) && names.has(n),
        TraceItem::CallExpr(m) => names.has(m),
        TraceItem::CallLambda(m) => names.has(m),
        TraceItem::CallMacro(m, n) => names.has(m) && names.has(n),
        TraceItem::CallOperator(m, n) => names.has(m) && names.has(n),
        TraceItem::CallSys(n) => names.has(n),
        TraceItem::Define(m, n) => names.has(m) && names.has(n),
        TraceItem::DefineConst(m, n) => names.has(m) && names.has(n),
        TraceItem::DefineLambda(m) => names.has(m),
        TraceItem::DefineMacro(m, n) => names.has(m) && names.has(n),
        TraceItem::DefineStruct(m, n) => names.has(m) && names.has(n),
        TraceItem::UseModule(m, n) => names.has(m) && names.has(n),
    }
}

/// Whether every name in a trace with content `v` is an entry of `names`.
pub open spec fn trace_names_known(v: TraceView, names: NameStore) -> bool {
    &&& forall|i: int| 0 <= i < v.0.len() ==> item_names_known(#[trigger] v.0[i], names)
    &&& match v.1 {
        Some(e) => names_known(e, names),
        None => true,
    }
}

/// The line `  In {scope}{label}\n`.
pub open spec fn scope_line(names: NameStore, scope: Name, label: Seq<char>) -> Seq<char> {
    "  In "@ + names.text(scope) + label + "\n"@
}

/// The line `  In {scope}{label}{name}\n`.
pub open spec fn scope_name_line(
    names: NameStore,
    scope: Name,
    label: Seq<char>,
    name: Name,
) -> Seq<char> {
    "  In "@ + names.text(scope) + label + names.text(name) + "\n"@
}

/// The line that stands for `item` in a rendered trace.
pub open spec fn item_line(item: TraceItem, names: NameStore) -> Seq<char> {
    match item {
        TraceItem::CallCode(m, n) => scope_name_line(names, m, ", function "@, n),
        TraceItem::CallExpr(m) => scope_line(names, m, ", call expression"@),
        TraceItem::CallLambda(m) => scope_line(names, m, ", lambda"@),
        TraceItem::CallMacro(m, n) => scope_name_line(names, m, ", macro expansion "@, n),
        TraceItem::CallOperator(m, n) => scope_name_line(names, m, ", operator "@, n),
        TraceItem::CallSys(n) => "  In system function "@ + names.text(n) + "\n"@,
        TraceItem::Define(m, n) => scope_name_line(names, m, ", define "@, n),
        TraceItem::DefineConst(m, n) => scope_name_line(names, m, ", const "@, n),
        TraceItem::DefineLambda(m) => scope_line(names, m, ", lambda"@),
        TraceItem::DefineMacro(m, n) => scope_name_line(names, m, ", macro "@, n),
        TraceItem::DefineStruct(m, n) => scope_name_line(names, m, ", struct "@, n),
        TraceItem::UseModule(m, n) => scope_name_line(names, m, ", use "@, n),
    }
}

/// The lines of `items`, one per item, in order.
pub open spec fn items_text(items: Seq<TraceItem>, names: NameStore) -> Seq<char>
    decreases items.len(),
{
    if items.len() == 0 {
        Seq::empty()
    } else {
        items_text(items.drop_last(), names) + item_line(items.last(), names)
    }
}

/// Rendered form of a trace with content `v`: the item lines, then, if an
/// expression is held, four spaces, its printed form and a newline.
pub open spec fn trace_text(v: TraceView, names: NameStore) -> Seq<char> {
    items_text(v.0, names) + match v.1 {
        Some(e) => "    "@ + value_text(e, names) + "\n"@,
        None => Seq::empty(),
    }
}

/// Appends `  In {scope}{label}\n` to `out`.
fn write_scope_line(out: &mut String, names: &NameStore, scope: Name, label: &str)
    requires
        names.has(scope),
    ensures
        final(out)@ == old(out)@ + scope_line(*names, scope, label@),
{
    out.append("  In ");
    out.append(names.get(scope));
    out.append(label);
    out.append("\n");
    assert(final(out)@ =~= old(out)@ + scope_line(*names, scope, label@));
}

/// Appends `  In {scope}{label}{name}\n` to `out`.
fn write_scope_name_line(out: &mut String, names: &NameStore, scope: Name, label: &str, name: Name)
    requires
        names.has(scope),
        names.has(name),
    ensures
        final(out)@ == old(out)@ + scope_name_line(*names, scope, label@, name),
{
    out.append("  In ");
    out.append(names.get(scope));
    out.append(label);
    out.append(names.get(name));
    out.append("\n");
    assert(final(out)@ =~= old(out)@ + scope_name_line(*names, scope, label@, name));
}

/// Appends the line of `item` to `out`.
fn write_item(out: &mut String, names: &NameStore, item: TraceItem)
    requires
        item_names_known(item, *names),
    ensures
        final(out)@ == old(out)@ + item_line(item, *names),
{
    match item {
        TraceItem::CallCode(m, n) => write_scope_name_line(out, names, m, ", function ", n),
        TraceItem::CallExpr(m) => write_scope_line(out, names, m, ", call expression"),
        TraceItem::CallLambda(m) => write_scope_line(out, names, m, ", lambda"),
        TraceItem::CallMacro(m, n) => write_scope_name_line(out, names, m, ", macro expansion ", n),
        TraceItem::CallOperator(m, n) => write_scope_name_line(out, names, m, ", operator ", n),
        TraceItem::CallSys(n) => {
            out.append("  In system function ");
            out.append(names.get(n));
            out.append("\n");
            assert(final(out)@ =~= old(out)@ + item_line(item, *names));
        },
        TraceItem::Define(m, n) => write_scope_name_line(out, names, m, ", define ", n),
        TraceItem::DefineConst(m, n) => write_scope_name_line(out, names, m, ", const ", n),
        TraceItem::DefineLambda(m) => write_scope_line(out, names, m, ", lambda"),
        TraceItem::DefineMacro(m, n) => write_scope_name_line(out, names, m, ", macro ", n),
        TraceItem::DefineStruct(m, n) => write_scope_name_line(out, names, m, ", struct ", n),
        TraceItem::UseModule(m, n) => write_scope_name_line(out, names, m, ", use ", n),
    }
}

impl Trace {
    /// Creates a new `Trace` from a series of items.
    pub fn new(items: Vec<TraceItem>, expr: Option<Value>) -> (r: Trace)
        ensures
            r@ == (items@, expr),
    {
        Trace { items, expr }
    }

    /// Creates a new `Trace` from a single item.
    pub fn single(item: TraceItem, expr: Option<Value>) -> (r: Trace)
        ensures
            r@ == (seq![item], expr),
    {
        let r = Trace::new(vec![item], expr);
        assert(r@.0 =~= seq![item]);
        r
    }

    /// Returns the series of traced items.
    pub fn items(&self) -> (r: &[TraceItem])
        ensures
            r@ == self@.0,
    {
        self.items.as_slice()
    }

    /// Returns a borrowed reference to the optional contained expression.
    pub fn expr(&self) -> (r: Option<&Value>)
        ensures
            match self@.1 {
                Some(v) => r == Some(&v),
                None => r.is_none(),
            },
    {
        match &self.expr {
            Some(v) => Some(v),
            None => None,
        }
    }

    /// Takes the optional contained expression and returns it.
    pub fn take_expr(&mut self) -> (r: Option<Value>)
        ensures
            r == take_expr_result(old(self)@),
            final(self)@ == after_take_expr(old(self)@),
    {
        self.expr.take()
    }

    /// Appends the rendered trace to `out`: one line per item, in order,
    /// then the expression, if any, indented by four spaces.
    pub fn fmt(&self, names: &NameStore, out: &mut String)
        requires
            trace_names_known(self@, *names),
        ensures
            final(out)@ == old(out)@ + trace_text(self@, *names),
    {
        let mut i: usize = 0;
        while i < self.items.len()
            invariant
                i <= self.items@.len(),
                trace_names_known(self@, *names),
                out@ == old(out)@ + items_text(self.items@.take(i as int), *names),
            decreases self.items@.len() - i,
        {
            let item = self.items[i];
            assert(item_names_known(self@.0[i as int], *names));
            write_item(out, names, item);
            proof {
                let next = self.items@.take(i + 1);
                assert(next.drop_last() =~= self.items@.take(i as int));
                assert(next.last() == item);
            }
            i = i + 1;
        }
        assert(self.items@.take(i as int) =~= self.items@);
        match &self.expr {
            Some(e) => {
                out.append("    ");
                pretty_print(out, names, e);
                out.append("\n");
            },
            None => {},
        }
        assert(final(out)@ =~= old(out)@ + trace_text(self@, *names));
    }
}

impl Clone for Trace {
    fn clone(&self) -> (r: Trace)
        ensures
            r@ == self@,
    {
        let items = self.items.clone();
        proof {
            assert forall|i: int| 0 <= i < items@.len() implies items@[i] == self.items@[i] by {
                assert(cloned::<TraceItem>(self.items[i], items[i]));
            }
            assert(items@ =~= self.items@);
        }
        let expr = match &self.expr {
            Some(v) => Some(v.clone()),
            None => None,
        };
        Trace { items, expr }
    }
}

/// Taking the expression yields what the trace held, and every later take
/// yields nothing: the expression is handed out at most once.
pub proof fn lemma_take_expr_once(v: TraceView)
    ensures
        take_expr_result(v) == v.1,
        take_expr_result(after_take_expr(v)).is_none(),
        after_take_expr(after_take_expr(v)) == after_take_expr(v),
        after_take_expr(v).0 == v.0,
{
}

/// The slot that holds the traceback of one session of work: empty or
/// holding one trace.
pub struct Traceback {
    slot: Option<Trace>,
}

impl View for Traceback {
    type V = Option<Trace>;

    closed spec fn view(&self) -> Option<Trace> {
        self.slot
    }
}

impl Traceback {
    /// Creates an empty slot.
    pub fn new() -> (r: Traceback)
        ensures
            r@.is_none(),
    {
        Traceback { slot: None }
    }
}

/// Content of what `get_traceback` returns from a slot holding `s`.
pub open spec fn get_result(s: Option<Trace>) -> Option<TraceView> {
    match s {
        Some(t) => Some(t@),
        None => None,
    }
}

/// What `take_traceback` returns from a slot holding `s`.
pub open spec fn take_result(s: Option<Trace>) -> Option<Trace> {
    s
}

/// A slot after `set_traceback(t)`, whatever it held before.
pub open spec fn slot_after_set(s: Option<Trace>, t: Trace) -> Option<Trace> {
    Some(t)
}

/// A slot after `take_traceback` or `clear_traceback`.
pub open spec fn slot_emptied(s: Option<Trace>) -> Option<Trace> {
    None
}

/// Removes the traceback value held by `tb`.
pub fn clear_traceback(tb: &mut Traceback)
    ensures
        final(tb)@ == slot_emptied(old(tb)@),
{
    tb.slot = None;
}

/// Clones and returns the traceback value held by `tb`.
///
/// The value remains stored for future calls to `get_traceback`.
pub fn get_traceback(tb: &Traceback) -> (r: Option<Trace>)
    ensures
        get_result(r) == get_result(tb@),
{
    match &tb.slot {
        Some(t) => Some(t.clone()),
        None => None,
    }
}

/// Stores `trace` in `tb`, dropping whatever it held.
pub fn set_traceback(tb: &mut Traceback, trace: Trace)
    ensures
        final(tb)@ == slot_after_set(old(tb)@, trace),
{
    tb.slot = Some(trace);
}

/// Removes and returns the traceback value held by `tb`.
pub fn take_traceback(tb: &mut Traceback) -> (r: Option<Trace>)
    ensures
        r == take_result(old(tb)@),
        final(tb)@ == slot_emptied(old(tb)@),
{
    tb.slot.take()
}

/// After `set_traceback(t)`, `get_traceback` returns a copy of `t`, and since
/// it leaves the slot as it was, every further `get_traceback` does too.
pub proof fn lemma_get_after_set(s: Option<Trace>, t: Trace)
    ensures
        get_result(slot_after_set(s, t)) == Some(t@),
{
}

/// After `set_traceback(t)`, `take_traceback` returns `t` itself; a second
/// `take_traceback` then returns nothing, and so does `get_traceback`.
pub proof fn lemma_take_after_set(s: Option<Trace>, t: Trace)
    ensures
        take_result(slot_after_set(s, t)) == Some(t),
        take_result(slot_emptied(slot_after_set(s, t))).is_none(),
        get_result(slot_emptied(slot_after_set(s, t))).is_none(),
{
}

/// After `clear_traceback`, whatever the slot held, both `get_traceback` and
/// `take_traceback` return nothing.
pub proof fn lemma_clear_empties(s: Option<Trace>)
    ensures
        get_result(slot_emptied(s)).is_none(),
        take_result(slot_emptied(s)).is_none(),
{
}

/// `Trace::new(items, expr).items()` holds `items` in the order given: the
/// content that `new` builds has `items` as its sequence, unchanged.
pub proof fn lemma_new_keeps_items(items: Vec<TraceItem>, expr: Option<Value>, t: Trace)
    requires
        t@ == (items@, expr),
    ensures
        t@.0.len() == items@.len(),
        forall|i: int| 0 <= i < items@.len() ==> t@.0[i] == items@[i],
{
}

} // verus!
